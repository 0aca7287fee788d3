//! A terminal HTTP client: requests, their session history, named
//! collections, and the key-driven screen logic around them.
pub mod api;
pub mod app;
pub mod config;
pub mod history;
pub mod laws;
pub mod theme;
pub mod update;
pub mod view;
