//! Colour roles of the interface and how methods and screens map onto them.
use vstd::prelude::*;
use ratatui::style::Color;

use crate::api::RequestType;

verus! {

/// A terminal colour, as the `ratatui` crate draws it.
#[verifier::external_type_specification]
#[verifier::external_body]
pub struct ExColor(Color);

/// The colours the interface is drawn with: one per role, and one per method.
pub struct Theme {
    pub primary: Color,
    pub secondary: Color,
    pub text: Color,
    pub background: Color,
    pub error: Color,
    pub success: Color,
    pub accent: Color,
    // Request method colours
    pub get: Color,
    pub post: Color,
    pub delete: Color,
    pub patch: Color,
    pub put: Color,
}

impl Theme {
    /// The colour a method's name is shown in.
    pub open spec fn spec_request_color(&self, request: RequestType) -> Color {
        match request {
            RequestType::GET => self.get,
            RequestType::POST => self.post,
            RequestType::DELETE => self.delete,
            RequestType::PATCH => self.patch,
            RequestType::PUT => self.put,
        }
    }

    /// The colour of the body preview: dimmed for methods that send no body.
    pub open spec fn spec_body_color(&self, request: RequestType) -> Color {
        if request.carries_body() {
            self.text
        } else {
            self.background
        }
    }

    /// The colour of a field or list: the text colour when it has the focus,
    /// the background colour when it does not.
    pub fn focus_color(&self, focused: bool) -> (c: Color)
        ensures
            c == if focused { self.text } else { self.background },
    {
        if focused {
            self.text
        } else {
            self.background
        }
    }

    /// The colour a method's name is shown in.
    pub fn derive_request(&self, request: RequestType) -> (c: Color)
        ensures
            c == self.spec_request_color(request),
    {
        match request {
            RequestType::GET => self.get,
            RequestType::POST => self.post,
            RequestType::DELETE => self.delete,
            RequestType::PATCH => self.patch,
            RequestType::PUT => self.put,
        }
    }

    /// The colour of the body preview: the text colour for POST, PUT and PATCH,
    /// the background colour for GET and DELETE, which send no body.
    pub fn derive_body(&self, request: RequestType) -> (c: Color)
        ensures
            c == self.spec_body_color(request),
    {
        match request {
            RequestType::GET | RequestType::DELETE => self.background,
            RequestType::PUT | RequestType::PATCH | RequestType::POST => self.text,
        }
    }
}

} // verus!
