//! What a key press does on each screen: the change to the state, and the
//! outside work (editing a text field, storing or sending) that is left to the
//! caller.
use vstd::prelude::*;

use crate::api::{spec_prepared, PreparedRequest, PreparedView, Request, RequestType, RequestView};
use crate::app::{
    spec_select_next, spec_select_previous, select_next, select_previous, ActiveCollectionField,
    ActiveEditField, App, AppError, AppView, CurrentScreen,
};

verus! {

/// The key of a key press, as far as the screens tell keys apart.
#[derive(Debug, Clone, Copy, PartialEq, Eq, Structural)]
pub enum KeyCode {
    Char(char),
    Esc,
    Enter,
    Tab,
    BackTab,
    Up,
    Down,
    Other,
}

/// A key press: the key, and whether Alt was held.
#[derive(Debug, Clone, Copy, PartialEq, Eq, Structural)]
pub struct Key {
    pub code: KeyCode,
    pub alt: bool,
}

/// A text field that a key press is handed to for editing.
#[derive(Debug, Clone, Copy, PartialEq, Eq, Structural)]
pub enum EditTarget {
    RequestName,
    Url,
    Body,
    CollectionName,
}

/// Outside work that a key press calls for, after the state has changed.
pub enum Effect {
    /// Nothing more to do.
    Nothing,
    /// Hand the key press to this text field's editor, then store the edited
    /// text back into the state.
    Edit(EditTarget),
    /// Store the history in the open collection, then send this request as prepared.
    Send(Request, PreparedRequest),
    /// Store the history in the open collection.
    PersistHistory,
    /// The operation failed with this error.
    Failed(AppError),
    /// Store the configuration with its new collection, then open that collection.
    SwitchCollection,
    /// Create a collection with this name, then reload the list of collections.
    CreateCollection(String),
    /// Delete the collection with this name, then reload the list of collections.
    RemoveCollection(String),
    /// Reset the text editors to the state's texts.
    ReloadEditors,
}

/// An effect, with its texts as sequences of characters.
pub enum EffectView {
    Nothing,
    Edit(EditTarget),
    Send(RequestView, PreparedView),
    PersistHistory,
    Failed(AppError),
    SwitchCollection,
    CreateCollection(Seq<char>),
    RemoveCollection(Seq<char>),
    ReloadEditors,
}

impl View for Effect {
    type V = EffectView;

    open spec fn view(&self) -> EffectView {
        match self {
            Effect::Nothing => EffectView::Nothing,
            Effect::Edit(t) => EffectView::Edit(*t),
            Effect::Send(r, p) => EffectView::Send(r@, p@),
            Effect::PersistHistory => EffectView::PersistHistory,
            Effect::Failed(e) => EffectView::Failed(*e),
            Effect::SwitchCollection => EffectView::SwitchCollection,
            Effect::CreateCollection(n) => EffectView::CreateCollection(n@),
            Effect::RemoveCollection(n) => EffectView::RemoveCollection(n@),
            Effect::ReloadEditors => EffectView::ReloadEditors,
        }
    }
}

/// Whether the key is this character.
pub open spec fn is_char(key: Key, c: char) -> bool {
    key.code == KeyCode::Char(c)
}

/// Whether the key moves up a list: the up arrow or `k`.
pub open spec fn is_up(key: Key) -> bool {
    key.code == KeyCode::Up || is_char(key, 'k')
}

/// Whether the key moves down a list: the down arrow or `j`.
pub open spec fn is_down(key: Key) -> bool {
    key.code == KeyCode::Down || is_char(key, 'j')
}

/// The text field that the request editor hands keys to.
pub open spec fn edit_target(f: ActiveEditField) -> EditTarget {
    match f {
        ActiveEditField::Name => EditTarget::RequestName,
        ActiveEditField::Url => EditTarget::Url,
        ActiveEditField::Body => EditTarget::Body,
    }
}

/// The state with the screen switched.
pub open spec fn on_screen(m: AppView, s: CurrentScreen) -> AppView {
    AppView { current_screen: s, ..m }
}

/// The state with the application asked to stop.
pub open spec fn quitting(m: AppView) -> AppView {
    AppView { should_quit: true, ..m }
}

/// A key press on the main screen: `q` or Esc quit; `e`, `h` and `c` open the
/// editor, history and collections; `p` switches the protocol; up/`k` and
/// down/`j` scroll the response; Tab and Shift-Tab cycle the method forward
/// and back; Enter sends the composed request.
pub open spec fn step_main(m: AppView, key: Key) -> (AppView, EffectView) {
    if key.code == KeyCode::Esc || is_char(key, 'q') {
        (quitting(m), EffectView::Nothing)
    } else if is_char(key, 'e') {
        (on_screen(m, CurrentScreen::Editing), EffectView::Nothing)
    } else if is_char(key, 'h') {
        (on_screen(m, CurrentScreen::History), EffectView::Nothing)
    } else if is_char(key, 'c') {
        (on_screen(m, CurrentScreen::Collection), EffectView::Nothing)
    } else if is_char(key, 'p') {
        (AppView { protocol: m.protocol.spec_toggled(), ..m }, EffectView::Nothing)
    } else if is_up(key) {
        (AppView { scroll_response: if m.scroll_response == 0 { 0 } else { (m.scroll_response - 1) as u16 }, ..m }, EffectView::Nothing)
    } else if is_down(key) {
        (AppView {
            scroll_response: if m.scroll_response == u16::MAX { u16::MAX } else { (m.scroll_response + 1) as u16 },
            ..m
        }, EffectView::Nothing)
    } else if key.code == KeyCode::BackTab {
        (AppView { request_type: RequestType::at_position(m.request_type.position() + 4), ..m }, EffectView::Nothing)
    } else if key.code == KeyCode::Tab {
        (AppView { request_type: RequestType::at_position(m.request_type.position() + 1), ..m }, EffectView::Nothing)
    } else if key.code == KeyCode::Enter {
        let (m2, r) = m.sent();
        (m2, match r {
            Some(q) => EffectView::Send(q, spec_prepared(q, m.request_timeout)),
            None => EffectView::Nothing,
        })
    } else {
        (m, EffectView::Nothing)
    }
}

/// A key press in the request editor: Tab moves the focus from the name to the
/// address, then back and forth between the address and the body; Esc, Enter
/// or Alt-s return to the main screen; any other key goes to the focused field.
pub open spec fn step_editing(m: AppView, key: Key) -> (AppView, EffectView) {
    if key.code == KeyCode::Tab {
        (AppView { active_edit_field: m.active_edit_field.spec_tab_target(), ..m }, EffectView::Nothing)
    } else if key.code == KeyCode::Esc || key.code == KeyCode::Enter || (is_char(key, 's') && key.alt) {
        (on_screen(m, CurrentScreen::Main), EffectView::Nothing)
    } else {
        (m, EffectView::Edit(edit_target(m.active_edit_field)))
    }
}

/// A key press in the history: Esc returns to the main screen; `q` quits; `d`
/// deletes the selected entry; up/`k` and down/`j` move the selection; Enter
/// loads the selected entry into the editor.
pub open spec fn step_history(m: AppView, key: Key) -> (AppView, EffectView) {
    if key.code == KeyCode::Esc {
        (on_screen(m, CurrentScreen::Main), EffectView::Nothing)
    } else if is_char(key, 'q') {
        (quitting(m), EffectView::Nothing)
    } else if is_char(key, 'd') {
        match m.without_selected_request() {
            Some(v) => (v, EffectView::PersistHistory),
            None => (m, EffectView::Failed(AppError::NoRequestSelected)),
        }
    } else if is_up(key) {
        (AppView { history_state: spec_select_previous(m.history_state), ..m }, EffectView::Nothing)
    } else if is_down(key) {
        (AppView { history_state: spec_select_next(m.history_state), ..m }, EffectView::Nothing)
    } else if key.code == KeyCode::Enter {
        (m.with_selected_request(), if m.selected_request() is Some {
            EffectView::ReloadEditors
        } else {
            EffectView::Nothing
        })
    } else {
        (m, EffectView::Nothing)
    }
}

/// A key press in the collections overlay: Tab switches between the list and
/// the new-name field; Esc returns to the main screen. With the list focused,
/// up/`k` and down/`j` move the selection, `d` deletes the selected collection,
/// `q` quits and Enter opens the selected collection. With the name field
/// focused, Enter creates a collection with the typed name and other keys go
/// to the field.
pub open spec fn step_collection(m: AppView, key: Key) -> (AppView, EffectView) {
    let on_list = m.active_collection_field == ActiveCollectionField::CollectionList;
    if key.code == KeyCode::Tab {
        (AppView { active_collection_field: m.active_collection_field.spec_toggled(), ..m }, EffectView::Nothing)
    } else if key.code == KeyCode::Esc {
        (on_screen(m, CurrentScreen::Main), EffectView::Nothing)
    } else if is_up(key) && on_list {
        (AppView { collection_state: spec_select_previous(m.collection_state), ..m }, EffectView::Nothing)
    } else if is_char(key, 'd') && on_list {
        (m, match m.selected_collection() {
            Some(n) => EffectView::RemoveCollection(n),
            None => EffectView::Nothing,
        })
    } else if is_char(key, 'q') && on_list {
        (quitting(m), EffectView::Nothing)
    } else if is_down(key) && on_list {
        (AppView { collection_state: spec_select_next(m.collection_state), ..m }, EffectView::Nothing)
    } else if key.code == KeyCode::Enter {
        if on_list {
            match m.with_selected_collection() {
                Some(v) => (v, EffectView::SwitchCollection),
                None => (m, EffectView::Nothing),
            }
        } else {
            (m.collection_name_taken(), EffectView::CreateCollection(m.collection_name))
        }
    } else if on_list {
        (m, EffectView::Nothing)
    } else {
        (m, EffectView::Edit(EditTarget::CollectionName))
    }
}

/// A key press on the error or testing overlay: Esc returns to the main
/// screen and `q` quits.
pub open spec fn step_notice(m: AppView, key: Key) -> (AppView, EffectView) {
    if key.code == KeyCode::Esc {
        (on_screen(m, CurrentScreen::Main), EffectView::Nothing)
    } else if is_char(key, 'q') {
        (quitting(m), EffectView::Nothing)
    } else {
        (m, EffectView::Nothing)
    }
}

/// What a key press does, on whichever screen is showing.
pub open spec fn step(m: AppView, key: Key) -> (AppView, EffectView) {
    match m.current_screen {
        CurrentScreen::Main => step_main(m, key),
        CurrentScreen::Editing => step_editing(m, key),
        CurrentScreen::History => step_history(m, key),
        CurrentScreen::Collection => step_collection(m, key),
        CurrentScreen::Error | CurrentScreen::Testing => step_notice(m, key),
    }
}

fn update_main(app: &mut App, key: Key) -> (e: Effect)
    requires
        old(app)@.current_screen == CurrentScreen::Main,
    ensures
        (final(app)@, e@) == step_main(old(app)@, key),
{
    match key.code {
        KeyCode::Esc | KeyCode::Char('q') => {
            app.quit();
            Effect::Nothing
        },
        KeyCode::Char('e') => {
            app.current_screen = CurrentScreen::Editing;
            Effect::Nothing
        },
        KeyCode::Char('h') => {
            app.current_screen = CurrentScreen::History;
            Effect::Nothing
        },
        KeyCode::Char('c') => {
            app.current_screen = CurrentScreen::Collection;
            Effect::Nothing
        },
        KeyCode::Char('p') => {
            app.protocol = app.protocol.toggled();
            Effect::Nothing
        },
        KeyCode::Up | KeyCode::Char('k') => {
            app.scroll_response = app.scroll_response.saturating_sub(1);
            Effect::Nothing
        },
        KeyCode::Down | KeyCode::Char('j') => {
            app.scroll_response = app.scroll_response.saturating_add(1);
            Effect::Nothing
        },
        KeyCode::BackTab => {
            app.request_type = app.request_type.previous();
            Effect::Nothing
        },
        KeyCode::Tab => {
            app.request_type = app.request_type.next();
            Effect::Nothing
        },
        KeyCode::Enter => match app.send_request() {
            Some(r) => {
                let prepared = r.prepare(app.config.request_timeout);
                Effect::Send(r, prepared)
            },
            None => Effect::Nothing,
        },
        _ => Effect::Nothing,
    }
}

fn update_editing(app: &mut App, key: Key) -> (e: Effect)
    requires
        old(app)@.current_screen == CurrentScreen::Editing,
    ensures
        (final(app)@, e@) == step_editing(old(app)@, key),
{
    if key.code == KeyCode::Tab {
        app.active_edit_field = app.active_edit_field.tab_target();
        Effect::Nothing
    } else if key.code == KeyCode::Esc || key.code == KeyCode::Enter || (key.code == KeyCode::Char('s')
        && key.alt) {
        app.current_screen = CurrentScreen::Main;
        Effect::Nothing
    } else {
        match app.active_edit_field {
            ActiveEditField::Name => Effect::Edit(EditTarget::RequestName),
            ActiveEditField::Url => Effect::Edit(EditTarget::Url),
            ActiveEditField::Body => Effect::Edit(EditTarget::Body),
        }
    }
}

fn update_history(app: &mut App, key: Key) -> (e: Effect)
    requires
        old(app)@.current_screen == CurrentScreen::History,
    ensures
        (final(app)@, e@) == step_history(old(app)@, key),
{
    match key.code {
        KeyCode::Esc => {
            app.current_screen = CurrentScreen::Main;
            Effect::Nothing
        },
        KeyCode::Char('q') => {
            app.quit();
            Effect::Nothing
        },
        KeyCode::Char('d') => match app.delete_request() {
            Ok(()) => Effect::PersistHistory,
            Err(e) => Effect::Failed(e),
        },
        KeyCode::Up | KeyCode::Char('k') => {
            app.history_state = select_previous(app.history_state);
            Effect::Nothing
        },
        KeyCode::Down | KeyCode::Char('j') => {
            app.history_state = select_next(app.history_state);
            Effect::Nothing
        },
        KeyCode::Enter => {
            let loaded = app.selected_request().is_some();
            app.set_request();
            if loaded {
                Effect::ReloadEditors
            } else {
                Effect::Nothing
            }
        },
        _ => Effect::Nothing,
    }
}

fn update_collection(app: &mut App, key: Key) -> (e: Effect)
    requires
        old(app)@.current_screen == CurrentScreen::Collection,
    ensures
        (final(app)@, e@) == step_collection(old(app)@, key),
{
    let on_list = app.active_collection_field == ActiveCollectionField::CollectionList;
    match key.code {
        KeyCode::Tab => {
            app.active_collection_field = app.active_collection_field.toggled();
            Effect::Nothing
        },
        KeyCode::Esc => {
            app.current_screen = CurrentScreen::Main;
            Effect::Nothing
        },
        KeyCode::Up if on_list => {
            app.collection_state = select_previous(app.collection_state);
            Effect::Nothing
        },
        KeyCode::Char('k') if on_list => {
            app.collection_state = select_previous(app.collection_state);
            Effect::Nothing
        },
        KeyCode::Char('d') if on_list => match app.delete_collection() {
            Some(name) => Effect::RemoveCollection(name),
            None => Effect::Nothing,
        },
        KeyCode::Char('q') if on_list => {
            app.quit();
            Effect::Nothing
        },
        KeyCode::Down if on_list => {
            app.collection_state = select_next(app.collection_state);
            Effect::Nothing
        },
        KeyCode::Char('j') if on_list => {
            app.collection_state = select_next(app.collection_state);
            Effect::Nothing
        },
        KeyCode::Enter => if on_list {
            match app.set_collection() {
                Ok(()) => Effect::SwitchCollection,
                Err(_) => Effect::Nothing,
            }
        } else {
            Effect::CreateCollection(app.add_collection())
        },
        _ => if on_list {
            Effect::Nothing
        } else {
            Effect::Edit(EditTarget::CollectionName)
        },
    }
}

fn update_notice(app: &mut App, key: Key) -> (e: Effect)
    requires
        old(app)@.current_screen == CurrentScreen::Error || old(app)@.current_screen
            == CurrentScreen::Testing,
    ensures
        (final(app)@, e@) == step_notice(old(app)@, key),
{
    match key.code {
        KeyCode::Esc => {
            app.current_screen = CurrentScreen::Main;
            Effect::Nothing
        },
        KeyCode::Char('q') => {
            app.quit();
            Effect::Nothing
        },
        _ => Effect::Nothing,
    }
}

/// Applies a key press to the state, as the screen that is showing handles it,
/// and says what outside work is left to do.
pub fn update(app: &mut App, key: Key) -> (e: Effect)
    ensures
        (final(app)@, e@) == step(old(app)@, key),
{
    match app.current_screen {
        CurrentScreen::Main => update_main(app, key),
        CurrentScreen::Editing => update_editing(app, key),
        CurrentScreen::History => update_history(app, key),
        CurrentScreen::Collection => update_collection(app, key),
        CurrentScreen::Error | CurrentScreen::Testing => update_notice(app, key),
    }
}

} // verus!
