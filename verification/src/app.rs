//! The application state: which screen shows, the request being composed,
//! the history and collections, and the operations on them.
use vstd::prelude::*;
use ratatui::style::Color;

use crate::api::{Protocol, Request, RequestType, RequestView, ResponseData, spec_url_accepted, regex_match_outcome, spec_full_url, URL_PATTERN};
use crate::config::AppConfig;
use crate::history::{History, swap_removed};
use crate::theme::Theme;

verus! {

/// The screen the user is on: the main screen, or one of the overlays drawn over it.
#[derive(Debug, Clone, Copy, PartialEq, Eq, Structural)]
pub enum CurrentScreen {
    Main,
    Editing,
    History,
    Collection,
    Error,
    Testing,
}

impl Default for CurrentScreen {
    /// The main screen.
    fn default() -> (r: Self)
        ensures
            r == CurrentScreen::Main,
    {
        CurrentScreen::Main
    }
}

impl CurrentScreen {
    /// The screen's name, shown in the footer.
    pub open spec fn spec_name(self) -> Seq<char> {
        match self {
            CurrentScreen::Main => "Main"@,
            CurrentScreen::Editing => "Editing"@,
            CurrentScreen::History => "History"@,
            CurrentScreen::Collection => "Collection"@,
            CurrentScreen::Error => "Error"@,
            CurrentScreen::Testing => "Testing"@,
        }
    }

    /// The key help shown in the footer while the screen is showing.
    pub open spec fn spec_help(self) -> Seq<char> {
        match self {
            CurrentScreen::Main => "(q) / (esc) quit, (e) edit url, (tab) change request type, (p) change protocol, (enter) send request"@,
            CurrentScreen::Editing => "(esc) / (alt + s) save value, (tab) switch window"@,
            CurrentScreen::History => "(esc) cancel, (q) quit, (enter) select request "@,
            CurrentScreen::Collection => "(esc) cancel / (q) quit / (enter) add or select collection / (d) delete collection"@,
            CurrentScreen::Error => "(esc) back to main screen, (q) quit"@,
            CurrentScreen::Testing => "(esc) back to main screen, (q) quit"@,
        }
    }

    /// The colour the footer marks the screen with.
    pub open spec fn spec_color(self, theme: &Theme) -> Color {
        match self {
            CurrentScreen::Main => theme.primary,
            CurrentScreen::Editing => theme.error,
            CurrentScreen::History => theme.success,
            CurrentScreen::Collection => theme.accent,
            CurrentScreen::Error => theme.error,
            CurrentScreen::Testing => theme.patch,
        }
    }

    /// The screen's name, shown in the footer.
    pub fn name(self) -> (r: &'static str)
        ensures
            r@ == self.spec_name(),
    {
        match self {
            CurrentScreen::Main => {
                proof {
                    reveal_strlit("Main");
                }
                "Main"
            },
            CurrentScreen::Editing => {
                proof {
                    reveal_strlit("Editing");
                }
                "Editing"
            },
            CurrentScreen::History => {
                proof {
                    reveal_strlit("History");
                }
                "History"
            },
            CurrentScreen::Collection => {
                proof {
                    reveal_strlit("Collection");
                }
                "Collection"
            },
            CurrentScreen::Error => {
                proof {
                    reveal_strlit("Error");
                }
                "Error"
            },
            CurrentScreen::Testing => {
                proof {
                    reveal_strlit("Testing");
                }
                "Testing"
            },
        }
    }

    /// The colour the footer marks the screen with, taken from the theme.
    pub fn color(self, theme: &Theme) -> (c: Color)
        ensures
            c == self.spec_color(theme),
    {
        match self {
            CurrentScreen::Main => theme.primary,
            CurrentScreen::Editing => theme.error,
            CurrentScreen::History => theme.success,
            CurrentScreen::Collection => theme.accent,
            CurrentScreen::Error => theme.error,
            CurrentScreen::Testing => theme.patch,
        }
    }

    /// The key help shown in the footer while the screen is showing.
    pub fn help(self) -> (r: &'static str)
        ensures
            r@ == self.spec_help(),
    {
        match self {
            CurrentScreen::Main => {
                proof {
                    reveal_strlit("(q) / (esc) quit, (e) edit url, (tab) change request type, (p) change protocol, (enter) send request");
                }
                "(q) / (esc) quit, (e) edit url, (tab) change request type, (p) change protocol, (enter) send request"
            },
            CurrentScreen::Editing => {
                proof {
                    reveal_strlit("(esc) / (alt + s) save value, (tab) switch window");
                }
                "(esc) / (alt + s) save value, (tab) switch window"
            },
            CurrentScreen::History => {
                proof {
                    reveal_strlit("(esc) cancel, (q) quit, (enter) select request ");
                }
                "(esc) cancel, (q) quit, (enter) select request "
            },
            CurrentScreen::Collection => {
                proof {
                    reveal_strlit("(esc) cancel / (q) quit / (enter) add or select collection / (d) delete collection");
                }
                "(esc) cancel / (q) quit / (enter) add or select collection / (d) delete collection"
            },
            CurrentScreen::Error => {
                proof {
                    reveal_strlit("(esc) back to main screen, (q) quit");
                }
                "(esc) back to main screen, (q) quit"
            },
            CurrentScreen::Testing => {
                proof {
                    reveal_strlit("(esc) back to main screen, (q) quit");
                }
                "(esc) back to main screen, (q) quit"
            },
        }
    }
}

/// The field of the request editor that receives typed keys.
#[derive(Debug, Clone, Copy, PartialEq, Eq, Structural)]
pub enum ActiveEditField {
    Name,
    Url,
    Body,
}

impl Default for ActiveEditField {
    /// The name field.
    fn default() -> (r: Self)
        ensures
            r == ActiveEditField::Name,
    {
        ActiveEditField::Name
    }
}

impl ActiveEditField {
    /// The field that gets focus after this one: name, then address, then body, then name again.
    pub open spec fn spec_next(self) -> ActiveEditField {
        match self {
            ActiveEditField::Name => ActiveEditField::Url,
            ActiveEditField::Url => ActiveEditField::Body,
            ActiveEditField::Body => ActiveEditField::Name,
        }
    }

    /// The field that gets focus after this one: name, then address, then body, then name again.
    pub fn next(self) -> (r: ActiveEditField)
        ensures
            r == self.spec_next(),
    {
        match self {
            ActiveEditField::Name => ActiveEditField::Url,
            ActiveEditField::Url => ActiveEditField::Body,
            ActiveEditField::Body => ActiveEditField::Name,
        }
    }
}

impl ActiveEditField {
    /// The field that Tab moves the focus to: from the name to the address,
    /// then back and forth between the address and the body.
    pub open spec fn spec_tab_target(self) -> ActiveEditField {
        match self {
            ActiveEditField::Name => ActiveEditField::Url,
            ActiveEditField::Url => ActiveEditField::Body,
            ActiveEditField::Body => ActiveEditField::Url,
        }
    }

    /// The field that Tab moves the focus to: from the name to the address,
    /// then back and forth between the address and the body.
    pub fn tab_target(self) -> (r: ActiveEditField)
        ensures
            r == self.spec_tab_target(),
    {
        match self {
            ActiveEditField::Body => ActiveEditField::Url,
            _ => self.next(),
        }
    }
}

/// Moving the focus three times brings it back to the field it started on,
/// and each move changes the field.
pub proof fn lemma_edit_field_cycle(f: ActiveEditField)
    ensures
        f.spec_next().spec_next().spec_next() == f,
        f.spec_next() != f,
        f.spec_next().spec_next() != f,
{
}

/// The part of the collection overlay that receives keys: the list of
/// collections, or the field where a new collection's name is typed.
#[derive(Debug, Clone, Copy, PartialEq, Eq, Structural)]
pub enum ActiveCollectionField {
    CollectionList,
    AddCollection,
}

impl Default for ActiveCollectionField {
    /// The list of collections.
    fn default() -> (r: Self)
        ensures
            r == ActiveCollectionField::CollectionList,
    {
        ActiveCollectionField::CollectionList
    }
}

impl ActiveCollectionField {
    /// The other part of the collection overlay.
    pub open spec fn spec_toggled(self) -> ActiveCollectionField {
        match self {
            ActiveCollectionField::CollectionList => ActiveCollectionField::AddCollection,
            ActiveCollectionField::AddCollection => ActiveCollectionField::CollectionList,
        }
    }

    /// The other part of the collection overlay.
    pub fn toggled(self) -> (r: ActiveCollectionField)
        ensures
            r == self.spec_toggled(),
    {
        match self {
            ActiveCollectionField::CollectionList => ActiveCollectionField::AddCollection,
            ActiveCollectionField::AddCollection => ActiveCollectionField::CollectionList,
        }
    }
}

/// A saved collection of requests, known by its name.
pub struct Collection {
    pub name: String,
}

impl Clone for Collection {
    fn clone(&self) -> (r: Self)
        ensures
            r == *self,
    {
        Collection { name: self.name.clone() }
    }
}

impl Collection {
    /// How the collection is listed: by its name.
    pub fn label(&self) -> (r: String)
        ensures
            r@ == self.name@,
    {
        self.name.clone()
    }
}

/// The collections that exist, in the order in which they are listed.
pub struct CollectionStore {
    pub collections: Vec<Collection>,
}

impl View for CollectionStore {
    type V = Seq<Seq<char>>;

    open spec fn view(&self) -> Seq<Seq<char>> {
        self.collections@.map_values(|c: Collection| c.name@)
    }
}

/// Why an operation on the selection could not be carried out.
#[derive(Debug, Clone, Copy, PartialEq, Eq, Structural)]
pub enum AppError {
    /// No entry of the history is selected.
    NoRequestSelected,
    /// No collection is selected.
    NoCollectionSelected,
}

impl AppError {
    /// The error's message.
    pub open spec fn spec_message(self) -> Seq<char> {
        match self {
            AppError::NoRequestSelected => "cannot delete request"@,
            AppError::NoCollectionSelected => "Could not set collection"@,
        }
    }

    /// The error's message.
    pub fn message(self) -> (r: &'static str)
        ensures
            r@ == self.spec_message(),
    {
        match self {
            AppError::NoRequestSelected => "cannot delete request",
            AppError::NoCollectionSelected => "Could not set collection",
        }
    }
}

/// How a sent request ended: with a response, with an error reported by the
/// HTTP client, or without finishing at all.
pub enum RequestOutcome {
    Response(ResponseData),
    Failure(String),
    Aborted,
}

/// A request's ending, with its texts as sequences of characters.
pub enum RequestOutcomeView {
    Response { status: u16, body: Seq<char>, version: Seq<char> },
    Failure(Seq<char>),
    Aborted,
}

impl View for RequestOutcome {
    type V = RequestOutcomeView;

    open spec fn view(&self) -> RequestOutcomeView {
        match self {
            RequestOutcome::Response(d) => RequestOutcomeView::Response {
                status: d.status,
                body: d.body@,
                version: d.version@,
            },
            RequestOutcome::Failure(e) => RequestOutcomeView::Failure(e@),
            RequestOutcome::Aborted => RequestOutcomeView::Aborted,
        }
    }
}

/// Message shown when the composed address is rejected.
pub const INVALID_URL_MESSAGE: &'static str = "Invalid url";

/// Text shown in place of a response when the request never finished.
pub const ABORTED_MESSAGE: &'static str = "Request couldn't be executed";

/// The initial text of the body editor.
pub const INITIAL_BODY: &'static str = "{}";

/// The selection after moving down a list, as `ratatui`'s `ListState::select_next`
/// computes it: the first entry when nothing is selected, else the next index
/// (saturating). It is clamped to the list's length when the list is drawn.
pub open spec fn spec_select_next(sel: Option<usize>) -> Option<usize> {
    match sel {
        None => Some(0usize),
        Some(i) => Some(if i == usize::MAX { usize::MAX } else { (i + 1) as usize }),
    }
}

/// The selection after moving up a list, as `ratatui`'s `ListState::select_previous`
/// computes it: the last entry (`usize::MAX`, clamped when drawn) when nothing is
/// selected, else the previous index (saturating at 0).
pub open spec fn spec_select_previous(sel: Option<usize>) -> Option<usize> {
    match sel {
        None => Some(usize::MAX),
        Some(i) => Some(if i == 0 { 0usize } else { (i - 1) as usize }),
    }
}

/// The selection after moving down a list.
pub fn select_next(sel: Option<usize>) -> (r: Option<usize>)
    ensures
        r == spec_select_next(sel),
{
    match sel {
        None => Some(0),
        Some(i) => Some(i.saturating_add(1)),
    }
}

/// The selection after moving up a list.
pub fn select_previous(sel: Option<usize>) -> (r: Option<usize>)
    ensures
        r == spec_select_previous(sel),
{
    match sel {
        None => Some(usize::MAX),
        Some(i) => Some(i.saturating_sub(1)),
    }
}

/// The whole application state. Text fields hold what the editors show; the
/// list selections hold the selected index of the history and collection lists.
pub struct App {
    pub config: AppConfig,
    pub current_screen: CurrentScreen,
    pub request_name: String,
    pub url: String,
    pub response: String,
    pub request_type: RequestType,
    pub protocol: Protocol,
    pub body: String,
    pub scroll_response: u16,
    pub status_code: u16,
    pub http_version: String,
    pub active_edit_field: ActiveEditField,
    pub history: History,
    pub history_state: Option<usize>,
    pub loading: bool,
    pub collection: CollectionStore,
    pub collection_state: Option<usize>,
    pub collection_name: String,
    pub active_collection_field: ActiveCollectionField,
    pub error: String,
    pub should_quit: bool,
}

/// The application state with its texts as sequences of characters, the
/// history as its sequence of entries and the collections as their names.
pub struct AppView {
    pub config_collection: Seq<char>,
    pub request_timeout: u8,
    pub current_screen: CurrentScreen,
    pub request_name: Seq<char>,
    pub url: Seq<char>,
    pub response: Seq<char>,
    pub request_type: RequestType,
    pub protocol: Protocol,
    pub body: Seq<char>,
    pub scroll_response: u16,
    pub status_code: u16,
    pub http_version: Seq<char>,
    pub active_edit_field: ActiveEditField,
    pub history: Seq<RequestView>,
    pub history_state: Option<usize>,
    pub loading: bool,
    pub collections: Seq<Seq<char>>,
    pub collection_state: Option<usize>,
    pub collection_name: Seq<char>,
    pub active_collection_field: ActiveCollectionField,
    pub error: Seq<char>,
    pub should_quit: bool,
}

impl View for App {
    type V = AppView;

    open spec fn view(&self) -> AppView {
        AppView {
            config_collection: self.config.collection_name@,
            request_timeout: self.config.request_timeout,
            current_screen: self.current_screen,
            request_name: self.request_name@,
            url: self.url@,
            response: self.response@,
            request_type: self.request_type,
            protocol: self.protocol,
            body: self.body@,
            scroll_response: self.scroll_response,
            status_code: self.status_code,
            http_version: self.http_version@,
            active_edit_field: self.active_edit_field,
            history: self.history@,
            history_state: self.history_state,
            loading: self.loading,
            collections: self.collection@,
            collection_state: self.collection_state,
            collection_name: self.collection_name@,
            active_collection_field: self.active_collection_field,
            error: self.error@,
            should_quit: self.should_quit,
        }
    }
}

/// An optional request by its content.
pub open spec fn opt_request_view(r: Option<Request>) -> Option<RequestView> {
    match r {
        Some(q) => Some(q@),
        None => None,
    }
}

impl AppView {
    /// The request that the editor fields describe.
    pub open spec fn composed(self) -> RequestView {
        RequestView {
            name: self.request_name,
            protocol: self.protocol,
            request_type: self.request_type,
            url: self.url,
            body: self.body,
        }
    }

    /// The history entry under the selection, if the selection is on one.
    pub open spec fn selected_request(self) -> Option<RequestView> {
        match self.history_state {
            Some(i) => if i < self.history.len() {
                Some(self.history[i as int])
            } else {
                None
            },
            None => None,
        }
    }

    /// The collection under the selection, if the selection is on one.
    pub open spec fn selected_collection(self) -> Option<Seq<char>> {
        match self.collection_state {
            Some(i) => if i < self.collections.len() {
                Some(self.collections[i as int])
            } else {
                None
            },
            None => None,
        }
    }

    /// Whether the composed request's full address passes validation.
    pub open spec fn composed_is_valid(self) -> bool {
        spec_url_accepted(regex_match_outcome(URL_PATTERN@, spec_full_url(self.protocol, self.url)))
    }

    /// Sending the composed request: a valid one is added to the history (unless
    /// already there), loading starts, and the request is handed out to be sent;
    /// an invalid one leaves the history alone and shows the error screen.
    pub open spec fn sent(self) -> (AppView, Option<RequestView>) {
        let r = self.composed();
        if self.composed_is_valid() {
            (
                AppView {
                    loading: true,
                    history: if self.history.contains(r) { self.history } else { self.history.push(r) },
                    ..self
                },
                Some(r),
            )
        } else {
            (AppView { error: INVALID_URL_MESSAGE@, current_screen: CurrentScreen::Error, ..self }, None)
        }
    }

    /// Loading the selected history entry into the editor fields and returning
    /// to the main screen; nothing changes when no entry is selected.
    pub open spec fn with_selected_request(self) -> AppView {
        match self.selected_request() {
            Some(r) => AppView {
                url: r.url,
                protocol: r.protocol,
                request_name: r.name,
                request_type: r.request_type,
                body: r.body,
                current_screen: CurrentScreen::Main,
                ..self
            },
            None => self,
        }
    }

    /// Removing the selected history entry, the last entry taking its place;
    /// `None` when no entry is selected.
    pub open spec fn without_selected_request(self) -> Option<AppView> {
        match self.selected_request() {
            Some(r) => Some(
                AppView { history: swap_removed(self.history, self.history_state.unwrap() as int), ..self },
            ),
            None => None,
        }
    }

    /// Making the selected collection the configured one; `None` when no
    /// collection is selected.
    pub open spec fn with_selected_collection(self) -> Option<AppView> {
        match self.selected_collection() {
            Some(name) => Some(AppView { config_collection: name, ..self }),
            None => None,
        }
    }

    /// Taking the typed collection name out of its field to create a collection
    /// with it, and giving the focus back to the list.
    pub open spec fn collection_name_taken(self) -> AppView {
        AppView {
            collection_name: Seq::<char>::empty(),
            active_collection_field: ActiveCollectionField::CollectionList,
            ..self
        }
    }

    /// Recording how a sent request ended: a response's body, status and version
    /// are shown, a failure's message is shown in place of the body, and
    /// loading stops.
    pub open spec fn finished(self, outcome: RequestOutcomeView) -> AppView {
        match outcome {
            RequestOutcomeView::Response { status, body, version } => AppView {
                response: body,
                status_code: status,
                http_version: version,
                loading: false,
                ..self
            },
            RequestOutcomeView::Failure(e) => AppView { response: e, loading: false, ..self },
            RequestOutcomeView::Aborted => AppView { response: ABORTED_MESSAGE@, loading: false, ..self },
        }
    }
}

/// Lines joined into one text, a newline between each two.
pub open spec fn joined_lines(lines: Seq<Seq<char>>) -> Seq<char>
    decreases lines.len(),
{
    if lines.len() == 0 {
        Seq::<char>::empty()
    } else if lines.len() == 1 {
        lines[0]
    } else {
        joined_lines(lines.drop_last()) + "\n"@ + lines.last()
    }
}

/// Within a sequence without repeated entries, an entry is found at one index only.
proof fn lemma_distinct_index<A>(s: Seq<A>, i: int, j: int)
    requires
        s.no_duplicates(),
        0 <= i < s.len(),
        0 <= j < s.len(),
        s[i] == s[j],
    ensures
        i == j,
{
}

impl App {
    /// A fresh state on the main screen, with the given configuration, history
    /// and collections; the body editor starts out as `{}`, the other texts empty,
    /// the method GET and the protocol HTTP.
    pub fn new(config: AppConfig, history: History, collection: CollectionStore) -> (app: App)
        ensures
            app.config == config,
            app.history == history,
            app.collection == collection,
            app@.current_screen == CurrentScreen::Main,
            app@.request_name.len() == 0,
            app@.url.len() == 0,
            app@.response.len() == 0,
            app@.request_type == RequestType::GET,
            app@.protocol == Protocol::HTTP,
            app@.body == INITIAL_BODY@,
            app@.scroll_response == 0,
            app@.status_code == 0,
            app@.http_version.len() == 0,
            app@.active_edit_field == ActiveEditField::Name,
            app@.history_state is None,
            !app@.loading,
            app@.collection_state is None,
            app@.collection_name.len() == 0,
            app@.active_collection_field == ActiveCollectionField::CollectionList,
            app@.error.len() == 0,
            !app@.should_quit,
    {
        App {
            config,
            current_screen: CurrentScreen::Main,
            request_name: String::new(),
            url: String::new(),
            response: String::new(),
            request_type: RequestType::GET,
            protocol: Protocol::HTTP,
            body: String::from_str(INITIAL_BODY),
            scroll_response: 0,
            status_code: 0,
            http_version: String::new(),
            active_edit_field: ActiveEditField::Name,
            history,
            history_state: None,
            loading: false,
            collection,
            collection_state: None,
            collection_name: String::new(),
            active_collection_field: ActiveCollectionField::CollectionList,
            error: String::new(),
            should_quit: false,
        }
    }

    /// Stores the body editor's lines as the body: the lines joined with newlines.
    pub fn set_body_lines(&mut self, lines: &Vec<String>)
        ensures
            final(self)@ == (AppView {
                body: joined_lines(lines@.map_values(|l: String| l@)),
                ..old(self)@
            }),
    {
        let ghost views = lines@.map_values(|l: String| l@);
        let mut body = String::new();
        let n = lines.len();
        for k in 0..n
            invariant
                n == lines@.len(),
                views == lines@.map_values(|l: String| l@),
                body@ == joined_lines(views.take(k as int)),
        {
            if k > 0 {
                proof {
                    reveal_strlit("\n");
                }
                body.append("\n");
            }
            body.append(lines[k].as_str());
            assert(views.take(k + 1).drop_last() == views.take(k as int));
        }
        assert(views.take(n as int) == views);
        self.body = body;
    }

    /// Asks the application to stop.
    pub fn quit(&mut self)
        ensures
            final(self)@ == (AppView { should_quit: true, ..old(self)@ }),
    {
        self.should_quit = true;
    }

    /// The request that the editor fields describe.
    pub fn composed_request(&self) -> (r: Request)
        ensures
            r@ == self@.composed(),
    {
        Request {
            name: self.request_name.clone(),
            protocol: self.protocol,
            request_type: self.request_type,
            url: self.url.clone(),
            body: self.body.clone(),
        }
    }

    /// Sends the composed request, if its address is valid: it joins the history
    /// and loading starts, and the request is handed back for the caller to
    /// store and send. An invalid address shows the error screen instead.
    pub fn send_request(&mut self) -> (r: Option<Request>)
        ensures
            (final(self)@, opt_request_view(r)) == old(self)@.sent(),
    {
        let request = self.composed_request();
        if request.is_valid() {
            self.loading = true;
            self.history.insert(request.clone());
            Some(request)
        } else {
            self.error = String::from_str(INVALID_URL_MESSAGE);
            self.current_screen = CurrentScreen::Error;
            None
        }
    }

    /// Records how the request in flight ended, and stops loading.
    pub fn finish_request(&mut self, outcome: RequestOutcome)
        ensures
            final(self)@ == old(self)@.finished(outcome@),
    {
        match outcome {
            RequestOutcome::Response(resp) => {
                self.response = resp.body;
                self.status_code = resp.status;
                self.http_version = resp.version;
            },
            RequestOutcome::Failure(e) => {
                self.response = e;
            },
            RequestOutcome::Aborted => {
                self.response = String::from_str(ABORTED_MESSAGE);
            },
        }
        self.loading = false;
    }

    /// The history entry under the selection, if the selection is on one.
    pub fn selected_request(&self) -> (r: Option<&Request>)
        ensures
            match r {
                Some(q) => self@.selected_request() == Some(q@),
                None => self@.selected_request() is None,
            },
    {
        match self.history_state {
            Some(i) => self.history.get(i),
            None => None,
        }
    }

    /// Loads the selected history entry into the editor fields and returns to
    /// the main screen; does nothing when no entry is selected.
    pub fn set_request(&mut self)
        ensures
            final(self)@ == old(self)@.with_selected_request(),
    {
        let req = match self.selected_request() {
            Some(r) => r.clone(),
            None => {
                return ;
            },
        };
        self.url = req.url;
        self.protocol = req.protocol;
        self.request_name = req.name;
        self.request_type = req.request_type;
        self.body = req.body;
        self.current_screen = CurrentScreen::Main;
    }

    /// Removes the selected entry from the history, the last entry taking its
    /// place; fails, changing nothing, when no entry is selected.
    pub fn delete_request(&mut self) -> (r: Result<(), AppError>)
        ensures
            match old(self)@.without_selected_request() {
                Some(v) => r is Ok && final(self)@ == v,
                None => r == Err::<(), AppError>(AppError::NoRequestSelected) && final(self)@ == old(self)@,
            },
    {
        let req = match self.selected_request() {
            Some(r) => r.clone(),
            None => {
                return Err(AppError::NoRequestSelected);
            },
        };
        let ghost sel = self.history_state.unwrap() as int;
        let ghost before = self.history@;
        self.history.swap_remove(&req);
        proof {
            let i = choose|i: int| 0 <= i < before.len() && before[i] == req@ && self.history@ == swap_removed(before, i);
            lemma_distinct_index(before, i, sel);
        }
        Ok(())
    }

    /// The collection under the selection, if the selection is on one.
    pub fn selected_collection(&self) -> (r: Option<&Collection>)
        ensures
            match r {
                Some(c) => self@.selected_collection() == Some(c.name@),
                None => self@.selected_collection() is None,
            },
    {
        match self.collection_state {
            Some(i) => if i < self.collection.collections.len() {
                Some(&self.collection.collections[i])
            } else {
                None
            },
            None => None,
        }
    }

    /// Makes the selected collection the configured one; the caller then stores
    /// the configuration and opens the collection. Fails, changing nothing,
    /// when no collection is selected.
    pub fn set_collection(&mut self) -> (r: Result<(), AppError>)
        ensures
            match old(self)@.with_selected_collection() {
                Some(v) => r is Ok && final(self)@ == v,
                None => r == Err::<(), AppError>(AppError::NoCollectionSelected) && final(self)@ == old(self)@,
            },
    {
        let name = match self.selected_collection() {
            Some(c) => c.name.clone(),
            None => {
                return Err(AppError::NoCollectionSelected);
            },
        };
        self.config.collection_name = name;
        Ok(())
    }

    /// Installs the history and the collection list of the collection just
    /// opened, and returns to the main screen.
    pub fn open_collection(&mut self, history: History, collection: CollectionStore)
        ensures
            final(self)@ == (AppView {
                history: history@,
                collections: collection@,
                current_screen: CurrentScreen::Main,
                ..old(self)@
            }),
    {
        self.history = history;
        self.collection = collection;
        self.current_screen = CurrentScreen::Main;
    }

    /// Installs a freshly read list of collections.
    pub fn set_collections(&mut self, collection: CollectionStore)
        ensures
            final(self)@ == (AppView { collections: collection@, ..old(self)@ }),
    {
        self.collection = collection;
    }

    /// Takes the typed name out of the new-collection field, for the caller to
    /// create a collection with it, and gives the focus back to the list.
    pub fn add_collection(&mut self) -> (name: String)
        ensures
            name@ == old(self)@.collection_name,
            final(self)@ == old(self)@.collection_name_taken(),
    {
        let mut name = String::new();
        std::mem::swap(&mut name, &mut self.collection_name);
        self.active_collection_field = ActiveCollectionField::CollectionList;
        name
    }

    /// The name of the selected collection, for the caller to delete it.
    pub fn delete_collection(&self) -> (name: Option<String>)
        ensures
            match name {
                Some(n) => self@.selected_collection() == Some(n@),
                None => self@.selected_collection() is None,
            },
    {
        match self.selected_collection() {
            Some(c) => Some(c.name.clone()),
            None => None,
        }
    }
}

} // verus!
