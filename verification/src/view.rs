//! What the screens show, computed from the state: list lines, the address
//! line, the formatted response and body, the status line, and the list
//! selections and cursor columns that drawing needs.
use vstd::prelude::*;

use crate::api::{spec_full_url, spec_request_label, RequestView};
use crate::app::{App, AppView};

verus! {

/// What parsing a text as JSON with `serde_json::from_str` and printing the
/// value back with `serde_json::to_string_pretty` gives: `None` where the text
/// is not JSON, else the indented rendering.
pub uninterp spec fn json_pretty_outcome(text: Seq<char>) -> Option<Seq<char>>;

/// An optional string by its characters.
pub open spec fn opt_string_view(s: Option<String>) -> Option<Seq<char>> {
    match s {
        Some(t) => Some(t@),
        None => None,
    }
}

/// Parses `text` as a `serde_json::Value` with `serde_json::from_str` and, where
/// that succeeds, prints the value with `serde_json::to_string_pretty`. The
/// contract names the outcome; what the indented text looks like is left to
/// `serde_json`.
#[verifier::external_body]
fn json_pretty(text: &str) -> (r: Option<String>)
    ensures
        opt_string_view(r) == json_pretty_outcome(text@),
{
    match serde_json::from_str::<serde_json::Value>(text) {
        Ok(v) => serde_json::to_string_pretty(&v).ok(),
        Err(_) => None,
    }
}

/// The response as shown: indented when it is JSON, as received otherwise.
pub open spec fn spec_shown_response(response: Seq<char>) -> Seq<char> {
    match json_pretty_outcome(response) {
        Some(p) => p,
        None => response,
    }
}

/// Heading of the body preview.
pub const BODY_HEADING: &'static str = "Body:\n\n";

/// Shown in the body preview when the body is not JSON.
pub const INVALID_JSON_MESSAGE: &'static str = "Invalid json";

/// The body preview: a heading, then the body indented when it is JSON, or a
/// note that it is not.
pub open spec fn spec_body_preview(body: Seq<char>) -> Seq<char> {
    BODY_HEADING@ + match json_pretty_outcome(body) {
        Some(p) => p,
        None => INVALID_JSON_MESSAGE@,
    }
}

/// The character for a decimal digit.
pub open spec fn digit_char(d: nat) -> char {
    if d == 0 {
        '0'
    } else if d == 1 {
        '1'
    } else if d == 2 {
        '2'
    } else if d == 3 {
        '3'
    } else if d == 4 {
        '4'
    } else if d == 5 {
        '5'
    } else if d == 6 {
        '6'
    } else if d == 7 {
        '7'
    } else if d == 8 {
        '8'
    } else {
        '9'
    }
}

/// The decimal notation of a number, without leading zeros.
pub open spec fn decimal(n: nat) -> Seq<char>
    decreases n,
{
    if n < 10 {
        seq![digit_char(n)]
    } else {
        decimal(n / 10).push(digit_char(n % 10))
    }
}

/// Text in front of the status code in the status line.
pub const STATUS_PREFIX: &'static str = "Status ";

/// Text between the status code and the HTTP version in the status line.
pub const VERSION_SEPARATOR: &'static str = ", Version: ";

/// The status line above the response: empty until a response came, then
/// `Status <code>, Version: <version>`.
pub open spec fn spec_status_line(status: u16, version: Seq<char>) -> Seq<char> {
    if status == 0 {
        Seq::<char>::empty()
    } else {
        STATUS_PREFIX@ + decimal(status as nat) + VERSION_SEPARATOR@ + version
    }
}

/// The one-character text of a decimal digit.
fn digit_str(d: u16) -> (r: &'static str)
    requires
        d < 10,
    ensures
        r@ == seq![digit_char(d as nat)],
{
    if d == 0 {
        proof { reveal_strlit("0"); }
        "0"
    } else if d == 1 {
        proof { reveal_strlit("1"); }
        "1"
    } else if d == 2 {
        proof { reveal_strlit("2"); }
        "2"
    } else if d == 3 {
        proof { reveal_strlit("3"); }
        "3"
    } else if d == 4 {
        proof { reveal_strlit("4"); }
        "4"
    } else if d == 5 {
        proof { reveal_strlit("5"); }
        "5"
    } else if d == 6 {
        proof { reveal_strlit("6"); }
        "6"
    } else if d == 7 {
        proof { reveal_strlit("7"); }
        "7"
    } else if d == 8 {
        proof { reveal_strlit("8"); }
        "8"
    } else {
        proof { reveal_strlit("9"); }
        "9"
    }
}

/// The decimal notation of a number, without leading zeros.
pub fn decimal_string(n: u16) -> (r: String)
    ensures
        r@ == decimal(n as nat),
    decreases n,
{
    if n < 10 {
        String::from_str(digit_str(n))
    } else {
        let mut s = decimal_string(n / 10);
        s.append(digit_str(n % 10));
        s
    }
}

/// Whether the history list should get its first entry selected before it is
/// drawn: it has entries and none is selected.
pub open spec fn spec_history_selection(m: AppView) -> Option<usize> {
    if m.history.len() > 0 && m.history_state is None {
        Some(0usize)
    } else {
        m.history_state
    }
}

/// The collection list's selection before it is drawn: the first collection
/// when none is selected.
pub open spec fn spec_collection_selection(m: AppView) -> Option<usize> {
    if m.collection_state is None {
        Some(0usize)
    } else {
        m.collection_state
    }
}

/// Width left for a text field's contents once its border and padding are
/// taken off: at least 3 columns are assumed.
pub open spec fn spec_input_width(area_width: u16) -> u16 {
    if area_width < 3 {
        0
    } else {
        (area_width - 3) as u16
    }
}

/// The column, counted from a field's left edge, where the cursor is drawn:
/// the cursor's position past the scrolled-off part, plus the field's padding.
pub open spec fn spec_cursor_column(cursor: usize, scroll: usize, padding: usize) -> int {
    (if cursor < scroll { scroll } else { cursor }) - scroll + padding
}

/// Width left for a text field's contents once its border and padding are taken off.
pub fn input_width(area_width: u16) -> (w: u16)
    ensures
        w == spec_input_width(area_width),
{
    let w = if area_width < 3 { 3 } else { area_width };
    w - 3
}

/// The column, counted from a field's left edge, where the cursor is drawn.
pub fn cursor_column(cursor: usize, scroll: usize, padding: usize) -> (c: usize)
    requires
        spec_cursor_column(cursor, scroll, padding) <= usize::MAX,
    ensures
        c == spec_cursor_column(cursor, scroll, padding),
{
    let visible = if cursor < scroll { scroll } else { cursor };
    visible - scroll + padding
}

impl App {
    /// The lines of the history list: each entry's label, in order.
    pub fn history_lines(&self) -> (lines: Vec<String>)
        ensures
            lines@.len() == self@.history.len(),
            forall|i: int| 0 <= i < lines@.len() ==> #[trigger] lines@[i]@ == spec_request_label(self@.history[i]),
    {
        let n = self.history.len();
        let mut lines: Vec<String> = Vec::new();
        for k in 0..n
            invariant
                n == self@.history.len(),
                lines@.len() == k,
                forall|i: int| 0 <= i < k ==> #[trigger] lines@[i]@ == spec_request_label(self@.history[i]),
        {
            match self.history.get(k) {
                Some(r) => lines.push(r.label()),
                None => {},
            }
        }
        lines
    }

    /// The lines of the collections list: each collection's name, in order.
    pub fn collection_lines(&self) -> (lines: Vec<String>)
        ensures
            lines@.len() == self@.collections.len(),
            forall|i: int| 0 <= i < lines@.len() ==> #[trigger] lines@[i]@ == self@.collections[i],
    {
        let n = self.collection.collections.len();
        let mut lines: Vec<String> = Vec::new();
        for k in 0..n
            invariant
                n == self.collection.collections@.len(),
                lines@.len() == k,
                forall|i: int| 0 <= i < k ==> #[trigger] lines@[i]@ == self@.collections[i],
        {
            lines.push(self.collection.collections[k].label());
        }
        lines
    }

    /// The address line of the main screen: scheme, `://`, then the address.
    pub fn url_line(&self) -> (r: String)
        ensures
            r@ == spec_full_url(self@.protocol, self@.url),
    {
        self.composed_request().full_url()
    }

    /// The response as shown: indented when it is JSON, as received otherwise.
    pub fn shown_response(&self) -> (r: String)
        ensures
            r@ == spec_shown_response(self@.response),
    {
        match json_pretty(self.response.as_str()) {
            Some(p) => p,
            None => self.response.clone(),
        }
    }

    /// The body preview: `Body:`, a blank line, then the body indented when it
    /// is JSON, or `Invalid json` when it is not.
    pub fn body_preview(&self) -> (r: String)
        ensures
            r@ == spec_body_preview(self@.body),
    {
        let mut s = String::from_str(BODY_HEADING);
        match json_pretty(self.body.as_str()) {
            Some(p) => s.append(p.as_str()),
            None => s.append(INVALID_JSON_MESSAGE),
        }
        s
    }

    /// The status line above the response: empty until a response came, then
    /// `Status <code>, Version: <version>`.
    pub fn status_line(&self) -> (r: String)
        ensures
            r@ == spec_status_line(self@.status_code, self@.http_version),
    {
        if self.status_code == 0 {
            String::new()
        } else {
            let mut s = String::from_str(STATUS_PREFIX);
            s.append(decimal_string(self.status_code).as_str());
            s.append(VERSION_SEPARATOR);
            s.append(self.http_version.as_str());
            s
        }
    }

    /// Before the history is drawn: selects its first entry when it has entries
    /// and none is selected.
    pub fn ensure_history_selection(&mut self)
        ensures
            final(self)@ == (AppView { history_state: spec_history_selection(old(self)@), ..old(self)@ }),
    {
        if !self.history.is_empty() && self.history_state.is_none() {
            self.history_state = Some(0);
        }
    }

    /// Before the collections are drawn: selects the first one when none is selected.
    pub fn ensure_collection_selection(&mut self)
        ensures
            final(self)@ == (AppView { collection_state: spec_collection_selection(old(self)@), ..old(self)@ }),
    {
        if self.collection_state.is_none() {
            self.collection_state = Some(0);
        }
    }
}

} // verus!
