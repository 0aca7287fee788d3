//! Properties of the key handling that hold across key presses.
use vstd::prelude::*;

use crate::api::spec_prepared;
use crate::app::{ActiveCollectionField, ActiveEditField, AppError, AppView, CurrentScreen, RequestOutcomeView};
use crate::history::swap_removed;
use crate::update::{step, EffectView, Key, KeyCode};
use crate::view::{decimal, spec_collection_selection, spec_history_selection, spec_status_line, STATUS_PREFIX, VERSION_SEPARATOR};

verus! {

/// On the main screen, pressing `p` twice leaves the state as it was: the
/// protocol goes to the other one and back.
pub proof fn lemma_protocol_key_twice(m: AppView, alt1: bool, alt2: bool)
    requires
        m.current_screen == CurrentScreen::Main,
    ensures
        ({
            let m1 = step(m, Key { code: KeyCode::Char('p'), alt: alt1 }).0;
            &&& m1.protocol != m.protocol
            &&& step(m1, Key { code: KeyCode::Char('p'), alt: alt2 }).0 == m
        }),
{
}

/// On the main screen, Tab followed by Shift-Tab, or Shift-Tab followed by
/// Tab, leaves the state as it was: the method moves one step and back.
pub proof fn lemma_method_keys_undo(m: AppView, alt1: bool, alt2: bool)
    requires
        m.current_screen == CurrentScreen::Main,
    ensures
        step(step(m, Key { code: KeyCode::Tab, alt: alt1 }).0, Key { code: KeyCode::BackTab, alt: alt2 }).0 == m,
        step(step(m, Key { code: KeyCode::BackTab, alt: alt1 }).0, Key { code: KeyCode::Tab, alt: alt2 }).0 == m,
{
    crate::api::lemma_request_type_next_previous(m.request_type);
}

/// On the main screen, pressing Tab five times gives back the method one
/// started with, after passing through every other method.
pub proof fn lemma_method_key_cycle(m: AppView, alt: bool)
    requires
        m.current_screen == CurrentScreen::Main,
    ensures
        ({
            let k = Key { code: KeyCode::Tab, alt: alt };
            let m1 = step(m, k).0;
            let m2 = step(m1, k).0;
            let m3 = step(m2, k).0;
            let m4 = step(m3, k).0;
            let m5 = step(m4, k).0;
            &&& m5 == m
            &&& m1.request_type != m.request_type && m2.request_type != m.request_type
            &&& m3.request_type != m.request_type && m4.request_type != m.request_type
        }),
{
    crate::api::lemma_request_type_cycle(m.request_type);
}

/// Opening the editor (`e`), the history (`h`) or the collections (`c`) from
/// the main screen and pressing Esc gives back the state one started from.
pub proof fn lemma_overlay_escape(m: AppView, c: char, alt1: bool, alt2: bool)
    requires
        m.current_screen == CurrentScreen::Main,
        c == 'e' || c == 'h' || c == 'c',
    ensures
        step(step(m, Key { code: KeyCode::Char(c), alt: alt1 }).0, Key { code: KeyCode::Esc, alt: alt2 }).0 == m,
{
}

/// On the error and testing overlays, Esc returns to the main screen and
/// changes nothing else.
pub proof fn lemma_notice_escape(m: AppView, alt: bool)
    requires
        m.current_screen == CurrentScreen::Error || m.current_screen == CurrentScreen::Testing,
    ensures
        step(m, Key { code: KeyCode::Esc, alt: alt }).0 == (AppView { current_screen: CurrentScreen::Main, ..m }),
{
}

/// On the main screen, scrolling down then up gives back the state, unless the
/// scroll position was already at its maximum; scrolling up then down does,
/// unless it was at the top.
pub proof fn lemma_scroll_undo(m: AppView, alt1: bool, alt2: bool)
    requires
        m.current_screen == CurrentScreen::Main,
    ensures
        m.scroll_response < u16::MAX ==> step(step(m, Key { code: KeyCode::Down, alt: alt1 }).0, Key { code: KeyCode::Up, alt: alt2 }).0 == m,
        m.scroll_response > 0 ==> step(step(m, Key { code: KeyCode::Up, alt: alt1 }).0, Key { code: KeyCode::Down, alt: alt2 }).0 == m,
{
}

/// `q` on the main screen, and Esc too, asks the application to stop and
/// changes nothing else.
pub proof fn lemma_quit_key(m: AppView, alt: bool)
    requires
        m.current_screen == CurrentScreen::Main,
    ensures
        step(m, Key { code: KeyCode::Char('q'), alt: alt }) == (AppView { should_quit: true, ..m }, EffectView::Nothing),
        step(m, Key { code: KeyCode::Esc, alt: alt }) == (AppView { should_quit: true, ..m }, EffectView::Nothing),
{
}

/// Enter on the main screen with a valid address sends the composed request:
/// the request is handed out to be sent, under the configured timeout, it is in the history afterwards, the
/// history gained at most that entry, and loading has started.
pub proof fn lemma_send_valid(m: AppView, alt: bool)
    requires
        m.current_screen == CurrentScreen::Main,
        m.composed_is_valid(),
    ensures
        ({
            let (m1, e) = step(m, Key { code: KeyCode::Enter, alt: alt });
            &&& e == EffectView::Send(m.composed(), spec_prepared(m.composed(), m.request_timeout))
            &&& m1.history.contains(m.composed())
            &&& m1.history == m.history || m1.history == m.history.push(m.composed())
            &&& m1.loading
            &&& m1.current_screen == CurrentScreen::Main
        }),
{
    let m1 = step(m, Key { code: KeyCode::Enter, alt: alt }).0;
    if !m.history.contains(m.composed()) {
        assert(m1.history[m.history.len() as int] == m.composed());
    }
}

/// Enter on the main screen with an invalid address sends nothing: the
/// history is unchanged, the error screen shows `Invalid url`, and no loading
/// starts.
pub proof fn lemma_send_invalid(m: AppView, alt: bool)
    requires
        m.current_screen == CurrentScreen::Main,
        !m.composed_is_valid(),
    ensures
        ({
            let (m1, e) = step(m, Key { code: KeyCode::Enter, alt: alt });
            &&& e == EffectView::Nothing
            &&& m1.history == m.history
            &&& m1.current_screen == CurrentScreen::Error
            &&& m1.error == crate::app::INVALID_URL_MESSAGE@
            &&& m1.loading == m.loading
        }),
{
}

/// A sent request can be loaded back: once it is in the history, selecting it
/// and pressing Enter on the history restores every editor field to what was
/// sent, returns to the main screen and asks for the editors to be reset.
pub proof fn lemma_history_reload(sent: AppView, later: AppView, i: usize, alt1: bool, alt2: bool)
    requires
        sent.current_screen == CurrentScreen::Main,
        sent.composed_is_valid(),
        later.current_screen == CurrentScreen::History,
        later.history_state == Some(i),
        i < later.history.len(),
        later.history[i as int] == sent.composed(),
    ensures
        step(sent, Key { code: KeyCode::Enter, alt: alt1 }).0.history.contains(sent.composed()),
        ({
            let (m2, e) = step(later, Key { code: KeyCode::Enter, alt: alt2 });
            &&& m2.composed() == sent.composed()
            &&& m2.current_screen == CurrentScreen::Main
            &&& e == EffectView::ReloadEditors
            &&& m2.history == later.history
        }),
{
    lemma_send_valid(sent, alt1);
}

/// `d` on the history removes the selected entry: it is no longer there, the
/// history is one entry shorter, and every other entry is kept. With nothing
/// selected it fails and changes nothing.
pub proof fn lemma_delete_selected(m: AppView, alt: bool)
    requires
        m.current_screen == CurrentScreen::History,
        m.history.no_duplicates(),
    ensures
        ({
            let (m1, e) = step(m, Key { code: KeyCode::Char('d'), alt: alt });
            match m.selected_request() {
                Some(r) => {
                    &&& e == EffectView::PersistHistory
                    &&& !m1.history.contains(r)
                    &&& m1.history.len() + 1 == m.history.len()
                    &&& forall|x| x != r && m.history.contains(x) ==> m1.history.contains(x)
                },
                None => e == EffectView::Failed(AppError::NoRequestSelected) && m1 == m,
            }
        }),
{
    let (m1, e) = step(m, Key { code: KeyCode::Char('d'), alt: alt });
    if let Some(r) = m.selected_request() {
        let i = m.history_state.unwrap() as int;
        let h = m.history;
        let h1 = m1.history;
        assert(h1 == swap_removed(h, i));
        assert forall|j: int| 0 <= j < h1.len() implies h1[j] != r by {
            if j == i {
                assert(h1[j] == h[h.len() - 1]);
            } else {
                assert(h1[j] == h[j]);
            }
        }
        assert forall|x| x != r && h.contains(x) implies h1.contains(x) by {
            let w = choose|w: int| 0 <= w < h.len() && h[w] == x;
            if w == h.len() - 1 {
                assert(h1[i] == x);
            } else {
                assert(h1[w] == x);
            }
        }
    }
}

/// A key press never puts two equal requests into the history.
pub proof fn lemma_step_keeps_history_distinct(m: AppView, key: Key)
    requires
        m.history.no_duplicates(),
    ensures
        step(m, key).0.history.no_duplicates(),
{
    let m1 = step(m, key).0;
    if m1.history != m.history {
        if m.current_screen == CurrentScreen::Main {
            let r = m.composed();
            assert(m1.history == m.history.push(r));
            assert forall|a: int, b: int| 0 <= a < b < m1.history.len() implies m1.history[a] != m1.history[b] by {
                if b == m.history.len() {
                    assert(m.history[a] == m1.history[a]);
                }
            }
        } else {
            let i = m.history_state.unwrap() as int;
            let h = m.history;
            assert(m1.history == swap_removed(h, i));
            assert forall|a: int, b: int| 0 <= a < b < m1.history.len() implies m1.history[a] != m1.history[b] by {
                let ia = if a == i { h.len() - 1 } else { a };
                let ib = if b == i { h.len() - 1 } else { b };
                assert(m1.history[a] == h[ia]);
                assert(m1.history[b] == h[ib]);
            }
        }
    }
}

/// Only two key presses change the history: Enter on the main screen, which
/// may add the sent request, and `d` on the history, which removes the
/// selected entry.
pub proof fn lemma_history_changes_only_by_send_or_delete(m: AppView, key: Key)
    requires
        !(m.current_screen == CurrentScreen::Main && key.code == KeyCode::Enter),
        !(m.current_screen == CurrentScreen::History && key.code == KeyCode::Char('d')),
    ensures
        step(m, key).0.history == m.history,
{
}

/// Keys typed into the request editor, other than Tab, Esc, Enter and Alt-s,
/// leave the state as it is and are handed to the focused field.
pub proof fn lemma_editor_forwards_keys(m: AppView, key: Key)
    requires
        m.current_screen == CurrentScreen::Editing,
        key.code != KeyCode::Tab,
        key.code != KeyCode::Esc,
        key.code != KeyCode::Enter,
        !(key.code == KeyCode::Char('s') && key.alt),
    ensures
        step(m, key) == (m, EffectView::Edit(crate::update::edit_target(m.active_edit_field))),
{
}

/// In the request editor, Esc and Enter return to the main screen and leave
/// everything else, the edited texts included, as it was.
pub proof fn lemma_editor_leave_keys(m: AppView, alt: bool)
    requires
        m.current_screen == CurrentScreen::Editing,
    ensures
        step(m, Key { code: KeyCode::Esc, alt: alt }) == (AppView { current_screen: CurrentScreen::Main, ..m }, EffectView::Nothing),
        step(m, Key { code: KeyCode::Enter, alt: alt }) == (AppView { current_screen: CurrentScreen::Main, ..m }, EffectView::Nothing),
{
}

/// In the request editor, Tab moves the focus from the address to the body and
/// from the body back to the address, staying in the editor; from the name it
/// moves to the address.
pub proof fn lemma_editor_tab_switches_url_and_body(m: AppView, alt: bool)
    requires
        m.current_screen == CurrentScreen::Editing,
    ensures
        ({
            let m1 = step(m, Key { code: KeyCode::Tab, alt: alt }).0;
            &&& m1.current_screen == CurrentScreen::Editing
            &&& m.active_edit_field == ActiveEditField::Url ==> m1.active_edit_field == ActiveEditField::Body
            &&& m.active_edit_field == ActiveEditField::Body ==> m1.active_edit_field == ActiveEditField::Url
            &&& m.active_edit_field == ActiveEditField::Name ==> m1.active_edit_field == ActiveEditField::Url
            &&& m1 == (AppView { active_edit_field: m1.active_edit_field, ..m })
        }),
{
}

/// However a request ends, loading stops, and the request's own address and
/// history are left alone.
pub proof fn lemma_finish_stops_loading(m: AppView, outcome: RequestOutcomeView)
    ensures
        !m.finished(outcome).loading,
        m.finished(outcome).history == m.history,
        m.finished(outcome).composed() == m.composed(),
{
}

/// A list selection moved one entry up: the entry before the selected one
/// (staying on the first), or the last entry when nothing was selected.
pub open spec fn moved_up(before: Option<usize>, after: Option<usize>) -> bool {
    match before {
        None => after == Some(usize::MAX),
        Some(i) => after == Some(if i > 0 { (i - 1) as usize } else { 0usize }),
    }
}

/// A list selection moved one entry down: the entry after the selected one
/// (staying at the largest index), or the first entry when nothing was selected.
pub open spec fn moved_down(before: Option<usize>, after: Option<usize>) -> bool {
    match before {
        None => after == Some(0usize),
        Some(i) => after == Some(if i < usize::MAX { (i + 1) as usize } else { usize::MAX }),
    }
}

/// In the history, `k` does exactly what the up arrow does and `j` exactly what
/// the down arrow does: up moves the selection to the previous entry, down to
/// the next, and nothing else changes.
pub proof fn lemma_history_navigation_keys(m: AppView, alt: bool)
    requires
        m.current_screen == CurrentScreen::History,
    ensures
        step(m, Key { code: KeyCode::Char('k'), alt: alt }) == step(m, Key { code: KeyCode::Up, alt: alt }),
        step(m, Key { code: KeyCode::Char('j'), alt: alt }) == step(m, Key { code: KeyCode::Down, alt: alt }),
        ({
            let (up, e_up) = step(m, Key { code: KeyCode::Up, alt: alt });
            let (down, e_down) = step(m, Key { code: KeyCode::Down, alt: alt });
            &&& moved_up(m.history_state, up.history_state)
            &&& moved_down(m.history_state, down.history_state)
            &&& up == (AppView { history_state: up.history_state, ..m })
            &&& down == (AppView { history_state: down.history_state, ..m })
            &&& e_up == EffectView::Nothing && e_down == EffectView::Nothing
        }),
{
}

/// In the history, moving down and then up returns the selection to where it
/// was, unless it was at the largest index; a selected entry other than the
/// first is left for the entry just before it.
pub proof fn lemma_history_down_up(m: AppView, i: usize, alt1: bool, alt2: bool)
    requires
        m.current_screen == CurrentScreen::History,
        m.history_state == Some(i),
        i < usize::MAX,
    ensures
        step(step(m, Key { code: KeyCode::Down, alt: alt1 }).0, Key { code: KeyCode::Up, alt: alt2 }).0 == m,
        i > 0 ==> step(m, Key { code: KeyCode::Char('k'), alt: alt1 }).0.history_state == Some((i - 1) as usize),
        step(m, Key { code: KeyCode::Char('j'), alt: alt1 }).0.history_state == Some((i + 1) as usize),
{
}

/// On the collections overlay, Tab moves the focus to the other part (list or
/// new-name field), and a second Tab gives back the state one started from.
pub proof fn lemma_collection_tab_toggles(m: AppView, alt1: bool, alt2: bool)
    requires
        m.current_screen == CurrentScreen::Collection,
    ensures
        ({
            let m1 = step(m, Key { code: KeyCode::Tab, alt: alt1 }).0;
            &&& m1.active_collection_field != m.active_collection_field
            &&& m1 == (AppView { active_collection_field: m1.active_collection_field, ..m })
            &&& step(m1, Key { code: KeyCode::Tab, alt: alt2 }).0 == m
        }),
{
}

/// On the focused collection list, the down arrow does exactly what `j` does and
/// the up arrow exactly what `k` does: down moves the selection to the next
/// collection and up to the previous one, and nothing else changes.
pub proof fn lemma_collection_navigation_keys(m: AppView, alt: bool)
    requires
        m.current_screen == CurrentScreen::Collection,
        m.active_collection_field == ActiveCollectionField::CollectionList,
    ensures
        step(m, Key { code: KeyCode::Down, alt: alt }) == step(m, Key { code: KeyCode::Char('j'), alt: alt }),
        step(m, Key { code: KeyCode::Up, alt: alt }) == step(m, Key { code: KeyCode::Char('k'), alt: alt }),
        ({
            let (up, e_up) = step(m, Key { code: KeyCode::Up, alt: alt });
            let (down, e_down) = step(m, Key { code: KeyCode::Down, alt: alt });
            &&& moved_up(m.collection_state, up.collection_state)
            &&& moved_down(m.collection_state, down.collection_state)
            &&& up == (AppView { collection_state: up.collection_state, ..m })
            &&& down == (AppView { collection_state: down.collection_state, ..m })
            &&& e_up == EffectView::Nothing && e_down == EffectView::Nothing
        }),
{
}

/// On the focused collection list, moving down and then up returns the selection
/// to where it was, unless it was at the largest index.
pub proof fn lemma_collection_down_up(m: AppView, i: usize, alt1: bool, alt2: bool)
    requires
        m.current_screen == CurrentScreen::Collection,
        m.active_collection_field == ActiveCollectionField::CollectionList,
        m.collection_state == Some(i),
        i < usize::MAX,
    ensures
        step(step(m, Key { code: KeyCode::Down, alt: alt1 }).0, Key { code: KeyCode::Up, alt: alt2 }).0 == m,
        step(m, Key { code: KeyCode::Down, alt: alt1 }).0.collection_state == Some((i + 1) as usize),
{
}

/// The value of a decimal digit character: its distance from `'0'`.
pub open spec fn digit_value(c: char) -> int {
    (c as int) - ('0' as int)
}

/// The number that a string of decimal digits denotes.
pub open spec fn numeral_value(s: Seq<char>) -> int
    decreases s.len(),
{
    if s.len() == 0 {
        0
    } else {
        numeral_value(s.drop_last()) * 10 + digit_value(s.last())
    }
}

/// Each digit character stands for its digit.
proof fn lemma_digit_value(d: nat)
    requires
        d < 10,
    ensures
        digit_value(crate::view::digit_char(d)) == d,
        '0' <= crate::view::digit_char(d) <= '9',
{
    assert('0' as int == 48);
    if d == 0 { assert('0' as int == 48); }
    else if d == 1 { assert('1' as int == 49); }
    else if d == 2 { assert('2' as int == 50); }
    else if d == 3 { assert('3' as int == 51); }
    else if d == 4 { assert('4' as int == 52); }
    else if d == 5 { assert('5' as int == 53); }
    else if d == 6 { assert('6' as int == 54); }
    else if d == 7 { assert('7' as int == 55); }
    else if d == 8 { assert('8' as int == 56); }
    else { assert('9' as int == 57); }
}

/// The decimal notation of a number consists of characters `'0'` to `'9'`,
/// starts with a non-zero digit unless the number is zero, and read back in
/// base 10 gives the number.
pub proof fn lemma_decimal_reads_back(n: nat)
    ensures
        numeral_value(decimal(n)) == n,
        decimal(n).len() > 0,
        forall|i: int| 0 <= i < decimal(n).len() ==> '0' <= #[trigger] decimal(n)[i] <= '9',
        n > 0 ==> decimal(n)[0] != '0',
    decreases n,
{
    if n < 10 {
        lemma_digit_value(n);
        assert(decimal(n) == seq![crate::view::digit_char(n)]);
        assert(decimal(n).drop_last() == Seq::<char>::empty());
        assert(numeral_value(Seq::<char>::empty()) == 0);
        assert(numeral_value(decimal(n)) == numeral_value(decimal(n).drop_last()) * 10 + digit_value(decimal(n).last()));
    } else {
        lemma_decimal_reads_back(n / 10);
        lemma_digit_value(n % 10);
        let d = decimal(n);
        assert(d.drop_last() == decimal(n / 10));
        assert(d.last() == crate::view::digit_char(n % 10));
        assert(n == (n / 10) * 10 + n % 10);
        assert(numeral_value(d) == numeral_value(d.drop_last()) * 10 + digit_value(d.last()));
        assert(numeral_value(d) == (n / 10) as int * 10 + (n % 10) as int);
        assert forall|i: int| 0 <= i < d.len() implies '0' <= #[trigger] d[i] <= '9' by {
            if i < d.len() - 1 {
                assert(d[i] == decimal(n / 10)[i]);
            }
        }
        assert(d[0] == decimal(n / 10)[0]);
    }
}

/// The status line of a response shows, between `Status ` and `, Version: `, a
/// numeral that read back in base 10 is the status code, followed by the version.
pub proof fn lemma_status_line_shows_code(status: u16, version: Seq<char>)
    requires
        status != 0,
    ensures
        ({
            let line = spec_status_line(status, version);
            let digits = decimal(status as nat);
            &&& line == STATUS_PREFIX@ + digits + VERSION_SEPARATOR@ + version
            &&& numeral_value(digits) == status
        }),
{
    lemma_decimal_reads_back(status as nat);
}

/// Before the history is drawn, a history with entries and no selection gets
/// its first entry selected, so Enter then loads the first entry; an existing
/// selection, or an empty history, is left alone.
pub proof fn lemma_history_selection_before_drawing(m: AppView)
    ensures
        m.history.len() > 0 && m.history_state is None ==> spec_history_selection(m) == Some(0usize)
            && (AppView { history_state: spec_history_selection(m), ..m }).selected_request() == Some(m.history[0]),
        m.history_state is Some ==> spec_history_selection(m) == m.history_state,
        m.history.len() == 0 ==> spec_history_selection(m) == m.history_state,
{
}

/// Before the collection list is drawn, a list with no selection gets its
/// first collection selected; an existing selection is left alone.
pub proof fn lemma_collection_selection_before_drawing(m: AppView)
    ensures
        m.collection_state is None ==> spec_collection_selection(m) == Some(0usize),
        m.collection_state is None && m.collections.len() > 0 ==> (AppView {
            collection_state: spec_collection_selection(m),
            ..m
        }).selected_collection() == Some(m.collections[0]),
        m.collection_state is Some ==> spec_collection_selection(m) == m.collection_state,
{
}

} // verus!
