//! The composer state machine: routes each incoming key event to plain
//! editing, popup navigation, history recall or submission, and keeps the
//! popup's presence synchronized with the buffer content after every event.

use vstd::prelude::*;
use crate::history::HistoryCursor;
use crate::history::HistoryNavigator;
use crate::history::HistoryView;
use crate::history::NavOutcome;
use crate::history::down_fetch;
use crate::history::down_step;
use crate::history::down_text;
use crate::history::history_view_wf;
use crate::history::up_fetch;
use crate::history::up_step;
use crate::history::up_text;
use crate::key::KeyEvent;
use crate::popup::CommandPopup;
use crate::popup::PopupView;
use crate::popup::filtered_spec;
use crate::popup::popup_height_spec;
use crate::popup::popup_view_wf;
use crate::popup::sel_after;
use crate::text::cleared;
use crate::text::is_cmd_line;
use crate::text::insert_char_at;
use crate::text::join_lines;
use crate::text::lines_ok;
use crate::text::split_lines;
use crate::text::token_spec;
use crate::textbuf::TextBuf;
use crate::render::buf_area;
use crate::render::buf_cells;
use crate::render::covers;
use crate::render::draw_popup_rows;
use crate::render::preserved_outside;
use crate::textbuf::ta_border_focused;
use crate::textbuf::ta_border_unfocused;
use crate::textbuf::ta_cursor;
use crate::textbuf::ta_cut;
use crate::textbuf::ta_first_line;
use crate::textbuf::ta_input;
use crate::textbuf::ta_insert_newline;
use crate::textbuf::ta_insert_str;
use crate::textbuf::ta_is_empty;
use crate::textbuf::ta_line_count;
use crate::textbuf::ta_lines;
use crate::textbuf::ta_new;
use crate::textbuf::ta_select_all;
use crate::textbuf::ta_selection;
use crate::textbuf::ta_set_placeholder;
use crate::textbuf::ta_clear_cursor_line_style;
use crate::textbuf::ta_small;
use crate::text::join_text;
use crate::textbuf::ta_lines_vec;
use crate::textbuf::ta_wf;
use crate::text::starts_with_slash;

verus! {

/// Result returned when the user interacts with the text area: a finalized
/// submission, or none.
pub enum InputResult {
    Submitted(String),
    NoSubmission,
}

/// A rectangular screen region, in terminal cells.
#[derive(Clone, Copy, PartialEq, Eq, Structural, Debug)]
pub struct Rect {
    pub x: u16,
    pub y: u16,
    pub width: u16,
    pub height: u16,
}

/// An on-demand history lookup the application must perform.
#[derive(Clone, Copy, PartialEq, Eq, Structural, Debug)]
pub struct HistoryFetch {
    pub log_id: u64,
    pub offset: usize,
}

/// What the composer state means: the buffer content and cursor, the
/// selection anchor, the popup, the history navigator, the escape-arming
/// flag, the focus flag, and the outbound events not yet collected.
#[verifier::ext_equal]
pub struct ComposerView {
    pub lines: Seq<Seq<char>>,
    pub cursor: (nat, nat),
    pub sel: Option<(nat, nat)>,
    pub popup: Option<PopupView>,
    pub hist: HistoryView,
    pub escape_armed: bool,
    pub has_focus: bool,
    pub pending_command: Option<Seq<char>>,
    pub pending_fetch: Option<(u64, nat)>,
}

/// The composer's invariant, over its meaning alone: well-formed buffer
/// content with the cursor on it; the popup present exactly when the first
/// line starts with '/', filtered from that line's token; a well-formed
/// history cursor; and the escape arm never surviving under a popup.
pub open spec fn view_inv(v: ComposerView) -> bool {
    &&& lines_ok(v.lines)
    &&& v.cursor.0 < v.lines.len()
    &&& v.cursor.1 <= v.lines[v.cursor.0 as int].len()
    &&& (v.popup is Some <==> is_cmd_line(v.lines[0]))
    &&& (v.popup matches Some(p) ==> popup_view_wf(p) && p.matches == filtered_spec(
        token_spec(v.lines[0]),
    ))
    &&& history_view_wf(v.hist)
    &&& (v.popup is Some ==> !v.escape_armed)
}

/// The popup state after resynchronization against buffer content: present
/// with the refiltered candidates when the first line starts with '/',
/// keeping (clamped) any previous selection; absent otherwise.
pub open spec fn popup_after(prev: Option<PopupView>, lines: Seq<Seq<char>>) -> Option<
    PopupView,
> {
    if is_cmd_line(lines[0]) {
        let m = filtered_spec(token_spec(lines[0]));
        let prev_sel = match prev {
            Some(p) => p.selected,
            None => None,
        };
        Some(PopupView { matches: m, selected: sel_after(prev_sel, m.len() as int) })
    } else {
        None
    }
}

/// No command stands selected in a popup (or there is no popup): a plain
/// Enter then submits instead of dispatching.
pub open spec fn popup_unselected(v: ComposerView) -> bool {
    match v.popup {
        Some(p) => p.selected is None,
        None => true,
    }
}

/// Whether the history navigator intercepts a navigation key: when already
/// browsing, or when the buffer is empty and any history is known.
pub open spec fn should_handle_spec(v: ComposerView) -> bool {
    v.hist.cursor != HistoryCursor::Inactive || (v.lines == cleared() && (v.hist.entry_count > 0
        || v.hist.local.len() > 0))
}

/// The history state after a local submission is recorded.
pub open spec fn submit_hist(h: HistoryView, text: Seq<char>) -> HistoryView {
    HistoryView {
        log_id: h.log_id,
        entry_count: h.entry_count,
        local: h.local.push(text),
        cursor: HistoryCursor::Inactive,
        fetch: None,
    }
}

/// The composer state after a plain character key: the character enters
/// the buffer at the cursor, the cursor advances one column, any escape
/// arm is dropped, and the popup is resynchronized against the new first
/// line. Defined for states with no ongoing selection.
pub open spec fn step_plain_char(v: ComposerView, c: char) -> ComposerView {
    let lines2 = insert_char_at(v.lines, v.cursor.0, v.cursor.1, c);
    ComposerView {
        lines: lines2,
        cursor: (v.cursor.0, (v.cursor.1 + 1) as nat),
        sel: None,
        popup: popup_after(v.popup, lines2),
        escape_armed: false,
        ..v
    }
}

/// The composer state after an Escape key. Under a popup the key reaches
/// the text buffer, which ignores it. In plain mode a modified Escape only
/// drops the arm; an unmodified Escape arms when unarmed, and clears the
/// whole buffer when armed.
pub open spec fn step_esc(v: ComposerView, k: KeyEvent) -> ComposerView {
    if v.popup is Some {
        v
    } else if !k.is_plain_esc() {
        ComposerView { escape_armed: false, ..v }
    } else if !v.escape_armed {
        ComposerView { escape_armed: true, ..v }
    } else {
        ComposerView {
            lines: cleared(),
            cursor: (0nat, 0nat),
            sel: None,
            popup: None,
            escape_armed: false,
            ..v
        }
    }
}

/// Where `step_esc` pins the composer exactly: everywhere, except that a
/// clearing Escape needs content small enough for select-all to reach its
/// end.
pub open spec fn esc_pinned(v: ComposerView, k: KeyEvent) -> bool {
    (v.popup is None && k.is_plain_esc() && v.escape_armed) ==> ta_small(v.lines)
}

pub struct ChatComposer {
    textarea: TextBuf,
    command_popup: Option<CommandPopup>,
    history: HistoryNavigator,
    escape_armed: bool,
    has_focus: bool,
    pending_command: Option<String>,
    pending_fetch: Option<HistoryFetch>,
}

impl View for ChatComposer {
    type V = ComposerView;

    closed spec fn view(&self) -> ComposerView {
        ComposerView {
            lines: ta_lines(self.textarea),
            cursor: ta_cursor(self.textarea),
            sel: ta_selection(self.textarea),
            popup: match self.command_popup {
                Some(p) => Some(p@),
                None => None,
            },
            hist: self.history@,
            escape_armed: self.escape_armed,
            has_focus: self.has_focus,
            pending_command: match self.pending_command {
                Some(s) => Some(s@),
                None => None,
            },
            pending_fetch: match self.pending_fetch {
                Some(f) => Some((f.log_id, f.offset as nat)),
                None => None,
            },
        }
    }
}

/// The number of rows the whole composer needs: the buffer lines (at least
/// one), a two-row border allowance, and the popup's rows if present,
/// saturating at the largest terminal height.
pub open spec fn required_height_spec(nlines: int, popup_rows: int) -> int {
    let rows = if nlines < 1 {
        1
    } else {
        nlines
    };
    let total = rows + 2 + popup_rows;
    if total > 0xffff {
        0xffff
    } else {
        total
    }
}

/// The popup rows the view asks for: none without a popup.
pub open spec fn popup_rows_of(v: ComposerView) -> int {
    match v.popup {
        Some(p) => popup_height_spec(p.matches.len() as int),
        None => 0,
    }
}

/// `inner` lies entirely inside `outer`.
pub open spec fn rect_within(inner: Rect, outer: Rect) -> bool {
    &&& outer.x <= inner.x
    &&& inner.x + inner.width <= outer.x + outer.width
    &&& outer.y <= inner.y
    &&& inner.y + inner.height <= outer.y + outer.height
}

impl ChatComposer {
    /// The parts' own consistency, beyond what the view shows.
    pub closed spec fn wf(&self) -> bool {
        &&& view_inv(self@)
        &&& match self.command_popup {
            Some(p) => p.wf(),
            None => true,
        }
    }

    /// A fresh composer: empty buffer, no popup, fresh history navigator,
    /// escape not armed, nothing pending, focus as given.
    pub fn new(has_input_focus: bool) -> (c: ChatComposer)
        ensures
            c.wf(),
            view_inv(c@),
            c@.lines == cleared(),
            c@.cursor == (0nat, 0nat),
            c@.sel is None,
            c@.popup is None,
            c@.hist == (HistoryView {
                log_id: 0,
                entry_count: 0,
                local: Seq::<Seq<char>>::empty(),
                cursor: HistoryCursor::Inactive,
                fetch: None,
            }),
            !c@.escape_armed,
            c@.has_focus == has_input_focus,
            c@.pending_command is None,
            c@.pending_fetch is None,
    {
        let mut textarea = ta_new();
        ta_set_placeholder(&mut textarea, "send a message");
        ta_clear_cursor_line_style(&mut textarea);
        if has_input_focus {
            ta_border_focused(&mut textarea);
        } else {
            ta_border_unfocused(&mut textarea);
        }
        ChatComposer {
            textarea,
            command_popup: None,
            history: HistoryNavigator::new(),
            escape_armed: false,
            has_focus: has_input_focus,
            pending_command: None,
            pending_fetch: None,
        }
    }

    /// Switch the cosmetic focus state: only the border styling and the
    /// focus flag change.
    pub fn set_input_focus(&mut self, has_focus: bool)
        requires
            old(self).wf(),
        ensures
            final(self).wf(),
            final(self)@ == (ComposerView { has_focus, ..old(self)@ }),
    {
        self.has_focus = has_focus;
        if has_focus {
            ta_border_focused(&mut self.textarea);
        } else {
            ta_border_unfocused(&mut self.textarea);
        }
    }

    /// Whether the composer currently has input focus.
    pub fn has_input_focus(&self) -> (b: bool)
        ensures
            b == self@.has_focus,
    {
        self.has_focus
    }

    /// Record the history metadata advertised when the session is
    /// configured, so the composer can navigate cross-session history.
    pub fn set_history_metadata(&mut self, log_id: u64, entry_count: usize)
        requires
            old(self).wf(),
        ensures
            final(self).wf(),
            final(self)@ == (ComposerView {
                hist: HistoryView {
                    log_id,
                    entry_count: entry_count as nat,
                    local: old(self)@.hist.local,
                    cursor: HistoryCursor::Inactive,
                    fetch: None,
                },
                ..old(self)@
            }),
    {
        self.history.set_metadata(log_id, entry_count);
    }

    /// Whether the slash-command popup is currently visible.
    pub fn is_command_popup_visible(&self) -> (b: bool)
        ensures
            b == (self@.popup is Some),
    {
        match &self.command_popup {
            Some(_) => true,
            None => false,
        }
    }

    /// The candidate command names the popup currently offers, for display.
    pub fn popup_match_names(&self) -> (r: Option<Vec<String>>)
        ensures
            match self@.popup {
                Some(p) => r matches Some(names) && crate::text::views_of(names@) == p.matches,
                None => r is None,
            },
    {
        match &self.command_popup {
            Some(p) => Some(p.match_names()),
            None => None,
        }
    }

    /// The popup's selected candidate index, for display.
    pub fn popup_selected_index(&self) -> (r: Option<usize>)
        ensures
            match self@.popup {
                Some(p) => match p.selected {
                    Some(i) => r matches Some(j) && j == i,
                    None => r is None,
                },
                None => r is None,
            },
    {
        match &self.command_popup {
            Some(p) => p.selected_index(),
            None => None,
        }
    }

    /// The buffer content, joined with newlines.
    pub fn current_text(&self) -> (t: String)
        ensures
            t@ == join_lines(self@.lines),
    {
        let lines = ta_lines_vec(&self.textarea);
        join_text(&lines)
    }

    /// Collect the command committed by the popup since the last
    /// collection, if any; the application dispatches it.
    pub fn take_dispatched_command(&mut self) -> (r: Option<String>)
        requires
            old(self).wf(),
        ensures
            final(self).wf(),
            final(self)@ == (ComposerView { pending_command: None, ..old(self)@ }),
            match old(self)@.pending_command {
                Some(c) => r matches Some(s) && s@ == c,
                None => r is None,
            },
    {
        let r = match &self.pending_command {
            Some(s) => Some(s.clone()),
            None => None,
        };
        self.pending_command = None;
        r
    }

    /// Collect the history fetch requested since the last collection, if
    /// any; the application performs the lookup and answers through
    /// `on_history_entry_response`.
    pub fn take_history_fetch(&mut self) -> (r: Option<HistoryFetch>)
        requires
            old(self).wf(),
        ensures
            final(self).wf(),
            final(self)@ == (ComposerView { pending_fetch: None, ..old(self)@ }),
            match old(self)@.pending_fetch {
                Some(f) => r matches Some(g) && g.log_id == f.0 && g.offset as nat == f.1,
                None => r is None,
            },
    {
        let r = self.pending_fetch;
        self.pending_fetch = None;
        r
    }

    /// Replace the whole buffer content with the given text (select all,
    /// cut, insert). On content small enough for select-all to reach its
    /// end, the new content is exactly the text, split at its newlines.
    fn replace_buffer_text(&mut self, text: &String)
        requires
            ta_wf(old(self).textarea),
        ensures
            ta_wf(final(self).textarea),
            final(self).command_popup == old(self).command_popup,
            final(self).history == old(self).history,
            final(self)@.sel is None,
            ta_small(old(self)@.lines) ==> ({
                let ls = split_lines(text@);
                &&& final(self)@.lines == ls
                &&& final(self)@.cursor == (((ls.len() - 1) as nat), ls.last().len())
            }),
            final(self)@ == (ComposerView {
                lines: final(self)@.lines,
                cursor: final(self)@.cursor,
                sel: final(self)@.sel,
                ..old(self)@
            }),
    {
        ta_select_all(&mut self.textarea);
        ta_cut(&mut self.textarea);
        ta_insert_str(&mut self.textarea, text);
    }

    /// Clear the whole buffer (select all, cut). On content small enough
    /// for select-all to reach its end, the buffer becomes one empty line.
    fn clear_buffer(&mut self)
        requires
            ta_wf(old(self).textarea),
        ensures
            ta_wf(final(self).textarea),
            final(self).command_popup == old(self).command_popup,
            final(self).history == old(self).history,
            final(self)@.sel is None,
            ta_small(old(self)@.lines) ==> (final(self)@.lines == cleared() && final(self)@.cursor
                == (0nat, 0nat)),
            final(self)@ == (ComposerView {
                lines: final(self)@.lines,
                cursor: final(self)@.cursor,
                sel: final(self)@.sel,
                ..old(self)@
            }),
    {
        ta_select_all(&mut self.textarea);
        ta_cut(&mut self.textarea);
    }

    /// Synchronize the popup with the current buffer content: create or
    /// refresh it while the first line starts with '/', destroy it
    /// otherwise. Idempotent, and called after every key event.
    fn sync_command_popup(&mut self)
        requires
            ta_wf(old(self).textarea),
            match old(self).command_popup {
                Some(p) => p.wf(),
                None => true,
            },
        ensures
            ta_wf(final(self).textarea),
            match final(self).command_popup {
                Some(p) => p.wf(),
                None => true,
            },
            final(self)@.popup matches Some(pv) ==> popup_view_wf(pv),
            final(self)@ == (ComposerView {
                popup: popup_after(old(self)@.popup, old(self)@.lines),
                ..old(self)@
            }),
    {
        let first = ta_first_line(&self.textarea);
        if starts_with_slash(&first) {
            match &mut self.command_popup {
                Some(p) => {
                    p.on_composer_text_change(&first);
                },
                None => {
                    let mut p = CommandPopup::new();
                    p.on_composer_text_change(&first);
                    self.command_popup = Some(p);
                },
            }
        } else {
            if self.is_command_popup_visible() {
                self.command_popup = None;
            }
        }
    }

    /// Integrate an asynchronous response to an on-demand history lookup.
    /// A response is applied exactly when its session log id matches and
    /// its offset is the one still outstanding; anything else is stale and
    /// leaves the whole state unchanged. An applied entry replaces the
    /// buffer content (an applied absent entry changes no text).
    pub fn on_history_entry_response(
        &mut self,
        log_id: u64,
        offset: usize,
        entry: Option<String>,
    ) -> (applied: bool)
        requires
            old(self).wf(),
        ensures
            final(self).wf(),
            view_inv(final(self)@),
            applied == (log_id == old(self)@.hist.log_id && old(self)@.hist.fetch == Some(
                offset as nat,
            )),
            !applied ==> final(self)@ == old(self)@,
            applied ==> final(self)@.hist == (HistoryView { fetch: None, ..old(self)@.hist }),
            (applied && entry is None) ==> final(self)@ == (ComposerView {
                hist: HistoryView { fetch: None, ..old(self)@.hist },
                ..old(self)@
            }),
            entry matches Some(t) ==> ((applied && ta_small(old(self)@.lines)) ==> (
            final(self)@.lines == split_lines(t@) && final(self)@.popup == popup_after(
                old(self)@.popup,
                split_lines(t@),
            ))),
            final(self)@.escape_armed ==> old(self)@.escape_armed,
            final(self)@.pending_command == old(self)@.pending_command,
            final(self)@.pending_fetch == old(self)@.pending_fetch,
    {
        let applied = self.history.accept_response(log_id, offset);
        if applied {
            match entry {
                Some(t) => {
                    self.replace_buffer_text(&t);
                    proof {
                        crate::text::lemma_split_lines_wf(t@);
                    }
                    self.sync_command_popup();
                    if self.is_command_popup_visible() {
                        self.escape_armed = false;
                    }
                },
                None => {},
            }
        }
        applied
    }

    /// Forward a key verbatim to the text buffer's generic edit-input
    /// operation.
    fn handle_input_basic(&mut self, k: KeyEvent) -> (r: (InputResult, bool))
        requires
            ta_wf(old(self).textarea),
        ensures
            ta_wf(final(self).textarea),
            final(self).command_popup == old(self).command_popup,
            final(self).history == old(self).history,
            final(self)@ == (ComposerView {
                lines: final(self)@.lines,
                cursor: final(self)@.cursor,
                sel: final(self)@.sel,
                ..old(self)@
            }),
            (k.key is Esc || k.key is Null) ==> (final(self)@.lines == old(self)@.lines && final(self)@.cursor == old(self)@.cursor && final(self)@.sel == old(self)@.sel),
            (k.key is Up || k.key is Down || k.key is Left || k.key is Right || k.key is Home
                || k.key is End) ==> final(self)@.lines == old(self)@.lines,
            (k.is_plain_char() && old(self)@.sel is None) ==> ({
                let v = old(self)@;
                &&& final(self)@.lines == insert_char_at(v.lines, v.cursor.0, v.cursor.1, k.key->0)
                &&& final(self)@.cursor == (v.cursor.0, (v.cursor.1 + 1) as nat)
                &&& final(self)@.sel is None
            }),
            ((k.key is Enter || (k.key matches crate::key::Key::Char(c) && (c == '\n' || c
                == '\r') && !k.ctrl && !k.alt)) && old(self)@.sel is None) ==> ({
                let v = old(self)@;
                &&& final(self)@.lines == crate::text::split_row_at(v.lines, v.cursor.0, v.cursor.1)
                &&& final(self)@.cursor == ((v.cursor.0 + 1) as nat, 0nat)
                &&& final(self)@.sel is None
            }),
            r.0 is NoSubmission,
            r.1 == true,
    {
        ta_input(&mut self.textarea, k);
        (InputResult::NoSubmission, true)
    }

    /// Handle a key event while no popup is visible: the two-stage escape
    /// gesture, history navigation, submission, newline insertion, and
    /// plain editing.
    fn handle_key_event_without_popup(&mut self, k: KeyEvent) -> (r: (InputResult, bool))
        requires
            old(self).wf(),
        ensures
            ta_wf(final(self).textarea),
            final(self).command_popup == old(self).command_popup,
            final(self).history.wf(),
            final(self)@.popup == old(self)@.popup,
            final(self)@.has_focus == old(self)@.has_focus,
            final(self)@.pending_command == old(self)@.pending_command,
            final(self)@.hist.log_id == old(self)@.hist.log_id,
            final(self)@.hist.entry_count == old(self)@.hist.entry_count,
            final(self)@.escape_armed == (k.is_plain_esc() && !old(self)@.escape_armed),
            r.1 == true,
            r.0 matches InputResult::Submitted(s) ==> (k.is_plain_enter() && s@ == join_lines(
                old(self)@.lines,
            )),
            !k.is_plain_enter() ==> final(self)@.hist.local == old(self)@.hist.local,
            (k.key is Esc && !k.is_plain_esc()) ==> (final(self)@.lines == old(self)@.lines
                && final(self)@.cursor == old(self)@.cursor && final(self)@.sel == old(self)@.sel
                && final(self)@.hist == old(self)@.hist && final(self)@.pending_fetch == old(self)@.pending_fetch && r.0 is NoSubmission),
            (k.is_plain_esc() && !old(self)@.escape_armed) ==> (final(self)@.lines == old(self)@.lines && final(self)@.cursor == old(self)@.cursor && final(self)@.sel == old(self)@.sel && final(self)@.hist == old(self)@.hist && final(self)@.pending_fetch == old(self)@.pending_fetch && r.0 is NoSubmission),
            (k.is_plain_esc() && old(self)@.escape_armed) ==> (final(self)@.sel is None && final(self)@.hist == old(self)@.hist && final(self)@.pending_fetch == old(self)@.pending_fetch
                && r.0 is NoSubmission && (ta_small(old(self)@.lines) ==> (final(self)@.lines
                == cleared() && final(self)@.cursor == (0nat, 0nat)))),
            (k.is_plain_char() && old(self)@.sel is None) ==> ({
                let v = old(self)@;
                &&& final(self)@.lines == insert_char_at(v.lines, v.cursor.0, v.cursor.1, k.key->0)
                &&& final(self)@.cursor == (v.cursor.0, (v.cursor.1 + 1) as nat)
                &&& final(self)@.sel is None
                &&& final(self)@.hist == v.hist
                &&& final(self)@.pending_fetch == v.pending_fetch
                &&& r.0 is NoSubmission
            }),
            (k.is_newline_chord() && old(self)@.sel is None) ==> ({
                let v = old(self)@;
                &&& final(self)@.lines == crate::text::split_row_at(v.lines, v.cursor.0, v.cursor.1)
                &&& final(self)@.cursor == ((v.cursor.0 + 1) as nat, 0nat)
                &&& final(self)@.sel is None
                &&& final(self)@.hist == v.hist
                &&& final(self)@.pending_fetch == v.pending_fetch
                &&& r.0 is NoSubmission
            }),
            k.is_plain_enter() ==> ({
                let text = join_lines(old(self)@.lines);
                &&& final(self)@.sel is None
                &&& (ta_small(old(self)@.lines) ==> (final(self)@.lines == cleared() && final(self)@.cursor == (0nat, 0nat)))
                &&& (text.len() == 0 ==> (r.0 is NoSubmission && final(self)@.hist == old(self)@.hist))
                &&& (text.len() > 0 ==> ((r.0 matches InputResult::Submitted(s) && s@ == text)
                    && final(self)@.hist == submit_hist(old(self)@.hist, text)))
                &&& final(self)@.pending_fetch == old(self)@.pending_fetch
            }),
            (k.key is Up || k.key is Down) ==> ({
                let h = old(self)@.hist;
                let stepped = if k.key is Up { up_step(h) } else { down_step(h) };
                let txt = if k.key is Up { up_text(h) } else { down_text(h) };
                let fo = if k.key is Up { up_fetch(h) } else { down_fetch(h) };
                &&& r.0 is NoSubmission
                &&& (should_handle_spec(old(self)@) ==> ({
                    &&& final(self)@.hist == stepped
                    &&& (txt matches Some(t) ==> ((ta_small(old(self)@.lines) ==> final(self)@.lines
                        == split_lines(t)) && final(self)@.sel is None && final(self)@.pending_fetch
                        == old(self)@.pending_fetch))
                    &&& (fo matches Some(o) ==> (final(self)@.pending_fetch == Some((h.log_id, o))
                        && final(self)@.lines == old(self)@.lines && final(self)@.cursor == old(self)@.cursor
                        && final(self)@.sel == old(self)@.sel))
                    &&& ((txt is None && fo is None) ==> (final(self)@.lines == old(self)@.lines
                        && final(self)@.pending_fetch == old(self)@.pending_fetch))
                }))
                &&& (!should_handle_spec(old(self)@) ==> (final(self)@.lines == old(self)@.lines
                    && final(self)@.hist == old(self)@.hist && final(self)@.pending_fetch == old(self)@.pending_fetch))
            }),
    {
        proof {
            crate::text::lemma_join_empty(old(self)@.lines);
        }
        if k.key == crate::key::Key::Esc && !k.ctrl && !k.alt && !k.shift {
            if self.escape_armed {
                self.clear_buffer();
                self.escape_armed = false;
            } else {
                self.escape_armed = true;
            }
            return (InputResult::NoSubmission, true);
        } else {
            self.escape_armed = false;
        }
        if k.key == crate::key::Key::Up || k.key == crate::key::Key::Down {
            let empty = ta_is_empty(&self.textarea);
            if self.history.should_handle_navigation(empty) {
                let outcome = if k.key == crate::key::Key::Up {
                    self.history.navigate_up()
                } else {
                    self.history.navigate_down()
                };
                match outcome {
                    NavOutcome::SetText(t) => {
                        self.replace_buffer_text(&t);
                        return (InputResult::NoSubmission, true);
                    },
                    NavOutcome::Fetch(log_id, offset) => {
                        self.pending_fetch = Some(HistoryFetch { log_id, offset });
                        return (InputResult::NoSubmission, true);
                    },
                    NavOutcome::NotConsumed => {},
                }
            }
            self.handle_input_basic(k)
        } else if k.key == crate::key::Key::Enter && !k.ctrl && !k.alt && !k.shift {
            let text = join_text(&ta_lines_vec(&self.textarea));
            self.clear_buffer();
            if text.as_str().is_empty() {
                (InputResult::NoSubmission, true)
            } else {
                self.history.record_local_submission(&text);
                (InputResult::Submitted(text), true)
            }
        } else if k.key == crate::key::Key::Enter || (k.key == crate::key::Key::Char('j') && k.ctrl
            && !k.alt && !k.shift) {
            ta_insert_newline(&mut self.textarea);
            (InputResult::NoSubmission, true)
        } else {
            self.handle_input_basic(k)
        }
    }

    /// Handle a key event while the slash-command popup is visible: Up and
    /// Down move its selection, Tab completes the selected command into
    /// the buffer, a plain Enter commits it, and everything else falls
    /// through to plain editing.
    fn handle_key_event_with_popup(&mut self, k: KeyEvent) -> (r: (InputResult, bool))
        requires
            old(self).wf(),
            old(self)@.popup is Some,
        ensures
            ta_wf(final(self).textarea),
            match final(self).command_popup {
                Some(p) => p.wf(),
                None => true,
            },
            final(self).history.wf(),
            final(self)@.has_focus == old(self)@.has_focus,
            final(self)@.escape_armed ==> old(self)@.escape_armed,
            final(self)@.pending_fetch == old(self)@.pending_fetch,
            final(self)@.hist.log_id == old(self)@.hist.log_id,
            final(self)@.hist.entry_count == old(self)@.hist.entry_count,
            !k.is_plain_enter() ==> (final(self)@.hist == old(self)@.hist && final(self)@.pending_command == old(self)@.pending_command),
            r.1 == true,
            r.0 matches InputResult::Submitted(s) ==> (k.is_plain_enter() && s@ == join_lines(
                old(self)@.lines,
            ) && popup_unselected(old(self)@)),
            (k.key is Up || k.key is Down) ==> ({
                let p = old(self)@.popup->0;
                &&& final(self)@.lines == old(self)@.lines
                &&& final(self)@.cursor == old(self)@.cursor
                &&& final(self)@.sel == old(self)@.sel
                &&& final(self)@.hist == old(self)@.hist
                &&& final(self)@.pending_command == old(self)@.pending_command
                &&& final(self)@.popup == Some(
                    PopupView {
                        matches: p.matches,
                        selected: match p.selected {
                            Some(i) => Some(
                                if k.key is Up {
                                    if i > 0 {
                                        i - 1
                                    } else {
                                        0int
                                    }
                                } else {
                                    if i + 1 < p.matches.len() {
                                        i + 1
                                    } else {
                                        i
                                    }
                                },
                            ),
                            None => None::<int>,
                        },
                    },
                )
                &&& r.0 is NoSubmission
            }),
            k.key is Tab ==> ({
                let p = old(self)@.popup->0;
                &&& final(self)@.popup == old(self)@.popup
                &&& final(self)@.hist == old(self)@.hist
                &&& final(self)@.pending_command == old(self)@.pending_command
                &&& r.0 is NoSubmission
                &&& (p.selected is None ==> (final(self)@.lines == old(self)@.lines && final(self)@.cursor == old(self)@.cursor && final(self)@.sel == old(self)@.sel))
                &&& (p.selected matches Some(i) ==> ({
                    let expect = seq!['/'] + p.matches[i] + seq![' '];
                    &&& (old(self)@.lines[0] == expect ==> (final(self)@.lines == old(self)@.lines
                        && final(self)@.cursor == old(self)@.cursor && final(self)@.sel == old(self)@.sel))
                    &&& ((old(self)@.lines[0] != expect && ta_small(old(self)@.lines)) ==> (final(self)@.lines == seq![expect] && final(self)@.sel is None))
                }))
            }),
            k.is_plain_enter() ==> ({
                let p = old(self)@.popup->0;
                &&& (p.selected matches Some(i) ==> ({
                    &&& final(self)@.pending_command == Some(p.matches[i])
                    &&& final(self)@.hist == old(self)@.hist
                    &&& final(self)@.sel is None
                    &&& final(self)@.popup is None
                    &&& (ta_small(old(self)@.lines) ==> (final(self)@.lines == cleared() && final(self)@.cursor == (0nat, 0nat)))
                    &&& r.0 is NoSubmission
                }))
                &&& (p.selected is None ==> ({
                    let text = join_lines(old(self)@.lines);
                    &&& final(self)@.popup == old(self)@.popup
                    &&& final(self)@.pending_command == old(self)@.pending_command
                    &&& final(self)@.sel is None
                    &&& (ta_small(old(self)@.lines) ==> (final(self)@.lines == cleared() && final(self)@.cursor == (0nat, 0nat)))
                    &&& (text.len() == 0 ==> (r.0 is NoSubmission && final(self)@.hist == old(self)@.hist))
                    &&& (text.len() > 0 ==> ((r.0 matches InputResult::Submitted(s) && s@ == text)
                        && final(self)@.hist == submit_hist(old(self)@.hist, text)))
                }))
            }),
            ((k.key is Enter && !k.is_plain_enter()) || (k.key matches crate::key::Key::Char(c) && (
            c == '\n' || c == '\r') && !k.ctrl && !k.alt)) ==> ({
                let v = old(self)@;
                &&& final(self)@.popup == old(self)@.popup
                &&& final(self)@.hist == old(self)@.hist
                &&& final(self)@.pending_command == old(self)@.pending_command
                &&& r.0 is NoSubmission
                &&& (v.sel is None ==> (final(self)@.lines == crate::text::split_row_at(
                    v.lines,
                    v.cursor.0,
                    v.cursor.1,
                ) && final(self)@.cursor == ((v.cursor.0 + 1) as nat, 0nat) && final(self)@.sel is None))
            }),
            (k.is_plain_char() && old(self)@.sel is None) ==> ({
                let v = old(self)@;
                &&& final(self)@.lines == insert_char_at(v.lines, v.cursor.0, v.cursor.1, k.key->0)
                &&& final(self)@.cursor == (v.cursor.0, (v.cursor.1 + 1) as nat)
                &&& final(self)@.sel is None
                &&& final(self)@.popup == old(self)@.popup
                &&& final(self)@.hist == old(self)@.hist
                &&& final(self)@.pending_command == old(self)@.pending_command
                &&& r.0 is NoSubmission
            }),
            k.key is Esc ==> (final(self)@ == old(self)@ && r.0 is NoSubmission),
    {
        if !self.is_command_popup_visible() {
            // Defensive contract: treat popup handling without a popup as a
            // no-op event that asks for no redraw.
            return (InputResult::NoSubmission, false);
        }
        if k.key == crate::key::Key::Up {
            match &mut self.command_popup {
                Some(p) => {
                    p.move_up();
                },
                None => {},
            }
            (InputResult::NoSubmission, true)
        } else if k.key == crate::key::Key::Down {
            match &mut self.command_popup {
                Some(p) => {
                    p.move_down();
                },
                None => {},
            }
            (InputResult::NoSubmission, true)
        } else if k.key == crate::key::Key::Tab {
            let selected = match &self.command_popup {
                Some(p) => p.selected_command(),
                None => None,
            };
            match selected {
                Some(cmd) => {
                    let first = ta_first_line(&self.textarea);
                    let expect = crate::text::make_cmd_text(&cmd);
                    if !(first == expect) {
                        self.clear_buffer();
                        ta_insert_str(&mut self.textarea, &expect);
                        proof {
                            let p = old(self)@.popup->0;
                            let i = p.selected->0;
                            crate::popup::lemma_commands_clean();
                            assert(crate::popup::commands_spec().contains(p.matches[i])) by {
                                broadcast use Seq::lemma_filter_contains_rev;

                                assert(p.matches == filtered_spec(
                                    token_spec(old(self)@.lines[0]),
                                ));
                                assert(p.matches.contains(p.matches[i]));
                            }
                            let j = choose|j: int|
                                0 <= j < crate::popup::commands_spec().len()
                                    && crate::popup::commands_spec()[j] == p.matches[i];
                            assert(crate::popup::clean_cmd(p.matches[i]));
                            assert(crate::text::line_ok(expect@));
                            assert(expect@.last() == ' ');
                            crate::text::lemma_split_lines_single(expect@);
                        }
                    }
                },
                None => {},
            }
            (InputResult::NoSubmission, true)
        } else if k.key == crate::key::Key::Enter && !k.ctrl && !k.alt && !k.shift {
            let selected = match &self.command_popup {
                Some(p) => p.selected_command(),
                None => None,
            };
            match selected {
                Some(cmd) => {
                    self.pending_command = Some(cmd);
                    self.clear_buffer();
                    self.command_popup = None;
                    (InputResult::NoSubmission, true)
                },
                None => self.handle_key_event_without_popup(k),
            }
        } else {
            self.handle_input_basic(k)
        }
    }

    /// Handle a key event coming from the main UI: dispatch it by the
    /// current mode, then resynchronize the popup with the buffer content.
    /// The pair returned carries the handling result and a redraw flag.
    pub fn handle_key_event(&mut self, k: KeyEvent) -> (r: (InputResult, bool))
        requires
            old(self).wf(),
        ensures
            final(self).wf(),
            view_inv(final(self)@),
            (final(self)@.popup is Some) <==> is_cmd_line(final(self)@.lines[0]),
            r.1 == true,
            final(self)@.has_focus == old(self)@.has_focus,
            final(self)@.hist.log_id == old(self)@.hist.log_id,
            final(self)@.hist.entry_count == old(self)@.hist.entry_count,
            final(self)@.escape_armed == (old(self)@.popup is None && k.is_plain_esc() && !old(self)@.escape_armed),
            (old(self)@.popup is Some && !k.is_plain_enter()) ==> (final(self)@.hist == old(self)@.hist && final(self)@.pending_command == old(self)@.pending_command && final(self)@.pending_fetch == old(self)@.pending_fetch),
            r.0 matches InputResult::Submitted(s) ==> (k.is_plain_enter() && s@ == join_lines(
                old(self)@.lines,
            ) && popup_unselected(old(self)@)),
            (k.key is Esc && esc_pinned(old(self)@, k)) ==> (final(self)@ == step_esc(
                old(self)@,
                k,
            ) && r.0 is NoSubmission),
            (k.is_plain_char() && old(self)@.sel is None) ==> (final(self)@ == step_plain_char(
                old(self)@,
                k.key->0,
            ) && r.0 is NoSubmission),
            (k.is_plain_enter() && popup_unselected(old(self)@)) ==> ({
                let text = join_lines(old(self)@.lines);
                &&& (text.len() == 0 ==> (r.0 is NoSubmission && final(self)@.hist == old(self)@.hist))
                &&& (text.len() > 0 ==> ((r.0 matches InputResult::Submitted(s) && s@ == text)
                    && final(self)@.hist == submit_hist(old(self)@.hist, text)))
                &&& (ta_small(old(self)@.lines) ==> (final(self)@.lines == cleared() && final(self)@.popup is None))
                &&& final(self)@.pending_command == old(self)@.pending_command
                &&& final(self)@.pending_fetch == old(self)@.pending_fetch
            }),
            (k.is_plain_enter() && old(self)@.popup is Some) ==> ({
                let p = old(self)@.popup->0;
                p.selected matches Some(i) ==> ({
                &&& final(self)@.pending_command == Some(p.matches[i])
                &&& final(self)@.hist == old(self)@.hist
                &&& (ta_small(old(self)@.lines) ==> (final(self)@.lines == cleared() && final(self)@.popup is None))
                &&& r.0 is NoSubmission
            })
            }),
            ((k.key is Up || k.key is Down) && old(self)@.popup is Some) ==> ({
                let p = old(self)@.popup->0;
                &&& final(self)@.lines == old(self)@.lines
                &&& final(self)@.hist == old(self)@.hist
                &&& final(self)@.pending_command == old(self)@.pending_command
                &&& final(self)@.pending_fetch == old(self)@.pending_fetch
                &&& final(self)@.popup == Some(
                    PopupView {
                        matches: p.matches,
                        selected: match p.selected {
                            Some(i) => Some(
                                if k.key is Up {
                                    if i > 0 {
                                        i - 1
                                    } else {
                                        0int
                                    }
                                } else {
                                    if i + 1 < p.matches.len() {
                                        i + 1
                                    } else {
                                        i
                                    }
                                },
                            ),
                            None => None::<int>,
                        },
                    },
                )
                &&& r.0 is NoSubmission
            }),
            (k.key is Tab && old(self)@.popup is Some) ==> ({
                let p = old(self)@.popup->0;
                &&& final(self)@.hist == old(self)@.hist
                &&& final(self)@.pending_command == old(self)@.pending_command
                &&& r.0 is NoSubmission
                &&& (p.selected is None ==> final(self)@.lines == old(self)@.lines)
                &&& (p.selected matches Some(i) ==> ({
                    let expect = seq!['/'] + p.matches[i] + seq![' '];
                    &&& (old(self)@.lines[0] == expect ==> final(self)@.lines == old(self)@.lines)
                    &&& ((old(self)@.lines[0] != expect && ta_small(old(self)@.lines)) ==> final(self)@.lines == seq![expect])
                }))
            }),
            ((k.key is Up || k.key is Down) && old(self)@.popup is None) ==> ({
                let h = old(self)@.hist;
                let stepped = if k.key is Up { up_step(h) } else { down_step(h) };
                let txt = if k.key is Up { up_text(h) } else { down_text(h) };
                let fo = if k.key is Up { up_fetch(h) } else { down_fetch(h) };
                &&& r.0 is NoSubmission
                &&& (should_handle_spec(old(self)@) ==> ({
                    &&& final(self)@.hist == stepped
                    &&& (txt matches Some(t) ==> ((ta_small(old(self)@.lines) ==> final(self)@.lines
                        == split_lines(t)) && final(self)@.sel is None && final(self)@.pending_fetch
                        == old(self)@.pending_fetch))
                    &&& (fo matches Some(o) ==> (final(self)@.pending_fetch == Some((h.log_id, o))
                        && final(self)@.lines == old(self)@.lines && final(self)@.cursor == old(self)@.cursor
                        && final(self)@.sel == old(self)@.sel))
                    &&& ((txt is None && fo is None) ==> (final(self)@.lines == old(self)@.lines
                        && final(self)@.pending_fetch == old(self)@.pending_fetch))
                }))
                &&& (!should_handle_spec(old(self)@) ==> (final(self)@.lines == old(self)@.lines
                    && final(self)@.hist == old(self)@.hist && final(self)@.pending_fetch == old(self)@.pending_fetch))
            }),
    {
        let result = if self.is_command_popup_visible() {
            self.handle_key_event_with_popup(k)
        } else {
            self.handle_key_event_without_popup(k)
        };
        self.sync_command_popup();
        result
    }

    /// The number of vertical rows this composer needs: the buffer lines
    /// (at least one) plus a border allowance, plus whatever the popup
    /// reports needing for the given area.
    pub fn calculate_required_height(&self, area: &Rect) -> (h: u16)
        requires
            self.wf(),
        ensures
            h as int == required_height_spec(self@.lines.len() as int, popup_rows_of(self@)),
    {
        let rows = ta_line_count(&self.textarea);
        let popup_rows: u16 = match &self.command_popup {
            Some(p) => p.calculate_required_height(area),
            None => 0,
        };
        let max_rows: usize = 0xffff - 2 - (popup_rows as usize);
        if rows > max_rows {
            0xffff
        } else {
            rows as u16 + 2 + popup_rows
        }
    }

    /// Split a render area between the popup and the text buffer: the
    /// popup, when present, takes its required height (capped at the
    /// area's height) at the top, and the buffer the remaining rows below;
    /// without a popup the buffer fills the whole area. Both regions lie
    /// inside the given area and stack exactly to cover it.
    pub fn layout(&self, area: Rect) -> (r: (Option<Rect>, Rect))
        requires
            self.wf(),
            area.y + area.height <= 0xffff,
        ensures
            match self@.popup {
                None => r == (None::<Rect>, area),
                Some(p) => ({
                    let ph = if popup_height_spec(p.matches.len() as int) <= area.height as int {
                        popup_height_spec(p.matches.len() as int)
                    } else {
                        area.height as int
                    };
                    &&& r.0 == Some(
                        Rect { x: area.x, y: area.y, width: area.width, height: ph as u16 },
                    )
                    &&& r.1 == (Rect {
                        x: area.x,
                        y: (area.y + ph) as u16,
                        width: area.width,
                        height: (area.height - ph) as u16,
                    })
                }),
            },
            r.0 matches Some(pr) ==> rect_within(pr, area),
            rect_within(r.1, area),
    {
        match &self.command_popup {
            Some(p) => {
                let wanted = p.calculate_required_height(&area);
                let ph = if wanted <= area.height {
                    wanted
                } else {
                    area.height
                };
                let popup_rect = Rect { x: area.x, y: area.y, width: area.width, height: ph };
                let text_rect = Rect {
                    x: area.x,
                    y: area.y + ph,
                    width: area.width,
                    height: area.height - ph,
                };
                (Some(popup_rect), text_rect)
            },
            None => (None, area),
        }
    }

    /// Render the composer into the given region of the drawing surface:
    /// the popup, when present, on top and the text area below, split as
    /// `layout` specifies; the buffer fills the whole area otherwise. The
    /// composer fills only that region: every cell of the surface outside
    /// `area` keeps its symbol, and the surface's own region is untouched.
    pub fn render(&self, area: Rect, buf: &mut ratatui::buffer::Buffer)
        requires
            self.wf(),
            area.y + area.height <= 0xffff,
            rect_within(area, buf_area(*old(buf))),
        ensures
            buf_area(*final(buf)) == buf_area(*old(buf)),
            preserved_outside(buf_cells(*old(buf)), buf_cells(*final(buf)), area),
    {
        let ghost cells_start = buf_cells(*buf);
        let (popup_rect, text_rect) = self.layout(area);
        match popup_rect {
            Some(pr) => {
                match &self.command_popup {
                    Some(p) => {
                        let names = p.match_names();
                        let sel = p.selected_index();
                        draw_popup_rows(&names, sel, pr, buf);
                    },
                    None => {},
                }
            },
            None => {},
        }
        let ghost cells_mid = buf_cells(*buf);
        self.textarea.widget_render(text_rect, buf);
        proof {
            assert forall|col: int, row: int| !covers(area, col, row) implies #[trigger] buf_cells(
                *buf,
            )[(col, row)] == cells_start[(col, row)] by {
                assert(!covers(text_rect, col, row));
                assert(buf_cells(*buf)[(col, row)] == cells_mid[(col, row)]);
                match popup_rect {
                    Some(pr) => {
                        assert(!covers(pr, col, row));
                        assert(cells_mid[(col, row)] == cells_start[(col, row)]);
                    },
                    None => {},
                }
            }
        }
    }
}

} // verus!
