//! Laws of the composer, proved over the step functions that the key
//! handler's contract pins it to.

use vstd::prelude::*;
use vstd::seq_lib::*;
use crate::composer::ComposerView;
use crate::composer::popup_after;
use crate::composer::popup_rows_of;
use crate::composer::required_height_spec;
use crate::composer::step_esc;
use crate::composer::step_plain_char;
use crate::composer::view_inv;
use crate::key::KeyEvent;
use crate::popup::PopupView;
use crate::popup::popup_view_wf;
use crate::popup::sel_after;
use crate::text::cleared;
use crate::text::is_cmd_line;
use crate::text::join_lines;
use crate::text::line_ok;
use crate::text::lines_ok;
use crate::textbuf::ta_small;

verus! {

/// The composer state after a sequence of plain character keys, one step
/// per character.
pub open spec fn type_chars(v: ComposerView, cs: Seq<char>) -> ComposerView
    decreases cs.len(),
{
    if cs.len() == 0 {
        v
    } else {
        type_chars(step_plain_char(v, cs[0]), cs.skip(1))
    }
}

/// A character a terminal sends as a plain character key: not a newline.
pub open spec fn plain_chars(cs: Seq<char>) -> bool {
    forall|i: int| 0 <= i < cs.len() ==> (cs[i] != '\n' && cs[i] != '\r')
}

/// One plain character key preserves the composer's invariant.
pub proof fn lemma_plain_char_step(v: ComposerView, c: char)
    requires
        view_inv(v),
        v.sel is None,
        c != '\n',
        c != '\r',
    ensures
        view_inv(step_plain_char(v, c)),
{
    let w = step_plain_char(v, c);
    let row = v.cursor.0 as int;
    let l = v.lines[row];
    let l2 = l.insert(v.cursor.1 as int, c);
    l.insert_ensures(v.cursor.1 as int, c);
    assert(line_ok(l2)) by {
        assert forall|j: int| 0 <= j < l2.len() implies l2[j] != '\n' by {
            if j < v.cursor.1 {
                assert(l2[j] == l[j]);
            } else if j == v.cursor.1 {
            } else {
                assert(l2[j] == l[j - 1]);
            }
        }
    }
    assert(lines_ok(w.lines)) by {
        assert forall|i: int| 0 <= i < w.lines.len() implies line_ok(#[trigger] w.lines[i]) by {
            if i != row {
                assert(w.lines[i] == v.lines[i]);
            }
        }
    }
    assert(w.cursor.1 <= w.lines[w.cursor.0 as int].len());
    match w.popup {
        Some(p) => {
            assert(popup_view_wf(p)) by {
                let n = p.matches.len() as int;
                let prev = match v.popup {
                    Some(q) => q.selected,
                    None => None::<int>,
                };
                assert(p.selected == sel_after(prev, n));
            }
        },
        None => {},
    }
}

/// Typing continues a single-line buffer: each plain character key appends
/// to the line under the cursor sitting at its end.
pub proof fn lemma_plain_typing_general(v: ComposerView, l: Seq<char>, cs: Seq<char>)
    requires
        view_inv(v),
        v.sel is None,
        v.lines == seq![l],
        v.cursor == (0nat, l.len()),
        plain_chars(cs),
    ensures
        view_inv(type_chars(v, cs)),
        type_chars(v, cs).lines == seq![l + cs],
        type_chars(v, cs).cursor == (0nat, (l.len() + cs.len()) as nat),
        type_chars(v, cs).sel is None,
    decreases cs.len(),
{
    if cs.len() == 0 {
        assert(l + cs =~= l);
        assert(seq![l + cs] =~= v.lines);
    } else {
        let c = cs[0];
        let w = step_plain_char(v, c);
        lemma_plain_char_step(v, c);
        l.insert_ensures(l.len() as int, c);
        assert(l.insert(l.len() as int, c) =~= l.push(c));
        assert(w.lines =~= seq![l.push(c)]);
        assert(w.cursor == (0nat, l.push(c).len()));
        assert(plain_chars(cs.skip(1))) by {
            assert forall|i: int|
                0 <= i < cs.skip(1).len() implies (cs.skip(1)[i] != '\n' && cs.skip(1)[i]
                != '\r') by {
                assert(cs.skip(1)[i] == cs[i + 1]);
            }
        }
        lemma_plain_typing_general(w, l.push(c), cs.skip(1));
        assert(l.push(c) + cs.skip(1) =~= l + cs);
        assert(type_chars(v, cs) == type_chars(w, cs.skip(1)));
    }
}

/// Plain typing round-trips: the characters typed into a fresh, empty
/// composer, with no Escape among them, are exactly the buffer content.
pub proof fn lemma_plain_typing_round_trip(v: ComposerView, cs: Seq<char>)
    requires
        view_inv(v),
        v.sel is None,
        v.lines == cleared(),
        v.cursor == (0nat, 0nat),
        plain_chars(cs),
    ensures
        type_chars(v, cs).lines == seq![cs],
        join_lines(seq![cs]) == cs,
{
    lemma_plain_typing_general(v, Seq::<char>::empty(), cs);
    assert(Seq::<char>::empty() + cs =~= cs);
}

/// One Escape never changes the buffer content while the arm is down; in
/// plain mode it arms.
pub proof fn lemma_escape_preserves_content(v: ComposerView, k: KeyEvent)
    requires
        view_inv(v),
        k.key is Esc,
        !v.escape_armed,
    ensures
        step_esc(v, k).lines == v.lines,
        (v.popup is None && k.is_plain_esc()) ==> step_esc(v, k).escape_armed,
{
}

/// Two plain Escapes in immediate succession clear the buffer, whatever
/// its content: the first only arms, the second clears.
pub proof fn lemma_double_escape_clears(v: ComposerView, k: KeyEvent)
    requires
        view_inv(v),
        k.is_plain_esc(),
        v.popup is None,
        !v.escape_armed,
        ta_small(v.lines),
    ensures
        step_esc(v, k).lines == v.lines,
        step_esc(step_esc(v, k), k).lines == cleared(),
{
}

/// Escape, then a plain character, then Escape does not clear: the third
/// Escape only arms again; the fourth consecutive Escape clears.
pub proof fn lemma_escape_char_escape(v: ComposerView, k: KeyEvent, c: char)
    requires
        view_inv(v),
        k.is_plain_esc(),
        v.popup is None,
        v.sel is None,
        !v.escape_armed,
        c != '\n',
        c != '\r',
        !is_cmd_line(step_plain_char(step_esc(v, k), c).lines[0]),
        ta_small(step_plain_char(step_esc(v, k), c).lines),
    ensures
        ({
            let armed = step_esc(v, k);
            let typed = step_plain_char(armed, c);
            let third = step_esc(typed, k);
            let fourth = step_esc(third, k);
            &&& third.lines == typed.lines
            &&& third.escape_armed
            &&& fourth.lines == cleared()
        }),
{
    let armed = step_esc(v, k);
    lemma_plain_char_step(armed, c);
}

/// Popup resynchronization is idempotent: synchronized again against the
/// same content, the popup does not change.
pub proof fn lemma_resync_idempotent(prev: Option<PopupView>, lines: Seq<Seq<char>>)
    ensures
        popup_after(popup_after(prev, lines), lines) == popup_after(prev, lines),
{
    if is_cmd_line(lines[0]) {
        let once = popup_after(prev, lines);
        let twice = popup_after(once, lines);
        assert(twice->0 =~= once->0);
    }
}

/// The popup asks for no negative space, and a visible popup asks for at
/// least its border rows.
pub proof fn lemma_popup_rows_nonneg(v: ComposerView)
    ensures
        popup_rows_of(v) >= 0,
        v.popup is Some ==> popup_rows_of(v) >= 3,
{
}

/// The required height is monotonically non-decreasing in the number of
/// buffer lines and in the rows the popup asks for; in particular a
/// present popup never lowers it.
pub proof fn lemma_required_height_monotone(n1: int, n2: int, p1: int, p2: int)
    requires
        n1 <= n2,
        p1 <= p2,
    ensures
        required_height_spec(n1, p1) <= required_height_spec(n2, p2),
{
}

} // verus!
