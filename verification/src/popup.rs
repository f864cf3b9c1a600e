//! The slash-command popup: given the first line of the buffer, it keeps a
//! filtered list of candidate commands and a selection cursor over them.

use vstd::prelude::*;
use vstd::seq_lib::*;
use crate::text::is_cmd_line;
use crate::text::is_char_prefix;
use crate::text::is_prefix_of;
use crate::text::token_of;
use crate::text::token_spec;
use crate::text::views_of;

verus! {

/// The built-in command set offered by the popup.
pub open spec fn commands_spec() -> Seq<Seq<char>> {
    seq!["clear"@, "help"@, "new"@, "quit"@]
}

/// The commands whose names the token is a prefix of, in order.
pub open spec fn filtered_spec(tok: Seq<char>) -> Seq<Seq<char>> {
    commands_spec().filter(|c: Seq<char>| is_prefix_of(tok, c))
}

/// A command name fit for completion into the buffer: free of newlines,
/// carriage returns and spaces.
pub open spec fn clean_cmd(c: Seq<char>) -> bool {
    forall|i: int| 0 <= i < c.len() ==> (c[i] != '\n' && c[i] != '\r' && c[i] != ' ')
}

/// Every built-in command name is fit for completion.
pub proof fn lemma_commands_clean()
    ensures
        forall|j: int| 0 <= j < commands_spec().len() ==> clean_cmd(#[trigger] commands_spec()[j]),
{
    reveal_strlit("clear");
    reveal_strlit("help");
    reveal_strlit("new");
    reveal_strlit("quit");
    assert forall|j: int| 0 <= j < commands_spec().len() implies clean_cmd(
        #[trigger] commands_spec()[j],
    ) by {
        if j == 0 {
            assert(clean_cmd("clear"@));
        } else if j == 1 {
            assert(clean_cmd("help"@));
        } else if j == 2 {
            assert(clean_cmd("new"@));
        } else {
            assert(clean_cmd("quit"@));
        }
    }
}

/// The selection after the candidate list changed to length `n`: an empty
/// list has no selection; otherwise the previous index, clamped into the
/// list, or the first entry when nothing was selected before.
pub open spec fn sel_after(prev: Option<int>, n: int) -> Option<int> {
    if n == 0 {
        None
    } else {
        match prev {
            Some(i) => Some(if i < n { i } else { n - 1 }),
            None => Some(0),
        }
    }
}

/// The number of rows the popup asks for, from its candidate count: the
/// count clamped between one and five, plus a two-row border allowance.
pub open spec fn popup_height_spec(n: int) -> int {
    (if n < 1 {
        1
    } else if n > 5 {
        5
    } else {
        n
    }) + 2
}

/// What the popup state means: the filtered candidates and the selection.
#[verifier::ext_equal]
pub struct PopupView {
    pub matches: Seq<Seq<char>>,
    pub selected: Option<int>,
}

/// A selection is an index into the candidates, absent exactly when there
/// are none.
pub open spec fn popup_view_wf(v: PopupView) -> bool {
    &&& match v.selected {
        Some(i) => 0 <= i < v.matches.len(),
        None => v.matches.len() == 0,
    }
}

pub struct CommandPopup {
    commands: Vec<String>,
    matches: Vec<String>,
    selected: Option<usize>,
}

impl View for CommandPopup {
    type V = PopupView;

    closed spec fn view(&self) -> PopupView {
        PopupView {
            matches: views_of(self.matches@),
            selected: match self.selected {
                Some(i) => Some(i as int),
                None => None,
            },
        }
    }
}

impl CommandPopup {
    /// The popup's internal consistency: the full command set is the
    /// built-in one and the selection indexes the candidates.
    pub closed spec fn wf(&self) -> bool {
        &&& views_of(self.commands@) == commands_spec()
        &&& popup_view_wf(self@)
    }

    /// A fresh popup offers every built-in command, the first selected.
    pub fn new() -> (p: CommandPopup)
        ensures
            p.wf(),
            popup_view_wf(p@),
            p@.matches == commands_spec(),
            p@.selected == Some(0int),
    {
        let commands: Vec<String> = vec![
            String::from_str("clear"),
            String::from_str("help"),
            String::from_str("new"),
            String::from_str("quit"),
        ];
        let matches: Vec<String> = vec![
            String::from_str("clear"),
            String::from_str("help"),
            String::from_str("new"),
            String::from_str("quit"),
        ];
        let p = CommandPopup { commands, matches, selected: Some(0) };
        proof {
            assert(views_of(p.commands@) =~= commands_spec());
            assert(views_of(p.matches@) =~= commands_spec());
        }
        p
    }

    /// Refilter the candidates from the first line's command token and
    /// clamp the selection into the new list.
    pub fn on_composer_text_change(&mut self, line: &String)
        requires
            old(self).wf(),
            is_cmd_line(line@),
        ensures
            final(self).wf(),
            popup_view_wf(final(self)@),
            final(self)@.matches == filtered_spec(token_spec(line@)),
            final(self)@.selected == sel_after(old(self)@.selected, final(self)@.matches.len() as int),
    {
        broadcast use vstd::seq_lib::group_filter_ensures;
        broadcast use Seq::lemma_filter_push;

        let tok = token_of(line);
        let ghost pred = |c: Seq<char>| is_prefix_of(tok@, c);
        let mut found: Vec<String> = Vec::new();
        let n = self.commands.len();
        proof {
            assert(views_of(self.commands@.take(0)) =~= Seq::<Seq<char>>::empty());
            assert(Seq::<Seq<char>>::empty().filter(pred) =~= Seq::<Seq<char>>::empty()) by {
                reveal(Seq::filter);
            }
        }
        let mut i: usize = 0;
        while i < n
            invariant
                0 <= i <= n,
                n == self.commands.len(),
                self.wf(),
                tok@ == token_spec(line@),
                pred == (|c: Seq<char>| is_prefix_of(tok@, c)),
                views_of(found@) == views_of(self.commands@.take(i as int)).filter(pred),
            decreases n - i,
        {
            proof {
                let prev = views_of(self.commands@.take(i as int));
                let e = self.commands@[i as int]@;
                assert(views_of(self.commands@.take(i + 1)) =~= prev.push(e));
                prev.lemma_filter_push(e, pred);
                assert(prev.push(e).filter(pred) == if pred(e) {
                    prev.filter(pred).push(e)
                } else {
                    prev.filter(pred)
                });
            }
            if is_char_prefix(&tok, &self.commands[i]) {
                found.push(self.commands[i].clone());
                proof {
                    assert(views_of(found@) =~= views_of(self.commands@.take(i as int)).filter(
                        pred,
                    ).push(self.commands@[i as int]@));
                }
            } else {
                proof {
                    assert(views_of(found@) == views_of(self.commands@.take(i + 1)).filter(pred));
                }
            }
            i = i + 1;
        }
        proof {
            assert(self.commands@.take(n as int) =~= self.commands@);
        }
        let m = found.len();
        let new_sel: Option<usize> = if m == 0 {
            None
        } else {
            match self.selected {
                Some(s) => if s < m {
                    Some(s)
                } else {
                    Some(m - 1)
                },
                None => Some(0),
            }
        };
        self.matches = found;
        self.selected = new_sel;
    }

    /// Move the selection one candidate up, stopping at the first.
    pub fn move_up(&mut self)
        requires
            old(self).wf(),
        ensures
            final(self).wf(),
            popup_view_wf(final(self)@),
            final(self)@.matches == old(self)@.matches,
            final(self)@.selected == match old(self)@.selected {
                Some(i) => Some(if i > 0 { i - 1 } else { 0int }),
                None => None::<int>,
            },
    {
        match self.selected {
            Some(i) => {
                if i > 0 {
                    self.selected = Some(i - 1);
                }
            },
            None => {},
        }
    }

    /// Move the selection one candidate down, stopping at the last.
    pub fn move_down(&mut self)
        requires
            old(self).wf(),
        ensures
            final(self).wf(),
            popup_view_wf(final(self)@),
            final(self)@.matches == old(self)@.matches,
            final(self)@.selected == match old(self)@.selected {
                Some(i) => Some(
                    if i + 1 < old(self)@.matches.len() {
                        i + 1
                    } else {
                        i
                    },
                ),
                None => None::<int>,
            },
    {
        let len = self.matches.len();
        match self.selected {
            Some(i) => {
                proof {
                    assert((i as int) < self@.matches.len());
                    assert(self@.matches.len() == len);
                }
                if i + 1 < len {
                    self.selected = Some(i + 1);
                }
            },
            None => {},
        }
    }

    /// The currently selected command name, if any.
    pub fn selected_command(&self) -> (r: Option<String>)
        requires
            self.wf(),
        ensures
            match self@.selected {
                Some(i) => r matches Some(s) && s@ == self@.matches[i],
                None => r is None,
            },
    {
        match self.selected {
            Some(i) => Some(self.matches[i].clone()),
            None => None,
        }
    }

    /// The candidate command names, in order, for display.
    pub fn match_names(&self) -> (r: Vec<String>)
        ensures
            views_of(r@) == self@.matches,
    {
        let mut out: Vec<String> = Vec::new();
        let n = self.matches.len();
        let mut i: usize = 0;
        while i < n
            invariant
                0 <= i <= n,
                n == self.matches.len(),
                views_of(out@) == views_of(self.matches@.take(i as int)),
            decreases n - i,
        {
            proof {
                assert(views_of(self.matches@.take(i + 1)) =~= views_of(
                    self.matches@.take(i as int),
                ).push(self.matches@[i as int]@));
                assert(views_of(out@).push(self.matches@[i as int]@) =~= views_of(
                    out@.push(self.matches@[i as int]),
                ));
            }
            out.push(self.matches[i].clone());
            i = i + 1;
        }
        proof {
            assert(self.matches@.take(n as int) =~= self.matches@);
        }
        out
    }

    /// The number of rows the popup needs for the given area: its
    /// candidate rows (at least one, at most five) plus a two-row border
    /// allowance.
    pub fn calculate_required_height(&self, _area: &crate::composer::Rect) -> (h: u16)
        ensures
            h == popup_height_spec(self@.matches.len() as int),
    {
        let n = self.matches.len();
        let rows: u16 = if n < 1 {
            1
        } else if n > 5 {
            5
        } else {
            n as u16
        };
        rows + 2
    }

    /// The selected index, if any, for display.
    pub fn selected_index(&self) -> (r: Option<usize>)
        ensures
            match self@.selected {
                Some(i) => r matches Some(j) && j == i,
                None => r is None,
            },
    {
        self.selected
    }
}

} // verus!
