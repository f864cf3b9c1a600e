//! The history navigator: a cursor over the submission history. Older
//! entries live remotely, identified by a session log id and an offset, and
//! are fetched on demand; entries submitted this session are held locally.
//! Offsets 0 up to the entry count are remote and oldest-first; local
//! entries follow them in submission order.

use vstd::prelude::*;
use crate::text::views_of;

verus! {

/// Where the navigation cursor stands.
#[derive(Clone, Copy, PartialEq, Eq, Structural, Debug)]
pub enum HistoryCursor {
    /// Not browsing history.
    Inactive,
    /// On the remote entry with this offset.
    Remote(usize),
    /// On the local entry with this index.
    Local(usize),
}

/// What a navigation key did.
pub enum NavOutcome {
    /// The navigator declined the key; it falls back to cursor movement.
    NotConsumed,
    /// A history entry (or, leaving history, the empty text) replaces the
    /// buffer content.
    SetText(String),
    /// The entry must be fetched: ask the application for this session log
    /// id and offset; the reply arrives through `on_entry_response`.
    Fetch(u64, usize),
}

/// What the navigator state means.
#[verifier::ext_equal]
pub struct HistoryView {
    pub log_id: u64,
    pub entry_count: nat,
    pub local: Seq<Seq<char>>,
    pub cursor: HistoryCursor,
    pub fetch: Option<nat>,
}

pub struct HistoryNavigator {
    log_id: u64,
    entry_count: usize,
    local_entries: Vec<String>,
    cursor: HistoryCursor,
    fetch_offset: Option<usize>,
}

impl View for HistoryNavigator {
    type V = HistoryView;

    closed spec fn view(&self) -> HistoryView {
        HistoryView {
            log_id: self.log_id,
            entry_count: self.entry_count as nat,
            local: views_of(self.local_entries@),
            cursor: self.cursor,
            fetch: match self.fetch_offset {
                Some(o) => Some(o as nat),
                None => None,
            },
        }
    }
}

/// The cursor and any outstanding fetch stay within the known history.
pub open spec fn history_view_wf(v: HistoryView) -> bool {
    &&& match v.cursor {
        HistoryCursor::Inactive => true,
        HistoryCursor::Remote(j) => (j as nat) < v.entry_count,
        HistoryCursor::Local(i) => (i as nat) < v.local.len(),
    }
    &&& match v.fetch {
        Some(o) => o < v.entry_count,
        None => true,
    }
}

/// The navigator state after one step toward the oldest entry.
pub open spec fn up_step(h: HistoryView) -> HistoryView {
    match h.cursor {
        HistoryCursor::Inactive => if h.local.len() > 0 {
            HistoryView { cursor: HistoryCursor::Local((h.local.len() - 1) as usize), ..h }
        } else if h.entry_count > 0 {
            HistoryView {
                cursor: HistoryCursor::Remote((h.entry_count - 1) as usize),
                fetch: Some((h.entry_count - 1) as nat),
                ..h
            }
        } else {
            h
        },
        HistoryCursor::Local(i) => if i > 0 {
            HistoryView { cursor: HistoryCursor::Local((i - 1) as usize), fetch: None, ..h }
        } else if h.entry_count > 0 {
            HistoryView {
                cursor: HistoryCursor::Remote((h.entry_count - 1) as usize),
                fetch: Some((h.entry_count - 1) as nat),
                ..h
            }
        } else {
            h
        },
        HistoryCursor::Remote(j) => if j > 0 {
            HistoryView {
                cursor: HistoryCursor::Remote((j - 1) as usize),
                fetch: Some((j - 1) as nat),
                ..h
            }
        } else {
            h
        },
    }
}

/// The text an upward step hands out, if it reaches a local entry.
pub open spec fn up_text(h: HistoryView) -> Option<Seq<char>> {
    match h.cursor {
        HistoryCursor::Inactive => if h.local.len() > 0 {
            Some(h.local.last())
        } else {
            None
        },
        HistoryCursor::Local(i) => if i > 0 {
            Some(h.local[i - 1])
        } else {
            None
        },
        HistoryCursor::Remote(j) => None,
    }
}

/// The offset an upward step asks to fetch, if it reaches a remote entry.
pub open spec fn up_fetch(h: HistoryView) -> Option<nat> {
    match h.cursor {
        HistoryCursor::Inactive => if h.local.len() == 0 && h.entry_count > 0 {
            Some((h.entry_count - 1) as nat)
        } else {
            None
        },
        HistoryCursor::Local(i) => if i == 0 && h.entry_count > 0 {
            Some((h.entry_count - 1) as nat)
        } else {
            None
        },
        HistoryCursor::Remote(j) => if j > 0 {
            Some((j - 1) as nat)
        } else {
            None
        },
    }
}

/// The navigator state after one step toward the newest entry.
pub open spec fn down_step(h: HistoryView) -> HistoryView {
    match h.cursor {
        HistoryCursor::Inactive => h,
        HistoryCursor::Remote(j) => if j + 1 < h.entry_count {
            HistoryView {
                cursor: HistoryCursor::Remote((j + 1) as usize),
                fetch: Some((j + 1) as nat),
                ..h
            }
        } else if h.local.len() > 0 {
            HistoryView { cursor: HistoryCursor::Local(0), fetch: None, ..h }
        } else {
            HistoryView { cursor: HistoryCursor::Inactive, fetch: None, ..h }
        },
        HistoryCursor::Local(i) => if i + 1 < h.local.len() {
            HistoryView { cursor: HistoryCursor::Local((i + 1) as usize), fetch: None, ..h }
        } else {
            HistoryView { cursor: HistoryCursor::Inactive, fetch: None, ..h }
        },
    }
}

/// The text a downward step hands out: a local entry, or the empty text
/// when browsing ends past the newest entry.
pub open spec fn down_text(h: HistoryView) -> Option<Seq<char>> {
    match h.cursor {
        HistoryCursor::Inactive => None,
        HistoryCursor::Remote(j) => if j + 1 < h.entry_count {
            None
        } else if h.local.len() > 0 {
            Some(h.local[0])
        } else {
            Some(Seq::<char>::empty())
        },
        HistoryCursor::Local(i) => if i + 1 < h.local.len() {
            Some(h.local[i + 1])
        } else {
            Some(Seq::<char>::empty())
        },
    }
}

/// The offset a downward step asks to fetch, if it reaches a remote entry.
pub open spec fn down_fetch(h: HistoryView) -> Option<nat> {
    match h.cursor {
        HistoryCursor::Remote(j) => if j + 1 < h.entry_count {
            Some((j + 1) as nat)
        } else {
            None
        },
        _ => None,
    }
}

impl HistoryNavigator {
    pub open spec fn wf(&self) -> bool {
        history_view_wf(self@)
    }

    /// A fresh navigator: no session metadata, no local entries, not
    /// browsing, nothing outstanding.
    pub fn new() -> (h: HistoryNavigator)
        ensures
            h.wf(),
            h@.log_id == 0,
            h@.entry_count == 0,
            h@.local == Seq::<Seq<char>>::empty(),
            h@.cursor == HistoryCursor::Inactive,
            h@.fetch is None,
    {
        let h = HistoryNavigator {
            log_id: 0,
            entry_count: 0,
            local_entries: Vec::new(),
            cursor: HistoryCursor::Inactive,
            fetch_offset: None,
        };
        proof {
            assert(views_of(h.local_entries@) =~= Seq::<Seq<char>>::empty());
        }
        h
    }

    /// Replace the session identifier and known remote entry count; the
    /// navigation cursor and any outstanding fetch are reset, since they
    /// referred to the previous metadata.
    pub fn set_metadata(&mut self, log_id: u64, entry_count: usize)
        ensures
            final(self).wf(),
            final(self)@ == (HistoryView {
                log_id,
                entry_count: entry_count as nat,
                local: old(self)@.local,
                cursor: HistoryCursor::Inactive,
                fetch: None,
            }),
    {
        self.log_id = log_id;
        self.entry_count = entry_count;
        self.cursor = HistoryCursor::Inactive;
        self.fetch_offset = None;
    }

    /// Record a freshly submitted entry at the newest end of the local
    /// history and reset the navigation cursor.
    pub fn record_local_submission(&mut self, text: &String)
        ensures
            final(self).wf(),
            final(self)@ == (HistoryView {
                log_id: old(self)@.log_id,
                entry_count: old(self)@.entry_count,
                local: old(self)@.local.push(text@),
                cursor: HistoryCursor::Inactive,
                fetch: None,
            }),
    {
        self.local_entries.push(text.clone());
        self.cursor = HistoryCursor::Inactive;
        self.fetch_offset = None;
        proof {
            assert(views_of(self.local_entries@) =~= old(self)@.local.push(text@));
        }
    }

    /// Whether a navigation key should be intercepted for history recall:
    /// when already browsing, or when the buffer is empty and any history
    /// is known.
    pub fn should_handle_navigation(&self, buffer_empty: bool) -> (b: bool)
        ensures
            b == (self@.cursor != HistoryCursor::Inactive || (buffer_empty && (
            self@.entry_count > 0 || self@.local.len() > 0))),
    {
        match self.cursor {
            HistoryCursor::Inactive => buffer_empty && (self.entry_count > 0
                || self.local_entries.len() > 0),
            _ => true,
        }
    }

    /// Move one entry toward the oldest. From rest, the newest entry comes
    /// first; local entries hand their text out directly; remote entries
    /// dispatch a fetch. At the oldest entry the key is not consumed.
    pub fn navigate_up(&mut self) -> (o: NavOutcome)
        requires
            old(self).wf(),
        ensures
            final(self).wf(),
            final(self)@.log_id == old(self)@.log_id,
            final(self)@.entry_count == old(self)@.entry_count,
            final(self)@.local == old(self)@.local,
            ({
                let v = old(self)@;
                let w = final(self)@;
                match v.cursor {
                    HistoryCursor::Inactive => {
                        if v.local.len() > 0 {
                            &&& w.cursor == HistoryCursor::Local((v.local.len() - 1) as usize)
                            &&& w.fetch == v.fetch
                            &&& o matches NavOutcome::SetText(t) && t@ == v.local.last()
                        } else if v.entry_count > 0 {
                            &&& w.cursor == HistoryCursor::Remote((v.entry_count - 1) as usize)
                            &&& w.fetch == Some((v.entry_count - 1) as nat)
                            &&& o matches NavOutcome::Fetch(id, off) && id == v.log_id && off
                                as nat == v.entry_count - 1
                        } else {
                            w == v && o is NotConsumed
                        }
                    },
                    HistoryCursor::Local(i) => {
                        if i > 0 {
                            &&& w.cursor == HistoryCursor::Local((i - 1) as usize)
                            &&& w.fetch is None
                            &&& o matches NavOutcome::SetText(t) && t@ == v.local[i - 1]
                        } else if v.entry_count > 0 {
                            &&& w.cursor == HistoryCursor::Remote((v.entry_count - 1) as usize)
                            &&& w.fetch == Some((v.entry_count - 1) as nat)
                            &&& o matches NavOutcome::Fetch(id, off) && id == v.log_id && off
                                as nat == v.entry_count - 1
                        } else {
                            w == v && o is NotConsumed
                        }
                    },
                    HistoryCursor::Remote(j) => {
                        if j > 0 {
                            &&& w.cursor == HistoryCursor::Remote((j - 1) as usize)
                            &&& w.fetch == Some((j - 1) as nat)
                            &&& o matches NavOutcome::Fetch(id, off) && id == v.log_id && off == j
                                - 1
                        } else {
                            w == v && o is NotConsumed
                        }
                    },
                }
            }),
    {
        match self.cursor {
            HistoryCursor::Inactive => {
                if self.local_entries.len() > 0 {
                    let i = self.local_entries.len() - 1;
                    self.cursor = HistoryCursor::Local(i);
                    NavOutcome::SetText(self.local_entries[i].clone())
                } else if self.entry_count > 0 {
                    let j = self.entry_count - 1;
                    self.cursor = HistoryCursor::Remote(j);
                    self.fetch_offset = Some(j);
                    NavOutcome::Fetch(self.log_id, j)
                } else {
                    NavOutcome::NotConsumed
                }
            },
            HistoryCursor::Local(i) => {
                if i > 0 {
                    self.cursor = HistoryCursor::Local(i - 1);
                    self.fetch_offset = None;
                    NavOutcome::SetText(self.local_entries[i - 1].clone())
                } else if self.entry_count > 0 {
                    let j = self.entry_count - 1;
                    self.cursor = HistoryCursor::Remote(j);
                    self.fetch_offset = Some(j);
                    NavOutcome::Fetch(self.log_id, j)
                } else {
                    NavOutcome::NotConsumed
                }
            },
            HistoryCursor::Remote(j) => {
                if j > 0 {
                    self.cursor = HistoryCursor::Remote(j - 1);
                    self.fetch_offset = Some(j - 1);
                    NavOutcome::Fetch(self.log_id, j - 1)
                } else {
                    NavOutcome::NotConsumed
                }
            },
        }
    }

    /// Move one entry toward the newest. Past the newest entry, browsing
    /// ends and the buffer is restored to empty. When not browsing the key
    /// is not consumed.
    pub fn navigate_down(&mut self) -> (o: NavOutcome)
        requires
            old(self).wf(),
        ensures
            final(self).wf(),
            final(self)@.log_id == old(self)@.log_id,
            final(self)@.entry_count == old(self)@.entry_count,
            final(self)@.local == old(self)@.local,
            ({
                let v = old(self)@;
                let w = final(self)@;
                match v.cursor {
                    HistoryCursor::Inactive => w == v && o is NotConsumed,
                    HistoryCursor::Remote(j) => {
                        if ((j + 1) as nat) < v.entry_count {
                            &&& w.cursor == HistoryCursor::Remote((j + 1) as usize)
                            &&& w.fetch == Some((j + 1) as nat)
                            &&& o matches NavOutcome::Fetch(id, off) && id == v.log_id && off == j
                                + 1
                        } else if v.local.len() > 0 {
                            &&& w.cursor == HistoryCursor::Local(0)
                            &&& w.fetch is None
                            &&& o matches NavOutcome::SetText(t) && t@ == v.local[0]
                        } else {
                            &&& w.cursor == HistoryCursor::Inactive
                            &&& w.fetch is None
                            &&& o matches NavOutcome::SetText(t) && t@ == Seq::<char>::empty()
                        }
                    },
                    HistoryCursor::Local(i) => {
                        if ((i + 1) as nat) < v.local.len() {
                            &&& w.cursor == HistoryCursor::Local((i + 1) as usize)
                            &&& w.fetch is None
                            &&& o matches NavOutcome::SetText(t) && t@ == v.local[i + 1]
                        } else {
                            &&& w.cursor == HistoryCursor::Inactive
                            &&& w.fetch is None
                            &&& o matches NavOutcome::SetText(t) && t@ == Seq::<char>::empty()
                        }
                    },
                }
            }),
    {
        match self.cursor {
            HistoryCursor::Inactive => NavOutcome::NotConsumed,
            HistoryCursor::Remote(j) => {
                proof {
                    assert((j as nat) < self@.entry_count);
                }
                if j + 1 < self.entry_count {
                    self.cursor = HistoryCursor::Remote(j + 1);
                    self.fetch_offset = Some(j + 1);
                    NavOutcome::Fetch(self.log_id, j + 1)
                } else if self.local_entries.len() > 0 {
                    self.cursor = HistoryCursor::Local(0);
                    self.fetch_offset = None;
                    NavOutcome::SetText(self.local_entries[0].clone())
                } else {
                    self.cursor = HistoryCursor::Inactive;
                    self.fetch_offset = None;
                    NavOutcome::SetText(String::new())
                }
            },
            HistoryCursor::Local(i) => {
                let n = self.local_entries.len();
                proof {
                    assert((i as nat) < self@.local.len());
                    assert(self@.local.len() == self.local_entries@.len());
                }
                if i + 1 < n {
                    self.cursor = HistoryCursor::Local(i + 1);
                    self.fetch_offset = None;
                    NavOutcome::SetText(self.local_entries[i + 1].clone())
                } else {
                    self.cursor = HistoryCursor::Inactive;
                    self.fetch_offset = None;
                    NavOutcome::SetText(String::new())
                }
            },
        }
    }

    /// Match an asynchronous entry response against the outstanding fetch:
    /// it is accepted exactly when the session log id matches and the
    /// offset is the one still outstanding; acceptance completes the fetch.
    pub fn accept_response(&mut self, log_id: u64, offset: usize) -> (applied: bool)
        ensures
            old(self).wf() ==> final(self).wf(),
            applied == (log_id == old(self)@.log_id && old(self)@.fetch == Some(offset as nat)),
            final(self)@ == (HistoryView {
                fetch: if applied {
                    None
                } else {
                    old(self)@.fetch
                },
                ..old(self)@
            }),
    {
        let matches_fetch = match self.fetch_offset {
            Some(o) => o == offset,
            None => false,
        };
        if log_id == self.log_id && matches_fetch {
            self.fetch_offset = None;
            true
        } else {
            false
        }
    }
}

} // verus!
