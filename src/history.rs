//! The history of submitted command lines, newest first, and the walk through
//! it with the up and down keys.
use vstd::prelude::*;
use std::collections::VecDeque;

verus! {

/// The number of lines at which the oldest line is dropped.
pub const HISTORY_LIMIT: usize = 100;

#[derive(Clone, Copy, Debug, PartialEq, Eq, Structural, Hash)]
pub enum HistoryKey {
    Up,
    Down,
}

pub struct CmdHistory {
    /// Newest line first.
    pub history: VecDeque<String>,
    /// The line selected while walking the history.
    pub scroll_i: usize,
    /// The line being typed before the walk began.
    pub line_storage: Option<String>,
    pub max_len: usize,
}

impl Default for CmdHistory {
    fn default() -> (r: CmdHistory)
        ensures
            r.wf(),
            r.history@.len() == 0,
            r.scroll_i == 0,
            r.line_storage is None,
            r.max_len == HISTORY_LIMIT,
    {
        CmdHistory::new()
    }
}

/// The history after a push of `cmd` with limit `max_len`.
pub open spec fn pushed(h: Seq<String>, cmd: String, max_len: usize) -> Seq<String> {
    let longer = seq![cmd] + h;
    if longer.len() == max_len {
        longer.drop_last()
    } else {
        longer
    }
}

impl CmdHistory {
    pub open spec fn wf(&self) -> bool {
        &&& self.max_len >= 1
        &&& self.history@.len() < self.max_len
        &&& (self.scroll_i == 0 || self.scroll_i < self.history@.len())
    }

    /// An empty history.
    pub fn new() -> (r: CmdHistory)
        ensures
            r.wf(),
            r.history@.len() == 0,
            r.scroll_i == 0,
            r.line_storage is None,
            r.max_len == HISTORY_LIMIT,
    {
        CmdHistory {
            history: VecDeque::with_capacity(HISTORY_LIMIT),
            scroll_i: 0,
            line_storage: None,
            max_len: HISTORY_LIMIT,
        }
    }

    /// Records a submitted line as the newest; the oldest goes once the limit is reached.
    pub fn push(&mut self, cmd: String)
        requires
            old(self).wf(),
        ensures
            final(self).wf(),
            final(self).history@ == pushed(old(self).history@, cmd, old(self).max_len),
            final(self).scroll_i == old(self).scroll_i,
            final(self).line_storage == old(self).line_storage,
            final(self).max_len == old(self).max_len,
    {
        let ghost before = self.history@;
        self.history.push_front(cmd);
        assert(self.history@ =~= seq![cmd] + before);
        if self.history.len() == self.max_len {
            self.history.pop_back();
        }
    }

    /// The line selected in the walk.
    pub fn get_selected(&self) -> (r: String)
        requires
            self.scroll_i < self.history@.len(),
        ensures
            r == self.history@[self.scroll_i as int],
    {
        self.history[self.scroll_i].clone()
    }

    /// One key of the walk, with `input` the line in the prompt. Up first keeps the
    /// typed line and shows the selected one, then steps to older lines, wrapping
    /// round; down steps to newer lines, and from the newest gives back the typed
    /// line. With an empty history nothing changes.
    pub fn navigate(&mut self, key: HistoryKey, input: &mut String)
        requires
            old(self).wf(),
        ensures
            final(self).wf(),
            final(self).history == old(self).history,
            final(self).max_len == old(self).max_len,
            old(self).history@.len() == 0 ==> *final(self) == *old(self) && *final(input)
                == *old(input),
            old(self).history@.len() > 0 && key == HistoryKey::Up ==> {
                let i = if old(self).line_storage is Some {
                    ((old(self).scroll_i + 1) % (old(self).history@.len() as int)) as usize
                } else {
                    old(self).scroll_i
                };
                &&& final(self).scroll_i == i
                &&& final(self).line_storage == if old(self).line_storage is Some {
                    old(self).line_storage
                } else {
                    Some(*old(input))
                }
                &&& *final(input) == old(self).history@[i as int]
            },
            old(self).history@.len() > 0 && key == HistoryKey::Down ==> {
                if old(self).scroll_i > 0 {
                    &&& final(self).scroll_i == old(self).scroll_i - 1
                    &&& final(self).line_storage == old(self).line_storage
                    &&& *final(input) == old(self).history@[old(self).scroll_i - 1]
                } else if old(self).line_storage is Some {
                    &&& final(self).scroll_i == 0
                    &&& final(self).line_storage is None
                    &&& *final(input) == old(self).line_storage.unwrap()
                } else {
                    *final(self) == *old(self) && *final(input) == *old(input)
                }
            },
    {
        if self.history.len() == 0 {
            return;
        }
        match key {
            HistoryKey::Up => {
                if self.line_storage.is_some() {
                    self.scroll_i = (self.scroll_i + 1) % self.history.len();
                } else {
                    self.line_storage = Some(input.clone());
                }
                *input = self.get_selected();
            },
            HistoryKey::Down => {
                if self.scroll_i > 0 {
                    self.scroll_i = self.scroll_i - 1;
                    *input = self.get_selected();
                } else {
                    let stored = self.line_storage.take();
                    match stored {
                        Some(cmd) => {
                            *input = cmd;
                        },
                        None => {},
                    }
                }
            },
        }
    }
}

} // verus!
