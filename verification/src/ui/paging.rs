//! Reading a long list a page at a time: pages of a hundred from offset zero, until a
//! page comes back short or a request fails.
use vstd::prelude::*;

verus! {

/// How many items a page asks for.
pub const PAGE_SIZE: usize = 100;

/// Where the reading of a list stands.
#[derive(Debug, Clone, Copy, PartialEq, Eq, Structural)]
pub struct Pager {
    /// The offset of the page asked for last.
    pub offset: usize,
    pub done: bool,
}

/// How a page request ended.
#[derive(Debug, Clone, PartialEq, Eq)]
pub enum PageOutcome {
    /// A page came back with this many items.
    Loaded(usize),
    Failed(String),
}

/// What to do next.
#[derive(Debug, Clone, PartialEq, Eq)]
pub enum PageAction {
    /// Ask for `limit` items from `offset`.
    Fetch { offset: usize, limit: usize },
    /// Every page is in.
    Finish,
    /// A request failed: drop what came in and report the error.
    Abort(String),
}

impl Pager {
    /// The first request: a page from offset zero.
    pub fn start() -> (r: (Pager, PageAction))
        ensures
            r.0 == (Pager { offset: 0, done: false }),
            r.1 == (PageAction::Fetch { offset: 0, limit: PAGE_SIZE }),
    {
        (Pager { offset: 0, done: false }, PageAction::Fetch { offset: 0, limit: PAGE_SIZE })
    }

    /// The next step after a page request ended: a short page finishes the list, a
    /// full one asks for the page after it, and a failure aborts.
    pub fn next(&mut self, outcome: PageOutcome) -> (r: PageAction)
        requires
            !old(self).done,
            old(self).offset + PAGE_SIZE <= usize::MAX,
        ensures
            match outcome {
                PageOutcome::Loaded(n) => if n < PAGE_SIZE {
                    &&& r == PageAction::Finish
                    &&& *final(self) == (Pager { offset: old(self).offset, done: true })
                } else {
                    &&& r == (PageAction::Fetch { offset: (old(self).offset + PAGE_SIZE) as usize, limit: PAGE_SIZE })
                    &&& *final(self) == (Pager { offset: (old(self).offset + PAGE_SIZE) as usize, done: false })
                },
                PageOutcome::Failed(e) => {
                    &&& r matches PageAction::Abort(m) && m@ == e@
                    &&& *final(self) == (Pager { offset: old(self).offset, done: true })
                },
            },
    {
        match outcome {
            PageOutcome::Loaded(n) => {
                if n < PAGE_SIZE {
                    self.done = true;
                    PageAction::Finish
                } else {
                    self.offset = self.offset + PAGE_SIZE;
                    PageAction::Fetch { offset: self.offset, limit: PAGE_SIZE }
                }
            },
            PageOutcome::Failed(e) => {
                self.done = true;
                PageAction::Abort(e)
            },
        }
    }
}

} // verus!
