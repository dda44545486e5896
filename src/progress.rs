//! Progress of one stream fetch.
use vstd::prelude::*;

verus! {

/// Bytes written so far, and the length the server declared (zero if none).
#[derive(Clone, Copy, Debug, PartialEq, Eq, Structural)]
pub struct ProgressState {
    pub downloaded: u64,
    pub total: u64,
}

/// Whole percent of `done` out of `total`, capped at 100.
pub open spec fn percent_of(done: int, total: int) -> u64 {
    if done * 100 / total > 100 {
        100
    } else {
        (done * 100 / total) as u64
    }
}

impl ProgressState {
    /// Nothing downloaded yet, out of the declared length if there is one.
    pub fn new(total: Option<u64>) -> (p: ProgressState)
        ensures
            p.downloaded == 0,
            p.total == match total {
                Some(t) => t,
                None => 0,
            },
    {
        let t = match total {
            Some(t) => t,
            None => 0,
        };
        ProgressState { downloaded: 0, total: t }
    }

    /// Counts a chunk of `len` bytes, stopping at the largest count.
    pub fn add_chunk(&mut self, len: usize)
        ensures
            final(self).total == old(self).total,
            final(self).downloaded as int == if old(self).downloaded + len > u64::MAX {
                u64::MAX as int
            } else {
                old(self).downloaded + len
            },
    {
        self.downloaded = self.downloaded.saturating_add(len as u64);
    }

    /// Whole percent done, capped at 100; `None` when no length was declared.
    pub fn percent(&self) -> (r: Option<u64>)
        ensures
            self.total == 0 ==> r is None,
            self.total > 0 ==> r == Some(percent_of(self.downloaded as int, self.total as int)),
    {
        if self.total == 0 {
            return None;
        }
        let scaled: u128 = self.downloaded as u128 * 100;
        let p: u128 = scaled / self.total as u128;
        if p > 100 {
            Some(100)
        } else {
            Some(p as u64)
        }
    }
}

} // verus!
