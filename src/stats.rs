use vstd::prelude::*;

verus! {

/// One step up for a counter; a counter that has reached `usize::MAX` stays
/// there.
pub open spec fn bump(n: usize) -> usize {
    if n < usize::MAX {
        (n + 1) as usize
    } else {
        n
    }
}

/// The counters of one run: files found, files moved to the trash, and
/// removals that failed.
#[derive(Clone, Copy, Debug, PartialEq, Eq, Structural)]
pub struct CleanStats {
    pub found: usize,
    pub moved: usize,
    pub failed: usize,
}

impl CleanStats {
    /// All three counters at zero.
    pub fn new() -> (r: CleanStats)
        ensures
            r == (CleanStats { found: 0, moved: 0, failed: 0 }),
    {
        CleanStats { found: 0, moved: 0, failed: 0 }
    }

    pub fn increment_found(&mut self)
        ensures
            *final(self) == (CleanStats { found: bump(old(self).found), ..*old(self) }),
    {
        if self.found < usize::MAX {
            self.found = self.found + 1;
        }
    }

    pub fn increment_moved(&mut self)
        ensures
            *final(self) == (CleanStats { moved: bump(old(self).moved), ..*old(self) }),
    {
        if self.moved < usize::MAX {
            self.moved = self.moved + 1;
        }
    }

    pub fn increment_failed(&mut self)
        ensures
            *final(self) == (CleanStats { failed: bump(old(self).failed), ..*old(self) }),
    {
        if self.failed < usize::MAX {
            self.failed = self.failed + 1;
        }
    }

    pub fn get_found(&self) -> (r: usize)
        ensures
            r == self.found,
    {
        self.found
    }

    pub fn get_moved(&self) -> (r: usize)
        ensures
            r == self.moved,
    {
        self.moved
    }

    pub fn get_failed(&self) -> (r: usize)
        ensures
            r == self.failed,
    {
        self.failed
    }
}

} // verus!
