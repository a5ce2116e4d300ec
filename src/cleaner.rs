use vstd::prelude::*;

use crate::config::{counts_entry, Entry, ScanConfig};
use crate::removal::{check_removal, removal_check, trash_outcome, PathState, RemovalError};
use crate::stats::{bump, CleanStats};

verus! {

/// Where a run stands between two entries of the walk.
#[derive(Clone, Copy, Debug, PartialEq, Eq, Structural)]
pub enum Phase {
    /// Waiting for the next entry.
    Ready,
    /// A target was found; waiting for a look at its path on disk.
    Probing,
    /// The checks passed; waiting for the outcome of the move to the trash.
    Deleting,
}

/// What the caller does next.
#[derive(Clone, Debug, PartialEq, Eq)]
pub enum Action {
    /// Go on with the next entry.
    Next,
    /// Dry run: the entry is a target; report it and go on.
    Preview,
    /// Look at the entry's path on disk and hand back what was found.
    Probe,
    /// Move the entry's file to the trash and hand back the outcome.
    Delete,
    /// The file is in the trash; go on.
    Moved,
    /// The removal failed for the reason given; report it and go on.
    Failed(RemovalError),
}

/// The orchestrator of one run: its settings, its counters and its phase.
#[derive(Clone, Copy, Debug)]
pub struct Cleaner {
    pub config: ScanConfig,
    pub stats: CleanStats,
    pub phase: Phase,
}

/// A run at its start.
pub open spec fn fresh(c: ScanConfig) -> Cleaner {
    Cleaner { config: c, stats: CleanStats { found: 0, moved: 0, failed: 0 }, phase: Phase::Ready }
}

/// The next entry of the walk arrives. Only a counted entry in the ready
/// phase changes anything: `found` goes up, and outside a dry run the
/// removal of its file begins.
pub open spec fn entry_step(m: Cleaner, e: Entry) -> (Cleaner, Action) {
    if m.phase != Phase::Ready || !counts_entry(m.config, e) {
        (m, Action::Next)
    } else {
        let m1 = Cleaner { stats: CleanStats { found: bump(m.stats.found), ..m.stats }, ..m };
        if m.config.dry_run {
            (m1, Action::Preview)
        } else {
            (Cleaner { phase: Phase::Probing, ..m1 }, Action::Probe)
        }
    }
}

/// What a look at `path` on disk found arrives. The removal checks run on
/// `path`; the file is handed out for deletion only where all of them pass.
pub open spec fn probe_step(m: Cleaner, path: Seq<char>, state: PathState) -> (Cleaner, Action) {
    if m.phase != Phase::Probing {
        (m, Action::Next)
    } else {
        match removal_check(path, state) {
            Ok(()) => (Cleaner { phase: Phase::Deleting, ..m }, Action::Delete),
            Err(e) => (
                Cleaner {
                    stats: CleanStats { failed: bump(m.stats.failed), ..m.stats },
                    phase: Phase::Ready,
                    ..m
                },
                Action::Failed(e),
            ),
        }
    }
}

/// The outcome of the move to the trash arrives.
pub open spec fn delete_step(m: Cleaner, trashed: Result<(), String>) -> (Cleaner, Action) {
    if m.phase != Phase::Deleting {
        (m, Action::Next)
    } else {
        match trashed {
            Ok(()) => (
                Cleaner {
                    stats: CleanStats { moved: bump(m.stats.moved), ..m.stats },
                    phase: Phase::Ready,
                    ..m
                },
                Action::Moved,
            ),
            Err(cause) => (
                Cleaner {
                    stats: CleanStats { failed: bump(m.stats.failed), ..m.stats },
                    phase: Phase::Ready,
                    ..m
                },
                Action::Failed(RemovalError::TrashOperationFailed(cause)),
            ),
        }
    }
}

impl Cleaner {
    /// A run with the settings `config`, its counters at zero.
    pub fn new(config: ScanConfig) -> (r: Cleaner)
        ensures
            r == fresh(config),
    {
        Cleaner { config, stats: CleanStats::new(), phase: Phase::Ready }
    }

    /// Hands the next entry of the walk to the run.
    pub fn on_entry(&mut self, e: &Entry) -> (r: Action)
        ensures
            (*final(self), r) == entry_step(*old(self), *e),
            old(self).config.dry_run ==> r == Action::Next || r == Action::Preview,
    {
        match self.phase {
            Phase::Ready => {},
            _ => return Action::Next,
        }
        if !self.config.counts(e) {
            return Action::Next;
        }
        self.stats.increment_found();
        if self.config.dry_run {
            Action::Preview
        } else {
            self.phase = Phase::Probing;
            Action::Probe
        }
    }

    /// Hands the run what a look at `path` on disk found.
    pub fn on_probe(&mut self, path: &str, state: PathState) -> (r: Action)
        ensures
            (*final(self), r) == probe_step(*old(self), path@, state),
            r == Action::Delete ==> crate::target::path_is_target(path@),
    {
        match self.phase {
            Phase::Probing => {},
            _ => return Action::Next,
        }
        match check_removal(path, state) {
            Ok(()) => {
                self.phase = Phase::Deleting;
                Action::Delete
            },
            Err(e) => {
                self.stats.increment_failed();
                self.phase = Phase::Ready;
                Action::Failed(e)
            },
        }
    }

    /// Hands the run the outcome of a move to the trash, with the cause of a
    /// failure.
    pub fn on_delete(&mut self, trashed: Result<(), String>) -> (r: Action)
        ensures
            (*final(self), r) == delete_step(*old(self), trashed),
    {
        match self.phase {
            Phase::Deleting => {},
            _ => return Action::Next,
        }
        match trash_outcome(trashed) {
            Ok(()) => {
                self.stats.increment_moved();
                self.phase = Phase::Ready;
                Action::Moved
            },
            Err(e) => {
                self.stats.increment_failed();
                self.phase = Phase::Ready;
                Action::Failed(e)
            },
        }
    }

    /// The counters so far.
    pub fn stats(&self) -> (r: CleanStats)
        ensures
            r == self.stats,
    {
        self.stats
    }
}

} // verus!
