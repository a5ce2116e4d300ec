use vstd::prelude::*;

use crate::target::{is_ds_store_file, path_is_target};

verus! {

/// The settings of one run.
#[derive(Clone, Copy, Debug, PartialEq, Eq, Structural)]
pub struct ScanConfig {
    /// Visit only the root's immediate children; wins over `max_depth`.
    pub no_recursive: bool,
    /// Deepest level visited, the root being level 0; 0 means no limit.
    pub max_depth: usize,
    /// Do not descend into directories whose name starts with `'.'`.
    pub skip_hidden: bool,
    /// Report the files found without removing any.
    pub dry_run: bool,
    /// Report each file found and each removal that succeeded.
    pub verbose: bool,
}

/// What a walked entry is on disk.
#[derive(Clone, Copy, Debug, PartialEq, Eq, Structural)]
pub enum EntryKind {
    File,
    Dir,
    Other,
}

/// One entry of the walk. `path` and `name` are `None` where the bytes on
/// disk are not valid text.
#[derive(Clone, Debug)]
pub struct Entry {
    pub path: Option<String>,
    pub name: Option<String>,
    pub kind: EntryKind,
    pub depth: usize,
}

/// The deepest level that a run visits under `c`, or `None` for no limit.
pub open spec fn depth_limit_of(c: ScanConfig) -> Option<usize> {
    if c.no_recursive {
        Some(1usize)
    } else if c.max_depth > 0 {
        Some(c.max_depth)
    } else {
        None
    }
}

/// An entry at `depth` lies within the levels that a run visits.
pub open spec fn depth_in_scope(c: ScanConfig, depth: usize) -> bool {
    match depth_limit_of(c) {
        Some(n) => depth <= n,
        None => true,
    }
}

/// A name that starts with the hidden marker `'.'`.
pub open spec fn is_hidden_name(name: Seq<char>) -> bool {
    name.len() > 0 && name[0] == '.'
}

/// The walk keeps an entry, and descends into it if it is a directory, unless
/// it is a hidden directory below the root and hidden directories are skipped.
/// Files are never left out here, whatever their name.
pub open spec fn keeps_entry(c: ScanConfig, e: Entry) -> bool {
    !(c.skip_hidden && e.depth > 0 && e.kind == EntryKind::Dir && match e.name {
        Some(n) => is_hidden_name(n@),
        None => false,
    })
}

/// The entry's path is text and names a target file.
pub open spec fn entry_is_target(e: Entry) -> bool {
    match e.path {
        Some(p) => path_is_target(p@),
        None => false,
    }
}

/// An entry that a run counts as found: a regular file within the visited
/// levels whose path names a target file.
pub open spec fn counts_entry(c: ScanConfig, e: Entry) -> bool {
    e.kind == EntryKind::File && depth_in_scope(c, e.depth) && entry_is_target(e)
}

impl ScanConfig {
    /// The depth limit to hand to the walk: 1 without recursion, else
    /// `max_depth` where it is set, else none.
    pub fn depth_limit(&self) -> (r: Option<usize>)
        ensures
            r == depth_limit_of(*self),
    {
        if self.no_recursive {
            Some(1)
        } else if self.max_depth > 0 {
            Some(self.max_depth)
        } else {
            None
        }
    }

    /// Whether the walk keeps `e` (and descends into it, for a directory).
    pub fn keeps(&self, e: &Entry) -> (r: bool)
        ensures
            r == keeps_entry(*self, *e),
    {
        if self.skip_hidden && e.depth > 0 && e.kind == EntryKind::Dir {
            match &e.name {
                Some(n) => {
                    if n.unicode_len() > 0 && n.get_char(0) == '.' {
                        return false;
                    }
                },
                None => {},
            }
        }
        true
    }

    /// Whether a run counts `e` as a found target file.
    pub fn counts(&self, e: &Entry) -> (r: bool)
        ensures
            r == counts_entry(*self, *e),
    {
        if e.kind != EntryKind::File {
            return false;
        }
        let in_scope = match self.depth_limit() {
            Some(n) => e.depth <= n,
            None => true,
        };
        if !in_scope {
            return false;
        }
        match &e.path {
            Some(p) => is_ds_store_file(p.as_str()),
            None => false,
        }
    }
}

} // verus!
