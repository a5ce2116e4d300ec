use ds_clean::cleaner::{Action, Cleaner, Phase};
use ds_clean::config::{Entry, EntryKind, ScanConfig};
use ds_clean::removal::{check_removal, trash_outcome, PathState, RemovalError};
use ds_clean::stats::CleanStats;

fn config(dry_run: bool) -> ScanConfig {
    ScanConfig { no_recursive: false, max_depth: 0, skip_hidden: false, dry_run, verbose: false }
}

fn entry(path: &str, kind: EntryKind, depth: usize) -> Entry {
    let name = path.rsplit('/').next().unwrap_or(path).to_string();
    Entry { path: Some(path.to_string()), name: Some(name), kind, depth }
}

/// A tree in pre-order, as a walk lists it: path, kind, depth.
fn tree(items: &[(&str, EntryKind, usize)]) -> Vec<Entry> {
    items.iter().map(|(p, k, d)| entry(p, *k, *d)).collect()
}

/// Walks `entries` as a depth-first walk would: it honours the depth limit
/// and leaves out the subtree of each entry that the configuration does not
/// keep.
fn walk(c: &ScanConfig, entries: &[Entry]) -> Vec<Entry> {
    let mut out = Vec::new();
    let mut pruned_at: Option<usize> = None;
    for e in entries {
        if let Some(d) = pruned_at {
            if e.depth > d {
                continue;
            }
            pruned_at = None;
        }
        if let Some(limit) = c.depth_limit() {
            if e.depth > limit {
                continue;
            }
        }
        if !c.keeps(e) {
            pruned_at = Some(e.depth);
            continue;
        }
        out.push(e.clone());
    }
    out
}

/// Runs a cleaner over the walk; `fail` names the paths whose move to the
/// trash fails.
fn run(c: ScanConfig, entries: &[Entry], fail: &[&str]) -> (CleanStats, Vec<Action>) {
    let mut m = Cleaner::new(c);
    let mut actions = Vec::new();
    for e in walk(&c, entries) {
        let mut a = m.on_entry(&e);
        let path = e.path.clone().unwrap_or_default();
        if a == Action::Probe {
            a = m.on_probe(&path, PathState::RegularFile);
        }
        if a == Action::Delete {
            let res = if fail.contains(&path.as_str()) {
                Err("permission denied".to_string())
            } else {
                Ok(())
            };
            a = m.on_delete(res);
        }
        actions.push(a);
    }
    (m.stats(), actions)
}

fn sample_tree() -> Vec<Entry> {
    tree(&[
        ("root", EntryKind::Dir, 0),
        ("root/.DS_Store", EntryKind::File, 1),
        ("root/a", EntryKind::Dir, 1),
        ("root/a/.DS_Store", EntryKind::File, 2),
        ("root/a/notes.txt", EntryKind::File, 2),
        ("root/a/b", EntryKind::Dir, 2),
        ("root/a/b/.DS_Store", EntryKind::File, 3),
        ("root/a/b/.ds_store", EntryKind::File, 3),
        ("root/c", EntryKind::Dir, 1),
        ("root/c/.DS_Store", EntryKind::Dir, 2),
        ("root/c/.DS_Store", EntryKind::Other, 2),
    ])
}

#[test]
fn dry_run_twice_reports_same_found() {
    let t = sample_tree();
    let (first, a1) = run(config(true), &t, &[]);
    let (second, _) = run(config(true), &t, &[]);
    assert_eq!(first, second);
    assert_eq!(first, CleanStats { found: 3, moved: 0, failed: 0 });
    assert!(a1.iter().all(|a| *a == Action::Next || *a == Action::Preview));
    assert_eq!(a1.iter().filter(|a| **a == Action::Preview).count(), 3);
}

#[test]
fn clean_run_moves_every_target() {
    let (s, actions) = run(config(false), &sample_tree(), &[]);
    assert_eq!(s, CleanStats { found: 3, moved: 3, failed: 0 });
    assert_eq!(actions.iter().filter(|a| **a == Action::Moved).count(), 3);
}

#[test]
fn one_failure_does_not_stop_the_run() {
    let (s, actions) = run(config(false), &sample_tree(), &["root/a/.DS_Store"]);
    assert_eq!(s, CleanStats { found: 3, moved: 2, failed: 1 });
    assert!(actions.contains(&Action::Failed(RemovalError::TrashOperationFailed(
        "permission denied".to_string()
    ))));
    assert_eq!(*actions.last().unwrap(), Action::Next);
}

#[test]
fn depth_boundary() {
    let t = tree(&[
        ("root", EntryKind::Dir, 0),
        ("root/a", EntryKind::Dir, 1),
        ("root/a/.DS_Store", EntryKind::File, 2),
        ("root/a/b", EntryKind::Dir, 2),
        ("root/a/b/.DS_Store", EntryKind::File, 3),
    ]);
    let mut c = config(true);
    c.max_depth = 2;
    let (s, _) = run(c, &t, &[]);
    assert_eq!(s.found, 1);
    c.max_depth = 1;
    assert_eq!(run(c, &t, &[]).0.found, 0);
    c.max_depth = 3;
    assert_eq!(run(c, &t, &[]).0.found, 2);
    c.max_depth = 0;
    assert_eq!(run(c, &t, &[]).0.found, 2);
    c.max_depth = 3;
    c.no_recursive = true;
    assert_eq!(run(c, &t, &[]).0.found, 0);
    let visited = walk(&c, &t);
    assert_eq!(visited.len(), 2);
    assert!(visited.iter().all(|e| e.kind == EntryKind::Dir));
}

#[test]
fn depth_limit_values() {
    let mut c = config(false);
    assert_eq!(c.depth_limit(), None);
    c.max_depth = 4;
    assert_eq!(c.depth_limit(), Some(4));
    c.no_recursive = true;
    assert_eq!(c.depth_limit(), Some(1));
}

#[test]
fn hidden_directory_pruning() {
    let t = tree(&[
        ("root", EntryKind::Dir, 0),
        ("root/.hidden", EntryKind::Dir, 1),
        ("root/.hidden/.DS_Store", EntryKind::File, 2),
    ]);
    let mut c = config(true);
    assert_eq!(run(c, &t, &[]).0.found, 1);
    c.skip_hidden = true;
    assert_eq!(run(c, &t, &[]).0.found, 0);
}

#[test]
fn hidden_rule_spares_root_and_files() {
    let mut c = config(true);
    c.skip_hidden = true;
    assert!(c.keeps(&entry("/x/.root", EntryKind::Dir, 0)));
    assert!(c.keeps(&entry("/x/.root/.DS_Store", EntryKind::File, 1)));
    assert!(!c.keeps(&entry("/x/.root/.git", EntryKind::Dir, 1)));
    assert!(c.keeps(&entry("/x/.root/src", EntryKind::Dir, 1)));
    let no_name = Entry { path: None, name: None, kind: EntryKind::Dir, depth: 2 };
    assert!(c.keeps(&no_name));
    c.skip_hidden = false;
    assert!(c.keeps(&entry("/x/.root/.git", EntryKind::Dir, 1)));
}

#[test]
fn counts_only_regular_target_files() {
    let c = config(false);
    assert!(c.counts(&entry("r/.DS_Store", EntryKind::File, 1)));
    assert!(!c.counts(&entry("r/.DS_Store", EntryKind::Dir, 1)));
    assert!(!c.counts(&entry("r/.DS_Store", EntryKind::Other, 1)));
    assert!(!c.counts(&entry("r/.DS_Store.bak", EntryKind::File, 1)));
    let not_text = Entry { path: None, name: None, kind: EntryKind::File, depth: 1 };
    assert!(!c.counts(&not_text));
}

#[test]
fn removal_checks_in_order() {
    assert_eq!(check_removal("a/notes.txt", PathState::RegularFile), Err(RemovalError::SafetyCheckFailed));
    assert_eq!(check_removal("a/notes.txt", PathState::Missing), Err(RemovalError::SafetyCheckFailed));
    assert_eq!(check_removal("a/.DS_Store", PathState::Missing), Err(RemovalError::NotFound));
    assert_eq!(check_removal("a/.DS_Store", PathState::NotAFile), Err(RemovalError::NotAFile));
    assert_eq!(check_removal("a/.DS_Store", PathState::RegularFile), Ok(()));
    assert_eq!(trash_outcome(Ok(())), Ok(()));
    assert_eq!(
        trash_outcome(Err("no trash".to_string())),
        Err(RemovalError::TrashOperationFailed("no trash".to_string()))
    );
}

#[test]
fn removal_never_hands_out_a_non_target() {
    let mut m = Cleaner::new(config(false));
    assert_eq!(m.on_entry(&entry("r/.DS_Store", EntryKind::File, 1)), Action::Probe);
    assert_eq!(m.phase, Phase::Probing);
    let a = m.on_probe("r/.DS_Store.txt", PathState::RegularFile);
    assert_eq!(a, Action::Failed(RemovalError::SafetyCheckFailed));
    assert_eq!(m.stats(), CleanStats { found: 1, moved: 0, failed: 1 });
    assert_eq!(m.phase, Phase::Ready);
}

#[test]
fn probe_failures_are_counted() {
    let mut m = Cleaner::new(config(false));
    m.on_entry(&entry("r/.DS_Store", EntryKind::File, 1));
    assert_eq!(m.on_probe("r/.DS_Store", PathState::Missing), Action::Failed(RemovalError::NotFound));
    m.on_entry(&entry("r/s/.DS_Store", EntryKind::File, 2));
    assert_eq!(m.on_probe("r/s/.DS_Store", PathState::NotAFile), Action::Failed(RemovalError::NotAFile));
    assert_eq!(m.stats(), CleanStats { found: 2, moved: 0, failed: 2 });
}

#[test]
fn events_out_of_turn_change_nothing() {
    let mut m = Cleaner::new(config(false));
    assert_eq!(m.on_probe("r/.DS_Store", PathState::RegularFile), Action::Next);
    assert_eq!(m.on_delete(Ok(())), Action::Next);
    assert_eq!(m.on_entry(&entry("r/.DS_Store", EntryKind::File, 1)), Action::Probe);
    assert_eq!(m.on_entry(&entry("r/x/.DS_Store", EntryKind::File, 2)), Action::Next);
    assert_eq!(m.on_delete(Ok(())), Action::Next);
    assert_eq!(m.on_probe("r/.DS_Store", PathState::RegularFile), Action::Delete);
    assert_eq!(m.on_delete(Ok(())), Action::Moved);
    assert_eq!(m.stats(), CleanStats { found: 1, moved: 1, failed: 0 });
}

#[test]
fn counters_start_at_zero_and_step_by_one() {
    let mut s = CleanStats::new();
    assert_eq!((s.get_found(), s.get_moved(), s.get_failed()), (0, 0, 0));
    s.increment_found();
    s.increment_found();
    s.increment_moved();
    s.increment_failed();
    assert_eq!((s.get_found(), s.get_moved(), s.get_failed()), (2, 1, 1));
    s.found = usize::MAX;
    s.increment_found();
    assert_eq!(s.get_found(), usize::MAX);
}
