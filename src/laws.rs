use vstd::prelude::*;

use crate::cleaner::{delete_step, entry_step, fresh, probe_step, Action, Cleaner, Phase};
use crate::config::{counts_entry, Entry, ScanConfig};
use crate::removal::{removal_result, PathState};
use crate::stats::CleanStats;
use crate::target::{component_start, final_component, path_is_target, trim_end, TARGET_NAME};

verus! {

/// One entry of a walk together with what the disk answers for it: what a
/// look at its path finds, and how a move of it to the trash would end.
#[derive(Debug)]
pub struct Visit {
    pub entry: Entry,
    pub state: PathState,
    pub trashed: Result<(), String>,
}

/// The path text of an entry, empty where it is not text.
pub open spec fn entry_path(e: Entry) -> Seq<char> {
    match e.path {
        Some(p) => p@,
        None => Seq::empty(),
    }
}

/// A run handles one visit: the entry arrives, and each action that asks the
/// disk gets its answer from the visit.
pub open spec fn feed(m: Cleaner, v: Visit) -> Cleaner {
    let (m1, a1) = entry_step(m, v.entry);
    if a1 == Action::Probe {
        let (m2, a2) = probe_step(m1, entry_path(v.entry), v.state);
        if a2 == Action::Delete {
            delete_step(m2, v.trashed).0
        } else {
            m2
        }
    } else {
        m1
    }
}

/// A run handles a whole walk, visit by visit.
pub open spec fn run(m: Cleaner, vs: Seq<Visit>) -> Cleaner
    decreases vs.len(),
{
    if vs.len() == 0 {
        m
    } else {
        feed(run(m, vs.drop_last()), vs.last())
    }
}

/// How many visits meet `f`.
pub open spec fn count_where(vs: Seq<Visit>, f: spec_fn(Visit) -> bool) -> nat
    decreases vs.len(),
{
    if vs.len() == 0 {
        0
    } else {
        count_where(vs.drop_last(), f) + if f(vs.last()) {
            1nat
        } else {
            0nat
        }
    }
}

/// The removal of a visit's file would succeed.
pub open spec fn removal_succeeds(v: Visit) -> bool {
    removal_result(entry_path(v.entry), v.state, v.trashed) is Ok
}

/// Visits whose entry a run counts as found.
pub open spec fn found_in(c: ScanConfig, vs: Seq<Visit>) -> nat {
    count_where(vs, |v: Visit| counts_entry(c, v.entry))
}

/// Found visits whose file a run moves to the trash.
pub open spec fn moved_in(c: ScanConfig, vs: Seq<Visit>) -> nat {
    count_where(vs, |v: Visit| counts_entry(c, v.entry) && !c.dry_run && removal_succeeds(v))
}

/// Found visits whose removal a run counts as failed.
pub open spec fn failed_in(c: ScanConfig, vs: Seq<Visit>) -> nat {
    count_where(vs, |v: Visit| counts_entry(c, v.entry) && !c.dry_run && !removal_succeeds(v))
}

proof fn lemma_count_bound(vs: Seq<Visit>, f: spec_fn(Visit) -> bool)
    ensures
        count_where(vs, f) <= vs.len(),
    decreases vs.len(),
{
    if vs.len() > 0 {
        lemma_count_bound(vs.drop_last(), f);
    }
}

proof fn lemma_count_same(a: Seq<Visit>, f: spec_fn(Visit) -> bool, b: Seq<Visit>, g: spec_fn(Visit) -> bool)
    requires
        a.len() == b.len(),
        forall|i: int| 0 <= i < a.len() ==> f(a[i]) == g(b[i]),
    ensures
        count_where(a, f) == count_where(b, g),
    decreases a.len(),
{
    if a.len() > 0 {
        lemma_count_same(a.drop_last(), f, b.drop_last(), g);
    }
}

proof fn lemma_count_none(vs: Seq<Visit>, f: spec_fn(Visit) -> bool)
    requires
        forall|i: int| 0 <= i < vs.len() ==> !f(vs[i]),
    ensures
        count_where(vs, f) == 0,
    decreases vs.len(),
{
    if vs.len() > 0 {
        lemma_count_none(vs.drop_last(), f);
    }
}

proof fn lemma_count_concat(a: Seq<Visit>, b: Seq<Visit>, f: spec_fn(Visit) -> bool)
    ensures
        count_where(a + b, f) == count_where(a, f) + count_where(b, f),
    decreases b.len(),
{
    if b.len() == 0 {
        assert(a + b =~= a);
    } else {
        assert((a + b).drop_last() =~= a + b.drop_last());
        lemma_count_concat(a, b.drop_last(), f);
    }
}

/// The counters at the end of a run over a walk are exact: `found` is the
/// number of counted entries, and outside a dry run `moved` and `failed` are
/// the numbers of those whose removal succeeds and fails; the run ends ready
/// for another entry. No counter loses a step, so a failure changes only
/// its own file's outcome.
pub proof fn lemma_run_counts(c: ScanConfig, vs: Seq<Visit>)
    requires
        vs.len() < usize::MAX,
    ensures
        run(fresh(c), vs) == (Cleaner {
            config: c,
            stats: CleanStats {
                found: found_in(c, vs) as usize,
                moved: moved_in(c, vs) as usize,
                failed: failed_in(c, vs) as usize,
            },
            phase: Phase::Ready,
        }),
    decreases vs.len(),
{
    if vs.len() > 0 {
        let p = vs.drop_last();
        lemma_run_counts(c, p);
        lemma_count_bound(p, |v: Visit| counts_entry(c, v.entry));
        lemma_count_bound(p, |v: Visit| counts_entry(c, v.entry) && !c.dry_run && removal_succeeds(v));
        lemma_count_bound(p, |v: Visit| counts_entry(c, v.entry) && !c.dry_run && !removal_succeeds(v));
    }
}

/// A dry run moves nothing and fails nothing, and reports as found the
/// number of target entries of the walk, whatever the disk would answer: two
/// dry runs over the same entries report the same counts.
pub proof fn lemma_dry_run_repeatable(c: ScanConfig, a: Seq<Visit>, b: Seq<Visit>)
    requires
        c.dry_run,
        a.len() < usize::MAX,
        a.len() == b.len(),
        forall|i: int| 0 <= i < a.len() ==> a[i].entry == b[i].entry,
    ensures
        run(fresh(c), a).stats == run(fresh(c), b).stats,
        run(fresh(c), a).stats == (CleanStats { found: found_in(c, a) as usize, moved: 0, failed: 0 }),
{
    lemma_run_counts(c, a);
    lemma_run_counts(c, b);
    let f = |v: Visit| counts_entry(c, v.entry);
    lemma_count_same(a, f, b, f);
    lemma_count_none(a, |v: Visit| counts_entry(c, v.entry) && !c.dry_run && removal_succeeds(v));
    lemma_count_none(a, |v: Visit| counts_entry(c, v.entry) && !c.dry_run && !removal_succeeds(v));
    lemma_count_none(b, |v: Visit| counts_entry(c, v.entry) && !c.dry_run && removal_succeeds(v));
    lemma_count_none(b, |v: Visit| counts_entry(c, v.entry) && !c.dry_run && !removal_succeeds(v));
}

/// A run that removes files, over a walk where every found file is a regular
/// file that the trash accepts, moves every file it finds: found and moved
/// both equal the number of target entries, and nothing fails.
pub proof fn lemma_clean_run_moves_all(c: ScanConfig, vs: Seq<Visit>)
    requires
        !c.dry_run,
        vs.len() < usize::MAX,
        forall|i: int|
            0 <= i < vs.len() && counts_entry(c, #[trigger] vs[i].entry) ==> vs[i].state
                == PathState::RegularFile && vs[i].trashed is Ok,
    ensures
        run(fresh(c), vs).stats == (CleanStats {
            found: found_in(c, vs) as usize,
            moved: found_in(c, vs) as usize,
            failed: 0,
        }),
{
    lemma_run_counts(c, vs);
    lemma_count_same(
        vs,
        |v: Visit| counts_entry(c, v.entry),
        vs,
        |v: Visit| counts_entry(c, v.entry) && !c.dry_run && removal_succeeds(v),
    );
    lemma_count_none(vs, |v: Visit| counts_entry(c, v.entry) && !c.dry_run && !removal_succeeds(v));
}

/// A file whose removal fails costs only itself: against the same walk
/// without it, the run finds one file more and fails one more, and moves
/// exactly as many.
pub proof fn lemma_failure_isolated(c: ScanConfig, a: Seq<Visit>, x: Visit, b: Seq<Visit>)
    requires
        !c.dry_run,
        a.len() + 1 + b.len() < usize::MAX,
        counts_entry(c, x.entry),
        !removal_succeeds(x),
    ensures
        run(fresh(c), a.push(x) + b).stats.found == run(fresh(c), a + b).stats.found + 1,
        run(fresh(c), a.push(x) + b).stats.failed == run(fresh(c), a + b).stats.failed + 1,
        run(fresh(c), a.push(x) + b).stats.moved == run(fresh(c), a + b).stats.moved,
{
    lemma_run_counts(c, a.push(x) + b);
    lemma_run_counts(c, a + b);
    assert(a.push(x).drop_last() =~= a);
    let f1 = |v: Visit| counts_entry(c, v.entry);
    let f2 = |v: Visit| counts_entry(c, v.entry) && !c.dry_run && removal_succeeds(v);
    let f3 = |v: Visit| counts_entry(c, v.entry) && !c.dry_run && !removal_succeeds(v);
    lemma_count_concat(a.push(x), b, f1);
    lemma_count_concat(a, b, f1);
    lemma_count_concat(a.push(x), b, f2);
    lemma_count_concat(a, b, f2);
    lemma_count_concat(a.push(x), b, f3);
    lemma_count_concat(a, b, f3);
    assert(count_where(a.push(x), f1) == count_where(a, f1) + 1);
    assert(count_where(a.push(x), f2) == count_where(a, f2));
    assert(count_where(a.push(x), f3) == count_where(a, f3) + 1);
    lemma_count_bound(a.push(x) + b, f1);
    lemma_count_bound(a.push(x) + b, f3);
}

/// No removal succeeds, and no run hands out a file for deletion, unless the
/// path's final component is exactly the reserved name.
pub proof fn lemma_removal_needs_target(m: Cleaner, path: Seq<char>, state: PathState, trashed: Result<(), String>)
    ensures
        removal_result(path, state, trashed) is Ok ==> path_is_target(path),
        probe_step(m, path, state).1 == Action::Delete ==> path_is_target(path),
{
}

proof fn lemma_start_after_slash(p: Seq<char>, name: Seq<char>)
    requires
        p.len() == 0 || p.last() == '/',
        forall|i: int| 0 <= i < name.len() ==> name[i] != '/',
    ensures
        component_start(p + name) == p.len(),
    decreases name.len(),
{
    if name.len() == 0 {
        assert(p + name =~= p);
    } else {
        assert((p + name).drop_last() =~= p + name.drop_last());
        lemma_start_after_slash(p, name.drop_last());
    }
}

/// For every file name (neither empty nor `"."`, and without a `'/'`),
/// alone or after a directory path, the path names a target file exactly
/// when the name is the reserved name.
pub proof fn lemma_target_iff_name(dir: Seq<char>, name: Seq<char>)
    requires
        name.len() > 0,
        name != seq!['.'],
        forall|i: int| 0 <= i < name.len() ==> name[i] != '/',
    ensures
        path_is_target(name) <==> name == TARGET_NAME@,
        path_is_target(dir.push('/') + name) <==> name == TARGET_NAME@,
{
    let p = dir.push('/') + name;
    if name.len() == 1 {
        assert(name =~= seq![name[0]]);
    }
    assert(p.last() == name.last());
    assert(p[p.len() - 2] == name[name.len() - 2] || name.len() == 1);
    assert(trim_end(name) == name);
    assert(trim_end(p) == p);
    lemma_start_after_slash(Seq::empty(), name);
    assert(Seq::<char>::empty() + name =~= name);
    assert(final_component(name) =~= name);
    lemma_start_after_slash(dir.push('/'), name);
    assert(final_component(p) =~= name);
}

} // verus!
