use vstd::prelude::*;

verus! {

/// The reserved file name that marks a junk metadata file.
pub const TARGET_NAME: &'static str = ".DS_Store";

/// Index at which the final component of `p` begins: just past its last
/// `'/'`, or 0 when it holds none.
pub open spec fn component_start(p: Seq<char>) -> int
    decreases p.len(),
{
    if p.len() == 0 {
        0
    } else if p.last() == '/' {
        p.len() as int
    } else {
        component_start(p.drop_last())
    }
}

/// The path without what follows its final component: trailing `'/'`
/// separators and trailing `"."` components, which a path's components
/// leave out.
pub open spec fn trim_end(p: Seq<char>) -> Seq<char>
    decreases p.len(),
{
    if p.len() > 0 && p.last() == '/' {
        trim_end(p.drop_last())
    } else if p.len() >= 2 && p.last() == '.' && p[p.len() - 2] == '/' {
        trim_end(p.drop_last())
    } else {
        p
    }
}

/// The final component of a path: once the path is trimmed of trailing
/// separators and `"."` components, the text after its last `'/'`.
pub open spec fn final_component(p: Seq<char>) -> Seq<char> {
    let q = trim_end(p);
    q.subrange(component_start(q), q.len() as int)
}

/// A path names a target file when its final component is exactly the
/// reserved name.
pub open spec fn path_is_target(p: Seq<char>) -> bool {
    final_component(p) == TARGET_NAME@
}

/// Strictly checks whether `path` names a target file: its final component,
/// trailing separators and `"."` components aside, must equal the reserved
/// name, character for character.
pub fn is_ds_store_file(path: &str) -> (r: bool)
    ensures
        r == path_is_target(path@),
{
    let len = path.unicode_len();
    let mut n: usize = len;
    assert(path@.subrange(0, len as int) =~= path@);
    while n > 0 && (path.get_char(n - 1) == '/' || (n >= 2 && path.get_char(n - 1) == '.'
        && path.get_char(n - 2) == '/'))
        invariant
            len == path@.len(),
            n <= len,
            trim_end(path@) == trim_end(path@.subrange(0, n as int)),
        decreases n,
    {
        assert(path@.subrange(0, n as int).drop_last() =~= path@.subrange(0, n - 1));
        n = n - 1;
    }
    let ghost q = path@.subrange(0, n as int);
    assert(trim_end(path@) == q);
    let mut start: usize = 0;
    let mut i: usize = 0;
    while i < n
        invariant
            len == path@.len(),
            n <= len,
            q == path@.subrange(0, n as int),
            i <= n,
            start <= i,
            start == component_start(q.subrange(0, i as int)),
        decreases n - i,
    {
        assert(q.subrange(0, i + 1).drop_last() =~= q.subrange(0, i as int));
        if path.get_char(i) == '/' {
            start = i + 1;
        }
        i = i + 1;
    }
    assert(q.subrange(0, n as int) =~= q);
    let name = TARGET_NAME;
    proof {
        reveal_strlit(".DS_Store");
    }
    let m = name.unicode_len();
    if n - start != m {
        assert(final_component(path@).len() != TARGET_NAME@.len());
        return false;
    }
    let mut j: usize = 0;
    while j < m
        invariant
            m == TARGET_NAME@.len(),
            name@ == TARGET_NAME@,
            q == path@.subrange(0, n as int),
            trim_end(path@) == q,
            n <= path@.len(),
            start + m == n,
            start == component_start(q),
            j <= m,
            forall|k: int| 0 <= k < j ==> path@[start + k] == TARGET_NAME@[k],
        decreases m - j,
    {
        if path.get_char(start + j) != name.get_char(j) {
            assert(final_component(path@)[j as int] != TARGET_NAME@[j as int]);
            return false;
        }
        j = j + 1;
    }
    assert(final_component(path@) =~= TARGET_NAME@);
    true
}

} // verus!
