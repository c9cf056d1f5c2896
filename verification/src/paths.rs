//! Byte-level path handling: joining a list of paths into a single
//! path-list value, and taking the parent directory of a path.
//!
//! Paths are held as byte strings, the form in which the operating
//! system hands them over and in which the environment stores them.

use vstd::prelude::*;

verus! {

/// Separator between the entries of a joined path list: the colon.
pub const PATH_LIST_SEPARATOR: u8 = 58;

/// Separator between the components of a single path: the slash.
pub const DIR_SEPARATOR: u8 = 47;

/// A path may stand in a joined path list only if it does not itself
/// contain the path-list separator.
pub open spec fn path_is_legal(p: Seq<u8>) -> bool {
    forall|i: int| 0 <= i < p.len() ==> p[i] != PATH_LIST_SEPARATOR
}

/// Every path of the list is legal for joining.
pub open spec fn all_paths_legal(ps: Seq<Seq<u8>>) -> bool {
    forall|i: int| 0 <= i < ps.len() ==> path_is_legal(ps[i])
}

/// The paths of the list, joined in order with the path-list separator
/// between consecutive entries.
pub open spec fn join_spec(ps: Seq<Seq<u8>>) -> Seq<u8>
    decreases ps.len(),
{
    if ps.len() == 0 {
        Seq::empty()
    } else if ps.len() == 1 {
        ps[0]
    } else {
        join_spec(ps.drop_last()).push(PATH_LIST_SEPARATOR) + ps.last()
    }
}

/// The contents of each vector of the list, as sequences.
pub open spec fn path_views(ps: Seq<Vec<u8>>) -> Seq<Seq<u8>> {
    Seq::new(ps.len(), |i: int| ps[i]@)
}

/// Error of a join whose input held a path containing the path-list
/// separator.
#[derive(Clone, Copy, Debug, PartialEq, Eq)]
pub struct JoinPathsError;

/// Whether the path contains the path-list separator anywhere.
pub fn path_contains_separator(p: &Vec<u8>) -> (r: bool)
    ensures
        r == !path_is_legal(p@),
{
    let mut i: usize = 0;
    while i < p.len()
        invariant
            i <= p@.len(),
            forall|j: int| 0 <= j < i ==> p@[j] != PATH_LIST_SEPARATOR,
        decreases p@.len() - i,
    {
        if p[i] == PATH_LIST_SEPARATOR {
            return true;
        }
        i = i + 1;
    }
    false
}

/// Extending a joined prefix by one more path appends a separator (when
/// the prefix is non-empty) and then the path itself.
proof fn lemma_join_spec_step(ps: Seq<Seq<u8>>, k: int)
    requires
        0 <= k < ps.len(),
    ensures
        k == 0 ==> join_spec(ps.take(1)) == ps[0],
        k > 0 ==> join_spec(ps.take(k + 1)) == join_spec(ps.take(k)).push(
            PATH_LIST_SEPARATOR,
        ) + ps[k],
{
    if k == 0 {
        assert(join_spec(ps.take(1)) == ps.take(1)[0]);
    } else {
        assert(ps.take(k + 1).drop_last() =~= ps.take(k));
        assert(ps.take(k + 1).last() == ps[k]);
    }
}

/// Joins the paths of the list, in order, with the path-list separator
/// between consecutive entries.  Fails, leaving nothing behind, exactly
/// when some path of the list contains the separator itself.
pub fn join_paths(paths: &Vec<Vec<u8>>) -> (r: Result<Vec<u8>, JoinPathsError>)
    ensures
        r is Ok <==> all_paths_legal(path_views(paths@)),
        r matches Ok(joined) ==> joined@ == join_spec(path_views(paths@)),
{
    let mut joined: Vec<u8> = Vec::new();
    let mut k: usize = 0;
    while k < paths.len()
        invariant
            k <= paths@.len(),
            forall|i: int| 0 <= i < k ==> path_is_legal(path_views(paths@)[i]),
            joined@ == join_spec(path_views(paths@).take(k as int)),
        decreases paths@.len() - k,
    {
        if path_contains_separator(&paths[k]) {
            assert(!path_is_legal(path_views(paths@)[k as int]));
            return Err(JoinPathsError);
        }
        if k > 0 {
            joined.push(PATH_LIST_SEPARATOR);
        }
        let path = &paths[k];
        let mut j: usize = 0;
        while j < path.len()
            invariant
                j <= path@.len(),
                k < paths@.len(),
                path@ == paths@[k as int]@,
                k == 0 ==> joined@ == join_spec(path_views(paths@).take(k as int)) + path@.take(
                    j as int,
                ),
                k > 0 ==> joined@ == join_spec(path_views(paths@).take(k as int)).push(
                    PATH_LIST_SEPARATOR,
                ) + path@.take(j as int),
            decreases path@.len() - j,
        {
            joined.push(path[j]);
            assert(path@.take(j + 1) =~= path@.take(j as int).push(path@[j as int]));
            j = j + 1;
        }
        proof {
            lemma_join_spec_step(path_views(paths@), k as int);
            if k == 0 {
                assert(joined@ =~= join_spec(path_views(paths@).take(k + 1)));
            }
        }
        k = k + 1;
    }
    assert(path_views(paths@).take(paths@.len() as int) =~= path_views(paths@));
    Ok(joined)
}

/// Index of the last directory separator in the path, or -1 when the
/// path holds none.
pub open spec fn last_dir_separator(p: Seq<u8>) -> int
    decreases p.len(),
{
    if p.len() == 0 {
        -1
    } else if p[p.len() - 1] == DIR_SEPARATOR {
        p.len() - 1
    } else {
        last_dir_separator(p.drop_last())
    }
}

/// Parent directory of a path: the part before the final
/// slash-separated component.  An empty path and the bare root have
/// none; a path whose last slash is the leading one keeps the root as
/// its parent; a path without any slash has the empty path as parent.
pub open spec fn parent_spec(p: Seq<u8>) -> Option<Seq<u8>> {
    let i = last_dir_separator(p);
    if p.len() == 0 {
        None
    } else if i == -1 {
        Some(Seq::empty())
    } else if i == 0 {
        if p.len() == 1 {
            None
        } else {
            Some(p.take(1))
        }
    } else {
        Some(p.take(i))
    }
}

/// A separator at `i` followed only by non-separators is the last one.
proof fn lemma_last_sep_found(p: Seq<u8>, i: int)
    requires
        0 <= i < p.len(),
        p[i] == DIR_SEPARATOR,
        forall|j: int| i < j < p.len() ==> p[j] != DIR_SEPARATOR,
    ensures
        last_dir_separator(p) == i,
    decreases p.len(),
{
    if i < p.len() - 1 {
        lemma_last_sep_found(p.drop_last(), i);
    }
}

/// A path without any separator has no last-separator index.
proof fn lemma_last_sep_absent(p: Seq<u8>)
    requires
        forall|j: int| 0 <= j < p.len() ==> p[j] != DIR_SEPARATOR,
    ensures
        last_dir_separator(p) == -1,
    decreases p.len(),
{
    if p.len() > 0 {
        lemma_last_sep_absent(p.drop_last());
    }
}

/// Copy of the first `n` bytes of the path.
fn prefix_of(p: &Vec<u8>, n: usize) -> (r: Vec<u8>)
    requires
        n <= p@.len(),
    ensures
        r@ == p@.take(n as int),
{
    let mut r: Vec<u8> = Vec::new();
    let mut j: usize = 0;
    while j < n
        invariant
            j <= n <= p@.len(),
            r@ == p@.take(j as int),
        decreases n - j,
    {
        r.push(p[j]);
        assert(p@.take(j + 1) =~= p@.take(j as int).push(p@[j as int]));
        j = j + 1;
    }
    r
}

/// Parent directory of the path, as `parent_spec` describes it, or
/// `None` where the path has none.
pub fn parent_dir(p: &Vec<u8>) -> (r: Option<Vec<u8>>)
    ensures
        r matches Some(q) ==> parent_spec(p@) == Some(q@),
        r is None ==> parent_spec(p@) is None,
{
    let mut i: usize = p.len();
    while i > 0
        invariant
            i <= p@.len(),
            forall|j: int| i <= j < p@.len() ==> p@[j] != DIR_SEPARATOR,
        decreases i,
    {
        if p[i - 1] == DIR_SEPARATOR {
            proof {
                lemma_last_sep_found(p@, i - 1);
            }
            if i - 1 == 0 {
                if p.len() == 1 {
                    return None;
                }
                return Some(prefix_of(p, 1));
            }
            return Some(prefix_of(p, i - 1));
        }
        i = i - 1;
    }
    proof {
        lemma_last_sep_absent(p@);
    }
    if p.len() == 0 {
        None
    } else {
        let empty: Vec<u8> = Vec::new();
        assert(empty@ =~= Seq::<u8>::empty());
        Some(empty)
    }
}

} // verus!
