//! Change filtering.
//!
//! The change notifier reports raw filesystem events, each carrying one or
//! more affected paths.  An event is dropped when any of its paths lies under
//! any ignored subtree; otherwise it is forwarded to the engine unchanged.
//! Paths are handled as raw bytes, since operating-system paths need not be
//! valid text; the shell converts them at the boundary.

use vstd::prelude::*;

verus! {

/// The path separator, the byte value of `/`.
pub const SEP: u8 = 47;

/// Component-aware ancestor-or-self relation on byte paths: `anc` names the
/// same file as `p` or a directory above it.  Both sides are expected in the
/// canonical form the shell produces: absolute, `/`-separated, with no
/// trailing separator.  An empty `anc` names no directory and matches
/// nothing.
pub open spec fn is_ancestor_of(anc: Seq<u8>, p: Seq<u8>) -> bool {
    &&& anc.len() > 0
    &&& p.len() >= anc.len()
    &&& p.take(anc.len() as int) == anc
    &&& (p.len() == anc.len() || p[anc.len() as int] == SEP || anc[anc.len() - 1] == SEP)
}

/// Whether some prefix of the set is an ancestor of path `p`.
pub open spec fn path_ignored(prefixes: Seq<Seq<u8>>, p: Seq<u8>) -> bool {
    exists|j: int| 0 <= j < prefixes.len() && is_ancestor_of(prefixes[j], p)
}

/// Whether an event touching exactly the paths in `paths` is dropped.
pub open spec fn event_ignored(prefixes: Seq<Seq<u8>>, paths: Seq<Seq<u8>>) -> bool {
    exists|i: int| 0 <= i < paths.len() && path_ignored(prefixes, paths[i])
}

/// Exec form of [`is_ancestor_of`].
pub fn bytes_is_ancestor(anc: &Vec<u8>, p: &Vec<u8>) -> (r: bool)
    ensures
        r == is_ancestor_of(anc@, p@),
{
    if anc.len() == 0 || p.len() < anc.len() {
        return false;
    }
    let mut i: usize = 0;
    while i < anc.len()
        invariant
            0 <= i <= anc@.len() <= p@.len(),
            forall|k: int| 0 <= k < i ==> p@[k] == anc@[k],
        decreases anc@.len() - i,
    {
        if p[i] != anc[i] {
            return false;
        }
        i = i + 1;
    }
    assert(p@.take(anc@.len() as int) =~= anc@);
    if p.len() == anc.len() {
        true
    } else if p[anc.len()] == SEP {
        true
    } else {
        anc[anc.len() - 1] == SEP
    }
}

/// A path under `base` named by the relative path `sub`, the way the
/// platform joins them: a `sub` that is itself absolute replaces `base`, and
/// exactly one separator stands between the two parts otherwise.
pub open spec fn joined(base: Seq<u8>, sub: Seq<u8>) -> Seq<u8> {
    if sub.len() > 0 && sub[0] == SEP {
        sub
    } else if base.len() > 0 && base[base.len() - 1] == SEP {
        base + sub
    } else {
        base + seq![SEP] + sub
    }
}

/// Exec form of [`joined`].
pub fn join_path(base: &Vec<u8>, sub: &Vec<u8>) -> (r: Vec<u8>)
    ensures
        r@ == joined(base@, sub@),
{
    if sub.len() > 0 && sub[0] == SEP {
        let mut r: Vec<u8> = Vec::new();
        let mut i: usize = 0;
        while i < sub.len()
            invariant
                0 <= i <= sub@.len(),
                r@ == sub@.take(i as int),
            decreases sub@.len() - i,
        {
            r.push(sub[i]);
            proof {
                assert(r@ =~= sub@.take(i as int + 1));
            }
            i = i + 1;
        }
        proof {
            assert(r@ =~= joined(base@, sub@));
        }
        r
    } else {
        let mut r: Vec<u8> = Vec::new();
        let mut i: usize = 0;
        while i < base.len()
            invariant
                0 <= i <= base@.len(),
                r@ == base@.take(i as int),
            decreases base@.len() - i,
        {
            r.push(base[i]);
            proof {
                assert(r@ =~= base@.take(i as int + 1));
            }
            i = i + 1;
        }
        proof {
            assert(r@ =~= base@);
        }
        if base.len() == 0 || base[base.len() - 1] != SEP {
            r.push(SEP);
        }
        let ghost stem = r@;
        let mut j: usize = 0;
        while j < sub.len()
            invariant
                0 <= j <= sub@.len(),
                r@ == stem + sub@.take(j as int),
            decreases sub@.len() - j,
        {
            r.push(sub[j]);
            proof {
                assert(stem + sub@.take(j as int) + seq![sub@[j as int]] =~= stem + sub@.take(
                    j as int + 1,
                ));
            }
            j = j + 1;
        }
        proof {
            assert(r@ =~= joined(base@, sub@));
        }
        r
    }
}

/// A list of byte paths, as the sequence of byte sequences it holds.
pub open spec fn paths_view(paths: Vec<Vec<u8>>) -> Seq<Seq<u8>> {
    Seq::new(paths@.len(), |i: int| paths@[i]@)
}

/// The set of path prefixes whose subtrees the engine ignores.
pub struct IgnoreSet {
    /// The ignored prefixes, in canonical byte form.
    pub prefixes: Vec<Vec<u8>>,
}

impl IgnoreSet {
    /// The prefixes as a sequence of byte sequences.
    pub open spec fn view(self) -> Seq<Seq<u8>> {
        paths_view(self.prefixes)
    }

    /// Wraps a list of canonical prefixes.
    pub fn new(prefixes: Vec<Vec<u8>>) -> (s: IgnoreSet)
        ensures
            s@ == paths_view(prefixes),
    {
        IgnoreSet { prefixes }
    }

    /// Whether `p` lies under (or is) one of the ignored prefixes.
    pub fn path_is_ignored(&self, p: &Vec<u8>) -> (r: bool)
        ensures
            r == path_ignored(self@, p@),
    {
        let mut j: usize = 0;
        while j < self.prefixes.len()
            invariant
                0 <= j <= self.prefixes@.len(),
                forall|k: int| 0 <= k < j ==> !is_ancestor_of(self@[k], p@),
            decreases self.prefixes@.len() - j,
        {
            if bytes_is_ancestor(&self.prefixes[j], p) {
                assert(is_ancestor_of(self@[j as int], p@));
                return true;
            }
            j = j + 1;
        }
        false
    }

    /// Whether an event with the given paths is dropped by the filter.
    pub fn event_is_ignored(&self, paths: &Vec<Vec<u8>>) -> (r: bool)
        ensures
            r == event_ignored(self@, paths_view(*paths)),
    {
        let mut i: usize = 0;
        while i < paths.len()
            invariant
                0 <= i <= paths@.len(),
                forall|k: int| 0 <= k < i ==> !path_ignored(self@, paths_view(*paths)[k]),
            decreases paths@.len() - i,
        {
            if self.path_is_ignored(&paths[i]) {
                assert(path_ignored(self@, paths_view(*paths)[i as int]));
                return true;
            }
            i = i + 1;
        }
        false
    }
}

/// One direction of the order-independence of the filter.
proof fn lemma_event_ignored_transfer(
    prefixes_a: Seq<Seq<u8>>,
    prefixes_b: Seq<Seq<u8>>,
    paths_a: Seq<Seq<u8>>,
    paths_b: Seq<Seq<u8>>,
)
    requires
        prefixes_a.to_multiset() == prefixes_b.to_multiset(),
        paths_a.to_multiset() == paths_b.to_multiset(),
        event_ignored(prefixes_a, paths_a),
    ensures
        event_ignored(prefixes_b, paths_b),
{
    broadcast use vstd::seq_lib::group_to_multiset_ensures;

    let i = choose|i: int| 0 <= i < paths_a.len() && path_ignored(prefixes_a, paths_a[i]);
    let j = choose|j: int| 0 <= j < prefixes_a.len() && is_ancestor_of(prefixes_a[j], paths_a[i]);
    assert(paths_a.contains(paths_a[i]));
    assert(paths_a.to_multiset().count(paths_a[i]) > 0);
    assert(paths_b.to_multiset().count(paths_a[i]) > 0);
    assert(paths_b.contains(paths_a[i]));
    assert(prefixes_a.contains(prefixes_a[j]));
    assert(prefixes_a.to_multiset().count(prefixes_a[j]) > 0);
    assert(prefixes_b.to_multiset().count(prefixes_a[j]) > 0);
    assert(prefixes_b.contains(prefixes_a[j]));
    let i2 = choose|i2: int| 0 <= i2 < paths_b.len() && paths_b[i2] == paths_a[i];
    let j2 = choose|j2: int| 0 <= j2 < prefixes_b.len() && prefixes_b[j2] == prefixes_a[j];
    assert(is_ancestor_of(prefixes_b[j2], paths_b[i2]));
    assert(path_ignored(prefixes_b, paths_b[i2]));
}

/// Whether an event is dropped does not depend on the order in which its
/// paths, or the ignored prefixes, are listed: any rearrangement of either
/// list drops exactly the same events.
pub proof fn lemma_filter_order_independent(
    prefixes_a: Seq<Seq<u8>>,
    prefixes_b: Seq<Seq<u8>>,
    paths_a: Seq<Seq<u8>>,
    paths_b: Seq<Seq<u8>>,
)
    requires
        prefixes_a.to_multiset() == prefixes_b.to_multiset(),
        paths_a.to_multiset() == paths_b.to_multiset(),
    ensures
        event_ignored(prefixes_a, paths_a) == event_ignored(prefixes_b, paths_b),
{
    if event_ignored(prefixes_a, paths_a) {
        lemma_event_ignored_transfer(prefixes_a, prefixes_b, paths_a, paths_b);
    }
    if event_ignored(prefixes_b, paths_b) {
        lemma_event_ignored_transfer(prefixes_b, prefixes_a, paths_b, paths_a);
    }
}

} // verus!
