//! Laws of the model's operations that span more than one call.

use vstd::prelude::*;
use crate::element_kind::{ElementKind, lemma_kind_classes};
use crate::model::{
    Element, ElementId, entry_values, is_wrapper_for, needs_wrapper, relinked,
    set_owner_of, targets_of, wrap_step, wrap_targets, wrap_trace};
use crate::ordered_map::{find_key, lemma_find_key};

verus! {

/// Whether every entry is stored under its element's own ID.
pub open spec fn keys_are_ids(e: Seq<(ElementId, Element)>) -> bool {
    forall|i: int| 0 <= i < e.len() ==> #[trigger] e[i].0@ == e[i].1.id@
}

/// Whether no two entries have keys with the same text.
pub open spec fn keys_distinct(e: Seq<(ElementId, Element)>) -> bool {
    forall|i: int, j: int| 0 <= i < j < e.len() ==> #[trigger] e[i].0@ != #[trigger] e[j].0@
}

/// Whether the ID `<child>-m` of the membership made for each child to
/// wrap is the key of no entry.
pub open spec fn wrapper_ids_free(e: Seq<(ElementId, Element)>) -> bool {
    forall|i: int, j: int|
        0 <= i < e.len() && 0 <= j < e.len() && needs_wrapper(e, #[trigger] e[j].1) ==> #[trigger] e[i].0@
            != e[j].1.id@ + "-m"@
}

/// The positions of the elements of `vals` that must be wrapped, in order.
pub open spec fn target_indices(entries: Seq<(ElementId, Element)>, vals: Seq<Element>) -> Seq<int>
    decreases vals.len(),
{
    if vals.len() == 0 {
        Seq::empty()
    } else {
        let r = target_indices(entries, vals.drop_last());
        if needs_wrapper(entries, vals.last()) {
            r.push(vals.len() - 1)
        } else {
            r
        }
    }
}

/// The targets are the elements that must be wrapped, at increasing
/// positions, and every element that must be wrapped is one of them.
proof fn lemma_targets(entries: Seq<(ElementId, Element)>, vals: Seq<Element>)
    ensures
        targets_of(entries, vals).len() == target_indices(entries, vals).len(),
        forall|k: int|
            0 <= k < target_indices(entries, vals).len() ==> {
                let i = #[trigger] target_indices(entries, vals)[k];
                &&& 0 <= i < vals.len()
                &&& needs_wrapper(entries, vals[i])
                &&& targets_of(entries, vals)[k] == (vals[i].id, vals[i].kind, vals[i].owner.unwrap())
            },
        forall|a: int, b: int|
            0 <= a < b < target_indices(entries, vals).len() ==> #[trigger] target_indices(entries, vals)[a]
                < #[trigger] target_indices(entries, vals)[b],
        forall|i: int|
            0 <= i < vals.len() && needs_wrapper(entries, #[trigger] vals[i]) ==> exists|k: int|
                0 <= k < target_indices(entries, vals).len() && #[trigger] target_indices(entries, vals)[k] == i,
    decreases vals.len(),
{
    if vals.len() > 0 {
        let v0 = vals.drop_last();
        lemma_targets(entries, v0);
        let n = vals.len() - 1;
        assert forall|i: int| 0 <= i < n implies vals[i] == v0[i] by {}
        let idx0 = target_indices(entries, v0);
        let idx = target_indices(entries, vals);
        assert forall|i: int| 0 <= i < vals.len() && needs_wrapper(entries, #[trigger] vals[i]) implies exists|k: int|
            0 <= k < idx.len() && #[trigger] idx[k] == i by {
            if i < n {
                assert(vals[i] == v0[i]);
                let k = choose|k: int| 0 <= k < idx0.len() && #[trigger] idx0[k] == i;
                assert(idx[k] == i);
            } else {
                assert(idx[idx.len() - 1] == i);
            }
        }
    }
}

/// The position of `i` in the target positions `idx`, or -1.
pub open spec fn target_position(idx: Seq<int>, i: int) -> int
    decreases idx.len(),
{
    if idx.len() == 0 {
        -1
    } else if idx.last() == i {
        idx.len() - 1
    } else {
        target_position(idx.drop_last(), i)
    }
}

proof fn lemma_target_position(idx: Seq<int>, i: int)
    ensures
        -1 <= target_position(idx, i) < idx.len(),
        target_position(idx, i) >= 0 ==> idx[target_position(idx, i)] == i,
        target_position(idx, i) == -1 ==> forall|k: int| 0 <= k < idx.len() ==> idx[k] != i,
    decreases idx.len(),
{
    if idx.len() > 0 {
        lemma_target_position(idx.drop_last(), i);
        assert forall|k: int| 0 <= k < idx.len() - 1 implies idx.drop_last()[k] == idx[k] by {}
    }
}

/// Appending the same text to two texts gives the same text only for the same texts.
proof fn lemma_suffix_cancel(a: Seq<char>, b: Seq<char>, s: Seq<char>)
    requires
        a + s == b + s,
    ensures
        a == b,
{
    assert((a + s).len() == (b + s).len());
    assert(a =~= (a + s).subrange(0, a.len() as int));
    assert(b =~= (b + s).subrange(0, b.len() as int));
}

/// The entry found under a key that exactly one entry has is that entry.
proof fn lemma_find_unique(s: Seq<(ElementId, Element)>, k: Seq<char>, i: int)
    requires
        0 <= i < s.len(),
        s[i].0@ == k,
        forall|j: int| 0 <= j < i ==> s[j].0@ != k,
    ensures
        find_key(s, k) == i,
{
    lemma_find_key(s, k);
    let f = find_key(s, k);
    if f != i {
        if f >= 0 && f < i {
            assert(s[f].0@ == k);
        } else if f > i {
            assert(s[i].0@ != k);
        } else {
            assert(s[i].0@ != k);
        }
    }
}

/// Relinking changes no entry's key, ID, kind or owner.
proof fn lemma_relinked_keeps(
    before: Seq<(ElementId, Element)>,
    after: Seq<(ElementId, Element)>,
    pid: Seq<char>,
    cid: Seq<char>,
    m: ElementId,
)
    requires
        relinked(before, after, pid, cid, m),
    ensures
        after.len() == before.len(),
        forall|i: int|
            0 <= i < before.len() ==> #[trigger] after[i].0 == before[i].0 && after[i].1.id == before[i].1.id
                && after[i].1.kind == before[i].1.kind && after[i].1.owner == before[i].1.owner,
{
}

/// The state after the first `k` wrapping steps: the starting entries
/// keep their keys, IDs and kinds, the wrapped ones are owned by their
/// memberships, and the memberships follow in order.
pub open spec fn wrapped_state(
    e0: Seq<(ElementId, Element)>,
    idx: Seq<int>,
    ms: Seq<Element>,
    k: int,
    s: Seq<(ElementId, Element)>,
) -> bool {
    let n = e0.len();
    &&& s.len() == n + k
    &&& forall|i: int|
        0 <= i < n ==> {
            &&& #[trigger] s[i].0 == e0[i].0
            &&& s[i].1.id == e0[i].1.id
            &&& s[i].1.kind == e0[i].1.kind
            &&& s[i].1.owner == (if 0 <= target_position(idx, i) < k {
                Some(ms[target_position(idx, i)].id)
            } else {
                e0[i].1.owner
            })
        }
    &&& forall|j: int| 0 <= j < k ==> #[trigger] s[n + j].0 == ms[j].id && s[n + j].1.kind == ms[j].kind
}

/// What the wrapping steps are given: the targets of `e0`, each wrapped by
/// the membership made for it.
pub open spec fn wrap_setup(
    e0: Seq<(ElementId, Element)>,
    ts: Seq<(ElementId, ElementKind, ElementId)>,
    idx: Seq<int>,
    ms: Seq<Element>,
) -> bool {
    let vals = entry_values(e0);
    &&& ts.len() == idx.len()
    &&& ms.len() == ts.len()
    &&& forall|k: int|
        0 <= k < idx.len() ==> {
            let i = #[trigger] idx[k];
            &&& 0 <= i < vals.len()
            &&& needs_wrapper(e0, vals[i])
            &&& ts[k] == (vals[i].id, vals[i].kind, vals[i].owner.unwrap())
        }
    &&& forall|a: int, b: int| 0 <= a < b < idx.len() ==> #[trigger] idx[a] < #[trigger] idx[b]
    &&& forall|k: int| 0 <= k < ms.len() ==> is_wrapper_for(#[trigger] ms[k], ts[k])
}

/// One wrapping step keeps `wrapped_state`.
proof fn lemma_wrap_step_state(
    e0: Seq<(ElementId, Element)>,
    ts: Seq<(ElementId, ElementKind, ElementId)>,
    idx: Seq<int>,
    ms: Seq<Element>,
    k: int,
    s: Seq<(ElementId, Element)>,
    s2: Seq<(ElementId, Element)>,
    mid: Seq<(ElementId, Element)>,
)
    requires
        keys_are_ids(e0),
        keys_distinct(e0),
        wrapper_ids_free(e0),
        wrap_setup(e0, ts, idx, ms),
        0 <= k < ts.len(),
        wrapped_state(e0, idx, ms, k, s),
        wrap_step(s, s2, ts[k], ms[k], mid),
    ensures
        wrapped_state(e0, idx, ms, k + 1, s2),
{
    let n = e0.len();
    let vals = entry_values(e0);
    let i = idx[k];
    let t = ts[k];
    let m = ms[k];
    assert(vals[i] == e0[i].1);
    assert(t.0@ == e0[i].0@);
    reveal_strlit("-m");
    // The child is found at its starting position.
    assert forall|j: int| 0 <= j < i implies s[j].0@ != t.0@ by {
        assert(s[j].0 == e0[j].0);
    }
    lemma_find_unique(s, t.0@, i);
    let s1 = set_owner_of(s, t.0@, m.id);
    assert(s1 == s.update(i, (s[i].0, Element { owner: Some(m.id), ..s[i].1 })));
    lemma_target_position(idx, i);
    assert(target_position(idx, i) == k) by {
        let p = target_position(idx, i);
        if p != k {
            if p < k && p >= 0 {
                assert(idx[p] < idx[k]);
            } else if p > k {
                assert(idx[k] < idx[p]);
            } else {
                assert(idx[k] != i);
            }
        }
    }
    lemma_relinked_keeps(s1, mid, t.2@, t.0@, m.id);
    // The membership's ID is new.
    assert forall|j: int| 0 <= j < mid.len() implies #[trigger] mid[j].0@ != m.id@ by {
        if j < n {
            assert(mid[j].0 == e0[j].0);
            assert(needs_wrapper(e0, e0[i].1));
            assert(e0[j].0@ != e0[i].1.id@ + "-m"@);
        } else {
            let jj = j - n;
            assert(mid[j].0 == s[j].0);
            assert(s[n + jj].0 == ms[jj].id);
            assert(is_wrapper_for(ms[jj], ts[jj]));
            let ii = idx[jj];
            assert(ts[jj].0@ == e0[ii].0@);
            if ms[jj].id@ == m.id@ {
                lemma_suffix_cancel(ts[jj].0@, t.0@, "-m"@);
                assert(ii < i);
                assert(e0[ii].0@ != e0[i].0@);
            }
        }
    }
    lemma_find_key(mid, m.id@);
    assert(s2 == mid.push((m.id, m)));
    assert forall|x: int| 0 <= x < n implies {
        &&& #[trigger] s2[x].0 == e0[x].0
        &&& s2[x].1.id == e0[x].1.id
        &&& s2[x].1.kind == e0[x].1.kind
        &&& s2[x].1.owner == (if 0 <= target_position(idx, x) < k + 1 {
            Some(ms[target_position(idx, x)].id)
        } else {
            e0[x].1.owner
        })
    } by {
        assert(s2[x] == mid[x]);
        lemma_target_position(idx, x);
        if x == i {
        } else {
            assert(target_position(idx, x) != k) by {
                if target_position(idx, x) == k {
                    assert(idx[k] == x);
                }
            }
        }
    }
    assert(s1.len() == s.len());
    assert(mid.len() == n + k);
    assert forall|j: int| 0 <= j < k + 1 implies #[trigger] s2[n + j].0 == ms[j].id && s2[n + j].1.kind == ms[j].kind by {
        if j < k {
            assert(s2[n + j] == mid[n + j]);
            assert(mid[n + j].0 == s1[n + j].0);
            assert(mid[n + j].1.kind == s1[n + j].1.kind);
            assert(s1[n + j] == s[n + j]);
        } else {
            assert(s2[n + k] == (m.id, m));
        }
    }
}

/// Every state of the trace from the `k`-th on keeps `wrapped_state`.
proof fn lemma_wrap_states(
    e0: Seq<(ElementId, Element)>,
    ts: Seq<(ElementId, ElementKind, ElementId)>,
    idx: Seq<int>,
    ms: Seq<Element>,
    mids: Seq<Seq<(ElementId, Element)>>,
    states: Seq<Seq<(ElementId, Element)>>,
    k: int,
)
    requires
        keys_are_ids(e0),
        keys_distinct(e0),
        wrapper_ids_free(e0),
        wrap_setup(e0, ts, idx, ms),
        wrap_trace(e0, ts, ms, mids, states),
        0 <= k <= ts.len(),
        wrapped_state(e0, idx, ms, k, states[k]),
    ensures
        wrapped_state(e0, idx, ms, ts.len() as int, states[ts.len() as int]),
    decreases ts.len() - k,
{
    if k < ts.len() {
        lemma_wrap_step_state(e0, ts, idx, ms, k, states[k], states[k + 1], mids[k]);
        lemma_wrap_states(e0, ts, idx, ms, mids, states, k + 1);
    }
}

/// The key of the `p`-th membership is the key of no entry before it.
proof fn lemma_membership_key_unique(
    e0: Seq<(ElementId, Element)>,
    ts: Seq<(ElementId, ElementKind, ElementId)>,
    idx: Seq<int>,
    ms: Seq<Element>,
    f: Seq<(ElementId, Element)>,
    p: int,
)
    requires
        keys_are_ids(e0),
        keys_distinct(e0),
        wrapper_ids_free(e0),
        wrap_setup(e0, ts, idx, ms),
        wrapped_state(e0, idx, ms, ts.len() as int, f),
        0 <= p < ts.len(),
    ensures
        forall|y: int| 0 <= y < e0.len() + p ==> f[y].0@ != ms[p].id@,
{
    let n = e0.len();
    let vals = entry_values(e0);
    let mj = ms[p];
    assert(is_wrapper_for(mj, ts[p]));
    let ip = idx[p];
    assert(vals[ip] == e0[ip].1);
    assert(ts[p].0 == e0[ip].1.id);
    assert(needs_wrapper(e0, e0[ip].1));
    assert forall|y: int| 0 <= y < n + p implies f[y].0@ != mj.id@ by {
        if y < n {
            assert(f[y].0 == e0[y].0);
            assert(e0[y].0@ != e0[ip].1.id@ + "-m"@);
        } else {
            let jj = y - n;
            assert(f[n + jj].0 == ms[jj].id);
            assert(is_wrapper_for(ms[jj], ts[jj]));
            let ij = idx[jj];
            assert(vals[ij] == e0[ij].1);
            assert(ts[jj].0 == e0[ij].1.id);
            if ms[jj].id@ == mj.id@ {
                lemma_suffix_cancel(ts[jj].0@, ts[p].0@, "-m"@);
                assert(ij < ip);
                assert(e0[ij].0@ == e0[ij].1.id@);
                assert(e0[ip].0@ == e0[ip].1.id@);
                assert(e0[ij].0@ != e0[ip].0@);
            }
        }
    }
}

/// A membership made by wrapping needs no wrapper.
proof fn lemma_final_membership(
    e0: Seq<(ElementId, Element)>,
    ts: Seq<(ElementId, ElementKind, ElementId)>,
    idx: Seq<int>,
    ms: Seq<Element>,
    f: Seq<(ElementId, Element)>,
    x: int,
)
    requires
        wrap_setup(e0, ts, idx, ms),
        wrapped_state(e0, idx, ms, ts.len() as int, f),
        e0.len() <= x < f.len(),
    ensures
        !needs_wrapper(f, f[x].1),
{
    let n = e0.len();
    let j = x - n;
    assert(f[n + j].0 == ms[j].id);
    assert(f[n + j].1.kind == ms[j].kind);
    assert(is_wrapper_for(ms[j], ts[j]));
    lemma_kind_classes(ts[j].1);
}

/// A wrapped child is owned by its membership, so it needs no wrapper.
proof fn lemma_final_wrapped(
    e0: Seq<(ElementId, Element)>,
    ts: Seq<(ElementId, ElementKind, ElementId)>,
    idx: Seq<int>,
    ms: Seq<Element>,
    f: Seq<(ElementId, Element)>,
    x: int,
)
    requires
        keys_are_ids(e0),
        keys_distinct(e0),
        wrapper_ids_free(e0),
        wrap_setup(e0, ts, idx, ms),
        wrapped_state(e0, idx, ms, ts.len() as int, f),
        0 <= x < e0.len(),
        target_position(idx, x) >= 0,
    ensures
        !needs_wrapper(f, f[x].1),
{
    let n = e0.len();
    lemma_target_position(idx, x);
    let p = target_position(idx, x);
    assert(f[x].0 == e0[x].0);
    assert(f[x].1.owner == Some(ms[p].id));
    assert(f[n + p].0 == ms[p].id);
    assert(f[n + p].1.kind == ms[p].kind);
    assert(is_wrapper_for(ms[p], ts[p]));
    lemma_kind_classes(ts[p].1);
    lemma_membership_key_unique(e0, ts, idx, ms, f, p);
    lemma_find_unique(f, ms[p].id@, n + p);
}

/// Any other starting child keeps its kind and owner, and its owner keeps
/// its kind or is a membership, so it needs no wrapper, as before.
proof fn lemma_final_other(
    e0: Seq<(ElementId, Element)>,
    ts: Seq<(ElementId, ElementKind, ElementId)>,
    idx: Seq<int>,
    ms: Seq<Element>,
    f: Seq<(ElementId, Element)>,
    x: int,
)
    requires
        keys_are_ids(e0),
        keys_distinct(e0),
        wrapper_ids_free(e0),
        wrap_setup(e0, ts, idx, ms),
        idx == target_indices(e0, entry_values(e0)),
        wrapped_state(e0, idx, ms, ts.len() as int, f),
        0 <= x < e0.len(),
        target_position(idx, x) < 0,
    ensures
        !needs_wrapper(f, f[x].1),
{
    let n = e0.len();
    let vals = entry_values(e0);
    lemma_targets(e0, vals);
    lemma_target_position(idx, x);
    assert(vals[x] == e0[x].1);
    assert(!needs_wrapper(e0, vals[x])) by {
        if needs_wrapper(e0, vals[x]) {
            let k2 = choose|k2: int| 0 <= k2 < idx.len() && #[trigger] idx[k2] == x;
            assert(idx[k2] != x);
        }
    }
    assert(f[x].0 == e0[x].0);
    assert(f[x].1.owner == e0[x].1.owner);
    assert(f[x].1.kind == e0[x].1.kind);
    match e0[x].1.owner {
        Some(o) => {
            lemma_find_key(e0, o@);
            lemma_find_key(f, o@);
            let q = find_key(e0, o@);
            if q >= 0 {
                assert forall|y: int| 0 <= y < q implies f[y].0@ != o@ by {
                    assert(f[y].0 == e0[y].0);
                }
                assert(f[q].0 == e0[q].0);
                assert(f[q].1.kind == e0[q].1.kind);
                lemma_find_unique(f, o@, q);
            } else {
                let qf = find_key(f, o@);
                if qf >= 0 {
                    if qf < n {
                        assert(f[qf].0 == e0[qf].0);
                    } else {
                        lemma_final_membership(e0, ts, idx, ms, f, qf);
                        let j = qf - n;
                        assert(f[n + j].0 == ms[j].id);
                        assert(f[n + j].1.kind == ms[j].kind);
                        assert(is_wrapper_for(ms[j], ts[j]));
                        lemma_kind_classes(ts[j].1);
                    }
                }
            }
        },
        None => {},
    }
}

/// No element of `vals` must be wrapped, so there are no targets.
proof fn lemma_no_targets(entries: Seq<(ElementId, Element)>, vals: Seq<Element>)
    requires
        forall|i: int| 0 <= i < vals.len() ==> !needs_wrapper(entries, #[trigger] vals[i]),
    ensures
        targets_of(entries, vals).len() == 0,
    decreases vals.len(),
{
    if vals.len() > 0 {
        assert(!needs_wrapper(entries, vals[vals.len() - 1]));
        assert forall|i: int| 0 <= i < vals.drop_last().len() implies !needs_wrapper(entries, #[trigger] vals.drop_last()[i]) by {
            assert(vals.drop_last()[i] == vals[i]);
        }
        lemma_no_targets(entries, vals.drop_last());
    }
}

/// Wrapping children in memberships is idempotent: once
/// `Model::wrap_children_in_memberships` has run, no child is left to
/// wrap (every element that is neither a relationship nor a membership and
/// whose owner is in the model is owned by a membership or a
/// relationship), so running it again leaves the elements as they are. This holds
/// for maps whose entries are stored under their elements' own IDs, with
/// distinct keys, and where the ID `<child>-m` of each membership to be
/// made is not taken.
pub proof fn law_wrap_idempotent(
    e0: Seq<(ElementId, Element)>,
    ms: Seq<Element>,
    mids: Seq<Seq<(ElementId, Element)>>,
    states: Seq<Seq<(ElementId, Element)>>,
)
    requires
        keys_are_ids(e0),
        keys_distinct(e0),
        wrapper_ids_free(e0),
        wrap_trace(e0, wrap_targets(e0), ms, mids, states),
    ensures
        wrap_targets(states.last()).len() == 0,
        forall|x: int| 0 <= x < states.last().len() ==> !needs_wrapper(states.last(), #[trigger] states.last()[x].1),
        forall|ms2: Seq<Element>, mids2: Seq<Seq<(ElementId, Element)>>, states2: Seq<Seq<(ElementId, Element)>>|
            #[trigger] wrap_trace(states.last(), wrap_targets(states.last()), ms2, mids2, states2) ==> states2.last()
                == states.last(),
{
    let vals = entry_values(e0);
    let ts = wrap_targets(e0);
    let idx = target_indices(e0, vals);
    let n = e0.len();
    lemma_targets(e0, vals);
    assert(wrap_setup(e0, ts, idx, ms));
    assert forall|i: int| 0 <= i < n implies #[trigger] states[0][i].0 == e0[i].0 && states[0][i].1.id == e0[i].1.id
        && states[0][i].1.kind == e0[i].1.kind && states[0][i].1.owner == (if 0 <= target_position(idx, i) < 0 {
        Some(ms[target_position(idx, i)].id)
    } else {
        e0[i].1.owner
    }) by {}
    assert(wrapped_state(e0, idx, ms, 0, states[0]));
    lemma_wrap_states(e0, ts, idx, ms, mids, states, 0);
    let f = states.last();
    assert(f == states[ts.len() as int]);
    let fv = entry_values(f);
    assert forall|x: int| 0 <= x < fv.len() implies !needs_wrapper(f, #[trigger] fv[x]) by {
        assert(fv[x] == f[x].1);
        if x >= n {
            lemma_final_membership(e0, ts, idx, ms, f, x);
        } else {
            lemma_target_position(idx, x);
            if target_position(idx, x) >= 0 {
                lemma_final_wrapped(e0, ts, idx, ms, f, x);
            } else {
                lemma_final_other(e0, ts, idx, ms, f, x);
            }
        }
    }
    assert forall|x: int| 0 <= x < f.len() implies !needs_wrapper(f, #[trigger] f[x].1) by {
        assert(fv[x] == f[x].1);
    }
    lemma_no_targets(f, fv);
}

/// Each membership that `Model::wrap_children_in_memberships` makes has
/// the ID `<child>-m`, the membership kind for its child's kind, the
/// child's parent as owner and the child as its only owned element. The
/// child takes it as owner, and it takes the child's place among its
/// parent's owned elements.
pub proof fn law_wrapper_shape(
    e0: Seq<(ElementId, Element)>,
    ms: Seq<Element>,
    mids: Seq<Seq<(ElementId, Element)>>,
    states: Seq<Seq<(ElementId, Element)>>,
    k: int,
)
    requires
        wrap_trace(e0, wrap_targets(e0), ms, mids, states),
        0 <= k < wrap_targets(e0).len(),
    ensures
        ({
            let t = wrap_targets(e0)[k];
            let m = ms[k];
            &&& m.id@ == t.0@ + "-m"@
            &&& m.kind == ElementKind::spec_membership_kind_for(t.1)
            &&& m.owner == Some(t.2)
            &&& m.owned_elements@ == seq![t.0]
            &&& relinked(set_owner_of(states[k], t.0@, m.id), mids[k], t.2@, t.0@, m.id)
            &&& states[k + 1] == crate::model::put_entry(mids[k], m.id, m)
        }),
{
    assert(wrap_step(states[k], states[k + 1], wrap_targets(e0)[k], ms[k], mids[k]));
}

} // verus!
