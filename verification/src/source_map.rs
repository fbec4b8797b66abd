//! Where each element's text lies in a rendered document.

use vstd::prelude::*;
use crate::model::{ElementId, Model, lookup};

verus! {

/// The byte span `(start, end)` recorded for each element, at most one per
/// element ID.
#[derive(Debug)]
pub struct SourceMap {
    spans: Vec<(ElementId, (usize, usize))>,
}

/// The span recorded for `id` among `entries`: the first entry with that ID.
pub open spec fn span_in(entries: Seq<(ElementId, (usize, usize))>, id: Seq<char>) -> Option<(usize, usize)>
    decreases entries.len(),
{
    if entries.len() == 0 {
        None
    } else if entries[0].0@ == id {
        Some(entries[0].1)
    } else {
        span_in(entries.drop_first(), id)
    }
}

/// A span is recorded for `id` exactly when some entry has that ID.
proof fn lemma_span_in_found(entries: Seq<(ElementId, (usize, usize))>, id: Seq<char>)
    ensures
        span_in(entries, id) is Some <==> exists|i: int| 0 <= i < entries.len() && #[trigger] entries[i].0@ == id,
    decreases entries.len(),
{
    if entries.len() > 0 {
        lemma_span_in_found(entries.drop_first(), id);
        if span_in(entries, id) is Some && entries[0].0@ != id {
            let i = choose|i: int| 0 <= i < entries.drop_first().len() && #[trigger] entries.drop_first()[i].0@ == id;
            assert(entries[i + 1] == entries.drop_first()[i]);
        }
        if exists|i: int| 0 <= i < entries.len() && #[trigger] entries[i].0@ == id {
            let i = choose|i: int| 0 <= i < entries.len() && #[trigger] entries[i].0@ == id;
            if i > 0 {
                assert(entries.drop_first()[i - 1] == entries[i]);
            }
        }
    }
}

/// Whether the walk up the owner chain of `m` from `id` stops within `n`
/// steps: at an element that is not in `m` or has no owner, at an owner
/// that has a span among `spans`, or at an owner that is not in `m`.
pub open spec fn walk_ends(spans: Seq<(ElementId, (usize, usize))>, m: Model, id: Seq<char>, n: nat) -> bool
    decreases n,
{
    match lookup(m.entries(), id) {
        None => true,
        Some(e) => match e.owner {
            None => true,
            Some(o) => span_in(spans, o@) is Some || lookup(m.entries(), o@) is None || (n > 0
                && walk_ends(spans, m, o@, (n - 1) as nat)),
        },
    }
}

/// The nearest owner of `id`, going up the owner chain in `m` for at most
/// `n` steps, that has a span among `spans`; none when the chain ends
/// first.
pub open spec fn walk_result(spans: Seq<(ElementId, (usize, usize))>, m: Model, id: Seq<char>, n: nat) -> Option<Seq<char>>
    decreases n,
{
    match lookup(m.entries(), id) {
        None => None,
        Some(e) => match e.owner {
            None => None,
            Some(o) => if span_in(spans, o@) is Some {
                Some(o@)
            } else if lookup(m.entries(), o@) is Some && n > 0 {
                walk_result(spans, m, o@, (n - 1) as nat)
            } else {
                None
            },
        },
    }
}

/// Whether the walk up the owner chain from `id` stops: it does not run
/// into a cycle before reaching a mapped owner or the chain's end.
pub open spec fn walk_stops(spans: Seq<(ElementId, (usize, usize))>, m: Model, id: Seq<char>) -> bool {
    exists|n: nat| walk_ends(spans, m, id, n)
}

/// The nearest owner of `id`, going up the owner chain in `m`, that has a
/// span among `spans`; none when the chain ends first.
pub open spec fn mapped_ancestor(spans: Seq<(ElementId, (usize, usize))>, m: Model, id: Seq<char>) -> Option<Seq<char>> {
    walk_result(spans, m, id, choose|n: nat| walk_ends(spans, m, id, n))
}

/// Once the walk stops within `n` steps, allowing it more steps changes
/// nothing.
proof fn lemma_walk_result_stable(spans: Seq<(ElementId, (usize, usize))>, m: Model, id: Seq<char>, n: nat, n2: nat)
    requires
        walk_ends(spans, m, id, n),
        n <= n2,
    ensures
        walk_ends(spans, m, id, n2),
        walk_result(spans, m, id, n) == walk_result(spans, m, id, n2),
    decreases n,
{
    match lookup(m.entries(), id) {
        None => {},
        Some(e) => match e.owner {
            None => {},
            Some(o) => {
                if span_in(spans, o@) is None && lookup(m.entries(), o@) is Some {
                    lemma_walk_result_stable(spans, m, o@, (n - 1) as nat, (n2 - 1) as nat);
                }
            },
        },
    }
}

/// The mapped ancestor is what the walk gives within any step bound `n`
/// within which it stops.
pub proof fn lemma_mapped_ancestor_by_bound(spans: Seq<(ElementId, (usize, usize))>, m: Model, id: Seq<char>, n: nat)
    requires
        walk_ends(spans, m, id, n),
    ensures
        walk_stops(spans, m, id),
        mapped_ancestor(spans, m, id) == walk_result(spans, m, id, n),
{
    let n2 = choose|k: nat| walk_ends(spans, m, id, k);
    if n <= n2 {
        lemma_walk_result_stable(spans, m, id, n, n2);
    } else {
        lemma_walk_result_stable(spans, m, id, n2, n);
    }
}

impl SourceMap {
    /// The recorded entries, in the order they were first recorded.
    pub closed spec fn entries(&self) -> Seq<(ElementId, (usize, usize))> {
        self.spans@
    }

    /// No ID is recorded twice.
    #[verifier::type_invariant]
    spec fn ids_unique(&self) -> bool {
        forall|i: int, j: int|
            0 <= i < j < self.spans@.len() ==> self.spans@[i].0@ != self.spans@[j].0@
    }

    /// The map as a function from ID text to span.
    pub open spec fn spec_span(&self, id: Seq<char>) -> Option<(usize, usize)> {
        span_in(self.entries(), id)
    }

    /// An empty map.
    pub fn new() -> (r: Self)
        ensures
            r.entries().len() == 0,
    {
        SourceMap { spans: Vec::new() }
    }

    /// Record `span` for `id`, replacing an earlier span for the same ID.
    pub fn record(&mut self, id: ElementId, span: (usize, usize))
        ensures
            final(self).spec_span(id@) == Some(span),
            forall|other: Seq<char>| other != id@ ==> final(self).spec_span(other) == old(self).spec_span(other),
            old(self).spec_span(id@) is Some ==> final(self).entries().len() == old(self).entries().len(),
            old(self).spec_span(id@) is None ==> final(self).entries().len() == old(self).entries().len() + 1,
    {
        proof {
            use_type_invariant(&*self);
        }
        let mut i: usize = 0;
        while i < self.spans.len()
            invariant
                i <= self.spans@.len(),
                forall|j: int| 0 <= j < i ==> self.spans@[j].0@ != id@,
                self.spans@ == old(self).spans@,
                forall|a: int, b: int|
                    0 <= a < b < self.spans@.len() ==> self.spans@[a].0@ != self.spans@[b].0@,
            decreases self.spans.len() - i,
        {
            if self.spans[i].0.same_as(&id) {
                let ghost before = self.spans@;
                proof {
                    lemma_span_in_unique(before, i as int, id@);
                }
                let mut v = Vec::new();
                std::mem::swap(&mut v, &mut self.spans);
                v.set(i, (id, span));
                proof {
                    lemma_span_in_set(before, i as int, v@[i as int]);
                }
                self.spans = v;
                return;
            }
            i = i + 1;
        }
        let ghost before = self.spans@;
        proof {
            lemma_span_in_absent(before, id@);
        }
        let mut v = Vec::new();
        std::mem::swap(&mut v, &mut self.spans);
        v.push((id, span));
        proof {
            lemma_span_in_push(before, v@.last());
            assert forall|a: int, b: int| 0 <= a < b < v@.len() implies v@[a].0@ != v@[b].0@ by {
                if b == v@.len() - 1 {
                    assert(v@[a] == before[a]);
                } else {
                    assert(v@[a] == before[a] && v@[b] == before[b]);
                }
            }
        }
        self.spans = v;
    }

    /// The span of `id`, if one was recorded.
    pub fn span(&self, id: &ElementId) -> (r: Option<(usize, usize)>)
        ensures
            r == self.spec_span(id@),
    {
        let mut i: usize = 0;
        assert(self.spans@.subrange(0, self.spans@.len() as int) =~= self.spans@);
        while i < self.spans.len()
            invariant
                i <= self.spans@.len(),
                span_in(self.spans@, id@) == span_in(self.spans@.subrange(i as int, self.spans@.len() as int), id@),
            decreases self.spans.len() - i,
        {
            proof {
                assert(self.spans@.subrange(i as int, self.spans@.len() as int).drop_first() =~= self.spans@.subrange(i + 1, self.spans@.len() as int));
            }
            if self.spans[i].0.same_as(id) {
                return Some(self.spans[i].1);
            }
            i = i + 1;
        }
        assert(self.spans@.subrange(i as int, self.spans@.len() as int) =~= Seq::<(ElementId, (usize, usize))>::empty());
        None
    }

    /// The IDs that have a span, in the order they were first recorded:
    /// each once, and exactly those whose span is recorded.
    pub fn mapped_ids(&self) -> (r: Vec<&ElementId>)
        ensures
            r@.len() == self.entries().len(),
            forall|i: int| 0 <= i < r@.len() ==> *(#[trigger] r@[i]) == self.entries()[i].0,
            forall|i: int, j: int| 0 <= i < j < r@.len() ==> (#[trigger] r@[i])@ != (#[trigger] r@[j])@,
            forall|id: Seq<char>|
                (exists|i: int| 0 <= i < r@.len() && (#[trigger] r@[i])@ == id) <==> (#[trigger] self.spec_span(id)) is Some,
    {
        proof {
            use_type_invariant(self);
            assert forall|id: Seq<char>|
                (exists|i: int| 0 <= i < self.spans@.len() && #[trigger] self.spans@[i].0@ == id) <==> span_in(self.spans@, id) is Some by {
                lemma_span_in_found(self.spans@, id);
            }
        }
        let mut r: Vec<&ElementId> = Vec::new();
        let mut i: usize = 0;
        while i < self.spans.len()
            invariant
                i <= self.spans@.len(),
                r@.len() == i,
                forall|j: int| 0 <= j < i ==> *(#[trigger] r@[j]) == self.spans@[j].0,
            decreases self.spans.len() - i,
        {
            r.push(&self.spans[i].0);
            i = i + 1;
        }
        proof {
            assert forall|id: Seq<char>|
                (exists|i: int| 0 <= i < r@.len() && (#[trigger] r@[i])@ == id) <==> (#[trigger] self.spec_span(id)) is Some by {
                if exists|i: int| 0 <= i < r@.len() && (#[trigger] r@[i])@ == id {
                    let i = choose|i: int| 0 <= i < r@.len() && (#[trigger] r@[i])@ == id;
                    assert(self.spans@[i].0@ == id);
                }
                if span_in(self.spans@, id) is Some {
                    let i = choose|i: int| 0 <= i < self.spans@.len() && #[trigger] self.spans@[i].0@ == id;
                    assert(r@[i]@ == id);
                }
            }
        }
        r
    }

    /// How many elements have a span.
    pub fn len(&self) -> (r: usize)
        ensures
            r == self.entries().len(),
    {
        self.spans.len()
    }

    /// Whether no element has a span.
    pub fn is_empty(&self) -> (r: bool)
        ensures
            r == (self.entries().len() == 0),
    {
        self.spans.len() == 0
    }

    /// The nearest owner of `id`, going up the owner chain of `model`,
    /// that has a span.
    pub fn find_mapped_ancestor(&self, id: &ElementId, model: &Model) -> (r: Option<ElementId>)
        requires
            walk_stops(self.entries(), *model, id@),
        ensures
            match r {
                Some(a) => mapped_ancestor(self.entries(), *model, id@) == Some(a@),
                None => mapped_ancestor(self.entries(), *model, id@) is None,
            },
    {
        let ghost spans = self.entries();
        let ghost n0: nat = choose|n: nat| walk_ends(spans, *model, id@, n);
        let ghost target = walk_result(spans, *model, id@, n0);
        let ghost mut k: nat = n0;
        let mut cur = id.clone();
        loop
            invariant
                spans == self.entries(),
                walk_ends(spans, *model, cur@, k),
                target == mapped_ancestor(spans, *model, id@),
                walk_result(spans, *model, cur@, k) == target,
            decreases k,
        {
            let el = match model.get(&cur) {
                Some(el) => el,
                None => return None,
            };
            let o = match &el.owner {
                Some(o) => o,
                None => return None,
            };
            if self.span(o).is_some() {
                return Some(o.clone());
            }
            if model.get(o).is_none() {
                return None;
            }
            proof {
                k = (k - 1) as nat;
            }
            cur = o.clone();
        }
    }
}

proof fn lemma_span_in_unique(s: Seq<(ElementId, (usize, usize))>, i: int, id: Seq<char>)
    requires
        0 <= i < s.len(),
        s[i].0@ == id,
        forall|j: int| 0 <= j < i ==> s[j].0@ != id,
    ensures
        span_in(s, id) == Some(s[i].1),
    decreases i,
{
    if i > 0 {
        lemma_span_in_unique(s.drop_first(), i - 1, id);
    }
}

proof fn lemma_span_in_set(s: Seq<(ElementId, (usize, usize))>, i: int, e: (ElementId, (usize, usize)))
    requires
        0 <= i < s.len(),
        e.0@ == s[i].0@,
        forall|a: int, b: int| 0 <= a < b < s.len() ==> s[a].0@ != s[b].0@,
    ensures
        span_in(s.update(i, e), e.0@) == Some(e.1),
        forall|other: Seq<char>| other != e.0@ ==> span_in(s.update(i, e), other) == span_in(s, other),
        forall|a: int, b: int| 0 <= a < b < s.update(i, e).len() ==> s.update(i, e)[a].0@ != s.update(i, e)[b].0@,
    decreases i,
{
    if i > 0 {
        let t = s.drop_first();
        lemma_span_in_set(t, i - 1, e);
        assert(s.update(i, e).drop_first() =~= t.update(i - 1, e));
        assert forall|other: Seq<char>| other != e.0@ implies span_in(s.update(i, e), other) == span_in(s, other) by {
            assert(span_in(t.update(i - 1, e), other) == span_in(t, other));
        }
    } else {
        assert(s.update(0, e).drop_first() =~= s.drop_first());
        assert forall|other: Seq<char>| other != e.0@ implies span_in(s.update(i, e), other) == span_in(s, other) by {
            assert(s.update(0, e)[0] == e);
        }
    }
}

proof fn lemma_span_in_absent(s: Seq<(ElementId, (usize, usize))>, id: Seq<char>)
    requires
        forall|j: int| 0 <= j < s.len() ==> s[j].0@ != id,
    ensures
        span_in(s, id) is None,
    decreases s.len(),
{
    if s.len() > 0 {
        lemma_span_in_absent(s.drop_first(), id);
    }
}

proof fn lemma_span_in_push(s: Seq<(ElementId, (usize, usize))>, e: (ElementId, (usize, usize)))
    requires
        forall|j: int| 0 <= j < s.len() ==> s[j].0@ != e.0@,
    ensures
        span_in(s.push(e), e.0@) == Some(e.1),
        forall|other: Seq<char>| other != e.0@ ==> span_in(s.push(e), other) == span_in(s, other),
    decreases s.len(),
{
    if s.len() > 0 {
        lemma_span_in_push(s.drop_first(), e);
        assert(s.push(e).drop_first() =~= s.drop_first().push(e));
        assert forall|other: Seq<char>| other != e.0@ implies span_in(s.push(e), other) == span_in(s, other) by {
            assert(span_in(s.drop_first().push(e), other) == span_in(s.drop_first(), other));
            assert(s.push(e)[0] == s[0]);
        }
    } else {
        assert(s.push(e).drop_first() =~= Seq::<(ElementId, (usize, usize))>::empty());
        assert forall|other: Seq<char>| other != e.0@ implies span_in(s.push(e), other) == span_in(s, other) by {
            assert(s.push(e)[0] == e);
            assert(span_in(Seq::<(ElementId, (usize, usize))>::empty(), other) is None);
        }
    }

}


impl Default for SourceMap {
    /// An empty map.
    fn default() -> (r: Self)
        ensures
            r.entries().len() == 0,
    {
        SourceMap::new()
    }
}

impl Clone for SourceMap {
    /// A copy with the same spans, in the same order.
    fn clone(&self) -> (r: Self)
        ensures
            r.entries() == self.entries(),
    {
        proof {
            use_type_invariant(self);
        }
        let mut spans: Vec<(ElementId, (usize, usize))> = Vec::new();
        let mut i: usize = 0;
        while i < self.spans.len()
            invariant
                i <= self.spans@.len(),
                spans@ == self.spans@.take(i as int),
                forall|a: int, b: int|
                    0 <= a < b < self.spans@.len() ==> self.spans@[a].0@ != self.spans@[b].0@,
            decreases self.spans.len() - i,
        {
            let id = self.spans[i].0.clone();
            let span = self.spans[i].1;
            spans.push((id, span));
            assert(spans@ =~= self.spans@.take(i + 1));
            i = i + 1;
        }
        assert(spans@ =~= self.spans@);
        SourceMap { spans }
    }
}

} // verus!
