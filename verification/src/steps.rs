//! Parsing steps as values: how many tokens a step consumes, the tree
//! events it makes and the missing tokens it notes, and how steps combine.

use vstd::prelude::*;
use crate::parser::ParseError;
use crate::syntax::TreeEvent;

verus! {

/// What a parsing step does, relative to where it starts: how many tokens
/// it consumes, the tree events it makes and the missing tokens it notes.
pub ghost struct Outcome {
    pub consumed: nat,
    pub events: Seq<TreeEvent>,
    pub errors: Seq<ParseError>,
}

/// Where a parser stands: the tokens consumed, the tree events made and
/// the missing tokens noted.
pub ghost struct ParseState {
    pub pos: int,
    pub events: Seq<TreeEvent>,
    pub errors: Seq<ParseError>,
}

/// A step that does nothing.
pub open spec fn nothing() -> Outcome {
    Outcome { consumed: 0, events: Seq::empty(), errors: Seq::empty() }
}

/// Step `a`, then step `b`.
pub open spec fn followed_by(a: Outcome, b: Outcome) -> Outcome {
    Outcome { consumed: a.consumed + b.consumed, events: a.events + b.events, errors: a.errors + b.errors }
}

/// The state after step `o` from state `s`.
pub open spec fn run(s: ParseState, o: Outcome) -> ParseState {
    ParseState { pos: s.pos + o.consumed, events: s.events + o.events, errors: s.errors + o.errors }
}

/// Running two steps in turn is running the combined step.
pub broadcast proof fn lemma_run_followed_by(s: ParseState, a: Outcome, b: Outcome)
    ensures
        #[trigger] run(s, followed_by(a, b)) == run(run(s, a), b),
{
    assert(run(s, followed_by(a, b)).events =~= run(run(s, a), b).events);
    assert(run(s, followed_by(a, b)).errors =~= run(run(s, a), b).errors);
}

/// Running the empty step changes nothing.
pub broadcast proof fn lemma_run_nothing(s: ParseState)
    ensures
        #[trigger] run(s, nothing()) == s,
{
    assert(run(s, nothing()).events =~= s.events);
    assert(run(s, nothing()).errors =~= s.errors);
}

} // verus!
