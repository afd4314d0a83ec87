//! Facts: subject–verb–object triples, asserted or retracted, as the journal
//! records them.

use vstd::prelude::*;

verus! {

/// A triple, asserted or (when `negated`) retracted, with when it was recorded.
#[derive(Clone, Copy, Debug, PartialEq, Eq, Structural)]
pub struct Fact {
    pub subject: u128,
    pub verb: u128,
    pub object: u128,
    pub negated: bool,
    pub timestamp: u64,
}

impl Fact {
    /// A fact about a triple, not yet given a time.
    pub fn new(subject: u128, verb: u128, object: u128, negated: bool) -> (f: Fact)
        ensures
            f == (Fact { subject, verb, object, negated, timestamp: 0 }),
    {
        Fact { subject, verb, object, negated, timestamp: 0 }
    }

    /// Whether two facts state the same thing, whenever they were recorded.
    pub fn matches(&self, other: &Fact) -> (r: bool)
        ensures
            r == (self.subject == other.subject && self.verb == other.verb && self.object == other.object
                && self.negated == other.negated),
    {
        self.subject == other.subject && self.verb == other.verb && self.object == other.object
            && self.negated == other.negated
    }

    /// The retraction of a triple.
    pub fn retract(subject: u128, verb: u128, object: u128) -> (f: Fact)
        ensures
            f == (Fact { subject, verb, object, negated: true, timestamp: 0 }),
    {
        Fact { subject, verb, object, negated: true, timestamp: 0 }
    }
}

} // verus!
