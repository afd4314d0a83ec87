//! Verbs with naive English inflection, used to phrase graph facts.

use vstd::prelude::*;
use crate::text::{ends_with, join, spec_ends_with};

verus! {

/// Third person singular of a bare verb: "es" after a sibilant ending, "s" otherwise.
pub open spec fn spec_conjugate(base: Seq<char>) -> Seq<char> {
    if spec_ends_with(base, seq!['s']) || spec_ends_with(base, seq!['x']) || spec_ends_with(
        base,
        seq!['z'],
    ) || spec_ends_with(base, seq!['c', 'h']) || spec_ends_with(base, seq!['s', 'h']) {
        base + seq!['e', 's']
    } else {
        base + seq!['s']
    }
}

/// Past participle of a bare verb: "d" after a final "e", "ed" otherwise.
pub open spec fn spec_past_participle(base: Seq<char>) -> Seq<char> {
    if spec_ends_with(base, seq!['e']) {
        base + seq!['d']
    } else {
        base + seq!['e', 'd']
    }
}

/// The active template: `{} <conjugated> {}`.
pub open spec fn spec_active_template(base: Seq<char>) -> Seq<char> {
    seq!['{', '}', ' '] + spec_conjugate(base) + seq![' ', '{', '}']
}

/// The passive template: `{} is <participle> by {}`.
pub open spec fn spec_passive_template(base: Seq<char>) -> Seq<char> {
    seq!['{', '}', ' ', 'i', 's', ' '] + spec_past_participle(base) + seq![' ', 'b', 'y', ' ', '{', '}']
}

/// A verb together with its sentence templates and role names.
pub struct Verb {
    pub name: String,
    pub active_template: String,
    pub passive_template: String,
    pub subject_role: String,
    pub object_role: String,
}

impl Verb {
    /// A verb inflected by the regular rules, with roles "subject" and "object".
    pub fn from_regular(bare_form: &str) -> (v: Verb)
        ensures
            v.name@ == bare_form@,
            v.active_template@ == spec_active_template(bare_form@),
            v.passive_template@ == spec_passive_template(bare_form@),
            v.subject_role@ == seq!['s', 'u', 'b', 'j', 'e', 'c', 't'],
            v.object_role@ == seq!['o', 'b', 'j', 'e', 'c', 't'],
    {
        let conj = Verb::conjugate(bare_form);
        let part = Verb::past_participle(bare_form);
        let mut active = String::from_str("{} ");
        active.append(conj.as_str());
        active.append(" {}");
        let mut passive = String::from_str("{} is ");
        passive.append(part.as_str());
        passive.append(" by {}");
        proof {
            reveal_strlit("{} ");
            reveal_strlit(" {}");
            reveal_strlit("{} is ");
            reveal_strlit(" by {}");
            reveal_strlit("subject");
            reveal_strlit("object");
        }
        Verb {
            name: String::from_str(bare_form),
            active_template: active,
            passive_template: passive,
            subject_role: String::from_str("subject"),
            object_role: String::from_str("object"),
        }
    }

    /// Naive third person singular.
    pub fn conjugate(base: &str) -> (r: String)
        ensures
            r@ == spec_conjugate(base@),
    {
        proof {
            reveal_strlit("s");
            reveal_strlit("x");
            reveal_strlit("z");
            reveal_strlit("ch");
            reveal_strlit("sh");
            reveal_strlit("es");
            assert("s"@ =~= seq!['s']);
            assert("x"@ =~= seq!['x']);
            assert("z"@ =~= seq!['z']);
            assert("ch"@ =~= seq!['c', 'h']);
            assert("sh"@ =~= seq!['s', 'h']);
            assert("es"@ =~= seq!['e', 's']);
        }
        if ends_with(base, "s") || ends_with(base, "x") || ends_with(base, "z") || ends_with(
            base,
            "ch",
        ) || ends_with(base, "sh") {
            join(base, "es")
        } else {
            join(base, "s")
        }
    }

    /// Naive past participle.
    pub fn past_participle(base: &str) -> (r: String)
        ensures
            r@ == spec_past_participle(base@),
    {
        proof {
            reveal_strlit("e");
            reveal_strlit("d");
            reveal_strlit("ed");
            assert("e"@ =~= seq!['e']);
            assert("d"@ =~= seq!['d']);
            assert("ed"@ =~= seq!['e', 'd']);
        }
        if ends_with(base, "e") {
            join(base, "d")
        } else {
            join(base, "ed")
        }
    }

    /// The bare form.
    pub fn base(&self) -> (r: &str)
        ensures
            r@ == self.name@,
    {
        self.name.as_str()
    }

    /// The third person singular of this verb.
    pub fn conjugated(&self) -> (r: String)
        ensures
            r@ == spec_conjugate(self.name@),
    {
        Verb::conjugate(self.base())
    }

    /// The past participle of this verb.
    pub fn past_participle_form(&self) -> (r: String)
        ensures
            r@ == spec_past_participle(self.name@),
    {
        Verb::past_participle(self.base())
    }
}

} // verus!
