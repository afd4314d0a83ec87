//! The kinds of interaction a widget offers on a semantic target.

use vstd::prelude::*;
use crate::abi::{SymbolMap, Value, ValueView, value_view};
use crate::canon::{str_eq, Symbol, CONTROLS, DESCRIPTION, LABEL, TARGET};
use crate::questions::AnswerKind;
use crate::records::{GraphThing, ThingView};
use crate::thingable::field_uuid;

verus! {

/// What a user does through a widget.
#[derive(Clone, Copy, Debug, PartialEq, Eq, Structural)]
pub enum InteractionKind {
    Inspect,
    Select,
    DecideBool,
    DecideOneOf,
    AdjustNumber,
    AdjustText,
    Act,
    Navigate,
    Arrange,
    Annotate,
}

impl InteractionKind {
    /// The keyword of each kind.
    pub open spec fn spec_str(self) -> Seq<char> {
        match self {
            InteractionKind::Inspect => seq!['i', 'n', 's', 'p', 'e', 'c', 't'],
            InteractionKind::Select => seq!['s', 'e', 'l', 'e', 'c', 't'],
            InteractionKind::DecideBool => seq!['d', 'e', 'c', 'i', 'd', 'e', '_', 'b', 'o', 'o', 'l'],
            InteractionKind::DecideOneOf => seq!['d', 'e', 'c', 'i', 'd', 'e', '_', 'o', 'n', 'e', '_', 'o', 'f'],
            InteractionKind::AdjustNumber => seq!['a', 'd', 'j', 'u', 's', 't', '_', 'n', 'u', 'm', 'b', 'e', 'r'],
            InteractionKind::AdjustText => seq!['a', 'd', 'j', 'u', 's', 't', '_', 't', 'e', 'x', 't'],
            InteractionKind::Act => seq!['a', 'c', 't'],
            InteractionKind::Navigate => seq!['n', 'a', 'v', 'i', 'g', 'a', 't', 'e'],
            InteractionKind::Arrange => seq!['a', 'r', 'r', 'a', 'n', 'g', 'e'],
            InteractionKind::Annotate => seq!['a', 'n', 'n', 'o', 't', 'a', 't', 'e'],
        }
    }

    /// The kind a keyword names.
    pub open spec fn spec_parse(s: Seq<char>) -> Option<InteractionKind> {
        if s == seq!['i', 'n', 's', 'p', 'e', 'c', 't'] {
            Some(InteractionKind::Inspect)
        } else if s == seq!['s', 'e', 'l', 'e', 'c', 't'] {
            Some(InteractionKind::Select)
        } else if s == seq!['d', 'e', 'c', 'i', 'd', 'e', '_', 'b', 'o', 'o', 'l'] {
            Some(InteractionKind::DecideBool)
        } else if s == seq!['d', 'e', 'c', 'i', 'd', 'e', '_', 'o', 'n', 'e', '_', 'o', 'f'] {
            Some(InteractionKind::DecideOneOf)
        } else if s == seq!['a', 'd', 'j', 'u', 's', 't', '_', 'n', 'u', 'm', 'b', 'e', 'r'] {
            Some(InteractionKind::AdjustNumber)
        } else if s == seq!['a', 'd', 'j', 'u', 's', 't', '_', 't', 'e', 'x', 't'] {
            Some(InteractionKind::AdjustText)
        } else if s == seq!['a', 'c', 't'] {
            Some(InteractionKind::Act)
        } else if s == seq!['n', 'a', 'v', 'i', 'g', 'a', 't', 'e'] {
            Some(InteractionKind::Navigate)
        } else if s == seq!['a', 'r', 'r', 'a', 'n', 'g', 'e'] {
            Some(InteractionKind::Arrange)
        } else if s == seq!['a', 'n', 'n', 'o', 't', 'a', 't', 'e'] {
            Some(InteractionKind::Annotate)
        } else {
            None
        }
    }

    /// The keyword.
    pub fn as_str(self) -> (r: &'static str)
        ensures
            r@ == self.spec_str(),
    {
        proof {
            reveal_strlit("inspect");
            assert("inspect"@ =~= seq!['i', 'n', 's', 'p', 'e', 'c', 't']);
            reveal_strlit("select");
            assert("select"@ =~= seq!['s', 'e', 'l', 'e', 'c', 't']);
            reveal_strlit("decide_bool");
            assert("decide_bool"@ =~= seq!['d', 'e', 'c', 'i', 'd', 'e', '_', 'b', 'o', 'o', 'l']);
            reveal_strlit("decide_one_of");
            assert("decide_one_of"@ =~= seq!['d', 'e', 'c', 'i', 'd', 'e', '_', 'o', 'n', 'e', '_', 'o', 'f']);
            reveal_strlit("adjust_number");
            assert("adjust_number"@ =~= seq!['a', 'd', 'j', 'u', 's', 't', '_', 'n', 'u', 'm', 'b', 'e', 'r']);
            reveal_strlit("adjust_text");
            assert("adjust_text"@ =~= seq!['a', 'd', 'j', 'u', 's', 't', '_', 't', 'e', 'x', 't']);
            reveal_strlit("act");
            assert("act"@ =~= seq!['a', 'c', 't']);
            reveal_strlit("navigate");
            assert("navigate"@ =~= seq!['n', 'a', 'v', 'i', 'g', 'a', 't', 'e']);
            reveal_strlit("arrange");
            assert("arrange"@ =~= seq!['a', 'r', 'r', 'a', 'n', 'g', 'e']);
            reveal_strlit("annotate");
            assert("annotate"@ =~= seq!['a', 'n', 'n', 'o', 't', 'a', 't', 'e']);
        }
        match self {
            InteractionKind::Inspect => "inspect",
            InteractionKind::Select => "select",
            InteractionKind::DecideBool => "decide_bool",
            InteractionKind::DecideOneOf => "decide_one_of",
            InteractionKind::AdjustNumber => "adjust_number",
            InteractionKind::AdjustText => "adjust_text",
            InteractionKind::Act => "act",
            InteractionKind::Navigate => "navigate",
            InteractionKind::Arrange => "arrange",
            InteractionKind::Annotate => "annotate",
        }
    }

    /// The keyword as a text value.
    pub fn to_value(self) -> (v: Value)
        ensures
            value_view(v) == ValueView::Text(self.spec_str()),
    {
        Value::Text(String::from_str(self.as_str()))
    }

    /// Read a kind from a text value holding its keyword.
    pub fn from_value(value: &Value) -> (r: Option<InteractionKind>)
        ensures
            r == (match value_view(*value) {
                ValueView::Text(t) => InteractionKind::spec_parse(t),
                _ => None,
            }),
    {
        proof {
            reveal_strlit("inspect");
            assert("inspect"@ =~= seq!['i', 'n', 's', 'p', 'e', 'c', 't']);
            reveal_strlit("select");
            assert("select"@ =~= seq!['s', 'e', 'l', 'e', 'c', 't']);
            reveal_strlit("decide_bool");
            assert("decide_bool"@ =~= seq!['d', 'e', 'c', 'i', 'd', 'e', '_', 'b', 'o', 'o', 'l']);
            reveal_strlit("decide_one_of");
            assert("decide_one_of"@ =~= seq!['d', 'e', 'c', 'i', 'd', 'e', '_', 'o', 'n', 'e', '_', 'o', 'f']);
            reveal_strlit("adjust_number");
            assert("adjust_number"@ =~= seq!['a', 'd', 'j', 'u', 's', 't', '_', 'n', 'u', 'm', 'b', 'e', 'r']);
            reveal_strlit("adjust_text");
            assert("adjust_text"@ =~= seq!['a', 'd', 'j', 'u', 's', 't', '_', 't', 'e', 'x', 't']);
            reveal_strlit("act");
            assert("act"@ =~= seq!['a', 'c', 't']);
            reveal_strlit("navigate");
            assert("navigate"@ =~= seq!['n', 'a', 'v', 'i', 'g', 'a', 't', 'e']);
            reveal_strlit("arrange");
            assert("arrange"@ =~= seq!['a', 'r', 'r', 'a', 'n', 'g', 'e']);
            reveal_strlit("annotate");
            assert("annotate"@ =~= seq!['a', 'n', 'n', 'o', 't', 'a', 't', 'e']);
        }
        match value {
            Value::Text(t) => {
                let s = t.as_str();
                if str_eq(s, "inspect") {
                    Some(InteractionKind::Inspect)
                } else if str_eq(s, "select") {
                    Some(InteractionKind::Select)
                } else if str_eq(s, "decide_bool") {
                    Some(InteractionKind::DecideBool)
                } else if str_eq(s, "decide_one_of") {
                    Some(InteractionKind::DecideOneOf)
                } else if str_eq(s, "adjust_number") {
                    Some(InteractionKind::AdjustNumber)
                } else if str_eq(s, "adjust_text") {
                    Some(InteractionKind::AdjustText)
                } else if str_eq(s, "act") {
                    Some(InteractionKind::Act)
                } else if str_eq(s, "navigate") {
                    Some(InteractionKind::Navigate)
                } else if str_eq(s, "arrange") {
                    Some(InteractionKind::Arrange)
                } else if str_eq(s, "annotate") {
                    Some(InteractionKind::Annotate)
                } else {
                    None
                }
            },
            _ => None,
        }
    }
}

/// Every interaction kind reads back from its own keyword.
pub proof fn lemma_interaction_kind_round_trips(k: InteractionKind)
    ensures
        InteractionKind::spec_parse(k.spec_str()) == Some(k),
{
    let s = k.spec_str();
    assert(seq!['i', 'n', 's', 'p', 'e', 'c', 't'][0] != seq!['a', 'r', 'r', 'a', 'n', 'g', 'e'][0]);
    assert(seq!['n', 'a', 'v', 'i', 'g', 'a', 't', 'e'][0] != seq!['a', 'n', 'n', 'o', 't', 'a', 't', 'e'][0]);
    assert(seq!['d', 'e', 'c', 'i', 'd', 'e', '_', 'b', 'o', 'o', 'l'][0] != seq!['a', 'd', 'j', 'u', 's', 't', '_', 't', 'e', 'x', 't'][0]);
    assert(seq!['d', 'e', 'c', 'i', 'd', 'e', '_', 'o', 'n', 'e', '_', 'o', 'f'][0] != seq!['a', 'd', 'j', 'u', 's', 't', '_', 'n', 'u', 'm', 'b', 'e', 'r'][0]);
}

/// Kind of an interaction Thing (`INT`).
pub const INTERACTION: u32 = 0x494e54;
/// The kind of interaction a Thing describes (`IKD`).
pub const INTERACTION_KIND: u32 = 0x494b44;
/// The Thing an interaction writes its result to (`RWR`).
pub const RESULT_WRITES: u32 = 0x525752;
/// The widget an interaction uses (`UWG`).
pub const USES_WIDGET: u32 = 0x555747;

/// How a widget and a semantic target are bound together.
#[derive(Clone, Copy, Debug, PartialEq, Eq, Structural)]
pub struct InteractionBinding {
    pub interaction: u128,
    pub kind: InteractionKind,
    pub target: u128,
    pub result: Option<u128>,
    pub widget: Option<u128>,
}

/// The fields of an interaction Thing: its kind and target, and the label
/// and description when given.
pub open spec fn spec_interaction_props(
    kind: InteractionKind,
    target: u128,
    label: Option<Seq<char>>,
    description: Option<Seq<char>>,
) -> Map<u32, ValueView> {
    let m = map![INTERACTION_KIND => ValueView::Text(kind.spec_str()), TARGET => ValueView::Uuid(target)];
    let m2 = match label {
        Some(l) => m.insert(LABEL, ValueView::Text(l)),
        None => m,
    };
    match description {
        Some(d) => m2.insert(DESCRIPTION, ValueView::Text(d)),
        None => m2,
    }
}

/// One step of binding an interaction after its Thing exists.
#[derive(Debug)]
pub enum InteractionStep {
    /// Merge these properties into the interaction Thing.
    SetProps(SymbolMap),
    /// Add an edge `(from, predicate, to)`.
    Link(u128, u32, u128),
}

/// What a step denotes.
pub enum StepView {
    SetProps(Map<u32, ValueView>),
    Link(u128, u32, u128),
}

impl View for InteractionStep {
    type V = StepView;

    open spec fn view(&self) -> StepView {
        match self {
            InteractionStep::SetProps(m) => StepView::SetProps(m@),
            InteractionStep::Link(a, p, b) => StepView::Link(*a, *p, *b),
        }
    }
}

/// The steps that bind an interaction: link it to its target; record and link
/// the result it writes; record and link the widget it uses, which controls it.
pub open spec fn spec_interaction_steps(
    interaction: u128,
    target: u128,
    result: Option<u128>,
    widget: Option<u128>,
) -> Seq<StepView> {
    let s1 = seq![StepView::Link(interaction, TARGET, target)];
    let s2 = match result {
        Some(r) => s1 + seq![
            StepView::SetProps(map![RESULT_WRITES => ValueView::Uuid(r)]),
            StepView::Link(interaction, RESULT_WRITES, r)
        ],
        None => s1,
    };
    match widget {
        Some(w) => s2 + seq![
            StepView::SetProps(map![USES_WIDGET => ValueView::Uuid(w)]),
            StepView::Link(interaction, USES_WIDGET, w),
            StepView::Link(w, CONTROLS, interaction)
        ],
        None => s2,
    }
}

/// The interaction a Thing describes: it must be an interaction Thing naming
/// a known kind and a target; `widget` is what the caller knows it uses.
pub open spec fn spec_load_interaction(t: ThingView, widget: Option<u128>) -> Option<InteractionBinding> {
    if t.kind != INTERACTION || !t.fields.contains_key(INTERACTION_KIND) {
        None
    } else {
        match (
            match t.fields[INTERACTION_KIND] {
                ValueView::Text(s) => InteractionKind::spec_parse(s),
                _ => None,
            },
            field_uuid(t.fields, TARGET),
        ) {
            (Some(kind), Some(target)) => Some(InteractionBinding {
                interaction: t.id,
                kind,
                target,
                result: field_uuid(t.fields, RESULT_WRITES),
                widget,
            }),
            _ => None,
        }
    }
}

/// The interaction a kind of answer calls for.
pub open spec fn spec_question_interaction_kind(k: AnswerKind) -> InteractionKind {
    match k {
        AnswerKind::YesNo => InteractionKind::DecideBool,
        AnswerKind::OneOf => InteractionKind::DecideOneOf,
        AnswerKind::Number => InteractionKind::AdjustNumber,
        AnswerKind::Text => InteractionKind::AdjustText,
    }
}

/// The interaction a kind of answer calls for.
pub fn question_interaction_kind(k: AnswerKind) -> (r: InteractionKind)
    ensures
        r == spec_question_interaction_kind(k),
{
    match k {
        AnswerKind::YesNo => InteractionKind::DecideBool,
        AnswerKind::OneOf => InteractionKind::DecideOneOf,
        AnswerKind::Number => InteractionKind::AdjustNumber,
        AnswerKind::Text => InteractionKind::AdjustText,
    }
}

impl InteractionBinding {
    /// The fields of the interaction Thing.
    pub fn props(kind: InteractionKind, target: u128, label: Option<&str>, description: Option<&str>) -> (m: SymbolMap)
        ensures
            m@ == spec_interaction_props(
                kind,
                target,
                match label {
                    Some(l) => Some(l@),
                    None => None,
                },
                match description {
                    Some(d) => Some(d@),
                    None => None,
                },
            ),
    {
        let mut m = SymbolMap::new();
        m.insert(Symbol(INTERACTION_KIND), kind.to_value());
        m.insert(Symbol(TARGET), Value::Uuid(target));
        match label {
            Some(l) => m.insert(Symbol(LABEL), Value::text(l)),
            None => {},
        }
        match description {
            Some(d) => m.insert(Symbol(DESCRIPTION), Value::text(d)),
            None => {},
        }
        proof {
            assert(Map::<u32, ValueView>::empty().insert(INTERACTION_KIND, ValueView::Text(kind.spec_str())).insert(
                TARGET,
                ValueView::Uuid(target),
            ) =~= map![INTERACTION_KIND => ValueView::Text(kind.spec_str()), TARGET => ValueView::Uuid(target)]);
        }
        m
    }

    /// The steps that bind an interaction once its Thing exists.
    pub fn steps(interaction: u128, target: u128, result: Option<u128>, widget: Option<u128>) -> (v: Vec<InteractionStep>)
        ensures
            v@.map_values(|s: InteractionStep| s@) == spec_interaction_steps(interaction, target, result, widget),
    {
        let mut v: Vec<InteractionStep> = Vec::new();
        v.push(InteractionStep::Link(interaction, TARGET, target));
        match result {
            Some(r) => {
                let mut m = SymbolMap::new();
                m.insert(Symbol(RESULT_WRITES), Value::Uuid(r));
                v.push(InteractionStep::SetProps(m));
                v.push(InteractionStep::Link(interaction, RESULT_WRITES, r));
            },
            None => {},
        }
        match widget {
            Some(w) => {
                let mut m = SymbolMap::new();
                m.insert(Symbol(USES_WIDGET), Value::Uuid(w));
                v.push(InteractionStep::SetProps(m));
                v.push(InteractionStep::Link(interaction, USES_WIDGET, w));
                v.push(InteractionStep::Link(w, CONTROLS, interaction));
            },
            None => {},
        }
        proof {
            assert(Map::<u32, ValueView>::empty().insert(RESULT_WRITES, ValueView::Uuid(result->0)) =~= map![RESULT_WRITES => ValueView::Uuid(result->0)]);
            assert(Map::<u32, ValueView>::empty().insert(USES_WIDGET, ValueView::Uuid(widget->0)) =~= map![USES_WIDGET => ValueView::Uuid(widget->0)]);
            assert(v@.map_values(|s: InteractionStep| s@) =~= spec_interaction_steps(interaction, target, result, widget));
        }
        v
    }

    /// Interpret a graph Thing as an interaction description.
    pub fn load(thing: &GraphThing, widget: Option<u128>) -> (r: Option<InteractionBinding>)
        ensures
            r == spec_load_interaction(thing@, widget),
    {
        if thing.kind.0 != INTERACTION {
            return None;
        }
        let kind_value = match thing.fields.get(&Symbol(INTERACTION_KIND)) {
            Some(v) => v,
            None => {
                return None;
            },
        };
        let kind = match InteractionKind::from_value(kind_value) {
            Some(k) => k,
            None => {
                return None;
            },
        };
        let target = match thing.fields.get(&Symbol(TARGET)) {
            Some(v) => match v.as_uuid() {
                Some(t) => t,
                None => {
                    return None;
                },
            },
            None => {
                return None;
            },
        };
        let result = match thing.fields.get(&Symbol(RESULT_WRITES)) {
            Some(v) => v.as_uuid(),
            None => None,
        };
        Some(InteractionBinding { interaction: thing.id, kind, target, result, widget })
    }
}

/// An interaction written as fields reads back as the same kind and target.
pub proof fn lemma_interaction_round_trip(
    id: u128,
    kind: InteractionKind,
    target: u128,
    label: Option<Seq<char>>,
    description: Option<Seq<char>>,
    labels: Set<u32>,
    owner: u128,
    revision: u64,
    widget: Option<u128>,
)
    ensures
        spec_load_interaction(
            ThingView {
                id,
                kind: INTERACTION,
                labels,
                fields: spec_interaction_props(kind, target, label, description),
                owner,
                revision,
            },
            widget,
        ) == Some(InteractionBinding { interaction: id, kind, target, result: None, widget }),
{
    lemma_interaction_kind_round_trips(kind);
}

} // verus!
