//! Questions and their answers: the shape of an answer and its typed value.

use vstd::prelude::*;
use crate::abi::{SymbolMap, Value, ValueView, extract_text, spec_extract_text, value_view};
use crate::canon::{str_eq, Symbol, DESCRIPTION, LABEL};
use crate::ids::{NAMESPACE_OID, spec_uuid_v5, uuid_v5};
use crate::layout::ANSWER_KIND;
use crate::records::{GraphPropsRequest, GraphThing, ThingView};
use vstd::string::StringSliceAdditionalSpecFns;

verus! {

/// Semantic descriptor for the shape of an answer.
#[derive(Clone, Copy, Debug, PartialEq, Eq, Structural)]
pub enum AnswerKind {
    YesNo,
    OneOf,
    Text,
    Number,
}

/// Typed wrapper for values a question can hold.
#[derive(Clone, Debug)]
pub enum AnswerValue {
    Bool(bool),
    Text(String),
    Number(i64),
}

impl AnswerValue {
    /// The shape of answer this value fits.
    pub open spec fn spec_kind(&self) -> AnswerKind {
        match self {
            AnswerValue::Bool(_) => AnswerKind::YesNo,
            AnswerValue::Text(_) => AnswerKind::Text,
            AnswerValue::Number(_) => AnswerKind::Number,
        }
    }

    /// The shape of answer this value fits.
    pub fn kind(&self) -> (k: AnswerKind)
        ensures
            k == self.spec_kind(),
    {
        match self {
            AnswerValue::Bool(_) => AnswerKind::YesNo,
            AnswerValue::Text(_) => AnswerKind::Text,
            AnswerValue::Number(_) => AnswerKind::Number,
        }
    }
}

impl AnswerKind {
    /// The keyword of each kind.
    pub open spec fn spec_str(self) -> Seq<char> {
        match self {
            AnswerKind::YesNo => seq!['y', 'e', 's', '_', 'n', 'o'],
            AnswerKind::OneOf => seq!['o', 'n', 'e', '_', 'o', 'f'],
            AnswerKind::Text => seq!['t', 'e', 'x', 't'],
            AnswerKind::Number => seq!['n', 'u', 'm', 'b', 'e', 'r'],
        }
    }

    /// The kind a keyword names.
    pub open spec fn spec_parse(s: Seq<char>) -> Option<AnswerKind> {
        if s == seq!['y', 'e', 's', '_', 'n', 'o'] {
            Some(AnswerKind::YesNo)
        } else if s == seq!['o', 'n', 'e', '_', 'o', 'f'] {
            Some(AnswerKind::OneOf)
        } else if s == seq!['t', 'e', 'x', 't'] {
            Some(AnswerKind::Text)
        } else if s == seq!['n', 'u', 'm', 'b', 'e', 'r'] {
            Some(AnswerKind::Number)
        } else {
            None
        }
    }

    /// The keyword.
    pub fn as_str(self) -> (r: &'static str)
        ensures
            r@ == self.spec_str(),
    {
        proof {
            reveal_strlit("yes_no");
            assert("yes_no"@ =~= seq!['y', 'e', 's', '_', 'n', 'o']);
            reveal_strlit("one_of");
            assert("one_of"@ =~= seq!['o', 'n', 'e', '_', 'o', 'f']);
            reveal_strlit("text");
            assert("text"@ =~= seq!['t', 'e', 'x', 't']);
            reveal_strlit("number");
            assert("number"@ =~= seq!['n', 'u', 'm', 'b', 'e', 'r']);
        }
        match self {
            AnswerKind::YesNo => "yes_no",
            AnswerKind::OneOf => "one_of",
            AnswerKind::Text => "text",
            AnswerKind::Number => "number",
        }
    }

    /// The keyword as a text value.
    pub fn to_value(self) -> (v: Value)
        ensures
            value_view(v) == ValueView::Text(self.spec_str()),
    {
        Value::Text(String::from_str(self.as_str()))
    }

    /// Read a kind from a text value holding its keyword.
    pub fn from_value(value: &Value) -> (r: Option<AnswerKind>)
        ensures
            r == (match value_view(*value) {
                ValueView::Text(t) => AnswerKind::spec_parse(t),
                _ => None,
            }),
    {
        proof {
            reveal_strlit("yes_no");
            assert("yes_no"@ =~= seq!['y', 'e', 's', '_', 'n', 'o']);
            reveal_strlit("one_of");
            assert("one_of"@ =~= seq!['o', 'n', 'e', '_', 'o', 'f']);
            reveal_strlit("text");
            assert("text"@ =~= seq!['t', 'e', 'x', 't']);
            reveal_strlit("number");
            assert("number"@ =~= seq!['n', 'u', 'm', 'b', 'e', 'r']);
        }
        match value {
            Value::Text(t) => {
                let s = t.as_str();
                if str_eq(s, "yes_no") {
                    Some(AnswerKind::YesNo)
                } else if str_eq(s, "one_of") {
                    Some(AnswerKind::OneOf)
                } else if str_eq(s, "text") {
                    Some(AnswerKind::Text)
                } else if str_eq(s, "number") {
                    Some(AnswerKind::Number)
                } else {
                    None
                }
            },
            _ => None,
        }
    }
}

/// Every answer kind reads back from its own keyword.
pub proof fn lemma_answer_kind_round_trips(k: AnswerKind)
    ensures
        AnswerKind::spec_parse(k.spec_str()) == Some(k),
{
}

/// Kind of an answer Thing (`ANS`).
pub const ANSWER: u32 = 0x414e53;
/// A yes/no answer's value (`VBL`).
pub const VALUE_BOOL: u32 = 0x56424c;
/// A text answer's value (`VTX`).
pub const VALUE_TEXT: u32 = 0x565458;
/// A numeric answer's value (`VNM`).
pub const VALUE_NUMBER: u32 = 0x564e4d;
/// The edge from a question to its answer (`HAN`).
pub const HAS_ANSWER: u32 = 0x48414e;
/// Kind of a form Thing (`FOM`).
pub const FORM: u32 = 0x464f4d;
/// The edge from a form to a question it holds (`FCN`).
pub const FORM_CONTAINS: u32 = 0x46434e;

/// What an answer value denotes.
pub enum AnswerValueView {
    Bool(bool),
    Text(Seq<char>),
    Number(i64),
}

impl View for AnswerValue {
    type V = AnswerValueView;

    open spec fn view(&self) -> AnswerValueView {
        match self {
            AnswerValue::Bool(b) => AnswerValueView::Bool(*b),
            AnswerValue::Text(t) => AnswerValueView::Text(t@),
            AnswerValue::Number(n) => AnswerValueView::Number(*n),
        }
    }
}

/// The property an answer value is stored under, with the value.
pub open spec fn spec_answer_props(v: AnswerValueView) -> Map<u32, ValueView> {
    match v {
        AnswerValueView::Bool(b) => map![VALUE_BOOL => ValueView::Bool(b)],
        AnswerValueView::Text(t) => map![VALUE_TEXT => ValueView::Text(t)],
        AnswerValueView::Number(n) => map![VALUE_NUMBER => ValueView::I64(n)],
    }
}

/// The properties that store an answer value.
pub fn answer_props(value: &AnswerValue) -> (m: SymbolMap)
    ensures
        m@ == spec_answer_props(value@),
{
    let mut m = SymbolMap::new();
    match value {
        AnswerValue::Bool(b) => {
            m.insert(Symbol(VALUE_BOOL), Value::Bool(*b));
            proof {
                assert(m@ =~= map![VALUE_BOOL => ValueView::Bool(*b)]);
            }
        },
        AnswerValue::Text(t) => {
            m.insert(Symbol(VALUE_TEXT), Value::text(t.as_str()));
            proof {
                assert(m@ =~= map![VALUE_TEXT => ValueView::Text(t@)]);
            }
        },
        AnswerValue::Number(n) => {
            m.insert(Symbol(VALUE_NUMBER), Value::I64(*n));
            proof {
                assert(m@ =~= map![VALUE_NUMBER => ValueView::I64(*n)]);
            }
        },
    }
    m
}

/// The answer a Thing holds: only an answer Thing has one; a yes/no value is
/// read first, then a text (or UTF-8 bytes), then a number.
pub open spec fn spec_read_answer(t: ThingView) -> Option<AnswerValueView> {
    if t.kind != ANSWER {
        None
    } else if t.fields.contains_key(VALUE_BOOL) && t.fields[VALUE_BOOL] is Bool {
        Some(AnswerValueView::Bool(t.fields[VALUE_BOOL]->Bool_0))
    } else if t.fields.contains_key(VALUE_TEXT) && spec_extract_text(t.fields[VALUE_TEXT]) is Some {
        Some(AnswerValueView::Text(spec_extract_text(t.fields[VALUE_TEXT])->0))
    } else if t.fields.contains_key(VALUE_NUMBER) && t.fields[VALUE_NUMBER] is I64 {
        Some(AnswerValueView::Number(t.fields[VALUE_NUMBER]->I64_0))
    } else {
        None
    }
}

/// The view of an optional answer value.
pub open spec fn opt_answer_view(a: Option<AnswerValue>) -> Option<AnswerValueView> {
    match a {
        Some(v) => Some(v@),
        None => None,
    }
}

/// The fields of a question Thing: its label, the kind of answer it takes,
/// and its description when given.
pub open spec fn spec_question_fields(label: Seq<char>, description: Option<Seq<char>>, kind: AnswerKind) -> Map<u32, ValueView> {
    let m = map![LABEL => ValueView::Text(label), ANSWER_KIND => ValueView::Text(kind.spec_str())];
    match description {
        Some(d) => m.insert(DESCRIPTION, ValueView::Text(d)),
        None => m,
    }
}

/// The bytes `::answer`, which an answer's default id adds to its label.
pub open spec fn answer_salt() -> Seq<u8> {
    seq![58u8, 58u8, 97u8, 110u8, 115u8, 119u8, 101u8, 114u8]
}

/// Connection between a question and its answer Thing.
#[derive(Clone, Copy, Debug, PartialEq, Eq, Structural)]
pub struct QuestionBinding {
    pub question: u128,
    pub answer: u128,
    pub kind: AnswerKind,
}

impl QuestionBinding {
    /// The request that stores a new answer value in the answer Thing.
    pub fn answer_request(&self, value: &AnswerValue) -> (r: GraphPropsRequest)
        ensures
            r.node == self.answer,
            r.props@ == spec_answer_props(value@),
    {
        GraphPropsRequest { node: self.answer, props: answer_props(value) }
    }

    /// Interpret a graph Thing as the latest answer value.
    pub fn read_answer(thing: &GraphThing) -> (r: Option<AnswerValue>)
        ensures
            opt_answer_view(r) == spec_read_answer(thing@),
    {
        if thing.kind.0 != ANSWER {
            return None;
        }
        match thing.fields.get(&Symbol(VALUE_BOOL)) {
            Some(v) => match v.as_bool() {
                Some(b) => {
                    return Some(AnswerValue::Bool(b));
                },
                None => {},
            },
            None => {},
        }
        match thing.fields.get(&Symbol(VALUE_TEXT)) {
            Some(v) => match extract_text(v) {
                Some(t) => {
                    return Some(AnswerValue::Text(t));
                },
                None => {},
            },
            None => {},
        }
        match thing.fields.get(&Symbol(VALUE_NUMBER)) {
            Some(v) => match v.as_i64() {
                Some(n) => {
                    return Some(AnswerValue::Number(n));
                },
                None => {},
            },
            None => {},
        }
        None
    }
}

/// The ids of a question and its answer: those given, else the name-based
/// ids of the label and of the label followed by `::answer`.
pub fn question_ids(question_id: Option<u128>, answer_id: Option<u128>, label: &str) -> (r: (u128, u128))
    ensures
        r.0 == match question_id {
            Some(q) => q,
            None => spec_uuid_v5(NAMESPACE_OID, label.spec_bytes()),
        },
        r.1 == match answer_id {
            Some(a) => a,
            None => spec_uuid_v5(NAMESPACE_OID, label.spec_bytes() + answer_salt()),
        },
{
    let question = match question_id {
        Some(q) => q,
        None => uuid_v5(NAMESPACE_OID, label.as_bytes()),
    };
    let answer = match answer_id {
        Some(a) => a,
        None => {
            let bytes = label.as_bytes();
            let mut salt: Vec<u8> = Vec::new();
            let mut i: usize = 0;
            while i < bytes.len()
                invariant
                    i <= bytes@.len(),
                    salt@ == bytes@.take(i as int),
                decreases bytes@.len() - i,
            {
                salt.push(bytes[i]);
                proof {
                    assert(bytes@.take(i + 1) =~= bytes@.take(i as int).push(bytes@[i as int]));
                }
                i = i + 1;
            }
            salt.push(58u8);
            salt.push(58u8);
            salt.push(97u8);
            salt.push(110u8);
            salt.push(115u8);
            salt.push(119u8);
            salt.push(101u8);
            salt.push(114u8);
            proof {
                assert(bytes@.take(i as int) =~= bytes@);
                assert(salt@ =~= label.spec_bytes() + answer_salt());
            }
            uuid_v5(NAMESPACE_OID, salt.as_slice())
        },
    };
    (question, answer)
}

/// The fields of a question Thing.
pub fn question_fields(label: &str, description: Option<&str>, kind: AnswerKind) -> (m: SymbolMap)
    ensures
        m@ == spec_question_fields(
            label@,
            match description {
                Some(d) => Some(d@),
                None => None,
            },
            kind,
        ),
{
    let mut m = SymbolMap::new();
    m.insert(Symbol(LABEL), Value::text(label));
    m.insert(Symbol(ANSWER_KIND), kind.to_value());
    proof {
        assert(m@ =~= map![LABEL => ValueView::Text(label@), ANSWER_KIND => ValueView::Text(kind.spec_str())]);
    }
    match description {
        Some(d) => m.insert(Symbol(DESCRIPTION), Value::text(d)),
        None => {},
    }
    m
}

/// The fields of a form Thing: its label.
pub fn form_fields(name: &str) -> (m: SymbolMap)
    ensures
        m@ == map![LABEL => ValueView::Text(name@)],
{
    let mut m = SymbolMap::new();
    m.insert(Symbol(LABEL), Value::text(name));
    proof {
        assert(m@ =~= map![LABEL => ValueView::Text(name@)]);
    }
    m
}

} // verus!
