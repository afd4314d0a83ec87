//! Flexbox layout keywords and their text encodings as graph values.

use vstd::prelude::*;
use crate::abi::{Value, ValueView, value_view, utf8_text};
use crate::canon::str_eq;

verus! {

/// Main axis of a flex container.
#[derive(Clone, Copy, Debug, PartialEq, Eq, Structural)]
pub enum FlexDirection {
    Row,
    Column,
}

/// Placement along the main axis.
#[derive(Clone, Copy, Debug, PartialEq, Eq, Structural)]
pub enum JustifyContent {
    Start,
    Center,
    End,
    SpaceBetween,
    SpaceAround,
}

/// Placement along the cross axis.
#[derive(Clone, Copy, Debug, PartialEq, Eq, Structural)]
pub enum AlignItems {
    Start,
    Center,
    End,
    Stretch,
}

/// The text a value carries when read as a keyword: a `Text` value, or
/// `Bytes` that decode as UTF-8.
pub open spec fn spec_value_text(v: ValueView) -> Option<Seq<char>> {
    match v {
        ValueView::Text(t) => Some(t),
        ValueView::Bytes(b) => crate::abi::spec_utf8(b),
        _ => None,
    }
}

/// The text a value carries when read as a keyword.
pub fn value_as_text(value: &Value) -> (r: Option<String>)
    ensures
        r matches Some(s) ==> spec_value_text(value_view(*value)) == Some(s@),
        r is None ==> spec_value_text(value_view(*value)) is None,
{
    match value {
        Value::Text(s) => Some(s.clone()),
        Value::Bytes(b) => utf8_text(b.as_slice()),
        _ => None,
    }
}

pub open spec fn seq_row() -> Seq<char> { seq!['r', 'o', 'w'] }
pub open spec fn seq_column() -> Seq<char> { seq!['c', 'o', 'l', 'u', 'm', 'n'] }
pub open spec fn seq_start() -> Seq<char> { seq!['s', 't', 'a', 'r', 't'] }
pub open spec fn seq_flex_start() -> Seq<char> { seq!['f', 'l', 'e', 'x', '-', 's', 't', 'a', 'r', 't'] }
pub open spec fn seq_center() -> Seq<char> { seq!['c', 'e', 'n', 't', 'e', 'r'] }
pub open spec fn seq_end() -> Seq<char> { seq!['e', 'n', 'd'] }
pub open spec fn seq_flex_end() -> Seq<char> { seq!['f', 'l', 'e', 'x', '-', 'e', 'n', 'd'] }
pub open spec fn seq_space_between() -> Seq<char> {
    seq!['s', 'p', 'a', 'c', 'e', '-', 'b', 'e', 't', 'w', 'e', 'e', 'n']
}
pub open spec fn seq_space_around() -> Seq<char> {
    seq!['s', 'p', 'a', 'c', 'e', '-', 'a', 'r', 'o', 'u', 'n', 'd']
}
pub open spec fn seq_stretch() -> Seq<char> { seq!['s', 't', 'r', 'e', 't', 'c', 'h'] }

impl FlexDirection {
    /// The keyword of each direction.
    pub open spec fn spec_str(self) -> Seq<char> {
        match self {
            FlexDirection::Row => seq_row(),
            FlexDirection::Column => seq_column(),
        }
    }

    /// The direction a keyword names.
    pub open spec fn spec_parse(s: Seq<char>) -> Option<FlexDirection> {
        if s == seq_row() {
            Some(FlexDirection::Row)
        } else if s == seq_column() {
            Some(FlexDirection::Column)
        } else {
            None
        }
    }

    /// The keyword.
    pub fn as_str(self) -> (r: &'static str)
        ensures
            r@ == self.spec_str(),
    {
        proof {
            reveal_strlit("row");
            assert("row"@ =~= seq!['r', 'o', 'w']);
            reveal_strlit("column");
            assert("column"@ =~= seq!['c', 'o', 'l', 'u', 'm', 'n']);
        }
        match self {
            FlexDirection::Row => "row",
            FlexDirection::Column => "column",
        }
    }

    /// The keyword as a text value.
    pub fn to_value(self) -> (v: Value)
        ensures
            value_view(v) == ValueView::Text(self.spec_str()),
    {
        Value::Text(String::from_str(self.as_str()))
    }

    /// Parse a keyword.
    pub fn from_str(s: &str) -> (r: Result<FlexDirection, ()>)
        ensures
            r matches Ok(d) ==> FlexDirection::spec_parse(s@) == Some(d),
            r is Err ==> FlexDirection::spec_parse(s@) is None,
    {
        proof {
            reveal_strlit("row");
            assert("row"@ =~= seq!['r', 'o', 'w']);
            reveal_strlit("column");
            assert("column"@ =~= seq!['c', 'o', 'l', 'u', 'm', 'n']);
        }
        if str_eq(s, "row") {
            Ok(FlexDirection::Row)
        } else if str_eq(s, "column") {
            Ok(FlexDirection::Column)
        } else {
            Err(())
        }
    }

    /// Read a direction from a value holding its keyword.
    pub fn from_value(value: &Value) -> (r: Option<FlexDirection>)
        ensures
            r == (match spec_value_text(value_view(*value)) {
                Some(t) => FlexDirection::spec_parse(t),
                None => None,
            }),
    {
        match value_as_text(value) {
            Some(t) => match FlexDirection::from_str(t.as_str()) {
                Ok(d) => Some(d),
                Err(_) => None,
            },
            None => None,
        }
    }
}

impl Default for FlexDirection {
    fn default() -> (d: FlexDirection)
        ensures
            d == FlexDirection::Column,
    {
        FlexDirection::Column
    }
}

impl JustifyContent {
    /// The keyword of each placement.
    pub open spec fn spec_str(self) -> Seq<char> {
        match self {
            JustifyContent::Start => seq_start(),
            JustifyContent::Center => seq_center(),
            JustifyContent::End => seq_end(),
            JustifyContent::SpaceBetween => seq_space_between(),
            JustifyContent::SpaceAround => seq_space_around(),
        }
    }

    /// The placement a keyword names (the `flex-` forms are accepted too).
    pub open spec fn spec_parse(s: Seq<char>) -> Option<JustifyContent> {
        if s == seq_start() || s == seq_flex_start() {
            Some(JustifyContent::Start)
        } else if s == seq_center() {
            Some(JustifyContent::Center)
        } else if s == seq_end() || s == seq_flex_end() {
            Some(JustifyContent::End)
        } else if s == seq_space_between() {
            Some(JustifyContent::SpaceBetween)
        } else if s == seq_space_around() {
            Some(JustifyContent::SpaceAround)
        } else {
            None
        }
    }

    /// The keyword.
    pub fn as_str(self) -> (r: &'static str)
        ensures
            r@ == self.spec_str(),
    {
        proof {
            reveal_strlit("start");
            assert("start"@ =~= seq!['s', 't', 'a', 'r', 't']);
            reveal_strlit("center");
            assert("center"@ =~= seq!['c', 'e', 'n', 't', 'e', 'r']);
            reveal_strlit("end");
            assert("end"@ =~= seq!['e', 'n', 'd']);
            reveal_strlit("space-between");
            assert("space-between"@ =~= seq!['s', 'p', 'a', 'c', 'e', '-', 'b', 'e', 't', 'w', 'e', 'e', 'n']);
            reveal_strlit("space-around");
            assert("space-around"@ =~= seq!['s', 'p', 'a', 'c', 'e', '-', 'a', 'r', 'o', 'u', 'n', 'd']);
        }
        match self {
            JustifyContent::Start => "start",
            JustifyContent::Center => "center",
            JustifyContent::End => "end",
            JustifyContent::SpaceBetween => "space-between",
            JustifyContent::SpaceAround => "space-around",
        }
    }

    /// The keyword as a text value.
    pub fn to_value(self) -> (v: Value)
        ensures
            value_view(v) == ValueView::Text(self.spec_str()),
    {
        Value::Text(String::from_str(self.as_str()))
    }

    /// Parse a keyword.
    pub fn from_str(s: &str) -> (r: Result<JustifyContent, ()>)
        ensures
            r matches Ok(d) ==> JustifyContent::spec_parse(s@) == Some(d),
            r is Err ==> JustifyContent::spec_parse(s@) is None,
    {
        proof {
            reveal_strlit("start");
            assert("start"@ =~= seq!['s', 't', 'a', 'r', 't']);
            reveal_strlit("flex-start");
            assert("flex-start"@ =~= seq!['f', 'l', 'e', 'x', '-', 's', 't', 'a', 'r', 't']);
            reveal_strlit("center");
            assert("center"@ =~= seq!['c', 'e', 'n', 't', 'e', 'r']);
            reveal_strlit("end");
            assert("end"@ =~= seq!['e', 'n', 'd']);
            reveal_strlit("flex-end");
            assert("flex-end"@ =~= seq!['f', 'l', 'e', 'x', '-', 'e', 'n', 'd']);
            reveal_strlit("space-between");
            assert("space-between"@ =~= seq!['s', 'p', 'a', 'c', 'e', '-', 'b', 'e', 't', 'w', 'e', 'e', 'n']);
            reveal_strlit("space-around");
            assert("space-around"@ =~= seq!['s', 'p', 'a', 'c', 'e', '-', 'a', 'r', 'o', 'u', 'n', 'd']);
        }
        if str_eq(s, "start") || str_eq(s, "flex-start") {
            Ok(JustifyContent::Start)
        } else if str_eq(s, "center") {
            Ok(JustifyContent::Center)
        } else if str_eq(s, "end") || str_eq(s, "flex-end") {
            Ok(JustifyContent::End)
        } else if str_eq(s, "space-between") {
            Ok(JustifyContent::SpaceBetween)
        } else if str_eq(s, "space-around") {
            Ok(JustifyContent::SpaceAround)
        } else {
            Err(())
        }
    }

    /// Read a placement from a value holding its keyword.
    pub fn from_value(value: &Value) -> (r: Option<JustifyContent>)
        ensures
            r == (match spec_value_text(value_view(*value)) {
                Some(t) => JustifyContent::spec_parse(t),
                None => None,
            }),
    {
        match value_as_text(value) {
            Some(t) => match JustifyContent::from_str(t.as_str()) {
                Ok(d) => Some(d),
                Err(_) => None,
            },
            None => None,
        }
    }
}

impl Default for JustifyContent {
    fn default() -> (d: JustifyContent)
        ensures
            d == JustifyContent::Start,
    {
        JustifyContent::Start
    }
}

impl AlignItems {
    /// The keyword of each alignment.
    pub open spec fn spec_str(self) -> Seq<char> {
        match self {
            AlignItems::Start => seq_start(),
            AlignItems::Center => seq_center(),
            AlignItems::End => seq_end(),
            AlignItems::Stretch => seq_stretch(),
        }
    }

    /// The alignment a keyword names (the `flex-` forms are accepted too).
    pub open spec fn spec_parse(s: Seq<char>) -> Option<AlignItems> {
        if s == seq_start() || s == seq_flex_start() {
            Some(AlignItems::Start)
        } else if s == seq_center() {
            Some(AlignItems::Center)
        } else if s == seq_end() || s == seq_flex_end() {
            Some(AlignItems::End)
        } else if s == seq_stretch() {
            Some(AlignItems::Stretch)
        } else {
            None
        }
    }

    /// The keyword.
    pub fn as_str(self) -> (r: &'static str)
        ensures
            r@ == self.spec_str(),
    {
        proof {
            reveal_strlit("start");
            assert("start"@ =~= seq!['s', 't', 'a', 'r', 't']);
            reveal_strlit("center");
            assert("center"@ =~= seq!['c', 'e', 'n', 't', 'e', 'r']);
            reveal_strlit("end");
            assert("end"@ =~= seq!['e', 'n', 'd']);
            reveal_strlit("stretch");
            assert("stretch"@ =~= seq!['s', 't', 'r', 'e', 't', 'c', 'h']);
        }
        match self {
            AlignItems::Start => "start",
            AlignItems::Center => "center",
            AlignItems::End => "end",
            AlignItems::Stretch => "stretch",
        }
    }

    /// The keyword as a text value.
    pub fn to_value(self) -> (v: Value)
        ensures
            value_view(v) == ValueView::Text(self.spec_str()),
    {
        Value::Text(String::from_str(self.as_str()))
    }

    /// Parse a keyword.
    pub fn from_str(s: &str) -> (r: Result<AlignItems, ()>)
        ensures
            r matches Ok(d) ==> AlignItems::spec_parse(s@) == Some(d),
            r is Err ==> AlignItems::spec_parse(s@) is None,
    {
        proof {
            reveal_strlit("start");
            assert("start"@ =~= seq!['s', 't', 'a', 'r', 't']);
            reveal_strlit("flex-start");
            assert("flex-start"@ =~= seq!['f', 'l', 'e', 'x', '-', 's', 't', 'a', 'r', 't']);
            reveal_strlit("center");
            assert("center"@ =~= seq!['c', 'e', 'n', 't', 'e', 'r']);
            reveal_strlit("end");
            assert("end"@ =~= seq!['e', 'n', 'd']);
            reveal_strlit("flex-end");
            assert("flex-end"@ =~= seq!['f', 'l', 'e', 'x', '-', 'e', 'n', 'd']);
            reveal_strlit("stretch");
            assert("stretch"@ =~= seq!['s', 't', 'r', 'e', 't', 'c', 'h']);
        }
        if str_eq(s, "start") || str_eq(s, "flex-start") {
            Ok(AlignItems::Start)
        } else if str_eq(s, "center") {
            Ok(AlignItems::Center)
        } else if str_eq(s, "end") || str_eq(s, "flex-end") {
            Ok(AlignItems::End)
        } else if str_eq(s, "stretch") {
            Ok(AlignItems::Stretch)
        } else {
            Err(())
        }
    }

    /// Read an alignment from a value holding its keyword.
    pub fn from_value(value: &Value) -> (r: Option<AlignItems>)
        ensures
            r == (match spec_value_text(value_view(*value)) {
                Some(t) => AlignItems::spec_parse(t),
                None => None,
            }),
    {
        match value_as_text(value) {
            Some(t) => match AlignItems::from_str(t.as_str()) {
                Ok(d) => Some(d),
                Err(_) => None,
            },
            None => None,
        }
    }
}

impl Default for AlignItems {
    fn default() -> (d: AlignItems)
        ensures
            d == AlignItems::Stretch,
    {
        AlignItems::Stretch
    }
}

/// Every direction reads back from its own keyword.
pub proof fn lemma_flex_direction_round_trips(d: FlexDirection)
    ensures
        FlexDirection::spec_parse(d.spec_str()) == Some(d),
{
    assert(seq_row() != seq_column()) by {
        assert(seq_row().len() != seq_column().len());
    }
}

/// Every placement reads back from its own keyword.
pub proof fn lemma_justify_content_round_trips(j: JustifyContent)
    ensures
        JustifyContent::spec_parse(j.spec_str()) == Some(j),
{
    assert(seq_start() != seq_flex_start() && seq_start() != seq_center() && seq_start() != seq_end()
        && seq_start() != seq_space_between() && seq_start() != seq_space_around()) by {
        assert(seq_start()[1] != seq_space_between()[1]);
        assert(seq_start()[1] != seq_space_around()[1]);
    }
    assert(seq_center() != seq_start() && seq_center() != seq_flex_start() && seq_center()
        != seq_end() && seq_center() != seq_flex_end() && seq_center() != seq_space_between()
        && seq_center() != seq_space_around()) by {
        assert(seq_center().len() != seq_flex_start().len());
    }
    assert(seq_end() != seq_start() && seq_end() != seq_flex_start() && seq_end() != seq_center()
        && seq_end() != seq_flex_end() && seq_end() != seq_space_between() && seq_end()
        != seq_space_around()) by {
        assert(seq_end().len() != seq_flex_end().len());
    }
    assert(seq_space_between() != seq_start() && seq_space_between() != seq_flex_start()
        && seq_space_between() != seq_center() && seq_space_between() != seq_end()
        && seq_space_between() != seq_flex_end() && seq_space_between() != seq_space_around()) by {
        assert(seq_space_between().len() != seq_space_around().len());
    }
    assert(seq_space_around() != seq_start() && seq_space_around() != seq_flex_start()
        && seq_space_around() != seq_center() && seq_space_around() != seq_end()
        && seq_space_around() != seq_flex_end() && seq_space_around() != seq_space_between()) by {
        assert(seq_space_between().len() != seq_space_around().len());
    }
}

/// Every alignment reads back from its own keyword.
pub proof fn lemma_align_items_round_trips(a: AlignItems)
    ensures
        AlignItems::spec_parse(a.spec_str()) == Some(a),
{
    assert(seq_center() != seq_start() && seq_center() != seq_flex_start() && seq_center()
        != seq_end() && seq_center() != seq_flex_end()) by {
        assert(seq_center().len() != seq_flex_start().len());
        assert(seq_center().len() != seq_flex_end().len());
    }
    assert(seq_end() != seq_start() && seq_end() != seq_flex_start()) by {
        assert(seq_end().len() != seq_flex_start().len());
    }
    assert(seq_stretch() != seq_start() && seq_stretch() != seq_flex_start() && seq_stretch()
        != seq_center() && seq_stretch() != seq_end() && seq_stretch() != seq_flex_end()) by {
        assert(seq_stretch().len() != seq_flex_start().len());
        assert(seq_stretch()[1] != seq_center()[1]);
    }
}

} // verus!
