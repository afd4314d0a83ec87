use thingos::abi::Value;
use thingos::flex::{AlignItems, FlexDirection, JustifyContent};
use thingos::interactions::InteractionKind;
use thingos::questions::{AnswerKind, AnswerValue};
use thingos::telemetry::BundleType;
use thingos::verb::Verb;

#[test]
fn interaction_kind_round_trips() {
    for (kind, text) in [
        (InteractionKind::Inspect, "inspect"),
        (InteractionKind::Select, "select"),
        (InteractionKind::DecideBool, "decide_bool"),
        (InteractionKind::DecideOneOf, "decide_one_of"),
        (InteractionKind::AdjustNumber, "adjust_number"),
        (InteractionKind::AdjustText, "adjust_text"),
        (InteractionKind::Act, "act"),
        (InteractionKind::Navigate, "navigate"),
        (InteractionKind::Arrange, "arrange"),
        (InteractionKind::Annotate, "annotate"),
    ] {
        assert_eq!(
            InteractionKind::from_value(&Value::Text(text.to_string())),
            Some(kind)
        );
        assert!(kind.to_value().same_as(&Value::Text(text.to_string())));
    }
}

#[test]
fn answer_kind_round_trips() {
    for (kind, text) in [
        (AnswerKind::YesNo, "yes_no"),
        (AnswerKind::OneOf, "one_of"),
        (AnswerKind::Text, "text"),
        (AnswerKind::Number, "number"),
    ] {
        assert_eq!(
            AnswerKind::from_value(&Value::Text(text.to_string())),
            Some(kind)
        );
        assert!(kind.to_value().same_as(&Value::Text(text.to_string())));
    }
}

#[test]
fn answer_value_kinds() {
    assert_eq!(AnswerValue::Bool(true).kind(), AnswerKind::YesNo);
    assert_eq!(AnswerValue::Text("x".to_string()).kind(), AnswerKind::Text);
    assert_eq!(AnswerValue::Number(-3).kind(), AnswerKind::Number);
}

#[test]
fn interaction_kind_rejects_other_values() {
    assert_eq!(InteractionKind::from_value(&Value::Text("poke".to_string())), None);
    assert_eq!(InteractionKind::from_value(&Value::U64(1)), None);
    assert_eq!(AnswerKind::from_value(&Value::Bool(true)), None);
}

#[test]
fn flex_keywords_round_trip() {
    for d in [FlexDirection::Row, FlexDirection::Column] {
        assert_eq!(FlexDirection::from_value(&d.to_value()), Some(d));
    }
    for j in [
        JustifyContent::Start,
        JustifyContent::Center,
        JustifyContent::End,
        JustifyContent::SpaceBetween,
        JustifyContent::SpaceAround,
    ] {
        assert_eq!(JustifyContent::from_value(&j.to_value()), Some(j));
    }
    for a in [AlignItems::Start, AlignItems::Center, AlignItems::End, AlignItems::Stretch] {
        assert_eq!(AlignItems::from_value(&a.to_value()), Some(a));
    }
}

#[test]
fn flex_keywords_accept_aliases_and_bytes() {
    assert_eq!(JustifyContent::from_str("flex-start"), Ok(JustifyContent::Start));
    assert_eq!(AlignItems::from_str("flex-end"), Ok(AlignItems::End));
    assert_eq!(FlexDirection::from_str("diagonal"), Err(()));
    assert_eq!(
        FlexDirection::from_value(&Value::Bytes(b"row".to_vec())),
        Some(FlexDirection::Row)
    );
    assert_eq!(FlexDirection::from_value(&Value::Bytes(vec![0xff, 0xfe])), None);
    assert_eq!(JustifyContent::SpaceBetween.as_str(), "space-between");
    assert_eq!(FlexDirection::default(), FlexDirection::Column);
    assert_eq!(JustifyContent::default(), JustifyContent::Start);
    assert_eq!(AlignItems::default(), AlignItems::Stretch);
}

#[test]
fn verbs_inflect_regularly() {
    assert_eq!(Verb::conjugate("eat"), "eats");
    assert_eq!(Verb::conjugate("watch"), "watches");
    assert_eq!(Verb::conjugate("fix"), "fixes");
    assert_eq!(Verb::conjugate("wish"), "wishes");
    assert_eq!(Verb::past_participle("bake"), "baked");
    assert_eq!(Verb::past_participle("eat"), "eated");
    let v = Verb::from_regular("link");
    assert_eq!(v.base(), "link");
    assert_eq!(v.active_template, "{} links {}");
    assert_eq!(v.passive_template, "{} is linked by {}");
    assert_eq!(v.subject_role, "subject");
    assert_eq!(v.object_role, "object");
    assert_eq!(v.conjugated(), "links");
    assert_eq!(v.past_participle_form(), "linked");
}

#[test]
fn bundle_types_from_names() {
    assert_eq!(BundleType::from_name("ps2_driver"), BundleType::Driver);
    assert_eq!(BundleType::from_name("driver"), BundleType::Driver);
    assert_eq!(BundleType::from_name("netdriver"), BundleType::Driver);
    assert_eq!(BundleType::from_name("window_compositor"), BundleType::Compositor);
    assert_eq!(BundleType::from_name("compositor"), BundleType::Compositor);
    assert_eq!(BundleType::from_name("editor"), BundleType::App);
    assert_eq!(BundleType::from_name("drivers"), BundleType::App);
    assert_eq!(BundleType::Driver.to_symbol().raw(), 0x445200);
    assert_eq!(BundleType::App.to_symbol().raw(), 0x415050);
    assert_eq!(BundleType::Compositor.to_symbol().raw(), 0x434d50);
}
