use thingos::abi::{SymbolMap, Value};
use thingos::canon::{Symbol, KEYBOARD};
use thingos::facts::Fact;
use thingos::journal::{dump_pretty, event_line, Event, Journal, JOURNAL_CAPACITY};
use thingos::questions::{
    answer_props, form_fields, question_fields, question_ids, AnswerKind, AnswerValue, QuestionBinding, ANSWER,
    VALUE_BOOL, VALUE_NUMBER, VALUE_TEXT,
};
use thingos::records::GraphThing;
use thingos::symset::SymbolSet;
use thingos::symtext::{symbol_display, symbol_string};
use thingos::userland::{default_stream_target, device_kind_for, driver_id, register_builtin_drivers, DriverDescriptor, DriverKind};
use thingos::driver_runtime::DeviceKind;

fn answer(fields: SymbolMap) -> GraphThing {
    GraphThing { id: 1, kind: Symbol(ANSWER), labels: SymbolSet::new(), fields, owner: 0, revision: 1 }
}

#[test]
fn values_render_as_text() {
    assert_eq!(Value::Null.to_text(false), "null");
    assert_eq!(Value::Bool(true).to_text(false), "true");
    assert_eq!(Value::U64(1234567890).to_text(false), "1234567890");
    assert_eq!(Value::I64(-42).to_text(false), "-42");
    assert_eq!(Value::I64(i64::MIN).to_text(false), i64::MIN.to_string());
    assert_eq!(Value::Bytes(vec![1, 2, 3]).to_text(false), "bytes(3)");
    assert_eq!(Value::Blob(vec![]).to_text(false), "blob(0)");
    assert_eq!(Value::text("hi").to_text(false), "\"hi\"");
    assert_eq!(Value::Uuid(0xfeed).to_text(false), "00000000-0000-0000-0000-00000000feed");
    assert_eq!(Value::Symbol(Symbol(KEYBOARD)).to_text(false), KEYBOARD.to_string());
    let mut m = SymbolMap::new();
    m.insert(Symbol(30), Value::U64(3));
    m.insert(Symbol(10), Value::List(vec![Value::Bool(false), Value::Null]));
    m.insert(Symbol(20), Value::text("x"));
    assert_eq!(Value::Dict(m).to_text(false), "{10: [false, null], 20: \"x\", 30: 3}");
    assert_eq!(Value::List(vec![]).to_text(false), "[]");
    assert_eq!(Value::Dict(SymbolMap::new()).to_text(true), "{}");
}

#[test]
fn symbols_render_by_name_or_hex() {
    assert_eq!(symbol_string(Symbol(0x4b4200)), "KB");
    assert_eq!(symbol_string(Symbol(0x414243)), "ABC");
    assert_eq!(symbol_string(Symbol(0xff)), "ff");
    assert_eq!(symbol_display(Symbol(KEYBOARD)), "keyboard");
    assert_eq!(symbol_display(Symbol(0x12)), "0x000012");
    assert_eq!(symbol_display(Symbol(0x1234567)), "0x1234567");
}

#[test]
fn journal_keeps_the_latest_events() {
    let mut j = Journal::new(2);
    j.emit(Event::with_timestamp(1, Symbol(KEYBOARD), Value::U64(1)));
    j.emit(Event::with_timestamp(2, Symbol(KEYBOARD), Value::U64(2)));
    j.emit(Event::with_timestamp(3, Symbol(0x12), Value::Null));
    let s = j.snapshot();
    assert_eq!(s.len(), 2);
    assert_eq!(s[0].timestamp, 2);
    assert_eq!(s[1].timestamp, 3);
    assert_eq!(event_line(&s[0]), "@2 keyboard 2");
    let lines = dump_pretty(&j);
    assert_eq!(lines, vec!["@2 keyboard 2".to_string(), "@3 0x000012 null".to_string()]);
    j.init();
    assert!(j.snapshot().is_empty());
    assert_eq!(JOURNAL_CAPACITY, 1024);
}

#[test]
fn facts_match_regardless_of_time() {
    let a = Fact::new(1, 2, 3, false);
    let mut b = Fact::new(1, 2, 3, false);
    b.timestamp = 99;
    assert!(a.matches(&b));
    let r = Fact::retract(1, 2, 3);
    assert!(r.negated);
    assert!(!a.matches(&r));
    assert!(r.matches(&Fact::new(1, 2, 3, true)));
}

#[test]
fn answers_read_back_what_was_stored() {
    let b = QuestionBinding { question: 5, answer: 6, kind: AnswerKind::YesNo };
    let req = b.answer_request(&AnswerValue::Bool(true));
    assert_eq!(req.node, 6);
    let t = answer(req.props);
    assert!(matches!(QuestionBinding::read_answer(&t), Some(AnswerValue::Bool(true))));
    let t = answer(answer_props(&AnswerValue::Text("yes".to_string())));
    assert!(matches!(QuestionBinding::read_answer(&t), Some(AnswerValue::Text(ref s)) if s == "yes"));
    let t = answer(answer_props(&AnswerValue::Number(-7)));
    assert!(matches!(QuestionBinding::read_answer(&t), Some(AnswerValue::Number(-7))));
    // a yes/no value wins over the others
    let mut f = SymbolMap::new();
    f.insert(Symbol(VALUE_NUMBER), Value::I64(1));
    f.insert(Symbol(VALUE_TEXT), Value::Bytes(b"t".to_vec()));
    f.insert(Symbol(VALUE_BOOL), Value::Bool(false));
    assert!(matches!(QuestionBinding::read_answer(&answer(f)), Some(AnswerValue::Bool(false))));
    // only answer Things hold answers
    let mut other = answer(answer_props(&AnswerValue::Number(1)));
    other.kind = Symbol(0x1);
    assert!(QuestionBinding::read_answer(&other).is_none());
    assert!(QuestionBinding::read_answer(&answer(SymbolMap::new())).is_none());
}

#[test]
fn question_ids_and_fields() {
    let (q, a) = question_ids(None, None, "Enable telemetry?");
    assert_eq!(q, uuid::Uuid::new_v5(&uuid::Uuid::NAMESPACE_OID, b"Enable telemetry?").as_u128());
    assert_eq!(a, uuid::Uuid::new_v5(&uuid::Uuid::NAMESPACE_OID, b"Enable telemetry?::answer").as_u128());
    assert_eq!(question_ids(Some(1), Some(2), "x"), (1, 2));
    let f = question_fields("Q", Some("d"), AnswerKind::OneOf);
    assert_eq!(f.len(), 3);
    assert_eq!(form_fields("Settings").len(), 1);
}

#[test]
fn builtin_drivers_map_to_devices_and_streams() {
    let kb = DriverDescriptor { name: "ps2-keyboard", kind: DriverKind::Input, description: "keys" };
    let fb = DriverDescriptor { name: "limine-framebuffer", kind: DriverKind::Display, description: "fb" };
    let other = DriverDescriptor { name: "rtc", kind: DriverKind::Timer, description: "clock" };
    assert_eq!(device_kind_for(&kb), Some(DeviceKind::Keyboard));
    assert_eq!(device_kind_for(&fb), Some(DeviceKind::Framebuffer));
    assert_eq!(device_kind_for(&other), None);
    assert_eq!(default_stream_target(&kb, 10, 20), Some((10, 0)));
    assert_eq!(default_stream_target(&fb, 10, 20), Some((20, 0)));
    assert_eq!(default_stream_target(&other, 10, 20), None);
}

#[test]
fn driver_ids_are_name_based_v5_uuids() {
    let id = driver_id("ps2-keyboard");
    let expected = uuid::Uuid::new_v5(&uuid::Uuid::NAMESPACE_OID, b"ps2-keyboard").as_u128();
    assert_eq!(id, expected);
    assert_eq!(uuid::Uuid::from_u128(id).get_version_num(), 5);
    let things = register_builtin_drivers();
    assert_eq!(things.len(), 3);
    assert_eq!(things[0].id, expected);
    assert_eq!(things[0].kind, Symbol(thingos::canon::DRIVER));
    assert_eq!(things[2].fields.get(&Symbol(thingos::canon::NAME)).and_then(|v| v.as_text()), Some("limine-framebuffer"));
}

#[test]
fn import_appends_only_while_room_remains() {
    let ev = |t: u64| Event::with_timestamp(t, thingos::canon::Symbol(1), thingos::abi::Value::U64(t));
    let mut j = Journal::new(3);
    j.emit(ev(1));
    j.import(vec![ev(2), ev(3), ev(4)]);
    let times: Vec<u64> = j.snapshot().iter().map(|e| e.timestamp).collect();
    assert_eq!(times, vec![1, 2, 3]);
    j.import(vec![ev(5)]);
    let times: Vec<u64> = j.snapshot().iter().map(|e| e.timestamp).collect();
    assert_eq!(times, vec![1, 2, 3]);
}
