use thingos::abi::{SymbolMap, Value};
use thingos::canon::{Symbol, CONTROLS, DESCRIPTION, DEVICE, KIND, LABEL, NAME, TARGET, TEXT};
use thingos::fs::{thing_to_fs_node, FsKind, AUTOSTART, BIN_NAME, BUNDLE_ID, DIRECTORY, FILE, PARENT};
use thingos::interactions::{
    question_interaction_kind, InteractionBinding, InteractionKind, InteractionStep, INTERACTION, INTERACTION_KIND,
    RESULT_WRITES, USES_WIDGET,
};
use thingos::kernel_runtime::{
    fiat_labels, fiat_response, find_cursor, grant_response, props_get_response, props_set_response,
    watch_register_response, FindGather, SYSCALL_FAILED,
};
use thingos::layout::{question_widget, tagged_questions_pattern, ANSWER_KIND, BINDS, QUESTION, TAG, WIDGET_KIND_FIELD};
use thingos::questions::AnswerKind;
use thingos::records::{AbiResponse, GraphThing};
use thingos::symset::SymbolSet;
use thingos::trace::{TraceBuffer, TraceKind};
use thingos::userland::simple_uuid;

fn thing(id: u128, kind: u32, fields: SymbolMap) -> GraphThing {
    GraphThing { id, kind: Symbol(kind), labels: SymbolSet::new(), fields, owner: 9, revision: 1 }
}

#[test]
fn fs_nodes_read_their_fields() {
    let mut f = SymbolMap::new();
    f.insert(Symbol(NAME), Value::text("bin"));
    f.insert(Symbol(KIND), Value::Symbol(Symbol(DIRECTORY)));
    let n = thing_to_fs_node(&thing(1, 0, f)).unwrap();
    assert_eq!(n.name, "bin");
    assert_eq!(n.kind, FsKind::Dir);
    assert_eq!(n.owner_bundle, Some(9));
    assert!(!n.autostart);

    let mut f = SymbolMap::new();
    f.insert(Symbol(KIND), Value::Symbol(Symbol(FILE)));
    f.insert(Symbol(BIN_NAME), Value::Bytes(b"shell".to_vec()));
    f.insert(Symbol(AUTOSTART), Value::Bool(true));
    f.insert(Symbol(BUNDLE_ID), Value::Uuid(77));
    f.insert(Symbol(PARENT), Value::Uuid(1));
    let n = thing_to_fs_node(&thing(2, 0, f)).unwrap();
    assert_eq!(n.name, "unknown");
    assert_eq!(n.kind, FsKind::File);
    assert_eq!(n.bin_name, Some("shell".to_string()));
    assert!(n.autostart);
    assert_eq!(n.bundle_id, Some(77));

    let mut f = SymbolMap::new();
    f.insert(Symbol(KIND), Value::Symbol(Symbol(DEVICE)));
    assert_eq!(thing_to_fs_node(&thing(3, 0, f)).unwrap().kind, FsKind::CharDevice);
    assert_eq!(thing_to_fs_node(&thing(4, 0, SymbolMap::new())).unwrap().kind, FsKind::Unknown);
}

#[test]
fn interaction_props_steps_and_load() {
    let m = InteractionBinding::props(InteractionKind::DecideBool, 5, Some("Label"), Some("d"));
    assert_eq!(m.len(), 4);
    assert!(m.get(&Symbol(INTERACTION_KIND)).unwrap().same_as(&Value::text("decide_bool")));
    assert!(m.get(&Symbol(TARGET)).unwrap().same_as(&Value::Uuid(5)));
    assert!(m.get(&Symbol(LABEL)).unwrap().same_as(&Value::text("Label")));
    assert!(m.get(&Symbol(DESCRIPTION)).unwrap().same_as(&Value::text("d")));
    assert_eq!(InteractionBinding::props(InteractionKind::Act, 5, None, None).len(), 2);

    let steps = InteractionBinding::steps(1, 5, Some(6), Some(7));
    assert_eq!(steps.len(), 6);
    assert!(matches!(steps[0], InteractionStep::Link(1, t, 5) if t == TARGET));
    assert!(matches!(&steps[1], InteractionStep::SetProps(p) if p.contains_key(&Symbol(RESULT_WRITES))));
    assert!(matches!(steps[2], InteractionStep::Link(1, r, 6) if r == RESULT_WRITES));
    assert!(matches!(&steps[3], InteractionStep::SetProps(p) if p.contains_key(&Symbol(USES_WIDGET))));
    assert!(matches!(steps[4], InteractionStep::Link(1, u, 7) if u == USES_WIDGET));
    assert!(matches!(steps[5], InteractionStep::Link(7, c, 1) if c == CONTROLS));
    assert_eq!(InteractionBinding::steps(1, 5, None, None).len(), 1);

    let mut f = InteractionBinding::props(question_interaction_kind(AnswerKind::YesNo), 5, Some("Label"), None);
    f.insert(Symbol(RESULT_WRITES), Value::Uuid(6));
    let t = thing(1, INTERACTION, f);
    let b = InteractionBinding::load(&t, Some(7)).unwrap();
    assert_eq!(b.kind, InteractionKind::DecideBool);
    assert_eq!(b.target, 5);
    assert_eq!(b.result, Some(6));
    assert_eq!(b.widget, Some(7));
    assert!(InteractionBinding::load(&thing(1, 0, SymbolMap::new()), None).is_none());
    assert_eq!(question_interaction_kind(AnswerKind::Number), InteractionKind::AdjustNumber);
}

#[test]
fn kernel_runtime_answers() {
    assert_eq!(fiat_labels(Symbol(3), vec![]), vec![Symbol(3)]);
    assert_eq!(fiat_labels(Symbol(3), vec![Symbol(4)]), vec![Symbol(4)]);
    match fiat_response(None, 8, Symbol(3), &vec![Symbol(3)], SymbolMap::new(), 12) {
        AbiResponse::Fiat { thing } => {
            assert_eq!(thing.id, 8);
            assert_eq!(thing.revision, 12);
            assert_eq!(thing.owner, 0);
            assert!(thing.labels.contains(&Symbol(3)));
        }
        other => panic!("unexpected {:?}", other),
    }
    assert!(matches!(watch_register_response(SYSCALL_FAILED), AbiResponse::Error { .. }));
    assert!(matches!(watch_register_response(4), AbiResponse::WatchRegistered { watch_id: 4 }));
    assert!(matches!(props_get_response(SYSCALL_FAILED, None), AbiResponse::Error { .. }));
    match props_get_response(0, None) {
        AbiResponse::Props { props } => assert_eq!(props.len(), 0),
        other => panic!("unexpected {:?}", other),
    }
    assert!(matches!(props_set_response(1, SymbolMap::new()), AbiResponse::Error { .. }));
    assert!(matches!(props_set_response(0, SymbolMap::new()), AbiResponse::Props { .. }));
    assert!(matches!(grant_response(0), AbiResponse::CapabilityGranted { granted: true }));
    assert!(matches!(grant_response(2), AbiResponse::CapabilityGranted { granted: false }));
    assert_eq!(find_cursor(0), None);
    assert_eq!(find_cursor(100), Some(100));
}

#[test]
fn trace_ring_lists_oldest_first() {
    let mut t = TraceBuffer::new();
    assert!(t.in_order().is_empty());
    t.record(TraceKind::Timer, 1, 10, 100);
    t.record(TraceKind::PageFault, 2, 20, 200);
    let v = t.in_order();
    assert_eq!(v.len(), 2);
    assert_eq!(v[0].timestamp, 100);
    assert_eq!(v[0].kind, 5);
    assert_eq!(v[1].kind, 3);
    for i in 0..300u64 {
        t.record(TraceKind::SwitchTo, 0, i, 1000 + i);
    }
    let v = t.in_order();
    assert_eq!(v.len(), 256);
    assert_eq!(v[0].timestamp, 1000 + 44);
    assert_eq!(v[255].timestamp, 1000 + 299);
}

#[test]
fn question_widgets_are_seeded_from_uuid_text() {
    let window: u128 = 0x0123_4567_89ab_cdef_0011_2233_4455_6677;
    let mut f = SymbolMap::new();
    f.insert(Symbol(NAME), Value::text("Ready?"));
    f.insert(Symbol(ANSWER_KIND), Value::text("yes_no"));
    let q = thing(0xfeed, QUESTION, f);
    let (id, props) = question_widget(window, 3, &q, 4);
    let seed = format!("{}-{}-qwidget", uuid::Uuid::from_u128(window), uuid::Uuid::from_u128(0xfeed));
    assert_eq!(seed, "01234567-89ab-cdef-0011-223344556677-00000000-0000-0000-0000-00000000feed-qwidget");
    assert_eq!(id, simple_uuid(seed.as_bytes()));
    assert!(props.get(&Symbol(WIDGET_KIND_FIELD)).unwrap().same_as(&Value::text("checkbox")));
    assert!(props.get(&Symbol(TEXT)).unwrap().same_as(&Value::text("Ready?")));
    assert!(props.get(&Symbol(BINDS)).unwrap().same_as(&Value::Uuid(0xfeed)));
    let p = tagged_questions_pattern("setup");
    assert_eq!(p.labels, vec![Symbol(QUESTION)]);
    assert!(p.props.get(&Symbol(TAG)).unwrap().same_as(&Value::text("setup")));
}

#[test]
fn find_gather_collects_pages_until_no_cursor() {
    let mut g = FindGather::new(Some(4));
    assert_eq!(g.next, 4);
    assert!(g.take_page(vec![thing(1, 7, SymbolMap::new()), thing(2, 7, SymbolMap::new())], 6));
    assert_eq!(g.next, 6);
    assert!(!g.take_page(vec![thing(3, 7, SymbolMap::new())], 0));
    match g.finish() {
        AbiResponse::Find { things, next_cursor } => {
            let ids: Vec<u128> = things.iter().map(|t| t.id).collect();
            assert_eq!(ids, vec![1, 2, 3]);
            assert_eq!(next_cursor, None);
        }
        other => panic!("unexpected {:?}", other),
    }
    let stopped = FindGather::new(None);
    match stopped.finish() {
        AbiResponse::Find { things, next_cursor } => {
            assert!(things.is_empty());
            assert_eq!(next_cursor, None);
        }
        other => panic!("unexpected {:?}", other),
    }
}

fn bin_node(id: u128, name: &str, show: bool) -> thingos::fs::FsNode {
    thingos::fs::FsNode {
        id,
        name: name.to_string(),
        kind: thingos::fs::FsKind::File,
        mode: None,
        owner_bundle: None,
        bundle_id: None,
        bin_name: None,
        autostart: false,
        show_in_launcher: show,
        device_driver: None,
        device_id: None,
    }
}

#[test]
fn launcher_entries_cover_programs_shown_in_launcher() {
    let nodes = vec![bin_node(1, "edit", true), bin_node(2, "daemon", false), bin_node(3, "paint", true)];
    let entries = thingos::launcher::launcher_entries(&nodes);
    assert_eq!(entries.len(), 2);
    assert_eq!(entries[0].launches, 1);
    assert_eq!(entries[1].launches, 3);
    assert_eq!(entries[0].id, thingos::userland::simple_uuid(b"launcher_entry_edit"));
    assert!(entries[1].fields.get(&thingos::canon::Symbol(0x4c424c)).unwrap().same_as(&thingos::abi::Value::text("paint")));
    assert_eq!(thingos::launcher::surface_id(), thingos::userland::simple_uuid(b"launcher_surface"));
}
