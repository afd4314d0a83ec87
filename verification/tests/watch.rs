use thingos::abi::SymbolMap;
use thingos::canon::Symbol;
use thingos::records::{GraphChange, GraphEdge, GraphThing};
use thingos::symset::SymbolSet;
use thingos::userland::WatchId;
use thingos::watch::{AppEvent, EventFilter, ThingFilter, WatchManager};

fn thing(id: u128) -> GraphThing {
    GraphThing { id, kind: Symbol(1), labels: SymbolSet::new(), fields: SymbolMap::new(), owner: 0, revision: 1 }
}

#[test]
fn apps_get_ids_and_empty_inboxes() {
    let mut m = WatchManager::new();
    assert_eq!(m.register_app(), 0);
    assert_eq!(m.register_app(), 1);
    assert!(m.drain_inbox(0).is_empty());
    assert!(m.drain_inbox(7).is_empty());
}

#[test]
fn watches_are_numbered_and_filed_when_the_kernel_agrees() {
    let mut m = WatchManager::new();
    let app = m.register_app();
    assert_eq!(m.register_pattern(app, Some(40)), WatchId(0));
    assert_eq!(m.register_pattern(app, None), WatchId(1));
    assert_eq!(m.register_pattern(app, Some(41)), WatchId(2));
    assert_eq!(m.watches_of(app), vec![(WatchId(0), 40), (WatchId(2), 41)]);
    assert!(m.watches_of(5).is_empty());
}

#[test]
fn delivered_changes_drain_in_order() {
    let mut m = WatchManager::new();
    let app = m.register_app();
    let edge = GraphEdge { id: 9, src: 1, pred: "HAS".to_string(), dst: 2, props: SymbolMap::new(), owner: 0, revision: 3 };
    m.deliver(app, WatchId(4), vec![GraphChange::Thing(thing(5)), GraphChange::Edge(edge)]);
    m.push_event(app, AppEvent::Thing { watch: WatchId(6), thing: thing(8) });
    let events = m.drain_inbox(app);
    assert_eq!(events.len(), 3);
    assert!(matches!(&events[0], AppEvent::Thing { watch: WatchId(4), thing } if thing.id == 5));
    assert!(matches!(&events[1], AppEvent::Edge { watch: WatchId(4), edge } if edge.id == 9));
    assert!(matches!(&events[2], AppEvent::Thing { watch: WatchId(6), thing } if thing.id == 8));
    assert!(m.drain_inbox(app).is_empty());
}

#[test]
fn filters_become_patterns() {
    let p = ThingFilter { kind: Some(Symbol(7)), id: Some(9) }.pattern();
    assert_eq!(p.labels, vec![Symbol(7)]);
    assert_eq!(p.props.len(), 1);
    let f = EventFilter { kind: Some(Symbol(3)), src: Some(1), dst: None }.thing_filter();
    assert_eq!(f.kind, Some(Symbol(3)));
    assert_eq!(f.id, None);
}
