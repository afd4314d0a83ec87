//! The userland watch manager: which graph watches each app holds, and the
//! inbox of events waiting for each app. Polling the kernel is the caller's
//! part; this decides ids and where each change goes.

use vstd::prelude::*;
use crate::abi::Value;
use crate::alist::{alist_find, alist_get, alist_put, lemma_alist_at};
use crate::canon::{Symbol, SRC};
use crate::records::{ChangeView, EdgeView, GraphChange, GraphEdge, GraphThing, NodePattern, PatternView, ThingView};
use crate::userland::WatchId;

verus! {

/// Events a journal watch asks for.
#[derive(Debug)]
pub struct EventFilter {
    pub kind: Option<Symbol>,
    pub src: Option<u128>,
    pub dst: Option<u128>,
}

/// Things a graph watch asks for.
#[derive(Debug)]
pub struct ThingFilter {
    pub kind: Option<Symbol>,
    pub id: Option<u128>,
}

/// The pattern a Thing filter stands for: the kind as its label, the id as
/// the source of an edge.
pub open spec fn spec_filter_pattern(f: ThingFilter) -> PatternView {
    PatternView {
        labels: match f.kind {
            Some(k) => seq![k.0],
            None => Seq::empty(),
        },
        props: match f.id {
            Some(i) => map![SRC => crate::abi::ValueView::Uuid(i)],
            None => Map::empty(),
        },
    }
}

impl ThingFilter {
    /// The pattern to watch for this filter.
    pub fn pattern(&self) -> (p: NodePattern)
        ensures
            p@ == spec_filter_pattern(*self),
    {
        let mut p = NodePattern::new();
        match self.kind {
            Some(k) => {
                p.labels.push(k);
            },
            None => {},
        }
        match self.id {
            Some(i) => {
                p.props.insert(Symbol(SRC), Value::Uuid(i));
            },
            None => {},
        }
        proof {
            assert(p@.labels =~= spec_filter_pattern(*self).labels);
            assert(p@.props =~= spec_filter_pattern(*self).props);
        }
        p
    }
}

impl EventFilter {
    /// A journal watch is a graph watch on the event kind.
    pub fn thing_filter(&self) -> (f: ThingFilter)
        ensures
            f.kind == self.kind,
            f.id is None,
    {
        ThingFilter { kind: self.kind, id: None }
    }
}

/// What an app event denotes.
pub enum AppEventView {
    Thing { watch: u32, thing: ThingView },
    Edge { watch: u32, edge: EdgeView },
}

/// A change delivered to an app through one of its watches.
#[derive(Debug)]
pub enum AppEvent {
    Thing { watch: WatchId, thing: GraphThing },
    Edge { watch: WatchId, edge: GraphEdge },
}

impl View for AppEvent {
    type V = AppEventView;

    open spec fn view(&self) -> AppEventView {
        match self {
            AppEvent::Thing { watch, thing } => AppEventView::Thing { watch: watch.0, thing: thing@ },
            AppEvent::Edge { watch, edge } => AppEventView::Edge { watch: watch.0, edge: edge@ },
        }
    }
}

/// The views of a sequence of app events.
pub open spec fn events_view(s: Seq<AppEvent>) -> Seq<AppEventView> {
    s.map_values(|e: AppEvent| e@)
}

/// The event a change becomes for a watch.
pub open spec fn change_event(watch: u32, c: ChangeView) -> AppEventView {
    match c {
        ChangeView::Thing(t) => AppEventView::Thing { watch, thing: t },
        ChangeView::Edge(e) => AppEventView::Edge { watch, edge: e },
    }
}

/// The events a sequence of changes becomes for a watch.
pub open spec fn change_events(watch: u32, cs: Seq<ChangeView>) -> Seq<AppEventView> {
    cs.map_values(|c: ChangeView| change_event(watch, c))
}

/// What the manager holds: the next app and watch ids, each app's watches
/// (watch id and kernel watch handle), and each app's inbox.
pub struct ManagerView {
    pub next_app: usize,
    pub next_watch: u32,
    pub watches: Seq<(u64, Seq<(u32, u64)>)>,
    pub inboxes: Seq<(u64, Seq<AppEventView>)>,
}

/// What a key holds, or nothing.
pub open spec fn get_or_empty<T>(s: Seq<(u64, Seq<T>)>, k: u64) -> Seq<T> {
    match alist_get(s, k) {
        Some(v) => v,
        None => Seq::empty(),
    }
}

/// An inbox list with an (empty) inbox for `k` when it had none.
pub open spec fn with_inbox(s: Seq<(u64, Seq<AppEventView>)>, k: u64) -> Seq<(u64, Seq<AppEventView>)> {
    if alist_get(s, k) is Some {
        s
    } else {
        s.push((k, Seq::empty()))
    }
}

/// `n + 1` for a `usize`, wrapping.
pub open spec fn wrap_inc_usize(n: usize) -> usize {
    if n == usize::MAX {
        0
    } else {
        (n + 1) as usize
    }
}

/// `n + 1` for a `u32`, wrapping.
pub open spec fn wrap_inc_u32(n: u32) -> u32 {
    if n == u32::MAX {
        0
    } else {
        (n + 1) as u32
    }
}

/// Routes graph changes to per-app inboxes.
pub struct WatchManager {
    next_app: usize,
    next_watch: u32,
    app_watches: Vec<(u64, Vec<(WatchId, u64)>)>,
    inboxes: Vec<(u64, Vec<AppEvent>)>,
}

/// The views of a list of watches.
pub open spec fn watch_list_view(s: Seq<(WatchId, u64)>) -> Seq<(u32, u64)> {
    s.map_values(|p: (WatchId, u64)| (p.0.0, p.1))
}

impl View for WatchManager {
    type V = ManagerView;

    closed spec fn view(&self) -> ManagerView {
        ManagerView {
            next_app: self.next_app,
            next_watch: self.next_watch,
            watches: self.app_watches@.map_values(|p: (u64, Vec<(WatchId, u64)>)| (p.0, watch_list_view(p.1@))),
            inboxes: self.inboxes@.map_values(|p: (u64, Vec<AppEvent>)| (p.0, events_view(p.1@))),
        }
    }
}

impl WatchManager {
    /// A manager with no apps.
    pub fn new() -> (m: WatchManager)
        ensures
            m@ == (ManagerView { next_app: 0, next_watch: 0, watches: Seq::empty(), inboxes: Seq::empty() }),
    {
        let m = WatchManager { next_app: 0, next_watch: 0, app_watches: Vec::new(), inboxes: Vec::new() };
        assert(m@.watches =~= Seq::<(u64, Seq<(u32, u64)>)>::empty());
        assert(m@.inboxes =~= Seq::<(u64, Seq<AppEventView>)>::empty());
        m
    }

    /// Make sure an app has an inbox; its index.
    fn inbox_for(&mut self, app: u64) -> (i: usize)
        ensures
            final(self)@ == (ManagerView { inboxes: with_inbox(old(self)@.inboxes, app), ..old(self)@ }),
            i < final(self)@.inboxes.len(),
            final(self)@.inboxes[i as int].0 == app,
            forall|j: int| 0 <= j < i ==> final(self)@.inboxes[j].0 != app,
            final(self).app_watches == old(self).app_watches,
    {
        let ghost s = self@.inboxes;
        match alist_find(&self.inboxes, app) {
            Some(i) => {
                proof {
                    lemma_alist_at(s, app, Seq::<AppEventView>::empty(), i as int);
                }
                i
            },
            None => {
                proof {
                    lemma_alist_at(s, app, Seq::<AppEventView>::empty(), s.len() as int);
                }
                let empty: Vec<AppEvent> = Vec::new();
                proof {
                    assert(events_view(empty@) =~= Seq::<AppEventView>::empty());
                }
                self.inboxes.push((app, empty));
                proof {
                    assert(self@.inboxes =~= s.push((app, Seq::empty())));
                }
                self.inboxes.len() - 1
            },
        }
    }

    /// A new app id (wrapping), with an empty inbox.
    pub fn register_app(&mut self) -> (id: usize)
        ensures
            id == old(self)@.next_app,
            final(self)@ == (ManagerView {
                next_app: wrap_inc_usize(old(self)@.next_app),
                inboxes: with_inbox(old(self)@.inboxes, id as u64),
                ..old(self)@
            }),
    {
        let id = self.next_app;
        self.next_app = self.next_app.wrapping_add(1);
        self.inbox_for(id as u64);
        id
    }

    /// Record a watch for an app: a new watch id (wrapping), filed with the
    /// kernel handle when the kernel gave one; the app gets an inbox.
    pub fn register_pattern(&mut self, app: usize, handle: Option<u64>) -> (w: WatchId)
        ensures
            w.0 == old(self)@.next_watch,
            final(self)@ == (ManagerView {
                next_watch: wrap_inc_u32(old(self)@.next_watch),
                watches: match handle {
                    Some(h) => alist_put(old(self)@.watches, app as u64, get_or_empty(old(self)@.watches, app as u64).push((w.0, h))),
                    None => old(self)@.watches,
                },
                inboxes: with_inbox(old(self)@.inboxes, app as u64),
                ..old(self)@
            }),
    {
        let w = WatchId(self.next_watch);
        self.next_watch = self.next_watch.wrapping_add(1);
        let key = app as u64;
        match handle {
            Some(h) => {
                let ghost s = self@.watches;
                let ghost entry = get_or_empty(s, key).push((w.0, h));
                match alist_find(&self.app_watches, key) {
                    Some(i) => {
                        proof {
                            lemma_alist_at(s, key, entry, i as int);
                        }
                        let mut list: Vec<(WatchId, u64)> = Vec::new();
                        std::mem::swap(&mut list, &mut self.app_watches[i].1);
                        let ghost before = list@;
                        list.push((w, h));
                        proof {
                            assert(watch_list_view(list@) =~= watch_list_view(before).push((w.0, h)));
                        }
                        self.app_watches[i].1 = list;
                        proof {
                            assert(self@.watches =~= s.update(i as int, (key, entry)));
                        }
                    },
                    None => {
                        proof {
                            lemma_alist_at(s, key, entry, s.len() as int);
                        }
                        let mut list: Vec<(WatchId, u64)> = Vec::new();
                        list.push((w, h));
                        proof {
                            assert(watch_list_view(list@) =~= seq![(w.0, h)]);
                            assert(entry =~= seq![(w.0, h)]);
                        }
                        self.app_watches.push((key, list));
                        proof {
                            assert(self@.watches =~= s.push((key, entry)));
                        }
                    },
                }
            },
            None => {},
        }
        self.inbox_for(key);
        w
    }

    /// Put an event in an app's inbox (creating the inbox if needed).
    pub fn push_event(&mut self, app: usize, ev: AppEvent)
        ensures
            final(self)@ == (ManagerView {
                inboxes: alist_put(
                    with_inbox(old(self)@.inboxes, app as u64),
                    app as u64,
                    get_or_empty(with_inbox(old(self)@.inboxes, app as u64), app as u64).push(ev@),
                ),
                ..old(self)@
            }),
    {
        let key = app as u64;
        let i = self.inbox_for(key);
        let ghost s = self@.inboxes;
        let ghost ev_view = ev@;
        let ghost entry = get_or_empty(s, key).push(ev_view);
        proof {
            lemma_alist_at(s, key, entry, i as int);
        }
        let mut inbox: Vec<AppEvent> = Vec::new();
        std::mem::swap(&mut inbox, &mut self.inboxes[i].1);
        let ghost before = inbox@;
        inbox.push(ev);
        proof {
            assert(events_view(inbox@) =~= events_view(before).push(ev_view));
        }
        self.inboxes[i].1 = inbox;
        proof {
            assert(self@.inboxes =~= s.update(i as int, (key, entry)));
        }
    }

    /// Take everything waiting in an app's inbox, leaving it empty.
    pub fn drain_inbox(&mut self, app: usize) -> (events: Vec<AppEvent>)
        ensures
            events_view(events@) == get_or_empty(old(self)@.inboxes, app as u64),
            final(self)@ == (ManagerView {
                inboxes: alist_put(old(self)@.inboxes, app as u64, Seq::empty()),
                ..old(self)@
            }),
    {
        let key = app as u64;
        let ghost s = self@.inboxes;
        match alist_find(&self.inboxes, key) {
            Some(i) => {
                proof {
                    lemma_alist_at(s, key, Seq::<AppEventView>::empty(), i as int);
                }
                let mut inbox: Vec<AppEvent> = Vec::new();
                std::mem::swap(&mut inbox, &mut self.inboxes[i].1);
                proof {
                    assert(events_view(self.inboxes@[i as int].1@) =~= Seq::<AppEventView>::empty());
                    assert(self@.inboxes =~= s.update(i as int, (key, Seq::empty())));
                }
                inbox
            },
            None => {
                proof {
                    lemma_alist_at(s, key, Seq::<AppEventView>::empty(), s.len() as int);
                }
                let empty: Vec<AppEvent> = Vec::new();
                proof {
                    assert(events_view(empty@) =~= Seq::<AppEventView>::empty());
                }
                self.inboxes.push((key, empty));
                proof {
                    assert(self@.inboxes =~= s.push((key, Seq::empty())));
                }
                let v: Vec<AppEvent> = Vec::new();
                proof {
                    assert(events_view(v@) =~= Seq::<AppEventView>::empty());
                }
                v
            },
        }
    }

    /// The watches an app holds: watch id and kernel handle, in the order made.
    pub fn watches_of(&self, app: usize) -> (v: Vec<(WatchId, u64)>)
        ensures
            watch_list_view(v@) == get_or_empty(self@.watches, app as u64),
    {
        let ghost s = self@.watches;
        match alist_find(&self.app_watches, app as u64) {
            Some(i) => {
                proof {
                    lemma_alist_at(s, app as u64, Seq::<(u32, u64)>::empty(), i as int);
                }
                let src = &self.app_watches[i].1;
                let mut v: Vec<(WatchId, u64)> = Vec::new();
                let mut j: usize = 0;
                while j < src.len()
                    invariant
                        j <= src@.len(),
                        watch_list_view(v@) == watch_list_view(src@).take(j as int),
                    decreases src@.len() - j,
                {
                    let ghost before = v@;
                    v.push((src[j].0, src[j].1));
                    proof {
                        assert(watch_list_view(v@) =~= watch_list_view(before).push((src@[j as int].0.0, src@[j as int].1)));
                        assert(watch_list_view(src@).take(j + 1) =~= watch_list_view(src@).take(j as int).push(
                            (src@[j as int].0.0, src@[j as int].1),
                        ));
                    }
                    j = j + 1;
                }
                proof {
                    assert(watch_list_view(src@).take(j as int) =~= watch_list_view(src@));
                }
                v
            },
            None => {
                proof {
                    lemma_alist_at(s, app as u64, Seq::<(u32, u64)>::empty(), s.len() as int);
                }
                let v: Vec<(WatchId, u64)> = Vec::new();
                proof {
                    assert(watch_list_view(v@) =~= Seq::<(u32, u64)>::empty());
                }
                v
            },
        }
    }

    /// Deliver the changes one watch of an app was told of, in order, to the
    /// app's inbox.
    pub fn deliver(&mut self, app: usize, watch: WatchId, changes: Vec<GraphChange>)
        ensures
            final(self)@ == (ManagerView {
                inboxes: alist_put(
                    with_inbox(old(self)@.inboxes, app as u64),
                    app as u64,
                    get_or_empty(with_inbox(old(self)@.inboxes, app as u64), app as u64) + change_events(
                        watch.0,
                        changes@.map_values(|c: GraphChange| c@),
                    ),
                ),
                ..old(self)@
            }),
    {
        let ghost start = self@;
        let ghost cs = changes@.map_values(|c: GraphChange| c@);
        let key = app as u64;
        let at = self.inbox_for(key);
        let ghost s1 = self@.inboxes;
        let mut i: usize = 0;
        proof {
            lemma_alist_at(s1, key, Seq::<AppEventView>::empty(), at as int);
            assert(change_events(watch.0, cs.take(0)) =~= Seq::<AppEventView>::empty());
            assert(get_or_empty(s1, key) + Seq::<AppEventView>::empty() =~= get_or_empty(s1, key));
            lemma_put_same(s1, key);
        }
        while i < changes.len()
            invariant
                i <= changes@.len(),
                cs == changes@.map_values(|c: GraphChange| c@),
                key == app as u64,
                self@ == (ManagerView { inboxes: self@.inboxes, ..start }),
                alist_get(s1, key) is Some,
                self@.inboxes == alist_put(s1, key, get_or_empty(s1, key) + change_events(watch.0, cs.take(i as int))),
            decreases changes@.len() - i,
        {
            let ev = match &changes[i] {
                GraphChange::Thing(t) => AppEvent::Thing { watch, thing: t.copy() },
                GraphChange::Edge(e) => AppEvent::Edge { watch, edge: e.copy() },
            };
            let ghost evv = ev@;
            let ghost v = get_or_empty(s1, key) + change_events(watch.0, cs.take(i as int));
            proof {
                assert(evv == change_event(watch.0, cs[i as int]));
                lemma_put_twice(s1, key, v, evv);
                assert(change_events(watch.0, cs.take(i + 1)) =~= change_events(watch.0, cs.take(i as int)).push(evv));
            }
            self.push_event(app, ev);
            proof {
                assert((get_or_empty(s1, key) + change_events(watch.0, cs.take(i as int))).push(
                    change_event(watch.0, cs[i as int]),
                ) =~= get_or_empty(s1, key) + change_events(watch.0, cs.take(i + 1)));
            }
            i = i + 1;
        }
        proof {
            assert(cs.take(i as int) =~= cs);
        }
    }
}

/// Putting back what a present key holds changes nothing.
proof fn lemma_put_same(s: Seq<(u64, Seq<AppEventView>)>, k: u64)
    requires
        alist_get(s, k) is Some,
    ensures
        alist_put(s, k, get_or_empty(s, k)) == s,
    decreases s.len(),
{
    if s[0].0 == k {
        assert(seq![(k, s[0].1)] + s.drop_first() =~= s);
    } else {
        lemma_put_same(s.drop_first(), k);
        assert(seq![s[0]] + s.drop_first() =~= s);
    }
}

/// After a put, the key is present with the value put, and a second put of
/// the key (with one more event) is the same as one put.
proof fn lemma_put_twice(s: Seq<(u64, Seq<AppEventView>)>, k: u64, v: Seq<AppEventView>, e: AppEventView)
    requires
        alist_get(s, k) is Some,
    ensures
        with_inbox(alist_put(s, k, v), k) == alist_put(s, k, v),
        get_or_empty(alist_put(s, k, v), k) == v,
        alist_put(alist_put(s, k, v), k, v.push(e)) == alist_put(s, k, v.push(e)),
    decreases s.len(),
{
    if s[0].0 == k {
        assert((seq![(k, v)] + s.drop_first()).drop_first() =~= s.drop_first());
    } else {
        lemma_put_twice(s.drop_first(), k, v, e);
        assert((seq![s[0]] + alist_put(s.drop_first(), k, v)).drop_first() =~= alist_put(s.drop_first(), k, v));
    }
}

/// Making sure of an inbox keeps what it held, and after it the app has one.
proof fn lemma_with_inbox(s: Seq<(u64, Seq<AppEventView>)>, k: u64)
    ensures
        alist_get(with_inbox(s, k), k) is Some,
        get_or_empty(with_inbox(s, k), k) == get_or_empty(s, k),
    decreases s.len(),
{
    if alist_get(s, k) is None {
        lemma_absent_push(s, k, Seq::empty());
    }
}

proof fn lemma_absent_push(s: Seq<(u64, Seq<AppEventView>)>, k: u64, v: Seq<AppEventView>)
    requires
        alist_get(s, k) is None,
    ensures
        alist_get(s.push((k, v)), k) == Some(v),
    decreases s.len(),
{
    if s.len() > 0 {
        lemma_absent_push(s.drop_first(), k, v);
        assert(s.push((k, v)).drop_first() =~= s.drop_first().push((k, v)));
    }
}

/// What an app drains after an event is pushed to it is what its inbox held,
/// then that event.
pub proof fn lemma_drain_after_push(inboxes: Seq<(u64, Seq<AppEventView>)>, app: u64, e: AppEventView)
    ensures
        get_or_empty(
            alist_put(with_inbox(inboxes, app), app, get_or_empty(with_inbox(inboxes, app), app).push(e)),
            app,
        ) == get_or_empty(inboxes, app).push(e),
{
    lemma_with_inbox(inboxes, app);
    lemma_put_twice(with_inbox(inboxes, app), app, get_or_empty(inboxes, app).push(e), e);
}

} // verus!
