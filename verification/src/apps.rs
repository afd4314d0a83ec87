//! The state of a hosted app: where its windows go and what they are
//! called, the text and bitmaps drawn into them during a tick, and the
//! surfaces a tick's end hands to the compositor. Creating the Things is
//! the caller's part; this decides what they hold.

use vstd::prelude::*;
use vstd::string::StringSliceAdditionalSpecFns;
use crate::abi::{SymbolMap, Value, ValueView};
use crate::canon::{Symbol, BITMAP, DIRTY, INIT, NAME, REVISION, SRC, STATUS, TARGET, TEXT, VISIBLE};
use crate::thingable::{spec_window_fields, Window, WindowView};
use crate::userland::{simple_uuid, spec_simple_uuid};

verus! {

/// Keys strictly increase along the pairs.
pub open spec fn keys_sorted<V>(s: Seq<(u128, V)>) -> bool {
    forall|i: int, j: int| 0 <= i < j < s.len() ==> s[i].0 < s[j].0
}

/// The value of key `k`, if any.
pub open spec fn kget<V>(s: Seq<(u128, V)>, k: u128) -> Option<V>
    decreases s.len(),
{
    if s.len() == 0 {
        None
    } else if s[0].0 == k {
        Some(s[0].1)
    } else {
        kget(s.drop_first(), k)
    }
}

/// Sorted pairs with key `k` given value `v`.
pub open spec fn kput<V>(s: Seq<(u128, V)>, k: u128, v: V) -> Seq<(u128, V)>
    decreases s.len(),
{
    if s.len() == 0 {
        seq![(k, v)]
    } else if k < s[0].0 {
        seq![(k, v)] + s
    } else if k == s[0].0 {
        seq![(k, v)] + s.drop_first()
    } else {
        seq![s[0]] + kput(s.drop_first(), k, v)
    }
}

/// Sorted pairs without key `k`.
pub open spec fn kremove<V>(s: Seq<(u128, V)>, k: u128) -> Seq<(u128, V)>
    decreases s.len(),
{
    if s.len() == 0 {
        s
    } else if s[0].0 == k {
        s.drop_first()
    } else {
        seq![s[0]] + kremove(s.drop_first(), k)
    }
}

/// The position of key `k` among sorted pairs: the first whose key is not smaller.
pub open spec fn kpos<V>(s: Seq<(u128, V)>, k: u128) -> int
    decreases s.len(),
{
    if s.len() == 0 || s[0].0 >= k {
        0
    } else {
        1 + kpos(s.drop_first(), k)
    }
}

proof fn lemma_sorted_rest<V>(s: Seq<(u128, V)>)
    requires
        keys_sorted(s),
        s.len() > 0,
    ensures
        keys_sorted(s.drop_first()),
{
    assert forall|i: int, j: int| 0 <= i < j < s.drop_first().len() implies s.drop_first()[i].0 < s.drop_first()[j].0 by {
        assert(s.drop_first()[i] == s[i + 1] && s.drop_first()[j] == s[j + 1]);
    }
}

/// Where a key goes, and what get, put and remove do there.
pub proof fn lemma_kpos<V>(s: Seq<(u128, V)>, k: u128, v: V)
    requires
        keys_sorted(s),
    ensures
        0 <= kpos(s, k) <= s.len(),
        forall|j: int| 0 <= j < kpos(s, k) ==> s[j].0 < k,
        kpos(s, k) < s.len() ==> s[kpos(s, k)].0 >= k,
        kget(s, k) == (if kpos(s, k) < s.len() && s[kpos(s, k)].0 == k {
            Some(s[kpos(s, k)].1)
        } else {
            None
        }),
        kput(s, k, v) == (if kpos(s, k) < s.len() && s[kpos(s, k)].0 == k {
            s.update(kpos(s, k), (k, v))
        } else {
            s.insert(kpos(s, k), (k, v))
        }),
        kremove(s, k) == (if kpos(s, k) < s.len() && s[kpos(s, k)].0 == k {
            s.remove(kpos(s, k))
        } else {
            s
        }),
        keys_sorted(kput(s, k, v)),
        keys_sorted(kremove(s, k)),
    decreases s.len(),
{
    if s.len() == 0 {
        assert(s.insert(0, (k, v)) =~= seq![(k, v)]);
    } else if s[0].0 >= k {
        if s[0].0 == k {
            assert(seq![(k, v)] + s.drop_first() =~= s.update(0, (k, v)));
            assert(s.drop_first() =~= s.remove(0));
            lemma_sorted_rest(s);
        } else {
            assert(seq![(k, v)] + s =~= s.insert(0, (k, v)));
            assert(kget(s.drop_first(), k) is None) by {
                lemma_sorted_rest(s);
                lemma_kpos(s.drop_first(), k, v);
                if s.drop_first().len() > 0 {
                    assert(s[0].0 < s[1].0);
                }
            }
            assert(kremove(s.drop_first(), k) == s.drop_first()) by {
                lemma_sorted_rest(s);
                lemma_kpos(s.drop_first(), k, v);
                if s.drop_first().len() > 0 {
                    assert(s[0].0 < s[1].0);
                }
            }
            assert(seq![s[0]] + s.drop_first() =~= s);
        }
        let r = kput(s, k, v);
        assert forall|i: int, j: int| 0 <= i < j < r.len() implies r[i].0 < r[j].0 by {
            if i == 0 && s[0].0 != k {
                assert(r[j] == s[j - 1]);
                if j - 1 > 0 {
                    assert(s[0].0 < s[j - 1].0);
                }
            }
        }
        let q = kremove(s, k);
        assert forall|i: int, j: int| 0 <= i < j < q.len() implies q[i].0 < q[j].0 by {
            if s[0].0 == k {
                assert(q[i] == s[i + 1] && q[j] == s[j + 1]);
            }
        }
    } else {
        let t = s.drop_first();
        lemma_sorted_rest(s);
        lemma_kpos(t, k, v);
        let p = kpos(t, k);
        assert forall|j: int| 0 <= j < kpos(s, k) implies s[j].0 < k by {
            if j > 0 {
                assert(s[j] == t[j - 1]);
            }
        }
        if p < t.len() && t[p].0 == k {
            assert(seq![s[0]] + t.update(p, (k, v)) =~= s.update(p + 1, (k, v)));
            assert(seq![s[0]] + t.remove(p) =~= s.remove(p + 1));
        } else {
            assert(seq![s[0]] + t.insert(p, (k, v)) =~= s.insert(p + 1, (k, v)));
            assert(seq![s[0]] + t =~= s);
        }
        let r = kput(s, k, v);
        let rt = kput(t, k, v);
        assert forall|i: int, j: int| 0 <= i < j < r.len() implies r[i].0 < r[j].0 by {
            if i == 0 {
                assert(r[j] == rt[j - 1]);
                if p < t.len() && t[p].0 == k {
                    if j - 1 != p {
                        assert(rt[j - 1] == t[j - 1]);
                        assert(s[0].0 < s[j].0);
                    }
                } else if j - 1 < p {
                    assert(rt[j - 1] == t[j - 1]);
                    assert(s[0].0 < s[j].0);
                } else if j - 1 > p {
                    assert(rt[j - 1] == t[j - 2]);
                    assert(s[0].0 < s[j - 1].0);
                }
            }
        }
        let q = kremove(s, k);
        let qt = kremove(t, k);
        assert forall|i: int, j: int| 0 <= i < j < q.len() implies q[i].0 < q[j].0 by {
            if i == 0 {
                assert(q[j] == qt[j - 1]);
                if p < t.len() && t[p].0 == k {
                    if j - 1 < p {
                        assert(qt[j - 1] == t[j - 1]);
                        assert(s[0].0 < s[j].0);
                    } else {
                        assert(qt[j - 1] == t[j]);
                        assert(s[0].0 < s[j + 1].0);
                    }
                } else {
                    assert(s[0].0 < s[j].0);
                }
            }
        }
    }
}

/// Two pair sequences with the same keys at the same places.
pub open spec fn same_keys<A, B>(s: Seq<(u128, A)>, t: Seq<(u128, B)>) -> bool {
    &&& s.len() == t.len()
    &&& forall|j: int| 0 <= j < s.len() ==> #[trigger] s[j].0 == t[j].0
}

proof fn lemma_same_keys_sorted<A, B>(s: Seq<(u128, A)>, t: Seq<(u128, B)>)
    requires
        same_keys(s, t),
    ensures
        keys_sorted(s) <==> keys_sorted(t),
{
    if keys_sorted(s) {
        assert forall|i: int, j: int| 0 <= i < j < t.len() implies t[i].0 < t[j].0 by {
            assert(s[i].0 == t[i].0 && s[j].0 == t[j].0);
        }
    }
    if keys_sorted(t) {
        assert forall|i: int, j: int| 0 <= i < j < s.len() implies s[i].0 < s[j].0 by {
            assert(s[i].0 == t[i].0 && s[j].0 == t[j].0);
        }
    }
}

/// The first position whose key is not smaller than `k`, in a sequence
/// whose keys are those of `v`.
fn kfind<V, W>(v: &Vec<(u128, V)>, k: u128, Ghost(t): Ghost<Seq<(u128, W)>>) -> (i: usize)
    requires
        keys_sorted(v@),
        same_keys(v@, t),
    ensures
        i as int == kpos(t, k),
{
    proof {
        lemma_same_keys_sorted(v@, t);
        lemma_kpos(t, k, arbitrary());
    }
    let mut i: usize = 0;
    while i < v.len() && v[i].0 < k
        invariant
            i <= v@.len(),
            keys_sorted(v@),
            same_keys(v@, t),
            0 <= kpos(t, k) <= t.len(),
            forall|j: int| 0 <= j < kpos(t, k) ==> t[j].0 < k,
            kpos(t, k) < t.len() ==> t[kpos(t, k)].0 >= k,
            i <= kpos(t, k),
        decreases v@.len() - i,
    {
        assert(v@[i as int].0 == t[i as int].0);
        i = i + 1;
    }
    if i < v.len() {
        assert(v@[i as int].0 == t[i as int].0);
    }
    i
}

/// The decimal digits of `n`, as bytes.
pub open spec fn dec_bytes(n: nat) -> Seq<u8>
    decreases n,
{
    if n < 10 {
        seq![(48 + n) as u8]
    } else {
        dec_bytes(n / 10).push((48 + n % 10) as u8)
    }
}

fn push_dec_bytes(out: &mut Vec<u8>, n: u64)
    ensures
        final(out)@ == old(out)@ + dec_bytes(n as nat),
    decreases n,
{
    if n >= 10 {
        push_dec_bytes(out, n / 10);
    }
    out.push((48 + n % 10) as u8);
    proof {
        if n >= 10 {
            assert((n / 10) as nat == (n as nat) / 10);
        }
    }
}

/// The bytes of `<prefix>-<title>-<index>`, of which a window's (prefix
/// `window`) and its pixmap's (prefix `pixmap`) ids are made.
pub open spec fn window_seed(prefix: Seq<u8>, title: Seq<char>, index: u64) -> Seq<u8> {
    prefix + seq![45u8] + vstd::utf8::encode_utf8(title) + seq![45u8] + dec_bytes(index as nat)
}

/// `window`, as bytes.
pub open spec fn window_prefix() -> Seq<u8> {
    seq![119u8, 105u8, 110u8, 100u8, 111u8, 119u8]
}

/// `pixmap`, as bytes.
pub open spec fn pixmap_prefix() -> Seq<u8> {
    seq![112u8, 105u8, 120u8, 109u8, 97u8, 112u8]
}

fn seed_id(prefix: &Vec<u8>, title: &str, index: u64) -> (id: u128)
    ensures
        id == spec_simple_uuid(window_seed(prefix@, title@, index)),
{
    let mut bytes: Vec<u8> = Vec::new();
    let mut i: usize = 0;
    while i < prefix.len()
        invariant
            i <= prefix@.len(),
            bytes@ == prefix@.take(i as int),
        decreases prefix@.len() - i,
    {
        bytes.push(prefix[i]);
        proof {
            assert(prefix@.take(i + 1) =~= prefix@.take(i as int).push(prefix@[i as int]));
        }
        i = i + 1;
    }
    bytes.push(45u8);
    let tb = title.as_bytes();
    let mut j: usize = 0;
    let ghost start = bytes@;
    while j < tb.len()
        invariant
            j <= tb@.len(),
            bytes@ == start + tb@.take(j as int),
        decreases tb@.len() - j,
    {
        bytes.push(tb[j]);
        proof {
            assert(tb@.take(j + 1) =~= tb@.take(j as int).push(tb@[j as int]));
        }
        j = j + 1;
    }
    bytes.push(45u8);
    push_dec_bytes(&mut bytes, index);
    proof {
        assert(prefix@.take(i as int) =~= prefix@);
        assert(tb@.take(j as int) =~= tb@);
        assert(bytes@ =~= window_seed(prefix@, title@, index));
    }
    simple_uuid(bytes.as_slice())
}

fn copy_bytes(data: &[u8]) -> (r: Vec<u8>)
    ensures
        r@ == data@,
{
    let mut copy: Vec<u8> = Vec::new();
    let mut j: usize = 0;
    while j < data.len()
        invariant
            j <= data@.len(),
            copy@ == data@.take(j as int),
        decreases data@.len() - j,
    {
        copy.push(data[j]);
        proof {
            assert(data@.take(j + 1) =~= data@.take(j as int).push(data@[j as int]));
        }
        j = j + 1;
    }
    proof {
        assert(data@.take(j as int) =~= data@);
    }
    copy
}

/// Where a window goes: a window asked for at the origin is placed `24`
/// pixels further down and right per window already made (wrapping).
pub open spec fn placed(x: u64, y: u64, index: u64) -> (u64, u64) {
    if x == 0 && y == 0 {
        let offset = ((index as int * 24) % 0x1_0000_0000_0000_0000) as u64;
        (offset, offset)
    } else {
        (x, y)
    }
}

/// The fields of an app's window Thing: those of the window as placed, in
/// front of the ones before it, visible, drawing to its pixmap, with its
/// title as name and status `INIT`.
pub open spec fn spec_app_window_fields(w: WindowView, index: u64, pixmap: u128) -> Map<u32, ValueView> {
    let (x, y) = placed(w.x, w.y, index);
    let placed_w = WindowView { x, y, z: index as i64, visible: true, target: Some(pixmap), ..w };
    spec_window_fields(placed_w).insert(NAME, ValueView::Text(w.title)).insert(TARGET, ValueView::Uuid(pixmap)).insert(
        STATUS,
        ValueView::Symbol(INIT),
    )
}

/// The window an app asks for by title: 320 by 200 at the origin.
pub open spec fn default_window(title: Seq<char>) -> WindowView {
    WindowView { id: 0, width: 320, height: 200, title, x: 0, y: 0, z: 0, visible: true, target: None }
}

/// A window of an app: the window Thing and the pixmap it draws to.
#[derive(Clone, Copy, Debug, PartialEq, Eq, Structural)]
pub struct WindowHandle {
    window: u128,
    pixmap: u128,
}

impl WindowHandle {
    /// The window Thing.
    pub fn window_id(&self) -> (r: u128)
        ensures
            r == self.spec_window(),
    {
        self.window
    }

    /// The pixmap it draws to.
    pub fn pixmap_id(&self) -> (r: u128)
        ensures
            r == self.spec_pixmap(),
    {
        self.pixmap
    }

    /// The window Thing.
    pub closed spec fn spec_window(&self) -> u128 {
        self.window
    }

    /// The pixmap it draws to.
    pub closed spec fn spec_pixmap(&self) -> u128 {
        self.pixmap
    }
}

/// What an app's state holds: its compositor, the text and bitmaps drawn
/// this tick (by window), each window's pixmap, how many windows it made,
/// and its id.
pub struct AppStateView {
    pub compositor: u128,
    pub buffers: Seq<(u128, Seq<char>)>,
    pub bitmaps: Seq<(u128, Seq<u8>)>,
    pub pixmaps: Seq<(u128, u128)>,
    pub window_counter: u64,
    pub app_id: usize,
}

/// The state of a hosted app.
pub struct AppState {
    compositor: u128,
    buffers: Vec<(u128, String)>,
    bitmaps: Vec<(u128, Vec<u8>)>,
    window_pixmaps: Vec<(u128, u128)>,
    window_counter: u64,
    app_id: usize,
}

/// The views of text buffers.
pub open spec fn buffers_view(s: Seq<(u128, String)>) -> Seq<(u128, Seq<char>)> {
    s.map_values(|p: (u128, String)| (p.0, p.1@))
}

/// The views of bitmaps.
pub open spec fn bitmaps_view(s: Seq<(u128, Vec<u8>)>) -> Seq<(u128, Seq<u8>)> {
    s.map_values(|p: (u128, Vec<u8>)| (p.0, p.1@))
}

proof fn lemma_views_keep_keys(b: Seq<(u128, String)>, m: Seq<(u128, Vec<u8>)>)
    ensures
        same_keys(b, buffers_view(b)),
        same_keys(m, bitmaps_view(m)),
{
    assert forall|j: int| 0 <= j < b.len() implies #[trigger] b[j].0 == buffers_view(b)[j].0 by {}
    assert forall|j: int| 0 <= j < m.len() implies #[trigger] m[j].0 == bitmaps_view(m)[j].0 by {}
}

impl View for AppState {
    type V = AppStateView;

    closed spec fn view(&self) -> AppStateView {
        AppStateView {
            compositor: self.compositor,
            buffers: buffers_view(self.buffers@),
            bitmaps: bitmaps_view(self.bitmaps@),
            pixmaps: self.window_pixmaps@,
            window_counter: self.window_counter,
            app_id: self.app_id,
        }
    }
}

/// A surface handed to the compositor at the end of a tick.
pub struct SurfaceUpdateView {
    pub pixmap: u128,
    pub window: u128,
    pub payload: Map<u32, ValueView>,
}

/// A surface handed to the compositor: to be created as a `SURFACE` Thing
/// under the pixmap's id with the payload as fields, and linked from the
/// window by `HAS_SURFACE`.
pub struct SurfaceUpdate {
    pub pixmap: u128,
    pub window: u128,
    pub payload: SymbolMap,
}

/// What a surface denotes.
pub open spec fn surface_update_view(s: SurfaceUpdate) -> SurfaceUpdateView {
    SurfaceUpdateView { pixmap: s.pixmap, window: s.window, payload: s.payload@ }
}

/// What surfaces denote.
pub open spec fn surface_updates_view(s: Seq<SurfaceUpdate>) -> Seq<SurfaceUpdateView> {
    s.map_values(|x: SurfaceUpdate| surface_update_view(x))
}

/// The fields of the surface a window's text (and bitmap, if one was drawn)
/// makes at the end of a tick.
pub open spec fn spec_surface_payload(window: u128, pixmap: u128, tick: u64, text: Seq<char>, bitmap: Option<Seq<u8>>) -> Map<u32, ValueView> {
    let m = map![
        SRC => ValueView::Uuid(window),
        TARGET => ValueView::Uuid(pixmap),
        REVISION => ValueView::U64(tick),
        TEXT => ValueView::Bytes(vstd::utf8::encode_utf8(text)),
        DIRTY => ValueView::Bool(true),
        VISIBLE => ValueView::Bool(true)
    ];
    match bitmap {
        Some(b) => m.insert(BITMAP, ValueView::Bytes(b)),
        None => m,
    }
}

/// The surfaces a tick's end makes, for the buffered windows in increasing
/// id order that have a pixmap; each takes its window's bitmap.
pub open spec fn spec_flush(buffers: Seq<(u128, Seq<char>)>, bitmaps: Seq<(u128, Seq<u8>)>, pixmaps: Seq<(u128, u128)>, tick: u64) -> (Seq<SurfaceUpdateView>, Seq<(u128, Seq<u8>)>)
    decreases buffers.len(),
{
    if buffers.len() == 0 {
        (Seq::empty(), bitmaps)
    } else {
        let (window, text) = buffers[0];
        match kget(pixmaps, window) {
            Some(pixmap) => {
                let s = SurfaceUpdateView {
                    pixmap,
                    window,
                    payload: spec_surface_payload(window, pixmap, tick, text, kget(bitmaps, window)),
                };
                let (rest, left) = spec_flush(buffers.drop_first(), kremove(bitmaps, window), pixmaps, tick);
                (seq![s] + rest, left)
            },
            None => spec_flush(buffers.drop_first(), bitmaps, pixmaps, tick),
        }
    }
}

impl AppState {
    /// Keys of each table increase.
    pub closed spec fn wf(&self) -> bool {
        &&& keys_sorted(self.buffers@)
        &&& keys_sorted(self.bitmaps@)
        &&& keys_sorted(self.window_pixmaps@)
    }

    /// A fresh app state.
    pub fn new(compositor: u128, app_id: usize) -> (s: AppState)
        ensures
            s.wf(),
            s@ == (AppStateView {
                compositor,
                buffers: Seq::empty(),
                bitmaps: Seq::empty(),
                pixmaps: Seq::empty(),
                window_counter: 0,
                app_id,
            }),
    {
        let s = AppState { compositor, buffers: Vec::new(), bitmaps: Vec::new(), window_pixmaps: Vec::new(), window_counter: 0, app_id };
        assert(s@.buffers =~= Seq::<(u128, Seq<char>)>::empty());
        assert(s@.bitmaps =~= Seq::<(u128, Seq<u8>)>::empty());
        s
    }

    /// The compositor the app's windows go to.
    pub fn compositor_id(&self) -> (r: u128)
        ensures
            r == self@.compositor,
    {
        self.compositor
    }

    /// The app's id.
    pub fn app_id(&self) -> (r: usize)
        ensures
            r == self@.app_id,
    {
        self.app_id
    }

    /// Make a window: its handle and the fields of its Thing (to be created
    /// as a `WINDOW` Thing under the handle's window id, then linked to the
    /// compositor). Ids are those of `window-<title>-<n>` and
    /// `pixmap-<title>-<n>`, `n` counting the app's windows (wrapping).
    pub fn create_window_with(&mut self, window: Window) -> (r: (WindowHandle, SymbolMap))
        requires
            old(self).wf(),
        ensures
            final(self).wf(),
            r.0.spec_window() == spec_simple_uuid(window_seed(window_prefix(), window.title@, old(self)@.window_counter)),
            r.0.spec_pixmap() == spec_simple_uuid(window_seed(pixmap_prefix(), window.title@, old(self)@.window_counter)),
            r.1@ == spec_app_window_fields(window@, old(self)@.window_counter, r.0.spec_pixmap()),
            final(self)@ == (AppStateView {
                pixmaps: kput(old(self)@.pixmaps, r.0.spec_window(), r.0.spec_pixmap()),
                window_counter: crate::host_store::wrap_inc(old(self)@.window_counter),
                ..old(self)@
            }),
    {
        let mut window = window;
        let index = self.window_counter;
        self.window_counter = self.window_counter.wrapping_add(1);
        if window.x == 0 && window.y == 0 {
            let offset = index.wrapping_mul(24);
            window.x = offset;
            window.y = offset;
        }
        window.z = index as i64;
        window.visible = true;
        let mut wp: Vec<u8> = Vec::new();
        wp.push(119u8);
        wp.push(105u8);
        wp.push(110u8);
        wp.push(100u8);
        wp.push(111u8);
        wp.push(119u8);
        let mut pp: Vec<u8> = Vec::new();
        pp.push(112u8);
        pp.push(105u8);
        pp.push(120u8);
        pp.push(109u8);
        pp.push(97u8);
        pp.push(112u8);
        proof {
            assert(wp@ =~= window_prefix());
            assert(pp@ =~= pixmap_prefix());
        }
        let window_id = seed_id(&wp, window.title.as_str(), index);
        let pixmap = seed_id(&pp, window.title.as_str(), index);
        window.target = Some(pixmap);
        let mut fields = window.to_fields();
        fields.insert(Symbol(NAME), Value::text(window.title.as_str()));
        fields.insert(Symbol(TARGET), Value::Uuid(pixmap));
        fields.insert(Symbol(STATUS), Value::Symbol(Symbol(INIT)));
        let ghost ps = self.window_pixmaps@;
        let i = kfind::<u128, u128>(&self.window_pixmaps, window_id, Ghost(ps));
        proof {
            lemma_kpos(ps, window_id, pixmap);
        }
        if i < self.window_pixmaps.len() && self.window_pixmaps[i].0 == window_id {
            self.window_pixmaps.set(i, (window_id, pixmap));
        } else {
            self.window_pixmaps.insert(i, (window_id, pixmap));
        }
        (WindowHandle { window: window_id, pixmap }, fields)
    }

    /// Make a 320 by 200 window with a title (see `create_window_with`).
    pub fn create_window(&mut self, title: &str) -> (r: (WindowHandle, SymbolMap))
        requires
            old(self).wf(),
        ensures
            final(self).wf(),
            r.0.spec_window() == spec_simple_uuid(window_seed(window_prefix(), title@, old(self)@.window_counter)),
            r.0.spec_pixmap() == spec_simple_uuid(window_seed(pixmap_prefix(), title@, old(self)@.window_counter)),
            r.1@ == spec_app_window_fields(default_window(title@), old(self)@.window_counter, r.0.spec_pixmap()),
            final(self)@ == (AppStateView {
                pixmaps: kput(old(self)@.pixmaps, r.0.spec_window(), r.0.spec_pixmap()),
                window_counter: crate::host_store::wrap_inc(old(self)@.window_counter),
                ..old(self)@
            }),
    {
        let w = Window {
            id: 0,
            width: 320,
            height: 200,
            title: String::from_str(title),
            x: 0,
            y: 0,
            z: 0,
            visible: true,
            target: None,
        };
        self.create_window_with(w)
    }

    /// Empty a window's text for this tick.
    pub fn clear_window(&mut self, win: &WindowHandle)
        requires
            old(self).wf(),
        ensures
            final(self).wf(),
            final(self)@ == (AppStateView { buffers: kput(old(self)@.buffers, win.spec_window(), Seq::empty()), ..old(self)@ }),
    {
        let ghost bs = self@.buffers;
        proof {
            lemma_views_keep_keys(self.buffers@, self.bitmaps@);
        }
        let i = kfind::<String, Seq<char>>(&self.buffers, win.window, Ghost(bs));
        proof {
            lemma_kpos(bs, win.window, Seq::<char>::empty());
        }
        let empty = String::new();
        if i < self.buffers.len() && self.buffers[i].0 == win.window {
            self.buffers.set(i, (win.window, empty));
            proof {
                assert(self@.buffers =~= bs.update(i as int, (win.window, Seq::<char>::empty())));
            }
        } else {
            self.buffers.insert(i, (win.window, empty));
            proof {
                assert(self@.buffers =~= bs.insert(i as int, (win.window, Seq::<char>::empty())));
            }
        }
    }

    /// Append text to a window's text for this tick.
    pub fn draw_text(&mut self, win: &WindowHandle, text: &str)
        requires
            old(self).wf(),
        ensures
            final(self).wf(),
            final(self)@ == (AppStateView {
                buffers: kput(
                    old(self)@.buffers,
                    win.spec_window(),
                    match kget(old(self)@.buffers, win.spec_window()) {
                        Some(t) => t,
                        None => Seq::empty(),
                    } + text@,
                ),
                ..old(self)@
            }),
    {
        let ghost bs = self@.buffers;
        let ghost newv = match kget(bs, win.window) {
            Some(t) => t,
            None => Seq::<char>::empty(),
        } + text@;
        proof {
            lemma_views_keep_keys(self.buffers@, self.bitmaps@);
        }
        let i = kfind::<String, Seq<char>>(&self.buffers, win.window, Ghost(bs));
        proof {
            lemma_kpos(bs, win.window, newv);
        }
        if i < self.buffers.len() && self.buffers[i].0 == win.window {
            let mut s = String::new();
            std::mem::swap(&mut s, &mut self.buffers[i].1);
            s.append(text);
            self.buffers.set(i, (win.window, s));
            proof {
                assert(self@.buffers =~= bs.update(i as int, (win.window, newv)));
            }
        } else {
            let s = String::from_str(text);
            self.buffers.insert(i, (win.window, s));
            proof {
                assert(newv =~= text@);
                assert(self@.buffers =~= bs.insert(i as int, (win.window, newv)));
            }
        }
    }

    /// Set a window's bitmap for this tick.
    pub fn draw_bitmap(&mut self, win: &WindowHandle, data: &[u8])
        requires
            old(self).wf(),
        ensures
            final(self).wf(),
            final(self)@ == (AppStateView { bitmaps: kput(old(self)@.bitmaps, win.spec_window(), data@), ..old(self)@ }),
    {
        let ghost bs = self@.bitmaps;
        proof {
            lemma_views_keep_keys(self.buffers@, self.bitmaps@);
        }
        let i = kfind::<Vec<u8>, Seq<u8>>(&self.bitmaps, win.window, Ghost(bs));
        proof {
            lemma_kpos(bs, win.window, data@);
        }
        let copy = copy_bytes(data);
        if i < self.bitmaps.len() && self.bitmaps[i].0 == win.window {
            self.bitmaps.set(i, (win.window, copy));
            proof {
                assert(self@.bitmaps =~= bs.update(i as int, (win.window, data@)));
            }
        } else {
            self.bitmaps.insert(i, (win.window, copy));
            proof {
                assert(self@.bitmaps =~= bs.insert(i as int, (win.window, data@)));
            }
        }
    }

    /// Start a tick: no text yet.
    pub fn begin_tick(&mut self)
        requires
            old(self).wf(),
        ensures
            final(self).wf(),
            final(self)@ == (AppStateView { buffers: Seq::empty(), ..old(self)@ }),
    {
        self.buffers = Vec::new();
        assert(self@.buffers =~= Seq::<(u128, Seq<char>)>::empty());
    }

    /// End a tick: a surface for each window drawn to this tick that has a
    /// pixmap, in increasing window id order, carrying the window's text and
    /// (taken out of the state) its bitmap; then no text is left.
    pub fn flush(&mut self, tick: u64) -> (r: Vec<SurfaceUpdate>)
        requires
            old(self).wf(),
        ensures
            final(self).wf(),
            surface_updates_view(r@) == spec_flush(old(self)@.buffers, old(self)@.bitmaps, old(self)@.pixmaps, tick).0,
            final(self)@ == (AppStateView {
                buffers: Seq::empty(),
                bitmaps: spec_flush(old(self)@.buffers, old(self)@.bitmaps, old(self)@.pixmaps, tick).1,
                ..old(self)@
            }),
    {
        let ghost all = self@.buffers;
        let ghost bm0 = self@.bitmaps;
        let ghost ps = self@.pixmaps;
        let ghost old_view = self@;
        let mut buffers: Vec<(u128, String)> = Vec::new();
        std::mem::swap(&mut buffers, &mut self.buffers);
        let mut out: Vec<SurfaceUpdate> = Vec::new();
        let mut i: usize = 0;
        assert(all.skip(0) =~= all);
        while i < buffers.len()
            invariant
                i <= buffers@.len(),
                buffers_view(buffers@) == all,
                self.buffers@.len() == 0,
                keys_sorted(self.bitmaps@),
                keys_sorted(self.window_pixmaps@),
                self.window_pixmaps@ == ps,
                self.compositor == old_view.compositor,
                self.window_counter == old_view.window_counter,
                self.app_id == old_view.app_id,
                spec_flush(all, bm0, ps, tick).0 == surface_updates_view(out@) + spec_flush(all.skip(i as int), self@.bitmaps, ps, tick).0,
                spec_flush(all, bm0, ps, tick).1 == spec_flush(all.skip(i as int), self@.bitmaps, ps, tick).1,
            decreases buffers@.len() - i,
        {
            let ghost rest = all.skip(i as int);
            let ghost bmi = self@.bitmaps;
            proof {
                assert(rest[0] == all[i as int]);
                assert(rest.drop_first() =~= all.skip(i + 1));
            }
            let window = buffers[i].0;
            let j = kfind::<u128, u128>(&self.window_pixmaps, window, Ghost(ps));
            proof {
                lemma_kpos(ps, window, 0u128);
            }
            if j < self.window_pixmaps.len() && self.window_pixmaps[j].0 == window {
                let pixmap = self.window_pixmaps[j].1;
                let mut payload = SymbolMap::new();
                payload.insert(Symbol(SRC), Value::Uuid(window));
                payload.insert(Symbol(TARGET), Value::Uuid(pixmap));
                payload.insert(Symbol(REVISION), Value::U64(tick));
                let text = copy_bytes(buffers[i].1.as_str().as_bytes());
                payload.insert(Symbol(TEXT), Value::Bytes(text));
                payload.insert(Symbol(DIRTY), Value::Bool(true));
                payload.insert(Symbol(VISIBLE), Value::Bool(true));
                proof {
                    lemma_views_keep_keys(self.buffers@, self.bitmaps@);
                }
                let k = kfind::<Vec<u8>, Seq<u8>>(&self.bitmaps, window, Ghost(bmi));
                proof {
                    lemma_kpos(bmi, window, Seq::<u8>::empty());
                }
                if k < self.bitmaps.len() && self.bitmaps[k].0 == window {
                    let (_, bmp) = self.bitmaps.remove(k);
                    payload.insert(Symbol(BITMAP), Value::Bytes(bmp));
                    proof {
                        assert(self@.bitmaps =~= bmi.remove(k as int));
                    }
                }
                proof {
                    lemma_views_keep_keys(self.buffers@, self.bitmaps@);
                    lemma_same_keys_sorted(self.bitmaps@, self@.bitmaps);
                    assert(payload@ =~= spec_surface_payload(window, pixmap, tick, all[i as int].1, kget(bmi, window)));
                }
                let ghost before = out@;
                out.push(SurfaceUpdate { pixmap, window, payload });
                proof {
                    assert(surface_updates_view(out@) =~= surface_updates_view(before).push(surface_update_view(out@.last())));
                }
            }
            i = i + 1;
        }
        proof {
            assert(all.skip(i as int) =~= Seq::<(u128, Seq<char>)>::empty());
            assert(self@.buffers =~= Seq::<(u128, Seq<char>)>::empty());
        }
        out
    }
}

proof fn lemma_kget_absent<V>(s: Seq<(u128, V)>, k: u128)
    requires
        forall|j: int| 0 <= j < s.len() ==> #[trigger] s[j].0 != k,
    ensures
        kget(s, k) is None,
    decreases s.len(),
{
    if s.len() > 0 {
        assert(s[0].0 != k);
        assert forall|j: int| 0 <= j < s.drop_first().len() implies #[trigger] s.drop_first()[j].0 != k by {
            assert(s.drop_first()[j] == s[j + 1]);
        }
        lemma_kget_absent(s.drop_first(), k);
    }
}

/// Removing key `k` leaves every other key's value as it was and `k` absent.
pub proof fn lemma_kremove_get<V>(s: Seq<(u128, V)>, k: u128, k2: u128)
    requires
        keys_sorted(s),
    ensures
        kget(kremove(s, k), k2) == (if k2 == k {
            None
        } else {
            kget(s, k2)
        }),
    decreases s.len(),
{
    if s.len() > 0 {
        lemma_sorted_rest(s);
        if s[0].0 == k {
            if k2 == k {
                assert forall|j: int| 0 <= j < s.drop_first().len() implies #[trigger] s.drop_first()[j].0 != k by {
                    assert(s.drop_first()[j] == s[j + 1]);
                    assert(s[0].0 < s[j + 1].0);
                }
                lemma_kget_absent(s.drop_first(), k);
            }
        } else {
            lemma_kremove_get(s.drop_first(), k, k2);
            let r = kremove(s, k);
            assert(r[0] == s[0]);
            assert(r.drop_first() =~= kremove(s.drop_first(), k));
        }
    }
}

/// Flushing hands each bitmap over at most once: a window that got a
/// surface has no bitmap left afterwards, and every bitmap left is one that
/// was drawn, unchanged.
pub proof fn lemma_flush_consumes_bitmaps(
    buffers: Seq<(u128, Seq<char>)>,
    bitmaps: Seq<(u128, Seq<u8>)>,
    pixmaps: Seq<(u128, u128)>,
    tick: u64,
)
    requires
        keys_sorted(bitmaps),
    ensures
        forall|i: int|
            0 <= i < spec_flush(buffers, bitmaps, pixmaps, tick).0.len() ==> kget(
                spec_flush(buffers, bitmaps, pixmaps, tick).1,
                #[trigger] spec_flush(buffers, bitmaps, pixmaps, tick).0[i].window,
            ) is None,
        forall|k: u128|
            #[trigger] kget(spec_flush(buffers, bitmaps, pixmaps, tick).1, k) is Some ==> kget(
                spec_flush(buffers, bitmaps, pixmaps, tick).1,
                k,
            ) == kget(bitmaps, k),
    decreases buffers.len(),
{
    if buffers.len() > 0 {
        let (window, text) = buffers[0];
        match kget(pixmaps, window) {
            Some(pixmap) => {
                let nb = kremove(bitmaps, window);
                lemma_kpos(bitmaps, window, Seq::<u8>::empty());
                lemma_flush_consumes_bitmaps(buffers.drop_first(), nb, pixmaps, tick);
                let (rest, left) = spec_flush(buffers.drop_first(), nb, pixmaps, tick);
                let out = spec_flush(buffers, bitmaps, pixmaps, tick).0;
                assert forall|k: u128| #[trigger] kget(left, k) is Some implies kget(left, k) == kget(bitmaps, k) by {
                    lemma_kremove_get(bitmaps, window, k);
                }
                assert forall|i: int| 0 <= i < out.len() implies kget(left, #[trigger] out[i].window) is None by {
                    if i == 0 {
                        lemma_kremove_get(bitmaps, window, window);
                        if kget(left, window) is Some {
                            assert(kget(left, window) == kget(nb, window));
                        }
                    } else {
                        assert(out[i] == rest[i - 1]);
                    }
                }
            },
            None => {
                lemma_flush_consumes_bitmaps(buffers.drop_first(), bitmaps, pixmaps, tick);
            },
        }
    }
}

} // verus!
