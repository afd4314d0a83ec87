//! Typed views of graph Things: shared buffers, queue states, windows and
//! surfaces, each written to fields and read back from a Thing.

use vstd::prelude::*;
use crate::abi::{SymbolMap, Value, ValueView, extract_text, spec_extract_text, value_view};
use crate::canon::{
    Symbol, ADDR, BITMAP, BUFFER, BUFFER_KIND, BUFFER_USAGE, BYTES, CAPACITY, DIRTY, HAS_DATA, HEAD,
    HEIGHT, OWNER, QUEUE_STATE, SHARED_BUFFER, SRC, SURFACE, TAIL, TARGET, TEXT, TITLE, VISIBLE,
    WIDTH, WINDOW, X, Y, Z,
};
use crate::records::{GraphThing, ThingView};

verus! {

/// The unsigned number stored under a key.
pub open spec fn field_u64(f: Map<u32, ValueView>, k: u32) -> Option<u64> {
    if f.contains_key(k) {
        match f[k] {
            ValueView::U64(n) => Some(n),
            _ => None,
        }
    } else {
        None
    }
}

/// The signed number stored under a key.
pub open spec fn field_i64(f: Map<u32, ValueView>, k: u32) -> Option<i64> {
    if f.contains_key(k) {
        match f[k] {
            ValueView::I64(n) => Some(n),
            _ => None,
        }
    } else {
        None
    }
}

/// The flag stored under a key.
pub open spec fn field_bool(f: Map<u32, ValueView>, k: u32) -> Option<bool> {
    if f.contains_key(k) {
        match f[k] {
            ValueView::Bool(b) => Some(b),
            _ => None,
        }
    } else {
        None
    }
}

/// The symbol stored under a key.
pub open spec fn field_symbol(f: Map<u32, ValueView>, k: u32) -> Option<u32> {
    if f.contains_key(k) {
        match f[k] {
            ValueView::Symbol(s) => Some(s),
            _ => None,
        }
    } else {
        None
    }
}

/// The UUID stored under a key.
pub open spec fn field_uuid(f: Map<u32, ValueView>, k: u32) -> Option<u128> {
    if f.contains_key(k) {
        match f[k] {
            ValueView::Uuid(u) => Some(u),
            _ => None,
        }
    } else {
        None
    }
}

/// The text stored under a key.
pub open spec fn field_text(f: Map<u32, ValueView>, k: u32) -> Option<Seq<char>> {
    if f.contains_key(k) {
        spec_extract_text(f[k])
    } else {
        None
    }
}

/// The bytes stored under a key (as `Bytes`).
pub open spec fn field_bytes(f: Map<u32, ValueView>, k: u32) -> Option<Seq<u8>> {
    if f.contains_key(k) {
        match f[k] {
            ValueView::Bytes(b) => Some(b),
            _ => None,
        }
    } else {
        None
    }
}

/// An optional number, or a default.
pub open spec fn or_u64(o: Option<u64>, d: u64) -> u64 {
    match o {
        Some(v) => v,
        None => d,
    }
}

/// An optional flag, or a default.
pub open spec fn or_bool(o: Option<bool>, d: bool) -> bool {
    match o {
        Some(v) => v,
        None => d,
    }
}

pub(crate) fn get_u64(f: &SymbolMap, k: u32) -> (r: Option<u64>)
    ensures
        r == field_u64(f@, k),
{
    match f.get(&Symbol(k)) {
        Some(v) => v.as_u64(),
        None => None,
    }
}

pub(crate) fn get_i64(f: &SymbolMap, k: u32) -> (r: Option<i64>)
    ensures
        r == field_i64(f@, k),
{
    match f.get(&Symbol(k)) {
        Some(v) => v.as_i64(),
        None => None,
    }
}

pub(crate) fn get_bool(f: &SymbolMap, k: u32) -> (r: Option<bool>)
    ensures
        r == field_bool(f@, k),
{
    match f.get(&Symbol(k)) {
        Some(v) => v.as_bool(),
        None => None,
    }
}

pub(crate) fn get_symbol(f: &SymbolMap, k: u32) -> (r: Option<Symbol>)
    ensures
        r == (match field_symbol(f@, k) {
            Some(s) => Some(Symbol(s)),
            None => None,
        }),
{
    match f.get(&Symbol(k)) {
        Some(v) => v.as_symbol(),
        None => None,
    }
}

pub(crate) fn get_uuid(f: &SymbolMap, k: u32) -> (r: Option<u128>)
    ensures
        r == field_uuid(f@, k),
{
    match f.get(&Symbol(k)) {
        Some(v) => v.as_uuid(),
        None => None,
    }
}

pub(crate) fn get_text(f: &SymbolMap, k: u32) -> (r: Option<String>)
    ensures
        r matches Some(s) ==> field_text(f@, k) == Some(s@),
        r is None ==> field_text(f@, k) is None,
{
    match f.get(&Symbol(k)) {
        Some(v) => extract_text(v),
        None => None,
    }
}

/// What a shared buffer record holds.
pub struct SharedBufferView {
    pub id: u128,
    pub size_bytes: u64,
    pub kind: u32,
    pub usage: u32,
    pub addr: Option<u64>,
    pub owner: Option<u128>,
    pub props: Map<u32, ValueView>,
}

/// A buffer shared between bundles.
#[derive(Debug)]
pub struct SharedBuffer {
    pub id: u128,
    pub size_bytes: u64,
    pub kind: Symbol,
    pub usage: Symbol,
    pub addr: Option<u64>,
    pub owner: Option<u128>,
    pub props: SymbolMap,
}

impl View for SharedBuffer {
    type V = SharedBufferView;

    open spec fn view(&self) -> SharedBufferView {
        SharedBufferView {
            id: self.id,
            size_bytes: self.size_bytes,
            kind: self.kind.0,
            usage: self.usage.0,
            addr: self.addr,
            owner: self.owner,
            props: self.props@,
        }
    }
}

/// The fields that describe a shared buffer: its extra properties with the
/// size, kind, usage and (when known) address and owner written over them.
pub open spec fn spec_shared_buffer_fields(b: SharedBufferView) -> Map<u32, ValueView> {
    let f = b.props.insert(BYTES, ValueView::U64(b.size_bytes)).insert(BUFFER_KIND, ValueView::Symbol(b.kind)).insert(
        BUFFER_USAGE,
        ValueView::Symbol(b.usage),
    );
    let f2 = match b.addr {
        Some(a) => f.insert(ADDR, ValueView::U64(a)),
        None => f,
    };
    match b.owner {
        Some(o) => f2.insert(OWNER, ValueView::Uuid(o)),
        None => f2,
    }
}

/// Read a shared buffer from a Thing: it must be of the shared-buffer kind
/// and name its buffer kind and usage; a missing size reads as 0.
pub open spec fn spec_load_shared_buffer(t: ThingView) -> Option<SharedBufferView> {
    if t.kind != SHARED_BUFFER {
        None
    } else {
        match (field_symbol(t.fields, BUFFER_KIND), field_symbol(t.fields, BUFFER_USAGE)) {
            (Some(kind), Some(usage)) => Some(SharedBufferView {
                id: t.id,
                size_bytes: or_u64(field_u64(t.fields, BYTES), 0),
                kind,
                usage,
                addr: field_u64(t.fields, ADDR),
                owner: field_uuid(t.fields, OWNER),
                props: t.fields,
            }),
            _ => None,
        }
    }
}

impl SharedBuffer {
    /// The fields that describe this buffer.
    pub fn to_fields(&self) -> (f: SymbolMap)
        ensures
            f@ == spec_shared_buffer_fields(self@),
    {
        let mut fields = self.props.copy();
        fields.insert(Symbol(BYTES), Value::U64(self.size_bytes));
        fields.insert(Symbol(BUFFER_KIND), Value::Symbol(self.kind));
        fields.insert(Symbol(BUFFER_USAGE), Value::Symbol(self.usage));
        match self.addr {
            Some(a) => fields.insert(Symbol(ADDR), Value::U64(a)),
            None => {},
        }
        match self.owner {
            Some(o) => fields.insert(Symbol(OWNER), Value::Uuid(o)),
            None => {},
        }
        fields
    }

    /// Read a shared buffer from a Thing.
    pub fn load(thing: &GraphThing) -> (r: Option<SharedBuffer>)
        ensures
            r matches Some(b) ==> spec_load_shared_buffer(thing@) == Some(b@),
            r is None ==> spec_load_shared_buffer(thing@) is None,
    {
        if thing.kind.0 != SHARED_BUFFER {
            return None;
        }
        let size_bytes = match get_u64(&thing.fields, BYTES) {
            Some(n) => n,
            None => 0,
        };
        let kind = match get_symbol(&thing.fields, BUFFER_KIND) {
            Some(k) => k,
            None => {
                return None;
            },
        };
        let usage = match get_symbol(&thing.fields, BUFFER_USAGE) {
            Some(u) => u,
            None => {
                return None;
            },
        };
        let addr = get_u64(&thing.fields, ADDR);
        let owner = get_uuid(&thing.fields, OWNER);
        Some(SharedBuffer { id: thing.id, size_bytes, kind, usage, addr, owner, props: thing.fields.copy() })
    }
}

/// What a queue state record holds.
pub struct QueueStateView {
    pub id: u128,
    pub buffer: u128,
    pub owner: Option<u128>,
    pub head: u64,
    pub tail: u64,
    pub has_data: bool,
    pub capacity: Option<u64>,
    pub props: Map<u32, ValueView>,
}

/// The read and write positions of a queue in a shared buffer.
#[derive(Debug)]
pub struct QueueState {
    pub id: u128,
    pub buffer: u128,
    pub owner: Option<u128>,
    pub head: u64,
    pub tail: u64,
    pub has_data: bool,
    pub capacity: Option<u64>,
    pub props: SymbolMap,
}

impl View for QueueState {
    type V = QueueStateView;

    open spec fn view(&self) -> QueueStateView {
        QueueStateView {
            id: self.id,
            buffer: self.buffer,
            owner: self.owner,
            head: self.head,
            tail: self.tail,
            has_data: self.has_data,
            capacity: self.capacity,
            props: self.props@,
        }
    }
}

/// The fields that describe a queue state.
pub open spec fn spec_queue_state_fields(q: QueueStateView) -> Map<u32, ValueView> {
    let f = q.props.insert(BUFFER, ValueView::Uuid(q.buffer)).insert(HEAD, ValueView::U64(q.head)).insert(
        TAIL,
        ValueView::U64(q.tail),
    ).insert(HAS_DATA, ValueView::Bool(q.has_data));
    let f2 = match q.capacity {
        Some(c) => f.insert(CAPACITY, ValueView::U64(c)),
        None => f,
    };
    match q.owner {
        Some(o) => f2.insert(OWNER, ValueView::Uuid(o)),
        None => f2,
    }
}

/// Read a queue state from a Thing: it must be of the queue-state kind and
/// name its buffer; missing positions read as 0 and a missing flag as false.
pub open spec fn spec_load_queue_state(t: ThingView) -> Option<QueueStateView> {
    if t.kind != QUEUE_STATE {
        None
    } else {
        match field_uuid(t.fields, BUFFER) {
            None => None,
            Some(buffer) => Some(QueueStateView {
                id: t.id,
                buffer,
                owner: field_uuid(t.fields, OWNER),
                head: or_u64(field_u64(t.fields, HEAD), 0),
                tail: or_u64(field_u64(t.fields, TAIL), 0),
                has_data: or_bool(field_bool(t.fields, HAS_DATA), false),
                capacity: field_u64(t.fields, CAPACITY),
                props: t.fields,
            }),
        }
    }
}

impl QueueState {
    /// The fields that describe this queue state.
    pub fn to_fields(&self) -> (f: SymbolMap)
        ensures
            f@ == spec_queue_state_fields(self@),
    {
        let mut fields = self.props.copy();
        fields.insert(Symbol(BUFFER), Value::Uuid(self.buffer));
        fields.insert(Symbol(HEAD), Value::U64(self.head));
        fields.insert(Symbol(TAIL), Value::U64(self.tail));
        fields.insert(Symbol(HAS_DATA), Value::Bool(self.has_data));
        match self.capacity {
            Some(c) => fields.insert(Symbol(CAPACITY), Value::U64(c)),
            None => {},
        }
        match self.owner {
            Some(o) => fields.insert(Symbol(OWNER), Value::Uuid(o)),
            None => {},
        }
        fields
    }

    /// Read a queue state from a Thing.
    pub fn load(thing: &GraphThing) -> (r: Option<QueueState>)
        ensures
            r matches Some(q) ==> spec_load_queue_state(thing@) == Some(q@),
            r is None ==> spec_load_queue_state(thing@) is None,
    {
        if thing.kind.0 != QUEUE_STATE {
            return None;
        }
        let buffer = match get_uuid(&thing.fields, BUFFER) {
            Some(b) => b,
            None => {
                return None;
            },
        };
        let owner = get_uuid(&thing.fields, OWNER);
        let head = match get_u64(&thing.fields, HEAD) {
            Some(n) => n,
            None => 0,
        };
        let tail = match get_u64(&thing.fields, TAIL) {
            Some(n) => n,
            None => 0,
        };
        let has_data = match get_bool(&thing.fields, HAS_DATA) {
            Some(b) => b,
            None => false,
        };
        let capacity = get_u64(&thing.fields, CAPACITY);
        Some(QueueState { id: thing.id, buffer, owner, head, tail, has_data, capacity, props: thing.fields.copy() })
    }
}

/// What a window record holds.
pub struct WindowView {
    pub id: u128,
    pub width: u64,
    pub height: u64,
    pub title: Seq<char>,
    pub x: u64,
    pub y: u64,
    pub z: i64,
    pub visible: bool,
    pub target: Option<u128>,
}

/// A window on the screen.
#[derive(Debug)]
pub struct Window {
    pub id: u128,
    pub width: u64,
    pub height: u64,
    pub title: String,
    pub x: u64,
    pub y: u64,
    pub z: i64,
    pub visible: bool,
    pub target: Option<u128>,
}

impl View for Window {
    type V = WindowView;

    open spec fn view(&self) -> WindowView {
        WindowView {
            id: self.id,
            width: self.width,
            height: self.height,
            title: self.title@,
            x: self.x,
            y: self.y,
            z: self.z,
            visible: self.visible,
            target: self.target,
        }
    }
}

/// The fields that describe a window.
pub open spec fn spec_window_fields(w: WindowView) -> Map<u32, ValueView> {
    let f = map![
        WIDTH => ValueView::U64(w.width),
        HEIGHT => ValueView::U64(w.height),
        TITLE => ValueView::Text(w.title),
        X => ValueView::U64(w.x),
        Y => ValueView::U64(w.y),
        Z => ValueView::I64(w.z),
        VISIBLE => ValueView::Bool(w.visible)
    ];
    match w.target {
        Some(t) => f.insert(TARGET, ValueView::Uuid(t)),
        None => f,
    }
}

/// Read a window from a Thing of the window kind; a missing size, position
/// or depth reads as 0, a missing title as empty, and visibility defaults to true.
pub open spec fn spec_load_window(t: ThingView) -> Option<WindowView> {
    if t.kind != WINDOW {
        None
    } else {
        Some(WindowView {
            id: t.id,
            width: or_u64(field_u64(t.fields, WIDTH), 0),
            height: or_u64(field_u64(t.fields, HEIGHT), 0),
            title: match field_text(t.fields, TITLE) {
                Some(s) => s,
                None => Seq::empty(),
            },
            x: or_u64(field_u64(t.fields, X), 0),
            y: or_u64(field_u64(t.fields, Y), 0),
            z: match field_i64(t.fields, Z) {
                Some(z) => z,
                None => 0,
            },
            visible: or_bool(field_bool(t.fields, VISIBLE), true),
            target: field_uuid(t.fields, TARGET),
        })
    }
}

impl Window {
    /// The fields that describe this window.
    pub fn to_fields(&self) -> (f: SymbolMap)
        ensures
            f@ == spec_window_fields(self@),
    {
        let mut m = SymbolMap::new();
        m.insert(Symbol(WIDTH), Value::U64(self.width));
        m.insert(Symbol(HEIGHT), Value::U64(self.height));
        m.insert(Symbol(TITLE), Value::Text(self.title.clone()));
        m.insert(Symbol(X), Value::U64(self.x));
        m.insert(Symbol(Y), Value::U64(self.y));
        m.insert(Symbol(Z), Value::I64(self.z));
        m.insert(Symbol(VISIBLE), Value::Bool(self.visible));
        match self.target {
            Some(t) => m.insert(Symbol(TARGET), Value::Uuid(t)),
            None => {},
        }
        proof {
            let f = map![
                WIDTH => ValueView::U64(self.width),
                HEIGHT => ValueView::U64(self.height),
                TITLE => ValueView::Text(self.title@),
                X => ValueView::U64(self.x),
                Y => ValueView::U64(self.y),
                Z => ValueView::I64(self.z),
                VISIBLE => ValueView::Bool(self.visible)
            ];
            assert(m@ =~= spec_window_fields(self@));
        }
        m
    }

    /// Read a window from a Thing.
    pub fn load(thing: &GraphThing) -> (r: Option<Window>)
        ensures
            r matches Some(w) ==> spec_load_window(thing@) == Some(w@),
            r is None ==> spec_load_window(thing@) is None,
    {
        if thing.kind.0 != WINDOW {
            return None;
        }
        let width = match get_u64(&thing.fields, WIDTH) {
            Some(n) => n,
            None => 0,
        };
        let height = match get_u64(&thing.fields, HEIGHT) {
            Some(n) => n,
            None => 0,
        };
        let title = match get_text(&thing.fields, TITLE) {
            Some(s) => s,
            None => String::new(),
        };
        let x = match get_u64(&thing.fields, X) {
            Some(n) => n,
            None => 0,
        };
        let y = match get_u64(&thing.fields, Y) {
            Some(n) => n,
            None => 0,
        };
        let z = match get_i64(&thing.fields, Z) {
            Some(n) => n,
            None => 0,
        };
        let visible = match get_bool(&thing.fields, VISIBLE) {
            Some(b) => b,
            None => true,
        };
        let target = get_uuid(&thing.fields, TARGET);
        Some(Window { id: thing.id, width, height, title, x, y, z, visible, target })
    }
}

/// What a surface record holds.
pub struct SurfaceView {
    pub id: u128,
    pub window: Option<u128>,
    pub dirty: bool,
    pub text: Seq<char>,
    pub bitmap: Option<Seq<u8>>,
}

/// A drawable surface of a window.
#[derive(Debug)]
pub struct Surface {
    pub id: u128,
    pub window: Option<u128>,
    pub dirty: bool,
    pub text: String,
    pub bitmap: Option<Vec<u8>>,
}

impl View for Surface {
    type V = SurfaceView;

    open spec fn view(&self) -> SurfaceView {
        SurfaceView {
            id: self.id,
            window: self.window,
            dirty: self.dirty,
            text: self.text@,
            bitmap: match self.bitmap {
                Some(b) => Some(b@),
                None => None,
            },
        }
    }
}

/// Read a surface from a Thing of the surface kind: its window is the `SRC`
/// field, a missing flag reads as false and a missing text as empty.
pub open spec fn spec_load_surface(t: ThingView) -> Option<SurfaceView> {
    if t.kind != SURFACE {
        None
    } else {
        Some(SurfaceView {
            id: t.id,
            window: field_uuid(t.fields, SRC),
            dirty: or_bool(field_bool(t.fields, DIRTY), false),
            text: match field_text(t.fields, TEXT) {
                Some(s) => s,
                None => Seq::empty(),
            },
            bitmap: field_bytes(t.fields, BITMAP),
        })
    }
}

impl Surface {
    /// Read a surface from a Thing.
    pub fn load(thing: &GraphThing) -> (r: Option<Surface>)
        ensures
            r matches Some(s) ==> spec_load_surface(thing@) == Some(s@),
            r is None ==> spec_load_surface(thing@) is None,
    {
        if thing.kind.0 != SURFACE {
            return None;
        }
        let window = get_uuid(&thing.fields, SRC);
        let dirty = match get_bool(&thing.fields, DIRTY) {
            Some(b) => b,
            None => false,
        };
        let text = match get_text(&thing.fields, TEXT) {
            Some(s) => s,
            None => String::new(),
        };
        let bitmap = match thing.fields.get(&Symbol(BITMAP)) {
            Some(Value::Bytes(b)) => Some(b.clone()),
            _ => None,
        };
        Some(Surface { id: thing.id, window, dirty, text, bitmap })
    }
}

/// A shared buffer written to fields reads back with its size, kind, usage,
/// address and owner (when its extra properties do not themselves hold an
/// address or owner it lacks); its properties are then all of those fields.
pub proof fn lemma_shared_buffer_round_trip(b: SharedBufferView, id: u128, labels: Set<u32>, owner: u128, revision: u64)
    requires
        b.addr is None ==> !b.props.contains_key(ADDR),
        b.owner is None ==> !b.props.contains_key(OWNER),
    ensures
        spec_load_shared_buffer(
            ThingView { id, kind: SHARED_BUFFER, labels, fields: spec_shared_buffer_fields(b), owner, revision },
        ) == Some(SharedBufferView { id, props: spec_shared_buffer_fields(b), ..b }),
{
}

/// A queue state written to fields reads back with its buffer, owner,
/// positions, flag and capacity (when its extra properties do not themselves
/// hold a capacity or owner it lacks); its properties are then all of those fields.
pub proof fn lemma_queue_state_round_trip(q: QueueStateView, id: u128, labels: Set<u32>, owner: u128, revision: u64)
    requires
        q.capacity is None ==> !q.props.contains_key(CAPACITY),
        q.owner is None ==> !q.props.contains_key(OWNER),
    ensures
        spec_load_queue_state(
            ThingView { id, kind: QUEUE_STATE, labels, fields: spec_queue_state_fields(q), owner, revision },
        ) == Some(QueueStateView { id, props: spec_queue_state_fields(q), ..q }),
{
}

/// A window written to fields reads back unchanged (with the Thing's id).
pub proof fn lemma_window_round_trip(w: WindowView, id: u128, labels: Set<u32>, owner: u128, revision: u64)
    ensures
        spec_load_window(ThingView { id, kind: WINDOW, labels, fields: spec_window_fields(w), owner, revision })
            == Some(WindowView { id, ..w }),
{
}

} // verus!
