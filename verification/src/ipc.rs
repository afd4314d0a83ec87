//! The payloads of the journal events userland announces: a Thing created,
//! an edge added, a frame ready, a window's buffer updated. Handing them to
//! the journal is the caller's part.

use vstd::prelude::*;
use crate::abi::{SymbolMap, Value, ValueView};
use crate::canon::{Symbol, DST, FIELDS, ID, KIND, PREDICATE, REVISION, SRC, TARGET, TEXT};

verus! {

/// The payload announcing a created Thing.
pub open spec fn spec_thing_created(id: u128, kind: u32, revision: u64, fields: Map<u32, ValueView>) -> Map<u32, ValueView> {
    map![
        ID => ValueView::Uuid(id),
        KIND => ValueView::Symbol(kind),
        REVISION => ValueView::U64(revision),
        FIELDS => ValueView::Dict(fields)
    ]
}

/// The payload announcing an added edge.
pub open spec fn spec_edge_added(src: u128, pred: u32, dst: u128, revision: u64) -> Map<u32, ValueView> {
    map![
        SRC => ValueView::Uuid(src),
        DST => ValueView::Uuid(dst),
        PREDICATE => ValueView::Symbol(pred),
        REVISION => ValueView::U64(revision)
    ]
}

/// The payload announcing a frame the compositor drew from a pixmap.
pub open spec fn spec_frame_ready(compositor: u128, framebuffer: u128, pixmap: u128, text: Seq<u8>) -> Map<u32, ValueView> {
    map![
        SRC => ValueView::Uuid(compositor),
        DST => ValueView::Uuid(framebuffer),
        TARGET => ValueView::Uuid(pixmap),
        TEXT => ValueView::Bytes(text)
    ]
}

/// The payload announcing new text in a window's buffer.
pub open spec fn spec_window_buffer_updated(window: u128, pixmap: u128, revision: u64, text: Seq<u8>) -> Map<u32, ValueView> {
    map![
        SRC => ValueView::Uuid(window),
        TARGET => ValueView::Uuid(pixmap),
        REVISION => ValueView::U64(revision),
        TEXT => ValueView::Bytes(text)
    ]
}

fn copy_bytes(data: &[u8]) -> (r: Vec<u8>)
    ensures
        r@ == data@,
{
    let mut copy: Vec<u8> = Vec::new();
    let mut j: usize = 0;
    while j < data.len()
        invariant
            j <= data@.len(),
            copy@ == data@.take(j as int),
        decreases data@.len() - j,
    {
        copy.push(data[j]);
        proof {
            assert(data@.take(j + 1) =~= data@.take(j as int).push(data@[j as int]));
        }
        j = j + 1;
    }
    proof {
        assert(data@.take(j as int) =~= data@);
    }
    copy
}

/// The payload of a `THING_CREATED` event.
pub fn thing_created(id: u128, kind: Symbol, revision: u64, fields: SymbolMap) -> (m: SymbolMap)
    ensures
        m@ == spec_thing_created(id, kind.0, revision, fields@),
{
    let ghost f = fields@;
    let mut m = SymbolMap::new();
    m.insert(Symbol(ID), Value::Uuid(id));
    m.insert(Symbol(KIND), Value::Symbol(kind));
    m.insert(Symbol(REVISION), Value::U64(revision));
    m.insert(Symbol(FIELDS), Value::Dict(fields));
    proof {
        assert(m@ =~= spec_thing_created(id, kind.0, revision, f));
    }
    m
}

/// The payload of an `EDGE_ADDED` event.
pub fn edge_added(src: u128, pred: Symbol, dst: u128, revision: u64) -> (m: SymbolMap)
    ensures
        m@ == spec_edge_added(src, pred.0, dst, revision),
{
    let mut m = SymbolMap::new();
    m.insert(Symbol(SRC), Value::Uuid(src));
    m.insert(Symbol(DST), Value::Uuid(dst));
    m.insert(Symbol(PREDICATE), Value::Symbol(pred));
    m.insert(Symbol(REVISION), Value::U64(revision));
    proof {
        assert(m@ =~= spec_edge_added(src, pred.0, dst, revision));
    }
    m
}

/// The payload of a `FRAME_READY` event.
pub fn frame_ready(compositor: u128, framebuffer: u128, pixmap: u128, text: &[u8]) -> (m: SymbolMap)
    ensures
        m@ == spec_frame_ready(compositor, framebuffer, pixmap, text@),
{
    let mut m = SymbolMap::new();
    m.insert(Symbol(SRC), Value::Uuid(compositor));
    m.insert(Symbol(DST), Value::Uuid(framebuffer));
    m.insert(Symbol(TARGET), Value::Uuid(pixmap));
    m.insert(Symbol(TEXT), Value::Bytes(copy_bytes(text)));
    proof {
        assert(m@ =~= spec_frame_ready(compositor, framebuffer, pixmap, text@));
    }
    m
}

/// The payload of a `WINDOW_BUFFER_UPDATED` event.
pub fn window_buffer_updated(window: u128, pixmap: u128, revision: u64, text: &[u8]) -> (m: SymbolMap)
    ensures
        m@ == spec_window_buffer_updated(window, pixmap, revision, text@),
{
    let mut m = SymbolMap::new();
    m.insert(Symbol(SRC), Value::Uuid(window));
    m.insert(Symbol(TARGET), Value::Uuid(pixmap));
    m.insert(Symbol(REVISION), Value::U64(revision));
    m.insert(Symbol(TEXT), Value::Bytes(copy_bytes(text)));
    proof {
        assert(m@ =~= spec_window_buffer_updated(window, pixmap, revision, text@));
    }
    m
}

} // verus!
