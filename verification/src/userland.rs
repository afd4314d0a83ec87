//! Userland helpers: stable ids from names, pixel blending, watch handles,
//! the widget ABI records, the app manifest and the driver registry.

use vstd::prelude::*;
use vstd::string::StringSliceAdditionalSpecFns;
use crate::abi::{SymbolMap, Value, ValueView, value_view};
use crate::driver_runtime::DeviceKind;
use crate::ids::{spec_uuid_v5, uuid_v5, NAMESPACE_OID};
use crate::canon::{str_eq, Symbol, DRIVER, DRIVER_DISPLAY, DRIVER_INPUT, DRIVER_OTHER, DRIVER_STORAGE, DRIVER_TIMER, INIT, KIND, NAME, STATUS, TEXT};

verus! {

/// FNV-1a offset basis.
pub const FNV_OFFSET: u64 = 0xcbf29ce484222325;

/// The multiplier of the name hash.
pub const FNV_PRIME: u64 = 0x1099511628211;

/// The hash of a byte string: FNV-1a style, xor then multiply, wrapping.
pub open spec fn spec_name_hash(name: Seq<u8>) -> u64
    decreases name.len(),
{
    if name.len() == 0 {
        FNV_OFFSET
    } else {
        vstd::wrapping::u64_specs::wrapping_mul(spec_name_hash(name.drop_last()) ^ (name.last() as u64), FNV_PRIME)
    }
}

/// The id derived from a name: its hash in both halves.
pub open spec fn spec_simple_uuid(name: Seq<u8>) -> u128 {
    crate::records::spec_uuid_from_counter(spec_name_hash(name))
}

/// A stable id for a name.
pub fn simple_uuid(name: &[u8]) -> (id: u128)
    ensures
        id == spec_simple_uuid(name@),
{
    let mut hash: u64 = FNV_OFFSET;
    let mut i: usize = 0;
    while i < name.len()
        invariant
            i <= name@.len(),
            hash == spec_name_hash(name@.take(i as int)),
        decreases name@.len() - i,
    {
        proof {
            assert(name@.take(i + 1).drop_last() =~= name@.take(i as int));
            assert(name@.take(i + 1).last() == name@[i as int]);
        }
        hash = (hash ^ (name[i] as u64)).wrapping_mul(FNV_PRIME);
        i = i + 1;
    }
    proof {
        assert(name@.take(i as int) =~= name@);
    }
    crate::records::uuid_from_counter(hash)
}

/// One colour channel of `fg` over `bg` with opacity `alpha` (0 to 255).
pub open spec fn spec_channel(fg: u32, bg: u32, alpha: u32) -> u32 {
    ((fg * alpha + bg * (255 - alpha)) / 255) as u32
}

/// `fg` drawn over `bg`: an opaque or transparent `fg` wins or vanishes;
/// otherwise each channel is mixed by `fg`'s alpha and the result is opaque.
pub open spec fn spec_blend(fg: u32, bg: u32) -> u32 {
    let alpha = (fg >> 24u32) & 0xFF;
    if alpha == 0 {
        bg
    } else if alpha == 255 {
        fg
    } else {
        let r = spec_channel((fg >> 16u32) & 0xFF, (bg >> 16u32) & 0xFF, alpha);
        let g = spec_channel((fg >> 8u32) & 0xFF, (bg >> 8u32) & 0xFF, alpha);
        let b = spec_channel(fg & 0xFF, bg & 0xFF, alpha);
        (0xFF000000u32 | (r << 16u32) | (g << 8u32) | b) as u32
    }
}

fn channel(fg: u32, bg: u32, alpha: u32) -> (c: u32)
    requires
        fg <= 255,
        bg <= 255,
        1 <= alpha <= 254,
    ensures
        c == spec_channel(fg, bg, alpha),
        c <= 255,
{
    assert(fg * alpha <= 255 * 254) by (nonlinear_arith)
        requires
            fg <= 255,
            alpha <= 254,
    ;
    assert(bg * (255 - alpha) <= 255 * 254) by (nonlinear_arith)
        requires
            bg <= 255,
            1 <= alpha,
    ;
    assert(fg * alpha + bg * (255 - alpha) <= 255 * 255) by (nonlinear_arith)
        requires
            fg <= 255,
            bg <= 255,
            alpha <= 255,
    ;
    (fg * alpha + bg * (255 - alpha)) / 255
}

/// Alpha-blend two ARGB pixels.
pub fn blend(fg: u32, bg: u32) -> (p: u32)
    ensures
        p == spec_blend(fg, bg),
{
    let alpha = (fg >> 24u32) & 0xFF;
    if alpha == 0 {
        return bg;
    }
    if alpha == 255 {
        return fg;
    }
    assert(alpha <= 255) by (bit_vector)
        requires
            alpha == (fg >> 24u32) & 0xFF,
    ;
    let fr = (fg >> 16u32) & 0xFF;
    let fgc = (fg >> 8u32) & 0xFF;
    let fb = fg & 0xFF;
    let br = (bg >> 16u32) & 0xFF;
    let bgc = (bg >> 8u32) & 0xFF;
    let bb = bg & 0xFF;
    assert(fr <= 255 && fgc <= 255 && fb <= 255 && br <= 255 && bgc <= 255 && bb <= 255) by (bit_vector)
        requires
            fr == (fg >> 16u32) & 0xFF,
            fgc == (fg >> 8u32) & 0xFF,
            fb == fg & 0xFF,
            br == (bg >> 16u32) & 0xFF,
            bgc == (bg >> 8u32) & 0xFF,
            bb == bg & 0xFF,
    ;
    let r = channel(fr, br, alpha);
    let g = channel(fgc, bgc, alpha);
    let b = channel(fb, bb, alpha);
    0xFF000000u32 | (r << 16u32) | (g << 8u32) | b
}

/// A watch registered with the kernel.
#[derive(Debug, Clone, Copy, PartialEq, Eq, Structural)]
pub struct WatchHandle {
    pub id: u64,
}

/// A watch of the userland watch manager.
#[derive(Debug, Clone, Copy, PartialEq, Eq, Structural, Hash)]
pub struct WatchId(pub u32);

/// The Thing runtime that reaches the kernel through system calls.
#[derive(Debug, Clone, Copy, PartialEq, Eq, Structural)]
pub struct KernelRuntime;

impl KernelRuntime {
    /// The kernel runtime.
    pub fn new() -> (r: KernelRuntime)
        ensures
            r == KernelRuntime,
    {
        KernelRuntime
    }
}

/// A rectangle of a widget on the screen.
#[derive(Clone, Copy, Debug, PartialEq, Eq, Structural)]
pub struct Rect {
    pub x: i32,
    pub y: i32,
    pub width: u32,
    pub height: u32,
}

/// A widget's handle on the graph.
#[derive(Clone, Copy, Debug, PartialEq, Eq, Structural)]
pub struct GraphHandle;

/// A widget's event receiver.
#[derive(Clone, Copy, Debug, PartialEq, Eq, Structural)]
pub struct WidgetEventRx;

/// The framebuffer a widget draws into.
#[derive(Clone, Copy, Debug, PartialEq, Eq, Structural)]
pub struct SharedFramebuffer {
    pub width: u32,
    pub height: u32,
    pub stride: u32,
}

/// Input delivered to a widget.
#[derive(Clone, Copy, Debug, PartialEq, Eq, Structural)]
pub enum InputEvent {
    MouseMove { x: i32, y: i32 },
    MouseDown { x: i32, y: i32, button: u8 },
    MouseUp { x: i32, y: i32, button: u8 },
    KeyDown { key: u32 },
    KeyUp { key: u32 },
}

/// An event delivered to a widget.
#[derive(Clone, Copy, Debug, PartialEq, Eq, Structural)]
pub enum WidgetEvent {
    Paint,
    Input(InputEvent),
}

/// A program the system knows how to start.
#[derive(Clone, Copy, Debug)]
pub struct AppSpec {
    pub name: &'static str,
    pub bin_name: &'static str,
    pub autostart: bool,
    pub show_in_graph_viewer: bool,
}

/// Kinds of hardware driver.
#[derive(Clone, Copy, Debug)]
pub enum DriverKind {
    Input,
    Display,
    Storage,
    Timer,
    Other(&'static str),
}

/// The symbol that classifies each kind of driver.
pub open spec fn spec_driver_kind_symbol(kind: DriverKind) -> u32 {
    match kind {
        DriverKind::Input => DRIVER_INPUT,
        DriverKind::Display => DRIVER_DISPLAY,
        DriverKind::Storage => DRIVER_STORAGE,
        DriverKind::Timer => DRIVER_TIMER,
        DriverKind::Other(_) => DRIVER_OTHER,
    }
}

/// The symbol that classifies a kind of driver.
pub fn driver_kind_symbol(kind: DriverKind) -> (s: Symbol)
    ensures
        s.0 == spec_driver_kind_symbol(kind),
{
    match kind {
        DriverKind::Input => Symbol(DRIVER_INPUT),
        DriverKind::Display => Symbol(DRIVER_DISPLAY),
        DriverKind::Storage => Symbol(DRIVER_STORAGE),
        DriverKind::Timer => Symbol(DRIVER_TIMER),
        DriverKind::Other(_) => Symbol(DRIVER_OTHER),
    }
}

/// A driver advertised through the graph.
#[derive(Clone, Copy, Debug)]
pub struct DriverDescriptor {
    pub name: &'static str,
    pub kind: DriverKind,
    pub description: &'static str,
}

impl DriverDescriptor {
    /// A descriptor.
    pub fn new(name: &'static str, kind: DriverKind, description: &'static str) -> (d: DriverDescriptor)
        ensures
            d.name == name,
            d.kind == kind,
            d.description == description,
    {
        DriverDescriptor { name, kind, description }
    }

    /// The stable id of the driver: the id of its name.
    pub fn id(&self) -> (id: u128)
        ensures
            id == spec_driver_id(self.name@),
            (id >> 76u128) & 0xf == 5,
            (id >> 62u128) & 3 == 2,
    {
        driver_id(self.name)
    }
}

/// The stable id of a driver name: the version-5 UUID of its UTF-8 bytes in
/// the object-identifier namespace.
pub open spec fn spec_driver_id(name: Seq<char>) -> u128 {
    spec_uuid_v5(NAMESPACE_OID, vstd::utf8::encode_utf8(name))
}

/// The stable id of a driver name (a name-based version-5 UUID).
pub fn driver_id(name: &str) -> (id: u128)
    ensures
        id == spec_driver_id(name@),
        (id >> 76u128) & 0xf == 5,
        (id >> 62u128) & 3 == 2,
{
    uuid_v5(NAMESPACE_OID, name.as_bytes())
}

/// The fields of the Thing that announces a driver with a status.
pub open spec fn spec_driver_fields(d: DriverDescriptor, status: u32) -> Map<u32, ValueView> {
    map![
        NAME => ValueView::Text(d.name@),
        STATUS => ValueView::Symbol(status),
        KIND => ValueView::Symbol(spec_driver_kind_symbol(d.kind)),
        TEXT => ValueView::Text(d.description@)
    ]
}

/// The fields of the Thing that announces a driver with a status.
pub fn driver_fields(d: &DriverDescriptor, status: Symbol) -> (m: SymbolMap)
    ensures
        m@ == spec_driver_fields(*d, status.0),
{
    let mut m = SymbolMap::new();
    m.insert(Symbol(NAME), Value::text(d.name));
    m.insert(Symbol(STATUS), Value::symbol(status));
    m.insert(Symbol(KIND), Value::symbol(driver_kind_symbol(d.kind)));
    m.insert(Symbol(TEXT), Value::text(d.description));
    proof {
        assert(m@ =~= spec_driver_fields(*d, status.0));
    }
    m
}

/// A Thing to create: its id, kind and fields.
pub struct DriverThing {
    pub id: u128,
    pub kind: Symbol,
    pub fields: SymbolMap,
}

/// Whether a record announces a driver: its id, the `DRIVER` kind, and its
/// fields with status `INIT`.
pub open spec fn announces(t: DriverThing, d: DriverDescriptor) -> bool {
    &&& t.id == spec_driver_id(d.name@)
    &&& t.kind == Symbol(DRIVER)
    &&& t.fields@ == spec_driver_fields(d, INIT)
}

/// The Things that register drivers: for each, in order, a `DRIVER` Thing
/// under the driver's id with its fields and status `INIT` (the caller
/// creates them in the graph).
pub fn register_drivers(drivers: &[DriverDescriptor]) -> (things: Vec<DriverThing>)
    ensures
        things@.len() == drivers@.len(),
        forall|i: int| 0 <= i < drivers@.len() ==> announces(#[trigger] things@[i], drivers@[i]),
{
    let mut out: Vec<DriverThing> = Vec::new();
    let mut i: usize = 0;
    while i < drivers.len()
        invariant
            i <= drivers@.len(),
            out@.len() == i,
            forall|j: int| 0 <= j < i ==> announces(#[trigger] out@[j], drivers@[j]),
        decreases drivers@.len() - i,
    {
        let d = &drivers[i];
        let id = d.id();
        let f = driver_fields(d, Symbol(INIT));
        out.push(DriverThing { id, kind: Symbol(DRIVER), fields: f });
        i = i + 1;
    }
    out
}

/// The drivers built into the system: the PS/2 keyboard and mouse and the
/// bootloader's framebuffer.
pub open spec fn spec_builtin_drivers() -> Seq<DriverDescriptor> {
    seq![
        DriverDescriptor { name: "ps2-keyboard", kind: DriverKind::Input, description: "PS/2 keyboard (set 1 scancodes)" },
        DriverDescriptor { name: "ps2-mouse", kind: DriverKind::Input, description: "PS/2 mouse (3-byte packets)" },
        DriverDescriptor {
            name: "limine-framebuffer",
            kind: DriverKind::Display,
            description: "Framebuffer provided by the Limine bootloader",
        }
    ]
}

/// The drivers built into the system.
pub fn builtin_drivers() -> (v: Vec<DriverDescriptor>)
    ensures
        v@ == spec_builtin_drivers(),
{
    let mut v: Vec<DriverDescriptor> = Vec::new();
    v.push(DriverDescriptor::new("ps2-keyboard", DriverKind::Input, "PS/2 keyboard (set 1 scancodes)"));
    v.push(DriverDescriptor::new("ps2-mouse", DriverKind::Input, "PS/2 mouse (3-byte packets)"));
    v.push(
        DriverDescriptor::new("limine-framebuffer", DriverKind::Display, "Framebuffer provided by the Limine bootloader"),
    );
    proof {
        assert(v@ =~= spec_builtin_drivers());
    }
    v
}

/// The Things that register the built-in drivers, in their order.
pub fn register_builtin_drivers() -> (things: Vec<DriverThing>)
    ensures
        things@.len() == spec_builtin_drivers().len(),
        forall|i: int| 0 <= i < spec_builtin_drivers().len() ==> announces(#[trigger] things@[i], spec_builtin_drivers()[i]),
{
    let d = builtin_drivers();
    let things = register_drivers(d.as_slice());
    assert forall|i: int| 0 <= i < spec_builtin_drivers().len() implies announces(#[trigger] things@[i], spec_builtin_drivers()[i]) by {
        assert(d@[i] == spec_builtin_drivers()[i]);
        assert(announces(things@[i], d@[i]));
    }
    things
}

/// The device a built-in driver drives, by its name.
pub open spec fn spec_device_kind_for(name: Seq<char>) -> Option<DeviceKind> {
    if name == "ps2-keyboard"@ {
        Some(DeviceKind::Keyboard)
    } else if name == "ps2-mouse"@ {
        Some(DeviceKind::Mouse)
    } else if name == "limine-framebuffer"@ {
        Some(DeviceKind::Framebuffer)
    } else {
        None
    }
}

/// The device a built-in driver drives, if any.
pub fn device_kind_for(desc: &DriverDescriptor) -> (r: Option<DeviceKind>)
    ensures
        r == spec_device_kind_for(desc.name@),
{
    if str_eq(desc.name, "ps2-keyboard") {
        Some(DeviceKind::Keyboard)
    } else if str_eq(desc.name, "ps2-mouse") {
        Some(DeviceKind::Mouse)
    } else if str_eq(desc.name, "limine-framebuffer") {
        Some(DeviceKind::Framebuffer)
    } else {
        None
    }
}

/// Where a built-in driver's stream goes at start: input drivers to the
/// compositor, the framebuffer driver to the framebuffer, at revision 0.
pub fn default_stream_target(desc: &DriverDescriptor, compositor_id: u128, framebuffer_id: u128) -> (r: Option<(u128, u64)>)
    ensures
        r == match spec_device_kind_for(desc.name@) {
            Some(DeviceKind::Keyboard) | Some(DeviceKind::Mouse) => Some((compositor_id, 0u64)),
            Some(DeviceKind::Framebuffer) => Some((framebuffer_id, 0u64)),
            _ => None,
        },
{
    if str_eq(desc.name, "ps2-keyboard") || str_eq(desc.name, "ps2-mouse") {
        Some((compositor_id, 0))
    } else if str_eq(desc.name, "limine-framebuffer") {
        Some((framebuffer_id, 0))
    } else {
        None
    }
}

} // verus!
