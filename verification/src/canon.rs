//! Compact human-readable symbols packed into a `u32`, the well-known
//! symbol table, and the name lookups in both directions.

use vstd::prelude::*;

verus! {

/// Compact human-readable symbol (2–3 bytes packed into a `u32`).
#[derive(Clone, Copy, PartialEq, Eq, Structural, Debug, Hash, PartialOrd, Ord)]
pub struct Symbol(pub u32);

impl Symbol {
    /// Wrap a raw code.
    pub fn new(raw: u32) -> (s: Symbol)
        ensures
            s.0 == raw,
    {
        Symbol(raw)
    }

    /// The raw code.
    pub fn raw(self) -> (r: u32)
        ensures
            r == self.0,
    {
        self.0
    }
}

/// The code that `cc` packs from two characters.
pub open spec fn spec_cc(a: char, b: char) -> u32 {
    ((a as u32) << 16u32) | ((b as u32) << 8u32)
}

/// The code that `canon` packs from three bytes.
pub open spec fn spec_canon(a: u8, b: u8, c: u8) -> u32 {
    ((a as u32) << 16u32) | ((b as u32) << 8u32) | (c as u32)
}

/// Combine two characters into a human-readable code: the first in bits
/// 16.., the second in bits 8.., bits 0..8 clear.
pub fn cc(a: char, b: char) -> (s: Symbol)
    ensures
        s.0 == spec_cc(a, b),
        (a as u32) < 256 && (b as u32) < 256 ==> s.0 == (a as u32) * 65536 + (b as u32) * 256,
{
    let x: u32 = a as u32;
    let y: u32 = b as u32;
    let r: u32 = (x << 16u32) | (y << 8u32);
    assert((x < 256 && y < 256) ==> ((x << 16u32) | (y << 8u32)) == x * 65536 + y * 256)
        by (bit_vector);
    Symbol(r)
}

/// Combine three bytes into a human-readable code, one byte per octet.
pub fn canon(a: u8, b: u8, c: u8) -> (s: Symbol)
    ensures
        s.0 == spec_canon(a, b, c),
        s.0 == (a as u32) * 65536 + (b as u32) * 256 + (c as u32),
{
    let x: u32 = a as u32;
    let y: u32 = b as u32;
    let z: u32 = c as u32;
    assert((x < 256 && y < 256 && z < 256) ==> ((x << 16u32) | (y << 8u32) | z) == x * 65536 + y
        * 256 + z) by (bit_vector);
    Symbol((x << 16u32) | (y << 8u32) | z)
}

/// The symbol whose code is the scalar value of `c`.
pub fn from_char(c: char) -> (s: Symbol)
    ensures
        s.0 == c as u32,
{
    Symbol(c as u32)
}

/// The symbol whose code is `raw`, widened.
pub fn from_u16(raw: u16) -> (s: Symbol)
    ensures
        s.0 == raw as u32,
{
    Symbol(raw as u32)
}

/// Codes of the well-known symbols (wrap one in `Symbol` to use it).
pub const JOURNAL: u32 = 0x4a4e00;
pub const KEYBOARD: u32 = 0x4b4200;
pub const KEY_PRESSED: u32 = 0x4b5000;
pub const KEY_EVENT: u32 = 0x4b4556;
pub const MOUSE: u32 = 0x4d5300;
pub const MOUSE_MOVED: u32 = 0x4d5600;
pub const MOUSE_MOVE: u32 = 0x4d4d56;
pub const MOUSE_BUTTON: u32 = 0x4d4254;
pub const AT: u32 = 0x402000;
pub const INIT: u32 = 0x494e00;
pub const FAIL: u32 = 0x464c00;
pub const DRIVER: u32 = 0x445200;
pub const THING_CREATED: u32 = 0x544300;
pub const EDGE_ADDED: u32 = 0x454400;
pub const ID: u32 = 0x494420;
pub const KIND: u32 = 0x4b4e44;
pub const FIELDS: u32 = 0x464c44;
pub const REVISION: u32 = 0x52564e;
pub const SRC: u32 = 0x535243;
pub const DST: u32 = 0x445354;
pub const PREDICATE: u32 = 0x505244;
pub const NAME: u32 = 0x4e414d;
pub const STATUS: u32 = 0x535441;
pub const SCANCODE: u32 = 0x53434e;
pub const KEY: u32 = 0x4b4559;
pub const DX: u32 = 0x445820;
pub const DY: u32 = 0x445920;
pub const BUTTONS: u32 = 0x42544e;
pub const WRITE: u32 = 0x575254;
pub const TARGET: u32 = 0x544754;
pub const TEXT: u32 = 0x545854;
pub const STDOUT: u32 = 0x535444;
pub const BUNDLE: u32 = 0x424e44;
pub const OWNER: u32 = 0x4f574e;
pub const OWNS: u32 = 0x4f5753;
pub const CAN_READ: u32 = 0x435244;
pub const CAN_WRITE: u32 = 0x435752;
pub const CAN_LINK: u32 = 0x434c4b;
pub const CAN_HANDLE_IRQ: u32 = 0x434951;
pub const CAN_DMA: u32 = 0x43444d;
pub const CAN_MMIO: u32 = 0x434d4d;
pub const CAN_PORT_IO: u32 = 0x43504f;
pub const ADDR: u32 = 0x414452;
pub const WIDTH: u32 = 0x574454;
pub const HEIGHT: u32 = 0x484754;
pub const PITCH: u32 = 0x505448;
pub const BPP: u32 = 0x425050;
pub const COMPOSITOR: u32 = 0x434d50;
pub const WINDOW: u32 = 0x57494e;
pub const PIXMAP: u32 = 0x50584d;
pub const STREAMS: u32 = 0x53544d;
pub const COMPOSED_BY: u32 = 0x434d42;
pub const WINDOW_CREATED: u32 = 0x574352;
pub const WINDOW_BUFFER_UPDATED: u32 = 0x574255;
pub const FRAME_READY: u32 = 0x46524d;
pub const DRIVER_INPUT: u32 = 0x494e50;
pub const DRIVER_DISPLAY: u32 = 0x445350;
pub const DRIVER_STORAGE: u32 = 0x535452;
pub const DRIVER_TIMER: u32 = 0x544d52;
pub const DRIVER_OTHER: u32 = 0x4f5448;
pub const EMITS: u32 = 0x454d54;
pub const DEVICE: u32 = 0x444556;
pub const FRAMEBUFFER_DEVICE: u32 = 0x464244;
pub const KEYBOARD_DEVICE: u32 = 0x4b4244;
pub const MOUSE_DEVICE: u32 = 0x4d4456;
pub const NIC_DEVICE: u32 = 0x4e4943;
pub const IRQ_EVENT: u32 = 0x495251;
pub const DMA_EVENT: u32 = 0x444d41;
pub const IRQ_LINE: u32 = 0x49514c;
pub const BUFFER: u32 = 0x425546;
pub const BYTES: u32 = 0x425954;
pub const DONE: u32 = 0x444f4e;
pub const APP: u32 = 0x415050;
pub const TYPE: u32 = 0x545950;
pub const VERSION: u32 = 0x564552;
pub const INPUT_DEVICE_MOUSE: u32 = 0x49444d;
pub const INPUT_EVENT: u32 = 0x494556;
pub const MOVE: u32 = 0x4d4f56;
pub const DEVICE_ID: u32 = 0x444944;
pub const TS: u32 = 0x545320;
pub const DOWN: u32 = 0x44574e;
pub const BUTTON: u32 = 0x425423;
pub const SURFACE: u32 = 0x534643;
pub const CURSOR: u32 = 0x435253;
pub const TITLE: u32 = 0x54544c;
pub const X: u32 = 0x582020;
pub const Y: u32 = 0x592020;
pub const Z: u32 = 0x5a494e;
pub const DISPLAY_FRAMEBUFFER: u32 = 0x444642;
pub const DISPLAY_FRAME: u32 = 0x444652;
pub const CURRENT_FRAME: u32 = 0x435552;
pub const SEQ: u32 = 0x534551;
pub const HAS_CONTENT: u32 = 0x484354;
pub const WINDOW_RECT: u32 = 0x575243;
pub const COLOR: u32 = 0x434c52;
pub const VISIBLE: u32 = 0x565342;
pub const ACTIVE: u32 = 0x414354;
pub const BITMAP: u32 = 0x424d50;
pub const DIRTY: u32 = 0x445254;
pub const HAS_SURFACE: u32 = 0x485346;
pub const PRESENTS: u32 = 0x505253;
pub const SHARED_BUFFER: u32 = 0x534246;
pub const QUEUE_STATE: u32 = 0x515354;
pub const BUFFER_KIND: u32 = 0x424b44;
pub const BUFFER_USAGE: u32 = 0x425547;
pub const RING: u32 = 0x52494e;
pub const LINEAR: u32 = 0x4c494e;
pub const PIPE_USAGE: u32 = 0x504950;
pub const SURFACE_USAGE: u32 = 0x535246;
pub const RX_RING_USAGE: u32 = 0x525852;
pub const HEAD: u32 = 0x484541;
pub const TAIL: u32 = 0x544149;
pub const HAS_DATA: u32 = 0x484454;
pub const CAPACITY: u32 = 0x434150;
pub const CLOUD: u32 = 0x434c44;
pub const NEXT: u32 = 0x4e5800;
pub const PACKAGE: u32 = 0x504b47;
pub const TASK: u32 = 0x54534b;
pub const LAUNCH_REQUEST: u32 = 0x4c5251;
pub const CAN_EDIT: u32 = 0x434544;
pub const DRIVES: u32 = 0x445256;
pub const ABOVE: u32 = 0x414256;
pub const ACTIVE_WINDOW: u32 = 0x414357;
pub const FOR_DOCUMENT: u32 = 0x464443;
pub const HANDLED_BY: u32 = 0x484442;
pub const REQUESTS: u32 = 0x525153;
pub const SAVE_EVENT: u32 = 0x534156;
pub const APPLIES_TO: u32 = 0x41504c;
pub const DOCUMENT: u32 = 0x444f43;
pub const VIEW: u32 = 0x564957;
pub const WIDGET: u32 = 0x574447;
pub const ROLE: u32 = 0x524f4c;
pub const LABEL: u32 = 0x4c424c;
pub const DESCRIPTION: u32 = 0x445343;
pub const FOCUSABLE: u32 = 0x464353;
pub const TAB_INDEX: u32 = 0x544249;
pub const CHILD: u32 = 0x434844;
pub const LABEL_FOR: u32 = 0x4c4246;
pub const HAS_CURSOR: u32 = 0x484352;
pub const CONTROLS: u32 = 0x43544c;
pub const PAGE_SIZE: u32 = 0x504753;
pub const TOTAL_SIZE: u32 = 0x545453;
pub const POSITION: u32 = 0x504f53;
pub const ORIENTATION: u32 = 0x4f524e;
pub const MIME: u32 = 0x4d494d;
pub const ENCODING: u32 = 0x454e43;
pub const LENGTH: u32 = 0x4c454e;
pub const MODE: u32 = 0x4d4f44;
pub const OF: u32 = 0x4f4600;
pub const SHOWS: u32 = 0x534857;
pub const EDITED_BY: u32 = 0x454442;
pub const EDIT: u32 = 0x454454;
pub const READ_ONLY: u32 = 0x52444f;
pub const NOTIFICATION: u32 = 0x4e5446;
pub const LEVEL: u32 = 0x4c564c;
pub const MESSAGE: u32 = 0x4d5347;
pub const DETAILS: u32 = 0x44544c;
pub const SCOPE: u32 = 0x534350;
pub const ACK: u32 = 0x41434b;
pub const PERSIST: u32 = 0x505354;
pub const SELECTED_INDEX: u32 = 0x534958;

/// The symbolic name of a code in the well-known table, or the empty
/// sequence for a code that the table does not hold.
pub open spec fn spec_sym_name(code: u32) -> Seq<char> {
    if code == 0x4a4e00 {
        "journal"@
    } else if code == 0x4b4200 {
        "keyboard"@
    } else if code == 0x4b5000 {
        "key_pressed"@
    } else if code == 0x4b4556 {
        "key_event"@
    } else if code == 0x4d5300 {
        "mouse"@
    } else if code == 0x4d5600 {
        "mouse_moved"@
    } else if code == 0x4d4d56 {
        "mouse_move"@
    } else if code == 0x4d4254 {
        "mouse_button"@
    } else if code == 0x49444d {
        "input.device.mouse"@
    } else if code == 0x494556 {
        "input.event"@
    } else if code == 0x4d4f56 {
        "move"@
    } else if code == 0x444944 {
        "device_id"@
    } else if code == 0x545320 {
        "ts"@
    } else if code == 0x44574e {
        "down"@
    } else if code == 0x425423 {
        "button"@
    } else if code == 0x402000 {
        "at"@
    } else if code == 0x494e00 {
        "init"@
    } else if code == 0x464c00 {
        "fail"@
    } else if code == 0x445200 {
        "driver"@
    } else if code == 0x544300 {
        "thing_created"@
    } else if code == 0x454400 {
        "edge_added"@
    } else if code == 0x494420 {
        "id"@
    } else if code == 0x4b4e44 {
        "kind"@
    } else if code == 0x464c44 {
        "fields"@
    } else if code == 0x52564e {
        "revision"@
    } else if code == 0x535243 {
        "src"@
    } else if code == 0x445354 {
        "dst"@
    } else if code == 0x505244 {
        "predicate"@
    } else if code == 0x4e414d {
        "name"@
    } else if code == 0x535441 {
        "status"@
    } else if code == 0x53434e {
        "scancode"@
    } else if code == 0x4b4559 {
        "key"@
    } else if code == 0x445820 {
        "dx"@
    } else if code == 0x445920 {
        "dy"@
    } else if code == 0x42544e {
        "buttons"@
    } else if code == 0x575254 {
        "write"@
    } else if code == 0x424e44 {
        "bundle"@
    } else if code == 0x4f574e {
        "owner"@
    } else if code == 0x4f5753 {
        "owns"@
    } else if code == 0x435244 {
        "can_read"@
    } else if code == 0x435752 {
        "can_write"@
    } else if code == 0x434c4b {
        "can_link"@
    } else if code == 0x434951 {
        "can_handle_irq"@
    } else if code == 0x43444d {
        "can_dma"@
    } else if code == 0x434d4d {
        "can_mmio"@
    } else if code == 0x43504f {
        "can_port_io"@
    } else if code == 0x544754 {
        "target"@
    } else if code == 0x545854 {
        "text"@
    } else if code == 0x535444 {
        "stdout"@
    } else if code == 0x414452 {
        "addr"@
    } else if code == 0x574454 {
        "width"@
    } else if code == 0x484754 {
        "height"@
    } else if code == 0x505448 {
        "pitch"@
    } else if code == 0x425050 {
        "bpp"@
    } else if code == 0x434d50 {
        "compositor"@
    } else if code == 0x57494e {
        "window"@
    } else if code == 0x50584d {
        "pixmap"@
    } else if code == 0x53544d {
        "streams"@
    } else if code == 0x434d42 {
        "composed_by"@
    } else if code == 0x574352 {
        "window_created"@
    } else if code == 0x574255 {
        "window_buffer_updated"@
    } else if code == 0x46524d {
        "frame_ready"@
    } else if code == 0x494e50 {
        "driver_input"@
    } else if code == 0x445350 {
        "driver_display"@
    } else if code == 0x535452 {
        "driver_storage"@
    } else if code == 0x544d52 {
        "driver_timer"@
    } else if code == 0x4f5448 {
        "driver_other"@
    } else if code == 0x444556 {
        "device"@
    } else if code == 0x464244 {
        "device.framebuffer"@
    } else if code == 0x4b4244 {
        "device.keyboard"@
    } else if code == 0x4d4456 {
        "device.mouse"@
    } else if code == 0x4e4943 {
        "device.nic"@
    } else if code == 0x495251 {
        "irq.event"@
    } else if code == 0x444d41 {
        "dma.event"@
    } else if code == 0x49514c {
        "irq_line"@
    } else if code == 0x425546 {
        "buffer"@
    } else if code == 0x425954 {
        "bytes"@
    } else if code == 0x444f4e {
        "done"@
    } else if code == 0x415050 {
        "app"@
    } else if code == 0x545950 {
        "type"@
    } else if code == 0x564552 {
        "version"@
    } else {
        Seq::empty()
    }
}

/// The code that the well-known table gives a name, if any.
pub open spec fn spec_from_str(s: Seq<char>) -> Option<u32> {
    if s == "journal"@ {
        Some(0x4a4e00u32)
    } else if s == "keyboard"@ {
        Some(0x4b4200u32)
    } else if s == "key_pressed"@ {
        Some(0x4b5000u32)
    } else if s == "key_event"@ {
        Some(0x4b4556u32)
    } else if s == "mouse"@ {
        Some(0x4d5300u32)
    } else if s == "mouse_moved"@ {
        Some(0x4d5600u32)
    } else if s == "mouse_move"@ {
        Some(0x4d4d56u32)
    } else if s == "mouse_button"@ {
        Some(0x4d4254u32)
    } else if s == "input.device.mouse"@ {
        Some(0x49444du32)
    } else if s == "input.event"@ {
        Some(0x494556u32)
    } else if s == "move"@ {
        Some(0x4d4f56u32)
    } else if s == "device_id"@ {
        Some(0x444944u32)
    } else if s == "ts"@ {
        Some(0x545320u32)
    } else if s == "down"@ {
        Some(0x44574eu32)
    } else if s == "button"@ {
        Some(0x425423u32)
    } else if s == "at"@ {
        Some(0x402000u32)
    } else if s == "init"@ {
        Some(0x494e00u32)
    } else if s == "fail"@ {
        Some(0x464c00u32)
    } else if s == "driver"@ {
        Some(0x445200u32)
    } else if s == "thing_created"@ {
        Some(0x544300u32)
    } else if s == "edge_added"@ {
        Some(0x454400u32)
    } else if s == "id"@ {
        Some(0x494420u32)
    } else if s == "kind"@ {
        Some(0x4b4e44u32)
    } else if s == "fields"@ {
        Some(0x464c44u32)
    } else if s == "revision"@ {
        Some(0x52564eu32)
    } else if s == "src"@ {
        Some(0x535243u32)
    } else if s == "dst"@ {
        Some(0x445354u32)
    } else if s == "predicate"@ {
        Some(0x505244u32)
    } else if s == "name"@ {
        Some(0x4e414du32)
    } else if s == "status"@ {
        Some(0x535441u32)
    } else if s == "scancode"@ {
        Some(0x53434eu32)
    } else if s == "key"@ {
        Some(0x4b4559u32)
    } else if s == "dx"@ {
        Some(0x445820u32)
    } else if s == "dy"@ {
        Some(0x445920u32)
    } else if s == "buttons"@ {
        Some(0x42544eu32)
    } else if s == "write"@ {
        Some(0x575254u32)
    } else if s == "bundle"@ {
        Some(0x424e44u32)
    } else if s == "owner"@ {
        Some(0x4f574eu32)
    } else if s == "owns"@ {
        Some(0x4f5753u32)
    } else if s == "can_read"@ {
        Some(0x435244u32)
    } else if s == "can_write"@ {
        Some(0x435752u32)
    } else if s == "can_link"@ {
        Some(0x434c4bu32)
    } else if s == "can_handle_irq"@ {
        Some(0x434951u32)
    } else if s == "can_dma"@ {
        Some(0x43444du32)
    } else if s == "can_mmio"@ {
        Some(0x434d4du32)
    } else if s == "can_port_io"@ {
        Some(0x43504fu32)
    } else if s == "target"@ {
        Some(0x544754u32)
    } else if s == "text"@ {
        Some(0x545854u32)
    } else if s == "stdout"@ {
        Some(0x535444u32)
    } else if s == "addr"@ {
        Some(0x414452u32)
    } else if s == "width"@ {
        Some(0x574454u32)
    } else if s == "height"@ {
        Some(0x484754u32)
    } else if s == "pitch"@ {
        Some(0x505448u32)
    } else if s == "bpp"@ {
        Some(0x425050u32)
    } else if s == "compositor"@ {
        Some(0x434d50u32)
    } else if s == "window"@ {
        Some(0x57494eu32)
    } else if s == "pixmap"@ {
        Some(0x50584du32)
    } else if s == "streams"@ {
        Some(0x53544du32)
    } else if s == "composed_by"@ {
        Some(0x434d42u32)
    } else if s == "window_created"@ {
        Some(0x574352u32)
    } else if s == "window_buffer_updated"@ {
        Some(0x574255u32)
    } else if s == "frame_ready"@ {
        Some(0x46524du32)
    } else if s == "driver_input"@ {
        Some(0x494e50u32)
    } else if s == "driver_display"@ {
        Some(0x445350u32)
    } else if s == "driver_storage"@ {
        Some(0x535452u32)
    } else if s == "driver_timer"@ {
        Some(0x544d52u32)
    } else if s == "driver_other"@ {
        Some(0x4f5448u32)
    } else if s == "device"@ {
        Some(0x444556u32)
    } else if s == "device.framebuffer"@ {
        Some(0x464244u32)
    } else if s == "device.keyboard"@ {
        Some(0x4b4244u32)
    } else if s == "device.mouse"@ {
        Some(0x4d4456u32)
    } else if s == "device.nic"@ {
        Some(0x4e4943u32)
    } else if s == "irq.event"@ {
        Some(0x495251u32)
    } else if s == "dma.event"@ {
        Some(0x444d41u32)
    } else if s == "irq_line"@ {
        Some(0x49514cu32)
    } else if s == "buffer"@ {
        Some(0x425546u32)
    } else if s == "bytes"@ {
        Some(0x425954u32)
    } else if s == "done"@ {
        Some(0x444f4eu32)
    } else if s == "app"@ {
        Some(0x415050u32)
    } else if s == "type"@ {
        Some(0x545950u32)
    } else if s == "version"@ {
        Some(0x564552u32)
    } else {
        None
    }
}

/// Return the symbolic name for a code if known (the empty string otherwise).
pub fn sym_name(code: Symbol) -> (name: &'static str)
    ensures
        name@ == spec_sym_name(code.0),
{
    let c: u32 = code.0;
    if c == 0x4a4e00 {
        "journal"
    } else if c == 0x4b4200 {
        "keyboard"
    } else if c == 0x4b5000 {
        "key_pressed"
    } else if c == 0x4b4556 {
        "key_event"
    } else if c == 0x4d5300 {
        "mouse"
    } else if c == 0x4d5600 {
        "mouse_moved"
    } else if c == 0x4d4d56 {
        "mouse_move"
    } else if c == 0x4d4254 {
        "mouse_button"
    } else if c == 0x49444d {
        "input.device.mouse"
    } else if c == 0x494556 {
        "input.event"
    } else if c == 0x4d4f56 {
        "move"
    } else if c == 0x444944 {
        "device_id"
    } else if c == 0x545320 {
        "ts"
    } else if c == 0x44574e {
        "down"
    } else if c == 0x425423 {
        "button"
    } else if c == 0x402000 {
        "at"
    } else if c == 0x494e00 {
        "init"
    } else if c == 0x464c00 {
        "fail"
    } else if c == 0x445200 {
        "driver"
    } else if c == 0x544300 {
        "thing_created"
    } else if c == 0x454400 {
        "edge_added"
    } else if c == 0x494420 {
        "id"
    } else if c == 0x4b4e44 {
        "kind"
    } else if c == 0x464c44 {
        "fields"
    } else if c == 0x52564e {
        "revision"
    } else if c == 0x535243 {
        "src"
    } else if c == 0x445354 {
        "dst"
    } else if c == 0x505244 {
        "predicate"
    } else if c == 0x4e414d {
        "name"
    } else if c == 0x535441 {
        "status"
    } else if c == 0x53434e {
        "scancode"
    } else if c == 0x4b4559 {
        "key"
    } else if c == 0x445820 {
        "dx"
    } else if c == 0x445920 {
        "dy"
    } else if c == 0x42544e {
        "buttons"
    } else if c == 0x575254 {
        "write"
    } else if c == 0x424e44 {
        "bundle"
    } else if c == 0x4f574e {
        "owner"
    } else if c == 0x4f5753 {
        "owns"
    } else if c == 0x435244 {
        "can_read"
    } else if c == 0x435752 {
        "can_write"
    } else if c == 0x434c4b {
        "can_link"
    } else if c == 0x434951 {
        "can_handle_irq"
    } else if c == 0x43444d {
        "can_dma"
    } else if c == 0x434d4d {
        "can_mmio"
    } else if c == 0x43504f {
        "can_port_io"
    } else if c == 0x544754 {
        "target"
    } else if c == 0x545854 {
        "text"
    } else if c == 0x535444 {
        "stdout"
    } else if c == 0x414452 {
        "addr"
    } else if c == 0x574454 {
        "width"
    } else if c == 0x484754 {
        "height"
    } else if c == 0x505448 {
        "pitch"
    } else if c == 0x425050 {
        "bpp"
    } else if c == 0x434d50 {
        "compositor"
    } else if c == 0x57494e {
        "window"
    } else if c == 0x50584d {
        "pixmap"
    } else if c == 0x53544d {
        "streams"
    } else if c == 0x434d42 {
        "composed_by"
    } else if c == 0x574352 {
        "window_created"
    } else if c == 0x574255 {
        "window_buffer_updated"
    } else if c == 0x46524d {
        "frame_ready"
    } else if c == 0x494e50 {
        "driver_input"
    } else if c == 0x445350 {
        "driver_display"
    } else if c == 0x535452 {
        "driver_storage"
    } else if c == 0x544d52 {
        "driver_timer"
    } else if c == 0x4f5448 {
        "driver_other"
    } else if c == 0x444556 {
        "device"
    } else if c == 0x464244 {
        "device.framebuffer"
    } else if c == 0x4b4244 {
        "device.keyboard"
    } else if c == 0x4d4456 {
        "device.mouse"
    } else if c == 0x4e4943 {
        "device.nic"
    } else if c == 0x495251 {
        "irq.event"
    } else if c == 0x444d41 {
        "dma.event"
    } else if c == 0x49514c {
        "irq_line"
    } else if c == 0x425546 {
        "buffer"
    } else if c == 0x425954 {
        "bytes"
    } else if c == 0x444f4e {
        "done"
    } else if c == 0x415050 {
        "app"
    } else if c == 0x545950 {
        "type"
    } else if c == 0x564552 {
        "version"
    } else {
        let e = "";
        proof {
            reveal_strlit("");
        }
        e
    }
}

/// Whether two strings hold the same characters.
pub fn str_eq(a: &str, b: &str) -> (r: bool)
    ensures
        r == (a@ == b@),
{
    let n = a.unicode_len();
    if n != b.unicode_len() {
        return false;
    }
    let mut i: usize = 0;
    while i < n
        invariant
            n == a@.len(),
            n == b@.len(),
            i <= n,
            forall|j: int| 0 <= j < i ==> a@[j] == b@[j],
        decreases n - i,
    {
        if a.get_char(i) != b.get_char(i) {
            return false;
        }
        i = i + 1;
    }
    assert(a@ =~= b@);
    true
}

/// Look up a name in the well-known table.
pub fn from_str(s: &str) -> (r: Option<Symbol>)
    ensures
        r matches Some(sym) ==> spec_from_str(s@) == Some(sym.0),
        r is None ==> spec_from_str(s@) is None,
{
    if str_eq(s, "journal") {
        return Some(Symbol(JOURNAL));
    }
    if str_eq(s, "keyboard") {
        return Some(Symbol(KEYBOARD));
    }
    if str_eq(s, "key_pressed") {
        return Some(Symbol(KEY_PRESSED));
    }
    if str_eq(s, "key_event") {
        return Some(Symbol(KEY_EVENT));
    }
    if str_eq(s, "mouse") {
        return Some(Symbol(MOUSE));
    }
    if str_eq(s, "mouse_moved") {
        return Some(Symbol(MOUSE_MOVED));
    }
    if str_eq(s, "mouse_move") {
        return Some(Symbol(MOUSE_MOVE));
    }
    if str_eq(s, "mouse_button") {
        return Some(Symbol(MOUSE_BUTTON));
    }
    if str_eq(s, "input.device.mouse") {
        return Some(Symbol(INPUT_DEVICE_MOUSE));
    }
    if str_eq(s, "input.event") {
        return Some(Symbol(INPUT_EVENT));
    }
    if str_eq(s, "move") {
        return Some(Symbol(MOVE));
    }
    if str_eq(s, "device_id") {
        return Some(Symbol(DEVICE_ID));
    }
    if str_eq(s, "ts") {
        return Some(Symbol(TS));
    }
    if str_eq(s, "down") {
        return Some(Symbol(DOWN));
    }
    if str_eq(s, "button") {
        return Some(Symbol(BUTTON));
    }
    if str_eq(s, "at") {
        return Some(Symbol(AT));
    }
    if str_eq(s, "init") {
        return Some(Symbol(INIT));
    }
    if str_eq(s, "fail") {
        return Some(Symbol(FAIL));
    }
    if str_eq(s, "driver") {
        return Some(Symbol(DRIVER));
    }
    if str_eq(s, "thing_created") {
        return Some(Symbol(THING_CREATED));
    }
    if str_eq(s, "edge_added") {
        return Some(Symbol(EDGE_ADDED));
    }
    if str_eq(s, "id") {
        return Some(Symbol(ID));
    }
    if str_eq(s, "kind") {
        return Some(Symbol(KIND));
    }
    if str_eq(s, "fields") {
        return Some(Symbol(FIELDS));
    }
    if str_eq(s, "revision") {
        return Some(Symbol(REVISION));
    }
    if str_eq(s, "src") {
        return Some(Symbol(SRC));
    }
    if str_eq(s, "dst") {
        return Some(Symbol(DST));
    }
    if str_eq(s, "predicate") {
        return Some(Symbol(PREDICATE));
    }
    if str_eq(s, "name") {
        return Some(Symbol(NAME));
    }
    if str_eq(s, "status") {
        return Some(Symbol(STATUS));
    }
    if str_eq(s, "scancode") {
        return Some(Symbol(SCANCODE));
    }
    if str_eq(s, "key") {
        return Some(Symbol(KEY));
    }
    if str_eq(s, "dx") {
        return Some(Symbol(DX));
    }
    if str_eq(s, "dy") {
        return Some(Symbol(DY));
    }
    if str_eq(s, "buttons") {
        return Some(Symbol(BUTTONS));
    }
    if str_eq(s, "write") {
        return Some(Symbol(WRITE));
    }
    if str_eq(s, "bundle") {
        return Some(Symbol(BUNDLE));
    }
    if str_eq(s, "owner") {
        return Some(Symbol(OWNER));
    }
    if str_eq(s, "owns") {
        return Some(Symbol(OWNS));
    }
    if str_eq(s, "can_read") {
        return Some(Symbol(CAN_READ));
    }
    if str_eq(s, "can_write") {
        return Some(Symbol(CAN_WRITE));
    }
    if str_eq(s, "can_link") {
        return Some(Symbol(CAN_LINK));
    }
    if str_eq(s, "can_handle_irq") {
        return Some(Symbol(CAN_HANDLE_IRQ));
    }
    if str_eq(s, "can_dma") {
        return Some(Symbol(CAN_DMA));
    }
    if str_eq(s, "can_mmio") {
        return Some(Symbol(CAN_MMIO));
    }
    if str_eq(s, "can_port_io") {
        return Some(Symbol(CAN_PORT_IO));
    }
    if str_eq(s, "target") {
        return Some(Symbol(TARGET));
    }
    if str_eq(s, "text") {
        return Some(Symbol(TEXT));
    }
    if str_eq(s, "stdout") {
        return Some(Symbol(STDOUT));
    }
    if str_eq(s, "addr") {
        return Some(Symbol(ADDR));
    }
    if str_eq(s, "width") {
        return Some(Symbol(WIDTH));
    }
    if str_eq(s, "height") {
        return Some(Symbol(HEIGHT));
    }
    if str_eq(s, "pitch") {
        return Some(Symbol(PITCH));
    }
    if str_eq(s, "bpp") {
        return Some(Symbol(BPP));
    }
    if str_eq(s, "compositor") {
        return Some(Symbol(COMPOSITOR));
    }
    if str_eq(s, "window") {
        return Some(Symbol(WINDOW));
    }
    if str_eq(s, "pixmap") {
        return Some(Symbol(PIXMAP));
    }
    if str_eq(s, "streams") {
        return Some(Symbol(STREAMS));
    }
    if str_eq(s, "composed_by") {
        return Some(Symbol(COMPOSED_BY));
    }
    if str_eq(s, "window_created") {
        return Some(Symbol(WINDOW_CREATED));
    }
    if str_eq(s, "window_buffer_updated") {
        return Some(Symbol(WINDOW_BUFFER_UPDATED));
    }
    if str_eq(s, "frame_ready") {
        return Some(Symbol(FRAME_READY));
    }
    if str_eq(s, "driver_input") {
        return Some(Symbol(DRIVER_INPUT));
    }
    if str_eq(s, "driver_display") {
        return Some(Symbol(DRIVER_DISPLAY));
    }
    if str_eq(s, "driver_storage") {
        return Some(Symbol(DRIVER_STORAGE));
    }
    if str_eq(s, "driver_timer") {
        return Some(Symbol(DRIVER_TIMER));
    }
    if str_eq(s, "driver_other") {
        return Some(Symbol(DRIVER_OTHER));
    }
    if str_eq(s, "device") {
        return Some(Symbol(DEVICE));
    }
    if str_eq(s, "device.framebuffer") {
        return Some(Symbol(FRAMEBUFFER_DEVICE));
    }
    if str_eq(s, "device.keyboard") {
        return Some(Symbol(KEYBOARD_DEVICE));
    }
    if str_eq(s, "device.mouse") {
        return Some(Symbol(MOUSE_DEVICE));
    }
    if str_eq(s, "device.nic") {
        return Some(Symbol(NIC_DEVICE));
    }
    if str_eq(s, "irq.event") {
        return Some(Symbol(IRQ_EVENT));
    }
    if str_eq(s, "dma.event") {
        return Some(Symbol(DMA_EVENT));
    }
    if str_eq(s, "irq_line") {
        return Some(Symbol(IRQ_LINE));
    }
    if str_eq(s, "buffer") {
        return Some(Symbol(BUFFER));
    }
    if str_eq(s, "bytes") {
        return Some(Symbol(BYTES));
    }
    if str_eq(s, "done") {
        return Some(Symbol(DONE));
    }
    if str_eq(s, "app") {
        return Some(Symbol(APP));
    }
    if str_eq(s, "type") {
        return Some(Symbol(TYPE));
    }
    if str_eq(s, "version") {
        return Some(Symbol(VERSION));
    }
    None
}

/// Looking a name up gives back the code that the name was printed for:
/// every code with a non-empty name round-trips through `from_str`.
pub proof fn lemma_sym_name_round_trips(code: u32)
    requires
        spec_sym_name(code).len() > 0,
    ensures
        spec_from_str(spec_sym_name(code)) == Some(code),
{
    if code == 0x4a4e00 {
        reveal_strlit("journal");
    } else if code == 0x4b4200 {
        reveal_strlit("keyboard");
        reveal_strlit("journal");
    } else if code == 0x4b5000 {
        reveal_strlit("key_pressed");
        reveal_strlit("journal");
        reveal_strlit("keyboard");
    } else if code == 0x4b4556 {
        reveal_strlit("key_event");
        reveal_strlit("journal");
        reveal_strlit("keyboard");
        reveal_strlit("key_pressed");
    } else if code == 0x4d5300 {
        reveal_strlit("mouse");
        reveal_strlit("journal");
        reveal_strlit("keyboard");
        reveal_strlit("key_pressed");
        reveal_strlit("key_event");
    } else if code == 0x4d5600 {
        reveal_strlit("mouse_moved");
        reveal_strlit("journal");
        reveal_strlit("keyboard");
        reveal_strlit("key_pressed");
        assert("mouse_moved"@[0] != "key_pressed"@[0]);
        reveal_strlit("key_event");
        reveal_strlit("mouse");
    } else if code == 0x4d4d56 {
        reveal_strlit("mouse_move");
        reveal_strlit("journal");
        reveal_strlit("keyboard");
        reveal_strlit("key_pressed");
        reveal_strlit("key_event");
        reveal_strlit("mouse");
        reveal_strlit("mouse_moved");
    } else if code == 0x4d4254 {
        reveal_strlit("mouse_button");
        reveal_strlit("journal");
        reveal_strlit("keyboard");
        reveal_strlit("key_pressed");
        reveal_strlit("key_event");
        reveal_strlit("mouse");
        reveal_strlit("mouse_moved");
        reveal_strlit("mouse_move");
    } else if code == 0x49444d {
        reveal_strlit("input.device.mouse");
        reveal_strlit("journal");
        reveal_strlit("keyboard");
        reveal_strlit("key_pressed");
        reveal_strlit("key_event");
        reveal_strlit("mouse");
        reveal_strlit("mouse_moved");
        reveal_strlit("mouse_move");
        reveal_strlit("mouse_button");
    } else if code == 0x494556 {
        reveal_strlit("input.event");
        reveal_strlit("journal");
        reveal_strlit("keyboard");
        reveal_strlit("key_pressed");
        assert("input.event"@[0] != "key_pressed"@[0]);
        reveal_strlit("key_event");
        reveal_strlit("mouse");
        reveal_strlit("mouse_moved");
        assert("input.event"@[0] != "mouse_moved"@[0]);
        reveal_strlit("mouse_move");
        reveal_strlit("mouse_button");
        reveal_strlit("input.device.mouse");
    } else if code == 0x4d4f56 {
        reveal_strlit("move");
        reveal_strlit("journal");
        reveal_strlit("keyboard");
        reveal_strlit("key_pressed");
        reveal_strlit("key_event");
        reveal_strlit("mouse");
        reveal_strlit("mouse_moved");
        reveal_strlit("mouse_move");
        reveal_strlit("mouse_button");
        reveal_strlit("input.device.mouse");
        reveal_strlit("input.event");
    } else if code == 0x444944 {
        reveal_strlit("device_id");
        reveal_strlit("journal");
        reveal_strlit("keyboard");
        reveal_strlit("key_pressed");
        reveal_strlit("key_event");
        assert("device_id"@[0] != "key_event"@[0]);
        reveal_strlit("mouse");
        reveal_strlit("mouse_moved");
        reveal_strlit("mouse_move");
        reveal_strlit("mouse_button");
        reveal_strlit("input.device.mouse");
        reveal_strlit("input.event");
        reveal_strlit("move");
    } else if code == 0x545320 {
        reveal_strlit("ts");
        reveal_strlit("journal");
        reveal_strlit("keyboard");
        reveal_strlit("key_pressed");
        reveal_strlit("key_event");
        reveal_strlit("mouse");
        reveal_strlit("mouse_moved");
        reveal_strlit("mouse_move");
        reveal_strlit("mouse_button");
        reveal_strlit("input.device.mouse");
        reveal_strlit("input.event");
        reveal_strlit("move");
        reveal_strlit("device_id");
    } else if code == 0x44574e {
        reveal_strlit("down");
        reveal_strlit("journal");
        reveal_strlit("keyboard");
        reveal_strlit("key_pressed");
        reveal_strlit("key_event");
        reveal_strlit("mouse");
        reveal_strlit("mouse_moved");
        reveal_strlit("mouse_move");
        reveal_strlit("mouse_button");
        reveal_strlit("input.device.mouse");
        reveal_strlit("input.event");
        reveal_strlit("move");
        assert("down"@[0] != "move"@[0]);
        reveal_strlit("device_id");
        reveal_strlit("ts");
    } else if code == 0x425423 {
        reveal_strlit("button");
        reveal_strlit("journal");
        reveal_strlit("keyboard");
        reveal_strlit("key_pressed");
        reveal_strlit("key_event");
        reveal_strlit("mouse");
        reveal_strlit("mouse_moved");
        reveal_strlit("mouse_move");
        reveal_strlit("mouse_button");
        reveal_strlit("input.device.mouse");
        reveal_strlit("input.event");
        reveal_strlit("move");
        reveal_strlit("device_id");
        reveal_strlit("ts");
        reveal_strlit("down");
    } else if code == 0x402000 {
        reveal_strlit("at");
        reveal_strlit("journal");
        reveal_strlit("keyboard");
        reveal_strlit("key_pressed");
        reveal_strlit("key_event");
        reveal_strlit("mouse");
        reveal_strlit("mouse_moved");
        reveal_strlit("mouse_move");
        reveal_strlit("mouse_button");
        reveal_strlit("input.device.mouse");
        reveal_strlit("input.event");
        reveal_strlit("move");
        reveal_strlit("device_id");
        reveal_strlit("ts");
        assert("at"@[0] != "ts"@[0]);
        reveal_strlit("down");
        reveal_strlit("button");
    } else if code == 0x494e00 {
        reveal_strlit("init");
        reveal_strlit("journal");
        reveal_strlit("keyboard");
        reveal_strlit("key_pressed");
        reveal_strlit("key_event");
        reveal_strlit("mouse");
        reveal_strlit("mouse_moved");
        reveal_strlit("mouse_move");
        reveal_strlit("mouse_button");
        reveal_strlit("input.device.mouse");
        reveal_strlit("input.event");
        reveal_strlit("move");
        assert("init"@[0] != "move"@[0]);
        reveal_strlit("device_id");
        reveal_strlit("ts");
        reveal_strlit("down");
        assert("init"@[0] != "down"@[0]);
        reveal_strlit("button");
        reveal_strlit("at");
    } else if code == 0x464c00 {
        reveal_strlit("fail");
        reveal_strlit("journal");
        reveal_strlit("keyboard");
        reveal_strlit("key_pressed");
        reveal_strlit("key_event");
        reveal_strlit("mouse");
        reveal_strlit("mouse_moved");
        reveal_strlit("mouse_move");
        reveal_strlit("mouse_button");
        reveal_strlit("input.device.mouse");
        reveal_strlit("input.event");
        reveal_strlit("move");
        assert("fail"@[0] != "move"@[0]);
        reveal_strlit("device_id");
        reveal_strlit("ts");
        reveal_strlit("down");
        assert("fail"@[0] != "down"@[0]);
        reveal_strlit("button");
        reveal_strlit("at");
        reveal_strlit("init");
        assert("fail"@[0] != "init"@[0]);
    } else if code == 0x445200 {
        reveal_strlit("driver");
        reveal_strlit("journal");
        reveal_strlit("keyboard");
        reveal_strlit("key_pressed");
        reveal_strlit("key_event");
        reveal_strlit("mouse");
        reveal_strlit("mouse_moved");
        reveal_strlit("mouse_move");
        reveal_strlit("mouse_button");
        reveal_strlit("input.device.mouse");
        reveal_strlit("input.event");
        reveal_strlit("move");
        reveal_strlit("device_id");
        reveal_strlit("ts");
        reveal_strlit("down");
        reveal_strlit("button");
        assert("driver"@[0] != "button"@[0]);
        reveal_strlit("at");
        reveal_strlit("init");
        reveal_strlit("fail");
    } else if code == 0x544300 {
        reveal_strlit("thing_created");
        reveal_strlit("journal");
        reveal_strlit("keyboard");
        reveal_strlit("key_pressed");
        reveal_strlit("key_event");
        reveal_strlit("mouse");
        reveal_strlit("mouse_moved");
        reveal_strlit("mouse_move");
        reveal_strlit("mouse_button");
        reveal_strlit("input.device.mouse");
        reveal_strlit("input.event");
        reveal_strlit("move");
        reveal_strlit("device_id");
        reveal_strlit("ts");
        reveal_strlit("down");
        reveal_strlit("button");
        reveal_strlit("at");
        reveal_strlit("init");
        reveal_strlit("fail");
        reveal_strlit("driver");
    } else if code == 0x454400 {
        reveal_strlit("edge_added");
        reveal_strlit("journal");
        reveal_strlit("keyboard");
        reveal_strlit("key_pressed");
        reveal_strlit("key_event");
        reveal_strlit("mouse");
        reveal_strlit("mouse_moved");
        reveal_strlit("mouse_move");
        assert("edge_added"@[0] != "mouse_move"@[0]);
        reveal_strlit("mouse_button");
        reveal_strlit("input.device.mouse");
        reveal_strlit("input.event");
        reveal_strlit("move");
        reveal_strlit("device_id");
        reveal_strlit("ts");
        reveal_strlit("down");
        reveal_strlit("button");
        reveal_strlit("at");
        reveal_strlit("init");
        reveal_strlit("fail");
        reveal_strlit("driver");
        reveal_strlit("thing_created");
    } else if code == 0x494420 {
        reveal_strlit("id");
        reveal_strlit("journal");
        reveal_strlit("keyboard");
        reveal_strlit("key_pressed");
        reveal_strlit("key_event");
        reveal_strlit("mouse");
        reveal_strlit("mouse_moved");
        reveal_strlit("mouse_move");
        reveal_strlit("mouse_button");
        reveal_strlit("input.device.mouse");
        reveal_strlit("input.event");
        reveal_strlit("move");
        reveal_strlit("device_id");
        reveal_strlit("ts");
        assert("id"@[0] != "ts"@[0]);
        reveal_strlit("down");
        reveal_strlit("button");
        reveal_strlit("at");
        assert("id"@[0] != "at"@[0]);
        reveal_strlit("init");
        reveal_strlit("fail");
        reveal_strlit("driver");
        reveal_strlit("thing_created");
        reveal_strlit("edge_added");
    } else if code == 0x4b4e44 {
        reveal_strlit("kind");
        reveal_strlit("journal");
        reveal_strlit("keyboard");
        reveal_strlit("key_pressed");
        reveal_strlit("key_event");
        reveal_strlit("mouse");
        reveal_strlit("mouse_moved");
        reveal_strlit("mouse_move");
        reveal_strlit("mouse_button");
        reveal_strlit("input.device.mouse");
        reveal_strlit("input.event");
        reveal_strlit("move");
        assert("kind"@[0] != "move"@[0]);
        reveal_strlit("device_id");
        reveal_strlit("ts");
        reveal_strlit("down");
        assert("kind"@[0] != "down"@[0]);
        reveal_strlit("button");
        reveal_strlit("at");
        reveal_strlit("init");
        assert("kind"@[0] != "init"@[0]);
        reveal_strlit("fail");
        assert("kind"@[0] != "fail"@[0]);
        reveal_strlit("driver");
        reveal_strlit("thing_created");
        reveal_strlit("edge_added");
        reveal_strlit("id");
    } else if code == 0x464c44 {
        reveal_strlit("fields");
        reveal_strlit("journal");
        reveal_strlit("keyboard");
        reveal_strlit("key_pressed");
        reveal_strlit("key_event");
        reveal_strlit("mouse");
        reveal_strlit("mouse_moved");
        reveal_strlit("mouse_move");
        reveal_strlit("mouse_button");
        reveal_strlit("input.device.mouse");
        reveal_strlit("input.event");
        reveal_strlit("move");
        reveal_strlit("device_id");
        reveal_strlit("ts");
        reveal_strlit("down");
        reveal_strlit("button");
        assert("fields"@[0] != "button"@[0]);
        reveal_strlit("at");
        reveal_strlit("init");
        reveal_strlit("fail");
        reveal_strlit("driver");
        assert("fields"@[0] != "driver"@[0]);
        reveal_strlit("thing_created");
        reveal_strlit("edge_added");
        reveal_strlit("id");
        reveal_strlit("kind");
    } else if code == 0x52564e {
        reveal_strlit("revision");
        reveal_strlit("journal");
        reveal_strlit("keyboard");
        assert("revision"@[0] != "keyboard"@[0]);
        reveal_strlit("key_pressed");
        reveal_strlit("key_event");
        reveal_strlit("mouse");
        reveal_strlit("mouse_moved");
        reveal_strlit("mouse_move");
        reveal_strlit("mouse_button");
        reveal_strlit("input.device.mouse");
        reveal_strlit("input.event");
        reveal_strlit("move");
        reveal_strlit("device_id");
        reveal_strlit("ts");
        reveal_strlit("down");
        reveal_strlit("button");
        reveal_strlit("at");
        reveal_strlit("init");
        reveal_strlit("fail");
        reveal_strlit("driver");
        reveal_strlit("thing_created");
        reveal_strlit("edge_added");
        reveal_strlit("id");
        reveal_strlit("kind");
        reveal_strlit("fields");
    } else if code == 0x535243 {
        reveal_strlit("src");
        reveal_strlit("journal");
        reveal_strlit("keyboard");
        reveal_strlit("key_pressed");
        reveal_strlit("key_event");
        reveal_strlit("mouse");
        reveal_strlit("mouse_moved");
        reveal_strlit("mouse_move");
        reveal_strlit("mouse_button");
        reveal_strlit("input.device.mouse");
        reveal_strlit("input.event");
        reveal_strlit("move");
        reveal_strlit("device_id");
        reveal_strlit("ts");
        reveal_strlit("down");
        reveal_strlit("button");
        reveal_strlit("at");
        reveal_strlit("init");
        reveal_strlit("fail");
        reveal_strlit("driver");
        reveal_strlit("thing_created");
        reveal_strlit("edge_added");
        reveal_strlit("id");
        reveal_strlit("kind");
        reveal_strlit("fields");
        reveal_strlit("revision");
    } else if code == 0x445354 {
        reveal_strlit("dst");
        reveal_strlit("journal");
        reveal_strlit("keyboard");
        reveal_strlit("key_pressed");
        reveal_strlit("key_event");
        reveal_strlit("mouse");
        reveal_strlit("mouse_moved");
        reveal_strlit("mouse_move");
        reveal_strlit("mouse_button");
        reveal_strlit("input.device.mouse");
        reveal_strlit("input.event");
        reveal_strlit("move");
        reveal_strlit("device_id");
        reveal_strlit("ts");
        reveal_strlit("down");
        reveal_strlit("button");
        reveal_strlit("at");
        reveal_strlit("init");
        reveal_strlit("fail");
        reveal_strlit("driver");
        reveal_strlit("thing_created");
        reveal_strlit("edge_added");
        reveal_strlit("id");
        reveal_strlit("kind");
        reveal_strlit("fields");
        reveal_strlit("revision");
        reveal_strlit("src");
        assert("dst"@[0] != "src"@[0]);
    } else if code == 0x505244 {
        reveal_strlit("predicate");
        reveal_strlit("journal");
        reveal_strlit("keyboard");
        reveal_strlit("key_pressed");
        reveal_strlit("key_event");
        assert("predicate"@[0] != "key_event"@[0]);
        reveal_strlit("mouse");
        reveal_strlit("mouse_moved");
        reveal_strlit("mouse_move");
        reveal_strlit("mouse_button");
        reveal_strlit("input.device.mouse");
        reveal_strlit("input.event");
        reveal_strlit("move");
        reveal_strlit("device_id");
        assert("predicate"@[0] != "device_id"@[0]);
        reveal_strlit("ts");
        reveal_strlit("down");
        reveal_strlit("button");
        reveal_strlit("at");
        reveal_strlit("init");
        reveal_strlit("fail");
        reveal_strlit("driver");
        reveal_strlit("thing_created");
        reveal_strlit("edge_added");
        reveal_strlit("id");
        reveal_strlit("kind");
        reveal_strlit("fields");
        reveal_strlit("revision");
        reveal_strlit("src");
        reveal_strlit("dst");
    } else if code == 0x4e414d {
        reveal_strlit("name");
        reveal_strlit("journal");
        reveal_strlit("keyboard");
        reveal_strlit("key_pressed");
        reveal_strlit("key_event");
        reveal_strlit("mouse");
        reveal_strlit("mouse_moved");
        reveal_strlit("mouse_move");
        reveal_strlit("mouse_button");
        reveal_strlit("input.device.mouse");
        reveal_strlit("input.event");
        reveal_strlit("move");
        assert("name"@[0] != "move"@[0]);
        reveal_strlit("device_id");
        reveal_strlit("ts");
        reveal_strlit("down");
        assert("name"@[0] != "down"@[0]);
        reveal_strlit("button");
        reveal_strlit("at");
        reveal_strlit("init");
        assert("name"@[0] != "init"@[0]);
        reveal_strlit("fail");
        assert("name"@[0] != "fail"@[0]);
        reveal_strlit("driver");
        reveal_strlit("thing_created");
        reveal_strlit("edge_added");
        reveal_strlit("id");
        reveal_strlit("kind");
        assert("name"@[0] != "kind"@[0]);
        reveal_strlit("fields");
        reveal_strlit("revision");
        reveal_strlit("src");
        reveal_strlit("dst");
        reveal_strlit("predicate");
    } else if code == 0x535441 {
        reveal_strlit("status");
        reveal_strlit("journal");
        reveal_strlit("keyboard");
        reveal_strlit("key_pressed");
        reveal_strlit("key_event");
        reveal_strlit("mouse");
        reveal_strlit("mouse_moved");
        reveal_strlit("mouse_move");
        reveal_strlit("mouse_button");
        reveal_strlit("input.device.mouse");
        reveal_strlit("input.event");
        reveal_strlit("move");
        reveal_strlit("device_id");
        reveal_strlit("ts");
        reveal_strlit("down");
        reveal_strlit("button");
        assert("status"@[0] != "button"@[0]);
        reveal_strlit("at");
        reveal_strlit("init");
        reveal_strlit("fail");
        reveal_strlit("driver");
        assert("status"@[0] != "driver"@[0]);
        reveal_strlit("thing_created");
        reveal_strlit("edge_added");
        reveal_strlit("id");
        reveal_strlit("kind");
        reveal_strlit("fields");
        assert("status"@[0] != "fields"@[0]);
        reveal_strlit("revision");
        reveal_strlit("src");
        reveal_strlit("dst");
        reveal_strlit("predicate");
        reveal_strlit("name");
    } else if code == 0x53434e {
        reveal_strlit("scancode");
        reveal_strlit("journal");
        reveal_strlit("keyboard");
        assert("scancode"@[0] != "keyboard"@[0]);
        reveal_strlit("key_pressed");
        reveal_strlit("key_event");
        reveal_strlit("mouse");
        reveal_strlit("mouse_moved");
        reveal_strlit("mouse_move");
        reveal_strlit("mouse_button");
        reveal_strlit("input.device.mouse");
        reveal_strlit("input.event");
        reveal_strlit("move");
        reveal_strlit("device_id");
        reveal_strlit("ts");
        reveal_strlit("down");
        reveal_strlit("button");
        reveal_strlit("at");
        reveal_strlit("init");
        reveal_strlit("fail");
        reveal_strlit("driver");
        reveal_strlit("thing_created");
        reveal_strlit("edge_added");
        reveal_strlit("id");
        reveal_strlit("kind");
        reveal_strlit("fields");
        reveal_strlit("revision");
        assert("scancode"@[0] != "revision"@[0]);
        reveal_strlit("src");
        reveal_strlit("dst");
        reveal_strlit("predicate");
        reveal_strlit("name");
        reveal_strlit("status");
    } else if code == 0x4b4559 {
        reveal_strlit("key");
        reveal_strlit("journal");
        reveal_strlit("keyboard");
        reveal_strlit("key_pressed");
        reveal_strlit("key_event");
        reveal_strlit("mouse");
        reveal_strlit("mouse_moved");
        reveal_strlit("mouse_move");
        reveal_strlit("mouse_button");
        reveal_strlit("input.device.mouse");
        reveal_strlit("input.event");
        reveal_strlit("move");
        reveal_strlit("device_id");
        reveal_strlit("ts");
        reveal_strlit("down");
        reveal_strlit("button");
        reveal_strlit("at");
        reveal_strlit("init");
        reveal_strlit("fail");
        reveal_strlit("driver");
        reveal_strlit("thing_created");
        reveal_strlit("edge_added");
        reveal_strlit("id");
        reveal_strlit("kind");
        reveal_strlit("fields");
        reveal_strlit("revision");
        reveal_strlit("src");
        assert("key"@[0] != "src"@[0]);
        reveal_strlit("dst");
        assert("key"@[0] != "dst"@[0]);
        reveal_strlit("predicate");
        reveal_strlit("name");
        reveal_strlit("status");
        reveal_strlit("scancode");
    } else if code == 0x445820 {
        reveal_strlit("dx");
        reveal_strlit("journal");
        reveal_strlit("keyboard");
        reveal_strlit("key_pressed");
        reveal_strlit("key_event");
        reveal_strlit("mouse");
        reveal_strlit("mouse_moved");
        reveal_strlit("mouse_move");
        reveal_strlit("mouse_button");
        reveal_strlit("input.device.mouse");
        reveal_strlit("input.event");
        reveal_strlit("move");
        reveal_strlit("device_id");
        reveal_strlit("ts");
        assert("dx"@[0] != "ts"@[0]);
        reveal_strlit("down");
        reveal_strlit("button");
        reveal_strlit("at");
        assert("dx"@[0] != "at"@[0]);
        reveal_strlit("init");
        reveal_strlit("fail");
        reveal_strlit("driver");
        reveal_strlit("thing_created");
        reveal_strlit("edge_added");
        reveal_strlit("id");
        assert("dx"@[0] != "id"@[0]);
        reveal_strlit("kind");
        reveal_strlit("fields");
        reveal_strlit("revision");
        reveal_strlit("src");
        reveal_strlit("dst");
        reveal_strlit("predicate");
        reveal_strlit("name");
        reveal_strlit("status");
        reveal_strlit("scancode");
        reveal_strlit("key");
    } else if code == 0x445920 {
        reveal_strlit("dy");
        reveal_strlit("journal");
        reveal_strlit("keyboard");
        reveal_strlit("key_pressed");
        reveal_strlit("key_event");
        reveal_strlit("mouse");
        reveal_strlit("mouse_moved");
        reveal_strlit("mouse_move");
        reveal_strlit("mouse_button");
        reveal_strlit("input.device.mouse");
        reveal_strlit("input.event");
        reveal_strlit("move");
        reveal_strlit("device_id");
        reveal_strlit("ts");
        assert("dy"@[0] != "ts"@[0]);
        reveal_strlit("down");
        reveal_strlit("button");
        reveal_strlit("at");
        assert("dy"@[0] != "at"@[0]);
        reveal_strlit("init");
        reveal_strlit("fail");
        reveal_strlit("driver");
        reveal_strlit("thing_created");
        reveal_strlit("edge_added");
        reveal_strlit("id");
        assert("dy"@[0] != "id"@[0]);
        reveal_strlit("kind");
        reveal_strlit("fields");
        reveal_strlit("revision");
        reveal_strlit("src");
        reveal_strlit("dst");
        reveal_strlit("predicate");
        reveal_strlit("name");
        reveal_strlit("status");
        reveal_strlit("scancode");
        reveal_strlit("key");
        reveal_strlit("dx");
        assert("dy"@[1] != "dx"@[1]);
    } else if code == 0x42544e {
        reveal_strlit("buttons");
        reveal_strlit("journal");
        assert("buttons"@[0] != "journal"@[0]);
        reveal_strlit("keyboard");
        reveal_strlit("key_pressed");
        reveal_strlit("key_event");
        reveal_strlit("mouse");
        reveal_strlit("mouse_moved");
        reveal_strlit("mouse_move");
        reveal_strlit("mouse_button");
        reveal_strlit("input.device.mouse");
        reveal_strlit("input.event");
        reveal_strlit("move");
        reveal_strlit("device_id");
        reveal_strlit("ts");
        reveal_strlit("down");
        reveal_strlit("button");
        reveal_strlit("at");
        reveal_strlit("init");
        reveal_strlit("fail");
        reveal_strlit("driver");
        reveal_strlit("thing_created");
        reveal_strlit("edge_added");
        reveal_strlit("id");
        reveal_strlit("kind");
        reveal_strlit("fields");
        reveal_strlit("revision");
        reveal_strlit("src");
        reveal_strlit("dst");
        reveal_strlit("predicate");
        reveal_strlit("name");
        reveal_strlit("status");
        reveal_strlit("scancode");
        reveal_strlit("key");
        reveal_strlit("dx");
        reveal_strlit("dy");
    } else if code == 0x575254 {
        reveal_strlit("write");
        reveal_strlit("journal");
        reveal_strlit("keyboard");
        reveal_strlit("key_pressed");
        reveal_strlit("key_event");
        reveal_strlit("mouse");
        assert("write"@[0] != "mouse"@[0]);
        reveal_strlit("mouse_moved");
        reveal_strlit("mouse_move");
        reveal_strlit("mouse_button");
        reveal_strlit("input.device.mouse");
        reveal_strlit("input.event");
        reveal_strlit("move");
        reveal_strlit("device_id");
        reveal_strlit("ts");
        reveal_strlit("down");
        reveal_strlit("button");
        reveal_strlit("at");
        reveal_strlit("init");
        reveal_strlit("fail");
        reveal_strlit("driver");
        reveal_strlit("thing_created");
        reveal_strlit("edge_added");
        reveal_strlit("id");
        reveal_strlit("kind");
        reveal_strlit("fields");
        reveal_strlit("revision");
        reveal_strlit("src");
        reveal_strlit("dst");
        reveal_strlit("predicate");
        reveal_strlit("name");
        reveal_strlit("status");
        reveal_strlit("scancode");
        reveal_strlit("key");
        reveal_strlit("dx");
        reveal_strlit("dy");
        reveal_strlit("buttons");
    } else if code == 0x424e44 {
        reveal_strlit("bundle");
        reveal_strlit("journal");
        reveal_strlit("keyboard");
        reveal_strlit("key_pressed");
        reveal_strlit("key_event");
        reveal_strlit("mouse");
        reveal_strlit("mouse_moved");
        reveal_strlit("mouse_move");
        reveal_strlit("mouse_button");
        reveal_strlit("input.device.mouse");
        reveal_strlit("input.event");
        reveal_strlit("move");
        reveal_strlit("device_id");
        reveal_strlit("ts");
        reveal_strlit("down");
        reveal_strlit("button");
        assert("bundle"@[2] != "button"@[2]);
        reveal_strlit("at");
        reveal_strlit("init");
        reveal_strlit("fail");
        reveal_strlit("driver");
        assert("bundle"@[0] != "driver"@[0]);
        reveal_strlit("thing_created");
        reveal_strlit("edge_added");
        reveal_strlit("id");
        reveal_strlit("kind");
        reveal_strlit("fields");
        assert("bundle"@[0] != "fields"@[0]);
        reveal_strlit("revision");
        reveal_strlit("src");
        reveal_strlit("dst");
        reveal_strlit("predicate");
        reveal_strlit("name");
        reveal_strlit("status");
        assert("bundle"@[0] != "status"@[0]);
        reveal_strlit("scancode");
        reveal_strlit("key");
        reveal_strlit("dx");
        reveal_strlit("dy");
        reveal_strlit("buttons");
        reveal_strlit("write");
    } else if code == 0x4f574e {
        reveal_strlit("owner");
        reveal_strlit("journal");
        reveal_strlit("keyboard");
        reveal_strlit("key_pressed");
        reveal_strlit("key_event");
        reveal_strlit("mouse");
        assert("owner"@[0] != "mouse"@[0]);
        reveal_strlit("mouse_moved");
        reveal_strlit("mouse_move");
        reveal_strlit("mouse_button");
        reveal_strlit("input.device.mouse");
        reveal_strlit("input.event");
        reveal_strlit("move");
        reveal_strlit("device_id");
        reveal_strlit("ts");
        reveal_strlit("down");
        reveal_strlit("button");
        reveal_strlit("at");
        reveal_strlit("init");
        reveal_strlit("fail");
        reveal_strlit("driver");
        reveal_strlit("thing_created");
        reveal_strlit("edge_added");
        reveal_strlit("id");
        reveal_strlit("kind");
        reveal_strlit("fields");
        reveal_strlit("revision");
        reveal_strlit("src");
        reveal_strlit("dst");
        reveal_strlit("predicate");
        reveal_strlit("name");
        reveal_strlit("status");
        reveal_strlit("scancode");
        reveal_strlit("key");
        reveal_strlit("dx");
        reveal_strlit("dy");
        reveal_strlit("buttons");
        reveal_strlit("write");
        assert("owner"@[0] != "write"@[0]);
        reveal_strlit("bundle");
    } else if code == 0x4f5753 {
        reveal_strlit("owns");
        reveal_strlit("journal");
        reveal_strlit("keyboard");
        reveal_strlit("key_pressed");
        reveal_strlit("key_event");
        reveal_strlit("mouse");
        reveal_strlit("mouse_moved");
        reveal_strlit("mouse_move");
        reveal_strlit("mouse_button");
        reveal_strlit("input.device.mouse");
        reveal_strlit("input.event");
        reveal_strlit("move");
        assert("owns"@[0] != "move"@[0]);
        reveal_strlit("device_id");
        reveal_strlit("ts");
        reveal_strlit("down");
        assert("owns"@[0] != "down"@[0]);
        reveal_strlit("button");
        reveal_strlit("at");
        reveal_strlit("init");
        assert("owns"@[0] != "init"@[0]);
        reveal_strlit("fail");
        assert("owns"@[0] != "fail"@[0]);
        reveal_strlit("driver");
        reveal_strlit("thing_created");
        reveal_strlit("edge_added");
        reveal_strlit("id");
        reveal_strlit("kind");
        assert("owns"@[0] != "kind"@[0]);
        reveal_strlit("fields");
        reveal_strlit("revision");
        reveal_strlit("src");
        reveal_strlit("dst");
        reveal_strlit("predicate");
        reveal_strlit("name");
        assert("owns"@[0] != "name"@[0]);
        reveal_strlit("status");
        reveal_strlit("scancode");
        reveal_strlit("key");
        reveal_strlit("dx");
        reveal_strlit("dy");
        reveal_strlit("buttons");
        reveal_strlit("write");
        reveal_strlit("bundle");
        reveal_strlit("owner");
    } else if code == 0x435244 {
        reveal_strlit("can_read");
        reveal_strlit("journal");
        reveal_strlit("keyboard");
        assert("can_read"@[0] != "keyboard"@[0]);
        reveal_strlit("key_pressed");
        reveal_strlit("key_event");
        reveal_strlit("mouse");
        reveal_strlit("mouse_moved");
        reveal_strlit("mouse_move");
        reveal_strlit("mouse_button");
        reveal_strlit("input.device.mouse");
        reveal_strlit("input.event");
        reveal_strlit("move");
        reveal_strlit("device_id");
        reveal_strlit("ts");
        reveal_strlit("down");
        reveal_strlit("button");
        reveal_strlit("at");
        reveal_strlit("init");
        reveal_strlit("fail");
        reveal_strlit("driver");
        reveal_strlit("thing_created");
        reveal_strlit("edge_added");
        reveal_strlit("id");
        reveal_strlit("kind");
        reveal_strlit("fields");
        reveal_strlit("revision");
        assert("can_read"@[0] != "revision"@[0]);
        reveal_strlit("src");
        reveal_strlit("dst");
        reveal_strlit("predicate");
        reveal_strlit("name");
        reveal_strlit("status");
        reveal_strlit("scancode");
        assert("can_read"@[0] != "scancode"@[0]);
        reveal_strlit("key");
        reveal_strlit("dx");
        reveal_strlit("dy");
        reveal_strlit("buttons");
        reveal_strlit("write");
        reveal_strlit("bundle");
        reveal_strlit("owner");
        reveal_strlit("owns");
    } else if code == 0x435752 {
        reveal_strlit("can_write");
        reveal_strlit("journal");
        reveal_strlit("keyboard");
        reveal_strlit("key_pressed");
        reveal_strlit("key_event");
        assert("can_write"@[0] != "key_event"@[0]);
        reveal_strlit("mouse");
        reveal_strlit("mouse_moved");
        reveal_strlit("mouse_move");
        reveal_strlit("mouse_button");
        reveal_strlit("input.device.mouse");
        reveal_strlit("input.event");
        reveal_strlit("move");
        reveal_strlit("device_id");
        assert("can_write"@[0] != "device_id"@[0]);
        reveal_strlit("ts");
        reveal_strlit("down");
        reveal_strlit("button");
        reveal_strlit("at");
        reveal_strlit("init");
        reveal_strlit("fail");
        reveal_strlit("driver");
        reveal_strlit("thing_created");
        reveal_strlit("edge_added");
        reveal_strlit("id");
        reveal_strlit("kind");
        reveal_strlit("fields");
        reveal_strlit("revision");
        reveal_strlit("src");
        reveal_strlit("dst");
        reveal_strlit("predicate");
        assert("can_write"@[0] != "predicate"@[0]);
        reveal_strlit("name");
        reveal_strlit("status");
        reveal_strlit("scancode");
        reveal_strlit("key");
        reveal_strlit("dx");
        reveal_strlit("dy");
        reveal_strlit("buttons");
        reveal_strlit("write");
        reveal_strlit("bundle");
        reveal_strlit("owner");
        reveal_strlit("owns");
        reveal_strlit("can_read");
    } else if code == 0x434c4b {
        reveal_strlit("can_link");
        reveal_strlit("journal");
        reveal_strlit("keyboard");
        assert("can_link"@[0] != "keyboard"@[0]);
        reveal_strlit("key_pressed");
        reveal_strlit("key_event");
        reveal_strlit("mouse");
        reveal_strlit("mouse_moved");
        reveal_strlit("mouse_move");
        reveal_strlit("mouse_button");
        reveal_strlit("input.device.mouse");
        reveal_strlit("input.event");
        reveal_strlit("move");
        reveal_strlit("device_id");
        reveal_strlit("ts");
        reveal_strlit("down");
        reveal_strlit("button");
        reveal_strlit("at");
        reveal_strlit("init");
        reveal_strlit("fail");
        reveal_strlit("driver");
        reveal_strlit("thing_created");
        reveal_strlit("edge_added");
        reveal_strlit("id");
        reveal_strlit("kind");
        reveal_strlit("fields");
        reveal_strlit("revision");
        assert("can_link"@[0] != "revision"@[0]);
        reveal_strlit("src");
        reveal_strlit("dst");
        reveal_strlit("predicate");
        reveal_strlit("name");
        reveal_strlit("status");
        reveal_strlit("scancode");
        assert("can_link"@[0] != "scancode"@[0]);
        reveal_strlit("key");
        reveal_strlit("dx");
        reveal_strlit("dy");
        reveal_strlit("buttons");
        reveal_strlit("write");
        reveal_strlit("bundle");
        reveal_strlit("owner");
        reveal_strlit("owns");
        reveal_strlit("can_read");
        assert("can_link"@[4] != "can_read"@[4]);
        reveal_strlit("can_write");
    } else if code == 0x434951 {
        reveal_strlit("can_handle_irq");
        reveal_strlit("journal");
        reveal_strlit("keyboard");
        reveal_strlit("key_pressed");
        reveal_strlit("key_event");
        reveal_strlit("mouse");
        reveal_strlit("mouse_moved");
        reveal_strlit("mouse_move");
        reveal_strlit("mouse_button");
        reveal_strlit("input.device.mouse");
        reveal_strlit("input.event");
        reveal_strlit("move");
        reveal_strlit("device_id");
        reveal_strlit("ts");
        reveal_strlit("down");
        reveal_strlit("button");
        reveal_strlit("at");
        reveal_strlit("init");
        reveal_strlit("fail");
        reveal_strlit("driver");
        reveal_strlit("thing_created");
        reveal_strlit("edge_added");
        reveal_strlit("id");
        reveal_strlit("kind");
        reveal_strlit("fields");
        reveal_strlit("revision");
        reveal_strlit("src");
        reveal_strlit("dst");
        reveal_strlit("predicate");
        reveal_strlit("name");
        reveal_strlit("status");
        reveal_strlit("scancode");
        reveal_strlit("key");
        reveal_strlit("dx");
        reveal_strlit("dy");
        reveal_strlit("buttons");
        reveal_strlit("write");
        reveal_strlit("bundle");
        reveal_strlit("owner");
        reveal_strlit("owns");
        reveal_strlit("can_read");
        reveal_strlit("can_write");
        reveal_strlit("can_link");
    } else if code == 0x43444d {
        reveal_strlit("can_dma");
        reveal_strlit("journal");
        assert("can_dma"@[0] != "journal"@[0]);
        reveal_strlit("keyboard");
        reveal_strlit("key_pressed");
        reveal_strlit("key_event");
        reveal_strlit("mouse");
        reveal_strlit("mouse_moved");
        reveal_strlit("mouse_move");
        reveal_strlit("mouse_button");
        reveal_strlit("input.device.mouse");
        reveal_strlit("input.event");
        reveal_strlit("move");
        reveal_strlit("device_id");
        reveal_strlit("ts");
        reveal_strlit("down");
        reveal_strlit("button");
        reveal_strlit("at");
        reveal_strlit("init");
        reveal_strlit("fail");
        reveal_strlit("driver");
        reveal_strlit("thing_created");
        reveal_strlit("edge_added");
        reveal_strlit("id");
        reveal_strlit("kind");
        reveal_strlit("fields");
        reveal_strlit("revision");
        reveal_strlit("src");
        reveal_strlit("dst");
        reveal_strlit("predicate");
        reveal_strlit("name");
        reveal_strlit("status");
        reveal_strlit("scancode");
        reveal_strlit("key");
        reveal_strlit("dx");
        reveal_strlit("dy");
        reveal_strlit("buttons");
        assert("can_dma"@[0] != "buttons"@[0]);
        reveal_strlit("write");
        reveal_strlit("bundle");
        reveal_strlit("owner");
        reveal_strlit("owns");
        reveal_strlit("can_read");
        reveal_strlit("can_write");
        reveal_strlit("can_link");
        reveal_strlit("can_handle_irq");
    } else if code == 0x434d4d {
        reveal_strlit("can_mmio");
        reveal_strlit("journal");
        reveal_strlit("keyboard");
        assert("can_mmio"@[0] != "keyboard"@[0]);
        reveal_strlit("key_pressed");
        reveal_strlit("key_event");
        reveal_strlit("mouse");
        reveal_strlit("mouse_moved");
        reveal_strlit("mouse_move");
        reveal_strlit("mouse_button");
        reveal_strlit("input.device.mouse");
        reveal_strlit("input.event");
        reveal_strlit("move");
        reveal_strlit("device_id");
        reveal_strlit("ts");
        reveal_strlit("down");
        reveal_strlit("button");
        reveal_strlit("at");
        reveal_strlit("init");
        reveal_strlit("fail");
        reveal_strlit("driver");
        reveal_strlit("thing_created");
        reveal_strlit("edge_added");
        reveal_strlit("id");
        reveal_strlit("kind");
        reveal_strlit("fields");
        reveal_strlit("revision");
        assert("can_mmio"@[0] != "revision"@[0]);
        reveal_strlit("src");
        reveal_strlit("dst");
        reveal_strlit("predicate");
        reveal_strlit("name");
        reveal_strlit("status");
        reveal_strlit("scancode");
        assert("can_mmio"@[0] != "scancode"@[0]);
        reveal_strlit("key");
        reveal_strlit("dx");
        reveal_strlit("dy");
        reveal_strlit("buttons");
        reveal_strlit("write");
        reveal_strlit("bundle");
        reveal_strlit("owner");
        reveal_strlit("owns");
        reveal_strlit("can_read");
        assert("can_mmio"@[4] != "can_read"@[4]);
        reveal_strlit("can_write");
        reveal_strlit("can_link");
        assert("can_mmio"@[4] != "can_link"@[4]);
        reveal_strlit("can_handle_irq");
        reveal_strlit("can_dma");
    } else if code == 0x43504f {
        reveal_strlit("can_port_io");
        reveal_strlit("journal");
        reveal_strlit("keyboard");
        reveal_strlit("key_pressed");
        assert("can_port_io"@[0] != "key_pressed"@[0]);
        reveal_strlit("key_event");
        reveal_strlit("mouse");
        reveal_strlit("mouse_moved");
        assert("can_port_io"@[0] != "mouse_moved"@[0]);
        reveal_strlit("mouse_move");
        reveal_strlit("mouse_button");
        reveal_strlit("input.device.mouse");
        reveal_strlit("input.event");
        assert("can_port_io"@[0] != "input.event"@[0]);
        reveal_strlit("move");
        reveal_strlit("device_id");
        reveal_strlit("ts");
        reveal_strlit("down");
        reveal_strlit("button");
        reveal_strlit("at");
        reveal_strlit("init");
        reveal_strlit("fail");
        reveal_strlit("driver");
        reveal_strlit("thing_created");
        reveal_strlit("edge_added");
        reveal_strlit("id");
        reveal_strlit("kind");
        reveal_strlit("fields");
        reveal_strlit("revision");
        reveal_strlit("src");
        reveal_strlit("dst");
        reveal_strlit("predicate");
        reveal_strlit("name");
        reveal_strlit("status");
        reveal_strlit("scancode");
        reveal_strlit("key");
        reveal_strlit("dx");
        reveal_strlit("dy");
        reveal_strlit("buttons");
        reveal_strlit("write");
        reveal_strlit("bundle");
        reveal_strlit("owner");
        reveal_strlit("owns");
        reveal_strlit("can_read");
        reveal_strlit("can_write");
        reveal_strlit("can_link");
        reveal_strlit("can_handle_irq");
        reveal_strlit("can_dma");
        reveal_strlit("can_mmio");
    } else if code == 0x544754 {
        reveal_strlit("target");
        reveal_strlit("journal");
        reveal_strlit("keyboard");
        reveal_strlit("key_pressed");
        reveal_strlit("key_event");
        reveal_strlit("mouse");
        reveal_strlit("mouse_moved");
        reveal_strlit("mouse_move");
        reveal_strlit("mouse_button");
        reveal_strlit("input.device.mouse");
        reveal_strlit("input.event");
        reveal_strlit("move");
        reveal_strlit("device_id");
        reveal_strlit("ts");
        reveal_strlit("down");
        reveal_strlit("button");
        assert("target"@[0] != "button"@[0]);
        reveal_strlit("at");
        reveal_strlit("init");
        reveal_strlit("fail");
        reveal_strlit("driver");
        assert("target"@[0] != "driver"@[0]);
        reveal_strlit("thing_created");
        reveal_strlit("edge_added");
        reveal_strlit("id");
        reveal_strlit("kind");
        reveal_strlit("fields");
        assert("target"@[0] != "fields"@[0]);
        reveal_strlit("revision");
        reveal_strlit("src");
        reveal_strlit("dst");
        reveal_strlit("predicate");
        reveal_strlit("name");
        reveal_strlit("status");
        assert("target"@[0] != "status"@[0]);
        reveal_strlit("scancode");
        reveal_strlit("key");
        reveal_strlit("dx");
        reveal_strlit("dy");
        reveal_strlit("buttons");
        reveal_strlit("write");
        reveal_strlit("bundle");
        assert("target"@[0] != "bundle"@[0]);
        reveal_strlit("owner");
        reveal_strlit("owns");
        reveal_strlit("can_read");
        reveal_strlit("can_write");
        reveal_strlit("can_link");
        reveal_strlit("can_handle_irq");
        reveal_strlit("can_dma");
        reveal_strlit("can_mmio");
        reveal_strlit("can_port_io");
    } else if code == 0x545854 {
        reveal_strlit("text");
        reveal_strlit("journal");
        reveal_strlit("keyboard");
        reveal_strlit("key_pressed");
        reveal_strlit("key_event");
        reveal_strlit("mouse");
        reveal_strlit("mouse_moved");
        reveal_strlit("mouse_move");
        reveal_strlit("mouse_button");
        reveal_strlit("input.device.mouse");
        reveal_strlit("input.event");
        reveal_strlit("move");
        assert("text"@[0] != "move"@[0]);
        reveal_strlit("device_id");
        reveal_strlit("ts");
        reveal_strlit("down");
        assert("text"@[0] != "down"@[0]);
        reveal_strlit("button");
        reveal_strlit("at");
        reveal_strlit("init");
        assert("text"@[0] != "init"@[0]);
        reveal_strlit("fail");
        assert("text"@[0] != "fail"@[0]);
        reveal_strlit("driver");
        reveal_strlit("thing_created");
        reveal_strlit("edge_added");
        reveal_strlit("id");
        reveal_strlit("kind");
        assert("text"@[0] != "kind"@[0]);
        reveal_strlit("fields");
        reveal_strlit("revision");
        reveal_strlit("src");
        reveal_strlit("dst");
        reveal_strlit("predicate");
        reveal_strlit("name");
        assert("text"@[0] != "name"@[0]);
        reveal_strlit("status");
        reveal_strlit("scancode");
        reveal_strlit("key");
        reveal_strlit("dx");
        reveal_strlit("dy");
        reveal_strlit("buttons");
        reveal_strlit("write");
        reveal_strlit("bundle");
        reveal_strlit("owner");
        reveal_strlit("owns");
        assert("text"@[0] != "owns"@[0]);
        reveal_strlit("can_read");
        reveal_strlit("can_write");
        reveal_strlit("can_link");
        reveal_strlit("can_handle_irq");
        reveal_strlit("can_dma");
        reveal_strlit("can_mmio");
        reveal_strlit("can_port_io");
        reveal_strlit("target");
    } else if code == 0x535444 {
        reveal_strlit("stdout");
        reveal_strlit("journal");
        reveal_strlit("keyboard");
        reveal_strlit("key_pressed");
        reveal_strlit("key_event");
        reveal_strlit("mouse");
        reveal_strlit("mouse_moved");
        reveal_strlit("mouse_move");
        reveal_strlit("mouse_button");
        reveal_strlit("input.device.mouse");
        reveal_strlit("input.event");
        reveal_strlit("move");
        reveal_strlit("device_id");
        reveal_strlit("ts");
        reveal_strlit("down");
        reveal_strlit("button");
        assert("stdout"@[0] != "button"@[0]);
        reveal_strlit("at");
        reveal_strlit("init");
        reveal_strlit("fail");
        reveal_strlit("driver");
        assert("stdout"@[0] != "driver"@[0]);
        reveal_strlit("thing_created");
        reveal_strlit("edge_added");
        reveal_strlit("id");
        reveal_strlit("kind");
        reveal_strlit("fields");
        assert("stdout"@[0] != "fields"@[0]);
        reveal_strlit("revision");
        reveal_strlit("src");
        reveal_strlit("dst");
        reveal_strlit("predicate");
        reveal_strlit("name");
        reveal_strlit("status");
        assert("stdout"@[2] != "status"@[2]);
        reveal_strlit("scancode");
        reveal_strlit("key");
        reveal_strlit("dx");
        reveal_strlit("dy");
        reveal_strlit("buttons");
        reveal_strlit("write");
        reveal_strlit("bundle");
        assert("stdout"@[0] != "bundle"@[0]);
        reveal_strlit("owner");
        reveal_strlit("owns");
        reveal_strlit("can_read");
        reveal_strlit("can_write");
        reveal_strlit("can_link");
        reveal_strlit("can_handle_irq");
        reveal_strlit("can_dma");
        reveal_strlit("can_mmio");
        reveal_strlit("can_port_io");
        reveal_strlit("target");
        assert("stdout"@[0] != "target"@[0]);
        reveal_strlit("text");
    } else if code == 0x414452 {
        reveal_strlit("addr");
        reveal_strlit("journal");
        reveal_strlit("keyboard");
        reveal_strlit("key_pressed");
        reveal_strlit("key_event");
        reveal_strlit("mouse");
        reveal_strlit("mouse_moved");
        reveal_strlit("mouse_move");
        reveal_strlit("mouse_button");
        reveal_strlit("input.device.mouse");
        reveal_strlit("input.event");
        reveal_strlit("move");
        assert("addr"@[0] != "move"@[0]);
        reveal_strlit("device_id");
        reveal_strlit("ts");
        reveal_strlit("down");
        assert("addr"@[0] != "down"@[0]);
        reveal_strlit("button");
        reveal_strlit("at");
        reveal_strlit("init");
        assert("addr"@[0] != "init"@[0]);
        reveal_strlit("fail");
        assert("addr"@[0] != "fail"@[0]);
        reveal_strlit("driver");
        reveal_strlit("thing_created");
        reveal_strlit("edge_added");
        reveal_strlit("id");
        reveal_strlit("kind");
        assert("addr"@[0] != "kind"@[0]);
        reveal_strlit("fields");
        reveal_strlit("revision");
        reveal_strlit("src");
        reveal_strlit("dst");
        reveal_strlit("predicate");
        reveal_strlit("name");
        assert("addr"@[0] != "name"@[0]);
        reveal_strlit("status");
        reveal_strlit("scancode");
        reveal_strlit("key");
        reveal_strlit("dx");
        reveal_strlit("dy");
        reveal_strlit("buttons");
        reveal_strlit("write");
        reveal_strlit("bundle");
        reveal_strlit("owner");
        reveal_strlit("owns");
        assert("addr"@[0] != "owns"@[0]);
        reveal_strlit("can_read");
        reveal_strlit("can_write");
        reveal_strlit("can_link");
        reveal_strlit("can_handle_irq");
        reveal_strlit("can_dma");
        reveal_strlit("can_mmio");
        reveal_strlit("can_port_io");
        reveal_strlit("target");
        reveal_strlit("text");
        assert("addr"@[0] != "text"@[0]);
        reveal_strlit("stdout");
    } else if code == 0x574454 {
        reveal_strlit("width");
        reveal_strlit("journal");
        reveal_strlit("keyboard");
        reveal_strlit("key_pressed");
        reveal_strlit("key_event");
        reveal_strlit("mouse");
        assert("width"@[0] != "mouse"@[0]);
        reveal_strlit("mouse_moved");
        reveal_strlit("mouse_move");
        reveal_strlit("mouse_button");
        reveal_strlit("input.device.mouse");
        reveal_strlit("input.event");
        reveal_strlit("move");
        reveal_strlit("device_id");
        reveal_strlit("ts");
        reveal_strlit("down");
        reveal_strlit("button");
        reveal_strlit("at");
        reveal_strlit("init");
        reveal_strlit("fail");
        reveal_strlit("driver");
        reveal_strlit("thing_created");
        reveal_strlit("edge_added");
        reveal_strlit("id");
        reveal_strlit("kind");
        reveal_strlit("fields");
        reveal_strlit("revision");
        reveal_strlit("src");
        reveal_strlit("dst");
        reveal_strlit("predicate");
        reveal_strlit("name");
        reveal_strlit("status");
        reveal_strlit("scancode");
        reveal_strlit("key");
        reveal_strlit("dx");
        reveal_strlit("dy");
        reveal_strlit("buttons");
        reveal_strlit("write");
        assert("width"@[1] != "write"@[1]);
        reveal_strlit("bundle");
        reveal_strlit("owner");
        assert("width"@[0] != "owner"@[0]);
        reveal_strlit("owns");
        reveal_strlit("can_read");
        reveal_strlit("can_write");
        reveal_strlit("can_link");
        reveal_strlit("can_handle_irq");
        reveal_strlit("can_dma");
        reveal_strlit("can_mmio");
        reveal_strlit("can_port_io");
        reveal_strlit("target");
        reveal_strlit("text");
        reveal_strlit("stdout");
        reveal_strlit("addr");
    } else if code == 0x484754 {
        reveal_strlit("height");
        reveal_strlit("journal");
        reveal_strlit("keyboard");
        reveal_strlit("key_pressed");
        reveal_strlit("key_event");
        reveal_strlit("mouse");
        reveal_strlit("mouse_moved");
        reveal_strlit("mouse_move");
        reveal_strlit("mouse_button");
        reveal_strlit("input.device.mouse");
        reveal_strlit("input.event");
        reveal_strlit("move");
        reveal_strlit("device_id");
        reveal_strlit("ts");
        reveal_strlit("down");
        reveal_strlit("button");
        assert("height"@[0] != "button"@[0]);
        reveal_strlit("at");
        reveal_strlit("init");
        reveal_strlit("fail");
        reveal_strlit("driver");
        assert("height"@[0] != "driver"@[0]);
        reveal_strlit("thing_created");
        reveal_strlit("edge_added");
        reveal_strlit("id");
        reveal_strlit("kind");
        reveal_strlit("fields");
        assert("height"@[0] != "fields"@[0]);
        reveal_strlit("revision");
        reveal_strlit("src");
        reveal_strlit("dst");
        reveal_strlit("predicate");
        reveal_strlit("name");
        reveal_strlit("status");
        assert("height"@[0] != "status"@[0]);
        reveal_strlit("scancode");
        reveal_strlit("key");
        reveal_strlit("dx");
        reveal_strlit("dy");
        reveal_strlit("buttons");
        reveal_strlit("write");
        reveal_strlit("bundle");
        assert("height"@[0] != "bundle"@[0]);
        reveal_strlit("owner");
        reveal_strlit("owns");
        reveal_strlit("can_read");
        reveal_strlit("can_write");
        reveal_strlit("can_link");
        reveal_strlit("can_handle_irq");
        reveal_strlit("can_dma");
        reveal_strlit("can_mmio");
        reveal_strlit("can_port_io");
        reveal_strlit("target");
        assert("height"@[0] != "target"@[0]);
        reveal_strlit("text");
        reveal_strlit("stdout");
        assert("height"@[0] != "stdout"@[0]);
        reveal_strlit("addr");
        reveal_strlit("width");
    } else if code == 0x505448 {
        reveal_strlit("pitch");
        reveal_strlit("journal");
        reveal_strlit("keyboard");
        reveal_strlit("key_pressed");
        reveal_strlit("key_event");
        reveal_strlit("mouse");
        assert("pitch"@[0] != "mouse"@[0]);
        reveal_strlit("mouse_moved");
        reveal_strlit("mouse_move");
        reveal_strlit("mouse_button");
        reveal_strlit("input.device.mouse");
        reveal_strlit("input.event");
        reveal_strlit("move");
        reveal_strlit("device_id");
        reveal_strlit("ts");
        reveal_strlit("down");
        reveal_strlit("button");
        reveal_strlit("at");
        reveal_strlit("init");
        reveal_strlit("fail");
        reveal_strlit("driver");
        reveal_strlit("thing_created");
        reveal_strlit("edge_added");
        reveal_strlit("id");
        reveal_strlit("kind");
        reveal_strlit("fields");
        reveal_strlit("revision");
        reveal_strlit("src");
        reveal_strlit("dst");
        reveal_strlit("predicate");
        reveal_strlit("name");
        reveal_strlit("status");
        reveal_strlit("scancode");
        reveal_strlit("key");
        reveal_strlit("dx");
        reveal_strlit("dy");
        reveal_strlit("buttons");
        reveal_strlit("write");
        assert("pitch"@[0] != "write"@[0]);
        reveal_strlit("bundle");
        reveal_strlit("owner");
        assert("pitch"@[0] != "owner"@[0]);
        reveal_strlit("owns");
        reveal_strlit("can_read");
        reveal_strlit("can_write");
        reveal_strlit("can_link");
        reveal_strlit("can_handle_irq");
        reveal_strlit("can_dma");
        reveal_strlit("can_mmio");
        reveal_strlit("can_port_io");
        reveal_strlit("target");
        reveal_strlit("text");
        reveal_strlit("stdout");
        reveal_strlit("addr");
        reveal_strlit("width");
        assert("pitch"@[0] != "width"@[0]);
        reveal_strlit("height");
    } else if code == 0x425050 {
        reveal_strlit("bpp");
        reveal_strlit("journal");
        reveal_strlit("keyboard");
        reveal_strlit("key_pressed");
        reveal_strlit("key_event");
        reveal_strlit("mouse");
        reveal_strlit("mouse_moved");
        reveal_strlit("mouse_move");
        reveal_strlit("mouse_button");
        reveal_strlit("input.device.mouse");
        reveal_strlit("input.event");
        reveal_strlit("move");
        reveal_strlit("device_id");
        reveal_strlit("ts");
        reveal_strlit("down");
        reveal_strlit("button");
        reveal_strlit("at");
        reveal_strlit("init");
        reveal_strlit("fail");
        reveal_strlit("driver");
        reveal_strlit("thing_created");
        reveal_strlit("edge_added");
        reveal_strlit("id");
        reveal_strlit("kind");
        reveal_strlit("fields");
        reveal_strlit("revision");
        reveal_strlit("src");
        assert("bpp"@[0] != "src"@[0]);
        reveal_strlit("dst");
        assert("bpp"@[0] != "dst"@[0]);
        reveal_strlit("predicate");
        reveal_strlit("name");
        reveal_strlit("status");
        reveal_strlit("scancode");
        reveal_strlit("key");
        assert("bpp"@[0] != "key"@[0]);
        reveal_strlit("dx");
        reveal_strlit("dy");
        reveal_strlit("buttons");
        reveal_strlit("write");
        reveal_strlit("bundle");
        reveal_strlit("owner");
        reveal_strlit("owns");
        reveal_strlit("can_read");
        reveal_strlit("can_write");
        reveal_strlit("can_link");
        reveal_strlit("can_handle_irq");
        reveal_strlit("can_dma");
        reveal_strlit("can_mmio");
        reveal_strlit("can_port_io");
        reveal_strlit("target");
        reveal_strlit("text");
        reveal_strlit("stdout");
        reveal_strlit("addr");
        reveal_strlit("width");
        reveal_strlit("height");
        reveal_strlit("pitch");
    } else if code == 0x434d50 {
        reveal_strlit("compositor");
        reveal_strlit("journal");
        reveal_strlit("keyboard");
        reveal_strlit("key_pressed");
        reveal_strlit("key_event");
        reveal_strlit("mouse");
        reveal_strlit("mouse_moved");
        reveal_strlit("mouse_move");
        assert("compositor"@[0] != "mouse_move"@[0]);
        reveal_strlit("mouse_button");
        reveal_strlit("input.device.mouse");
        reveal_strlit("input.event");
        reveal_strlit("move");
        reveal_strlit("device_id");
        reveal_strlit("ts");
        reveal_strlit("down");
        reveal_strlit("button");
        reveal_strlit("at");
        reveal_strlit("init");
        reveal_strlit("fail");
        reveal_strlit("driver");
        reveal_strlit("thing_created");
        reveal_strlit("edge_added");
        assert("compositor"@[0] != "edge_added"@[0]);
        reveal_strlit("id");
        reveal_strlit("kind");
        reveal_strlit("fields");
        reveal_strlit("revision");
        reveal_strlit("src");
        reveal_strlit("dst");
        reveal_strlit("predicate");
        reveal_strlit("name");
        reveal_strlit("status");
        reveal_strlit("scancode");
        reveal_strlit("key");
        reveal_strlit("dx");
        reveal_strlit("dy");
        reveal_strlit("buttons");
        reveal_strlit("write");
        reveal_strlit("bundle");
        reveal_strlit("owner");
        reveal_strlit("owns");
        reveal_strlit("can_read");
        reveal_strlit("can_write");
        reveal_strlit("can_link");
        reveal_strlit("can_handle_irq");
        reveal_strlit("can_dma");
        reveal_strlit("can_mmio");
        reveal_strlit("can_port_io");
        reveal_strlit("target");
        reveal_strlit("text");
        reveal_strlit("stdout");
        reveal_strlit("addr");
        reveal_strlit("width");
        reveal_strlit("height");
        reveal_strlit("pitch");
        reveal_strlit("bpp");
    } else if code == 0x57494e {
        reveal_strlit("window");
        reveal_strlit("journal");
        reveal_strlit("keyboard");
        reveal_strlit("key_pressed");
        reveal_strlit("key_event");
        reveal_strlit("mouse");
        reveal_strlit("mouse_moved");
        reveal_strlit("mouse_move");
        reveal_strlit("mouse_button");
        reveal_strlit("input.device.mouse");
        reveal_strlit("input.event");
        reveal_strlit("move");
        reveal_strlit("device_id");
        reveal_strlit("ts");
        reveal_strlit("down");
        reveal_strlit("button");
        assert("window"@[0] != "button"@[0]);
        reveal_strlit("at");
        reveal_strlit("init");
        reveal_strlit("fail");
        reveal_strlit("driver");
        assert("window"@[0] != "driver"@[0]);
        reveal_strlit("thing_created");
        reveal_strlit("edge_added");
        reveal_strlit("id");
        reveal_strlit("kind");
        reveal_strlit("fields");
        assert("window"@[0] != "fields"@[0]);
        reveal_strlit("revision");
        reveal_strlit("src");
        reveal_strlit("dst");
        reveal_strlit("predicate");
        reveal_strlit("name");
        reveal_strlit("status");
        assert("window"@[0] != "status"@[0]);
        reveal_strlit("scancode");
        reveal_strlit("key");
        reveal_strlit("dx");
        reveal_strlit("dy");
        reveal_strlit("buttons");
        reveal_strlit("write");
        reveal_strlit("bundle");
        assert("window"@[0] != "bundle"@[0]);
        reveal_strlit("owner");
        reveal_strlit("owns");
        reveal_strlit("can_read");
        reveal_strlit("can_write");
        reveal_strlit("can_link");
        reveal_strlit("can_handle_irq");
        reveal_strlit("can_dma");
        reveal_strlit("can_mmio");
        reveal_strlit("can_port_io");
        reveal_strlit("target");
        assert("window"@[0] != "target"@[0]);
        reveal_strlit("text");
        reveal_strlit("stdout");
        assert("window"@[0] != "stdout"@[0]);
        reveal_strlit("addr");
        reveal_strlit("width");
        reveal_strlit("height");
        assert("window"@[0] != "height"@[0]);
        reveal_strlit("pitch");
        reveal_strlit("bpp");
        reveal_strlit("compositor");
    } else if code == 0x50584d {
        reveal_strlit("pixmap");
        reveal_strlit("journal");
        reveal_strlit("keyboard");
        reveal_strlit("key_pressed");
        reveal_strlit("key_event");
        reveal_strlit("mouse");
        reveal_strlit("mouse_moved");
        reveal_strlit("mouse_move");
        reveal_strlit("mouse_button");
        reveal_strlit("input.device.mouse");
        reveal_strlit("input.event");
        reveal_strlit("move");
        reveal_strlit("device_id");
        reveal_strlit("ts");
        reveal_strlit("down");
        reveal_strlit("button");
        assert("pixmap"@[0] != "button"@[0]);
        reveal_strlit("at");
        reveal_strlit("init");
        reveal_strlit("fail");
        reveal_strlit("driver");
        assert("pixmap"@[0] != "driver"@[0]);
        reveal_strlit("thing_created");
        reveal_strlit("edge_added");
        reveal_strlit("id");
        reveal_strlit("kind");
        reveal_strlit("fields");
        assert("pixmap"@[0] != "fields"@[0]);
        reveal_strlit("revision");
        reveal_strlit("src");
        reveal_strlit("dst");
        reveal_strlit("predicate");
        reveal_strlit("name");
        reveal_strlit("status");
        assert("pixmap"@[0] != "status"@[0]);
        reveal_strlit("scancode");
        reveal_strlit("key");
        reveal_strlit("dx");
        reveal_strlit("dy");
        reveal_strlit("buttons");
        reveal_strlit("write");
        reveal_strlit("bundle");
        assert("pixmap"@[0] != "bundle"@[0]);
        reveal_strlit("owner");
        reveal_strlit("owns");
        reveal_strlit("can_read");
        reveal_strlit("can_write");
        reveal_strlit("can_link");
        reveal_strlit("can_handle_irq");
        reveal_strlit("can_dma");
        reveal_strlit("can_mmio");
        reveal_strlit("can_port_io");
        reveal_strlit("target");
        assert("pixmap"@[0] != "target"@[0]);
        reveal_strlit("text");
        reveal_strlit("stdout");
        assert("pixmap"@[0] != "stdout"@[0]);
        reveal_strlit("addr");
        reveal_strlit("width");
        reveal_strlit("height");
        assert("pixmap"@[0] != "height"@[0]);
        reveal_strlit("pitch");
        reveal_strlit("bpp");
        reveal_strlit("compositor");
        reveal_strlit("window");
        assert("pixmap"@[0] != "window"@[0]);
    } else if code == 0x53544d {
        reveal_strlit("streams");
        reveal_strlit("journal");
        assert("streams"@[0] != "journal"@[0]);
        reveal_strlit("keyboard");
        reveal_strlit("key_pressed");
        reveal_strlit("key_event");
        reveal_strlit("mouse");
        reveal_strlit("mouse_moved");
        reveal_strlit("mouse_move");
        reveal_strlit("mouse_button");
        reveal_strlit("input.device.mouse");
        reveal_strlit("input.event");
        reveal_strlit("move");
        reveal_strlit("device_id");
        reveal_strlit("ts");
        reveal_strlit("down");
        reveal_strlit("button");
        reveal_strlit("at");
        reveal_strlit("init");
        reveal_strlit("fail");
        reveal_strlit("driver");
        reveal_strlit("thing_created");
        reveal_strlit("edge_added");
        reveal_strlit("id");
        reveal_strlit("kind");
        reveal_strlit("fields");
        reveal_strlit("revision");
        reveal_strlit("src");
        reveal_strlit("dst");
        reveal_strlit("predicate");
        reveal_strlit("name");
        reveal_strlit("status");
        reveal_strlit("scancode");
        reveal_strlit("key");
        reveal_strlit("dx");
        reveal_strlit("dy");
        reveal_strlit("buttons");
        assert("streams"@[0] != "buttons"@[0]);
        reveal_strlit("write");
        reveal_strlit("bundle");
        reveal_strlit("owner");
        reveal_strlit("owns");
        reveal_strlit("can_read");
        reveal_strlit("can_write");
        reveal_strlit("can_link");
        reveal_strlit("can_handle_irq");
        reveal_strlit("can_dma");
        assert("streams"@[0] != "can_dma"@[0]);
        reveal_strlit("can_mmio");
        reveal_strlit("can_port_io");
        reveal_strlit("target");
        reveal_strlit("text");
        reveal_strlit("stdout");
        reveal_strlit("addr");
        reveal_strlit("width");
        reveal_strlit("height");
        reveal_strlit("pitch");
        reveal_strlit("bpp");
        reveal_strlit("compositor");
        reveal_strlit("window");
        reveal_strlit("pixmap");
    } else if code == 0x434d42 {
        reveal_strlit("composed_by");
        reveal_strlit("journal");
        reveal_strlit("keyboard");
        reveal_strlit("key_pressed");
        assert("composed_by"@[0] != "key_pressed"@[0]);
        reveal_strlit("key_event");
        reveal_strlit("mouse");
        reveal_strlit("mouse_moved");
        assert("composed_by"@[0] != "mouse_moved"@[0]);
        reveal_strlit("mouse_move");
        reveal_strlit("mouse_button");
        reveal_strlit("input.device.mouse");
        reveal_strlit("input.event");
        assert("composed_by"@[0] != "input.event"@[0]);
        reveal_strlit("move");
        reveal_strlit("device_id");
        reveal_strlit("ts");
        reveal_strlit("down");
        reveal_strlit("button");
        reveal_strlit("at");
        reveal_strlit("init");
        reveal_strlit("fail");
        reveal_strlit("driver");
        reveal_strlit("thing_created");
        reveal_strlit("edge_added");
        reveal_strlit("id");
        reveal_strlit("kind");
        reveal_strlit("fields");
        reveal_strlit("revision");
        reveal_strlit("src");
        reveal_strlit("dst");
        reveal_strlit("predicate");
        reveal_strlit("name");
        reveal_strlit("status");
        reveal_strlit("scancode");
        reveal_strlit("key");
        reveal_strlit("dx");
        reveal_strlit("dy");
        reveal_strlit("buttons");
        reveal_strlit("write");
        reveal_strlit("bundle");
        reveal_strlit("owner");
        reveal_strlit("owns");
        reveal_strlit("can_read");
        reveal_strlit("can_write");
        reveal_strlit("can_link");
        reveal_strlit("can_handle_irq");
        reveal_strlit("can_dma");
        reveal_strlit("can_mmio");
        reveal_strlit("can_port_io");
        assert("composed_by"@[1] != "can_port_io"@[1]);
        reveal_strlit("target");
        reveal_strlit("text");
        reveal_strlit("stdout");
        reveal_strlit("addr");
        reveal_strlit("width");
        reveal_strlit("height");
        reveal_strlit("pitch");
        reveal_strlit("bpp");
        reveal_strlit("compositor");
        reveal_strlit("window");
        reveal_strlit("pixmap");
        reveal_strlit("streams");
    } else if code == 0x574352 {
        reveal_strlit("window_created");
        reveal_strlit("journal");
        reveal_strlit("keyboard");
        reveal_strlit("key_pressed");
        reveal_strlit("key_event");
        reveal_strlit("mouse");
        reveal_strlit("mouse_moved");
        reveal_strlit("mouse_move");
        reveal_strlit("mouse_button");
        reveal_strlit("input.device.mouse");
        reveal_strlit("input.event");
        reveal_strlit("move");
        reveal_strlit("device_id");
        reveal_strlit("ts");
        reveal_strlit("down");
        reveal_strlit("button");
        reveal_strlit("at");
        reveal_strlit("init");
        reveal_strlit("fail");
        reveal_strlit("driver");
        reveal_strlit("thing_created");
        reveal_strlit("edge_added");
        reveal_strlit("id");
        reveal_strlit("kind");
        reveal_strlit("fields");
        reveal_strlit("revision");
        reveal_strlit("src");
        reveal_strlit("dst");
        reveal_strlit("predicate");
        reveal_strlit("name");
        reveal_strlit("status");
        reveal_strlit("scancode");
        reveal_strlit("key");
        reveal_strlit("dx");
        reveal_strlit("dy");
        reveal_strlit("buttons");
        reveal_strlit("write");
        reveal_strlit("bundle");
        reveal_strlit("owner");
        reveal_strlit("owns");
        reveal_strlit("can_read");
        reveal_strlit("can_write");
        reveal_strlit("can_link");
        reveal_strlit("can_handle_irq");
        assert("window_created"@[0] != "can_handle_irq"@[0]);
        reveal_strlit("can_dma");
        reveal_strlit("can_mmio");
        reveal_strlit("can_port_io");
        reveal_strlit("target");
        reveal_strlit("text");
        reveal_strlit("stdout");
        reveal_strlit("addr");
        reveal_strlit("width");
        reveal_strlit("height");
        reveal_strlit("pitch");
        reveal_strlit("bpp");
        reveal_strlit("compositor");
        reveal_strlit("window");
        reveal_strlit("pixmap");
        reveal_strlit("streams");
        reveal_strlit("composed_by");
    } else if code == 0x574255 {
        reveal_strlit("window_buffer_updated");
        reveal_strlit("journal");
        reveal_strlit("keyboard");
        reveal_strlit("key_pressed");
        reveal_strlit("key_event");
        reveal_strlit("mouse");
        reveal_strlit("mouse_moved");
        reveal_strlit("mouse_move");
        reveal_strlit("mouse_button");
        reveal_strlit("input.device.mouse");
        reveal_strlit("input.event");
        reveal_strlit("move");
        reveal_strlit("device_id");
        reveal_strlit("ts");
        reveal_strlit("down");
        reveal_strlit("button");
        reveal_strlit("at");
        reveal_strlit("init");
        reveal_strlit("fail");
        reveal_strlit("driver");
        reveal_strlit("thing_created");
        reveal_strlit("edge_added");
        reveal_strlit("id");
        reveal_strlit("kind");
        reveal_strlit("fields");
        reveal_strlit("revision");
        reveal_strlit("src");
        reveal_strlit("dst");
        reveal_strlit("predicate");
        reveal_strlit("name");
        reveal_strlit("status");
        reveal_strlit("scancode");
        reveal_strlit("key");
        reveal_strlit("dx");
        reveal_strlit("dy");
        reveal_strlit("buttons");
        reveal_strlit("write");
        reveal_strlit("bundle");
        reveal_strlit("owner");
        reveal_strlit("owns");
        reveal_strlit("can_read");
        reveal_strlit("can_write");
        reveal_strlit("can_link");
        reveal_strlit("can_handle_irq");
        reveal_strlit("can_dma");
        reveal_strlit("can_mmio");
        reveal_strlit("can_port_io");
        reveal_strlit("target");
        reveal_strlit("text");
        reveal_strlit("stdout");
        reveal_strlit("addr");
        reveal_strlit("width");
        reveal_strlit("height");
        reveal_strlit("pitch");
        reveal_strlit("bpp");
        reveal_strlit("compositor");
        reveal_strlit("window");
        reveal_strlit("pixmap");
        reveal_strlit("streams");
        reveal_strlit("composed_by");
        reveal_strlit("window_created");
    } else if code == 0x46524d {
        reveal_strlit("frame_ready");
        reveal_strlit("journal");
        reveal_strlit("keyboard");
        reveal_strlit("key_pressed");
        assert("frame_ready"@[0] != "key_pressed"@[0]);
        reveal_strlit("key_event");
        reveal_strlit("mouse");
        reveal_strlit("mouse_moved");
        assert("frame_ready"@[0] != "mouse_moved"@[0]);
        reveal_strlit("mouse_move");
        reveal_strlit("mouse_button");
        reveal_strlit("input.device.mouse");
        reveal_strlit("input.event");
        assert("frame_ready"@[0] != "input.event"@[0]);
        reveal_strlit("move");
        reveal_strlit("device_id");
        reveal_strlit("ts");
        reveal_strlit("down");
        reveal_strlit("button");
        reveal_strlit("at");
        reveal_strlit("init");
        reveal_strlit("fail");
        reveal_strlit("driver");
        reveal_strlit("thing_created");
        reveal_strlit("edge_added");
        reveal_strlit("id");
        reveal_strlit("kind");
        reveal_strlit("fields");
        reveal_strlit("revision");
        reveal_strlit("src");
        reveal_strlit("dst");
        reveal_strlit("predicate");
        reveal_strlit("name");
        reveal_strlit("status");
        reveal_strlit("scancode");
        reveal_strlit("key");
        reveal_strlit("dx");
        reveal_strlit("dy");
        reveal_strlit("buttons");
        reveal_strlit("write");
        reveal_strlit("bundle");
        reveal_strlit("owner");
        reveal_strlit("owns");
        reveal_strlit("can_read");
        reveal_strlit("can_write");
        reveal_strlit("can_link");
        reveal_strlit("can_handle_irq");
        reveal_strlit("can_dma");
        reveal_strlit("can_mmio");
        reveal_strlit("can_port_io");
        assert("frame_ready"@[0] != "can_port_io"@[0]);
        reveal_strlit("target");
        reveal_strlit("text");
        reveal_strlit("stdout");
        reveal_strlit("addr");
        reveal_strlit("width");
        reveal_strlit("height");
        reveal_strlit("pitch");
        reveal_strlit("bpp");
        reveal_strlit("compositor");
        reveal_strlit("window");
        reveal_strlit("pixmap");
        reveal_strlit("streams");
        reveal_strlit("composed_by");
        assert("frame_ready"@[0] != "composed_by"@[0]);
        reveal_strlit("window_created");
        reveal_strlit("window_buffer_updated");
    } else if code == 0x494e50 {
        reveal_strlit("driver_input");
        reveal_strlit("journal");
        reveal_strlit("keyboard");
        reveal_strlit("key_pressed");
        reveal_strlit("key_event");
        reveal_strlit("mouse");
        reveal_strlit("mouse_moved");
        reveal_strlit("mouse_move");
        reveal_strlit("mouse_button");
        assert("driver_input"@[0] != "mouse_button"@[0]);
        reveal_strlit("input.device.mouse");
        reveal_strlit("input.event");
        reveal_strlit("move");
        reveal_strlit("device_id");
        reveal_strlit("ts");
        reveal_strlit("down");
        reveal_strlit("button");
        reveal_strlit("at");
        reveal_strlit("init");
        reveal_strlit("fail");
        reveal_strlit("driver");
        reveal_strlit("thing_created");
        reveal_strlit("edge_added");
        reveal_strlit("id");
        reveal_strlit("kind");
        reveal_strlit("fields");
        reveal_strlit("revision");
        reveal_strlit("src");
        reveal_strlit("dst");
        reveal_strlit("predicate");
        reveal_strlit("name");
        reveal_strlit("status");
        reveal_strlit("scancode");
        reveal_strlit("key");
        reveal_strlit("dx");
        reveal_strlit("dy");
        reveal_strlit("buttons");
        reveal_strlit("write");
        reveal_strlit("bundle");
        reveal_strlit("owner");
        reveal_strlit("owns");
        reveal_strlit("can_read");
        reveal_strlit("can_write");
        reveal_strlit("can_link");
        reveal_strlit("can_handle_irq");
        reveal_strlit("can_dma");
        reveal_strlit("can_mmio");
        reveal_strlit("can_port_io");
        reveal_strlit("target");
        reveal_strlit("text");
        reveal_strlit("stdout");
        reveal_strlit("addr");
        reveal_strlit("width");
        reveal_strlit("height");
        reveal_strlit("pitch");
        reveal_strlit("bpp");
        reveal_strlit("compositor");
        reveal_strlit("window");
        reveal_strlit("pixmap");
        reveal_strlit("streams");
        reveal_strlit("composed_by");
        reveal_strlit("window_created");
        reveal_strlit("window_buffer_updated");
        reveal_strlit("frame_ready");
    } else if code == 0x445350 {
        reveal_strlit("driver_display");
        reveal_strlit("journal");
        reveal_strlit("keyboard");
        reveal_strlit("key_pressed");
        reveal_strlit("key_event");
        reveal_strlit("mouse");
        reveal_strlit("mouse_moved");
        reveal_strlit("mouse_move");
        reveal_strlit("mouse_button");
        reveal_strlit("input.device.mouse");
        reveal_strlit("input.event");
        reveal_strlit("move");
        reveal_strlit("device_id");
        reveal_strlit("ts");
        reveal_strlit("down");
        reveal_strlit("button");
        reveal_strlit("at");
        reveal_strlit("init");
        reveal_strlit("fail");
        reveal_strlit("driver");
        reveal_strlit("thing_created");
        reveal_strlit("edge_added");
        reveal_strlit("id");
        reveal_strlit("kind");
        reveal_strlit("fields");
        reveal_strlit("revision");
        reveal_strlit("src");
        reveal_strlit("dst");
        reveal_strlit("predicate");
        reveal_strlit("name");
        reveal_strlit("status");
        reveal_strlit("scancode");
        reveal_strlit("key");
        reveal_strlit("dx");
        reveal_strlit("dy");
        reveal_strlit("buttons");
        reveal_strlit("write");
        reveal_strlit("bundle");
        reveal_strlit("owner");
        reveal_strlit("owns");
        reveal_strlit("can_read");
        reveal_strlit("can_write");
        reveal_strlit("can_link");
        reveal_strlit("can_handle_irq");
        assert("driver_display"@[0] != "can_handle_irq"@[0]);
        reveal_strlit("can_dma");
        reveal_strlit("can_mmio");
        reveal_strlit("can_port_io");
        reveal_strlit("target");
        reveal_strlit("text");
        reveal_strlit("stdout");
        reveal_strlit("addr");
        reveal_strlit("width");
        reveal_strlit("height");
        reveal_strlit("pitch");
        reveal_strlit("bpp");
        reveal_strlit("compositor");
        reveal_strlit("window");
        reveal_strlit("pixmap");
        reveal_strlit("streams");
        reveal_strlit("composed_by");
        reveal_strlit("window_created");
        assert("driver_display"@[0] != "window_created"@[0]);
        reveal_strlit("window_buffer_updated");
        reveal_strlit("frame_ready");
        reveal_strlit("driver_input");
    } else if code == 0x535452 {
        reveal_strlit("driver_storage");
        reveal_strlit("journal");
        reveal_strlit("keyboard");
        reveal_strlit("key_pressed");
        reveal_strlit("key_event");
        reveal_strlit("mouse");
        reveal_strlit("mouse_moved");
        reveal_strlit("mouse_move");
        reveal_strlit("mouse_button");
        reveal_strlit("input.device.mouse");
        reveal_strlit("input.event");
        reveal_strlit("move");
        reveal_strlit("device_id");
        reveal_strlit("ts");
        reveal_strlit("down");
        reveal_strlit("button");
        reveal_strlit("at");
        reveal_strlit("init");
        reveal_strlit("fail");
        reveal_strlit("driver");
        reveal_strlit("thing_created");
        reveal_strlit("edge_added");
        reveal_strlit("id");
        reveal_strlit("kind");
        reveal_strlit("fields");
        reveal_strlit("revision");
        reveal_strlit("src");
        reveal_strlit("dst");
        reveal_strlit("predicate");
        reveal_strlit("name");
        reveal_strlit("status");
        reveal_strlit("scancode");
        reveal_strlit("key");
        reveal_strlit("dx");
        reveal_strlit("dy");
        reveal_strlit("buttons");
        reveal_strlit("write");
        reveal_strlit("bundle");
        reveal_strlit("owner");
        reveal_strlit("owns");
        reveal_strlit("can_read");
        reveal_strlit("can_write");
        reveal_strlit("can_link");
        reveal_strlit("can_handle_irq");
        assert("driver_storage"@[0] != "can_handle_irq"@[0]);
        reveal_strlit("can_dma");
        reveal_strlit("can_mmio");
        reveal_strlit("can_port_io");
        reveal_strlit("target");
        reveal_strlit("text");
        reveal_strlit("stdout");
        reveal_strlit("addr");
        reveal_strlit("width");
        reveal_strlit("height");
        reveal_strlit("pitch");
        reveal_strlit("bpp");
        reveal_strlit("compositor");
        reveal_strlit("window");
        reveal_strlit("pixmap");
        reveal_strlit("streams");
        reveal_strlit("composed_by");
        reveal_strlit("window_created");
        assert("driver_storage"@[0] != "window_created"@[0]);
        reveal_strlit("window_buffer_updated");
        reveal_strlit("frame_ready");
        reveal_strlit("driver_input");
        reveal_strlit("driver_display");
        assert("driver_storage"@[7] != "driver_display"@[7]);
    } else if code == 0x544d52 {
        reveal_strlit("driver_timer");
        reveal_strlit("journal");
        reveal_strlit("keyboard");
        reveal_strlit("key_pressed");
        reveal_strlit("key_event");
        reveal_strlit("mouse");
        reveal_strlit("mouse_moved");
        reveal_strlit("mouse_move");
        reveal_strlit("mouse_button");
        assert("driver_timer"@[0] != "mouse_button"@[0]);
        reveal_strlit("input.device.mouse");
        reveal_strlit("input.event");
        reveal_strlit("move");
        reveal_strlit("device_id");
        reveal_strlit("ts");
        reveal_strlit("down");
        reveal_strlit("button");
        reveal_strlit("at");
        reveal_strlit("init");
        reveal_strlit("fail");
        reveal_strlit("driver");
        reveal_strlit("thing_created");
        reveal_strlit("edge_added");
        reveal_strlit("id");
        reveal_strlit("kind");
        reveal_strlit("fields");
        reveal_strlit("revision");
        reveal_strlit("src");
        reveal_strlit("dst");
        reveal_strlit("predicate");
        reveal_strlit("name");
        reveal_strlit("status");
        reveal_strlit("scancode");
        reveal_strlit("key");
        reveal_strlit("dx");
        reveal_strlit("dy");
        reveal_strlit("buttons");
        reveal_strlit("write");
        reveal_strlit("bundle");
        reveal_strlit("owner");
        reveal_strlit("owns");
        reveal_strlit("can_read");
        reveal_strlit("can_write");
        reveal_strlit("can_link");
        reveal_strlit("can_handle_irq");
        reveal_strlit("can_dma");
        reveal_strlit("can_mmio");
        reveal_strlit("can_port_io");
        reveal_strlit("target");
        reveal_strlit("text");
        reveal_strlit("stdout");
        reveal_strlit("addr");
        reveal_strlit("width");
        reveal_strlit("height");
        reveal_strlit("pitch");
        reveal_strlit("bpp");
        reveal_strlit("compositor");
        reveal_strlit("window");
        reveal_strlit("pixmap");
        reveal_strlit("streams");
        reveal_strlit("composed_by");
        reveal_strlit("window_created");
        reveal_strlit("window_buffer_updated");
        reveal_strlit("frame_ready");
        reveal_strlit("driver_input");
        assert("driver_timer"@[7] != "driver_input"@[7]);
        reveal_strlit("driver_display");
        reveal_strlit("driver_storage");
    } else if code == 0x4f5448 {
        reveal_strlit("driver_other");
        reveal_strlit("journal");
        reveal_strlit("keyboard");
        reveal_strlit("key_pressed");
        reveal_strlit("key_event");
        reveal_strlit("mouse");
        reveal_strlit("mouse_moved");
        reveal_strlit("mouse_move");
        reveal_strlit("mouse_button");
        assert("driver_other"@[0] != "mouse_button"@[0]);
        reveal_strlit("input.device.mouse");
        reveal_strlit("input.event");
        reveal_strlit("move");
        reveal_strlit("device_id");
        reveal_strlit("ts");
        reveal_strlit("down");
        reveal_strlit("button");
        reveal_strlit("at");
        reveal_strlit("init");
        reveal_strlit("fail");
        reveal_strlit("driver");
        reveal_strlit("thing_created");
        reveal_strlit("edge_added");
        reveal_strlit("id");
        reveal_strlit("kind");
        reveal_strlit("fields");
        reveal_strlit("revision");
        reveal_strlit("src");
        reveal_strlit("dst");
        reveal_strlit("predicate");
        reveal_strlit("name");
        reveal_strlit("status");
        reveal_strlit("scancode");
        reveal_strlit("key");
        reveal_strlit("dx");
        reveal_strlit("dy");
        reveal_strlit("buttons");
        reveal_strlit("write");
        reveal_strlit("bundle");
        reveal_strlit("owner");
        reveal_strlit("owns");
        reveal_strlit("can_read");
        reveal_strlit("can_write");
        reveal_strlit("can_link");
        reveal_strlit("can_handle_irq");
        reveal_strlit("can_dma");
        reveal_strlit("can_mmio");
        reveal_strlit("can_port_io");
        reveal_strlit("target");
        reveal_strlit("text");
        reveal_strlit("stdout");
        reveal_strlit("addr");
        reveal_strlit("width");
        reveal_strlit("height");
        reveal_strlit("pitch");
        reveal_strlit("bpp");
        reveal_strlit("compositor");
        reveal_strlit("window");
        reveal_strlit("pixmap");
        reveal_strlit("streams");
        reveal_strlit("composed_by");
        reveal_strlit("window_created");
        reveal_strlit("window_buffer_updated");
        reveal_strlit("frame_ready");
        reveal_strlit("driver_input");
        assert("driver_other"@[7] != "driver_input"@[7]);
        reveal_strlit("driver_display");
        reveal_strlit("driver_storage");
        reveal_strlit("driver_timer");
        assert("driver_other"@[7] != "driver_timer"@[7]);
    } else if code == 0x444556 {
        reveal_strlit("device");
        reveal_strlit("journal");
        reveal_strlit("keyboard");
        reveal_strlit("key_pressed");
        reveal_strlit("key_event");
        reveal_strlit("mouse");
        reveal_strlit("mouse_moved");
        reveal_strlit("mouse_move");
        reveal_strlit("mouse_button");
        reveal_strlit("input.device.mouse");
        reveal_strlit("input.event");
        reveal_strlit("move");
        reveal_strlit("device_id");
        reveal_strlit("ts");
        reveal_strlit("down");
        reveal_strlit("button");
        assert("device"@[0] != "button"@[0]);
        reveal_strlit("at");
        reveal_strlit("init");
        reveal_strlit("fail");
        reveal_strlit("driver");
        assert("device"@[1] != "driver"@[1]);
        reveal_strlit("thing_created");
        reveal_strlit("edge_added");
        reveal_strlit("id");
        reveal_strlit("kind");
        reveal_strlit("fields");
        assert("device"@[0] != "fields"@[0]);
        reveal_strlit("revision");
        reveal_strlit("src");
        reveal_strlit("dst");
        reveal_strlit("predicate");
        reveal_strlit("name");
        reveal_strlit("status");
        assert("device"@[0] != "status"@[0]);
        reveal_strlit("scancode");
        reveal_strlit("key");
        reveal_strlit("dx");
        reveal_strlit("dy");
        reveal_strlit("buttons");
        reveal_strlit("write");
        reveal_strlit("bundle");
        assert("device"@[0] != "bundle"@[0]);
        reveal_strlit("owner");
        reveal_strlit("owns");
        reveal_strlit("can_read");
        reveal_strlit("can_write");
        reveal_strlit("can_link");
        reveal_strlit("can_handle_irq");
        reveal_strlit("can_dma");
        reveal_strlit("can_mmio");
        reveal_strlit("can_port_io");
        reveal_strlit("target");
        assert("device"@[0] != "target"@[0]);
        reveal_strlit("text");
        reveal_strlit("stdout");
        assert("device"@[0] != "stdout"@[0]);
        reveal_strlit("addr");
        reveal_strlit("width");
        reveal_strlit("height");
        assert("device"@[0] != "height"@[0]);
        reveal_strlit("pitch");
        reveal_strlit("bpp");
        reveal_strlit("compositor");
        reveal_strlit("window");
        assert("device"@[0] != "window"@[0]);
        reveal_strlit("pixmap");
        assert("device"@[0] != "pixmap"@[0]);
        reveal_strlit("streams");
        reveal_strlit("composed_by");
        reveal_strlit("window_created");
        reveal_strlit("window_buffer_updated");
        reveal_strlit("frame_ready");
        reveal_strlit("driver_input");
        reveal_strlit("driver_display");
        reveal_strlit("driver_storage");
        reveal_strlit("driver_timer");
        reveal_strlit("driver_other");
    } else if code == 0x464244 {
        reveal_strlit("device.framebuffer");
        reveal_strlit("journal");
        reveal_strlit("keyboard");
        reveal_strlit("key_pressed");
        reveal_strlit("key_event");
        reveal_strlit("mouse");
        reveal_strlit("mouse_moved");
        reveal_strlit("mouse_move");
        reveal_strlit("mouse_button");
        reveal_strlit("input.device.mouse");
        assert("device.framebuffer"@[0] != "input.device.mouse"@[0]);
        reveal_strlit("input.event");
        reveal_strlit("move");
        reveal_strlit("device_id");
        reveal_strlit("ts");
        reveal_strlit("down");
        reveal_strlit("button");
        reveal_strlit("at");
        reveal_strlit("init");
        reveal_strlit("fail");
        reveal_strlit("driver");
        reveal_strlit("thing_created");
        reveal_strlit("edge_added");
        reveal_strlit("id");
        reveal_strlit("kind");
        reveal_strlit("fields");
        reveal_strlit("revision");
        reveal_strlit("src");
        reveal_strlit("dst");
        reveal_strlit("predicate");
        reveal_strlit("name");
        reveal_strlit("status");
        reveal_strlit("scancode");
        reveal_strlit("key");
        reveal_strlit("dx");
        reveal_strlit("dy");
        reveal_strlit("buttons");
        reveal_strlit("write");
        reveal_strlit("bundle");
        reveal_strlit("owner");
        reveal_strlit("owns");
        reveal_strlit("can_read");
        reveal_strlit("can_write");
        reveal_strlit("can_link");
        reveal_strlit("can_handle_irq");
        reveal_strlit("can_dma");
        reveal_strlit("can_mmio");
        reveal_strlit("can_port_io");
        reveal_strlit("target");
        reveal_strlit("text");
        reveal_strlit("stdout");
        reveal_strlit("addr");
        reveal_strlit("width");
        reveal_strlit("height");
        reveal_strlit("pitch");
        reveal_strlit("bpp");
        reveal_strlit("compositor");
        reveal_strlit("window");
        reveal_strlit("pixmap");
        reveal_strlit("streams");
        reveal_strlit("composed_by");
        reveal_strlit("window_created");
        reveal_strlit("window_buffer_updated");
        reveal_strlit("frame_ready");
        reveal_strlit("driver_input");
        reveal_strlit("driver_display");
        reveal_strlit("driver_storage");
        reveal_strlit("driver_timer");
        reveal_strlit("driver_other");
        reveal_strlit("device");
    } else if code == 0x4b4244 {
        reveal_strlit("device.keyboard");
        reveal_strlit("journal");
        reveal_strlit("keyboard");
        reveal_strlit("key_pressed");
        reveal_strlit("key_event");
        reveal_strlit("mouse");
        reveal_strlit("mouse_moved");
        reveal_strlit("mouse_move");
        reveal_strlit("mouse_button");
        reveal_strlit("input.device.mouse");
        reveal_strlit("input.event");
        reveal_strlit("move");
        reveal_strlit("device_id");
        reveal_strlit("ts");
        reveal_strlit("down");
        reveal_strlit("button");
        reveal_strlit("at");
        reveal_strlit("init");
        reveal_strlit("fail");
        reveal_strlit("driver");
        reveal_strlit("thing_created");
        reveal_strlit("edge_added");
        reveal_strlit("id");
        reveal_strlit("kind");
        reveal_strlit("fields");
        reveal_strlit("revision");
        reveal_strlit("src");
        reveal_strlit("dst");
        reveal_strlit("predicate");
        reveal_strlit("name");
        reveal_strlit("status");
        reveal_strlit("scancode");
        reveal_strlit("key");
        reveal_strlit("dx");
        reveal_strlit("dy");
        reveal_strlit("buttons");
        reveal_strlit("write");
        reveal_strlit("bundle");
        reveal_strlit("owner");
        reveal_strlit("owns");
        reveal_strlit("can_read");
        reveal_strlit("can_write");
        reveal_strlit("can_link");
        reveal_strlit("can_handle_irq");
        reveal_strlit("can_dma");
        reveal_strlit("can_mmio");
        reveal_strlit("can_port_io");
        reveal_strlit("target");
        reveal_strlit("text");
        reveal_strlit("stdout");
        reveal_strlit("addr");
        reveal_strlit("width");
        reveal_strlit("height");
        reveal_strlit("pitch");
        reveal_strlit("bpp");
        reveal_strlit("compositor");
        reveal_strlit("window");
        reveal_strlit("pixmap");
        reveal_strlit("streams");
        reveal_strlit("composed_by");
        reveal_strlit("window_created");
        reveal_strlit("window_buffer_updated");
        reveal_strlit("frame_ready");
        reveal_strlit("driver_input");
        reveal_strlit("driver_display");
        reveal_strlit("driver_storage");
        reveal_strlit("driver_timer");
        reveal_strlit("driver_other");
        reveal_strlit("device");
        reveal_strlit("device.framebuffer");
    } else if code == 0x4d4456 {
        reveal_strlit("device.mouse");
        reveal_strlit("journal");
        reveal_strlit("keyboard");
        reveal_strlit("key_pressed");
        reveal_strlit("key_event");
        reveal_strlit("mouse");
        reveal_strlit("mouse_moved");
        reveal_strlit("mouse_move");
        reveal_strlit("mouse_button");
        assert("device.mouse"@[0] != "mouse_button"@[0]);
        reveal_strlit("input.device.mouse");
        reveal_strlit("input.event");
        reveal_strlit("move");
        reveal_strlit("device_id");
        reveal_strlit("ts");
        reveal_strlit("down");
        reveal_strlit("button");
        reveal_strlit("at");
        reveal_strlit("init");
        reveal_strlit("fail");
        reveal_strlit("driver");
        reveal_strlit("thing_created");
        reveal_strlit("edge_added");
        reveal_strlit("id");
        reveal_strlit("kind");
        reveal_strlit("fields");
        reveal_strlit("revision");
        reveal_strlit("src");
        reveal_strlit("dst");
        reveal_strlit("predicate");
        reveal_strlit("name");
        reveal_strlit("status");
        reveal_strlit("scancode");
        reveal_strlit("key");
        reveal_strlit("dx");
        reveal_strlit("dy");
        reveal_strlit("buttons");
        reveal_strlit("write");
        reveal_strlit("bundle");
        reveal_strlit("owner");
        reveal_strlit("owns");
        reveal_strlit("can_read");
        reveal_strlit("can_write");
        reveal_strlit("can_link");
        reveal_strlit("can_handle_irq");
        reveal_strlit("can_dma");
        reveal_strlit("can_mmio");
        reveal_strlit("can_port_io");
        reveal_strlit("target");
        reveal_strlit("text");
        reveal_strlit("stdout");
        reveal_strlit("addr");
        reveal_strlit("width");
        reveal_strlit("height");
        reveal_strlit("pitch");
        reveal_strlit("bpp");
        reveal_strlit("compositor");
        reveal_strlit("window");
        reveal_strlit("pixmap");
        reveal_strlit("streams");
        reveal_strlit("composed_by");
        reveal_strlit("window_created");
        reveal_strlit("window_buffer_updated");
        reveal_strlit("frame_ready");
        reveal_strlit("driver_input");
        assert("device.mouse"@[1] != "driver_input"@[1]);
        reveal_strlit("driver_display");
        reveal_strlit("driver_storage");
        reveal_strlit("driver_timer");
        assert("device.mouse"@[1] != "driver_timer"@[1]);
        reveal_strlit("driver_other");
        assert("device.mouse"@[1] != "driver_other"@[1]);
        reveal_strlit("device");
        reveal_strlit("device.framebuffer");
        reveal_strlit("device.keyboard");
    } else if code == 0x4e4943 {
        reveal_strlit("device.nic");
        reveal_strlit("journal");
        reveal_strlit("keyboard");
        reveal_strlit("key_pressed");
        reveal_strlit("key_event");
        reveal_strlit("mouse");
        reveal_strlit("mouse_moved");
        reveal_strlit("mouse_move");
        assert("device.nic"@[0] != "mouse_move"@[0]);
        reveal_strlit("mouse_button");
        reveal_strlit("input.device.mouse");
        reveal_strlit("input.event");
        reveal_strlit("move");
        reveal_strlit("device_id");
        reveal_strlit("ts");
        reveal_strlit("down");
        reveal_strlit("button");
        reveal_strlit("at");
        reveal_strlit("init");
        reveal_strlit("fail");
        reveal_strlit("driver");
        reveal_strlit("thing_created");
        reveal_strlit("edge_added");
        assert("device.nic"@[0] != "edge_added"@[0]);
        reveal_strlit("id");
        reveal_strlit("kind");
        reveal_strlit("fields");
        reveal_strlit("revision");
        reveal_strlit("src");
        reveal_strlit("dst");
        reveal_strlit("predicate");
        reveal_strlit("name");
        reveal_strlit("status");
        reveal_strlit("scancode");
        reveal_strlit("key");
        reveal_strlit("dx");
        reveal_strlit("dy");
        reveal_strlit("buttons");
        reveal_strlit("write");
        reveal_strlit("bundle");
        reveal_strlit("owner");
        reveal_strlit("owns");
        reveal_strlit("can_read");
        reveal_strlit("can_write");
        reveal_strlit("can_link");
        reveal_strlit("can_handle_irq");
        reveal_strlit("can_dma");
        reveal_strlit("can_mmio");
        reveal_strlit("can_port_io");
        reveal_strlit("target");
        reveal_strlit("text");
        reveal_strlit("stdout");
        reveal_strlit("addr");
        reveal_strlit("width");
        reveal_strlit("height");
        reveal_strlit("pitch");
        reveal_strlit("bpp");
        reveal_strlit("compositor");
        assert("device.nic"@[0] != "compositor"@[0]);
        reveal_strlit("window");
        reveal_strlit("pixmap");
        reveal_strlit("streams");
        reveal_strlit("composed_by");
        reveal_strlit("window_created");
        reveal_strlit("window_buffer_updated");
        reveal_strlit("frame_ready");
        reveal_strlit("driver_input");
        reveal_strlit("driver_display");
        reveal_strlit("driver_storage");
        reveal_strlit("driver_timer");
        reveal_strlit("driver_other");
        reveal_strlit("device");
        reveal_strlit("device.framebuffer");
        reveal_strlit("device.keyboard");
        reveal_strlit("device.mouse");
    } else if code == 0x495251 {
        reveal_strlit("irq.event");
        reveal_strlit("journal");
        reveal_strlit("keyboard");
        reveal_strlit("key_pressed");
        reveal_strlit("key_event");
        assert("irq.event"@[0] != "key_event"@[0]);
        reveal_strlit("mouse");
        reveal_strlit("mouse_moved");
        reveal_strlit("mouse_move");
        reveal_strlit("mouse_button");
        reveal_strlit("input.device.mouse");
        reveal_strlit("input.event");
        reveal_strlit("move");
        reveal_strlit("device_id");
        assert("irq.event"@[0] != "device_id"@[0]);
        reveal_strlit("ts");
        reveal_strlit("down");
        reveal_strlit("button");
        reveal_strlit("at");
        reveal_strlit("init");
        reveal_strlit("fail");
        reveal_strlit("driver");
        reveal_strlit("thing_created");
        reveal_strlit("edge_added");
        reveal_strlit("id");
        reveal_strlit("kind");
        reveal_strlit("fields");
        reveal_strlit("revision");
        reveal_strlit("src");
        reveal_strlit("dst");
        reveal_strlit("predicate");
        assert("irq.event"@[0] != "predicate"@[0]);
        reveal_strlit("name");
        reveal_strlit("status");
        reveal_strlit("scancode");
        reveal_strlit("key");
        reveal_strlit("dx");
        reveal_strlit("dy");
        reveal_strlit("buttons");
        reveal_strlit("write");
        reveal_strlit("bundle");
        reveal_strlit("owner");
        reveal_strlit("owns");
        reveal_strlit("can_read");
        reveal_strlit("can_write");
        assert("irq.event"@[0] != "can_write"@[0]);
        reveal_strlit("can_link");
        reveal_strlit("can_handle_irq");
        reveal_strlit("can_dma");
        reveal_strlit("can_mmio");
        reveal_strlit("can_port_io");
        reveal_strlit("target");
        reveal_strlit("text");
        reveal_strlit("stdout");
        reveal_strlit("addr");
        reveal_strlit("width");
        reveal_strlit("height");
        reveal_strlit("pitch");
        reveal_strlit("bpp");
        reveal_strlit("compositor");
        reveal_strlit("window");
        reveal_strlit("pixmap");
        reveal_strlit("streams");
        reveal_strlit("composed_by");
        reveal_strlit("window_created");
        reveal_strlit("window_buffer_updated");
        reveal_strlit("frame_ready");
        reveal_strlit("driver_input");
        reveal_strlit("driver_display");
        reveal_strlit("driver_storage");
        reveal_strlit("driver_timer");
        reveal_strlit("driver_other");
        reveal_strlit("device");
        reveal_strlit("device.framebuffer");
        reveal_strlit("device.keyboard");
        reveal_strlit("device.mouse");
        reveal_strlit("device.nic");
    } else if code == 0x444d41 {
        reveal_strlit("dma.event");
        reveal_strlit("journal");
        reveal_strlit("keyboard");
        reveal_strlit("key_pressed");
        reveal_strlit("key_event");
        assert("dma.event"@[0] != "key_event"@[0]);
        reveal_strlit("mouse");
        reveal_strlit("mouse_moved");
        reveal_strlit("mouse_move");
        reveal_strlit("mouse_button");
        reveal_strlit("input.device.mouse");
        reveal_strlit("input.event");
        reveal_strlit("move");
        reveal_strlit("device_id");
        assert("dma.event"@[1] != "device_id"@[1]);
        reveal_strlit("ts");
        reveal_strlit("down");
        reveal_strlit("button");
        reveal_strlit("at");
        reveal_strlit("init");
        reveal_strlit("fail");
        reveal_strlit("driver");
        reveal_strlit("thing_created");
        reveal_strlit("edge_added");
        reveal_strlit("id");
        reveal_strlit("kind");
        reveal_strlit("fields");
        reveal_strlit("revision");
        reveal_strlit("src");
        reveal_strlit("dst");
        reveal_strlit("predicate");
        assert("dma.event"@[0] != "predicate"@[0]);
        reveal_strlit("name");
        reveal_strlit("status");
        reveal_strlit("scancode");
        reveal_strlit("key");
        reveal_strlit("dx");
        reveal_strlit("dy");
        reveal_strlit("buttons");
        reveal_strlit("write");
        reveal_strlit("bundle");
        reveal_strlit("owner");
        reveal_strlit("owns");
        reveal_strlit("can_read");
        reveal_strlit("can_write");
        assert("dma.event"@[0] != "can_write"@[0]);
        reveal_strlit("can_link");
        reveal_strlit("can_handle_irq");
        reveal_strlit("can_dma");
        reveal_strlit("can_mmio");
        reveal_strlit("can_port_io");
        reveal_strlit("target");
        reveal_strlit("text");
        reveal_strlit("stdout");
        reveal_strlit("addr");
        reveal_strlit("width");
        reveal_strlit("height");
        reveal_strlit("pitch");
        reveal_strlit("bpp");
        reveal_strlit("compositor");
        reveal_strlit("window");
        reveal_strlit("pixmap");
        reveal_strlit("streams");
        reveal_strlit("composed_by");
        reveal_strlit("window_created");
        reveal_strlit("window_buffer_updated");
        reveal_strlit("frame_ready");
        reveal_strlit("driver_input");
        reveal_strlit("driver_display");
        reveal_strlit("driver_storage");
        reveal_strlit("driver_timer");
        reveal_strlit("driver_other");
        reveal_strlit("device");
        reveal_strlit("device.framebuffer");
        reveal_strlit("device.keyboard");
        reveal_strlit("device.mouse");
        reveal_strlit("device.nic");
        reveal_strlit("irq.event");
        assert("dma.event"@[0] != "irq.event"@[0]);
    } else if code == 0x49514c {
        reveal_strlit("irq_line");
        reveal_strlit("journal");
        reveal_strlit("keyboard");
        assert("irq_line"@[0] != "keyboard"@[0]);
        reveal_strlit("key_pressed");
        reveal_strlit("key_event");
        reveal_strlit("mouse");
        reveal_strlit("mouse_moved");
        reveal_strlit("mouse_move");
        reveal_strlit("mouse_button");
        reveal_strlit("input.device.mouse");
        reveal_strlit("input.event");
        reveal_strlit("move");
        reveal_strlit("device_id");
        reveal_strlit("ts");
        reveal_strlit("down");
        reveal_strlit("button");
        reveal_strlit("at");
        reveal_strlit("init");
        reveal_strlit("fail");
        reveal_strlit("driver");
        reveal_strlit("thing_created");
        reveal_strlit("edge_added");
        reveal_strlit("id");
        reveal_strlit("kind");
        reveal_strlit("fields");
        reveal_strlit("revision");
        assert("irq_line"@[0] != "revision"@[0]);
        reveal_strlit("src");
        reveal_strlit("dst");
        reveal_strlit("predicate");
        reveal_strlit("name");
        reveal_strlit("status");
        reveal_strlit("scancode");
        assert("irq_line"@[0] != "scancode"@[0]);
        reveal_strlit("key");
        reveal_strlit("dx");
        reveal_strlit("dy");
        reveal_strlit("buttons");
        reveal_strlit("write");
        reveal_strlit("bundle");
        reveal_strlit("owner");
        reveal_strlit("owns");
        reveal_strlit("can_read");
        assert("irq_line"@[0] != "can_read"@[0]);
        reveal_strlit("can_write");
        reveal_strlit("can_link");
        assert("irq_line"@[0] != "can_link"@[0]);
        reveal_strlit("can_handle_irq");
        reveal_strlit("can_dma");
        reveal_strlit("can_mmio");
        assert("irq_line"@[0] != "can_mmio"@[0]);
        reveal_strlit("can_port_io");
        reveal_strlit("target");
        reveal_strlit("text");
        reveal_strlit("stdout");
        reveal_strlit("addr");
        reveal_strlit("width");
        reveal_strlit("height");
        reveal_strlit("pitch");
        reveal_strlit("bpp");
        reveal_strlit("compositor");
        reveal_strlit("window");
        reveal_strlit("pixmap");
        reveal_strlit("streams");
        reveal_strlit("composed_by");
        reveal_strlit("window_created");
        reveal_strlit("window_buffer_updated");
        reveal_strlit("frame_ready");
        reveal_strlit("driver_input");
        reveal_strlit("driver_display");
        reveal_strlit("driver_storage");
        reveal_strlit("driver_timer");
        reveal_strlit("driver_other");
        reveal_strlit("device");
        reveal_strlit("device.framebuffer");
        reveal_strlit("device.keyboard");
        reveal_strlit("device.mouse");
        reveal_strlit("device.nic");
        reveal_strlit("irq.event");
        reveal_strlit("dma.event");
    } else if code == 0x425546 {
        reveal_strlit("buffer");
        reveal_strlit("journal");
        reveal_strlit("keyboard");
        reveal_strlit("key_pressed");
        reveal_strlit("key_event");
        reveal_strlit("mouse");
        reveal_strlit("mouse_moved");
        reveal_strlit("mouse_move");
        reveal_strlit("mouse_button");
        reveal_strlit("input.device.mouse");
        reveal_strlit("input.event");
        reveal_strlit("move");
        reveal_strlit("device_id");
        reveal_strlit("ts");
        reveal_strlit("down");
        reveal_strlit("button");
        assert("buffer"@[2] != "button"@[2]);
        reveal_strlit("at");
        reveal_strlit("init");
        reveal_strlit("fail");
        reveal_strlit("driver");
        assert("buffer"@[0] != "driver"@[0]);
        reveal_strlit("thing_created");
        reveal_strlit("edge_added");
        reveal_strlit("id");
        reveal_strlit("kind");
        reveal_strlit("fields");
        assert("buffer"@[0] != "fields"@[0]);
        reveal_strlit("revision");
        reveal_strlit("src");
        reveal_strlit("dst");
        reveal_strlit("predicate");
        reveal_strlit("name");
        reveal_strlit("status");
        assert("buffer"@[0] != "status"@[0]);
        reveal_strlit("scancode");
        reveal_strlit("key");
        reveal_strlit("dx");
        reveal_strlit("dy");
        reveal_strlit("buttons");
        reveal_strlit("write");
        reveal_strlit("bundle");
        assert("buffer"@[2] != "bundle"@[2]);
        reveal_strlit("owner");
        reveal_strlit("owns");
        reveal_strlit("can_read");
        reveal_strlit("can_write");
        reveal_strlit("can_link");
        reveal_strlit("can_handle_irq");
        reveal_strlit("can_dma");
        reveal_strlit("can_mmio");
        reveal_strlit("can_port_io");
        reveal_strlit("target");
        assert("buffer"@[0] != "target"@[0]);
        reveal_strlit("text");
        reveal_strlit("stdout");
        assert("buffer"@[0] != "stdout"@[0]);
        reveal_strlit("addr");
        reveal_strlit("width");
        reveal_strlit("height");
        assert("buffer"@[0] != "height"@[0]);
        reveal_strlit("pitch");
        reveal_strlit("bpp");
        reveal_strlit("compositor");
        reveal_strlit("window");
        assert("buffer"@[0] != "window"@[0]);
        reveal_strlit("pixmap");
        assert("buffer"@[0] != "pixmap"@[0]);
        reveal_strlit("streams");
        reveal_strlit("composed_by");
        reveal_strlit("window_created");
        reveal_strlit("window_buffer_updated");
        reveal_strlit("frame_ready");
        reveal_strlit("driver_input");
        reveal_strlit("driver_display");
        reveal_strlit("driver_storage");
        reveal_strlit("driver_timer");
        reveal_strlit("driver_other");
        reveal_strlit("device");
        assert("buffer"@[0] != "device"@[0]);
        reveal_strlit("device.framebuffer");
        reveal_strlit("device.keyboard");
        reveal_strlit("device.mouse");
        reveal_strlit("device.nic");
        reveal_strlit("irq.event");
        reveal_strlit("dma.event");
        reveal_strlit("irq_line");
    } else if code == 0x425954 {
        reveal_strlit("bytes");
        reveal_strlit("journal");
        reveal_strlit("keyboard");
        reveal_strlit("key_pressed");
        reveal_strlit("key_event");
        reveal_strlit("mouse");
        assert("bytes"@[0] != "mouse"@[0]);
        reveal_strlit("mouse_moved");
        reveal_strlit("mouse_move");
        reveal_strlit("mouse_button");
        reveal_strlit("input.device.mouse");
        reveal_strlit("input.event");
        reveal_strlit("move");
        reveal_strlit("device_id");
        reveal_strlit("ts");
        reveal_strlit("down");
        reveal_strlit("button");
        reveal_strlit("at");
        reveal_strlit("init");
        reveal_strlit("fail");
        reveal_strlit("driver");
        reveal_strlit("thing_created");
        reveal_strlit("edge_added");
        reveal_strlit("id");
        reveal_strlit("kind");
        reveal_strlit("fields");
        reveal_strlit("revision");
        reveal_strlit("src");
        reveal_strlit("dst");
        reveal_strlit("predicate");
        reveal_strlit("name");
        reveal_strlit("status");
        reveal_strlit("scancode");
        reveal_strlit("key");
        reveal_strlit("dx");
        reveal_strlit("dy");
        reveal_strlit("buttons");
        reveal_strlit("write");
        assert("bytes"@[0] != "write"@[0]);
        reveal_strlit("bundle");
        reveal_strlit("owner");
        assert("bytes"@[0] != "owner"@[0]);
        reveal_strlit("owns");
        reveal_strlit("can_read");
        reveal_strlit("can_write");
        reveal_strlit("can_link");
        reveal_strlit("can_handle_irq");
        reveal_strlit("can_dma");
        reveal_strlit("can_mmio");
        reveal_strlit("can_port_io");
        reveal_strlit("target");
        reveal_strlit("text");
        reveal_strlit("stdout");
        reveal_strlit("addr");
        reveal_strlit("width");
        assert("bytes"@[0] != "width"@[0]);
        reveal_strlit("height");
        reveal_strlit("pitch");
        assert("bytes"@[0] != "pitch"@[0]);
        reveal_strlit("bpp");
        reveal_strlit("compositor");
        reveal_strlit("window");
        reveal_strlit("pixmap");
        reveal_strlit("streams");
        reveal_strlit("composed_by");
        reveal_strlit("window_created");
        reveal_strlit("window_buffer_updated");
        reveal_strlit("frame_ready");
        reveal_strlit("driver_input");
        reveal_strlit("driver_display");
        reveal_strlit("driver_storage");
        reveal_strlit("driver_timer");
        reveal_strlit("driver_other");
        reveal_strlit("device");
        reveal_strlit("device.framebuffer");
        reveal_strlit("device.keyboard");
        reveal_strlit("device.mouse");
        reveal_strlit("device.nic");
        reveal_strlit("irq.event");
        reveal_strlit("dma.event");
        reveal_strlit("irq_line");
        reveal_strlit("buffer");
    } else if code == 0x444f4e {
        reveal_strlit("done");
        reveal_strlit("journal");
        reveal_strlit("keyboard");
        reveal_strlit("key_pressed");
        reveal_strlit("key_event");
        reveal_strlit("mouse");
        reveal_strlit("mouse_moved");
        reveal_strlit("mouse_move");
        reveal_strlit("mouse_button");
        reveal_strlit("input.device.mouse");
        reveal_strlit("input.event");
        reveal_strlit("move");
        assert("done"@[0] != "move"@[0]);
        reveal_strlit("device_id");
        reveal_strlit("ts");
        reveal_strlit("down");
        assert("done"@[2] != "down"@[2]);
        reveal_strlit("button");
        reveal_strlit("at");
        reveal_strlit("init");
        assert("done"@[0] != "init"@[0]);
        reveal_strlit("fail");
        assert("done"@[0] != "fail"@[0]);
        reveal_strlit("driver");
        reveal_strlit("thing_created");
        reveal_strlit("edge_added");
        reveal_strlit("id");
        reveal_strlit("kind");
        assert("done"@[0] != "kind"@[0]);
        reveal_strlit("fields");
        reveal_strlit("revision");
        reveal_strlit("src");
        reveal_strlit("dst");
        reveal_strlit("predicate");
        reveal_strlit("name");
        assert("done"@[0] != "name"@[0]);
        reveal_strlit("status");
        reveal_strlit("scancode");
        reveal_strlit("key");
        reveal_strlit("dx");
        reveal_strlit("dy");
        reveal_strlit("buttons");
        reveal_strlit("write");
        reveal_strlit("bundle");
        reveal_strlit("owner");
        reveal_strlit("owns");
        assert("done"@[0] != "owns"@[0]);
        reveal_strlit("can_read");
        reveal_strlit("can_write");
        reveal_strlit("can_link");
        reveal_strlit("can_handle_irq");
        reveal_strlit("can_dma");
        reveal_strlit("can_mmio");
        reveal_strlit("can_port_io");
        reveal_strlit("target");
        reveal_strlit("text");
        assert("done"@[0] != "text"@[0]);
        reveal_strlit("stdout");
        reveal_strlit("addr");
        assert("done"@[0] != "addr"@[0]);
        reveal_strlit("width");
        reveal_strlit("height");
        reveal_strlit("pitch");
        reveal_strlit("bpp");
        reveal_strlit("compositor");
        reveal_strlit("window");
        reveal_strlit("pixmap");
        reveal_strlit("streams");
        reveal_strlit("composed_by");
        reveal_strlit("window_created");
        reveal_strlit("window_buffer_updated");
        reveal_strlit("frame_ready");
        reveal_strlit("driver_input");
        reveal_strlit("driver_display");
        reveal_strlit("driver_storage");
        reveal_strlit("driver_timer");
        reveal_strlit("driver_other");
        reveal_strlit("device");
        reveal_strlit("device.framebuffer");
        reveal_strlit("device.keyboard");
        reveal_strlit("device.mouse");
        reveal_strlit("device.nic");
        reveal_strlit("irq.event");
        reveal_strlit("dma.event");
        reveal_strlit("irq_line");
        reveal_strlit("buffer");
        reveal_strlit("bytes");
    } else if code == 0x415050 {
        reveal_strlit("app");
        reveal_strlit("journal");
        reveal_strlit("keyboard");
        reveal_strlit("key_pressed");
        reveal_strlit("key_event");
        reveal_strlit("mouse");
        reveal_strlit("mouse_moved");
        reveal_strlit("mouse_move");
        reveal_strlit("mouse_button");
        reveal_strlit("input.device.mouse");
        reveal_strlit("input.event");
        reveal_strlit("move");
        reveal_strlit("device_id");
        reveal_strlit("ts");
        reveal_strlit("down");
        reveal_strlit("button");
        reveal_strlit("at");
        reveal_strlit("init");
        reveal_strlit("fail");
        reveal_strlit("driver");
        reveal_strlit("thing_created");
        reveal_strlit("edge_added");
        reveal_strlit("id");
        reveal_strlit("kind");
        reveal_strlit("fields");
        reveal_strlit("revision");
        reveal_strlit("src");
        assert("app"@[0] != "src"@[0]);
        reveal_strlit("dst");
        assert("app"@[0] != "dst"@[0]);
        reveal_strlit("predicate");
        reveal_strlit("name");
        reveal_strlit("status");
        reveal_strlit("scancode");
        reveal_strlit("key");
        assert("app"@[0] != "key"@[0]);
        reveal_strlit("dx");
        reveal_strlit("dy");
        reveal_strlit("buttons");
        reveal_strlit("write");
        reveal_strlit("bundle");
        reveal_strlit("owner");
        reveal_strlit("owns");
        reveal_strlit("can_read");
        reveal_strlit("can_write");
        reveal_strlit("can_link");
        reveal_strlit("can_handle_irq");
        reveal_strlit("can_dma");
        reveal_strlit("can_mmio");
        reveal_strlit("can_port_io");
        reveal_strlit("target");
        reveal_strlit("text");
        reveal_strlit("stdout");
        reveal_strlit("addr");
        reveal_strlit("width");
        reveal_strlit("height");
        reveal_strlit("pitch");
        reveal_strlit("bpp");
        assert("app"@[0] != "bpp"@[0]);
        reveal_strlit("compositor");
        reveal_strlit("window");
        reveal_strlit("pixmap");
        reveal_strlit("streams");
        reveal_strlit("composed_by");
        reveal_strlit("window_created");
        reveal_strlit("window_buffer_updated");
        reveal_strlit("frame_ready");
        reveal_strlit("driver_input");
        reveal_strlit("driver_display");
        reveal_strlit("driver_storage");
        reveal_strlit("driver_timer");
        reveal_strlit("driver_other");
        reveal_strlit("device");
        reveal_strlit("device.framebuffer");
        reveal_strlit("device.keyboard");
        reveal_strlit("device.mouse");
        reveal_strlit("device.nic");
        reveal_strlit("irq.event");
        reveal_strlit("dma.event");
        reveal_strlit("irq_line");
        reveal_strlit("buffer");
        reveal_strlit("bytes");
        reveal_strlit("done");
    } else if code == 0x545950 {
        reveal_strlit("type");
        reveal_strlit("journal");
        reveal_strlit("keyboard");
        reveal_strlit("key_pressed");
        reveal_strlit("key_event");
        reveal_strlit("mouse");
        reveal_strlit("mouse_moved");
        reveal_strlit("mouse_move");
        reveal_strlit("mouse_button");
        reveal_strlit("input.device.mouse");
        reveal_strlit("input.event");
        reveal_strlit("move");
        assert("type"@[0] != "move"@[0]);
        reveal_strlit("device_id");
        reveal_strlit("ts");
        reveal_strlit("down");
        assert("type"@[0] != "down"@[0]);
        reveal_strlit("button");
        reveal_strlit("at");
        reveal_strlit("init");
        assert("type"@[0] != "init"@[0]);
        reveal_strlit("fail");
        assert("type"@[0] != "fail"@[0]);
        reveal_strlit("driver");
        reveal_strlit("thing_created");
        reveal_strlit("edge_added");
        reveal_strlit("id");
        reveal_strlit("kind");
        assert("type"@[0] != "kind"@[0]);
        reveal_strlit("fields");
        reveal_strlit("revision");
        reveal_strlit("src");
        reveal_strlit("dst");
        reveal_strlit("predicate");
        reveal_strlit("name");
        assert("type"@[0] != "name"@[0]);
        reveal_strlit("status");
        reveal_strlit("scancode");
        reveal_strlit("key");
        reveal_strlit("dx");
        reveal_strlit("dy");
        reveal_strlit("buttons");
        reveal_strlit("write");
        reveal_strlit("bundle");
        reveal_strlit("owner");
        reveal_strlit("owns");
        assert("type"@[0] != "owns"@[0]);
        reveal_strlit("can_read");
        reveal_strlit("can_write");
        reveal_strlit("can_link");
        reveal_strlit("can_handle_irq");
        reveal_strlit("can_dma");
        reveal_strlit("can_mmio");
        reveal_strlit("can_port_io");
        reveal_strlit("target");
        reveal_strlit("text");
        assert("type"@[1] != "text"@[1]);
        reveal_strlit("stdout");
        reveal_strlit("addr");
        assert("type"@[0] != "addr"@[0]);
        reveal_strlit("width");
        reveal_strlit("height");
        reveal_strlit("pitch");
        reveal_strlit("bpp");
        reveal_strlit("compositor");
        reveal_strlit("window");
        reveal_strlit("pixmap");
        reveal_strlit("streams");
        reveal_strlit("composed_by");
        reveal_strlit("window_created");
        reveal_strlit("window_buffer_updated");
        reveal_strlit("frame_ready");
        reveal_strlit("driver_input");
        reveal_strlit("driver_display");
        reveal_strlit("driver_storage");
        reveal_strlit("driver_timer");
        reveal_strlit("driver_other");
        reveal_strlit("device");
        reveal_strlit("device.framebuffer");
        reveal_strlit("device.keyboard");
        reveal_strlit("device.mouse");
        reveal_strlit("device.nic");
        reveal_strlit("irq.event");
        reveal_strlit("dma.event");
        reveal_strlit("irq_line");
        reveal_strlit("buffer");
        reveal_strlit("bytes");
        reveal_strlit("done");
        assert("type"@[0] != "done"@[0]);
        reveal_strlit("app");
    } else if code == 0x564552 {
        reveal_strlit("version");
        reveal_strlit("journal");
        assert("version"@[0] != "journal"@[0]);
        reveal_strlit("keyboard");
        reveal_strlit("key_pressed");
        reveal_strlit("key_event");
        reveal_strlit("mouse");
        reveal_strlit("mouse_moved");
        reveal_strlit("mouse_move");
        reveal_strlit("mouse_button");
        reveal_strlit("input.device.mouse");
        reveal_strlit("input.event");
        reveal_strlit("move");
        reveal_strlit("device_id");
        reveal_strlit("ts");
        reveal_strlit("down");
        reveal_strlit("button");
        reveal_strlit("at");
        reveal_strlit("init");
        reveal_strlit("fail");
        reveal_strlit("driver");
        reveal_strlit("thing_created");
        reveal_strlit("edge_added");
        reveal_strlit("id");
        reveal_strlit("kind");
        reveal_strlit("fields");
        reveal_strlit("revision");
        reveal_strlit("src");
        reveal_strlit("dst");
        reveal_strlit("predicate");
        reveal_strlit("name");
        reveal_strlit("status");
        reveal_strlit("scancode");
        reveal_strlit("key");
        reveal_strlit("dx");
        reveal_strlit("dy");
        reveal_strlit("buttons");
        assert("version"@[0] != "buttons"@[0]);
        reveal_strlit("write");
        reveal_strlit("bundle");
        reveal_strlit("owner");
        reveal_strlit("owns");
        reveal_strlit("can_read");
        reveal_strlit("can_write");
        reveal_strlit("can_link");
        reveal_strlit("can_handle_irq");
        reveal_strlit("can_dma");
        assert("version"@[0] != "can_dma"@[0]);
        reveal_strlit("can_mmio");
        reveal_strlit("can_port_io");
        reveal_strlit("target");
        reveal_strlit("text");
        reveal_strlit("stdout");
        reveal_strlit("addr");
        reveal_strlit("width");
        reveal_strlit("height");
        reveal_strlit("pitch");
        reveal_strlit("bpp");
        reveal_strlit("compositor");
        reveal_strlit("window");
        reveal_strlit("pixmap");
        reveal_strlit("streams");
        assert("version"@[0] != "streams"@[0]);
        reveal_strlit("composed_by");
        reveal_strlit("window_created");
        reveal_strlit("window_buffer_updated");
        reveal_strlit("frame_ready");
        reveal_strlit("driver_input");
        reveal_strlit("driver_display");
        reveal_strlit("driver_storage");
        reveal_strlit("driver_timer");
        reveal_strlit("driver_other");
        reveal_strlit("device");
        reveal_strlit("device.framebuffer");
        reveal_strlit("device.keyboard");
        reveal_strlit("device.mouse");
        reveal_strlit("device.nic");
        reveal_strlit("irq.event");
        reveal_strlit("dma.event");
        reveal_strlit("irq_line");
        reveal_strlit("buffer");
        reveal_strlit("bytes");
        reveal_strlit("done");
        reveal_strlit("app");
        reveal_strlit("type");
    }
}

/// Printing the code that a name was looked up as gives back the name.
pub proof fn lemma_from_str_round_trips(s: Seq<char>)
    requires
        spec_from_str(s) is Some,
    ensures
        spec_sym_name(spec_from_str(s).unwrap()) == s,
{
}

} // verus!
