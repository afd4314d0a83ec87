//! The filesystem as Things: nodes named under their parent, read from the
//! fields of a Thing.

use vstd::prelude::*;
use crate::abi::{ValueView, extract_text, spec_extract_text};
use crate::canon::{Symbol, DEVICE, DEVICE_ID, KIND, NAME};
use crate::records::{GraphThing, ThingView};
use crate::thingable::{field_bool, field_symbol, field_text, field_uuid, or_bool};

verus! {

/// Kind of a directory node (`DIR`).
pub const DIRECTORY: u32 = 0x444952;

/// Kind of a file node (`FIL`).
pub const FILE: u32 = 0x46494c;

/// The bundle a file stands for (`BID`).
pub const BUNDLE_ID: u32 = 0x424944;

/// The binary a file runs (`BNM`).
pub const BIN_NAME: u32 = 0x424e4d;

/// Whether a program starts at boot (`AUT`).
pub const AUTOSTART: u32 = 0x415554;

/// Whether a program shows in the launcher (`SIL`).
pub const SHOW_IN_LAUNCHER: u32 = 0x53494c;

/// The driver behind a character device (`DDR`).
pub const DEVICE_DRIVER: u32 = 0x444452;

/// The directory a node is in (`PAR`).
pub const PARENT: u32 = 0x504152;

/// What a node is.
#[derive(Debug, Clone, Copy, PartialEq, Eq, Structural)]
pub enum FsKind {
    Dir,
    File,
    CharDevice,
    Unknown,
}

/// Why a filesystem operation failed.
#[derive(Debug, Clone, Copy, PartialEq, Eq, Structural)]
pub enum FsError {
    NotFound,
    NotADirectory,
    IOError,
}

/// What a filesystem node holds.
pub struct FsNodeView {
    pub id: u128,
    pub name: Seq<char>,
    pub kind: FsKind,
    pub mode: Option<u32>,
    pub owner_bundle: Option<u128>,
    pub bundle_id: Option<u128>,
    pub bin_name: Option<Seq<char>>,
    pub autostart: bool,
    pub show_in_launcher: bool,
    pub device_driver: Option<Seq<char>>,
    pub device_id: Option<Seq<char>>,
}

/// A filesystem node.
#[derive(Debug)]
pub struct FsNode {
    pub id: u128,
    pub name: String,
    pub kind: FsKind,
    pub mode: Option<u32>,
    pub owner_bundle: Option<u128>,
    pub bundle_id: Option<u128>,
    pub bin_name: Option<String>,
    pub autostart: bool,
    pub show_in_launcher: bool,
    pub device_driver: Option<String>,
    pub device_id: Option<String>,
}

/// The view of an optional string.
pub open spec fn opt_text(o: Option<String>) -> Option<Seq<char>> {
    match o {
        Some(s) => Some(s@),
        None => None,
    }
}

impl View for FsNode {
    type V = FsNodeView;

    open spec fn view(&self) -> FsNodeView {
        FsNodeView {
            id: self.id,
            name: self.name@,
            kind: self.kind,
            mode: self.mode,
            owner_bundle: self.owner_bundle,
            bundle_id: self.bundle_id,
            bin_name: opt_text(self.bin_name),
            autostart: self.autostart,
            show_in_launcher: self.show_in_launcher,
            device_driver: opt_text(self.device_driver),
            device_id: opt_text(self.device_id),
        }
    }
}

/// The kind a node's kind symbol names.
pub open spec fn spec_fs_kind(kind: u32) -> FsKind {
    if kind == DIRECTORY {
        FsKind::Dir
    } else if kind == FILE {
        FsKind::File
    } else if kind == DEVICE {
        FsKind::CharDevice
    } else {
        FsKind::Unknown
    }
}

/// The name given to a node without one.
pub open spec fn seq_unknown() -> Seq<char> {
    seq!['u', 'n', 'k', 'n', 'o', 'w', 'n']
}

/// The node a Thing describes.
pub open spec fn spec_thing_to_fs_node(t: ThingView) -> FsNodeView {
    FsNodeView {
        id: t.id,
        name: match field_text(t.fields, NAME) {
            Some(s) => s,
            None => seq_unknown(),
        },
        kind: spec_fs_kind(
            match field_symbol(t.fields, KIND) {
                Some(k) => k,
                None => 0,
            },
        ),
        mode: None,
        owner_bundle: Some(t.owner),
        bundle_id: field_uuid(t.fields, BUNDLE_ID),
        bin_name: field_text(t.fields, BIN_NAME),
        autostart: or_bool(field_bool(t.fields, AUTOSTART), false),
        show_in_launcher: or_bool(field_bool(t.fields, SHOW_IN_LAUNCHER), false),
        device_driver: field_text(t.fields, DEVICE_DRIVER),
        device_id: field_text(t.fields, DEVICE_ID),
    }
}

/// Whether a Thing's field `k` holds the flag `true`.
pub open spec fn flag_set(t: ThingView, k: u32) -> bool {
    t.fields.contains_key(k) && t.fields[k] == ValueView::Bool(true)
}

/// The node read from a Thing: its id is the Thing's and its owner bundle
/// the Thing's owner; it shows in the launcher, and starts on its own,
/// exactly when the Thing's own field for that says `true`; a name, binary
/// name, driver or device id written as text is taken as it is, and a
/// Thing without a name gives `unknown`; a directory, file or device kind
/// gives that kind of node.
pub proof fn lemma_fs_node_reads_fields(t: ThingView)
    ensures
        ({
            let n = spec_thing_to_fs_node(t);
            let f = t.fields;
            &&& n.id == t.id
            &&& n.owner_bundle == Some(t.owner)
            &&& n.show_in_launcher == flag_set(t, SHOW_IN_LAUNCHER)
            &&& n.autostart == flag_set(t, AUTOSTART)
            &&& (f.contains_key(NAME) && f[NAME] is Text ==> n.name == f[NAME]->Text_0)
            &&& (!f.contains_key(NAME) ==> n.name == seq!['u', 'n', 'k', 'n', 'o', 'w', 'n'])
            &&& (f.contains_key(BIN_NAME) && f[BIN_NAME] is Text ==> n.bin_name == Some(f[BIN_NAME]->Text_0))
            &&& (!f.contains_key(BIN_NAME) ==> n.bin_name is None)
            &&& (f.contains_key(DEVICE_DRIVER) && f[DEVICE_DRIVER] is Text ==> n.device_driver == Some(f[DEVICE_DRIVER]->Text_0))
            &&& (f.contains_key(DEVICE_ID) && f[DEVICE_ID] is Text ==> n.device_id == Some(f[DEVICE_ID]->Text_0))
            &&& (f.contains_key(BUNDLE_ID) && f[BUNDLE_ID] is Uuid ==> n.bundle_id == Some(f[BUNDLE_ID]->Uuid_0))
            &&& (f.contains_key(KIND) && f[KIND] == ValueView::Symbol(DIRECTORY) ==> n.kind == FsKind::Dir)
            &&& (f.contains_key(KIND) && f[KIND] == ValueView::Symbol(FILE) ==> n.kind == FsKind::File)
            &&& (f.contains_key(KIND) && f[KIND] == ValueView::Symbol(DEVICE) ==> n.kind == FsKind::CharDevice)
        }),
{
}

fn text_field(t: &GraphThing, k: u32) -> (r: Option<String>)
    ensures
        opt_text(r) == field_text(t.fields@, k),
{
    match t.fields.get(&Symbol(k)) {
        Some(v) => extract_text(v),
        None => None,
    }
}

fn bool_field(t: &GraphThing, k: u32) -> (r: Option<bool>)
    ensures
        r == field_bool(t.fields@, k),
{
    match t.fields.get(&Symbol(k)) {
        Some(v) => v.as_bool(),
        None => None,
    }
}

/// Read a filesystem node from the fields of a Thing (always succeeds).
pub fn thing_to_fs_node(thing: &GraphThing) -> (r: Result<FsNode, FsError>)
    ensures
        r matches Ok(n) && n@ == spec_thing_to_fs_node(thing@),
{
    let name = match text_field(thing, NAME) {
        Some(s) => s,
        None => {
            proof {
                reveal_strlit("unknown");
                assert("unknown"@ =~= seq_unknown());
            }
            String::from_str("unknown")
        },
    };
    let kind_sym = match thing.fields.get(&Symbol(KIND)) {
        Some(v) => match v.as_symbol() {
            Some(s) => s,
            None => Symbol(0),
        },
        None => Symbol(0),
    };
    let kind = if kind_sym.0 == DIRECTORY {
        FsKind::Dir
    } else if kind_sym.0 == FILE {
        FsKind::File
    } else if kind_sym.0 == DEVICE {
        FsKind::CharDevice
    } else {
        FsKind::Unknown
    };
    let bundle_id = match thing.fields.get(&Symbol(BUNDLE_ID)) {
        Some(v) => v.as_uuid(),
        None => None,
    };
    let bin_name = text_field(thing, BIN_NAME);
    let autostart = match bool_field(thing, AUTOSTART) {
        Some(b) => b,
        None => false,
    };
    let show_in_launcher = match bool_field(thing, SHOW_IN_LAUNCHER) {
        Some(b) => b,
        None => false,
    };
    let device_driver = text_field(thing, DEVICE_DRIVER);
    let device_id = text_field(thing, DEVICE_ID);
    Ok(FsNode {
        id: thing.id,
        name,
        kind,
        mode: None,
        owner_bundle: Some(thing.owner),
        bundle_id,
        bin_name,
        autostart,
        show_in_launcher,
        device_driver,
        device_id,
    })
}

} // verus!
