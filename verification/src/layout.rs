//! Layout instantiation: how a region of a layout template becomes a widget
//! Thing, and how a tagged question becomes a widget. Reading the template
//! from the graph and creating the widgets there is done by the caller, one
//! region at a time, from the plans made here.

use vstd::prelude::*;
use crate::abi::{SymbolMap, Value, ValueView, value_view};
use crate::canon::{
    str_eq, Symbol, COLOR, FOCUSABLE, HEIGHT, KIND, NAME, ROLE, TARGET, TEXT, WIDGET, WIDTH,
};
use crate::fs::{BUNDLE_ID, PARENT};
use crate::questions::AnswerKind;
use crate::records::{GraphThing, NodePattern, PatternView, ThingView};
use crate::userland::{simple_uuid, spec_simple_uuid};

verus! {

/// The kind of widget a region asks for (`WKD`).
pub const WIDGET_KIND: u32 = 0x574b44;
/// Space between children (`GAP`).
pub const GAP: u32 = 0x474150;
/// Main axis of a region (`FDR`).
pub const FLEX_DIRECTION: u32 = 0x464452;
/// Growth factor of a region (`FGR`).
pub const FLEX_GROW: u32 = 0x464752;
/// Shrink factor of a region (`FSH`).
pub const FLEX_SHRINK: u32 = 0x465348;
/// The binding name a region shows (`BDT`).
pub const BINDS_TO: u32 = 0x424454;
/// The icon a region shows (`ICN`).
pub const ICON_NAME: u32 = 0x49434e;
/// The regions a region or template contains (`CNT`).
pub const CONTAINS: u32 = 0x434e54;
/// The question tag a region lists (`STG`).
pub const SHOW_TAG: u32 = 0x535447;
/// The Thing a widget is bound to (`BDS`).
pub const BINDS: u32 = 0x424453;
/// The tag of a question (`TAG`).
pub const TAG: u32 = 0x544147;
/// Kind of a question Thing (`QSN`).
pub const QUESTION: u32 = 0x51534e;
/// The kind of answer a question takes (`AKD`).
pub const ANSWER_KIND: u32 = 0x414b44;
/// The widget a question prefers (`PWG`).
pub const PREFERRED_WIDGET: u32 = 0x505747;
/// The widget kind field of a widget (`WK`).
pub const WIDGET_KIND_FIELD: u32 = 0x574b00;
/// The flex direction field of a widget (`FD`).
pub const FLEX_DIRECTION_FIELD: u32 = 0x464400;
/// The flex growth field of a widget (`FG`).
pub const FLEX_GROW_FIELD: u32 = 0x464700;
/// The flex shrink field of a widget (`FS`).
pub const FLEX_SHRINK_FIELD: u32 = 0x465300;

/// The hexadecimal digit for `n` (lower case).
pub open spec fn hex_digit(n: u128) -> char {
    if n < 10 {
        ((n + 48) as u8) as char
    } else {
        ((n + 87) as u8) as char
    }
}

/// The `d`-th hexadecimal digit of `u`, most significant first.
pub open spec fn nibble(u: u128, d: int) -> u128 {
    (u >> ((4 * (31 - d)) as u128)) & 0xf
}

/// The number of hyphens before position `p` of a hyphenated UUID.
pub open spec fn hyphens_before(p: int) -> int {
    if p > 23 {
        4
    } else if p > 18 {
        3
    } else if p > 13 {
        2
    } else if p > 8 {
        1
    } else {
        0
    }
}

/// The hyphenated lower-case text of a UUID: 32 hexadecimal digits, most
/// significant first, in groups of 8-4-4-4-12.
pub open spec fn spec_uuid_text(u: u128) -> Seq<char> {
    Seq::new(
        36,
        |p: int|
            if p == 8 || p == 13 || p == 18 || p == 23 {
                '-'
            } else {
                hex_digit(nibble(u, p - hyphens_before(p)))
            },
    )
}

/// The text of a UUID (`uuid::Uuid::from_u128(u).to_string()`).
/// Trusted: the hyphenated lower-case form of `Uuid`'s `Display` (its
/// `format_hyphenated` writes the big-endian bytes as hexadecimal digits with
/// hyphens after the 8th, 12th, 16th and 20th digit).
#[verifier::external_body]
pub(crate) fn uuid_text(u: u128) -> (s: String)
    ensures
        s@ == spec_uuid_text(u),
{
    uuid::Uuid::from_u128(u).to_string()
}

/// The codes of the characters of a text, as bytes.
pub open spec fn char_bytes(s: Seq<char>) -> Seq<u8> {
    s.map_values(|c: char| c as u8)
}

fn push_chars(out: &mut Vec<u8>, s: &str)
    ensures
        final(out)@ == old(out)@ + char_bytes(s@),
{
    let n = s.unicode_len();
    let ghost start = out@;
    let mut i: usize = 0;
    while i < n
        invariant
            n == s@.len(),
            i <= n,
            out@ == start + char_bytes(s@.take(i as int)),
        decreases n - i,
    {
        let c = s.get_char(i);
        out.push(c as u8);
        proof {
            assert(char_bytes(s@.take(i + 1)) =~= char_bytes(s@.take(i as int)).push(c as u8));
        }
        i = i + 1;
    }
    proof {
        assert(s@.take(i as int) =~= s@);
    }
}

/// The id of the widget made for a Thing inside a window: the id of the text
/// `<window>-<thing>-<suffix>`.
pub open spec fn spec_seeded_id(window: u128, thing: u128, suffix: Seq<char>) -> u128 {
    spec_simple_uuid(char_bytes(spec_uuid_text(window) + seq!['-'] + spec_uuid_text(thing) + seq!['-'] + suffix))
}

fn seeded_id(window: u128, thing: u128, suffix: &str) -> (id: u128)
    ensures
        id == spec_seeded_id(window, thing, suffix@),
{
    let w = uuid_text(window);
    let t = uuid_text(thing);
    let mut bytes: Vec<u8> = Vec::new();
    push_chars(&mut bytes, w.as_str());
    push_chars(&mut bytes, "-");
    push_chars(&mut bytes, t.as_str());
    push_chars(&mut bytes, "-");
    push_chars(&mut bytes, suffix);
    proof {
        reveal_strlit("-");
        assert("-"@ =~= seq!['-']);
        let all = spec_uuid_text(window) + seq!['-'] + spec_uuid_text(thing) + seq!['-'] + suffix@;
        assert(char_bytes(all) =~= char_bytes(spec_uuid_text(window)) + char_bytes("-"@) + char_bytes(
            spec_uuid_text(thing),
        ) + char_bytes("-"@) + char_bytes(suffix@));
    }
    simple_uuid(bytes.as_slice())
}

/// The widget kind a region role stands for.
pub open spec fn spec_role_widget(role: Seq<char>) -> Seq<char> {
    if role == "control.toolbar_button"@ {
        "button"@
    } else if role == "window_root"@ {
        "container"@
    } else if role == "listbox_default"@ {
        "listbox"@
    } else if role == "graph_mini_viewer"@ {
        "graph_mini_viewer"@
    } else if role == "thing_inspector"@ {
        "thing_inspector"@
    } else if role == "top_status_bar"@ {
        "top_status_bar"@
    } else if role == "image"@ {
        "image"@
    } else {
        "container"@
    }
}

/// The text stored under a key as a `Text` value.
pub open spec fn text_at(m: Map<u32, ValueView>, k: u32) -> Option<Seq<char>> {
    if m.contains_key(k) {
        match m[k] {
            ValueView::Text(t) => Some(t),
            _ => None,
        }
    } else {
        None
    }
}

/// The widget kind of a region: its explicit kind, else the kind its role
/// stands for, else a container.
pub open spec fn spec_region_widget_kind(props: Map<u32, ValueView>) -> Seq<char> {
    match text_at(props, WIDGET_KIND) {
        Some(k) => k,
        None => match text_at(props, ROLE) {
            Some(r) => spec_role_widget(r),
            None => "container"@,
        },
    }
}

/// `m` with the value of `from` in `src` (if any) under `to`.
pub open spec fn copy_field(m: Map<u32, ValueView>, src: Map<u32, ValueView>, from: u32, to: u32) -> Map<u32, ValueView> {
    if src.contains_key(from) {
        m.insert(to, src[from])
    } else {
        m
    }
}

/// The value a binding table gives a name (the first entry for it).
pub open spec fn binding_of(b: Seq<(Seq<char>, u128)>, name: Seq<char>) -> Option<u128>
    decreases b.len(),
{
    if b.len() == 0 {
        None
    } else if b[0].0 == name {
        Some(b[0].1)
    } else {
        binding_of(b.drop_first(), name)
    }
}

/// The fields of the widget made for a region.
pub open spec fn spec_region_widget_props(
    window_id: u128,
    parent: Option<u128>,
    props: Map<u32, ValueView>,
    bindings: Seq<(Seq<char>, u128)>,
    bundle_id: u128,
) -> Map<u32, ValueView> {
    let base = map![
        KIND => ValueView::Symbol(WIDGET),
        WIDGET_KIND_FIELD => ValueView::Text(spec_region_widget_kind(props)),
        PARENT => ValueView::Uuid(match parent {
            Some(p) => p,
            None => window_id,
        }),
        BUNDLE_ID => ValueView::Uuid(bundle_id)
    ];
    let d = match text_at(props, ROLE) {
        Some(r) => if r == "control.toolbar_button"@ {
            base.insert(GAP, ValueView::I64(4))
        } else if r == "window_root"@ {
            base.insert(FLEX_DIRECTION_FIELD, ValueView::Text("column"@))
        } else {
            base
        },
        None => base,
    };
    let c1 = copy_field(copy_field(copy_field(d, props, WIDTH, WIDTH), props, HEIGHT, HEIGHT), props, GAP, GAP);
    let c2 = copy_field(
        copy_field(copy_field(c1, props, FLEX_DIRECTION, FLEX_DIRECTION_FIELD), props, FLEX_GROW, FLEX_GROW_FIELD),
        props,
        FLEX_SHRINK,
        FLEX_SHRINK_FIELD,
    );
    let c3 = copy_field(copy_field(copy_field(c2, props, ROLE, ROLE), props, TEXT, TEXT), props, ICON_NAME, ICON_NAME);
    let c4 = copy_field(copy_field(copy_field(c3, props, FOCUSABLE, FOCUSABLE), props, TARGET, TARGET), props, COLOR, COLOR);
    match text_at(props, BINDS_TO) {
        Some(name) => match binding_of(bindings, name) {
            Some(t) => c4.insert(BINDS, ValueView::Uuid(t)),
            None => c4,
        },
        None => c4,
    }
}

/// Whether the fields `w` of a widget carry the region's value of `from`
/// under `to` (when the region has one).
pub open spec fn carries(w: Map<u32, ValueView>, props: Map<u32, ValueView>, from: u32, to: u32) -> bool {
    props.contains_key(from) ==> w.contains_key(to) && w[to] == props[from]
}

/// A region's widget carries each of the region's layout and presentation
/// fields with the region's own value, whatever the role's defaults: its
/// width, height, gap, flex direction, grow and shrink, role, text, icon,
/// focusability, target and colour.
pub proof fn lemma_region_widget_copies_fields(
    window_id: u128,
    parent: Option<u128>,
    props: Map<u32, ValueView>,
    bindings: Seq<(Seq<char>, u128)>,
    bundle_id: u128,
)
    ensures
        ({
            let w = spec_region_widget_props(window_id, parent, props, bindings, bundle_id);
            &&& carries(w, props, WIDTH, WIDTH)
            &&& carries(w, props, HEIGHT, HEIGHT)
            &&& carries(w, props, GAP, GAP)
            &&& carries(w, props, FLEX_DIRECTION, FLEX_DIRECTION_FIELD)
            &&& carries(w, props, FLEX_GROW, FLEX_GROW_FIELD)
            &&& carries(w, props, FLEX_SHRINK, FLEX_SHRINK_FIELD)
            &&& carries(w, props, ROLE, ROLE)
            &&& carries(w, props, TEXT, TEXT)
            &&& carries(w, props, ICON_NAME, ICON_NAME)
            &&& carries(w, props, FOCUSABLE, FOCUSABLE)
            &&& carries(w, props, TARGET, TARGET)
            &&& carries(w, props, COLOR, COLOR)
        }),
{
}

/// A region's widget is a `WIDGET` Thing of the region's bundle, under the
/// given parent (the window when there is none), of the kind the region
/// names when it names one.
#[verifier::spinoff_prover]
#[verifier::rlimit(40)]
pub proof fn lemma_region_widget_frame(
    window_id: u128,
    parent: Option<u128>,
    props: Map<u32, ValueView>,
    bindings: Seq<(Seq<char>, u128)>,
    bundle_id: u128,
)
    ensures
        ({
            let w = spec_region_widget_props(window_id, parent, props, bindings, bundle_id);
            &&& w.contains_key(KIND) && w[KIND] == ValueView::Symbol(WIDGET)
            &&& w.contains_key(BUNDLE_ID) && w[BUNDLE_ID] == ValueView::Uuid(bundle_id)
            &&& parent matches Some(p) ==> w.contains_key(PARENT) && w[PARENT] == ValueView::Uuid(p)
            &&& parent is None ==> w.contains_key(PARENT) && w[PARENT] == ValueView::Uuid(window_id)
            &&& (props.contains_key(WIDGET_KIND) && props[WIDGET_KIND] is Text ==> w.contains_key(WIDGET_KIND_FIELD)
                && w[WIDGET_KIND_FIELD] == props[WIDGET_KIND])
        }),
{
}

/// A toolbar button without its own gap gets a gap of 4, and a window root
/// without its own direction lays out in a column.
pub proof fn lemma_region_role_defaults(
    window_id: u128,
    parent: Option<u128>,
    props: Map<u32, ValueView>,
    bindings: Seq<(Seq<char>, u128)>,
    bundle_id: u128,
)
    ensures
        ({
            let w = spec_region_widget_props(window_id, parent, props, bindings, bundle_id);
            &&& (props.contains_key(ROLE) && props[ROLE] == ValueView::Text("control.toolbar_button"@) && !props.contains_key(GAP)
                ==> w.contains_key(GAP) && w[GAP] == ValueView::I64(4))
            &&& (props.contains_key(ROLE) && props[ROLE] == ValueView::Text("window_root"@) && !props.contains_key(FLEX_DIRECTION)
                ==> w.contains_key(FLEX_DIRECTION_FIELD) && w[FLEX_DIRECTION_FIELD] == ValueView::Text("column"@))
        }),
{
    reveal_strlit("control.toolbar_button");
    reveal_strlit("window_root");
    assert("control.toolbar_button"@.len() != "window_root"@.len());
}

/// A region bound to a name the bindings give a Thing is bound to that Thing.
pub proof fn lemma_region_binding(
    window_id: u128,
    parent: Option<u128>,
    props: Map<u32, ValueView>,
    bindings: Seq<(Seq<char>, u128)>,
    bundle_id: u128,
)
    ensures
        props.contains_key(BINDS_TO) && props[BINDS_TO] is Text ==> (binding_of(bindings, props[BINDS_TO]->Text_0) matches Some(t)
            ==> spec_region_widget_props(window_id, parent, props, bindings, bundle_id).contains_key(BINDS) && spec_region_widget_props(window_id, parent, props, bindings, bundle_id)[BINDS] == ValueView::Uuid(t)),
{
}

/// The Thing a binding table gives a name is that of the first entry for
/// the name, and a name no entry has is given none.
pub proof fn lemma_binding_of_first(b: Seq<(Seq<char>, u128)>, name: Seq<char>)
    ensures
        binding_of(b, name) matches Some(t) ==> exists|i: int|
            0 <= i < b.len() && #[trigger] b[i] == (name, t) && forall|j: int| 0 <= j < i ==> (#[trigger] b[j]).0 != name,
        binding_of(b, name) is None ==> forall|i: int| 0 <= i < b.len() ==> (#[trigger] b[i]).0 != name,
    decreases b.len(),
{
    if b.len() > 0 && b[0].0 != name {
        lemma_binding_of_first(b.drop_first(), name);
        if let Some(t) = binding_of(b, name) {
            let i = choose|i: int|
                0 <= i < b.drop_first().len() && #[trigger] b.drop_first()[i] == (name, t) && forall|j: int|
                    0 <= j < i ==> (#[trigger] b.drop_first()[j]).0 != name;
            assert(b[i + 1] == (name, t));
            assert forall|j: int| 0 <= j < i + 1 implies (#[trigger] b[j]).0 != name by {
                if j > 0 {
                    assert(b[j] == b.drop_first()[j - 1]);
                }
            }
        } else {
            assert forall|i: int| 0 <= i < b.len() implies (#[trigger] b[i]).0 != name by {
                if i > 0 {
                    assert(b[i] == b.drop_first()[i - 1]);
                }
            }
        }
    } else if b.len() > 0 {
        assert(b[0] == (name, b[0].1));
    }
}

/// The child regions a region lists: the UUIDs of its `CONTAINS` list, in order.
pub open spec fn spec_children(props: Map<u32, ValueView>) -> Seq<u128> {
    if props.contains_key(CONTAINS) {
        match props[CONTAINS] {
            ValueView::List(items) => items.filter(|v: ValueView| v is Uuid).map_values(|v: ValueView| v->Uuid_0),
            _ => Seq::empty(),
        }
    } else {
        Seq::empty()
    }
}

/// What to do for one region of a layout.
pub struct RegionPlan {
    /// The widget to create.
    pub widget_id: u128,
    /// Its fields.
    pub widget_props: SymbolMap,
    /// The question tag whose questions to list under it, if any.
    pub tag: Option<String>,
    /// The child regions to instantiate under it, in order.
    pub children: Vec<u128>,
}

fn role_widget(role: &str) -> (k: String)
    ensures
        k@ == spec_role_widget(role@),
{
    let k = if str_eq(role, "control.toolbar_button") {
        "button"
    } else if str_eq(role, "window_root") {
        "container"
    } else if str_eq(role, "listbox_default") {
        "listbox"
    } else if str_eq(role, "graph_mini_viewer") {
        "graph_mini_viewer"
    } else if str_eq(role, "thing_inspector") {
        "thing_inspector"
    } else if str_eq(role, "top_status_bar") {
        "top_status_bar"
    } else if str_eq(role, "image") {
        "image"
    } else {
        "container"
    };
    String::from_str(k)
}

fn get_text(m: &SymbolMap, k: u32) -> (r: Option<&str>)
    ensures
        r matches Some(t) ==> text_at(m@, k) == Some(t@),
        r is None ==> text_at(m@, k) is None,
{
    match m.get(&Symbol(k)) {
        Some(v) => v.as_text(),
        None => None,
    }
}

fn copy_into(m: &mut SymbolMap, src: &SymbolMap, from: u32, to: u32)
    ensures
        final(m)@ == copy_field(old(m)@, src@, from, to),
{
    match src.get(&Symbol(from)) {
        Some(v) => m.insert(Symbol(to), v.copy()),
        None => {},
    }
}

fn lookup_binding(b: &Vec<(String, u128)>, name: &str) -> (r: Option<u128>)
    ensures
        r == binding_of(b@.map_values(|p: (String, u128)| (p.0@, p.1)), name@),
{
    let ghost bv = b@.map_values(|p: (String, u128)| (p.0@, p.1));
    let mut i: usize = 0;
    proof {
        assert(bv.subrange(0, bv.len() as int) =~= bv);
    }
    while i < b.len()
        invariant
            i <= b@.len(),
            bv == b@.map_values(|p: (String, u128)| (p.0@, p.1)),
            binding_of(bv, name@) == binding_of(bv.subrange(i as int, bv.len() as int), name@),
        decreases b@.len() - i,
    {
        proof {
            assert(bv.subrange(i as int, bv.len() as int).drop_first() =~= bv.subrange(i + 1, bv.len() as int));
        }
        if str_eq(b[i].0.as_str(), name) {
            return Some(b[i].1);
        }
        i = i + 1;
    }
    proof {
        assert(bv.subrange(i as int, bv.len() as int) =~= Seq::<(Seq<char>, u128)>::empty());
    }
    None
}

/// Plan the widget for a region read from the graph: its id (from the window
/// and region ids), its fields, the question tag it lists and its children.
pub fn region_plan(
    window_id: u128,
    parent: Option<u128>,
    region_id: u128,
    props: &SymbolMap,
    bindings: &Vec<(String, u128)>,
    bundle_id: u128,
) -> (p: RegionPlan)
    ensures
        p.widget_id == spec_seeded_id(window_id, region_id, "widget"@),
        p.widget_props@ == spec_region_widget_props(
            window_id,
            parent,
            props@,
            bindings@.map_values(|b: (String, u128)| (b.0@, b.1)),
            bundle_id,
        ),
        match p.tag {
            Some(t) => text_at(props@, SHOW_TAG) == Some(t@),
            None => text_at(props@, SHOW_TAG) is None,
        },
        p.children@ == spec_children(props@),
{
    proof {
        reveal_strlit("control.toolbar_button");
        assert("control.toolbar_button"@ =~= seq!['c', 'o', 'n', 't', 'r', 'o', 'l', '.', 't', 'o', 'o', 'l', 'b', 'a', 'r', '_', 'b', 'u', 't', 't', 'o', 'n']);
        reveal_strlit("window_root");
        assert("window_root"@ =~= seq!['w', 'i', 'n', 'd', 'o', 'w', '_', 'r', 'o', 'o', 't']);
        reveal_strlit("column");
        assert("column"@ =~= seq!['c', 'o', 'l', 'u', 'm', 'n']);
        reveal_strlit("container");
        assert("container"@ =~= seq!['c', 'o', 'n', 't', 'a', 'i', 'n', 'e', 'r']);
        reveal_strlit("widget");
        assert("widget"@ =~= seq!['w', 'i', 'd', 'g', 'e', 't']);
    }
    let role = get_text(props, ROLE);
    let kind = match get_text(props, WIDGET_KIND) {
        Some(k) => String::from_str(k),
        None => match role {
            Some(r) => role_widget(r),
            None => String::from_str("container"),
        },
    };
    let widget_id = seeded_id(window_id, region_id, "widget");
    let mut w = SymbolMap::new();
    w.insert(Symbol(KIND), Value::Symbol(Symbol(WIDGET)));
    w.insert(Symbol(WIDGET_KIND_FIELD), Value::Text(kind));
    let p = match parent {
        Some(p) => p,
        None => window_id,
    };
    w.insert(Symbol(PARENT), Value::Uuid(p));
    w.insert(Symbol(BUNDLE_ID), Value::Uuid(bundle_id));
    match role {
        Some(r) => {
            if str_eq(r, "control.toolbar_button") {
                w.insert(Symbol(GAP), Value::I64(4));
            } else if str_eq(r, "window_root") {
                w.insert(Symbol(FLEX_DIRECTION_FIELD), Value::Text(String::from_str("column")));
            }
        },
        None => {},
    }
    copy_into(&mut w, props, WIDTH, WIDTH);
    copy_into(&mut w, props, HEIGHT, HEIGHT);
    copy_into(&mut w, props, GAP, GAP);
    copy_into(&mut w, props, FLEX_DIRECTION, FLEX_DIRECTION_FIELD);
    copy_into(&mut w, props, FLEX_GROW, FLEX_GROW_FIELD);
    copy_into(&mut w, props, FLEX_SHRINK, FLEX_SHRINK_FIELD);
    copy_into(&mut w, props, ROLE, ROLE);
    copy_into(&mut w, props, TEXT, TEXT);
    copy_into(&mut w, props, ICON_NAME, ICON_NAME);
    copy_into(&mut w, props, FOCUSABLE, FOCUSABLE);
    copy_into(&mut w, props, TARGET, TARGET);
    copy_into(&mut w, props, COLOR, COLOR);
    match get_text(props, BINDS_TO) {
        Some(name) => match lookup_binding(bindings, name) {
            Some(t) => w.insert(Symbol(BINDS), Value::Uuid(t)),
            None => {},
        },
        None => {},
    }
    let tag = match get_text(props, SHOW_TAG) {
        Some(t) => Some(String::from_str(t)),
        None => None,
    };
    let children = region_children(props);
    proof {
        let base = map![
            KIND => ValueView::Symbol(WIDGET),
            WIDGET_KIND_FIELD => ValueView::Text(spec_region_widget_kind(props@)),
            PARENT => ValueView::Uuid(p),
            BUNDLE_ID => ValueView::Uuid(bundle_id)
        ];
        assert(Map::<u32, ValueView>::empty().insert(KIND, ValueView::Symbol(WIDGET)).insert(
            WIDGET_KIND_FIELD,
            ValueView::Text(spec_region_widget_kind(props@)),
        ).insert(PARENT, ValueView::Uuid(p)).insert(BUNDLE_ID, ValueView::Uuid(bundle_id)) =~= base);
    }
    RegionPlan { widget_id, widget_props: w, tag, children }
}

fn region_children(props: &SymbolMap) -> (c: Vec<u128>)
    ensures
        c@ == spec_children(props@),
{
    let mut out: Vec<u128> = Vec::new();
    match props.get(&Symbol(CONTAINS)) {
        Some(Value::List(items)) => {
            let ghost iv = crate::abi::list_views(items@);
            proof {
                crate::abi::lemma_list_views(items@);
            }
            let mut i: usize = 0;
            while i < items.len()
                invariant
                    i <= items@.len(),
                    iv == crate::abi::list_views(items@),
                    iv.len() == items@.len(),
                    forall|j: int| 0 <= j < items@.len() ==> #[trigger] iv[j] == value_view(items@[j]),
                    out@ == iv.take(i as int).filter(|v: ValueView| v is Uuid).map_values(|v: ValueView| v->Uuid_0),
                decreases items@.len() - i,
            {
                proof {
                    assert(iv.take(i + 1) =~= iv.take(i as int).push(iv[i as int]));
                    iv.take(i as int).lemma_filter_push(iv[i as int], |v: ValueView| v is Uuid);
                }
                match &items[i] {
                    Value::Uuid(u) => {
                        let ghost before = out@;
                        out.push(*u);
                        proof {
                            assert(out@ =~= iv.take(i + 1).filter(|v: ValueView| v is Uuid).map_values(
                                |v: ValueView| v->Uuid_0,
                            ));
                        }
                    },
                    _ => {},
                }
                i = i + 1;
            }
            proof {
                assert(iv.take(i as int) =~= iv);
            }
        },
        _ => {
            proof {
                assert(out@ =~= spec_children(props@));
            }
        },
    }
    out
}

/// The widget kind a question asks for: its preferred widget when it names
/// one (unknown names give a label), else by the kind of answer it takes.
pub open spec fn spec_question_widget_kind(fields: Map<u32, ValueView>) -> Seq<char> {
    match text_at(fields, PREFERRED_WIDGET) {
        Some(role) => if role == "toggle"@ {
            "checkbox"@
        } else if role == "dropdown"@ {
            "dropdown"@
        } else if role == "slider"@ {
            "slider"@
        } else {
            "label"@
        },
        None => match (if fields.contains_key(ANSWER_KIND) {
            match fields[ANSWER_KIND] {
                ValueView::Text(t) => AnswerKind::spec_parse(t),
                _ => None,
            }
        } else {
            None
        }) {
            Some(AnswerKind::YesNo) => "checkbox"@,
            Some(AnswerKind::Text) => "text_entry"@,
            Some(AnswerKind::OneOf) => "dropdown"@,
            Some(AnswerKind::Number) => "label"@,
            None => "label"@,
        },
    }
}

/// The fields of the widget made for a question.
pub open spec fn spec_question_widget_props(parent_id: u128, q: ThingView, bundle_id: u128) -> Map<u32, ValueView> {
    let base = map![
        KIND => ValueView::Symbol(WIDGET),
        WIDGET_KIND_FIELD => ValueView::Text(spec_question_widget_kind(q.fields)),
        PARENT => ValueView::Uuid(parent_id),
        BUNDLE_ID => ValueView::Uuid(bundle_id)
    ];
    let labelled = if q.fields.contains_key(NAME) {
        base.insert(TEXT, q.fields[NAME])
    } else if q.fields.contains_key(TEXT) {
        base.insert(TEXT, q.fields[TEXT])
    } else {
        base
    };
    labelled.insert(BINDS, ValueView::Uuid(q.id)).insert(WIDTH, ValueView::I64(200)).insert(
        HEIGHT,
        ValueView::I64(30),
    ).insert(FOCUSABLE, ValueView::Bool(true))
}

/// The widget for a question listed under a region: its id (from the window
/// and question ids) and its fields.
pub fn question_widget(window_id: u128, parent_id: u128, question: &GraphThing, bundle_id: u128) -> (r: (u128, SymbolMap))
    ensures
        r.0 == spec_seeded_id(window_id, question.id, "qwidget"@),
        r.1@ == spec_question_widget_props(parent_id, question@, bundle_id),
{
    proof {
        reveal_strlit("toggle");
        assert("toggle"@ =~= seq!['t', 'o', 'g', 'g', 'l', 'e']);
        reveal_strlit("dropdown");
        assert("dropdown"@ =~= seq!['d', 'r', 'o', 'p', 'd', 'o', 'w', 'n']);
        reveal_strlit("slider");
        assert("slider"@ =~= seq!['s', 'l', 'i', 'd', 'e', 'r']);
        reveal_strlit("checkbox");
        assert("checkbox"@ =~= seq!['c', 'h', 'e', 'c', 'k', 'b', 'o', 'x']);
        reveal_strlit("text_entry");
        assert("text_entry"@ =~= seq!['t', 'e', 'x', 't', '_', 'e', 'n', 't', 'r', 'y']);
        reveal_strlit("label");
        assert("label"@ =~= seq!['l', 'a', 'b', 'e', 'l']);
        reveal_strlit("qwidget");
        assert("qwidget"@ =~= seq!['q', 'w', 'i', 'd', 'g', 'e', 't']);
    }
    let answer_kind = match question.fields.get(&Symbol(ANSWER_KIND)) {
        Some(v) => AnswerKind::from_value(v),
        None => None,
    };
    let kind = match get_text(&question.fields, PREFERRED_WIDGET) {
        Some(role) => if str_eq(role, "toggle") {
            "checkbox"
        } else if str_eq(role, "dropdown") {
            "dropdown"
        } else if str_eq(role, "slider") {
            "slider"
        } else {
            "label"
        },
        None => match answer_kind {
            Some(AnswerKind::YesNo) => "checkbox",
            Some(AnswerKind::Text) => "text_entry",
            Some(AnswerKind::OneOf) => "dropdown",
            Some(AnswerKind::Number) => "label",
            None => "label",
        },
    };
    let id = seeded_id(window_id, question.id, "qwidget");
    let mut w = SymbolMap::new();
    w.insert(Symbol(KIND), Value::Symbol(Symbol(WIDGET)));
    w.insert(Symbol(WIDGET_KIND_FIELD), Value::Text(String::from_str(kind)));
    w.insert(Symbol(PARENT), Value::Uuid(parent_id));
    w.insert(Symbol(BUNDLE_ID), Value::Uuid(bundle_id));
    match question.fields.get(&Symbol(NAME)) {
        Some(v) => w.insert(Symbol(TEXT), v.copy()),
        None => match question.fields.get(&Symbol(TEXT)) {
            Some(v) => w.insert(Symbol(TEXT), v.copy()),
            None => {},
        },
    }
    w.insert(Symbol(BINDS), Value::Uuid(question.id));
    w.insert(Symbol(WIDTH), Value::I64(200));
    w.insert(Symbol(HEIGHT), Value::I64(30));
    w.insert(Symbol(FOCUSABLE), Value::Bool(true));
    proof {
        let base = map![
            KIND => ValueView::Symbol(WIDGET),
            WIDGET_KIND_FIELD => ValueView::Text(spec_question_widget_kind(question.fields@)),
            PARENT => ValueView::Uuid(parent_id),
            BUNDLE_ID => ValueView::Uuid(bundle_id)
        ];
        assert(Map::<u32, ValueView>::empty().insert(KIND, ValueView::Symbol(WIDGET)).insert(
            WIDGET_KIND_FIELD,
            ValueView::Text(spec_question_widget_kind(question.fields@)),
        ).insert(PARENT, ValueView::Uuid(parent_id)).insert(BUNDLE_ID, ValueView::Uuid(bundle_id)) =~= base);
    }
    (id, w)
}

/// The pattern that finds the questions with a tag.
pub fn tagged_questions_pattern(tag: &str) -> (p: NodePattern)
    ensures
        p@ == (PatternView { labels: seq![QUESTION], props: map![TAG => ValueView::Text(tag@)] }),
{
    let mut labels: Vec<Symbol> = Vec::new();
    labels.push(Symbol(QUESTION));
    let mut props = SymbolMap::new();
    props.insert(Symbol(TAG), Value::text(tag));
    let p = NodePattern { labels, props };
    proof {
        assert(p@.labels =~= seq![QUESTION]);
        assert(p@.props =~= map![TAG => ValueView::Text(tag@)]);
    }
    p
}

} // verus!
