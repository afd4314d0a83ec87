//! The launcher's widgets: one surface, and an entry for each program of
//! `/bin` marked to show in the launcher, each named after the program.

use vstd::prelude::*;
use crate::abi::{SymbolMap, Value, ValueView};
use crate::canon::{Symbol, FOCUSABLE, LABEL, ROLE, VISIBLE};
use crate::fs::{FsNode, FsNodeView};
use crate::text::join;
use crate::userland::{simple_uuid, spec_simple_uuid};

verus! {

/// The id of the launcher surface: the stable id of `launcher_surface`.
pub open spec fn spec_surface_id() -> u128 {
    spec_simple_uuid(vstd::utf8::encode_utf8("launcher_surface"@))
}

/// The id of the launcher surface.
pub fn surface_id() -> (id: u128)
    ensures
        id == spec_surface_id(),
{
    simple_uuid("launcher_surface".as_bytes())
}

/// The fields of the launcher surface widget: its role, label and
/// visibility.
pub open spec fn spec_surface_fields() -> Map<u32, ValueView> {
    map![
        ROLE => ValueView::Text("launcher_surface"@),
        LABEL => ValueView::Text("Launcher"@),
        VISIBLE => ValueView::Bool(true)
    ]
}

/// The fields of the launcher surface widget.
pub fn surface_fields() -> (f: SymbolMap)
    ensures
        f@ == spec_surface_fields(),
{
    let mut f = SymbolMap::new();
    f.insert(Symbol(ROLE), Value::text("launcher_surface"));
    f.insert(Symbol(LABEL), Value::text("Launcher"));
    f.insert(Symbol(VISIBLE), Value::Bool(true));
    proof {
        assert(f@ =~= spec_surface_fields());
    }
    f
}

/// A launcher entry widget: its id, fields, and the program it launches.
pub struct LauncherEntry {
    pub id: u128,
    pub fields: SymbolMap,
    pub launches: u128,
}

/// What a launcher entry denotes.
pub struct EntryView {
    pub id: u128,
    pub fields: Map<u32, ValueView>,
    pub launches: u128,
}

/// The views of a list of entries.
pub open spec fn entries_view(e: Seq<LauncherEntry>) -> Seq<EntryView> {
    e.map_values(|x: LauncherEntry| EntryView { id: x.id, fields: x.fields@, launches: x.launches })
}

/// The entry of a program: named `launcher_entry_` and the program's name,
/// labelled with that name, visible and focusable, launching the program.
pub open spec fn spec_entry(n: FsNodeView) -> EntryView {
    EntryView {
        id: spec_simple_uuid(vstd::utf8::encode_utf8("launcher_entry_"@ + n.name)),
        fields: map![
            ROLE => ValueView::Text("launcher_entry"@),
            LABEL => ValueView::Text(n.name),
            VISIBLE => ValueView::Bool(true),
            FOCUSABLE => ValueView::Bool(true)
        ],
        launches: n.id,
    }
}

/// The entries of the programs marked to show in the launcher, in order.
pub open spec fn spec_entries(nodes: Seq<FsNodeView>) -> Seq<EntryView>
    decreases nodes.len(),
{
    if nodes.len() == 0 {
        Seq::empty()
    } else if nodes.last().show_in_launcher {
        spec_entries(nodes.drop_last()).push(spec_entry(nodes.last()))
    } else {
        spec_entries(nodes.drop_last())
    }
}

/// The nodes marked to show in the launcher, in order.
pub open spec fn shown(nodes: Seq<FsNodeView>) -> Seq<FsNodeView> {
    nodes.filter(|n: FsNodeView| n.show_in_launcher)
}

/// There is one entry for each program marked to show in the launcher, in
/// order: it launches that program, is labelled with its name, has the
/// launcher entry's role, and is visible and focusable.
pub proof fn lemma_launcher_entries(nodes: Seq<FsNodeView>)
    ensures
        spec_entries(nodes).len() == shown(nodes).len(),
        forall|i: int|
            0 <= i < spec_entries(nodes).len() ==> {
                &&& (#[trigger] spec_entries(nodes)[i]).launches == shown(nodes)[i].id
                &&& spec_entries(nodes)[i].fields.contains_key(LABEL)
                &&& spec_entries(nodes)[i].fields[LABEL] == ValueView::Text(shown(nodes)[i].name)
                &&& spec_entries(nodes)[i].fields.contains_key(ROLE)
                &&& spec_entries(nodes)[i].fields[ROLE] == ValueView::Text("launcher_entry"@)
                &&& spec_entries(nodes)[i].fields.contains_key(VISIBLE)
                &&& spec_entries(nodes)[i].fields[VISIBLE] == ValueView::Bool(true)
                &&& spec_entries(nodes)[i].fields.contains_key(FOCUSABLE)
                &&& spec_entries(nodes)[i].fields[FOCUSABLE] == ValueView::Bool(true)
            },
    decreases nodes.len(),
{
    reveal(Seq::filter);
    if nodes.len() > 0 {
        lemma_launcher_entries(nodes.drop_last());
        assert(shown(nodes) == if nodes.last().show_in_launcher {
            shown(nodes.drop_last()).push(nodes.last())
        } else {
            shown(nodes.drop_last())
        });
    }
}

/// The views of a list of nodes.
pub open spec fn nodes_view(n: Seq<FsNode>) -> Seq<FsNodeView> {
    n.map_values(|x: FsNode| x@)
}

/// The launcher entries for the nodes of `/bin`.
pub fn launcher_entries(nodes: &Vec<FsNode>) -> (r: Vec<LauncherEntry>)
    ensures
        entries_view(r@) == spec_entries(nodes_view(nodes@)),
{
    let ghost ns = nodes_view(nodes@);
    let mut r: Vec<LauncherEntry> = Vec::new();
    let mut i: usize = 0;
    proof {
        assert(ns.take(0) =~= Seq::<FsNodeView>::empty());
        assert(entries_view(r@) =~= Seq::<EntryView>::empty());
    }
    while i < nodes.len()
        invariant
            i <= nodes@.len(),
            ns == nodes_view(nodes@),
            entries_view(r@) == spec_entries(ns.take(i as int)),
        decreases nodes@.len() - i,
    {
        proof {
            assert(ns.take(i + 1).drop_last() =~= ns.take(i as int));
            assert(ns.take(i + 1).last() == nodes@[i as int]@);
        }
        let node = &nodes[i];
        if node.show_in_launcher {
            let name = join("launcher_entry_", node.name.as_str());
            let id = simple_uuid(name.as_str().as_bytes());
            let mut f = SymbolMap::new();
            f.insert(Symbol(ROLE), Value::text("launcher_entry"));
            f.insert(Symbol(LABEL), Value::text(node.name.as_str()));
            f.insert(Symbol(VISIBLE), Value::Bool(true));
            f.insert(Symbol(FOCUSABLE), Value::Bool(true));
            let ghost before = entries_view(r@);
            proof {
                assert(f@ =~= spec_entry(node@).fields);
            }
            r.push(LauncherEntry { id, fields: f, launches: node.id });
            proof {
                assert(entries_view(r@) =~= before.push(spec_entry(node@)));
            }
        }
        i = i + 1;
    }
    proof {
        assert(ns.take(i as int) =~= ns);
    }
    r
}

} // verus!
