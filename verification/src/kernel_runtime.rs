//! The decisions of the kernel-backed Thing runtime: how the replies of the
//! graph system calls become ABI responses. The system calls themselves, and
//! the encoding of requests and replies, are made by the caller.

use vstd::prelude::*;
use crate::abi::{SymbolMap, ValueView};
use crate::canon::Symbol;
use crate::records::{things_view, AbiResponse, EdgeView, GraphEdge, GraphThing, ResponseView, ThingView};
use crate::symset::SymbolSet;

verus! {

/// The value a failed system call returns.
pub const SYSCALL_FAILED: u64 = 0xffff_ffff_ffff_ffff;

/// The labels a fiat request carries: those given, or the kind alone.
pub open spec fn spec_fiat_labels(kind: Symbol, labels: Seq<Symbol>) -> Seq<Symbol> {
    if labels.len() == 0 {
        seq![kind]
    } else {
        labels
    }
}

/// The labels a fiat request carries.
pub fn fiat_labels(kind: Symbol, labels: Vec<Symbol>) -> (r: Vec<Symbol>)
    ensures
        r@ == spec_fiat_labels(kind, labels@),
{
    let mut labels = labels;
    if labels.len() == 0 {
        labels.push(kind);
        assert(labels@ =~= seq![kind]);
    }
    labels
}

/// The Thing a fiat reports: the one read back from the kernel with the
/// revision the fiat returned, or, when it cannot be read back, the Thing as
/// requested (no owner) at that revision.
pub open spec fn spec_fiat_thing(
    fetched: Option<ThingView>,
    id: u128,
    kind: Symbol,
    labels: Seq<Symbol>,
    fields: Map<u32, ValueView>,
    revision: u64,
) -> ThingView {
    match fetched {
        Some(t) => ThingView { revision, ..t },
        None => ThingView {
            id,
            kind: kind.0,
            labels: labels.map_values(|s: Symbol| s.0).to_set(),
            fields,
            owner: 0,
            revision,
        },
    }
}

/// The Thing a fiat reports.
pub fn fiat_response(
    fetched: Option<GraphThing>,
    id: u128,
    kind: Symbol,
    labels: &Vec<Symbol>,
    fields: SymbolMap,
    revision: u64,
) -> (r: AbiResponse)
    ensures
        r@ == (ResponseView::Fiat {
            thing: spec_fiat_thing(
                match fetched {
                    Some(t) => Some(t@),
                    None => None,
                },
                id,
                kind,
                labels@,
                fields@,
                revision,
            ),
        }),
{
    let thing = match fetched {
        Some(mut t) => {
            t.revision = revision;
            t
        },
        None => GraphThing {
            id,
            kind,
            labels: SymbolSet::from_symbols(labels),
            fields,
            owner: 0,
            revision,
        },
    };
    AbiResponse::Fiat { thing }
}

/// The edge a link reports: as requested, owned by no bundle, at the revision returned.
pub fn link_response(id: u128, from: u128, pred: String, to: u128, props: SymbolMap, revision: u64) -> (r: AbiResponse)
    ensures
        r@ == (ResponseView::Link {
            edge: Some(EdgeView { id, src: from, pred: pred@, dst: to, props: props@, owner: 0, revision }),
        }),
{
    AbiResponse::Link { edge: Some(GraphEdge { id, src: from, pred, dst: to, props, owner: 0, revision }) }
}

/// The reply to a watch registration: the watch id, or an error when the call failed.
pub fn watch_register_response(raw: u64) -> (r: AbiResponse)
    ensures
        raw == SYSCALL_FAILED ==> r@ == (ResponseView::Error {
            message: seq!['w', 'a', 't', 'c', 'h', ' ', 'r', 'e', 'g', 'i', 's', 't', 'e', 'r', ' ', 'f', 'a', 'i', 'l', 'e', 'd'],
        }),
        raw != SYSCALL_FAILED ==> r@ == (ResponseView::WatchRegistered { watch_id: raw }),
{
    if raw == SYSCALL_FAILED {
        proof {
            reveal_strlit("watch register failed");
            assert("watch register failed"@ =~= seq!['w', 'a', 't', 'c', 'h', ' ', 'r', 'e', 'g', 'i', 's', 't', 'e', 'r', ' ', 'f', 'a', 'i', 'l', 'e', 'd']);
        }
        AbiResponse::Error { message: String::from_str("watch register failed") }
    } else {
        AbiResponse::WatchRegistered { watch_id: raw }
    }
}

/// The reply to a property read: the properties decoded (none when they could
/// not be decoded), or an error when the call failed.
pub fn props_get_response(len: u64, decoded: Option<SymbolMap>) -> (r: AbiResponse)
    ensures
        len == SYSCALL_FAILED ==> r@ == (ResponseView::Error {
            message: seq!['p', 'r', 'o', 'p', 's', ' ', 'g', 'e', 't', ' ', 'f', 'a', 'i', 'l', 'e', 'd'],
        }),
        len != SYSCALL_FAILED ==> r@ == (ResponseView::Props {
            props: match decoded {
                Some(m) => m@,
                None => Map::<u32, ValueView>::empty(),
            },
        }),
{
    if len == SYSCALL_FAILED {
        proof {
            reveal_strlit("props get failed");
            assert("props get failed"@ =~= seq!['p', 'r', 'o', 'p', 's', ' ', 'g', 'e', 't', ' ', 'f', 'a', 'i', 'l', 'e', 'd']);
        }
        AbiResponse::Error { message: String::from_str("props get failed") }
    } else {
        match decoded {
            Some(m) => AbiResponse::Props { props: m },
            None => AbiResponse::Props { props: SymbolMap::new() },
        }
    }
}

/// The reply to a property write: the properties written when the call
/// returned 0, an error otherwise.
pub fn props_set_response(status: u64, props: SymbolMap) -> (r: AbiResponse)
    ensures
        status == 0 ==> r@ == (ResponseView::Props { props: props@ }),
        status != 0 ==> r@ == (ResponseView::Error {
            message: seq!['p', 'r', 'o', 'p', 's', ' ', 's', 'e', 't', ' ', 'f', 'a', 'i', 'l', 'e', 'd'],
        }),
{
    if status == 0 {
        AbiResponse::Props { props }
    } else {
        proof {
            reveal_strlit("props set failed");
            assert("props set failed"@ =~= seq!['p', 'r', 'o', 'p', 's', ' ', 's', 'e', 't', ' ', 'f', 'a', 'i', 'l', 'e', 'd']);
        }
        AbiResponse::Error { message: String::from_str("props set failed") }
    }
}

/// The reply to a capability grant: granted exactly when the call returned 0.
pub fn grant_response(status: u64) -> (r: AbiResponse)
    ensures
        r@ == (ResponseView::CapabilityGranted { granted: status == 0 }),
{
    AbiResponse::CapabilityGranted { granted: status == 0 }
}

/// The cursor a find reports: none when the kernel reported 0.
pub fn find_cursor(next: u64) -> (r: Option<u64>)
    ensures
        r == (if next == 0 {
            None
        } else {
            Some(next)
        }),
{
    if next == 0 {
        None
    } else {
        Some(next)
    }
}

/// A find that gathers every page the kernel gives: the Things so far, and
/// the cursor of the page to ask for next (0 once the last page came).
pub struct FindGather {
    pub things: Vec<GraphThing>,
    pub next: u64,
}

impl FindGather {
    /// A find starting at a cursor (the first page when none).
    pub fn new(cursor: Option<u64>) -> (g: FindGather)
        ensures
            things_view(g.things@) == Seq::<ThingView>::empty(),
            g.next == (match cursor {
                Some(c) => c,
                None => 0,
            }),
    {
        let things: Vec<GraphThing> = Vec::new();
        proof {
            assert(things_view(things@) =~= Seq::<ThingView>::empty());
        }
        let next = match cursor {
            Some(c) => c,
            None => 0,
        };
        FindGather { things, next }
    }

    /// Take a page and the next cursor it names (0 for none): its Things join
    /// those gathered, in order, and the cursor is the one to ask for next.
    /// Returns whether to ask for another page.
    pub fn take_page(&mut self, page: Vec<GraphThing>, next_cursor: u64) -> (more: bool)
        ensures
            things_view(final(self).things@) == things_view(old(self).things@) + things_view(page@),
            final(self).next == next_cursor,
            more == (next_cursor != 0),
    {
        let ghost start = things_view(self.things@);
        let ghost pv = things_view(page@);
        let mut page = page;
        proof {
            assert(things_view(self.things@) + things_view(page@) == start + pv);
        }
        while page.len() > 0
            invariant
                things_view(self.things@) + things_view(page@) == start + pv,
            decreases page@.len(),
        {
            let ghost before_page = things_view(page@);
            let ghost before_things = things_view(self.things@);
            let t = page.remove(0);
            proof {
                assert(before_page =~= seq![t@] + things_view(page@));
            }
            self.things.push(t);
            proof {
                assert(things_view(self.things@) =~= before_things.push(t@));
                assert(things_view(self.things@) + things_view(page@) =~= before_things + before_page);
            }
        }
        proof {
            assert(things_view(page@) =~= Seq::<ThingView>::empty());
            assert(things_view(self.things@) + Seq::<ThingView>::empty() =~= things_view(self.things@));
        }
        self.next = next_cursor;
        next_cursor != 0
    }

    /// The answer: the Things gathered, and the cursor asked for last
    /// (none once the last page came).
    pub fn finish(self) -> (r: AbiResponse)
        ensures
            r@ == (ResponseView::Find { things: things_view(self.things@), next_cursor: if self.next == 0 {
                None
            } else {
                Some(self.next)
            } }),
    {
        let next_cursor = find_cursor(self.next);
        AbiResponse::Find { things: self.things, next_cursor }
    }
}

} // verus!
