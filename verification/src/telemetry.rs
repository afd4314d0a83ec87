//! Bundle classification for the kernel's bundle lifecycle.

use vstd::prelude::*;
use crate::canon::{Symbol, str_eq, APP, COMPOSITOR, DRIVER};
use crate::text::{ends_with, spec_ends_with};

verus! {

/// Bundle type classification for the bundle lifecycle.
#[derive(Debug, Clone, Copy, PartialEq, Eq, Structural)]
pub enum BundleType {
    /// Device driver bundle
    Driver,
    /// User application bundle
    App,
    /// Window compositor bundle
    Compositor,
}

pub open spec fn seq_driver() -> Seq<char> {
    seq!['d', 'r', 'i', 'v', 'e', 'r']
}

pub open spec fn seq_compositor() -> Seq<char> {
    seq!['c', 'o', 'm', 'p', 'o', 's', 'i', 't', 'o', 'r']
}

impl BundleType {
    /// The symbol that names each bundle type.
    pub open spec fn spec_symbol(self) -> u32 {
        match self {
            BundleType::Driver => DRIVER,
            BundleType::App => APP,
            BundleType::Compositor => COMPOSITOR,
        }
    }

    /// The type a module name suggests: a name ending in "driver" (with or
    /// without an underscore before it) is a driver, one ending in "compositor"
    /// a compositor, anything else an app.
    pub open spec fn spec_from_name(name: Seq<char>) -> BundleType {
        if spec_ends_with(name, seq!['_'] + seq_driver()) || name == seq_driver() || spec_ends_with(
            name,
            seq_driver(),
        ) {
            BundleType::Driver
        } else if spec_ends_with(name, seq!['_'] + seq_compositor()) || name == seq_compositor()
            || spec_ends_with(name, seq_compositor()) {
            BundleType::Compositor
        } else {
            BundleType::App
        }
    }

    /// Convert the bundle type to its corresponding symbol.
    pub fn to_symbol(self) -> (s: Symbol)
        ensures
            s.0 == self.spec_symbol(),
    {
        match self {
            BundleType::Driver => Symbol(DRIVER),
            BundleType::App => Symbol(APP),
            BundleType::Compositor => Symbol(COMPOSITOR),
        }
    }

    /// Infer the bundle type from a module name by its suffix.
    pub fn from_name(name: &str) -> (t: BundleType)
        ensures
            t == BundleType::spec_from_name(name@),
    {
        proof {
            reveal_strlit("_driver");
            assert("_driver"@ =~= seq!['_', 'd', 'r', 'i', 'v', 'e', 'r']);
            reveal_strlit("driver");
            assert("driver"@ =~= seq!['d', 'r', 'i', 'v', 'e', 'r']);
            reveal_strlit("_compositor");
            assert("_compositor"@ =~= seq!['_', 'c', 'o', 'm', 'p', 'o', 's', 'i', 't', 'o', 'r']);
            reveal_strlit("compositor");
            assert("compositor"@ =~= seq!['c', 'o', 'm', 'p', 'o', 's', 'i', 't', 'o', 'r']);
            assert("_driver"@ =~= seq!['_'] + seq_driver());
            assert("_compositor"@ =~= seq!['_'] + seq_compositor());
        }
        if ends_with(name, "_driver") || str_eq(name, "driver") || ends_with(name, "driver") {
            BundleType::Driver
        } else if ends_with(name, "_compositor") || str_eq(name, "compositor") || ends_with(
            name,
            "compositor",
        ) {
            BundleType::Compositor
        } else {
            BundleType::App
        }
    }
}

/// A name classified as a driver is exactly one that ends in "driver".
pub proof fn lemma_driver_names(name: Seq<char>)
    ensures
        (BundleType::spec_from_name(name) == BundleType::Driver) == spec_ends_with(name, seq_driver()),
{
    if spec_ends_with(name, seq!['_'] + seq_driver()) {
        let n = name.len();
        assert(name.subrange(n - 6, n as int) =~= name.subrange(n - 7, n as int).subrange(1, 7));
        assert((seq!['_'] + seq_driver()).subrange(1, 7) =~= seq_driver());
    }
    if name == seq_driver() {
        assert(name.subrange(0, 6) =~= name);
    }
}

} // verus!
