//! ThingOS core library: symbols, the capability graph, graph stores and
//! device decoders, with their contracts proved by Verus.

use vstd::prelude::*;

pub mod assoc;
pub mod canon;
pub mod capgraph;
pub mod capgraph_laws;
pub mod kernel;
pub mod bundles;
pub mod arch;
pub mod abi;
pub mod ids;
pub mod text;
pub mod verb;
pub mod flex;
pub mod interactions;
pub mod questions;
pub mod telemetry;
pub mod symset;
pub mod records;
pub mod host_store;
pub mod alist;
pub mod host;
pub mod host_laws;
pub mod driver_runtime;
pub mod thingable;
pub mod fs;
pub mod userland;
pub mod trace;
pub mod kui;
pub mod query;
pub mod kernel_runtime;
pub mod layout;
pub mod kstore;
pub mod kstore_laws;
pub mod facts;
pub mod symtext;
pub mod journal;
pub mod semantic_ui;
pub mod watch;
pub mod apps;
pub mod errors;
pub mod ipc;
pub mod raster;
pub mod widget_abi;
pub mod widgets;
pub mod ui_graph;
pub mod widget_host;
pub mod launcher;

verus! {

} // verus!
