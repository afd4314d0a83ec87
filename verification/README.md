# thingos

The logic of a small graph-based operating system, verified with Verus:
every piece of state is a Thing (a node with symbol-keyed fields) or an edge
between Things, owned by a bundle; bundles read, write and link through
ownership and capability edges, and watches report the changes they may see.

## Layout

- `src/` is the verified library. The main parts:
  - `canon`, `abi`, `records`, `symtext`: symbols, values, requests and
    replies, and their text forms.
  - `kstore`, `capgraph`, `journal`, `watch`: the kernel's graph store, the
    capability graph, the bounded event journal and watch queues; the
    `*_laws` files state what the operations keep and enable.
  - `host_store`, `host`: the in-memory host store and the runtime that
    answers requests from it.
  - `kernel_runtime`, `userland`, `driver_runtime`, `fs`, `layout`,
    `semantic_ui`, `questions`, `interactions`, `ui_graph`, `launcher`: what
    userland decides before and after it talks to the kernel.
  - `raster`, `widget_abi`, `widgets/*`, `widget_host`: widgets as paint
    operations on a pixel buffer, and the widget host's decisions.
  - `ids`, `raster::font_glyph`, `layout::uuid_text`,
    `driver_runtime::to_upper_first`: the calls into `uuid`, `unifont` and
    `std` whose results the library names; `abi::utf8_text` decodes through
    `std` against vstd's statement of UTF-8.
- `tests/` runs the library on concrete values.
- `app/` is the unverified shell: system calls, postcard encoding, process-wide
  state, the loops that carry out the library's decisions, and the floating
  point that draws icon outlines and scales scrollbar drags.
