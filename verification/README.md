# rgraph_core

Framework-agnostic core of a node-graph editor: connection rules between
handles, edge bookkeeping, graph queries, the pan/zoom event filter,
drag and resize decisions, and the small data types they share.

## Layout

- `src/` — the library, written in Verus. Every function carries a
  contract (`requires` / `ensures`) over mathematical models (`Seq`,
  `Map`, strings as `Seq<char>`), and the properties that span several
  functions are stated as proof functions (`lemma_*`).
  - `types/` — enums and plain structs (handle types, positions,
    connection modes, viewport options) and `StrMap`, an insertion-ordered
    map used for the connection lookup.
  - `utils/` — connection maps and lookups, edge ids and edge lists,
    graph queries (outgoers, incomers, connected edges, deletion),
    DOM-name classification, markers.
  - `xyhandle/`, `xydrag/`, `xypanzoom/`, `xyresizer/` — the decisions of
    the connection, drag, pan/zoom and resize interactions.
  - `promise.rs` — a one-shot completion handle over a channel.
  - `constants.rs` — error messages and default aria labels.
- `tests/` — tests of the library.
- `app/` — plain Rust around the library: the floating-point geometry
  (positions, rectangles, viewports, edge paths, bounds, resizing
  arithmetic) that the library cannot hold, and conversions between its
  own node/edge types and the library's. It calls the library for the
  decisions that can be made on plain values; tests that compare
  floating-point values (clamping a position, whether a size changed,
  whether a dragged handle crossed its threshold) are made in `app/` and
  handed to the library as booleans.

## Not included

- The drag, pan/zoom and resize controllers that drive a gesture from
  pointer events: they sit on separate gesture and zoom-transition crates
  that are not part of this project.
- Serialisation derives on the data types, and the stylesheet constants
  (their CSS files are not part of this project).
