# vizia_views

The built-in views of a declarative GUI toolkit — lists, calendars, popups, menus,
tables, text boxes, markdown and the rest — as a verified library.

Each view is built into a view tree (`ui::Context`), a sequence of nodes in creation
order with their element, parent, classes, role and interaction flags. Builders state
exactly which nodes they append; event handlers are functions from a view's state and
an event to its next state and the actions its surroundings must take (focus a node,
run a callback, capture the pointer). Contracts are stated over these models and
proved with Verus.

Layout:

- `src/` — the library. `ui.rs` holds the view tree; every other module holds one
  family of views, with its builders, state machines, contracts and laws.
- `tests/` — tests of the library on concrete values.
- `app/` — what stays outside the library: opening links, measuring where a popup has room, and the views whose state is
  floating point (sliders, knobs, scroll positions, colour conversions).

Outside crates called from the library: chrono (calendar dates and times of day),
unicode-segmentation (grapheme clusters of text boxes), fxhash (keys of svg data) and
comrak (parsing markdown text).
