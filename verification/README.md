# crownpositor

The decision-making core of a tiling Wayland compositor, written in Verus and
proved against its contracts.

- `src/` is the verified library: rectangle arithmetic, the tiling layouts
  (master/stack, scrolling columns, floating placement, snap zones), the
  shortcut vocabulary with its parser and binding table, touchpad swipe
  naming, the titlebar's application menus (parsing, grafting, open/close
  navigation), keyboard and pointer decisions, and the integer side of the
  glass renderer (blur pyramid sizes, Kawase pass plans, occlusion bands,
  glyph blitting).
- `tests/` runs the library on concrete values.
- `app/` is the unverified edge: the session-bus menu client, the
  fractional-pixel state (gesture velocity, layout ratios, pointer
  positions), and error types that need `Display`.
