# runebender-lib (verified core)

The decision logic of three parts of a font editor's user interface, written in
Verus and proved against its contracts:

- `src/keys.rs`: keys, modifier flags and hot keys as plain values, and when a hot
  key matches a key press.
- `src/star.rs`: the star tool's gesture (down, drag, up, cancel, Shift lock) as a
  state machine over an abstract point type, and the polar outline of a star.
- `src/outline.rs`: the toolbar icons as outlines on whole-number coordinates.
- `src/toolbar.rs`: the toolbar's tools, selection by name, by click and by hot key,
  and the default set of tools.
- `src/panel.rs`: the floating panel that hides during a preview.

`app/` holds the druid widgets around this logic: drawing, layout, and everything
that computes on floating-point coordinates.
