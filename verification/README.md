# nebula_display

State and rules of a terminal emulator's window, written in Verus.

- `src/` is the verified library. Each part of the window is a small state with methods:
  tabs, hosts, panels, menus, dialogs, the settings page and its forms, hints, pop-ups,
  the input method, the frame and the pane. What a change asks of the surrounding
  program (a redraw, a new layout, settings to be written) is collected in `fx::Fx`.
- `tests/` runs the library on concrete values.
- `app/` holds what touches files, clocks, the windowing system and floating-point pixels.

Lengths in pixels reach the library as the bits of an `f32`, which it carries and never
reads; comparisons between them reach it as `bool`.

What is not proved stands in `src/text.rs`: the contracts of the display width of a
character (`unicode-width`), and of `str::to_lowercase`, `String::push` and
`char::is_whitespace`.
