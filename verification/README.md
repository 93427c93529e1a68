# wezterm_commands

The command catalogue of a terminal emulator's GUI, written in Verus and
proved against its contracts: which actions exist by default, how each
action is described in the command palette and the menubar, which keys
trigger it, and where it goes in the menubar.

## Layout

- `src/modifiers.rs`: key modifiers as a bit set.
- `src/text.rs`: decimal numbers, English ordinals, joining, and the
  US-layout shifted form of a key label.
- `src/assignment.rs`: the key assignment actions and their views.
- `src/render.rs`: how the arguments of an action read inside a description.
- `src/command.rs`: the description of each action (`CommandDef`) and its
  specification, `command_spec`.
- `src/defaults.rs`: the default actions, the key synthesis, the expanded
  commands of the palette and the default key assignments.
- `src/menubar.rs`: the layout of the menubar.
- `src/laws.rs`: properties of the catalogue as a whole.
- `tests/`: tests on concrete values.
- `app/`: what the library leaves to the GUI: turning floating-point page
  counts into text, logging, and building the macOS menubar.

## What the GUI hands in

The library reads no configuration and no multiplexer itself. The GUI gives
it plain values: whether it runs on macOS, a table from key labels to key
codes (the labels to resolve are listed by `default_key_labels`), the
launch menu, and the domains and workspaces of the multiplexer.
