# tui_playground

A small prompt-driven terminal program, with its logic verified by Verus.

At the prompt the user types a command (`effect`, `help`, `clear`, `quit`), completes it
with Tab and the arrow keys, or runs a shell command with `!<cmd>`. The `effect` command
opens a screen of animated light effects, chosen from a menu.

- `src/` is the verified library: the prompt's state machine (`app.rs`), its command
  registry and commands (`commands/`), the effect screen's state, menu and canvas
  (`commands/effect.rs`), the prompt screen's layout (`prompt.rs`), the bounded output
  history (`history.rs`), text helpers (`text.rs`) and the properties proved across
  operations (`laws.rs`).
- `app/` is the program around it: the event loop, running shell commands, the
  floating-point effect animations and drawing with ratatui.
- `tests/` exercises the library on concrete inputs.
