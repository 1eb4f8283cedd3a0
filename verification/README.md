# agent_tui

The panels of a terminal workbench for AI agents: the permission prompt,
the sessions list, and the overlays for MCP servers, model profiles,
plugins, monitors and skills. Each panel is a state machine that takes key
presses and effects from other panels and answers with effects and with
commands for the runtime; each also says, as lines of styled text, what it
shows.

- `src/` is the verified library. Every key handler, effect handler,
  editor and row builder carries a contract over a mathematical model of
  the panel, and the properties that span several operations stand as
  proof functions in the `laws` modules (and beside the types they speak
  of).
- `app/` is the terminal front end: crossterm events become key presses,
  catalog JSON is read with serde, and the styled lines are drawn with
  ratatui.
- `tests/` runs the panels on concrete scenarios.
