# branch_panel

The state and the layout of a panel that lists the branches of a git repository,
verified with Verus.

- `src/panel.rs`: the panel, the events that change it, what it asks for in return,
  and its layout
- `src/row.rs`: the rows of the branches and the sections that hold them
- `src/menu.rs`: the context menu of a branch
- `src/clock.rs`: the ages of commits, on the `time` crate
- `src/dock.rs`: the place of the panel in a window
- `src/branch.rs`, `src/effect.rs`, `src/widget.rs`, `src/text.rs`: the data of all these
- `src/laws.rs`: what holds of the panel as a whole
- `app/`: the panel in a workspace, which carries out the effects and draws the layout
