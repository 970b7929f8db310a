# edp_tui

The verified core of the EDP disk tool's terminal workspace: the state machine behind
the device, backup, Provision and Inspect workspaces, and the text and layout
arithmetic the screens are drawn from. Every function in `src/` carries a Verus
contract and is proved against it.

## Layout

- `src/state.rs`, `navigate.rs`, `refresh.rs`, `navigation.rs`: workspace state, search
  filters, navigation commands, Escape handling, saved return frames, and taking in
  fresh device and backup scans.
- `src/backups.rs`, `provision.rs`, `capacity.rs`: backup wizards (delete, batch delete,
  prune, create), the Provision stages, capacity input and parsing.
- `src/inspect.rs`, `sector.rs`, `sector_cache.rs`: the Inspect browser, the sector
  inspector and its bounded cache of on-demand sectors.
- `src/pane.rs`: pane focus and scroll viewports.
- `src/disk_layout.rs`, `disk_bar.rs`: disk layout models built from overlapping region
  claims, their legend and the proportional bar.
- `src/table_layout.rs`, `column_fit.rs`, `cells.rs`, `text.rs`: table schemas, column
  fitting, terminal cell widths, wrapping and truncation.
- `src/keymap.rs`, `command.rs`, `resume.rs`, `task.rs`, `animation.rs`: key bindings
  with prefix keys, the command palette, resume arguments across elevation, task
  slots, and animation scheduling.
- `src/event_loop.rs`, `dispatch.rs`, `key_routing.rs`: the event loop's decisions, one
  step from state and event to next state and requested scans (or the end of the
  loop); carrying out a navigation command together with the background work it asks
  for; and what a key does in each open flow (Provision stages, the delete, batch
  delete and prune wizards, the write confirmation, the search and command lines).
- `src/provision_fields.rs`, `provision_view.rs`: which Provision form fields are shown,
  in order, and what each allows; and each shown field's label, value and secrecy.
- `src/frame_plan.rs`, `status_line.rs`, `list_view.rs`, `device_view.rs`,
  `stage_panels.rs`, `sector_view.rs`: what the frame shows (the activity core, mode
  badge, tab, which panel fills the body), the status line, the list panels' titles,
  empty notices, search box and table row cells, the text panels of the Provision and
  inspection stages, and the sector inspector's header and hex rows.
- `app/`: the terminal side: raw mode, crossterm key events, the clock and environment,
  the terminal loop and a session driver that hands keys and task results to the
  library and starts the tasks it asks for, the frame (title, tabs, list panel text,
  stage panels, sector inspector, notice and status line, all from the library), the
  animation panel with its floating-point geometry, and a few ratatui widgets. The
  background tasks themselves are supplied by the caller through `TaskSource`.
- `tests/`: executable tests of the library.
