# real_time_project

Control software for a ball-and-beam laboratory process: a regulator thread
that reads the beam angle and ball position from an I/O box and drives the
beam motor, and a terminal console for choosing the operating mode, the
reference mode and the controller parameters.

- `src/` is the library, verified with Verus:
  - `mode`, `ref_mode`: the operating mode and reference mode monitors;
  - `iobox`, `sim`: analog channels of the I/O box (and of its file-backed
    simulation): which accesses a channel allows, where it is addressed, and
    how a device status becomes a result;
  - `selection`: the `Selectable` trait for scrolling lists and tables, over
    the selection state of `tui` widgets;
  - `console`: the operator console's lists, parameter table and key
    handling, as a transition function from state and key to new state and
    action; `console_laws` proves properties of it.
- `app/` is the program: comedilib calls, the floating-point PID controller,
  reference generator and regulator loop, and the `tui`/`crossterm` terminal
  front end.
- `tests/` runs the library on concrete inputs.
