# isaidle

An idle daemon for Wayland (ext-idle-notify) with logind integration and
lock-aware timers, split into a verified decision core and a thin shell.

- `src/` (verified with Verus): the rules (`rules.rs`), the daemon state and
  events (`state.rs`), the step function from event and state to next state
  and effects (`daemon.rs`), the planning of idle-notification requests
  (`wayland.rs`), event descriptions (`text.rs`), and the laws the core keeps
  (`laws.rs`).
- `app/`: the program around it: Wayland connection and dispatch loop, logind
  over D-Bus, niri IPC, process spawning; it carries out the effects that the
  core returns, in order.
