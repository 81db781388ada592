//! Decision core of an idle daemon: idle-timeout rules grouped by session
//! phase (locked / unlocked), the daemon's own state, and the step function
//! that turns one event into the next state and the effects to carry out.

pub mod rules;
pub mod state;
pub mod text;
pub mod wayland;
pub mod daemon;
pub mod laws;
