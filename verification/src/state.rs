use vstd::prelude::*;

use crate::rules::Phase;
use crate::text::{append_decimal, decimal_text};

verus! {

/// Something that happened outside the daemon.
#[derive(Debug, Clone, Copy, PartialEq, Eq, Structural)]
pub enum Event {
    /// The idle timer of the rule at this index fired.
    IdleTimerFired(usize),
    /// The user became active again after the rule at this index had fired.
    IdleResumed(usize),
    /// logind asked the session to lock.
    LogindLock,
    /// logind asked the session to unlock.
    LogindUnlock,
}

/// The one-line description of an event, as the daemon logs it.
pub open spec fn event_text(e: Event) -> Seq<char> {
    match e {
        Event::IdleTimerFired(i) => "idle timer fired (rule "@ + decimal_text(i as nat) + ")"@,
        Event::IdleResumed(i) => "user activity resumed (rule "@ + decimal_text(i as nat) + ")"@,
        Event::LogindLock => "logind: session locked"@,
        Event::LogindUnlock => "logind: session unlocked"@,
    }
}

impl Event {
    /// Describes the event in one line, e.g. `idle timer fired (rule 2)`.
    pub fn describe(&self) -> (text: String)
        ensures
            text@ == event_text(*self),
    {
        match self {
            Event::IdleTimerFired(i) => {
                let mut s = String::from_str("idle timer fired (rule ");
                append_decimal(&mut s, *i);
                s.append(")");
                s
            },
            Event::IdleResumed(i) => {
                let mut s = String::from_str("user activity resumed (rule ");
                append_decimal(&mut s, *i);
                s.append(")");
                s
            },
            Event::LogindLock => String::from_str("logind: session locked"),
            Event::LogindUnlock => String::from_str("logind: session unlocked"),
        }
    }
}

/// What the daemon remembers between events.
#[derive(Debug, Clone, Copy, PartialEq, Eq, Structural)]
pub struct DaemonState {
    /// Whether the monitors are (as far as the daemon knows) powered on.
    pub display_on: bool,
    /// The phase whose rules are currently armed.
    pub current_phase: Phase,
}

impl DaemonState {
    /// The state at start-up: monitors on, session unlocked.
    pub fn new() -> (s: Self)
        ensures
            s.display_on,
            s.current_phase == Phase::Unlocked,
    {
        DaemonState { display_on: true, current_phase: Phase::Unlocked }
    }
}

} // verus!
