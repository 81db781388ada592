use vstd::prelude::*;

use crate::rules::{copy_words, words_view, Action, ActionView, Phase, Rule};
use crate::state::{DaemonState, Event};
use crate::wayland::WlCommand;

verus! {

/// Outside work that the daemon decides on; the caller carries these out in order.
#[derive(Debug)]
pub enum Effect {
    /// Hand the command to the Wayland thread (re-arms the idle timers).
    SendCommand(WlCommand),
    /// Start a program: the first word is the binary, the rest its arguments.
    SpawnProcess(Vec<String>),
    /// Ask logind to lock the session.
    LockSession,
    /// Power the monitors off.
    DpmsOff,
    /// Power the monitors on.
    DpmsOn,
    /// Run the screen locker; what follows its exit is decided by
    /// [`locker_exit_effects`].
    StartLocker,
    /// Ask logind to unlock the session.
    UnlockSession,
}

/// Mathematical model of an [`Effect`].
pub enum EffectView {
    SendCommand(Seq<(usize, u64)>),
    SpawnProcess(Seq<Seq<char>>),
    LockSession,
    DpmsOff,
    DpmsOn,
    StartLocker,
    UnlockSession,
}

impl View for Effect {
    type V = EffectView;

    open spec fn view(&self) -> EffectView {
        match self {
            Effect::SendCommand(cmd) => EffectView::SendCommand(cmd@),
            Effect::SpawnProcess(argv) => EffectView::SpawnProcess(words_view(argv@)),
            Effect::LockSession => EffectView::LockSession,
            Effect::DpmsOff => EffectView::DpmsOff,
            Effect::DpmsOn => EffectView::DpmsOn,
            Effect::StartLocker => EffectView::StartLocker,
            Effect::UnlockSession => EffectView::UnlockSession,
        }
    }
}

/// A sequence of effects taken by their models.
pub open spec fn effects_view(effects: Seq<Effect>) -> Seq<EffectView> {
    effects.map_values(|e: Effect| e@)
}

/// Performing one action in state `s`: the next state and the effects.
/// The monitors are only switched when they are not already in the wanted
/// state, and an empty command line starts nothing.
pub open spec fn action_outcome(a: ActionView, s: DaemonState) -> (DaemonState, Seq<EffectView>) {
    match a {
        ActionView::SpawnProcess(argv) => (
            s,
            if argv.len() > 0 {
                seq![EffectView::SpawnProcess(argv)]
            } else {
                seq![]
            },
        ),
        ActionView::LockSession => (s, seq![EffectView::LockSession]),
        ActionView::DpmsOff => if s.display_on {
            (DaemonState { display_on: false, ..s }, seq![EffectView::DpmsOff])
        } else {
            (s, seq![])
        },
        ActionView::DpmsOn => if !s.display_on {
            (DaemonState { display_on: true, ..s }, seq![EffectView::DpmsOn])
        } else {
            (s, seq![])
        },
    }
}

/// Performing the actions one after the other, starting in state `s`.
pub open spec fn actions_outcome(actions: Seq<ActionView>, s: DaemonState) -> (
    DaemonState,
    Seq<EffectView>,
)
    decreases actions.len(),
{
    if actions.len() == 0 {
        (s, seq![])
    } else {
        let (s1, e1) = actions_outcome(actions.drop_last(), s);
        let (s2, e2) = action_outcome(actions.last(), s1);
        (s2, e1 + e2)
    }
}

/// The exit actions of the rules of `phase`, in rule order.
pub open spec fn exit_actions(rules: Seq<Rule>, phase: Phase) -> Seq<ActionView>
    decreases rules.len(),
{
    if rules.len() == 0 {
        seq![]
    } else {
        let prev = exit_actions(rules.drop_last(), phase);
        let r = rules.last();
        if r.phase == phase && r.on_exit is Some {
            prev.push(r.on_exit->0@)
        } else {
            prev
        }
    }
}

/// The rules of `phase` as `(index, timeout)` pairs, in rule order.
pub open spec fn active_rules(rules: Seq<Rule>, phase: Phase) -> Seq<(usize, u64)>
    decreases rules.len(),
{
    if rules.len() == 0 {
        seq![]
    } else {
        let prev = active_rules(rules.drop_last(), phase);
        let r = rules.last();
        if r.phase == phase {
            prev.push(((rules.len() - 1) as usize, r.timeout))
        } else {
            prev
        }
    }
}

/// Entering `new_phase` from state `s`: the exit actions of the rules of the
/// phase being left, then the new phase's rules are armed.
pub open spec fn enter_phase_outcome(new_phase: Phase, rules: Seq<Rule>, s: DaemonState) -> (
    DaemonState,
    Seq<EffectView>,
) {
    let (s1, e1) = actions_outcome(exit_actions(rules, s.current_phase), s);
    (
        DaemonState { current_phase: new_phase, ..s1 },
        e1.push(EffectView::SendCommand(active_rules(rules, new_phase))),
    )
}

/// Whether an event names a rule that exists.
pub open spec fn event_in_range(e: Event, n: nat) -> bool {
    match e {
        Event::IdleTimerFired(i) => i < n,
        Event::IdleResumed(i) => i < n,
        _ => true,
    }
}

/// Handling one event in state `s`: the next state and the effects.
pub open spec fn event_outcome(e: Event, rules: Seq<Rule>, s: DaemonState) -> (
    DaemonState,
    Seq<EffectView>,
) {
    match e {
        Event::IdleTimerFired(i) => if rules[i as int].phase == s.current_phase {
            action_outcome(rules[i as int].action@, s)
        } else {
            (s, seq![])
        },
        Event::IdleResumed(i) => if rules[i as int].phase == s.current_phase
            && rules[i as int].on_exit is Some {
            action_outcome(rules[i as int].on_exit->0@, s)
        } else {
            (s, seq![])
        },
        Event::LogindLock => {
            let (s1, e1) = enter_phase_outcome(Phase::Locked, rules, s);
            (s1, e1.push(EffectView::StartLocker))
        },
        Event::LogindUnlock => enter_phase_outcome(Phase::Unlocked, rules, s),
    }
}

/// What follows the screen locker's exit: the session is unlocked only when
/// the locker started and exited successfully.
pub open spec fn locker_exit_outcome(started: bool, success: bool) -> Seq<EffectView> {
    if started && success {
        seq![EffectView::UnlockSession]
    } else {
        seq![]
    }
}

/// Appends `e` to the effects.
fn push_effect(effects: &mut Vec<Effect>, e: Effect)
    ensures
        effects_view(final(effects)@) == effects_view(old(effects)@).push(e@),
{
    effects.push(e);
    assert(effects_view(effects@) == effects_view(old(effects)@).push(e@));
}

/// Whether the rule belongs to the phase the daemon is in.
pub fn rule_applies(rule: &Rule, state: &DaemonState) -> (res: bool)
    ensures
        res == (rule.phase == state.current_phase),
{
    rule.phase == state.current_phase
}

/// Performs one action: updates the state and appends the effects.
pub fn handle_action(action: &Action, state: &mut DaemonState, effects: &mut Vec<Effect>)
    ensures
        *final(state) == action_outcome(action@, *old(state)).0,
        effects_view(final(effects)@) == effects_view(old(effects)@) + action_outcome(
            action@,
            *old(state),
        ).1,
{
    let ghost e0 = effects_view(effects@);
    match action {
        Action::SpawnProcess(argv) => {
            if argv.len() > 0 {
                let words = copy_words(argv);
                push_effect(effects, Effect::SpawnProcess(words));
            }
        },
        Action::LockSession => {
            push_effect(effects, Effect::LockSession);
        },
        Action::DpmsOff => {
            if state.display_on {
                push_effect(effects, Effect::DpmsOff);
                state.display_on = false;
            }
        },
        Action::DpmsOn => {
            if !state.display_on {
                push_effect(effects, Effect::DpmsOn);
                state.display_on = true;
            }
        },
    }
    assert(effects_view(effects@) == e0 + action_outcome(action@, *old(state)).1);
}

/// Appends the command that arms exactly the rules of `phase`.
pub fn send_scope_rules(phase: Phase, rules: &[Rule], effects: &mut Vec<Effect>)
    ensures
        effects_view(final(effects)@) == effects_view(old(effects)@).push(
            EffectView::SendCommand(active_rules(rules@, phase)),
        ),
{
    let mut active: Vec<(usize, u64)> = Vec::new();
    for i in 0..rules.len()
        invariant
            active@ == active_rules(rules@.subrange(0, i as int), phase),
    {
        assert(rules@.subrange(0, i + 1).drop_last() == rules@.subrange(0, i as int));
        if rules[i].phase == phase {
            active.push((i, rules[i].timeout));
        }
    }
    assert(rules@.subrange(0, rules.len() as int) == rules@);
    push_effect(effects, Effect::SendCommand(WlCommand::EnterScope(active)));
}

/// Leaves the current phase for `new_phase`: performs the exit actions of
/// the rules of the phase being left, then arms the rules of the new one.
pub fn enter_scope(new_phase: Phase, rules: &[Rule], state: &mut DaemonState, effects: &mut Vec<Effect>)
    ensures
        *final(state) == enter_phase_outcome(new_phase, rules@, *old(state)).0,
        effects_view(final(effects)@) == effects_view(old(effects)@) + enter_phase_outcome(
            new_phase,
            rules@,
            *old(state),
        ).1,
{
    let ghost s0 = *state;
    let ghost e0 = effects_view(effects@);
    let leaving = state.current_phase;
    for i in 0..rules.len()
        invariant
            leaving == s0.current_phase,
            *state == actions_outcome(exit_actions(rules@.subrange(0, i as int), leaving), s0).0,
            effects_view(effects@) == e0 + actions_outcome(
                exit_actions(rules@.subrange(0, i as int), leaving),
                s0,
            ).1,
    {
        let ghost pre = exit_actions(rules@.subrange(0, i as int), leaving);
        assert(rules@.subrange(0, i + 1).drop_last() == rules@.subrange(0, i as int));
        if rules[i].phase == leaving {
            match &rules[i].on_exit {
                Some(a) => {
                    assert(pre.push(a@).drop_last() == pre);
                    handle_action(a, state, effects);
                },
                None => {},
            }
        }
    }
    assert(rules@.subrange(0, rules.len() as int) == rules@);
    state.current_phase = new_phase;
    send_scope_rules(new_phase, rules, effects);
}

/// Decides what to do once the screen locker is done: `started` tells
/// whether it could be run at all, `success` whether it exited successfully.
pub fn locker_exit_effects(started: bool, success: bool) -> (effects: Vec<Effect>)
    ensures
        effects_view(effects@) == locker_exit_outcome(started, success),
{
    let mut effects: Vec<Effect> = Vec::new();
    assert(effects_view(effects@) == Seq::<EffectView>::empty());
    if started && success {
        push_effect(&mut effects, Effect::UnlockSession);
    }
    effects
}

/// Handles one event: updates the state and returns the effects to carry
/// out, in order.
pub fn handle_event(event: Event, state: &mut DaemonState, rules: &[Rule]) -> (effects: Vec<Effect>)
    requires
        event_in_range(event, rules@.len()),
    ensures
        *final(state) == event_outcome(event, rules@, *old(state)).0,
        effects_view(effects@) == event_outcome(event, rules@, *old(state)).1,
{
    let mut effects: Vec<Effect> = Vec::new();
    assert(effects_view(effects@) == Seq::<EffectView>::empty());
    match event {
        Event::IdleTimerFired(i) => {
            if rule_applies(&rules[i], state) {
                handle_action(&rules[i].action, state, &mut effects);
            }
        },
        Event::IdleResumed(i) => {
            if rule_applies(&rules[i], state) {
                match &rules[i].on_exit {
                    Some(action) => handle_action(action, state, &mut effects),
                    None => {},
                }
            }
        },
        Event::LogindLock => {
            enter_scope(Phase::Locked, rules, state, &mut effects);
            push_effect(&mut effects, Effect::StartLocker);
        },
        Event::LogindUnlock => {
            enter_scope(Phase::Unlocked, rules, state, &mut effects);
        },
    }
    effects
}

} // verus!
