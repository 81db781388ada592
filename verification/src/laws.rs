use vstd::prelude::*;

use crate::daemon::{
    action_outcome, actions_outcome, active_rules, enter_phase_outcome, event_in_range,
    event_outcome, exit_actions, EffectView,
};
use crate::rules::{default_rules, ActionView, Phase, Rule};
use crate::state::{DaemonState, Event};
use crate::wayland::notification_requests;

verus! {

/// Whether the monitors are on after the effects, starting from `on`.
pub open spec fn display_after(on: bool, effects: Seq<EffectView>) -> bool
    decreases effects.len(),
{
    if effects.len() == 0 {
        on
    } else {
        match effects.last() {
            EffectView::DpmsOff => false,
            EffectView::DpmsOn => true,
            _ => display_after(on, effects.drop_last()),
        }
    }
}

/// Whether, starting from `on`, every monitor switch in the effects changes
/// the monitors' state: no "off" while off, no "on" while on.
pub open spec fn switches_only_when_needed(on: bool, effects: Seq<EffectView>) -> bool
    decreases effects.len(),
{
    if effects.len() == 0 {
        true
    } else {
        let prev = effects.drop_last();
        let was_on = display_after(on, prev);
        &&& switches_only_when_needed(on, prev)
        &&& (effects.last() is DpmsOff ==> was_on)
        &&& (effects.last() is DpmsOn ==> !was_on)
    }
}

/// Whether an effect re-arms timers or starts the locker.
pub open spec fn is_phase_effect(e: EffectView) -> bool {
    e is SendCommand || e is StartLocker
}

/// The monitor switches among the effects, in order.
pub open spec fn monitor_switches(effects: Seq<EffectView>) -> Seq<EffectView>
    decreases effects.len(),
{
    if effects.len() == 0 {
        seq![]
    } else {
        let prev = monitor_switches(effects.drop_last());
        if effects.last() is DpmsOff || effects.last() is DpmsOn {
            prev.push(effects.last())
        } else {
            prev
        }
    }
}

/// Switches that only change what needs changing alternate: starting with
/// the monitors on, "off" comes at even positions and "on" at odd ones (the
/// other way round when starting off), and the monitors end up in the
/// starting state exactly when the number of switches is even.
proof fn lemma_switches_alternate(on: bool, effects: Seq<EffectView>)
    requires
        switches_only_when_needed(on, effects),
    ensures
        forall|k: int|
            0 <= k < monitor_switches(effects).len() ==> {
                let sw = #[trigger] monitor_switches(effects)[k];
                &&& (sw is DpmsOff || sw is DpmsOn)
                &&& (sw is DpmsOff) == ((k % 2 == 0) == on)
            },
        display_after(on, effects) == (on == (monitor_switches(effects).len() % 2 == 0)),
    decreases effects.len(),
{
    if effects.len() > 0 {
        lemma_switches_alternate(on, effects.drop_last());
    }
}

proof fn lemma_display_concat(on: bool, a: Seq<EffectView>, b: Seq<EffectView>)
    ensures
        display_after(on, a + b) == display_after(display_after(on, a), b),
        switches_only_when_needed(on, a + b) == (switches_only_when_needed(on, a)
            && switches_only_when_needed(display_after(on, a), b)),
    decreases b.len(),
{
    if b.len() == 0 {
        assert(a + b == a);
    } else {
        lemma_display_concat(on, a, b.drop_last());
        assert((a + b).drop_last() == a + b.drop_last());
        assert((a + b).last() == b.last());
    }
}

proof fn lemma_action_display(a: ActionView, s: DaemonState)
    ensures
        switches_only_when_needed(s.display_on, action_outcome(a, s).1),
        action_outcome(a, s).0.display_on == display_after(s.display_on, action_outcome(a, s).1),
        action_outcome(a, s).0.current_phase == s.current_phase,
        forall|k: int|
            0 <= k < action_outcome(a, s).1.len() ==> !is_phase_effect(
                #[trigger] action_outcome(a, s).1[k],
            ),
{
    let e = action_outcome(a, s).1;
    if e.len() == 1 {
        assert(e.drop_last() == Seq::<EffectView>::empty());
        assert(display_after(s.display_on, e.drop_last()) == s.display_on);
        assert(e.last() == e[0]);
        assert(switches_only_when_needed(s.display_on, e.drop_last()));
    }
}

proof fn lemma_actions_display(actions: Seq<ActionView>, s: DaemonState)
    ensures
        switches_only_when_needed(s.display_on, actions_outcome(actions, s).1),
        actions_outcome(actions, s).0.display_on == display_after(
            s.display_on,
            actions_outcome(actions, s).1,
        ),
        actions_outcome(actions, s).0.current_phase == s.current_phase,
        forall|k: int|
            0 <= k < actions_outcome(actions, s).1.len() ==> !is_phase_effect(
                #[trigger] actions_outcome(actions, s).1[k],
            ),
    decreases actions.len(),
{
    if actions.len() > 0 {
        lemma_actions_display(actions.drop_last(), s);
        let (s1, e1) = actions_outcome(actions.drop_last(), s);
        lemma_action_display(actions.last(), s1);
        let e2 = action_outcome(actions.last(), s1).1;
        lemma_display_concat(s.display_on, e1, e2);
        let e = e1 + e2;
        assert forall|k: int| 0 <= k < e.len() implies !is_phase_effect(#[trigger] e[k]) by {
            if k < e1.len() {
                assert(e[k] == e1[k]);
            } else {
                assert(e[k] == e2[k - e1.len()]);
            }
        }
    }
}

proof fn lemma_enter_phase_display(new_phase: Phase, rules: Seq<Rule>, s: DaemonState)
    ensures
        switches_only_when_needed(s.display_on, enter_phase_outcome(new_phase, rules, s).1),
        enter_phase_outcome(new_phase, rules, s).0.display_on == display_after(
            s.display_on,
            enter_phase_outcome(new_phase, rules, s).1,
        ),
        enter_phase_outcome(new_phase, rules, s).0.current_phase == new_phase,
        ({
            let e = enter_phase_outcome(new_phase, rules, s).1;
            &&& e.len() >= 1
            &&& e.last() == EffectView::SendCommand(active_rules(rules, new_phase))
            &&& forall|k: int| 0 <= k < e.len() - 1 ==> !is_phase_effect(#[trigger] e[k])
        }),
{
    let acts = exit_actions(rules, s.current_phase);
    lemma_actions_display(acts, s);
    let e1 = actions_outcome(acts, s).1;
    let e = e1.push(EffectView::SendCommand(active_rules(rules, new_phase)));
    lemma_display_concat(s.display_on, e1, seq![EffectView::SendCommand(active_rules(rules, new_phase))]);
    assert(e == e1 + seq![EffectView::SendCommand(active_rules(rules, new_phase))]);
    let one = seq![EffectView::SendCommand(active_rules(rules, new_phase))];
    assert(one.drop_last() == Seq::<EffectView>::empty());
    let d = display_after(s.display_on, e1);
    assert(display_after(d, one.drop_last()) == d);
    assert(display_after(d, one) == d);
    assert(switches_only_when_needed(d, one.drop_last()));
    assert(switches_only_when_needed(d, one));
    assert(enter_phase_outcome(new_phase, rules, s).1 == e);
    assert forall|k: int| 0 <= k < e.len() - 1 implies !is_phase_effect(#[trigger] e[k]) by {
        assert(e[k] == e1[k]);
    }
}

/// The daemon's idea of the monitors never drifts from what it has told the
/// compositor: over the effects of any event, every monitor switch changes
/// the monitors' state (no redundant "off" or "on"), so the switches
/// alternate, and the new state's `display_on` is what those switches leave.
pub proof fn law_display_tracks_switches(e: Event, rules: Seq<Rule>, s: DaemonState)
    requires
        event_in_range(e, rules.len()),
    ensures
        switches_only_when_needed(s.display_on, event_outcome(e, rules, s).1),
        event_outcome(e, rules, s).0.display_on == display_after(
            s.display_on,
            event_outcome(e, rules, s).1,
        ),
        forall|k: int|
            0 <= k < monitor_switches(event_outcome(e, rules, s).1).len() ==> (
            #[trigger] monitor_switches(event_outcome(e, rules, s).1)[k] is DpmsOff) == ((k % 2
                == 0) == s.display_on),
{
    lemma_event_display(e, rules, s);
    lemma_switches_alternate(s.display_on, event_outcome(e, rules, s).1);
}

proof fn lemma_event_display(e: Event, rules: Seq<Rule>, s: DaemonState)
    requires
        event_in_range(e, rules.len()),
    ensures
        switches_only_when_needed(s.display_on, event_outcome(e, rules, s).1),
        event_outcome(e, rules, s).0.display_on == display_after(
            s.display_on,
            event_outcome(e, rules, s).1,
        ),
{
    match e {
        Event::IdleTimerFired(i) => {
            lemma_action_display(rules[i as int].action@, s);
        },
        Event::IdleResumed(i) => {
            if rules[i as int].on_exit is Some {
                lemma_action_display(rules[i as int].on_exit->0@, s);
            }
        },
        Event::LogindLock => {
            lemma_enter_phase_display(Phase::Locked, rules, s);
            let e1 = enter_phase_outcome(Phase::Locked, rules, s).1;
            lemma_display_concat(s.display_on, e1, seq![EffectView::StartLocker]);
            assert(e1.push(EffectView::StartLocker) == e1 + seq![EffectView::StartLocker]);
            let one = seq![EffectView::StartLocker];
            assert(one.drop_last() == Seq::<EffectView>::empty());
            let d = display_after(s.display_on, e1);
            assert(display_after(d, one.drop_last()) == d);
            assert(display_after(d, one) == d);
            assert(switches_only_when_needed(d, one.drop_last()));
            assert(switches_only_when_needed(d, one));
            assert(event_outcome(e, rules, s).1 == e1.push(EffectView::StartLocker));
        },
        Event::LogindUnlock => {
            lemma_enter_phase_display(Phase::Unlocked, rules, s);
        },
    }
}

/// Monitor requests made by a run of actions (each performed as
/// `handle_action` does) never repeat: from any state, every switch changes
/// the monitors' state, the switches alternate (starting with "off" when the
/// monitors start on, as they do in `DaemonState::new()`), and afterwards
/// `display_on` is off exactly when the last switch was "off" (unchanged
/// when there was none).
pub proof fn law_actions_switch_alternately(actions: Seq<ActionView>, s: DaemonState)
    ensures
        ({
            let (s1, effects) = actions_outcome(actions, s);
            let sw = monitor_switches(effects);
            &&& switches_only_when_needed(s.display_on, effects)
            &&& s1.display_on == display_after(s.display_on, effects)
            &&& forall|k: int|
                0 <= k < sw.len() ==> ((#[trigger] sw[k] is DpmsOff || sw[k] is DpmsOn) && (sw[k] is DpmsOff) == ((k % 2 == 0) == s.display_on))
            &&& s1.display_on == if sw.len() == 0 {
                s.display_on
            } else {
                sw.last() is DpmsOn
            }
        }),
{
    lemma_actions_display(actions, s);
    let effects = actions_outcome(actions, s).1;
    lemma_switches_alternate(s.display_on, effects);
    let sw = monitor_switches(effects);
    if sw.len() > 0 {
        assert(sw.last() == sw[sw.len() - 1]);
    }
}

/// The session's lock state alone decides the phase: a logind lock puts the
/// daemon in the locked phase, an unlock in the unlocked one, and idle
/// events never change it.
pub proof fn law_phase_follows_session(e: Event, rules: Seq<Rule>, s: DaemonState)
    requires
        event_in_range(e, rules.len()),
    ensures
        event_outcome(e, rules, s).0.current_phase == match e {
            Event::LogindLock => Phase::Locked,
            Event::LogindUnlock => Phase::Unlocked,
            _ => s.current_phase,
        },
{
    match e {
        Event::IdleTimerFired(i) => {
            lemma_action_display(rules[i as int].action@, s);
        },
        Event::IdleResumed(i) => {
            if rules[i as int].on_exit is Some {
                lemma_action_display(rules[i as int].on_exit->0@, s);
            }
        },
        Event::LogindLock => {
            lemma_enter_phase_display(Phase::Locked, rules, s);
        },
        Event::LogindUnlock => {
            lemma_enter_phase_display(Phase::Unlocked, rules, s);
        },
    }
}

/// Timers are aware of the lock state: a lock or unlock re-arms exactly the
/// rules of the phase entered, once, after the exit actions of the phase
/// left (and a lock then starts the locker); idle events never re-arm
/// timers nor start the locker.
pub proof fn law_rearm_on_phase_change(e: Event, rules: Seq<Rule>, s: DaemonState)
    requires
        event_in_range(e, rules.len()),
    ensures
        ({
            let effects = event_outcome(e, rules, s).1;
            match e {
                Event::LogindLock => {
                    &&& effects.len() >= 2
                    &&& effects[effects.len() - 2] == EffectView::SendCommand(
                        active_rules(rules, Phase::Locked),
                    )
                    &&& effects.last() == EffectView::StartLocker
                    &&& forall|k: int|
                        0 <= k < effects.len() - 2 ==> !is_phase_effect(#[trigger] effects[k])
                },
                Event::LogindUnlock => {
                    &&& effects.len() >= 1
                    &&& effects.last() == EffectView::SendCommand(
                        active_rules(rules, Phase::Unlocked),
                    )
                    &&& forall|k: int|
                        0 <= k < effects.len() - 1 ==> !is_phase_effect(#[trigger] effects[k])
                },
                _ => forall|k: int|
                    0 <= k < effects.len() ==> !is_phase_effect(#[trigger] effects[k]),
            }
        }),
{
    match e {
        Event::IdleTimerFired(i) => {
            lemma_action_display(rules[i as int].action@, s);
        },
        Event::IdleResumed(i) => {
            if rules[i as int].on_exit is Some {
                lemma_action_display(rules[i as int].on_exit->0@, s);
            }
        },
        Event::LogindLock => {
            lemma_enter_phase_display(Phase::Locked, rules, s);
            let e1 = enter_phase_outcome(Phase::Locked, rules, s).1;
            let effects = e1.push(EffectView::StartLocker);
            assert forall|k: int| 0 <= k < effects.len() - 2 implies !is_phase_effect(
                #[trigger] effects[k],
            ) by {
                assert(effects[k] == e1[k]);
            }
        },
        Event::LogindUnlock => {
            lemma_enter_phase_display(Phase::Unlocked, rules, s);
        },
    }
}

/// An idle event for a rule of the other phase changes nothing and does nothing.
pub proof fn law_other_phase_ignored(i: usize, rules: Seq<Rule>, s: DaemonState)
    requires
        i < rules.len(),
        rules[i as int].phase != s.current_phase,
    ensures
        event_outcome(Event::IdleTimerFired(i), rules, s) == (s, Seq::<EffectView>::empty()),
        event_outcome(Event::IdleResumed(i), rules, s) == (s, Seq::<EffectView>::empty()),
{
}

/// A monitor rule that fires twice in a row acts only once: the second time
/// the state stays as it is and nothing is done.
pub proof fn law_monitor_rule_idempotent(i: usize, rules: Seq<Rule>, s: DaemonState)
    requires
        i < rules.len(),
        rules[i as int].action@ is DpmsOff || rules[i as int].action@ is DpmsOn,
    ensures
        ({
            let first = event_outcome(Event::IdleTimerFired(i), rules, s).0;
            event_outcome(Event::IdleTimerFired(i), rules, first) == (
                first,
                Seq::<EffectView>::empty(),
            )
        }),
{
}

/// The rules armed for a phase are exactly the rules of that phase, each
/// with its own timeout, listed once each in rule order.
pub proof fn law_active_rules_exact(rules: Seq<Rule>, phase: Phase)
    requires
        rules.len() <= usize::MAX,
    ensures
        forall|k: int|
            0 <= k < active_rules(rules, phase).len() ==> {
                let (i, t) = #[trigger] active_rules(rules, phase)[k];
                &&& i < rules.len()
                &&& rules[i as int].phase == phase
                &&& t == rules[i as int].timeout
            },
        forall|k1: int, k2: int|
            0 <= k1 < k2 < active_rules(rules, phase).len() ==> (#[trigger] active_rules(
                rules,
                phase,
            )[k1]).0 < (#[trigger] active_rules(rules, phase)[k2]).0,
        forall|i: int|
            0 <= i < rules.len() && (#[trigger] rules[i]).phase == phase ==> exists|k: int|
                0 <= k < active_rules(rules, phase).len() && (#[trigger] active_rules(
                    rules,
                    phase,
                )[k]).0 == i,
    decreases rules.len(),
{
    if rules.len() > 0 {
        let prev_rules = rules.drop_last();
        law_active_rules_exact(prev_rules, phase);
        let prev = active_rules(prev_rules, phase);
        let a = active_rules(rules, phase);
        let n = (rules.len() - 1) as int;
        assert forall|k: int| 0 <= k < prev.len() implies (#[trigger] prev[k]).0 < n by {}
        assert forall|k: int| 0 <= k < a.len() implies {
            let (i, t) = #[trigger] a[k];
            &&& i < rules.len()
            &&& rules[i as int].phase == phase
            &&& t == rules[i as int].timeout
        } by {
            if k < prev.len() {
                assert(a[k] == prev[k]);
                assert(rules[prev[k].0 as int] == prev_rules[prev[k].0 as int]);
            }
        }
        assert forall|k1: int, k2: int| 0 <= k1 < k2 < a.len() implies (#[trigger] a[k1]).0 < (
        #[trigger] a[k2]).0 by {
            assert(a[k1] == prev[k1]);
            if k2 < prev.len() {
                assert(a[k2] == prev[k2]);
            }
        }
        assert forall|i: int| 0 <= i < rules.len() && (#[trigger] rules[i]).phase == phase implies exists|
            k: int,
        | 0 <= k < a.len() && (#[trigger] a[k]).0 == i by {
            if i < n {
                assert(prev_rules[i] == rules[i]);
                let k = choose|k: int| 0 <= k < prev.len() && (#[trigger] prev[k]).0 == i;
                assert(a[k] == prev[k]);
            } else {
                assert(a[a.len() - 1].0 == i);
            }
        }
    }
}

/// With the daemon's own rule set, every lock and every unlock leaves the
/// monitors on, whatever state the daemon was in.
pub proof fn law_default_rules_wake_display(s: DaemonState)
    ensures
        event_outcome(Event::LogindLock, default_rules(), s).0.display_on,
        event_outcome(Event::LogindUnlock, default_rules(), s).0.display_on,
{
    let r = default_rules();
    assert(r.drop_last().drop_last().drop_last() == Seq::<Rule>::empty());
    assert(exit_actions(r, Phase::Unlocked) == seq![ActionView::DpmsOn]) by {
        assert(exit_actions(r.drop_last().drop_last().drop_last(), Phase::Unlocked) == Seq::<ActionView>::empty());
        assert(exit_actions(r.drop_last().drop_last(), Phase::Unlocked) == seq![ActionView::DpmsOn]);
        assert(exit_actions(r.drop_last(), Phase::Unlocked) == seq![ActionView::DpmsOn]);
    }
    assert(exit_actions(r, Phase::Locked) == seq![ActionView::DpmsOn]) by {
        assert(exit_actions(r.drop_last().drop_last().drop_last(), Phase::Locked) == Seq::<ActionView>::empty());
        assert(exit_actions(r.drop_last().drop_last(), Phase::Locked) == Seq::<ActionView>::empty());
        assert(exit_actions(r.drop_last(), Phase::Locked) == Seq::<ActionView>::empty());
    }
    let one = seq![ActionView::DpmsOn];
    assert(one.drop_last() == Seq::<ActionView>::empty());
    assert(actions_outcome(one, s).0.display_on);
}

/// What each action does, from any state: a program with a non-empty
/// command line is started and a lock is requested whatever the monitors'
/// state, an empty command line does nothing, and the monitors are switched
/// off (on) only when they are on (off), which is then recorded; nothing but
/// `display_on` ever changes.
pub proof fn law_action_semantics(a: ActionView, s: DaemonState)
    ensures
        a matches ActionView::SpawnProcess(argv) ==> (action_outcome(a, s) == (
            s,
            (if argv.len() > 0 {
                seq![EffectView::SpawnProcess(argv)]
            } else {
                Seq::<EffectView>::empty()
            }),
        )),
        a is LockSession ==> action_outcome(a, s) == (s, seq![EffectView::LockSession]),
        a is DpmsOff ==> (action_outcome(a, s).0 == (DaemonState {
            display_on: false,
            current_phase: s.current_phase,
        })),
        a is DpmsOff ==> (action_outcome(a, s).1 == (if s.display_on {
            seq![EffectView::DpmsOff]
        } else {
            Seq::<EffectView>::empty()
        })),
        a is DpmsOn ==> (action_outcome(a, s).0 == (DaemonState {
            display_on: true,
            current_phase: s.current_phase,
        })),
        a is DpmsOn ==> (action_outcome(a, s).1 == (if s.display_on {
            Seq::<EffectView>::empty()
        } else {
            seq![EffectView::DpmsOn]
        })),
        action_outcome(a, s).0.current_phase == s.current_phase,
{
}

/// Only monitor actions look at the monitors: any other action does the
/// same thing, and leaves the same state, in two states that differ only
/// in `display_on`.
pub proof fn law_non_monitor_actions_ignore_display(a: ActionView, s: DaemonState, t: DaemonState)
    requires
        !(a is DpmsOff || a is DpmsOn),
        s.current_phase == t.current_phase,
    ensures
        action_outcome(a, s).1 == action_outcome(a, t).1,
        action_outcome(a, s).0 == s,
        action_outcome(a, t).0 == t,
{
}

/// An idle timer of a rule of the current phase performs exactly that
/// rule's action, whatever the monitors' state: the same outcome as the
/// action taken on its own. In particular a lock rule always asks logind
/// to lock, and changes nothing else.
pub proof fn law_idle_timer_performs_rule_action(i: usize, rules: Seq<Rule>, s: DaemonState)
    requires
        i < rules.len(),
        rules[i as int].phase == s.current_phase,
    ensures
        event_outcome(Event::IdleTimerFired(i), rules, s) == action_outcome(
            rules[i as int].action@,
            s,
        ),
        rules[i as int].action@ is LockSession ==> event_outcome(Event::IdleTimerFired(i), rules, s)
            == (s, seq![EffectView::LockSession]),
{
}

/// When the user comes back, a rule of the current phase (locked or
/// unlocked alike) performs exactly its exit action, whatever the
/// monitors' state; a rule without one does nothing. In particular an exit
/// action that powers the monitors on does so whenever they are off.
pub proof fn law_resume_performs_exit_action(i: usize, rules: Seq<Rule>, s: DaemonState)
    requires
        i < rules.len(),
        rules[i as int].phase == s.current_phase,
    ensures
        rules[i as int].on_exit matches Some(a) ==> event_outcome(Event::IdleResumed(i), rules, s)
            == action_outcome(a@, s),
        rules[i as int].on_exit is None ==> event_outcome(Event::IdleResumed(i), rules, s) == (
            s,
            Seq::<EffectView>::empty(),
        ),
        (rules[i as int].on_exit matches Some(a) && a@ is DpmsOn && !s.display_on) ==> event_outcome(
            Event::IdleResumed(i),
            rules,
            s,
        ) == ((DaemonState { display_on: true, ..s }), seq![EffectView::DpmsOn]),
{
}

/// The notification requests follow the command entry by entry: the same
/// rule index at the same position, and the timeout in milliseconds
/// unchanged when it fits in 32 bits (reduced modulo 2^32 otherwise).
pub proof fn law_notification_timeouts(rules: Seq<(usize, u64)>)
    ensures
        notification_requests(rules).len() == rules.len(),
        forall|k: int|
            0 <= k < rules.len() ==> (#[trigger] notification_requests(rules)[k]).0 == rules[k].0
                && notification_requests(rules)[k].1 as int == rules[k].1 as int % 0x1_0000_0000,
        forall|k: int|
            0 <= k < rules.len() && rules[k].1 <= u32::MAX ==> (
            #[trigger] notification_requests(rules)[k]).1 == rules[k].1,
{
}

/// Collecting exit actions splits over the rule list: the exit actions of
/// two lists one after the other are those of the first, then those of the
/// second.
pub proof fn law_exit_actions_concat(r1: Seq<Rule>, r2: Seq<Rule>, phase: Phase)
    ensures
        exit_actions(r1 + r2, phase) == exit_actions(r1, phase) + exit_actions(r2, phase),
    decreases r2.len(),
{
    if r2.len() == 0 {
        assert(r1 + r2 == r1);
    } else {
        law_exit_actions_concat(r1, r2.drop_last(), phase);
        assert((r1 + r2).drop_last() == r1 + r2.drop_last());
    }
}

/// A single rule contributes its exit action exactly when it belongs to the
/// phase being left and has one.
pub proof fn law_exit_actions_single(r: Rule, phase: Phase)
    ensures
        exit_actions(seq![r], phase) == (if r.phase == phase && r.on_exit is Some {
            seq![r.on_exit->0@]
        } else {
            Seq::<ActionView>::empty()
        }),
{
    assert(seq![r].drop_last() == Seq::<Rule>::empty());
    assert(seq![r].last() == r);
    assert(exit_actions(Seq::<Rule>::empty(), phase) == Seq::<ActionView>::empty());
    if r.phase == phase && r.on_exit is Some {
        assert(Seq::<ActionView>::empty().push(r.on_exit->0@) == seq![r.on_exit->0@]);
    }
}

/// Performing a list of actions is performing them one at a time: the first
/// part from the starting state, the second from where the first left off,
/// effects in that order; a single action is performed as on its own.
pub proof fn law_actions_compose(a: Seq<ActionView>, b: Seq<ActionView>, s: DaemonState)
    ensures
        actions_outcome(a + b, s) == ({
            let (s1, e1) = actions_outcome(a, s);
            let (s2, e2) = actions_outcome(b, s1);
            (s2, e1 + e2)
        }),
        a.len() == 1 ==> actions_outcome(a, s) == action_outcome(a[0], s),
    decreases b.len(),
{
    if b.len() == 0 {
        assert(a + b == a);
        assert(actions_outcome(a, s).1 + Seq::<EffectView>::empty() == actions_outcome(a, s).1);
    } else {
        law_actions_compose(a, b.drop_last(), s);
        assert((a + b).drop_last() == a + b.drop_last());
        let (s1, e1) = actions_outcome(a, s);
        let (s2, e2) = actions_outcome(b.drop_last(), s1);
        let (s3, e3) = action_outcome(b.last(), s2);
        assert(e1 + e2 + e3 == e1 + (e2 + e3));
    }
    if a.len() == 1 {
        assert(a.drop_last() == Seq::<ActionView>::empty());
        assert(a.last() == a[0]);
        assert(actions_outcome(a.drop_last(), s) == (s, Seq::<EffectView>::empty()));
        assert(Seq::<EffectView>::empty() + action_outcome(a[0], s).1 == action_outcome(a[0], s).1);
        assert(actions_outcome(a, s).1 == action_outcome(a[0], s).1);
        assert(actions_outcome(a, s).0 == action_outcome(a[0], s).0);
    }
}

/// A lock or unlock first performs, from the current state, the exit
/// actions of the rules of the phase being left (never those of the phase
/// entered), then re-arms; the monitors end as those exit actions leave them.
pub proof fn law_phase_change_runs_exit_actions(e: Event, rules: Seq<Rule>, s: DaemonState)
    requires
        e is LogindLock || e is LogindUnlock,
    ensures
        ({
            let (s1, effects) = event_outcome(e, rules, s);
            let (x, exits) = actions_outcome(exit_actions(rules, s.current_phase), s);
            let new_phase = if e is LogindLock {
                Phase::Locked
            } else {
                Phase::Unlocked
            };
            &&& s1 == (DaemonState { display_on: x.display_on, current_phase: new_phase })
            &&& effects.len() >= exits.len() + 1
            &&& effects.subrange(0, exits.len() as int) == exits
            &&& effects[exits.len() as int] == EffectView::SendCommand(active_rules(rules, new_phase))
        }),
{
    let exits = actions_outcome(exit_actions(rules, s.current_phase), s).1;
    let effects = event_outcome(e, rules, s).1;
    assert(effects.subrange(0, exits.len() as int) == exits);
}

} // verus!
