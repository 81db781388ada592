use isaidle::daemon::{
    enter_scope, handle_action, handle_event, locker_exit_effects, rule_applies, send_scope_rules, Effect,
};
use isaidle::rules::{build_rules, copy_words, Action, Phase, Rule};
use isaidle::state::{DaemonState, Event};
use isaidle::wayland::WlCommand;

fn armed(effect: &Effect) -> Vec<(usize, u64)> {
    match effect {
        Effect::SendCommand(WlCommand::EnterScope(v)) => v.clone(),
        other => panic!("expected a command, got {:?}", other),
    }
}

#[test]
fn new_state_is_unlocked_with_display_on() {
    let s = DaemonState::new();
    assert!(s.display_on);
    assert_eq!(s.current_phase, Phase::Unlocked);
}

#[test]
fn build_rules_gives_the_three_default_rules() {
    let rules = build_rules();
    assert_eq!(rules.len(), 3);
    assert_eq!(rules[0].phase, Phase::Unlocked);
    assert_eq!(rules[0].timeout, 30_000);
    assert!(matches!(rules[0].action, Action::DpmsOff));
    assert!(matches!(rules[0].on_exit, Some(Action::DpmsOn)));
    assert_eq!(rules[1].phase, Phase::Unlocked);
    assert_eq!(rules[1].timeout, 60_000);
    assert!(matches!(rules[1].action, Action::LockSession));
    assert!(rules[1].on_exit.is_none());
    assert_eq!(rules[2].phase, Phase::Locked);
    assert_eq!(rules[2].timeout, 10_000);
    assert!(matches!(rules[2].action, Action::DpmsOff));
    assert!(matches!(rules[2].on_exit, Some(Action::DpmsOn)));
}

#[test]
fn initial_arming_lists_unlocked_rules() {
    let rules = build_rules();
    let mut effects = Vec::new();
    send_scope_rules(Phase::Unlocked, &rules, &mut effects);
    assert_eq!(effects.len(), 1);
    assert_eq!(armed(&effects[0]), vec![(0, 30_000), (1, 60_000)]);
    let mut effects = Vec::new();
    send_scope_rules(Phase::Locked, &rules, &mut effects);
    assert_eq!(armed(&effects[0]), vec![(2, 10_000)]);
}

#[test]
fn idle_timer_turns_display_off_once() {
    let rules = build_rules();
    let mut s = DaemonState::new();
    let effects = handle_event(Event::IdleTimerFired(0), &mut s, &rules);
    assert_eq!(effects.len(), 1);
    assert!(matches!(effects[0], Effect::DpmsOff));
    assert!(!s.display_on);
    // firing again does nothing
    let effects = handle_event(Event::IdleTimerFired(0), &mut s, &rules);
    assert!(effects.is_empty());
    assert!(!s.display_on);
    assert_eq!(s.current_phase, Phase::Unlocked);
}

#[test]
fn resume_turns_display_back_on() {
    let rules = build_rules();
    let mut s = DaemonState::new();
    handle_event(Event::IdleTimerFired(0), &mut s, &rules);
    let effects = handle_event(Event::IdleResumed(0), &mut s, &rules);
    assert_eq!(effects.len(), 1);
    assert!(matches!(effects[0], Effect::DpmsOn));
    assert!(s.display_on);
    // resuming from a rule without an exit action does nothing
    let effects = handle_event(Event::IdleResumed(1), &mut s, &rules);
    assert!(effects.is_empty());
}

#[test]
fn lock_rule_asks_logind_every_time() {
    let rules = build_rules();
    let mut s = DaemonState::new();
    for _ in 0..2 {
        let effects = handle_event(Event::IdleTimerFired(1), &mut s, &rules);
        assert_eq!(effects.len(), 1);
        assert!(matches!(effects[0], Effect::LockSession));
        assert_eq!(s.current_phase, Phase::Unlocked);
    }
}

#[test]
fn rules_of_the_other_phase_are_ignored() {
    let rules = build_rules();
    let mut s = DaemonState::new();
    let before = s;
    let effects = handle_event(Event::IdleTimerFired(2), &mut s, &rules);
    assert!(effects.is_empty());
    assert_eq!(s, before);
    let effects = handle_event(Event::IdleResumed(2), &mut s, &rules);
    assert!(effects.is_empty());
    assert_eq!(s, before);
    assert!(!rule_applies(&rules[2], &s));
    assert!(rule_applies(&rules[0], &s));
}

#[test]
fn lock_runs_exit_actions_rearms_and_starts_locker() {
    let rules = build_rules();
    let mut s = DaemonState::new();
    handle_event(Event::IdleTimerFired(0), &mut s, &rules);
    let effects = handle_event(Event::LogindLock, &mut s, &rules);
    assert_eq!(effects.len(), 3);
    assert!(matches!(effects[0], Effect::DpmsOn));
    assert_eq!(armed(&effects[1]), vec![(2, 10_000)]);
    assert!(matches!(effects[2], Effect::StartLocker));
    assert_eq!(s, DaemonState { display_on: true, current_phase: Phase::Locked });
}

#[test]
fn lock_with_display_on_skips_redundant_switch() {
    let rules = build_rules();
    let mut s = DaemonState::new();
    let effects = handle_event(Event::LogindLock, &mut s, &rules);
    assert_eq!(effects.len(), 2);
    assert_eq!(armed(&effects[0]), vec![(2, 10_000)]);
    assert!(matches!(effects[1], Effect::StartLocker));
}

#[test]
fn unlock_returns_to_unlocked_rules() {
    let rules = build_rules();
    let mut s = DaemonState::new();
    handle_event(Event::LogindLock, &mut s, &rules);
    handle_event(Event::IdleTimerFired(2), &mut s, &rules);
    assert!(!s.display_on);
    let effects = handle_event(Event::LogindUnlock, &mut s, &rules);
    assert_eq!(effects.len(), 2);
    assert!(matches!(effects[0], Effect::DpmsOn));
    assert_eq!(armed(&effects[1]), vec![(0, 30_000), (1, 60_000)]);
    assert_eq!(s, DaemonState { display_on: true, current_phase: Phase::Unlocked });
}

#[test]
fn spawn_action_copies_argv_and_skips_empty_command() {
    let mut s = DaemonState::new();
    let mut effects = Vec::new();
    let argv = vec!["notify-send".to_string(), "idle".to_string()];
    handle_action(&Action::SpawnProcess(argv), &mut s, &mut effects);
    assert_eq!(effects.len(), 1);
    match &effects[0] {
        Effect::SpawnProcess(words) => assert_eq!(words, &vec!["notify-send".to_string(), "idle".to_string()]),
        other => panic!("unexpected {:?}", other),
    }
    handle_action(&Action::SpawnProcess(Vec::new()), &mut s, &mut effects);
    assert_eq!(effects.len(), 1);
    assert_eq!(s, DaemonState::new());
}

#[test]
fn enter_scope_runs_exit_actions_in_rule_order() {
    let rules = vec![
        Rule { phase: Phase::Unlocked, timeout: 5, action: Action::DpmsOff, on_exit: Some(Action::LockSession) },
        Rule { phase: Phase::Locked, timeout: 7, action: Action::DpmsOff, on_exit: Some(Action::DpmsOff) },
        Rule {
            phase: Phase::Unlocked,
            timeout: 9,
            action: Action::LockSession,
            on_exit: Some(Action::SpawnProcess(vec!["true".to_string()])),
        },
    ];
    let mut s = DaemonState::new();
    let mut effects = Vec::new();
    enter_scope(Phase::Locked, &rules, &mut s, &mut effects);
    assert_eq!(effects.len(), 3);
    assert!(matches!(effects[0], Effect::LockSession));
    assert!(matches!(&effects[1], Effect::SpawnProcess(w) if w == &vec!["true".to_string()]));
    assert_eq!(armed(&effects[2]), vec![(1, 7)]);
    assert_eq!(s.current_phase, Phase::Locked);
    assert!(s.display_on);
}

#[test]
fn copy_words_keeps_every_word() {
    let words = vec!["a".to_string(), "bc".to_string(), String::new()];
    assert_eq!(copy_words(&words), words);
    assert!(copy_words(&Vec::new()).is_empty());
}

#[test]
fn locker_exit_unlocks_only_after_success() {
    let effects = locker_exit_effects(true, true);
    assert_eq!(effects.len(), 1);
    assert!(matches!(effects[0], Effect::UnlockSession));
    assert!(locker_exit_effects(true, false).is_empty());
    assert!(locker_exit_effects(false, false).is_empty());
    assert!(locker_exit_effects(false, true).is_empty());
}

#[test]
fn action_runs_alternate_monitor_switches() {
    let actions = [
        Action::DpmsOn,
        Action::DpmsOff,
        Action::DpmsOff,
        Action::LockSession,
        Action::DpmsOff,
        Action::DpmsOn,
        Action::DpmsOn,
        Action::DpmsOff,
    ];
    let mut s = DaemonState::new();
    let mut effects = Vec::new();
    for a in actions.iter() {
        handle_action(a, &mut s, &mut effects);
        let last_switch = effects.iter().rev().find(|e| matches!(e, Effect::DpmsOff | Effect::DpmsOn));
        match last_switch {
            Some(Effect::DpmsOff) => assert!(!s.display_on),
            _ => assert!(s.display_on),
        }
    }
    let switches: Vec<bool> = effects
        .iter()
        .filter_map(|e| match e {
            Effect::DpmsOff => Some(false),
            Effect::DpmsOn => Some(true),
            _ => None,
        })
        .collect();
    assert_eq!(switches, vec![false, true, false]);
    assert!(!s.display_on);
    assert_eq!(effects.len(), 4);
    assert!(matches!(effects[1], Effect::LockSession));
}
