use vstd::prelude::*;

verus! {

/// Whether the login session is locked; every rule belongs to one phase.
#[derive(Debug, Clone, Copy, PartialEq, Eq, Structural)]
pub enum Phase {
    Locked,
    Unlocked,
}

/// What a rule does when its idle timer fires (or when the user comes back).
#[derive(Debug, Clone)]
pub enum Action {
    /// Run a program; the first word is the binary, the rest its arguments.
    SpawnProcess(Vec<String>),
    /// Ask logind to lock the session.
    LockSession,
    /// Power the monitors off.
    DpmsOff,
    /// Power the monitors on.
    DpmsOn,
}

/// Mathematical model of an [`Action`]: the program's words as character sequences.
pub enum ActionView {
    SpawnProcess(Seq<Seq<char>>),
    LockSession,
    DpmsOff,
    DpmsOn,
}

/// The words of a command line, each taken by its characters.
pub open spec fn words_view(words: Seq<String>) -> Seq<Seq<char>> {
    words.map_values(|w: String| w@)
}

impl View for Action {
    type V = ActionView;

    open spec fn view(&self) -> ActionView {
        match self {
            Action::SpawnProcess(argv) => ActionView::SpawnProcess(words_view(argv@)),
            Action::LockSession => ActionView::LockSession,
            Action::DpmsOff => ActionView::DpmsOff,
            Action::DpmsOn => ActionView::DpmsOn,
        }
    }
}

/// An idle rule: after `timeout` milliseconds without user input, while the
/// session is in `phase`, perform `action`; when the user becomes active
/// again, perform `on_exit` (if any). `on_exit` is also performed when the
/// session leaves `phase`.
#[derive(Debug, Clone)]
pub struct Rule {
    pub phase: Phase,
    /// Idle time before the rule fires, in whole milliseconds.
    pub timeout: u64,
    pub action: Action,
    pub on_exit: Option<Action>,
}

/// The rule set the daemon runs with: while unlocked, the monitors go off
/// after 30 s idle (and back on when the user returns) and the session locks
/// after 60 s; while locked, the monitors go off after 10 s idle.
pub open spec fn default_rules() -> Seq<Rule> {
    seq![
        Rule {
            phase: Phase::Unlocked,
            timeout: 30_000,
            action: Action::DpmsOff,
            on_exit: Some(Action::DpmsOn),
        },
        Rule { phase: Phase::Unlocked, timeout: 60_000, action: Action::LockSession, on_exit: None },
        Rule {
            phase: Phase::Locked,
            timeout: 10_000,
            action: Action::DpmsOff,
            on_exit: Some(Action::DpmsOn),
        },
    ]
}

/// Builds the daemon's rule set.
pub fn build_rules() -> (rules: Vec<Rule>)
    ensures
        rules@ == default_rules(),
{
    let mut rules: Vec<Rule> = Vec::new();
    rules.push(
        Rule {
            phase: Phase::Unlocked,
            timeout: 30_000,
            action: Action::DpmsOff,
            on_exit: Some(Action::DpmsOn),
        },
    );
    rules.push(
        Rule { phase: Phase::Unlocked, timeout: 60_000, action: Action::LockSession, on_exit: None },
    );
    rules.push(
        Rule {
            phase: Phase::Locked,
            timeout: 10_000,
            action: Action::DpmsOff,
            on_exit: Some(Action::DpmsOn),
        },
    );
    rules
}

/// Copies a command line word by word.
pub fn copy_words(words: &Vec<String>) -> (res: Vec<String>)
    ensures
        res@ == words@,
{
    let mut res: Vec<String> = Vec::new();
    for i in 0..words.len()
        invariant
            res@ == words@.subrange(0, i as int),
    {
        res.push(words[i].clone());
        assert(res@ == words@.subrange(0, i + 1));
    }
    assert(words@.subrange(0, words.len() as int) == words@);
    res
}

} // verus!
