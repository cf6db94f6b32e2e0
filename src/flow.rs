use vstd::prelude::*;

use crate::config::{default_entries, Config};
use crate::menu::{menu_line_text, menu_lines, pick_entry, selected_index, selection_line, selection_text};
use crate::menu::{lemma_invalid_choice, lemma_numeral_selects};
use crate::text::{choice_value, decimal_text, trimmed, unsigned_value};

verus! {

/// Where a run stands. A run begins at `CheckingPrivilege` and ends at `Done`.
pub enum Phase {
    CheckingPrivilege,
    CheckingConfig,
    CreatingConfig,
    LoadingConfig,
    Choosing(Config),
    Launching,
    Done,
}

/// What the environment reports back after performing an action.
pub enum Event {
    /// Whether the process runs with superuser rights.
    Privilege(bool),
    /// Whether the configuration file exists.
    ConfigPresent(bool),
    /// The default configuration was written.
    ConfigCreated,
    /// The configuration file was read and parsed.
    ConfigLoaded(Config),
    /// A line was read from standard input.
    ChoiceEntered(String),
    /// The VPN client ran; whether it exited successfully.
    LaunchExited(bool),
    /// A fatal error: the file could not be read, written or parsed, or the
    /// client could not be started.
    Failed,
}

/// What the environment is asked to do next.
pub enum Action {
    /// Find out whether the process runs with superuser rights.
    QueryPrivilege,
    /// Tell the user to run with superuser rights, and exit successfully.
    RequirePrivilege,
    /// Find out whether the configuration file exists.
    CheckConfig,
    /// Write this configuration as the new configuration file.
    CreateConfig(Config),
    /// Read and parse the configuration file.
    LoadConfig,
    /// Print these lines, then prompt for a choice.
    ShowMenu(Vec<String>),
    /// Report an invalid choice, and exit successfully.
    RejectChoice,
    /// Print `echo`, then run the VPN client on `path` and wait for it.
    Launch { echo: String, path: String },
    /// Report that the client exited unsuccessfully.
    ReportFailure,
    /// The run is over and went well.
    Complete,
    /// Report the fatal error, and exit unsuccessfully.
    Abort,
    /// Nothing is left to do.
    Halt,
}

/// The phase that follows `p` once `e` has been observed.
pub open spec fn next_phase(p: Phase, e: Event) -> Phase {
    match p {
        Phase::CheckingPrivilege => match e {
            Event::Privilege(true) => Phase::CheckingConfig,
            _ => Phase::Done,
        },
        Phase::CheckingConfig => match e {
            Event::ConfigPresent(true) => Phase::LoadingConfig,
            Event::ConfigPresent(false) => Phase::CreatingConfig,
            _ => Phase::Done,
        },
        Phase::CreatingConfig => match e {
            Event::ConfigCreated => Phase::LoadingConfig,
            _ => Phase::Done,
        },
        Phase::LoadingConfig => match e {
            Event::ConfigLoaded(c) => Phase::Choosing(c),
            _ => Phase::Done,
        },
        Phase::Choosing(c) => match e {
            Event::ChoiceEntered(s) => if selected_index(
                c@.len(),
                choice_value(trimmed(s@)),
            ) is Some {
                Phase::Launching
            } else {
                Phase::Done
            },
            _ => Phase::Done,
        },
        Phase::Launching => Phase::Done,
        Phase::Done => Phase::Done,
    }
}

/// Whether `lines` is the menu of the configuration `c`.
pub open spec fn is_menu_of(lines: Seq<String>, c: Seq<(Seq<char>, Seq<char>)>) -> bool {
    &&& lines.len() == c.len()
    &&& forall|i: int| 0 <= i < lines.len() ==> (#[trigger] lines[i])@ == menu_line_text(i as nat, c[i])
}

/// Whether `a` is the action owed in phase `p` once `e` has been observed.
pub open spec fn action_ok(p: Phase, e: Event, a: Action) -> bool {
    match p {
        Phase::CheckingPrivilege => match e {
            Event::Privilege(true) => a is CheckConfig,
            Event::Privilege(false) => a is RequirePrivilege,
            _ => a is Abort,
        },
        Phase::CheckingConfig => match e {
            Event::ConfigPresent(true) => a is LoadConfig,
            Event::ConfigPresent(false) => a matches Action::CreateConfig(c) && c@ == default_entries(),
            _ => a is Abort,
        },
        Phase::CreatingConfig => match e {
            Event::ConfigCreated => a is LoadConfig,
            _ => a is Abort,
        },
        Phase::LoadingConfig => match e {
            Event::ConfigLoaded(c) => a matches Action::ShowMenu(lines) && is_menu_of(lines@, c@),
            _ => a is Abort,
        },
        Phase::Choosing(c) => match e {
            Event::ChoiceEntered(s) => match selected_index(c@.len(), choice_value(trimmed(s@))) {
                Some(k) => a matches Action::Launch { echo, path } && echo@ == selection_text(c@[k as int])
                    && path@ == c@[k as int].1,
                None => a is RejectChoice,
            },
            _ => a is Abort,
        },
        Phase::Launching => match e {
            Event::LaunchExited(true) => a is Complete,
            Event::LaunchExited(false) => a is ReportFailure,
            _ => a is Abort,
        },
        Phase::Done => a is Halt,
    }
}

/// The first phase of a run and the action that opens it.
pub fn start() -> (r: (Phase, Action))
    ensures
        r.0 is CheckingPrivilege,
        r.1 is QueryPrivilege,
{
    (Phase::CheckingPrivilege, Action::QueryPrivilege)
}

/// Decides what follows once `event` has been observed in `phase`.
pub fn step(phase: Phase, event: Event) -> (r: (Phase, Action))
    ensures
        r.0 == next_phase(phase, event),
        action_ok(phase, event, r.1),
{
    match phase {
        Phase::CheckingPrivilege => match event {
            Event::Privilege(true) => (Phase::CheckingConfig, Action::CheckConfig),
            Event::Privilege(false) => (Phase::Done, Action::RequirePrivilege),
            _ => (Phase::Done, Action::Abort),
        },
        Phase::CheckingConfig => match event {
            Event::ConfigPresent(true) => (Phase::LoadingConfig, Action::LoadConfig),
            Event::ConfigPresent(false) => (
                Phase::CreatingConfig,
                Action::CreateConfig(Config::default_config()),
            ),
            _ => (Phase::Done, Action::Abort),
        },
        Phase::CreatingConfig => match event {
            Event::ConfigCreated => (Phase::LoadingConfig, Action::LoadConfig),
            _ => (Phase::Done, Action::Abort),
        },
        Phase::LoadingConfig => match event {
            Event::ConfigLoaded(c) => {
                let lines = menu_lines(&c);
                (Phase::Choosing(c), Action::ShowMenu(lines))
            },
            _ => (Phase::Done, Action::Abort),
        },
        Phase::Choosing(c) => match event {
            Event::ChoiceEntered(s) => match pick_entry(&c, s.as_str()) {
                Some(k) => {
                    let entry = &c.vpn_files[k];
                    let echo = selection_line(entry);
                    let path = entry.path.clone();
                    (Phase::Launching, Action::Launch { echo, path })
                },
                None => (Phase::Done, Action::RejectChoice),
            },
            _ => (Phase::Done, Action::Abort),
        },
        Phase::Launching => match event {
            Event::LaunchExited(true) => (Phase::Done, Action::Complete),
            Event::LaunchExited(false) => (Phase::Done, Action::ReportFailure),
            _ => (Phase::Done, Action::Abort),
        },
        Phase::Done => (Phase::Done, Action::Halt),
    }
}

/// Whether an action reads, creates or looks for the configuration file.
pub open spec fn touches_config(a: Action) -> bool {
    a is CheckConfig || a is CreateConfig || a is LoadConfig
}

/// Whether the sequences form a run: each next phase and each action is the
/// one owed for the phase before it and the event observed there.
pub open spec fn is_run(phases: Seq<Phase>, events: Seq<Event>, actions: Seq<Action>) -> bool {
    &&& phases.len() == events.len() + 1
    &&& actions.len() == events.len()
    &&& forall|i: int|
        0 <= i < events.len() ==> phases[i + 1] == next_phase(#[trigger] phases[i], events[i])
    &&& forall|i: int| 0 <= i < events.len() ==> action_ok(#[trigger] phases[i], events[i], actions[i])
}

proof fn lemma_done_stays_done(phases: Seq<Phase>, events: Seq<Event>, actions: Seq<Action>, j: int)
    requires
        is_run(phases, events, actions),
        0 <= j <= events.len(),
        phases[j] is Done,
    ensures
        forall|i: int| j <= i <= events.len() ==> (#[trigger] phases[i]) is Done,
    decreases events.len() - j,
{
    if j < events.len() {
        assert(phases[j + 1] == next_phase(phases[j], events[j]));
        lemma_done_stays_done(phases, events, actions, j + 1);
        assert forall|i: int| j <= i <= events.len() implies (#[trigger] phases[i]) is Done by {
            if i > j {
                assert(phases[i] is Done);
            }
        }
    }
}

/// A run that finds itself unprivileged tells the user so, and neither looks
/// for, creates nor reads the configuration at any later point.
pub proof fn lemma_unprivileged_run_touches_no_config(
    phases: Seq<Phase>,
    events: Seq<Event>,
    actions: Seq<Action>,
)
    requires
        is_run(phases, events, actions),
        events.len() > 0,
        phases[0] is CheckingPrivilege,
        events[0] == Event::Privilege(false),
    ensures
        actions[0] is RequirePrivilege,
        forall|i: int| 0 <= i < actions.len() ==> !touches_config(#[trigger] actions[i]),
{
    assert(phases[1] == next_phase(phases[0], events[0]));
    lemma_done_stays_done(phases, events, actions, 1);
    assert forall|i: int| 0 <= i < actions.len() implies !touches_config(#[trigger] actions[i]) by {
        assert(action_ok(phases[i], events[i], actions[i]));
        if i > 0 {
            assert(phases[i] is Done);
        }
    }
}

/// A menu is shown only right after the configuration was loaded and parsed.
pub proof fn lemma_menu_only_after_load(p: Phase, e: Event, a: Action)
    requires
        action_ok(p, e, a),
        a is ShowMenu,
    ensures
        p is LoadingConfig,
        e is ConfigLoaded,
{
}

/// A run whose configuration fails to load or parse aborts, and shows no
/// menu at any later point.
pub proof fn lemma_load_failure_shows_no_menu(
    phases: Seq<Phase>,
    events: Seq<Event>,
    actions: Seq<Action>,
)
    requires
        is_run(phases, events, actions),
        events.len() > 0,
        phases[0] is LoadingConfig,
        events[0] is Failed,
    ensures
        actions[0] is Abort,
        forall|i: int| 0 <= i < actions.len() ==> !((#[trigger] actions[i]) is ShowMenu),
{
    assert(phases[1] == next_phase(phases[0], events[0]));
    lemma_done_stays_done(phases, events, actions, 1);
    assert forall|i: int| 0 <= i < actions.len() implies !((#[trigger] actions[i]) is ShowMenu) by {
        assert(action_ok(phases[i], events[i], actions[i]));
        if i > 0 {
            assert(phases[i] is Done);
        }
    }
}

/// Where no configuration file exists, the run writes one with the two
/// placeholder entries and then loads it.
pub proof fn lemma_missing_config_is_created(
    phases: Seq<Phase>,
    events: Seq<Event>,
    actions: Seq<Action>,
)
    requires
        is_run(phases, events, actions),
        events.len() >= 2,
        phases[0] is CheckingConfig,
        events[0] == Event::ConfigPresent(false),
        events[1] is ConfigCreated,
    ensures
        actions[0] matches Action::CreateConfig(c) && c@ == default_entries() && c@.len() == 2,
        actions[1] is LoadConfig,
        phases[2] is LoadingConfig,
{
    assert(phases[1] == next_phase(phases[0], events[0]));
    assert(phases[2] == next_phase(phases[1], events[1]));
    assert(action_ok(phases[0], events[0], actions[0]));
    assert(action_ok(phases[1], events[1], actions[1]));
}

/// A line that trims to the numeral of `k` in `1..=N` launches the entry at
/// `k - 1`, echoing its exact name and path first.
pub proof fn lemma_numeral_launches_entry(c: Config, s: String, k: nat, a: Action)
    requires
        action_ok(Phase::Choosing(c), Event::ChoiceEntered(s), a),
        trimmed(s@) == decimal_text(k),
        1 <= k <= c@.len(),
        c@.len() <= usize::MAX,
    ensures
        next_phase(Phase::Choosing(c), Event::ChoiceEntered(s)) is Launching,
        a matches Action::Launch { echo, path } && echo@ == selection_text(c@[k - 1]) && path@ == c@[k
            - 1].1,
{
    lemma_numeral_selects(k, c@.len());
}

/// Zero, a line that is no number, and a number above the entry count are
/// all rejected the same way, and nothing is launched.
pub proof fn lemma_invalid_input_rejected(c: Config, s: String, a: Action)
    requires
        action_ok(Phase::Choosing(c), Event::ChoiceEntered(s), a),
        trimmed(s@) == seq!['0'] || unsigned_value(trimmed(s@)) is None || (unsigned_value(
            trimmed(s@),
        ) matches Some(v) && v > c@.len()),
    ensures
        a is RejectChoice,
        next_phase(Phase::Choosing(c), Event::ChoiceEntered(s)) is Done,
{
    lemma_invalid_choice(trimmed(s@), c@.len());
}

} // verus!
