use typst_cli::command::Collaborator;
use typst_cli::exit::ExitStatus;
use typst_cli::report::error_line;
use typst_cli::session::{Action, Event, Phase, Session};
use typst_cli::update::SelfUpdate;

const COLLABORATORS: [Collaborator; 5] = [
    Collaborator::Compile,
    Collaborator::Watch,
    Collaborator::Query,
    Collaborator::Fonts,
    Collaborator::Update,
];

struct World {
    tracing: Result<(), String>,
    command: Result<(), String>,
    printing: Result<(), String>,
}

fn fine() -> World {
    World { tracing: Ok(()), command: Ok(()), printing: Ok(()) }
}

/// Runs a session as a caller does that answers each action with the event
/// it asks for, and gives back every action in order.
fn run(target: Collaborator, self_update: SelfUpdate, world: &World) -> Vec<Action> {
    let (mut session, mut action) = Session::start(target, self_update);
    let mut actions = Vec::new();
    loop {
        let event = match &action {
            Action::SetUpTracing => match &world.tracing {
                Ok(()) => Event::TracingReady,
                Err(cause) => Event::TracingFailed(cause.clone()),
            },
            Action::Warn(_) => Event::Warned,
            Action::Invoke(_) => Event::Completed(world.command.clone()),
            Action::Report(_) => match &world.printing {
                Ok(()) => Event::Reported,
                Err(cause) => Event::ReportFailed(cause.clone()),
            },
            Action::Exit(_) | Action::Abort(_) | Action::Idle => {
                assert!(session.is_finished());
                actions.push(action);
                return actions;
            }
        };
        actions.push(action);
        let next = session.step(event);
        session = next.0;
        action = next.1;
    }
}

fn invocations(actions: &[Action]) -> Vec<Collaborator> {
    actions
        .iter()
        .filter_map(|action| match action {
            Action::Invoke(collaborator) => Some(*collaborator),
            _ => None,
        })
        .collect()
}

#[test]
fn a_session_begins_with_tracing() {
    let (session, action) = Session::start(Collaborator::Compile, SelfUpdate::Enabled);
    assert_eq!(action, Action::SetUpTracing);
    assert_eq!(
        session,
        Session {
            phase: Phase::Tracing,
            target: Collaborator::Compile,
            self_update: SelfUpdate::Enabled,
            exit: ExitStatus::Success,
        }
    );
    assert!(!session.is_finished());
}

#[test]
fn a_command_that_succeeds_exits_with_zero() {
    for target in COLLABORATORS {
        let actions = run(target, SelfUpdate::Enabled, &fine());
        assert_eq!(
            actions,
            vec![Action::SetUpTracing, Action::Invoke(target), Action::Exit(ExitStatus::Success)]
        );
        assert_eq!(ExitStatus::Success.code(), 0);
    }
}

#[test]
fn a_command_that_fails_is_reported_and_exits_with_one() {
    for target in COLLABORATORS {
        let world = World { command: Err("file not found".to_string()), ..fine() };
        let actions = run(target, SelfUpdate::Enabled, &world);
        assert_eq!(
            actions,
            vec![
                Action::SetUpTracing,
                Action::Invoke(target),
                Action::Report(error_line("file not found")),
                Action::Exit(ExitStatus::Failure),
            ]
        );
        assert_eq!(ExitStatus::Failure.code(), 1);
    }
}

#[test]
fn exactly_one_collaborator_is_invoked() {
    for target in COLLABORATORS {
        for command in [Ok(()), Err("no".to_string())] {
            for tracing in [Ok(()), Err("no".to_string())] {
                let world = World { tracing, command: command.clone(), printing: Ok(()) };
                let actions = run(target, SelfUpdate::Enabled, &world);
                assert_eq!(invocations(&actions), vec![target]);
            }
        }
    }
}

#[test]
fn the_error_line_shows_the_message_of_the_collaborator() {
    let world = World { command: Err("unknown font family: zapf".to_string()), ..fine() };
    let actions = run(Collaborator::Compile, SelfUpdate::Disabled, &world);
    match &actions[2] {
        Action::Report(line) => {
            assert_eq!(line.text(), "error: unknown font family: zapf.\n");
        }
        other => panic!("expected the error to be reported, got {other:?}"),
    }
}

#[test]
fn tracing_that_does_not_start_costs_a_warning_only() {
    for target in COLLABORATORS {
        for command in [Ok(()), Err("file not found".to_string())] {
            let with = World { command: command.clone(), ..fine() };
            let without =
                World { tracing: Err("permission denied".to_string()), command, printing: Ok(()) };
            let expected = run(target, SelfUpdate::Enabled, &with);
            let actual = run(target, SelfUpdate::Enabled, &without);
            assert_eq!(actual[0], Action::SetUpTracing);
            assert_eq!(
                actual[1],
                Action::Warn("failed to initialize tracing (permission denied)".to_string())
            );
            assert_eq!(actual[2..], expected[1..]);
            assert_eq!(actual.last(), expected.last());
        }
    }
}

#[test]
fn an_executable_that_cannot_update_itself_says_so() {
    for tracing in [Ok(()), Err("no".to_string())] {
        let world = World { tracing, ..fine() };
        let actions = run(Collaborator::Update, SelfUpdate::Disabled, &world);
        assert!(invocations(&actions).is_empty());
        let expected = error_line(
            "self-updating is not enabled for this executable, \
             please update with the package manager or mechanism \
             used for initial installation",
        );
        assert_eq!(actions[actions.len() - 2], Action::Report(expected));
        assert_eq!(actions[actions.len() - 1], Action::Exit(ExitStatus::Failure));
    }
}

#[test]
fn an_executable_that_can_update_itself_invokes_the_updater() {
    let actions = run(Collaborator::Update, SelfUpdate::Enabled, &fine());
    assert_eq!(
        actions,
        vec![
            Action::SetUpTracing,
            Action::Invoke(Collaborator::Update),
            Action::Exit(ExitStatus::Success),
        ]
    );
}

#[test]
fn the_other_commands_do_not_ask_whether_the_executable_can_update_itself() {
    for target in [
        Collaborator::Compile,
        Collaborator::Watch,
        Collaborator::Query,
        Collaborator::Fonts,
    ] {
        let world = World { command: Err("no".to_string()), ..fine() };
        let enabled = run(target, SelfUpdate::Enabled, &world);
        let disabled = run(target, SelfUpdate::Disabled, &world);
        assert_eq!(enabled, disabled);
    }
}

#[test]
fn an_error_that_cannot_be_shown_ends_the_session_at_once() {
    let world = World {
        tracing: Ok(()),
        command: Err("file not found".to_string()),
        printing: Err("broken pipe".to_string()),
    };
    let actions = run(Collaborator::Query, SelfUpdate::Enabled, &world);
    assert_eq!(
        actions,
        vec![
            Action::SetUpTracing,
            Action::Invoke(Collaborator::Query),
            Action::Report(error_line("file not found")),
            Action::Abort("failed to print error: broken pipe".to_string()),
        ]
    );
}

#[test]
fn an_event_that_was_not_waited_for_changes_nothing() {
    let (session, _) = Session::start(Collaborator::Fonts, SelfUpdate::Enabled);
    for event in [
        Event::Warned,
        Event::Completed(Ok(())),
        Event::Completed(Err("no".to_string())),
        Event::Reported,
        Event::ReportFailed("no".to_string()),
    ] {
        assert_eq!(session.step(event), (session, Action::Idle));
    }
    let (running, action) = session.step(Event::TracingReady);
    assert_eq!(action, Action::Invoke(Collaborator::Fonts));
    assert_eq!(running.phase, Phase::Running);
    for event in [
        Event::TracingReady,
        Event::TracingFailed("no".to_string()),
        Event::Warned,
        Event::Reported,
        Event::ReportFailed("no".to_string()),
    ] {
        assert_eq!(running.step(event), (running, Action::Idle));
    }
}

#[test]
fn a_collaborator_is_not_invoked_twice() {
    let (session, _) = Session::start(Collaborator::Watch, SelfUpdate::Enabled);
    let events = vec![
        Event::TracingFailed("no".to_string()),
        Event::TracingReady,
        Event::Warned,
        Event::Warned,
        Event::TracingReady,
        Event::Completed(Ok(())),
        Event::Completed(Ok(())),
        Event::Warned,
    ];
    let mut session = session;
    let mut actions = Vec::new();
    for event in events {
        let next = session.step(event);
        session = next.0;
        actions.push(next.1);
    }
    assert_eq!(invocations(&actions), vec![Collaborator::Watch]);
    assert!(session.is_finished());
    assert_eq!(session.exit, ExitStatus::Success);
}

#[test]
fn a_finished_session_stays_finished() {
    let (session, _) = Session::start(Collaborator::Compile, SelfUpdate::Enabled);
    let (session, _) = session.step(Event::TracingReady);
    let (session, _) = session.step(Event::Completed(Err("no".to_string())));
    assert_eq!(session.phase, Phase::Reporting);
    assert_eq!(session.exit, ExitStatus::Failure);
    let (session, action) = session.step(Event::Reported);
    assert_eq!(action, Action::Exit(ExitStatus::Failure));
    assert!(session.is_finished());
    let (after, action) = session.step(Event::Completed(Ok(())));
    assert_eq!(action, Action::Idle);
    assert_eq!(after, session);
    assert_eq!(after.exit, ExitStatus::Failure);
}

#[test]
fn the_entry_point_routes_the_command_and_begins_with_tracing() {
    let command: typst_cli::command::Command<&str, (), (), (), ()> =
        typst_cli::command::Command::Compile("main.typ");
    let (session, action) = typst_cli::origin_main(&command, SelfUpdate::Disabled);
    assert_eq!(action, Action::SetUpTracing);
    assert_eq!(session, Session::start(Collaborator::Compile, SelfUpdate::Disabled).0);
    let update: typst_cli::command::Command<(), (), (), (), u8> =
        typst_cli::command::Command::Update(7);
    let (session, _) = typst_cli::origin_main(&update, SelfUpdate::Disabled);
    assert_eq!(session.target, Collaborator::Update);
    let (session, action) = session.step(Event::TracingReady);
    assert!(matches!(action, Action::Report(_)));
    assert_eq!(session.exit, ExitStatus::Failure);
}
