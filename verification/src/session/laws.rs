//! What holds of every session.
//!
//! Two kinds of run are spoken of. In the first the session is sent any
//! events at all, in any order. In the second the caller keeps to the
//! bargain: it answers each action with the event that the action asks for,
//! in a world that settles how tracing, the command and the printing of the
//! error go.

use crate::command::Collaborator;
use crate::exit::ExitStatus;
use crate::outcome::Report;
use crate::report::{error_line_of, tracing_warning_of};
use crate::session::{ActionView, EventView, Phase, Session, REPORT_FAILED};
use crate::update::{SelfUpdate, SELF_UPDATE_DISABLED};
use vstd::prelude::*;

verus! {

// ----------------------------------------------------------------------------
// Any events at all
// ----------------------------------------------------------------------------

/// The session after the events `events`, taken in order.
pub open spec fn session_after(session: Session, events: Seq<EventView>) -> Session
    decreases events.len(),
{
    if events.len() == 0 {
        session
    } else {
        session_after(session.next(events[0]).0, events.drop_first())
    }
}

/// The actions that the events `events`, taken in order, are answered with:
/// one for each event.
pub open spec fn answers(session: Session, events: Seq<EventView>) -> Seq<ActionView>
    decreases events.len(),
{
    if events.len() == 0 {
        Seq::empty()
    } else {
        seq![session.next(events[0]).1] + answers(
            session.next(events[0]).0,
            events.drop_first(),
        )
    }
}

/// Every event has its answer.
pub proof fn lemma_answers_len(session: Session, events: Seq<EventView>)
    ensures
        answers(session, events).len() == events.len(),
    decreases events.len(),
{
    if events.len() > 0 {
        lemma_answers_len(session.next(events[0]).0, events.drop_first());
    }
}

/// A session never changes its command, nor what the executable can do.
pub proof fn law_command_is_kept(session: Session, events: Seq<EventView>)
    ensures
        session_after(session, events).target == session.target,
        session_after(session, events).self_update == session.self_update,
    decreases events.len(),
{
    if events.len() > 0 {
        law_command_is_kept(session.next(events[0]).0, events.drop_first());
    }
}

/// An exit status that has been marked as failed stays so, whatever comes.
pub proof fn law_failure_is_kept(session: Session, events: Seq<EventView>)
    requires
        session.exit == ExitStatus::Failure,
    ensures
        session_after(session, events).exit == ExitStatus::Failure,
    decreases events.len(),
{
    if events.len() > 0 {
        law_failure_is_kept(session.next(events[0]).0, events.drop_first());
    }
}

/// Once the session has turned to its command, it invokes nothing more.
proof fn lemma_no_second_invocation(session: Session, events: Seq<EventView>)
    requires
        session.phase != Phase::Tracing,
        session.phase != Phase::Warning,
    ensures
        forall|i: int| 0 <= i < events.len() ==> !(answers(session, events)[i] is Invoke),
    decreases events.len(),
{
    lemma_answers_len(session, events);
    if events.len() > 0 {
        let next = session.next(events[0]).0;
        let rest = events.drop_first();
        lemma_no_second_invocation(next, rest);
        assert forall|i: int| 0 <= i < events.len() implies !(answers(session, events)[i]
            is Invoke) by {
            if i > 0 {
                assert(answers(session, events)[i] == answers(next, rest)[i - 1]);
            }
        }
    }
}

/// Whatever events a session is sent, it invokes one subsystem at most, and
/// that is the one that serves its command.
pub proof fn law_invokes_at_most_once(session: Session, events: Seq<EventView>)
    requires
        session.phase == Phase::Tracing || session.phase == Phase::Warning,
    ensures
        answers(session, events).len() == events.len(),
        forall|i: int|
            0 <= i < events.len() && answers(session, events)[i] is Invoke ==> answers(
                session,
                events,
            )[i] == ActionView::Invoke(session.target),
        forall|i: int, j: int|
            0 <= i < events.len() && 0 <= j < events.len() && answers(session, events)[i] is Invoke
                && answers(session, events)[j] is Invoke ==> i == j,
    decreases events.len(),
{
    lemma_answers_len(session, events);
    if events.len() > 0 {
        let next = session.next(events[0]).0;
        let rest = events.drop_first();
        lemma_answers_len(next, rest);
        assert forall|i: int| 0 < i < events.len() implies answers(session, events)[i] == answers(
            next,
            rest,
        )[i - 1] by {}
        if next.phase == Phase::Tracing || next.phase == Phase::Warning {
            law_invokes_at_most_once(next, rest);
            assert(!(answers(session, events)[0] is Invoke));
        } else {
            lemma_no_second_invocation(next, rest);
        }
    }
}

// ----------------------------------------------------------------------------
// A caller that keeps to the bargain
// ----------------------------------------------------------------------------

/// How the outside world answers: whether tracing starts, what the subsystem
/// returns when it is invoked, and whether the error line can be written.
pub struct World {
    pub tracing: Report,
    pub command: Report,
    pub printing: Report,
}

/// The event with which a faithful caller answers `action` in `world`; none
/// where the action ends the run.
pub open spec fn reply(action: ActionView, world: World) -> Option<EventView> {
    match action {
        ActionView::SetUpTracing => Some(
            match world.tracing {
                Ok(_) => EventView::TracingReady,
                Err(cause) => EventView::TracingFailed(cause),
            },
        ),
        ActionView::Warn(_) => Some(EventView::Warned),
        ActionView::Invoke(_) => Some(EventView::Completed(world.command)),
        ActionView::Report(_) => Some(
            match world.printing {
                Ok(_) => EventView::Reported,
                Err(cause) => EventView::ReportFailed(cause),
            },
        ),
        ActionView::Exit(_) => None,
        ActionView::Abort(_) => None,
        ActionView::Idle => None,
    }
}

/// The actions of a run that goes on from `action`, which `session` has just
/// asked for, with a faithful caller in `world`: `action`, and what follows
/// it, for `replies` replies at most.
pub open spec fn played(session: Session, action: ActionView, world: World, replies: nat) -> Seq<
    ActionView,
>
    decreases replies,
{
    match reply(action, world) {
        Some(event) if replies > 0 => seq![action] + played(
            session.next(event).0,
            session.next(event).1,
            world,
            (replies - 1) as nat,
        ),
        _ => seq![action],
    }
}

/// The actions of a whole run for the command that `target` serves, with a
/// faithful caller in `world`. No run takes more than four replies.
pub open spec fn execution(target: Collaborator, self_update: SelfUpdate, world: World) -> Seq<
    ActionView,
> {
    played(Session::begin(target, self_update).0, Session::begin(target, self_update).1, world, 4)
}

/// What the command comes to in `world`: what the subsystem returns, or,
/// where the session answers the command itself, the failure of an
/// executable that cannot update itself.
pub open spec fn result_of(target: Collaborator, self_update: SelfUpdate, world: World) -> Report {
    if target == Collaborator::Update && self_update == SelfUpdate::Disabled {
        Err(SELF_UPDATE_DISABLED@)
    } else {
        world.command
    }
}

/// The warning, where tracing did not start.
pub open spec fn warnings_of(world: World) -> Seq<ActionView> {
    match world.tracing {
        Ok(_) => Seq::empty(),
        Err(cause) => seq![ActionView::Warn(tracing_warning_of(cause))],
    }
}

/// The invocation, where the session does not answer the command itself.
pub open spec fn invocations_of(target: Collaborator, self_update: SelfUpdate) -> Seq<ActionView> {
    if target == Collaborator::Update && self_update == SelfUpdate::Disabled {
        Seq::empty()
    } else {
        seq![ActionView::Invoke(target)]
    }
}

/// How a run ends after the command has come to `result`: with an exit in
/// success; or with the error line and an exit in failure; or, where the
/// error line cannot be written, with the error line and giving up.
pub open spec fn ending_of(result: Report, world: World) -> Seq<ActionView> {
    match result {
        Ok(_) => seq![ActionView::Exit(ExitStatus::Success)],
        Err(message) => seq![
            ActionView::Report(error_line_of(message)),
            match world.printing {
                Ok(_) => ActionView::Exit(ExitStatus::Failure),
                Err(cause) => ActionView::Abort(REPORT_FAILED@ + cause),
            },
        ],
    }
}

/// The whole of a run, for every command and every world: tracing is asked
/// for; if it did not start, a warning is shown; the subsystem that serves
/// the command is invoked, unless the session answers the command itself;
/// then the run ends as the result of the command has it.
pub proof fn law_execution(target: Collaborator, self_update: SelfUpdate, world: World)
    ensures
        execution(target, self_update, world) == seq![ActionView::SetUpTracing] + warnings_of(world)
            + invocations_of(target, self_update) + ending_of(
            result_of(target, self_update, world),
            world,
        ),
{
    let begun = Session::begin(target, self_update);
    let expected = seq![ActionView::SetUpTracing] + warnings_of(world) + invocations_of(
        target,
        self_update,
    ) + ending_of(result_of(target, self_update, world), world);
    reveal_with_fuel(played, 5);
    assert(execution(target, self_update, world) =~= expected);
}

/// In every run one subsystem is invoked, the one that serves the command,
/// and it is invoked once. The one exception: the update command of an
/// executable that cannot update itself is answered by the session, and
/// nothing is invoked.
pub proof fn law_one_collaborator(target: Collaborator, self_update: SelfUpdate, world: World)
    ensures
        ({
            let run = execution(target, self_update, world);
            let answered_here = target == Collaborator::Update && self_update
                == SelfUpdate::Disabled;
            &&& forall|i: int|
                0 <= i < run.len() && run[i] is Invoke ==> run[i] == ActionView::Invoke(target)
            &&& forall|i: int, j: int|
                0 <= i < run.len() && 0 <= j < run.len() && run[i] is Invoke && run[j] is Invoke
                    ==> i == j
            &&& (exists|i: int| 0 <= i < run.len() && run[i] is Invoke) <==> !answered_here
        }),
{
    law_execution(target, self_update, world);
    let run = execution(target, self_update, world);
    let at: int = if world.tracing is Ok {
        1
    } else {
        2
    };
    if !(target == Collaborator::Update && self_update == SelfUpdate::Disabled) {
        assert(run[at] is Invoke);
    }
}

/// The exit status of a run reflects the result of the command: where the
/// error line can be written, the run ends in an exit, with code `0` if the
/// command succeeded and with code `1` if it failed.
pub proof fn law_exit_reflects_result(target: Collaborator, self_update: SelfUpdate, world: World)
    requires
        world.printing is Ok,
    ensures
        ({
            let result = result_of(target, self_update, world);
            &&& execution(target, self_update, world).last() matches ActionView::Exit(status)
            &&& result is Ok ==> status == ExitStatus::Success && status.spec_code() == 0
            &&& result is Err ==> status == ExitStatus::Failure && status.spec_code() == 1
        }),
{
    law_execution(target, self_update, world);
}

/// A failed command is shown once, in the words that the subsystem gave,
/// just before the run ends.
pub proof fn law_failure_is_reported(target: Collaborator, self_update: SelfUpdate, world: World)
    requires
        result_of(target, self_update, world) is Err,
    ensures
        ({
            let run = execution(target, self_update, world);
            let message = result_of(target, self_update, world)->Err_0;
            &&& run.len() >= 2
            &&& run[run.len() - 2] == ActionView::Report(error_line_of(message))
            &&& forall|i: int| 0 <= i < run.len() - 2 ==> !(run[i] is Report)
        }),
{
    law_execution(target, self_update, world);
}

/// An executable that cannot update itself answers the update command with
/// failure, whatever the world is like: nothing is invoked, the error line
/// gives the fixed words, and where that line can be written the run ends in
/// an exit with failure.
pub proof fn law_update_disabled(world: World)
    ensures
        ({
            let run = execution(Collaborator::Update, SelfUpdate::Disabled, world);
            &&& result_of(Collaborator::Update, SelfUpdate::Disabled, world) == Err::<
                (),
                Seq<char>,
            >(SELF_UPDATE_DISABLED@)
            &&& forall|i: int| 0 <= i < run.len() ==> !(run[i] is Invoke)
            &&& run == seq![ActionView::SetUpTracing] + warnings_of(world) + ending_of(
                Err(SELF_UPDATE_DISABLED@),
                world,
            )
            &&& world.printing is Ok ==> run.last() == ActionView::Exit(ExitStatus::Failure)
        }),
{
    law_execution(Collaborator::Update, SelfUpdate::Disabled, world);
    assert(invocations_of(Collaborator::Update, SelfUpdate::Disabled) =~= Seq::empty());
    assert(seq![ActionView::SetUpTracing] + warnings_of(world) + Seq::<ActionView>::empty()
        + ending_of(Err(SELF_UPDATE_DISABLED@), world) =~= seq![ActionView::SetUpTracing]
        + warnings_of(world) + ending_of(Err(SELF_UPDATE_DISABLED@), world));
}

/// Tracing that does not start changes nothing but for the warning: the run
/// goes on as it does where tracing starts, the command is served all the
/// same, and the run ends in the same way.
pub proof fn law_tracing_failure_is_harmless(
    target: Collaborator,
    self_update: SelfUpdate,
    world: World,
    cause: Seq<char>,
)
    requires
        world.tracing is Ok,
    ensures
        ({
            let traced = execution(target, self_update, world);
            let untraced = execution(target, self_update, World { tracing: Err(cause), ..world });
            &&& untraced == seq![
                ActionView::SetUpTracing,
                ActionView::Warn(tracing_warning_of(cause)),
            ] + traced.drop_first()
            &&& untraced.last() == traced.last()
        }),
{
    let failed = World { tracing: Err(cause), ..world };
    law_execution(target, self_update, world);
    law_execution(target, self_update, failed);
    let tail = invocations_of(target, self_update) + ending_of(
        result_of(target, self_update, world),
        world,
    );
    assert(result_of(target, self_update, failed) == result_of(target, self_update, world));
    assert(ending_of(result_of(target, self_update, failed), failed) == ending_of(
        result_of(target, self_update, world),
        world,
    ));
    assert(execution(target, self_update, world) =~= seq![ActionView::SetUpTracing] + tail);
    assert(execution(target, self_update, world).drop_first() =~= tail);
    assert(execution(target, self_update, failed) =~= seq![
        ActionView::SetUpTracing,
        ActionView::Warn(tracing_warning_of(cause)),
    ] + tail);
}

} // verus!
