//! Whole runs of the launcher: what holds of every sequence of events that the
//! launcher accepts, one after the other, from its first state.

use vstd::prelude::*;
use crate::config::{read_error, resolution};
use crate::launcher::{
    accepts, error_text, in_phase, initial, next, ActionView, Event, LauncherView, Phase,
};
use crate::log::{forwarded_texts, header_text};
use crate::report::diagnostic_text;
use crate::status::{termination_code, Failure, Termination, WaitOutcome};

verus! {

/// The state after `events`, and the actions asked for on the way, one per event.
pub open spec fn run(s: LauncherView, events: Seq<Event>) -> (LauncherView, Seq<ActionView>)
    decreases events.len(),
{
    if events.len() == 0 {
        (s, Seq::empty())
    } else {
        let before = run(s, events.drop_last());
        let step = next(before.0, events.last());
        (step.0, before.1.push(step.1))
    }
}

/// Whether each event of `events` answers what the launcher was waiting for when it came.
pub open spec fn follows_protocol(s: LauncherView, events: Seq<Event>) -> bool
    decreases events.len(),
{
    events.len() == 0 || (follows_protocol(s, events.drop_last()) && accepts(
        run(s, events.drop_last()).0.phase,
        events.last(),
    ))
}

/// The bytes that `e` brings from the target's output.
pub open spec fn event_bytes(e: Event) -> Seq<u8> {
    match e {
        Event::Read(Some(bytes)) => bytes@,
        _ => Seq::empty(),
    }
}

/// The bytes that `a` hands to the log after its first line.
pub open spec fn log_bytes(a: ActionView) -> Seq<u8> {
    match a {
        ActionView::WriteLog(bytes) => bytes,
        _ => Seq::empty(),
    }
}

/// The bytes that `a` hands to standard output.
pub open spec fn stdout_bytes(a: ActionView) -> Seq<u8> {
    match a {
        ActionView::WriteStdout(bytes) => bytes,
        _ => Seq::empty(),
    }
}

/// All bytes read from the target during `events`, in order.
pub open spec fn bytes_read(events: Seq<Event>) -> Seq<u8>
    decreases events.len(),
{
    if events.len() == 0 {
        Seq::empty()
    } else {
        bytes_read(events.drop_last()) + event_bytes(events.last())
    }
}

/// All bytes that `actions` hand to the log after its first line, in order.
pub open spec fn bytes_logged(actions: Seq<ActionView>) -> Seq<u8>
    decreases actions.len(),
{
    if actions.len() == 0 {
        Seq::empty()
    } else {
        bytes_logged(actions.drop_last()) + log_bytes(actions.last())
    }
}

/// All bytes that `actions` hand to standard output, in order.
pub open spec fn bytes_printed(actions: Seq<ActionView>) -> Seq<u8>
    decreases actions.len(),
{
    if actions.len() == 0 {
        Seq::empty()
    } else {
        bytes_printed(actions.drop_last()) + stdout_bytes(actions.last())
    }
}

/// Whether `phase` comes before the target has been started.
pub open spec fn before_relay(phase: Phase) -> bool {
    phase != Phase::Read && phase != Phase::LogWrite && phase != Phase::StdoutWrite && phase
        != Phase::Wait && phase != Phase::Done
}

/// Whether the last of `actions` ends the run because a chunk could not be written.
pub open spec fn relay_failed(actions: Seq<ActionView>) -> bool {
    actions.len() > 0 && (actions.last() matches ActionView::Exit { termination, .. }
        && termination == Termination::Failed(Failure::Relay))
}

/// The relay neither drops, adds nor reorders a byte.
///
/// At every point of a run, the bytes handed to the log are exactly the bytes
/// read from the target so far. Standard output never runs ahead of the log:
/// while a chunk is being written to the log, standard output has been handed
/// everything read but that chunk. At every other point, unless the run has
/// just ended because a write failed, standard output has been handed exactly
/// the bytes read so far as well. Nothing is read before the target has been
/// started.
pub proof fn lemma_relay_faithful(args: Seq<Seq<char>>, events: Seq<Event>)
    requires
        follows_protocol(initial(args), events),
    ensures
        ({
            let (s, actions) = run(initial(args), events);
            &&& actions.len() == events.len()
            &&& bytes_logged(actions) == bytes_read(events)
            &&& s.phase == Phase::LogWrite ==> bytes_printed(actions) + s.chunk == bytes_read(
                events,
            )
            &&& s.phase != Phase::LogWrite && !relay_failed(actions) ==> bytes_printed(actions)
                == bytes_read(events)
            &&& s.phase == Phase::Done ==> actions.len() > 0 && actions.last() is Exit
            &&& before_relay(s.phase) ==> bytes_read(events).len() == 0
        }),
    decreases events.len(),
{
    if events.len() > 0 {
        let prev = events.drop_last();
        let e = events.last();
        lemma_relay_faithful(args, prev);
        let (s0, a0) = run(initial(args), prev);
        let (s1, a) = next(s0, e);
        let actions = a0.push(a);
        assert(run(initial(args), events) == (s1, actions));
        assert(actions.drop_last() =~= a0);
        assert(actions.last() == a);
        let r0 = bytes_read(prev);
        let o0 = bytes_printed(a0);
        assert(bytes_read(events) == r0 + event_bytes(e));
        assert(bytes_logged(actions) == bytes_logged(a0) + log_bytes(a));
        assert(bytes_printed(actions) == o0 + stdout_bytes(a));
        assert(r0 + Seq::<u8>::empty() =~= r0);
        assert(o0 + Seq::<u8>::empty() =~= o0);
        assert(s0.phase != Phase::Done);
        match e {
            Event::Read(Some(bytes)) => {
                assert((o0 + Seq::<u8>::empty()) + bytes@ =~= r0 + bytes@);
            },
            _ => {},
        }
    }
}

/// In a run that lasted until the wait for the target returned, the log after
/// its first line and standard output were each handed exactly the bytes that
/// the target wrote, in the order in which they were read.
pub proof fn lemma_completed_run_relayed_all(args: Seq<Seq<char>>, events: Seq<Event>)
    requires
        follows_protocol(initial(args), events),
        events.len() > 0,
        events.last() is Waited,
    ensures
        ({
            let (s, actions) = run(initial(args), events);
            &&& s.phase == Phase::Done
            &&& bytes_logged(actions) == bytes_read(events)
            &&& bytes_printed(actions) == bytes_read(events)
        }),
{
    lemma_relay_faithful(args, events);
}

/// A run in which the target ends with a numeric status ends with that status:
/// the launcher's last action hands the target's own status through.
pub proof fn lemma_status_propagates(args: Seq<Seq<char>>, events: Seq<Event>, code: i32)
    requires
        events.len() > 0,
        events.last() == Event::Waited(WaitOutcome::Status(code)),
    ensures
        run(initial(args), events).1.last() == (ActionView::Exit {
            termination: Termination::Exited(code),
            diagnostic: None,
        }),
        termination_code(Termination::Exited(code)) == code,
{
}

/// Whether `e` reports that the configuration resolved to `target`.
pub open spec fn resolves_to(e: Event, target: Seq<char>) -> bool {
    e matches Event::ConfigRead(outcome) && resolution(outcome) == Ok::<Seq<char>, Failure>(target)
}

/// Whether `spawn` starts the target that the configuration read in `events`
/// resolved to, with the invocation's arguments but the first, after the log
/// was created and its first line written.
pub open spec fn spawn_in_order(args: Seq<Seq<char>>, events: Seq<Event>, spawn: ActionView) -> bool {
    &&& events.len() >= 5
    &&& spawn matches ActionView::Spawn { program, args: handed }
    &&& resolves_to(events[1], program)
    &&& handed == forwarded_texts(args)
    &&& events[3] matches Event::LogCreated(Ok(_))
    &&& events[4] matches Event::HeaderWritten(Ok(_))
}

/// Whether the configuration read in `events` resolved to a target.
pub open spec fn config_resolved(events: Seq<Event>) -> bool {
    events.len() >= 2 && (events[1] matches Event::ConfigRead(outcome) && resolution(outcome) is Ok)
}

/// How far a run has come, told from its state: the launcher keeps the
/// invocation, and until the target is started each phase is reached after a
/// fixed number of events, with the resolved target in the state.
pub open spec fn setup_in_order(args: Seq<Seq<char>>, events: Seq<Event>, s: LauncherView) -> bool {
    &&& s.args == args
    &&& s.phase == Phase::Start ==> events.len() == 0
    &&& s.phase == Phase::Config ==> events.len() == 1
    &&& s.phase == Phase::ConfigCreate ==> events.len() == 2
    &&& s.phase == Phase::Clock ==> events.len() == 2 && resolves_to(events[1], s.target)
    &&& s.phase == Phase::LogCreate ==> events.len() == 3 && resolves_to(events[1], s.target)
    &&& s.phase == Phase::Header ==> {
        &&& events.len() == 4
        &&& resolves_to(events[1], s.target)
        &&& events[3] matches Event::LogCreated(Ok(_))
    }
    &&& s.phase == Phase::Spawn ==> events.len() == 5
}

/// The target is started at most once in a run, and only once everything is
/// in place: the configuration has resolved to the program that is started, the
/// log file has been created and its first line written. The target gets the
/// invocation's arguments but the first. The log file in turn is created, and
/// its first line written, only after the configuration has resolved. So a
/// run whose configuration is missing, unreadable, empty or of several lines
/// creates no log and starts no target, and one whose log could not be set up
/// starts no target.
pub proof fn lemma_setup_in_order(args: Seq<Seq<char>>, events: Seq<Event>)
    requires
        follows_protocol(initial(args), events),
    ensures
        ({
            let (s, actions) = run(initial(args), events);
            &&& actions.len() == events.len()
            &&& setup_in_order(args, events, s)
            &&& forall|i: int|
                0 <= i < actions.len() && #[trigger] actions[i] is Spawn ==> i == 4
                    && spawn_in_order(args, events, actions[i])
            &&& forall|i: int|
                0 <= i < actions.len() && #[trigger] actions[i] is CreateLog ==> i == 2
                    && config_resolved(events)
            &&& forall|i: int|
                0 <= i < actions.len() && #[trigger] actions[i] is WriteHeader ==> i == 3
                    && config_resolved(events) && actions[i] == ActionView::WriteHeader(
                    header_text(args),
                )
            &&& s.phase == Phase::LogCreate ==> actions[2] is CreateLog
            &&& s.phase == Phase::Header ==> actions[2] is CreateLog && actions[3] is WriteHeader
            &&& s.phase == Phase::Spawn ==> actions[2] is CreateLog && actions[3] is WriteHeader
                && actions[4] is Spawn
        }),
    decreases events.len(),
{
    if events.len() > 0 {
        let prev = events.drop_last();
        let e = events.last();
        lemma_setup_in_order(args, prev);
        let (s0, a0) = run(initial(args), prev);
        let (s1, a) = next(s0, e);
        let actions = a0.push(a);
        assert(run(initial(args), events) == (s1, actions));
        assert(forall|i: int| 0 <= i < prev.len() ==> prev[i] == events[i]);
        assert forall|i: int| 0 <= i < actions.len() && #[trigger] actions[i] is Spawn implies i
            == 4 && spawn_in_order(args, events, actions[i]) by {
            if i < a0.len() {
                assert(actions[i] == a0[i]);
                assert(spawn_in_order(args, prev, a0[i]));
            }
        }
        assert forall|i: int| 0 <= i < actions.len() && #[trigger] actions[i] is CreateLog implies i
            == 2 && config_resolved(events) by {
            if i < a0.len() {
                assert(actions[i] == a0[i]);
                assert(config_resolved(prev));
            }
        }
        assert forall|i: int| 0 <= i < actions.len() && #[trigger] actions[i] is WriteHeader implies i
            == 3 && config_resolved(events) && actions[i] == ActionView::WriteHeader(
            header_text(args),
        ) by {
            if i < a0.len() {
                assert(actions[i] == a0[i]);
                assert(config_resolved(prev));
            }
        }
    }
}

/// Every run begins in the same way: the driver reports that it is ready and
/// is asked to read the configuration; the second event is the outcome of that
/// read, and the launcher's rule decides on it.
pub proof fn lemma_first_two_steps(args: Seq<Seq<char>>, events: Seq<Event>)
    requires
        follows_protocol(initial(args), events),
        events.len() >= 2,
    ensures
        events[0] is Started,
        events[1] is ConfigRead,
        follows_protocol(initial(args), events.take(2)),
        run(initial(args), events).1.len() == events.len(),
        run(initial(args), events).1.take(2) == run(initial(args), events.take(2)).1,
        run(initial(args), events.take(2)) == (
            next(in_phase(initial(args), Phase::Config), events[1]).0,
            seq![
                ActionView::ReadConfig,
                next(in_phase(initial(args), Phase::Config), events[1]).1,
            ],
        ),
{
    let e2 = events.take(2);
    let e1 = events.take(1);
    let e0 = events.take(0);
    lemma_prefix_follows(initial(args), events, 2);
    lemma_prefix_follows(initial(args), events, 1);
    assert(e1.drop_last() =~= e0);
    assert(e2.drop_last() =~= e1);
    assert(e1.last() == events[0]);
    assert(e2.last() == events[1]);
    assert(run(initial(args), e0) == (initial(args), Seq::<ActionView>::empty()));
    assert(run(initial(args), e1).0 == in_phase(initial(args), Phase::Config));
    assert(run(initial(args), e1).1 =~= seq![ActionView::ReadConfig]);
    assert(run(initial(args), e2).1 =~= seq![
        ActionView::ReadConfig,
        next(in_phase(initial(args), Phase::Config), events[1]).1,
    ]);
}

/// A run is over once it has reached its last phase: no further event is accepted.
pub proof fn lemma_done_is_final(args: Seq<Seq<char>>, events: Seq<Event>, n: int)
    requires
        follows_protocol(initial(args), events),
        0 <= n <= events.len(),
        run(initial(args), events.take(n)).0.phase == Phase::Done,
    ensures
        n == events.len(),
{
    if n < events.len() {
        let longer = events.take(n + 1);
        lemma_prefix_follows(initial(args), events, n + 1);
        assert(longer.drop_last() =~= events.take(n));
        assert(accepts(Phase::Done, longer.last()));
    }
}

/// A run whose configuration is unreadable, empty or of several lines is over
/// after the read: its second and last action ends the process with that
/// failure and its diagnostic. No log is created and no target is started.
pub proof fn lemma_refused_config_ends_run(args: Seq<Seq<char>>, events: Seq<Event>)
    requires
        follows_protocol(initial(args), events),
        events.len() >= 2,
        events[1] matches Event::ConfigRead(outcome) && resolution(outcome) is Err && resolution(
            outcome,
        ) != Err::<Seq<char>, Failure>(Failure::ConfigMissing),
    ensures
        ({
            let (s, actions) = run(initial(args), events);
            let outcome = events[1]->ConfigRead_0;
            let f = resolution(outcome)->Err_0;
            &&& events.len() == 2
            &&& s.phase == Phase::Done
            &&& actions == seq![
                ActionView::ReadConfig,
                ActionView::Exit {
                    termination: Termination::Failed(f),
                    diagnostic: diagnostic_text(
                        f,
                        Seq::empty(),
                        Seq::empty(),
                        read_error(outcome),
                    ),
                },
            ]
        }),
{
    lemma_first_two_steps(args, events);
    lemma_done_is_final(args, events, 2);
    assert(events.take(2) =~= events);
}

/// A run whose configuration file is missing asks for an empty one to be
/// created in its place and then ends with the failure for a missing
/// configuration, whether or not the file could be created. No log is created
/// and no target is started.
pub proof fn lemma_missing_config_ends_run(args: Seq<Seq<char>>, events: Seq<Event>)
    requires
        follows_protocol(initial(args), events),
        events.len() >= 3,
        events[1] matches Event::ConfigRead(outcome) && resolution(outcome) == Err::<
            Seq<char>,
            Failure,
        >(Failure::ConfigMissing),
    ensures
        ({
            let (s, actions) = run(initial(args), events);
            &&& events.len() == 3
            &&& events[2] is ConfigCreated
            &&& s.phase == Phase::Done
            &&& actions == seq![
                ActionView::ReadConfig,
                ActionView::CreateConfig,
                ActionView::Exit {
                    termination: Termination::Failed(Failure::ConfigMissing),
                    diagnostic: diagnostic_text(
                        Failure::ConfigMissing,
                        Seq::empty(),
                        Seq::empty(),
                        error_text(events[2]->ConfigCreated_0),
                    ),
                },
            ]
        }),
{
    lemma_first_two_steps(args, events);
    lemma_prefix_follows(initial(args), events, 3);
    let e3 = events.take(3);
    assert(e3.drop_last() =~= events.take(2));
    assert(e3.last() == events[2]);
    assert(run(initial(args), e3).0.phase == Phase::Done);
    lemma_done_is_final(args, events, 3);
    assert(e3 =~= events);
    assert(run(initial(args), events).1 =~= seq![
        ActionView::ReadConfig,
        ActionView::CreateConfig,
        ActionView::Exit {
            termination: Termination::Failed(Failure::ConfigMissing),
            diagnostic: diagnostic_text(
                Failure::ConfigMissing,
                Seq::empty(),
                Seq::empty(),
                error_text(events[2]->ConfigCreated_0),
            ),
        },
    ]);
}

/// A run in which the target cannot be started ends there, with the failure
/// for that and its diagnostic. The log has been created and holds its first
/// line, the invocation, and nothing else: no byte is handed to the log or to
/// standard output.
pub proof fn lemma_failed_spawn_ends_run(args: Seq<Seq<char>>, events: Seq<Event>, n: int)
    requires
        follows_protocol(initial(args), events),
        0 <= n < events.len(),
        events[n] matches Event::Spawned(Err(_)),
    ensures
        ({
            let (s, actions) = run(initial(args), events);
            &&& n == 5
            &&& events.len() == 6
            &&& s.phase == Phase::Done
            &&& actions[2] is CreateLog
            &&& actions[3] == ActionView::WriteHeader(header_text(args))
            &&& actions[5] matches ActionView::Exit { termination, .. } && termination
                == Termination::Failed(Failure::Spawn)
            &&& bytes_logged(actions).len() == 0
            &&& bytes_printed(actions).len() == 0
        }),
{
    let upto = events.take(n + 1);
    let before = events.take(n);
    lemma_prefix_follows(initial(args), events, n + 1);
    lemma_prefix_follows(initial(args), events, n);
    assert(upto.drop_last() =~= before);
    assert(upto.last() == events[n]);
    lemma_setup_in_order(args, before);
    lemma_relay_faithful(args, before);
    assert(run(initial(args), before).0.phase == Phase::Spawn);
    assert(run(initial(args), upto).0.phase == Phase::Done);
    lemma_done_is_final(args, events, n + 1);
    assert(upto =~= events);
    lemma_relay_faithful(args, events);
    lemma_setup_in_order(args, events);
    let actions = run(initial(args), events).1;
    assert(actions.drop_last() =~= run(initial(args), before).1);
    assert(actions[3] == run(initial(args), before).1[3]);
    assert(actions[2] == run(initial(args), before).1[2]);
    assert(bytes_read(events) =~= bytes_read(before) + event_bytes(events[n]));
}

/// Every beginning of a run that follows the protocol follows it too, and the
/// actions of the beginning are the beginning of the run's actions.
pub proof fn lemma_prefix_follows(s: LauncherView, events: Seq<Event>, n: int)
    requires
        follows_protocol(s, events),
    ensures
        0 <= n <= events.len() ==> {
            &&& follows_protocol(s, events.take(n))
            &&& run(s, events).1.len() == events.len()
            &&& run(s, events.take(n)).1 == run(s, events).1.take(n)
        },
    decreases events.len(),
{
    if 0 <= n <= events.len() {
        if n == events.len() {
            assert(events.take(n) =~= events);
            if events.len() > 0 {
                lemma_prefix_follows(s, events.drop_last(), n - 1);
            }
            assert(run(s, events).1.take(n) =~= run(s, events).1);
        } else {
            let prev = events.drop_last();
            lemma_prefix_follows(s, prev, n);
            assert(prev.take(n) =~= events.take(n));
            assert(run(s, prev).1.take(n) =~= run(s, events).1.take(n));
        }
    }
}

} // verus!
