//! What holds of the supervisor over whole sequences of events.

use vstd::prelude::*;
use vstd::multiset::Multiset;
use crate::error::{FatalError, Warning};
use crate::launch::LaunchOutcome;
use crate::machine::{
    lemma_step_keeps_well_formed, Action, Event, Phase, Stage, SupervisorConfig, SupervisorState,
};
use crate::port::PortPolicy;
use crate::probe::{deadline_passed, PollResult};

verus! {

/// The state after a sequence of events.
pub open spec fn run<P>(state: SupervisorState<P>, events: Seq<Event<P>>) -> SupervisorState<P>
    decreases events.len(),
{
    if events.len() == 0 {
        state
    } else {
        run(state.transition(events[0]).0, events.drop_first())
    }
}

/// The actions that a sequence of events brings forth, one for each event.
pub open spec fn actions<P>(state: SupervisorState<P>, events: Seq<Event<P>>) -> Seq<Action<P>>
    decreases events.len(),
{
    if events.len() == 0 {
        Seq::empty()
    } else {
        seq![state.transition(events[0]).1] + actions(
            state.transition(events[0]).0,
            events.drop_first(),
        )
    }
}

/// Running two sequences one after the other is running their concatenation.
pub proof fn lemma_run_concat<P>(
    state: SupervisorState<P>,
    first: Seq<Event<P>>,
    second: Seq<Event<P>>,
)
    ensures
        run(state, first + second) == run(run(state, first), second),
        actions(state, first + second) == actions(state, first) + actions(
            run(state, first),
            second,
        ),
    decreases first.len(),
{
    if first.len() == 0 {
        assert(first + second =~= second);
        assert(actions(state, first) + actions(run(state, first), second) =~= actions(
            state,
            second,
        ));
    } else {
        let all = first + second;
        assert(all[0] == first[0]);
        assert(all.drop_first() =~= first.drop_first() + second);
        let next = state.transition(first[0]).0;
        lemma_run_concat(next, first.drop_first(), second);
        assert(actions(state, all) =~= actions(state, first) + actions(run(state, first), second));
    }
}

/// One action for each event.
pub proof fn lemma_actions_len<P>(state: SupervisorState<P>, events: Seq<Event<P>>)
    ensures
        actions(state, events).len() == events.len(),
    decreases events.len(),
{
    if events.len() > 0 {
        lemma_actions_len(state.transition(events[0]).0, events.drop_first());
    }
}

/// Every sequence of events keeps a well-formed state well formed; the
/// state before startup is well formed.
pub proof fn lemma_run_keeps_well_formed<P>(state: SupervisorState<P>, events: Seq<Event<P>>)
    requires
        state.well_formed(),
    ensures
        run(state, events).well_formed(),
    decreases events.len(),
{
    if events.len() > 0 {
        lemma_step_keeps_well_formed(state, events[0]);
        lemma_run_keeps_well_formed(state.transition(events[0]).0, events.drop_first());
    }
}

/// The port is written once: from the moment the handle is published, no
/// sequence of events changes the port that is reported.
pub proof fn lemma_port_is_written_once<P>(state: SupervisorState<P>, events: Seq<Event<P>>)
    requires
        state.well_formed(),
        state.port() is Some,
    ensures
        run(state, events).port() == state.port(),
    decreases events.len(),
{
    if events.len() > 0 {
        lemma_step_keeps_well_formed(state, events[0]);
        lemma_port_is_written_once(state.transition(events[0]).0, events.drop_first());
    }
}

/// With a fixed-port policy the port that is reported after startup, in
/// whatever way the startup went and whatever came after it, is the
/// configured constant.
pub proof fn lemma_fixed_port_is_reported<P>(
    config: SupervisorConfig,
    port: u16,
    events: Seq<Event<P>>,
)
    requires
        config.policy == PortPolicy::Fixed(port),
    ensures
        run(SupervisorState::<P>::initial(config), events).port() is Some ==> run(
            SupervisorState::<P>::initial(config),
            events,
        ).port() == Some(port),
        run(SupervisorState::<P>::initial(config), events).stage is Ready ==> run(
            SupervisorState::<P>::initial(config),
            events,
        ).port() == Some(port),
{
    let start = SupervisorState::<P>::initial(config);
    lemma_config_is_kept(start, events);
    lemma_run_keeps_well_formed(start, events);
}

/// The configuration never changes.
pub proof fn lemma_config_is_kept<P>(state: SupervisorState<P>, events: Seq<Event<P>>)
    ensures
        run(state, events).config == state.config,
    decreases events.len(),
{
    if events.len() > 0 {
        lemma_config_is_kept(state.transition(events[0]).0, events.drop_first());
    }
}

/// `Terminated` is absorbing: no event changes a terminated supervisor.
pub proof fn lemma_terminated_is_absorbing<P>(state: SupervisorState<P>, events: Seq<Event<P>>)
    requires
        state.well_formed(),
        state.stage is Terminated,
    ensures
        run(state, events) == state,
    decreases events.len(),
{
    if events.len() > 0 {
        assert(state.transition(events[0]).0 == state);
        lemma_terminated_is_absorbing(state, events.drop_first());
    }
}

/// No restart: a handle that was published empty, or was emptied by
/// termination, never holds a process again.
pub proof fn lemma_empty_handle_stays_empty<P>(state: SupervisorState<P>, events: Seq<Event<P>>)
    requires
        state.well_formed(),
        state.handle is Some,
        state.process() is None,
    ensures
        run(state, events).handle is Some,
        run(state, events).process() is None,
    decreases events.len(),
{
    if events.len() > 0 {
        lemma_step_keeps_well_formed(state, events[0]);
        lemma_empty_handle_stays_empty(state.transition(events[0]).0, events.drop_first());
    }
}

/// The place of a phase in the order of a backend's life.
pub open spec fn phase_rank(phase: Phase) -> nat {
    match phase {
        Phase::Uninitialized => 0,
        Phase::Starting => 1,
        Phase::Ready => 2,
        Phase::Terminated => 3,
    }
}

/// The phases are passed in their order: no step leads back to an earlier
/// one. A startup that failed never becomes ready: it stays failed until
/// termination.
pub proof fn lemma_phases_only_advance<P>(state: SupervisorState<P>, event: Event<P>)
    requires
        state.well_formed(),
    ensures
        phase_rank(state.stage.phase()) <= phase_rank(state.transition(event).0.stage.phase()),
        state.transition(event).0.stage is Ready ==> !(state.stage is Failed),
        state.stage is Failed ==> state.transition(event).0.stage is Failed
            || state.transition(event).0.stage is Terminated,
{
}

/// Every action fits the state that it leaves behind. Success is reported
/// only with the handle published and the application ready, failure only
/// with startup failed. What the host is asked to do is asked of the
/// resolved port: a launch only when packaged, a health request only while
/// a process is held, a pause only of the polling interval. A fixed policy
/// never has the host probe for a port, and development never has it
/// launch or poll.
pub proof fn lemma_actions_fit_the_state<P>(state: SupervisorState<P>, event: Event<P>)
    requires
        state.well_formed(),
    ensures
        ({
            let (next, action) = state.transition(event);
            match action {
                Action::Idle => next == state || event is Shutdown,
                Action::ProbePort => next.stage is ResolvingPort && state.config.policy is Ephemeral,
                Action::Launch { port } => {
                    &&& next.stage is Launching
                    &&& state.config.mode is Packaged
                    &&& next.assignment matches Some(assignment) && assignment.number() == port
                },
                Action::Poll { port } => {
                    &&& next.stage is Polling
                    &&& state.config.mode is Packaged
                    &&& next.process() is Some
                    &&& next.port() == Some(port)
                },
                Action::Sleep { millis } => {
                    &&& next.stage is Sleeping
                    &&& next.process() is Some
                    &&& millis == state.config.poll_interval_ms
                },
                Action::Finish { warning } => {
                    &&& next.stage is Ready
                    &&& next.port() is Some
                    &&& warning is Some ==> next.process() is None
                },
                Action::Abort { error } => next.stage is Failed,
                Action::Kill { process } => next.process() is None || state.process() == next.process(),
            }
        }),
{
}

/// The process that an action has the host signal: one or none.
pub open spec fn signalled_by<P>(action: Action<P>) -> Multiset<P> {
    match action {
        Action::Kill { process } => Multiset::singleton(process),
        _ => Multiset::empty(),
    }
}

/// The process that the host hands over with an event: one or none.
pub open spec fn handed_by<P>(event: Event<P>) -> Multiset<P> {
    match event {
        Event::Launched(LaunchOutcome::Spawned(process)) => Multiset::singleton(process),
        _ => Multiset::empty(),
    }
}

/// The process that a state holds: one or none.
pub open spec fn held<P>(state: SupervisorState<P>) -> Multiset<P> {
    match state.process() {
        Some(process) => Multiset::singleton(process),
        None => Multiset::empty(),
    }
}

/// The processes that a sequence of actions has the host signal.
pub open spec fn signalled<P>(actions: Seq<Action<P>>) -> Multiset<P>
    decreases actions.len(),
{
    if actions.len() == 0 {
        Multiset::empty()
    } else {
        signalled_by(actions[0]).add(signalled(actions.drop_first()))
    }
}

/// The processes that the host hands over in a sequence of events.
pub open spec fn handed_over<P>(events: Seq<Event<P>>) -> Multiset<P>
    decreases events.len(),
{
    if events.len() == 0 {
        Multiset::empty()
    } else {
        handed_by(events[0]).add(handed_over(events.drop_first()))
    }
}

/// In one step, the process held before and the one handed over are the
/// one signalled and the one held after.
pub proof fn lemma_step_accounts_for_processes<P>(state: SupervisorState<P>, event: Event<P>)
    requires
        state.well_formed(),
    ensures
        held(state).add(handed_by(event)) == signalled_by(state.transition(event).1).add(
            held(state.transition(event).0),
        ),
{
    assert(held(state).add(handed_by(event)) =~= signalled_by(state.transition(event).1).add(
        held(state.transition(event).0),
    ));
}

/// No process is lost and none is signalled twice: over every sequence of
/// events, the processes held at first and handed over since are those that
/// the host was told to signal and the one still held, each as often on one
/// side as on the other.
pub proof fn lemma_processes_are_accounted_for<P>(
    state: SupervisorState<P>,
    events: Seq<Event<P>>,
)
    requires
        state.well_formed(),
    ensures
        held(state).add(handed_over(events)) == signalled(actions(state, events)).add(
            held(run(state, events)),
        ),
    decreases events.len(),
{
    if events.len() == 0 {
        assert(held(state).add(handed_over(events)) =~= signalled(actions(state, events)).add(
            held(run(state, events)),
        ));
    } else {
        let (next, action) = state.transition(events[0]);
        let rest = events.drop_first();
        lemma_step_keeps_well_formed(state, events[0]);
        lemma_step_accounts_for_processes(state, events[0]);
        lemma_processes_are_accounted_for(next, rest);
        let all = actions(state, events);
        assert(all[0] == action);
        assert(all.drop_first() =~= actions(next, rest));
        assert(signalled(all) == signalled_by(action).add(signalled(actions(next, rest))));
        assert(handed_over(events) == handed_by(events[0]).add(handed_over(rest)));
        assert(held(state).add(handed_over(events)) =~= held(state).add(handed_by(events[0])).add(
            handed_over(rest),
        ));
        assert(signalled(all).add(held(run(state, events))) =~= signalled_by(action).add(
            signalled(actions(next, rest)).add(held(run(next, rest))),
        ));
        assert(held(state).add(handed_by(events[0])).add(handed_over(rest)) =~= signalled_by(
            action,
        ).add(held(next).add(handed_over(rest))));
    }
}

/// A shutdown trigger that fires `count` times in a row.
pub open spec fn shutdowns<P>(count: nat) -> Seq<Event<P>> {
    Seq::new(count, |i: int| Event::Shutdown)
}

/// Termination is idempotent. However often the shutdown trigger fires, the
/// state is that after the first firing: terminated, the handle empty, the
/// port as it was. The first firing has the process signalled if one was
/// held, and every further one does nothing, so that exactly one signal is
/// sent to a child that ran and none where none ran.
pub proof fn lemma_termination_is_idempotent<P>(state: SupervisorState<P>, count: nat)
    requires
        state.well_formed(),
        count >= 1,
    ensures
        run(state, shutdowns::<P>(count)) == state.shut_down().0,
        run(state, shutdowns::<P>(count)).stage is Terminated,
        run(state, shutdowns::<P>(count)).process() is None,
        run(state, shutdowns::<P>(count)).port() == state.port(),
        actions(state, shutdowns::<P>(count)).len() == count,
        actions(state, shutdowns::<P>(count))[0] == state.shut_down().1,
        forall|i: int| 1 <= i < count ==> #[trigger] actions(state, shutdowns::<P>(count))[i] is Idle,
        signalled(actions(state, shutdowns::<P>(count))) == held(state),
{
    let events = shutdowns::<P>(count);
    let after = state.shut_down().0;
    assert(events[0] == Event::<P>::Shutdown);
    assert(events.drop_first() =~= shutdowns::<P>((count - 1) as nat));
    lemma_step_keeps_well_formed(state, events[0]);
    lemma_terminated_is_absorbing(after, events.drop_first());
    lemma_actions_len(state, events);
    lemma_further_shutdowns_do_nothing(after, (count - 1) as nat);
    let all = actions(state, events);
    assert(all.drop_first() =~= actions(after, events.drop_first()));
    assert forall|i: int| 1 <= i < count implies #[trigger] all[i] is Idle by {
        assert(all[i] == all.drop_first()[i - 1]);
    }
    lemma_processes_are_accounted_for(state, events);
    assert(handed_over(events) == Multiset::<P>::empty()) by {
        lemma_shutdowns_hand_over_nothing::<P>(count);
    }
    assert(held(after) == Multiset::<P>::empty());
    assert(signalled(all).add(Multiset::<P>::empty()) =~= signalled(all));
    assert(held(state).add(Multiset::<P>::empty()) =~= held(state));
}

proof fn lemma_shutdowns_hand_over_nothing<P>(count: nat)
    ensures
        handed_over(shutdowns::<P>(count)) == Multiset::<P>::empty(),
    decreases count,
{
    if count > 0 {
        assert(shutdowns::<P>(count).drop_first() =~= shutdowns::<P>((count - 1) as nat));
        lemma_shutdowns_hand_over_nothing::<P>((count - 1) as nat);
    }
}

proof fn lemma_further_shutdowns_do_nothing<P>(state: SupervisorState<P>, count: nat)
    requires
        state.well_formed(),
        state.stage is Terminated,
    ensures
        actions(state, shutdowns::<P>(count)).len() == count,
        forall|i: int| 0 <= i < count ==> #[trigger] actions(state, shutdowns::<P>(count))[i] is Idle,
    decreases count,
{
    let events = shutdowns::<P>(count);
    lemma_actions_len(state, events);
    if count > 0 {
        assert(events[0] == Event::<P>::Shutdown);
        assert(state.transition(events[0]).0 == state);
        assert(events.drop_first() =~= shutdowns::<P>((count - 1) as nat));
        lemma_further_shutdowns_do_nothing(state, (count - 1) as nat);
        let all = actions(state, events);
        assert(all.drop_first() =~= actions(state, events.drop_first()));
        assert forall|i: int| 0 <= i < count implies #[trigger] all[i] is Idle by {
            if i > 0 {
                assert(all[i] == all.drop_first()[i - 1]);
            }
        }
    }
}

/// A missing executable is recovered from. Startup completes with a warning
/// and no error, the resolved port is the one given out from then on, and
/// no process is ever held, whatever comes later.
pub proof fn lemma_missing_binary_is_recovered<P>(
    state: SupervisorState<P>,
    later: Seq<Event<P>>,
)
    requires
        state.well_formed(),
        state.stage is Launching,
    ensures
        ({
            let (next, action) = state.transition(Event::Launched(LaunchOutcome::BinaryMissing));
            &&& action == Action::<P>::Finish { warning: Some(Warning::MissingBinary) }
            &&& next.stage is Ready
            &&& next.process() is None
            &&& state.assignment matches Some(assignment) && next.port() == Some(
                assignment.number(),
            )
            &&& run(next, later).port() == next.port()
            &&& run(next, later).process() is None
        }),
{
    let event = Event::<P>::Launched(LaunchOutcome::BinaryMissing);
    let next = state.transition(event).0;
    lemma_step_keeps_well_formed(state, event);
    lemma_port_is_written_once(next, later);
    lemma_empty_handle_stays_empty(next, later);
}

/// The readiness timeout never comes early. A step aborts with it only on a
/// clock reading at or past the deadline, or at the very start of the probe
/// when the timeout is zero.
pub proof fn lemma_timeout_never_early<P>(state: SupervisorState<P>, event: Event<P>)
    requires
        state.well_formed(),
        state.transition(event).1 matches Action::Abort { error }
            && error is ReadinessTimeout,
    ensures
        state.transition(event).1 == (Action::<P>::Abort {
            error: FatalError::ReadinessTimeout { timeout_secs: state.config.timeout_secs },
        }),
        match event {
            Event::Slept { elapsed_ms } => state.stage is Sleeping && deadline_passed(
                elapsed_ms,
                state.config.timeout_secs,
            ),
            Event::Launched(LaunchOutcome::Spawned(_)) => state.stage is Launching
                && state.config.timeout_secs == 0,
            _ => false,
        },
{
}

/// The application is marked ready only when the backend answered its
/// health check with success, or when no process was launched at all.
pub proof fn lemma_ready_means_reachable<P>(state: SupervisorState<P>, event: Event<P>)
    requires
        state.well_formed(),
        !(state.stage is Ready),
        state.transition(event).0.stage is Ready,
    ensures
        state.transition(event).1 is Finish,
        match event {
            Event::Polled(result) => state.stage is Polling && result.is_success(),
            _ => state.transition(event).0.process() is None,
        },
{
}

/// One more event: the state is that of the step from where the others led,
/// and its action comes last.
pub proof fn lemma_run_push<P>(state: SupervisorState<P>, events: Seq<Event<P>>, event: Event<P>)
    ensures
        run(state, events.push(event)) == run(state, events).transition(event).0,
        actions(state, events.push(event)) == actions(state, events).push(
            run(state, events).transition(event).1,
        ),
{
    let last = seq![event];
    assert(events.push(event) =~= events + last);
    lemma_run_concat(state, events, last);
    let from = run(state, events);
    let next = from.transition(event).0;
    assert(last[0] == event);
    assert(last.drop_first() =~= Seq::<Event<P>>::empty());
    assert(run(next, Seq::<Event<P>>::empty()) == next);
    assert(actions(next, Seq::<Event<P>>::empty()) =~= Seq::<Action<P>>::empty());
    assert(run(from, last) == next);
    assert(actions(from, last) =~= seq![from.transition(event).1]);
    assert(actions(state, events) + seq![from.transition(event).1] =~= actions(state, events).push(
        from.transition(event).1,
    ));
}

/// One round of the readiness probe as the host saw it: what the request
/// came to, and the clock after the pause that followed.
pub struct Round {
    pub result: PollResult,
    pub elapsed_ms: u64,
}

/// The events that the host reports over some rounds of the probe.
pub open spec fn round_events<P>(rounds: Seq<Round>) -> Seq<Event<P>>
    decreases rounds.len(),
{
    if rounds.len() == 0 {
        Seq::empty()
    } else {
        round_events::<P>(rounds.drop_last()).push(Event::Polled(rounds.last().result)).push(
            Event::Slept { elapsed_ms: rounds.last().elapsed_ms },
        )
    }
}

/// The time that a sequence of actions has the host pause, in milliseconds.
pub open spec fn paused_ms<P>(actions: Seq<Action<P>>) -> nat
    decreases actions.len(),
{
    if actions.len() == 0 {
        0
    } else {
        let rest = paused_ms(actions.drop_last());
        match actions.last() {
            Action::Sleep { millis } => rest + millis as nat,
            _ => rest,
        }
    }
}

/// A round in which the request fails and the pause ends before the deadline.
pub open spec fn goes_on(round: Round, timeout_secs: u64) -> bool {
    !round.result.is_success() && !deadline_passed(round.elapsed_ms, timeout_secs)
}

/// While every request fails and the clock stays before the deadline, the
/// probe goes on: it is back at polling after every round, with nothing
/// else changed, and has paused for the polling interval once per round.
pub proof fn lemma_probe_goes_on<P>(state: SupervisorState<P>, rounds: Seq<Round>)
    requires
        state.well_formed(),
        state.stage is Polling,
        forall|i: int| 0 <= i < rounds.len() ==> goes_on(#[trigger] rounds[i], state.config.timeout_secs),
    ensures
        run(state, round_events::<P>(rounds)) == state,
        paused_ms(actions(state, round_events::<P>(rounds))) == rounds.len()
            * state.config.poll_interval_ms,
    decreases rounds.len(),
{
    let interval = state.config.poll_interval_ms;
    if rounds.len() == 0 {
        assert(paused_ms(actions(state, round_events::<P>(rounds))) == 0);
        assert(0 * interval == 0);
    } else {
        let before = rounds.drop_last();
        let round = rounds.last();
        assert(goes_on(round, state.config.timeout_secs));
        assert forall|i: int| 0 <= i < before.len() implies goes_on(
            #[trigger] before[i],
            state.config.timeout_secs,
        ) by {
            assert(before[i] == rounds[i]);
        }
        lemma_probe_goes_on(state, before);
        let first = round_events::<P>(before);
        let polled = Event::<P>::Polled(round.result);
        let slept = Event::<P>::Slept { elapsed_ms: round.elapsed_ms };
        lemma_run_push(state, first, polled);
        lemma_run_push(state, first.push(polled), slept);
        let sleeping = state.transition(polled).0;
        assert(sleeping == state.at(Stage::Sleeping));
        assert(sleeping.transition(slept).0 == state);
        let acts = actions(state, first);
        let sleep = Action::<P>::Sleep { millis: interval };
        assert(actions(state, round_events::<P>(rounds)) == acts.push(sleep).push(
            sleeping.transition(slept).1,
        ));
        assert(acts.push(sleep).push(sleeping.transition(slept).1).drop_last() =~= acts.push(
            sleep,
        ));
        assert(acts.push(sleep).drop_last() =~= acts);
        assert(paused_ms(acts.push(sleep)) == paused_ms(acts) + interval);
        assert(rounds.len() * interval == (rounds.len() - 1) * interval + interval)
            by (nonlinear_arith);
    }
}

/// If the health endpoint never answers with success, startup fails with
/// the readiness timeout, and not before the deadline: the probe goes on
/// through every round that ends before the deadline, and the first clock
/// reading at or past it aborts the startup. By then the probe has paused
/// for the polling interval once per round.
pub proof fn lemma_timeout_after_the_deadline<P>(
    state: SupervisorState<P>,
    rounds: Seq<Round>,
    last: Round,
)
    requires
        state.well_formed(),
        state.stage is Polling,
        forall|i: int| 0 <= i < rounds.len() ==> goes_on(#[trigger] rounds[i], state.config.timeout_secs),
        !last.result.is_success(),
        deadline_passed(last.elapsed_ms, state.config.timeout_secs),
    ensures
        run(state, round_events::<P>(rounds)) == state,
        run(state, round_events::<P>(rounds.push(last))) == state.at(Stage::Failed),
        actions(state, round_events::<P>(rounds.push(last))).last() == (Action::<P>::Abort {
            error: FatalError::ReadinessTimeout { timeout_secs: state.config.timeout_secs },
        }),
        paused_ms(actions(state, round_events::<P>(rounds.push(last)))) == (rounds.len() + 1)
            * state.config.poll_interval_ms,
{
    let interval = state.config.poll_interval_ms;
    let all = rounds.push(last);
    assert(all.drop_last() =~= rounds);
    assert(all.last() == last);
    lemma_probe_goes_on(state, rounds);
    let first = round_events::<P>(rounds);
    let polled = Event::<P>::Polled(last.result);
    let slept = Event::<P>::Slept { elapsed_ms: last.elapsed_ms };
    lemma_run_push(state, first, polled);
    lemma_run_push(state, first.push(polled), slept);
    let sleeping = state.transition(polled).0;
    assert(sleeping == state.at(Stage::Sleeping));
    let acts = actions(state, first);
    let sleep = Action::<P>::Sleep { millis: interval };
    let abort = sleeping.transition(slept).1;
    assert(actions(state, round_events::<P>(all)) == acts.push(sleep).push(abort));
    assert(acts.push(sleep).push(abort).drop_last() =~= acts.push(sleep));
    assert(acts.push(sleep).drop_last() =~= acts);
    assert(paused_ms(acts.push(sleep)) == paused_ms(acts) + interval);
    assert((rounds.len() + 1) * interval == rounds.len() * interval + interval)
        by (nonlinear_arith);
}

/// The rounds of a probe whose requests come to `results`, on a clock on
/// which a request takes no time and every pause takes `interval_ms`.
pub open spec fn steady_rounds(results: Seq<PollResult>, interval_ms: u64) -> Seq<Round> {
    Seq::new(
        results.len(),
        |i: int| Round { result: results[i], elapsed_ms: ((i + 1) * interval_ms) as u64 },
    )
}

/// On a clock on which a request takes no time and every pause takes the
/// polling interval exactly, a backend that never answers with success has
/// startup fail when the deadline is reached or passed by less than one
/// polling interval: after `count` rounds, where `count` times the interval
/// is the first multiple of it that is no less than the timeout.
pub proof fn lemma_timeout_on_a_steady_clock<P>(
    state: SupervisorState<P>,
    results: Seq<PollResult>,
)
    requires
        state.well_formed(),
        state.stage is Polling,
        results.len() >= 1,
        forall|i: int| 0 <= i < results.len() ==> !(#[trigger] results[i]).is_success(),
        results.len() * state.config.poll_interval_ms <= u64::MAX,
        (results.len() - 1) * state.config.poll_interval_ms < state.config.timeout_secs * 1000,
        state.config.timeout_secs * 1000 <= results.len() * state.config.poll_interval_ms,
    ensures
        run(state, round_events::<P>(steady_rounds(results, state.config.poll_interval_ms)))
            == state.at(Stage::Failed),
        actions(
            state,
            round_events::<P>(steady_rounds(results, state.config.poll_interval_ms)),
        ).last() == (Action::<P>::Abort {
            error: FatalError::ReadinessTimeout { timeout_secs: state.config.timeout_secs },
        }),
        state.config.timeout_secs * 1000 <= paused_ms(
            actions(state, round_events::<P>(steady_rounds(results, state.config.poll_interval_ms))),
        ) < state.config.timeout_secs * 1000 + state.config.poll_interval_ms,
{
    let interval = state.config.poll_interval_ms;
    let timeout = state.config.timeout_secs;
    let all = steady_rounds(results, interval);
    let rounds = all.drop_last();
    let last = all.last();
    let count = results.len();
    assert(all =~= rounds.push(last));
    assert(last.elapsed_ms == count * interval);
    assert forall|i: int| 0 <= i < rounds.len() implies goes_on(#[trigger] rounds[i], timeout) by {
        assert(rounds[i] == all[i]);
        assert((i + 1) * interval <= (count - 1) * interval) by (nonlinear_arith)
            requires
                0 <= i + 1 <= count - 1,
                0 <= interval,
        ;
    }
    lemma_timeout_after_the_deadline(state, rounds, last);
    assert((rounds.len() + 1) * interval == count * interval);
    assert(count * interval == (count - 1) * interval + interval) by (nonlinear_arith);
}

/// If the health endpoint answers with success on some request, after
/// rounds that failed before the deadline, startup succeeds on that
/// request, and the probe has paused for the polling interval once for
/// each request before it: one interval less than requests were sent.
pub proof fn lemma_ready_on_first_success<P>(
    state: SupervisorState<P>,
    rounds: Seq<Round>,
    success: PollResult,
)
    requires
        state.well_formed(),
        state.stage is Polling,
        forall|i: int| 0 <= i < rounds.len() ==> goes_on(#[trigger] rounds[i], state.config.timeout_secs),
        success.is_success(),
    ensures
        run(state, round_events::<P>(rounds).push(Event::Polled(success))) == state.at(
            Stage::Ready,
        ),
        actions(state, round_events::<P>(rounds).push(Event::Polled(success))).last() == (
        Action::<P>::Finish { warning: None }),
        paused_ms(actions(state, round_events::<P>(rounds).push(Event::Polled(success))))
            == rounds.len() * state.config.poll_interval_ms,
{
    lemma_probe_goes_on(state, rounds);
    let first = round_events::<P>(rounds);
    let polled = Event::<P>::Polled(success);
    lemma_run_push(state, first, polled);
    let acts = actions(state, first);
    let finish = Action::<P>::Finish { warning: None };
    assert(actions(state, first.push(polled)) == acts.push(finish));
    assert(acts.push(finish).drop_last() =~= acts);
}

/// On a clock on which a request takes no time and every pause takes the
/// polling interval exactly, a backend that answers with success on some
/// request, sent before the deadline, has startup succeed on that request:
/// after one polling interval for each request that failed before it.
pub proof fn lemma_ready_on_a_steady_clock<P>(
    state: SupervisorState<P>,
    failures: Seq<PollResult>,
    success: PollResult,
)
    requires
        state.well_formed(),
        state.stage is Polling,
        forall|i: int| 0 <= i < failures.len() ==> !(#[trigger] failures[i]).is_success(),
        success.is_success(),
        failures.len() * state.config.poll_interval_ms <= u64::MAX,
        failures.len() * state.config.poll_interval_ms < state.config.timeout_secs * 1000,
    ensures
        run(
            state,
            round_events::<P>(steady_rounds(failures, state.config.poll_interval_ms)).push(
                Event::Polled(success),
            ),
        ) == state.at(Stage::Ready),
        paused_ms(
            actions(
                state,
                round_events::<P>(steady_rounds(failures, state.config.poll_interval_ms)).push(
                    Event::Polled(success),
                ),
            ),
        ) == failures.len() * state.config.poll_interval_ms,
{
    let interval = state.config.poll_interval_ms;
    let rounds = steady_rounds(failures, interval);
    let count = failures.len();
    assert forall|i: int| 0 <= i < rounds.len() implies goes_on(
        #[trigger] rounds[i],
        state.config.timeout_secs,
    ) by {
        assert((i + 1) * interval <= count * interval) by (nonlinear_arith)
            requires
                0 <= i + 1 <= count,
                0 <= interval,
        ;
    }
    lemma_ready_on_first_success(state, rounds, success);
}

} // verus!
