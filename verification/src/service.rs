//! The telemetry loop as a state machine: sample, publish, sleep, and stop
//! once nobody listens.
//!
//! The loop itself runs outside, on its own thread. It performs the action
//! it is told, reports what happened, and is told the next action.

use vstd::prelude::*;

verus! {

/// The pause between two samples when none is chosen: one second.
pub const DEFAULT_INTERVAL_MILLIS: u64 = 1000;

/// What the loop is waiting for.
#[derive(Clone, Copy, Debug, PartialEq, Eq, Structural)]
pub enum ServicePhase {
    /// A snapshot is being taken.
    Sampling,
    /// The snapshot is being handed to the channel.
    Publishing,
    /// The loop pauses until the next sample is due.
    Sleeping,
    /// The loop has ended.
    Stopped,
}

/// What the loop has to do next.
#[derive(Clone, Copy, Debug, PartialEq, Eq, Structural)]
pub enum ServiceAction {
    /// Take a snapshot of the host.
    Sample,
    /// Hand the snapshot just taken to the channel.
    Publish,
    /// Pause for this many milliseconds.
    Sleep(u64),
    /// Leave the loop.
    Stop,
}

/// What happened to the action last given.
#[derive(Clone, Copy, Debug, PartialEq, Eq, Structural)]
pub enum ServiceEvent {
    /// The snapshot was taken.
    Sampled,
    /// The channel took the snapshot.
    Published,
    /// The channel refused the snapshot: it has no receiver left.
    ReceiverClosed,
    /// The pause is over.
    Slept,
}

/// The phase that follows `phase` on `event`. An event that does not answer
/// what the phase waits for changes nothing.
pub open spec fn next_phase(phase: ServicePhase, event: ServiceEvent) -> ServicePhase {
    match (phase, event) {
        (ServicePhase::Sampling, ServiceEvent::Sampled) => ServicePhase::Publishing,
        (ServicePhase::Publishing, ServiceEvent::Published) => ServicePhase::Sleeping,
        (ServicePhase::Publishing, ServiceEvent::ReceiverClosed) => ServicePhase::Stopped,
        (ServicePhase::Sleeping, ServiceEvent::Slept) => ServicePhase::Sampling,
        _ => phase,
    }
}

/// The action that a phase waits for.
pub open spec fn pending_action(phase: ServicePhase, interval_millis: u64) -> ServiceAction {
    match phase {
        ServicePhase::Sampling => ServiceAction::Sample,
        ServicePhase::Publishing => ServiceAction::Publish,
        ServicePhase::Sleeping => ServiceAction::Sleep(interval_millis),
        ServicePhase::Stopped => ServiceAction::Stop,
    }
}

/// The phase reached from `phase` by a run of events.
pub open spec fn phase_after(phase: ServicePhase, events: Seq<ServiceEvent>) -> ServicePhase
    decreases events.len(),
{
    if events.len() == 0 {
        phase
    } else {
        next_phase(phase_after(phase, events.drop_last()), events.last())
    }
}

/// The number of publish attempts that a run of events from `phase` has seen
/// the end of, delivered or not.
pub open spec fn publish_attempts(phase: ServicePhase, events: Seq<ServiceEvent>) -> nat
    decreases events.len(),
{
    if events.len() == 0 {
        0
    } else {
        let before = phase_after(phase, events.drop_last());
        let counted: nat = if before == ServicePhase::Publishing && (events.last()
            == ServiceEvent::Published || events.last() == ServiceEvent::ReceiverClosed) {
            1
        } else {
            0
        };
        publish_attempts(phase, events.drop_last()) + counted
    }
}

/// The number of snapshots that a run of events from `phase` has seen
/// taken.
pub open spec fn samples_taken(phase: ServicePhase, events: Seq<ServiceEvent>) -> nat
    decreases events.len(),
{
    if events.len() == 0 {
        0
    } else {
        let before = phase_after(phase, events.drop_last());
        let counted: nat = if before == ServicePhase::Sampling && events.last()
            == ServiceEvent::Sampled {
            1
        } else {
            0
        };
        samples_taken(phase, events.drop_last()) + counted
    }
}

/// The number of snapshots that are taken and not yet handed to the channel
/// in a phase: one while publishing, else none.
pub open spec fn snapshots_in_hand(phase: ServicePhase) -> nat {
    if phase == ServicePhase::Publishing {
        1
    } else {
        0
    }
}

/// The events of one round of the loop in which the snapshot is delivered.
pub open spec fn delivered_round() -> Seq<ServiceEvent> {
    seq![ServiceEvent::Sampled, ServiceEvent::Published, ServiceEvent::Slept]
}

/// The events of the round in which the channel turns out to be closed.
pub open spec fn closing_round() -> Seq<ServiceEvent> {
    seq![ServiceEvent::Sampled, ServiceEvent::ReceiverClosed]
}

/// The events of `rounds` delivered rounds in a row.
pub open spec fn delivered_rounds(rounds: nat) -> Seq<ServiceEvent>
    decreases rounds,
{
    if rounds == 0 {
        Seq::empty()
    } else {
        delivered_rounds((rounds - 1) as nat) + delivered_round()
    }
}

/// The abstract state of a `TelemetryService`.
pub struct ServiceView {
    pub phase: ServicePhase,
    pub interval_millis: u64,
}

/// The periodic sampling loop, seen from the inside.
#[derive(Clone, Copy, Debug, PartialEq, Eq)]
pub struct TelemetryService {
    phase: ServicePhase,
    interval_millis: u64,
}

impl View for TelemetryService {
    type V = ServiceView;

    closed spec fn view(&self) -> ServiceView {
        ServiceView { phase: self.phase, interval_millis: self.interval_millis }
    }
}

impl TelemetryService {
    /// A loop that pauses `interval_millis` between samples, about to take
    /// its first one.
    pub fn start(interval_millis: u64) -> (service: TelemetryService)
        ensures
            service@.phase == ServicePhase::Sampling,
            service@.interval_millis == interval_millis,
    {
        TelemetryService { phase: ServicePhase::Sampling, interval_millis }
    }

    /// The action that the loop has to perform now.
    pub fn action(&self) -> (action: ServiceAction)
        ensures
            action == pending_action(self@.phase, self@.interval_millis),
    {
        match self.phase {
            ServicePhase::Sampling => ServiceAction::Sample,
            ServicePhase::Publishing => ServiceAction::Publish,
            ServicePhase::Sleeping => ServiceAction::Sleep(self.interval_millis),
            ServicePhase::Stopped => ServiceAction::Stop,
        }
    }

    /// Takes in what happened to the action last given and tells the next
    /// one. The loop ends the first time a publish attempt finds the
    /// channel closed, and never starts again.
    pub fn advance(&mut self, event: ServiceEvent) -> (action: ServiceAction)
        ensures
            final(self)@.phase == next_phase(old(self)@.phase, event),
            final(self)@.interval_millis == old(self)@.interval_millis,
            action == pending_action(final(self)@.phase, final(self)@.interval_millis),
            old(self)@.phase == ServicePhase::Stopped ==> action == ServiceAction::Stop,
    {
        let next = match (self.phase, event) {
            (ServicePhase::Sampling, ServiceEvent::Sampled) => ServicePhase::Publishing,
            (ServicePhase::Publishing, ServiceEvent::Published) => ServicePhase::Sleeping,
            (ServicePhase::Publishing, ServiceEvent::ReceiverClosed) => ServicePhase::Stopped,
            (ServicePhase::Sleeping, ServiceEvent::Slept) => ServicePhase::Sampling,
            (phase, _) => phase,
        };
        self.phase = next;
        self.action()
    }

    /// What the loop is waiting for.
    pub fn phase(&self) -> (phase: ServicePhase)
        ensures
            phase == self@.phase,
    {
        self.phase
    }

    /// The pause between two samples, in milliseconds.
    pub fn interval_millis(&self) -> (interval: u64)
        ensures
            interval == self@.interval_millis,
    {
        self.interval_millis
    }

    /// Whether the loop has ended.
    pub fn is_stopped(&self) -> (stopped: bool)
        ensures
            stopped == (self@.phase == ServicePhase::Stopped),
    {
        match self.phase {
            ServicePhase::Stopped => true,
            _ => false,
        }
    }
}

/// The phase after two runs of events is the phase after the second run,
/// taken from where the first one ended.
pub proof fn lemma_phase_after_concat(
    phase: ServicePhase,
    first: Seq<ServiceEvent>,
    second: Seq<ServiceEvent>,
)
    ensures
        phase_after(phase, first + second) == phase_after(phase_after(phase, first), second),
    decreases second.len(),
{
    if second.len() == 0 {
        assert(first + second == first);
    } else {
        assert((first + second).drop_last() == first + second.drop_last());
        lemma_phase_after_concat(phase, first, second.drop_last());
    }
}

/// The publish attempts of two runs of events add up.
pub proof fn lemma_publish_attempts_concat(
    phase: ServicePhase,
    first: Seq<ServiceEvent>,
    second: Seq<ServiceEvent>,
)
    ensures
        publish_attempts(phase, first + second) == publish_attempts(phase, first)
            + publish_attempts(phase_after(phase, first), second),
    decreases second.len(),
{
    if second.len() == 0 {
        assert(first + second == first);
    } else {
        lemma_publish_attempts_concat(phase, first, second.drop_last());
        lemma_phase_after_concat(phase, first, second.drop_last());
        assert((first + second).drop_last() == first + second.drop_last());
    }
}

/// A loop that has ended stays ended whatever it is told, and makes no
/// further publish attempt.
pub proof fn lemma_stopped_is_final(events: Seq<ServiceEvent>)
    ensures
        phase_after(ServicePhase::Stopped, events) == ServicePhase::Stopped,
        publish_attempts(ServicePhase::Stopped, events) == 0,
    decreases events.len(),
{
    if events.len() > 0 {
        lemma_stopped_is_final(events.drop_last());
    }
}

/// Whatever the loop is told, every snapshot that it takes is handed to the
/// channel once, before the next one is taken: the snapshots taken are the
/// publish attempts made plus the one that may be in hand.
pub proof fn lemma_every_sample_is_published_once(events: Seq<ServiceEvent>)
    ensures
        samples_taken(ServicePhase::Sampling, events) == publish_attempts(
            ServicePhase::Sampling,
            events,
        ) + snapshots_in_hand(phase_after(ServicePhase::Sampling, events)),
    decreases events.len(),
{
    if events.len() > 0 {
        lemma_every_sample_is_published_once(events.drop_last());
    }
}

/// A round in which the snapshot is delivered makes one publish attempt and
/// leaves the loop about to sample again.
pub proof fn lemma_delivered_round()
    ensures
        phase_after(ServicePhase::Sampling, delivered_round()) == ServicePhase::Sampling,
        publish_attempts(ServicePhase::Sampling, delivered_round()) == 1,
{
    let round = delivered_round();
    let two = round.drop_last();
    let one = two.drop_last();
    let none = one.drop_last();
    assert(phase_after(ServicePhase::Sampling, none) == ServicePhase::Sampling);
    assert(publish_attempts(ServicePhase::Sampling, none) == 0);
    assert(phase_after(ServicePhase::Sampling, one) == ServicePhase::Publishing);
    assert(phase_after(ServicePhase::Sampling, two) == ServicePhase::Sleeping);
    assert(publish_attempts(ServicePhase::Sampling, one) == 0);
    assert(publish_attempts(ServicePhase::Sampling, two) == 1);
}

/// The round in which the channel turns out to be closed makes one publish
/// attempt and ends the loop.
pub proof fn lemma_closing_round()
    ensures
        phase_after(ServicePhase::Sampling, closing_round()) == ServicePhase::Stopped,
        publish_attempts(ServicePhase::Sampling, closing_round()) == 1,
{
    let round = closing_round();
    let one = round.drop_last();
    let none = one.drop_last();
    assert(phase_after(ServicePhase::Sampling, none) == ServicePhase::Sampling);
    assert(publish_attempts(ServicePhase::Sampling, none) == 0);
    assert(phase_after(ServicePhase::Sampling, one) == ServicePhase::Publishing);
    assert(publish_attempts(ServicePhase::Sampling, one) == 0);
}

/// Any number of delivered rounds makes that many publish attempts and
/// leaves the loop running.
pub proof fn lemma_delivered_rounds(rounds: nat)
    ensures
        phase_after(ServicePhase::Sampling, delivered_rounds(rounds)) == ServicePhase::Sampling,
        publish_attempts(ServicePhase::Sampling, delivered_rounds(rounds)) == rounds,
    decreases rounds,
{
    if rounds > 0 {
        let before = delivered_rounds((rounds - 1) as nat);
        lemma_delivered_rounds((rounds - 1) as nat);
        lemma_delivered_round();
        lemma_phase_after_concat(ServicePhase::Sampling, before, delivered_round());
        lemma_publish_attempts_concat(ServicePhase::Sampling, before, delivered_round());
    }
}

/// When the consumer takes `delivered` snapshots and then closes its end,
/// the publish attempt after those is the last one: the loop ends on it, and
/// whatever it is told afterwards it attempts no more.
pub proof fn lemma_first_failed_publish_is_last(delivered: nat, afterwards: Seq<ServiceEvent>)
    ensures
        phase_after(
            ServicePhase::Sampling,
            delivered_rounds(delivered) + closing_round() + afterwards,
        ) == ServicePhase::Stopped,
        publish_attempts(
            ServicePhase::Sampling,
            delivered_rounds(delivered) + closing_round() + afterwards,
        ) == delivered + 1,
{
    let rounds = delivered_rounds(delivered);
    let closing = closing_round();
    lemma_delivered_rounds(delivered);
    lemma_closing_round();
    lemma_phase_after_concat(ServicePhase::Sampling, rounds, closing);
    lemma_publish_attempts_concat(ServicePhase::Sampling, rounds, closing);
    lemma_phase_after_concat(ServicePhase::Sampling, rounds + closing, afterwards);
    lemma_publish_attempts_concat(ServicePhase::Sampling, rounds + closing, afterwards);
    lemma_stopped_is_final(afterwards);
}

} // verus!
