//! The life of a listener: it binds its address, serves until it is told to shut down,
//! and ends.

use vstd::prelude::*;

verus! {

/// What the reconfiguration channel carries, without the committees.
#[derive(Debug, Clone, Copy, PartialEq, Eq)]
pub enum ReconfigureNotification {
    /// A new epoch begins.
    NewEpoch,
    /// Network details of the committee changed.
    UpdateCommittee,
    /// The node shuts down.
    Shutdown,
}

/// How waiting for a change of the reconfiguration channel ended.
#[derive(Debug, Clone, Copy, PartialEq, Eq)]
pub enum Change {
    /// The channel holds a value that was not seen before.
    Observed(ReconfigureNotification),
    /// The sender is gone.
    Dropped,
}

/// What a listener does after a change.
#[derive(Debug, Clone, Copy, PartialEq, Eq)]
pub enum Wait {
    /// Waits for the next change.
    Again,
    /// Stops: the node shuts down.
    Shutdown,
    /// Panics: the committee channel was dropped.
    CommitteeChannelDropped,
}

/// What follows a change: only a shutdown ends the wait, and a channel without a sender
/// breaks it.
pub open spec fn wait_after(change: Change) -> Wait {
    match change {
        Change::Observed(ReconfigureNotification::Shutdown) => Wait::Shutdown,
        Change::Observed(_) => Wait::Again,
        Change::Dropped => Wait::CommitteeChannelDropped,
    }
}

/// One turn of waiting for a shutdown.
pub fn wait_for_shutdown(change: Change) -> (next: Wait)
    ensures
        next == wait_after(change),
{
    match change {
        Change::Observed(message) => match message {
            ReconfigureNotification::Shutdown => Wait::Shutdown,
            _ => Wait::Again,
        },
        Change::Dropped => Wait::CommitteeChannelDropped,
    }
}

/// Why a listener panics.
#[derive(Debug, Clone, Copy, PartialEq, Eq)]
pub enum Fault {
    /// The address could not be bound.
    BindFailed,
    /// The sender of the reconfiguration channel is gone.
    CommitteeChannelDropped,
}

/// Where a listener stands.
#[derive(Debug, Clone, Copy, PartialEq, Eq)]
pub enum Receiver {
    /// It binds its address. No notification is looked at before that is done.
    Binding,
    /// It serves, and waits for a shutdown at the same time.
    Serving,
    /// It has ended.
    Ended,
    /// It has panicked.
    Failed(Fault),
}

/// What happens to a listener.
#[derive(Debug, Clone, Copy, PartialEq, Eq)]
pub enum ReceiverEvent {
    /// Binding the address is done; the flag says whether it succeeded.
    Bound(bool),
    /// The server stopped serving, whatever the reason.
    ServerStopped,
    /// Waiting for a change of the reconfiguration channel ended.
    Reconfigured(Change),
}

/// Where a listener stands after an event. An event that cannot befall it where it stands
/// changes nothing.
pub open spec fn after(state: Receiver, event: ReceiverEvent) -> Receiver {
    match (state, event) {
        (Receiver::Binding, ReceiverEvent::Bound(true)) => Receiver::Serving,
        (Receiver::Binding, ReceiverEvent::Bound(false)) => Receiver::Failed(Fault::BindFailed),
        (Receiver::Serving, ReceiverEvent::ServerStopped) => Receiver::Ended,
        (Receiver::Serving, ReceiverEvent::Reconfigured(change)) => match wait_after(change) {
            Wait::Again => Receiver::Serving,
            Wait::Shutdown => Receiver::Ended,
            Wait::CommitteeChannelDropped => Receiver::Failed(Fault::CommitteeChannelDropped),
        },
        _ => state,
    }
}

impl Receiver {
    /// Where the listener stands after an event.
    pub fn step(self, event: ReceiverEvent) -> (next: Receiver)
        ensures
            next == after(self, event),
    {
        match self {
            Receiver::Binding => match event {
                ReceiverEvent::Bound(bound) => {
                    if bound {
                        Receiver::Serving
                    } else {
                        Receiver::Failed(Fault::BindFailed)
                    }
                },
                _ => self,
            },
            Receiver::Serving => match event {
                ReceiverEvent::Bound(_) => self,
                ReceiverEvent::ServerStopped => Receiver::Ended,
                ReceiverEvent::Reconfigured(change) => match wait_for_shutdown(change) {
                    Wait::Again => Receiver::Serving,
                    Wait::Shutdown => Receiver::Ended,
                    Wait::CommitteeChannelDropped => Receiver::Failed(
                        Fault::CommitteeChannelDropped,
                    ),
                },
            },
            _ => self,
        }
    }
}

/// Where a listener stands after a series of events.
pub open spec fn after_all(state: Receiver, events: Seq<ReceiverEvent>) -> Receiver
    decreases events.len(),
{
    if events.len() == 0 {
        state
    } else {
        after_all(after(state, events.first()), events.drop_first())
    }
}

/// Whether an event leaves a serving listener serving.
pub open spec fn goes_on(event: ReceiverEvent) -> bool {
    ||| event is Bound
    ||| event == ReceiverEvent::Reconfigured(Change::Observed(ReconfigureNotification::NewEpoch))
    ||| event == ReceiverEvent::Reconfigured(
        Change::Observed(ReconfigureNotification::UpdateCommittee),
    )
}

/// Waiting ends well with a shutdown and with nothing else, and breaks when the channel has no
/// sender any more and at no other time.
pub proof fn law_only_a_shutdown_ends_the_wait(change: Change)
    ensures
        wait_after(change) == Wait::Shutdown <==> change == Change::Observed(
            ReconfigureNotification::Shutdown,
        ),
        wait_after(change) == Wait::CommitteeChannelDropped <==> change == Change::Dropped,
        wait_after(change) == Wait::Again <==> (change == Change::Observed(
            ReconfigureNotification::NewEpoch,
        ) || change == Change::Observed(ReconfigureNotification::UpdateCommittee)),
{
}

/// A listener that binds its address serves once that has succeeded, panics once it has failed,
/// and goes on binding whatever else happens.
pub proof fn law_binding_decides_alone(event: ReceiverEvent)
    ensures
        after(Receiver::Binding, event) == Receiver::Serving <==> event == ReceiverEvent::Bound(
            true,
        ),
        after(Receiver::Binding, event) == Receiver::Failed(Fault::BindFailed) <==> event
            == ReceiverEvent::Bound(false),
        after(Receiver::Binding, event) == Receiver::Binding <==> event !is Bound,
{
}

/// A serving listener ends when the server stops or the node shuts down, panics when the
/// reconfiguration channel is lost, and serves on whatever else happens.
pub proof fn law_serving_ends_for_a_reason(event: ReceiverEvent)
    ensures
        after(Receiver::Serving, event) == Receiver::Ended <==> (event is ServerStopped || event
            == ReceiverEvent::Reconfigured(Change::Observed(ReconfigureNotification::Shutdown))),
        after(Receiver::Serving, event) == Receiver::Failed(Fault::CommitteeChannelDropped)
            <==> event == ReceiverEvent::Reconfigured(Change::Dropped),
        after(Receiver::Serving, event) == Receiver::Serving <==> (event is Bound || event
            == ReceiverEvent::Reconfigured(Change::Observed(ReconfigureNotification::NewEpoch))
            || event == ReceiverEvent::Reconfigured(
            Change::Observed(ReconfigureNotification::UpdateCommittee),
        )),
{
}

/// A listener that has ended or panicked stays so, whatever happens.
pub proof fn law_the_end_is_final(state: Receiver, events: Seq<ReceiverEvent>)
    requires
        state is Ended || state is Failed,
    ensures
        after_all(state, events) == state,
    decreases events.len(),
{
    if events.len() > 0 {
        law_the_end_is_final(state, events.drop_first());
    }
}

/// A serving listener serves exactly until the first event that is a stop of the server, a
/// shutdown or the loss of the reconfiguration channel: epoch changes and committee
/// updates never stop it.
pub proof fn law_serves_until_told(events: Seq<ReceiverEvent>)
    ensures
        after_all(Receiver::Serving, events) is Serving <==> (forall|i: int|
            0 <= i < events.len() ==> goes_on(#[trigger] events[i])),
    decreases events.len(),
{
    if events.len() > 0 {
        let rest = events.drop_first();
        if goes_on(events[0]) {
            law_serves_until_told(rest);
            assert forall|i: int| 0 <= i < rest.len() implies goes_on(rest[i]) == goes_on(
                #[trigger] events[i + 1],
            ) by {}
            if forall|i: int| 0 <= i < rest.len() ==> goes_on(#[trigger] rest[i]) {
                assert forall|i: int| 0 <= i < events.len() implies goes_on(#[trigger] events[i]) by {
                    if i > 0 {
                        assert(events[i] == rest[i - 1]);
                    }
                }
            } else {
                let i = choose|i: int| 0 <= i < rest.len() && !goes_on(#[trigger] rest[i]);
                assert(!goes_on(events[i + 1]));
            }
        } else {
            law_the_end_is_final(after(Receiver::Serving, events[0]), rest);
        }
    }
}

/// The first event that stops a serving listener decides how it stands from then on: a
/// shutdown or a stop of the server ends it, a lost reconfiguration channel makes it panic.
pub proof fn law_first_stop_decides(events: Seq<ReceiverEvent>, first: int)
    requires
        0 <= first < events.len(),
        forall|i: int| 0 <= i < first ==> goes_on(#[trigger] events[i]),
        !goes_on(events[first]),
    ensures
        after_all(Receiver::Serving, events) == after(Receiver::Serving, events[first]),
        events[first] == ReceiverEvent::Reconfigured(
            Change::Observed(ReconfigureNotification::Shutdown),
        ) ==> after_all(Receiver::Serving, events) is Ended,
        events[first] is ServerStopped ==> after_all(Receiver::Serving, events) is Ended,
        events[first] == ReceiverEvent::Reconfigured(Change::Dropped) ==> after_all(
            Receiver::Serving,
            events,
        ) == Receiver::Failed(Fault::CommitteeChannelDropped),
    decreases first,
{
    let rest = events.drop_first();
    if first == 0 {
        law_the_end_is_final(after(Receiver::Serving, events[0]), rest);
    } else {
        assert(goes_on(events[0]));
        assert(rest[first - 1] == events[first]);
        assert forall|i: int| 0 <= i < first - 1 implies goes_on(#[trigger] rest[i]) by {
            assert(goes_on(events[i + 1]));
        }
        law_first_stop_decides(rest, first - 1);
    }
}

/// A listener that has not bound its address yet is not stopped by any notification.
pub proof fn law_binding_ignores_notifications(changes: Seq<Change>)
    ensures
        after_all(
            Receiver::Binding,
            changes.map_values(|change: Change| ReceiverEvent::Reconfigured(change)),
        ) is Binding,
    decreases changes.len(),
{
    let events = changes.map_values(|change: Change| ReceiverEvent::Reconfigured(change));
    if changes.len() > 0 {
        law_binding_ignores_notifications(changes.drop_first());
        assert(events.drop_first() =~= changes.drop_first().map_values(
            |change: Change| ReceiverEvent::Reconfigured(change),
        ));
    }
}

/// Whoever waits for a shutdown stops at a shutdown, breaks off without a sender, and waits on
/// otherwise.
pub proof fn law_waits_for_a_shutdown(change: Change, next: Wait)
    requires
        call_ensures(wait_for_shutdown, (change,), next),
    ensures
        next == Wait::Shutdown <==> change == Change::Observed(ReconfigureNotification::Shutdown),
        next == Wait::CommitteeChannelDropped <==> change == Change::Dropped,
{
}

/// A step of a listener: how it leaves each place, and that it leaves none of the last two.
pub proof fn law_steps_of_a_listener(state: Receiver, event: ReceiverEvent, next: Receiver)
    requires
        call_ensures(Receiver::step, (state, event), next),
    ensures
        state is Binding ==> next == match event {
            ReceiverEvent::Bound(bound) => if bound {
                Receiver::Serving
            } else {
                Receiver::Failed(Fault::BindFailed)
            },
            _ => Receiver::Binding,
        },
        state is Serving ==> next == match event {
            ReceiverEvent::Bound(_) => Receiver::Serving,
            ReceiverEvent::ServerStopped => Receiver::Ended,
            ReceiverEvent::Reconfigured(
                Change::Observed(ReconfigureNotification::Shutdown),
            ) => Receiver::Ended,
            ReceiverEvent::Reconfigured(Change::Observed(_)) => Receiver::Serving,
            ReceiverEvent::Reconfigured(Change::Dropped) => Receiver::Failed(
                Fault::CommitteeChannelDropped,
            ),
        },
        state is Ended || state is Failed ==> next == state,
{
}

} // verus!
