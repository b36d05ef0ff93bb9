//! The subscribe side of the controller: one subscription, retried at a fixed
//! interval until the channel accepts it.
//!
//! The worker feeds [`SubscriptionManager::step`] with what happened and
//! carries out the [`SubscribeAction`] it gets back: it waits and calls the
//! channel on [`SubscribeAction::Attempt`], logs and waits on
//! [`SubscribeAction::Backoff`], and logs and leaves on
//! [`SubscribeAction::Finish`].

use vstd::prelude::*;
use vstd::string::*;

verus! {

/// Milliseconds to wait before every attempt, the first one included.
pub const ATTEMPT_DELAY_MS: u64 = 100;

/// Milliseconds to wait after a failed attempt.
pub const RETRY_DELAY_MS: u64 = 5000;

/// Delivery guarantee asked of the channel.
#[derive(Clone, Copy, Debug, PartialEq, Eq, Structural)]
pub enum Delivery {
    AtMostOnce,
    AtLeastOnce,
    ExactlyOnce,
}

/// Where the subscription stands.
#[derive(Clone, Copy, Debug, PartialEq, Eq, Structural)]
pub enum SubscriptionState {
    /// Not subscribed yet: attempts go on.
    Attempting,
    /// Subscribed. Nothing leads out of this state.
    Succeeded,
}

/// What the worker tells the manager.
#[derive(Clone, Copy, Debug, PartialEq, Eq, Structural)]
pub enum SubscribeEvent {
    /// The worker is ready for the next attempt: it has just started, or a
    /// backoff is over.
    Ready,
    /// The channel accepted the subscription.
    Accepted,
    /// The channel refused the subscription.
    Rejected,
}

/// What the worker does next.
#[derive(Clone, Copy, Debug, PartialEq, Eq, Structural)]
pub enum SubscribeAction {
    /// Wait `delay_ms`, then ask the channel for the topic with `delivery`.
    Attempt { delay_ms: u64, delivery: Delivery },
    /// Log the failure, wait `delay_ms`, then report [`SubscribeEvent::Ready`].
    Backoff { delay_ms: u64 },
    /// Log the success and leave the loop.
    Finish,
    /// Nothing: the subscription stands.
    Idle,
}

/// The state that follows `state` on `event`.
pub open spec fn next_state(state: SubscriptionState, event: SubscribeEvent) -> SubscriptionState {
    match (state, event) {
        (SubscriptionState::Attempting, SubscribeEvent::Accepted) => SubscriptionState::Succeeded,
        (SubscriptionState::Attempting, _) => SubscriptionState::Attempting,
        (SubscriptionState::Succeeded, _) => SubscriptionState::Succeeded,
    }
}

/// What the worker does on `event` in `state`.
pub open spec fn action_on(state: SubscriptionState, event: SubscribeEvent) -> SubscribeAction {
    match (state, event) {
        (SubscriptionState::Attempting, SubscribeEvent::Ready) => SubscribeAction::Attempt {
            delay_ms: ATTEMPT_DELAY_MS,
            delivery: Delivery::AtMostOnce,
        },
        (SubscriptionState::Attempting, SubscribeEvent::Rejected) => SubscribeAction::Backoff {
            delay_ms: RETRY_DELAY_MS,
        },
        (SubscriptionState::Attempting, SubscribeEvent::Accepted) => SubscribeAction::Finish,
        (SubscriptionState::Succeeded, _) => SubscribeAction::Idle,
    }
}

/// The state reached from `state` after all of `events`, in order.
pub open spec fn state_after(state: SubscriptionState, events: Seq<SubscribeEvent>) -> SubscriptionState
    decreases events.len(),
{
    if events.len() == 0 {
        state
    } else {
        next_state(state_after(state, events.drop_last()), events.last())
    }
}

/// The actions that the worker is handed on `events`, in order, from `state`.
pub open spec fn actions_on(state: SubscriptionState, events: Seq<SubscribeEvent>) -> Seq<
    SubscribeAction,
>
    decreases events.len(),
{
    if events.len() == 0 {
        seq![]
    } else {
        actions_on(state, events.drop_last()).push(
            action_on(state_after(state, events.drop_last()), events.last()),
        )
    }
}

/// How often `action` occurs in `actions`.
pub open spec fn occurrences(actions: Seq<SubscribeAction>, action: SubscribeAction) -> nat
    decreases actions.len(),
{
    if actions.len() == 0 {
        0
    } else {
        occurrences(actions.drop_last(), action) + if actions.last() == action {
            1nat
        } else {
            0nat
        }
    }
}

/// What the worker reports while its first `failures` attempts are refused:
/// ready, refused, and so on.
pub open spec fn refused_attempts(failures: nat) -> Seq<SubscribeEvent>
    decreases failures,
{
    if failures == 0 {
        seq![]
    } else {
        refused_attempts((failures - 1) as nat).push(SubscribeEvent::Ready).push(
            SubscribeEvent::Rejected,
        )
    }
}

/// What the worker reports when its first `failures` attempts are refused and
/// the next one is accepted.
pub open spec fn attempts_until_accepted(failures: nat) -> Seq<SubscribeEvent> {
    refused_attempts(failures).push(SubscribeEvent::Ready).push(SubscribeEvent::Accepted)
}

/// The mathematical content of a [`SubscriptionManager`].
pub struct SubscriptionSpec {
    pub topic: Seq<char>,
    pub state: SubscriptionState,
}

/// The manager of one subscription.
#[derive(Debug)]
pub struct SubscriptionManager {
    topic: String,
    state: SubscriptionState,
}

impl View for SubscriptionManager {
    type V = SubscriptionSpec;

    closed spec fn view(&self) -> SubscriptionSpec {
        SubscriptionSpec { topic: self.topic@, state: self.state }
    }
}

impl SubscriptionManager {
    /// A manager that has yet to subscribe to `topic`.
    pub fn new(topic: String) -> (manager: Self)
        ensures
            manager@ == (SubscriptionSpec { topic: topic@, state: SubscriptionState::Attempting }),
    {
        SubscriptionManager { topic, state: SubscriptionState::Attempting }
    }

    /// The topic to subscribe to.
    pub fn topic(&self) -> (topic: &str)
        ensures
            topic@ == self@.topic,
    {
        self.topic.as_str()
    }

    /// Where the subscription stands.
    pub fn state(&self) -> (state: SubscriptionState)
        ensures
            state == self@.state,
    {
        self.state
    }

    /// Whether the subscription stands, so that the worker is done.
    pub fn is_done(&self) -> (done: bool)
        ensures
            done == (self@.state == SubscriptionState::Succeeded),
    {
        match self.state {
            SubscriptionState::Succeeded => true,
            SubscriptionState::Attempting => false,
        }
    }

    /// Takes in `event` and says what the worker does next.
    pub fn step(&mut self, event: SubscribeEvent) -> (action: SubscribeAction)
        ensures
            action == action_on(old(self)@.state, event),
            final(self)@.state == next_state(old(self)@.state, event),
            final(self)@.topic == old(self)@.topic,
    {
        match self.state {
            SubscriptionState::Succeeded => SubscribeAction::Idle,
            SubscriptionState::Attempting => match event {
                SubscribeEvent::Ready => SubscribeAction::Attempt {
                    delay_ms: ATTEMPT_DELAY_MS,
                    delivery: Delivery::AtMostOnce,
                },
                SubscribeEvent::Rejected => SubscribeAction::Backoff { delay_ms: RETRY_DELAY_MS },
                SubscribeEvent::Accepted => {
                    self.state = SubscriptionState::Succeeded;
                    SubscribeAction::Finish
                },
            },
        }
    }
}

/// Once the subscription stands it stays: every further event leaves the
/// state at `Succeeded` and asks nothing of the worker.
pub proof fn lemma_succeeded_is_final(events: Seq<SubscribeEvent>)
    ensures
        state_after(SubscriptionState::Succeeded, events) == SubscriptionState::Succeeded,
        forall|i: int|
            0 <= i < events.len() ==> #[trigger] actions_on(SubscriptionState::Succeeded, events)[i]
                == SubscribeAction::Idle,
        actions_on(SubscriptionState::Succeeded, events).len() == events.len(),
    decreases events.len(),
{
    if events.len() > 0 {
        lemma_succeeded_is_final(events.drop_last());
    }
}

/// Whatever the channel answers and in whatever order, success is announced
/// at most once, and exactly once if the subscription stands at the end.
pub proof fn lemma_finish_at_most_once(events: Seq<SubscribeEvent>)
    ensures
        actions_on(SubscriptionState::Attempting, events).len() == events.len(),
        occurrences(actions_on(SubscriptionState::Attempting, events), SubscribeAction::Finish)
            == if state_after(SubscriptionState::Attempting, events)
            == SubscriptionState::Succeeded {
            1nat
        } else {
            0nat
        },
    decreases events.len(),
{
    if events.len() > 0 {
        lemma_finish_at_most_once(events.drop_last());
        assert(events.drop_last().push(events.last()) =~= events);
        lemma_one_more_event(
            SubscriptionState::Attempting,
            events.drop_last(),
            events.last(),
            SubscribeAction::Finish,
        );
    }
}

/// One more event adds one action, taken in the state that the events before
/// it led to.
proof fn lemma_one_more_event(
    state: SubscriptionState,
    events: Seq<SubscribeEvent>,
    event: SubscribeEvent,
    action: SubscribeAction,
)
    ensures
        state_after(state, events.push(event)) == next_state(state_after(state, events), event),
        actions_on(state, events.push(event)) == actions_on(state, events).push(
            action_on(state_after(state, events), event),
        ),
        occurrences(actions_on(state, events.push(event)), action) == occurrences(
            actions_on(state, events),
            action,
        ) + if action_on(state_after(state, events), event) == action {
            1nat
        } else {
            0nat
        },
{
    let earlier = actions_on(state, events);
    let latest = action_on(state_after(state, events), event);
    assert(events.push(event).drop_last() =~= events);
    assert(events.push(event).last() == event);
    assert(earlier.push(latest).drop_last() =~= earlier);
    assert(earlier.push(latest).last() == latest);
}

/// While every attempt is refused the subscription does not stand, and after
/// `failures` refusals the worker has made `failures` attempts, each after a
/// wait of a tenth of a second, and `failures` backoffs of five seconds.
pub proof fn lemma_refused_attempts(failures: nat)
    ensures
        state_after(SubscriptionState::Attempting, refused_attempts(failures))
            == SubscriptionState::Attempting,
        occurrences(
            actions_on(SubscriptionState::Attempting, refused_attempts(failures)),
            SubscribeAction::Attempt { delay_ms: ATTEMPT_DELAY_MS, delivery: Delivery::AtMostOnce },
        ) == failures,
        occurrences(
            actions_on(SubscriptionState::Attempting, refused_attempts(failures)),
            SubscribeAction::Backoff { delay_ms: RETRY_DELAY_MS },
        ) == failures,
        occurrences(
            actions_on(SubscriptionState::Attempting, refused_attempts(failures)),
            SubscribeAction::Finish,
        ) == 0,
        occurrences(
            actions_on(SubscriptionState::Attempting, refused_attempts(failures)),
            SubscribeAction::Idle,
        ) == 0,
    decreases failures,
{
    let start = SubscriptionState::Attempting;
    let attempt = SubscribeAction::Attempt {
        delay_ms: ATTEMPT_DELAY_MS,
        delivery: Delivery::AtMostOnce,
    };
    let backoff = SubscribeAction::Backoff { delay_ms: RETRY_DELAY_MS };
    if failures > 0 {
        let before = refused_attempts((failures - 1) as nat);
        let ready = before.push(SubscribeEvent::Ready);
        lemma_refused_attempts((failures - 1) as nat);
        lemma_one_more_event(start, before, SubscribeEvent::Ready, attempt);
        lemma_one_more_event(start, before, SubscribeEvent::Ready, backoff);
        lemma_one_more_event(start, before, SubscribeEvent::Ready, SubscribeAction::Finish);
        lemma_one_more_event(start, before, SubscribeEvent::Ready, SubscribeAction::Idle);
        lemma_one_more_event(start, ready, SubscribeEvent::Rejected, attempt);
        lemma_one_more_event(start, ready, SubscribeEvent::Rejected, backoff);
        lemma_one_more_event(start, ready, SubscribeEvent::Rejected, SubscribeAction::Finish);
        lemma_one_more_event(start, ready, SubscribeEvent::Rejected, SubscribeAction::Idle);
    }
}

/// A subscription that is refused `failures` times and then accepted: the
/// worker makes `failures + 1` attempts, each after a wait of a tenth of a
/// second and at most once delivery, backs off five seconds after each of the
/// `failures` refusals, and announces success once, as its last action.
pub proof fn lemma_accepted_after_refusals(failures: nat)
    ensures
        state_after(SubscriptionState::Attempting, attempts_until_accepted(failures))
            == SubscriptionState::Succeeded,
        actions_on(SubscriptionState::Attempting, attempts_until_accepted(failures)).last()
            == SubscribeAction::Finish,
        occurrences(
            actions_on(SubscriptionState::Attempting, attempts_until_accepted(failures)),
            SubscribeAction::Attempt { delay_ms: ATTEMPT_DELAY_MS, delivery: Delivery::AtMostOnce },
        ) == failures + 1,
        occurrences(
            actions_on(SubscriptionState::Attempting, attempts_until_accepted(failures)),
            SubscribeAction::Backoff { delay_ms: RETRY_DELAY_MS },
        ) == failures,
        occurrences(
            actions_on(SubscriptionState::Attempting, attempts_until_accepted(failures)),
            SubscribeAction::Finish,
        ) == 1,
        occurrences(
            actions_on(SubscriptionState::Attempting, attempts_until_accepted(failures)),
            SubscribeAction::Idle,
        ) == 0,
{
    let start = SubscriptionState::Attempting;
    let attempt = SubscribeAction::Attempt {
        delay_ms: ATTEMPT_DELAY_MS,
        delivery: Delivery::AtMostOnce,
    };
    let backoff = SubscribeAction::Backoff { delay_ms: RETRY_DELAY_MS };
    let before = refused_attempts(failures);
    let ready = before.push(SubscribeEvent::Ready);
    lemma_refused_attempts(failures);
    lemma_one_more_event(start, before, SubscribeEvent::Ready, attempt);
    lemma_one_more_event(start, before, SubscribeEvent::Ready, backoff);
    lemma_one_more_event(start, before, SubscribeEvent::Ready, SubscribeAction::Finish);
    lemma_one_more_event(start, before, SubscribeEvent::Ready, SubscribeAction::Idle);
    lemma_one_more_event(start, ready, SubscribeEvent::Accepted, attempt);
    lemma_one_more_event(start, ready, SubscribeEvent::Accepted, backoff);
    lemma_one_more_event(start, ready, SubscribeEvent::Accepted, SubscribeAction::Finish);
    lemma_one_more_event(start, ready, SubscribeEvent::Accepted, SubscribeAction::Idle);
}

/// As long as the subscription does not stand, every refusal is answered by a
/// backoff of five seconds and every readiness by an attempt after a tenth of
/// a second, at most once delivery: there is no limit to the attempts.
pub proof fn lemma_retries_without_limit(events: Seq<SubscribeEvent>, event: SubscribeEvent)
    requires
        forall|i: int| 0 <= i < events.len() ==> events[i] != SubscribeEvent::Accepted,
    ensures
        state_after(SubscriptionState::Attempting, events) == SubscriptionState::Attempting,
        event == SubscribeEvent::Rejected ==> action_on(
            state_after(SubscriptionState::Attempting, events),
            event,
        ) == (SubscribeAction::Backoff { delay_ms: RETRY_DELAY_MS }),
        event == SubscribeEvent::Ready ==> action_on(
            state_after(SubscriptionState::Attempting, events),
            event,
        ) == (SubscribeAction::Attempt {
            delay_ms: ATTEMPT_DELAY_MS,
            delivery: Delivery::AtMostOnce,
        }),
    decreases events.len(),
{
    if events.len() > 0 {
        lemma_retries_without_limit(events.drop_last(), events.last());
    }
}

} // verus!
