//! Long-lived event subscriptions: the registry of those that are open, and
//! the life of each from its opening to its end.

use crate::daemon_client::connection::{strip_line_end, without_line_end};
use crate::daemon_client::error::Error;
use crate::daemon_client::json::{json_field, read_field, JsonField, JsonFieldView};
use crate::daemon_client::types::{JsonRpcRequest, JsonRpcResponse, SubscribeResponse, JSONRPC_VERSION};
use crate::text::same_text;
use serde_json::Value;
use std::collections::HashMap;
use vstd::prelude::*;

verus! {

broadcast use vstd::std_specs::hash::group_hash_axioms;

/// How many events the queue between a subscription and its consumer holds.
pub const CHANNEL_BUFFER_SIZE: usize = 100;

/// How often an idle subscription is noted to be alive, in milliseconds.
pub const HEARTBEAT_INTERVAL_MS: u64 = 30000;

/// The method that opens a subscription.
pub const SUBSCRIBE_METHOD: &'static str = "Subscribe";

/// The `type` of a message that only says that the stream is alive.
pub const HEARTBEAT_TYPE: &'static str = "heartbeat";

/// Where a subscription stands.
#[derive(Debug, Clone, Copy, PartialEq, Eq, Structural)]
pub enum SubscriptionPhase {
    /// The request is sent, and its confirmation is awaited.
    Opening,
    /// The subscription is confirmed: what arrives now are its events.
    Active,
    /// The subscription is over.
    Closed,
}

/// Why a subscription is over.
#[derive(Debug, Clone, Copy, PartialEq, Eq, Structural)]
pub enum CloseReason {
    /// The daemon closed the stream.
    StreamClosed,
    /// The stream could not be read.
    ReadFailed,
    /// The subscription was cancelled.
    Cancelled,
    /// The daemon answered the request with an error.
    Rejected,
    /// Nobody takes the events any more.
    ReceiverGone,
    /// The request could not be sent.
    SendFailed,
    /// It was over before.
    AlreadyClosed,
}

/// What a line of a confirmed subscription is.
#[derive(Debug, Clone, Copy, PartialEq, Eq, Structural)]
pub enum StreamMessage {
    /// The daemon's sign of life: JSON whose `type` is the heartbeat's.
    Heartbeat,
    /// Anything else: an event, if it reads as one.
    Event,
}

/// What came of handing an event on to its consumer.
#[derive(Debug, Clone, Copy, PartialEq, Eq, Structural)]
pub enum DeliveryOutcome {
    /// The event is in the queue.
    Delivered,
    /// The consumer has gone away.
    ReceiverGone,
    /// The line did not read as an event.
    Undecodable,
}

/// What the caller that runs a subscription reports.
#[derive(Debug)]
pub enum SubscriptionEvent {
    /// The request could not be written to the stream, for the reason given.
    SendFailed(String),
    /// These characters were read from the stream, up to and with the line
    /// end.
    Line(String),
    /// Nothing was read: the daemon has closed the stream.
    StreamClosed,
    /// The read failed, for the reason given.
    ReadFailed(String),
    /// The cancellation signal arrived.
    Cancelled,
    /// The heartbeat interval passed.
    Idle,
    /// The answer to `DecodeReply`: the line as a reply envelope, or none
    /// where it does not read as one.
    Reply(Option<JsonRpcResponse>),
    /// The answer to `DecodeConfirmation`: the result as a confirmation, or
    /// none where it does not read as one.
    Confirmation(Option<SubscribeResponse>),
    /// The answer to `Deliver`.
    Delivery(DeliveryOutcome),
}

/// What the caller that runs a subscription does next.
#[derive(Debug)]
pub enum SubscriptionStep {
    /// Wait for the next line, the cancellation or the heartbeat interval,
    /// whichever comes first.
    Wait,
    /// Read this line as a reply envelope, and report it as `Reply`.
    DecodeReply(String),
    /// Read this result as a confirmation, and report it as `Confirmation`.
    DecodeConfirmation(Value),
    /// Read this line as an event, queue it for the consumer, and report
    /// what came of it as `Delivery`.
    Deliver(String),
    /// Stop: the subscription is over, and out of the registry.
    Finish(CloseReason),
}

/// What a line is, by what stands under its `type`: a heartbeat where that
/// is the heartbeat's type, and in every other case a candidate for an
/// event, whether the line has another `type`, none, or is no JSON at all.
pub open spec fn message_of_field(field: JsonFieldView) -> StreamMessage {
    match field {
        JsonFieldView::Text(kind) => if kind == HEARTBEAT_TYPE@ {
            StreamMessage::Heartbeat
        } else {
            StreamMessage::Event
        },
        _ => StreamMessage::Event,
    }
}

/// What a line of a confirmed subscription is.
pub open spec fn stream_message(line: Seq<char>) -> StreamMessage {
    message_of_field(json_field(line, "type"@))
}

/// What a line is, by what stands under its `type`: the heartbeat type makes
/// it a sign of life, and anything else a candidate for an event.
pub fn classify_field(field: &JsonField) -> (message: StreamMessage)
    ensures
        message == message_of_field(field@),
{
    match field {
        JsonField::Text(kind) => if same_text(kind.as_str(), HEARTBEAT_TYPE) {
            StreamMessage::Heartbeat
        } else {
            StreamMessage::Event
        },
        _ => StreamMessage::Event,
    }
}

/// What a line of a confirmed subscription is.
pub fn classify_message(line: &str) -> (message: StreamMessage)
    ensures
        message == stream_message(line@),
{
    let field = read_field(line, "type");
    classify_field(&field)
}

/// The step and the phase that follow an event in a phase.
///
/// A request that could not be sent, the stream's end, a failed read and the
/// cancellation end the subscription in every phase, and so does a consumer
/// that has gone away. A line is
/// handed back to be read as a reply while the confirmation is awaited; once
/// confirmed, a heartbeat is passed over, and every other line is handed
/// back to be read as an event and delivered. A reply with an error ends the
/// subscription, one with a result has the result read as a confirmation,
/// and a confirmation that reads as one makes the subscription active.
/// Everything else changes nothing.
pub open spec fn transition(
    phase: SubscriptionPhase,
    event: SubscriptionEvent,
    step: SubscriptionStep,
    next: SubscriptionPhase,
) -> bool {
    if phase is Closed {
        step == SubscriptionStep::Finish(CloseReason::AlreadyClosed) && next is Closed
    } else {
        match event {
            SubscriptionEvent::SendFailed(_) => step == SubscriptionStep::Finish(
                CloseReason::SendFailed,
            ) && next is Closed,
            SubscriptionEvent::StreamClosed => step == SubscriptionStep::Finish(
                CloseReason::StreamClosed,
            ) && next is Closed,
            SubscriptionEvent::ReadFailed(_) => step == SubscriptionStep::Finish(
                CloseReason::ReadFailed,
            ) && next is Closed,
            SubscriptionEvent::Cancelled => step == SubscriptionStep::Finish(
                CloseReason::Cancelled,
            ) && next is Closed,
            SubscriptionEvent::Idle => step is Wait && next == phase,
            SubscriptionEvent::Line(line) => next == phase && (if phase is Opening {
                step matches SubscriptionStep::DecodeReply(text) && text@ == without_line_end(
                    line@,
                )
            } else if stream_message(without_line_end(line@)) is Heartbeat {
                step is Wait
            } else {
                step matches SubscriptionStep::Deliver(text) && text@ == without_line_end(line@)
            }),
            SubscriptionEvent::Reply(reply) => if phase is Opening && reply is Some
                && reply->0.error is Some {
                step == SubscriptionStep::Finish(CloseReason::Rejected) && next is Closed
            } else if phase is Opening && reply is Some && reply->0.result is Some {
                step == SubscriptionStep::DecodeConfirmation(reply->0.result->0) && next == phase
            } else {
                step is Wait && next == phase
            },
            SubscriptionEvent::Confirmation(confirmation) => step is Wait && next == (if phase
                is Opening && confirmation is Some {
                SubscriptionPhase::Active
            } else {
                phase
            }),
            SubscriptionEvent::Delivery(outcome) => if outcome is ReceiverGone {
                step == SubscriptionStep::Finish(CloseReason::ReceiverGone) && next is Closed
            } else {
                step is Wait && next == phase
            },
        }
    }
}

/// One subscription: its id, and where it stands.
#[derive(Debug, Clone, Copy, PartialEq, Eq, Structural)]
pub struct Subscription {
    pub id: u64,
    pub phase: SubscriptionPhase,
}

impl Subscription {
    /// A subscription whose request has just been sent.
    pub fn new(id: u64) -> (subscription: Self)
        ensures
            subscription == (Subscription { id, phase: SubscriptionPhase::Opening }),
    {
        Subscription { id, phase: SubscriptionPhase::Opening }
    }

    /// Takes one event, and says what to do next.
    pub fn step(&mut self, event: SubscriptionEvent) -> (step: SubscriptionStep)
        ensures
            final(self).id == old(self).id,
            transition(old(self).phase, event, step, final(self).phase),
    {
        if let SubscriptionPhase::Closed = self.phase {
            return SubscriptionStep::Finish(CloseReason::AlreadyClosed);
        }
        match event {
            SubscriptionEvent::SendFailed(_) => {
                self.phase = SubscriptionPhase::Closed;
                SubscriptionStep::Finish(CloseReason::SendFailed)
            },
            SubscriptionEvent::StreamClosed => {
                self.phase = SubscriptionPhase::Closed;
                SubscriptionStep::Finish(CloseReason::StreamClosed)
            },
            SubscriptionEvent::ReadFailed(_) => {
                self.phase = SubscriptionPhase::Closed;
                SubscriptionStep::Finish(CloseReason::ReadFailed)
            },
            SubscriptionEvent::Cancelled => {
                self.phase = SubscriptionPhase::Closed;
                SubscriptionStep::Finish(CloseReason::Cancelled)
            },
            SubscriptionEvent::Idle => SubscriptionStep::Wait,
            SubscriptionEvent::Line(line) => {
                let text = strip_line_end(line.as_str());
                if let SubscriptionPhase::Opening = self.phase {
                    SubscriptionStep::DecodeReply(text)
                } else {
                    match classify_message(text.as_str()) {
                        StreamMessage::Heartbeat => SubscriptionStep::Wait,
                        StreamMessage::Event => SubscriptionStep::Deliver(text),
                    }
                }
            },
            SubscriptionEvent::Reply(reply) => {
                if let SubscriptionPhase::Opening = self.phase {
                    match reply {
                        Some(envelope) => {
                            if envelope.error.is_some() {
                                self.phase = SubscriptionPhase::Closed;
                                SubscriptionStep::Finish(CloseReason::Rejected)
                            } else {
                                match envelope.result {
                                    Some(result) => SubscriptionStep::DecodeConfirmation(result),
                                    None => SubscriptionStep::Wait,
                                }
                            }
                        },
                        None => SubscriptionStep::Wait,
                    }
                } else {
                    SubscriptionStep::Wait
                }
            },
            SubscriptionEvent::Confirmation(confirmation) => {
                if let SubscriptionPhase::Opening = self.phase {
                    if confirmation.is_some() {
                        self.phase = SubscriptionPhase::Active;
                    }
                }
                SubscriptionStep::Wait
            },
            SubscriptionEvent::Delivery(outcome) => match outcome {
                DeliveryOutcome::ReceiverGone => {
                    self.phase = SubscriptionPhase::Closed;
                    SubscriptionStep::Finish(CloseReason::ReceiverGone)
                },
                _ => SubscriptionStep::Wait,
            },
        }
    }
}

/// The registry of the subscriptions that are open: for the id of each, the
/// handle by which it is cancelled. What a handle is, is the caller's
/// business; the registry keeps it and hands it back.
pub struct SubscriptionManager<H> {
    active_subscriptions: HashMap<u64, H>,
}

impl<H> View for SubscriptionManager<H> {
    type V = Map<u64, H>;

    closed spec fn view(&self) -> Map<u64, H> {
        self.active_subscriptions@
    }
}

impl<H> SubscriptionManager<H> {
    /// A registry without subscriptions.
    pub fn new() -> (manager: Self)
        ensures
            manager@ == Map::<u64, H>::empty(),
    {
        SubscriptionManager { active_subscriptions: HashMap::new() }
    }

    /// How many subscriptions are open.
    pub fn len(&self) -> (count: usize)
        ensures
            count == self@.len(),
    {
        self.active_subscriptions.len()
    }

    /// Whether the subscription `id` is open.
    pub fn is_active(&self, id: u64) -> (active: bool)
        ensures
            active == self@.contains_key(id),
    {
        self.active_subscriptions.contains_key(&id)
    }

    /// What `create_subscription` answers: the request that opens the
    /// subscription, or why it cannot be written.
    pub open spec fn subscribe_request(
        id: u64,
        params: Result<Value, String>,
        request: Result<JsonRpcRequest, Error>,
    ) -> bool {
        match params {
            Ok(value) => {
                &&& request matches Ok(envelope)
                &&& envelope.jsonrpc@ == JSONRPC_VERSION@
                &&& envelope.method@ == SUBSCRIBE_METHOD@
                &&& envelope.params == Some(value)
                &&& envelope.id == id
            },
            Err(why) => request == Err::<JsonRpcRequest, Error>(Error::Serialization(why)),
        }
    }

    /// The registry after `create_subscription`: with the handle under the
    /// id where there is a request to send, and as it was where there is
    /// none.
    pub open spec fn registered(
        before: Map<u64, H>,
        id: u64,
        cancel: H,
        params: Result<Value, String>,
    ) -> Map<u64, H> {
        if params is Ok {
            before.insert(id, cancel)
        } else {
            before
        }
    }

    /// Opens the subscription `id`: `cancel` is registered as the handle by
    /// which it is cancelled, in place of any that stood under that id, and
    /// the answer is the request to send, with `params` as its parameters.
    /// Parameters that could not be written as JSON make it an error, and
    /// then nothing is registered.
    pub fn create_subscription(
        &mut self,
        id: u64,
        cancel: H,
        params: Result<Value, String>,
    ) -> (request: Result<JsonRpcRequest, Error>)
        ensures
            final(self)@ == Self::registered(old(self)@, id, cancel, params),
            Self::subscribe_request(id, params, request),
    {
        match params {
            Ok(value) => {
                self.active_subscriptions.insert(id, cancel);
                Ok(
                    JsonRpcRequest {
                        jsonrpc: JSONRPC_VERSION.to_string(),
                        method: SUBSCRIBE_METHOD.to_string(),
                        params: Some(value),
                        id,
                    },
                )
            },
            Err(why) => Err(Error::Serialization(why)),
        }
    }

    /// Cancels the subscription `id`: it leaves the registry, and the answer
    /// is its handle, to be signalled. An id that is not registered changes
    /// nothing and answers nothing; that is no error.
    pub fn cancel_subscription(&mut self, id: u64) -> (cancel: Option<H>)
        ensures
            final(self)@ == old(self)@.remove(id),
            cancel == (if old(self)@.contains_key(id) {
                Some(old(self)@[id])
            } else {
                None
            }),
    {
        self.active_subscriptions.remove(&id)
    }

    /// Cancels every subscription: the registry is empty afterwards, and the
    /// answer holds what was in it, each handle to be signalled.
    pub fn cancel_all(&mut self) -> (cancelled: HashMap<u64, H>)
        ensures
            final(self)@ == Map::<u64, H>::empty(),
            cancelled@ == old(self)@,
    {
        let mut cancelled: HashMap<u64, H> = HashMap::new();
        std::mem::swap(&mut self.active_subscriptions, &mut cancelled);
        cancelled
    }

    /// Takes one event of a subscription, says what to do next, and sees to
    /// it that a subscription that is over is out of the registry, whichever
    /// way it ended.
    pub fn handle_subscription(
        &mut self,
        subscription: &mut Subscription,
        event: SubscriptionEvent,
    ) -> (step: SubscriptionStep)
        ensures
            final(subscription).id == old(subscription).id,
            transition(old(subscription).phase, event, step, final(subscription).phase),
            final(self)@ == (if final(subscription).phase is Closed {
                old(self)@.remove(old(subscription).id)
            } else {
                old(self)@
            }),
    {
        let step = subscription.step(event);
        if let SubscriptionPhase::Closed = subscription.phase {
            self.active_subscriptions.remove(&subscription.id);
        }
        step
    }
}

// ---------------------------------------------------------------------------
// What holds of every registry and every subscription
// ---------------------------------------------------------------------------

/// Cancelling is idempotent: an id that is not registered, or was cancelled
/// before, leaves the registry as it is, and a second cancellation finds
/// nothing more to do.
pub proof fn lemma_cancel_is_idempotent<H>(registry: Map<u64, H>, id: u64)
    ensures
        !registry.contains_key(id) ==> registry.remove(id) == registry,
        registry.remove(id).remove(id) == registry.remove(id),
        !registry.remove(id).contains_key(id),
{
    assert(registry.remove(id).remove(id) =~= registry.remove(id));
    if !registry.contains_key(id) {
        assert(registry.remove(id) =~= registry);
    }
}

/// Cancelling one subscription leaves every other one registered as it was.
pub proof fn lemma_cancel_leaves_others<H>(registry: Map<u64, H>, id: u64, other: u64)
    requires
        other != id,
    ensures
        registry.remove(id).contains_key(other) == registry.contains_key(other),
        registry.contains_key(other) ==> registry.remove(id)[other] == registry[other],
{
}

/// A subscription that is over stays over, whatever is reported of it.
pub proof fn lemma_closed_is_final(
    event: SubscriptionEvent,
    step: SubscriptionStep,
    next: SubscriptionPhase,
)
    requires
        transition(SubscriptionPhase::Closed, event, step, next),
    ensures
        next is Closed,
        step is Finish,
{
}

/// The caller is told to stop exactly when the subscription is over: no way
/// out of the loop leaves it open, and nothing else ends it.
pub proof fn lemma_finish_means_closed(
    phase: SubscriptionPhase,
    event: SubscriptionEvent,
    step: SubscriptionStep,
    next: SubscriptionPhase,
)
    requires
        transition(phase, event, step, next),
    ensures
        step is Finish <==> next is Closed,
        next is Active ==> phase is Active || (phase is Opening && event is Confirmation),
{
}

/// The lines that a confirmed subscription hands on, of the lines that
/// arrive: all but the heartbeats, in the order of their arrival, each once,
/// and without its line end.
pub open spec fn forwarded(lines: Seq<Seq<char>>) -> Seq<Seq<char>>
    decreases lines.len(),
{
    if lines.len() == 0 {
        Seq::empty()
    } else {
        let earlier = forwarded(lines.drop_last());
        let line = without_line_end(lines.last());
        if stream_message(line) is Heartbeat {
            earlier
        } else {
            earlier.push(line)
        }
    }
}

/// The lines that a run of steps hands on for delivery, in their order.
pub open spec fn handed_on(steps: Seq<SubscriptionStep>) -> Seq<Seq<char>>
    decreases steps.len(),
{
    if steps.len() == 0 {
        Seq::empty()
    } else {
        let earlier = handed_on(steps.drop_last());
        match steps.last() {
            SubscriptionStep::Deliver(text) => earlier.push(text@),
            _ => earlier,
        }
    }
}

/// A confirmed subscription hands on every line that is no heartbeat, once
/// and in the order of arrival, and no heartbeat: no event is lost, doubled
/// or moved, and the subscription stays active all the while.
pub proof fn lemma_every_event_is_handed_on_once_in_order(
    lines: Seq<String>,
    steps: Seq<SubscriptionStep>,
    phases: Seq<SubscriptionPhase>,
)
    requires
        steps.len() == lines.len(),
        phases.len() == lines.len(),
        forall|i: int|
            0 <= i < lines.len() ==> transition(
                SubscriptionPhase::Active,
                SubscriptionEvent::Line(#[trigger] lines[i]),
                steps[i],
                phases[i],
            ),
    ensures
        handed_on(steps) == forwarded(lines.map_values(|line: String| line@)),
        forall|i: int| 0 <= i < phases.len() ==> #[trigger] phases[i] is Active,
    decreases lines.len(),
{
    let texts = lines.map_values(|line: String| line@);
    assert forall|i: int| 0 <= i < phases.len() implies #[trigger] phases[i] is Active by {
        assert(transition(
            SubscriptionPhase::Active,
            SubscriptionEvent::Line(lines[i]),
            steps[i],
            phases[i],
        ));
    }
    if lines.len() > 0 {
        let last = lines.len() - 1;
        assert(transition(
            SubscriptionPhase::Active,
            SubscriptionEvent::Line(lines[last]),
            steps[last],
            phases[last],
        ));
        assert(texts.drop_last() =~= lines.drop_last().map_values(|line: String| line@));
        assert(texts.last() == lines[last]@);
        lemma_every_event_is_handed_on_once_in_order(
            lines.drop_last(),
            steps.drop_last(),
            phases.drop_last(),
        );
    }
}

/// What is delivered is answered by a pause for the next line: a delivery
/// that went well, and a line that did not read as an event, leave the
/// subscription as it is.
pub proof fn lemma_delivery_keeps_the_subscription(
    phase: SubscriptionPhase,
    outcome: DeliveryOutcome,
    step: SubscriptionStep,
    next: SubscriptionPhase,
)
    requires
        !(phase is Closed),
        !(outcome is ReceiverGone),
        transition(phase, SubscriptionEvent::Delivery(outcome), step, next),
    ensures
        step is Wait,
        next == phase,
{
}

} // verus!
