//! The tasks that transfer the values of a watch channel between endpoints.

use vstd::prelude::*;
use crate::rch::base;
use crate::rch::mpsc::Ending;
use crate::rch::watch::rate_limit::{
    decode_rate_limit, encode_rate_limit, rate_limit_message, requested_limit, MAX_DURATION,
};
use crate::rch::watch::{RecvError, TransferStrategy};
use crate::rch::{RemoteSendError, BACKCHANNEL_MSG_ERROR, BACKCHANNEL_MSG_RATE_LIMIT};
use crate::wire::try_get_u8;

verus! {

/// What the task that sends values woke up for.
pub enum SendEvent {
    /// A message of the back channel, its end, or its failure.
    Backchannel(Result<Option<Vec<u8>>, ()>),
    /// The wait before the pending value may be sent is over.
    WaitOver,
    /// The rate limit of the sender has changed.
    RateLimitChanged,
    /// The value was updated, or the sender is gone.
    ValueChanged(Result<(), ()>),
}

/// How long to wait before the pending value may be sent.
#[derive(Clone, Copy, Debug, PartialEq, Eq, Structural)]
pub enum SendWait {
    /// No value is pending.
    Forever,
    /// The pending value may be sent at once.
    Over,
    /// The pending value may be sent after this many nanoseconds.
    For(u128),
}

/// What the task that sends values does after an event.
pub struct SendEffect {
    /// The failure to publish to the local sender.
    pub publish: Option<RemoteSendError>,
    /// The rate limit to set for the receivers at the remote endpoint.
    pub receiver_rate_limit: Option<u128>,
    /// Whether to send the current value now.
    pub send: bool,
}

/// What the task that sends values does after sending one.
pub struct SentEffect {
    /// The failure to publish to the local sender.
    pub publish: Option<RemoteSendError>,
    /// Whether to wait until the remote endpoint has received the value.
    pub await_received: bool,
    /// Whether the task ends at once.
    pub stop: bool,
}

/// The views of a back channel event.
pub open spec fn backchannel_data(msg: Result<Option<Vec<u8>>, ()>) -> Option<Seq<u8>> {
    match msg {
        Ok(Some(data)) => Some(data@),
        _ => None,
    }
}

/// Whether a message asks for a rate limit that is longer than any duration.
pub open spec fn asks_too_much(msg: Seq<u8>) -> bool {
    requested_limit(msg) matches Some(limit) && limit > MAX_DURATION
}

/// Returns whether a message asks for a rate limit that is longer than any duration.
pub fn is_too_much(msg: &Vec<u8>) -> (r: bool)
    ensures
        r == asks_too_much(msg@),
{
    if msg.len() > 0 && msg[0] == BACKCHANNEL_MSG_RATE_LIMIT {
        match decode_rate_limit(msg) {
            Some(limit) => limit > MAX_DURATION,
            None => false,
        }
    } else {
        false
    }
}

/// State of the task that sends values to a remote receiver.
///
/// Times are in nanoseconds since some fixed instant.
pub struct SendTask {
    /// How values are transferred.
    pub strategy: TransferStrategy,
    /// When the last value was sent.
    pub last_send: Option<u128>,
    /// Whether a value waits to be sent.
    pub send_pending: bool,
    /// Whether either side of the channel is gone.
    pub closed: bool,
    /// The rate limit that the receivers at the remote endpoint request.
    pub receiver_rate_limit: u128,
}

impl SendTask {
    /// Creates the task.
    pub fn new(strategy: TransferStrategy, receiver_rate_limit: u128) -> (r: Self)
        ensures
            r == (SendTask {
                strategy,
                last_send: None,
                send_pending: false,
                closed: false,
                receiver_rate_limit,
            }),
    {
        SendTask {
            strategy,
            last_send: None,
            send_pending: false,
            closed: false,
            receiver_rate_limit,
        }
    }

    /// Creates the task for a multiplexed channel, and its base sender, which takes no value
    /// larger than `max_item_size`.
    pub fn open(
        raw_tx: base::RawSender,
        max_item_size: usize,
        strategy: TransferStrategy,
        receiver_rate_limit: u128,
    ) -> (r: (Self, base::ErasedSender))
        ensures
            r.0 == (SendTask {
                strategy,
                last_send: None,
                send_pending: false,
                closed: false,
                receiver_rate_limit,
            }),
            r.1.wf(),
            r.1.sender == (base::RawSender {
                global_credits_allowed: strategy != TransferStrategy::ChannelBuffered,
                ..raw_tx
            }),
            r.1.max_item_size == max_item_size,
    {
        let task = SendTask::new(strategy, receiver_rate_limit);
        let mut base_tx = base::ErasedSender::new(raw_tx);
        base_tx.set_max_item_size(max_item_size);
        base_tx.set_global_credits_allowed(task.global_credits_allowed());
        (task, base_tx)
    }

    /// Whether sending may use buffer space that is shared between channels.
    pub fn global_credits_allowed(&self) -> (r: bool)
        ensures
            r == (self.strategy != TransferStrategy::ChannelBuffered),
    {
        match self.strategy {
            TransferStrategy::ChannelBuffered => false,
            _ => true,
        }
    }

    /// The delay that satisfies both ends.
    pub open spec fn rate_limit(self, sender_rate_limit: u128) -> u128 {
        if self.receiver_rate_limit > sender_rate_limit {
            self.receiver_rate_limit
        } else {
            sender_rate_limit
        }
    }

    /// When the pending value may be sent.
    pub open spec fn due(self, sender_rate_limit: u128) -> int {
        match self.last_send {
            Some(last_send) => last_send + self.rate_limit(sender_rate_limit),
            None => 0,
        }
    }

    /// How long to wait at time `now` before the pending value may be sent.
    pub open spec fn spec_wait(self, sender_rate_limit: u128, now: u128) -> SendWait {
        if !self.send_pending {
            SendWait::Forever
        } else if self.last_send is None || self.rate_limit(sender_rate_limit) == 0 || self.due(
            sender_rate_limit,
        ) <= now {
            SendWait::Over
        } else {
            SendWait::For((self.due(sender_rate_limit) - now) as u128)
        }
    }

    /// Says how long to wait at time `now` before the pending value may be sent.
    ///
    /// The time at which it may be sent must be representable.
    pub fn wait(&self, sender_rate_limit: u128, now: u128) -> (r: SendWait)
        requires
            self.send_pending ==> self.due(sender_rate_limit) <= u128::MAX,
        ensures
            r == self.spec_wait(sender_rate_limit, now),
    {
        if !self.send_pending {
            return SendWait::Forever;
        }
        let rate_limit: u128 = if self.receiver_rate_limit > sender_rate_limit {
            self.receiver_rate_limit
        } else {
            sender_rate_limit
        };
        if let Some(last_send) = self.last_send {
            if rate_limit > 0 {
                let until: u128 = last_send + rate_limit;
                if until > now {
                    return SendWait::For(until - now);
                }
            }
        }
        SendWait::Over
    }

    /// Whether an event ends the channel.
    pub open spec fn closes(event: SendEvent) -> bool {
        match event {
            SendEvent::Backchannel(msg) => backchannel_data(msg) is None,
            SendEvent::ValueChanged(changed) => changed is Err,
            _ => false,
        }
    }

    /// Processes an event.
    ///
    /// A rate limit longer than any duration must not be asked for.
    pub fn on_event(&mut self, event: SendEvent) -> (r: SendEffect)
        requires
            event matches SendEvent::Backchannel(msg) ==> (backchannel_data(msg) matches Some(data)
                ==> !asks_too_much(data)),
        ensures
            final(self).strategy == old(self).strategy,
            final(self).last_send == old(self).last_send,
            final(self).closed == (old(self).closed || SendTask::closes(event)),
            final(self).send_pending == (old(self).send_pending || (event
                matches SendEvent::ValueChanged(changed) && changed is Ok)),
            r.receiver_rate_limit == (match event {
                SendEvent::Backchannel(msg) => match backchannel_data(msg) {
                    Some(data) => match requested_limit(data) {
                        Some(limit) => Some(limit as u128),
                        None => None,
                    },
                    None => None,
                },
                _ => None,
            }),
            final(self).receiver_rate_limit == (match r.receiver_rate_limit {
                Some(limit) => limit,
                None => old(self).receiver_rate_limit,
            }),
            r.publish == (match event {
                SendEvent::Backchannel(msg) => match backchannel_data(msg) {
                    Some(data) => if data.len() > 0 && data[0] == BACKCHANNEL_MSG_ERROR {
                        Some(RemoteSendError::Forward)
                    } else {
                        None
                    },
                    None => None,
                },
                _ => None,
            }),
            r.send == (event is WaitOver || final(self).send_pending && final(self).closed),
            old(self).send_pending && SendTask::closes(event) ==> r.send,
    {
        let mut publish: Option<RemoteSendError> = None;
        let mut receiver_rate_limit: Option<u128> = None;
        let mut send: bool = false;
        match event {
            SendEvent::Backchannel(Ok(Some(msg))) => {
                match try_get_u8(msg.as_slice()) {
                    Some(kind) => {
                        if kind == BACKCHANNEL_MSG_ERROR {
                            publish = Some(RemoteSendError::Forward);
                        } else if kind == BACKCHANNEL_MSG_RATE_LIMIT {
                            if let Some(limit) = decode_rate_limit(&msg) {
                                self.receiver_rate_limit = limit;
                                receiver_rate_limit = Some(limit);
                            }
                        }
                    },
                    None => {},
                }
            },
            SendEvent::Backchannel(_) => {
                self.closed = true;
            },
            SendEvent::WaitOver => {
                send = true;
            },
            SendEvent::RateLimitChanged => {},
            SendEvent::ValueChanged(Ok(_)) => {
                self.send_pending = true;
            },
            SendEvent::ValueChanged(Err(_)) => {
                self.closed = true;
            },
        }
        if self.send_pending && self.closed {
            send = true;
        }
        SendEffect { publish, receiver_rate_limit, send }
    }

    /// Processes the result of sending the current value at time `now`.
    ///
    /// A failure caused by the value ends the task.
    pub fn on_sent(&mut self, result: Result<(), base::SendErrorKind>, now: u128) -> (r: SentEffect)
        ensures
            r.publish == (match result {
                Ok(_) => None,
                Err(kind) => Some(RemoteSendError::Send(kind)),
            }),
            r.stop == (result matches Err(kind) && kind.spec_is_item_specific()),
            r.await_received == (!r.stop && old(self).strategy == TransferStrategy::Single),
            *final(self) == (if r.stop {
                *old(self)
            } else {
                SendTask { last_send: Some(now), send_pending: false, ..*old(self) }
            }),
    {
        let mut publish: Option<RemoteSendError> = None;
        if let Err(kind) = result {
            let stop: bool = kind.is_item_specific();
            publish = Some(RemoteSendError::Send(kind));
            if stop {
                return SentEffect { publish, await_received: false, stop: true };
            }
        }
        self.last_send = Some(now);
        self.send_pending = false;
        let await_received: bool = match self.strategy {
            TransferStrategy::Single => true,
            _ => false,
        };
        SentEffect { publish, await_received, stop: false }
    }

    /// Whether the task goes on processing events.
    pub fn goes_on(&self) -> (r: bool)
        ensures
            r == !self.closed,
    {
        !self.closed
    }
}

/// What the task that receives values does next.
pub struct RecvStep<T> {
    /// Message to send over the back channel.
    pub send_back: Option<Vec<u8>>,
    /// What to replace the value with.
    pub deliver: Option<Result<T, RecvError>>,
    /// When to end.
    pub ending: Ending,
}

/// What the task that receives values woke up for.
pub enum RecvEvent<T> {
    /// Nobody watches the value any more.
    Closed,
    /// Sending the value on to another endpoint failed.
    SendError,
    /// A failure that was present from the start is reported.
    CurrentError,
    /// The combined rate limit of the receivers changed to this value.
    RateLimitChanged(u128),
    /// The remote sender sent a value, is gone, or receiving failed.
    Received(Result<Option<Result<T, RecvError>>, base::RecvError>),
}

/// State of the task that receives values from a remote sender.
pub struct RecvTask {
    /// Whether a failure was present when the task started and has not been reported.
    pub current_err: bool,
    /// The rate limit that the remote sender was asked for.
    pub rate_limit: Option<u128>,
}

impl RecvTask {
    /// Creates the task.
    pub fn new(current_err: &Option<RemoteSendError>) -> (r: Self)
        ensures
            r == (RecvTask { current_err: current_err is Some, rate_limit: None }),
    {
        RecvTask { current_err: current_err.is_some(), rate_limit: None }
    }

    /// Creates the task, and its base receiver, which takes no value larger than
    /// `max_item_size`.
    pub fn open<D, T>(current_err: &Option<RemoteSendError>, max_item_size: usize) -> (r: (
        Self,
        base::ErasedReceiver<D, T>,
    ))
        ensures
            r.0 == (RecvTask { current_err: current_err is Some, rate_limit: None }),
            r.1.is_fresh(),
            r.1.max_item_size == max_item_size,
    {
        let mut base_rx = base::ErasedReceiver::new();
        base_rx.set_max_item_size(max_item_size);
        (RecvTask::new(current_err), base_rx)
    }

    /// The message to send back after an event.
    pub open spec fn reply<T>(self, event: RecvEvent<T>) -> Option<Seq<u8>> {
        match event {
            RecvEvent::SendError | RecvEvent::CurrentError => Some(seq![BACKCHANNEL_MSG_ERROR]),
            RecvEvent::RateLimitChanged(limit) => if self.rate_limit != Some(limit) {
                Some(rate_limit_message(limit))
            } else {
                None
            },
            _ => None,
        }
    }

    /// Processes an event.
    ///
    /// The remote sender is told of a failure and of a rate limit it does not know yet.
    /// The task ends when nobody watches the value, when the sender is gone, when the
    /// connection failed for good, and when what is delivered is not taken.
    pub fn on_event<T>(&mut self, event: RecvEvent<T>) -> (r: RecvStep<T>)
        ensures
            match r.send_back {
                Some(msg) => old(self).reply(event) == Some(msg@),
                None => old(self).reply(event) is None,
            },
            r.deliver == (match event {
                RecvEvent::Received(Ok(Some(value))) => Some(value),
                RecvEvent::Received(Err(err)) => Some(Err(RecvError::Receive(err))),
                _ => None,
            }),
            r.ending == (match event {
                RecvEvent::Closed | RecvEvent::Received(Ok(None)) => Ending::Now,
                RecvEvent::Received(Ok(Some(_))) => Ending::IfRefused,
                RecvEvent::Received(Err(err)) => if err.spec_is_disconnected() {
                    Ending::Now
                } else {
                    Ending::IfRefused
                },
                _ => Ending::Never,
            }),
            *final(self) == (RecvTask {
                current_err: old(self).current_err && event !is CurrentError,
                rate_limit: match event {
                    RecvEvent::RateLimitChanged(limit) => Some(limit),
                    _ => old(self).rate_limit,
                },
            }),
    {
        match event {
            RecvEvent::Closed => RecvStep { send_back: None, deliver: None, ending: Ending::Now },
            RecvEvent::SendError => {
                let msg: Vec<u8> = vec![BACKCHANNEL_MSG_ERROR];
                RecvStep { send_back: Some(msg), deliver: None, ending: Ending::Never }
            },
            RecvEvent::CurrentError => {
                self.current_err = false;
                let msg: Vec<u8> = vec![BACKCHANNEL_MSG_ERROR];
                RecvStep { send_back: Some(msg), deliver: None, ending: Ending::Never }
            },
            RecvEvent::RateLimitChanged(limit) => {
                let known: bool = match self.rate_limit {
                    Some(rate_limit) => rate_limit == limit,
                    None => false,
                };
                let send_back = if known {
                    None
                } else {
                    Some(encode_rate_limit(limit))
                };
                self.rate_limit = Some(limit);
                RecvStep { send_back, deliver: None, ending: Ending::Never }
            },
            RecvEvent::Received(Ok(Some(value))) => RecvStep {
                send_back: None,
                deliver: Some(value),
                ending: Ending::IfRefused,
            },
            RecvEvent::Received(Ok(None)) => RecvStep {
                send_back: None,
                deliver: None,
                ending: Ending::Now,
            },
            RecvEvent::Received(Err(err)) => {
                let ending = if err.is_disconnected() {
                    Ending::Now
                } else {
                    Ending::IfRefused
                };
                RecvStep { send_back: None, deliver: Some(Err(RecvError::Receive(err))), ending }
            },
        }
    }
}

/// The effective delay is the longer one of those that both ends request.
pub proof fn law_delay_is_maximum(task: SendTask, sender_rate_limit: u128)
    ensures
        task.rate_limit(sender_rate_limit) >= sender_rate_limit,
        task.rate_limit(sender_rate_limit) >= task.receiver_rate_limit,
        task.rate_limit(sender_rate_limit) == sender_rate_limit || task.rate_limit(
            sender_rate_limit,
        ) == task.receiver_rate_limit,
{
}

/// The latest value is always sent in the end: as long as it is pending there is a time at
/// which it may be sent, and it may be sent at any time after that.
pub proof fn law_pending_value_is_sent(
    task: SendTask,
    sender_rate_limit: u128,
    now: u128,
    later: u128,
)
    requires
        task.send_pending,
        task.due(sender_rate_limit) <= u128::MAX,
        task.spec_wait(sender_rate_limit, now) matches SendWait::For(delay) ==> now + delay
            <= later,
        now <= later,
    ensures
        !(task.spec_wait(sender_rate_limit, now) is Forever),
        task.spec_wait(sender_rate_limit, later) is Over,
{
}

/// Two values are never sent closer to each other than the effective delay, unless the channel
/// ends.
pub proof fn law_delay_is_kept(task: SendTask, sender_rate_limit: u128, now: u128)
    requires
        task.send_pending,
        task.spec_wait(sender_rate_limit, now) is Over,
        task.last_send matches Some(last_send) && last_send <= now,
    ensures
        now - task.last_send->0 >= task.rate_limit(sender_rate_limit),
{
}

/// Without a rate limit, a pending value may be sent at once at any time.
pub proof fn law_no_limit_no_wait(task: SendTask, now: u128)
    requires
        task.send_pending,
        task.receiver_rate_limit == 0,
    ensures
        task.spec_wait(0, now) is Over,
{
}

/// As long as no value is pending the wait does not end by itself, whatever the limits and the
/// time are; a pending value ends it.
pub proof fn law_nothing_pending_nothing_sent(
    task: SendTask,
    sender_rate_limit: u128,
    now: u128,
    r: SendWait,
)
    requires
        call_ensures(SendTask::wait, (&task, sender_rate_limit, now), r),
    ensures
        !task.send_pending <==> r is Forever,
{
}

/// A pending value waits until the longer one of both delays has passed since the last one was
/// sent, no less and no more; the first value does not wait.
pub proof fn law_wait_is_the_longer_delay(
    task: SendTask,
    sender_rate_limit: u128,
    now: u128,
    r: SendWait,
)
    requires
        call_ensures(SendTask::wait, (&task, sender_rate_limit, now), r),
        task.send_pending,
    ensures
        task.last_send is None ==> r is Over,
        task.last_send matches Some(last_send) ==> {
            &&& r is Over ==> (last_send + sender_rate_limit <= now && last_send
                + task.receiver_rate_limit <= now) || (sender_rate_limit == 0
                && task.receiver_rate_limit == 0)
            &&& last_send + sender_rate_limit <= now && last_send + task.receiver_rate_limit <= now
                ==> r is Over
            &&& sender_rate_limit == 0 && task.receiver_rate_limit == 0 ==> r is Over
            &&& last_send + sender_rate_limit <= u128::MAX && last_send + task.receiver_rate_limit
                <= u128::MAX ==> (r matches SendWait::For(delay) ==> {
                &&& now + delay >= last_send + sender_rate_limit
                &&& now + delay >= last_send + task.receiver_rate_limit
                &&& now + delay == last_send + sender_rate_limit || now + delay == last_send
                    + task.receiver_rate_limit
                &&& delay > 0
            })
        },
{
}

/// Each change of the value is sent at most once: sending clears what is pending, so that nothing
/// is sent until the value changes again, and then not before both delays have passed.
pub proof fn law_each_change_is_sent_once(
    before: SendTask,
    sent: SendTask,
    changed: SendTask,
    result: Result<(), base::SendErrorKind>,
    at: u128,
    effect: SentEffect,
    change_effect: SendEffect,
    sender_rate_limit: u128,
    now: u128,
    idle: SendWait,
    r: SendWait,
)
    requires
        exists|state: &mut SendTask| #[trigger]
            call_ensures(SendTask::on_sent, (state, result, at), effect) && *state == before
                && *final(state) == sent,
        !effect.stop,
        call_ensures(SendTask::wait, (&sent, sender_rate_limit, now), idle),
        exists|state: &mut SendTask| #[trigger]
            call_ensures(SendTask::on_event, (state, SendEvent::ValueChanged(Ok(()))), change_effect) && *state == sent
                && *final(state) == changed,
        call_ensures(SendTask::wait, (&changed, sender_rate_limit, now), r),
        at <= now,
    ensures
        idle is Forever,
        sent.last_send == Some(at),
        r is Over ==> now - at >= sender_rate_limit && now - at >= sent.receiver_rate_limit,
        now - at >= sender_rate_limit && now - at >= sent.receiver_rate_limit ==> r is Over,
        !before.closed ==> !change_effect.send,
{
}

/// Sending the current value records it, unless the value caused a failure, which ends the task.
/// Every failure is published, and the remote endpoint is awaited only if one value is in transfer
/// at a time.
pub proof fn law_effect_of_sending(
    before: SendTask,
    after: SendTask,
    result: Result<(), base::SendErrorKind>,
    now: u128,
    r: SentEffect,
)
    requires
        exists|state: &mut SendTask| #[trigger]
            call_ensures(SendTask::on_sent, (state, result, now), r) && *state == before
                && *final(state) == after,
    ensures
        r.stop <==> (result matches Err(kind) && (kind is Serialize || kind
            is MaxItemSizeExceeded)),
        r.stop ==> after == before && !r.await_received,
        !r.stop ==> !after.send_pending && after.last_send == Some(now) && (r.await_received
            <==> before.strategy is Single),
        r.publish is Some <==> result is Err,
        result matches Err(kind) ==> r.publish == Some(RemoteSendError::Send(kind)),
        after.closed == before.closed,
        after.strategy == before.strategy,
        after.receiver_rate_limit == before.receiver_rate_limit,
{
}

/// A change of the value makes it pending and nothing else does; it is sent when the wait is over,
/// or at once when the channel ends.
pub proof fn law_effect_of_a_change(
    before: SendTask,
    after: SendTask,
    changed: Result<(), ()>,
    r: SendEffect,
)
    requires
        exists|state: &mut SendTask| #[trigger]
            call_ensures(SendTask::on_event, (state, SendEvent::ValueChanged(changed)), r) && *state == before
                && *final(state) == after,
    ensures
        changed is Ok ==> after.send_pending && after.closed == before.closed,
        changed is Err ==> after.closed && after.send_pending == before.send_pending,
        changed is Err && before.send_pending ==> r.send,
        changed is Err && !before.send_pending ==> !r.send,
        changed is Ok ==> (r.send <==> before.closed),
        r.publish is None && r.receiver_rate_limit is None,
        after.last_send == before.last_send,
        after.receiver_rate_limit == before.receiver_rate_limit,
        after.strategy == before.strategy,
{
}

/// When the wait is over the value is sent; a changed rate limit only makes the wait be asked for
/// again.
pub proof fn law_effect_of_waiting(before: SendTask, after: SendTask, event: SendEvent, r: SendEffect)
    requires
        exists|state: &mut SendTask| #[trigger]
            call_ensures(SendTask::on_event, (state, event), r) && *state == before
                && *final(state) == after,
        event is WaitOver || event is RateLimitChanged,
    ensures
        event is WaitOver ==> r.send,
        event is RateLimitChanged && !before.closed ==> !r.send,
        r.publish is None && r.receiver_rate_limit is None,
        after == before,
{
}

/// The remote receiver ends the channel by ending or losing the back channel, upon which a pending
/// value is sent at once; a message does not end it.
pub proof fn law_effect_of_the_back_channel(
    before: SendTask,
    after: SendTask,
    msg: Result<Option<Vec<u8>>, ()>,
    r: SendEffect,
)
    requires
        exists|state: &mut SendTask| #[trigger]
            call_ensures(SendTask::on_event, (state, SendEvent::Backchannel(msg)), r) && *state == before
                && *final(state) == after,
    ensures
        !(msg matches Ok(Some(_))) ==> after.closed && (r.send <==> before.send_pending)
            && r.publish is None && after.receiver_rate_limit == before.receiver_rate_limit,
        msg matches Ok(Some(data)) ==> {
            &&& after.closed == before.closed
            &&& (r.publish is Some <==> data@.len() > 0 && data@[0] == 2)
            &&& r.publish is Some ==> r.publish == Some(RemoteSendError::Forward)
            &&& r.receiver_rate_limit is Some <==> data@.len() >= 17 && data@[0] == 3
            &&& r.receiver_rate_limit is None ==> after.receiver_rate_limit
                == before.receiver_rate_limit
            &&& !before.closed ==> !r.send
        },
        after.send_pending == before.send_pending,
        after.last_send == before.last_send,
{
}

/// A rate limit that the receiving task reports is obeyed by the sending task, which is told once
/// of each.
pub proof fn law_rate_limit_is_obeyed<T>(
    rx_before: RecvTask,
    rx_after: RecvTask,
    limit: u128,
    step: RecvStep<T>,
    tx_before: SendTask,
    tx_after: SendTask,
    msg: Vec<u8>,
    r: SendEffect,
)
    requires
        exists|state: &mut RecvTask| #[trigger]
            call_ensures(
                RecvTask::on_event::<T>,
                (state, RecvEvent::RateLimitChanged(limit)),
                step,
            ) && *state == rx_before && *final(state) == rx_after,
        exists|state: &mut SendTask| #[trigger]
            call_ensures(
                SendTask::on_event,
                (state, SendEvent::Backchannel(Ok(Some(msg)))),
                r,
            ) && *state == tx_before && *final(state) == tx_after,
        step.send_back matches Some(sent) && sent@ == msg@,
    ensures
        r.receiver_rate_limit == Some(limit),
        tx_after.receiver_rate_limit == limit,
        r.publish is None,
        rx_after.rate_limit == Some(limit),
        rx_before.rate_limit != Some(limit),
{
    crate::rch::watch::rate_limit::law_rate_limit_round_trip(limit);
}

/// The sending task is told of a rate limit exactly if it does not know it yet.
pub proof fn law_known_rate_limit_is_not_repeated<T>(
    before: RecvTask,
    after: RecvTask,
    limit: u128,
    step: RecvStep<T>,
)
    requires
        exists|state: &mut RecvTask| #[trigger]
            call_ensures(
                RecvTask::on_event::<T>,
                (state, RecvEvent::RateLimitChanged(limit)),
                step,
            ) && *state == before && *final(state) == after,
    ensures
        step.send_back is Some <==> before.rate_limit != Some(limit),
        after.rate_limit == Some(limit),
        after.current_err == before.current_err,
        step.deliver is None,
        step.ending is Never,
{
}

/// A failure to send a value on is reported to the sending task, which publishes it.
pub proof fn law_forwarding_failure_is_published<T>(
    rx_before: RecvTask,
    rx_after: RecvTask,
    event: RecvEvent<T>,
    step: RecvStep<T>,
    tx_before: SendTask,
    tx_after: SendTask,
    msg: Vec<u8>,
    r: SendEffect,
)
    requires
        exists|state: &mut RecvTask| #[trigger]
            call_ensures(RecvTask::on_event::<T>, (state, event), step) && *state == rx_before
                && *final(state) == rx_after,
        event is SendError || event is CurrentError,
        exists|state: &mut SendTask| #[trigger]
            call_ensures(
                SendTask::on_event,
                (state, SendEvent::Backchannel(Ok(Some(msg)))),
                r,
            ) && *state == tx_before && *final(state) == tx_after,
        step.send_back matches Some(sent) ==> sent@ == msg@,
    ensures
        step.send_back is Some,
        r.publish == Some(RemoteSendError::Forward),
        r.receiver_rate_limit is None,
        step.deliver is None,
        step.ending is Never,
        event is CurrentError ==> !rx_after.current_err,
        event is SendError ==> rx_after.current_err == rx_before.current_err,
        rx_after.rate_limit == rx_before.rate_limit,
{
}

/// What is received is delivered, and a failure is delivered as one. The task ends when the sender
/// or all receivers are gone or the connection failed, and when nobody takes what is delivered.
pub proof fn law_received_value_is_delivered<T>(
    before: RecvTask,
    after: RecvTask,
    received: Result<Option<Result<T, RecvError>>, base::RecvError>,
    step: RecvStep<T>,
)
    requires
        exists|state: &mut RecvTask| #[trigger]
            call_ensures(RecvTask::on_event::<T>, (state, RecvEvent::Received(received)), step) && *state == before
                && *final(state) == after,
    ensures
        received matches Ok(Some(value)) ==> step.deliver == Some(value) && step.ending
            is IfRefused,
        received matches Ok(None) ==> step.deliver is None && step.ending is Now,
        received matches Err(err) ==> {
            &&& step.deliver == Some(Err::<T, RecvError>(RecvError::Receive(err)))
            &&& step.ending is Now <==> (err matches base::RecvError::Receive(cause) && (cause
                is ChMux || cause is Rejected))
            &&& !(step.ending is Now) ==> step.ending is IfRefused
        },
        step.send_back is None,
        after == before,
{
}

/// The receiving task ends without a word when nobody watches the value any more.
pub proof fn law_unwatched_value_ends_receiving<T>(before: RecvTask, after: RecvTask, step: RecvStep<T>)
    requires
        exists|state: &mut RecvTask| #[trigger]
            call_ensures(RecvTask::on_event::<T>, (state, RecvEvent::Closed), step) && *state == before
                && *final(state) == after,
    ensures
        step.ending is Now,
        step.deliver is None,
        step.send_back is None,
        after == before,
{
}

/// A task starts with nothing sent and nothing pending, and uses shared buffer space unless the
/// strategy forbids it.
pub proof fn law_start_of_transfer(
    raw_tx: base::RawSender,
    max_item_size: usize,
    strategy: TransferStrategy,
    receiver_rate_limit: u128,
    r: (SendTask, base::ErasedSender),
    goes_on: bool,
)
    requires
        call_ensures(SendTask::open, (raw_tx, max_item_size, strategy, receiver_rate_limit), r),
        call_ensures(SendTask::goes_on, (&r.0,), goes_on),
    ensures
        r.0.last_send is None && !r.0.send_pending && !r.0.closed && goes_on,
        r.0.strategy == strategy,
        r.0.receiver_rate_limit == receiver_rate_limit,
        r.1.max_item_size == max_item_size,
        r.1.sender.global_credits_allowed <==> !(strategy is ChannelBuffered),
        r.1.sender.max_data_size == raw_tx.max_data_size,
        r.1.sender.sent == raw_tx.sent,
{
}

/// The sending task goes on until the channel has ended.
pub proof fn law_transfer_goes_on_until_closed(task: SendTask, r: bool)
    requires
        call_ensures(SendTask::goes_on, (&task,), r),
    ensures
        r != task.closed,
{
}

/// A message asks for too much exactly if it is complete, is about the rate limit and names more
/// than the longest duration.
pub proof fn law_too_much_is_recognized(msg: Vec<u8>, limit: u128, encoded: Vec<u8>, r: bool)
    requires
        call_ensures(encode_rate_limit, (limit,), encoded),
        call_ensures(is_too_much, (&msg,), r),
    ensures
        msg@ == encoded@ ==> (r <==> limit > 18_446_744_073_709_551_615_999_999_999),
        r ==> msg@.len() >= 17 && msg@[0] == 3,
{
    crate::rch::watch::rate_limit::law_rate_limit_round_trip(limit);
}

/// A new sending task has sent nothing and has nothing to send. Only a task that buffers in the
/// channel does without the credits that all channels share.
pub proof fn law_new_watch_tasks(
    strategy: TransferStrategy,
    rate_limit: u128,
    sending: SendTask,
    credits: bool,
    err: Option<RemoteSendError>,
    receiving: RecvTask,
)
    requires
        call_ensures(SendTask::new, (strategy, rate_limit), sending),
        call_ensures(SendTask::global_credits_allowed, (&sending,), credits),
        call_ensures(RecvTask::new, (&err,), receiving),
    ensures
        sending.strategy == strategy && sending.receiver_rate_limit == rate_limit,
        sending.last_send is None && !sending.send_pending && !sending.closed,
        credits <==> strategy != TransferStrategy::ChannelBuffered,
        receiving.current_err <==> err is Some,
        receiving.rate_limit is None,
{
}

/// A value that was sent is no longer pending and was sent at that time; one that ended the task
/// leaves it as it was.
pub proof fn law_sent_value_is_noted(
    before: SendTask,
    result: Result<(), base::SendErrorKind>,
    now: u128,
    after: SendTask,
    r: SentEffect,
)
    requires
        exists|state: &mut SendTask| #[trigger]
            call_ensures(SendTask::on_sent, (state, result, now), r) && *state == before
                && *final(state) == after,
    ensures
        r.stop <==> (result matches Err(kind) && !(kind is Send)),
        r.stop ==> after == before && !r.await_received,
        !r.stop ==> after == (SendTask { last_send: Some(now), send_pending: false, ..before }),
        !r.stop ==> (r.await_received <==> before.strategy == TransferStrategy::Single),
        result is Ok ==> r.publish is None,
        result matches Err(kind) ==> r.publish == Some(RemoteSendError::Send(kind)),
{
}

/// A task that is opened starts as a new one does, and its end of the base channel keeps to the
/// size limit; only a task that buffers in the channel does without the shared credits.
pub proof fn law_opened_tasks<D, T>(
    raw_tx: base::RawSender,
    limit: usize,
    strategy: TransferStrategy,
    rate_limit: u128,
    sending: SendTask,
    sent: (SendTask, base::ErasedSender),
    err: Option<RemoteSendError>,
    receiving: RecvTask,
    received: (RecvTask, base::ErasedReceiver<D, T>),
)
    requires
        call_ensures(SendTask::new, (strategy, rate_limit), sending),
        call_ensures(SendTask::open, (raw_tx, limit, strategy, rate_limit), sent),
        call_ensures(RecvTask::new, (&err,), receiving),
        call_ensures(RecvTask::open::<D, T>, (&err, limit), received),
    ensures
        sent.0 == sending,
        sent.1.sender == (base::RawSender {
            global_credits_allowed: strategy != TransferStrategy::ChannelBuffered,
            ..raw_tx
        }),
        sent.1.max_item_size == limit && received.1.max_item_size == limit,
        received.0 == receiving,
        received.1.recved is None && received.1.data is Empty && received.1.item is None,
{
}

} // verus!
