//! The channel that retains only the last sent value.
//!
//! A minimum delay between two transfers can be requested at both ends. Values
//! in between are skipped, the latest one is always transferred in the end, and
//! the final one is transferred at once when the sender is dropped.

pub mod cell;
pub mod rate_limit;
pub mod receiver;
pub mod sender;
pub mod transfer;

pub use receiver::{ChangedError, Receiver, ReceiverStream, RecvError};
pub use sender::{SendError, Sender};

use vstd::prelude::*;
use crate::rch::watch::rate_limit::{default_rate_limit, rate_limit_channel, RateLimitReceiver};
use crate::rch::DEFAULT_MAX_ITEM_SIZE;

verus! {

/// Strategy for transferring values to the remote endpoint.
#[derive(Clone, Copy, Debug, PartialEq, Eq, Structural)]
pub enum TransferStrategy {
    /// The next value is sent once the previous one has been received.
    Single,
    /// Several values may be in transfer, using buffer space shared between channels.
    GlobalBuffered,
    /// Several values may be in transfer, using the buffer space of the channel only.
    ChannelBuffered,
}

impl TransferStrategy {
    /// The number that stands for the strategy on the wire.
    pub open spec fn tag(self) -> u8 {
        match self {
            TransferStrategy::Single => 0,
            TransferStrategy::GlobalBuffered => 1,
            TransferStrategy::ChannelBuffered => 59,
        }
    }

    /// Returns the number that stands for the strategy on the wire.
    pub fn to_tag(&self) -> (r: u8)
        ensures
            r == self.tag(),
    {
        match self {
            TransferStrategy::Single => 0,
            TransferStrategy::GlobalBuffered => 1,
            TransferStrategy::ChannelBuffered => 59,
        }
    }

    /// The strategy for a number from the wire; one that is unknown uses the channel's buffer.
    pub open spec fn of_tag(tag: u8) -> TransferStrategy {
        if tag == 0 {
            TransferStrategy::Single
        } else if tag == 1 {
            TransferStrategy::GlobalBuffered
        } else {
            TransferStrategy::ChannelBuffered
        }
    }

    /// Returns the strategy for a number from the wire.
    pub fn from_tag(tag: u8) -> (r: Self)
        ensures
            r == TransferStrategy::of_tag(tag),
    {
        if tag == 0 {
            TransferStrategy::Single
        } else if tag == 1 {
            TransferStrategy::GlobalBuffered
        } else {
            TransferStrategy::ChannelBuffered
        }
    }
}

impl Default for TransferStrategy {
    fn default() -> (r: Self)
        ensures
            r == TransferStrategy::ChannelBuffered,
    {
        TransferStrategy::ChannelBuffered
    }
}

/// Creates a channel with an initial value.
pub fn channel<T: Clone>(init: T) -> (r: (Sender<T>, Receiver<T>, RateLimitReceiver))
    ensures
        r.0.value == init,
        !r.0.closed,
        r.0.pending_errors() == Seq::<crate::rch::RemoteSendError>::empty(),
        r.0.max_item_size == DEFAULT_MAX_ITEM_SIZE,
        r.0.rate_limit == 0,
        r.0.transfer_strategy == TransferStrategy::ChannelBuffered,
        !r.0.successor,
        r.1.value matches Ok(value) && cloned(init, value),
        !r.1.unseen,
        !r.1.sender_dropped,
        r.1.max_item_size == DEFAULT_MAX_ITEM_SIZE,
        r.1.remote_max_item_size is None,
        r.1.transfer_strategy == TransferStrategy::ChannelBuffered,
        r.1.sender_rate_limit == 0,
        r.2.holds(r.0.receiver_rate_limit),
        r.2.holds(r.1.receiver_rate_limit),
        r.0.receiver_rate_limit != r.1.receiver_rate_limit,
        r.2.limit_of(r.0.receiver_rate_limit) == 0,
        r.2.limit_of(r.1.receiver_rate_limit) == 0,
{
    let (sender_place, mut limits) = rate_limit_channel(default_rate_limit());
    let receiver_place = sender_place.duplicate(&mut limits);
    let receiver = Receiver {
        value: Ok(init.clone()),
        unseen: false,
        sender_dropped: false,
        max_item_size: DEFAULT_MAX_ITEM_SIZE,
        remote_max_item_size: None,
        sender_rate_limit: default_rate_limit(),
        receiver_rate_limit: receiver_place,
        transfer_strategy: TransferStrategy::default(),
    };
    let sender = Sender::new(
        init,
        DEFAULT_MAX_ITEM_SIZE,
        default_rate_limit(),
        sender_place,
        TransferStrategy::default(),
    );
    (sender, receiver, limits)
}

/// Sets the maximum size of a value on both halves of a channel.
pub fn with_max_item_size<T>(halves: (Sender<T>, Receiver<T>), max_item_size: usize) -> (r: (
    Sender<T>,
    Receiver<T>,
))
    ensures
        r.0 == (Sender { max_item_size, ..halves.0 }),
        r.1 == (Receiver { max_item_size, ..halves.1 }),
{
    let (mut tx, rx) = halves;
    tx.set_max_item_size(max_item_size);
    (tx, rx.set_max_item_size(max_item_size))
}

/// Sets the transfer strategy on both halves of a channel.
pub fn with_transfer_strategy<T>(
    halves: (Sender<T>, Receiver<T>),
    transfer_strategy: TransferStrategy,
) -> (r: (Sender<T>, Receiver<T>))
    ensures
        r.0 == (Sender { transfer_strategy, ..halves.0 }),
        r.1 == (Receiver { transfer_strategy, ..halves.1 }),
{
    let (mut tx, mut rx) = halves;
    tx.transfer_strategy = transfer_strategy;
    rx.transfer_strategy = transfer_strategy;
    (tx, rx)
}

/// What the task that forwards a local watch channel woke up for.
pub enum ForwardEvent<T> {
    /// Nobody watches the value any more.
    Closed,
    /// The local value changed.
    Changed(T),
    /// The local sender is gone.
    LocalDropped,
}

/// How forwarding goes on.
pub enum ForwardStep {
    /// Wait for the next event.
    GoOn,
    /// Forwarding finished with this result.
    Finish(Result<(), SendError>),
}

/// Processes an event of the task that forwards a local watch channel.
///
/// Forwarding that ends because either side is gone succeeds, unless sending
/// failed because of a value.
pub fn forward_on_event<T>(tx: &mut Sender<T>, event: ForwardEvent<T>) -> (r: ForwardStep)
    ensures
        match event {
            ForwardEvent::Changed(value) => {
                let before = old(tx).pending_errors();
                if !old(tx).closed {
                    &&& r is GoOn
                    &&& *final(tx) == (Sender { value, ..*old(tx) })
                } else if before.len() > 0 && !SendError::of_remote(before[0]).spec_is_closed() {
                    &&& r == ForwardStep::Finish(Err(SendError::of_remote(before[0])))
                    &&& final(tx).pending_errors() == before
                } else {
                    r == ForwardStep::Finish(sender::check_result(before))
                }
            },
            _ => r == ForwardStep::Finish(sender::check_result(old(tx).pending_errors())),
        },
{
    match event {
        ForwardEvent::Changed(value) => match tx.send(value) {
            Ok(_) => {
                return ForwardStep::GoOn;
            },
            Err(err) => {
                if !err.is_closed() {
                    return ForwardStep::Finish(Err(err));
                }
            },
        },
        ForwardEvent::Closed => {},
        ForwardEvent::LocalDropped => {},
    }
    ForwardStep::Finish(tx.check())
}

/// The result of a forwarding task; one that was stopped counts as closed.
pub fn forward_result(joined: Option<Result<(), SendError>>) -> (r: Result<(), SendError>)
    ensures
        r == (match joined {
            Some(res) => res,
            None => Err::<(), SendError>(SendError::Closed),
        }),
{
    match joined {
        Some(res) => res,
        None => Err(SendError::Closed),
    }
}

/// A transfer strategy arrives unchanged at the remote endpoint.
pub proof fn law_strategy_round_trip(strategy: TransferStrategy)
    ensures
        TransferStrategy::of_tag(strategy.tag()) == strategy,
{
}

/// A transfer strategy that is written as a number is read back as the same strategy, and a number
/// that is unknown stands for the default.
pub proof fn law_strategy_is_read_back(
    strategy: TransferStrategy,
    tag: u8,
    read: TransferStrategy,
    other: u8,
    of_other: TransferStrategy,
    default: TransferStrategy,
)
    requires
        call_ensures(TransferStrategy::to_tag, (&strategy,), tag),
        call_ensures(TransferStrategy::from_tag, (tag,), read),
        call_ensures(TransferStrategy::from_tag, (other,), of_other),
        call_ensures(<TransferStrategy as Default>::default, (), default),
    ensures
        read == strategy,
        tag == 0 <==> strategy is Single,
        tag == 1 <==> strategy is GlobalBuffered,
        tag == 59 <==> strategy is ChannelBuffered,
        other > 1 ==> of_other == default,
        of_other is Single <==> other == 0,
        of_other is GlobalBuffered <==> other == 1,
        default is ChannelBuffered,
{
}

/// Forwarding passes each change of the local value on while somebody watches it.
pub proof fn law_forwarded_value_arrives<T>(
    before: Sender<T>,
    after: Sender<T>,
    value: T,
    r: ForwardStep,
)
    requires
        exists|state: &mut Sender<T>| #[trigger]
            call_ensures(forward_on_event::<T>, (state, ForwardEvent::Changed(value)), r) && *state == before
                && *final(state) == after,
    ensures
        r is GoOn <==> !before.closed,
        !before.closed ==> after == (Sender { value, ..before }),
{
}

/// Forwarding that ends reports a failure that a value caused, the first such one, and otherwise
/// succeeds when either side is gone.
pub proof fn law_end_of_forwarding<T>(
    before: Sender<T>,
    after: Sender<T>,
    event: ForwardEvent<T>,
    r: ForwardStep,
)
    requires
        exists|state: &mut Sender<T>| #[trigger]
            call_ensures(forward_on_event::<T>, (state, event), r) && *state == before
                && *final(state) == after,
        event is Closed || event is LocalDropped,
    ensures
        r is Finish,
        r == ForwardStep::Finish(Ok(())) <==> (before.current_err matches Some(
            crate::rch::RemoteSendError::Send(kind),
        ) ==> kind is Send) && (forall|i: int|
            0 <= i < before.errors@.len() ==> (
            #[trigger] before.errors@[i] matches crate::rch::RemoteSendError::Send(kind) ==> kind
                is Send)),
        r matches ForwardStep::Finish(Err(err)) ==> (err matches SendError::Send(kind) && !(kind
            is Send)),
{
    sender::lemma_check_result(before.pending_errors());
    let pending = before.pending_errors();
    if let Some(err) = before.current_err {
        assert(pending[0] == err);
        assert(forall|i: int|
            0 <= i < before.errors@.len() ==> pending[i + 1] == #[trigger] before.errors@[i]);
        assert(forall|i: int| 0 < i < pending.len() ==> #[trigger] pending[i] == before.errors@[i
            - 1]);
    }
}

/// A forwarding task that was stopped counts as closed; otherwise its own result counts.
pub proof fn law_stopped_forwarding_is_closed(
    joined: Option<Result<(), SendError>>,
    r: Result<(), SendError>,
)
    requires
        call_ensures(forward_result, (joined,), r),
    ensures
        joined is None ==> r == Err::<(), SendError>(SendError::Closed),
        joined matches Some(res) ==> r == res,
{
}

/// Both halves of a new channel agree: the receiver watches the value of the sender, and nothing
/// limits the rate.
pub proof fn law_new_watch_channel<T: Clone>(
    init: T,
    r: (Sender<T>, Receiver<T>, RateLimitReceiver),
)
    requires
        call_ensures(channel::<T>, (init,), r),
    ensures
        r.0.value == init,
        r.1.value matches Ok(value) && cloned(init, value),
        !r.0.closed && !r.1.unseen && !r.1.sender_dropped,
        r.0.max_item_size == 16_777_216 && r.1.max_item_size == 16_777_216,
        r.0.rate_limit == 0,
        r.0.transfer_strategy == r.1.transfer_strategy,
        r.0.receiver_rate_limit.slot != r.1.receiver_rate_limit.slot,
        r.0.transfer_strategy == TransferStrategy::ChannelBuffered,
        r.0.errors@.len() == 0 && r.0.current_err is None && !r.0.successor,
        r.1.remote_max_item_size is None && r.1.sender_rate_limit == 0,
        r.2.limits@[r.0.receiver_rate_limit.slot as int] == Some(0u128),
        r.2.limits@[r.1.receiver_rate_limit.slot as int] == Some(0u128),
{
    assert(r.0.pending_errors().len() == 0);
}

/// Both halves of a channel get the strategy and nothing else of them changes.
pub proof fn law_strategy_of_both_halves<T>(
    halves: (Sender<T>, Receiver<T>),
    strategy: TransferStrategy,
    r: (Sender<T>, Receiver<T>),
)
    requires
        call_ensures(with_transfer_strategy::<T>, (halves, strategy), r),
    ensures
        r.0.transfer_strategy == strategy && r.1.transfer_strategy == strategy,
        r.0 == (Sender { transfer_strategy: r.0.transfer_strategy, ..halves.0 }),
        r.1 == (Receiver { transfer_strategy: r.1.transfer_strategy, ..halves.1 }),
{
}

/// Both halves of a channel get the size limit and nothing else of them changes.
pub proof fn law_size_limit_of_both_halves<T>(
    halves: (Sender<T>, Receiver<T>),
    max_item_size: usize,
    r: (Sender<T>, Receiver<T>),
)
    requires
        call_ensures(with_max_item_size::<T>, (halves, max_item_size), r),
    ensures
        r.0.max_item_size == max_item_size && r.1.max_item_size == max_item_size,
        r.0 == (Sender { max_item_size: r.0.max_item_size, ..halves.0 }),
        r.1 == (Receiver { max_item_size: r.1.max_item_size, ..halves.1 }),
{
}

/// A value that nobody watches ends forwarding: with the first failure that was published, if
/// that is not an orderly end, and otherwise as if nobody watched without a value.
pub proof fn law_unwatched_value_ends_forwarding<T>(
    before: Sender<T>,
    value: T,
    first: crate::rch::RemoteSendError,
    meaning: SendError,
    orderly: bool,
    r: ForwardStep,
    of_closed: ForwardStep,
)
    requires
        before.closed,
        call_ensures(<SendError as From<crate::rch::RemoteSendError>>::from, (first,), meaning),
        call_ensures(SendError::is_closed, (&meaning,), orderly),
        exists|state: &mut Sender<T>| #[trigger]
            call_ensures(forward_on_event::<T>, (state, ForwardEvent::Changed(value)), r)
                && *state == before,
        exists|state: &mut Sender<T>| #[trigger]
            call_ensures(forward_on_event::<T>, (state, ForwardEvent::<T>::Closed), of_closed)
                && *state == before,
    ensures
        before.current_err == Some(first) && !orderly ==> r == ForwardStep::Finish(Err(meaning)),
        before.current_err is None && before.errors@.len() > 0 && before.errors@[0] == first
            && !orderly ==> r == ForwardStep::Finish(Err(meaning)),
        before.current_err == Some(first) && orderly ==> r == of_closed,
        before.current_err is None && before.errors@.len() == 0 ==> r == of_closed,
{
    let pending = before.pending_errors();
    if let Some(err) = before.current_err {
        assert(pending[0] == err);
    }
}

} // verus!
