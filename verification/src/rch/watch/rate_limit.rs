//! Combining the rate limits that the receivers of a channel request.
//!
//! A rate limit is the minimum delay between two transfers in nanoseconds; zero
//! means that transfers are not limited.

use vstd::prelude::*;
use crate::rch::BACKCHANNEL_MSG_RATE_LIMIT;
use crate::wire::{le_digits, le_number, push_u128_le, try_get_u128_le};

verus! {

/// The longest duration in nanoseconds: `u64::MAX` seconds and 999,999,999 nanoseconds.
pub const MAX_DURATION: u128 = 18_446_744_073_709_551_615_999_999_999;

/// Rate limiting is disabled by default.
pub fn default_rate_limit() -> (r: u128)
    ensures
        r == 0,
{
    0
}

/// The lowest limit that is held, or zero if none is held.
pub open spec fn lowest(limits: Seq<Option<u128>>) -> u128 {
    match lowest_held(limits) {
        Some(limit) => limit,
        None => 0,
    }
}

/// The lowest limit that is held, if any is.
pub open spec fn lowest_held(limits: Seq<Option<u128>>) -> Option<u128>
    decreases limits.len(),
{
    if limits.len() == 0 {
        None
    } else {
        match (lowest_held(limits.drop_last()), limits.last()) {
            (Some(low), Some(limit)) => Some(
                if limit < low {
                    limit
                } else {
                    low
                },
            ),
            (None, Some(limit)) => Some(limit),
            (low, None) => low,
        }
    }
}

/// The place of one holder among the rate limits of a channel.
#[derive(Clone, Copy, Debug, PartialEq, Eq, Structural)]
pub struct RateLimitSender {
    /// Index of the slot that keeps the holder's limit.
    pub slot: usize,
}

/// Combines the rate limits requested by all holders of a channel's receiving side.
///
/// Every holder has a slot of its own; the slot of a dropped holder is empty and
/// is used again by the next one.
pub struct RateLimitReceiver {
    /// One slot per holder.
    pub limits: Vec<Option<u128>>,
    /// Whether a limit was set or a holder was dropped since the limits were last read.
    pub changed: bool,
}

/// Creates the rate limits of a channel with a single holder.
pub fn rate_limit_channel(rate_limit: u128) -> (r: (RateLimitSender, RateLimitReceiver))
    ensures
        r.1.limits@ == seq![Some(rate_limit)],
        r.0.slot == 0,
        r.1.holds(r.0),
        !r.1.changed,
{
    let limits: Vec<Option<u128>> = vec![Some(rate_limit)];
    (RateLimitSender { slot: 0 }, RateLimitReceiver { limits, changed: false })
}

impl RateLimitSender {
    /// Returns the limit that this holder requests.
    pub fn get(&self, limits: &RateLimitReceiver) -> (r: u128)
        requires
            limits.holds(*self),
        ensures
            r == limits.limit_of(*self),
    {
        match limits.limits[self.slot] {
            Some(limit) => limit,
            None => 0,
        }
    }

    /// Adds a holder that requests the same limit.
    pub fn duplicate(&self, limits: &mut RateLimitReceiver) -> (r: RateLimitSender)
        requires
            old(limits).holds(*self),
        ensures
            old(limits).gained(r, *final(limits)),
            final(limits).limit_of(r) == old(limits).limit_of(*self),
            final(limits).changed == old(limits).changed,
            lowest(final(limits).limits@) == lowest(old(limits).limits@),
    {
        let ghost before = limits.limits@;
        let limit: Option<u128> = limits.limits[self.slot];
        let mut slot: usize = 0;
        while slot < limits.limits.len() && limits.limits[slot].is_some()
            invariant
                slot <= limits.limits@.len(),
                limits.limits@ == before,
                limits.changed == old(limits).changed,
            decreases limits.limits@.len() - slot,
        {
            slot = slot + 1;
        }
        proof {
            lemma_lowest_bounds(before);
        }
        if slot < limits.limits.len() {
            limits.limits.set(slot, limit);
        } else {
            limits.limits.push(limit);
        }
        proof {
            lemma_lowest_bounds(limits.limits@);
            assert(limits.limits@[slot as int] == before[self.slot as int]);
            assert(limits.limits@[self.slot as int] == before[self.slot as int]);
            lemma_lowest_unique(before, limits.limits@);
        }
        RateLimitSender { slot }
    }

    /// Sets the limit that this holder requests.
    pub fn set(&self, limits: &mut RateLimitReceiver, rate_limit: u128)
        requires
            old(limits).holds(*self),
        ensures
            final(limits).limits@ == old(limits).limits@.update(
                self.slot as int,
                Some(rate_limit),
            ),
            final(limits).holds(*self),
            final(limits).changed,
    {
        limits.limits.set(self.slot, Some(rate_limit));
        limits.changed = true;
    }

    /// Drops this holder, whose limit no longer counts.
    pub fn drop(self, limits: &mut RateLimitReceiver)
        requires
            old(limits).holds(self),
        ensures
            final(limits).limits@ == old(limits).limits@.update(self.slot as int, None),
            final(limits).changed,
    {
        limits.limits.set(self.slot, None);
        limits.changed = true;
    }
}

impl RateLimitReceiver {
    /// Whether the slot belongs to a holder that is alive.
    pub open spec fn holds(self, holder: RateLimitSender) -> bool {
        &&& holder.slot < self.limits@.len()
        &&& self.limits@[holder.slot as int] is Some
    }

    /// The limit that a holder requests.
    pub open spec fn limit_of(self, holder: RateLimitSender) -> u128 {
        self.limits@[holder.slot as int]->0
    }

    /// Whether a state follows from this one by adding a holder.
    pub open spec fn gained(self, holder: RateLimitSender, after: RateLimitReceiver) -> bool {
        &&& !self.holds(holder)
        &&& after.holds(holder)
        &&& forall|other: RateLimitSender|
            other != holder ==> #[trigger] after.holds(other) == self.holds(other)
        &&& forall|other: RateLimitSender|
            other != holder && self.holds(other) ==> #[trigger] after.limit_of(other)
                == self.limit_of(other)
    }

    /// Whether any holder is alive.
    pub open spec fn is_held(self) -> bool {
        exists|i: int| 0 <= i < self.limits@.len() && #[trigger] self.limits@[i] is Some
    }

    /// Returns whether any holder is alive.
    fn any_held(&self) -> (r: bool)
        ensures
            r == self.is_held(),
    {
        let mut i: usize = 0;
        while i < self.limits.len()
            invariant
                i <= self.limits@.len(),
                forall|j: int| 0 <= j < i ==> #[trigger] self.limits@[j] is None,
            decreases self.limits@.len() - i,
        {
            if self.limits[i].is_some() {
                assert(self.limits@[i as int] is Some);
                return true;
            }
            i = i + 1;
        }
        false
    }

    /// Looks for a change and marks it as seen; `None` means that there is none yet.
    ///
    /// Fails when all holders are gone and nothing is left to be seen.
    pub fn changed(&mut self) -> (r: Option<Result<(), ()>>)
        ensures
            match r {
                Some(Ok(_)) => old(self).changed,
                Some(Err(_)) => !old(self).changed && !old(self).is_held(),
                None => !old(self).changed && old(self).is_held(),
            },
            *final(self) == (RateLimitReceiver { changed: false, ..*old(self) }),
    {
        if self.changed {
            self.changed = false;
            Some(Ok(()))
        } else if self.any_held() {
            None
        } else {
            Some(Err(()))
        }
    }

    /// Returns the lowest limit of all holders, or zero if there are none.
    pub fn get(&self) -> (r: u128)
        ensures
            r == lowest(self.limits@),
    {
        let mut low: Option<u128> = None;
        let mut i: usize = 0;
        while i < self.limits.len()
            invariant
                i <= self.limits@.len(),
                low == lowest_held(self.limits@.take(i as int)),
            decreases self.limits@.len() - i,
        {
            assert(self.limits@.take(i + 1).drop_last() =~= self.limits@.take(i as int));
            low = match (low, self.limits[i]) {
                (Some(low), Some(limit)) => if limit < low {
                    Some(limit)
                } else {
                    Some(low)
                },
                (None, Some(limit)) => Some(limit),
                (low, None) => low,
            };
            i = i + 1;
        }
        assert(self.limits@.take(i as int) =~= self.limits@);
        match low {
            Some(limit) => limit,
            None => 0,
        }
    }

    /// Returns the lowest limit of all holders and marks the limits as read.
    pub fn get_and_update(&mut self) -> (r: u128)
        ensures
            r == lowest(old(self).limits@),
            final(self).limits@ == old(self).limits@,
            !final(self).changed,
    {
        self.changed = false;
        self.get()
    }
}

/// The message that asks the remote sender to obey a rate limit.
pub open spec fn rate_limit_message(rate_limit: u128) -> Seq<u8> {
    seq![BACKCHANNEL_MSG_RATE_LIMIT] + le_digits(rate_limit as nat, 16)
}

/// The rate limit that a back channel message asks for, if it does.
pub open spec fn requested_limit(msg: Seq<u8>) -> Option<nat> {
    if msg.len() >= 17 && msg[0] == BACKCHANNEL_MSG_RATE_LIMIT {
        Some(le_number(msg.subrange(1, 17)))
    } else {
        None
    }
}

/// Returns the message that asks the remote sender to obey a rate limit.
pub fn encode_rate_limit(rate_limit: u128) -> (r: Vec<u8>)
    ensures
        r@ == rate_limit_message(rate_limit),
{
    let mut msg: Vec<u8> = vec![BACKCHANNEL_MSG_RATE_LIMIT];
    push_u128_le(&mut msg, rate_limit);
    msg
}

/// Returns the number that follows the first byte of a message, if it is long enough.
pub fn decode_rate_limit(msg: &Vec<u8>) -> (r: Option<u128>)
    ensures
        msg@.len() < 17 ==> r is None,
        msg@.len() >= 17 ==> r is Some && r->0 as nat == le_number(msg@.subrange(1, 17)),
{
    if msg.len() == 0 {
        return None;
    }
    let rest: &[u8] = vstd::slice::slice_subrange(msg.as_slice(), 1, msg.len());
    proof {
        if rest@.len() >= 16 {
            assert(rest@.take(16) =~= msg@.subrange(1, 17));
        }
    }
    try_get_u128_le(rest)
}

/// The lowest held limit is held and is a lower bound.
proof fn lemma_lowest_bounds(limits: Seq<Option<u128>>)
    ensures
        lowest_held(limits) is Some <==> exists|i: int|
            0 <= i < limits.len() && #[trigger] limits[i] is Some,
        forall|i: int|
            0 <= i < limits.len() && #[trigger] limits[i] is Some ==> lowest_held(limits) is Some
                && lowest_held(limits)->0 <= limits[i]->0,
        lowest_held(limits) is Some ==> exists|i: int|
            0 <= i < limits.len() && #[trigger] limits[i] == lowest_held(limits),
    decreases limits.len(),
{
    if limits.len() > 0 {
        let init = limits.drop_last();
        let last = limits.len() - 1;
        lemma_lowest_bounds(init);
        assert forall|i: int| 0 <= i < limits.len() && #[trigger] limits[i] is Some implies
            lowest_held(limits) is Some && lowest_held(limits)->0 <= limits[i]->0 by {
            if i < last {
                assert(init[i] == limits[i]);
            }
        }
        if lowest_held(limits) is Some {
            if lowest_held(limits) == limits.last() {
                assert(limits[last] == lowest_held(limits));
            } else {
                assert(lowest_held(init) == lowest_held(limits));
                let i = choose|i: int| 0 <= i < init.len() && #[trigger] init[i] == lowest_held(init);
                assert(limits[i] == lowest_held(limits));
            }
        }
    }
}

/// Two sequences that hold the same limits, apart from repetitions, have the same lowest one.
proof fn lemma_lowest_unique(a: Seq<Option<u128>>, b: Seq<Option<u128>>)
    requires
        forall|i: int|
            0 <= i < a.len() && #[trigger] a[i] is Some ==> 0 <= i < b.len() && b[i] == a[i],
        forall|i: int|
            #![trigger b[i]]
            0 <= i < b.len() && b[i] is Some ==> exists|j: int|
                0 <= j < a.len() && #[trigger] a[j] == b[i],
    ensures
        lowest_held(a) == lowest_held(b),
{
    lemma_lowest_bounds(a);
    lemma_lowest_bounds(b);
    if lowest_held(b) is Some {
        let i = choose|i: int| 0 <= i < b.len() && #[trigger] b[i] == lowest_held(b);
        let j = choose|j: int| 0 <= j < a.len() && #[trigger] a[j] == b[i];
        assert(a[j] is Some);
    }
    if lowest_held(a) is Some {
        let i = choose|i: int| 0 <= i < a.len() && #[trigger] a[i] == lowest_held(a);
        assert(b[i] is Some);
    }
}

/// The limits of several receivers are combined by taking the lowest one: nobody requests
/// less, and somebody requests exactly that.
pub proof fn law_limits_are_combined_by_minimum(limits: RateLimitReceiver, holder: RateLimitSender)
    requires
        limits.holds(holder),
    ensures
        lowest(limits.limits@) <= limits.limit_of(holder),
        exists|i: int|
            0 <= i < limits.limits@.len() && #[trigger] limits.limits@[i] == Some(
                lowest(limits.limits@),
            ),
{
    lemma_lowest_bounds(limits.limits@);
    assert(limits.limits@[holder.slot as int] is Some);
}

/// A receiver that requests no rate limit disables it for the channel.
pub proof fn law_zero_disables(limits: RateLimitReceiver, holder: RateLimitSender)
    requires
        limits.holds(holder),
        limits.limit_of(holder) == 0,
    ensures
        lowest(limits.limits@) == 0,
{
    law_limits_are_combined_by_minimum(limits, holder);
}

/// A rate limit arrives unchanged at the remote sender.
pub proof fn law_rate_limit_round_trip(rate_limit: u128)
    ensures
        requested_limit(rate_limit_message(rate_limit)) == Some(rate_limit as nat),
{
    let msg = rate_limit_message(rate_limit);
    assert(rate_limit < vstd::arithmetic::power::pow(0x100, 16)) by {
        reveal_with_fuel(vstd::arithmetic::power::pow, 17);
        assert(vstd::arithmetic::power::pow(0x100, 16)
            == 0x1_0000_0000_0000_0000_0000_0000_0000_0000int);
    }
    crate::wire::law_le_round_trip(rate_limit as nat, 16);
    assert(msg.subrange(1, 17) =~= le_digits(rate_limit as nat, 16));
}

/// The combined limit is requested by somebody and nobody requests less; without holders there is
/// no limit. Reading it marks the limits as read.
pub proof fn law_combined_limit(
    limits: RateLimitReceiver,
    after: RateLimitReceiver,
    r: u128,
    updated: u128,
)
    requires
        call_ensures(RateLimitReceiver::get, (&limits,), r),
        exists|state: &mut RateLimitReceiver| #[trigger]
            call_ensures(RateLimitReceiver::get_and_update, (state,), updated) && *state == limits
                && *final(state) == after,
    ensures
        forall|i: int|
            0 <= i < limits.limits@.len() && #[trigger] limits.limits@[i] is Some ==> r
                <= limits.limits@[i]->0,
        (exists|i: int| 0 <= i < limits.limits@.len() && #[trigger] limits.limits@[i] is Some)
            ==> exists|i: int|
            0 <= i < limits.limits@.len() && #[trigger] limits.limits@[i] == Some(r),
        (forall|i: int| 0 <= i < limits.limits@.len() ==> #[trigger] limits.limits@[i] is None)
            ==> r == 0,
        updated == r,
        !after.changed,
        after.limits@ == limits.limits@,
{
    lemma_lowest_bounds(limits.limits@);
}

/// A holder gets back the limit that it set, others keep theirs, and the change is noticed once.
pub proof fn law_limit_is_set(
    holder: RateLimitSender,
    other: RateLimitSender,
    rate_limit: u128,
    before: RateLimitReceiver,
    after: RateLimitReceiver,
    seen: RateLimitReceiver,
    own: u128,
    others_before: u128,
    others_after: u128,
    found: Option<Result<(), ()>>,
    again: Option<Result<(), ()>>,
)
    requires
        exists|state: &mut RateLimitReceiver| #[trigger]
            call_ensures(RateLimitSender::set, (&holder, state, rate_limit), ()) && *state
                == before && *final(state) == after,
        before.holds(holder),
        before.holds(other),
        call_ensures(RateLimitSender::get, (&holder, &after), own),
        call_ensures(RateLimitSender::get, (&other, &before), others_before),
        call_ensures(RateLimitSender::get, (&other, &after), others_after),
        exists|state: &mut RateLimitReceiver| #[trigger]
            call_ensures(RateLimitReceiver::changed, (state,), found) && *state == after
                && *final(state) == seen,
        exists|state: &mut RateLimitReceiver| #[trigger]
            call_ensures(RateLimitReceiver::changed, (state,), again) && *state == seen,
    ensures
        own == rate_limit,
        other != holder ==> others_after == others_before,
        found matches Some(Ok(_)),
        again is None,
{
    assert(after.limits@[holder.slot as int] is Some);
    assert(seen.limits@[holder.slot as int] is Some);
}

/// The limit of a holder that was dropped no longer counts, which is noticed; when the last one is
/// gone, that is reported.
pub proof fn law_dropped_holder_does_not_count(
    holder: RateLimitSender,
    before: RateLimitReceiver,
    after: RateLimitReceiver,
    seen: RateLimitReceiver,
    found: Option<Result<(), ()>>,
    again: Option<Result<(), ()>>,
)
    requires
        exists|state: &mut RateLimitReceiver| #[trigger]
            call_ensures(RateLimitSender::drop, (holder, state), ()) && *state == before && *final(state)
                == after,
        before.holds(holder),
        exists|state: &mut RateLimitReceiver| #[trigger]
            call_ensures(RateLimitReceiver::changed, (state,), found) && *state == after
                && *final(state) == seen,
        exists|state: &mut RateLimitReceiver| #[trigger]
            call_ensures(RateLimitReceiver::changed, (state,), again) && *state == seen,
    ensures
        after.limits@.len() == before.limits@.len(),
        after.limits@[holder.slot as int] is None,
        forall|i: int|
            0 <= i < before.limits@.len() && i != holder.slot ==> #[trigger] after.limits@[i]
                == before.limits@[i],
        found matches Some(Ok(_)),
        again is Some <==> forall|i: int|
            0 <= i < after.limits@.len() ==> #[trigger] after.limits@[i] is None,
        again is Some ==> again matches Some(Err(_)),
{
    assert(seen.limits@ == after.limits@);
}

/// A further holder requests what the one requests from which it stems, takes no place of another,
/// and leaves the combined limit as it is.
pub proof fn law_further_holder(
    holder: RateLimitSender,
    before: RateLimitReceiver,
    after: RateLimitReceiver,
    r: RateLimitSender,
    of_holder: u128,
    of_further: u128,
    combined_before: u128,
    combined_after: u128,
)
    requires
        exists|state: &mut RateLimitReceiver| #[trigger]
            call_ensures(RateLimitSender::duplicate, (&holder, state), r) && *state == before
                && *final(state) == after,
        before.holds(holder),
        call_ensures(RateLimitSender::get, (&holder, &before), of_holder),
        call_ensures(RateLimitSender::get, (&r, &after), of_further),
        call_ensures(RateLimitReceiver::get, (&before,), combined_before),
        call_ensures(RateLimitReceiver::get, (&after,), combined_after),
    ensures
        of_further == of_holder,
        combined_after == combined_before,
        r.slot != holder.slot,
        r.slot < before.limits@.len() ==> before.limits@[r.slot as int] is None,
        after.changed == before.changed,
        forall|other: RateLimitSender|
            before.holds(other) ==> #[trigger] after.holds(other) && after.limits@[other.slot as int]
                == before.limits@[other.slot as int],
{
    assert forall|other: RateLimitSender| before.holds(other) implies #[trigger] after.holds(other)
        && after.limits@[other.slot as int] == before.limits@[other.slot as int] by {
        assert(!before.holds(r));
        assert(other != r);
        assert(after.holds(other));
        assert(after.limit_of(other) == before.limit_of(other));
    }
}

/// A new channel has a single holder, which requests the given limit.
pub proof fn law_new_rate_limits(
    rate_limit: u128,
    r: (RateLimitSender, RateLimitReceiver),
    own: u128,
    combined: u128,
    default: u128,
)
    requires
        call_ensures(rate_limit_channel, (rate_limit,), r),
        call_ensures(RateLimitSender::get, (&r.0, &r.1), own),
        call_ensures(RateLimitReceiver::get, (&r.1,), combined),
        call_ensures(default_rate_limit, (), default),
    ensures
        own == rate_limit,
        combined == rate_limit,
        !r.1.changed,
        default == 0,
{
    lemma_lowest_bounds(r.1.limits@);
    assert(r.1.limits@[0] == Some(rate_limit));
}

/// Reading the message that was written for a rate limit gives back the limit; it takes seventeen
/// bytes, and a shorter message is not read.
pub proof fn law_rate_limit_is_read_back(
    rate_limit: u128,
    msg: Vec<u8>,
    read: Option<u128>,
    short: Vec<u8>,
    of_short: Option<u128>,
)
    requires
        call_ensures(encode_rate_limit, (rate_limit,), msg),
        call_ensures(decode_rate_limit, (&msg,), read),
        call_ensures(decode_rate_limit, (&short,), of_short),
    ensures
        read == Some(rate_limit),
        msg@.len() == 17,
        msg@[0] == 3,
        of_short is Some <==> short@.len() >= 17,
{
    law_rate_limit_round_trip(rate_limit);
    crate::wire::law_le_length(rate_limit as nat, 16);
}

} // verus!
