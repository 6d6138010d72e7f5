//! Monitors of remote trait calls.
//!
//! A monitor decides for each request whether it is processed. What a monitor
//! decides is awaited outside; this module says what follows from it.

pub mod log;

pub use log::LogMonitor;

use vstd::prelude::*;
use crate::rch::{mpsc, oneshot};

verus! {

/// Decision of a client monitor on a request.
pub enum CallDecision<G> {
    /// Process the request normally.
    Pass,
    /// Process the request and hold the guard until it is finished.
    Guard(G),
    /// Drop the request.
    Drop,
}

/// Is held until a request of a client is processed.
pub trait CallGuard: Sized {
    /// Tells the guard that the called method returned an error.
    fn failed(&mut self)
        default_ensures
            *final(self) == *old(self),
    {
    }

    /// Tells the guard that receiving the response failed.
    fn response_failed(&mut self, err: &oneshot::RecvError)
        default_ensures
            *final(self) == *old(self),
    {
    }
}

/// Is held until a request of a server is processed.
pub trait DispatchGuard: Sized {
    /// Tells the guard that the called method returned an error.
    fn failed(&mut self)
        default_ensures
            *final(self) == *old(self),
    {
    }
}

/// Decision of a monitor of a request receiver on a request.
#[derive(Clone, Copy, Debug, PartialEq, Eq, Structural)]
pub enum RecvDecision {
    /// Return the request to the caller.
    Pass,
    /// Drop the request and receive the next one.
    Drop,
}

/// Decision of a server monitor on a request.
pub enum DispatchDecision<G, E> {
    /// Process the request normally.
    Pass,
    /// Process the request and hold the guard until it is finished.
    Guard(G),
    /// Drop the request.
    Drop,
    /// Stop serving with this error.
    Error(E),
}

/// The guards that two monitors gave for a request.
///
/// The guard of the second monitor is told of a failure, and released, before that of the
/// first one.
pub enum ChainedGuard<A, B> {
    /// Only the first monitor gave a guard.
    First(A),
    /// Only the second monitor gave a guard.
    Second(B),
    /// Both monitors gave a guard.
    Both {
        /// Guard of the second monitor.
        second: B,
        /// Guard of the first monitor.
        first: A,
    },
}

impl<A: CallGuard, B: CallGuard> CallGuard for ChainedGuard<A, B> {
    fn failed(&mut self)
        ensures
            *old(self) matches ChainedGuard::First(before) ==> exists|first: &mut A|
                {
                    &&& #[trigger] call_ensures(<A as CallGuard>::failed, (first,), ())
                    &&& *first == before
                    &&& *final(self) == ChainedGuard::<A, B>::First(*final(first))
                },
            *old(self) matches ChainedGuard::Second(before) ==> exists|second: &mut B|
                {
                    &&& #[trigger] call_ensures(<B as CallGuard>::failed, (second,), ())
                    &&& *second == before
                    &&& *final(self) == ChainedGuard::<A, B>::Second(*final(second))
                },
            *old(self) matches ChainedGuard::Both { second: second_before, first: first_before }
                ==> exists|second: &mut B, first: &mut A|
                {
                    &&& #[trigger] call_ensures(<B as CallGuard>::failed, (second,), ())
                    &&& #[trigger] call_ensures(<A as CallGuard>::failed, (first,), ())
                    &&& *second == second_before
                    &&& *first == first_before
                    &&& *final(self) == (ChainedGuard::<A, B>::Both {
                        second: *final(second),
                        first: *final(first),
                    })
                },
    {
        match self {
            ChainedGuard::First(first) => first.failed(),
            ChainedGuard::Second(second) => second.failed(),
            ChainedGuard::Both { second, first } => {
                second.failed();
                first.failed();
            },
        }
    }

    fn response_failed(&mut self, err: &oneshot::RecvError)
        ensures
            *old(self) matches ChainedGuard::First(before) ==> exists|first: &mut A|
                {
                    &&& #[trigger] call_ensures(<A as CallGuard>::response_failed, (first, err), ())
                    &&& *first == before
                    &&& *final(self) == ChainedGuard::<A, B>::First(*final(first))
                },
            *old(self) matches ChainedGuard::Second(before) ==> exists|second: &mut B|
                {
                    &&& #[trigger] call_ensures(<B as CallGuard>::response_failed, (second, err), ())
                    &&& *second == before
                    &&& *final(self) == ChainedGuard::<A, B>::Second(*final(second))
                },
            *old(self) matches ChainedGuard::Both { second: second_before, first: first_before }
                ==> exists|second: &mut B, first: &mut A|
                {
                    &&& #[trigger] call_ensures(<B as CallGuard>::response_failed, (second, err), ())
                    &&& #[trigger] call_ensures(<A as CallGuard>::response_failed, (first, err), ())
                    &&& *second == second_before
                    &&& *first == first_before
                    &&& *final(self) == (ChainedGuard::<A, B>::Both {
                        second: *final(second),
                        first: *final(first),
                    })
                },
    {
        match self {
            ChainedGuard::First(first) => first.response_failed(err),
            ChainedGuard::Second(second) => second.response_failed(err),
            ChainedGuard::Both { second, first } => {
                second.response_failed(err);
                first.response_failed(err);
            },
        }
    }
}

impl<A: DispatchGuard, B: DispatchGuard> DispatchGuard for ChainedGuard<A, B> {
    fn failed(&mut self)
        ensures
            *old(self) matches ChainedGuard::First(before) ==> exists|first: &mut A|
                {
                    &&& #[trigger] call_ensures(<A as DispatchGuard>::failed, (first,), ())
                    &&& *first == before
                    &&& *final(self) == ChainedGuard::<A, B>::First(*final(first))
                },
            *old(self) matches ChainedGuard::Second(before) ==> exists|second: &mut B|
                {
                    &&& #[trigger] call_ensures(<B as DispatchGuard>::failed, (second,), ())
                    &&& *second == before
                    &&& *final(self) == ChainedGuard::<A, B>::Second(*final(second))
                },
            *old(self) matches ChainedGuard::Both { second: second_before, first: first_before }
                ==> exists|second: &mut B, first: &mut A|
                {
                    &&& #[trigger] call_ensures(<B as DispatchGuard>::failed, (second,), ())
                    &&& #[trigger] call_ensures(<A as DispatchGuard>::failed, (first,), ())
                    &&& *second == second_before
                    &&& *first == first_before
                    &&& *final(self) == (ChainedGuard::<A, B>::Both {
                        second: *final(second),
                        first: *final(first),
                    })
                },
    {
        match self {
            ChainedGuard::First(first) => first.failed(),
            ChainedGuard::Second(second) => second.failed(),
            ChainedGuard::Both { second, first } => {
                second.failed();
                first.failed();
            },
        }
    }
}

/// The guards that are held when both monitors let a request pass.
pub open spec fn chained<A, B>(first: Option<A>, second: Option<B>) -> Option<ChainedGuard<A, B>> {
    match (first, second) {
        (None, None) => None,
        (Some(first), None) => Some(ChainedGuard::First(first)),
        (None, Some(second)) => Some(ChainedGuard::Second(second)),
        (Some(first), Some(second)) => Some(ChainedGuard::Both { second, first }),
    }
}

/// Returns the guards that are held when both monitors let a request pass.
fn chain<A, B>(first: Option<A>, second: Option<B>) -> (r: Option<ChainedGuard<A, B>>)
    ensures
        r == chained(first, second),
{
    match (first, second) {
        (None, None) => None,
        (Some(first), None) => Some(ChainedGuard::First(first)),
        (None, Some(second)) => Some(ChainedGuard::Second(second)),
        (Some(first), Some(second)) => Some(ChainedGuard::Both { second, first }),
    }
}

impl<G> CallDecision<G> {
    /// The guard that is held, if any.
    pub open spec fn guard(self) -> Option<G> {
        match self {
            CallDecision::Guard(guard) => Some(guard),
            _ => None,
        }
    }

    /// The decision to let a request pass with a guard, if there is one.
    pub open spec fn passing(guard: Option<G>) -> CallDecision<G> {
        match guard {
            Some(guard) => CallDecision::Guard(guard),
            None => CallDecision::Pass,
        }
    }
}

impl<G, E> DispatchDecision<G, E> {
    /// The guard that is held, if any.
    pub open spec fn guard(self) -> Option<G> {
        match self {
            DispatchDecision::Guard(guard) => Some(guard),
            _ => None,
        }
    }

    /// The decision to let a request pass with a guard, if there is one.
    pub open spec fn passing(guard: Option<G>) -> DispatchDecision<G, E> {
        match guard {
            Some(guard) => DispatchDecision::Guard(guard),
            None => DispatchDecision::Pass,
        }
    }
}

/// The decision of two client monitors, the second of which is asked only if the first lets
/// the request pass.
pub open spec fn chained_call<A, B>(first: CallDecision<A>, second: CallDecision<B>) -> CallDecision<
    ChainedGuard<A, B>,
> {
    if first is Drop || second is Drop {
        CallDecision::Drop
    } else {
        CallDecision::passing(chained(first.guard(), second.guard()))
    }
}

/// The decision of two server monitors, the second of which is asked only if the first lets
/// the request pass.
pub open spec fn chained_dispatch<A, B, E>(
    first: DispatchDecision<A, E>,
    second: DispatchDecision<B, E>,
) -> DispatchDecision<ChainedGuard<A, B>, E> {
    match (first, second) {
        (DispatchDecision::Drop, _) => DispatchDecision::Drop,
        (DispatchDecision::Error(err), _) => DispatchDecision::Error(err),
        (_, DispatchDecision::Drop) => DispatchDecision::Drop,
        (_, DispatchDecision::Error(err)) => DispatchDecision::Error(err),
        _ => DispatchDecision::passing(chained(first.guard(), second.guard())),
    }
}

/// The decision of two monitors of a request receiver.
pub open spec fn chained_recv(first: RecvDecision, second: RecvDecision) -> RecvDecision {
    if first == RecvDecision::Drop {
        RecvDecision::Drop
    } else {
        second
    }
}

/// Combines two monitors into one, which asks the first one and then the second one.
pub struct ChainedMonitor<A, B>(pub A, pub B);

impl<A, B> ChainedMonitor<A, B> {
    /// Combines the decisions of two client monitors.
    ///
    /// `None` means that the second monitor must be asked.
    pub fn pre_call<G, H>(first: CallDecision<G>, second: Option<CallDecision<H>>) -> (r: Option<
        CallDecision<ChainedGuard<G, H>>,
    >)
        ensures
            r == (match second {
                Some(second) => Some(chained_call(first, second)),
                None => if first is Drop {
                    Some(CallDecision::Drop)
                } else {
                    None
                },
            }),
            first is Drop ==> r == Some(CallDecision::<ChainedGuard<G, H>>::Drop),
    {
        let guard_0 = match first {
            CallDecision::Pass => None,
            CallDecision::Guard(guard) => Some(guard),
            CallDecision::Drop => {
                return Some(CallDecision::Drop);
            },
        };
        let guard_1 = match second {
            None => {
                return None;
            },
            Some(CallDecision::Pass) => None,
            Some(CallDecision::Guard(guard)) => Some(guard),
            Some(CallDecision::Drop) => {
                return Some(CallDecision::Drop);
            },
        };
        match chain(guard_0, guard_1) {
            Some(guard) => Some(CallDecision::Guard(guard)),
            None => Some(CallDecision::Pass),
        }
    }

    /// Combines the decisions of two monitors of a request receiver.
    ///
    /// `None` means that the second monitor must be asked.
    pub fn pre_recv(first: RecvDecision, second: Option<RecvDecision>) -> (r: Option<RecvDecision>)
        ensures
            r == (match second {
                Some(second) => Some(chained_recv(first, second)),
                None => if first == RecvDecision::Drop {
                    Some(RecvDecision::Drop)
                } else {
                    None
                },
            }),
    {
        match first {
            RecvDecision::Pass => second,
            RecvDecision::Drop => Some(RecvDecision::Drop),
        }
    }

    /// Combines the decisions of two server monitors.
    ///
    /// `None` means that the second monitor must be asked.
    pub fn pre_dispatch<G, H, E>(
        first: DispatchDecision<G, E>,
        second: Option<DispatchDecision<H, E>>,
    ) -> (r: Option<DispatchDecision<ChainedGuard<G, H>, E>>)
        ensures
            r == (match second {
                Some(second) => Some(chained_dispatch(first, second)),
                None => match first {
                    DispatchDecision::Drop => Some(
                        DispatchDecision::<ChainedGuard<G, H>, E>::Drop,
                    ),
                    DispatchDecision::Error(err) => Some(DispatchDecision::Error(err)),
                    _ => None,
                },
            }),
    {
        let guard_0 = match first {
            DispatchDecision::Pass => None,
            DispatchDecision::Guard(guard) => Some(guard),
            DispatchDecision::Drop => {
                return Some(DispatchDecision::Drop);
            },
            DispatchDecision::Error(err) => {
                return Some(DispatchDecision::Error(err));
            },
        };
        let guard_1 = match second {
            None => {
                return None;
            },
            Some(DispatchDecision::Pass) => None,
            Some(DispatchDecision::Guard(guard)) => Some(guard),
            Some(DispatchDecision::Drop) => {
                return Some(DispatchDecision::Drop);
            },
            Some(DispatchDecision::Error(err)) => {
                return Some(DispatchDecision::Error(err));
            },
        };
        match chain(guard_0, guard_1) {
            Some(guard) => Some(DispatchDecision::Guard(guard)),
            None => Some(DispatchDecision::Pass),
        }
    }
}

/// Whether what was received ends the work of a server or a receiver.
///
/// It cannot be dropped by a monitor.
pub open spec fn is_end<R>(req: Result<Option<R>, mpsc::RecvError>) -> bool {
    match req {
        Ok(None) => true,
        Err(err) => err.spec_is_disconnected(),
        Ok(Some(_)) => false,
    }
}

/// Returns whether what was received ends the work of a server or a receiver.
fn ends<R>(req: &Result<Option<R>, mpsc::RecvError>) -> (r: bool)
    ensures
        r == is_end(*req),
{
    match req {
        Ok(None) => true,
        Err(err) => err.is_disconnected(),
        Ok(Some(_)) => false,
    }
}

/// How a server goes on with what it received.
pub enum Dispatch<G, E> {
    /// Process it, holding the guard if there is one.
    Process(Option<G>),
    /// Ignore it and receive the next request.
    Skip,
    /// Stop serving with this error of the monitor.
    Stop(E),
}

/// Applies the decision of a server monitor to what was received.
pub fn server_monitor_pre_dispatch<G, E, R>(
    decision: DispatchDecision<G, E>,
    req: &Result<Option<R>, mpsc::RecvError>,
) -> (r: Dispatch<G, E>)
    ensures
        r == (match decision {
            DispatchDecision::Pass => Dispatch::<G, E>::Process(None),
            DispatchDecision::Guard(guard) => Dispatch::Process(Some(guard)),
            DispatchDecision::Drop => if is_end(*req) {
                Dispatch::Process(None)
            } else {
                Dispatch::Skip
            },
            DispatchDecision::Error(err) => Dispatch::Stop(err),
        }),
{
    match decision {
        DispatchDecision::Pass => Dispatch::Process(None),
        DispatchDecision::Guard(guard) => Dispatch::Process(Some(guard)),
        DispatchDecision::Drop => {
            if ends(req) {
                Dispatch::Process(None)
            } else {
                Dispatch::Skip
            }
        },
        DispatchDecision::Error(err) => Dispatch::Stop(err),
    }
}

/// Returns whether what was received is handed on, given the decision of a monitor.
pub fn req_receiver_monitor_pre_recv<R>(
    decision: RecvDecision,
    req: &Result<Option<R>, mpsc::RecvError>,
) -> (r: bool)
    ensures
        r == (decision == RecvDecision::Pass || is_end(*req)),
{
    match decision {
        RecvDecision::Pass => true,
        RecvDecision::Drop => ends(req),
    }
}

/// A monitor that lets every request pass.
#[derive(Clone, Copy, Debug, PartialEq, Eq, Structural)]
pub struct PassMonitor;

impl PassMonitor {
    /// Decides on a request of a client.
    pub fn pre_call(&self) -> (r: CallDecision<PassGuard>)
        ensures
            r is Pass,
    {
        CallDecision::Pass
    }

    /// Decides on a request of a server.
    pub fn pre_dispatch<E>(&self) -> (r: DispatchDecision<PassGuard, E>)
        ensures
            r is Pass,
    {
        DispatchDecision::Pass
    }

    /// Decides on a request of a receiver.
    pub fn pre_recv(&self) -> (r: RecvDecision)
        ensures
            r == RecvDecision::Pass,
    {
        RecvDecision::Pass
    }
}

/// Returns the decision of a server monitor that a decision of a receiver's monitor means.
pub fn recv_as_dispatch<G, E>(decision: RecvDecision) -> (r: DispatchDecision<G, E>)
    ensures
        r == (match decision {
            RecvDecision::Pass => DispatchDecision::<G, E>::Pass,
            RecvDecision::Drop => DispatchDecision::Drop,
        }),
{
    match decision {
        RecvDecision::Pass => DispatchDecision::Pass,
        RecvDecision::Drop => DispatchDecision::Drop,
    }
}

/// A guard that does nothing.
#[derive(Clone, Copy, Debug, PartialEq, Eq, Structural)]
pub struct PassGuard;

impl CallGuard for PassGuard {

}

impl DispatchGuard for PassGuard {

}

/// The order in which guards are told of a failure and released.
pub open spec fn release_order<G>(guard: ChainedGuard<Seq<G>, Seq<G>>) -> Seq<G> {
    match guard {
        ChainedGuard::First(first) => first,
        ChainedGuard::Second(second) => second,
        ChainedGuard::Both { second, first } => second + first,
    }
}

/// The guards that are held, in the order in which they are released.
pub open spec fn held<G>(first: Option<Seq<G>>, second: Option<Seq<G>>) -> Option<Seq<G>> {
    match chained(first, second) {
        Some(guard) => Some(release_order(guard)),
        None => None,
    }
}

/// Monitors can be chained in any grouping: the guards that are held, and the order in which
/// they are released, are the same.
pub proof fn law_chaining_is_associative<G>(
    first: Option<Seq<G>>,
    second: Option<Seq<G>>,
    third: Option<Seq<G>>,
)
    ensures
        held(held(first, second), third) == held(first, held(second, third)),
{
    if let (Some(a), Some(b), Some(c)) = (first, second, third) {
        assert(c + (b + a) =~= (c + b) + a);
    }
}

/// A request is dropped by chained monitors if and only if one of them drops it.
pub proof fn law_chained_drop<A, B>(first: CallDecision<A>, second: CallDecision<B>)
    ensures
        chained_call(first, second) is Drop <==> first is Drop || second is Drop,
        chained_call(first, second) is Pass <==> first is Pass && second is Pass,
{
}

/// A request passes a chain of client monitors exactly if it passes each of them, and every
/// guard that one of them gave is then held. The second monitor is asked exactly if the first
/// one did not drop the request.
pub proof fn law_chained_client_monitors<A, B, G, H>(
    first: CallDecision<G>,
    second: CallDecision<H>,
    asked: Option<CallDecision<ChainedGuard<G, H>>>,
    r: Option<CallDecision<ChainedGuard<G, H>>>,
)
    requires
        call_ensures(
            ChainedMonitor::<A, B>::pre_call::<G, H>,
            (first, None::<CallDecision<H>>),
            asked,
        ),
        call_ensures(ChainedMonitor::<A, B>::pre_call::<G, H>, (first, Some(second)), r),
    ensures
        asked is None <==> !(first is Drop),
        asked is Some ==> asked == r,
        r matches Some(decision) && {
            &&& decision is Drop <==> first is Drop || second is Drop
            &&& decision is Pass <==> first is Pass && second is Pass
            &&& decision matches CallDecision::Guard(ChainedGuard::First(guard)) ==> first
                == CallDecision::Guard(guard) && second is Pass
            &&& decision matches CallDecision::Guard(ChainedGuard::Second(guard)) ==> second
                == CallDecision::Guard(guard) && first is Pass
            &&& decision matches CallDecision::Guard(
                ChainedGuard::Both { second: inner, first: outer },
            ) ==> first == CallDecision::Guard(outer) && second == CallDecision::Guard(inner)
        },
{
}

/// What was received passes a chain of monitors of a receiver exactly if it passes each of
/// them, and the second one is asked exactly if it passed the first one.
pub proof fn law_chained_receiver_monitors<A, B>(
    first: RecvDecision,
    second: RecvDecision,
    asked: Option<RecvDecision>,
    r: Option<RecvDecision>,
)
    requires
        call_ensures(ChainedMonitor::<A, B>::pre_recv, (first, None::<RecvDecision>), asked),
        call_ensures(ChainedMonitor::<A, B>::pre_recv, (first, Some(second)), r),
    ensures
        asked is None <==> first is Pass,
        asked is Some ==> asked == r,
        r matches Some(decision) && (decision is Pass <==> first is Pass && second is Pass),
{
}

/// A request passes a chain of server monitors exactly if it passes each of them, and every
/// guard that one of them gave is then held. Otherwise the first monitor that did not let it
/// pass decides what becomes of it, and no monitor after that one is asked.
pub proof fn law_chained_server_monitors<A, B, G, H, E>(
    first: DispatchDecision<G, E>,
    second: DispatchDecision<H, E>,
    asked: Option<DispatchDecision<ChainedGuard<G, H>, E>>,
    r: Option<DispatchDecision<ChainedGuard<G, H>, E>>,
)
    requires
        call_ensures(
            ChainedMonitor::<A, B>::pre_dispatch::<G, H, E>,
            (first, None::<DispatchDecision<H, E>>),
            asked,
        ),
        call_ensures(ChainedMonitor::<A, B>::pre_dispatch::<G, H, E>, (first, Some(second)), r),
    ensures
        asked is None <==> first is Pass || first is Guard,
        asked is Some ==> asked == r,
        r matches Some(decision) && {
            &&& first is Drop ==> decision is Drop
            &&& first matches DispatchDecision::Error(err) ==> decision
                == DispatchDecision::<ChainedGuard<G, H>, E>::Error(err)
            &&& asked is None && second is Drop ==> decision is Drop
            &&& asked is None ==> (second matches DispatchDecision::Error(err) ==> decision
                == DispatchDecision::<ChainedGuard<G, H>, E>::Error(err))
            &&& decision is Pass <==> first is Pass && second is Pass
            &&& decision is Guard <==> asked is None && (second is Pass || second is Guard) && (
            first is Guard || second is Guard)
            &&& decision matches DispatchDecision::Guard(ChainedGuard::First(guard)) ==> first
                == DispatchDecision::<G, E>::Guard(guard) && second is Pass
            &&& decision matches DispatchDecision::Guard(ChainedGuard::Second(guard)) ==> second
                == DispatchDecision::<H, E>::Guard(guard) && first is Pass
            &&& decision matches DispatchDecision::Guard(
                ChainedGuard::Both { second: inner, first: outer },
            ) ==> first == DispatchDecision::<G, E>::Guard(outer) && second
                == DispatchDecision::<H, E>::Guard(inner)
        },
{
}

/// A monitor of a server can have a request ignored, or stop the server. It cannot have the end
/// of the requests ignored, for then the server would wait for ever.
pub proof fn law_applied_server_decision<G, E, R>(
    decision: DispatchDecision<G, E>,
    req: Result<Option<R>, mpsc::RecvError>,
    r: Dispatch<G, E>,
)
    requires
        call_ensures(server_monitor_pre_dispatch::<G, E, R>, (decision, &req), r),
    ensures
        decision matches DispatchDecision::Error(err) ==> r == Dispatch::<G, E>::Stop(err),
        r is Stop ==> decision is Error,
        r is Skip ==> decision is Drop,
        decision is Drop && (req matches Ok(Some(_))) ==> r is Skip,
        req matches Ok(None) ==> !(r is Skip),
        req matches Err(mpsc::RecvError::Connect(_)) ==> !(r is Skip),
        req matches Err(mpsc::RecvError::Listen(_)) ==> !(r is Skip),
        r matches Dispatch::Process(Some(guard)) ==> decision == DispatchDecision::<G, E>::Guard(
            guard,
        ),
        decision matches DispatchDecision::Guard(guard) ==> r == Dispatch::<G, E>::Process(
            Some(guard),
        ),
        decision is Pass ==> r == Dispatch::<G, E>::Process(None),
        decision is Drop && !(r is Skip) ==> r == Dispatch::<G, E>::Process(None),
{
}

/// Whether the failure of receiving a request can be ignored is what the failure says: one
/// after which nothing more can be received cannot.
pub proof fn law_end_of_requests_is_not_ignored<G, E, R>(
    err: mpsc::RecvError,
    disconnected: bool,
    r: Dispatch<G, E>,
    passed: bool,
)
    requires
        call_ensures(mpsc::RecvError::is_disconnected, (&err,), disconnected),
        call_ensures(
            server_monitor_pre_dispatch::<G, E, R>,
            (DispatchDecision::Drop, &Err::<Option<R>, mpsc::RecvError>(err)),
            r,
        ),
        call_ensures(
            req_receiver_monitor_pre_recv::<R>,
            (RecvDecision::Drop, &Err::<Option<R>, mpsc::RecvError>(err)),
            passed,
        ),
    ensures
        r is Skip <==> !disconnected,
        passed <==> disconnected,
{
}

/// A monitor of a receiver can have a request ignored and not the end of the requests.
pub proof fn law_applied_receiver_decision<R>(
    decision: RecvDecision,
    req: Result<Option<R>, mpsc::RecvError>,
    r: bool,
)
    requires
        call_ensures(req_receiver_monitor_pre_recv::<R>, (decision, &req), r),
    ensures
        decision is Pass ==> r,
        decision is Drop && (req matches Ok(Some(_))) ==> !r,
        req matches Ok(None) ==> r,
{
}

/// The monitor that lets everything pass changes no decision of another one.
pub proof fn law_pass_monitor<A, B, G, E>(
    monitor: PassMonitor,
    decision: DispatchDecision<G, E>,
    call: CallDecision<PassGuard>,
    recv: RecvDecision,
    pass: DispatchDecision<PassGuard, E>,
    r: Option<DispatchDecision<ChainedGuard<PassGuard, G>, E>>,
)
    requires
        call_ensures(PassMonitor::pre_call, (&monitor,), call),
        call_ensures(PassMonitor::pre_recv, (&monitor,), recv),
        call_ensures(PassMonitor::pre_dispatch::<E>, (&monitor,), pass),
        call_ensures(
            ChainedMonitor::<A, B>::pre_dispatch::<PassGuard, G, E>,
            (pass, Some(decision)),
            r,
        ),
    ensures
        call is Pass && recv is Pass && pass is Pass,
        decision is Pass ==> r matches Some(DispatchDecision::Pass),
        decision is Drop ==> r matches Some(DispatchDecision::Drop),
        decision matches DispatchDecision::Error(err) ==> r == Some(
            DispatchDecision::<ChainedGuard<PassGuard, G>, E>::Error(err),
        ),
        decision matches DispatchDecision::Guard(guard) ==> r == Some(
            DispatchDecision::<ChainedGuard<PassGuard, G>, E>::Guard(ChainedGuard::Second(guard)),
        ),
{
}

/// A monitor of a receiver has the same request ignored when it monitors a server.
pub proof fn law_receiver_monitor_at_a_server<G, E, R>(
    decision: RecvDecision,
    req: Result<Option<R>, mpsc::RecvError>,
    passed: bool,
    as_dispatch: DispatchDecision<G, E>,
    r: Dispatch<G, E>,
)
    requires
        call_ensures(req_receiver_monitor_pre_recv::<R>, (decision, &req), passed),
        call_ensures(recv_as_dispatch::<G, E>, (decision,), as_dispatch),
        call_ensures(server_monitor_pre_dispatch::<G, E, R>, (as_dispatch, &req), r),
    ensures
        decision is Pass <==> as_dispatch is Pass,
        decision is Drop <==> as_dispatch is Drop,
        passed ==> r == Dispatch::<G, E>::Process(None),
        !passed ==> r is Skip,
{
}

/// A guard that does nothing stays as it is whatever it is told.
pub proof fn law_pass_guard(
    before: PassGuard,
    err: oneshot::RecvError,
    call: PassGuard,
    response: PassGuard,
    dispatch: PassGuard,
)
    requires
        exists|state: &mut PassGuard| #[trigger]
            call_ensures(<PassGuard as CallGuard>::failed, (state,), ()) && *state == before
                && *final(state) == call,
        exists|state: &mut PassGuard| #[trigger]
            call_ensures(<PassGuard as CallGuard>::response_failed, (state, &err), ()) && *state == before
                && *final(state) == response,
        exists|state: &mut PassGuard| #[trigger]
            call_ensures(<PassGuard as DispatchGuard>::failed, (state,), ()) && *state == before
                && *final(state) == dispatch,
    ensures
        call == before && response == before && dispatch == before,
{
}

} // verus!
