//! A monitor that logs every request and its outcome.

use vstd::prelude::*;
use crate::rch::oneshot;
use crate::rtc::monitor::{
    CallDecision, CallGuard, ChainedGuard, DispatchDecision, DispatchGuard, RecvDecision,
};
use crate::text::concat;
use crate::tracing::Level;

verus! {

/// Returns the level at which requests are logged unless it is overridden.
pub fn default_level() -> (r: Option<Level>)
    ensures
        r == Some(Level::Debug),
{
    Some(Level::Debug)
}

/// Returns the level at which failed requests are logged unless it is overridden.
pub fn default_failure_level() -> (r: Option<Level>)
    ensures
        r == Some(Level::Warn),
{
    Some(Level::Warn)
}

/// The index of the entry of a method, or the number of entries if there is none.
pub open spec fn entry_of(methods: Seq<(String, Option<Level>)>, method: Seq<char>) -> nat
    decreases methods.len(),
{
    if methods.len() == 0 || methods[0].0@ == method {
        0
    } else {
        1 + entry_of(methods.drop_first(), method)
    }
}

/// An entry that is found belongs to the method, and none before it does.
proof fn lemma_entry(methods: Seq<(String, Option<Level>)>, method: Seq<char>)
    ensures
        entry_of(methods, method) <= methods.len(),
        entry_of(methods, method) < methods.len() ==> methods[entry_of(methods, method) as int].0@
            == method,
        forall|i: int| 0 <= i < entry_of(methods, method) ==> #[trigger] methods[i].0@ != method,
    decreases methods.len(),
{
    if methods.len() > 0 && methods[0].0@ != method {
        let rest = methods.drop_first();
        lemma_entry(rest, method);
        assert forall|i: int| 0 <= i < entry_of(methods, method) implies #[trigger] methods[i].0@
            != method by {
            if i > 0 {
                assert(rest[i - 1] == methods[i]);
            }
        }
    }
}

/// The first entry of a method is the one that is found.
proof fn lemma_entry_is(methods: Seq<(String, Option<Level>)>, method: Seq<char>, k: nat)
    requires
        k <= methods.len(),
        k < methods.len() ==> methods[k as int].0@ == method,
        forall|i: int| 0 <= i < k ==> #[trigger] methods[i].0@ != method,
    ensures
        entry_of(methods, method) == k,
{
    lemma_entry(methods, method);
    let found = entry_of(methods, method);
    if found < k {
        assert(methods[found as int].0@ != method);
    }
    if k < found {
        assert(methods[k as int].0@ != method);
    }
}

/// The name under which a request is logged.
pub open spec fn logged_name(trait_name: Seq<char>, method: Option<Seq<char>>) -> Seq<char> {
    match method {
        Some(method) => trait_name + "::"@ + method,
        None => trait_name,
    }
}

/// The view of the name of a method.
pub open spec fn name_view(method: Option<&str>) -> Option<Seq<char>> {
    match method {
        Some(method) => Some(method@),
        None => None,
    }
}

/// Something that is logged.
pub struct LogEvent {
    /// Level at which it is logged; without one it is not.
    pub level: Option<Level>,
    /// Name of the request.
    pub target: String,
    /// What happened.
    pub message: &'static str,
}

impl LogEvent {
    /// Whether this says of the named request what is given.
    pub open spec fn says(
        self,
        level: Option<Level>,
        target: Seq<char>,
        message: Seq<char>,
    ) -> bool {
        &&& self.level == level
        &&& self.target@ == target
        &&& self.message@ == message
    }
}

/// A monitor that logs every request and its outcome.
///
/// The level is chosen per method. Requests that fail are logged at a level of their own.
pub struct LogMonitor {
    /// Level at which requests are logged.
    pub level: Option<Level>,
    /// Level at which failed requests are logged.
    pub failure_level: Option<Level>,
    /// Levels of particular methods.
    pub methods: Vec<(String, Option<Level>)>,
}

impl LogMonitor {
    /// The level at which requests to a method are logged.
    pub open spec fn spec_level_of(self, method: Option<Seq<char>>) -> Option<Level> {
        match method {
            Some(method) => {
                let k = entry_of(self.methods@, method);
                if k < self.methods@.len() {
                    self.methods@[k as int].1
                } else {
                    self.level
                }
            },
            None => self.level,
        }
    }

    /// Creates a monitor that logs every request at the given level.
    pub fn new(level: Option<Level>) -> (r: Self)
        ensures
            r.level == level,
            r.failure_level == Some(Level::Warn),
            forall|method: Option<Seq<char>>| #[trigger] r.spec_level_of(method) == level,
    {
        LogMonitor { level, failure_level: default_failure_level(), methods: Vec::new() }
    }

    /// Sets the level at which requests to the given method are logged.
    pub fn method(self, method: &str, level: Option<Level>) -> (r: Self)
        ensures
            r.level == self.level,
            r.failure_level == self.failure_level,
            r.spec_level_of(Some(method@)) == level,
            forall|other: Seq<char>|
                other != method@ ==> #[trigger] r.spec_level_of(Some(other))
                    == self.spec_level_of(Some(other)),
    {
        let mut methods: Vec<(String, Option<Level>)> = self.methods;
        let ghost before = methods@;
        let name = String::from_str(method);
        let found: usize = find(&methods, &name);
        if found < methods.len() {
            methods.set(found, (name, level));
        } else {
            methods.push((name, level));
        }
        let r = LogMonitor { level: self.level, failure_level: self.failure_level, methods };
        proof {
            lemma_entry(before, method@);
            lemma_entry_is(r.methods@, method@, found as nat);
            assert forall|other: Seq<char>| other != method@ implies #[trigger] r.spec_level_of(
                Some(other),
            ) == self.spec_level_of(Some(other)) by {
                let k = entry_of(before, other);
                lemma_entry(before, other);
                assert forall|i: int| 0 <= i < k implies #[trigger] r.methods@[i].0@ != other by {
                    if i != found {
                        assert(r.methods@[i] == before[i]);
                    }
                }
                if k < before.len() {
                    assert(k != found);
                    lemma_entry_is(r.methods@, other, k);
                } else {
                    assert forall|i: int| 0 <= i < r.methods@.len() implies #[trigger] r.methods@[
                        i
                    ].0@ != other by {
                        if i != found {
                            assert(r.methods@[i] == before[i]);
                        }
                    }
                    lemma_entry_is(r.methods@, other, r.methods@.len());
                }
            }
        }
        r
    }

    /// Sets the level at which failed requests are logged.
    pub fn failure_level(self, level: Option<Level>) -> (r: Self)
        ensures
            r == (LogMonitor { failure_level: level, ..self }),
    {
        LogMonitor { failure_level: level, ..self }
    }

    /// Returns the level at which requests to a method are logged.
    pub fn level_of(&self, method: Option<&str>) -> (r: Option<Level>)
        ensures
            r == self.spec_level_of(name_view(method)),
    {
        match method {
            Some(method) => {
                let name = String::from_str(method);
                let found: usize = find(&self.methods, &name);
                if found < self.methods.len() {
                    self.methods[found].1
                } else {
                    self.level
                }
            },
            None => self.level,
        }
    }

    /// Returns the name under which a request is logged, and its level.
    ///
    /// Without a method something other than a request was received.
    pub fn target_of(&self, trait_name: &str, method: Option<&str>) -> (r: (
        String,
        Option<Level>,
    ))
        ensures
            r.0@ == logged_name(trait_name@, name_view(method)),
            r.1 == self.spec_level_of(name_view(method)),
    {
        let target = match method {
            Some(method) => {
                let mut out = concat(trait_name, "::");
                out.append(method);
                out
            },
            None => String::from_str(trait_name),
        };
        (target, self.level_of(method))
    }

    /// The guard that logs the outcome of the named request.
    pub open spec fn guards(self, guard: LogGuard, target: Seq<char>, level: Option<Level>) -> bool {
        &&& guard.target@ == target
        &&& guard.level == level
        &&& guard.failure_level == self.failure_level
        &&& !guard.failed
    }

    /// Returns what is logged when a request starts, and the guard that logs its outcome.
    pub fn started(&self, target: String, level: Option<Level>, what: &'static str) -> (r: (
        LogEvent,
        LogGuard,
    ))
        ensures
            r.0.says(level, target@, what@),
            self.guards(r.1, target@, level),
    {
        let event = LogEvent { level, target: target.clone(), message: what };
        (event, LogGuard { target, level, failure_level: self.failure_level, failed: false })
    }

    /// Decides on a request that a client is about to make, and returns what is logged.
    pub fn pre_call(&self, trait_name: &str, method: &str) -> (r: (
        LogEvent,
        CallDecision<LogGuard>,
    ))
        ensures
            ({
                let level = self.spec_level_of(Some(method@));
                let target = logged_name(trait_name@, Some(method@));
                &&& r.0.says(level, target, "calling"@)
                &&& r.1 matches CallDecision::Guard(guard) && self.guards(guard, target, level)
            }),
    {
        let (target, level) = self.target_of(trait_name, Some(method));
        let (event, guard) = self.started(target, level, "calling");
        (event, CallDecision::Guard(guard))
    }

    /// Decides on what a server received, and returns what is logged.
    pub fn pre_dispatch<E>(&self, trait_name: &str, method: Option<&str>) -> (r: (
        LogEvent,
        DispatchDecision<LogGuard, E>,
    ))
        ensures
            ({
                let level = self.spec_level_of(name_view(method));
                let target = logged_name(trait_name@, name_view(method));
                &&& r.0.says(level, target, "dispatching"@)
                &&& r.1 matches DispatchDecision::Guard(guard) && self.guards(
                    guard,
                    target,
                    level,
                )
            }),
    {
        let (target, level) = self.target_of(trait_name, method);
        let (event, guard) = self.started(target, level, "dispatching");
        (event, DispatchDecision::Guard(guard))
    }

    /// Decides on what was received without a server, and returns what is logged.
    pub fn pre_recv(&self, trait_name: &str, method: Option<&str>) -> (r: (LogEvent, RecvDecision))
        ensures
            r.0.says(
                self.spec_level_of(name_view(method)),
                logged_name(trait_name@, name_view(method)),
                "received"@,
            ),
            r.1 == RecvDecision::Pass,
    {
        let (target, level) = self.target_of(trait_name, method);
        (LogEvent { level, target, message: "received" }, RecvDecision::Pass)
    }
}

impl Default for LogMonitor {
    fn default() -> (r: Self)
        ensures
            r.level == Some(Level::Debug),
            r.failure_level == Some(Level::Warn),
            forall|method: Option<Seq<char>>| #[trigger] r.spec_level_of(method) == Some(
                Level::Debug,
            ),
    {
        LogMonitor::new(default_level())
    }
}

/// Returns the index of the entry of a method, or the number of entries if there is none.
fn find(methods: &Vec<(String, Option<Level>)>, method: &String) -> (r: usize)
    ensures
        r == entry_of(methods@, method@),
{
    let mut i: usize = 0;
    while i < methods.len()
        invariant
            i <= methods@.len(),
            forall|j: int| 0 <= j < i ==> #[trigger] methods@[j].0@ != method@,
        decreases methods@.len() - i,
    {
        if methods[i].0.eq(method) {
            proof {
                lemma_entry_is(methods@, method@, i as nat);
            }
            return i;
        }
        i = i + 1;
    }
    proof {
        lemma_entry_is(methods@, method@, i as nat);
    }
    i
}

/// Logs the outcome of a request when it has been processed.
pub struct LogGuard {
    /// Name of the request.
    pub target: String,
    /// Level at which success is logged.
    pub level: Option<Level>,
    /// Level at which failure is logged.
    pub failure_level: Option<Level>,
    /// Whether the request failed.
    pub failed: bool,
}

impl LogGuard {
    /// Returns what is logged once the request has been processed.
    pub fn outcome(self) -> (r: LogEvent)
        ensures
            self.failed ==> r.says(self.failure_level, self.target@, "failed"@),
            !self.failed ==> r.says(self.level, self.target@, "done"@),
    {
        if self.failed {
            LogEvent { level: self.failure_level, target: self.target, message: "failed" }
        } else {
            LogEvent { level: self.level, target: self.target, message: "done" }
        }
    }

    /// Returns what is logged when receiving the response failed.
    pub fn response_failure(&self) -> (r: LogEvent)
        ensures
            r.says(self.failure_level, self.target@, "receiving the response failed"@),
    {
        LogEvent {
            level: self.failure_level,
            target: self.target.clone(),
            message: "receiving the response failed",
        }
    }
}

impl CallGuard for LogGuard {
    fn failed(&mut self)
        ensures
            *final(self) == (LogGuard { failed: true, ..*old(self) }),
    {
        self.failed = true;
    }

    fn response_failed(&mut self, err: &oneshot::RecvError)
        ensures
            *final(self) == (LogGuard { failed: true, ..*old(self) }),
    {
        self.failed = true;
    }
}

impl DispatchGuard for LogGuard {
    fn failed(&mut self)
        ensures
            *final(self) == (LogGuard { failed: true, ..*old(self) }),
    {
        self.failed = true;
    }
}

/// A method is logged at the level that was set for it last, and one for which none was set at
/// the level of the monitor. Setting the level of a method changes that of no other method.
pub proof fn law_levels_of_methods(
    level: Option<Level>,
    monitor: LogMonitor,
    method: &str,
    set: (Option<Level>, Option<Level>),
    once: LogMonitor,
    twice: LogMonitor,
    other: &str,
    r: (Option<Level>, Option<Level>, Option<Level>, Option<Level>),
)
    requires
        call_ensures(LogMonitor::new, (level,), monitor),
        call_ensures(LogMonitor::method, (monitor, method, set.0), once),
        call_ensures(LogMonitor::method, (once, method, set.1), twice),
        call_ensures(LogMonitor::level_of, (&once, Some(method)), r.0),
        call_ensures(LogMonitor::level_of, (&twice, Some(method)), r.1),
        call_ensures(LogMonitor::level_of, (&twice, Some(other)), r.2),
        call_ensures(LogMonitor::level_of, (&twice, None::<&str>), r.3),
    ensures
        r.0 == set.0,
        r.1 == set.1,
        other@ != method@ ==> r.2 == level,
        r.3 == level,
        monitor.level == level && monitor.failure_level == Some(Level::Warn),
{
}

/// Setting the level of a method, or that of failures, leaves the level of every other method
/// as it was in a monitor that was set up in any way.
pub proof fn law_other_levels_are_kept(
    monitor: LogMonitor,
    method: &str,
    level: Option<Level>,
    set: LogMonitor,
    failing: LogMonitor,
    other: &str,
    r: (Option<Level>, Option<Level>, Option<Level>),
)
    requires
        call_ensures(LogMonitor::method, (monitor, method, level), set),
        call_ensures(LogMonitor::failure_level, (monitor, level), failing),
        call_ensures(LogMonitor::level_of, (&monitor, Some(other)), r.0),
        call_ensures(LogMonitor::level_of, (&set, Some(other)), r.1),
        call_ensures(LogMonitor::level_of, (&failing, Some(other)), r.2),
    ensures
        other@ != method@ ==> r.0 == r.1,
        r.0 == r.2,
        set.failure_level == monitor.failure_level,
        failing.failure_level == level,
        failing.level == monitor.level && set.level == monitor.level,
{
}

/// Unless it is told otherwise, a monitor logs requests for debugging and failures as warnings.
pub proof fn law_default_levels(
    by_default: LogMonitor,
    level: Option<Level>,
    failure: Option<Level>,
    method: &str,
    r: Option<Level>,
)
    requires
        call_ensures(<LogMonitor as Default>::default, (), by_default),
        call_ensures(default_level, (), level),
        call_ensures(default_failure_level, (), failure),
        call_ensures(LogMonitor::level_of, (&by_default, Some(method)), r),
    ensures
        level == Some(Level::Debug) && r == level && by_default.level == level,
        failure == Some(Level::Warn) && by_default.failure_level == failure,
{
}

/// A logged call is let through. Its start is logged at the level of the method under the full
/// name of the method; its end is logged under the same name, at the same level if it succeeded
/// and at the level of failures if its guard was told that it failed.
pub proof fn law_logged_call(
    monitor: LogMonitor,
    trait_name: &str,
    method: &str,
    level: Option<Level>,
    r: (LogEvent, CallDecision<LogGuard>),
    failed: LogGuard,
    done: LogEvent,
    failure: LogEvent,
)
    requires
        call_ensures(LogMonitor::level_of, (&monitor, Some(method)), level),
        call_ensures(LogMonitor::pre_call, (&monitor, trait_name, method), r),
        r.1 matches CallDecision::Guard(guard) ==> {
            &&& call_ensures(LogGuard::outcome, (guard,), done)
            &&& exists|state: &mut LogGuard| #[trigger]
                call_ensures(<LogGuard as CallGuard>::failed, (state,), ()) && *state == guard
                    && *final(state) == failed
        },
        call_ensures(LogGuard::outcome, (failed,), failure),
    ensures
        r.1 is Guard,
        r.0.level == level && done.level == level,
        r.0.target@ == trait_name@ + "::"@ + method@,
        done.target@ == r.0.target@ && failure.target@ == r.0.target@,
        failure.level == monitor.failure_level,
        r.0.message@ == "calling"@ && done.message@ == "done"@ && failure.message@ == "failed"@,
{
}

/// What a server received is let through and logged as a call is; what is no request is logged
/// under the name of the trait alone.
pub proof fn law_logged_dispatch<E>(
    monitor: LogMonitor,
    trait_name: &str,
    method: Option<&str>,
    level: Option<Level>,
    r: (LogEvent, DispatchDecision<LogGuard, E>),
    received: (LogEvent, RecvDecision),
    failed: LogGuard,
    done: LogEvent,
    failure: LogEvent,
)
    requires
        call_ensures(LogMonitor::level_of, (&monitor, method), level),
        call_ensures(LogMonitor::pre_dispatch::<E>, (&monitor, trait_name, method), r),
        call_ensures(LogMonitor::pre_recv, (&monitor, trait_name, method), received),
        r.1 matches DispatchDecision::Guard(guard) ==> {
            &&& call_ensures(LogGuard::outcome, (guard,), done)
            &&& exists|state: &mut LogGuard| #[trigger]
                call_ensures(<LogGuard as DispatchGuard>::failed, (state,), ()) && *state == guard
                    && *final(state) == failed
        },
        call_ensures(LogGuard::outcome, (failed,), failure),
    ensures
        r.1 is Guard && received.1 is Pass,
        r.0.level == level && done.level == level && received.0.level == level,
        method is None ==> r.0.target@ == trait_name@,
        method matches Some(method) ==> r.0.target@ == trait_name@ + "::"@ + method@,
        done.target@ == r.0.target@ && failure.target@ == r.0.target@ && received.0.target@
            == r.0.target@,
        failure.level == monitor.failure_level,
        r.0.message@ == "dispatching"@ && received.0.message@ == "received"@,
{
}

/// The guard of a request logs a response that did not arrive as a failure of the request.
pub proof fn law_logged_response_failure(
    before: LogGuard,
    err: oneshot::RecvError,
    event: LogEvent,
    after: LogGuard,
    outcome: LogEvent,
)
    requires
        call_ensures(LogGuard::response_failure, (&before,), event),
        exists|state: &mut LogGuard| #[trigger]
            call_ensures(<LogGuard as CallGuard>::response_failed, (state, &err), ()) && *state == before
                && *final(state) == after,
        call_ensures(LogGuard::outcome, (after,), outcome),
    ensures
        event.level == before.failure_level && outcome.level == before.failure_level,
        event.target@ == before.target@ && outcome.target@ == before.target@,
        outcome.message@ == "failed"@,
        event.message@ == "receiving the response failed"@,
{
}

/// The guards of chained monitors are all told of a failure, and nothing else of them changes.
pub proof fn law_chained_guards_are_told(
    before: ChainedGuard<LogGuard, LogGuard>,
    err: oneshot::RecvError,
    call: ChainedGuard<LogGuard, LogGuard>,
    response: ChainedGuard<LogGuard, LogGuard>,
    dispatch: ChainedGuard<LogGuard, LogGuard>,
)
    requires
        exists|state: &mut ChainedGuard<LogGuard, LogGuard>| #[trigger]
            call_ensures(<ChainedGuard<LogGuard, LogGuard> as CallGuard>::failed, (state,), ()) && *state == before
                && *final(state) == call,
        exists|state: &mut ChainedGuard<LogGuard, LogGuard>| #[trigger]
            call_ensures(<ChainedGuard<LogGuard, LogGuard> as CallGuard>::response_failed, (state, &err), ()) && *state == before
                && *final(state) == response,
        exists|state: &mut ChainedGuard<LogGuard, LogGuard>| #[trigger]
            call_ensures(<ChainedGuard<LogGuard, LogGuard> as DispatchGuard>::failed, (state,), ()) && *state == before
                && *final(state) == dispatch,
    ensures
        call == response && call == dispatch,
        before matches ChainedGuard::First(guard) ==> call == ChainedGuard::<
            LogGuard,
            LogGuard,
        >::First(LogGuard { failed: true, ..guard }),
        before matches ChainedGuard::Second(guard) ==> call == ChainedGuard::<
            LogGuard,
            LogGuard,
        >::Second(LogGuard { failed: true, ..guard }),
        before matches ChainedGuard::Both { second, first } ==> call == (ChainedGuard::<
            LogGuard,
            LogGuard,
        >::Both {
            second: LogGuard { failed: true, ..second },
            first: LogGuard { failed: true, ..first },
        }),
{
}

/// A request is logged under the name of its trait and its method, at the level of the method;
/// its guard carries the same name and level and has not been told of a failure.
pub proof fn law_name_of_a_logged_request(
    monitor: LogMonitor,
    trait_name: &str,
    method: Option<&str>,
    level: Option<Level>,
    target: (String, Option<Level>),
    what: &'static str,
    r: (LogEvent, LogGuard),
)
    requires
        call_ensures(LogMonitor::level_of, (&monitor, method), level),
        call_ensures(LogMonitor::target_of, (&monitor, trait_name, method), target),
        call_ensures(LogMonitor::started, (&monitor, target.0, target.1, what), r),
    ensures
        target.1 == level,
        method is None ==> target.0@ == trait_name@,
        method matches Some(method) ==> target.0@ == trait_name@ + "::"@ + method@,
        r.0.level == level && r.1.level == level,
        r.0.target@ == target.0@ && r.1.target@ == target.0@,
        r.0.message@ == what@,
        r.1.failure_level == monitor.failure_level && !r.1.failed,
{
}

} // verus!
