//! Tracing of remote calls.
//!
//! Remote calls can create spans: one at the client for the duration of the
//! call and one at the server for processing it. Together with the call, the
//! client sends a [`TracingContext`] that identifies its span, so that the
//! server can link its own span to it. How the identifiers are obtained and how
//! spans are linked is the job of a [`TracingProvider`].
//!
//! Spans themselves belong to the tracing subscriber and are of any type here; what a
//! new one is to record is described by a [`CallSpan`].

pub mod level_repr;
pub mod otel;

pub use otel::{InvalidSpanContext, OpenTelemetry};

use vstd::prelude::*;
use core::marker::PhantomData;
use uuid::Uuid;
use crate::text::{hex, push_hex};

verus! {

/// The most detailed level that is let through.
#[derive(Clone, Copy, Debug, PartialEq, Eq, Structural)]
pub enum LevelFilter {
    /// Nothing.
    Off,
    /// Errors.
    Error,
    /// Warnings.
    Warn,
    /// Information.
    Info,
    /// Debugging information.
    Debug,
    /// Everything.
    Trace,
}

/// The level of a span or an event.
#[derive(Clone, Copy, Debug, PartialEq, Eq, Structural)]
pub enum Level {
    /// Error.
    Error,
    /// Warning.
    Warn,
    /// Information.
    Info,
    /// Debugging information.
    Debug,
    /// Detailed debugging information.
    Trace,
}

impl LevelFilter {
    /// The level that is let through, if any is.
    pub open spec fn level(self) -> Option<Level> {
        match self {
            LevelFilter::Off => None,
            LevelFilter::Error => Some(Level::Error),
            LevelFilter::Warn => Some(Level::Warn),
            LevelFilter::Info => Some(Level::Info),
            LevelFilter::Debug => Some(Level::Debug),
            LevelFilter::Trace => Some(Level::Trace),
        }
    }

    /// Returns the level that is let through, if any is.
    pub fn into_level(self) -> (r: Option<Level>)
        ensures
            r == self.level(),
    {
        match self {
            LevelFilter::Off => None,
            LevelFilter::Error => Some(Level::Error),
            LevelFilter::Warn => Some(Level::Warn),
            LevelFilter::Info => Some(Level::Info),
            LevelFilter::Debug => Some(Level::Debug),
            LevelFilter::Trace => Some(Level::Trace),
        }
    }

    /// Returns whether nothing is let through.
    pub fn is_off(&self) -> (r: bool)
        ensures
            r == (*self == LevelFilter::Off),
    {
        match self {
            LevelFilter::Off => true,
            _ => false,
        }
    }
}

/// Flag indicating that the trace is sampled.
pub const SAMPLED: u8 = 0x01;

/// Identifies the span of the caller of a remote call.
#[derive(Clone, Copy, PartialEq, Eq, Hash, Structural)]
pub struct TracingContext {
    /// Identifier of the distributed trace, or zero if there is none.
    pub trace_id: u128,
    /// Identifier of the span of the caller.
    pub span_id: u64,
    /// Trace flags.
    pub flags: u8,
}

impl TracingContext {
    /// Returns whether the trace is sampled.
    pub fn is_sampled(&self) -> (r: bool)
        ensures
            r == (self.flags % 2 == 1),
    {
        let flags: u8 = self.flags;
        assert((flags & 1 != 0) == (flags % 2 == 1)) by (bit_vector);
        flags & SAMPLED != 0
    }

    /// Returns whether the context belongs to a distributed trace.
    pub fn has_trace(&self) -> (r: bool)
        ensures
            r == (self.trace_id != 0),
    {
        self.trace_id != 0
    }

    /// Returns the tracing context of the current span.
    pub fn current<P: TracingProvider>(providers: &Providers<P>, current: &P::Span) -> (r: Option<
        Self,
    >)
        ensures
            context_of_span(providers.list@, current, r),
    {
        TracingContext::from_span(providers, current)
    }

    /// Returns the tracing context of a span, obtained from the active provider.
    pub fn from_span<P: TracingProvider>(providers: &Providers<P>, span: &P::Span) -> (r: Option<
        Self,
    >)
        ensures
            context_of_span(providers.list@, span, r),
    {
        match active_provider::<P>(providers) {
            Some(i) => providers.list[i].context_of(span),
            None => None,
        }
    }

    /// Makes the span identified by this context the parent of the given one.
    ///
    /// Returns whether the active provider has done so.
    pub fn set_parent_of<P: TracingProvider>(
        &self,
        providers: &Providers<P>,
        span: &P::Span,
    ) -> (r: bool)
        ensures
            parent_attached(providers.list@, *self, span, r),
    {
        match active_provider::<P>(providers) {
            Some(i) => providers.list[i].attach_parent(self, span),
            None => false,
        }
    }

    /// The fields `trace_id` and `span_id` of a span that this context is recorded in.
    pub open spec fn fields(self) -> (Option<Seq<char>>, Seq<char>) {
        (
            if self.trace_id != 0 {
                Some(hex(self.trace_id as nat, 32))
            } else {
                None
            },
            hex(self.span_id as nat, 16),
        )
    }

    /// Returns the values to record in the fields `trace_id` and `span_id` of a span.
    pub fn record(&self) -> (r: (Option<String>, String))
        ensures
            field_view(r.0) == self.fields().0,
            r.1@ == self.fields().1,
    {
        (self.trace_id_field(), self.span_id_field())
    }

    /// Returns the trace id as the value of a span field, if there is one.
    pub fn trace_id_field(&self) -> (r: Option<String>)
        ensures
            field_view(r) == self.fields().0,
    {
        if self.has_trace() {
            let mut out = String::new();
            push_hex(&mut out, self.trace_id, 32);
            assert(out@ =~= hex(self.trace_id as nat, 32));
            Some(out)
        } else {
            None
        }
    }

    /// Returns the span id as the value of a span field.
    pub fn span_id_field(&self) -> (r: String)
        ensures
            r@ == self.fields().1,
    {
        let mut out = String::new();
        push_hex(&mut out, self.span_id as u128, 16);
        assert(out@ =~= hex(self.span_id as nat, 16));
        out
    }

    /// Returns a text for diagnostic output.
    pub fn debug_text(&self) -> (r: String)
        ensures
            r@ == "TracingContext { trace_id: "@ + hex(self.trace_id as nat, 32) + ", span_id: "@
                + hex(self.span_id as nat, 16) + ", flags: "@ + hex(self.flags as nat, 2) + " }"@,
    {
        let mut out = String::from_str("TracingContext { trace_id: ");
        push_hex(&mut out, self.trace_id, 32);
        out.append(", span_id: ");
        push_hex(&mut out, self.span_id as u128, 16);
        out.append(", flags: ");
        push_hex(&mut out, self.flags as u128, 2);
        out.append(" }");
        out
    }
}

/// The text of a field that may be missing.
pub open spec fn field_view(field: Option<String>) -> Option<Seq<char>> {
    match field {
        Some(text) => Some(text@),
        None => None,
    }
}

/// Provides tracing contexts of spans and links spans into traces.
///
/// Either `new_context` or `context_of` must be provided.
pub trait TracingProvider {
    /// Type of the spans.
    type Span;

    /// Whether the provider is currently able to provide tracing contexts.
    fn is_active(&self) -> (r: bool)
        default_ensures
            r,
    {
        true
    }

    /// Tracing context for a span that is about to be created.
    ///
    /// Nothing is returned if the identifiers are only known once the span exists.
    fn new_context(&self) -> (r: Option<TracingContext>)
        default_ensures
            r is None,
    {
        None
    }

    /// Tracing context of a span, if the provider can determine it.
    fn context_of(&self, span: &Self::Span) -> (r: Option<TracingContext>)
        default_ensures
            r is None,
    {
        None
    }

    /// Makes the remote span the parent of the given one; returns whether this was done.
    fn attach_parent(&self, context: &TracingContext, span: &Self::Span) -> bool;
}

/// The registered tracing providers, in the order in which they are tried.
pub struct Providers<P> {
    /// The providers.
    pub list: Vec<P>,
}

/// Returns the registered providers, in the order in which they are tried.
pub fn tracing_providers<P>(providers: &Providers<P>) -> (r: &Vec<P>)
    ensures
        r@ == providers.list@,
{
    &providers.list
}

/// Replaces the registered providers.
pub fn set_tracing_providers<P>(providers: &mut Providers<P>, list: Vec<P>)
    ensures
        final(providers).list@ == list@,
{
    providers.list = list;
}

/// Registers a provider that is tried before the registered ones.
pub fn register_tracing_provider<P>(providers: &mut Providers<P>, provider: P)
    ensures
        final(providers).list@ == seq![provider] + old(providers).list@,
{
    let ghost before = providers.list@;
    providers.list.insert(0, provider);
    assert(providers.list@ =~= seq![provider] + before);
}

/// Whether the first provider that said it is active is the one with the given index.
pub open spec fn is_first_active<P: TracingProvider>(list: Seq<P>, active: Option<usize>) -> bool {
    match active {
        Some(i) => {
            &&& i < list.len()
            &&& call_ensures(P::is_active, (&list[i as int],), true)
            &&& forall|j: int|
                0 <= j < i ==> call_ensures(P::is_active, (&#[trigger] list[j],), false)
        },
        None => forall|j: int|
            0 <= j < list.len() ==> call_ensures(P::is_active, (&#[trigger] list[j],), false),
    }
}

/// Whether a context is what the active provider says of a span.
pub open spec fn context_of_span<P: TracingProvider>(
    list: Seq<P>,
    span: &P::Span,
    context: Option<TracingContext>,
) -> bool {
    ||| is_first_active::<P>(list, None) && context is None
    ||| exists|i: usize| #[trigger]
        is_first_active::<P>(list, Some(i)) && call_ensures(
            P::context_of,
            (&list[i as int], span),
            context,
        )
}

/// Whether a parent was attached by the active provider.
pub open spec fn parent_attached<P: TracingProvider>(
    list: Seq<P>,
    context: TracingContext,
    span: &P::Span,
    attached: bool,
) -> bool {
    ||| is_first_active::<P>(list, None) && !attached
    ||| exists|i: usize| #[trigger]
        is_first_active::<P>(list, Some(i)) && call_ensures(
            P::attach_parent,
            (&list[i as int], &context, span),
            attached,
        )
}

/// Returns the index of the first active provider.
pub fn active_provider<P: TracingProvider>(providers: &Providers<P>) -> (r: Option<usize>)
    ensures
        is_first_active::<P>(providers.list@, r),
{
    let mut i: usize = 0;
    while i < providers.list.len()
        invariant
            i <= providers.list@.len(),
            forall|j: int|
                0 <= j < i ==> call_ensures(
                    P::is_active,
                    (&#[trigger] providers.list@[j],),
                    false,
                ),
        decreases providers.list@.len() - i,
    {
        if providers.list[i].is_active() {
            return Some(i);
        }
        i = i + 1;
    }
    None
}

/// Returns the upper half of a random identifier from [`uuid::Uuid::new_v4`].
///
/// The call sets the version of the identifier, which are four bits of this half, and
/// fills the others with random bits. It panics when the operating system provides none.
#[verifier::external_body]
fn random_half() -> (r: u64)
    ensures
        r & 0xf000 == 0x4000,
{
    Uuid::new_v4().as_u64_pair().0
}

/// The tracing provider that identifies each call by a random span id.
///
/// No trace id is assigned and no context is provided for existing spans.
pub struct RandomSpanId<S> {
    /// Type of the spans.
    pub spans: PhantomData<S>,
}

impl<S> RandomSpanId<S> {
    /// Creates the provider.
    pub fn new() -> (r: Self)
        ensures
            r == (RandomSpanId::<S> { spans: PhantomData }),
    {
        RandomSpanId { spans: PhantomData }
    }

    /// Returns the context for a random number.
    pub fn context_for(number: u64) -> (r: TracingContext)
        ensures
            r == (TracingContext {
                trace_id: 0,
                span_id: if number > 1 {
                    number
                } else {
                    1
                },
                flags: 0,
            }),
            r.span_id != 0,
    {
        let span_id: u64 = if number > 1 {
            number
        } else {
            1
        };
        TracingContext { trace_id: 0, span_id, flags: 0 }
    }
}

impl<S> TracingProvider for RandomSpanId<S> {
    type Span = S;

    fn new_context(&self) -> (r: Option<TracingContext>)
        ensures
            r matches Some(context) && context.trace_id == 0 && context.span_id != 0
                && context.span_id & 0xf000 == 0x4000 && context.flags == 0,
    {
        let number: u64 = random_half();
        assert(number & 0xf000 == 0x4000 ==> number > 1) by (bit_vector);
        Some(RandomSpanId::<S>::context_for(number))
    }

    fn attach_parent(&self, context: &TracingContext, span: &S) -> (r: bool)
        ensures
            r,
    {
        true
    }
}

/// The tracing a client performs for its calls.
#[derive(Clone, Copy, Debug, PartialEq, Eq, Hash, Structural)]
pub enum Tracing {
    /// No span is created and no tracing context is sent.
    Off,
    /// A span is created, but no tracing context is sent.
    Client,
    /// The tracing context of the current span is sent, but no span is created.
    Server,
    /// A span is created and its tracing context is sent.
    Both,
}

impl Default for Tracing {
    fn default() -> (r: Self)
        ensures
            r == Tracing::Both,
    {
        Tracing::Both
    }
}

impl Tracing {
    /// The number that stands for the setting on the wire.
    pub open spec fn tag(self) -> u8 {
        match self {
            Tracing::Off => 0,
            Tracing::Client => 1,
            Tracing::Server => 2,
            Tracing::Both => 3,
        }
    }

    /// Returns the number that stands for the setting on the wire.
    pub fn to_tag(&self) -> (r: u8)
        ensures
            r == self.tag(),
    {
        match self {
            Tracing::Off => 0,
            Tracing::Client => 1,
            Tracing::Server => 2,
            Tracing::Both => 3,
        }
    }

    /// The setting for a number from the wire; one that is unknown does both.
    pub open spec fn of_tag(tag: u8) -> Tracing {
        if tag == 0 {
            Tracing::Off
        } else if tag == 1 {
            Tracing::Client
        } else if tag == 2 {
            Tracing::Server
        } else {
            Tracing::Both
        }
    }

    /// Returns the setting for a number from the wire.
    pub fn from_tag(tag: u8) -> (r: Self)
        ensures
            r == Tracing::of_tag(tag),
    {
        match tag {
            0 => Tracing::Off,
            1 => Tracing::Client,
            2 => Tracing::Server,
            _ => Tracing::Both,
        }
    }
}

/// What tracing of a call at the client came to.
pub struct ClientCall<S> {
    /// The span of the call, if one was created.
    pub span: Option<S>,
    /// The tracing context to send to the server.
    pub context: Option<TracingContext>,
    /// The tracing context to record in the span after it was created.
    pub record: Option<TracingContext>,
}

/// Whether a span was created with the context that a provider assigned beforehand, or was
/// created without one and then yielded its context.
///
/// `creates` says which spans may come of creating one that records a context.
pub open spec fn call_traced<P: TracingProvider>(
    provider: P,
    creates: spec_fn(Option<TracingContext>, P::Span) -> bool,
    span: P::Span,
    context: Option<TracingContext>,
    record: Option<TracingContext>,
) -> bool {
    ||| context is Some && record is None && call_ensures(P::new_context, (&provider,), context)
        && creates(context, span)
    ||| record == context && call_ensures(P::new_context, (&provider,), None) && creates(None, span)
        && call_ensures(P::context_of, (&provider, &span), context)
}

/// Whether a span was created and its context obtained from the active provider, if any.
pub open spec fn span_traced<P: TracingProvider>(
    list: Seq<P>,
    creates: spec_fn(Option<TracingContext>, P::Span) -> bool,
    span: P::Span,
    context: Option<TracingContext>,
    record: Option<TracingContext>,
) -> bool {
    ||| is_first_active::<P>(list, None) && context is None && record is None && creates(None, span)
    ||| exists|i: usize| #[trigger]
        is_first_active::<P>(list, Some(i)) && call_traced(
            list[i as int],
            creates,
            span,
            context,
            record,
        )
}

/// Whether a call was traced as its client asks for.
pub open spec fn client_traced<P: TracingProvider>(
    tracing: Tracing,
    list: Seq<P>,
    current: &P::Span,
    creates: spec_fn(Option<TracingContext>, P::Span) -> bool,
    r: ClientCall<P::Span>,
) -> bool {
    match tracing {
        Tracing::Off => r.span is None && r.context is None && r.record is None,
        Tracing::Server => r.span is None && r.record is None && context_of_span(
            list,
            current,
            r.context,
        ),
        Tracing::Client => r.context is None && r.span is Some && exists|
            context: Option<TracingContext>,
        | #[trigger]
            span_traced(list, creates, r.span->0, context, r.record),
        Tracing::Both => r.span is Some && span_traced(
            list,
            creates,
            r.span->0,
            r.context,
            r.record,
        ),
    }
}

/// A call that was traced is also traced under a weaker description of how spans are created.
pub proof fn lemma_client_traced_weaker<P: TracingProvider>(
    tracing: Tracing,
    list: Seq<P>,
    current: &P::Span,
    creates: spec_fn(Option<TracingContext>, P::Span) -> bool,
    weaker: spec_fn(Option<TracingContext>, P::Span) -> bool,
    r: ClientCall<P::Span>,
)
    requires
        client_traced(tracing, list, current, creates, r),
        forall|context: Option<TracingContext>, span: P::Span| #[trigger]
            creates(context, span) ==> weaker(context, span),
    ensures
        client_traced(tracing, list, current, weaker, r),
{
    match tracing {
        Tracing::Client => {
            let context = choose|context: Option<TracingContext>| #[trigger]
                span_traced(list, creates, r.span->0, context, r.record);
            assert(span_traced(list, creates, r.span->0, context, r.record));
            assert(span_traced(list, weaker, r.span->0, context, r.record));
        },
        _ => {},
    }
}

/// Creates a span and obtains its context from the active provider.
///
/// Returns the span, its context, and the context to record in it afterwards.
fn traced_span<P: TracingProvider, F: FnOnce(Option<TracingContext>) -> P::Span>(
    providers: &Providers<P>,
    create: F,
) -> (r: (P::Span, Option<TracingContext>, Option<TracingContext>))
    requires
        forall|context: Option<TracingContext>| #[trigger] create.requires((context,)),
    ensures
        span_traced(
            providers.list@,
            |context: Option<TracingContext>, span: P::Span| create.ensures((context,), span),
            r.0,
            r.1,
            r.2,
        ),
{
    match active_provider::<P>(providers) {
        Some(i) => {
            let provider = &providers.list[i];
            match provider.new_context() {
                Some(context) => (create(Some(context)), Some(context), None),
                None => {
                    let span = create(None);
                    let context = provider.context_of(&span);
                    (span, context, context)
                },
            }
        },
        None => (create(None), None, None),
    }
}

/// Sets up the tracing of a call at the client.
///
/// `create` creates the span of the call, recording the context passed to it. It is
/// not called if the client does not create a span.
pub fn client_call<P: TracingProvider, F: FnOnce(Option<TracingContext>) -> P::Span>(
    tracing: Tracing,
    providers: &Providers<P>,
    current: &P::Span,
    create: F,
) -> (r: ClientCall<P::Span>)
    requires
        forall|context: Option<TracingContext>| #[trigger] create.requires((context,)),
    ensures
        client_traced(
            tracing,
            providers.list@,
            current,
            |context: Option<TracingContext>, span: P::Span| create.ensures((context,), span),
            r,
        ),
{
    let ghost creates = |context: Option<TracingContext>, span: P::Span|
        create.ensures((context,), span);
    match tracing {
        Tracing::Off => ClientCall { span: None, context: None, record: None },
        Tracing::Server => ClientCall {
            span: None,
            context: TracingContext::from_span(providers, current),
            record: None,
        },
        Tracing::Client => {
            let (span, context, record) = traced_span(providers, create);
            let call = ClientCall { span: Some(span), context: None, record };
            assert(span_traced(providers.list@, creates, call.span->0, context, call.record));
            call
        },
        Tracing::Both => {
            let (span, context, record) = traced_span(providers, create);
            ClientCall { span: Some(span), context, record }
        },
    }
}

/// Creates the span for processing a call at the server.
///
/// If the caller sent a context, the caller's span becomes the parent of the created
/// one. Returns the span and whether this was done.
pub fn server_span<P: TracingProvider, F: FnOnce(Option<TracingContext>) -> P::Span>(
    context: Option<TracingContext>,
    providers: &Providers<P>,
    create: F,
) -> (r: (P::Span, bool))
    requires
        create.requires((context,)),
    ensures
        create.ensures((context,), r.0),
        match context {
            Some(context) => parent_attached(providers.list@, context, &r.0, r.1),
            None => !r.1,
        },
{
    let span = create(context);
    let attached: bool = match context {
        Some(context) => context.set_parent_of(providers, &span),
        None => false,
    };
    (span, attached)
}

/// The side of a call that a span represents.
#[derive(Clone, Copy, Debug, PartialEq, Eq, Structural)]
pub enum SpanKind {
    /// The calling side.
    Client,
    /// The serving side.
    Server,
}

impl SpanKind {
    /// The value of the field `otel.kind`.
    pub open spec fn text(self) -> Seq<char> {
        match self {
            SpanKind::Client => "client"@,
            SpanKind::Server => "server"@,
        }
    }

    /// Returns the value of the field `otel.kind`.
    pub fn as_str(self) -> (r: &'static str)
        ensures
            r@ == self.text(),
    {
        match self {
            SpanKind::Client => "client",
            SpanKind::Server => "server",
        }
    }
}

/// What a span for a call records.
pub struct CallSpan {
    /// Level of the span.
    pub level: Level,
    /// Full name of the method, for the field `otel.name`.
    pub method: String,
    /// The side of the call, for the field `otel.kind`.
    pub kind: SpanKind,
    /// Value of the field `trace_id`.
    pub trace_id: Option<String>,
    /// Value of the field `span_id`.
    pub span_id: Option<String>,
}

/// Whether a description is that of a span for a call; nothing is described when the
/// level is off.
pub open spec fn describes_call(
    r: Option<CallSpan>,
    level: LevelFilter,
    method: Seq<char>,
    kind: SpanKind,
    context: Option<TracingContext>,
) -> bool {
    match level.level() {
        None => r is None,
        Some(level) => {
            &&& r matches Some(span)
            &&& span.level == level
            &&& span.method@ == method
            &&& span.kind == kind
            &&& field_view(span.trace_id) == (match context {
                Some(context) => context.fields().0,
                None => None,
            })
            &&& field_view(span.span_id) == (match context {
                Some(context) => Some(context.fields().1),
                None => None,
            })
        },
    }
}

/// Describes the span for a call at the given level.
pub fn call_span(
    level: LevelFilter,
    method: &str,
    kind: SpanKind,
    context: Option<TracingContext>,
) -> (r: Option<CallSpan>)
    ensures
        describes_call(r, level, method@, kind, context),
{
    let (trace_id, span_id) = match context {
        Some(context) => (context.trace_id_field(), Some(context.span_id_field())),
        None => (None, None),
    };
    match level.into_level() {
        Some(level) => Some(
            CallSpan { level, method: String::from_str(method), kind, trace_id, span_id },
        ),
        None => None,
    }
}

/// Whether a span comes of creating one from the description of a call.
pub open spec fn creates_call_span<S, F: FnOnce(Option<CallSpan>) -> S>(
    level: LevelFilter,
    method: Seq<char>,
    kind: SpanKind,
    create: F,
    context: Option<TracingContext>,
    span: S,
) -> bool {
    exists|described: Option<CallSpan>|
        {
            &&& #[trigger] describes_call(described, level, method, kind, context)
            &&& create.ensures((described,), span)
        }
}

/// Sets up the tracing of a call of the given method at the client.
///
/// `create` creates a span from its description.
pub fn trace_client_call<P: TracingProvider, F: FnOnce(Option<CallSpan>) -> P::Span>(
    level: LevelFilter,
    method: &str,
    tracing: Tracing,
    providers: &Providers<P>,
    current: &P::Span,
    create: F,
) -> (r: ClientCall<P::Span>)
    requires
        forall|span: Option<CallSpan>| #[trigger] create.requires((span,)),
    ensures
        client_traced(
            tracing,
            providers.list@,
            current,
            |context: Option<TracingContext>, span: P::Span|
                creates_call_span(level, method@, SpanKind::Client, create, context, span),
            r,
        ),
{
    let make = |context: Option<TracingContext>| -> (span: P::Span)
        requires
            forall|span: Option<CallSpan>| #[trigger] create.requires((span,)),
        ensures
            creates_call_span(level, method@, SpanKind::Client, create, context, span),
        {
            let described = call_span(level, method, SpanKind::Client, context);
            assert(describes_call(described, level, method@, SpanKind::Client, context));
            create(described)
        };
    let r = client_call(tracing, providers, current, make);
    proof {
        lemma_client_traced_weaker(
            tracing,
            providers.list@,
            current,
            |context: Option<TracingContext>, span: P::Span| make.ensures((context,), span),
            |context: Option<TracingContext>, span: P::Span|
                creates_call_span(level, method@, SpanKind::Client, create, context, span),
            r,
        );
    }
    r
}

/// A tracing setting arrives unchanged at the remote endpoint.
pub proof fn law_tracing_round_trip(tracing: Tracing)
    ensures
        Tracing::of_tag(tracing.tag()) == tracing,
{
}

/// With [`RandomSpanId`] alone no span has a context, though that provider is active.
pub proof fn law_random_ids_are_for_calls<S>(
    provider: RandomSpanId<S>,
    span: &S,
    context: Option<TracingContext>,
)
    requires
        context_of_span(seq![provider], span, context),
    ensures
        context is None,
{
    let list = seq![provider];
    assert(list[0] == provider);
}

/// A registered provider takes precedence over those that were registered before it: if it
/// says that it is active, it is the first active one.
pub proof fn law_latest_provider_first<P: TracingProvider>(provider: P, before: Seq<P>)
    requires
        call_ensures(P::is_active, (&provider,), true),
    ensures
        is_first_active::<P>(seq![provider] + before, Some(0)),
{
}

/// The level of a span is the most detailed one that a filter lets through; where nothing is let
/// through there is none.
pub proof fn law_level_of_a_filter(filter: LevelFilter, off: bool, r: Option<Level>)
    requires
        call_ensures(LevelFilter::is_off, (&filter,), off),
        call_ensures(LevelFilter::into_level, (filter,), r),
    ensures
        off <==> filter == LevelFilter::Off,
        r is None <==> off,
        r == Some(Level::Error) <==> filter == LevelFilter::Error,
        r == Some(Level::Warn) <==> filter == LevelFilter::Warn,
        r == Some(Level::Info) <==> filter == LevelFilter::Info,
        r == Some(Level::Debug) <==> filter == LevelFilter::Debug,
        r == Some(Level::Trace) <==> filter == LevelFilter::Trace,
{
}

/// A trace is sampled exactly if the lowest bit of its flags is set, and a context has a trace
/// exactly if the identifier of its trace is not zero.
pub proof fn law_flags_of_a_context(context: TracingContext, sampled: bool, traced: bool)
    requires
        call_ensures(TracingContext::is_sampled, (&context,), sampled),
        call_ensures(TracingContext::has_trace, (&context,), traced),
    ensures
        sampled <==> context.flags & 1 == 1,
        traced <==> context.trace_id != 0,
{
    let flags = context.flags;
    assert((flags & 1 == 1) == (flags % 2 == 1)) by (bit_vector);
}

/// The identifiers that a span records are those of its context: they have the width of the
/// identifiers and read back as them. A trace that does not exist is not recorded.
pub proof fn law_recorded_identifiers(
    context: TracingContext,
    r: (Option<String>, String),
    trace_id: Option<String>,
    span_id: String,
    made: (String, String),
)
    requires
        call_ensures(TracingContext::record, (&context,), r),
        call_ensures(TracingContext::trace_id_field, (&context,), trace_id),
        call_ensures(TracingContext::span_id_field, (&context,), span_id),
        exists|out: &mut String| #[trigger]
            call_ensures(push_hex, (out, context.trace_id, 32usize), ()) && out@ == Seq::<
                char,
            >::empty() && *final(out) == made.0,
        exists|out: &mut String| #[trigger]
            call_ensures(push_hex, (out, context.span_id as u128, 16usize), ()) && out@ == Seq::<
                char,
            >::empty() && *final(out) == made.1,
    ensures
        r.0 is None <==> context.trace_id == 0,
        trace_id is None <==> context.trace_id == 0,
        r.0 matches Some(text) ==> text@ == made.0@,
        trace_id matches Some(text) ==> text@ == made.0@,
        r.1@ == made.1@ && span_id@ == made.1@,
{
    assert(made.0@ =~= hex(context.trace_id as nat, 32));
    assert(made.1@ =~= hex(context.span_id as nat, 16));
}

/// A provider that was registered is tried before the others, which keep their order.
pub proof fn law_registered_provider<P>(
    before: Providers<P>,
    provider: P,
    list: Vec<P>,
    after: Providers<P>,
    replaced: Providers<P>,
    r: (&Vec<P>, &Vec<P>),
)
    requires
        exists|state: &mut Providers<P>| #[trigger]
            call_ensures(register_tracing_provider::<P>, (state, provider), ()) && *state == before
                && *final(state) == after,
        exists|state: &mut Providers<P>| #[trigger]
            call_ensures(set_tracing_providers::<P>, (state, list), ()) && *state == before
                && *final(state) == replaced,
        call_ensures(tracing_providers::<P>, (&after,), r.0),
        call_ensures(tracing_providers::<P>, (&replaced,), r.1),
    ensures
        r.0@.len() == before.list@.len() + 1,
        r.0@[0] == provider,
        forall|i: int| 0 <= i < before.list@.len() ==> #[trigger] r.0@[i + 1] == before.list@[i],
        r.1@ == list@,
{
}

/// The provider that is used is one that says it is active, and every one before it says that
/// it is not; none is used only if all say so.
pub proof fn law_active_provider_is_used<P: TracingProvider>(
    providers: Providers<P>,
    r: Option<usize>,
)
    requires
        call_ensures(active_provider::<P>, (&providers,), r),
    ensures
        r matches Some(i) ==> {
            &&& i < providers.list@.len()
            &&& call_ensures(P::is_active, (&providers.list@[i as int],), true)
            &&& forall|j: int|
                0 <= j < i ==> call_ensures(P::is_active, (&#[trigger] providers.list@[j],), false)
        },
        r is None ==> forall|j: int|
            0 <= j < providers.list@.len() ==> call_ensures(
                P::is_active,
                (&#[trigger] providers.list@[j],),
                false,
            ),
{
}

/// Where no provider was registered no span has a context and no parent is attached; where there
/// is one alone that is always active it is asked for both.
pub proof fn law_context_comes_from_the_provider<P: TracingProvider>(
    providers: Providers<P>,
    span: &P::Span,
    context: TracingContext,
    current: Option<TracingContext>,
    of_span: Option<TracingContext>,
    attached: bool,
)
    requires
        call_ensures(TracingContext::current::<P>, (&providers, span), current),
        call_ensures(TracingContext::from_span::<P>, (&providers, span), of_span),
        call_ensures(TracingContext::set_parent_of::<P>, (&context, &providers, span), attached),
        providers.list@.len() <= 1,
        forall|i: int|
            0 <= i < providers.list@.len() ==> !call_ensures(
                P::is_active,
                (&#[trigger] providers.list@[i],),
                false,
            ),
    ensures
        providers.list@.len() == 0 ==> current is None && of_span is None && !attached,
        providers.list@.len() == 1 ==> {
            &&& call_ensures(P::context_of, (&providers.list@[0], span), current)
            &&& call_ensures(P::context_of, (&providers.list@[0], span), of_span)
            &&& call_ensures(P::attach_parent, (&providers.list@[0], &context, span), attached)
        },
{
    if providers.list@.len() == 1 {
        assert(!call_ensures(P::is_active, (&providers.list@[0],), false));
    }
}

/// Calls that are identified by random numbers have no trace, and their identifier is the number
/// where it can be one: zero identifies no span.
pub proof fn law_random_identifier<S>(number: u64, r: TracingContext)
    requires
        call_ensures(RandomSpanId::<S>::context_for, (number,), r),
    ensures
        r.trace_id == 0 && r.flags == 0,
        r.span_id != 0,
        number != 0 ==> r.span_id == number,
        number == 0 ==> r.span_id == 1,
{
}

/// The provider of random identifiers gives every call one and can always link spans.
pub proof fn law_random_provider<S>(
    provider: RandomSpanId<S>,
    context: TracingContext,
    span: &S,
    made: Option<TracingContext>,
    attached: bool,
)
    requires
        call_ensures(<RandomSpanId<S> as TracingProvider>::new_context, (&provider,), made),
        call_ensures(
            <RandomSpanId<S> as TracingProvider>::attach_parent,
            (&provider, &context, span),
            attached,
        ),
    ensures
        made matches Some(new) && new.trace_id == 0 && new.span_id != 0 && new.flags == 0,
        attached,
{
}

/// A setting is transported as a number of its own and comes back unchanged; a number that is
/// not known here does both, as does a setting that was not made.
pub proof fn law_transported_tracing(
    tracing: Tracing,
    tag: u8,
    back: Tracing,
    received: u8,
    r: Tracing,
    made: Tracing,
)
    requires
        call_ensures(Tracing::to_tag, (&tracing,), tag),
        call_ensures(Tracing::from_tag, (tag,), back),
        call_ensures(Tracing::from_tag, (received,), r),
        call_ensures(<Tracing as Default>::default, (), made),
    ensures
        back == tracing,
        tag == 0 <==> tracing == Tracing::Off,
        tag == 1 <==> tracing == Tracing::Client,
        tag == 2 <==> tracing == Tracing::Server,
        tag == 3 <==> tracing == Tracing::Both,
        received > 3 ==> r == Tracing::Both,
        made == Tracing::Both,
{
}

/// A client that traces its calls creates a span for each, one that traces at the server sends a
/// context, and one that does both sends the context of the span that it created. What a span
/// does not record when it is created, and is known afterwards, is what is sent.
pub proof fn law_traced_call<P: TracingProvider, F: FnOnce(Option<TracingContext>) -> P::Span>(
    tracing: Tracing,
    providers: Providers<P>,
    current: &P::Span,
    create: F,
    r: ClientCall<P::Span>,
)
    requires
        call_ensures(client_call::<P, F>, (tracing, &providers, current, create), r),
    ensures
        r.span is Some <==> tracing == Tracing::Client || tracing == Tracing::Both,
        r.span matches Some(span) ==> exists|context: Option<TracingContext>| #[trigger]
            call_ensures(create, (context,), span),
        tracing == Tracing::Off || tracing == Tracing::Client ==> r.context is None,
        tracing == Tracing::Off || tracing == Tracing::Server ==> r.record is None,
        tracing == Tracing::Both && r.record is Some ==> r.record == r.context,
        providers.list@.len() == 0 ==> r.context is None && r.record is None,
        tracing == Tracing::Both ==> call_ensures(create, (r.context,), r.span->0) || call_ensures(
            create,
            (None::<TracingContext>,),
            r.span->0,
        ),
{
    let creates = |context: Option<TracingContext>, span: P::Span| create.ensures((context,), span);
    if tracing == Tracing::Client {
        let context = choose|context: Option<TracingContext>| #[trigger]
            span_traced(providers.list@, creates, r.span->0, context, r.record);
        assert(span_traced(providers.list@, creates, r.span->0, context, r.record));
        assert(creates(context, r.span->0) || creates(None, r.span->0));
        assert(call_ensures(create, (context,), r.span->0) || call_ensures(
            create,
            (None::<TracingContext>,),
            r.span->0,
        ));
    } else if tracing == Tracing::Both {
        assert(span_traced(providers.list@, creates, r.span->0, r.context, r.record));
        assert(creates(r.context, r.span->0) || creates(None, r.span->0));
    }
}

/// A span that processes a call records the context that the caller sent. A parent is attached
/// only if the caller sent one.
pub proof fn law_processing_span<P: TracingProvider, F: FnOnce(Option<TracingContext>) -> P::Span>(
    context: Option<TracingContext>,
    providers: Providers<P>,
    create: F,
    r: (P::Span, bool),
)
    requires
        call_ensures(server_span::<P, F>, (context, &providers, create), r),
    ensures
        call_ensures(create, (context,), r.0),
        r.1 ==> context is Some && providers.list@.len() > 0,
{
}

/// The span of a call has the level of the filter, the name of the method and the side of the
/// call that it stands for, and records the identifiers of the context.
pub proof fn law_described_span(
    filter: LevelFilter,
    method: &str,
    kind: SpanKind,
    context: Option<TracingContext>,
    level: Option<Level>,
    fields: (Option<String>, String),
    r: Option<CallSpan>,
)
    requires
        call_ensures(LevelFilter::into_level, (filter,), level),
        context matches Some(context) ==> call_ensures(TracingContext::record, (&context,), fields),
        call_ensures(call_span, (filter, method, kind, context), r),
    ensures
        r is None <==> filter == LevelFilter::Off,
        r matches Some(span) ==> {
            &&& level == Some(span.level)
            &&& span.method@ == method@
            &&& span.kind == kind
            &&& context is None ==> span.trace_id is None && span.span_id is None
            &&& context is Some ==> (span.span_id matches Some(id) && id@ == fields.1@)
            &&& context is Some ==> (span.trace_id is Some <==> fields.0 is Some)
            &&& context is Some && span.trace_id is Some ==> (span.trace_id->0)@ == (fields.0->0)@
        },
{
}

/// The two sides of a call are told apart by their names.
pub proof fn law_names_of_sides(kind: SpanKind, r: &'static str)
    requires
        call_ensures(SpanKind::as_str, (kind,), r),
    ensures
        kind == SpanKind::Client ==> r@ == "client"@,
        kind == SpanKind::Server ==> r@ == "server"@,
{
}

/// The diagnostic text of a context shows its identifiers as they are recorded, and its flags.
pub proof fn law_shown_context(
    context: TracingContext,
    fields: (Option<String>, String),
    r: String,
)
    requires
        context.trace_id != 0,
        call_ensures(TracingContext::record, (&context,), fields),
        call_ensures(TracingContext::debug_text, (&context,), r),
    ensures
        r@ == "TracingContext { trace_id: "@ + (fields.0->0)@ + ", span_id: "@ + fields.1@
            + ", flags: "@ + hex(context.flags as nat, 2) + " }"@,
{
}

} // verus!
