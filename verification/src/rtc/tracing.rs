//! Tracing spans of remote trait calls.

use vstd::prelude::*;
use crate::tracing::{
    call_span, client_traced, creates_call_span, describes_call, parent_attached,
    span_traced, trace_client_call, CallSpan, ClientCall, Level, LevelFilter, Providers, SpanKind,
    Tracing, TracingContext, TracingProvider,
};

verus! {

/// Sets up the tracing of a call at the client.
///
/// `method` is the full name of the method, with its trait. `create` creates a span from
/// its description.
pub fn client_call<P: TracingProvider, F: FnOnce(Option<CallSpan>) -> P::Span>(
    level: LevelFilter,
    method: &str,
    tracing: Tracing,
    providers: &Providers<P>,
    current: &P::Span,
    create: F,
) -> (r: ClientCall<P::Span>)
    requires
        forall|span: Option<CallSpan>| #[trigger] create.requires((span,)),
    ensures
        client_traced(
            tracing,
            providers.list@,
            current,
            |context: Option<TracingContext>, span: P::Span|
                creates_call_span(level, method@, SpanKind::Client, create, context, span),
            r,
        ),
{
    trace_client_call(level, method, tracing, providers, current, create)
}

/// Creates the span for processing a call at the server.
///
/// The span is linked to that of the caller, if the caller sent a context; returns whether
/// this was done.
pub fn server_span<P: TracingProvider, F: FnOnce(Option<CallSpan>) -> P::Span>(
    level: LevelFilter,
    method: &str,
    context: Option<TracingContext>,
    providers: &Providers<P>,
    create: F,
) -> (r: (P::Span, bool))
    requires
        forall|span: Option<CallSpan>| #[trigger] create.requires((span,)),
    ensures
        creates_call_span(level, method@, SpanKind::Server, create, context, r.0),
        match context {
            Some(context) => parent_attached(providers.list@, context, &r.0, r.1),
            None => !r.1,
        },
{
    let described = call_span(level, method, SpanKind::Server, context);
    assert(describes_call(described, level, method@, SpanKind::Server, context));
    let span = create(described);
    let attached: bool = match context {
        Some(context) => context.set_parent_of(providers, &span),
        None => false,
    };
    (span, attached)
}

/// Returns the level and the name of the span of a task forwarding the requests of a
/// pipelined client.
pub fn pipeline_forward_span() -> (r: (Level, &'static str))
    ensures
        r.0 == Level::Trace,
        r.1@ == "rtc_pipeline_forward"@,
{
    (Level::Trace, "rtc_pipeline_forward")
}

/// A call of a method creates a span exactly if its client traces calls, and the span stands for
/// the calling side of the method. Otherwise a context is sent only if the client asks the
/// server to trace the call.
pub proof fn law_traced_method_call<P: TracingProvider, F: FnOnce(Option<CallSpan>) -> P::Span>(
    level: LevelFilter,
    method: &str,
    tracing: Tracing,
    providers: Providers<P>,
    current: &P::Span,
    create: F,
    r: ClientCall<P::Span>,
)
    requires
        call_ensures(
            client_call::<P, F>,
            (level, method, tracing, &providers, current, create),
            r,
        ),
    ensures
        r.span is Some <==> tracing == Tracing::Client || tracing == Tracing::Both,
        tracing == Tracing::Off || tracing == Tracing::Client ==> r.context is None,
        tracing == Tracing::Off || tracing == Tracing::Server ==> r.record is None,
        providers.list@.len() == 0 ==> r.context is None && r.record is None,
        tracing == Tracing::Both ==> exists|described: Option<CallSpan>| #[trigger]
            call_ensures(create, (described,), r.span->0) && (described is None <==> level
                == LevelFilter::Off) && (described matches Some(span) ==> span.kind
                == SpanKind::Client && span.method@ == method@),
{
    let creates = |context: Option<TracingContext>, span: P::Span|
        creates_call_span(level, method@, SpanKind::Client, create, context, span);
    if tracing == Tracing::Client {
        let context = choose|context: Option<TracingContext>| #[trigger]
            span_traced(providers.list@, creates, r.span->0, context, r.record);
        assert(span_traced(providers.list@, creates, r.span->0, context, r.record));
    } else if tracing == Tracing::Both {
        assert(span_traced(providers.list@, creates, r.span->0, r.context, r.record));
        assert(creates(r.context, r.span->0) || creates(None, r.span->0));
    }
}

/// A request is processed in a span that stands for the serving side of the method. A parent is
/// attached only if the caller sent one.
pub proof fn law_span_of_a_processed_request<
    P: TracingProvider,
    F: FnOnce(Option<CallSpan>) -> P::Span,
>(
    level: LevelFilter,
    method: &str,
    context: Option<TracingContext>,
    providers: Providers<P>,
    create: F,
    r: (P::Span, bool),
)
    requires
        call_ensures(server_span::<P, F>, (level, method, context, &providers, create), r),
    ensures
        exists|described: Option<CallSpan>| #[trigger]
            call_ensures(create, (described,), r.0) && (described is None <==> level
                == LevelFilter::Off) && (described matches Some(span) ==> span.kind
                == SpanKind::Server && span.method@ == method@ && (span.span_id is Some <==> context
                is Some)),
        r.1 ==> context is Some && providers.list@.len() > 0,
{
}

} // verus!
