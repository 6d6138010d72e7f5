use remoc::tracing::level_repr;
use remoc::tracing::otel::{OpenTelemetry, OtelSpanContext};
use remoc::tracing::{
    active_provider, call_span, client_call, register_tracing_provider, server_span,
    set_tracing_providers, trace_client_call, tracing_providers, ClientCall, Level, LevelFilter,
    Providers, RandomSpanId, SpanKind, Tracing, TracingContext, TracingProvider,
};

struct Fixed {
    active: bool,
    context: Option<TracingContext>,
}

impl TracingProvider for Fixed {
    type Span = u32;

    fn is_active(&self) -> bool {
        self.active
    }

    fn context_of(&self, _span: &u32) -> Option<TracingContext> {
        self.context
    }

    fn attach_parent(&self, _context: &TracingContext, span: &u32) -> bool {
        *span != 0
    }
}

const CONTEXT: TracingContext = TracingContext { trace_id: 0xabc, span_id: 0x12, flags: 1 };

fn providers(active: bool) -> Providers<Fixed> {
    Providers { list: vec![Fixed { active, context: Some(CONTEXT) }] }
}

#[test]
fn context_fields() {
    assert!(CONTEXT.is_sampled());
    assert!(CONTEXT.has_trace());
    let (trace_id, span_id) = CONTEXT.record();
    assert_eq!(trace_id.unwrap(), "00000000000000000000000000000abc");
    assert_eq!(span_id, "0000000000000012");
    assert_eq!(
        CONTEXT.debug_text(),
        "TracingContext { trace_id: 00000000000000000000000000000abc, \
         span_id: 0000000000000012, flags: 01 }"
    );
    let untraced = TracingContext { trace_id: 0, span_id: 3, flags: 0 };
    assert!(!untraced.is_sampled());
    assert!(untraced.trace_id_field().is_none());
}

#[test]
fn latest_provider_is_tried_first() {
    let mut list = providers(true);
    register_tracing_provider(&mut list, Fixed { active: false, context: None });
    assert_eq!(tracing_providers(&list).len(), 2);
    assert!(!list.list[0].active);
    assert_eq!(active_provider(&list), Some(1));
    set_tracing_providers(&mut list, vec![]);
    assert_eq!(active_provider(&list), None);
    assert!(TracingContext::current(&list, &1).is_none());
}

#[test]
fn contexts_come_from_the_active_provider() {
    assert!(TracingContext::from_span(&providers(true), &5) == Some(CONTEXT));
    assert!(TracingContext::current(&providers(false), &5) == None);
    assert!(CONTEXT.set_parent_of(&providers(true), &5));
    assert!(!CONTEXT.set_parent_of(&providers(true), &0));
    assert!(!CONTEXT.set_parent_of(&providers(false), &5));
}

#[test]
fn random_span_ids_are_set() {
    let provider: RandomSpanId<u32> = RandomSpanId::new();
    let context = provider.new_context().unwrap();
    assert_eq!(context.trace_id, 0);
    assert_eq!(context.span_id & 0xf000, 0x4000);
    let other = provider.new_context().unwrap();
    assert_ne!(context.span_id, other.span_id);
    assert!(provider.is_active());
    let alone = Providers { list: vec![RandomSpanId::<u32>::new()] };
    assert!(TracingContext::current(&alone, &3).is_none());
    assert_eq!(RandomSpanId::<u32>::context_for(0).span_id, 1);
    assert_eq!(RandomSpanId::<u32>::context_for(77).span_id, 77);
}

#[test]
fn tracing_modes_have_numbers() {
    for tracing in [Tracing::Off, Tracing::Client, Tracing::Server, Tracing::Both] {
        assert_eq!(Tracing::from_tag(tracing.to_tag()), tracing);
    }
    assert_eq!(Tracing::default(), Tracing::Both);
}

#[test]
fn calls_are_traced_where_requested() {
    let off: ClientCall<u32> = client_call(Tracing::Off, &providers(true), &1, |_| 7);
    assert!(off.span.is_none() && off.context.is_none());
    let client = client_call(Tracing::Client, &providers(true), &1, |_| 7);
    assert_eq!(client.span, Some(7));
    assert!(client.context.is_none());
    let server = client_call(Tracing::Server, &providers(true), &1, |_| 7);
    assert!((server.span, server.context) == (None, Some(CONTEXT)));
    let both = client_call(Tracing::Both, &providers(true), &1, |_| 7);
    assert!((both.span, both.context) == (Some(7), Some(CONTEXT)));
    let (span, attached) = server_span(Some(CONTEXT), &providers(true), |_| 8);
    assert_eq!((span, attached), (8, true));
    let (_, attached) = server_span(None, &providers(true), |_| 8);
    assert!(!attached);
}

#[test]
fn call_spans_are_described() {
    let span = call_span(LevelFilter::Info, "get", SpanKind::Server, Some(CONTEXT)).unwrap();
    assert_eq!(span.level, Level::Info);
    assert_eq!(span.method, "get");
    assert_eq!(span.kind.as_str(), "server");
    assert_eq!(span.span_id.unwrap(), "0000000000000012");
    assert!(call_span(LevelFilter::Off, "get", SpanKind::Client, None).is_none());
    let call = trace_client_call(
        LevelFilter::Debug,
        "set",
        Tracing::Both,
        &providers(true),
        &1,
        |span| if span.is_some() { 1 } else { 0 },
    );
    assert_eq!(call.span, Some(1));
}

#[test]
fn levels_have_numbers() {
    for level in [
        LevelFilter::Off,
        LevelFilter::Error,
        LevelFilter::Warn,
        LevelFilter::Info,
        LevelFilter::Debug,
        LevelFilter::Trace,
    ] {
        assert_eq!(level_repr::deserialize(level_repr::serialize(&level)), level);
    }
    assert_eq!(level_repr::off(), LevelFilter::Off);
    assert!(level_repr::is_off(&LevelFilter::Off, true));
    assert!(!level_repr::is_off(&LevelFilter::Off, false));
    assert_eq!(LevelFilter::Warn.into_level(), Some(Level::Warn));
    assert_eq!(LevelFilter::Off.into_level(), None);
}

#[test]
fn otel_contexts_round_trip() {
    let otel = CONTEXT.to_otel();
    assert_eq!(otel.trace_id[14..], [0x0a, 0xbc]);
    assert_eq!(otel.span_id, vec![0, 0, 0, 0, 0, 0, 0, 0x12]);
    assert!(otel.is_remote);
    assert!(TracingContext::from_otel(&otel).ok() == Some(CONTEXT));
}

#[test]
fn invalid_otel_contexts_are_refused() {
    let invalid = OtelSpanContext {
        trace_id: vec![0; 16],
        span_id: vec![1; 8],
        trace_flags: 0,
        is_remote: false,
    };
    match TracingContext::from_otel(&invalid) {
        Err(err) => assert_eq!(err.message(), "invalid OpenTelemetry span context"),
        Ok(_) => panic!("expected a refusal"),
    }
    assert!(OpenTelemetry.context_of(&invalid) == None);
    assert!(OpenTelemetry.context_of(&CONTEXT.to_otel()) == Some(CONTEXT));
    assert!(OpenTelemetry.parent(&CONTEXT).is_some());
    let untraced = TracingContext { trace_id: 0, span_id: 3, flags: 0 };
    assert!(OpenTelemetry.parent(&untraced).is_none());
}
