//! Tracing contexts of OpenTelemetry.

use vstd::prelude::*;
use opentelemetry::trace::{SpanContext, SpanId, TraceFlags, TraceId, TraceState};
use crate::tracing::TracingContext;

verus! {

/// The number whose bytes are given most significant byte first.
pub open spec fn be_number(bytes: Seq<u8>) -> nat
    decreases bytes.len(),
{
    if bytes.len() == 0 {
        0
    } else {
        0x100 * be_number(bytes.drop_last()) + bytes.last() as nat
    }
}

/// The `count` least significant bytes of `n`, most significant byte first.
pub open spec fn be_digits(n: nat, count: nat) -> Seq<u8>
    decreases count,
{
    if count == 0 {
        Seq::empty()
    } else {
        be_digits(n / 0x100, (count - 1) as nat).push((n % 0x100) as u8)
    }
}

/// The bytes of a number that fits into them give back the number.
pub proof fn law_be_round_trip(n: nat, count: nat)
    requires
        n < vstd::arithmetic::power::pow(0x100, count),
    ensures
        be_digits(n, count).len() == count,
        be_number(be_digits(n, count)) == n,
    decreases count,
{
    if count == 0 {
        vstd::arithmetic::power::lemma_pow0(0x100);
    } else {
        let rest = be_digits(n / 0x100, (count - 1) as nat);
        assert(vstd::arithmetic::power::pow(0x100, count) == 0x100
            * vstd::arithmetic::power::pow(0x100, (count - 1) as nat)) by {
            reveal(vstd::arithmetic::power::pow);
        }
        law_be_round_trip(n / 0x100, (count - 1) as nat);
        assert(be_digits(n, count).drop_last() =~= rest);
    }
}

/// A number given by bytes is less than the power of their count.
proof fn lemma_be_bound(bytes: Seq<u8>)
    ensures
        be_number(bytes) < vstd::arithmetic::power::pow(0x100, bytes.len()),
    decreases bytes.len(),
{
    if bytes.len() == 0 {
        vstd::arithmetic::power::lemma_pow0(0x100);
    } else {
        lemma_be_bound(bytes.drop_last());
        assert(vstd::arithmetic::power::pow(0x100, bytes.len()) == 0x100
            * vstd::arithmetic::power::pow(0x100, (bytes.len() - 1) as nat)) by {
            reveal(vstd::arithmetic::power::pow);
        }
    }
}

proof fn lemma_pow_16()
    ensures
        vstd::arithmetic::power::pow(0x100, 16) == 0x1_0000_0000_0000_0000_0000_0000_0000_0000int,
        vstd::arithmetic::power::pow(0x100, 8) == 0x1_0000_0000_0000_0000int,
{
    reveal_with_fuel(vstd::arithmetic::power::pow, 17);
}

/// Returns the number whose bytes are given most significant byte first.
fn from_be(bytes: &[u8]) -> (r: u128)
    requires
        bytes@.len() <= 16,
    ensures
        r as nat == be_number(bytes@),
{
    let mut n: u128 = 0;
    let mut i: usize = 0;
    while i < bytes.len()
        invariant
            i <= bytes@.len() <= 16,
            n as nat == be_number(bytes@.take(i as int)),
        decreases bytes@.len() - i,
    {
        assert(bytes@.take(i + 1).drop_last() =~= bytes@.take(i as int));
        proof {
            lemma_be_bound(bytes@.take(i + 1));
            lemma_pow_16();
            vstd::arithmetic::power::lemma_pow_increases(0x100, (i + 1) as nat, 16);
        }
        n = 0x100 * n + bytes[i] as u128;
        i = i + 1;
    }
    assert(bytes@.take(i as int) =~= bytes@);
    n
}

/// Returns the `count` least significant bytes of `n`, most significant byte first.
fn to_be(n: u128, count: usize) -> (r: Vec<u8>)
    ensures
        r@ == be_digits(n as nat, count as nat),
    decreases count,
{
    if count == 0 {
        Vec::new()
    } else {
        let mut out: Vec<u8> = to_be(n / 0x100, count - 1);
        out.push((n % 0x100) as u8);
        out
    }
}

/// The identifiers of an OpenTelemetry span context.
pub struct OtelSpanContext {
    /// Trace id, most significant byte first.
    pub trace_id: Vec<u8>,
    /// Span id, most significant byte first.
    pub span_id: Vec<u8>,
    /// Trace flags.
    pub trace_flags: u8,
    /// Whether the context came from a remote parent.
    pub is_remote: bool,
}

impl OtelSpanContext {
    /// The identifiers have the sizes that OpenTelemetry gives them.
    pub open spec fn wf(self) -> bool {
        self.trace_id@.len() == 16 && self.span_id@.len() == 8
    }
}

/// The OpenTelemetry span context is invalid and thus has no tracing context.
#[derive(Clone, Copy, Debug, PartialEq, Eq, Structural)]
pub struct InvalidSpanContext;

impl InvalidSpanContext {
    /// Returns the message shown to users.
    pub fn message(&self) -> (r: String)
        ensures
            r@ == "invalid OpenTelemetry span context"@,
    {
        String::from_str("invalid OpenTelemetry span context")
    }
}

/// Tests a span context with [`opentelemetry::trace::SpanContext::is_valid`].
///
/// The call returns whether both identifiers differ from the invalid ones, which are
/// zero.
#[verifier::external_body]
fn is_valid(trace_id: u128, span_id: u64, trace_flags: u8, is_remote: bool) -> (r: bool)
    ensures
        r == (trace_id != 0 && span_id != 0),
{
    SpanContext::new(
        TraceId::from_bytes(trace_id.to_be_bytes()),
        SpanId::from_bytes(span_id.to_be_bytes()),
        TraceFlags::new(trace_flags),
        is_remote,
        TraceState::default(),
    )
        .is_valid()
}

/// The tracing context of a span context, if it is valid.
pub open spec fn context_from(otel: OtelSpanContext) -> Result<TracingContext, InvalidSpanContext> {
    if be_number(otel.trace_id@) != 0 && be_number(otel.span_id@) != 0 {
        Ok(
            TracingContext {
                trace_id: be_number(otel.trace_id@) as u128,
                span_id: be_number(otel.span_id@) as u64,
                flags: otel.trace_flags,
            },
        )
    } else {
        Err(InvalidSpanContext)
    }
}

impl TracingContext {
    /// Converts an OpenTelemetry span context into a tracing context.
    pub fn from_otel(otel: &OtelSpanContext) -> (r: Result<TracingContext, InvalidSpanContext>)
        requires
            otel.wf(),
        ensures
            r == context_from(*otel),
    {
        let trace_id: u128 = from_be(otel.trace_id.as_slice());
        let span_id: u128 = from_be(otel.span_id.as_slice());
        proof {
            lemma_be_bound(otel.span_id@);
            lemma_pow_16();
        }
        let span_id: u64 = span_id as u64;
        if !is_valid(trace_id, span_id, otel.trace_flags, otel.is_remote) {
            return Err(InvalidSpanContext);
        }
        Ok(TracingContext { trace_id, span_id, flags: otel.trace_flags })
    }

    /// Converts the tracing context into the OpenTelemetry span context of a remote span.
    pub fn to_otel(&self) -> (r: OtelSpanContext)
        ensures
            r.wf(),
            r.trace_id@ == be_digits(self.trace_id as nat, 16),
            r.span_id@ == be_digits(self.span_id as nat, 8),
            r.trace_flags == self.flags,
            r.is_remote,
            context_from(r) == (if self.trace_id != 0 && self.span_id != 0 {
                Ok::<TracingContext, InvalidSpanContext>(*self)
            } else {
                Err(InvalidSpanContext)
            }),
    {
        proof {
            lemma_pow_16();
            law_be_round_trip(self.trace_id as nat, 16);
            law_be_round_trip(self.span_id as nat, 8);
        }
        OtelSpanContext {
            trace_id: to_be(self.trace_id, 16),
            span_id: to_be(self.span_id as u128, 8),
            trace_flags: self.flags,
            is_remote: true,
        }
    }
}

/// The tracing provider that uses the OpenTelemetry context of spans.
///
/// It yields no context for spans that have no valid OpenTelemetry context.
pub struct OpenTelemetry;

impl OpenTelemetry {
    /// Returns whether the provider can be used, given the current span, if there is one.
    ///
    /// A call outside of any span starts a new trace.
    pub fn is_active(&self, current: Option<&OtelSpanContext>) -> (r: bool)
        requires
            current matches Some(otel) ==> otel.wf(),
        ensures
            r == (match current {
                None => true,
                Some(otel) => context_from(*otel) is Ok,
            }),
    {
        match current {
            None => true,
            Some(otel) => self.context_of(otel).is_some(),
        }
    }

    /// Returns the tracing context of a span.
    pub fn context_of(&self, span: &OtelSpanContext) -> (r: Option<TracingContext>)
        requires
            span.wf(),
        ensures
            r == (match context_from(*span) {
                Ok(context) => Some(context),
                Err(_) => None,
            }),
    {
        match TracingContext::from_otel(span) {
            Ok(context) => Some(context),
            Err(_) => None,
        }
    }

    /// Returns the span context to make the parent of a span, if there is a trace to link to.
    pub fn parent(&self, context: &TracingContext) -> (r: Option<OtelSpanContext>)
        ensures
            r is Some <==> context.trace_id != 0,
            r matches Some(otel) ==> {
                &&& otel.wf()
                &&& otel.trace_id@ == be_digits(context.trace_id as nat, 16)
                &&& otel.span_id@ == be_digits(context.span_id as nat, 8)
                &&& otel.trace_flags == context.flags
                &&& otel.is_remote
            },
    {
        if !context.has_trace() {
            return None;
        }
        Some(context.to_otel())
    }
}

/// A context of a trace goes to OpenTelemetry and comes back unchanged. One without a trace or
/// without a span does not come back, and none can be made a parent without a trace.
pub proof fn law_context_round_trip(
    context: TracingContext,
    otel: OtelSpanContext,
    back: Result<TracingContext, InvalidSpanContext>,
    provider: OpenTelemetry,
    seen: Option<TracingContext>,
    active: bool,
    parent: Option<OtelSpanContext>,
)
    requires
        call_ensures(TracingContext::to_otel, (&context,), otel),
        call_ensures(TracingContext::from_otel, (&otel,), back),
        call_ensures(OpenTelemetry::context_of, (&provider, &otel), seen),
        call_ensures(OpenTelemetry::is_active, (&provider, Some(&otel)), active),
        call_ensures(OpenTelemetry::parent, (&provider, &context), parent),
    ensures
        context.trace_id != 0 && context.span_id != 0 ==> {
            &&& back == Ok::<TracingContext, InvalidSpanContext>(context)
            &&& seen == Some(context)
            &&& active
        },
        context.trace_id == 0 || context.span_id == 0 ==> back is Err && seen is None && !active,
        otel.is_remote,
        otel.trace_id@.len() == 16 && otel.span_id@.len() == 8,
        parent is Some <==> context.trace_id != 0,
        parent matches Some(linked) ==> linked.trace_id@ == otel.trace_id@ && linked.span_id@
            == otel.span_id@ && linked.trace_flags == context.flags && linked.is_remote,
{
}

/// Outside of any span the provider is active, so that a call starts a new trace.
pub proof fn law_active_outside_of_spans(provider: OpenTelemetry, active: bool)
    requires
        call_ensures(OpenTelemetry::is_active, (&provider, None::<&OtelSpanContext>), active),
    ensures
        active,
{
}

/// A span context has a tracing context exactly if some byte of its trace id and some byte of
/// its span id is not zero.
pub proof fn law_valid_span_context(
    otel: OtelSpanContext,
    r: Result<TracingContext, InvalidSpanContext>,
)
    requires
        otel.trace_id@.len() == 16 && otel.span_id@.len() == 8,
        call_ensures(TracingContext::from_otel, (&otel,), r),
    ensures
        r is Ok <==> (exists|i: int| 0 <= i < 16 && #[trigger] otel.trace_id@[i] != 0) && (exists|
            j: int,
        |
            0 <= j < 8 && #[trigger] otel.span_id@[j] != 0),
        r matches Ok(context) ==> {
            &&& context.flags == otel.trace_flags
            &&& context.trace_id % 0x100 == otel.trace_id@[15]
            &&& context.span_id % 0x100 == otel.span_id@[7]
            &&& context.trace_id != 0 && context.span_id != 0
        },
{
    lemma_be_zero(otel.trace_id@);
    lemma_be_zero(otel.span_id@);
    lemma_be_bound(otel.trace_id@);
    lemma_be_bound(otel.span_id@);
    lemma_pow_16();
}

/// A number is zero exactly if all its bytes are.
proof fn lemma_be_zero(bytes: Seq<u8>)
    ensures
        be_number(bytes) == 0 <==> forall|i: int| 0 <= i < bytes.len() ==> #[trigger] bytes[i] == 0,
    decreases bytes.len(),
{
    if bytes.len() > 0 {
        let rest = bytes.drop_last();
        lemma_be_zero(rest);
        if be_number(bytes) == 0 {
            assert forall|i: int| 0 <= i < bytes.len() implies #[trigger] bytes[i] == 0 by {
                if i < rest.len() {
                    assert(rest[i] == 0);
                }
            }
        } else if forall|i: int| 0 <= i < bytes.len() ==> #[trigger] bytes[i] == 0 {
            assert(bytes[bytes.len() - 1] == 0);
            assert forall|i: int| 0 <= i < rest.len() implies #[trigger] rest[i] == 0 by {
                assert(bytes[i] == 0);
            }
        }
    }
}

} // verus!
