//! Tracing settings of remote functions.

use vstd::prelude::*;
use crate::tracing::{
    call_span, client_traced, creates_call_span, describes_call, parent_attached,
    trace_client_call, CallSpan, ClientCall, LevelFilter, Providers, SpanKind, Tracing,
    TracingContext, TracingProvider,
};

verus! {

/// The name of a remote function derived from its wrapper and argument types.
pub open spec fn derived_name(wrapper: Seq<char>, args: Seq<char>) -> Seq<char> {
    wrapper + "<"@ + args + ">"@
}

/// Returns the name of a remote function derived from its wrapper and argument types.
pub fn default_name(wrapper: &str, args: &str) -> (r: String)
    ensures
        r@ == derived_name(wrapper@, args@),
{
    let mut out = String::from_str(wrapper);
    out.append("<");
    out.append(args);
    out.append(">");
    out
}

/// The name that was set, or the derived one.
pub open spec fn name_or_derived(
    name: Option<String>,
    wrapper: Seq<char>,
    args: Seq<char>,
) -> Seq<char> {
    match name {
        Some(name) => name@,
        None => derived_name(wrapper, args),
    }
}

/// Returns the name that was set, or the derived one.
fn name_or_default(name: &Option<String>, wrapper: &str, args: &str) -> (r: String)
    ensures
        r@ == name_or_derived(*name, wrapper@, args@),
{
    match name {
        Some(name) => name.clone(),
        None => default_name(wrapper, args),
    }
}

/// The span in which a call is processed.
pub enum ServerSpan<S> {
    /// The current span.
    Current,
    /// The configured span.
    Configured,
    /// A new span, and whether the caller's span became its parent.
    Created(S, bool),
}

/// Tracing settings of the provider of a remote function.
pub struct ProviderSettings<P: TracingProvider> {
    /// Name of the function, if set.
    pub name: Option<String>,
    /// Level of the span processing a call.
    pub level: LevelFilter,
    /// Span within which calls are processed, if configured.
    pub span: Option<P::Span>,
}

impl<P: TracingProvider> ProviderSettings<P> {
    /// Creates the settings with tracing disabled.
    pub fn new() -> (r: Self)
        ensures
            r == (ProviderSettings::<P> { name: None, level: LevelFilter::Off, span: None }),
    {
        ProviderSettings { name: None, level: LevelFilter::Off, span: None }
    }

    /// Sets the span within which calls are processed; a disabled one removes the setting.
    pub fn set_span(&mut self, span: Option<P::Span>)
        ensures
            *final(self) == (ProviderSettings { span, ..*old(self) }),
    {
        self.span = span;
    }

    /// Creates the span for processing a call.
    ///
    /// Without tracing, the call is processed within the configured span or, if there is
    /// none, within the current one. `create` creates a span from its description, as a
    /// child of the configured span if there is one.
    pub fn server_span<F: FnOnce(Option<CallSpan>, bool) -> P::Span>(
        &self,
        wrapper: &str,
        args: &str,
        context: Option<TracingContext>,
        providers: &Providers<P>,
        create: F,
    ) -> (r: ServerSpan<P::Span>)
        requires
            forall|span: Option<CallSpan>, child: bool| #[trigger] create.requires((span, child)),
        ensures
            self.level == LevelFilter::Off ==> r == (if self.span is None {
                ServerSpan::<P::Span>::Current
            } else {
                ServerSpan::Configured
            }),
            self.level != LevelFilter::Off ==> {
                &&& r matches ServerSpan::Created(span, attached)
                &&& exists|described: Option<CallSpan>|
                    {
                        &&& #[trigger] describes_call(
                            described,
                            self.level,
                            name_or_derived(self.name, wrapper@, args@),
                            SpanKind::Server,
                            context,
                        )
                        &&& create.ensures((described, self.span is Some), span)
                    }
                &&& match context {
                    Some(context) => parent_attached(providers.list@, context, &span, attached),
                    None => !attached,
                }
            },
    {
        if self.level.is_off() {
            return if self.span.is_none() {
                ServerSpan::Current
            } else {
                ServerSpan::Configured
            };
        }
        let name = name_or_default(&self.name, wrapper, args);
        let described = call_span(self.level, name.as_str(), SpanKind::Server, context);
        assert(describes_call(
            described,
            self.level,
            name_or_derived(self.name, wrapper@, args@),
            SpanKind::Server,
            context,
        ));
        let span = create(described, self.span.is_some());
        let attached: bool = match context {
            Some(context) => context.set_parent_of(providers, &span),
            None => false,
        };
        ServerSpan::Created(span, attached)
    }
}

/// Tracing settings of a remote function.
///
/// The settings travel with the remote function. While it is in the process in which it
/// was created, the settings of its provider are linked to it and follow changes of the
/// name and the level.
pub struct Settings {
    /// Name of the function, if set.
    pub name: Option<String>,
    /// Tracing performed at the client.
    pub tracing: Tracing,
    /// Level of the span of a call at the client.
    pub level: LevelFilter,
    /// Whether the settings of the provider are linked.
    pub linked: bool,
}

impl Default for Settings {
    fn default() -> (r: Self)
        ensures
            r == (Settings {
                name: None,
                tracing: Tracing::Both,
                level: LevelFilter::Off,
                linked: false,
            }),
    {
        Settings { name: None, tracing: Tracing::default(), level: LevelFilter::Off, linked: false }
    }
}

impl Settings {
    /// Creates settings that are linked to those of a provider.
    pub fn new() -> (r: Self)
        ensures
            r == (Settings {
                name: None,
                tracing: Tracing::Both,
                level: LevelFilter::Off,
                linked: true,
            }),
    {
        Settings { linked: true, ..Settings::default() }
    }

    /// Returns whether the settings may be left out because they hold their defaults.
    ///
    /// `allow_skip` says whether anything may be left out.
    pub fn is_default_ref(&self, allow_skip: bool) -> (r: bool)
        ensures
            r == (allow_skip && self.name is None && self.tracing == Tracing::Both && self.level
                == LevelFilter::Off),
    {
        let both: bool = match self.tracing {
            Tracing::Both => true,
            _ => false,
        };
        allow_skip && self.name.is_none() && both && self.level.is_off()
    }

    /// Whether a change applies to the provider's settings.
    ///
    /// They are gone once the provider was dropped.
    pub open spec fn applies_to<P: TracingProvider>(
        self,
        provider: Option<ProviderSettings<P>>,
    ) -> bool {
        self.linked && provider is Some
    }

    /// Takes out the provider's settings for a change, if the provider is linked and has not
    /// been dropped.
    fn with_provider<P: TracingProvider>(&self, provider: &mut Option<ProviderSettings<P>>) -> (r:
        Option<ProviderSettings<P>>)
        ensures
            r == (if self.applies_to(*old(provider)) {
                *old(provider)
            } else {
                None
            }),
            *final(provider) == (if self.applies_to(*old(provider)) {
                None
            } else {
                *old(provider)
            }),
    {
        if self.linked {
            provider.take()
        } else {
            None
        }
    }

    /// Returns the name of the function.
    pub fn name(&self, wrapper: &str, args: &str) -> (r: String)
        ensures
            r@ == name_or_derived(self.name, wrapper@, args@),
    {
        name_or_default(&self.name, wrapper, args)
    }

    /// Sets the name of the function, also at its provider.
    pub fn set_name<P: TracingProvider>(
        &mut self,
        name: Option<String>,
        provider: &mut Option<ProviderSettings<P>>,
    )
        ensures
            *final(self) == (Settings { name, ..*old(self) }),
            *final(provider) == (if old(self).applies_to(*old(provider)) {
                Some(ProviderSettings { name, ..old(provider)->0 })
            } else {
                *old(provider)
            }),
    {
        let copy: Option<String> = match &name {
            Some(name) => Some(name.clone()),
            None => None,
        };
        self.name = name;
        if let Some(settings) = self.with_provider(provider) {
            *provider = Some(ProviderSettings { name: copy, ..settings });
        }
    }

    /// Returns the tracing performed at the client.
    pub fn tracing(&self) -> (r: Tracing)
        ensures
            r == self.tracing,
    {
        self.tracing
    }

    /// Sets the tracing performed at the client.
    pub fn set_tracing(&mut self, tracing: Tracing)
        ensures
            *final(self) == (Settings { tracing, ..*old(self) }),
    {
        self.tracing = tracing;
    }

    /// Returns the level of the spans.
    pub fn level(&self) -> (r: LevelFilter)
        ensures
            r == self.level,
    {
        self.level
    }

    /// Sets the level of the spans, also at the provider.
    pub fn set_level<P: TracingProvider>(
        &mut self,
        level: LevelFilter,
        provider: &mut Option<ProviderSettings<P>>,
    )
        ensures
            *final(self) == (Settings { level, ..*old(self) }),
            *final(provider) == (if old(self).applies_to(*old(provider)) {
                Some(ProviderSettings { level, ..old(provider)->0 })
            } else {
                *old(provider)
            }),
    {
        self.level = level;
        if let Some(settings) = self.with_provider(provider) {
            *provider = Some(ProviderSettings { level, ..settings });
        }
    }

    /// Sets the span within which calls are processed by the provider.
    pub fn set_span<P: TracingProvider>(
        &mut self,
        span: Option<P::Span>,
        provider: &mut Option<ProviderSettings<P>>,
    )
        ensures
            *final(self) == *old(self),
            *final(provider) == (if old(self).applies_to(*old(provider)) {
                Some(ProviderSettings { span, ..old(provider)->0 })
            } else {
                *old(provider)
            }),
    {
        if let Some(settings) = self.with_provider(provider) {
            *provider = Some(ProviderSettings { span, ..settings });
        }
    }

    /// Sets up the tracing of a call at the client.
    ///
    /// `create` creates a span from its description. Nothing is done when tracing is off.
    pub fn client_call<P: TracingProvider, F: FnOnce(Option<CallSpan>) -> P::Span>(
        &self,
        wrapper: &str,
        args: &str,
        providers: &Providers<P>,
        current: &P::Span,
        create: F,
    ) -> (r: ClientCall<P::Span>)
        requires
            forall|span: Option<CallSpan>| #[trigger] create.requires((span,)),
        ensures
            self.level == LevelFilter::Off ==> r.span is None && r.context is None && r.record
                is None,
            self.level != LevelFilter::Off ==> client_traced(
                self.tracing,
                providers.list@,
                current,
                |context: Option<TracingContext>, span: P::Span|
                    creates_call_span(
                        self.level,
                        name_or_derived(self.name, wrapper@, args@),
                        SpanKind::Client,
                        create,
                        context,
                        span,
                    ),
                r,
            ),
    {
        if self.level.is_off() {
            return ClientCall { span: None, context: None, record: None };
        }
        let name = self.name(wrapper, args);
        trace_client_call(self.level, name.as_str(), self.tracing, providers, current, create)
    }
}

/// The name and the level that were set are those that are read, and setting one leaves the
/// other settings as they were.
pub proof fn law_settings_are_read_back<P: TracingProvider>(
    before: Settings,
    name: Option<String>,
    level: LevelFilter,
    tracing: Tracing,
    wrapper: &str,
    args: &str,
    named: Settings,
    leveled: Settings,
    traced: Settings,
    r: (String, LevelFilter, Tracing),
)
    requires
        exists|state: &mut Settings, provider: &mut Option<ProviderSettings<P>>| #[trigger]
            call_ensures(Settings::set_name::<P>, (state, name, provider), ()) && *state == before
                && *final(state) == named,
        exists|state: &mut Settings, provider: &mut Option<ProviderSettings<P>>| #[trigger]
            call_ensures(Settings::set_level::<P>, (state, level, provider), ()) && *state == before
                && *final(state) == leveled,
        exists|state: &mut Settings| #[trigger]
            call_ensures(Settings::set_tracing, (state, tracing), ()) && *state == before
                && *final(state) == traced,
        call_ensures(Settings::name, (&named, wrapper, args), r.0),
        call_ensures(Settings::level, (&leveled,), r.1),
        call_ensures(Settings::tracing, (&traced,), r.2),
    ensures
        name matches Some(name) ==> r.0@ == name@,
        name is None ==> r.0@ == wrapper@ + "<"@ + args@ + ">"@,
        r.1 == level,
        r.2 == tracing,
        named == (Settings { name, ..before }),
        leveled == (Settings { level, ..before }),
        traced == (Settings { tracing, ..before }),
{
}

/// The provider of a function follows changes of the name, the level and the span exactly as
/// long as its settings are linked and it is there.
pub proof fn law_linked_provider_follows<P: TracingProvider>(
    settings: Settings,
    provider: Option<ProviderSettings<P>>,
    name: Option<String>,
    level: LevelFilter,
    span: Option<P::Span>,
    named: Option<ProviderSettings<P>>,
    leveled: Option<ProviderSettings<P>>,
    spanned: Option<ProviderSettings<P>>,
)
    requires
        exists|state: &mut Settings, holder: &mut Option<ProviderSettings<P>>| #[trigger]
            call_ensures(Settings::set_name::<P>, (state, name, holder), ()) && *state == settings
                && *holder == provider && *final(holder) == named,
        exists|state: &mut Settings, holder: &mut Option<ProviderSettings<P>>| #[trigger]
            call_ensures(Settings::set_level::<P>, (state, level, holder), ()) && *state == settings
                && *holder == provider && *final(holder) == leveled,
        exists|state: &mut Settings, holder: &mut Option<ProviderSettings<P>>| #[trigger]
            call_ensures(Settings::set_span::<P>, (state, span, holder), ()) && *state == settings
                && *holder == provider && *final(holder) == spanned && *final(state) == settings,
    ensures
        !settings.linked ==> named == provider && leveled == provider && spanned == provider,
        provider is None ==> named is None && leveled is None && spanned is None,
        settings.linked ==> (provider matches Some(before) ==> {
            &&& named == Some(ProviderSettings { name, ..before })
            &&& leveled == Some(ProviderSettings { level, ..before })
            &&& spanned == Some(ProviderSettings { span, ..before })
        }),
{
}

/// Settings are left out of what is transported only if they come back as they were, apart from
/// the link to the provider, which is not transported.
pub proof fn law_left_out_settings(settings: Settings, allow_skip: bool, r: bool, made: Settings)
    requires
        call_ensures(Settings::is_default_ref, (&settings, allow_skip), r),
        call_ensures(<Settings as Default>::default, (), made),
    ensures
        r <==> allow_skip && made == (Settings { linked: made.linked, ..settings }),
        !made.linked,
        made.tracing == Tracing::Both && made.level == LevelFilter::Off && made.name is None,
{
}

/// New settings are the default ones, linked to the provider, and at neither end is anything
/// traced.
pub proof fn law_new_settings<P: TracingProvider>(
    made: Settings,
    new: Settings,
    provider: ProviderSettings<P>,
)
    requires
        call_ensures(<Settings as Default>::default, (), made),
        call_ensures(Settings::new, (), new),
        call_ensures(ProviderSettings::<P>::new, (), provider),
    ensures
        new == (Settings { linked: true, ..made }),
        new.level == LevelFilter::Off && provider.level == LevelFilter::Off,
        provider.name is None && provider.span is None,
{
}

/// Where tracing is off no span is created for a call: it is processed in the span that was
/// set, or else in the current one. Where it is on a span is created.
pub proof fn law_span_of_a_processed_call<P: TracingProvider, F: FnOnce(
    Option<CallSpan>,
    bool,
) -> P::Span>(
    before: ProviderSettings<P>,
    span: Option<P::Span>,
    settings: ProviderSettings<P>,
    wrapper: &str,
    args: &str,
    context: Option<TracingContext>,
    providers: &Providers<P>,
    create: F,
    r: ServerSpan<P::Span>,
)
    requires
        exists|state: &mut ProviderSettings<P>| #[trigger]
            call_ensures(ProviderSettings::<P>::set_span, (state, span), ()) && *state == before
                && *final(state) == settings,
        call_ensures(
            ProviderSettings::<P>::server_span::<F>,
            (&settings, wrapper, args, context, providers, create),
            r,
        ),
    ensures
        settings.level == before.level && settings.name == before.name && settings.span == span,
        r is Current <==> before.level == LevelFilter::Off && span is None,
        r is Configured <==> before.level == LevelFilter::Off && span is Some,
        r matches ServerSpan::Created(made, attached) ==> {
            &&& context is None ==> !attached
            &&& exists|described: Option<CallSpan>| #[trigger]
                call_ensures(create, (described, span is Some), made) && (described matches Some(
                    call,
                ) && call.kind == SpanKind::Server && (before.name matches Some(name)
                    ==> call.method@ == name@) && (before.name is None ==> call.method@ == wrapper@
                    + "<"@ + args@ + ">"@))
        },
{
}

/// A call of a function whose tracing is off creates no span and sends no context, whatever
/// else its settings ask for.
pub proof fn law_untraced_call<P: TracingProvider, F: FnOnce(Option<CallSpan>) -> P::Span>(
    settings: Settings,
    wrapper: &str,
    args: &str,
    providers: &Providers<P>,
    current: &P::Span,
    create: F,
    r: ClientCall<P::Span>,
)
    requires
        call_ensures(
            Settings::client_call::<P, F>,
            (&settings, wrapper, args, providers, current, create),
            r,
        ),
    ensures
        settings.level == LevelFilter::Off || settings.tracing == Tracing::Off ==> r.span is None
            && r.context is None && r.record is None,
        r.span is Some <==> settings.level != LevelFilter::Off && (settings.tracing
            == Tracing::Client || settings.tracing == Tracing::Both),
        settings.tracing == Tracing::Client ==> r.context is None,
        settings.tracing == Tracing::Server ==> r.record is None,
{
}

/// A function without a name is named after its wrapper and its arguments.
pub proof fn law_derived_name(wrapper: &str, args: &str, r: String)
    requires
        call_ensures(default_name, (wrapper, args), r),
    ensures
        r@ == wrapper@ + "<"@ + args@ + ">"@,
{
}

} // verus!
