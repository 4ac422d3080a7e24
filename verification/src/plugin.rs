//! The slot for the local-model backend provider of PII redaction, and the
//! decision that registration makes from it.

use vstd::prelude::*;

verus! {

/// An error of plugin registration.
#[derive(Debug)]
pub enum PluginError {
    /// An internal failure of the runtime.
    Internal(String),
    /// The plugin could not be registered.
    RegistrationFailed(String),
}

/// Why registration fails while no local backend provider is installed.
pub open spec fn backend_unavailable_message() -> Seq<char> {
    "PII redaction local-model backend is unavailable in this runtime"@
}

/// What a registration gets from the slot: the installed provider, or the
/// reason it fails.
pub open spec fn registration_outcome<P>(slot: Option<P>) -> Result<P, Seq<char>> {
    match slot {
        Some(p) => Ok(p),
        None => Err(backend_unavailable_message()),
    }
}

/// The slot that holds the installed local backend provider, if any.
pub struct LocalBackendSlot<P> {
    provider: Option<P>,
}

impl<P> View for LocalBackendSlot<P> {
    type V = Option<P>;

    closed spec fn view(&self) -> Option<P> {
        self.provider
    }
}

impl<P> LocalBackendSlot<P> {
    /// A slot with no provider installed.
    pub fn new() -> (r: Self)
        ensures
            r@ is None,
    {
        LocalBackendSlot { provider: None }
    }

    /// Installs `provider`, replacing any earlier one.
    pub fn register(&mut self, provider: P)
        ensures
            final(self)@ == Some(provider),
    {
        self.provider = Some(provider);
    }

    /// Removes the installed provider.
    pub fn clear(&mut self)
        ensures
            final(self)@ is None,
    {
        self.provider = None;
    }

    /// The provider that a registration runs, or the registration failure when
    /// none is installed.
    pub fn provider_for_registration(&self) -> (r: Result<&P, PluginError>)
        ensures
            match registration_outcome(self@) {
                Ok(p) => r matches Ok(q) && *q == p,
                Err(reason) => r matches Err(PluginError::RegistrationFailed(m)) && m@ == reason,
            },
    {
        match &self.provider {
            Some(p) => Ok(p),
            None => Err(
                PluginError::RegistrationFailed(
                    "PII redaction local-model backend is unavailable in this runtime".to_owned(),
                ),
            ),
        }
    }
}

/// The resource-access event that a local backend registration records.
#[derive(Debug, Clone, Copy, PartialEq, Eq, Structural)]
pub enum BackendAccessEvent {
    /// The provider ran and accepted the configuration.
    Validated,
    /// No provider was installed.
    ProviderUnavailable,
    /// The provider ran and failed.
    InitializationFailed,
}

impl BackendAccessEvent {
    /// The event name under which the record is logged.
    pub fn event_name(&self) -> (r: &'static str)
        ensures
            r@ == (match self {
                BackendAccessEvent::Validated => "plugin_resource_access_validated"@,
                _ => "plugin_resource_access_failed"@,
            }),
    {
        match self {
            BackendAccessEvent::Validated => "plugin_resource_access_validated",
            _ => "plugin_resource_access_failed",
        }
    }

    /// The failure reason logged with the record, if the access failed.
    pub fn reason(&self) -> (r: Option<&'static str>)
        ensures
            match self {
                BackendAccessEvent::Validated => r is None,
                BackendAccessEvent::ProviderUnavailable => r matches Some(m) && m@
                    == "provider_unavailable"@,
                BackendAccessEvent::InitializationFailed => r matches Some(m) && m@
                    == "initialization_failed"@,
            },
    {
        match self {
            BackendAccessEvent::Validated => None,
            BackendAccessEvent::ProviderUnavailable => Some("provider_unavailable"),
            BackendAccessEvent::InitializationFailed => Some("initialization_failed"),
        }
    }
}

/// How a registration that found no provider ends: the unavailable event and
/// the given registration failure, passed on unchanged.
pub fn settle_missing_provider(failure: PluginError) -> (r: (BackendAccessEvent, Result<
    (),
    PluginError,
>))
    ensures
        r.0 == BackendAccessEvent::ProviderUnavailable,
        r.1 == Err::<(), PluginError>(failure),
{
    (BackendAccessEvent::ProviderUnavailable, Err(failure))
}

/// How a registration ends once the provider has run: the event to record,
/// and the provider's outcome passed on unchanged.
pub fn settle_provider_outcome(outcome: Result<(), PluginError>) -> (r: (BackendAccessEvent, Result<
    (),
    PluginError,
>))
    ensures
        r.0 == (if outcome is Ok {
            BackendAccessEvent::Validated
        } else {
            BackendAccessEvent::InitializationFailed
        }),
        r.1 == outcome,
{
    let event = match &outcome {
        Ok(_) => BackendAccessEvent::Validated,
        Err(_) => BackendAccessEvent::InitializationFailed,
    };
    (event, outcome)
}

/// A registration reads back the provider that was installed last, and fails
/// as unavailable once the slot is cleared.
pub proof fn lemma_registration_reads_back_provider<P>(provider: P)
    ensures
        registration_outcome(Some(provider)) == Ok::<P, Seq<char>>(provider),
        registration_outcome::<P>(None) == Err::<P, Seq<char>>(
            "PII redaction local-model backend is unavailable in this runtime"@,
        ),
{
}

} // verus!
