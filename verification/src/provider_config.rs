//! Configuration of concrete backends for multi-provider routing.
use vstd::prelude::*;
use crate::types::MarsError;

verus! {

/// One backend endpoint: which provider and model to call, with what
/// credentials, and its routing priority.
#[derive(Clone, Debug)]
pub struct ProviderSpec {
    pub provider: String,
    pub model: String,
    pub api_key: String,
    pub base_url: Option<String>,
    pub priority: u32,
}

impl ProviderSpec {
    /// A spec for the given provider and model, with no key, no custom
    /// endpoint and priority zero.
    pub fn new(provider: &str, model: &str) -> (r: ProviderSpec)
        ensures
            r.provider@ == provider@,
            r.model@ == model@,
            r.api_key@ == Seq::<char>::empty(),
            r.base_url is None,
            r.priority == 0,
    {
        ProviderSpec {
            provider: provider.to_owned(),
            model: model.to_owned(),
            api_key: String::new(),
            base_url: None,
            priority: 0,
        }
    }

    /// The same spec with this API key.
    pub fn with_api_key(self, api_key: String) -> (r: ProviderSpec)
        ensures
            r == (ProviderSpec { api_key, ..self }),
    {
        ProviderSpec { api_key, ..self }
    }

    /// The same spec with this routing priority.
    pub fn with_priority(self, priority: u32) -> (r: ProviderSpec)
        ensures
            r == (ProviderSpec { priority, ..self }),
    {
        ProviderSpec { priority, ..self }
    }

    /// The same spec with this endpoint override.
    pub fn with_base_url(self, base_url: String) -> (r: ProviderSpec)
        ensures
            r == (ProviderSpec { base_url: Some(base_url), ..self }),
    {
        ProviderSpec { base_url: Some(base_url), ..self }
    }

    /// A spec is usable exactly when provider, model and API key are all
    /// non-empty.
    pub fn validate(&self) -> (r: Result<(), MarsError>)
        ensures
            (r is Ok) == (self.provider@.len() > 0 && self.model@.len() > 0
                && self.api_key@.len() > 0),
    {
        if self.provider.as_str().is_empty() || self.model.as_str().is_empty()
            || self.api_key.as_str().is_empty() {
            Err(MarsError::BackendError("provider spec is incomplete".to_owned()))
        } else {
            Ok(())
        }
    }
}

/// Ordered set of backend endpoints available to a run.
#[derive(Clone, Debug)]
pub struct ProviderRoutingConfig {
    pub providers: Vec<ProviderSpec>,
}

impl ProviderRoutingConfig {
    /// An empty routing table.
    pub fn new() -> (r: ProviderRoutingConfig)
        ensures
            r.providers@.len() == 0,
    {
        ProviderRoutingConfig { providers: Vec::new() }
    }

    /// The same table with one more endpoint at the end.
    pub fn with_provider(self, spec: ProviderSpec) -> (r: ProviderRoutingConfig)
        ensures
            r.providers@ == self.providers@.push(spec),
    {
        let mut providers = self.providers;
        providers.push(spec);
        ProviderRoutingConfig { providers }
    }
}

} // verus!
