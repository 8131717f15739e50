//! The client's configuration.
use crate::error::LogtoError;
use crate::scopes::{normalized_scopes, with_default_scopes};
use crate::text::{clone_optional_string, clone_optional_strings};
use vstd::prelude::*;

verus! {

/// How an application reaches its provider, and what it asks for.
pub struct LogtoConfig {
    pub endpoint: String,
    pub app_id: String,
    pub scopes: Option<Vec<String>>,
    pub resources: Option<Vec<String>>,
    pub prompt: Option<String>,
}

impl LogtoConfig {
    /// The configuration with the default scopes (`openid`, `offline_access` and `profile`)
    /// added to the scopes asked for, sorted and each once; the rest is kept as it is.
    pub fn normalize(&mut self) -> (r: Result<LogtoConfig, LogtoError>)
        ensures
            *final(self) == *old(self),
            r matches Ok(c) && c.endpoint@ == old(self).endpoint@ && c.app_id@ == old(self).app_id@
                && c.scopes.deep_view() == Some(normalized_scopes(old(self).scopes.deep_view()))
                && c.resources.deep_view() == old(self).resources.deep_view()
                && c.prompt.deep_view() == old(self).prompt.deep_view(),
    {
        let scopes = with_default_scopes(clone_optional_strings(&self.scopes));
        Ok(
            LogtoConfig {
                endpoint: self.endpoint.clone(),
                app_id: self.app_id.clone(),
                scopes: Some(scopes),
                resources: clone_optional_strings(&self.resources),
                prompt: clone_optional_string(&self.prompt),
            },
        )
    }
}

} // verus!
