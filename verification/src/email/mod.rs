//! Prepares emails for different providers. Sending them is the caller's part.

use crate::blog::{copy_text_opt, text_opt};
use vstd::prelude::*;

#[allow(clippy::use_self)]
#[allow(clippy::module_name_repetitions)]
pub mod email_provider;
pub mod error;
pub mod mail_cmd;
pub mod resend;
pub mod sendgrid;

verus! {

/// Holds all environment variables that are required
/// by any email provider.
#[derive(Debug)]
pub struct EnvLoader {
    pub api_key: Option<String>,
}

impl EnvLoader {
    /// Creates a new `EnvLoader` from the value of the `API_KEY` environment
    /// variable, if it is set.
    pub fn new(api_key: Option<String>) -> (loader: Self)
        ensures
            loader.api_key == api_key,
    {
        Self { api_key }
    }

    /// A copy of the key.
    pub fn key(&self) -> (key: Option<String>)
        ensures
            text_opt(key) == text_opt(self.api_key),
    {
        copy_text_opt(&self.api_key)
    }
}

} // verus!
