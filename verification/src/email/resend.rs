//! Emails through [`Resend`](https://resend.com/).

use super::error::{EmailError, EmailErrorView};
use super::EnvLoader;
use crate::blog::text_opt;
use vstd::prelude::*;

verus! {

#[derive(Default, Debug)]
pub struct Resend {
    api_key: Option<String>,
}

impl Resend {
    /// The key that the provider is used with, if there is one.
    pub closed spec fn key(self) -> Option<Seq<char>> {
        text_opt(self.api_key)
    }

    pub fn new(env_loader: &EnvLoader) -> (provider: Self)
        ensures
            provider.key() == text_opt(env_loader.api_key),
    {
        Self { api_key: env_loader.key() }
    }

    /// The key to use Resend with. Without one no email can be sent.
    pub fn api_key(&self) -> (key: Result<String, EmailError>)
        ensures
            match key {
                Ok(k) => self.key() == Some(k@),
                Err(e) => self.key() is None && e@ == EmailErrorView::Config(
                    "Cannot use Resend without API_KEY"@,
                ),
            },
    {
        match &self.api_key {
            Some(key) => Ok(key.clone()),
            None => Err(EmailError::Config(String::from_str("Cannot use Resend without API_KEY"))),
        }
    }
}

} // verus!
