//! An email provider abstraction to allow for multiple backends.

use super::mail_cmd::MailCommand;
use super::sendgrid::SendGrid;
use super::EnvLoader;
use crate::blog::text_opt;
use crate::text::{same_text, trim, trimmed};
use vstd::prelude::*;

verus! {

/// `text` in upper case, as `str::to_uppercase` returns it.
pub uninterp spec fn upper_case(text: Seq<char>) -> Seq<char>;

/// Calls `str::to_uppercase`. Trusted: the result is a matter of the text
/// alone.
#[verifier::external_body]
fn to_uppercase(text: &str) -> (upper: String)
    ensures
        upper@ == upper_case(text@),
{
    text.to_uppercase()
}

/// An enum containing all Email Provider implementations.
#[derive(Debug)]
pub enum EmailProviders {
    SendGrid(SendGrid),
    MailCommand(MailCommand),
}

/// The provider that is used where none is asked for.
pub const DEFAULT_PROVIDER: &'static str = "SENDGRID";

/// The name by which a provider is looked up: what was asked for, without the
/// white space around it and in upper case.
pub open spec fn provider_name(value: Seq<char>) -> Seq<char> {
    upper_case(trimmed(value))
}

impl EmailProviders {
    /// Picks the provider by its name, see [`provider_name`]: `SENDGRID` or
    /// `MAIL_COMMAND`.
    pub fn try_from(value: String, env_vars: &EnvLoader) -> (provider: Result<Self, String>)
        ensures
            match provider {
                Ok(EmailProviders::SendGrid(sendgrid)) => provider_name(value@) == "SENDGRID"@
                    && sendgrid.key() == text_opt(env_vars.api_key),
                Ok(EmailProviders::MailCommand(_)) => provider_name(value@) != "SENDGRID"@
                    && provider_name(value@) == "MAIL_COMMAND"@,
                Err(e) => provider_name(value@) != "SENDGRID"@ && provider_name(value@)
                    != "MAIL_COMMAND"@ && e@ == "Requested client not found"@,
            },
    {
        let trimmed_value = trim(value.as_str());
        let client = to_uppercase(trimmed_value.as_str());
        if same_text(client.as_str(), "SENDGRID") {
            Ok(Self::SendGrid(SendGrid::new(env_vars)))
        } else if same_text(client.as_str(), "MAIL_COMMAND") {
            Ok(Self::MailCommand(MailCommand {  }))
        } else {
            Err(String::from_str("Requested client not found"))
        }
    }
}

/// The name of the provider to use, from the value of the `EMAIL`
/// environment variable: `SENDGRID` where it is not set.
pub open spec fn asked_provider(email: Option<Seq<char>>) -> Seq<char> {
    match email {
        Some(name) => name,
        None => "SENDGRID"@,
    }
}

/// Abstracts away the email backend.
///
/// The email provider is picked by the value of the `EMAIL` environment
/// variable.
///
/// By default, this will return the `SendGrid` implementation.
pub fn get_email_provider(email: Option<String>, env_vars: &EnvLoader) -> (provider: Result<
    EmailProviders,
    String,
>)
    ensures
        match provider {
            Ok(EmailProviders::SendGrid(sendgrid)) => provider_name(asked_provider(text_opt(email)))
                == "SENDGRID"@ && sendgrid.key() == text_opt(env_vars.api_key),
            Ok(EmailProviders::MailCommand(_)) => provider_name(asked_provider(text_opt(email)))
                != "SENDGRID"@ && provider_name(asked_provider(text_opt(email)))
                == "MAIL_COMMAND"@,
            Err(e) => provider_name(asked_provider(text_opt(email))) != "SENDGRID"@
                && provider_name(asked_provider(text_opt(email))) != "MAIL_COMMAND"@ && e@
                == "Requested client not found"@,
        },
{
    let env_var = match email {
        Some(name) => name,
        None => String::from_str(DEFAULT_PROVIDER),
    };
    EmailProviders::try_from(env_var, env_vars)
}

} // verus!
