//! Requests to [`SendGrid`](https://sendgrid.com/).

use super::error::{EmailError, EmailErrorView};
use super::EnvLoader;
use crate::blog::text_opt;
use crate::text::texts;
use vstd::prelude::*;

verus! {

/// The address that mail requests are posted to.
pub const SEND_URL: &'static str = "https://api.sendgrid.com/v3/mail/send";

#[derive(Default, Debug)]
pub struct SendGrid {
    api_key: Option<String>,
}

/// What is posted to SendGrid for one email.
#[derive(Debug, PartialEq, Eq)]
pub struct SendGridRequest {
    /// The value of the `Authorization` header.
    pub authorization: String,
    /// The body, a JSON document.
    pub message: String,
}

/// The JSON object of an address.
pub open spec fn address_json(address: Seq<char>) -> Seq<char> {
    "{\"email\": \""@ + address + "\"}"@
}

/// The JSON objects of `addresses` with a comma between two of them.
pub open spec fn addresses_json(addresses: Seq<Seq<char>>) -> Seq<char>
    decreases addresses.len(),
{
    if addresses.len() == 0 {
        Seq::empty()
    } else if addresses.len() == 1 {
        address_json(addresses[0])
    } else {
        addresses_json(addresses.drop_last()) + ","@ + address_json(addresses.last())
    }
}

/// The body of the request for an email.
pub open spec fn message_json(
    from_address: Seq<char>,
    recipients: Seq<Seq<char>>,
    subject: Seq<char>,
    contents: Seq<char>,
) -> Seq<char> {
    "{\"personalizations\": [{\"to\": ["@ + addresses_json(recipients) + "]}],\"from\": "@
        + address_json(from_address) + ",\"subject\": \""@ + subject
        + "\",\"content\": [{\"type\": \"text/html\", \"value\": \""@ + contents + "\"}]}"@
}

/// The JSON object of an address.
pub fn address_to_json(address: &str) -> (json: String)
    ensures
        json@ == address_json(address@),
{
    String::from_str("{\"email\": \"").concat(address).concat("\"}")
}

/// The JSON objects of the addresses with a comma between two of them.
pub fn addresses_to_json(addresses: &Vec<String>) -> (json: String)
    ensures
        json@ == addresses_json(texts(addresses@)),
{
    let ghost all = texts(addresses@);
    let mut json = String::new();
    let mut i: usize = 0;
    while i < addresses.len()
        invariant
            i <= addresses.len(),
            all == texts(addresses@),
            json@ == addresses_json(all.take(i as int)),
        decreases addresses.len() - i,
    {
        proof {
            assert(all.take(i + 1).drop_last() == all.take(i as int));
            assert(all.take(i + 1).last() == addresses@[i as int]@);
            if i == 0 {
                assert(all.take(1)[0] == addresses@[0]@);
            }
        }
        if i > 0 {
            json = json.concat(",");
        }
        let address = address_to_json(addresses[i].as_str());
        json = json.concat(address.as_str());
        assert(json@ == addresses_json(all.take(i + 1)));
        i += 1;
    }
    proof {
        assert(all.take(i as int) == all);
    }
    json
}

impl SendGrid {
    /// The key that requests are signed with, if there is one.
    pub closed spec fn key(self) -> Option<Seq<char>> {
        text_opt(self.api_key)
    }

    pub fn new(env_loader: &EnvLoader) -> (provider: Self)
        ensures
            provider.key() == text_opt(env_loader.api_key),
    {
        Self { api_key: env_loader.key() }
    }

    /// The request for an email with the given HTML contents. Without a key
    /// there is none.
    pub fn request(
        &self,
        from_address: &str,
        recipient_addresses: &Vec<String>,
        subject: &str,
        contents: &str,
    ) -> (request: Result<SendGridRequest, EmailError>)
        ensures
            match request {
                Ok(r) => self.key() matches Some(key) && r.authorization@ == "Bearer "@ + key
                    && r.message@ == message_json(
                    from_address@,
                    texts(recipient_addresses@),
                    subject@,
                    contents@,
                ),
                Err(e) => self.key() is None && e@ == EmailErrorView::Config(
                    "Cannot use SendGrid without API_KEY"@,
                ),
            },
    {
        let api_key = match &self.api_key {
            Some(key) => key,
            None => {
                return Err(
                    EmailError::Config(String::from_str("Cannot use SendGrid without API_KEY")),
                );
            },
        };
        let recipients = addresses_to_json(recipient_addresses);
        let sender = address_to_json(from_address);
        let message = String::from_str("{\"personalizations\": [{\"to\": [").concat(
            recipients.as_str(),
        ).concat("]}],\"from\": ").concat(sender.as_str()).concat(",\"subject\": \"").concat(
            subject,
        ).concat("\",\"content\": [{\"type\": \"text/html\", \"value\": \"").concat(
            contents,
        ).concat("\"}]}");
        Ok(
            SendGridRequest {
                authorization: String::from_str("Bearer ").concat(api_key.as_str()),
                message,
            },
        )
    }
}

} // verus!
