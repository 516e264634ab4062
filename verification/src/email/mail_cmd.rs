//! The default `mail` command in linux.

use crate::text::texts;
use vstd::prelude::*;

verus! {

/// The file that holds the contents of the email while the command runs.
pub const TEMPORARY_FILE_NAME: &'static str = "/tmp/rss2-email.txt";

#[derive(Default, Debug, Clone, Copy)]
pub struct MailCommand {}

/// `addresses` in one text with a comma between two of them.
pub open spec fn joined(addresses: Seq<Seq<char>>) -> Seq<char>
    decreases addresses.len(),
{
    if addresses.len() == 0 {
        Seq::empty()
    } else if addresses.len() == 1 {
        addresses[0]
    } else {
        joined(addresses.drop_last()) + ","@ + addresses.last()
    }
}

/// The shell command that mails the temporary file.
pub open spec fn mail_command(
    from_address: Seq<char>,
    recipients: Seq<Seq<char>>,
    subject: Seq<char>,
) -> Seq<char> {
    "mail -s \""@ + subject + "\" \""@ + joined(recipients) + "\" -aFrom:"@ + from_address + " < "@
        + TEMPORARY_FILE_NAME@
}

/// The addresses in one text with a comma between two of them.
pub fn join_addresses(addresses: &Vec<String>) -> (list: String)
    ensures
        list@ == joined(texts(addresses@)),
{
    let ghost all = texts(addresses@);
    let mut list = String::new();
    let mut i: usize = 0;
    while i < addresses.len()
        invariant
            i <= addresses.len(),
            all == texts(addresses@),
            list@ == joined(all.take(i as int)),
        decreases addresses.len() - i,
    {
        proof {
            assert(all.take(i + 1).drop_last() == all.take(i as int));
            assert(all.take(i + 1).last() == addresses@[i as int]@);
            if i == 0 {
                assert(all.take(1)[0] == addresses@[0]@);
            }
        }
        if i > 0 {
            list = list.concat(",");
        }
        list = list.concat(addresses[i].as_str());
        assert(list@ == joined(all.take(i + 1)));
        i += 1;
    }
    proof {
        assert(all.take(i as int) == all);
    }
    list
}

impl MailCommand {
    /// The shell command that mails the temporary file to the recipients.
    pub fn command(&self, from_address: &str, recipient_addresses: &Vec<String>, subject: &str) -> (line:
        String)
        ensures
            line@ == mail_command(from_address@, texts(recipient_addresses@), subject@),
    {
        let recipients = join_addresses(recipient_addresses);
        String::from_str("mail -s \"").concat(subject).concat("\" \"").concat(
            recipients.as_str(),
        ).concat("\" -aFrom:").concat(from_address).concat(" < ").concat(TEMPORARY_FILE_NAME)
    }
}

} // verus!
