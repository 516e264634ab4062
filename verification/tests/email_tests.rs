use rss2email::email::email_provider::{get_email_provider, EmailProviders};
use rss2email::email::error::EmailError;
use rss2email::email::mail_cmd::{join_addresses, MailCommand, TEMPORARY_FILE_NAME};
use rss2email::email::resend::Resend;
use rss2email::email::sendgrid::{
  address_to_json, addresses_to_json, SendGrid, SendGridRequest, SEND_URL,
};
use rss2email::email::EnvLoader;

#[test]
fn load_sendgrid() {
  let no_key = EnvLoader::new(None);

  let sendgrid = EmailProviders::try_from("SENDGRID".to_owned(), &no_key)
    .expect("The Sendgrid provider is defined");

  match sendgrid {
    EmailProviders::SendGrid(provider) => assert!(
      provider
        .request("address", &vec!["person".to_owned()], "subject", "email")
        .is_err(),
      "Mandatory API_KEY should cause an Err()"
    ),
    EmailProviders::MailCommand(_) => panic!("Failed to load proper Email Provider SendGrid"),
  }

  let key = EnvLoader::new(Some("ASD".to_owned()));
  let sendgrid = EmailProviders::try_from("SENDGRID".to_owned(), &key)
    .expect("The Sendgrid provider is defined");
  match sendgrid {
    EmailProviders::SendGrid(provider) => assert!(provider
      .request("address", &vec!["person".to_owned()], "subject", "email")
      .is_ok()),
    EmailProviders::MailCommand(_) => panic!("Failed to load proper Email Provider SendGrid"),
  }
}

#[test]
fn provider_is_picked_by_name() {
  let env = EnvLoader::new(None);
  assert!(matches!(
    EmailProviders::try_from("  sendGrid\n".to_owned(), &env),
    Ok(EmailProviders::SendGrid(_))
  ));
  assert!(matches!(
    EmailProviders::try_from("mail_command".to_owned(), &env),
    Ok(EmailProviders::MailCommand(_))
  ));
  assert!(matches!(
    EmailProviders::try_from("MAIL_COMMAND".to_owned(), &env),
    Ok(EmailProviders::MailCommand(_))
  ));
}

#[test]
fn unknown_provider_is_not_found() {
  let env = EnvLoader::new(None);
  for name in ["", "RESEND", "SEND GRID", "MAIL-COMMAND"] {
    match EmailProviders::try_from(name.to_owned(), &env) {
      Err(message) => assert_eq!(message, "Requested client not found"),
      Ok(provider) => panic!("Unexpected provider {provider:?}"),
    }
  }
}

#[test]
fn sendgrid_is_the_default_provider() {
  let env = EnvLoader::new(None);
  assert!(matches!(
    get_email_provider(None, &env),
    Ok(EmailProviders::SendGrid(_))
  ));
  assert!(matches!(
    get_email_provider(Some("MAIL_COMMAND".to_owned()), &env),
    Ok(EmailProviders::MailCommand(_))
  ));
  assert!(get_email_provider(Some("PIGEON".to_owned()), &env).is_err());
}

#[test]
fn sendgrid_request_is_signed_with_the_key() {
  let provider = SendGrid::new(&EnvLoader::new(Some("ASD".to_owned())));
  assert_eq!(
    provider.request(
      "me@example.org",
      &vec!["you@example.org".to_owned(), "they@example.org".to_owned()],
      "Rss2Email",
      "<h1>Hi</h1>"
    ),
    Ok(SendGridRequest {
      authorization: "Bearer ASD".to_owned(),
      message: r#"{"personalizations": [{"to": [{"email": "you@example.org"},{"email": "they@example.org"}]}],"from": {"email": "me@example.org"},"subject": "Rss2Email","content": [{"type": "text/html", "value": "<h1>Hi</h1>"}]}"#.to_owned(),
    })
  );
  assert_eq!(SEND_URL, "https://api.sendgrid.com/v3/mail/send");
}

#[test]
fn addresses_are_json_objects() {
  assert_eq!(address_to_json("a@b"), r#"{"email": "a@b"}"#);
  assert_eq!(addresses_to_json(&vec![]), "");
  assert_eq!(
    addresses_to_json(&vec!["a@b".to_owned()]),
    r#"{"email": "a@b"}"#
  );
  assert_eq!(
    addresses_to_json(&vec!["a@b".to_owned(), "c@d".to_owned()]),
    r#"{"email": "a@b"},{"email": "c@d"}"#
  );
}

#[test]
fn sendgrid_needs_a_key() {
  let provider = SendGrid::new(&EnvLoader::new(None));
  assert_eq!(
    provider.request("me@example.org", &vec![], "Rss2Email", "<h1>Hi</h1>"),
    Err(EmailError::Config(
      "Cannot use SendGrid without API_KEY".to_owned()
    ))
  );
}

#[test]
fn resend_needs_a_key() {
  assert_eq!(
    Resend::new(&EnvLoader::new(None)).api_key(),
    Err(EmailError::Config(
      "Cannot use Resend without API_KEY".to_owned()
    ))
  );
  assert_eq!(
    Resend::new(&EnvLoader::new(Some("re_123".to_owned()))).api_key(),
    Ok("re_123".to_owned())
  );
}

#[test]
fn env_loader_holds_the_key() {
  assert_eq!(EnvLoader::new(None).key(), None);
  assert_eq!(
    EnvLoader::new(Some("ASD".to_owned())).key(),
    Some("ASD".to_owned())
  );
}

#[test]
fn addresses_are_joined_with_commas() {
  assert_eq!(join_addresses(&vec![]), "");
  assert_eq!(join_addresses(&vec!["a@b".to_owned()]), "a@b");
  assert_eq!(
    join_addresses(&vec!["a@b".to_owned(), "c@d".to_owned(), "e@f".to_owned()]),
    "a@b,c@d,e@f"
  );
}

#[test]
fn mail_command_mails_the_temporary_file() {
  let command = MailCommand {}.command(
    "me@example.org",
    &vec!["you@example.org".to_owned(), "they@example.org".to_owned()],
    "3 new posts",
  );
  assert_eq!(
    command,
    "mail -s \"3 new posts\" \"you@example.org,they@example.org\" -aFrom:me@example.org < /tmp/rss2-email.txt"
  );
  assert_eq!(TEMPORARY_FILE_NAME, "/tmp/rss2-email.txt");
}

#[test]
fn email_errors_show_their_cause() {
  assert_eq!(EmailError::Config("a".to_owned()).to_string(), "a");
  assert_eq!(EmailError::Request("b".to_owned()).to_string(), "b");
  assert_eq!(EmailError::Io("c".to_owned()).to_string(), "c");
  assert_eq!(EmailError::Other("d".to_owned()).to_string(), "d");
}
