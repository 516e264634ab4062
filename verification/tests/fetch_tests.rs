use rss2email::fetch::{
  check_content_type, feed_warning, is_supported_content, page_content, ContentType, ACCEPT,
  USER_AGENT,
};
use rss2email::Error;

#[test]
fn feeds_and_html_are_supported_content() {
  assert!(is_supported_content("application/xml"));
  assert!(is_supported_content("text/xml"));
  assert!(is_supported_content("application/rss+xml"));
  assert!(is_supported_content("application/atom+xml"));
  assert!(is_supported_content("text/html"));
}

#[test]
fn other_content_is_not_supported() {
  assert!(!is_supported_content("text/plain"));
  assert!(!is_supported_content("image/jpeg"));
  assert!(!is_supported_content(""));
  assert!(!is_supported_content("text/xml; charset=utf-8"));
  assert!(!is_supported_content("TEXT/XML"));
  assert!(!is_supported_content(" text/xml"));
}

#[test]
fn charset_has_no_part_in_the_content_type() {
  let header = ContentType::Value("application/rss+xml; charset=UTF-8".to_owned());
  assert_eq!(check_content_type("https://a.b/feed", &header), Ok(()));
  let bare = ContentType::Value("text/html".to_owned());
  assert_eq!(check_content_type("https://a.b/feed", &bare), Ok(()));
}

#[test]
fn test_download_with_text() {
  // Text should not be confused with xml
  let url = "https://raw.githubusercontent.com/AntoniosBarotsis/Rss2Email/cc5b2bee846f9dab8f5787dfcb9a01d963321630/README.md";
  let header = ContentType::Value("text/plain; charset=utf-8".to_owned());
  let payload = check_content_type(url, &header);
  assert!(payload.is_err());
  let error = payload.expect_err("Should error");
  if let Error::Generic(message) = error {
    assert!(message.contains("Invalid content"));
    assert!(message.contains(url));
    assert_eq!(message, format!("Invalid content text/plain for {url}"));
  } else {
    panic!("Unexpected error {error:?}");
  }
}

#[test]
fn test_download_with_an_image() {
  let url = "https://github.com/AntoniosBarotsis/Rss2Email/raw/cc5b2bee846f9dab8f5787dfcb9a01d963321630/assets/res.jpg";
  let header = ContentType::Value("image/jpeg".to_owned());
  let payload = check_content_type(url, &header);
  assert!(payload.is_err());
  let error = payload.expect_err("Should error");
  if let Error::Generic(message) = error {
    assert!(message.contains("Invalid content"));
    assert!(message.contains(url));
  } else {
    panic!("Unexpected error {error:?}");
  }
}

#[test]
fn response_without_content_type_is_refused() {
  assert_eq!(
    check_content_type("https://a.b/feed", &ContentType::Missing),
    Err(Error::Generic(
      "No content type header found on request.".to_owned()
    ))
  );
  assert_eq!(
    check_content_type("https://a.b/feed", &ContentType::Unreadable),
    Err(Error::Generic("Content Type parsing error".to_owned()))
  );
}

#[test]
fn body_of_a_success_is_trimmed() {
  assert_eq!(
    page_content(true, Ok("\n  <?xml version=\"1.0\"?><rss></rss>\n\n".to_owned())),
    Ok("<?xml version=\"1.0\"?><rss></rss>".to_owned())
  );
}

#[test]
fn body_of_a_failure_is_the_error() {
  assert_eq!(
    page_content(false, Ok(" Not Found ".to_owned())),
    Err(Error::Generic(" Not Found ".to_owned()))
  );
}

#[test]
fn body_that_cannot_be_read_is_an_error() {
  assert_eq!(
    page_content(true, Err("connection reset".to_owned())),
    Err(Error::Generic("Body decode error".to_owned()))
  );
  assert_eq!(
    page_content(false, Err("connection reset".to_owned())),
    Err(Error::Reqwest("connection reset".to_owned()))
  );
}

#[test]
fn errors_show_their_cause() {
  assert_eq!(Error::Reqwest("a".to_owned()).to_string(), "a");
  assert_eq!(Error::HeaderString("b".to_owned()).to_string(), "b");
  assert_eq!(Error::Io("c".to_owned()).to_string(), "c");
  assert_eq!(Error::Generic("d".to_owned()).to_string(), "d");
  assert_eq!(Error::generic("e"), Error::Generic("e".to_owned()));
}

#[test]
fn dropped_feed_is_reported_with_its_link() {
  assert_eq!(
    feed_warning("https://a.b/feed", "Body decode error"),
    "Error in https://a.b/feed\nBody decode error"
  );
}

#[test]
fn requests_ask_for_feeds() {
  assert_eq!(
    ACCEPT,
    "application/xml, text/xml, application/rss+xml, application/atom+xml"
  );
  assert_eq!(USER_AGENT, "Rss2Email");
}
