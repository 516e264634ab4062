use chrono::{DateTime, Utc};
use rss2email::xml::atom::{AtomFeed, AtomPost, Link};
use rss2email::xml::error::ParserError;
use rss2email::xml::parse_web_feed;
use rss2email::xml::rss::{Channel, RssFeed, RssPost};
use rss2email::{Blog, Post, UtcInstant};

/// A feed document as it is read in both formats.
type Document = (Result<RssFeed, String>, Result<AtomFeed, String>);

fn post_date(value: &str) -> UtcInstant {
  let date = value
    .parse::<DateTime<Utc>>()
    .unwrap_or_else(|_| panic!("Invalid date {}", value));
  UtcInstant::new(date.timestamp(), date.timestamp_subsec_nanos())
}

fn text(value: &str) -> Option<String> {
  Some(value.to_owned())
}

fn item(
  title: Option<&str>,
  link: Option<&str>,
  description: Option<&str>,
  pub_date: Option<&str>,
) -> RssPost {
  RssPost {
    title: title.map(str::to_owned),
    link: link.map(str::to_owned),
    description: description.map(str::to_owned),
    pub_date: pub_date.map(str::to_owned),
  }
}

fn entry(title: &str, links: &[&str], summary: Option<&str>, updated: &str) -> AtomPost {
  AtomPost {
    title: title.to_owned(),
    links: links
      .iter()
      .map(|href| Link {
        href: (*href).to_owned(),
      })
      .collect(),
    summary: summary.map(str::to_owned),
    published: None,
    updated: updated.to_owned(),
  }
}

const STAR_CITY: &str = "How do Americans get ready to work with Russians aboard the International Space Station? They take a crash course in culture, language and protocol at Russia's <a href=\"http://howe.iki.rssi.ru/GCTC/gctc_e.htm\">Star City</a>.";
const SKY_WATCHERS: &str = "Sky watchers in Europe, Asia, and parts of Alaska and Canada will experience a <a href=\"http://science.nasa.gov/headlines/y2003/30may_solareclipse.htm\">partial eclipse of the Sun</a> on Saturday, May 31st.";
const ENGINE: &str = "Before man travels to Mars, NASA hopes to design new engines that will let us fly through the Solar System more quickly.  The proposed VASIMR engine would do that.";
const LAUNDRY: &str = "Compared to earlier spacecraft, the International Space Station has many luxuries, but laundry facilities are not one of them.  Instead, astronauts have other options.";
const HTML_DETAILS: &str =
  "How did it work? <i>Details</i> <a href=\"http://liftoff.msfc.nasa.gov\">here</a>";
const LONG_DESCRIPTION: &str = "How do Americans get ready to work with Russians aboard the International Space Station? They take a crash course in culture, language and protocol at Russia's Star City.";
const JUNE_3: Option<&str> = Some("Tue, 03 Jun 2003 09:39:21 GMT");

fn liftoff(items: Vec<RssPost>) -> Channel {
  Channel {
    title: "Liftoff News".to_owned(),
    last_build_date: text("Tue, 10 Jun 2003 09:41:01 GMT"),
    pub_date: text("Tue, 10 Jun 2003 04:00:00 GMT"),
    items: Some(items),
  }
}

/// The documents under `test-data/rss-feeds`, as they deserialize: an RSS
/// document is a feed when read as RSS and lacks the title of a feed when
/// read as Atom.
fn read_rss(file_name: &str) -> Document {
  let channel = match file_name {
    "self-rss.xml" => Channel {
      title: "Antonios Barotsis".to_owned(),
      last_build_date: text("Sun, 16 Oct 2022 00:00:00 +0000"),
      pub_date: None,
      items: Some(vec![
        item(
          Some("Rss2Email"),
          Some("https://antoniosbarotsis.github.io/posts/rss2email/"),
          Some("Creating a web feed reader that sends emails"),
          Some("Sun, 16 Oct 2022 00:00:00 +0000"),
        ),
        item(
          Some("Hello World"),
          Some("https://antoniosbarotsis.github.io/posts/hello_world/"),
          Some("The first post"),
          Some("Sat, 01 Oct 2022 00:00:00 +0000"),
        ),
      ]),
    },
    "sample-0_91.xml" => Channel {
      title: "WriteTheWeb".to_owned(),
      last_build_date: None,
      pub_date: None,
      items: Some(vec![
        item(
          Some("Giving the world a pluggable Gnutella"),
          Some("http://writetheweb.com/read.php?item=24"),
          Some("WorldOS is a framework on which to build programs that work like Freenet or Gnutella -allowing distributed applications using peer-to-peer routing."),
          None,
        ),
        item(
          Some("Syndication discussions hot up"),
          Some("http://writetheweb.com/read.php?item=23"),
          Some("After a period of dormancy, the Syndication mailing list has become active again, with contributions from leaders in traditional media and Web syndication."),
          None,
        ),
      ]),
    },
    "sample-0_92.xml" => Channel {
      title: "Dave Winer: Grateful Dead".to_owned(),
      last_build_date: text("Fri, 13 Apr 2001 19:23:02 GMT"),
      pub_date: None,
      items: Some(vec![
        item(
          None,
          None,
          Some("It's been a few days since I added a song to the Grateful Dead channel. Now that there are all these new Radio users, many of whom are tuned into this channel (it's #16 on the hotlist of upstreaming Radio users, there's no way of knowing how many non-upstreaming users are subscribing, have to do something about this..). Anyway, tonight's song is a live version of Weather Report Suite from Dick's Picks Volume 7. It's wistful music. Of course a beautiful song, oft-quoted here on Scripting News. <i>A little change, the wind and rain.</i>"),
          None,
        ),
        item(
          None,
          None,
          Some("Kevin Drennan started a <a href=\"http://deadend.editthispage.com/\">Grateful Dead Weblog</a>. Hey it's cool, he even has a <a href=\"http://deadend.editthispage.com/directory/61\">directory</a>. <i>A Frontier 7 feature.</i>"),
          None,
        ),
      ]),
    },
    "sample-2.xml" => liftoff(vec![
      item(
        Some("Star City"),
        Some("http://liftoff.msfc.nasa.gov/news/2003/news-starcity.asp"),
        Some(STAR_CITY),
        JUNE_3,
      ),
      item(
        None,
        None,
        Some(SKY_WATCHERS),
        Some("Fri, 30 May 2003 11:06:42 GMT"),
      ),
      item(
        Some("The Engine That Does More"),
        Some("http://liftoff.msfc.nasa.gov/news/2003/news-VASIMR.asp"),
        Some(ENGINE),
        Some("Tue, 27 May 2003 08:37:32 GMT"),
      ),
      item(
        Some("Astronauts' Dirty Laundry"),
        Some("http://liftoff.msfc.nasa.gov/news/2003/news-laundry.asp"),
        Some(LAUNDRY),
        Some("Tue, 20 May 2003 08:56:02 GMT"),
      ),
    ]),
    "v2-with-html.xml" => liftoff(vec![item(
      Some("<b>Star</b> City"),
      Some("http://liftoff.msfc.nasa.gov/news/2003/news-starcity.asp"),
      Some(HTML_DETAILS),
      JUNE_3,
    )]),
    "v2-without-items.xml" => Channel {
      title: "NoNews".to_owned(),
      last_build_date: text("Tue, 10 Jun 2003 09:41:01 GMT"),
      pub_date: text("Tue, 10 Jun 2003 04:00:00 GMT"),
      items: None,
    },
    "v2-without-link.xml" => liftoff(vec![
      item(Some("Star City"), Some("http://abc.com"), None, JUNE_3),
      item(Some("Moon City"), None, Some("abc"), JUNE_3),
      item(Some("Planet City"), Some("http://def.com"), Some("def"), JUNE_3),
    ]),
    "v2-without-title-short-desc.xml" => liftoff(vec![item(
      None,
      Some("http://liftoff.msfc.nasa.gov"),
      Some("Liftoff at Star City"),
      JUNE_3,
    )]),
    "v2-without-title-long-desc.xml" => liftoff(vec![item(
      None,
      Some("http://liftoff.msfc.nasa.gov"),
      Some(LONG_DESCRIPTION),
      JUNE_3,
    )]),
    _ => panic!("Cannot read feed {file_name}"),
  };
  (
    Ok(RssFeed { channel }),
    Err("missing field `title`".to_owned()),
  )
}

/// The documents under `test-data/atom-feeds`, as they deserialize: an Atom
/// document is a feed when read as Atom and lacks the channel of a feed when
/// read as RSS.
fn read_atom(file_name: &str) -> Document {
  let feed = match file_name {
    "brief-single-entry.xml" => AtomFeed {
      title: "Example Feed".to_owned(),
      entries: vec![entry(
        "Atom-Powered Robots Run Amok",
        &["http://example.org/2003/12/13/atom03"],
        Some("Some text."),
        "2003-12-13T18:30:02Z",
      )],
    },
    "complex-single-entry.xml" => AtomFeed {
      title: "dive into mark".to_owned(),
      entries: vec![entry(
        "Atom draft-07 snapshot",
        &[
          "http://example.org/2005/04/02/atom",
          "http://example.org/audio/ph34r_my_podcast.mp3",
        ],
        None,
        "2005-07-31T12:29:29Z",
      )],
    },
    "no-entries.xml" => AtomFeed {
      title: "Example Feed".to_owned(),
      entries: vec![],
    },
    "multi-entries.xml" => AtomFeed {
      title: "Multi-Entries Feed".to_owned(),
      entries: vec![
        entry(
          "First title",
          &["http://awesome.com/link1.html"],
          Some("First content"),
          "2022-09-18T21:00:00Z",
        ),
        entry(
          "Second title",
          &["http://com.net/why-not.html"],
          None,
          "2022-10-21T21:10:00Z",
        ),
      ],
    },
    "entry-with-html.xml" => AtomFeed {
      title: "Multi-Entries Feed".to_owned(),
      entries: vec![entry(
        "<b>Star</b> City",
        &["http://link.com"],
        Some(HTML_DETAILS),
        "2022-09-18T21:00:00Z",
      )],
    },
    _ => panic!("Cannot read feed {file_name}"),
  };
  (Err("missing field `channel`".to_owned()), Ok(feed))
}

#[test]
fn test_parse_brief_single_entry_atom() {
  let (rss, atom) = read_atom("brief-single-entry.xml");
  let blog = parse_web_feed(rss, atom).expect("Parsed content");

  assert_eq!(
    blog,
    Blog {
      title: "Example Feed".into(),
      most_recent_pub_date: post_date("2003-12-13T18:30:02+00:00"),
      posts: vec![Post {
        title: "Atom-Powered Robots Run Amok".into(),
        link: "http://example.org/2003/12/13/atom03".into(),
        description: Some("Some text.".into()),
        pub_date: post_date("2003-12-13T18:30:02+00:00"),
      }],
    }
  );
}

#[test]
fn test_parse_complex_single_entry_atom() {
  let (rss, atom) = read_atom("complex-single-entry.xml");
  let blog = parse_web_feed(rss, atom).expect("Parsed content");

  // The chosen link is the .../2005/04/02/atom because it is the first in the list
  assert_eq!(
    blog,
    Blog {
      title: "dive into mark".into(),
      most_recent_pub_date: post_date("2005-07-31T12:29:29+00:00"),
      posts: vec![Post {
        title: "Atom draft-07 snapshot".into(),
        link: "http://example.org/2005/04/02/atom".into(),
        description: None,
        pub_date: post_date("2005-07-31T12:29:29+00:00"),
      }],
    }
  );
}

#[test]
fn test_parse_atom_without_entry() {
  let (rss, atom) = read_atom("no-entries.xml");
  let result = parse_web_feed(rss, atom);
  assert!(result.is_err());

  let is_empty_feed_error = match result.expect_err("Should error") {
    ParserError::Parse(p) => p.contains("Empty feed"),
    ParserError::Date(_) => false,
  };

  assert!(is_empty_feed_error);
}

#[test]
fn test_parse_atom_with_many_entries() {
  let (rss, atom) = read_atom("multi-entries.xml");
  let blog = parse_web_feed(rss, atom).expect("Parsed content");

  let first_date = post_date("2022-09-18T21:00:00+00:00");
  let second_date = post_date("2022-10-21T21:10:00+00:00");
  assert_eq!(
    blog,
    Blog {
      title: "Multi-Entries Feed".into(),
      most_recent_pub_date: second_date,
      posts: vec![
        Post {
          title: "First title".into(),
          link: "http://awesome.com/link1.html".into(),
          description: Some("First content".into()),
          pub_date: first_date,
        },
        Post {
          title: "Second title".into(),
          link: "http://com.net/why-not.html".into(),
          description: None,
          pub_date: second_date,
        }
      ],
    }
  );
}

#[test]
fn test_parse_atom_text_with_html_tags() {
  let (rss, atom) = read_atom("entry-with-html.xml");
  let blog = parse_web_feed(rss, atom).expect("Parsed content");

  let date = post_date("2022-09-18T21:00:00+00:00");
  assert_eq!(
    blog,
    Blog {
      title: "Multi-Entries Feed".into(),
      most_recent_pub_date: date,
      posts: vec![Post {
        title: "<b>Star</b> City".into(),
        link: "http://link.com".into(),
        description: Some(
          "How did it work? <i>Details</i> <a href=\"http://liftoff.msfc.nasa.gov\">here</a>"
            .into()
        ),
        pub_date: date,
      }],
    }
  );
}

// Ignored:
// - multiple feeds in a single document

#[test]
fn test_parse_rss_data() {
  let (rss, atom) = read_rss("self-rss.xml");
  let _blog = parse_web_feed(rss, atom).expect("Parsed content");
}

#[test]
fn test_parse_rss_0_91() {
  let (rss, atom) = read_rss("sample-0_91.xml");
  let result = parse_web_feed(rss, atom);
  assert!(result.is_err());
}

#[test]
fn test_parse_rss_0_92() {
  let (rss, atom) = read_rss("sample-0_92.xml");
  let result = parse_web_feed(rss, atom);
  assert!(result.is_err());
}

#[test]
fn test_parse_rss_2() {
  let (rss, atom) = read_rss("sample-2.xml");
  let blog = parse_web_feed(rss, atom).expect("Parsed content");
  assert_eq!(
    blog,
    Blog {
      title: "Liftoff News".into(),
      most_recent_pub_date: post_date("2003-06-10T04:00:00+00:00"),
      posts: vec![Post {
        title: "Star City".into(),
        link:"http://liftoff.msfc.nasa.gov/news/2003/news-starcity.asp".into(),
        description: Some("How do Americans get ready to work with Russians aboard the International Space Station? They take a crash course in culture, language and protocol at Russia's <a href=\"http://howe.iki.rssi.ru/GCTC/gctc_e.htm\">Star City</a>.".into()),
        pub_date: post_date("2003-06-03T09:39:21+00:00"),
      },
      // Sky watchers post ignored as not containing link
       Post {
        title: "The Engine That Does More".into(),
        link:"http://liftoff.msfc.nasa.gov/news/2003/news-VASIMR.asp".into(),
        description: Some("Before man travels to Mars, NASA hopes to design new engines that will let us fly through the Solar System more quickly.  The proposed VASIMR engine would do that.".into()),
        pub_date: post_date("2003-05-27T08:37:32+00:00"),
      },
       Post {
        title: "Astronauts' Dirty Laundry".into(),
        link:"http://liftoff.msfc.nasa.gov/news/2003/news-laundry.asp".into(),
        description: Some("Compared to earlier spacecraft, the International Space Station has many luxuries, but laundry facilities are not one of them.  Instead, astronauts have other options.".into()),
        pub_date: post_date("2003-05-20T08:56:02+00:00"),
      }],
    });
}

#[test]
fn test_parse_rss_text_with_html_tags() {
  let (rss, atom) = read_rss("v2-with-html.xml");
  let blog = parse_web_feed(rss, atom).expect("Parsed content");
  assert_eq!(
    blog,
    Blog {
      title: "Liftoff News".into(),
      most_recent_pub_date: post_date("2003-06-10T04:00:00+00:00"),
      posts: vec![Post {
        title: "<b>Star</b> City".into(),
        link: "http://liftoff.msfc.nasa.gov/news/2003/news-starcity.asp".into(),
        description: Some(
          "How did it work? <i>Details</i> <a href=\"http://liftoff.msfc.nasa.gov\">here</a>"
            .into()
        ),
        pub_date: post_date("2003-06-03T09:39:21+00:00"),
      }],
    }
  );
}

#[test]
fn test_parse_rss_without_items() {
  let (rss, atom) = read_rss("v2-without-items.xml");
  let blog = parse_web_feed(rss, atom).expect("Parsed content");
  assert_eq!(
    blog,
    Blog {
      title: "NoNews".into(),
      most_recent_pub_date: post_date("2003-06-10T04:00:00+00:00"),
      posts: vec![]
    }
  );
}

/// Tests that entries without links are correctly ignored
/// Not having a link means that there is no place to redirect to to read the story
#[test]
fn test_parse_rss_entry_without_link() {
  let (rss, atom) = read_rss("v2-without-link.xml");
  let blog = parse_web_feed(rss, atom).expect("Parsed content");
  assert_eq!(
    blog,
    Blog {
      title: "Liftoff News".into(),
      most_recent_pub_date: post_date("2003-06-10T04:00:00+00:00"),
      posts: vec![
        Post {
          title: "Star City".into(),
          link: "http://abc.com".into(),
          description: None,
          pub_date: post_date("2003-06-03T09:39:21+00:00"),
        },
        Post {
          title: "Planet City".into(),
          link: "http://def.com".into(),
          description: Some("def".into()),
          pub_date: post_date("2003-06-03T09:39:21+00:00"),
        }
      ],
    }
  );
}

#[test]
fn test_parse_rss_entry_without_title_and_short_description() {
  let (rss, atom) = read_rss("v2-without-title-short-desc.xml");
  let blog = parse_web_feed(rss, atom).expect("Parsed content");
  assert_eq!(
    blog,
    Blog {
      title: "Liftoff News".into(),
      most_recent_pub_date: post_date("2003-06-10T04:00:00+00:00"),
      posts: vec![Post {
        title: "Liftoff at Star City".into(),
        link: "http://liftoff.msfc.nasa.gov".into(),
        description: None,
        pub_date: post_date("2003-06-03T09:39:21+00:00"),
      }],
    }
  );
}

#[test]
fn test_parse_rss_entry_without_title_and_long_description() {
  let (rss, atom) = read_rss("v2-without-title-long-desc.xml");
  let blog = parse_web_feed(rss, atom).expect("Parsed content");
  assert_eq!(
    blog,
    Blog {
      title: "Liftoff News".into(),
      most_recent_pub_date: post_date("2003-06-10T04:00:00+00:00"),
      posts: vec![Post {
        title: "How do Americans get ready to work with Russians a...".into(),
        link: "http://liftoff.msfc.nasa.gov".into(),
        description: Some(
          "How do Americans get ready to work with Russians aboard the International Space Station? They take a crash course in culture, language and protocol at Russia's Star City."
            .into()
        ),
        pub_date: post_date("2003-06-03T09:39:21+00:00"),
      }],
    }
  );
}
