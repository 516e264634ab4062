//! Normalises RSS 2.0 and Atom 1.0 feeds into one canonical model of blogs and
//! posts, and keeps what was published recently.

pub mod blog;
pub mod download;
pub mod email;
pub mod error;
pub mod feeds;
pub mod fetch;
pub mod html;
pub mod text;
pub mod time;
pub mod timing;
pub mod xml;

pub use blog::{Blog, Post};
pub use download::download_blogs;
pub use error::Error;
pub use feeds::read_feeds;
pub use html::{html_title, map_to_html};
pub use time::UtcInstant;
pub use timing::time_func;
