//! The list of feeds to fetch, as it is written in `feeds.txt` or in the
//! `FEEDS` variable.

use crate::text::{before, chars_of, split_on, text_of, texts, trim, trimmed};
use itertools::Itertools;
use vstd::prelude::*;

verus! {

/// The character that opens a comment, which runs to the end of its line.
pub const COMMENT: char = '#';

/// The test for a character that separates two feeds.
pub open spec fn is_separator() -> spec_fn(char) -> bool {
    |c: char| c == '\n' || c == ';'
}

/// The link on one line of the list: the line without its comment and
/// without the white space around what is left.
pub open spec fn link_on(line: Seq<char>) -> Seq<char> {
    trimmed(before(line, '#'))
}

/// The test for a text that is not empty.
pub open spec fn is_filled() -> spec_fn(Seq<char>) -> bool {
    |text: Seq<char>| text.len() > 0
}

/// The links on the lines of the list, in order; lines without a link are
/// left out.
pub open spec fn links_on(lines: Seq<Seq<char>>) -> Seq<Seq<char>> {
    lines.map_values(|line: Seq<char>| link_on(line)).filter(is_filled())
}

/// `links` without the links that occurred before: of links that are the
/// same the first stays, in its place.
pub open spec fn without_repeats(links: Seq<Seq<char>>) -> Seq<Seq<char>>
    decreases links.len(),
{
    if links.len() == 0 {
        Seq::empty()
    } else if links.drop_last().contains(links.last()) {
        without_repeats(links.drop_last())
    } else {
        without_repeats(links.drop_last()).push(links.last())
    }
}

/// The feeds that a list names: one link a line, lines ending at a line
/// break or a semicolon, comments and blank lines left out, every link once.
pub open spec fn feed_links(list: Seq<char>) -> Seq<Seq<char>> {
    without_repeats(links_on(split_on(list, is_separator())))
}

/// Drops repeated links with `itertools::Itertools::unique`, which returns
/// the items that were not produced before, in the order in which they
/// occur, the first of equal items being the one retained. Trusted: the
/// result is the list without its repeats.
#[verifier::external_body]
fn unique(links: Vec<String>) -> (firsts: Vec<String>)
    ensures
        texts(firsts@) == without_repeats(texts(links@)),
{
    links.into_iter().unique().collect()
}

/// Splits the feeds on either
///
/// - `\n` for input coming from `feeds.txt`
/// - `;`  for input coming from an environment variable
pub fn feeds_splitter(c: char) -> (separates: bool)
    ensures
        separates == is_separator()(c),
{
    c == '\n' || c == ';'
}

/// The lines of the list, see [`split_on`].
pub fn split_feeds(list: &str) -> (lines: Vec<String>)
    ensures
        texts(lines@) == split_on(list@, is_separator()),
{
    let chars = chars_of(list);
    let mut lines: Vec<String> = Vec::new();
    let mut start: usize = 0;
    let mut i: usize = 0;
    proof {
        assert(chars@.take(0).len() == 0);
        assert(chars@.subrange(0, 0) == Seq::<char>::empty());
        assert(texts(lines@).push(Seq::<char>::empty()) == seq![Seq::<char>::empty()]);
    }
    while i < chars.len()
        invariant
            start <= i <= chars.len(),
            split_on(chars@.take(i as int), is_separator()) == texts(lines@).push(
                chars@.subrange(start as int, i as int),
            ),
        decreases chars.len() - i,
    {
        proof {
            assert(chars@.take(i + 1).drop_last() == chars@.take(i as int));
            assert(chars@.take(i + 1).last() == chars@[i as int]);
        }
        if feeds_splitter(chars[i]) {
            let line = text_of(&chars, start, i);
            proof {
                assert(texts(lines@.push(line)) == texts(lines@).push(line@));
                assert(chars@.subrange(i + 1, i + 1) == Seq::<char>::empty());
            }
            lines.push(line);
            start = i + 1;
        } else {
            proof {
                let so_far = texts(lines@).push(chars@.subrange(start as int, i as int));
                assert(so_far.drop_last() == texts(lines@));
                assert(chars@.subrange(start as int, i as int).push(chars@[i as int])
                    == chars@.subrange(start as int, i + 1));
            }
        }
        i += 1;
    }
    let line = text_of(&chars, start, i);
    proof {
        assert(chars@.take(i as int) == chars@);
        assert(texts(lines@.push(line)) == texts(lines@).push(line@));
    }
    lines.push(line);
    lines
}

/// The link on one line of the list, see [`link_on`].
pub fn link_of_line(line: &str) -> (link: String)
    ensures
        link@ == link_on(line@),
{
    let code = crate::text::text_before(line, COMMENT);
    trim(code.as_str())
}

/// Parses the links of the list of feeds.
///
/// Assumed one link per line. Any text between a `#` and a line end
/// is considered a comment.
pub fn read_feeds(list: &str) -> (links: Vec<String>)
    ensures
        texts(links@) == feed_links(list@),
{
    let lines = split_feeds(list);
    let ghost line_texts = texts(lines@);
    let ghost all = line_texts.map_values(|line: Seq<char>| link_on(line));
    let mut found: Vec<String> = Vec::new();
    proof {
        reveal(Seq::filter);
        assert(all.take(0).filter(is_filled()) == Seq::<Seq<char>>::empty());
    }
    for line in it: lines
        invariant
            it.seq() == lines@,
            line_texts == texts(lines@),
            all == line_texts.map_values(|line: Seq<char>| link_on(line)),
            texts(found@) == all.take(it.index()).filter(is_filled()),
    {
        let link = link_of_line(line.as_str());
        proof {
            assert(all.take(it.index() + 1) == all.take(it.index()).push(link@));
            all.take(it.index()).lemma_filter_push(link@, is_filled());
        }
        if !link.as_str().is_empty() {
            proof {
                assert(texts(found@.push(link)) == texts(found@).push(link@));
            }
            found.push(link);
        }
    }
    proof {
        assert(all.take(all.len() as int) == all);
    }
    unique(found)
}

/// Dropping repeats loses no link and keeps none twice.
pub proof fn without_repeats_is_a_set(links: Seq<Seq<char>>)
    ensures
        without_repeats(links).no_duplicates(),
        forall|link: Seq<char>| links.contains(link) <==> without_repeats(links).contains(link),
    decreases links.len(),
{
    if links.len() > 0 {
        let before = links.drop_last();
        let last = links.last();
        let kept = without_repeats(before);
        without_repeats_is_a_set(before);
        assert(links == before.push(last));
        assert forall|link: Seq<char>| links.contains(link) <==> without_repeats(links).contains(
            link,
        ) by {
            vstd::seq_lib::lemma_seq_contains_after_push(before, last, link);
            vstd::seq_lib::lemma_seq_contains_after_push(kept, last, link);
            assert(before.contains(link) <==> kept.contains(link));
        }
        if !before.contains(last) {
            assert(!kept.contains(last));
            assert forall|i: int, j: int|
                0 <= i < kept.push(last).len() && 0 <= j < kept.push(last).len() && i
                    != j implies kept.push(last)[i] != kept.push(last)[j] by {
                if i == kept.len() {
                    assert(kept.contains(kept[j]));
                } else if j == kept.len() {
                    assert(kept.contains(kept[i]));
                }
            }
        }
    }
}

/// The list of feeds names no feed twice and none that is empty, and every
/// feed it names is the link on one of its lines.
pub proof fn feed_links_are_links(list: Seq<char>)
    ensures
        feed_links(list).no_duplicates(),
        forall|i: int|
            0 <= i < feed_links(list).len() ==> (#[trigger] feed_links(list)[i]).len() > 0
                && exists|k: int|
                0 <= k < split_on(list, is_separator()).len() && link_on(
                    #[trigger] split_on(list, is_separator())[k],
                ) == feed_links(list)[i],
{
    broadcast use vstd::seq_lib::group_filter_ensures;

    let lines = split_on(list, is_separator());
    let all = lines.map_values(|line: Seq<char>| link_on(line));
    let links = links_on(lines);
    without_repeats_is_a_set(links);
    assert forall|i: int| 0 <= i < feed_links(list).len() implies (#[trigger] feed_links(
        list,
    )[i]).len() > 0 && exists|k: int|
        0 <= k < lines.len() && link_on(#[trigger] lines[k]) == feed_links(list)[i] by {
        let link = feed_links(list)[i];
        assert(feed_links(list).contains(link));
        assert(links.contains(link));
        let j = choose|j: int| 0 <= j < links.len() && links[j] == link;
        assert(is_filled()(links[j]));
        all.lemma_filter_contains_rev(is_filled(), link);
        let k = choose|k: int| 0 <= k < all.len() && all[k] == link;
        assert(link_on(lines[k]) == link);
    }
}

} // verus!
