//! Text as sequences of characters: what the readers of feed lists and of
//! responses share.

use vstd::prelude::*;

verus! {

/// Whether `c` is white space to `char::is_whitespace`, that is, whether it has
/// the Unicode property `White_Space`.
pub uninterp spec fn is_white_space(c: char) -> bool;

/// Asks `char::is_whitespace`. Trusted: the answer is a matter of the
/// character alone.
#[verifier::external_body]
fn is_whitespace(c: char) -> (white: bool)
    ensures
        white == is_white_space(c),
{
    c.is_whitespace()
}

/// `String::push` appends the character to the end of the string.
pub assume_specification[ String::push ](text: &mut String, c: char)
    ensures
        final(text)@ == old(text)@.push(c),
;

/// The test for the character `c`.
pub open spec fn is_char(c: char) -> spec_fn(char) -> bool {
    |x: char| x == c
}

/// The test for a character that is not white space.
pub open spec fn is_ink() -> spec_fn(char) -> bool {
    |x: char| !is_white_space(x)
}

/// The number of characters of `text` before the first that meets `stop`; the
/// length of `text` if none does.
pub open spec fn run_before(text: Seq<char>, stop: spec_fn(char) -> bool) -> nat
    decreases text.len(),
{
    if text.len() == 0 || stop(text[0]) {
        0
    } else {
        1 + run_before(text.drop_first(), stop)
    }
}

/// `text` up to its first character `c`, which is left out; all of `text` if
/// `c` does not occur.
pub open spec fn before(text: Seq<char>, c: char) -> Seq<char> {
    text.take(run_before(text, is_char(c)) as int)
}

/// `text` without the white space at its start and at its end.
pub open spec fn trimmed(text: Seq<char>) -> Seq<char> {
    let start = run_before(text, is_ink());
    if start == text.len() {
        Seq::empty()
    } else {
        text.subrange(start as int, text.len() - run_before(text.reverse(), is_ink()))
    }
}

/// The pieces into which the characters that meet `separates` cut `text`:
/// one more than there are such characters, in order, empty ones among them.
pub open spec fn split_on(text: Seq<char>, separates: spec_fn(char) -> bool) -> Seq<Seq<char>>
    decreases text.len(),
{
    if text.len() == 0 {
        seq![Seq::empty()]
    } else {
        let before = split_on(text.drop_last(), separates);
        if separates(text.last()) {
            before.push(Seq::empty())
        } else {
            before.drop_last().push(before.last().push(text.last()))
        }
    }
}

/// The characters of each of `texts`.
pub open spec fn texts(texts: Seq<String>) -> Seq<Seq<char>> {
    texts.map_values(|t: String| t@)
}

/// A run is known by its end: `n` characters that do not meet `stop`, and
/// then the end of the text or one that does.
pub proof fn run_before_is(text: Seq<char>, stop: spec_fn(char) -> bool, n: int)
    requires
        0 <= n <= text.len(),
        forall|k: int| 0 <= k < n ==> !stop(#[trigger] text[k]),
        n == text.len() || stop(text[n]),
    ensures
        run_before(text, stop) == n,
    decreases n,
{
    if n > 0 {
        let rest = text.drop_first();
        assert forall|k: int| 0 <= k < n - 1 implies !stop(#[trigger] rest[k]) by {
            assert(rest[k] == text[k + 1]);
        }
        run_before_is(rest, stop, n - 1);
    }
}

/// A run ends within the text, no character of it meets `stop`, and the
/// character after it, if there is one, does.
pub proof fn run_before_ends(text: Seq<char>, stop: spec_fn(char) -> bool)
    ensures
        run_before(text, stop) <= text.len(),
        forall|k: int| 0 <= k < run_before(text, stop) ==> !stop(#[trigger] text[k]),
        run_before(text, stop) < text.len() ==> stop(text[run_before(text, stop) as int]),
    decreases text.len(),
{
    if !(text.len() == 0 || stop(text[0])) {
        let rest = text.drop_first();
        run_before_ends(rest, stop);
        assert forall|k: int| 0 <= k < run_before(text, stop) implies !stop(#[trigger] text[k]) by {
            if k > 0 {
                assert(text[k] == rest[k - 1]);
            }
        }
    }
}

/// No piece of a split holds a character that separates, and there is one
/// piece more than there are such characters.
pub proof fn split_on_is_a_split(text: Seq<char>, separates: spec_fn(char) -> bool)
    ensures
        split_on(text, separates).len() == text.filter(separates).len() + 1,
        forall|i: int, k: int|
            0 <= i < split_on(text, separates).len() && 0 <= k < split_on(text, separates)[i].len()
                ==> !separates(#[trigger] split_on(text, separates)[i][k]),
    decreases text.len(),
{
    reveal(Seq::filter);
    if text.len() > 0 {
        let before = split_on(text.drop_last(), separates);
        split_on_is_a_split(text.drop_last(), separates);
        assert forall|i: int, k: int|
            0 <= i < split_on(text, separates).len() && 0 <= k < split_on(
                text,
                separates,
            )[i].len() implies !separates(#[trigger] split_on(text, separates)[i][k]) by {
            if i < before.len() - 1 {
                assert(split_on(text, separates)[i] == before[i]);
            } else if !separates(text.last()) {
                if k < before.last().len() {
                    assert(split_on(text, separates)[i][k] == before[before.len() - 1][k]);
                }
            } else if i < before.len() {
                assert(split_on(text, separates)[i] == before[i]);
            }
        }
    }
}

/// What trimming leaves neither starts nor ends with white space, and what
/// it takes away is white space only.
pub proof fn trimmed_is_tight(text: Seq<char>)
    ensures
        trimmed(text).len() > 0 ==> !is_white_space(trimmed(text).first()) && !is_white_space(
            trimmed(text).last(),
        ),
        exists|start: int, end: int|
            0 <= start <= end <= text.len() && trimmed(text) == text.subrange(start, end) && (
            forall|k: int|
                0 <= k < text.len() && !(start <= k < end) ==> is_white_space(#[trigger] text[k])),
{
    let back = text.reverse();
    run_before_ends(text, is_ink());
    run_before_ends(back, is_ink());
    let start = run_before(text, is_ink()) as int;
    let cut = run_before(back, is_ink()) as int;
    if start == text.len() {
        assert(trimmed(text) == text.subrange(start, start));
    } else {
        assert(back[text.len() - 1 - start] == text[start]);
        assert(cut <= text.len() - 1 - start);
        let end = text.len() - cut;
        assert(back[cut] == text[end - 1]);
        assert forall|k: int| 0 <= k < text.len() && !(start <= k < end) implies is_white_space(
            #[trigger] text[k],
        ) by {
            if k >= end {
                assert(back[text.len() - 1 - k] == text[k]);
            }
        }
        assert(trimmed(text) == text.subrange(start, end));
    }
}

/// Whether two texts hold the same characters.
pub fn same_text(left: &str, right: &str) -> (same: bool)
    ensures
        same == (left@ == right@),
{
    left.to_owned() == right.to_owned()
}

/// The characters of `text`, in order.
pub fn chars_of(text: &str) -> (chars: Vec<char>)
    ensures
        chars@ == text@,
{
    let mut chars: Vec<char> = Vec::new();
    for c in it: text.chars()
        invariant
            it.seq() == text@,
            chars@ == text@.take(it.index()),
    {
        chars.push(c);
    }
    chars
}

/// The text made of the characters of `chars` from `from` up to `to`.
pub fn text_of(chars: &Vec<char>, from: usize, to: usize) -> (text: String)
    requires
        from <= to <= chars.len(),
    ensures
        text@ == chars@.subrange(from as int, to as int),
{
    let mut text = String::new();
    let mut i: usize = from;
    while i < to
        invariant
            from <= i <= to <= chars.len(),
            text@ == chars@.subrange(from as int, i as int),
        decreases to - i,
    {
        text.push(chars[i]);
        i += 1;
    }
    text
}

/// `text` up to its first character `c`, see [`before`].
pub fn text_before(text: &str, c: char) -> (start: String)
    ensures
        start@ == before(text@, c),
{
    let chars = chars_of(text);
    let mut i: usize = 0;
    while i < chars.len() && chars[i] != c
        invariant
            i <= chars.len(),
            forall|k: int| 0 <= k < i ==> !is_char(c)(#[trigger] chars@[k]),
        decreases chars.len() - i,
    {
        i += 1;
    }
    proof {
        run_before_is(chars@, is_char(c), i as int);
    }
    text_of(&chars, 0, i)
}

/// `text` without the white space at its start and at its end, see
/// [`trimmed`].
pub fn trim(text: &str) -> (inner: String)
    ensures
        inner@ == trimmed(text@),
{
    let chars = chars_of(text);
    let mut start: usize = 0;
    while start < chars.len() && is_whitespace(chars[start])
        invariant
            start <= chars.len(),
            forall|k: int| 0 <= k < start ==> !is_ink()(#[trigger] chars@[k]),
        decreases chars.len() - start,
    {
        start += 1;
    }
    proof {
        run_before_is(chars@, is_ink(), start as int);
    }
    if start == chars.len() {
        return String::new();
    }
    let mut end: usize = chars.len();
    while end > start + 1 && is_whitespace(chars[end - 1])
        invariant
            start < end <= chars.len(),
            !is_white_space(chars@[start as int]),
            forall|k: int| end <= k < chars.len() ==> !is_ink()(#[trigger] chars@[k]),
        decreases end,
    {
        end -= 1;
    }
    proof {
        let back = chars@.reverse();
        let cut = chars.len() - end;
        assert forall|k: int| 0 <= k < cut implies !is_ink()(#[trigger] back[k]) by {
            assert(back[k] == chars@[chars.len() - 1 - k]);
        }
        assert(back[cut] == chars@[end - 1]);
        run_before_is(back, is_ink(), cut);
    }
    text_of(&chars, start, end)
}

} // verus!
