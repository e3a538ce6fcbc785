//! The code fences that a model may put around its answer.
//!
//! An opening fence is three backticks and the tag that follows them
//! directly, if any: `json`, `javascript`, or none. A closing fence is three
//! backticks. [`unfenced`] says what is left of a completion without them,
//! and [`strip_code_fences`] computes it.

use crate::text::{
    chars_of, drop_suffixes, drop_whitespace, is_whitespace, lemma_trim_ignores_trailing_whitespace,
    lemma_trim_keeps_bare_text, matches_at, skip_whitespace, strip_suffixes, trim, trim_start,
};
use vstd::prelude::*;

verus! {

/// A character of a fence's tag: an ASCII letter or digit.
pub open spec fn is_tag_char(c: char) -> bool {
    let code = c as u32;
    ||| 0x30 <= code <= 0x39
    ||| 0x41 <= code <= 0x5A
    ||| 0x61 <= code <= 0x7A
}

/// `s` without the tag it starts with: the longest run of tag characters.
pub open spec fn without_tag(s: Seq<char>) -> Seq<char>
    decreases s.len(),
{
    if s.len() > 0 && is_tag_char(s[0]) {
        without_tag(s.drop_first())
    } else {
        s
    }
}

/// `s` without the opening fences it starts with: as long as three backticks
/// stand in front, they are taken off together with their tag.
pub open spec fn without_opening_fences(s: Seq<char>) -> Seq<char>
    decreases s.len(),
    via without_opening_fences_ends
{
    if "```"@.is_prefix_of(s) {
        without_opening_fences(without_tag(s.skip(3)))
    } else {
        s
    }
}

#[via_fn]
proof fn without_opening_fences_ends(s: Seq<char>) {
    reveal_strlit("```");
    if "```"@.is_prefix_of(s) {
        lemma_without_tag_shrinks(s.skip(3));
    }
}

/// A completion without its wrapping: the white space around it is dropped,
/// then every opening fence in front of it, with its tag, then every closing
/// fence behind it, then the white space inside the fences.
pub open spec fn unfenced(completion: Seq<char>) -> Seq<char> {
    trim(strip_suffixes(without_opening_fences(trim(completion)), "```"@))
}

/// Taking a tag off takes nothing but from the start.
pub proof fn lemma_without_tag_shrinks(s: Seq<char>)
    ensures
        without_tag(s).len() <= s.len(),
    decreases s.len(),
{
    if s.len() > 0 && is_tag_char(s[0]) {
        lemma_without_tag_shrinks(s.drop_first());
    }
}

/// A tag is taken off whole, and nothing with it: where `tag` is made of tag
/// characters and `rest` does not start with one, `rest` is what is left of
/// the two together.
pub proof fn lemma_without_tag_leaves_rest(tag: Seq<char>, rest: Seq<char>)
    requires
        forall|i: int| 0 <= i < tag.len() ==> is_tag_char(#[trigger] tag[i]),
        rest.len() == 0 || !is_tag_char(rest[0]),
    ensures
        without_tag(tag + rest) == rest,
    decreases tag.len(),
{
    if tag.len() == 0 {
        assert(tag + rest =~= rest);
    } else {
        assert((tag + rest)[0] == tag[0]);
        assert((tag + rest).drop_first() =~= tag.drop_first() + rest);
        assert forall|i: int| 0 <= i < tag.drop_first().len() implies is_tag_char(
            #[trigger] tag.drop_first()[i],
        ) by {
            assert(tag.drop_first()[i] == tag[i + 1]);
        }
        lemma_without_tag_leaves_rest(tag.drop_first(), rest);
    }
}

/// A fence does no harm to what it wraps, whatever its tag. Where a text
/// stands on a line of its own between an opening fence, with a tag or
/// without, and a closing fence, taking the wrapping off leaves the text,
/// trimmed: character for character what is left of the text when it comes
/// without fences.
pub proof fn lemma_fenced_text_is_unwrapped(tag: Seq<char>, text: Seq<char>)
    requires
        forall|i: int| 0 <= i < tag.len() ==> is_tag_char(#[trigger] tag[i]),
    ensures
        unfenced("```"@ + tag + "\n"@ + text + "\n```"@) == trim(text),
{
    reveal_strlit("```");
    reveal_strlit("\n");
    reveal_strlit("\n```");
    let fence = "```"@;
    let wrapped = "```"@ + tag + "\n"@ + text + "\n```"@;
    let opened = "\n"@ + text + "\n```"@;
    let n = text.len() as int;
    assert(wrapped.len() == tag.len() + n + 8);
    assert(wrapped[0] == '`');
    assert(wrapped.last() == '`');
    lemma_trim_keeps_bare_text(wrapped);
    assert(trim(wrapped) == wrapped);
    // the opening fence goes with its tag, once
    assert(fence.is_prefix_of(wrapped));
    assert(wrapped.skip(3) =~= tag + opened);
    assert(opened[0] == '\n');
    assert(!is_tag_char('\n'));
    lemma_without_tag_leaves_rest(tag, opened);
    assert(!fence.is_prefix_of(opened)) by {
        if fence.is_prefix_of(opened) {
            assert(opened.subrange(0, 3)[0] == fence[0]);
        }
    }
    assert(without_opening_fences(opened) == opened);
    assert(without_opening_fences(wrapped) == opened);
    // the closing fence goes, once
    let inner = opened.take(opened.len() - 3);
    assert(fence.is_suffix_of(opened));
    assert(inner.len() == n + 2);
    assert(inner.last() == '\n');
    assert(!fence.is_suffix_of(inner)) by {
        if fence.is_suffix_of(inner) {
            assert(inner.subrange(inner.len() - 3, inner.len() as int)[2] == fence[2]);
        }
    }
    assert(strip_suffixes(inner, fence) == inner);
    assert(strip_suffixes(opened, fence) == inner);
    // the line breaks inside the fences go with the white space around the text
    assert(inner[0] == '\n');
    assert(is_whitespace('\n'));
    assert(inner.drop_first() =~= text.push('\n'));
    assert(trim_start(inner) == trim_start(text.push('\n')));
    lemma_trim_ignores_trailing_whitespace(text, '\n');
}

/// The fence that models most often write, tagged as JSON, does no harm to
/// the JSON it wraps.
pub proof fn lemma_fenced_json_is_unwrapped(json: Seq<char>)
    ensures
        unfenced("```json\n"@ + json + "\n```"@) == trim(json),
{
    reveal_strlit("```json\n");
    reveal_strlit("```");
    reveal_strlit("json");
    reveal_strlit("\n");
    assert("```json\n"@ =~= "```"@ + "json"@ + "\n"@);
    lemma_fenced_text_is_unwrapped("json"@, json);
}

/// Text that is not wrapped is only trimmed: where what is left of a
/// completion without the white space around it neither starts nor ends with
/// three backticks, taking the wrapping off leaves just that.
pub proof fn lemma_bare_json_is_kept(json: Seq<char>)
    requires
        !"```"@.is_prefix_of(trim(json)),
        !"```"@.is_suffix_of(trim(json)),
    ensures
        unfenced(json) == trim(json),
{
    reveal_strlit("```");
    lemma_trim_keeps_bare_text(json);
}

/// Whether `c` can stand in a fence's tag.
pub fn is_tag_character(c: char) -> (tag: bool)
    ensures
        tag == is_tag_char(c),
{
    let code: u32 = c as u32;
    (0x30 <= code && code <= 0x39) || (0x41 <= code && code <= 0x5A) || (0x61 <= code && code
        <= 0x7A)
}

/// Moves the start of the window past the tag it starts with.
pub fn skip_tag(chars: &Vec<char>, start: usize, end: usize) -> (next: usize)
    requires
        start <= end <= chars@.len(),
    ensures
        start <= next <= end,
        chars@.subrange(next as int, end as int) == without_tag(
            chars@.subrange(start as int, end as int),
        ),
{
    let mut next = start;
    while next < end && is_tag_character(chars[next])
        invariant
            start <= next <= end <= chars@.len(),
            without_tag(chars@.subrange(next as int, end as int)) == without_tag(
                chars@.subrange(start as int, end as int),
            ),
        decreases end - next,
    {
        assert(chars@.subrange(next as int, end as int).drop_first() =~= chars@.subrange(
            next + 1,
            end as int,
        ));
        next += 1;
    }
    next
}

/// Moves the start of the window past the opening fences it starts with.
pub fn skip_opening_fences(chars: &Vec<char>, start: usize, end: usize) -> (next: usize)
    requires
        start <= end <= chars@.len(),
    ensures
        start <= next <= end,
        chars@.subrange(next as int, end as int) == without_opening_fences(
            chars@.subrange(start as int, end as int),
        ),
{
    let fence = chars_of("```");
    proof {
        reveal_strlit("```");
    }
    let mut next = start;
    while end - next >= 3
        invariant
            start <= next <= end <= chars@.len(),
            fence@ == "```"@,
            fence@.len() == 3,
            without_opening_fences(chars@.subrange(next as int, end as int))
                == without_opening_fences(chars@.subrange(start as int, end as int)),
        decreases end - next,
    {
        let ghost window = chars@.subrange(next as int, end as int);
        assert(window.subrange(0, 3) =~= chars@.subrange(next as int, next + 3));
        if !matches_at(chars, next, &fence) {
            return next;
        }
        assert(window.skip(3) =~= chars@.subrange(next + 3, end as int));
        next = skip_tag(chars, next + 3, end);
    }
    next
}

/// Takes a completion out of its wrapping.
pub fn strip_code_fences(completion: &str) -> (json: String)
    ensures
        json@ == unfenced(completion@),
{
    let chars = chars_of(completion);
    let fence = chars_of("```");
    let end = chars.len();
    assert(chars@.subrange(0, end as int) =~= completion@);
    let start = skip_whitespace(&chars, 0, end);
    let end = drop_whitespace(&chars, start, end);
    let start = skip_opening_fences(&chars, start, end);
    let end = drop_suffixes(&chars, start, end, &fence);
    let start = skip_whitespace(&chars, start, end);
    let end = drop_whitespace(&chars, start, end);
    String::from_str(completion.substring_char(start, end))
}

} // verus!
