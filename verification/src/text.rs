//! Text as a sequence of characters: white space, and the trimming that
//! takes a model's answer out of its wrapping.
//!
//! The executable functions work on a window `start..end` into the
//! characters of a text and move its bounds; the specifications say which
//! text the window then shows.

use vstd::prelude::*;

verus! {

/// White space, as Unicode defines it.
pub open spec fn is_whitespace(c: char) -> bool {
    let code = c as u32;
    ||| 0x09 <= code <= 0x0D
    ||| code == 0x20
    ||| code == 0x85
    ||| code == 0xA0
    ||| code == 0x1680
    ||| 0x2000 <= code <= 0x200A
    ||| code == 0x2028
    ||| code == 0x2029
    ||| code == 0x202F
    ||| code == 0x205F
    ||| code == 0x3000
}

/// `s` without the white space it starts with.
pub open spec fn trim_start(s: Seq<char>) -> Seq<char>
    decreases s.len(),
{
    if s.len() > 0 && is_whitespace(s[0]) {
        trim_start(s.drop_first())
    } else {
        s
    }
}

/// `s` without the white space it ends with.
pub open spec fn trim_end(s: Seq<char>) -> Seq<char>
    decreases s.len(),
{
    if s.len() > 0 && is_whitespace(s.last()) {
        trim_end(s.drop_last())
    } else {
        s
    }
}

/// `s` without the white space around it.
pub open spec fn trim(s: Seq<char>) -> Seq<char> {
    trim_end(trim_start(s))
}

/// `s` after `pattern` is taken off its end as often as it stands there.
/// An empty pattern takes nothing off.
pub open spec fn strip_suffixes(s: Seq<char>, pattern: Seq<char>) -> Seq<char>
    decreases s.len(),
{
    if pattern.len() > 0 && pattern.is_suffix_of(s) {
        strip_suffixes(s.take(s.len() - pattern.len()), pattern)
    } else {
        s
    }
}

/// Trimming at the start takes nothing but from the start.
pub proof fn lemma_trim_start_shrinks(s: Seq<char>)
    ensures
        trim_start(s).len() <= s.len(),
    decreases s.len(),
{
    if s.len() > 0 && is_whitespace(s[0]) {
        lemma_trim_start_shrinks(s.drop_first());
    }
}

/// Trimming at the end takes nothing but from the end.
pub proof fn lemma_trim_end_shrinks(s: Seq<char>)
    ensures
        trim_end(s).len() <= s.len(),
    decreases s.len(),
{
    if s.len() > 0 && is_whitespace(s.last()) {
        lemma_trim_end_shrinks(s.drop_last());
    }
}

/// A text has no white space at either end.
pub open spec fn is_bare(s: Seq<char>) -> bool {
    s.len() == 0 || (!is_whitespace(s[0]) && !is_whitespace(s.last()))
}

/// Trimming at the end leaves a text that starts as the text did.
pub proof fn lemma_trim_end_is_prefix(s: Seq<char>)
    ensures
        trim_end(s).is_prefix_of(s),
    decreases s.len(),
{
    if s.len() > 0 && is_whitespace(s.last()) {
        lemma_trim_end_is_prefix(s.drop_last());
    }
}

/// What is left after trimming at the start does not start with white space.
pub proof fn lemma_trim_start_is_bare_in_front(s: Seq<char>)
    ensures
        trim_start(s).len() == 0 || !is_whitespace(trim_start(s)[0]),
    decreases s.len(),
{
    if s.len() > 0 && is_whitespace(s[0]) {
        lemma_trim_start_is_bare_in_front(s.drop_first());
    }
}

/// What is left after trimming at the end does not end with white space.
pub proof fn lemma_trim_end_is_bare_behind(s: Seq<char>)
    ensures
        trim_end(s).len() == 0 || !is_whitespace(trim_end(s).last()),
    decreases s.len(),
{
    if s.len() > 0 && is_whitespace(s.last()) {
        lemma_trim_end_is_bare_behind(s.drop_last());
    }
}

/// Trimming leaves a text as it is exactly when the text has no white space
/// at either end, and what it leaves is such a text: trimming twice is
/// trimming once.
pub proof fn lemma_trim_keeps_bare_text(s: Seq<char>)
    ensures
        trim(s) == s <==> is_bare(s),
        is_bare(trim(s)),
        trim(trim(s)) == trim(s),
{
    lemma_trim_start_shrinks(s);
    lemma_trim_end_shrinks(s);
    if s.len() > 0 {
        if is_whitespace(s[0]) {
            lemma_trim_start_shrinks(s.drop_first());
            lemma_trim_end_shrinks(trim_start(s));
        } else if is_whitespace(s.last()) {
            lemma_trim_end_shrinks(s.drop_last());
        }
    }
    let front = trim_start(s);
    let both = trim(s);
    lemma_trim_start_is_bare_in_front(s);
    lemma_trim_end_is_bare_behind(front);
    lemma_trim_end_is_prefix(front);
    if both.len() > 0 {
        assert(both[0] == front.subrange(0, both.len() as int)[0]);
        assert(trim_start(both) == both);
        assert(trim_end(both) == both);
    } else {
        assert(trim_start(both) == both);
        assert(trim_end(both) == both);
    }
}

/// White space that follows a text is trimmed away with the text's own.
pub proof fn lemma_trim_ignores_trailing_whitespace(s: Seq<char>, c: char)
    requires
        is_whitespace(c),
    ensures
        trim(s.push(c)) == trim(s),
    decreases s.len(),
{
    let longer = s.push(c);
    if s.len() == 0 {
        assert(longer.drop_first() =~= s);
        assert(trim_start(longer) == trim_start(s));
    } else if is_whitespace(s[0]) {
        assert(longer.drop_first() =~= s.drop_first().push(c));
        lemma_trim_ignores_trailing_whitespace(s.drop_first(), c);
    } else {
        assert(longer.drop_last() =~= s);
        assert(trim_start(longer) == longer);
        assert(trim_end(longer) == trim_end(s));
    }
}

/// Whether `c` is white space.
pub fn is_whitespace_char(c: char) -> (white: bool)
    ensures
        white == is_whitespace(c),
{
    let code: u32 = c as u32;
    (0x09 <= code && code <= 0x0D) || code == 0x20 || code == 0x85 || code == 0xA0 || code
        == 0x1680 || (0x2000 <= code && code <= 0x200A) || code == 0x2028 || code == 0x2029
        || code == 0x202F || code == 0x205F || code == 0x3000
}

/// The characters of `s`, one by one.
pub fn chars_of(s: &str) -> (chars: Vec<char>)
    ensures
        chars@ == s@,
{
    let mut chars: Vec<char> = Vec::new();
    for c in it: s.chars()
        invariant
            chars@ == it.seq().take(it.index()),
    {
        chars.push(c);
    }
    chars
}

/// Moves the start of the window past the white space it starts with.
pub fn skip_whitespace(chars: &Vec<char>, start: usize, end: usize) -> (next: usize)
    requires
        start <= end <= chars@.len(),
    ensures
        start <= next <= end,
        chars@.subrange(next as int, end as int) == trim_start(
            chars@.subrange(start as int, end as int),
        ),
{
    let mut next = start;
    while next < end && is_whitespace_char(chars[next])
        invariant
            start <= next <= end <= chars@.len(),
            trim_start(chars@.subrange(next as int, end as int)) == trim_start(
                chars@.subrange(start as int, end as int),
            ),
        decreases end - next,
    {
        assert(chars@.subrange(next as int, end as int).drop_first() =~= chars@.subrange(
            next + 1,
            end as int,
        ));
        next += 1;
    }
    next
}

/// Moves the end of the window before the white space it ends with.
pub fn drop_whitespace(chars: &Vec<char>, start: usize, end: usize) -> (next: usize)
    requires
        start <= end <= chars@.len(),
    ensures
        start <= next <= end,
        chars@.subrange(start as int, next as int) == trim_end(
            chars@.subrange(start as int, end as int),
        ),
{
    let mut next = end;
    while start < next && is_whitespace_char(chars[next - 1])
        invariant
            start <= next <= end <= chars@.len(),
            trim_end(chars@.subrange(start as int, next as int)) == trim_end(
                chars@.subrange(start as int, end as int),
            ),
        decreases next - start,
    {
        assert(chars@.subrange(start as int, next as int).drop_last() =~= chars@.subrange(
            start as int,
            next - 1,
        ));
        next -= 1;
    }
    next
}

/// Whether the text shows `pattern` at position `at`.
pub fn matches_at(chars: &Vec<char>, at: usize, pattern: &Vec<char>) -> (found: bool)
    requires
        at + pattern@.len() <= chars@.len(),
    ensures
        found == (pattern@ =~= chars@.subrange(at as int, at + pattern@.len())),
{
    let total = chars.len();
    let mut k: usize = 0;
    while k < pattern.len()
        invariant
            k <= pattern@.len(),
            at + pattern@.len() <= total,
            total == chars@.len(),
            forall|i: int| 0 <= i < k ==> pattern@[i] == chars@[at + i],
        decreases pattern@.len() - k,
    {
        if pattern[k] != chars[at + k] {
            assert(chars@.subrange(at as int, at + pattern@.len())[k as int] == chars@[at + k]);
            return false;
        }
        k += 1;
    }
    true
}

/// Moves the end of the window before every `pattern` it ends with.
pub fn drop_suffixes(chars: &Vec<char>, start: usize, end: usize, pattern: &Vec<char>) -> (next:
    usize)
    requires
        start <= end <= chars@.len(),
    ensures
        start <= next <= end,
        chars@.subrange(start as int, next as int) == strip_suffixes(
            chars@.subrange(start as int, end as int),
            pattern@,
        ),
{
    let width = pattern.len();
    let mut next = end;
    if width == 0 {
        return next;
    }
    while next - start >= width
        invariant
            start <= next <= end <= chars@.len(),
            width == pattern@.len(),
            width > 0,
            strip_suffixes(chars@.subrange(start as int, next as int), pattern@) == strip_suffixes(
                chars@.subrange(start as int, end as int),
                pattern@,
            ),
        decreases next - start,
    {
        let ghost window = chars@.subrange(start as int, next as int);
        assert(window.subrange(window.len() - width, window.len() as int) =~= chars@.subrange(
            next - width,
            next as int,
        ));
        if !matches_at(chars, next - width, pattern) {
            return next;
        }
        assert(window.take(window.len() - width) =~= chars@.subrange(start as int, next - width));
        next -= width;
    }
    next
}

} // verus!
