//! Character-level building blocks: whitespace, tokens and substring
//! search, each as a spec function over `Seq<char>` together with an
//! executable counterpart over `Vec<char>`; and the two changes of case
//! that are left to the standard library.

use vstd::prelude::*;
use vstd::string::*;

verus! {

/// The characters that separate tokens: the code points carrying the Unicode
/// `White_Space` property.
pub open spec fn is_whitespace(c: char) -> bool {
    let n = c as u32;
    ||| 0x09 <= n <= 0x0D
    ||| n == 0x20
    ||| n == 0x85
    ||| n == 0xA0
    ||| n == 0x1680
    ||| 0x2000 <= n <= 0x200A
    ||| n == 0x2028
    ||| n == 0x2029
    ||| n == 0x202F
    ||| n == 0x205F
    ||| n == 0x3000
}

pub fn char_is_whitespace(c: char) -> (r: bool)
    ensures
        r == is_whitespace(c),
{
    let n: u32 = c as u32;
    (0x09 <= n && n <= 0x0D) || n == 0x20 || n == 0x85 || n == 0xA0 || n == 0x1680 || (0x2000 <= n
        && n <= 0x200A) || n == 0x2028 || n == 0x2029 || n == 0x202F || n == 0x205F || n == 0x3000
}

/// A separator is whitespace, or a comma where commas are asked to separate too.
pub open spec fn is_separator(c: char, commas: bool) -> bool {
    is_whitespace(c) || (commas && c == ',')
}

pub fn char_is_separator(c: char, commas: bool) -> (r: bool)
    ensures
        r == is_separator(c, commas),
{
    char_is_whitespace(c) || (commas && c == ',')
}

/// The characters of a string, in order.
pub fn chars_of(s: &str) -> (v: Vec<char>)
    ensures
        v@ == s@,
{
    let mut v: Vec<char> = Vec::new();
    for c in it: s.chars()
        invariant
            v@ == it.seq().take(it.index() as int),
            it.seq() == s@,
    {
        v.push(c);
    }
    v
}

/// Position of the first `c` in `s`, or `s.len()` where there is none.
pub open spec fn index_of(s: Seq<char>, c: char) -> nat
    decreases s.len(),
{
    if s.len() == 0 || s[0] == c {
        0
    } else {
        1 + index_of(s.drop_first(), c)
    }
}

pub proof fn index_of_bounds(s: Seq<char>, c: char)
    ensures
        index_of(s, c) <= s.len(),
        index_of(s, c) < s.len() ==> s[index_of(s, c) as int] == c,
        forall|i: int| 0 <= i < index_of(s, c) ==> s[i] != c,
    decreases s.len(),
{
    if s.len() == 0 || s[0] == c {
    } else {
        index_of_bounds(s.drop_first(), c);
        assert forall|i: int| 0 <= i < index_of(s, c) implies s[i] != c by {
            if i > 0 {
                assert(s[i] == s.drop_first()[i - 1]);
            }
        }
    }
}

/// Finds the first `c` in `chars[from..to]`.
pub fn find_char(chars: &Vec<char>, from: usize, to: usize, c: char) -> (i: usize)
    requires
        from <= to <= chars.len(),
    ensures
        from <= i <= to,
        i == from + index_of(chars@.subrange(from as int, to as int), c),
{
    let mut i: usize = from;
    while i < to && chars[i] != c
        invariant
            from <= i <= to <= chars.len(),
            from + index_of(chars@.subrange(from as int, to as int), c) == i + index_of(
                chars@.subrange(i as int, to as int),
                c,
            ),
        decreases to - i,
    {
        proof {
            let s = chars@.subrange(i as int, to as int);
            assert(s.drop_first() =~= chars@.subrange(i + 1, to as int));
        }
        i = i + 1;
    }
    i
}

/// Length of the run of non-separators that `s` starts with.
pub open spec fn token_len(s: Seq<char>, commas: bool) -> nat
    decreases s.len(),
{
    if s.len() == 0 || is_separator(s[0], commas) {
        0
    } else {
        1 + token_len(s.drop_first(), commas)
    }
}

pub proof fn token_len_bounds(s: Seq<char>, commas: bool)
    ensures
        token_len(s, commas) <= s.len(),
        s.len() > 0 && !is_separator(s[0], commas) ==> token_len(s, commas) > 0,
        forall|i: int| 0 <= i < token_len(s, commas) ==> !is_separator(s[i], commas),
        token_len(s, commas) < s.len() ==> is_separator(s[token_len(s, commas) as int], commas),
    decreases s.len(),
{
    if s.len() == 0 || is_separator(s[0], commas) {
    } else {
        token_len_bounds(s.drop_first(), commas);
        assert forall|i: int| 0 <= i < token_len(s, commas) implies !is_separator(
            s[i],
            commas,
        ) by {
            if i > 0 {
                assert(s[i] == s.drop_first()[i - 1]);
            }
        }
    }
}

/// The tokens of `s`: its maximal runs of non-separators, in order.
pub open spec fn tokens(s: Seq<char>, commas: bool) -> Seq<Seq<char>>
    decreases s.len(),
{
    if s.len() == 0 {
        Seq::empty()
    } else if is_separator(s[0], commas) {
        tokens(s.drop_first(), commas)
    } else {
        let n = token_len(s, commas);
        proof {
            token_len_bounds(s, commas);
        }
        seq![s.take(n as int)] + tokens(s.skip(n as int), commas)
    }
}

/// What stands behind the first token of `s`; nothing where `s` has no token.
pub open spec fn after_first_token(s: Seq<char>, commas: bool) -> Seq<char>
    decreases s.len(),
{
    if s.len() == 0 {
        s
    } else if is_separator(s[0], commas) {
        after_first_token(s.drop_first(), commas)
    } else {
        s.skip(token_len(s, commas) as int)
    }
}

/// A token: a non-empty run of non-separators.
pub open spec fn is_token(t: Seq<char>, commas: bool) -> bool {
    t.len() > 0 && forall|i: int| 0 <= i < t.len() ==> !is_separator(#[trigger] t[i], commas)
}

/// Every element of `tokens(s, commas)` is a token: none is empty and none
/// holds a separator, so that nothing is left to trim from one.
pub proof fn tokens_are_runs(s: Seq<char>, commas: bool)
    ensures
        forall|k: int|
            0 <= k < tokens(s, commas).len() ==> is_token(#[trigger] tokens(s, commas)[k], commas),
    decreases s.len(),
{
    if s.len() == 0 {
    } else if is_separator(s[0], commas) {
        tokens_are_runs(s.drop_first(), commas);
        assert(tokens(s, commas) == tokens(s.drop_first(), commas));
    } else {
        let n = token_len(s, commas);
        token_len_bounds(s, commas);
        tokens_are_runs(s.skip(n as int), commas);
        let first = s.take(n as int);
        let rest = tokens(s.skip(n as int), commas);
        assert(tokens(s, commas) == seq![first] + rest);
        assert forall|i: int| 0 <= i < first.len() implies !is_separator(
            #[trigger] first[i],
            commas,
        ) by {
            assert(first[i] == s[i]);
        }
        assert(is_token(first, commas));
        assert forall|k: int| 0 <= k < tokens(s, commas).len() implies is_token(
            #[trigger] tokens(s, commas)[k],
            commas,
        ) by {
            if k > 0 {
                assert(tokens(s, commas)[k] == rest[k - 1]);
            } else {
                assert(tokens(s, commas)[0] == first);
            }
        }
    }
}

/// Finds the first token of `chars[from..to]`: `None` where there is none,
/// else its bounds; the tokens that follow are those of `chars[end..to]`.
pub fn next_token(chars: &Vec<char>, from: usize, to: usize, commas: bool) -> (r: Option<
    (usize, usize),
>)
    requires
        from <= to <= chars.len(),
    ensures
        r is None <==> tokens(chars@.subrange(from as int, to as int), commas).len() == 0,
        r matches Some((start, end)) ==> {
            &&& from <= start < end <= to
            &&& chars@.subrange(start as int, end as int) == tokens(
                chars@.subrange(from as int, to as int),
                commas,
            )[0]
            &&& chars@.subrange(end as int, to as int) == after_first_token(
                chars@.subrange(from as int, to as int),
                commas,
            )
            &&& tokens(chars@.subrange(end as int, to as int), commas) == tokens(
                chars@.subrange(from as int, to as int),
                commas,
            ).drop_first()
        },
{
    let mut start: usize = from;
    while start < to && char_is_separator(chars[start], commas)
        invariant
            from <= start <= to <= chars.len(),
            tokens(chars@.subrange(start as int, to as int), commas) == tokens(
                chars@.subrange(from as int, to as int),
                commas,
            ),
            after_first_token(chars@.subrange(start as int, to as int), commas)
                == after_first_token(chars@.subrange(from as int, to as int), commas),
        decreases to - start,
    {
        proof {
            let s = chars@.subrange(start as int, to as int);
            assert(s.drop_first() =~= chars@.subrange(start + 1, to as int));
        }
        start = start + 1;
    }
    if start >= to {
        return None;
    }
    let ghost s = chars@.subrange(start as int, to as int);
    let mut end: usize = start;
    while end < to && !char_is_separator(chars[end], commas)
        invariant
            start <= end <= to <= chars.len(),
            s == chars@.subrange(start as int, to as int),
            token_len(s, commas) == (end - start) + token_len(
                chars@.subrange(end as int, to as int),
                commas,
            ),
        decreases to - end,
    {
        proof {
            let t = chars@.subrange(end as int, to as int);
            assert(t.drop_first() =~= chars@.subrange(end + 1, to as int));
        }
        end = end + 1;
    }
    proof {
        let n = token_len(s, commas);
        assert(n == end - start);
        assert(s.take(n as int) =~= chars@.subrange(start as int, end as int));
        assert(s.skip(n as int) =~= chars@.subrange(end as int, to as int));
        let all = tokens(s, commas);
        assert(all == seq![s.take(n as int)] + tokens(s.skip(n as int), commas));
        assert(all.drop_first() =~= tokens(s.skip(n as int), commas));
    }
    Some((start, end))
}

/// Whether `chars[from..to]` spells `word`.
pub fn range_is(chars: &Vec<char>, from: usize, to: usize, word: &Vec<char>) -> (r: bool)
    requires
        from <= to <= chars.len(),
    ensures
        r == (chars@.subrange(from as int, to as int) == word@),
{
    if to - from != word.len() {
        return false;
    }
    let mut i: usize = 0;
    while i < word.len()
        invariant
            from <= to <= chars.len(),
            to - from == word.len(),
            i <= word.len(),
            forall|k: int| 0 <= k < i ==> chars@[from + k] == word@[k],
        decreases word.len() - i,
    {
        if chars[from + i] != word[i] {
            proof {
                assert(chars@.subrange(from as int, to as int)[i as int] != word@[i as int]);
            }
            return false;
        }
        i = i + 1;
    }
    proof {
        assert(chars@.subrange(from as int, to as int) =~= word@);
    }
    true
}

/// Whether `needle` occurs in `hay` as a contiguous run.
pub open spec fn contains(hay: Seq<char>, needle: Seq<char>) -> bool {
    exists|i: int|
        0 <= i && i + needle.len() <= hay.len() && #[trigger] hay.subrange(
            i,
            i + needle.len(),
        ) == needle
}

pub fn chars_contain(hay: &Vec<char>, needle: &Vec<char>) -> (r: bool)
    ensures
        r == contains(hay@, needle@),
{
    if needle.len() > hay.len() {
        return false;
    }
    let last: usize = hay.len() - needle.len();
    let mut i: usize = 0;
    loop
        invariant
            last == hay.len() - needle.len(),
            needle.len() <= hay.len(),
            i <= last,
            forall|k: int| 0 <= k < i ==> #[trigger] hay@.subrange(k, k + needle.len()) != needle@,
        decreases last - i,
    {
        if range_is(hay, i, i + needle.len(), needle) {
            return true;
        }
        if i == last {
            return false;
        }
        i = i + 1;
    }
}

/// Whether the text `hay` holds the text `needle`.
pub fn str_contains(hay: &str, needle: &str) -> (r: bool)
    ensures
        r == contains(hay@, needle@),
{
    let h = chars_of(hay);
    let n = chars_of(needle);
    chars_contain(&h, &n)
}

/// Whether every character of the text is an ASCII character.
pub open spec fn is_ascii(text: Seq<char>) -> bool {
    forall|i: int| 0 <= i < text.len() ==> (#[trigger] text[i]) <= '\x7f'
}

/// The capital of a small ASCII letter; any other character as it is.
pub open spec fn ascii_upper(c: char) -> char {
    if 'a' <= c && c <= 'z' {
        ((c as u8 - 32) as u8) as char
    } else {
        c
    }
}

/// The small form of a capital ASCII letter; any other character as it is.
pub open spec fn ascii_lower(c: char) -> char {
    if 'A' <= c && c <= 'Z' {
        ((c as u8 + 32) as u8) as char
    } else {
        c
    }
}

/// The text with each small ASCII letter replaced by its capital.
pub open spec fn ascii_uppercase(text: Seq<char>) -> Seq<char> {
    Seq::new(text.len(), |i: int| ascii_upper(text[i]))
}

/// The text with each capital ASCII letter replaced by its small form.
pub open spec fn ascii_lowercase(text: Seq<char>) -> Seq<char> {
    Seq::new(text.len(), |i: int| ascii_lower(text[i]))
}

/// The uppercase form of a text, as `str::to_uppercase` gives it.
pub uninterp spec fn uppercase_of(text: Seq<char>) -> Seq<char>;

/// The lowercase form of a text, as `str::to_lowercase` gives it.
pub uninterp spec fn lowercase_of(text: Seq<char>) -> Seq<char>;

/// `str::to_uppercase`: the uppercase equivalent of the text as Unicode
/// defines it. The contract names the result, and says what it is for a
/// text of ASCII characters alone: the small letters become capitals and
/// nothing else changes.
#[verifier::external_body]
pub(crate) fn to_uppercase(text: &str) -> (upper: String)
    ensures
        upper@ == uppercase_of(text@),
        is_ascii(text@) ==> upper@ == ascii_uppercase(text@),
{
    text.to_uppercase()
}

/// `str::to_lowercase`: the lowercase equivalent of the text as Unicode
/// defines it. The contract names the result, and says what it is for a
/// text of ASCII characters alone: the capitals become small letters and
/// nothing else changes.
#[verifier::external_body]
pub(crate) fn to_lowercase(text: &str) -> (lower: String)
    ensures
        lower@ == lowercase_of(text@),
        is_ascii(text@) ==> lower@ == ascii_lowercase(text@),
{
    text.to_lowercase()
}

} // verus!
