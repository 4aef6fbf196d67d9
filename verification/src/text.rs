//! Text helpers.

use vstd::prelude::*;
use vstd::string::StrSliceExecFns;

verus! {

/// Whether a character is Unicode white space.
pub open spec fn is_space(c: char) -> bool {
    let code = c as u32;
    ||| 0x9 <= code <= 0xD
    ||| code == 0x20
    ||| code == 0x85
    ||| code == 0xA0
    ||| code == 0x1680
    ||| 0x2000 <= code <= 0x200A
    ||| code == 0x2028
    ||| code == 0x2029
    ||| code == 0x202F
    ||| code == 0x205F
    ||| code == 0x3000
}

fn is_white_space(c: char) -> (r: bool)
    ensures
        r == is_space(c),
{
    let code: u32 = c as u32;
    (0x9 <= code && code <= 0xD) || code == 0x20 || code == 0x85 || code == 0xA0 || code == 0x1680
        || (0x2000 <= code && code <= 0x200A) || code == 0x2028 || code == 0x2029 || code == 0x202F
        || code == 0x205F || code == 0x3000
}

/// `text` without leading white space.
pub open spec fn trimmed_start(text: Seq<char>) -> Seq<char>
    decreases text.len(),
{
    if text.len() > 0 && is_space(text[0]) {
        trimmed_start(text.skip(1))
    } else {
        text
    }
}

/// `text` without trailing white space.
pub open spec fn trimmed_end(text: Seq<char>) -> Seq<char>
    decreases text.len(),
{
    if text.len() > 0 && is_space(text.last()) {
        trimmed_end(text.drop_last())
    } else {
        text
    }
}

/// `text` without white space at either end.
pub fn trim(text: &str) -> (r: &str)
    ensures
        r@ == trimmed_end(trimmed_start(text@)),
{
    let mut from: usize = 0;
    let mut to: usize = text.unicode_len();
    assert(text@.skip(0) =~= text@);
    while from < to && is_white_space(text.get_char(from))
        invariant
            from <= to == text@.len(),
            trimmed_start(text@.skip(from as int)) == trimmed_start(text@),
        decreases to - from,
    {
        assert(text@.skip(from as int).skip(1) =~= text@.skip(from + 1));
        from = from + 1;
    }
    let ghost rest = trimmed_start(text@);
    assert(rest == text@.skip(from as int));
    assert(text@.subrange(from as int, to as int) =~= rest);
    while from < to && is_white_space(text.get_char(to - 1))
        invariant
            from <= to <= text@.len(),
            trimmed_end(text@.subrange(from as int, to as int)) == trimmed_end(rest),
        decreases to - from,
    {
        assert(text@.subrange(from as int, to as int).drop_last() =~= text@.subrange(
            from as int,
            to - 1,
        ));
        to = to - 1;
    }
    text.substring_char(from, to)
}

/// A character with an ASCII capital made small.
pub open spec fn small(c: char) -> char {
    if 'A' <= c <= 'Z' {
        (c as u32 + 32) as char
    } else {
        c
    }
}

/// Calls `str::to_ascii_lowercase` of std. Claimed: each ASCII capital becomes the
/// small letter, every other character stays.
#[verifier::external_body]
pub(crate) fn ascii_lowercase(text: &str) -> (r: String)
    ensures
        r@ == text@.map_values(|c: char| small(c)),
{
    text.to_ascii_lowercase()
}

/// Whether two texts are the same.
pub fn same_text(a: &str, b: &str) -> (r: bool)
    ensures
        r == (a@ == b@),
{
    let len: usize = a.unicode_len();
    if len != b.unicode_len() {
        return false;
    }
    let mut i: usize = 0;
    while i < len
        invariant
            i <= len == a@.len() == b@.len(),
            forall|j: int| 0 <= j < i ==> a@[j] == b@[j],
        decreases len - i,
    {
        if a.get_char(i) != b.get_char(i) {
            return false;
        }
        i = i + 1;
    }
    assert(a@ =~= b@);
    true
}

/// Blanks, tabs and line ends are white space; no visible ASCII character is.
pub proof fn law_white_space(c: char)
    ensures
        c == ' ' || c == '\t' || c == '\n' || c == '\r' ==> is_space(c),
        0x21 <= c as u32 <= 0x7e ==> !is_space(c),
{
}

/// ASCII capitals become the small letters of the same rank, and nothing else changes.
pub proof fn law_small_letters(c: char)
    ensures
        'A' <= c <= 'Z' ==> 'a' <= small(c) <= 'z' && small(c) as u32 - 'a' as u32 == c as u32
            - 'A' as u32,
        !('A' <= c <= 'Z') ==> small(c) == c,
        small(small(c)) == small(c),
{
}

proof fn lemma_trimmed_start(text: Seq<char>) -> (n: int)
    ensures
        0 <= n <= text.len(),
        trimmed_start(text) == text.skip(n),
        forall|i: int| 0 <= i < n ==> is_space(#[trigger] text[i]),
        n < text.len() ==> !is_space(text[n]),
    decreases text.len(),
{
    if text.len() > 0 && is_space(text[0]) {
        let n = lemma_trimmed_start(text.skip(1));
        assert(text.skip(1).skip(n) =~= text.skip(n + 1));
        assert forall|i: int| 0 <= i < n + 1 implies is_space(#[trigger] text[i]) by {
            if i > 0 {
                assert(text.skip(1)[i - 1] == text[i]);
            }
        }
        if n + 1 < text.len() {
            assert(text.skip(1)[n] == text[n + 1]);
        }
        n + 1
    } else {
        assert(text.skip(0) =~= text);
        0
    }
}

proof fn lemma_trimmed_end(text: Seq<char>) -> (n: int)
    ensures
        0 <= n <= text.len(),
        trimmed_end(text) == text.take(n),
        forall|i: int| n <= i < text.len() ==> is_space(#[trigger] text[i]),
        0 < n ==> !is_space(text[n - 1]),
    decreases text.len(),
{
    if text.len() > 0 && is_space(text.last()) {
        let n = lemma_trimmed_end(text.drop_last());
        assert(text.drop_last().take(n) =~= text.take(n));
        assert forall|i: int| n <= i < text.len() implies is_space(#[trigger] text[i]) by {
            if i < text.len() - 1 {
                assert(text.drop_last()[i] == text[i]);
            }
        }
        n
    } else {
        assert(text.take(text.len() as int) =~= text);
        text.len() as int
    }
}

/// Trimming takes white space off both ends, and nothing else: what is left is a stretch
/// of the text with only white space round it, and neither starts nor ends with any.
pub proof fn law_trimming(text: Seq<char>)
    ensures
        exists|from: int, to: int|
            {
                &&& 0 <= from <= to <= text.len()
                &&& trimmed_end(trimmed_start(text)) == #[trigger] text.subrange(from, to)
                &&& forall|i: int|
                    0 <= i < from || to <= i < text.len() ==> is_space(#[trigger] text[i])
                &&& from < to ==> !is_space(text[from]) && !is_space(text[to - 1])
            },
{
    let from = lemma_trimmed_start(text);
    let rest = text.skip(from);
    let n = lemma_trimmed_end(rest);
    let to = from + n;
    assert(rest.take(n) =~= text.subrange(from, to));
    assert forall|i: int| 0 <= i < from || to <= i < text.len() implies is_space(
        #[trigger] text[i],
    ) by {
        if i >= to {
            assert(rest[i - from] == text[i]);
        }
    }
    if from < to {
        assert(rest[n - 1] == text[to - 1]);
        assert(rest[0] == text[from]);
        assert(n > 0 && from < text.len());
    }
}

/// White space round a text does not change what trimming leaves.
pub proof fn law_trimming_ignores_outer_space(text: Seq<char>, c: char)
    requires
        is_space(c),
    ensures
        trimmed_end(trimmed_start(seq![c] + text)) == trimmed_end(trimmed_start(text)),
        trimmed_end(trimmed_start(text.push(c))) == trimmed_end(trimmed_start(text)),
    decreases text.len(),
{
    assert((seq![c] + text).skip(1) =~= text);
    assert((seq![c] + text)[0] == c);
    let longer = text.push(c);
    if text.len() == 0 {
        assert(longer.skip(1) =~= text);
        assert(longer[0] == c);
    } else if is_space(text[0]) {
        law_trimming_ignores_outer_space(text.skip(1), c);
        assert(longer.skip(1) =~= text.skip(1).push(c));
        assert(longer[0] == text[0]);
    } else {
        assert(longer[0] == text[0]);
        assert(longer.drop_last() =~= text);
        assert(longer.last() == c);
    }
}

} // verus!
