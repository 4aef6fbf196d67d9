//! Little-endian bytes.

use vstd::prelude::*;

verus! {

/// The number that the bytes of `s` write, least significant first.
pub open spec fn le_value(s: Seq<u8>) -> nat
    decreases s.len(),
{
    if s.len() == 0 {
        0
    } else {
        s[0] as nat + 256 * le_value(s.skip(1))
    }
}

/// The low `n` bytes of `x`, least significant first.
pub open spec fn le_bytes(x: nat, n: nat) -> Seq<u8>
    decreases n,
{
    if n == 0 {
        Seq::empty()
    } else {
        seq![(x % 256) as u8] + le_bytes(x / 256, (n - 1) as nat)
    }
}

/// `256` to the power `n`.
pub open spec fn byte_range(n: nat) -> nat
    decreases n,
{
    if n == 0 {
        1
    } else {
        256 * byte_range((n - 1) as nat)
    }
}

/// `n` bytes are written.
pub broadcast proof fn lemma_le_bytes_len(x: nat, n: nat)
    ensures
        #[trigger] le_bytes(x, n).len() == n,
    decreases n,
{
    if n > 0 {
        lemma_le_bytes_len(x / 256, (n - 1) as nat);
    }
}

/// Reading back what was written gives the number, where it fits in `n` bytes.
pub proof fn lemma_le_round_trip(x: nat, n: nat)
    requires
        x < byte_range(n),
    ensures
        le_value(le_bytes(x, n)) == x,
    decreases n,
{
    if n > 0 {
        let rest = le_bytes(x / 256, (n - 1) as nat);
        assert(le_bytes(x, n).skip(1) =~= rest);
        lemma_le_round_trip(x / 256, (n - 1) as nat);
        assert(le_bytes(x, n)[0] == (x % 256) as u8);
    }
}

/// Writing what was read gives the bytes back.
pub proof fn lemma_le_rewrite(s: Seq<u8>)
    ensures
        le_bytes(le_value(s), s.len()) == s,
    decreases s.len(),
{
    if s.len() > 0 {
        let rest = s.skip(1);
        lemma_le_rewrite(rest);
        let x = le_value(s);
        assert(x % 256 == s[0] as nat && x / 256 == le_value(rest)) by {
            assert(x == s[0] as nat + 256 * le_value(rest));
        }
        assert(le_bytes(x, s.len()) =~= s);
    } else {
        assert(le_bytes(0, 0) =~= s);
    }
}

/// `s.len()` bytes write a number below `256` to that power.
pub proof fn lemma_le_value_bound(s: Seq<u8>)
    ensures
        le_value(s) < byte_range(s.len()),
    decreases s.len(),
{
    if s.len() > 0 {
        lemma_le_value_bound(s.skip(1));
    }
}

/// The numbers of bytes that occur in account data.
pub proof fn lemma_byte_ranges()
    ensures
        byte_range(1) == 0x100,
        byte_range(2) == 0x1_0000,
        byte_range(4) == 0x1_0000_0000,
        byte_range(8) == 0x1_0000_0000_0000_0000,
        byte_range(16) == 0x1_0000_0000_0000_0000_0000_0000_0000_0000,
{
    reveal_with_fuel(byte_range, 17);
}

/// Appends the low `n` bytes of `x`.
pub fn push_le(out: &mut Vec<u8>, x: u128, n: usize)
    ensures
        final(out)@ == old(out)@ + le_bytes(x as nat, n as nat),
{
    let mut rest: u128 = x;
    let mut i: usize = 0;
    assert(out@ + le_bytes(x as nat, n as nat) =~= old(out)@ + le_bytes(x as nat, n as nat));
    while i < n
        invariant
            i <= n,
            out@ + le_bytes(rest as nat, (n - i) as nat) == old(out)@ + le_bytes(
                x as nat,
                n as nat,
            ),
        decreases n - i,
    {
        let low: u8 = (rest % 256) as u8;
        let ghost before = out@;
        out.push(low);
        assert(le_bytes(rest as nat, (n - i) as nat) == seq![low] + le_bytes(
            (rest / 256) as nat,
            (n - i - 1) as nat,
        ));
        assert(out@ + le_bytes((rest / 256) as nat, (n - i - 1) as nat) =~= before + le_bytes(
            rest as nat,
            (n - i) as nat,
        ));
        rest = rest / 256;
        i = i + 1;
    }
    assert(out@ =~= out@ + le_bytes(rest as nat, 0));
}

/// Appends all of `bytes`.
pub fn push_bytes(out: &mut Vec<u8>, bytes: &[u8])
    ensures
        final(out)@ == old(out)@ + bytes@,
{
    let mut i: usize = 0;
    assert(out@ =~= old(out)@ + bytes@.take(0));
    while i < bytes.len()
        invariant
            i <= bytes@.len(),
            out@ == old(out)@ + bytes@.take(i as int),
        decreases bytes@.len() - i,
    {
        out.push(bytes[i]);
        assert(bytes@.take(i + 1) =~= bytes@.take(i as int).push(bytes@[i as int]));
        assert(out@ =~= old(out)@ + bytes@.take(i + 1));
        i = i + 1;
    }
    assert(bytes@.take(i as int) =~= bytes@);
}

/// Whether the byte count of a string fits in four bytes.
pub open spec fn string_fits(text: Seq<char>) -> bool {
    vstd::utf8::encode_utf8(text).len() <= u32::MAX
}

/// The bytes of a string, after their count in four bytes.
pub open spec fn string_bytes(text: Seq<char>) -> Seq<u8> {
    let bytes = vstd::utf8::encode_utf8(text);
    le_bytes(bytes.len(), 4) + bytes
}

/// Appends the byte count of `text` in four bytes, then its bytes.
pub fn push_string(out: &mut Vec<u8>, text: &str)
    requires
        string_fits(text@),
    ensures
        final(out)@ == old(out)@ + string_bytes(text@),
{
    let bytes = text.as_bytes();
    push_le(out, bytes.len() as u128, 4);
    push_bytes(out, bytes);
    assert(out@ =~= old(out)@ + string_bytes(text@));
}

/// The number in the `n` bytes of `data` from `at` on.
pub fn read_le(data: &[u8], at: usize, n: usize) -> (r: u128)
    requires
        n <= 16,
        at + n <= data@.len(),
    ensures
        r == le_value(data@.subrange(at as int, at + n)),
        r < byte_range(n as nat),
    decreases n,
{
    let ghost s = data@.subrange(at as int, at + n);
    let len: usize = data.len();
    assert(at + n <= len);
    proof {
        lemma_le_value_bound(s);
        lemma_byte_ranges();
    }
    if n == 0 {
        0
    } else {
        assert(s.skip(1) =~= data@.subrange(at + 1, at + n));
        let rest: u128 = read_le(data, at + 1, n - 1);
        proof {
            lemma_byte_range_16(n as nat);
        }
        data[at] as u128 + 256 * rest
    }
}

proof fn lemma_byte_range_16(n: nat)
    requires
        n <= 16,
    ensures
        byte_range(n) <= 0x1_0000_0000_0000_0000_0000_0000_0000_0000,
    decreases 16 - n,
{
    if n < 16 {
        lemma_byte_range_16(n + 1);
    } else {
        lemma_byte_ranges();
    }
}

/// One byte writes itself, and bytes that follow others write what they write times 256
/// for each of these: the least significant byte comes first.
pub proof fn law_least_significant_first(first: Seq<u8>, rest: Seq<u8>, byte: u8)
    ensures
        le_value(seq![byte]) == byte,
        le_value(first + rest) == le_value(first) + byte_range(first.len()) * le_value(rest),
        byte_range(0) == 1,
        byte_range(first.len() + 1) == 256 * byte_range(first.len()),
    decreases first.len(),
{
    let one = seq![byte];
    assert(one.skip(1) =~= Seq::<u8>::empty());
    assert(le_value(one.skip(1)) == 0);
    let all = first + rest;
    if first.len() == 0 {
        assert(all =~= rest);
    } else {
        law_least_significant_first(first.skip(1), rest, byte);
        assert(all.skip(1) =~= first.skip(1) + rest);
        assert(all[0] == first[0]);
        let less = byte_range((first.len() - 1) as nat);
        let value = le_value(rest);
        assert(256 * (less * value) == (256 * less) * value) by (nonlinear_arith);
    }
}

/// What is written reads back, in as many bytes, where it fits in them; and what is read
/// writes the same bytes again.
pub proof fn law_numbers_read_back(x: nat, n: nat, data: Seq<u8>)
    ensures
        le_bytes(x, n).len() == n,
        x < byte_range(n) ==> le_value(le_bytes(x, n)) == x,
        le_bytes(le_value(data), data.len()) == data,
        le_value(data) < byte_range(data.len()),
{
    lemma_le_bytes_len(x, n);
    if x < byte_range(n) {
        lemma_le_round_trip(x, n);
    }
    lemma_le_rewrite(data);
    lemma_le_value_bound(data);
}

/// A text is written as its byte count, in four bytes, and its UTF-8 bytes.
pub proof fn law_texts_carry_their_length(text: Seq<char>)
    ensures
        string_bytes(text).len() == 4 + vstd::utf8::encode_utf8(text).len(),
        string_bytes(text).skip(4) == vstd::utf8::encode_utf8(text),
        string_fits(text) <==> vstd::utf8::encode_utf8(text).len() < 0x1_0000_0000,
        string_fits(text) ==> le_value(string_bytes(text).take(4)) == vstd::utf8::encode_utf8(
            text,
        ).len(),
{
    let n = vstd::utf8::encode_utf8(text).len();
    lemma_le_bytes_len(n, 4);
    lemma_byte_ranges();
    assert(string_bytes(text).skip(4) =~= vstd::utf8::encode_utf8(text));
    assert(string_bytes(text).take(4) =~= le_bytes(n, 4));
    if string_fits(text) {
        lemma_le_round_trip(n, 4);
    }
}

} // verus!
