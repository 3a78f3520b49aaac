use vstd::prelude::*;

verus! {

/// An RFC 4122 identifier, held as its sixteen raw bytes.
///
/// The remote API writes identifiers in the canonical hyphenated form;
/// [`Uuid::to_text`] produces exactly that form, as `uuid_text` states it.
#[derive(Debug, Clone, Copy, PartialEq, Eq)]
pub struct Uuid {
    pub bytes: [u8; 16],
}

/// The ASCII code of the lower-case hexadecimal digit `n`, for `n < 16`.
pub open spec fn hex_digit(n: u8) -> u8 {
    if n < 10 {
        (n + 48) as u8
    } else {
        (n + 87) as u8
    }
}

/// The two lower-case hexadecimal digits of a byte, as ASCII codes,
/// high digit first.
pub open spec fn hex_pair(b: u8) -> Seq<u8> {
    seq![hex_digit(b / 16), hex_digit(b % 16)]
}

/// The bytes of `bs` written out in lower-case hexadecimal, as ASCII codes.
pub open spec fn hex_seq(bs: Seq<u8>) -> Seq<u8>
    decreases bs.len(),
{
    if bs.len() == 0 {
        Seq::empty()
    } else {
        hex_seq(bs.drop_last()) + hex_pair(bs.last())
    }
}

/// The canonical hyphenated form of a UUID, as ASCII codes: the sixteen
/// bytes in lower-case hexadecimal, in groups of 4, 2, 2, 2 and 6 bytes,
/// the groups separated by hyphens.
pub open spec fn uuid_ascii(bs: Seq<u8>) -> Seq<u8> {
    hex_seq(bs.subrange(0, 4)) + seq![45u8] + hex_seq(bs.subrange(4, 6)) + seq![45u8] + hex_seq(
        bs.subrange(6, 8),
    ) + seq![45u8] + hex_seq(bs.subrange(8, 10)) + seq![45u8] + hex_seq(bs.subrange(10, 16))
}

/// The canonical hyphenated form of a UUID, as text.
pub open spec fn uuid_text(bs: Seq<u8>) -> Seq<char> {
    uuid_ascii(bs).map_values(|b: u8| b as char)
}

proof fn lemma_hex_seq_below_128(bs: Seq<u8>)
    ensures
        forall|i: int| 0 <= i < hex_seq(bs).len() ==> hex_seq(bs)[i] < 128,
    decreases bs.len(),
{
    if bs.len() > 0 {
        lemma_hex_seq_below_128(bs.drop_last());
        assert forall|i: int| 0 <= i < hex_seq(bs).len() implies hex_seq(bs)[i] < 128 by {
            let head = hex_seq(bs.drop_last());
            if i < head.len() {
                assert(hex_seq(bs)[i] == head[i]);
            } else {
                assert(hex_seq(bs)[i] == hex_pair(bs.last())[i - head.len()]);
            }
        }
    }
}

/// The lower-case hexadecimal digit `n`, as its ASCII code.
fn hex_digit_byte(n: u8) -> (r: u8)
    requires
        n < 16,
    ensures
        r == hex_digit(n),
{
    if n < 10 {
        n + 48
    } else {
        n + 87
    }
}

/// Appends the two hexadecimal digits of `b` to `out`.
fn push_hex_pair(out: &mut Vec<u8>, b: u8)
    ensures
        final(out)@ == old(out)@ + hex_pair(b),
{
    let hi: u8 = b / 16;
    let lo: u8 = b % 16;
    out.push(hex_digit_byte(hi));
    out.push(hex_digit_byte(lo));
    assert(out@ =~= old(out)@ + hex_pair(b));
}

/// Appends the hexadecimal digits of `bytes[start..end]` to `out`.
fn push_hex_range(out: &mut Vec<u8>, bytes: &[u8; 16], start: usize, end: usize)
    requires
        start <= end <= 16,
    ensures
        final(out)@ == old(out)@ + hex_seq(bytes@.subrange(start as int, end as int)),
{
    let mut i: usize = start;
    assert(out@ =~= old(out)@ + hex_seq(bytes@.subrange(start as int, start as int)));
    while i < end
        invariant
            start <= i <= end <= 16,
            out@ == old(out)@ + hex_seq(bytes@.subrange(start as int, i as int)),
        decreases end - i,
    {
        push_hex_pair(out, bytes[i]);
        i = i + 1;
        proof {
            let s = bytes@.subrange(start as int, i as int);
            assert(s.drop_last() =~= bytes@.subrange(start as int, i - 1));
            assert(out@ =~= old(out)@ + hex_seq(s));
        }
    }
}

/// Relies on `String::from_utf8`: bytes below 128 are valid UTF-8 and
/// decode to one character per byte, with the same code point.
#[verifier::external_body]
fn ascii_to_string(bytes: Vec<u8>) -> (r: String)
    requires
        forall|i: int| 0 <= i < bytes@.len() ==> bytes@[i] < 128,
    ensures
        r@ == bytes@.map_values(|b: u8| b as char),
{
    String::from_utf8(bytes).unwrap_or_default()
}

impl Uuid {
    /// An identifier made of the given raw bytes.
    pub fn new(bytes: [u8; 16]) -> (r: Uuid)
        ensures
            r.bytes@ == bytes@,
    {
        Uuid { bytes }
    }

    /// The canonical hyphenated text form of the identifier.
    pub fn to_text(&self) -> (r: String)
        ensures
            r@ == uuid_text(self.bytes@),
    {
        let mut out: Vec<u8> = Vec::new();
        push_hex_range(&mut out, &self.bytes, 0, 4);
        out.push(45);
        push_hex_range(&mut out, &self.bytes, 4, 6);
        out.push(45);
        push_hex_range(&mut out, &self.bytes, 6, 8);
        out.push(45);
        push_hex_range(&mut out, &self.bytes, 8, 10);
        out.push(45);
        push_hex_range(&mut out, &self.bytes, 10, 16);
        assert(out@ =~= uuid_ascii(self.bytes@));
        proof {
            lemma_hex_seq_below_128(self.bytes@.subrange(0, 4));
            lemma_hex_seq_below_128(self.bytes@.subrange(4, 6));
            lemma_hex_seq_below_128(self.bytes@.subrange(6, 8));
            lemma_hex_seq_below_128(self.bytes@.subrange(8, 10));
            lemma_hex_seq_below_128(self.bytes@.subrange(10, 16));
        }
        ascii_to_string(out)
    }
}

} // verus!
