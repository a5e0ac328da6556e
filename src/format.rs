//! Text forms of commit identifiers.

use vstd::prelude::*;

use crate::entity::Uuid;

verus! {

/// The lower-case hexadecimal digits.
pub open spec fn hex_digits() -> Seq<char> {
    seq!['0', '1', '2', '3', '4', '5', '6', '7', '8', '9', 'a', 'b', 'c', 'd', 'e', 'f']
}

/// The hexadecimal digit of nibble number `i` (from the most significant)
/// of `x`.
pub open spec fn nibble(x: u64, i: int) -> u64 {
    (x >> ((60 - 4 * i) as u64)) & 15u64
}

/// `x` as sixteen lower-case hexadecimal digits, zero-padded.
pub open spec fn hex16(x: u64) -> Seq<char> {
    Seq::new(16, |i: int| hex_digits()[nibble(x, i) as int])
}

/// A commit identifier as 32 hexadecimal digits: high bits, then low bits.
pub open spec fn hex32(id: Uuid) -> Seq<char> {
    hex16(id.high) + hex16(id.low)
}

/// A commit identifier in the hyphenated 8-4-4-4-12 form.
pub open spec fn hyphenated(id: Uuid) -> Seq<char> {
    let s = hex32(id);
    s.subrange(0, 8) + seq!['-'] + s.subrange(8, 12) + seq!['-'] + s.subrange(12, 16) + seq!['-']
        + s.subrange(16, 20) + seq!['-'] + s.subrange(20, 32)
}

/// The one-character text of a hexadecimal digit.
pub(crate) fn hex_digit(d: u64) -> (r: &'static str)
    requires
        d < 16,
    ensures
        r@ == seq![hex_digits()[d as int]],
{
    proof {
        reveal_strlit("0");
        reveal_strlit("1");
        reveal_strlit("2");
        reveal_strlit("3");
        reveal_strlit("4");
        reveal_strlit("5");
        reveal_strlit("6");
        reveal_strlit("7");
        reveal_strlit("8");
        reveal_strlit("9");
        reveal_strlit("a");
        reveal_strlit("b");
        reveal_strlit("c");
        reveal_strlit("d");
        reveal_strlit("e");
        reveal_strlit("f");
    }
    let r = match d {
        0 => "0",
        1 => "1",
        2 => "2",
        3 => "3",
        4 => "4",
        5 => "5",
        6 => "6",
        7 => "7",
        8 => "8",
        9 => "9",
        10 => "a",
        11 => "b",
        12 => "c",
        13 => "d",
        14 => "e",
        _ => "f",
    };
    assert(r@ =~= seq![hex_digits()[d as int]]);
    r
}

/// Appends `x` as sixteen zero-padded lower-case hexadecimal digits.
pub fn push_hex16(out: &mut String, x: u64)
    ensures
        final(out)@ == old(out)@ + hex16(x),
{
    let ghost start = out@;
    let mut i: u64 = 0;
    while i < 16
        invariant
            i <= 16,
            out@ == start + hex16(x).subrange(0, i as int),
        decreases 16 - i,
    {
        let sh: u64 = 60 - 4 * i;
        let d: u64 = (x >> sh) & 15u64;
        assert(d < 16) by (bit_vector)
            requires
                d == (x >> sh) & 15u64,
        ;
        assert(d == nibble(x, i as int));
        out.append(hex_digit(d));
        i = i + 1;
        assert(out@ =~= start + hex16(x).subrange(0, i as int));
    }
    assert(hex16(x).subrange(0, 16) =~= hex16(x));
}

/// Relies on uuid's `Uuid::from_u64_pair` and its `Display`, which writes
/// the hyphenated lower-case form of the 128 bits, high bits first.
#[verifier::external_body]
fn uuid_text(high: u64, low: u64) -> (r: String)
    ensures
        r@ == hyphenated(Uuid { high, low }),
{
    uuid::Uuid::from_u64_pair(high, low).to_string()
}

/// A commit identifier in its hyphenated text form, as the store keys it.
pub fn commit_id_text(id: Uuid) -> (r: String)
    ensures
        r@ == hyphenated(id),
{
    uuid_text(id.high, id.low)
}

} // verus!
