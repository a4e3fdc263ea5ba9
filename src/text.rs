//! Small verified helpers on text: exact comparison and lowercase hex.

use vstd::prelude::*;

verus! {

/// The sixteen lowercase hexadecimal digits, in order of value.
pub open spec fn hex_digits() -> Seq<char> {
    seq!['0', '1', '2', '3', '4', '5', '6', '7', '8', '9', 'a', 'b', 'c', 'd', 'e', 'f']
}

/// A byte written in lowercase hex with no leading zero (`0` for zero).
pub open spec fn lower_hex(b: u8) -> Seq<char> {
    if b < 16 {
        seq![hex_digits()[b as int]]
    } else {
        seq![hex_digits()[(b / 16) as int], hex_digits()[(b % 16) as int]]
    }
}

/// Whether two strings hold the same characters.
pub fn same_text(a: &str, b: &str) -> (r: bool)
    ensures
        r == (a@ == b@),
{
    let n = a.unicode_len();
    if n != b.unicode_len() {
        return false;
    }
    let mut i: usize = 0;
    while i < n
        invariant
            n == a@.len(),
            n == b@.len(),
            i <= n,
            a@.subrange(0, i as int) == b@.subrange(0, i as int),
        decreases n - i,
    {
        if a.get_char(i) != b.get_char(i) {
            return false;
        }
        assert(a@.subrange(0, i + 1) =~= a@.subrange(0, i as int).push(a@[i as int]));
        assert(b@.subrange(0, i + 1) =~= b@.subrange(0, i as int).push(b@[i as int]));
        i = i + 1;
    }
    assert(a@ =~= a@.subrange(0, n as int));
    assert(b@ =~= b@.subrange(0, n as int));
    true
}

/// Appends to `out` the byte `b` written as `lower_hex` does.
pub fn push_lower_hex(out: &mut String, b: u8)
    ensures
        final(out)@ == old(out)@ + lower_hex(b),
{
    let digits = "0123456789abcdef";
    proof {
        reveal_strlit("0123456789abcdef");
        assert(digits@ =~= hex_digits());
    }
    let hi: usize = (b / 16) as usize;
    let lo: usize = (b % 16) as usize;
    if b >= 16 {
        out.append(digits.substring_char(hi, hi + 1));
    }
    out.append(digits.substring_char(lo, lo + 1));
    proof {
        if b < 16 {
            assert(lower_hex(b) =~= digits@.subrange(lo as int, lo + 1));
        } else {
            assert(lower_hex(b) =~= digits@.subrange(hi as int, hi + 1) + digits@.subrange(
                lo as int,
                lo + 1,
            ));
        }
    }
}

} // verus!
