//! Hexadecimal parsing for the three 16-bit connection fields.

use vstd::prelude::*;
use vstd::string::StrSliceExecFns;

verus! {

/// True for the characters that may appear in a base-16 numeral.
pub open spec fn is_hex_digit(c: char) -> bool {
    ||| '0' as int <= c as int <= '9' as int
    ||| 'a' as int <= c as int <= 'f' as int
    ||| 'A' as int <= c as int <= 'F' as int
}

/// Numeric value of one base-16 digit; 0 for a character that is no digit.
pub open spec fn hex_digit_value(c: char) -> int {
    if '0' as int <= c as int <= '9' as int {
        c as int - '0' as int
    } else if 'a' as int <= c as int <= 'f' as int {
        c as int - 'a' as int + 10
    } else if 'A' as int <= c as int <= 'F' as int {
        c as int - 'A' as int + 10
    } else {
        0
    }
}

/// Value of a base-16 numeral, most significant digit first.
pub open spec fn hex_value(s: Seq<char>) -> int
    decreases s.len(),
{
    if s.len() == 0 {
        0
    } else {
        hex_value(s.drop_last()) * 16 + hex_digit_value(s.last())
    }
}

/// A well-formed 16-bit connection field: non-empty, base-16 digits only,
/// and a value that fits in 16 bits.
pub open spec fn is_hex_u16(s: Seq<char>) -> bool {
    &&& s.len() > 0
    &&& forall|i: int| 0 <= i < s.len() ==> is_hex_digit(#[trigger] s[i])
    &&& hex_value(s) <= 0xffff
}

/// The value of a numeral is never negative.
proof fn lemma_hex_value_nonneg(s: Seq<char>)
    ensures
        hex_value(s) >= 0,
    decreases s.len(),
{
    if s.len() > 0 {
        lemma_hex_value_nonneg(s.drop_last());
    }
}

/// Appending digits never shrinks the value: every prefix of a numeral is
/// worth at most the whole numeral.
proof fn lemma_hex_value_prefix_le(s: Seq<char>, i: int)
    requires
        0 <= i <= s.len(),
    ensures
        hex_value(s.subrange(0, i)) <= hex_value(s),
    decreases s.len() - i,
{
    if i < s.len() {
        let shorter = s.subrange(0, i);
        let longer = s.subrange(0, i + 1);
        assert(longer.drop_last() =~= shorter);
        lemma_hex_value_nonneg(shorter);
        lemma_hex_value_prefix_le(s, i + 1);
    } else {
        assert(s.subrange(0, i) =~= s);
    }
}

/// Classify one character as a base-16 digit and give its value.
pub fn hex_digit(c: char) -> (r: Option<u8>)
    ensures
        r is Some <==> is_hex_digit(c),
        r matches Some(v) ==> v as int == hex_digit_value(c),
{
    let u = c as u32;
    if 48 <= u && u <= 57 {
        Some((u - 48) as u8)
    } else if 97 <= u && u <= 102 {
        Some((u - 97 + 10) as u8)
    } else if 65 <= u && u <= 70 {
        Some((u - 65 + 10) as u8)
    } else {
        None
    }
}

/// Parse one connection field as a base-16 unsigned 16-bit integer.
///
/// Succeeds exactly on the well-formed fields: non-empty, digits only, value
/// at most `0xffff`; the result is then the value of the numeral.
pub fn parse_hex_u16(s: &str) -> (r: Option<u16>)
    ensures
        r is Some <==> is_hex_u16(s@),
        r matches Some(v) ==> v as int == hex_value(s@),
{
    let n = s.unicode_len();
    if n == 0 {
        return None;
    }
    let mut acc: u32 = 0;
    let mut i: usize = 0;
    while i < n
        invariant
            n == s@.len(),
            n > 0,
            0 <= i <= n,
            forall|j: int| 0 <= j < i ==> is_hex_digit(#[trigger] s@[j]),
            acc as int == hex_value(s@.subrange(0, i as int)),
            acc <= 0xffff,
        decreases n - i,
    {
        let c = s.get_char(i);
        match hex_digit(c) {
            None => {
                proof {
                    assert(!is_hex_digit(s@[i as int]));
                }
                return None;
            },
            Some(d) => {
                let next: u32 = acc * 16 + d as u32;
                proof {
                    let longer = s@.subrange(0, i + 1);
                    assert(longer.drop_last() =~= s@.subrange(0, i as int));
                    assert(longer.last() == s@[i as int]);
                }
                if next > 0xffff {
                    proof {
                        lemma_hex_value_prefix_le(s@, i + 1);
                    }
                    return None;
                }
                acc = next;
                i += 1;
            },
        }
    }
    proof {
        assert(s@.subrange(0, n as int) =~= s@);
    }
    Some(acc as u16)
}

} // verus!
