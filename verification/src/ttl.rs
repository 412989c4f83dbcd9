use vstd::prelude::*;
use vstd::string::*;

verus! {

/// Whether `c` is one of the ten ASCII digits.
pub open spec fn is_digit(c: char) -> bool {
    48 <= c as u32 && c as u32 <= 57
}

/// Whether every character of `s` is an ASCII digit.
pub open spec fn all_digits(s: Seq<char>) -> bool {
    forall|i: int| 0 <= i < s.len() ==> is_digit(#[trigger] s[i])
}

/// The number that a run of digits writes in base ten; 0 for the empty run.
pub open spec fn decimal(s: Seq<char>) -> int
    decreases s.len(),
{
    if s.len() == 0 {
        0
    } else {
        decimal(s.drop_last()) * 10 + (s.last() as u32 - 48)
    }
}

/// The integer that `s` writes: one or more ASCII digits, with at most one
/// sign, `+` or `-`, in front. Nothing else writes an integer: no blanks, no
/// empty text, no sign alone.
pub open spec fn signed_decimal(s: Seq<char>) -> Option<int> {
    if s.len() == 0 {
        None
    } else {
        let signed = s[0] == '-' || s[0] == '+';
        let digits = if signed {
            s.subrange(1, s.len() as int)
        } else {
            s
        };
        if digits.len() == 0 || !all_digits(digits) {
            None
        } else if s[0] == '-' {
            Some(-decimal(digits))
        } else {
            Some(decimal(digits))
        }
    }
}

/// The time-to-live that `s` writes: its integer, if that fits in 32 bits
/// with a sign.
pub open spec fn ttl_of(s: Seq<char>) -> Option<i32> {
    match signed_decimal(s) {
        Some(v) => if i32::MIN <= v <= i32::MAX {
            Some(v as i32)
        } else {
            None
        },
        None => None,
    }
}

/// Reads a time-to-live, in seconds, from the text of a form field.
///
/// The text must be a signed integer in base ten that fits in an `i32`;
/// leading zeros are allowed. Any other text gives `None`. Zero and
/// negative values are read like any other: what they mean is for the cache
/// service to say.
pub fn parse_ttl(text: &str) -> (ttl: Option<i32>)
    ensures
        ttl == ttl_of(text@),
{
    let n: usize = text.unicode_len();
    if n == 0 {
        return None;
    }
    let first = text.get_char(0);
    let negative = first == '-';
    let start: usize = if first == '-' || first == '+' {
        1
    } else {
        0
    };
    if start == n {
        return None;
    }
    let ghost digits = text@.subrange(start as int, n as int);
    assert(start == 0 ==> digits =~= text@);
    let mut magnitude: i64 = 0;
    let mut over = false;
    let mut i: usize = start;
    assert(text@.subrange(start as int, i as int) =~= Seq::<char>::empty());
    while i < n
        invariant
            start <= i <= n,
            n == text@.len(),
            digits == text@.subrange(start as int, n as int),
            first == text@[0],
            negative == (first == '-'),
            start == 1 <==> (first == '-' || first == '+'),
            start == 0 ==> digits == text@,
            all_digits(text@.subrange(start as int, i as int)),
            !over ==> magnitude == decimal(text@.subrange(start as int, i as int)),
            !over ==> 0 <= magnitude <= 0x8000_0000,
            over ==> decimal(text@.subrange(start as int, i as int)) > 0x8000_0000,
        decreases n - i,
    {
        let c = text.get_char(i);
        let code: u32 = c as u32;
        if code < 48 || code > 57 {
            assert(digits[i - start] == c);
            return None;
        }
        proof {
            let before = text@.subrange(start as int, i as int);
            let with = text@.subrange(start as int, i + 1);
            assert(with.drop_last() =~= before);
            assert(with.last() == c);
            assert forall|j: int| 0 <= j < with.len() implies is_digit(#[trigger] with[j]) by {
                if j < before.len() {
                    assert(with[j] == before[j]);
                }
            }
        }
        if !over {
            magnitude = magnitude * 10 + (code - 48) as i64;
            if magnitude > 0x8000_0000 {
                over = true;
            }
        }
        i += 1;
    }
    assert(text@.subrange(start as int, i as int) =~= digits);
    if over {
        None
    } else if negative {
        Some((-magnitude) as i32)
    } else if magnitude <= 0x7fff_ffff {
        Some(magnitude as i32)
    } else {
        None
    }
}

} // verus!
