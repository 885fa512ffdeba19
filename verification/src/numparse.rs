//! Parsing a decimal integer out of a word, with an optional sign, exactly
//! as the standard integer parse accepts it: sign, then one or more digits,
//! nothing else, and the value within range.
use vstd::prelude::*;

use crate::strutil::str_to_chars;

verus! {

/// Is `c` a decimal digit?
pub open spec fn is_digit(c: char) -> bool {
    48 <= c as u32 && c as u32 <= 57
}

/// The value of a digit character.
pub open spec fn digit_val(c: char) -> int {
    c as u32 - 48
}

/// Are all characters decimal digits?
pub open spec fn all_digits(s: Seq<char>) -> bool {
    forall|k: int| 0 <= k < s.len() ==> is_digit(s[k])
}

/// The value of a digit string, most significant digit first.
pub open spec fn digits_val(s: Seq<char>) -> int
    decreases s.len(),
{
    if s.len() == 0 {
        0
    } else {
        digits_val(s.drop_last()) * 10 + digit_val(s.last())
    }
}

/// Does the word start with an explicit sign?
pub open spec fn has_sign(s: Seq<char>) -> bool {
    s.len() > 0 && (s[0] == '-' || s[0] == '+')
}

/// The word without its sign, if it had one.
pub open spec fn digits_part(s: Seq<char>) -> Seq<char> {
    if has_sign(s) {
        s.drop_first()
    } else {
        s
    }
}

/// Does the word denote a negative number?
pub open spec fn is_negative(s: Seq<char>) -> bool {
    s.len() > 0 && s[0] == '-'
}

/// The integer a word denotes, if it is a well-formed signed decimal.
pub open spec fn int_of_string(s: Seq<char>) -> Option<int> {
    if digits_part(s).len() == 0 || !all_digits(digits_part(s)) {
        None
    } else if is_negative(s) {
        Some(-digits_val(digits_part(s)))
    } else {
        Some(digits_val(digits_part(s)))
    }
}

/// The parse a word denotes as an `i32`: its integer, if within range.
pub open spec fn parse_i32_spec(s: Seq<char>) -> Option<i32> {
    match int_of_string(s) {
        None => None,
        Some(v) => if -0x8000_0000 <= v && v <= 0x7fff_ffff {
            Some(v as i32)
        } else {
            None
        },
    }
}

/// A digit string has a nonnegative value.
proof fn lemma_digits_val_nonneg(s: Seq<char>)
    requires
        all_digits(s),
    ensures
        digits_val(s) >= 0,
    decreases s.len(),
{
    if s.len() > 0 {
        assert(all_digits(s.drop_last()));
        lemma_digits_val_nonneg(s.drop_last());
    }
}

/// Extending a digit string with digits can only keep or grow its value.
proof fn lemma_digits_val_prefix(s: Seq<char>, k: int)
    requires
        all_digits(s),
        0 <= k <= s.len(),
    ensures
        digits_val(s) >= digits_val(s.take(k)),
    decreases s.len() - k,
{
    if k == s.len() {
        assert(s.take(k) =~= s);
    } else {
        assert(s.take(k + 1).drop_last() =~= s.take(k));
        assert(all_digits(s.take(k)));
        lemma_digits_val_nonneg(s.take(k));
        assert(digits_val(s.take(k + 1)) >= digits_val(s.take(k)));
        lemma_digits_val_prefix(s, k + 1);
    }
}

/// Parse a word as a signed 32-bit decimal integer.
pub fn parse_i32(s: &str) -> (r: Option<i32>)
    ensures
        r == parse_i32_spec(s@),
{
    let chars = str_to_chars(s);
    let n = chars.len();
    let mut start: usize = 0;
    let mut neg = false;
    if n > 0 && (chars[0] == '-' || chars[0] == '+') {
        neg = chars[0] == '-';
        start = 1;
    }
    if start >= n {
        assert(digits_part(s@).len() == 0);
        return Option::None;
    }
    let ghost ds = s@.skip(start as int);
    proof {
        assert(ds =~= digits_part(s@));
    }
    let mut acc: u64 = 0;
    let mut i: usize = start;
    while i < n
        invariant
            chars@ == s@,
            n == chars@.len(),
            start <= i <= n,
            start < n,
            ds == s@.skip(start as int),
            ds == digits_part(s@),
            neg == is_negative(s@),
            all_digits(ds.take((i - start) as int)),
            acc == digits_val(ds.take((i - start) as int)),
            acc <= 0x8000_0000,
        decreases n - i,
    {
        let c = chars[i];
        let cu = c as u32;
        if cu < 48 || cu > 57 {
            proof {
                assert(ds[(i - start) as int] == s@[i as int]);
                assert(!is_digit(ds[(i - start) as int]));
                assert(!all_digits(ds));
            }
            return Option::None;
        }
        let d = (cu - 48) as u64;
        proof {
            assert(ds.take((i + 1 - start) as int).drop_last() =~= ds.take((i - start) as int));
            assert(ds.take((i + 1 - start) as int).last() == s@[i as int]);
        }
        acc = acc * 10 + d;
        if acc > 0x8000_0000 {
            proof {
                if all_digits(ds) {
                    lemma_digits_val_prefix(ds, i + 1 - start);
                    assert(digits_val(ds) > 0x8000_0000);
                }
            }
            return Option::None;
        }
        i = i + 1;
    }
    proof {
        assert(ds.take((n - start) as int) =~= ds);
        assert(all_digits(ds));
        assert(acc == digits_val(ds));
        assert(ds.len() > 0);
    }
    if neg {
        if acc == 0x8000_0000 {
            Option::Some(-0x8000_0000)
        } else {
            Option::Some(-(acc as i32))
        }
    } else {
        if acc <= 0x7fff_ffff {
            Option::Some(acc as i32)
        } else {
            Option::None
        }
    }
}

} // verus!
