//! Validated text-to-value conversion for scalar fields.
//!
//! A value token either denotes a value of the field's declared type or is
//! a parse error; nothing is silently defaulted. The decimal grammar is an
//! optional leading plus or minus sign followed by one or more digits.

use vstd::prelude::*;

verus! {

/// The code point of the minus sign.
pub open spec fn minus_code() -> int {
    45
}

/// The code point of the plus sign.
pub open spec fn plus_code() -> int {
    43
}

/// Whether a character is a decimal digit.
pub open spec fn is_digit(c: char) -> bool {
    48 <= c as int <= 57
}

/// The value of a decimal digit.
pub open spec fn digit_val(c: char) -> int {
    c as int - 48
}

/// Whether every character of a sequence is a decimal digit.
pub open spec fn all_digits(s: Seq<char>) -> bool {
    forall|i: int| 0 <= i < s.len() ==> is_digit(#[trigger] s[i])
}

/// The unsigned value of a digit sequence, most significant digit first.
pub open spec fn digits_val(s: Seq<char>) -> int
    decreases s.len(),
{
    if s.len() == 0 {
        0
    } else {
        digits_val(s.drop_last()) * 10 + digit_val(s.last())
    }
}

/// The signed 64-bit integer a text denotes, if any: an optional plus or
/// minus sign, then one or more digits, with the resulting value in range.
pub open spec fn spec_int_of(s: Seq<char>) -> Option<int> {
    let neg = s.len() > 0 && s[0] as int == minus_code();
    let signed = s.len() > 0 && (s[0] as int == minus_code() || s[0] as int == plus_code());
    let body = if signed {
        s.skip(1)
    } else {
        s
    };
    if body.len() == 0 || !all_digits(body) {
        None
    } else {
        let v = if neg {
            -digits_val(body)
        } else {
            digits_val(body)
        };
        if i64::MIN <= v <= i64::MAX {
            Some(v)
        } else {
            None
        }
    }
}

/// The value of a digit sequence is never negative.
proof fn lemma_digits_val_nonneg(s: Seq<char>)
    requires
        all_digits(s),
    ensures
        digits_val(s) >= 0,
    decreases s.len(),
{
    if s.len() > 0 {
        assert(all_digits(s.drop_last()));
        lemma_digits_val_nonneg(s.drop_last());
    }
}

/// Extending a digit sequence never shrinks its value.
proof fn lemma_digits_val_prefix(s: Seq<char>, i: int)
    requires
        all_digits(s),
        0 <= i <= s.len(),
    ensures
        digits_val(s) >= digits_val(s.take(i)),
    decreases s.len() - i,
{
    if i == s.len() {
        assert(s.take(i) =~= s);
    } else {
        assert(s.take(i + 1).drop_last() =~= s.take(i));
        assert(s.take(i + 1).last() == s[i]);
        assert(all_digits(s.take(i)));
        lemma_digits_val_nonneg(s.take(i));
        assert(digits_val(s.take(i + 1)) >= digits_val(s.take(i)));
        lemma_digits_val_prefix(s, i + 1);
    }
}

/// Parses a signed 64-bit integer from text, validating the whole token.
pub fn parse_i64(s: &String) -> (r: Option<i64>)
    ensures
        match r {
            Some(n) => spec_int_of(s@) == Some(n as int),
            None => spec_int_of(s@) is None,
        },
{
    let st = s.as_str();
    let len = st.unicode_len();
    let mut start: usize = 0;
    let mut neg = false;
    if len > 0 {
        let c0 = st.get_char(0);
        let u0 = c0 as u32;
        if u0 == 45 {
            neg = true;
            start = 1;
        } else if u0 == 43 {
            start = 1;
        }
    }
    let ghost body = s@.skip(start as int);
    proof {
        assert(s@.skip(0) =~= s@);
    }
    if start == len {
        return None;
    }
    let mut mag: u64 = 0;
    let mut j: usize = start;
    while j < len
        invariant
            start <= j <= len,
            len == s@.len(),
            start == 0 || start == 1,
            start == 1 <==> len > 0 && (s@[0] as int == minus_code() || s@[0] as int
                == plus_code()),
            neg <==> len > 0 && s@[0] as int == minus_code(),
            body == s@.skip(start as int),
            st@ == s@,
            all_digits(body.take(j - start)),
            mag == digits_val(body.take(j - start)),
            mag <= 9223372036854775809u64,
        decreases len - j,
    {
        let c = st.get_char(j);
        let u = c as u32;
        proof {
            assert(body[j - start] == s@[j as int]);
        }
        if u < 48 || u > 57 {
            proof {
                assert(!is_digit(body[j - start]));
                assert(!all_digits(body));
            }
            return None;
        }
        let d = (u - 48) as u64;
        proof {
            assert(body.take(j - start + 1).drop_last() =~= body.take(j - start));
            assert(body.take(j - start + 1).last() == body[j - start]);
        }
        if mag > 922337203685477580u64 {
            proof {
                let negb = s@.len() > 0 && s@[0] as int == minus_code();
                let signedb = s@.len() > 0 && (s@[0] as int == minus_code() || s@[0] as int
                    == plus_code());
                let bd = if signedb {
                    s@.skip(1)
                } else {
                    s@
                };
                assert(bd =~= body);
                assert(digits_val(body.take(j - start + 1)) == mag * 10 + d);
                assert(mag * 10 + d >= 9223372036854775810);
                if all_digits(body) {
                    lemma_digits_val_prefix(body, j - start + 1);
                    assert(digits_val(body) >= 9223372036854775810);
                    assert(digits_val(bd) >= 9223372036854775810);
                    assert(!(i64::MIN <= -digits_val(bd) <= i64::MAX));
                    assert(!(i64::MIN <= digits_val(bd) <= i64::MAX));
                } else {
                    assert(!all_digits(bd));
                }
                assert(spec_int_of(s@) is None);
            }
            return None;
        }
        mag = mag * 10 + d;
        j = j + 1;
    }
    proof {
        assert(body.take(len - start) =~= body);
    }
    if neg {
        if mag < 9223372036854775808u64 {
            Some(-(mag as i64))
        } else if mag == 9223372036854775808u64 {
            Some(i64::MIN)
        } else {
            None
        }
    } else {
        if mag <= 9223372036854775807u64 {
            Some(mag as i64)
        } else {
            None
        }
    }
}

/// The boolean a text denotes, if any: exactly `true` or `false`.
pub open spec fn spec_bool_of(s: Seq<char>) -> Option<bool> {
    if s == seq!['t', 'r', 'u', 'e'] {
        Some(true)
    } else if s == seq!['f', 'a', 'l', 's', 'e'] {
        Some(false)
    } else {
        None
    }
}

/// Parses a boolean from text, validating the whole token.
pub fn parse_bool(s: &String) -> (r: Option<bool>)
    ensures
        match r {
            Some(b) => spec_bool_of(s@) == Some(b),
            None => spec_bool_of(s@) is None,
        },
{
    proof {
        reveal_strlit("true");
        reveal_strlit("false");
        assert("true"@ =~= seq!['t', 'r', 'u', 'e']);
        assert("false"@ =~= seq!['f', 'a', 'l', 's', 'e']);
    }
    let t = String::from_str("true");
    let f = String::from_str("false");
    if *s == t {
        Some(true)
    } else if *s == f {
        Some(false)
    } else {
        None
    }
}

} // verus!
