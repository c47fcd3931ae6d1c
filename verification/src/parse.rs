//! Decimal text: parsing the engine's always-textual results into 64-bit
//! integers, and rendering integers back into text.
//!
//! Parsing follows the standard base-10 convention: one optional leading
//! sign, then one or more ASCII digits, nothing else, and the value must
//! fit the target type. Rendering produces the canonical representation
//! without leading zeros, with a leading minus sign for negative values.

use vstd::prelude::*;
use vstd::string::*;

verus! {

/// True for the ten ASCII digit characters.
pub open spec fn is_digit_char(c: char) -> bool {
    48 <= c as u32 && c as u32 <= 57
}

/// The numeric value of one ASCII digit character.
pub open spec fn digit_val(c: char) -> int {
    c as u32 - 48
}

/// The digit character of one value below ten.
pub open spec fn digit_char(d: int) -> char {
    ((d + 48) as u32) as char
}

/// True when `s` consists of ASCII digits only.
pub open spec fn all_digits(s: Seq<char>) -> bool {
    forall|i: int| 0 <= i < s.len() ==> is_digit_char(#[trigger] s[i])
}

/// The numeric value of a digit string, most significant digit first.
pub open spec fn digits_val(s: Seq<char>) -> int
    decreases s.len(),
{
    if s.len() == 0 {
        0
    } else {
        digits_val(s.drop_last()) * 10 + digit_val(s.last())
    }
}

/// A digit string's value is never negative.
pub proof fn lemma_digits_val_nonneg(s: Seq<char>)
    requires
        all_digits(s),
    ensures
        digits_val(s) >= 0,
    decreases s.len(),
{
    if s.len() > 0 {
        assert(all_digits(s.drop_last()));
        lemma_digits_val_nonneg(s.drop_last());
    }
}

/// Extending a digit string never shrinks its value: the whole string is
/// worth at least any of its prefixes.
pub proof fn lemma_digits_val_extend(s: Seq<char>, i: int)
    requires
        all_digits(s),
        0 <= i <= s.len(),
    ensures
        digits_val(s) >= digits_val(s.take(i)),
    decreases s.len() - i,
{
    if i < s.len() {
        lemma_digits_val_extend(s, i + 1);
        assert(s.take(i + 1).drop_last() =~= s.take(i));
        assert(all_digits(s.take(i)));
        lemma_digits_val_nonneg(s.take(i));
        assert(digits_val(s.take(i + 1)) == digits_val(s.take(i)) * 10 + digit_val(s[i]));
    } else {
        assert(s.take(i) =~= s);
    }
}

/// The digits of `s` after its optional leading plus sign: what an
/// unsigned parse reads.
pub open spec fn u64_body(s: Seq<char>) -> Seq<char> {
    if s.len() > 0 && s[0] as u32 == 43 {
        s.drop_first()
    } else {
        s
    }
}

/// What parsing `s` as an unsigned 64-bit decimal yields: its value when
/// `s` is an optional plus sign followed by nothing but digits and the
/// value fits, nothing otherwise.
pub open spec fn parse_u64_spec(s: Seq<char>) -> Option<u64> {
    let body = u64_body(s);
    if body.len() > 0 && all_digits(body) && digits_val(body) <= u64::MAX {
        Some(digits_val(body) as u64)
    } else {
        None
    }
}

/// True when `s` starts with a minus sign.
pub open spec fn i64_signed(s: Seq<char>) -> bool {
    s.len() > 0 && s[0] as u32 == 45
}

/// The digits of `s` after its optional leading plus or minus sign: what
/// a signed parse reads.
pub open spec fn i64_body(s: Seq<char>) -> Seq<char> {
    if s.len() > 0 && (s[0] as u32 == 43 || s[0] as u32 == 45) {
        s.drop_first()
    } else {
        s
    }
}

/// What parsing `s` as a signed 64-bit decimal yields: its value when `s`
/// is an optional sign followed by nothing but digits and the value fits,
/// nothing otherwise.
pub open spec fn parse_i64_spec(s: Seq<char>) -> Option<i64> {
    let body = i64_body(s);
    let mag = digits_val(body);
    if body.len() > 0 && all_digits(body) {
        if i64_signed(s) {
            if mag <= 0x8000000000000000 {
                Some((-mag) as i64)
            } else {
                None
            }
        } else {
            if mag <= i64::MAX {
                Some(mag as i64)
            } else {
                None
            }
        }
    } else {
        None
    }
}

/// Reads the digits of `s` from position `start` to the end and
/// accumulates their value, up to `limit`. Yields nothing when no digit
/// follows `start`, when a non-digit appears, or when the value would
/// pass `limit`.
fn parse_digits(s: &str, start: usize, limit: u64) -> (r: Option<u64>)
    requires
        start <= s@.len(),
    ensures
        ({
            let body = s@.skip(start as int);
            match r {
                Some(v) => body.len() > 0 && all_digits(body) && digits_val(body) == v
                    && v <= limit,
                None => !(body.len() > 0 && all_digits(body) && digits_val(body) <= limit),
            }
        }),
{
    let ghost body = s@.skip(start as int);
    let n = s.unicode_len();
    let mut acc: u64 = 0;
    let mut i: usize = start;
    while i < n
        invariant
            start <= i <= n,
            n == s@.len(),
            body == s@.skip(start as int),
            all_digits(body.take(i - start)),
            digits_val(body.take(i - start)) == acc,
            acc <= limit,
        decreases n - i,
    {
        let c = s.get_char(i);
        let u = c as u32;
        proof {
            assert(body[i - start] == s@[i as int]);
        }
        if u < 48 || u > 57 {
            proof {
                assert(!is_digit_char(body[i - start]));
                assert(!all_digits(body));
            }
            return None;
        }
        let d = (u - 48) as u64;
        let ghost prefix = body.take(i - start);
        let ghost longer = body.take(i - start + 1);
        proof {
            assert(longer.drop_last() =~= prefix);
            assert(longer.last() == body[i - start]);
            assert(digits_val(longer) == acc * 10 + d);
            assert(all_digits(longer));
        }
        let widened = match acc.checked_mul(10) {
            Some(w) => w,
            None => {
                proof {
                    if all_digits(body) {
                        lemma_digits_val_extend(body, i - start + 1);
                    }
                }
                return None;
            },
        };
        let next = match widened.checked_add(d) {
            Some(v) => v,
            None => {
                proof {
                    if all_digits(body) {
                        lemma_digits_val_extend(body, i - start + 1);
                    }
                }
                return None;
            },
        };
        if next > limit {
            proof {
                if all_digits(body) {
                    lemma_digits_val_extend(body, i - start + 1);
                }
            }
            return None;
        }
        acc = next;
        i += 1;
    }
    if start == n {
        proof {
            assert(body.len() == 0);
        }
        return None;
    }
    proof {
        assert(body.take(i - start) =~= body);
    }
    Some(acc)
}

/// Parses `s` as an unsigned 64-bit decimal: one optional plus sign, then
/// one or more digits, nothing else, value within range.
pub fn parse_u64(s: &str) -> (r: Option<u64>)
    ensures
        r == parse_u64_spec(s@),
{
    let n = s.unicode_len();
    let start: usize = if n > 0 && s.get_char(0) as u32 == 43 {
        1
    } else {
        0
    };
    proof {
        if start == 1 {
            assert(s@.skip(1) =~= s@.drop_first());
        } else {
            assert(s@.skip(0) =~= s@);
        }
        assert(s@.skip(start as int) == u64_body(s@));
    }
    parse_digits(s, start, u64::MAX)
}

/// Parses `s` as a signed 64-bit decimal: one optional plus or minus
/// sign, then one or more digits, nothing else, value within range.
pub fn parse_i64(s: &str) -> (r: Option<i64>)
    ensures
        r == parse_i64_spec(s@),
{
    let n = s.unicode_len();
    if n == 0 {
        return None;
    }
    let c0 = s.get_char(0) as u32;
    let neg = c0 == 45;
    let start: usize = if c0 == 43 || c0 == 45 {
        1
    } else {
        0
    };
    let limit: u64 = if neg {
        0x8000000000000000
    } else {
        0x7fffffffffffffff
    };
    proof {
        if start == 1 {
            assert(s@.skip(1) =~= s@.drop_first());
        } else {
            assert(s@.skip(0) =~= s@);
        }
        assert(s@.skip(start as int) == i64_body(s@));
    }
    match parse_digits(s, start, limit) {
        None => None,
        Some(mag) => {
            if neg {
                if mag == 0x8000000000000000 {
                    Some(i64::MIN)
                } else {
                    Some(-(mag as i64))
                }
            } else {
                Some(mag as i64)
            }
        },
    }
}

/// The canonical decimal representation of a non-negative value: no
/// leading zeros, a single zero digit for zero.
pub open spec fn dec_digits(n: int) -> Seq<char>
    decreases n,
{
    if n < 10 {
        seq![digit_char(n)]
    } else {
        dec_digits(n / 10).push(digit_char(n % 10))
    }
}

/// The canonical decimal representation of a signed value: a minus sign
/// before the digits of its magnitude when negative.
pub open spec fn dec_rep_i64(v: int) -> Seq<char> {
    if v < 0 {
        seq!['-'] + dec_digits(-v)
    } else {
        dec_digits(v)
    }
}

/// The digit character of one value below ten, as an executable value.
fn digit_char_of(d: u64) -> (c: char)
    requires
        d < 10,
    ensures
        c == digit_char(d as int),
{
    let u: u32 = d as u32 + 48;
    let r = char::from_u32(u);
    proof {
        assert(r is Some);
    }
    match r {
        Some(c) => {
            proof {
                vstd::utf8::char_u32_cast(c, u);
            }
            c
        },
        None => {
            proof {
                assert(false);
            }
            '0'
        },
    }
}

/// Renders an unsigned 64-bit value as decimal text.
pub fn u64_to_string(v: u64) -> (s: String)
    ensures
        s@ == dec_digits(v as int),
{
    let mut digits: Vec<char> = Vec::new();
    let mut x: u64 = v;
    let d0 = x % 10;
    digits.push(digit_char_of(d0));
    x = x / 10;
    proof {
        if x == 0 {
            assert(digits@.reverse() =~= seq![digit_char(v as int)]);
            assert(dec_digits(v as int) == digits@.reverse());
        } else {
            assert(digits@.reverse() =~= seq![digit_char(v as int % 10)]);
            assert(dec_digits(v as int) =~= dec_digits(x as int) + digits@.reverse());
        }
    }
    while x > 0
        invariant
            digits@.len() >= 1,
            x > 0 ==> dec_digits(v as int) == dec_digits(x as int) + digits@.reverse(),
            x == 0 ==> dec_digits(v as int) == digits@.reverse(),
        decreases x,
    {
        let d = x % 10;
        let ghost before = digits@;
        digits.push(digit_char_of(d));
        let ghost prev = x;
        x = x / 10;
        proof {
            assert(digits@.reverse() =~= seq![digit_char(d as int)] + before.reverse());
            if x == 0 {
                assert(dec_digits(prev as int) == seq![digit_char(prev as int)]);
                assert(prev as int % 10 == prev as int);
                assert(dec_digits(v as int) =~= digits@.reverse());
            } else {
                assert(dec_digits(prev as int) == dec_digits(x as int).push(
                    digit_char(prev as int % 10),
                ));
                assert(dec_digits(x as int).push(digit_char(d as int)) =~= dec_digits(x as int)
                    + seq![digit_char(d as int)]);
                assert(dec_digits(v as int) =~= dec_digits(x as int) + digits@.reverse());
            }
        }
    }
    let mut out = String::new();
    let n = digits.len();
    let mut j: usize = n;
    while j > 0
        invariant
            j <= n,
            n == digits@.len(),
            out@ == digits@.reverse().take(n - j),
        decreases j,
    {
        j = j - 1;
        crate::c_w_string::push_char(&mut out, digits[j]);
        proof {
            assert(digits@.reverse()[n - j - 1] == digits@[j as int]);
            assert(out@ =~= digits@.reverse().take(n - j));
        }
    }
    proof {
        assert(digits@.reverse().take(n as int) =~= digits@.reverse());
    }
    out
}

/// Renders a signed 64-bit value as decimal text, minus sign included.
pub fn i64_to_string(v: i64) -> (s: String)
    ensures
        s@ == dec_rep_i64(v as int),
{
    if v >= 0 {
        let s = u64_to_string(v as u64);
        s
    } else {
        let mag: u64 = if v == i64::MIN {
            0x8000000000000000
        } else {
            (-v) as u64
        };
        let rendered = u64_to_string(mag);
        let mut out = String::new();
        crate::c_w_string::push_char(&mut out, '-');
        proof {
            assert(out@ =~= seq!['-']);
        }
        out.append(rendered.as_str());
        proof {
            assert(out@ == seq!['-'] + dec_digits(mag as int));
        }
        out
    }
}


} // verus!
