//! Verified text grammars for generated default values.
//!
//! A field's default-value generator hands the write path plain text;
//! before the text is bound it must be read as the field's native type.
//! Integers are decimal with an optional leading minus and at most 18
//! digits, so every accepted integer fits a signed 64-bit value.  Floats
//! are validated only (digits, an optional fraction part): the text
//! itself travels to the bind boundary, where the embedding application
//! converts it to the store's native double.

use vstd::prelude::*;

verus! {

/// The decimal digits `'0'` through `'9'`.
pub open spec fn is_digit(c: char) -> bool {
    48 <= c as u32 <= 57
}

/// The numeric value of one decimal digit.
pub open spec fn digit_val(c: char) -> int {
    c as u32 - 48
}

pub open spec fn all_digits(s: Seq<char>) -> bool {
    forall|i: int| 0 <= i < s.len() ==> is_digit(#[trigger] s[i])
}

/// The value of a digit string read as a decimal number.
pub open spec fn digits_value(s: Seq<char>) -> int
    decreases s.len(),
{
    if s.len() == 0 {
        0
    } else {
        digits_value(s.drop_last()) * 10 + digit_val(s.last())
    }
}

pub open spec fn pow10(n: nat) -> int
    decreases n,
{
    if n == 0 {
        1
    } else {
        10 * pow10((n - 1) as nat)
    }
}

pub proof fn lemma_pow10_mono(a: nat, b: nat)
    requires
        a <= b,
    ensures
        0 < pow10(a) <= pow10(b),
    decreases b,
{
    if b == 0 {
    } else if a == b {
        lemma_pow10_mono((b - 1) as nat, (b - 1) as nat);
    } else {
        lemma_pow10_mono(a, (b - 1) as nat);
    }
}

/// A digit string of length `n` denotes a value below `pow10(n)`.
pub proof fn lemma_digits_value_bound(s: Seq<char>)
    requires
        all_digits(s),
    ensures
        0 <= digits_value(s) < pow10(s.len()),
    decreases s.len(),
{
    if s.len() == 0 {
    } else {
        assert(all_digits(s.drop_last()));
        lemma_digits_value_bound(s.drop_last());
        assert(0 <= digit_val(s.last()) <= 9);
    }
}

/// A decimal integer: an optional minus, then one to eighteen digits.
pub open spec fn is_int_text(s: Seq<char>) -> bool {
    s.len() > 0 && if s[0] == '-' {
        let d = s.subrange(1, s.len() as int);
        1 <= d.len() <= 18 && all_digits(d)
    } else {
        1 <= s.len() <= 18 && all_digits(s)
    }
}

/// The value denoted by a decimal integer text.
pub open spec fn int_text_value(s: Seq<char>) -> int {
    if s.len() > 0 && s[0] == '-' {
        -digits_value(s.subrange(1, s.len() as int))
    } else {
        digits_value(s)
    }
}

pub fn char_is_digit(c: char) -> (r: bool)
    ensures
        r == is_digit(c),
{
    let d = c as u32;
    48 <= d && d <= 57
}

/// Reads a decimal integer text.  Returns its value exactly when the
/// text matches the integer grammar.
pub fn parse_int_text(s: &str) -> (r: Option<i64>)
    ensures
        r is Some <==> is_int_text(s@),
        r is Some ==> r->Some_0 as int == int_text_value(s@),
{
    let n = s.unicode_len();
    if n == 0 {
        return Option::None;
    }
    let neg = s.get_char(0) == '-';
    let start: usize = if neg {
        1
    } else {
        0
    };
    if n - start < 1 || n - start > 18 {
        return Option::None;
    }
    proof {
        lemma_pow10_mono(17, 17);
    }
    let mut acc: i64 = 0;
    let mut i: usize = start;
    while i < n
        invariant
            start <= i <= n,
            n == s@.len(),
            n >= 1,
            1 <= n - start <= 18,
            neg ==> s@[0] == '-' && start == 1,
            !neg ==> s@[0] != '-' && start == 0,
            all_digits(s@.subrange(start as int, i as int)),
            acc == digits_value(s@.subrange(start as int, i as int)),
            0 <= acc < pow10((i - start) as nat),
        decreases n - i,
    {
        let c = s.get_char(i);
        if !char_is_digit(c) {
            proof {
                let d = if neg {
                    s@.subrange(1, n as int)
                } else {
                    s@
                };
                assert(d[i - start] == s@[i as int]);
            }
            return Option::None;
        }
        proof {
            lemma_pow10_mono((i - start + 1) as nat, 18);
            assert(pow10(18) == 1000000000000000000) by {
                reveal_with_fuel(pow10, 19);
            }
            assert(acc * 10 + 9 < 10 * pow10((i - start) as nat)) by {
                assert(acc <= pow10((i - start) as nat) - 1);
                assert(acc * 10 <= (pow10((i - start) as nat) - 1) * 10) by (nonlinear_arith)
                    requires
                        acc <= pow10((i - start) as nat) - 1,
                ;
            }
        }
        let d: u32 = c as u32;
        acc = acc * 10 + ((d - 48) as i64);
        proof {
            let pre = s@.subrange(start as int, i as int);
            let post = s@.subrange(start as int, i as int + 1);
            assert(post.drop_last() =~= pre);
            assert(post.last() == s@[i as int]);
        }
        i += 1;
    }
    proof {
        let d = if neg {
            s@.subrange(1, n as int)
        } else {
            s@
        };
        assert(s@.subrange(start as int, n as int) =~= d);
        assert(is_int_text(s@));
    }
    if neg {
        Option::Some(-acc)
    } else {
        Option::Some(acc)
    }
}

/// The body of a float text: digits, optionally followed by a dot and
/// more digits.  Both digit runs must be non-empty.
pub open spec fn is_float_body(d: Seq<char>) -> bool {
    (d.len() >= 1 && all_digits(d)) || (exists|k: int|
        1 <= k && k + 2 <= d.len() && d[k] == '.' && all_digits(d.subrange(0, k)) && all_digits(
            d.subrange(k + 1, d.len() as int),
        ))
}

/// A decimal float text: an optional minus, then a float body.
pub open spec fn is_float_text(s: Seq<char>) -> bool {
    s.len() > 0 && if s[0] == '-' {
        is_float_body(s.subrange(1, s.len() as int))
    } else {
        is_float_body(s)
    }
}
/// For a body whose first `p` characters are digits and whose character
/// at `p` is not a digit, the float grammar holds exactly when `p` is a
/// usable split point: at least one digit before it, a dot at it, and a
/// non-empty all-digit fraction after it.
pub proof fn lemma_float_body_split(d: Seq<char>, p: int)
    requires
        0 <= p < d.len(),
        forall|m: int| 0 <= m < p ==> is_digit(#[trigger] d[m]),
        !is_digit(d[p]),
    ensures
        is_float_body(d) <==> (1 <= p && p + 2 <= d.len() && d[p] == '.' && all_digits(
            d.subrange(p + 1, d.len() as int),
        )),
{
    if 1 <= p && p + 2 <= d.len() && d[p] == '.' && all_digits(d.subrange(p + 1, d.len() as int)) {
        assert(all_digits(d.subrange(0, p))) by {
            assert(forall|m: int|
                0 <= m < p ==> #[trigger] d.subrange(0, p)[m] == d[m]);
        }
        assert(is_float_body(d));
    }
    if is_float_body(d) {
        assert(!all_digits(d)) by {
            if all_digits(d) {
                assert(is_digit(d[p]));
            }
        }
        let k = choose|k: int|
            1 <= k && k + 2 <= d.len() && d[k] == '.' && all_digits(d.subrange(0, k))
                && all_digits(d.subrange(k + 1, d.len() as int));
        if k < p {
            assert(is_digit(d[k]));
            assert(false);
        }
        if k > p {
            assert(is_digit(d.subrange(0, k)[p]));
            assert(d.subrange(0, k)[p] == d[p]);
            assert(false);
        }
        assert(k == p);
    }
}

/// Validates a float text against the float grammar.
pub fn check_float_text(s: &str) -> (r: bool)
    ensures
        r == is_float_text(s@),
{
    let n = s.unicode_len();
    if n == 0 {
        return false;
    }
    let start: usize = if s.get_char(0) == '-' {
        1
    } else {
        0
    };
    let ghost d = if start == 1 {
        s@.subrange(1, n as int)
    } else {
        s@
    };
    proof {
        assert(d.len() == n - start);
        assert(forall|m: int| 0 <= m < d.len() ==> #[trigger] d[m] == s@[start + m]);
    }
    if n == start {
        assert(!is_float_text(s@));
        return false;
    }
    let mut i: usize = start;
    while i < n && char_is_digit(s.get_char(i))
        invariant
            start <= i <= n,
            n == s@.len(),
            start == 0 || start == 1,
            start == 1 ==> s@[0] == '-',
            start == 0 ==> s@[0] != '-',
            all_digits(s@.subrange(start as int, i as int)),
        decreases n - i,
    {
        proof {
            let pre = s@.subrange(start as int, i as int);
            let post = s@.subrange(start as int, i as int + 1);
            assert(post.drop_last() =~= pre);
            assert(post.last() == s@[i as int]);
        }
        i += 1;
    }
    proof {
        assert forall|m: int| start <= m < i implies is_digit(#[trigger] s@[m]) by {
            let sub = s@.subrange(start as int, i as int);
            assert(is_digit(sub[m - start]));
            assert(sub[m - start] == s@[m]);
        }
    }
    if i == n {
        // digits only, and at least one of them
        if i == start {
            assert(!is_float_text(s@));
            return false;
        }
        assert(all_digits(d)) by {
            assert(forall|m: int| 0 <= m < d.len() ==> #[trigger] d[m] == s@[start + m]);
        }
        assert(is_float_body(d));
        return true;
    }
    assert(!is_digit(s@[i as int]));
    let ghost p = i - start;
    proof {
        assert(d[p] == s@[i as int]);
        lemma_float_body_split(d, p);
    }
    if i == start {
        // the body does not begin with a digit
        return false;
    }
    if s.get_char(i) != '.' {
        // the first non-digit is not a dot
        return false;
    }
    if i + 1 == n {
        // the fraction part is empty
        return false;
    }
    let dot: usize = i;
    let mut j: usize = dot + 1;
    while j < n && char_is_digit(s.get_char(j))
        invariant
            dot + 1 <= j <= n,
            n == s@.len(),
            start <= dot < n,
            all_digits(s@.subrange(dot as int + 1, j as int)),
        decreases n - j,
    {
        proof {
            let pre = s@.subrange(dot as int + 1, j as int);
            let post = s@.subrange(dot as int + 1, j as int + 1);
            assert(post.drop_last() =~= pre);
            assert(post.last() == s@[j as int]);
        }
        j += 1;
    }
    let ghost frac = d.subrange(p + 1, d.len() as int);
    proof {
        assert(forall|m: int| 0 <= m < frac.len() ==> #[trigger] frac[m] == s@[dot + 1 + m]);
        assert forall|m: int| dot + 1 <= m < j implies is_digit(#[trigger] s@[m]) by {
            let sub = s@.subrange(dot as int + 1, j as int);
            assert(is_digit(sub[m - (dot + 1)]));
            assert(sub[m - (dot + 1)] == s@[m]);
        }
    }
    if j < n {
        // a non-digit inside the fraction part
        assert(!is_digit(s@[j as int]));
        assert(!all_digits(frac)) by {
            if all_digits(frac) {
                assert(is_digit(frac[j - (dot + 1)]));
            }
        }
        return false;
    }
    assert(all_digits(frac));
    true
}

/// Reads a boolean text: exactly `true` or `false`.
pub open spec fn bool_text_value(s: Seq<char>) -> Option<bool> {
    if s == "true"@ {
        Option::Some(true)
    } else if s == "false"@ {
        Option::Some(false)
    } else {
        Option::None
    }
}

pub fn parse_bool_text(s: &str) -> (r: Option<bool>)
    ensures
        r == bool_text_value(s@),
{
    let owned = s.to_owned();
    if owned == String::from_str("true") {
        Option::Some(true)
    } else if owned == String::from_str("false") {
        Option::Some(false)
    } else {
        Option::None
    }
}

} // verus!
