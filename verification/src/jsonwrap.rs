//! Trusted boundary to serde_json, used by the structured branch of LLM
//! response parsing, and the verified parser for a risk number token.
//!
//! Each member of the accepted document is read as a plain value through
//! one wrapper, under a name over the document text and the key, so the
//! structured branch's contract can say exactly which members it read.

use vstd::prelude::*;

verus! {

/// Whether serde_json accepts a text as one well-formed JSON document.
pub uninterp spec fn json_accepts(s: Seq<char>) -> bool;

/// The boolean member of the document under a key, when the document is an
/// object holding a boolean there.
pub uninterp spec fn json_member_bool(s: Seq<char>, key: Seq<char>) -> Option<bool>;

/// The string member of the document under a key, when the document is an
/// object holding a string there.
pub uninterp spec fn json_member_text(s: Seq<char>, key: Seq<char>) -> Option<Seq<char>>;

/// The decimal token of the number member of the document under a key, when
/// the document is an object holding a number there.
pub uninterp spec fn json_member_number(s: Seq<char>, key: Seq<char>) -> Option<Seq<char>>;

/// Relies on serde_json::from_str::<Value>: whether the text is one
/// well-formed JSON document; the outcome depends on the text alone.
#[verifier::external_body]
pub fn json_well_formed(s: &str) -> (r: bool)
    ensures
        r == json_accepts(s@),
{
    serde_json::from_str::<serde_json::Value>(s).is_ok()
}

/// Relies on serde_json::from_str::<Value> with Value::get and
/// Value::as_bool: the boolean member of the document under the key; the
/// outcome depends on the text and the key alone.
#[verifier::external_body]
pub fn json_bool_member(s: &str, key: &str) -> (r: Option<bool>)
    ensures
        r == json_member_bool(s@, key@),
{
    serde_json::from_str::<serde_json::Value>(s).ok().and_then(|v| v.get(key).and_then(
        |m| m.as_bool(),
    ))
}

/// Relies on serde_json::from_str::<Value> with Value::get and Value::as_str:
/// the string member of the document under the key, owned; the outcome
/// depends on the text and the key alone.
#[verifier::external_body]
pub fn json_text_member(s: &str, key: &str) -> (r: Option<String>)
    ensures
        (match r {
            Some(t) => json_member_text(s@, key@) == Some(t@),
            None => json_member_text(s@, key@) is None,
        }),
{
    serde_json::from_str::<serde_json::Value>(s).ok().and_then(|v| v.get(key).and_then(
        |m| m.as_str().map(|t| t.to_owned()),
    ))
}

/// Relies on serde_json::from_str::<Value> with Value::get, Value::is_number
/// and Value's Display (the decimal token of a number): the number member's
/// token; the outcome depends on the text and the key alone.
#[verifier::external_body]
pub fn json_number_member(s: &str, key: &str) -> (r: Option<String>)
    ensures
        (match r {
            Some(t) => json_member_number(s@, key@) == Some(t@),
            None => json_member_number(s@, key@) is None,
        }),
{
    serde_json::from_str::<serde_json::Value>(s).ok().and_then(|v| v.get(key).and_then(
        |m| if m.is_number() {
            Some(m.to_string())
        } else {
            None
        },
    ))
}

/// The numeric value, in hundredths, of a decimal risk token of the form
/// `digits[.digits]`: the integer part times 100, plus the first two
/// fractional digits, rounded up when any further fractional digit is
/// non-zero (a risk estimate is never rounded down). `None` for any other
/// form, and for integer parts of more than nine digits.
pub open spec fn risk_token_value(t: Seq<char>) -> Option<int> {
    let dot = first_index_of_dot(t, 0);
    let whole = t.take(dot);
    let frac = t.skip(if dot == t.len() { dot } else { dot + 1 });
    if whole.len() < 1 || whole.len() > 9 || !all_digits(whole) || !all_digits(frac) {
        None
    } else {
        Some(
            digits_value(whole) * 100 + frac_hundredths(frac) + (if frac_rounds_up(frac) {
                1int
            } else {
                0int
            }),
        )
    }
}

/// The first index of a dot, or the length when there is none.
pub open spec fn first_index_of_dot(t: Seq<char>, i: int) -> int
    decreases t.len() - i,
{
    if 0 <= i && i < t.len() {
        if t[i] == '.' {
            i
        } else {
            first_index_of_dot(t, i + 1)
        }
    } else {
        i
    }
}

/// Every character is a decimal digit.
pub open spec fn all_digits(t: Seq<char>) -> bool {
    forall|k: int| 0 <= k < t.len() ==> '0' <= #[trigger] t[k] && t[k] <= '9'
}

/// The numeric value of one digit character.
pub open spec fn digit_value(c: char) -> int {
    c as int - '0' as int
}

/// The value of a digit string.
pub open spec fn digits_value(t: Seq<char>) -> int
    decreases t.len(),
{
    if t.len() == 0 {
        0
    } else {
        digits_value(t.drop_last()) * 10 + digit_value(t.last())
    }
}

/// The value of the first two fractional digits, in hundredths.
pub open spec fn frac_hundredths(frac: Seq<char>) -> int {
    if frac.len() == 0 {
        0
    } else if frac.len() == 1 {
        digit_value(frac[0]) * 10
    } else {
        digit_value(frac[0]) * 10 + digit_value(frac[1])
    }
}

/// Whether any fractional digit beyond the first two is non-zero.
pub open spec fn frac_rounds_up(frac: Seq<char>) -> bool {
    exists|k: int| 2 <= k < frac.len() && #[trigger] frac[k] != '0'
}

/// The risk value a token stands for, when it fits a `u32`.
pub open spec fn spec_parse_risk(t: Seq<char>) -> Option<u32> {
    match risk_token_value(t) {
        Some(v) => if v <= u32::MAX {
            Some(v as u32)
        } else {
            None
        },
        None => None,
    }
}

fn digit_of(c: char) -> (r: Option<u32>)
    ensures
        r is Some <==> '0' <= c && c <= '9',
        r is Some ==> r.unwrap() == digit_value(c),
{
    if c >= '0' && c <= '9' {
        Some((c as u32) - ('0' as u32))
    } else {
        None
    }
}

/// Parse a decimal risk token into hundredths.
pub fn parse_risk_token(t: &Vec<char>) -> (r: Option<u32>)
    ensures
        r == spec_parse_risk(t@),
{
    let n = t.len();
    // Find the dot, checking the integer part on the way.
    let mut dot: usize = 0;
    while dot < n && t[dot] != '.'
        invariant
            dot <= n,
            n == t@.len(),
            first_index_of_dot(t@, 0) == first_index_of_dot(t@, dot as int),
        decreases n - dot,
    {
        dot += 1;
    }
    proof {
        assert(first_index_of_dot(t@, 0) == dot as int);
    }
    let ghost whole_s = t@.take(dot as int);
    let ghost frac_s = t@.skip(if dot == n { dot as int } else { dot as int + 1 });
    if dot < 1 || dot > 9 {
        return None;
    }
    // Integer part.
    let mut whole: u32 = 0;
    let mut k: usize = 0;
    while k < dot
        invariant
            k <= dot <= 9,
            dot <= n == t@.len(),
            first_index_of_dot(t@, 0) == dot as int,
            whole_s == t@.take(dot as int),
            frac_s == t@.skip(if dot == n { dot as int } else { dot as int + 1 }),
            whole == digits_value(t@.take(k as int)),
            whole < pow10(k as nat),
            all_digits(t@.take(k as int)),
        decreases dot - k,
    {
        proof {
            lemma_pow10_values();
            lemma_pow10_mono((k + 1) as nat, 9);
            assert(t@.take(k + 1).drop_last() =~= t@.take(k as int));
            assert(t@.take(k + 1).last() == t@[k as int]);
        }
        match digit_of(t[k]) {
            Some(d) => {
                whole = whole * 10 + d;
            },
            None => {
                proof {
                    assert(t@.take(dot as int)[k as int] == t@[k as int]);
                }
                return None;
            },
        }
        k += 1;
    }
    proof {
        lemma_pow10_values();
        lemma_pow10_mono(dot as nat, 9);
        assert(whole_s =~= t@.take(dot as int));
    }
    // Fractional part: first two digits, then the round-up scan.
    let fstart: usize = if dot == n {
        dot
    } else {
        dot + 1
    };
    let mut hundredths: u32 = 0;
    if fstart < n {
        match digit_of(t[fstart]) {
            Some(d) => {
                hundredths = d * 10;
            },
            None => {
                proof {
                    assert(frac_s[0] == t@[fstart as int]);
                }
                return None;
            },
        }
    }
    if fstart + 1 < n {
        match digit_of(t[fstart + 1]) {
            Some(d) => {
                hundredths = hundredths + d;
            },
            None => {
                proof {
                    assert(frac_s[1] == t@[fstart + 1]);
                }
                return None;
            },
        }
    }
    let mut round_up = false;
    let mut q: usize = fstart;
    while q < n
        invariant
            fstart <= q <= n == t@.len(),
            1 <= dot <= 9,
            dot <= fstart,
            fstart == (if dot == n { dot as int } else { dot as int + 1 }),
            first_index_of_dot(t@, 0) == dot as int,
            whole_s == t@.take(dot as int),
            all_digits(whole_s),
            frac_s == t@.skip(fstart as int),
            all_digits(frac_s.take(q - fstart)),
            round_up == exists|j: int| 2 <= j < q - fstart && #[trigger] frac_s[j] != '0',
        decreases n - q,
    {
        let c = t[q];
        proof {
            assert(frac_s[q - fstart] == t@[q as int]);
            assert(frac_s.take(q - fstart + 1).drop_last() =~= frac_s.take(q - fstart));
        }
        if c < '0' || c > '9' {
            proof {
                assert(!all_digits(frac_s));
            }
            return None;
        }
        if q - fstart >= 2 && c != '0' {
            round_up = true;
        }
        q += 1;
    }
    proof {
        assert(frac_s.take(n - fstart) =~= frac_s);
        assert(frac_hundredths(frac_s) == hundredths);
        assert(round_up == frac_rounds_up(frac_s));
    }
    // whole <= 999_999_999, so the total fits a u64 and is compared exactly.
    let total: u64 = (whole as u64) * 100 + (hundredths as u64) + (if round_up {
        1
    } else {
        0
    });
    if total > (u32::MAX as u64) {
        return None;
    }
    Some(total as u32)
}

/// Ten to the `n`.
pub open spec fn pow10(n: nat) -> int
    decreases n,
{
    if n == 0 {
        1
    } else {
        10 * pow10((n - 1) as nat)
    }
}

proof fn lemma_pow10_values()
    ensures
        pow10(0) == 1,
        pow10(1) == 10,
        pow10(2) == 100,
        pow10(3) == 1000,
        pow10(4) == 10000,
        pow10(5) == 100000,
        pow10(6) == 1000000,
        pow10(7) == 10000000,
        pow10(8) == 100000000,
        pow10(9) == 1000000000,
{
    reveal_with_fuel(pow10, 11);
}

proof fn lemma_pow10_mono(a: nat, b: nat)
    requires
        a <= b,
    ensures
        pow10(a) <= pow10(b),
        pow10(a) >= 1,
    decreases b,
{
    if a == b {
        if a > 0 {
            lemma_pow10_mono((a - 1) as nat, (b - 1) as nat);
        }
    } else {
        lemma_pow10_mono(a, (b - 1) as nat);
    }
}

} // verus!
