use vstd::prelude::*;

verus! {

pub open spec fn is_digit(c: char) -> bool {
    '0' <= c && c <= '9'
}

pub open spec fn digit_value(c: char) -> int {
    c as int - '0' as int
}

/// One or more ASCII digits and nothing else.
pub open spec fn all_digits(s: Seq<char>) -> bool {
    s.len() > 0 && forall|i: int| 0 <= i < s.len() ==> is_digit(#[trigger] s[i])
}

/// The number that a run of decimal digits denotes.
pub open spec fn digits_value(s: Seq<char>) -> int
    decreases s.len(),
{
    if s.len() == 0 {
        0
    } else {
        10 * digits_value(s.drop_last()) + digit_value(s.last())
    }
}

/// What decimal integer text denotes, read the way Rust's integer parsing
/// reads it: an optional sign, then one or more ASCII digits, nothing else.
/// A minus sign is part of the grammar only for signed targets.
pub open spec fn decimal_value(s: Seq<char>, signed: bool) -> Option<int> {
    if s.len() > 0 && s[0] == '+' {
        if all_digits(s.drop_first()) {
            Some(digits_value(s.drop_first()))
        } else {
            None
        }
    } else if signed && s.len() > 0 && s[0] == '-' {
        if all_digits(s.drop_first()) {
            Some(-digits_value(s.drop_first()))
        } else {
            None
        }
    } else if all_digits(s) {
        Some(digits_value(s))
    } else {
        None
    }
}

/// The integer that `s` denotes for a target type whose range is `lo..=hi`,
/// or `None` where the text is malformed or the value falls outside the range.
pub open spec fn integer_text(s: Seq<char>, lo: int, hi: int) -> Option<int> {
    match decimal_value(s, lo < 0) {
        Some(v) => if lo <= v && v <= hi {
            Some(v)
        } else {
            None
        },
        None => None,
    }
}

/// What boolean text denotes: exactly `true` or exactly `false`.
pub open spec fn bool_text(s: Seq<char>) -> Option<bool> {
    if s == "true"@ {
        Some(true)
    } else if s == "false"@ {
        Some(false)
    } else {
        None
    }
}

pub proof fn lemma_digits_value_nonneg(s: Seq<char>)
    requires
        forall|i: int| 0 <= i < s.len() ==> is_digit(#[trigger] s[i]),
    ensures
        digits_value(s) >= 0,
    decreases s.len(),
{
    if s.len() > 0 {
        let t = s.drop_last();
        assert forall|i: int| 0 <= i < t.len() implies is_digit(#[trigger] t[i]) by {
            assert(t[i] == s[i]);
        }
        lemma_digits_value_nonneg(t);
    }
}

/// A run of digits denotes at least what any of its prefixes denotes.
pub proof fn lemma_digits_value_prefix(s: Seq<char>, n: int)
    requires
        0 <= n <= s.len(),
        forall|i: int| 0 <= i < s.len() ==> is_digit(#[trigger] s[i]),
    ensures
        digits_value(s.subrange(0, n)) <= digits_value(s),
    decreases s.len(),
{
    if n < s.len() {
        let t = s.drop_last();
        assert forall|i: int| 0 <= i < t.len() implies is_digit(#[trigger] t[i]) by {
            assert(t[i] == s[i]);
        }
        lemma_digits_value_prefix(t, n);
        assert(t.subrange(0, n) =~= s.subrange(0, n));
        lemma_digits_value_nonneg(t);
        assert(is_digit(s[s.len() - 1]));
    } else {
        assert(s.subrange(0, n) =~= s);
    }
}

/// Reads decimal integer text for a target type whose range is `lo..=hi`.
pub fn parse_integer(s: &str, lo: i128, hi: i128) -> (r: Option<i128>)
    requires
        lo <= 0 <= hi,
        hi <= u64::MAX,
        lo >= i64::MIN,
        lo < 0 ==> hi < -lo,
    ensures
        match integer_text(s@, lo as int, hi as int) {
            Some(v) => r == Some(v as i128),
            None => r.is_none(),
        },
{
    let signed = lo < 0;
    let bound: i128 = if signed {
        -lo
    } else {
        hi
    };
    let ghost text = s@;
    let mut at_start = true;
    let mut has_sign = false;
    let mut negative = false;
    let mut seen_digit = false;
    let mut magnitude: i128 = 0;
    for c in it: s.chars()
        invariant
            it.seq() == text,
            text == s@,
            signed == (lo < 0),
            lo <= 0 <= hi,
            lo < 0 ==> hi < -lo,
            bound as int == (if signed {
                -(lo as int)
            } else {
                hi as int
            }),
            0 <= bound <= u64::MAX + 1,
            at_start == (it.index() == 0),
            it.index() == 0 ==> !has_sign && !negative && magnitude == 0,
            it.index() > 0 ==> has_sign == (text[0] == '+' || (signed && text[0] == '-')),
            negative == (has_sign && text[0] == '-'),
            forall|j: int|
                (if has_sign {
                    1int
                } else {
                    0int
                }) <= j < it.index() ==> is_digit(#[trigger] text[j]),
            magnitude == digits_value(
                text.subrange(
                    if has_sign {
                        1int
                    } else {
                        0int
                    },
                    it.index() as int,
                ),
            ),
            0 <= magnitude <= bound,
            seen_digit == (it.index() > (if has_sign {
                1int
            } else {
                0int
            })),
    {
        let ghost k = it.index() as int;
        let ghost p: int = if has_sign {
            1int
        } else {
            0int
        };
        if at_start && (c == '+' || (signed && c == '-')) {
            has_sign = true;
            negative = c == '-';
            assert(text.subrange(1, 1).len() == 0);
        } else if '0' <= c && c <= '9' {
            let d = (c as u32 - '0' as u32) as i128;
            assert(text.subrange(p, k + 1).drop_last() =~= text.subrange(p, k));
            magnitude = magnitude * 10 + d;
            seen_digit = true;
            if magnitude > bound {
                proof {
                    lemma_too_large(text, p, k + 1, bound as int, lo as int, hi as int);
                }
                return None;
            }
        } else {
            proof {
                lemma_not_digit(text, p, k, lo as int, hi as int);
            }
            return None;
        }
        at_start = false;
    }
    let ghost p: int = if has_sign {
        1int
    } else {
        0int
    };
    if !seen_digit {
        None
    } else {
        let v: i128 = if negative {
            -magnitude
        } else {
            magnitude
        };
        proof {
            assert(text.subrange(p, text.len() as int) =~= if has_sign {
                text.drop_first()
            } else {
                text
            });
        }
        if lo <= v && v <= hi {
            Some(v)
        } else {
            None
        }
    }
}

proof fn lemma_too_large(text: Seq<char>, p: int, n: int, bound: int, lo: int, hi: int)
    requires
        0 <= p <= 1,
        p < n <= text.len(),
        p == 1 ==> (text[0] == '+' || (lo < 0 && text[0] == '-')),
        p == 0 ==> !(text[0] == '+' || (lo < 0 && text[0] == '-')),
        forall|j: int| p <= j < n ==> is_digit(#[trigger] text[j]),
        digits_value(text.subrange(p, n)) > bound,
        bound == (if lo < 0 {
            -lo
        } else {
            hi
        }),
        lo <= 0 <= hi,
        lo < 0 ==> hi < -lo,
    ensures
        integer_text(text, lo, hi).is_none(),
{
    let rest = text.subrange(p, text.len() as int);
    if all_digits(rest) {
        lemma_digits_value_prefix(rest, n - p);
        assert(rest.subrange(0, n - p) =~= text.subrange(p, n));
    }
    if p == 1 {
        assert(rest =~= text.drop_first());
    } else {
        assert(rest =~= text);
    }
}

proof fn lemma_not_digit(text: Seq<char>, p: int, k: int, lo: int, hi: int)
    requires
        0 <= p <= 1,
        p <= k < text.len(),
        p == 1 ==> (text[0] == '+' || (lo < 0 && text[0] == '-')),
        p == 0 ==> !(text[0] == '+' || (lo < 0 && text[0] == '-')),
        !is_digit(text[k]),
    ensures
        integer_text(text, lo, hi).is_none(),
{
    if p == 1 {
        assert(text.drop_first()[k - 1] == text[k]);
        assert(!all_digits(text.drop_first()));
    } else {
        assert(!all_digits(text));
    }
}

/// Reads boolean text: exactly `true` or `false`.
pub fn parse_bool(s: &str) -> (r: Option<bool>)
    ensures
        r == bool_text(s@),
{
    let owned = s.to_owned();
    let yes = "true".to_owned();
    let no = "false".to_owned();
    if owned.eq(&yes) {
        Some(true)
    } else if owned.eq(&no) {
        Some(false)
    } else {
        None
    }
}

} // verus!
