use vstd::prelude::*;

verus! {

/// A finite decimal number: `(-1)^negative * mantissa / 10^scale`.
///
/// Numeric cells are kept exactly as written (digits and the position of
/// the decimal point), so no precision is lost while decoding.
#[derive(Clone, Copy, Debug, PartialEq, Eq, Structural)]
pub struct Decimal {
    pub negative: bool,
    pub mantissa: u64,
    pub scale: usize,
}

pub open spec fn is_digit(c: char) -> bool {
    '0' <= c && c <= '9'
}

pub open spec fn digit_value(c: char) -> nat {
    ((c as u32) - ('0' as u32)) as nat
}

pub open spec fn all_digits(s: Seq<char>) -> bool {
    forall|i: int| 0 <= i < s.len() ==> is_digit(#[trigger] s[i])
}

/// The number that a string of decimal digits denotes.
pub open spec fn digits_value(s: Seq<char>) -> nat
    decreases s.len(),
{
    if s.len() == 0 {
        0
    } else {
        digits_value(s.drop_last()) * 10 + digit_value(s.last())
    }
}

/// Length of the optional leading sign.
pub open spec fn sign_len(s: Seq<char>) -> int {
    if s.len() > 0 && (s[0] == '+' || s[0] == '-') {
        1
    } else {
        0
    }
}

/// Index of the first `.` in `s`, or `s.len()` when there is none.
pub open spec fn first_dot(s: Seq<char>) -> int
    decreases s.len(),
{
    if s.len() == 0 || s[0] == '.' {
        0
    } else {
        1 + first_dot(s.skip(1))
    }
}

/// The digits before the decimal point (after the sign).
pub open spec fn integer_digits(s: Seq<char>) -> Seq<char> {
    let body = s.skip(sign_len(s));
    body.take(first_dot(body))
}

/// The digits after the decimal point; empty when there is no point.
pub open spec fn fraction_digits(s: Seq<char>) -> Seq<char> {
    let body = s.skip(sign_len(s));
    if first_dot(body) < body.len() {
        body.skip(first_dot(body) + 1)
    } else {
        Seq::empty()
    }
}

/// The grammar of a number: `[+-]? digits* ( '.' digits* )?` with at least
/// one digit, whose digits fit in a `u64` mantissa.
pub open spec fn spec_parse_decimal(s: Seq<char>) -> Option<Decimal> {
    let ip = integer_digits(s);
    let fp = fraction_digits(s);
    if all_digits(ip) && all_digits(fp) && ip.len() + fp.len() > 0 && digits_value(ip + fp)
        <= u64::MAX {
        Some(
            Decimal {
                negative: sign_len(s) == 1 && s[0] == '-',
                mantissa: digits_value(ip + fp) as u64,
                scale: fp.len() as usize,
            },
        )
    } else {
        None
    }
}

proof fn lemma_first_dot(s: Seq<char>)
    ensures
        0 <= first_dot(s) <= s.len(),
        forall|i: int| 0 <= i < first_dot(s) ==> s[i] != '.',
        first_dot(s) < s.len() ==> s[first_dot(s)] == '.',
    decreases s.len(),
{
    if s.len() > 0 && s[0] != '.' {
        lemma_first_dot(s.skip(1));
        assert forall|i: int| 0 < i < first_dot(s) implies s[i] != '.' by {
            assert(s[i] == s.skip(1)[i - 1]);
        }
    }
}

proof fn lemma_first_dot_is(s: Seq<char>, p: int)
    requires
        0 <= p <= s.len(),
        forall|i: int| 0 <= i < p ==> s[i] != '.',
        p < s.len() ==> s[p] == '.',
    ensures
        first_dot(s) == p,
{
    lemma_first_dot(s);
    if first_dot(s) < p {
        assert(s[first_dot(s)] == '.');
    }
    if p < first_dot(s) {
        assert(s[p] != '.');
    }
}

proof fn lemma_digits_value_push(s: Seq<char>, c: char)
    ensures
        digits_value(s.push(c)) == digits_value(s) * 10 + digit_value(c),
{
    assert(s.push(c).drop_last() =~= s);
}

proof fn lemma_digits_value_grows(a: Seq<char>, b: Seq<char>)
    ensures
        digits_value(a + b) >= digits_value(a),
    decreases b.len(),
{
    if b.len() > 0 {
        let c = b.last();
        let b0 = b.drop_last();
        assert((a + b).drop_last() =~= a + b0);
        lemma_digits_value_grows(a, b0);
    }
}

proof fn lemma_bad_char_rejects(sv: Seq<char>, start: int, i: int, seen_dot: bool, dot: int)
    requires
        start == sign_len(sv),
        start <= i < sv.len(),
        !is_digit(sv[i]),
        seen_dot ==> start <= dot < i && sv[dot] == '.',
        !seen_dot ==> sv[i] != '.',
        forall|k: int| start <= k < i && k != dot ==> sv[k] != '.',
    ensures
        spec_parse_decimal(sv) is None,
{
    let body = sv.skip(start);
    lemma_first_dot(body);
    let p = first_dot(body);
    let k = i - start;
    assert(body[k] == sv[i]);
    if seen_dot {
        assert(body[dot - start] == '.');
        assert(p <= dot - start);
    }
    if k < p {
        assert(integer_digits(sv)[k] == sv[i]);
    } else if k > p {
        assert(fraction_digits(sv)[k - p - 1] == sv[i]);
    } else {
        assert(sv[i] == '.');
    }
}

proof fn lemma_overflow_rejects(sv: Seq<char>, start: int, i: int, seen_dot: bool, dot: int, d: Seq<char>)
    requires
        start == sign_len(sv),
        start <= i < sv.len(),
        seen_dot ==> start <= dot < i && sv[dot] == '.',
        !seen_dot ==> dot == sv.len(),
        forall|k: int| start <= k <= i && k != dot ==> sv[k] != '.',
        !seen_dot ==> d == sv.skip(start).take(i + 1 - start),
        seen_dot ==> d == sv.skip(start).take(dot - start) + sv.skip(start).subrange(
            dot - start + 1,
            i + 1 - start,
        ),
        digits_value(d) > u64::MAX,
    ensures
        spec_parse_decimal(sv) is None,
{
    let body = sv.skip(start);
    lemma_first_dot(body);
    let p = first_dot(body);
    let ip = integer_digits(sv);
    let fp = fraction_digits(sv);
    if seen_dot {
        lemma_first_dot_is(body, dot - start);
        let rest = body.skip(i + 1 - start);
        assert(ip + fp =~= d + rest);
        lemma_digits_value_grows(d, rest);
    } else {
        if p <= i - start {
            assert(body[p] == sv[p + start]);
            assert(false);
        }
        let rest = body.subrange(i + 1 - start, p) + fp;
        assert(ip + fp =~= d + rest);
        lemma_digits_value_grows(d, rest);
    }
}

impl Decimal {
    /// Parses `[+-]? digits* ( '.' digits* )?` with at least one digit.
    /// Exponents, infinities and NaN are not numbers of this format.
    pub fn parse(s: &str) -> (r: Option<Decimal>)
        ensures
            r == spec_parse_decimal(s@),
    {
        let n = s.unicode_len();
        let ghost sv = s@;
        let mut start: usize = 0;
        let mut negative = false;
        if n > 0 {
            let c0 = s.get_char(0);
            if c0 == '+' || c0 == '-' {
                start = 1;
                negative = c0 == '-';
            }
        }
        let ghost body = sv.skip(start as int);
        assert(start as int == sign_len(sv));
        let mut i: usize = start;
        let mut seen_dot = false;
        let mut dot: usize = n;
        let mut acc: u64 = 0;
        let mut count: usize = 0;
        let mut scale: usize = 0;
        let ghost mut digits: Seq<char> = Seq::empty();
        while i < n
            invariant
                n == sv.len(),
                sv == s@,
                body == sv.skip(start as int),
                start as int == sign_len(sv),
                start <= i <= n,
                negative == (sign_len(sv) == 1 && sv[0] == '-'),
                !seen_dot ==> dot == n,
                seen_dot ==> start <= dot < i && sv[dot as int] == '.',
                forall|k: int| start <= k < i && k != dot ==> sv[k] != '.',
                forall|k: int| start <= k < i && k != dot ==> is_digit(#[trigger] sv[k]),
                !seen_dot ==> digits == body.take(i - start),
                seen_dot ==> digits == body.take(dot - start) + body.subrange(
                    dot - start + 1,
                    i - start,
                ),
                acc as nat == digits_value(digits),
                count == digits.len(),
                seen_dot ==> scale == i - dot - 1,
                !seen_dot ==> scale == 0,
            decreases n - i,
        {
            let c = s.get_char(i);
            if c == '.' && !seen_dot {
                seen_dot = true;
                dot = i;
                proof {
                    assert(body.take(dot - start) + body.subrange(dot - start + 1, i + 1 - start)
                        =~= body.take(i - start));
                }
            } else if '0' <= c && c <= '9' {
                let d = (c as u32 - '0' as u32) as u64;
                proof {
                    lemma_digits_value_push(digits, c);
                    if seen_dot {
                        assert(body.take(dot - start) + body.subrange(
                            dot - start + 1,
                            i + 1 - start,
                        ) =~= digits.push(c));
                    } else {
                        assert(body.take(i + 1 - start) =~= digits.push(c));
                    }
                }
                if acc > (u64::MAX - d) / 10 {
                    proof {
                        assert(digits_value(digits.push(c)) > u64::MAX);
                        lemma_overflow_rejects(sv, start as int, i as int, seen_dot, dot as int, digits.push(c));
                    }
                    return None;
                }
                acc = acc * 10 + d;
                count = count + 1;
                if seen_dot {
                    scale = scale + 1;
                }
                proof {
                    digits = digits.push(c);
                }
            } else {
                proof {
                    lemma_bad_char_rejects(sv, start as int, i as int, seen_dot, dot as int);
                }
                return None;
            }
            i = i + 1;
        }
        proof {
            lemma_first_dot_is(body, dot - start);
            let ip = integer_digits(sv);
            let fp = fraction_digits(sv);
            if seen_dot {
                assert(ip =~= body.take(dot - start));
                assert(fp =~= body.subrange(dot - start + 1, n - start));
                assert(body.subrange(dot - start + 1, n - start) =~= body.skip(dot - start + 1));
            } else {
                assert(ip =~= body);
                assert(fp =~= Seq::<char>::empty());
                assert(body.take(n - start) =~= body);
                assert(ip + fp =~= body);
            }
            assert(ip + fp =~= digits);
            assert(all_digits(ip));
            assert(all_digits(fp));
        }
        if count == 0 {
            return None;
        }
        Some(Decimal { negative, mantissa: acc, scale })
    }
}

/// Text that starts with neither a digit, a sign nor a point is no number.
pub proof fn lemma_non_numeric_start(s: Seq<char>)
    requires
        s.len() > 0,
        !is_digit(s[0]),
        s[0] != '.',
        s[0] != '+',
        s[0] != '-',
    ensures
        spec_parse_decimal(s) is None,
{
    assert(s.skip(0) =~= s);
    lemma_first_dot(s.skip(1));
    assert(first_dot(s) >= 1);
    assert(integer_digits(s)[0] == s[0]);
}

/// A number written as digits, optionally followed by a point and more
/// digits, decodes to exactly the value written.
pub proof fn lemma_decimal_literal_round_trip(a: Seq<char>, b: Seq<char>)
    requires
        a.len() > 0,
        all_digits(a),
        all_digits(b),
        digits_value(a + b) <= u64::MAX,
    ensures
        spec_parse_decimal(a + seq!['.'] + b) == Some(
            Decimal { negative: false, mantissa: digits_value(a + b) as u64, scale: b.len() as usize },
        ),
        digits_value(a) <= u64::MAX ==> spec_parse_decimal(a) == Some(
            Decimal { negative: false, mantissa: digits_value(a) as u64, scale: 0 },
        ),
{
    let s = a + seq!['.'] + b;
    assert(is_digit(a[0]));
    assert(s[0] == a[0]);
    assert(s.skip(0) =~= s);
    lemma_first_dot_is(s, a.len() as int);
    assert(integer_digits(s) =~= a);
    assert(fraction_digits(s) =~= b);
    lemma_digits_value_grows(a, b);
    assert(a.skip(0) =~= a);
    lemma_first_dot_is(a, a.len() as int);
    assert(integer_digits(a) =~= a);
    assert(fraction_digits(a) =~= Seq::<char>::empty());
    assert(a + Seq::<char>::empty() =~= a);
}

} // verus!
