//! The guessing game's rules: drawing a secret, reading a guess, comparing.
use vstd::prelude::*;
use vstd::string::StrSliceExecFns;

verus! {

/// What a guess earned: too small, too big, or the secret itself.
#[derive(Debug, PartialEq, Eq, Structural)]
pub enum Hint {
    TooSmall,
    TooBig,
    Correct,
}

/// Compares a guess with the secret.
pub fn evaluate_guess(guess: u32, secret: u32) -> (h: Hint)
    ensures
        guess < secret ==> h == Hint::TooSmall,
        guess > secret ==> h == Hint::TooBig,
        guess == secret ==> h == Hint::Correct,
{
    if guess < secret {
        Hint::TooSmall
    } else if guess > secret {
        Hint::TooBig
    } else {
        Hint::Correct
    }
}

/// Relies on rand::Rng::gen_range over rand::thread_rng: the result is
/// drawn from the given half-open range, and only an empty range panics.
#[verifier::external_body]
fn random_in_range(lo: u32, hi: u32) -> (r: u32)
    requires
        lo < hi,
    ensures
        lo <= r < hi,
{
    rand::Rng::gen_range(&mut rand::thread_rng(), lo..hi)
}

/// Draws the round's secret number, between one and a hundred.
pub fn new_secret() -> (s: u32)
    ensures
        1 <= s <= 100,
{
    random_in_range(1, 101)
}

/// Whether the character counts as whitespace for trimming a guess.
pub open spec fn is_ws(c: char) -> bool {
    c == ' ' || c == '\t' || c == '\n' || c == '\r'
}

/// The sequence with leading and trailing whitespace removed.
pub open spec fn trimmed(s: Seq<char>) -> Seq<char>
    decreases s.len(),
{
    if s.len() == 0 {
        s
    } else if is_ws(s[0]) {
        trimmed(s.drop_first())
    } else if is_ws(s.last()) {
        trimmed(s.drop_last())
    } else {
        s
    }
}

/// Whether the character is a decimal digit.
pub open spec fn is_digit(c: char) -> bool {
    '0' <= c && c <= '9'
}

/// The value of a decimal digit.
pub open spec fn digit_val(c: char) -> int {
    c as int - '0' as int
}

/// Whether every character of the sequence is a decimal digit.
pub open spec fn all_digits(s: Seq<char>) -> bool {
    forall|i: int| 0 <= i < s.len() ==> is_digit(#[trigger] s[i])
}

/// The number the digit sequence writes in decimal.
pub open spec fn digits_value(s: Seq<char>) -> int
    decreases s.len(),
{
    if s.len() == 0 {
        0
    } else {
        digits_value(s.drop_last()) * 10 + digit_val(s.last())
    }
}

/// The part of a trimmed guess that must be digits: everything after an
/// optional leading plus sign.
pub open spec fn digits_part(t: Seq<char>) -> Seq<char> {
    if t.len() > 0 && t[0] == '+' {
        t.drop_first()
    } else {
        t
    }
}

/// Whether the string, once trimmed, writes a number that fits in `u32`:
/// an optional plus sign, then at least one decimal digit.
pub open spec fn parses_to(s: Seq<char>, n: u32) -> bool {
    let d = digits_part(trimmed(s));
    &&& d.len() > 0
    &&& all_digits(d)
    &&& digits_value(d) == n
}

/// Whether the string fails to parse as a `u32`.
pub open spec fn parse_fails(s: Seq<char>) -> bool {
    let d = digits_part(trimmed(s));
    d.len() == 0 || !all_digits(d) || digits_value(d) > u32::MAX
}

/// Reads a guess: trims whitespace, accepts an optional plus sign and
/// decimal digits, and rejects anything else or a value too large.
pub fn parse_guess(s: &str) -> (r: Option<u32>)
    ensures
        match r {
            Some(n) => parses_to(s@, n),
            None => parse_fails(s@),
        },
{
    let n = s.unicode_len();
    let mut start: usize = 0;
    let mut end: usize = n;
    while start < end && is_ws_exec(s.get_char(start))
        invariant
            0 <= start <= end <= n,
            n == s@.len(),
            end == n,
            forall|j: int| 0 <= j < start ==> is_ws(s@[j]),
        decreases end - start,
    {
        start += 1;
    }
    while start < end && is_ws_exec(s.get_char(end - 1))
        invariant
            0 <= start <= end <= n,
            n == s@.len(),
            forall|j: int| 0 <= j < start ==> is_ws(s@[j]),
            forall|j: int| end <= j < n ==> is_ws(s@[j]),
            start < end ==> !is_ws(s@[start as int]),
        decreases end - start,
    {
        end -= 1;
    }
    proof {
        lemma_trimmed_is_subrange(s@, start as int, end as int);
    }
    if start < end && s.get_char(start) == '+' {
        start += 1;
    }
    assert(digits_part(trimmed(s@)) =~= s@.subrange(start as int, end as int));
    if start == end {
        return None;
    }
    parse_digits(s, start, end)
}

/// Reads the decimal number written by the characters between the two
/// positions, if they are all digits and the value fits in `u32`.
fn parse_digits(s: &str, start: usize, end: usize) -> (r: Option<u32>)
    requires
        start <= end,
        end <= s@.len(),
    ensures
        match r {
            Some(v) => all_digits(s@.subrange(start as int, end as int)) && digits_value(
                s@.subrange(start as int, end as int),
            ) == v,
            None => !all_digits(s@.subrange(start as int, end as int)) || digits_value(
                s@.subrange(start as int, end as int),
            ) > u32::MAX,
        },
{
    let mut value: u64 = 0;
    let mut i: usize = start;
    while i < end
        invariant
            start <= i <= end <= s@.len(),
            all_digits(s@.subrange(start as int, i as int)),
            value == digits_value(s@.subrange(start as int, i as int)),
            value <= u32::MAX,
        decreases end - i,
    {
        let c = s.get_char(i);
        if c < '0' || c > '9' {
            proof {
                assert(s@.subrange(start as int, end as int)[i - start] == s@[i as int]);
                assert(!is_digit(s@.subrange(start as int, end as int)[i - start]));
            }
            return None;
        }
        let digit: u64 = (c as u32 as u64) - ('0' as u32 as u64);
        proof {
            assert(s@.subrange(start as int, i + 1).drop_last() =~= s@.subrange(
                start as int,
                i as int,
            ));
            assert(all_digits(s@.subrange(start as int, i + 1))) by {
                assert(forall|j: int|
                    0 <= j < i + 1 - start ==> #[trigger] s@.subrange(start as int, i + 1)[j]
                        == s@[start + j]);
            }
        }
        value = value * 10 + digit;
        assert(value == digits_value(s@.subrange(start as int, i + 1)));
        if value > u32::MAX as u64 {
            proof {
                if all_digits(s@.subrange(start as int, end as int)) {
                    lemma_digits_value_grows(s@, start as int, i + 1, end as int);
                }
            }
            return None;
        }
        i += 1;
    }
    proof {
        assert(s@.subrange(start as int, i as int) =~= s@.subrange(start as int, end as int));
    }
    Some(value as u32)
}

/// Whether the character counts as whitespace, decided at run time.
fn is_ws_exec(c: char) -> (r: bool)
    ensures
        r == is_ws(c),
{
    c == ' ' || c == '\t' || c == '\n' || c == '\r'
}

/// Trimming a sequence keeps exactly the stretch between its first and
/// last non-whitespace characters.
proof fn lemma_trimmed_is_subrange(s: Seq<char>, start: int, end: int)
    requires
        0 <= start <= end <= s.len(),
        forall|j: int| 0 <= j < start ==> is_ws(s[j]),
        forall|j: int| end <= j < s.len() ==> is_ws(s[j]),
        start < end ==> !is_ws(s[start]) && !is_ws(s[end - 1]),
    ensures
        trimmed(s) =~= s.subrange(start, end),
    decreases s.len(),
{
    if s.len() == 0 {
    } else if is_ws(s[0]) {
        assert(start > 0 || start == end);
        if start > 0 {
            lemma_trimmed_is_subrange(s.drop_first(), start - 1, end - 1);
            assert(s.drop_first().subrange(start - 1, end - 1) =~= s.subrange(start, end));
        } else {
            lemma_trimmed_is_subrange(s.drop_first(), 0, 0);
            assert(s.drop_first().subrange(0, 0) =~= s.subrange(start, end));
        }
    } else if is_ws(s.last()) {
        assert(end < s.len() || start == end);
        if end < s.len() {
            lemma_trimmed_is_subrange(s.drop_last(), start, end);
            assert(s.drop_last().subrange(start, end) =~= s.subrange(start, end));
        } else {
            assert(start == end && end == s.len());
            assert(is_ws(s[start - 1]) == is_ws(s.last()));
            lemma_trimmed_is_subrange(s.drop_last(), start - 1, end - 1);
            assert(s.drop_last().subrange(start - 1, end - 1) =~= s.subrange(start, end));
        }
    } else {
        assert(start == 0 && end == s.len());
        assert(s.subrange(0, s.len() as int) =~= s);
    }
}

/// A longer run of digits writes at least as large a number.
proof fn lemma_digits_value_grows(s: Seq<char>, start: int, mid: int, end: int)
    requires
        0 <= start <= mid <= end <= s.len(),
        all_digits(s.subrange(start, end)),
    ensures
        digits_value(s.subrange(start, end)) >= digits_value(s.subrange(start, mid)),
        digits_value(s.subrange(start, end)) >= 0,
    decreases end - mid,
{
    if mid == end {
        lemma_digits_value_nonneg(s.subrange(start, end));
    } else {
        lemma_digits_value_grows(s, start, mid + 1, end);
        assert(s.subrange(start, mid + 1).drop_last() =~= s.subrange(start, mid));
        assert(all_digits(s.subrange(start, mid + 1))) by {
            assert(forall|j: int| 0 <= j < mid + 1 - start ==> s.subrange(start, mid + 1)[j]
                == s.subrange(start, end)[j]);
        }
        lemma_digits_value_nonneg(s.subrange(start, mid));
        assert(is_digit(s.subrange(start, mid + 1).last()));
    }
}

/// A digit sequence never writes a negative number.
proof fn lemma_digits_value_nonneg(s: Seq<char>)
    requires
        all_digits(s),
    ensures
        digits_value(s) >= 0,
    decreases s.len(),
{
    if s.len() > 0 {
        assert(all_digits(s.drop_last()));
        lemma_digits_value_nonneg(s.drop_last());
        assert(is_digit(s.last()));
    }
}

} // verus!
