use vstd::prelude::*;
use crate::text::{is_digit, chars_of, string_of, push_range, find_first, first_index};

verus! {

pub open spec fn digit_char(d: int) -> char {
    seq!['0', '1', '2', '3', '4', '5', '6', '7', '8', '9'][d]
}

pub open spec fn digit_value(c: char) -> int {
    c as int - '0' as int
}

/// Decimal digits of `n`, without leading zeros.
pub open spec fn decimal(n: nat) -> Seq<char>
    decreases n,
{
    if n < 10 {
        seq![digit_char(n as int)]
    } else {
        decimal(n / 10) + seq![digit_char((n % 10) as int)]
    }
}

/// Decimal digits of `n`, padded with zeros to at least two.
pub open spec fn two_digits(n: nat) -> Seq<char> {
    if n < 10 {
        seq!['0'] + decimal(n)
    } else {
        decimal(n)
    }
}

/// `seconds` as `MM:SS`: whole minutes, a colon, the seconds left over; each
/// part at least two digits wide.
pub open spec fn clock_text(seconds: nat) -> Seq<char> {
    two_digits(seconds / 60) + seq![':'] + two_digits(seconds % 60)
}

fn push_decimal(out: &mut Vec<char>, n: u64)
    ensures
        final(out)@ == old(out)@ + decimal(n as nat),
    decreases n,
{
    let digits = vec!['0', '1', '2', '3', '4', '5', '6', '7', '8', '9'];
    if n >= 10 {
        push_decimal(out, n / 10);
    }
    let d = (n % 10) as usize;
    out.push(digits[d]);
    assert(digits@ == seq!['0', '1', '2', '3', '4', '5', '6', '7', '8', '9']);
    proof {
        if n < 10 {
            assert(n % 10 == n);
        }
    }
}

fn push_two_digits(out: &mut Vec<char>, n: u64)
    ensures
        final(out)@ == old(out)@ + two_digits(n as nat),
{
    let ghost start = out@;
    if n < 10 {
        out.push('0');
    }
    push_decimal(out, n);
    assert(out@ =~= start + two_digits(n as nat));
}

/// Formats a duration given in whole seconds as `MM:SS`.
pub fn format_clock(seconds: u64) -> (r: String)
    ensures
        r@ == clock_text(seconds as nat),
{
    let mut out: Vec<char> = Vec::new();
    push_two_digits(&mut out, seconds / 60);
    out.push(':');
    push_two_digits(&mut out, seconds % 60);
    assert(out@ =~= clock_text(seconds as nat));
    string_of(&out)
}

/// Value of a run of decimal digits.
pub open spec fn digits_value(d: Seq<char>) -> nat
    decreases d.len(),
{
    if d.len() == 0 {
        0
    } else {
        (digits_value(d.drop_last()) * 10 + digit_value(d.last())) as nat
    }
}

pub open spec fn all_digits(d: Seq<char>) -> bool {
    forall|i: int| 0 <= i < d.len() ==> is_digit(#[trigger] d[i])
}

/// What `u64::from_str` accepts: an optional `+`, then one or more ASCII
/// digits whose value fits in 64 bits.
pub open spec fn parsed_u64(s: Seq<char>) -> Option<u64> {
    let d = if s.len() > 0 && s[0] == '+' {
        s.skip(1)
    } else {
        s
    };
    if d.len() == 0 || !all_digits(d) || digits_value(d) > u64::MAX {
        None
    } else {
        Some(digits_value(d) as u64)
    }
}

proof fn lemma_digits_value_grows(d: Seq<char>, i: int, j: int)
    requires
        0 <= i <= j <= d.len(),
        all_digits(d),
    ensures
        digits_value(d.take(i)) <= digits_value(d.take(j)),
    decreases j - i,
{
    if i < j {
        lemma_digits_value_grows(d, i, j - 1);
        assert(d.take(j).drop_last() =~= d.take(j - 1));
        assert(d.take(j).last() == d[j - 1]);
        assert(is_digit(d[j - 1]));
    }
}

/// Reads a whole number as `u64::from_str` does.
pub fn parse_u64(s: &str) -> (r: Option<u64>)
    ensures
        r == parsed_u64(s@),
{
    let v = chars_of(s);
    let start: usize = if v.len() > 0 && v[0] == '+' {
        1
    } else {
        0
    };
    let ghost d = if s@.len() > 0 && s@[0] == '+' {
        s@.skip(1)
    } else {
        s@
    };
    assert(d =~= v@.skip(start as int));
    if start >= v.len() {
        return None;
    }
    let mut i: usize = start;
    while i < v.len()
        invariant
            start <= i <= v@.len(),
            v@ == s@,
            start == 1 <==> (s@.len() > 0 && s@[0] == '+'),
            start <= 1,
            d == (if s@.len() > 0 && s@[0] == '+' { s@.skip(1) } else { s@ }),
            d == v@.skip(start as int),
            all_digits(d.take(i - start)),
        decreases v@.len() - i,
    {
        if !('0' <= v[i] && v[i] <= '9') {
            assert(d[i - start] == v@[i as int]);
            assert(!all_digits(d));
            return None;
        }
        assert(d.take(i - start + 1) =~= d.take(i - start).push(v@[i as int]));
        i = i + 1;
    }
    assert(d.take(d.len() as int) =~= d);
    let mut acc: u64 = 0;
    let mut k: usize = start;
    assert(d.take(0) =~= Seq::<char>::empty());
    while k < v.len()
        invariant
            start <= k <= v@.len(),
            v@ == s@,
            start <= 1,
            d.len() > 0,
            d == (if s@.len() > 0 && s@[0] == '+' { s@.skip(1) } else { s@ }),
            d == v@.skip(start as int),
            all_digits(d),
            acc as nat == digits_value(d.take(k - start)),
        decreases v@.len() - k,
    {
        let c = v[k];
        assert(c == d[k - start]);
        assert(is_digit(d[k - start]));
        let dv = (c as u32 - '0' as u32) as u64;
        assert(d.take(k - start + 1).drop_last() =~= d.take(k - start));
        assert(d.take(k - start + 1).last() == c);
        assert(is_digit(d[k - start]));
        if acc > (u64::MAX - dv) / 10 {
            proof {
                assert(acc * 10 + dv > u64::MAX) by (nonlinear_arith)
                    requires
                        acc > (u64::MAX - dv) / 10,
                        dv <= 9,
                ;
                assert(digit_value(c) == dv);
                assert(digits_value(d.take(k - start + 1)) == acc * 10 + dv);
                lemma_digits_value_grows(d, k - start + 1, d.len() as int);
                assert(d.take(d.len() as int) =~= d);
            }
            return None;
        }
        assert(acc * 10 + dv <= u64::MAX) by (nonlinear_arith)
            requires
                acc <= (u64::MAX - dv) / 10,
                dv <= 9,
        ;
        acc = acc * 10 + dv;
        k = k + 1;
    }
    Some(acc)
}

/// A duration as the external tool reported it, in one of the forms the
/// metadata can hold.
pub enum DurationValue {
    /// A number of seconds; a fractional number arrives with its fraction dropped.
    Seconds(u64),
    /// A string, meant to hold a whole number of seconds.
    Text(String),
    /// Any other value, as its JSON text.
    Encoded(String),
}

pub open spec fn trim_quotes_start(s: Seq<char>) -> Seq<char>
    decreases s.len(),
{
    if s.len() > 0 && s[0] == '"' {
        trim_quotes_start(s.skip(1))
    } else {
        s
    }
}

pub open spec fn trim_quotes_end(s: Seq<char>) -> Seq<char>
    decreases s.len(),
{
    if s.len() > 0 && s.last() == '"' {
        trim_quotes_end(s.drop_last())
    } else {
        s
    }
}

/// `s` without the `"` characters at either end.
pub open spec fn trim_quotes(s: Seq<char>) -> Seq<char> {
    trim_quotes_end(trim_quotes_start(s))
}

/// The whole-seconds part of a JSON text: what stands before its first dot,
/// with surrounding quotes removed.
pub open spec fn encoded_seconds_text(j: Seq<char>) -> Seq<char> {
    trim_quotes(j.take(first_index(j, '.')))
}

pub open spec fn clock_of(n: Option<u64>) -> Option<Seq<char>> {
    match n {
        Some(x) => Some(clock_text(x as nat)),
        None => None,
    }
}

/// The `MM:SS` text of a reported duration, or none where it cannot be read as
/// whole seconds.
pub open spec fn duration_text(v: DurationValue) -> Option<Seq<char>> {
    match v {
        DurationValue::Seconds(n) => Some(clock_text(n as nat)),
        DurationValue::Text(s) => clock_of(parsed_u64(s@)),
        DurationValue::Encoded(j) => clock_of(parsed_u64(encoded_seconds_text(j@))),
    }
}

fn trimmed_quotes(v: &Vec<char>) -> (r: Vec<char>)
    ensures
        r@ == trim_quotes(v@),
{
    let mut a: usize = 0;
    assert(v@.skip(0) =~= v@);
    while a < v.len() && v[a] == '"'
        invariant
            a <= v@.len(),
            trim_quotes_start(v@) == trim_quotes_start(v@.skip(a as int)),
        decreases v@.len() - a,
    {
        assert(v@.skip(a as int).skip(1) =~= v@.skip(a + 1));
        a = a + 1;
    }
    let mut b: usize = v.len();
    assert(v@.skip(a as int).take(b - a) =~= v@.skip(a as int));
    while b > a && v[b - 1] == '"'
        invariant
            a <= b <= v@.len(),
            trim_quotes(v@) == trim_quotes_end(v@.subrange(a as int, b as int)),
        decreases b,
    {
        assert(v@.subrange(a as int, b as int).drop_last() =~= v@.subrange(a as int, b - 1));
        b = b - 1;
    }
    let mut out: Vec<char> = Vec::new();
    push_range(&mut out, v, a, b);
    out
}

/// Normalizes a reported duration to `MM:SS`; a value that is not a whole
/// number of seconds gives none, not an error.
pub fn normalize_duration(v: &DurationValue) -> (r: Option<String>)
    ensures
        match r {
            Some(t) => duration_text(*v) == Some(t@),
            None => duration_text(*v) is None,
        },
{
    match v {
        DurationValue::Seconds(n) => Some(format_clock(*n)),
        DurationValue::Text(s) => match parse_u64(s.as_str()) {
            Some(n) => Some(format_clock(n)),
            None => None,
        },
        DurationValue::Encoded(j) => {
            let c = chars_of(j.as_str());
            let k = find_first(&c, '.');
            let mut head: Vec<char> = Vec::new();
            push_range(&mut head, &c, 0, k);
            assert(head@ =~= j@.take(first_index(j@, '.')));
            let t = string_of(&trimmed_quotes(&head));
            match parse_u64(t.as_str()) {
                Some(n) => Some(format_clock(n)),
                None => None,
            }
        },
    }
}

} // verus!
