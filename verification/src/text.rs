//! Decimal numbers as text.
use vstd::prelude::*;

verus! {

/// The digits of `n`, most significant first, without leading zeros.
pub open spec fn digits(n: nat) -> Seq<char>
    decreases n,
{
    if n < 10 {
        seq![digit_char(n)]
    } else {
        digits(n / 10).push(digit_char(n % 10))
    }
}

/// The character of one decimal digit.
pub open spec fn digit_char(d: nat) -> char {
    (('0' as nat) + d) as char
}

/// The decimal representation of `n`, with a minus sign where it is negative.
pub open spec fn decimal(n: int) -> Seq<char> {
    if n < 0 {
        seq!['-'] + digits((-n) as nat)
    } else {
        digits(n as nat)
    }
}

/// Whether `c` is a decimal digit.
pub open spec fn is_digit(c: char) -> bool {
    '0' <= c && c <= '9'
}

/// Whether `s` is a non-empty run of decimal digits.
pub open spec fn is_number(s: Seq<char>) -> bool {
    &&& s.len() > 0
    &&& forall|i: int| 0 <= i < s.len() ==> is_digit(#[trigger] s[i])
}

/// The number that a run of decimal digits denotes.
pub open spec fn number_value(s: Seq<char>) -> nat
    decreases s.len(),
{
    if s.len() == 0 {
        0
    } else {
        number_value(s.drop_last()) * 10 + ((s.last() as nat) - ('0' as nat)) as nat
    }
}

/// The integer that `s` denotes: an optional sign and then nothing but digits,
/// within the range of `i64`.
pub open spec fn parsed_i64(s: Seq<char>) -> Option<i64> {
    let signed = s.len() > 0 && (s[0] == '-' || s[0] == '+');
    let body = if signed { s.skip(1) } else { s };
    let value = if signed && s[0] == '-' {
        -(number_value(body) as int)
    } else {
        number_value(body) as int
    };
    if is_number(body) && i64::MIN <= value <= i64::MAX {
        Some(value as i64)
    } else {
        None
    }
}

/// Appends the digits of `n` to `out`.
fn push_digits(out: &mut String, n: u64)
    ensures
        final(out)@ == old(out)@ + digits(n as nat),
    decreases n,
{
    if n >= 10 {
        push_digits(out, n / 10);
    }
    let ghost before = out@;
    out.append(digit_str(n % 10));
    assert(out@ =~= before.push(digit_char((n % 10) as nat)));
}

/// The text of one decimal digit.
fn digit_str(d: u64) -> (s: &'static str)
    requires
        d < 10,
    ensures
        s@ == seq![digit_char(d as nat)],
{
    proof {
        reveal_strlit("0");
        reveal_strlit("1");
        reveal_strlit("2");
        reveal_strlit("3");
        reveal_strlit("4");
        reveal_strlit("5");
        reveal_strlit("6");
        reveal_strlit("7");
        reveal_strlit("8");
        reveal_strlit("9");
    }
    match d {
        0 => "0",
        1 => "1",
        2 => "2",
        3 => "3",
        4 => "4",
        5 => "5",
        6 => "6",
        7 => "7",
        8 => "8",
        _ => "9",
    }
}

/// The decimal representation of `n`.
pub fn i64_to_string(n: i64) -> (s: String)
    ensures
        s@ == decimal(n as int),
{
    let mut out = String::new();
    if n < 0 {
        out.append("-");
        proof {
            reveal_strlit("-");
        }
        assert(out@ =~= seq!['-']);
        let magnitude: u64 = (-(n as i128)) as u64;
        push_digits(&mut out, magnitude);
    } else {
        push_digits(&mut out, n as u64);
    }
    assert(out@ =~= decimal(n as int));
    out
}

/// Reading one more digit.
proof fn lemma_number_value_step(s: Seq<char>, k: int)
    requires
        0 <= k < s.len(),
    ensures
        number_value(s.take(k + 1)) == number_value(s.take(k)) * 10 + ((s[k] as nat)
            - ('0' as nat)) as nat,
{
    assert(s.take(k + 1).drop_last() =~= s.take(k));
}

/// Every further digit only adds to the value.
proof fn lemma_number_value_monotonic(s: Seq<char>, k: int)
    requires
        0 <= k <= s.len(),
    ensures
        number_value(s.take(k)) <= number_value(s),
    decreases s.len() - k,
{
    if k < s.len() {
        lemma_number_value_step(s, k);
        lemma_number_value_monotonic(s, k + 1);
    } else {
        assert(s.take(k) =~= s);
    }
}

/// Reads a signed decimal integer: an optional sign and then nothing but digits.
pub fn parse_i64(s: &str) -> (r: Option<i64>)
    ensures
        r == parsed_i64(s@),
{
    let mut chars = s.chars();
    let mut next: Option<char> = chars.next();
    let mut negative: bool = false;
    let ghost mut body = s@;
    if next == Some('-') || next == Some('+') {
        negative = next == Some('-');
        next = chars.next();
        proof {
            body = s@.skip(1);
        }
    }
    if next.is_none() {
        return None;
    }
    let mut value: u64 = 0;
    let ghost mut k: int = 0;
    while next.is_some()
        invariant
            negative == (s@.len() > 0 && s@[0] == '-'),
            body == (if s@.len() > 0 && (s@[0] == '-' || s@[0] == '+') {
                s@.skip(1)
            } else {
                s@
            }),
            0 <= k <= body.len(),
            next is Some ==> k < body.len() && next->Some_0 == body[k],
            next is None ==> k == body.len(),
            next is Some ==> vstd::std_specs::iter::IteratorSpec::remaining(&chars) == body.skip(k + 1),
            vstd::std_specs::iter::IteratorSpec::obeys_prophetic_iter_laws(&chars),
            forall|i: int| 0 <= i < k ==> is_digit(#[trigger] body[i]),
            value == number_value(body.take(k)),
            value <= 0x8000_0000_0000_0000,
        decreases body.len() - k,
    {
        let c: char = next.unwrap();
        if !is_digit_char(c) {
            return None;
        }
        proof {
            lemma_number_value_step(body, k);
            lemma_number_value_monotonic(body, k + 1);
        }
        let wide: u128 = value as u128 * 10 + (c as u32 - '0' as u32) as u128;
        if wide > 0x8000_0000_0000_0000 {
            return None;
        }
        value = wide as u64;
        next = chars.next();
        proof {
            k = k + 1;
        }
    }
    assert(body.take(k) =~= body);
    if negative {
        Some((-(value as i128)) as i64)
    } else if value <= i64::MAX as u64 {
        Some(value as i64)
    } else {
        None
    }
}

/// Whether `c` is a decimal digit.
fn is_digit_char(c: char) -> (r: bool)
    ensures
        r == is_digit(c),
{
    '0' <= c && c <= '9'
}

/// The digits of a number are digits, and their value is the number.
proof fn lemma_digits(n: nat)
    ensures
        is_number(digits(n)),
        number_value(digits(n)) == n,
    decreases n,
{
    reveal_with_fuel(number_value, 2);
    if n >= 10 {
        lemma_digits(n / 10);
        assert(digits(n).drop_last() =~= digits(n / 10));
    } else {
        assert(digits(n).drop_last() =~= Seq::<char>::empty());
    }
}

/// Reading back the decimal representation of an integer gives that integer.
pub proof fn law_parse_reads_decimal(n: i64)
    ensures
        parsed_i64(decimal(n as int)) == Some(n),
{
    let s = decimal(n as int);
    if n < 0 {
        lemma_digits((-n) as nat);
        assert(s.skip(1) =~= digits((-n) as nat));
    } else {
        lemma_digits(n as nat);
        assert(is_digit(s[0]));
    }
}

/// Distinct integers have distinct decimal representations.
pub proof fn law_decimal_injective(m: i64, n: i64)
    requires
        decimal(m as int) == decimal(n as int),
    ensures
        m == n,
{
    law_parse_reads_decimal(m);
    law_parse_reads_decimal(n);
}

/// How an integer is written: a single digit as that digit, a larger number as
/// what is left without its last digit and then that digit, and a negative
/// number as a minus sign and then the number without its sign.
pub proof fn law_decimal_places(n: int)
    ensures
        0 <= n <= 9 ==> decimal(n) == seq![(48 + n) as char],
        n >= 10 ==> decimal(n) == decimal(n / 10).push((48 + n % 10) as char),
        n < 0 ==> decimal(n) == seq!['-'] + decimal(-n),
{
}

/// What a run of digits is read as: each further digit multiplies what came
/// before by ten and adds its own value.
pub proof fn law_digits_are_read_by_place(s: Seq<char>, c: char)
    ensures
        number_value(Seq::<char>::empty()) == 0,
        '0' <= c <= '9' ==> number_value(s.push(c)) == number_value(s) * 10 + (c as int - 48),
{
    assert(s.push(c).drop_last() =~= s);
}

/// Which texts are read as an integer: a run of digits, alone or behind a sign,
/// within the range of 64 bits. The value is that of the digits, negated behind
/// a minus sign.
pub proof fn law_signed_digits_are_read(body: Seq<char>)
    requires
        body.len() > 0,
        forall|i: int| 0 <= i < body.len() ==> '0' <= #[trigger] body[i] <= '9',
    ensures
        number_value(body) < 0x8000_0000_0000_0000 ==> {
            &&& parsed_i64(body) == Some(number_value(body) as i64)
            &&& parsed_i64(seq!['+'] + body) == Some(number_value(body) as i64)
            &&& parsed_i64(seq!['-'] + body) == Some((-number_value(body)) as i64)
        },
        number_value(body) == 0x8000_0000_0000_0000 ==> parsed_i64(seq!['-'] + body) == Some(
            i64::MIN,
        ),
        number_value(body) >= 0x8000_0000_0000_0000 ==> {
            &&& parsed_i64(body) is None
            &&& parsed_i64(seq!['+'] + body) is None
        },
        number_value(body) > 0x8000_0000_0000_0000 ==> parsed_i64(seq!['-'] + body) is None,
{
    assert(is_digit(body[0]));
    assert((seq!['+'] + body).skip(1) =~= body);
    assert((seq!['-'] + body).skip(1) =~= body);
    assert(is_number(body));
}

/// Nothing else is read as an integer: no text that is empty or a sign alone,
/// and none with anything but a digit behind its first character.
pub proof fn law_other_texts_are_not_read(s: Seq<char>, i: int)
    ensures
        s.len() == 0 ==> parsed_i64(s) is None,
        s.len() == 1 && !('0' <= s[0] <= '9') ==> parsed_i64(s) is None,
        0 < i < s.len() && !('0' <= s[i] <= '9') ==> parsed_i64(s) is None,
        s.len() > 0 && !('0' <= s[0] <= '9') && s[0] != '+' && s[0] != '-' ==> parsed_i64(
            s,
        ) is None,
{
    let signed = s.len() > 0 && (s[0] == '-' || s[0] == '+');
    if 0 < i < s.len() && !('0' <= s[i] <= '9') {
        if signed {
            assert(s.skip(1)[i - 1] == s[i]);
        }
    }
}

} // verus!
