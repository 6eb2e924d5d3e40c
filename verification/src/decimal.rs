//! Decimal numerals: how an integer is written in message texts and wire
//! encodings, and how a configured number is read back.

use vstd::prelude::*;
use vstd::std_specs::iter::IteratorSpec;

verus! {

/// The character that stands for a single decimal digit.
pub open spec fn digit_char(d: nat) -> char {
    if d == 0 {
        '0'
    } else if d == 1 {
        '1'
    } else if d == 2 {
        '2'
    } else if d == 3 {
        '3'
    } else if d == 4 {
        '4'
    } else if d == 5 {
        '5'
    } else if d == 6 {
        '6'
    } else if d == 7 {
        '7'
    } else if d == 8 {
        '8'
    } else {
        '9'
    }
}

/// The numeral of a natural number: most significant digit first, and no
/// leading zero except for zero itself.
pub open spec fn decimal_nat(n: nat) -> Seq<char>
    decreases n,
{
    if n < 10 {
        seq![digit_char(n)]
    } else {
        decimal_nat(n / 10).push(digit_char(n % 10))
    }
}

/// The numeral of an integer: a minus sign in front of a negative one.
pub open spec fn decimal(n: int) -> Seq<char> {
    if n < 0 {
        seq!['-'] + decimal_nat((-n) as nat)
    } else {
        decimal_nat(n as nat)
    }
}

/// Whether a character is one of the ten decimal digits.
pub open spec fn is_digit(c: char) -> bool {
    c == '0' || c == '1' || c == '2' || c == '3' || c == '4' || c == '5' || c == '6' || c == '7'
        || c == '8' || c == '9'
}

/// The value of a decimal digit.
pub open spec fn digit_value(c: char) -> nat {
    if c == '1' {
        1
    } else if c == '2' {
        2
    } else if c == '3' {
        3
    } else if c == '4' {
        4
    } else if c == '5' {
        5
    } else if c == '6' {
        6
    } else if c == '7' {
        7
    } else if c == '8' {
        8
    } else if c == '9' {
        9
    } else {
        0
    }
}

/// Whether a text is a non-empty run of decimal digits.
pub open spec fn is_numeral(s: Seq<char>) -> bool {
    s.len() > 0 && forall|i: int| 0 <= i < s.len() ==> is_digit(#[trigger] s[i])
}

/// The number that a run of decimal digits stands for.
pub open spec fn numeral_value(s: Seq<char>) -> nat
    decreases s.len(),
{
    if s.len() == 0 {
        0
    } else {
        numeral_value(s.drop_last()) * 10 + digit_value(s.last())
    }
}

/// The text of one decimal digit.
fn digit_text(d: u64) -> (s: &'static str)
    requires
        d < 10,
    ensures
        s@ == seq![digit_char(d as nat)],
{
    proof {
        reveal_strlit("0");
        reveal_strlit("1");
        reveal_strlit("2");
        reveal_strlit("3");
        reveal_strlit("4");
        reveal_strlit("5");
        reveal_strlit("6");
        reveal_strlit("7");
        reveal_strlit("8");
        reveal_strlit("9");
    }
    let s = if d == 0 {
        "0"
    } else if d == 1 {
        "1"
    } else if d == 2 {
        "2"
    } else if d == 3 {
        "3"
    } else if d == 4 {
        "4"
    } else if d == 5 {
        "5"
    } else if d == 6 {
        "6"
    } else if d == 7 {
        "7"
    } else if d == 8 {
        "8"
    } else {
        "9"
    };
    assert(s@ =~= seq![digit_char(d as nat)]);
    s
}

/// Appends the numeral of `n` to `out`.
fn append_decimal_nat(out: &mut String, n: u64)
    ensures
        final(out)@ == old(out)@ + decimal_nat(n as nat),
    decreases n,
{
    if n >= 10 {
        append_decimal_nat(out, n / 10);
    }
    out.append(digit_text(n % 10));
    assert(final(out)@ =~= old(out)@ + decimal_nat(n as nat));
}

/// Appends the numeral of `n` to `out`.
pub fn append_decimal(out: &mut String, n: i32)
    ensures
        final(out)@ == old(out)@ + decimal(n as int),
{
    if n < 0 {
        proof {
            reveal_strlit("-");
        }
        out.append("-");
        let magnitude: u64 = (-(n as i64)) as u64;
        append_decimal_nat(out, magnitude);
        assert(final(out)@ =~= old(out)@ + decimal(n as int));
    } else {
        append_decimal_nat(out, n as u64);
    }
}

/// Writes an integer as its decimal numeral.
pub fn decimal_string(n: i32) -> (s: String)
    ensures
        s@ == decimal(n as int),
{
    let mut out = String::new();
    append_decimal(&mut out, n);
    assert(out@ =~= decimal(n as int));
    out
}

/// What a run of digits stands for where it is a numeral of a number up to
/// `limit`, and nothing where it is not.
pub open spec fn magnitude(digits: Seq<char>, limit: nat) -> Option<nat> {
    if is_numeral(digits) && numeral_value(digits) <= limit {
        Some(numeral_value(digits))
    } else {
        None
    }
}

/// Whether a text begins with a sign: a plus, or a minus where the number
/// may be negative.
pub open spec fn has_sign(s: Seq<char>, signed: bool) -> bool {
    s.len() > 0 && (s[0] == '+' || (signed && s[0] == '-'))
}

/// The text after its sign, where it has one.
pub open spec fn after_sign(s: Seq<char>, signed: bool) -> Seq<char> {
    if has_sign(s, signed) {
        s.subrange(1, s.len() as int)
    } else {
        s
    }
}

/// The unsigned 32-bit number that a text stands for: digits only, after an
/// optional plus sign, with nothing before or after them.
pub open spec fn parsed_u32(s: Seq<char>) -> Option<u32> {
    match magnitude(after_sign(s, false), u32::MAX as nat) {
        Some(value) => Some(value as u32),
        None => None,
    }
}

/// The signed 32-bit number that a text stands for: digits only, after an
/// optional plus or minus sign, with nothing before or after them.
pub open spec fn parsed_i32(s: Seq<char>) -> Option<i32> {
    if s.len() > 0 && s[0] == '-' {
        match magnitude(after_sign(s, true), 0x8000_0000) {
            Some(value) => Some((-value) as i32),
            None => None,
        }
    } else {
        match magnitude(after_sign(s, true), i32::MAX as nat) {
            Some(value) => Some(value as i32),
            None => None,
        }
    }
}

/// The value of a numeral is at least that of each of its beginnings.
proof fn lemma_prefix_value(s: Seq<char>, k: int)
    requires
        0 <= k <= s.len(),
    ensures
        numeral_value(s.take(k)) <= numeral_value(s),
    decreases s.len() - k,
{
    if k == s.len() {
        assert(s.take(k) =~= s);
    } else {
        lemma_prefix_value(s, k + 1);
        assert(s.take(k + 1).drop_last() =~= s.take(k));
    }
}

/// The value of a character where it is a digit.
fn digit_of(c: char) -> (d: Option<u64>)
    ensures
        d == if is_digit(c) {
            Some(digit_value(c) as u64)
        } else {
            None
        },
        d matches Some(v) ==> v < 10,
{
    if c == '0' {
        Some(0)
    } else if c == '1' {
        Some(1)
    } else if c == '2' {
        Some(2)
    } else if c == '3' {
        Some(3)
    } else if c == '4' {
        Some(4)
    } else if c == '5' {
        Some(5)
    } else if c == '6' {
        Some(6)
    } else if c == '7' {
        Some(7)
    } else if c == '8' {
        Some(8)
    } else if c == '9' {
        Some(9)
    } else {
        None
    }
}

/// Reads the digits of a text, after its sign, as a numeral of a number up to
/// `limit`, or up to `limit + 1` behind a minus sign. Says also whether there
/// was a minus sign.
fn parse_magnitude(s: &str, signed: bool, limit: u64) -> (parsed: Option<(bool, u64)>)
    requires
        limit < 0x1_0000_0000,
    ensures
        match parsed {
            Some((negative, value)) => {
                &&& negative == (signed && s@.len() > 0 && s@[0] == '-')
                &&& magnitude(
                    after_sign(s@, signed),
                    if negative {
                        limit as nat + 1
                    } else {
                        limit as nat
                    },
                ) == Some(value as nat)
            },
            None => magnitude(
                after_sign(s@, signed),
                if signed && s@.len() > 0 && s@[0] == '-' {
                    limit as nat + 1
                } else {
                    limit as nat
                },
            ) is None,
        },
{
    broadcast use vstd::string::group_string_axioms;

    let ghost digits = after_sign(s@, signed);
    let mut value: u64 = 0;
    let mut any = false;
    let mut first = true;
    let mut negative = false;
    let ghost mut start: int = 0;
    for c in iter: s.chars()
        invariant
            iter.seq() == s@,
            digits == after_sign(s@, signed),
            limit < 0x1_0000_0000,
            first == (iter.index() == 0),
            0 <= start <= iter.index(),
            start <= 1,
            !first ==> start == s@.len() - digits.len(),
            !first ==> negative == (signed && s@[0] == '-'),
            first ==> !negative,
            forall|i: int| start <= i < iter.index() ==> is_digit(#[trigger] s@[i]),
            value == numeral_value(s@.subrange(start, iter.index())),
            value <= limit + 1,
            !negative ==> value <= limit,
            any == (iter.index() > start),
    {
        let ghost k = iter.index();
        if first && (c == '+' || (signed && c == '-')) {
            negative = c == '-';
            proof {
                start = 1;
                assert(s@.subrange(1, 1) =~= Seq::<char>::empty());
            }
        } else {
            assert(s@.subrange(start, k + 1).drop_last() =~= s@.subrange(start, k));
            match digit_of(c) {
                None => {
                    proof {
                        if first {
                            assert(digits =~= s@);
                        }
                        assert(digits[k - (s@.len() - digits.len())] == s@[k]);
                    }
                    return None;
                },
                Some(d) => {
                    let next = value * 10 + d;
                    if next > limit + 1 || (!negative && next > limit) {
                        proof {
                            if first {
                                assert(digits =~= s@);
                            }
                            let offset = s@.len() - digits.len();
                            lemma_prefix_value(digits, k + 1 - offset);
                            assert(digits.take(k + 1 - offset) =~= s@.subrange(offset, k + 1));
                        }
                        return None;
                    }
                    value = next;
                    any = true;
                },
            }
        }
        first = false;
    }
    proof {
        if first {
            assert(digits =~= s@);
        }
        assert(s@.subrange(start, s@.len() as int) =~= digits);
    }
    if any {
        Some((negative, value))
    } else {
        None
    }
}

/// Reads an unsigned 32-bit number: digits only, after an optional plus sign.
/// White space, an empty text, a sign alone or a number that does not fit are
/// refused.
pub fn parse_u32(s: &str) -> (parsed: Option<u32>)
    ensures
        parsed == parsed_u32(s@),
{
    match parse_magnitude(s, false, 0xffff_ffff) {
        Some((_, value)) => Some(value as u32),
        None => None,
    }
}

/// Reads a signed 32-bit number: digits only, after an optional plus or minus
/// sign. White space, an empty text, a sign alone or a number that does not
/// fit are refused.
pub fn parse_i32(s: &str) -> (parsed: Option<i32>)
    ensures
        parsed == parsed_i32(s@),
{
    match parse_magnitude(s, true, 0x7fff_ffff) {
        Some((negative, value)) => {
            if negative {
                Some((-(value as i64)) as i32)
            } else {
                Some(value as i32)
            }
        },
        None => None,
    }
}

/// The numeral of a natural number is a run of digits that stands for it.
pub proof fn lemma_numeral_of_nat(n: nat)
    ensures
        is_numeral(decimal_nat(n)),
        numeral_value(decimal_nat(n)) == n,
    decreases n,
{
    let text = decimal_nat(n);
    assert(text.last() == digit_char(n % 10));
    assert(digit_value(digit_char(n % 10)) == n % 10);
    if n < 10 {
        assert(text.drop_last() =~= Seq::<char>::empty());
        assert(numeral_value(text.drop_last()) == 0);
    } else {
        lemma_numeral_of_nat(n / 10);
        assert(text.drop_last() =~= decimal_nat(n / 10));
    }
}

/// Reading back what was written gives the number that was written.
pub proof fn lemma_decimal_round_trip(n: i32)
    ensures
        parsed_i32(decimal(n as int)) == Some(n),
{
    let text = decimal(n as int);
    if n < 0 {
        let digits = decimal_nat((-n) as nat);
        lemma_numeral_of_nat((-n) as nat);
        assert(text.subrange(1, text.len() as int) =~= digits);
    } else {
        lemma_numeral_of_nat(n as nat);
        assert(is_digit(text[0]));
    }
}

} // verus!
