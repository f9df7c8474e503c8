//! Decimal numbers and whitespace-separated fields in text.

use vstd::prelude::*;

verus! {

/// The character that stands for the digit `d`.
pub open spec fn digit_char(d: nat) -> char
    recommends
        d < 10,
{
    ('0' as nat + d) as char
}

/// The decimal numeral of `n`, without sign or leading zeros.
pub open spec fn decimal(n: nat) -> Seq<char>
    decreases n,
{
    if n < 10 {
        seq![digit_char(n)]
    } else {
        decimal(n / 10).push(digit_char(n % 10))
    }
}

fn digit_text(d: u64) -> (s: &'static str)
    requires
        d < 10,
    ensures
        s@ == seq![digit_char(d as nat)],
{
    proof {
        reveal_strlit("0");
        reveal_strlit("1");
        reveal_strlit("2");
        reveal_strlit("3");
        reveal_strlit("4");
        reveal_strlit("5");
        reveal_strlit("6");
        reveal_strlit("7");
        reveal_strlit("8");
        reveal_strlit("9");
    }
    if d == 0 {
        "0"
    } else if d == 1 {
        "1"
    } else if d == 2 {
        "2"
    } else if d == 3 {
        "3"
    } else if d == 4 {
        "4"
    } else if d == 5 {
        "5"
    } else if d == 6 {
        "6"
    } else if d == 7 {
        "7"
    } else if d == 8 {
        "8"
    } else {
        "9"
    }
}

/// Writes `n` as a decimal numeral.
pub fn format_decimal(n: u64) -> (s: String)
    ensures
        s@ == decimal(n as nat),
    decreases n,
{
    if n < 10 {
        String::from_str(digit_text(n))
    } else {
        let mut s: String = format_decimal(n / 10);
        s.append(digit_text(n % 10));
        s
    }
}

/// Whether `c` is one of the ten decimal digits.
pub open spec fn is_digit(c: char) -> bool {
    '0' <= c && c <= '9'
}

/// The number that the digit `c` stands for.
pub open spec fn digit_value(c: char) -> nat
    recommends
        is_digit(c),
{
    (c as nat - '0' as nat) as nat
}

/// The number that a run of digits stands for, the first digit counting most.
pub open spec fn digits_value(s: Seq<char>) -> nat
    decreases s.len(),
{
    if s.len() == 0 {
        0
    } else {
        digits_value(s.drop_last()) * 10 + digit_value(s.last())
    }
}

/// Whether `s` holds digits only.
pub open spec fn all_digits(s: Seq<char>) -> bool {
    forall|i: int| 0 <= i < s.len() ==> is_digit(#[trigger] s[i])
}

/// `s` without the plus sign that may stand in front of a numeral.
pub open spec fn unsigned_digits(s: Seq<char>) -> Seq<char> {
    if s.len() > 0 && s[0] == '+' {
        s.drop_first()
    } else {
        s
    }
}

/// The number that `s` spells, where `s` is an optional plus sign followed by
/// one or more digits and nothing else, and the number is at most `max`.
pub open spec fn parse_unsigned(s: Seq<char>, max: nat) -> Option<nat> {
    let digits = unsigned_digits(s);
    if digits.len() > 0 && all_digits(digits) && digits_value(digits) <= max {
        Some(digits_value(digits))
    } else {
        None
    }
}

/// A decimal numeral is one digit or more, and digits only.
pub proof fn decimal_is_digits(n: nat)
    ensures
        decimal(n).len() > 0,
        all_digits(decimal(n)),
    decreases n,
{
    if n >= 10 {
        decimal_is_digits(n / 10);
    }
}

/// What `format_decimal` writes, `read_unsigned` reads back as the same
/// number, wherever the number is within the limit.
pub proof fn decimal_reads_back(n: nat, max: nat)
    requires
        n <= max,
    ensures
        parse_unsigned(decimal(n), max) == Some(n),
{
    decimal_is_digits(n);
    decimal_value(n);
    assert(is_digit(decimal(n)[0]));
}

/// A decimal numeral stands for the number it was made of.
proof fn decimal_value(n: nat)
    ensures
        digits_value(decimal(n)) == n,
    decreases n,
{
    if n < 10 {
        assert(decimal(n).drop_last() =~= Seq::<char>::empty());
        assert(digits_value(decimal(n)) == digits_value(decimal(n).drop_last()) * 10
            + digit_value(decimal(n).last()));
    } else {
        decimal_value(n / 10);
        assert(decimal(n).drop_last() =~= decimal(n / 10));
    }
}

/// A longer run of digits never stands for a smaller number than its start.
proof fn digits_value_grows(s: Seq<char>, n: int)
    requires
        0 <= n <= s.len(),
    ensures
        digits_value(s.take(n)) <= digits_value(s),
    decreases s.len(),
{
    if n < s.len() {
        assert(s.drop_last().take(n) =~= s.take(n));
        digits_value_grows(s.drop_last(), n);
    } else {
        assert(s.take(n) =~= s);
    }
}

/// Reads an unsigned decimal number of at most `max` from `s`.
pub fn read_unsigned(s: &str, max: u64) -> (r: Option<u64>)
    ensures
        match r {
            Some(v) => parse_unsigned(s@, max as nat) == Some(v as nat),
            None => parse_unsigned(s@, max as nat) is None,
        },
{
    let len: usize = s.unicode_len();
    let mut i: usize = 0;
    if len > 0 && s.get_char(0) == '+' {
        i = 1;
    }
    if i == len {
        return None;
    }
    let ghost digits = unsigned_digits(s@);
    let ghost skipped = i as int;
    let mut value: u64 = 0;
    while i < len
        invariant
            0 <= skipped <= i <= len,
            len == s@.len(),
            digits == unsigned_digits(s@),
            digits == s@.skip(skipped),
            digits.len() == len - skipped > 0,
            all_digits(digits.take(i - skipped)),
            value == digits_value(digits.take(i - skipped)),
            value <= max,
        decreases len - i,
    {
        let c: char = s.get_char(i);
        let ghost seen = digits.take(i - skipped);
        let ghost next = digits.take(i + 1 - skipped);
        proof {
            assert(next.drop_last() =~= seen);
            assert(next.last() == c);
        }
        if !(c >= '0' && c <= '9') {
            assert(!is_digit(digits[i - skipped]));
            return None;
        }
        let d: u64 = (c as u64) - ('0' as u64);
        if d > max || value > (max - d) / 10 {
            proof {
                assert(digits_value(next) > max);
                digits_value_grows(digits, i + 1 - skipped);
            }
            return None;
        }
        value = value * 10 + d;
        i = i + 1;
    }
    proof {
        assert(digits.take(i - skipped) =~= digits);
    }
    Some(value)
}

/// Whether `c` is ASCII white space: a space, a tab, a line feed, a form feed
/// or a carriage return.
pub open spec fn is_space(c: char) -> bool {
    c == ' ' || c == '\t' || c == '\n' || c == '\x0C' || c == '\r'
}

/// The fields of `s`: its longest runs of characters other than white space,
/// from left to right. White space separates fields and belongs to none.
pub open spec fn fields(s: Seq<char>) -> Seq<Seq<char>>
    decreases s.len(),
{
    if s.len() == 0 {
        Seq::empty()
    } else {
        let before = fields(s.drop_last());
        if is_space(s.last()) {
            before
        } else if s.len() >= 2 && !is_space(s[s.len() - 2]) {
            before.drop_last().push(before.last().push(s.last()))
        } else {
            before.push(seq![s.last()])
        }
    }
}

/// Whether `field` is a run of one character or more, none of them white space.
pub open spec fn is_field(field: Seq<char>) -> bool {
    field.len() > 0 && forall|i: int| 0 <= i < field.len() ==> !is_space(#[trigger] field[i])
}

/// No field is empty, and none holds white space. There is a field wherever
/// the text does not end in white space.
pub proof fn fields_hold_no_space(s: Seq<char>)
    ensures
        forall|k: int| 0 <= k < fields(s).len() ==> is_field(#[trigger] fields(s)[k]),
        s.len() > 0 && !is_space(s.last()) ==> fields(s).len() > 0,
    decreases s.len(),
{
    if s.len() > 0 {
        let before = fields(s.drop_last());
        fields_hold_no_space(s.drop_last());
        if !is_space(s.last()) && s.len() >= 2 && !is_space(s[s.len() - 2]) {
            assert(s.drop_last().last() == s[s.len() - 2]);
            let grown = before.last().push(s.last());
            assert(is_field(before.last()));
            assert(is_field(grown)) by {
                assert forall|i: int| 0 <= i < grown.len() implies !is_space(#[trigger] grown[i]) by {
                    if i < grown.len() - 1 {
                        assert(grown[i] == before.last()[i]);
                    }
                }
            }
            assert forall|k: int| 0 <= k < fields(s).len() implies is_field(
                #[trigger] fields(s)[k],
            ) by {
                if k < fields(s).len() - 1 {
                    assert(fields(s)[k] == before[k]);
                }
            }
        } else if !is_space(s.last()) {
            assert(is_field(seq![s.last()]));
            assert forall|k: int| 0 <= k < fields(s).len() implies is_field(
                #[trigger] fields(s)[k],
            ) by {
                if k < fields(s).len() - 1 {
                    assert(fields(s)[k] == before[k]);
                }
            }
        }
    }
}

/// While a field is being read, it is the last field of what was read so far.
proof fn fields_open(s: Seq<char>, start: int, end: int)
    requires
        0 <= start < end <= s.len(),
        start == 0 || is_space(s[start - 1]),
        forall|k: int| start <= k < end ==> !is_space(#[trigger] s[k]),
    ensures
        fields(s.take(end)) == fields(s.take(start)).push(s.subrange(start, end)),
    decreases end - start,
{
    let upto = s.take(end);
    assert(upto.drop_last() =~= s.take(end - 1));
    assert(!is_space(s[end - 1]));
    if end - 1 == start {
        assert(s.subrange(start, end) =~= seq![upto.last()]);
    } else {
        fields_open(s, start, end - 1);
        assert(!is_space(s[end - 2]));
        let before = fields(s.take(end - 1));
        assert(before.drop_last() =~= fields(s.take(start)));
        assert(before.last().push(upto.last()) =~= s.subrange(start, end));
    }
}

/// Splits `s` at ASCII white space.
pub fn split_fields(s: &str) -> (r: Vec<String>)
    ensures
        r.deep_view() == fields(s@),
{
    let len: usize = s.unicode_len();
    let mut out: Vec<String> = Vec::new();
    let mut start: usize = 0;
    let mut i: usize = 0;
    assert(s@.take(0) =~= Seq::<char>::empty());
    while i < len
        invariant
            start <= i <= len,
            len == s@.len(),
            start == 0 || is_space(s@[start - 1]),
            forall|k: int| start <= k < i ==> !is_space(#[trigger] s@[k]),
            out.deep_view() == fields(s@.take(start as int)),
        decreases len - i,
    {
        let c: char = s.get_char(i);
        if c == ' ' || c == '\t' || c == '\n' || c == '\x0C' || c == '\r' {
            if start < i {
                proof {
                    fields_open(s@, start as int, i as int);
                }
                let ghost done = out.deep_view();
                out.push(String::from_str(s.substring_char(start, i)));
                assert(out.deep_view() =~= done.push(s@.subrange(start as int, i as int)));
            }
            proof {
                assert(s@.take(i + 1).drop_last() =~= s@.take(i as int));
            }
            start = i + 1;
        }
        i = i + 1;
    }
    if start < len {
        proof {
            fields_open(s@, start as int, len as int);
        }
        let ghost done = out.deep_view();
        out.push(String::from_str(s.substring_char(start, len)));
        assert(out.deep_view() =~= done.push(s@.subrange(start as int, len as int)));
    }
    assert(s@.take(len as int) =~= s@);
    out
}

} // verus!
