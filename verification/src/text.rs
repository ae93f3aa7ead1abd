//! Small text helpers on `str` and `String`.

use vstd::prelude::*;
use vstd::string::*;

verus! {

/// Whether two string slices hold the same characters.
pub fn same_text(a: &str, b: &str) -> (eq: bool)
    ensures
        eq == (a@ == b@),
{
    let n = a.unicode_len();
    if n != b.unicode_len() {
        return false;
    }
    let mut i: usize = 0;
    while i < n
        invariant
            n == a@.len(),
            n == b@.len(),
            i <= n,
            forall|j: int| 0 <= j < i ==> a@[j] == b@[j],
        decreases n - i,
    {
        if a.get_char(i) != b.get_char(i) {
            return false;
        }
        i = i + 1;
    }
    assert(a@ =~= b@);
    true
}

} // verus!

verus! {

/// The character of a decimal digit.
pub open spec fn digit_char(d: nat) -> char {
    if d == 0 {
        '0'
    } else if d == 1 {
        '1'
    } else if d == 2 {
        '2'
    } else if d == 3 {
        '3'
    } else if d == 4 {
        '4'
    } else if d == 5 {
        '5'
    } else if d == 6 {
        '6'
    } else if d == 7 {
        '7'
    } else if d == 8 {
        '8'
    } else {
        '9'
    }
}

/// The decimal digits of a number, most significant first, without leading zeros.
pub open spec fn decimal(n: nat) -> Seq<char>
    decreases n,
{
    if n < 10 {
        seq![digit_char(n)]
    } else {
        decimal(n / 10).push(digit_char(n % 10))
    }
}

/// The decimal digits of a number, with zeros in front up to `width` characters.
pub open spec fn zero_padded(n: nat, width: nat) -> Seq<char> {
    let digits = decimal(n);
    if digits.len() >= width {
        digits
    } else {
        Seq::new((width - digits.len()) as nat, |i: int| '0') + digits
    }
}

/// A calendar date as `YYYY-MM-DD`, each part zero-padded to its width.
pub open spec fn iso_date(year: nat, month: nat, day: nat) -> Seq<char> {
    zero_padded(year, 4) + seq!['-'] + zero_padded(month, 2) + seq!['-'] + zero_padded(day, 2)
}

/// The number a text of decimal digits stands for, reading each character
/// by its code point relative to `'0'`.
pub open spec fn decimal_value(digits: Seq<char>) -> int
    decreases digits.len(),
{
    if digits.len() == 0 {
        0
    } else {
        decimal_value(digits.drop_last()) * 10 + (digits.last() as int - '0' as int)
    }
}

/// Whether every character of a text is one of `0` to `9`.
pub open spec fn all_digits(text: Seq<char>) -> bool {
    forall|i: int| 0 <= i < text.len() ==> '0' <= #[trigger] text[i] && text[i] <= '9'
}

/// Each digit character is the character of that digit: `'0'` plus its value.
pub proof fn lemma_digit_char_value(d: nat)
    requires
        d < 10,
    ensures
        digit_char(d) as int == '0' as int + d,
        '0' <= digit_char(d) <= '9',
{
}

/// The decimal digits of a number are digits, and read back as the number.
pub proof fn lemma_decimal_reads_back(n: nat)
    ensures
        decimal_value(decimal(n)) == n,
        all_digits(decimal(n)),
        decimal(n).len() >= 1,
    decreases n,
{
    lemma_digit_char_value(n % 10);
    if n >= 10 {
        lemma_decimal_reads_back(n / 10);
        let d = decimal(n);
        assert(d == decimal(n / 10).push(digit_char(n % 10)));
        assert(d.drop_last() =~= decimal(n / 10));
        assert(d.last() == digit_char(n % 10));
        assert(decimal_value(d) == decimal_value(decimal(n / 10)) * 10 + (digit_char(n % 10) as int - '0' as int));
        assert(n == (n / 10) * 10 + n % 10) by (nonlinear_arith);
    } else {
        let d = decimal(n);
        assert(d == seq![digit_char(n)]);
        assert(d.drop_last() =~= Seq::<char>::empty());
        assert(decimal_value(d) == decimal_value(d.drop_last()) * 10 + (d.last() as int - '0' as int));
        assert(n % 10 == n);
    }
}

/// A run of zeros reads as 0.
proof fn lemma_zeros_value(k: nat)
    ensures
        decimal_value(Seq::new(k, |i: int| '0')) == 0,
    decreases k,
{
    if k > 0 {
        assert(Seq::new(k, |i: int| '0').drop_last() =~= Seq::new((k - 1) as nat, |i: int| '0'));
        lemma_zeros_value((k - 1) as nat);
    }
}

/// Zeros in front do not change the value.
proof fn lemma_leading_zeros_value(k: nat, digits: Seq<char>)
    ensures
        decimal_value(Seq::new(k, |i: int| '0') + digits) == decimal_value(digits),
    decreases digits.len(),
{
    let zeros = Seq::new(k, |i: int| '0');
    if digits.len() == 0 {
        assert(zeros + digits =~= zeros);
        lemma_zeros_value(k);
    } else {
        assert((zeros + digits).drop_last() =~= zeros + digits.drop_last());
        assert((zeros + digits).last() == digits.last());
        lemma_leading_zeros_value(k, digits.drop_last());
    }
}

/// A zero-padded number is at least `width` digits long, and reads back as
/// the number.
pub proof fn lemma_zero_padded_reads_back(n: nat, width: nat)
    ensures
        decimal_value(zero_padded(n, width)) == n,
        all_digits(zero_padded(n, width)),
        zero_padded(n, width).len() >= width,
{
    lemma_decimal_reads_back(n);
    let digits = decimal(n);
    if digits.len() < width {
        let k = (width - digits.len()) as nat;
        lemma_leading_zeros_value(k, digits);
        let p = Seq::new(k, |i: int| '0') + digits;
        assert forall|i: int| 0 <= i < p.len() implies '0' <= #[trigger] p[i] && p[i] <= '9' by {
            if i >= k {
                assert(p[i] == digits[i - k]);
            }
        }
    }
}

/// A formatted date is three runs of digits, at least four, two and two
/// long, joined by `-`; read back as numbers they give the year, the month
/// and the day.
pub proof fn lemma_iso_date_reads_back(year: nat, month: nat, day: nat)
    ensures
        exists|y: Seq<char>, m: Seq<char>, d: Seq<char>|
            {
                &&& iso_date(year, month, day) == y + seq!['-'] + m + seq!['-'] + d
                &&& all_digits(y) && all_digits(m) && all_digits(d)
                &&& y.len() >= 4 && m.len() >= 2 && d.len() >= 2
                &&& decimal_value(y) == year && decimal_value(m) == month && decimal_value(d) == day
            },
{
    lemma_zero_padded_reads_back(year, 4);
    lemma_zero_padded_reads_back(month, 2);
    lemma_zero_padded_reads_back(day, 2);
    let y = zero_padded(year, 4);
    let m = zero_padded(month, 2);
    let d = zero_padded(day, 2);
    assert(iso_date(year, month, day) == y + seq!['-'] + m + seq!['-'] + d);
}

fn digit_text(d: u32) -> (text: &'static str)
    requires
        d < 10,
    ensures
        text@ == seq![digit_char(d as nat)],
{
    proof {
        reveal_strlit("0");
        reveal_strlit("1");
        reveal_strlit("2");
        reveal_strlit("3");
        reveal_strlit("4");
        reveal_strlit("5");
        reveal_strlit("6");
        reveal_strlit("7");
        reveal_strlit("8");
        reveal_strlit("9");
    }
    if d == 0 {
        "0"
    } else if d == 1 {
        "1"
    } else if d == 2 {
        "2"
    } else if d == 3 {
        "3"
    } else if d == 4 {
        "4"
    } else if d == 5 {
        "5"
    } else if d == 6 {
        "6"
    } else if d == 7 {
        "7"
    } else if d == 8 {
        "8"
    } else {
        "9"
    }
}

fn push_decimal(out: &mut String, n: u32)
    ensures
        final(out)@ == old(out)@ + decimal(n as nat),
    decreases n,
{
    if n >= 10 {
        push_decimal(out, n / 10);
    }
    out.append(digit_text(n % 10));
    assert(decimal(n as nat) =~= if n < 10 {
        seq![digit_char(n as nat)]
    } else {
        decimal((n / 10) as nat).push(digit_char((n % 10) as nat))
    });
}

fn decimal_len(n: u32) -> (len: usize)
    ensures
        len == decimal(n as nat).len(),
        len <= n as int + 1,
    decreases n,
{
    if n < 10 {
        1
    } else {
        decimal_len(n / 10) + 1
    }
}

fn push_zero_padded(out: &mut String, n: u32, width: usize)
    ensures
        final(out)@ == old(out)@ + zero_padded(n as nat, width as nat),
{
    let len = decimal_len(n);
    let mut zeros: usize = 0;
    let ghost start = out@;
    if len < width {
        let pad = width - len;
        while zeros < pad
            invariant
                zeros <= pad,
                out@ == start + Seq::new(zeros as nat, |i: int| '0'),
            decreases pad - zeros,
        {
            proof {
                reveal_strlit("0");
            }
            out.append("0");
            zeros = zeros + 1;
            assert(out@ =~= start + Seq::new(zeros as nat, |i: int| '0'));
        }
    }
    let ghost padded = out@;
    push_decimal(out, n);
    assert(out@ =~= start + zero_padded(n as nat, width as nat));
}

/// Writes a date as `YYYY-MM-DD` from a year, a month counted from 0 (as
/// JavaScript's `Date` gives it) and a day of the month.
pub fn format_date(year: u32, month_index: u32, day: u32) -> (date: String)
    requires
        month_index < u32::MAX,
    ensures
        date@ == iso_date(year as nat, (month_index + 1) as nat, day as nat),
        exists|y: Seq<char>, m: Seq<char>, d: Seq<char>|
            {
                &&& date@ == y + seq!['-'] + m + seq!['-'] + d
                &&& all_digits(y) && all_digits(m) && all_digits(d)
                &&& y.len() >= 4 && m.len() >= 2 && d.len() >= 2
                &&& decimal_value(y) == year && decimal_value(m) == month_index + 1 && decimal_value(d) == day
            },
{
    proof {
        lemma_iso_date_reads_back(year as nat, (month_index + 1) as nat, day as nat);
    }
    let mut date = String::new();
    push_zero_padded(&mut date, year, 4);
    proof {
        reveal_strlit("-");
    }
    date.append("-");
    push_zero_padded(&mut date, month_index + 1, 2);
    date.append("-");
    push_zero_padded(&mut date, day, 2);
    assert(date@ =~= iso_date(year as nat, (month_index + 1) as nat, day as nat));
    date
}

} // verus!
