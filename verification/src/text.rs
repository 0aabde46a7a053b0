//! Numbers as text: decimal without padding, and eight upper-case hexadecimal
//! digits.

use vstd::prelude::*;
use vstd::string::StringExecFns;

verus! {

/// The character of a digit in base sixteen, upper case.
pub open spec fn digit_char(d: nat) -> char {
    if d == 0 {
        '0'
    } else if d == 1 {
        '1'
    } else if d == 2 {
        '2'
    } else if d == 3 {
        '3'
    } else if d == 4 {
        '4'
    } else if d == 5 {
        '5'
    } else if d == 6 {
        '6'
    } else if d == 7 {
        '7'
    } else if d == 8 {
        '8'
    } else if d == 9 {
        '9'
    } else if d == 10 {
        'A'
    } else if d == 11 {
        'B'
    } else if d == 12 {
        'C'
    } else if d == 13 {
        'D'
    } else if d == 14 {
        'E'
    } else {
        'F'
    }
}

/// `n` in decimal, without leading zeros.
pub open spec fn decimal(n: nat) -> Seq<char>
    decreases n,
{
    if n < 10 {
        seq![digit_char(n)]
    } else {
        decimal(n / 10).push(digit_char(n % 10))
    }
}

/// The last `width` digits of `n` in base sixteen, with leading zeros.
pub open spec fn hex(n: nat, width: nat) -> Seq<char>
    decreases width,
{
    if width == 0 {
        Seq::empty()
    } else {
        hex(n / 16, (width - 1) as nat).push(digit_char(n % 16))
    }
}

/// The digit that a character stands for in base sixteen, upper case.
pub open spec fn digit_value(c: char) -> int {
    if '0' <= c <= '9' {
        c as int - '0' as int
    } else {
        c as int - 'A' as int + 10
    }
}

/// The number that a text of digits stands for.
pub open spec fn value_of(s: Seq<char>, base: int) -> int
    decreases s.len(),
{
    if s.len() == 0 {
        0
    } else {
        value_of(s.drop_last(), base) * base + digit_value(s.last())
    }
}

/// Whether a text holds decimal digits only.
pub open spec fn all_decimal(s: Seq<char>) -> bool {
    forall|i: int| 0 <= i < s.len() ==> '0' <= #[trigger] s[i] <= '9'
}

/// `16` to the power of `width`.
pub open spec fn pow16(width: nat) -> nat
    decreases width,
{
    if width == 0 {
        1
    } else {
        16 * pow16((width - 1) as nat)
    }
}

/// Each further digit holds sixteen times as many numbers.
pub proof fn law_each_digit_counts_sixteenfold(width: nat)
    ensures
        pow16(0) == 1,
        pow16(width + 1) == 16 * pow16(width),
{
}

/// Reading a number's decimal text gives the number back, and the text holds
/// decimal digits only.
pub proof fn law_decimal_reads_back(n: nat)
    ensures
        value_of(decimal(n), 10) == n,
        all_decimal(decimal(n)),
        decimal(n).len() > 0,
    decreases n,
{
    reveal_with_fuel(value_of, 2);
    if n >= 10 {
        law_decimal_reads_back(n / 10);
        assert(decimal(n).drop_last() =~= decimal(n / 10));
    } else {
        assert(decimal(n).drop_last() =~= Seq::<char>::empty());
    }
}

/// Reading the hexadecimal text of a number gives the number back, as far as
/// the digits shown can hold it.
pub proof fn law_hex_reads_back(n: nat, width: nat)
    ensures
        value_of(hex(n, width), 16) == n % pow16(width),
        hex(n, width).len() == width,
        pow16(width) > 0,
    decreases width,
{
    if width > 0 {
        let rest = (width - 1) as nat;
        law_hex_reads_back(n / 16, rest);
        assert(hex(n, width).drop_last() =~= hex(n / 16, rest));
        let p = pow16(rest) as int;
        let m = n as int;
        assert(m % (16 * p) == 16 * ((m / 16) % p) + m % 16) by {
            vstd::arithmetic::div_mod::lemma_mod_breakdown(m, 16, p);
        }
    } else {
        assert(n % 1 == 0);
    }
}

/// The ten digits have consecutive characters, and so have the six letters that
/// follow them; each character stands for its digit.
pub proof fn law_digit_characters(d: nat)
    requires
        d < 16,
    ensures
        digit_char(d) as int == if d < 10 {
            48 + d
        } else {
            55 + d
        },
        digit_value(digit_char(d)) == d,
{
}

/// A text is read digit by digit: each further one counts once, and what stands
/// before it counts `base` times as much as it did.
pub proof fn law_value_goes_digit_by_digit(s: Seq<char>, c: char, base: int)
    ensures
        value_of(Seq::empty(), base) == 0,
        '0' <= c <= '9' ==> value_of(s.push(c), base) == value_of(s, base) * base + (c as int - 48),
        'A' <= c <= 'F' ==> value_of(s.push(c), base) == value_of(s, base) * base + (c as int - 55),
{
    assert(s.push(c).drop_last() =~= s);
}

/// Decimal text holds the characters from `0` to `9` only, and starts with a zero
/// only where the number is zero.
pub proof fn law_decimal_has_no_leading_zeros(n: nat)
    ensures
        decimal(n).len() > 0,
        decimal(n)[0] == '0' <==> n == 0,
        n == 0 ==> decimal(n).len() == 1,
        forall|i: int| 0 <= i < decimal(n).len() ==> '0' <= #[trigger] decimal(n)[i] <= '9',
    decreases n,
{
    if n >= 10 {
        law_decimal_has_no_leading_zeros(n / 10);
        assert(decimal(n)[0] == decimal(n / 10)[0]);
        assert forall|i: int| 0 <= i < decimal(n).len() implies '0' <= #[trigger] decimal(n)[i]
            <= '9' by {
            if i < decimal(n / 10).len() {
                assert(decimal(n)[i] == decimal(n / 10)[i]);
            }
        }
    }
}

/// A number has no other decimal text: digits without a leading zero are the text
/// of the number that they read as.
pub proof fn law_decimal_is_the_only_numeral(s: Seq<char>)
    requires
        s.len() > 0,
        forall|i: int| 0 <= i < s.len() ==> '0' <= #[trigger] s[i] <= '9',
        s.len() > 1 ==> s[0] != '0',
    ensures
        value_of(s, 10) >= 0,
        decimal(value_of(s, 10) as nat) == s,
    decreases s.len(),
{
    reveal_with_fuel(value_of, 2);
    let rest = s.drop_last();
    let d = digit_value(s.last());
    assert('0' <= s[s.len() - 1] <= '9');
    if s.len() == 1 {
        assert(rest =~= Seq::<char>::empty());
        assert(decimal(value_of(s, 10) as nat) =~= s);
    } else {
        assert forall|i: int| 0 <= i < rest.len() implies '0' <= #[trigger] rest[i] <= '9' by {
            assert(rest[i] == s[i]);
        }
        assert(rest[0] == s[0]);
        law_decimal_is_the_only_numeral(rest);
        let v = value_of(rest, 10);
        law_decimal_has_no_leading_zeros(v as nat);
        assert(v > 0);
        let n = value_of(s, 10);
        assert(n == v * 10 + d);
        assert(n / 10 == v && n % 10 == d);
        assert(decimal(n as nat) =~= s);
    }
}

/// Hexadecimal text holds the characters from `0` to `9` and from `A` to `F` only.
pub proof fn law_hex_characters(n: nat, width: nat)
    ensures
        hex(n, width).len() == width,
        forall|i: int|
            0 <= i < width ==> '0' <= #[trigger] hex(n, width)[i] <= '9' || 'A' <= hex(n, width)[i]
                <= 'F',
    decreases width,
{
    if width > 0 {
        let rest = (width - 1) as nat;
        law_hex_characters(n / 16, rest);
        assert forall|i: int| 0 <= i < width implies '0' <= #[trigger] hex(n, width)[i] <= '9'
            || 'A' <= hex(n, width)[i] <= 'F' by {
            if i < rest {
                assert(hex(n, width)[i] == hex(n / 16, rest)[i]);
            }
        }
    }
}

/// Where digits end in a text, a number ends: two texts that start with digits
/// and go on with something else are equal only part by part.
pub proof fn lemma_digits_end_a_number(a: Seq<char>, x: Seq<char>, b: Seq<char>, y: Seq<char>)
    requires
        all_decimal(a),
        all_decimal(b),
        x.len() > 0 && !('0' <= x[0] <= '9'),
        y.len() > 0 && !('0' <= y[0] <= '9'),
        a + x == b + y,
    ensures
        a == b,
        x == y,
{
    let (s, t) = (a + x, b + y);
    if a.len() < b.len() {
        assert(s[a.len() as int] == x[0]);
        assert(t[a.len() as int] == b[a.len() as int]);
    }
    if b.len() < a.len() {
        assert(t[b.len() as int] == y[0]);
        assert(s[b.len() as int] == a[b.len() as int]);
    }
    assert(s.take(a.len() as int) =~= a);
    assert(t.take(b.len() as int) =~= b);
    assert(s.skip(a.len() as int) =~= x);
    assert(t.skip(b.len() as int) =~= y);
}

/// The text of one digit.
fn digit_text(d: u64) -> (text: &'static str)
    requires
        d < 16,
    ensures
        text@ == seq![digit_char(d as nat)],
{
    proof {
        reveal_strlit("0");
        reveal_strlit("1");
        reveal_strlit("2");
        reveal_strlit("3");
        reveal_strlit("4");
        reveal_strlit("5");
        reveal_strlit("6");
        reveal_strlit("7");
        reveal_strlit("8");
        reveal_strlit("9");
        reveal_strlit("A");
        reveal_strlit("B");
        reveal_strlit("C");
        reveal_strlit("D");
        reveal_strlit("E");
        reveal_strlit("F");
    }
    match d {
        0 => "0",
        1 => "1",
        2 => "2",
        3 => "3",
        4 => "4",
        5 => "5",
        6 => "6",
        7 => "7",
        8 => "8",
        9 => "9",
        10 => "A",
        11 => "B",
        12 => "C",
        13 => "D",
        14 => "E",
        _ => "F",
    }
}

/// Appends `n` in decimal.
pub fn push_decimal(out: &mut String, n: u64)
    ensures
        final(out)@ == old(out)@ + decimal(n as nat),
        final(out)@.len() > old(out)@.len(),
        final(out)@.take(old(out)@.len() as int) == old(out)@,
        value_of(final(out)@.skip(old(out)@.len() as int), 10) == n,
        all_decimal(final(out)@.skip(old(out)@.len() as int)),
    decreases n,
{
    if n >= 10 {
        push_decimal(out, n / 10);
    }
    out.append(digit_text(n % 10));
    proof {
        law_decimal_reads_back(n as nat);
        assert(out@ =~= old(out)@ + decimal(n as nat));
        assert(out@.take(old(out)@.len() as int) =~= old(out)@);
        assert(out@.skip(old(out)@.len() as int) =~= decimal(n as nat));
    }
}

/// Appends the last `width` digits of `n` in base sixteen, which has no more than
/// sixteen of them.
pub fn push_hex(out: &mut String, n: u64, width: u32)
    requires
        width <= 16,
    ensures
        final(out)@ == old(out)@ + hex(n as nat, width as nat),
        final(out)@.len() == old(out)@.len() + width,
        final(out)@.take(old(out)@.len() as int) == old(out)@,
        value_of(final(out)@.skip(old(out)@.len() as int), 16) == n as nat % pow16(width as nat),
    decreases width,
{
    if width > 0 {
        push_hex(out, n / 16, width - 1);
        out.append(digit_text(n % 16));
    }
    proof {
        law_hex_reads_back(n as nat, width as nat);
        assert(out@ =~= old(out)@ + hex(n as nat, width as nat));
        assert(out@.take(old(out)@.len() as int) =~= old(out)@);
        assert(out@.skip(old(out)@.len() as int) =~= hex(n as nat, width as nat));
    }
}

} // verus!
