//! Small text routines with exact contracts over `Seq<char>`.

use vstd::prelude::*;
use vstd::string::*;

verus! {

/// `std::string::String::push`: appends the character at the end and leaves
/// what was there before it unchanged.
pub assume_specification[ String::push ](s: &mut String, c: char)
    ensures
        final(s)@ == old(s)@.push(c),
;

/// `s` begins with the characters of `prefix`.
pub open spec fn has_prefix(s: Seq<char>, prefix: Seq<char>) -> bool {
    prefix.len() <= s.len() && s.subrange(0, prefix.len() as int) == prefix
}

/// The texts of a list of strings.
pub open spec fn texts(list: Seq<String>) -> Seq<Seq<char>> {
    Seq::new(list.len(), |i: int| list[i]@)
}

/// The decimal digit character of `d`, for `d < 10`.
pub open spec fn digit_char(d: nat) -> char {
    ((48 + d) as u8) as char
}

/// The decimal numeral of `n`, without leading zeros.
pub open spec fn decimal(n: nat) -> Seq<char>
    decreases n,
{
    if n < 10 {
        seq![digit_char(n)]
    } else {
        decimal(n / 10).push(digit_char(n % 10))
    }
}

/// The upper case hexadecimal digit of `d`, for `d < 16`.
pub open spec fn hex_char(d: nat) -> char {
    if d < 10 {
        ((48 + d) as u8) as char
    } else {
        ((55 + d) as u8) as char
    }
}

/// The two digit upper case hexadecimal numeral of a byte.
pub open spec fn hex_byte(b: u8) -> Seq<char> {
    seq![hex_char((b / 16) as nat), hex_char((b % 16) as nat)]
}

/// Whether two texts hold the same characters.
pub fn same(a: &str, b: &str) -> (r: bool)
    ensures
        r == (a@ == b@),
{
    let x = a.to_owned();
    let y = b.to_owned();
    x == y
}

/// Whether a text has no characters.
pub fn is_blank(s: &str) -> (r: bool)
    ensures
        r == (s@.len() == 0),
{
    s.unicode_len() == 0
}

/// Whether `s` begins with `prefix`.
pub fn starts_with(s: &str, prefix: &str) -> (r: bool)
    ensures
        r == has_prefix(s@, prefix@),
{
    let n: usize = prefix.unicode_len();
    if s.unicode_len() < n {
        false
    } else {
        let head = s.substring_char(0, n);
        same(head, prefix)
    }
}

/// The characters of `s`, in order.
pub fn chars_of(s: &str) -> (v: Vec<char>)
    ensures
        v@ == s@,
{
    let mut v: Vec<char> = Vec::new();
    for c in it: s.chars()
        invariant
            v@ == it.seq().take(it.index() as int),
            it.seq() == s@,
    {
        v.push(c);
    }
    assert(v@ =~= s@);
    v
}

/// The text made of the given characters.
pub fn from_chars(v: &Vec<char>) -> (s: String)
    ensures
        s@ == v@,
{
    let mut s = String::new();
    let mut i: usize = 0;
    while i < v.len()
        invariant
            i <= v.len(),
            s@ == v@.take(i as int),
        decreases v.len() - i,
    {
        s.push(v[i]);
        i += 1;
        assert(v@.take(i as int) =~= v@.take(i - 1).push(v@[i - 1]));
    }
    assert(v@.take(i as int) =~= v@);
    s
}

/// Appends the decimal numeral of `n`.
pub fn push_decimal(s: &mut String, n: u64)
    ensures
        final(s)@ == old(s)@ + decimal(n as nat),
    decreases n,
{
    if n >= 10 {
        push_decimal(s, n / 10);
    }
    let d: u8 = 48 + (n % 10) as u8;
    s.push(d as char);
    assert(s@ =~= old(s)@ + decimal(n as nat));
}

/// Appends the two digit upper case hexadecimal numeral of `b`.
pub fn push_hex_byte(s: &mut String, b: u8)
    ensures
        final(s)@ == old(s)@ + hex_byte(b),
{
    let hi: u8 = b / 16;
    let lo: u8 = b % 16;
    let h: u8 = if hi < 10 { 48 + hi } else { 55 + hi };
    let l: u8 = if lo < 10 { 48 + lo } else { 55 + lo };
    s.push(h as char);
    s.push(l as char);
    assert(s@ =~= old(s)@ + hex_byte(b));
}

/// The last `digits` decimal digits of `n`.
pub open spec fn padded(n: nat, digits: nat) -> Seq<char>
    decreases digits,
{
    if digits == 0 {
        Seq::empty()
    } else {
        padded(n / 10, (digits - 1) as nat).push(digit_char(n % 10))
    }
}

/// How often `unit` goes into `v`, to the nearest; to the even one of two as near.
pub open spec fn nearest(v: int, unit: int) -> int {
    let q = v / unit;
    let r = v % unit;
    if 2 * r > unit || (2 * r == unit && q % 2 == 1) {
        q + 1
    } else {
        q
    }
}

/// A number of hundredths, written with two decimals.
pub open spec fn hundredths(n: nat) -> Seq<char> {
    decimal(n / 100) + "."@ + padded(n % 100, 2)
}

/// A number of thousandths, written with three decimals.
pub open spec fn thousandths(n: nat) -> Seq<char> {
    decimal(n / 1000) + "."@ + padded(n % 1000, 3)
}

/// A number of millionths, written with six decimals.
pub open spec fn millionths(n: nat) -> Seq<char> {
    decimal(n / 1_000_000) + "."@ + padded(n % 1_000_000, 6)
}

/// How often `unit` goes into `v`, to the nearest; to the even one of two as near.
pub fn nearest_of(v: u64, unit: u32) -> (r: u64)
    requires
        unit > 1,
    ensures
        r == nearest(v as int, unit as int),
{
    let q: u64 = v / unit as u64;
    let rest: u64 = v % unit as u64;
    assert(q <= v / 2) by (nonlinear_arith)
        requires
            q == v / (unit as u64),
            unit >= 2,
    ;
    if 2 * rest > unit as u64 || (2 * rest == unit as u64 && q % 2 == 1) {
        q + 1
    } else {
        q
    }
}

/// Appends the last `digits` decimal digits of `n`.
pub fn push_padded(s: &mut String, n: u64, digits: u8)
    ensures
        final(s)@ == old(s)@ + padded(n as nat, digits as nat),
    decreases digits,
{
    if digits > 0 {
        push_padded(s, n / 10, digits - 1);
        let d: u8 = 48 + (n % 10) as u8;
        s.push(d as char);
    }
    assert(s@ =~= old(s)@ + padded(n as nat, digits as nat));
}

/// Appends a number of hundredths.
pub fn push_hundredths(s: &mut String, n: u64)
    ensures
        final(s)@ == old(s)@ + hundredths(n as nat),
{
    push_decimal(s, n / 100);
    s.append(".");
    push_padded(s, n % 100, 2);
    assert(s@ =~= old(s)@ + hundredths(n as nat));
}

/// Appends a number of thousandths.
pub fn push_thousandths(s: &mut String, n: u64)
    ensures
        final(s)@ == old(s)@ + thousandths(n as nat),
{
    push_decimal(s, n / 1000);
    s.append(".");
    push_padded(s, n % 1000, 3);
    assert(s@ =~= old(s)@ + thousandths(n as nat));
}

/// Appends a number of millionths.
pub fn push_millionths(s: &mut String, n: u64)
    ensures
        final(s)@ == old(s)@ + millionths(n as nat),
{
    push_decimal(s, n / 1_000_000);
    s.append(".");
    push_padded(s, n % 1_000_000, 6);
    assert(s@ =~= old(s)@ + millionths(n as nat));
}

/// Whether a character is a letter or a digit of any script.
pub uninterp spec fn alphanumeric(c: char) -> bool;

/// Whether a character is a letter or a digit of ASCII.
pub open spec fn ascii_alphanumeric(c: char) -> bool {
    ('0' <= c && c <= '9') || ('A' <= c && c <= 'Z') || ('a' <= c && c <= 'z')
}

/// `char::is_alphanumeric`: whether a character is a letter or a digit of any script; among
/// the ASCII characters these are the letters and digits of ASCII.
pub assume_specification[ char::is_alphanumeric ](c: char) -> (r: bool)
    ensures
        r == alphanumeric(c),
        (c as u32) < 128 ==> r == ascii_alphanumeric(c),
;

/// The decimal numeral of a number with its sign.
pub open spec fn signed(n: int) -> Seq<char> {
    if n < 0 {
        "-"@ + decimal((-n) as nat)
    } else {
        decimal(n as nat)
    }
}

/// Appends the decimal numeral of a number with its sign.
pub fn push_signed(s: &mut String, n: i64)
    requires
        n > i64::MIN,
    ensures
        final(s)@ == old(s)@ + signed(n as int),
{
    if n < 0 {
        s.append("-");
        push_decimal(s, (-n) as u64);
    } else {
        push_decimal(s, n as u64);
    }
    assert(s@ =~= old(s)@ + signed(n as int));
}

/// The number that a run of decimal digits reads as.
pub open spec fn number_read(s: Seq<char>) -> int
    decreases s.len(),
{
    if s.len() == 0 {
        0
    } else {
        10 * number_read(s.drop_last()) + (s.last() as u32 - '0' as u32)
    }
}

/// Whether every character is a decimal digit.
pub open spec fn all_digits(s: Seq<char>) -> bool {
    forall|i: int| 0 <= i < s.len() ==> '0' <= #[trigger] s[i] <= '9'
}

proof fn digit_is_read(d: nat)
    requires
        d < 10,
    ensures
        '0' <= digit_char(d) <= '9',
        digit_char(d) as u32 - '0' as u32 == d,
{
}

/// The numeral of a number is made of digits, has no leading zero but for zero itself, and reads as
/// that number.
pub proof fn a_numeral_reads_as_its_number(n: nat)
    ensures
        all_digits(decimal(n)),
        decimal(n).len() > 0,
        n > 0 ==> decimal(n)[0] != '0',
        number_read(decimal(n)) == n,
    decreases n,
{
    reveal_with_fuel(number_read, 2);
    digit_is_read(n % 10);
    if n >= 10 {
        a_numeral_reads_as_its_number(n / 10);
        let before = decimal(n / 10);
        assert(decimal(n) == before.push(digit_char(n % 10)));
        assert(decimal(n).drop_last() =~= before);
        assert(decimal(n)[0] == before[0]);
        assert forall|i: int| 0 <= i < decimal(n).len() implies '0' <= #[trigger] decimal(n)[i]
            <= '9' by {
            if i < before.len() {
                assert(decimal(n)[i] == before[i]);
            }
        }
    } else {
        digit_is_read(n);
        assert(decimal(n) =~= seq![digit_char(n)]);
        assert(decimal(n).drop_last() =~= Seq::<char>::empty());
        assert(decimal(n).last() == digit_char(n));
    }
}

/// Ten to the power of a number.
pub open spec fn ten_to(k: nat) -> int
    decreases k,
{
    if k == 0 {
        1
    } else {
        10 * ten_to((k - 1) as nat)
    }
}

/// A padded numeral has as many digits as it is padded to, and reads as the number as long as that
/// has no more.
pub proof fn a_padded_numeral_reads_as_its_number(n: nat, digits: nat)
    requires
        n < ten_to(digits),
    ensures
        padded(n, digits).len() == digits,
        all_digits(padded(n, digits)),
        number_read(padded(n, digits)) == n,
    decreases digits,
{
    reveal_with_fuel(number_read, 2);
    if digits > 0 {
        let before = padded(n / 10, (digits - 1) as nat);
        a_padded_numeral_reads_as_its_number(n / 10, (digits - 1) as nat);
        digit_is_read(n % 10);
        assert(padded(n, digits).drop_last() =~= before);
        assert forall|i: int| 0 <= i < padded(n, digits).len() implies '0' <= #[trigger] padded(
            n,
            digits,
        )[i] <= '9' by {
            if i < before.len() {
                assert(padded(n, digits)[i] == before[i]);
            }
        }
    }
}

/// Rounding goes to the nearest multiple, and to the even one of two that are as near.
pub proof fn rounding_goes_to_the_nearest(v: int, unit: int)
    requires
        v >= 0,
        unit > 0,
    ensures
        -unit <= 2 * (v - unit * nearest(v, unit)) <= unit,
        2 * (v - unit * nearest(v, unit)) == unit || 2 * (v - unit * nearest(v, unit)) == -unit
            ==> nearest(v, unit) % 2 == 0,
        nearest(v, unit) >= 0,
{
    let q: int = v / unit;
    let r: int = v % unit;
    vstd::arithmetic::div_mod::lemma_fundamental_div_mod(v, unit);
    assert(0 <= r < unit) by (nonlinear_arith)
        requires
            r == v % unit,
            unit > 0,
    ;
    assert(q >= 0) by (nonlinear_arith)
        requires
            q == v / unit,
            v >= 0,
            unit > 0,
    ;
    assert(unit * (q + 1) == unit * q + unit) by (nonlinear_arith);
}

/// A number with two, three or six decimals is written as its whole part, a point, and as many
/// digits; read without the point it is the number of hundredths, thousandths or millionths.
pub proof fn decimals_read_as_their_number(n: nat)
    ensures
        hundredths(n) == decimal(n / 100) + "."@ + padded(n % 100, 2),
        number_read(decimal(n / 100)) * 100 + number_read(padded(n % 100, 2)) == n,
        padded(n % 100, 2).len() == 2,
        thousandths(n) == decimal(n / 1_000) + "."@ + padded(n % 1_000, 3),
        number_read(decimal(n / 1_000)) * 1_000 + number_read(padded(n % 1_000, 3)) == n,
        padded(n % 1_000, 3).len() == 3,
        millionths(n) == decimal(n / 1_000_000) + "."@ + padded(n % 1_000_000, 6),
        number_read(decimal(n / 1_000_000)) * 1_000_000 + number_read(padded(n % 1_000_000, 6))
            == n,
        padded(n % 1_000_000, 6).len() == 6,
{
    reveal_with_fuel(ten_to, 7);
    a_numeral_reads_as_its_number(n / 100);
    a_padded_numeral_reads_as_its_number(n % 100, 2);
    a_numeral_reads_as_its_number(n / 1_000);
    a_padded_numeral_reads_as_its_number(n % 1_000, 3);
    a_numeral_reads_as_its_number(n / 1_000_000);
    a_padded_numeral_reads_as_its_number(n % 1_000_000, 6);
}

/// A negative number is written as its numeral after a minus sign, any other as its numeral.
pub proof fn a_sign_goes_before_the_numeral(n: int)
    ensures
        n >= 0 ==> all_digits(signed(n)) && number_read(signed(n)) == n,
        n < 0 ==> signed(n)[0] == '-' && number_read(signed(n).skip(1)) == -n,
{
    reveal_strlit("-");
    if n < 0 {
        a_numeral_reads_as_its_number((-n) as nat);
        assert(signed(n).skip(1) =~= decimal((-n) as nat));
    } else {
        a_numeral_reads_as_its_number(n as nat);
    }
}

/// A text begins with another exactly if it is that other with something behind it.
pub proof fn a_prefix_is_what_a_text_begins_with(s: Seq<char>, prefix: Seq<char>)
    ensures
        has_prefix(s, prefix) == exists|rest: Seq<char>| s == #[trigger] (prefix + rest),
{
    if has_prefix(s, prefix) {
        let rest = s.skip(prefix.len() as int);
        assert(s =~= prefix + rest);
    }
    if exists|rest: Seq<char>| s == #[trigger] (prefix + rest) {
        let rest = choose|rest: Seq<char>| s == #[trigger] (prefix + rest);
        assert(s.subrange(0, prefix.len() as int) =~= prefix);
    }
}

/// Two hexadecimal digits read as their byte: the first counts sixteen, and ten to fifteen are
/// written with the letters from `A` to `F`.
pub proof fn hexadecimal_digits_read_as_their_byte(b: u8)
    ensures
        hex_byte(b).len() == 2,
        forall|i: int|
            0 <= i < 2 ==> ('0' <= #[trigger] hex_byte(b)[i] <= '9') || ('A' <= hex_byte(b)[i]
                <= 'F'),
        b == 16 * (if hex_byte(b)[0] <= '9' {
            hex_byte(b)[0] as u32 - '0' as u32
        } else {
            10 + (hex_byte(b)[0] as u32 - 'A' as u32)
        }) + (if hex_byte(b)[1] <= '9' {
            hex_byte(b)[1] as u32 - '0' as u32
        } else {
            10 + (hex_byte(b)[1] as u32 - 'A' as u32)
        }),
{
}

} // verus!
