//! Text building: the few operations on `String` that the library needs, and
//! numbers written out in digits.

use vstd::prelude::*;
use vstd::string::*;
use vstd::utf8::encode_utf8;

verus! {

/// `String::push` appends a character.
pub assume_specification[ String::push ](s: &mut String, c: char)
    ensures
        final(s)@ == old(s)@.push(c),
;

/// `String::pop` removes the last character and returns it, or returns `None`
/// on the empty string.
pub assume_specification[ String::pop ](s: &mut String) -> (r: Option<char>)
    ensures
        old(s)@.len() == 0 ==> r is None && final(s)@ == old(s)@,
        old(s)@.len() > 0 ==> r == Some(old(s)@.last()) && final(s)@ == old(s)@.drop_last(),
;

/// `String::clear` removes all characters.
pub assume_specification[ String::clear ](s: &mut String)
    ensures
        final(s)@ == Seq::<char>::empty(),
;

/// `char::to_ascii_lowercase` maps 'A' to 'Z' onto 'a' to 'z' and leaves every
/// other character.
pub assume_specification[ char::to_ascii_lowercase ](c: &char) -> (r: char)
    ensures
        r == ascii_lowercase(*c),
;

/// Bytes that are all ASCII.
pub open spec fn ascii_bytes(text: Seq<u8>) -> bool {
    forall|i: int| 0 <= i < text.len() ==> text[i] < 128
}

/// The lowercase form of an ASCII letter; any other character itself.
pub open spec fn ascii_lowercase(c: char) -> char {
    if 'A' <= c && c <= 'Z' {
        ((c as u32) + 32) as char
    } else {
        c
    }
}

/// The digit characters up to sixteen.
pub open spec fn digit_char(d: int) -> char {
    if d < 10 {
        (48 + d) as char
    } else {
        (87 + d) as char
    }
}

/// A number in decimal digits, without leading zeros.
pub open spec fn decimal(n: nat) -> Seq<char>
    decreases n,
{
    if n < 10 {
        seq![digit_char(n as int)]
    } else {
        decimal(n / 10).push(digit_char((n % 10) as int))
    }
}

/// A number below 65536 in four hexadecimal digits.
pub open spec fn hex4(n: u16) -> Seq<char> {
    seq![
        digit_char(n as int / 4096),
        digit_char(n as int / 256 % 16),
        digit_char(n as int / 16 % 16),
        digit_char(n as int % 16),
    ]
}

/// The digit character for a number below sixteen.
fn digit_to_char(d: u8) -> (c: char)
    requires
        d < 16,
    ensures
        c == digit_char(d as int),
{
    if d < 10 {
        (48 + d) as char
    } else {
        (87 + d) as char
    }
}

/// Writes a number in decimal.
pub fn decimal_string(n: usize) -> (s: String)
    ensures
        s@ == decimal(n as nat),
    decreases n,
{
    if n < 10 {
        let mut s = String::new();
        s.push(digit_to_char(n as u8));
        assert(s@ =~= decimal(n as nat));
        s
    } else {
        let mut s = decimal_string(n / 10);
        s.push(digit_to_char((n % 10) as u8));
        s
    }
}

/// Writes a number in four hexadecimal digits.
pub fn hex4_string(n: u16) -> (s: String)
    ensures
        s@ == hex4(n),
{
    let mut s = String::new();
    s.push(digit_to_char((n / 4096) as u8));
    s.push(digit_to_char((n / 256 % 16) as u8));
    s.push(digit_to_char((n / 16 % 16) as u8));
    s.push(digit_to_char((n % 16) as u8));
    assert(s@ =~= hex4(n));
    s
}

/// Joins two texts.
pub fn join(a: &str, b: &str) -> (s: String)
    ensures
        s@ == a@ + b@,
{
    let mut s = String::new();
    s.append(a);
    s.append(b);
    assert(s@ =~= a@ + b@);
    s
}

/// Texts are encoded one behind the other.
pub proof fn lemma_encoding_joins(a: Seq<char>, b: Seq<char>)
    ensures
        encode_utf8(a + b) == encode_utf8(a) + encode_utf8(b),
    decreases a.len(),
{
    if a.len() == 0 {
        assert(a + b =~= b);
        assert(encode_utf8(a) + encode_utf8(b) =~= encode_utf8(b));
    } else {
        lemma_encoding_joins(a.drop_first(), b);
        assert((a + b).drop_first() =~= a.drop_first() + b);
        let first = vstd::utf8::encode_scalar(a[0] as u32);
        assert(first + (encode_utf8(a.drop_first()) + encode_utf8(b)) =~= (first + encode_utf8(
            a.drop_first(),
        )) + encode_utf8(b));
    }
}

/// The number that decimal digits stand for, read from left to right.
pub open spec fn read_decimal(text: Seq<char>) -> int
    decreases text.len(),
{
    if text.len() == 0 {
        0
    } else {
        10 * read_decimal(text.drop_last()) + (text.last() as int - '0' as int)
    }
}

/// A number that is written out reads back as itself: it is made of the digits `0` to
/// `9` alone, and begins with `0` only if it is zero.
pub proof fn law_decimal_reads_back(n: nat)
    ensures
        read_decimal(decimal(n)) == n,
        decimal(n).len() >= 1,
        forall|i: int| 0 <= i < decimal(n).len() ==> '0' <= #[trigger] decimal(n)[i] <= '9',
        decimal(n)[0] == '0' ==> n == 0,
    decreases n,
{
    let text = decimal(n);
    if n < 10 {
        assert(text.drop_last() =~= seq![]);
        assert(read_decimal(text.drop_last()) == 0);
    } else {
        law_decimal_reads_back(n / 10);
        let fewer = decimal(n / 10);
        assert(text.drop_last() =~= fewer);
        assert(text[0] == fewer[0]);
        assert forall|i: int| 0 <= i < text.len() implies '0' <= #[trigger] text[i] <= '9' by {
            if i < fewer.len() {
                assert(text[i] == fewer[i]);
            }
        }
    }
}

/// Different numbers are written differently.
pub proof fn law_decimals_differ(a: nat, b: nat)
    requires
        decimal(a) == decimal(b),
    ensures
        a == b,
{
    law_decimal_reads_back(a);
    law_decimal_reads_back(b);
}

/// The number that a hexadecimal digit stands for.
pub open spec fn read_hex_digit(c: char) -> int {
    if '0' <= c <= '9' {
        c as int - '0' as int
    } else {
        c as int - 'a' as int + 10
    }
}

/// A number in four hexadecimal digits reads back as itself: it is made of the digits
/// `0` to `9` and `a` to `f`, the highest first.
pub proof fn law_hex4_reads_back(n: u16)
    ensures
        hex4(n).len() == 4,
        forall|i: int|
            0 <= i < 4 ==> '0' <= #[trigger] hex4(n)[i] <= '9' || 'a' <= hex4(n)[i] <= 'f',
        n == 4096 * read_hex_digit(hex4(n)[0]) + 256 * read_hex_digit(hex4(n)[1]) + 16
            * read_hex_digit(hex4(n)[2]) + read_hex_digit(hex4(n)[3]),
{
    let n = n as int;
    assert(n / 256 == 16 * (n / 4096) + n / 256 % 16);
    assert(n / 16 == 16 * (n / 256) + n / 16 % 16);
}

} // verus!
