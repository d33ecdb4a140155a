//! Rendering of the small pieces of text that replies are made of.

use vstd::prelude::*;

verus! {

/// The character of a decimal digit.
pub open spec fn digit_char(d: nat) -> char
    recommends
        d < 10,
{
    if d == 0 { '0' }
    else if d == 1 { '1' }
    else if d == 2 { '2' }
    else if d == 3 { '3' }
    else if d == 4 { '4' }
    else if d == 5 { '5' }
    else if d == 6 { '6' }
    else if d == 7 { '7' }
    else if d == 8 { '8' }
    else { '9' }
}

/// The decimal digits of a natural number, most significant first, without
/// leading zeros.
pub open spec fn decimal_nat(n: nat) -> Seq<char>
    decreases n,
{
    if n < 10 {
        seq![digit_char(n)]
    } else {
        decimal_nat(n / 10).push(digit_char(n % 10))
    }
}

/// The decimal text of an integer, with a leading `-` when it is negative.
pub open spec fn decimal_int(n: int) -> Seq<char> {
    if n < 0 {
        seq!['-'] + decimal_nat((-n) as nat)
    } else {
        decimal_nat(n as nat)
    }
}

/// Whether a character is a decimal digit.
pub open spec fn is_digit(c: char) -> bool {
    '0' <= c <= '9'
}

/// The number that a sequence of decimal digits reads as, most significant
/// digit first.
pub open spec fn digits_value(s: Seq<char>) -> int
    decreases s.len(),
{
    if s.len() == 0 {
        0
    } else {
        digits_value(s.drop_last()) * 10 + (s.last() as int - '0' as int)
    }
}

/// A digit's character reads back as the digit.
proof fn lemma_digit_char_value(d: nat)
    requires
        d < 10,
    ensures
        is_digit(digit_char(d)),
        digit_char(d) as int - '0' as int == d,
{
}

/// The decimal text of a natural number reads back as that number: it is a
/// nonempty run of digits, whose value is the number, and which has no
/// leading zero unless the number is zero.
pub proof fn lemma_decimal_nat_reads_back(n: nat)
    ensures
        decimal_nat(n).len() > 0,
        forall|i: int| 0 <= i < decimal_nat(n).len() ==> is_digit(#[trigger] decimal_nat(n)[i]),
        digits_value(decimal_nat(n)) == n,
        decimal_nat(n)[0] == '0' <==> n == 0,
    decreases n,
{
    if n < 10 {
        lemma_digit_char_value(n);
        let s = decimal_nat(n);
        assert(s.drop_last() =~= Seq::<char>::empty());
        assert(digits_value(Seq::<char>::empty()) == 0);
        assert(s.last() == digit_char(n));
        assert(digits_value(s) == digits_value(s.drop_last()) * 10 + (s.last() as int - '0' as int));
    } else {
        let q = n / 10;
        let r = n % 10;
        lemma_decimal_nat_reads_back(q);
        lemma_digit_char_value(r);
        let s = decimal_nat(n);
        assert(s == decimal_nat(q).push(digit_char(r)));
        assert(s.drop_last() =~= decimal_nat(q));
        assert(s.last() == digit_char(r));
        assert(digits_value(s) == digits_value(s.drop_last()) * 10 + (s.last() as int - '0' as int));
        assert(digits_value(s) == q * 10 + r);
        assert(q * 10 + r == n) by (nonlinear_arith)
            requires
                q == n / 10,
                r == n % 10,
        ;
        assert(q >= 1) by (nonlinear_arith)
            requires
                q == n / 10,
                n >= 10,
        ;
        assert forall|i: int| 0 <= i < s.len() implies is_digit(#[trigger] s[i]) by {
            if i < s.len() - 1 {
                assert(s[i] == decimal_nat(q)[i]);
            }
        }
        assert(s[0] == decimal_nat(q)[0]);
    }
}

/// The decimal text of an integer reads back as that integer: a `-` comes
/// first exactly when it is negative, and the digits after it are the
/// decimal text of its magnitude.
pub proof fn lemma_decimal_int_reads_back(n: int)
    ensures
        n < 0 ==> decimal_int(n)[0] == '-' && decimal_int(n).drop_first() == decimal_nat((-n) as nat)
            && digits_value(decimal_int(n).drop_first()) == -n,
        n >= 0 ==> digits_value(decimal_int(n)) == n
            && forall|i: int| 0 <= i < decimal_int(n).len() ==> is_digit(#[trigger] decimal_int(n)[i]),
        decimal_int(n).len() > 0,
{
    if n < 0 {
        lemma_decimal_nat_reads_back((-n) as nat);
        assert(decimal_int(n).drop_first() =~= decimal_nat((-n) as nat));
    } else {
        lemma_decimal_nat_reads_back(n as nat);
    }
}

fn digit_str(d: u64) -> (s: &'static str)
    requires
        d < 10,
    ensures
        s@ == seq![digit_char(d as nat)],
{
    proof {
        reveal_strlit("0");
        reveal_strlit("1");
        reveal_strlit("2");
        reveal_strlit("3");
        reveal_strlit("4");
        reveal_strlit("5");
        reveal_strlit("6");
        reveal_strlit("7");
        reveal_strlit("8");
        reveal_strlit("9");
    }
    if d == 0 { "0" }
    else if d == 1 { "1" }
    else if d == 2 { "2" }
    else if d == 3 { "3" }
    else if d == 4 { "4" }
    else if d == 5 { "5" }
    else if d == 6 { "6" }
    else if d == 7 { "7" }
    else if d == 8 { "8" }
    else { "9" }
}

/// Appends the decimal digits of `n` to `out`.
fn append_decimal_u64(out: &mut String, n: u64)
    ensures
        final(out)@ == old(out)@ + decimal_nat(n as nat),
    decreases n,
{
    if n < 10 {
        out.append(digit_str(n));
    } else {
        append_decimal_u64(out, n / 10);
        out.append(digit_str(n % 10));
        assert(decimal_nat(n as nat) == decimal_nat((n / 10) as nat).push(digit_char((n % 10) as nat)));
    }
}

/// The decimal text of `n`, as a JSON number and as `Display` write it.
pub fn decimal_text(n: i64) -> (s: String)
    ensures
        s@ == decimal_int(n as int),
{
    let mut out = String::new();
    if n < 0 {
        proof { reveal_strlit("-"); }
        out.append("-");
        let magnitude: u64 = ((-(n + 1)) as u64) + 1;
        append_decimal_u64(&mut out, magnitude);
    } else {
        append_decimal_u64(&mut out, n as u64);
    }
    out
}

/// The lower-case hexadecimal digit of a value below sixteen.
pub open spec fn hex_digit(d: nat) -> char
    recommends
        d < 16,
{
    if d < 10 {
        digit_char(d)
    } else if d == 10 { 'a' }
    else if d == 11 { 'b' }
    else if d == 12 { 'c' }
    else if d == 13 { 'd' }
    else if d == 14 { 'e' }
    else { 'f' }
}

/// How one character stands inside a JSON string literal: the quote and the
/// backslash are escaped, so are the control characters below U+0020 (by
/// their short escape where JSON has one, else as `\u00XX`); every other
/// character stands for itself.
pub open spec fn json_escape_char(c: char) -> Seq<char> {
    let v = c as nat;
    if c == '"' {
        seq!['\\', '"']
    } else if c == '\\' {
        seq!['\\', '\\']
    } else if v == 8 {
        seq!['\\', 'b']
    } else if v == 9 {
        seq!['\\', 't']
    } else if v == 10 {
        seq!['\\', 'n']
    } else if v == 12 {
        seq!['\\', 'f']
    } else if v == 13 {
        seq!['\\', 'r']
    } else if v < 32 {
        seq!['\\', 'u', '0', '0', hex_digit(v / 16), hex_digit(v % 16)]
    } else {
        seq![c]
    }
}

/// The escaped body of a JSON string literal.
pub open spec fn json_escape(s: Seq<char>) -> Seq<char>
    decreases s.len(),
{
    if s.len() == 0 {
        Seq::empty()
    } else {
        json_escape(s.drop_last()) + json_escape_char(s.last())
    }
}

/// The JSON string literal that stands for `s`.
pub open spec fn json_quote(s: Seq<char>) -> Seq<char> {
    seq!['"'] + json_escape(s) + seq!['"']
}

/// `serde_json::to_string` on a string slice.
///
/// Claimed of it: the result is the JSON string literal of `s`, written as
/// serde_json's compact serializer writes every string: a quote, each
/// character escaped as `json_escape_char` says (serde_json's `ESCAPE`
/// table and `write_char_escape`), and a closing quote. Serialising a `str`
/// never fails.
#[verifier::external_body]
pub(crate) fn json_string(s: &str) -> (res: String)
    ensures
        res@ == json_quote(s@),
{
    match serde_json::to_string(s) {
        Ok(text) => text,
        Err(_) => String::new(),
    }
}

} // verus!
