//! Small JSON writers: string literals are escaped by `serde_json`; the
//! objects that the pages and scripts embed are assembled here.

use vstd::prelude::*;
use crate::text::{owned, push_char};

verus! {

/// The lowercase hex digit of `d` (0 to 15).
pub open spec fn hex_lower(d: u32) -> char {
    if d < 10 {
        (48 + d) as char
    } else {
        (87 + d) as char
    }
}

/// One character inside a JSON string literal as `serde_json` writes it:
/// `"` and `\` escaped with a backslash, backspace, tab, line feed, form
/// feed and carriage return as `\b \t \n \f \r`, the other control
/// characters below U+0020 as `\u00XX` (lowercase hex), all else as is.
pub open spec fn json_escape_char(c: char) -> Seq<char> {
    let u = c as u32;
    if c == '"' {
        seq!['\\', '"']
    } else if c == '\\' {
        seq!['\\', '\\']
    } else if u == 8 {
        seq!['\\', 'b']
    } else if u == 9 {
        seq!['\\', 't']
    } else if u == 10 {
        seq!['\\', 'n']
    } else if u == 12 {
        seq!['\\', 'f']
    } else if u == 13 {
        seq!['\\', 'r']
    } else if u < 32 {
        seq!['\\', 'u', '0', '0', hex_lower(u / 16), hex_lower(u % 16)]
    } else {
        seq![c]
    }
}

/// The characters of `s`, each escaped by `json_escape_char`.
pub open spec fn json_escape(s: Seq<char>) -> Seq<char>
    decreases s.len(),
{
    if s.len() == 0 {
        Seq::empty()
    } else {
        json_escape(s.drop_last()) + json_escape_char(s.last())
    }
}

/// The JSON string literal that `serde_json` writes for `s`: `s` escaped,
/// between double quotes.
pub open spec fn json_string_literal(s: Seq<char>) -> Seq<char> {
    seq!['"'] + json_escape(s) + seq!['"']
}

/// `serde_json::to_string` of a string: its JSON literal, as the escape
/// table of `serde_json`'s serializer writes it. Serializing a
/// `str` into the in-memory buffer that `to_string` uses cannot fail (the
/// only error source is the writer, and writing to a `Vec<u8>` does not
/// fail), so the error arm is never taken.
#[verifier::external_body]
pub(crate) fn json_quote(s: &str) -> (r: String)
    ensures
        r@ == json_string_literal(s@),
{
    match serde_json::to_string(s) {
        Ok(v) => v,
        Err(_) => String::new(),
    }
}

/// `null` or the literal of the string.
pub open spec fn json_opt_literal(o: Option<String>) -> Seq<char> {
    match o {
        Some(s) => json_string_literal(s@),
        None => "null"@,
    }
}

pub fn json_opt(o: &Option<String>) -> (r: String)
    ensures
        r@ == json_opt_literal(*o),
{
    match o {
        Some(s) => json_quote(s.as_str()),
        None => owned("null"),
    }
}

pub open spec fn json_bool_literal(b: bool) -> Seq<char> {
    if b { "true"@ } else { "false"@ }
}

pub fn json_bool(b: bool) -> (r: String)
    ensures
        r@ == json_bool_literal(b),
{
    if b { owned("true") } else { owned("false") }
}

pub open spec fn digit_char(d: nat) -> char {
    if d == 0 { '0' } else if d == 1 { '1' } else if d == 2 { '2' } else if d == 3 { '3' } else if d == 4 { '4' }
    else if d == 5 { '5' } else if d == 6 { '6' } else if d == 7 { '7' } else if d == 8 { '8' } else { '9' }
}

/// The decimal digits of `n`, most significant first, without leading
/// zeros (`0` is written `0`).
pub open spec fn decimal(n: nat) -> Seq<char>
    decreases n,
{
    if n < 10 {
        seq![digit_char(n)]
    } else {
        decimal(n / 10).push(digit_char(n % 10))
    }
}

/// The number that a sequence of ASCII digits spells, read most
/// significant digit first.
pub open spec fn digits_number(s: Seq<char>) -> int
    decreases s.len(),
{
    if s.len() == 0 {
        0
    } else {
        digits_number(s.drop_last()) * 10 + ((s.last() as u32) - 48)
    }
}

/// `decimal(n)` spells `n`: it is made of ASCII digits only, read most
/// significant first they give back `n`, and it has no leading zero (it is
/// `0` only for zero).
pub proof fn lemma_decimal_spells_number(n: nat)
    ensures
        decimal(n).len() > 0,
        forall|i: int| 0 <= i < decimal(n).len() ==> '0' <= #[trigger] decimal(n)[i] <= '9',
        digits_number(decimal(n)) == n,
        n > 0 ==> decimal(n)[0] != '0',
        n == 0 ==> decimal(n) == seq!['0'],
    decreases n,
{
    if n >= 10 {
        lemma_decimal_spells_number(n / 10);
        let s = decimal(n / 10);
        let d = n % 10;
        assert(decimal(n) == s.push(digit_char(d)));
        assert(decimal(n).drop_last() =~= s);
        assert(decimal(n)[0] == s[0]);
        assert forall|i: int| 0 <= i < decimal(n).len() implies '0' <= #[trigger] decimal(n)[i] <= '9' by {
            if i < s.len() {
                assert(decimal(n)[i] == s[i]);
            }
        }
        assert((digit_char(d) as u32) - 48 == d);
        assert((n / 10) * 10 + d == n);
        assert(decimal(n).last() == digit_char(d));
        assert(digits_number(decimal(n)) == digits_number(s) * 10 + ((digit_char(d) as u32) - 48));
    } else {
        assert((digit_char(n) as u32) - 48 == n);
        assert(seq![digit_char(n)].drop_last() =~= Seq::<char>::empty());
        assert(digits_number(decimal(n)) == digits_number(Seq::<char>::empty()) * 10 + ((digit_char(n) as u32) - 48));
    }
}

fn digit_char_exec(d: u64) -> (c: char)
    requires
        d < 10,
    ensures
        c == digit_char(d as nat),
{
    if d == 0 { '0' } else if d == 1 { '1' } else if d == 2 { '2' } else if d == 3 { '3' } else if d == 4 { '4' }
    else if d == 5 { '5' } else if d == 6 { '6' } else if d == 7 { '7' } else if d == 8 { '8' } else { '9' }
}

fn push_decimal(out: &mut String, n: u64)
    ensures
        final(out)@ == old(out)@ + decimal(n as nat),
    decreases n,
{
    if n >= 10 {
        push_decimal(out, n / 10);
    }
    push_char(out, digit_char_exec(n % 10));
    proof {
        if n < 10 {
            assert(old(out)@ + decimal(n as nat) =~= old(out)@.push(digit_char(n as nat)));
        } else {
            assert(old(out)@ + decimal(n as nat) =~= (old(out)@ + decimal((n / 10) as nat)).push(
                digit_char((n % 10) as nat),
            ));
        }
    }
}

/// `n` written in decimal, as `to_string` and JSON write integers.
pub fn decimal_string(n: u64) -> (s: String)
    ensures
        s@ == decimal(n as nat),
{
    let mut s = String::new();
    push_decimal(&mut s, n);
    assert(s@ =~= decimal(n as nat));
    s
}

} // verus!
