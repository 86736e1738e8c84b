//! How IPC payloads arrive: as percent-encoded `omnichat-ipc://` navigations
//! or as console lines tagged with a sentinel; and which URLs a page may ask
//! the system to open.

use vstd::prelude::*;
use vstd::utf8::{valid_utf8, decode_utf8, encode_utf8, encode_scalar, has_width_1_encoding, leading_byte_width_1};
use crate::text::{ascii_lower, chars_of, contains_seq, contains_str, matches_at_exec, starts_with, string_from_chars, trim_lowercase, trim_ws};

verus! {

#[verifier::external_type_specification]
#[verifier::external_body]
pub struct ExFromUtf8Error(std::string::FromUtf8Error);

/// `String::from_utf8`: succeeds exactly when the bytes are well-formed
/// UTF-8, and then holds the characters they encode.
#[verifier::external_body]
fn string_from_utf8(bytes: Vec<u8>) -> (r: Result<String, std::string::FromUtf8Error>)
    ensures
        r is Ok <==> valid_utf8(bytes@),
        r matches Ok(s) ==> s@ == decode_utf8(bytes@),
{
    String::from_utf8(bytes)
}

/// Whether a URL is safe to hand to the OS handler: after trimming white
/// space and lower-casing ASCII letters it starts with `https://`, `http://`
/// or `mailto:`.
pub open spec fn spec_is_allowed_url(url: Seq<char>) -> bool {
    let lower = ascii_lower(trim_ws(url));
    lower.take(8) == "https://"@ && lower.len() >= 8
        || lower.take(7) == "http://"@ && lower.len() >= 7
        || lower.take(7) == "mailto:"@ && lower.len() >= 7
}

fn vec_starts_with(v: &Vec<char>, prefix: &str) -> (b: bool)
    ensures
        b == (prefix@.len() <= v@.len() && v@.take(prefix@.len() as int) == prefix@),
{
    let p = chars_of(prefix);
    let r = matches_at_exec(v, 0, &p);
    proof {
        if p@.len() <= v@.len() {
            assert(v@.subrange(0, p@.len() as int) =~= v@.take(p@.len() as int));
        }
    }
    r
}

/// Whether a URL is safe to hand to the OS handler. Only web and mail
/// schemes; everything else (file://, custom protocol handlers, javascript:,
/// data:, etc.) is rejected.
pub fn is_allowed_url(url: &str) -> (b: bool)
    ensures
        b == spec_is_allowed_url(url@),
{
    let lower = trim_lowercase(url);
    proof {
        reveal_strlit("https://");
        reveal_strlit("http://");
        reveal_strlit("mailto:");
    }
    vec_starts_with(&lower, "https://") || vec_starts_with(&lower, "http://") || vec_starts_with(
        &lower,
        "mailto:",
    )
}

/// The value of an ASCII hex digit.
pub open spec fn hex_digit(b: u8) -> Option<u8> {
    if 48 <= b && b <= 57 {
        Some((b - 48) as u8)
    } else if 97 <= b && b <= 102 {
        Some((b - 87) as u8)
    } else if 65 <= b && b <= 70 {
        Some((b - 55) as u8)
    } else {
        None
    }
}

/// The byte that the two characters after a `%` stand for, read as
/// `u8::from_str_radix(.., 16)` reads them: two hex digits, or `+` followed
/// by one hex digit.
pub open spec fn hex_pair(h1: u8, h2: u8) -> Option<u8> {
    if h1 == 43 {
        hex_digit(h2)
    } else {
        match (hex_digit(h1), hex_digit(h2)) {
            (Some(a), Some(b)) => Some((a * 16 + b) as u8),
            _ => None,
        }
    }
}

/// Percent-decoding of `b`: `%XY` becomes the byte XY when XY is a valid
/// pair (missing characters after a trailing `%` count as `0`), otherwise
/// `%`, X and Y are kept; `+` becomes a space; other bytes pass through.
pub open spec fn percent_decode(b: Seq<u8>) -> Seq<u8>
    decreases b.len(),
{
    if b.len() == 0 {
        Seq::empty()
    } else if b[0] == 37 {
        let h1: u8 = if b.len() > 1 { b[1] } else { 48 };
        let h2: u8 = if b.len() > 2 { b[2] } else { 48 };
        let rest = if b.len() > 3 { b.skip(3) } else { Seq::empty() };
        match hex_pair(h1, h2) {
            Some(x) => seq![x] + percent_decode(rest),
            None => seq![37u8, h1, h2] + percent_decode(rest),
        }
    } else if b[0] == 43 {
        seq![32u8] + percent_decode(b.skip(1))
    } else {
        seq![b[0]] + percent_decode(b.skip(1))
    }
}

fn hex_digit_exec(b: u8) -> (r: Option<u8>)
    ensures
        r == hex_digit(b),
{
    if 48 <= b && b <= 57 {
        Some(b - 48)
    } else if 97 <= b && b <= 102 {
        Some(b - 87)
    } else if 65 <= b && b <= 70 {
        Some(b - 55)
    } else {
        None
    }
}

fn hex_pair_exec(h1: u8, h2: u8) -> (r: Option<u8>)
    ensures
        r == hex_pair(h1, h2),
{
    if h1 == 43 {
        hex_digit_exec(h2)
    } else {
        match (hex_digit_exec(h1), hex_digit_exec(h2)) {
            (Some(a), Some(b)) => Some(a * 16 + b),
            _ => None,
        }
    }
}

/// The bytes of `encoded` after percent-decoding (see `percent_decode`).
pub fn percent_decode_bytes(encoded: &[u8]) -> (out: Vec<u8>)
    ensures
        out@ == percent_decode(encoded@),
{
    let mut out: Vec<u8> = Vec::new();
    let mut i: usize = 0;
    let n = encoded.len();
    assert(encoded@.skip(0) =~= encoded@);
    while i < n
        invariant
            n == encoded@.len(),
            i <= n,
            out@ + percent_decode(encoded@.skip(i as int)) == percent_decode(encoded@),
        decreases n - i,
    {
        let ghost t = encoded@.skip(i as int);
        let b = encoded[i];
        if b == 37 {
            let h1: u8 = if i + 1 < n { encoded[i + 1] } else { 48 };
            let h2: u8 = if n - i > 2 { encoded[i + 2] } else { 48 };
            let next: usize = if n - i > 3 { i + 3 } else { n };
            proof {
                if n - i > 3 {
                    assert(t.skip(3) =~= encoded@.skip(next as int));
                } else {
                    assert(encoded@.skip(next as int) =~= Seq::<u8>::empty());
                }
            }
            match hex_pair_exec(h1, h2) {
                Some(x) => {
                    out.push(x);
                    assert(out@ + percent_decode(encoded@.skip(next as int)) =~= percent_decode(encoded@));
                }
                None => {
                    out.push(37);
                    out.push(h1);
                    out.push(h2);
                    assert(out@ + percent_decode(encoded@.skip(next as int)) =~= percent_decode(encoded@));
                }
            }
            i = next;
        } else {
            assert(t.skip(1) =~= encoded@.skip(i + 1));
            if b == 43 {
                out.push(32);
            } else {
                out.push(b);
            }
            assert(out@ + percent_decode(encoded@.skip(i + 1)) =~= percent_decode(encoded@));
            i = i + 1;
        }
    }
    assert(encoded@.skip(i as int) =~= Seq::<u8>::empty());
    out
}

/// Decodes a percent-encoded string: fails exactly when the decoded bytes
/// are not UTF-8.
pub fn urlparse_decode(encoded: &str) -> (r: Result<String, std::string::FromUtf8Error>)
    ensures
        r is Ok <==> valid_utf8(percent_decode(encode_utf8(encoded@))),
        r matches Ok(s) ==> s@ == decode_utf8(percent_decode(encode_utf8(encoded@))),
{
    let bytes = percent_decode_bytes(encoded.as_bytes());
    string_from_utf8(bytes)
}

/// The bytes that `encodeURIComponent` writes as they are: ASCII letters,
/// digits and `-_.!~*'()`.
pub open spec fn is_uri_unreserved(b: u8) -> bool {
    (65 <= b && b <= 90) || (97 <= b && b <= 122) || (48 <= b && b <= 57) || b == 45 || b == 95 || b == 46
        || b == 33 || b == 126 || b == 42 || b == 39 || b == 40 || b == 41
}

/// The uppercase hex digit (as an ASCII byte) of `d`, 0 to 15.
pub open spec fn hex_upper(d: u8) -> u8 {
    if d < 10 {
        (48 + d) as u8
    } else {
        (55 + d) as u8
    }
}

/// `encodeURIComponent` on bytes: unreserved bytes stay, every other byte
/// becomes `%` and its two uppercase hex digits.
pub open spec fn uri_encode_bytes(b: Seq<u8>) -> Seq<u8>
    decreases b.len(),
{
    if b.len() == 0 {
        Seq::empty()
    } else {
        (if is_uri_unreserved(b[0]) {
            seq![b[0]]
        } else {
            seq![37u8, hex_upper(b[0] / 16), hex_upper(b[0] % 16)]
        }) + uri_encode_bytes(b.skip(1))
    }
}

/// The text that JavaScript's `encodeURIComponent` makes of `s`: its UTF-8
/// bytes encoded by `uri_encode_bytes`, each an ASCII character.
pub open spec fn encode_uri_component(s: Seq<char>) -> Seq<char> {
    uri_encode_bytes(encode_utf8(s)).map_values(|b: u8| b as char)
}

proof fn lemma_hex_upper_digit(d: u8)
    requires
        d < 16,
    ensures
        hex_digit(hex_upper(d)) == Some(d),
        hex_upper(d) != 43,
        hex_upper(d) < 128,
{
}

proof fn lemma_percent_decode_uri(b: Seq<u8>)
    ensures
        percent_decode(uri_encode_bytes(b)) == b,
    decreases b.len(),
{
    if b.len() > 0 {
        let x = b[0];
        let rest = uri_encode_bytes(b.skip(1));
        let e = uri_encode_bytes(b);
        lemma_percent_decode_uri(b.skip(1));
        if is_uri_unreserved(x) {
            assert(e =~= seq![x] + rest);
            assert(e.skip(1) =~= rest);
        } else {
            let (hi, lo) = (x / 16, x % 16);
            lemma_hex_upper_digit(hi);
            lemma_hex_upper_digit(lo);
            assert(e =~= seq![37u8, hex_upper(hi), hex_upper(lo)] + rest);
            if e.len() > 3 {
                assert(e.skip(3) =~= rest);
            } else {
                assert(rest =~= Seq::<u8>::empty());
            }
            assert(hex_pair(hex_upper(hi), hex_upper(lo)) == Some(x));
        }
        assert(b =~= seq![x] + b.skip(1));
    }
}

proof fn lemma_uri_bytes_ascii(b: Seq<u8>)
    ensures
        forall|i: int| 0 <= i < uri_encode_bytes(b).len() ==> #[trigger] uri_encode_bytes(b)[i] < 128,
    decreases b.len(),
{
    if b.len() > 0 {
        lemma_uri_bytes_ascii(b.skip(1));
        let x = b[0];
        let rest = uri_encode_bytes(b.skip(1));
        if is_uri_unreserved(x) {
            assert(uri_encode_bytes(b) =~= seq![x] + rest);
        } else {
            lemma_hex_upper_digit(x / 16);
            lemma_hex_upper_digit(x % 16);
            assert(uri_encode_bytes(b) =~= seq![37u8, hex_upper(x / 16), hex_upper(x % 16)] + rest);
        }
        assert forall|i: int| 0 <= i < uri_encode_bytes(b).len() implies #[trigger] uri_encode_bytes(b)[i] < 128 by {
            if i >= uri_encode_bytes(b).len() - rest.len() {
                assert(uri_encode_bytes(b)[i] == rest[i - (uri_encode_bytes(b).len() - rest.len())]);
            }
        }
    }
}

proof fn lemma_ascii_byte(x: u8)
    requires
        x < 128,
    ensures
        ((x as char) as u32) == x as u32,
        has_width_1_encoding(x as u32),
        leading_byte_width_1(x as u32) == x,
{
    let u = x as u32;
    assert(u & 0x7f == u && ((u & 0x7f) as u8) == x) by (bit_vector)
        requires
            u == x as u32,
            x < 128,
    ;
}

proof fn lemma_encode_ascii(b: Seq<u8>)
    requires
        forall|i: int| 0 <= i < b.len() ==> #[trigger] b[i] < 128,
    ensures
        encode_utf8(b.map_values(|x: u8| x as char)) == b,
    decreases b.len(),
{
    if b.len() > 0 {
        let c = b.map_values(|x: u8| x as char);
        lemma_ascii_byte(b[0]);
        assert(c.drop_first() =~= b.skip(1).map_values(|x: u8| x as char));
        assert(b[0] < 128);
        assert forall|i: int| 0 <= i < b.skip(1).len() implies #[trigger] b.skip(1)[i] < 128 by {
            assert(b.skip(1)[i] == b[i + 1]);
        }
        lemma_encode_ascii(b.skip(1));
        assert(encode_scalar(c[0] as u32) =~= seq![b[0]]);
        assert(b =~= seq![b[0]] + b.skip(1));
    }
}

/// The lowercase hex digit (as an ASCII byte) of `d`, 0 to 15.
pub open spec fn hex_lower_byte(d: u8) -> u8 {
    if d < 10 {
        (48 + d) as u8
    } else {
        (87 + d) as u8
    }
}

/// A hex digit of `d` in either case.
pub open spec fn is_hex_digit_of(c: u8, d: u8) -> bool {
    c == hex_upper(d) || c == hex_lower_byte(d)
}

/// `%` followed by the two hex digits of a byte, each in either case,
/// decodes to that byte, whatever follows.
pub proof fn lemma_percent_escape_decodes(x: u8, h1: u8, h2: u8, rest: Seq<u8>)
    requires
        is_hex_digit_of(h1, x / 16),
        is_hex_digit_of(h2, x % 16),
    ensures
        percent_decode(seq![37u8, h1, h2] + rest) == seq![x] + percent_decode(rest),
{
    let e = seq![37u8, h1, h2] + rest;
    assert(e[0] == 37u8 && e[1] == h1 && e[2] == h2);
    if e.len() > 3 {
        assert(e.skip(3) =~= rest);
    } else {
        assert(rest =~= Seq::<u8>::empty());
    }
    assert(hex_digit(h1) == Some(x / 16));
    assert(hex_digit(h2) == Some(x % 16));
    assert(h1 != 43);
    assert(((x / 16) * 16 + x % 16) as u8 == x);
}

/// Decoding undoes the encoding that pages apply to IPC payloads: the
/// percent-decoded UTF-8 bytes of `encodeURIComponent(s)` are valid UTF-8
/// and decode to `s`, so `urlparse_decode` gives back `s`.
pub proof fn lemma_decode_inverts_encode_uri_component(s: Seq<char>)
    ensures
        valid_utf8(percent_decode(encode_utf8(encode_uri_component(s)))),
        decode_utf8(percent_decode(encode_utf8(encode_uri_component(s)))) == s,
{
    let b = encode_utf8(s);
    lemma_uri_bytes_ascii(b);
    lemma_encode_ascii(uri_encode_bytes(b));
    lemma_percent_decode_uri(b);
    vstd::utf8::encode_utf8_valid_utf8(s);
    vstd::utf8::encode_utf8_decode_utf8(s);
}

/// `s` with every leading copy of `p` removed, as `str::trim_start_matches`
/// does with a string pattern.
pub open spec fn strip_all_prefixes(s: Seq<char>, p: Seq<char>) -> Seq<char>
    decreases s.len(),
{
    if p.len() > 0 && p.len() <= s.len() && s.take(p.len() as int) == p {
        strip_all_prefixes(s.skip(p.len() as int), p)
    } else {
        s
    }
}

/// The scheme prefix of IPC navigations.
pub open spec fn ipc_scheme() -> Seq<char> {
    "omnichat-ipc://"@
}

/// What a navigation to `url` means for the IPC channel.
pub enum IpcNavigation {
    /// Not an IPC URL: let the navigation proceed.
    NotIpc,
    /// An IPC URL whose payload does not decode to UTF-8: cancel and drop it.
    Undecodable,
    /// An IPC URL carrying this JSON payload: cancel and dispatch it.
    Payload(String),
}

pub open spec fn spec_ipc_payload_bytes(url: Seq<char>) -> Seq<u8> {
    percent_decode(vstd::utf8::encode_utf8(strip_all_prefixes(url, ipc_scheme())))
}

/// Classifies a navigation: URLs that start with `omnichat-ipc://` carry a
/// percent-encoded payload after the (repeatedly stripped) scheme prefix.
pub fn ipc_navigation(url: &str) -> (r: IpcNavigation)
    ensures
        !(ipc_scheme().len() <= url@.len() && url@.take(ipc_scheme().len() as int) == ipc_scheme())
            ==> r is NotIpc,
        (ipc_scheme().len() <= url@.len() && url@.take(ipc_scheme().len() as int) == ipc_scheme()) ==> match r {
            IpcNavigation::NotIpc => false,
            IpcNavigation::Undecodable => !valid_utf8(spec_ipc_payload_bytes(url@)),
            IpcNavigation::Payload(p) => valid_utf8(spec_ipc_payload_bytes(url@))
                && p@ == decode_utf8(spec_ipc_payload_bytes(url@)),
        },
{
    if !starts_with(url, "omnichat-ipc://") {
        return IpcNavigation::NotIpc;
    }
    let v = chars_of(url);
    let p = chars_of("omnichat-ipc://");
    let mut i: usize = 0;
    proof {
        reveal_strlit("omnichat-ipc://");
        assert(v@.skip(0) =~= v@);
    }
    while matches_at_exec(&v, i, &p)
        invariant
            i <= v.len(),
            p@ == ipc_scheme(),
            p@.len() > 0,
            v@ == url@,
            strip_all_prefixes(v@.skip(i as int), p@) == strip_all_prefixes(url@, p@),
        decreases v.len() - i,
    {
        proof {
            assert(v@.skip(i as int).take(p@.len() as int) =~= v@.subrange(i as int, i + p@.len()));
            assert(v@.skip(i as int).skip(p@.len() as int) =~= v@.skip(i + p@.len()));
        }
        i = i + p.len();
    }
    proof {
        let t = v@.skip(i as int);
        if p@.len() <= t.len() {
            assert(t.take(p@.len() as int) =~= v@.subrange(i as int, i + p@.len()));
        }
    }
    let rest = string_from_chars(&v, i);
    match urlparse_decode(rest.as_str()) {
        Ok(json) => IpcNavigation::Payload(json),
        Err(_) => IpcNavigation::Undecodable,
    }
}

/// The prefix that marks a console line as an IPC message from a page.
pub open spec fn ipc_sentinel() -> Seq<char> {
    "__OMNICHAT_IPC__"@
}

/// The IPC payload of a console line: the text after the sentinel prefix,
/// when the line starts with it.
pub fn console_ipc_payload(message: &str) -> (r: Option<String>)
    ensures
        match r {
            Some(p) => ipc_sentinel().len() <= message@.len() && message@.take(ipc_sentinel().len() as int)
                == ipc_sentinel() && p@ == message@.skip(ipc_sentinel().len() as int),
            None => !(ipc_sentinel().len() <= message@.len() && message@.take(ipc_sentinel().len() as int)
                == ipc_sentinel()),
        },
{
    if starts_with(message, "__OMNICHAT_IPC__") {
        let v = chars_of(message);
        let n = chars_of("__OMNICHAT_IPC__").len();
        Some(string_from_chars(&v, n))
    } else {
        None
    }
}

/// Whether a page console line is worth logging: it mentions the app, the
/// sidebar, the IPC bridge or an error, or comes from an app page.
pub open spec fn spec_console_worth_logging(message: Seq<char>, source: Seq<char>) -> bool {
    contains_seq(message, "[Sidebar]"@) || contains_seq(message, "[OmniChat]"@)
        || contains_seq(message, "cefQuery"@) || contains_seq(message, "Error"@)
        || contains_seq(message, "error"@) || contains_seq(source, "omnichat"@)
        || contains_seq(source, "data:"@)
}

pub fn console_worth_logging(message: &str, source: &str) -> (b: bool)
    ensures
        b == spec_console_worth_logging(message@, source@),
{
    contains_str(message, "[Sidebar]") || contains_str(message, "[OmniChat]") || contains_str(
        message,
        "cefQuery",
    ) || contains_str(message, "Error") || contains_str(message, "error") || contains_str(
        source,
        "omnichat",
    ) || contains_str(source, "data:")
}

} // verus!
