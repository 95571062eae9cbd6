use vstd::prelude::*;
use vstd::string::*;
use vstd::utf8::*;
use crate::text::push_char;

verus! {

broadcast use vstd::string::group_string_axioms;

/// Bytes that `encodeURIComponent` leaves as they are: ASCII letters, digits
/// and `- _ . ! ~ * ' ( )`.
pub open spec fn uri_unreserved(b: u8) -> bool {
    ||| 0x41 <= b <= 0x5A
    ||| 0x61 <= b <= 0x7A
    ||| 0x30 <= b <= 0x39
    ||| b == 0x2D || b == 0x5F || b == 0x2E || b == 0x21 || b == 0x7E
    ||| b == 0x2A || b == 0x27 || b == 0x28 || b == 0x29
}

/// Upper-case hexadecimal digit for `0 <= d < 16`.
pub open spec fn hex_upper(d: int) -> char {
    if d < 10 {
        (d + 48) as char
    } else {
        (d + 55) as char
    }
}

/// How one UTF-8 byte is written by `encodeURIComponent`.
pub open spec fn escape_byte(b: u8) -> Seq<char> {
    if uri_unreserved(b) {
        seq![b as char]
    } else {
        seq!['%', hex_upper(b as int / 16), hex_upper(b as int % 16)]
    }
}

pub open spec fn escape_bytes(bytes: Seq<u8>) -> Seq<char>
    decreases bytes.len(),
{
    if bytes.len() == 0 {
        Seq::empty()
    } else {
        escape_bytes(bytes.drop_last()) + escape_byte(bytes.last())
    }
}

/// ECMAScript `encodeURIComponent`: every character is written as the
/// percent-escapes of its UTF-8 bytes, except the unreserved ASCII ones.
pub open spec fn uri_component(s: Seq<char>) -> Seq<char> {
    escape_bytes(encode_utf8(s))
}

/// Whether `c` is a hexadecimal digit, of either case.
pub open spec fn is_hex(c: char) -> bool {
    ('0' <= c <= '9') || ('A' <= c <= 'F') || ('a' <= c <= 'f')
}

/// The value of the hexadecimal digit `c`.
pub open spec fn hex_value(c: char) -> int {
    if '0' <= c <= '9' {
        c as int - 48
    } else if 'A' <= c <= 'F' {
        c as int - 55
    } else {
        c as int - 87
    }
}

/// The bytes that percent-escaped text stands for: each `%` followed by two
/// hexadecimal digits gives the byte they write, every other character the
/// bytes of its UTF-8 encoding; `None` when a `%` is not followed by two
/// hexadecimal digits.
pub open spec fn unescaped_bytes(s: Seq<char>) -> Option<Seq<u8>>
    decreases s.len(),
{
    if s.len() == 0 {
        Some(Seq::empty())
    } else if s[0] == '%' {
        if s.len() >= 3 && is_hex(s[1]) && is_hex(s[2]) {
            match unescaped_bytes(s.skip(3)) {
                Some(rest) => Some(seq![(hex_value(s[1]) * 16 + hex_value(s[2])) as u8] + rest),
                None => None,
            }
        } else {
            None
        }
    } else {
        match unescaped_bytes(s.drop_first()) {
            Some(rest) => Some(encode_utf8(seq![s[0]]) + rest),
            None => None,
        }
    }
}

/// ECMAScript `decodeURIComponent`: the text that the bytes of the escaped
/// text encode in UTF-8; `None` (a `URIError`) when an escape is malformed
/// or the bytes are not valid UTF-8.
pub open spec fn uri_decoded(s: Seq<char>) -> Option<Seq<char>> {
    match unescaped_bytes(s) {
        Some(bytes) => if valid_utf8(bytes) {
            Some(decode_utf8(bytes))
        } else {
            None
        },
        None => None,
    }
}

proof fn lemma_unescape_append(x: Seq<char>, y: Seq<char>)
    requires
        unescaped_bytes(x) is Some,
    ensures
        unescaped_bytes(x + y) == (match unescaped_bytes(y) {
            Some(by) => Some(unescaped_bytes(x)->0 + by),
            None => None::<Seq<u8>>,
        }),
    decreases x.len(),
{
    if x.len() == 0 {
        assert(x + y =~= y);
        if let Some(by) = unescaped_bytes(y) {
            assert(unescaped_bytes(x)->0 + by =~= by);
        }
    } else if x[0] == '%' {
        let xy = x + y;
        assert(xy[0] == x[0] && xy[1] == x[1] && xy[2] == x[2]);
        assert(xy.skip(3) =~= x.skip(3) + y);
        lemma_unescape_append(x.skip(3), y);
        if let Some(by) = unescaped_bytes(y) {
            let b = seq![(hex_value(x[1]) * 16 + hex_value(x[2])) as u8];
            assert(b + (unescaped_bytes(x.skip(3))->0 + by) =~= (b + unescaped_bytes(x.skip(3))->0) + by);
        }
    } else {
        let xy = x + y;
        assert(xy[0] == x[0]);
        assert(xy.drop_first() =~= x.drop_first() + y);
        lemma_unescape_append(x.drop_first(), y);
        if let Some(by) = unescaped_bytes(y) {
            let e = encode_utf8(seq![x[0]]);
            assert(e + (unescaped_bytes(x.drop_first())->0 + by) =~= (e + unescaped_bytes(x.drop_first())->0) + by);
        }
    }
}

proof fn lemma_hex_upper(d: int)
    requires
        0 <= d < 16,
    ensures
        is_hex(hex_upper(d)),
        hex_value(hex_upper(d)) == d,
        hex_upper(d) != '%',
{
}

proof fn lemma_unescape_byte(b: u8)
    ensures
        unescaped_bytes(escape_byte(b)) == Some(seq![b]),
{
    if uri_unreserved(b) {
        let c = b as char;
        let e = escape_byte(b);
        assert(e == seq![c]);
        assert(c != '%');
        assert(e.drop_first() =~= Seq::<char>::empty());
        assert(is_ascii_chars(seq![c]));
        broadcast use is_ascii_chars_encode_utf8;
        assert(encode_utf8(seq![c]).len() == 1);
        assert(encode_utf8(seq![c])[0] == b);
        assert(encode_utf8(seq![c]) + Seq::<u8>::empty() =~= seq![b]);
        assert(unescaped_bytes(e.drop_first()) == Some(Seq::<u8>::empty()));
    } else {
        lemma_hex_upper(b as int / 16);
        lemma_hex_upper(b as int % 16);
        let e = escape_byte(b);
        assert(e.len() == 3 && e[0] == '%');
        assert(e[1] == hex_upper(b as int / 16) && e[2] == hex_upper(b as int % 16));
        assert(e.skip(3) =~= Seq::<char>::empty());
        assert(unescaped_bytes(e.skip(3)) == Some(Seq::<u8>::empty()));
        assert((b as int / 16) * 16 + b as int % 16 == b) by (nonlinear_arith);
        assert(((hex_value(e[1]) * 16 + hex_value(e[2])) as u8) == b);
        assert(seq![b] + Seq::<u8>::empty() =~= seq![b]);
    }
}

proof fn lemma_unescape_escaped(bytes: Seq<u8>)
    ensures
        unescaped_bytes(escape_bytes(bytes)) == Some(bytes),
    decreases bytes.len(),
{
    if bytes.len() == 0 {
    } else {
        lemma_unescape_escaped(bytes.drop_last());
        lemma_unescape_byte(bytes.last());
        lemma_unescape_append(escape_bytes(bytes.drop_last()), escape_byte(bytes.last()));
        assert(bytes.drop_last() + seq![bytes.last()] =~= bytes);
    }
}

/// Decoding with `decodeURIComponent` what `encodeURIComponent` wrote gives
/// back the text.
pub proof fn law_uri_round_trip(s: Seq<char>)
    ensures
        uri_decoded(uri_component(s)) == Some(s),
{
    broadcast use encode_utf8_valid_utf8, encode_utf8_decode_utf8;

    lemma_unescape_escaped(encode_utf8(s));
}

fn hex_digit(d: u8) -> (c: char)
    requires
        d < 16,
    ensures
        c == hex_upper(d as int),
{
    if d < 10 {
        (d + 48u8) as char
    } else {
        (d + 55u8) as char
    }
}

fn is_unreserved(b: u8) -> (r: bool)
    ensures
        r == uri_unreserved(b),
{
    (0x41 <= b && b <= 0x5A) || (0x61 <= b && b <= 0x7A) || (0x30 <= b && b <= 0x39) || b == 0x2D
        || b == 0x5F || b == 0x2E || b == 0x21 || b == 0x7E || b == 0x2A || b == 0x27 || b == 0x28
        || b == 0x29
}

/// Appends `encodeURIComponent(s)` to `out`.
pub fn push_uri_component(out: &mut String, s: &str)
    ensures
        final(out)@ == old(out)@ + uri_component(s@),
{
    let bytes = s.as_bytes();
    let ghost start = out@;
    for i in 0..bytes.len()
        invariant
            bytes@ == encode_utf8(s@),
            out@ == start + escape_bytes(bytes@.take(i as int)),
    {
        let b = bytes[i];
        assert(bytes@.take(i + 1).drop_last() == bytes@.take(i as int));
        if is_unreserved(b) {
            push_char(out, b as char);
        } else {
            push_char(out, '%');
            push_char(out, hex_digit(b / 16));
            push_char(out, hex_digit(b % 16));
        }
    }
    assert(bytes@.take(bytes@.len() as int) == bytes@);
}

/// `encodeURIComponent(s)` as a new string.
pub fn url_encode(s: &str) -> (r: String)
    ensures
        r@ == uri_component(s@),
{
    let mut r = String::new();
    push_uri_component(&mut r, s);
    r
}

} // verus!
