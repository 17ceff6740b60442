//! Percent-encoding of URL query values.

use crate::text::Text;
use vstd::prelude::*;
use vstd::utf8::{encode_utf8, encode_utf8_decode_utf8};

verus! {

/// The bytes that stand for themselves in a query value: ASCII letters and digits and
/// `-`, `.`, `_`, `~`.
pub open spec fn unreserved(b: u8) -> bool {
    ||| 0x30 <= b <= 0x39
    ||| 0x41 <= b <= 0x5a
    ||| 0x61 <= b <= 0x7a
    ||| b == 0x2d
    ||| b == 0x2e
    ||| b == 0x5f
    ||| b == 0x7e
}

/// The upper-case hexadecimal digit of `n`, which is below sixteen.
pub open spec fn hex_digit(n: int) -> char {
    if n < 10 {
        (0x30 + n) as char
    } else {
        (0x41 + n - 10) as char
    }
}

/// The characters that stand for the byte `b`: itself where it is unreserved, else `%` and its
/// two hexadecimal digits.
pub open spec fn percent_encoded_byte(b: u8) -> Text {
    if unreserved(b) {
        seq![b as char]
    } else {
        seq!['%', hex_digit(b as int / 16), hex_digit(b as int % 16)]
    }
}

/// The characters that stand for `bytes`, byte by byte.
pub open spec fn percent_encoded_bytes(bytes: Seq<u8>) -> Text
    decreases bytes.len(),
{
    if bytes.len() == 0 {
        Seq::empty()
    } else {
        percent_encoded_byte(bytes[0]) + percent_encoded_bytes(bytes.skip(1))
    }
}

/// The percent-encoding of a text: of its UTF-8 bytes.
pub open spec fn percent_encoded(s: Text) -> Text {
    percent_encoded_bytes(encode_utf8(s))
}

/// Calls `urlencoding::encode`, which percent-encodes every byte of the UTF-8 form of its
/// argument except ASCII letters and digits and `-`, `.`, `_`, `~`, with upper-case digits.
#[verifier::external_body]
pub(crate) fn percent_encode(s: &str) -> (r: String)
    ensures
        r@ == percent_encoded(s@),
{
    urlencoding::encode(s).into_owned()
}

/// A character that a percent-encoded value may hold.
pub open spec fn query_safe(c: char) -> bool {
    c == '%' || exists|b: u8| #[trigger] unreserved(b) && c == b as char
}

proof fn lemma_encoded_byte_is_query_safe(b: u8, i: int)
    requires
        0 <= i < percent_encoded_byte(b).len(),
    ensures
        query_safe(percent_encoded_byte(b)[i]),
{
    let c = percent_encoded_byte(b)[i];
    if unreserved(b) {
        assert(unreserved(b) && c == b as char);
    } else if i > 0 {
        let n = if i == 1 {
            b as int / 16
        } else {
            b as int % 16
        };
        assert(c == hex_digit(n));
        let d = if n < 10 {
            (0x30 + n) as u8
        } else {
            (0x41 + n - 10) as u8
        };
        assert(unreserved(d) && c == d as char);
    }
}

proof fn lemma_encoded_bytes_are_query_safe(bytes: Seq<u8>)
    ensures
        forall|i: int|
            0 <= i < percent_encoded_bytes(bytes).len() ==> query_safe(
                #[trigger] percent_encoded_bytes(bytes)[i],
            ),
    decreases bytes.len(),
{
    if bytes.len() > 0 {
        lemma_encoded_bytes_are_query_safe(bytes.skip(1));
        let head = percent_encoded_byte(bytes[0]);
        assert forall|i: int| 0 <= i < percent_encoded_bytes(bytes).len() implies query_safe(
            #[trigger] percent_encoded_bytes(bytes)[i],
        ) by {
            if i < head.len() {
                lemma_encoded_byte_is_query_safe(bytes[0], i);
            } else {
                assert(percent_encoded_bytes(bytes)[i] == percent_encoded_bytes(
                    bytes.skip(1),
                )[i - head.len()]);
            }
        }
    }
}

/// A percent-encoded value holds nothing but unreserved characters and `%`. So no text, however
/// written, can close the query value that it stands in or open another.
pub proof fn law_encoded_values_are_query_safe(s: Text)
    ensures
        forall|i: int|
            0 <= i < percent_encoded(s).len() ==> query_safe(#[trigger] percent_encoded(s)[i]),
{
    lemma_encoded_bytes_are_query_safe(encode_utf8(s));
}

proof fn lemma_encoded_bytes_differ(a: Seq<u8>, b: Seq<u8>)
    requires
        percent_encoded_bytes(a) == percent_encoded_bytes(b),
    ensures
        a == b,
    decreases a.len(),
{
    let ea = percent_encoded_bytes(a);
    let eb = percent_encoded_bytes(b);
    if a.len() == 0 {
        if b.len() > 0 {
            assert(eb.len() > 0);
        }
        assert(a =~= b);
    } else {
        assert(ea.len() > 0);
        assert(b.len() > 0);
        let ha = percent_encoded_byte(a[0]);
        let hb = percent_encoded_byte(b[0]);
        assert(ea[0] == ha[0] && eb[0] == hb[0]);
        if !unreserved(a[0]) && !unreserved(b[0]) {
            assert(ea[1] == ha[1] && eb[1] == hb[1]);
            assert(ea[2] == ha[2] && eb[2] == hb[2]);
            assert(a[0] as int / 16 == b[0] as int / 16);
            assert(a[0] as int % 16 == b[0] as int % 16);
        }
        assert(a[0] == b[0]);
        assert(percent_encoded_bytes(a.skip(1)) =~= ea.skip(ha.len() as int));
        assert(percent_encoded_bytes(b.skip(1)) =~= eb.skip(hb.len() as int));
        lemma_encoded_bytes_differ(a.skip(1), b.skip(1));
        assert(a =~= seq![a[0]] + a.skip(1));
        assert(b =~= seq![b[0]] + b.skip(1));
    }
}

/// Percent-encoding loses nothing: different texts have different encodings.
pub proof fn law_encoding_is_injective(a: Text, b: Text)
    requires
        percent_encoded(a) == percent_encoded(b),
    ensures
        a == b,
{
    lemma_encoded_bytes_differ(encode_utf8(a), encode_utf8(b));
    encode_utf8_decode_utf8(a);
    encode_utf8_decode_utf8(b);
}

} // verus!
