//! Percent-encoding of query values, done by the `urlencoding` crate.

use vstd::prelude::*;
use vstd::utf8::encode_utf8;

verus! {

/// Bytes that `urlencoding::encode` leaves as they are: ASCII letters,
/// digits, `-`, `.`, `_` and `~`.
pub open spec fn is_unreserved_byte(b: u8) -> bool {
    ||| 0x30 <= b <= 0x39
    ||| 0x41 <= b <= 0x5a
    ||| 0x61 <= b <= 0x7a
    ||| b == 0x2d
    ||| b == 0x2e
    ||| b == 0x5f
    ||| b == 0x7e
}

/// Upper-case hexadecimal digit for `d < 16`.
pub open spec fn hex_upper(d: u8) -> char {
    seq!['0', '1', '2', '3', '4', '5', '6', '7', '8', '9', 'A', 'B', 'C', 'D', 'E', 'F'][d as int]
}

/// The text that one byte becomes.
pub open spec fn percent_encode_byte(b: u8) -> Seq<char> {
    if is_unreserved_byte(b) {
        seq![b as char]
    } else {
        seq!['%', hex_upper(b / 16), hex_upper(b % 16)]
    }
}

/// Percent-encoding of a byte string, byte by byte.
pub open spec fn percent_encode(bytes: Seq<u8>) -> Seq<char>
    decreases bytes.len(),
{
    if bytes.len() == 0 {
        Seq::empty()
    } else {
        percent_encode_byte(bytes[0]) + percent_encode(bytes.drop_first())
    }
}

/// What `urlencoding::encode` makes of the text `s`: its UTF-8 bytes,
/// percent-encoded.
pub open spec fn url_encoded(s: Seq<char>) -> Seq<char> {
    percent_encode(encode_utf8(s))
}

/// Percent-encodes `s` for use as a query value (`urlencoding::encode`).
///
/// Trusted: the contract states what the crate's documentation and source
/// show: every UTF-8 byte of `s` except ASCII letters, digits and `-_.~`
/// becomes `%` and two upper-case hexadecimal digits, in order.
#[verifier::external_body]
pub fn url_encode(s: &str) -> (r: String)
    ensures
        r@ == url_encoded(s@),
{
    urlencoding::encode(s).into_owned()
}

/// Characters that may stand in an encoded query value: those that
/// encoding leaves as they are, `%` and the hexadecimal digits.
pub open spec fn is_query_value_char(c: char) -> bool {
    ||| ('0' <= c <= '9')
    ||| ('A' <= c <= 'Z')
    ||| ('a' <= c <= 'z')
    ||| c == '-'
    ||| c == '.'
    ||| c == '_'
    ||| c == '~'
    ||| c == '%'
}

/// Every character of a percent-encoded byte string is one that may stand in
/// a query value; in particular none is `&`, `=`, `?`, `#` or a space.
pub proof fn lemma_percent_encode_query_safe(bytes: Seq<u8>)
    ensures
        forall|i: int|
            0 <= i < percent_encode(bytes).len() ==> #[trigger] is_query_value_char(
                percent_encode(bytes)[i],
            ),
    decreases bytes.len(),
{
    if bytes.len() > 0 {
        lemma_percent_encode_query_safe(bytes.drop_first());
        let b = bytes[0];
        let head = percent_encode_byte(b);
        let tail = percent_encode(bytes.drop_first());
        assert(forall|i: int| 0 <= i < head.len() ==> #[trigger] is_query_value_char(head[i])) by {
            if !is_unreserved_byte(b) {
                assert(b / 16 < 16 && b % 16 < 16);
            }
        }
        assert forall|i: int| 0 <= i < (head + tail).len() implies #[trigger] is_query_value_char(
            (head + tail)[i],
        ) by {
            if i < head.len() {
                assert((head + tail)[i] == head[i]);
            } else {
                assert((head + tail)[i] == tail[i - head.len()]);
            }
        }
    }
}

/// Encoded text holds no character that would end or split a query value:
/// no `&`, `=`, `?`, `#` and no space.
pub proof fn lemma_url_encoded_query_safe(s: Seq<char>)
    ensures
        forall|i: int|
            0 <= i < url_encoded(s).len() ==> #[trigger] is_query_value_char(url_encoded(s)[i]),
{
    lemma_percent_encode_query_safe(encode_utf8(s));
}

} // verus!
