//! Text that is built or taken apart with the help of other crates.

use hyper::http::uri::Authority;
use percent_encoding::{percent_encode, NON_ALPHANUMERIC};
use vstd::prelude::*;

verus! {

/// An ASCII letter or digit.
pub open spec fn alphanumeric(b: u8) -> bool {
    0x30 <= b <= 0x39 || 0x41 <= b <= 0x5a || 0x61 <= b <= 0x7a
}

/// A number below sixteen as an upper case hexadecimal digit.
pub open spec fn hex_digit(n: int) -> char {
    if n < 10 {
        (0x30 + n) as char
    } else {
        (0x37 + n) as char
    }
}

/// A byte in a percent-encoded text: itself where it is a letter or a digit, else a percent
/// sign and two hexadecimal digits.
pub open spec fn encoded_byte(b: u8) -> Seq<char> {
    if alphanumeric(b) {
        seq![b as char]
    } else {
        seq!['%', hex_digit(b as int / 16), hex_digit(b as int % 16)]
    }
}

/// Bytes in percent-encoding, one after the other.
pub open spec fn percent_encoded(bytes: Seq<u8>) -> Seq<char>
    decreases bytes.len(),
{
    if bytes.len() == 0 {
        Seq::empty()
    } else {
        percent_encoded(bytes.drop_last()) + encoded_byte(bytes.last())
    }
}

/// `percent_encode` with `NON_ALPHANUMERIC` keeps ASCII letters and digits and replaces
/// every other byte by a percent sign and its two upper case hexadecimal digits.
#[verifier::external_body]
pub(crate) fn encode_percent(bytes: &[u8]) -> (text: String)
    ensures
        text@ == percent_encoded(bytes@),
{
    percent_encode(bytes, NON_ALPHANUMERIC).to_string()
}

/// The authority of a URI: optional user information, a host, and an optional port.
#[verifier::external_type_specification]
#[verifier::external_body]
pub struct ExAuthority(hyper::http::uri::Authority);

/// The text of an authority.
pub uninterp spec fn authority_text(authority: hyper::http::uri::Authority) -> Seq<char>;

/// What follows the last `@` of an authority: the host and the port.
pub open spec fn host_and_port(text: Seq<char>) -> Seq<char> {
    match text.index_of_last('@') {
        Some(i) => text.skip(i + 1),
        None => text,
    }
}

/// The host of an authority: up to the closing bracket where it is bracketed, else up to
/// the first colon.
pub open spec fn host_part(text: Seq<char>) -> Seq<char> {
    let rest = host_and_port(text);
    if rest.len() > 0 && rest[0] == '[' {
        match rest.index_of_first(']') {
            Some(i) => rest.take(i + 1),
            None => rest,
        }
    } else {
        match rest.index_of_first(':') {
            Some(i) => rest.take(i),
            None => rest,
        }
    }
}

/// `Authority::as_str` gives the text of an authority.
#[verifier::external_body]
pub(crate) fn authority_str(authority: &Authority) -> (text: &str)
    ensures
        text@ == authority_text(*authority),
{
    authority.as_str()
}

/// `Authority::host` gives the host of an authority.
#[verifier::external_body]
pub(crate) fn authority_host(authority: &Authority) -> (host: &str)
    ensures
        host@ == host_part(authority_text(*authority)),
{
    authority.host()
}

/// `String::push` adds a character at the end.
pub assume_specification[ std::string::String::push ](string: &mut std::string::String, c: char)
    ensures
        final(string)@ == old(string)@.push(c),
;

/// The characters that a percent-encoded text is made of.
pub open spec fn is_encoded_char(c: char) -> bool {
    ('0' <= c && c <= '9') || ('A' <= c && c <= 'Z') || ('a' <= c && c <= 'z') || c == '%'
}

/// A percent-encoded text holds nothing but ASCII letters, digits and percent signs.
pub proof fn law_encoding_is_plain(bytes: Seq<u8>)
    ensures
        forall|i: int|
            0 <= i < percent_encoded(bytes).len() ==> is_encoded_char(
                #[trigger] percent_encoded(bytes)[i],
            ),
    decreases bytes.len(),
{
    if bytes.len() > 0 {
        law_encoding_is_plain(bytes.drop_last());
        let front = percent_encoded(bytes.drop_last());
        let back = encoded_byte(bytes.last());
        assert forall|i: int| 0 <= i < percent_encoded(bytes).len() implies is_encoded_char(
            #[trigger] percent_encoded(bytes)[i],
        ) by {
            if i < front.len() {
                assert(percent_encoded(bytes)[i] == front[i]);
            } else {
                assert(percent_encoded(bytes)[i] == back[i - front.len()]);
            }
        }
    }
}

/// Letters and digits are left as they are.
pub proof fn law_encoding_keeps_letters_and_digits(bytes: Seq<u8>)
    requires
        forall|i: int| 0 <= i < bytes.len() ==> alphanumeric(#[trigger] bytes[i]),
    ensures
        percent_encoded(bytes) == bytes.map_values(|b: u8| b as char),
    decreases bytes.len(),
{
    if bytes.len() > 0 {
        law_encoding_keeps_letters_and_digits(bytes.drop_last());
        assert(percent_encoded(bytes) =~= bytes.map_values(|b: u8| b as char));
    }
}

/// A percent-encoded text starts with its first byte.
proof fn lemma_encoding_starts_with_first(bytes: Seq<u8>)
    requires
        bytes.len() > 0,
    ensures
        percent_encoded(bytes) == encoded_byte(bytes.first()) + percent_encoded(bytes.drop_first()),
    decreases bytes.len(),
{
    if bytes.len() == 1 {
        assert(bytes.drop_last() =~= Seq::empty());
        assert(bytes.drop_first() =~= Seq::empty());
        assert(percent_encoded(bytes.drop_last()) =~= Seq::empty());
        assert(percent_encoded(bytes.drop_first()) =~= Seq::empty());
        assert(percent_encoded(bytes) =~= encoded_byte(bytes.first()) + percent_encoded(
            bytes.drop_first(),
        ));
    } else {
        lemma_encoding_starts_with_first(bytes.drop_last());
        assert(bytes.drop_last().first() == bytes.first());
        assert(bytes.drop_last().drop_first() =~= bytes.drop_first().drop_last());
        assert(bytes.drop_first().last() == bytes.last());
        assert(percent_encoded(bytes) =~= encoded_byte(bytes.first()) + percent_encoded(
            bytes.drop_first(),
        ));
    }
}

/// Two bytes whose encodings start two equal texts are equal, and so are their encodings.
proof fn lemma_first_byte_is_determined(a: u8, b: u8, rest_a: Seq<char>, rest_b: Seq<char>)
    requires
        encoded_byte(a) + rest_a == encoded_byte(b) + rest_b,
    ensures
        a == b,
        rest_a == rest_b,
{
    let whole = encoded_byte(a) + rest_a;
    assert(whole[0] == encoded_byte(a)[0]);
    assert(whole[0] == encoded_byte(b)[0]);
    if alphanumeric(a) {
        assert(a as char != '%');
        assert(alphanumeric(b));
    } else {
        assert(!alphanumeric(b)) by {
            if alphanumeric(b) {
                assert(b as char != '%');
            }
        }
        assert(whole[1] == encoded_byte(a)[1]);
        assert(whole[1] == encoded_byte(b)[1]);
        assert(whole[2] == encoded_byte(a)[2]);
        assert(whole[2] == encoded_byte(b)[2]);
        assert(a as int / 16 == b as int / 16);
        assert(a as int % 16 == b as int % 16);
    }
    assert(encoded_byte(a) == encoded_byte(b));
    assert(rest_a =~= whole.skip(encoded_byte(a).len() as int));
    assert(rest_b =~= whole.skip(encoded_byte(b).len() as int));
}

/// Percent-encoding loses nothing: different bytes have different encodings.
pub proof fn law_encoding_is_unambiguous(a: Seq<u8>, b: Seq<u8>)
    ensures
        percent_encoded(a) == percent_encoded(b) ==> a == b,
    decreases a.len(),
{
    if percent_encoded(a) == percent_encoded(b) {
        if a.len() > 0 {
            lemma_encoding_starts_with_first(a);
            assert(percent_encoded(a).len() > 0);
        }
        if b.len() > 0 {
            lemma_encoding_starts_with_first(b);
            assert(percent_encoded(b).len() > 0);
        }
        if a.len() > 0 && b.len() > 0 {
            lemma_first_byte_is_determined(
                a.first(),
                b.first(),
                percent_encoded(a.drop_first()),
                percent_encoded(b.drop_first()),
            );
            law_encoding_is_unambiguous(a.drop_first(), b.drop_first());
            assert(a =~= seq![a.first()] + a.drop_first());
            assert(b =~= seq![b.first()] + b.drop_first());
        } else {
            assert(a =~= b);
        }
    }
}

/// The number that a hexadecimal digit in upper case stands for.
pub open spec fn digit_value(c: char) -> int {
    if '0' <= c && c <= '9' {
        c as int - '0' as int
    } else {
        c as int - 'A' as int + 10
    }
}

/// A byte is encoded as itself where it is an ASCII letter or digit. Otherwise it becomes a
/// percent sign and two digits, each a decimal digit or a letter from A to F, that give the
/// byte back.
pub proof fn law_bytes_are_encoded(b: u8)
    ensures
        ({
            let text = percent_encoded(seq![b]);
            let plain = 0x30 <= b <= 0x39 || 0x41 <= b <= 0x5a || 0x61 <= b <= 0x7a;
            &&& plain ==> text.len() == 1 && text[0] as int == b as int
            &&& !plain ==> {
                &&& text.len() == 3
                &&& text[0] == '%'
                &&& ('0' <= text[1] && text[1] <= '9') || ('A' <= text[1] && text[1] <= 'F')
                &&& ('0' <= text[2] && text[2] <= '9') || ('A' <= text[2] && text[2] <= 'F')
                &&& 16 * digit_value(text[1]) + digit_value(text[2]) == b
            }
        }),
{
    assert(seq![b].drop_last() =~= Seq::<u8>::empty());
    assert(percent_encoded(seq![b].drop_last()) =~= Seq::<char>::empty());
    assert(percent_encoded(seq![b]) =~= encoded_byte(b));
    assert(b as int == 16 * (b as int / 16) + b as int % 16);
}

/// Bytes are encoded one by one: the encoding of two texts in a row is that of the first
/// followed by that of the second, and nothing is encoded as nothing.
pub proof fn law_encoding_goes_byte_by_byte(a: Seq<u8>, b: Seq<u8>)
    ensures
        percent_encoded(a + b) == percent_encoded(a) + percent_encoded(b),
        percent_encoded(Seq::empty()).len() == 0,
    decreases b.len(),
{
    if b.len() == 0 {
        assert(a + b =~= a);
        assert(percent_encoded(b) =~= Seq::<char>::empty());
        assert(percent_encoded(a) + percent_encoded(b) =~= percent_encoded(a));
    } else {
        law_encoding_goes_byte_by_byte(a, b.drop_last());
        assert((a + b).drop_last() =~= a + b.drop_last());
        assert(percent_encoded(a + b) =~= percent_encoded(a) + percent_encoded(b));
    }
}

} // verus!
