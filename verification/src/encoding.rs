//! Text in query strings: the `application/x-www-form-urlencoded` encoding.

use vstd::prelude::*;
use vstd::utf8::encode_utf8;

verus! {

/// Whether a byte stands for itself in an encoded text.
pub open spec fn form_unchanged(byte: u8) -> bool {
    ||| 0x30 <= byte <= 0x39
    ||| 0x41 <= byte <= 0x5a
    ||| 0x61 <= byte <= 0x7a
    ||| byte == 0x2a
    ||| byte == 0x2d
    ||| byte == 0x2e
    ||| byte == 0x5f
}

/// The upper-case hexadecimal digit of a number under sixteen.
pub open spec fn hex_digit(digit: int) -> char {
    if digit < 10 {
        (0x30 + digit) as char
    } else {
        (0x37 + digit) as char
    }
}

/// How one byte is encoded: as itself where that is safe, a space as a plus sign,
/// and any other byte as a percent sign and its two hexadecimal digits.
pub open spec fn form_byte(byte: u8) -> Seq<char> {
    if form_unchanged(byte) {
        seq![byte as char]
    } else if byte == 0x20 {
        seq!['+']
    } else {
        seq!['%', hex_digit(byte as int / 16), hex_digit(byte as int % 16)]
    }
}

/// How bytes are encoded: one after the other.
pub open spec fn form_bytes(bytes: Seq<u8>) -> Seq<char>
    decreases bytes.len(),
{
    if bytes.len() == 0 {
        Seq::empty()
    } else {
        form_byte(bytes[0]) + form_bytes(bytes.skip(1))
    }
}

/// How text is encoded: by the bytes of its UTF-8 form.
pub open spec fn form_encoded(text: Seq<char>) -> Seq<char> {
    form_bytes(encode_utf8(text))
}

/// `url::form_urlencoded::byte_serialize`, its pieces put together: the bytes
/// encoded one after the other.
#[verifier::external_body]
pub(crate) fn byte_serialize(bytes: &[u8]) -> (encoded: String)
    ensures
        encoded@ == form_bytes(bytes@),
{
    url::form_urlencoded::byte_serialize(bytes).collect::<String>()
}

/// Encodes `text` for a query string.
pub fn form_encode(text: &str) -> (encoded: String)
    ensures
        encoded@ == form_encoded(text@),
{
    byte_serialize(text.as_bytes())
}

/// Whether a character may stand in an encoded text.
pub open spec fn form_safe(c: char) -> bool {
    ||| c == '+'
    ||| c == '%'
    ||| c as u32 <= 0x7f && form_unchanged(c as u8)
}

/// Encoded bytes hold safe characters alone: letters and digits of ASCII and
/// `* - . _ + %`. So none of `& = ? # /`, and no space, comes out of an encoding.
pub proof fn lemma_form_bytes_safe(bytes: Seq<u8>)
    ensures
        forall|i: int| 0 <= i < form_bytes(bytes).len() ==> form_safe(#[trigger] form_bytes(bytes)[i]),
    decreases bytes.len(),
{
    if bytes.len() > 0 {
        lemma_form_bytes_safe(bytes.skip(1));
        let rest = form_bytes(bytes.skip(1));
        let head = form_byte(bytes[0]);
        assert forall|i: int| 0 <= i < head.len() implies form_safe(#[trigger] head[i]) by {}
        assert forall|i: int| 0 <= i < form_bytes(bytes).len() implies form_safe(
            #[trigger] form_bytes(bytes)[i],
        ) by {
            if i >= head.len() {
                assert(form_bytes(bytes)[i] == rest[i - head.len()]);
            }
        }
    }
}

/// The encoding of a byte can be told from what follows it.
proof fn lemma_form_byte_prefix(a: u8, b: u8, s: Seq<char>, t: Seq<char>)
    requires
        form_byte(a) + s == form_byte(b) + t,
    ensures
        a == b,
        s == t,
{
    let x = form_byte(a) + s;
    let y = form_byte(b) + t;
    assert(x[0] == form_byte(a)[0]);
    assert(y[0] == form_byte(b)[0]);
    if !form_unchanged(a) && a != 0x20 {
        assert(!form_unchanged(b) && b != 0x20);
        assert(x[1] == form_byte(a)[1] && y[1] == form_byte(b)[1]);
        assert(x[2] == form_byte(a)[2] && y[2] == form_byte(b)[2]);
        assert(a as int / 16 == b as int / 16);
        assert(a as int % 16 == b as int % 16);
        assert(s =~= x.skip(3));
        assert(t =~= y.skip(3));
    } else {
        assert(s =~= x.skip(1));
        assert(t =~= y.skip(1));
    }
}

/// Bytes that are encoded alike are the same bytes.
pub proof fn lemma_form_bytes_injective(a: Seq<u8>, b: Seq<u8>)
    requires
        form_bytes(a) == form_bytes(b),
    ensures
        a == b,
    decreases a.len(),
{
    if a.len() > 0 && b.len() > 0 {
        lemma_form_byte_prefix(a[0], b[0], form_bytes(a.skip(1)), form_bytes(b.skip(1)));
        lemma_form_bytes_injective(a.skip(1), b.skip(1));
        assert(a =~= seq![a[0]] + a.skip(1));
        assert(b =~= seq![b[0]] + b.skip(1));
    } else {
        if a.len() > 0 {
            assert(form_bytes(a) == form_byte(a[0]) + form_bytes(a.skip(1)));
            assert(form_bytes(a).len() > 0 && form_bytes(b).len() == 0);
        }
        if b.len() > 0 {
            assert(form_bytes(b) == form_byte(b[0]) + form_bytes(b.skip(1)));
            assert(form_bytes(b).len() > 0 && form_bytes(a).len() == 0);
        }
        assert(a =~= b);
    }
}

/// Texts that are encoded alike are the same text: what the service decodes is
/// what was asked for.
pub proof fn lemma_form_encoded_injective(a: Seq<char>, b: Seq<char>)
    requires
        form_encoded(a) == form_encoded(b),
    ensures
        a == b,
{
    lemma_form_bytes_injective(encode_utf8(a), encode_utf8(b));
    vstd::utf8::encode_utf8_decode_utf8(a);
    vstd::utf8::encode_utf8_decode_utf8(b);
}

} // verus!
