//! Text in query strings.

use crate::encoding::{form_byte, form_bytes, form_encode};
use vstd::prelude::*;
use vstd::utf8::encode_utf8;

verus! {

/// Whether a character is one of those that need no escape in a query: a letter or
/// digit of ASCII, or one of `* - . _`.
pub open spec fn needs_no_escape(c: char) -> bool {
    ||| 'a' <= c <= 'z'
    ||| 'A' <= c <= 'Z'
    ||| '0' <= c <= '9'
    ||| c == '*'
    ||| c == '-'
    ||| c == '.'
    ||| c == '_'
}

/// Whether a character is an upper-case hexadecimal digit.
pub open spec fn is_hex(c: char) -> bool {
    '0' <= c <= '9' || 'A' <= c <= 'F'
}

/// The value of a hexadecimal digit.
pub open spec fn hex_value(c: char) -> int {
    if c <= '9' {
        c as int - '0' as int
    } else {
        c as int - 'A' as int + 10
    }
}

/// The bytes that a server reads from an encoded text: a plus sign is a space, a
/// percent sign and two digits are a byte, and any other character is itself.
pub open spec fn decoded(encoded: Seq<char>) -> Seq<u8>
    decreases encoded.len(),
{
    if encoded.len() == 0 {
        Seq::empty()
    } else if encoded[0] == '%' && encoded.len() >= 3 {
        seq![(16 * hex_value(encoded[1]) + hex_value(encoded[2])) as u8] + decoded(encoded.skip(3))
    } else if encoded[0] == '+' {
        seq![0x20u8] + decoded(encoded.skip(1))
    } else {
        seq![encoded[0] as u8] + decoded(encoded.skip(1))
    }
}

/// Whether the character at `i` of an encoded text is in its place: it needs no
/// escape, or is a plus sign, or begins the escape of a byte that needs one.
pub open spec fn in_place(encoded: Seq<char>, i: int) -> bool {
    ||| needs_no_escape(encoded[i])
    ||| encoded[i] == '+'
    ||| {
        &&& encoded[i] == '%'
        &&& i + 2 < encoded.len()
        &&& is_hex(encoded[i + 1])
        &&& is_hex(encoded[i + 2])
        &&& {
            let byte = 16 * hex_value(encoded[i + 1]) + hex_value(encoded[i + 2]);
            byte != 0x20 && !(byte < 0x80 && needs_no_escape(byte as char))
        }
    }
}

proof fn lemma_form_bytes_decoded(bytes: Seq<u8>)
    ensures
        decoded(form_bytes(bytes)) == bytes,
        forall|i: int| 0 <= i < form_bytes(bytes).len() ==> #[trigger] in_place(form_bytes(bytes), i),
    decreases bytes.len(),
{
    if bytes.len() > 0 {
        let head = form_byte(bytes[0]);
        let rest = form_bytes(bytes.skip(1));
        let all = form_bytes(bytes);
        lemma_form_bytes_decoded(bytes.skip(1));
        assert(all == head + rest);
        assert(all.skip(head.len() as int) =~= rest);
        assert forall|i: int| 0 <= i < head.len() implies all[i] == head[i] by {}
        assert(bytes =~= seq![bytes[0]] + bytes.skip(1));
        assert(all[0] == head[0]);
        if head[0] == '%' {
            assert(all[1] == head[1] && all[2] == head[2]);
            assert(16 * hex_value(all[1]) + hex_value(all[2]) == bytes[0] as int);
        }
        assert(decoded(all) == seq![bytes[0]] + decoded(rest));
        assert forall|i: int| 0 <= i < all.len() implies #[trigger] in_place(all, i) by {
            if i >= head.len() {
                let k = i - head.len();
                assert(in_place(rest, k));
                assert(all[i] == rest[k]);
                if k + 1 < rest.len() {
                    assert(all[i + 1] == rest[k + 1]);
                }
                if k + 2 < rest.len() {
                    assert(all[i + 2] == rest[k + 2]);
                }
            }
        }
    } else {
        assert(form_bytes(bytes) =~= Seq::<char>::empty());
        assert(decoded(form_bytes(bytes)) =~= bytes);
    }
}

/// What a server decodes from an encoded text is that text, in UTF-8.
pub proof fn law_an_encoded_text_is_decoded_to_itself(text: &str, encoded: String)
    requires
        call_ensures(form_encode, (text,), encoded),
    ensures
        decoded(encoded@) == encode_utf8(text@),
{
    lemma_form_bytes_decoded(encode_utf8(text@));
}

/// An encoded text holds nothing but characters that need no escape, plus signs, and
/// escapes of bytes that need one, in upper-case digits.
pub proof fn law_only_what_needs_it_is_escaped(text: &str, encoded: String)
    requires
        call_ensures(form_encode, (text,), encoded),
    ensures
        forall|i: int| 0 <= i < encoded@.len() ==> #[trigger] in_place(encoded@, i),
{
    lemma_form_bytes_decoded(encode_utf8(text@));
}

/// Texts that are encoded alike are the same.
pub proof fn law_encoded_texts_differ_as_the_texts_do(
    texts: (&str, &str),
    encoded: (String, String),
)
    requires
        call_ensures(form_encode, (texts.0,), encoded.0),
        call_ensures(form_encode, (texts.1,), encoded.1),
    ensures
        encoded.0@ == encoded.1@ <==> texts.0@ == texts.1@,
{
    if encoded.0@ == encoded.1@ {
        crate::encoding::lemma_form_encoded_injective(texts.0@, texts.1@);
    }
}

} // verus!
