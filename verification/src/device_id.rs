//! The identifier under which the daemon registers with Spotify.

use sha1::Digest;
use sha1::Sha1;
use vstd::prelude::*;
use vstd::utf8::encode_utf8;

verus! {

/// The SHA-1 digest of a message.
pub uninterp spec fn sha1_digest(message: Seq<u8>) -> Seq<u8>;

/// The lower case hexadecimal digit for a value below sixteen.
pub open spec fn hex_digit(value: int) -> char {
    if value < 10 {
        ('0' as int + value) as char
    } else {
        ('a' as int + value - 10) as char
    }
}

/// The text in which two hexadecimal digits stand for each byte.
pub open spec fn hex_text(bytes: Seq<u8>) -> Seq<char> {
    Seq::new(
        2 * bytes.len(),
        |i: int|
            if i % 2 == 0 {
                hex_digit(bytes[i / 2] as int / 16)
            } else {
                hex_digit(bytes[i / 2] as int % 16)
            },
    )
}

/// `Sha1::digest`: the SHA-1 digest of `message`, which is twenty bytes long and
/// depends on the message alone.
#[verifier::external_body]
fn sha1(message: &[u8]) -> (digest: Vec<u8>)
    ensures
        digest@ == sha1_digest(message@),
        digest@.len() == 20,
{
    Sha1::digest(message).to_vec()
}

/// `hex::encode`: two lower case hexadecimal digits for each byte, in order.
#[verifier::external_body]
fn hex_encode(bytes: &[u8]) -> (text: String)
    ensures
        text@ == hex_text(bytes@),
{
    hex::encode(bytes)
}

/// The device identifier that a digest of the device's name stands for.
pub fn device_id_of_digest(digest: &[u8]) -> (id: String)
    ensures
        id@ == hex_text(digest@),
        id@.len() == 2 * digest@.len(),
        forall|i: int|
            0 <= i < digest@.len() ==> 16 * hex_value(id@[2 * i]) + hex_value(id@[2 * i + 1])
                == #[trigger] digest@[i],
{
    proof {
        law_hex_text_gives_the_bytes_back(digest@);
    }
    hex_encode(digest)
}

/// The identifier of the device with this name: the SHA-1 digest of the name's
/// bytes in hexadecimal digits.
pub fn device_id(name: &str) -> (id: String)
    ensures
        id@ == hex_text(sha1_digest(encode_utf8(name@))),
        id@.len() == 40,
        sha1_digest(encode_utf8(name@)).len() == 20,
        forall|i: int|
            0 <= i < 20 ==> 16 * hex_value(id@[2 * i]) + hex_value(id@[2 * i + 1])
                == #[trigger] sha1_digest(encode_utf8(name@))[i],
{
    let digest = sha1(name.as_bytes());
    device_id_of_digest(&digest)
}

/// Whether a character is a lower case hexadecimal digit.
pub open spec fn is_hex_digit(c: char) -> bool {
    '0' <= c <= '9' || 'a' <= c <= 'f'
}

/// A text in hexadecimal digits holds nothing else, two for each byte.
pub proof fn law_hex_text_holds_hex_digits(bytes: Seq<u8>)
    ensures
        hex_text(bytes).len() == 2 * bytes.len(),
        forall|i: int| 0 <= i < hex_text(bytes).len() ==> is_hex_digit(#[trigger] hex_text(bytes)[i]),
{
}

/// Different digests give different identifiers.
pub proof fn law_hex_text_is_injective(a: Seq<u8>, b: Seq<u8>)
    requires
        hex_text(a) == hex_text(b),
    ensures
        a == b,
{
    assert(a.len() == b.len()) by {
        assert(hex_text(a).len() == 2 * a.len());
        assert(hex_text(b).len() == 2 * b.len());
    }
    assert forall|i: int| 0 <= i < a.len() implies a[i] == b[i] by {
        lemma_digits_of_byte(a, i);
        lemma_digits_of_byte(b, i);
        lemma_hex_digit_is_injective(a[i] as int / 16, b[i] as int / 16);
        lemma_hex_digit_is_injective(a[i] as int % 16, b[i] as int % 16);
    }
}

proof fn lemma_digits_of_byte(bytes: Seq<u8>, i: int)
    requires
        0 <= i < bytes.len(),
    ensures
        hex_text(bytes)[2 * i] == hex_digit(bytes[i] as int / 16),
        hex_text(bytes)[2 * i + 1] == hex_digit(bytes[i] as int % 16),
{
}

proof fn lemma_hex_digit_is_injective(a: int, b: int)
    requires
        0 <= a < 16,
        0 <= b < 16,
        hex_digit(a) == hex_digit(b),
    ensures
        a == b,
{
}

/// The value of a hexadecimal digit.
pub open spec fn hex_value(c: char) -> int {
    if '0' <= c <= '9' {
        c as int - '0' as int
    } else {
        c as int - 'a' as int + 10
    }
}

/// Read as hexadecimal digits, a pair at a time, the text gives back every byte.
pub proof fn law_hex_text_gives_the_bytes_back(bytes: Seq<u8>)
    ensures
        hex_text(bytes).len() == 2 * bytes.len(),
        forall|i: int|
            0 <= i < bytes.len() ==> 16 * hex_value(hex_text(bytes)[2 * i]) + hex_value(
                hex_text(bytes)[2 * i + 1],
            ) == #[trigger] bytes[i],
{
    assert forall|i: int| 0 <= i < bytes.len() implies 16 * hex_value(hex_text(bytes)[2 * i])
        + hex_value(hex_text(bytes)[2 * i + 1]) == #[trigger] bytes[i] by {
        lemma_digits_of_byte(bytes, i);
    }
}

} // verus!
