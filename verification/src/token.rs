//! Bridge tokens: sixteen random bytes in lowercase hexadecimal.

use vstd::prelude::*;

verus! {

/// How many random bytes a token is made of.
pub const TOKEN_BYTES: usize = 16;

/// The lowercase hexadecimal digits, by value.
pub open spec fn hex_digits() -> Seq<char> {
    seq!['0', '1', '2', '3', '4', '5', '6', '7', '8', '9', 'a', 'b', 'c', 'd', 'e', 'f']
}

/// Bytes in lowercase hexadecimal: two digits for each byte, the high half
/// first.
pub open spec fn hex_of(bytes: Seq<u8>) -> Seq<char> {
    Seq::new(
        2 * bytes.len(),
        |i: int|
            if i % 2 == 0 {
                hex_digits()[bytes[i / 2] as int / 16]
            } else {
                hex_digits()[bytes[i / 2] as int % 16]
            },
    )
}

/// Whether a text is a bridge token: the hexadecimal form of
/// [`TOKEN_BYTES`] bytes.
pub open spec fn is_token(text: Seq<char>) -> bool {
    exists|bytes: Seq<u8>| bytes.len() == TOKEN_BYTES && text == #[trigger] hex_of(bytes)
}

/// Calls `hex::encode`, which writes each byte as two lowercase hexadecimal
/// digits, the high half first.
#[verifier::external_body]
fn hex_encode(bytes: &[u8]) -> (text: String)
    ensures
        text@ == hex_of(bytes@),
{
    hex::encode(bytes)
}

/// Fills a buffer of [`TOKEN_BYTES`] bytes by `rand::RngCore::fill_bytes` on
/// `rand::thread_rng()`. Nothing is known of the bytes but their number.
#[verifier::external_body]
fn random_bytes() -> (bytes: Vec<u8>)
    ensures
        bytes@.len() == TOKEN_BYTES,
{
    let mut bytes = [0u8; TOKEN_BYTES];
    rand::RngCore::fill_bytes(&mut rand::thread_rng(), &mut bytes);
    bytes.to_vec()
}

/// The token made of the given bytes.
pub fn token_from_bytes(bytes: &[u8]) -> (token: String)
    ensures
        token@ == hex_of(bytes@),
        token@.len() == 2 * bytes@.len(),
        bytes@.len() == TOKEN_BYTES ==> is_token(token@),
{
    hex_encode(bytes)
}

/// A fresh bridge token: 32 lowercase hexadecimal digits.
pub fn generate_token() -> (token: String)
    ensures
        is_token(token@),
        token@.len() == 2 * TOKEN_BYTES,
        forall|i: int| 0 <= i < token@.len() ==> hex_digits().contains(#[trigger] token@[i]),
{
    let bytes = random_bytes();
    let token = token_from_bytes(bytes.as_slice());
    proof {
        let digits = hex_digits();
        assert forall|i: int| 0 <= i < token@.len() implies digits.contains(#[trigger] token@[i]) by {
            let byte = bytes@[i / 2] as int;
            if i % 2 == 0 {
                assert(token@[i] == digits[byte / 16]);
            } else {
                assert(token@[i] == digits[byte % 16]);
            }
        }
    }
    token
}

} // verus!
