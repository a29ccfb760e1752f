//! Decoding and decryption of the payload of the personal-fill channel.

use aes::cipher::{block_padding::ZeroPadding, BlockDecryptMut, KeyIvInit};
use vstd::prelude::*;
use crate::error::Error;

verus! {

/// The size of the buffer that a payload is decrypted into.
pub const BUF_SIZE: usize = 4096;

/// The length of an AES-256 key in bytes.
pub const KEY_SIZE: usize = 32;

/// The length of the initialisation vector, and of a cipher block, in bytes.
pub const BLOCK_SIZE: usize = 16;

/// What the standard base64 alphabet, with padding, decodes a text to; `None`
/// where the text is not such an encoding.
pub uninterp spec fn base64_decoded(text: Seq<u8>) -> Option<Seq<u8>>;

/// What AES-256 in CBC mode decrypts `data` to under `key` and `iv`, the zero
/// bytes at the end of the last block taken off.
pub uninterp spec fn aes256_cbc_plain(key: Seq<u8>, iv: Seq<u8>, data: Seq<u8>) -> Seq<u8>;

/// `base64::Engine::decode` of the engine `BASE64_STANDARD`, its error
/// dropped.
#[verifier::external_body]
fn base64_decode(text: &[u8]) -> (r: Option<Vec<u8>>)
    ensures
        match r {
            Some(bytes) => base64_decoded(text@) == Some(bytes@),
            None => base64_decoded(text@) is None,
        },
{
    base64::Engine::decode(&base64::prelude::BASE64_STANDARD, text).ok()
}

/// `cbc::Decryptor::<aes::Aes256>::new_from_slices`, then
/// `decrypt_padded_b2b_mut` with `ZeroPadding` into a buffer of [`BUF_SIZE`]
/// bytes. The first fails only on a key or vector of another length, the
/// second only on data longer than the buffer or not made of whole blocks;
/// `requires` leaves all of these out.
#[verifier::external_body]
fn aes256_cbc_decrypt(key: &[u8], iv: &[u8], data: &[u8]) -> (r: Vec<u8>)
    requires
        key@.len() == KEY_SIZE,
        iv@.len() == BLOCK_SIZE,
        data@.len() <= BUF_SIZE,
        data@.len() % (BLOCK_SIZE as nat) == 0,
    ensures
        r@ == aes256_cbc_plain(key@, iv@, data@),
{
    let mut out = vec![0u8; BUF_SIZE];
    match cbc::Decryptor::<aes::Aes256>::new_from_slices(key, iv) {
        Ok(cipher) => match cipher.decrypt_padded_b2b_mut::<ZeroPadding>(data, &mut out) {
            Ok(plain) => plain.to_vec(),
            Err(_) => Vec::new(),
        },
        Err(_) => Vec::new(),
    }
}

/// What [`decode_payload`] returns: the decoded bytes, or a base64 error,
/// which is a fault of the frame and none of the cipher.
pub open spec fn payload_decoded(text: Seq<u8>) -> Result<Seq<u8>, Error> {
    match base64_decoded(text) {
        Some(bytes) => Ok(bytes),
        None => Err(Error::Base64DecodeError),
    }
}

/// Whether key material has the lengths that the cipher takes.
pub open spec fn key_fits(key: Seq<u8>, iv: Seq<u8>) -> bool {
    key.len() == KEY_SIZE && iv.len() == BLOCK_SIZE
}

/// Whether a payload is made of whole blocks and fits the buffer.
pub open spec fn payload_fits(data: Seq<u8>) -> bool {
    data.len() <= BUF_SIZE && data.len() % (BLOCK_SIZE as nat) == 0
}

/// What [`decrypt`] returns: a length error for key material that the cipher
/// cannot take, a decryption error for data that is not made of whole blocks
/// or does not fit the buffer, and the plaintext otherwise.
pub open spec fn decrypted(key: Seq<u8>, iv: Seq<u8>, data: Seq<u8>) -> Result<Seq<u8>, Error> {
    if !key_fits(key, iv) {
        Err(Error::AesInvalidLength)
    } else if !payload_fits(data) {
        Err(Error::AesDecryptError)
    } else {
        Ok(aes256_cbc_plain(key, iv, data))
    }
}

/// The bytes of a result that holds a vector.
pub open spec fn bytes_in(r: Result<Vec<u8>, Error>) -> Result<Seq<u8>, Error> {
    match r {
        Ok(v) => Ok(v@),
        Err(e) => Err(e),
    }
}

/// Decodes the base64 text of a payload.
pub fn decode_payload(text: &[u8]) -> (r: Result<Vec<u8>, Error>)
    ensures
        bytes_in(r) == payload_decoded(text@),
{
    match base64_decode(text) {
        Some(bytes) => Ok(bytes),
        None => Err(Error::Base64DecodeError),
    }
}

/// Decrypts a payload with AES-256-CBC and takes the zero padding off. Key
/// and vector are used as they are, byte for byte.
pub fn decrypt(key: &[u8], iv: &[u8], data: &[u8]) -> (r: Result<Vec<u8>, Error>)
    ensures
        bytes_in(r) == decrypted(key@, iv@, data@),
{
    if key.len() != KEY_SIZE || iv.len() != BLOCK_SIZE {
        return Err(Error::AesInvalidLength);
    }
    if data.len() > BUF_SIZE || data.len() % BLOCK_SIZE != 0 {
        return Err(Error::AesDecryptError);
    }
    Ok(aes256_cbc_decrypt(key, iv, data))
}

/// What [`open_payload`] returns: the decoded bytes, decrypted where the
/// frame says that they are encrypted.
pub open spec fn payload_opened(
    encrypted: bool,
    key: Seq<u8>,
    iv: Seq<u8>,
    text: Seq<u8>,
) -> Result<Seq<u8>, Error> {
    match payload_decoded(text) {
        Err(e) => Err(e),
        Ok(data) => if encrypted {
            decrypted(key, iv, data)
        } else {
            Ok(data)
        },
    }
}

/// Turns the base64 text of a payload into its plaintext.
pub fn open_payload(encrypted: bool, key: &[u8], iv: &[u8], text: &[u8]) -> (r: Result<
    Vec<u8>,
    Error,
>)
    ensures
        bytes_in(r) == payload_opened(encrypted, key@, iv@, text@),
{
    match decode_payload(text) {
        Err(e) => Err(e),
        Ok(data) => if encrypted {
            decrypt(key, iv, data.as_slice())
        } else {
            Ok(data)
        },
    }
}

} // verus!
