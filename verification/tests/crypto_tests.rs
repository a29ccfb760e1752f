use aes::cipher::{block_padding::ZeroPadding, BlockEncryptMut, KeyIvInit};
use base64::Engine;
use korea_investment_api::crypto::{decode_payload, decrypt, open_payload, BLOCK_SIZE, BUF_SIZE, KEY_SIZE};
use korea_investment_api::error::Error;

const KEY: &[u8] = b"abcdefghijklmnopqrstuvwxyz012345";
const IV: &[u8] = b"0123456789abcdef";

fn encrypt(key: &[u8], iv: &[u8], plain: &[u8]) -> Vec<u8> {
    let mut buffer = vec![0u8; plain.len() + 16];
    buffer[..plain.len()].copy_from_slice(plain);
    cbc::Encryptor::<aes::Aes256>::new_from_slices(key, iv)
        .unwrap()
        .encrypt_padded_mut::<ZeroPadding>(&mut buffer, plain.len())
        .unwrap()
        .to_vec()
}

#[test]
fn the_sizes_are_those_of_aes_256() {
    assert_eq!(KEY_SIZE, 32);
    assert_eq!(BLOCK_SIZE, 16);
    assert_eq!(BUF_SIZE, 4096);
}

#[test]
fn base64_is_decoded() {
    assert_eq!(decode_payload(b"aGVsbG8gd29ybGQ="), Ok(b"hello world".to_vec()));
    assert_eq!(decode_payload(b""), Ok(Vec::new()));
    assert_eq!(decode_payload(b"AAEC/w=="), Ok(vec![0, 1, 2, 255]));
}

#[test]
fn what_is_not_base64_is_a_base64_error() {
    assert_eq!(decode_payload(b"aGVsbG8gd29ybGQ"), Err(Error::Base64DecodeError));
    assert_eq!(decode_payload(b"not base64!"), Err(Error::Base64DecodeError));
    assert_eq!(decode_payload(b"aGVs bG8="), Err(Error::Base64DecodeError));
}

#[test]
fn decryption_undoes_encryption() {
    let plain = b"user01^1234567801^0000012345^^02^0^00^0^005930^0000000010^000070000^093001";
    let data = encrypt(KEY, IV, plain);
    assert_eq!(data.len() % 16, 0);
    assert_ne!(&data[..plain.len().min(data.len())], &plain[..]);
    assert_eq!(decrypt(KEY, IV, &data), Ok(plain.to_vec()));
}

#[test]
fn a_known_ciphertext_decrypts_to_its_plaintext() {
    // One block of sixteen bytes `A`, encrypted once with the key and vector above.
    let data = encrypt(KEY, IV, &[b'A'; 16]);
    assert_eq!(data.len(), 16);
    assert_eq!(decrypt(KEY, IV, &data), Ok(vec![b'A'; 16]));
    // A different vector changes the first block.
    assert_ne!(decrypt(KEY, b"fedcba9876543210", &data), Ok(vec![b'A'; 16]));
}

#[test]
fn zero_padding_is_taken_off_the_last_block_only() {
    let mut plain = vec![0u8; 16];
    plain.extend_from_slice(b"abc");
    let data = encrypt(KEY, IV, &plain);
    assert_eq!(data.len(), 32);
    assert_eq!(decrypt(KEY, IV, &data), Ok(plain));
    let zeros = encrypt(KEY, IV, &[0u8; 16]);
    assert_eq!(decrypt(KEY, IV, &zeros), Ok(Vec::new()));
}

#[test]
fn empty_data_decrypts_to_nothing() {
    assert_eq!(decrypt(KEY, IV, b""), Ok(Vec::new()));
}

#[test]
fn key_material_of_the_wrong_length_is_a_length_error() {
    let data = encrypt(KEY, IV, b"0123456789abcdef");
    assert_eq!(decrypt(&KEY[..31], IV, &data), Err(Error::AesInvalidLength));
    assert_eq!(decrypt(KEY, &IV[..15], &data), Err(Error::AesInvalidLength));
    assert_eq!(decrypt(b"", b"", &data), Err(Error::AesInvalidLength));
    assert_eq!(decrypt(&[KEY, b"x"].concat(), IV, &data), Err(Error::AesInvalidLength));
}

#[test]
fn data_that_is_not_whole_blocks_is_a_decryption_error() {
    assert_eq!(decrypt(KEY, IV, b"0123456789abcde"), Err(Error::AesDecryptError));
    assert_eq!(decrypt(KEY, IV, &[0u8; 17]), Err(Error::AesDecryptError));
}

#[test]
fn data_beyond_the_buffer_is_a_decryption_error() {
    assert!(decrypt(KEY, IV, &vec![0u8; BUF_SIZE]).is_ok());
    assert_eq!(decrypt(KEY, IV, &vec![0u8; BUF_SIZE + 16]), Err(Error::AesDecryptError));
}

#[test]
fn the_wrong_key_gives_another_plaintext() {
    let plain = b"0123456789abcdef0123456789abcdef";
    let data = encrypt(KEY, IV, plain);
    let other = decrypt(b"ABCDEFGHIJKLMNOPQRSTUVWXYZ012345", IV, &data);
    assert_ne!(other, Ok(plain.to_vec()));
}

#[test]
fn a_plain_payload_is_only_decoded() {
    let text = base64::prelude::BASE64_STANDARD.encode(b"a^b^c");
    assert_eq!(open_payload(false, b"", b"", text.as_bytes()), Ok(b"a^b^c".to_vec()));
}

#[test]
fn an_encrypted_payload_is_decoded_and_decrypted() {
    let text = base64::prelude::BASE64_STANDARD.encode(encrypt(KEY, IV, b"a^b^c"));
    assert_eq!(open_payload(true, KEY, IV, text.as_bytes()), Ok(b"a^b^c".to_vec()));
    assert_eq!(open_payload(true, b"", IV, text.as_bytes()), Err(Error::AesInvalidLength));
    assert_eq!(open_payload(true, KEY, IV, b"****"), Err(Error::Base64DecodeError));
    assert_eq!(open_payload(true, b"", b"", b"****"), Err(Error::Base64DecodeError));
    assert_eq!(open_payload(false, KEY, IV, b"****"), Err(Error::Base64DecodeError));
    let odd = base64::prelude::BASE64_STANDARD.encode(b"abc");
    assert_eq!(open_payload(true, KEY, IV, odd.as_bytes()), Err(Error::AesDecryptError));
}
