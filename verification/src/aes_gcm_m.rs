use vstd::prelude::*;
use vstd::pervasive::unreached;
use vstd::slice::slice_to_vec;

use crate::line::{DecodeError, Line, LineValid, copy_bytes};
use crate::symmetric::{AuthError, Key};

verus! {

/// The 12-byte AES-GCM nonce a 64-bit value is embedded into: four zero
/// bytes followed by the value in big-endian order.
pub open spec fn nonce12_be(n: u64) -> Seq<u8> {
    seq![
        0u8,
        0u8,
        0u8,
        0u8,
        ((n >> 56) & 0xff) as u8,
        ((n >> 48) & 0xff) as u8,
        ((n >> 40) & 0xff) as u8,
        ((n >> 32) & 0xff) as u8,
        ((n >> 24) & 0xff) as u8,
        ((n >> 16) & 0xff) as u8,
        ((n >> 8) & 0xff) as u8,
        (n & 0xff) as u8,
    ]
}

/// The ciphertext AES-256-GCM produces from a key, a 12-byte nonce and a
/// plaintext.
pub uninterp spec fn aes_gcm_cipher(key: Seq<u8>, nonce: Seq<u8>, data: Seq<u8>) -> Seq<u8>;

/// The tag AES-256-GCM computes over associated data and a ciphertext.
pub uninterp spec fn aes_gcm_tag(key: Seq<u8>, nonce: Seq<u8>, aad: Seq<u8>, cipher: Seq<u8>) -> Seq<
    u8,
>;

/// The plaintext AES-256-GCM recovers from a key, a 12-byte nonce and a
/// ciphertext.
pub uninterp spec fn aes_gcm_plain(key: Seq<u8>, nonce: Seq<u8>, cipher: Seq<u8>) -> Seq<u8>;

/// Relies on `byteorder::BigEndian::write_u64`: the value's eight bytes,
/// most significant first, written after four zero bytes.
#[verifier::external_body]
fn nonce_bytes_be(nonce: u64) -> (r: Vec<u8>)
    ensures
        r@ == nonce12_be(nonce),
{
    let mut buffer = [0u8; 12];
    <byteorder::BigEndian as byteorder::ByteOrder>::write_u64(&mut buffer[4..], nonce);
    buffer.to_vec()
}

/// Relies on `aes_gcm::Aes256Gcm`, `AeadInOut::encrypt_inout_detached`: in
/// place, it turns the buffer into the ciphertext of its old content and
/// returns the 16-byte tag computed over the associated data and that
/// ciphertext; the counter-mode keystream applied a second time returns
/// the old content; within the stated length limits the call never fails.
#[verifier::external_body]
fn aes256_gcm_seal(key: &[u8], nonce: &[u8], aad: &[u8], buffer: &mut Vec<u8>) -> (tag: Vec<u8>)
    requires
        key@.len() == 32,
        nonce@.len() == 12,
        old(buffer)@.len() < 0x1_0000_0000,
        aad@.len() < 0x2000_0000_0000_0000,
    ensures
        final(buffer)@ == aes_gcm_cipher(key@, nonce@, old(buffer)@),
        final(buffer)@.len() == old(buffer)@.len(),
        tag@ == aes_gcm_tag(key@, nonce@, aad@, final(buffer)@),
        tag@.len() == 16,
        aes_gcm_plain(key@, nonce@, final(buffer)@) == old(buffer)@,
{
    let aead = <aes_gcm::Aes256Gcm as aes_gcm::KeyInit>::new_from_slice(key).unwrap();
    let nonce_arr: &aes_gcm::Nonce<aes_gcm::aead::consts::U12> = nonce.try_into().unwrap();
    let tag = aes_gcm::AeadInOut::encrypt_inout_detached(
        &aead,
        nonce_arr,
        aad,
        buffer.as_mut_slice().into(),
    ).unwrap();
    tag.to_vec()
}

/// Relies on `aes_gcm::Aes256Gcm`, `AeadInOut::decrypt_inout_detached`: it
/// recomputes the tag over the associated data and the buffer, compares it
/// with the presented tag in constant time, and only on a match decrypts
/// the buffer in place; on a mismatch the buffer is left untouched.
#[verifier::external_body]
fn aes256_gcm_open(key: &[u8], nonce: &[u8], aad: &[u8], buffer: &mut Vec<u8>, tag: &[u8]) -> (r:
    bool)
    requires
        key@.len() == 32,
        nonce@.len() == 12,
        tag@.len() == 16,
        old(buffer)@.len() < 0x1_0000_0000,
        aad@.len() < 0x2000_0000_0000_0000,
    ensures
        r <==> tag@ == aes_gcm_tag(key@, nonce@, aad@, old(buffer)@),
        r ==> final(buffer)@ == aes_gcm_plain(key@, nonce@, old(buffer)@),
        r ==> final(buffer)@.len() == old(buffer)@.len(),
        !r ==> final(buffer)@ == old(buffer)@,
{
    let aead = <aes_gcm::Aes256Gcm as aes_gcm::KeyInit>::new_from_slice(key).unwrap();
    let nonce_arr: &aes_gcm::Nonce<aes_gcm::aead::consts::U12> = nonce.try_into().unwrap();
    let tag_arr: &aes_gcm::Tag = tag.try_into().unwrap();
    aes_gcm::AeadInOut::decrypt_inout_detached(
        &aead,
        nonce_arr,
        aad,
        buffer.as_mut_slice().into(),
        tag_arr,
    ).is_ok()
}

/// A 32-byte AES-256-GCM key.
#[verifier::ext_equal]
#[derive(Clone, Copy, Debug, PartialEq, Eq)]
pub struct AesGcmAeadKey {
    raw: [u8; 32],
}

impl LineValid for AesGcmAeadKey {
    open spec fn line_len() -> nat {
        32
    }

    open spec fn wf(&self) -> bool {
        true
    }

    closed spec fn bytes(&self) -> Seq<u8> {
        self.raw@
    }

    open spec fn valid_bytes(s: Seq<u8>) -> bool {
        s.len() == 32
    }

    fn length() -> (r: usize) {
        32
    }

    fn try_clone_array(a: &[u8]) -> (r: Result<Self, DecodeError>) {
        Ok(AesGcmAeadKey { raw: copy_bytes::<32>(a) })
    }

    fn clone_line(&self) -> (r: Vec<u8>) {
        slice_to_vec(self.raw.as_slice())
    }

    proof fn lemma_wf_bytes(&self) {
    }

    proof fn lemma_bytes_injective(a: &Self, b: &Self) {
        assert(a.raw =~= b.raw);
        assert(a =~= b);
    }
}

impl Line for AesGcmAeadKey {
    fn clone_array(a: &[u8]) -> (r: Self) {
        match Self::try_clone_array(a) {
            Ok(v) => v,
            Err(_) => unreached(),
        }
    }
}

impl Key for AesGcmAeadKey {
    open spec fn spec_name() -> Seq<char> {
        "AESGCM"@
    }

    open spec fn tag_len() -> nat {
        16
    }

    open spec fn spec_cipher(key: Seq<u8>, nonce: u64, input: Seq<u8>) -> Seq<u8> {
        aes_gcm_cipher(key, nonce12_be(nonce), input)
    }

    open spec fn spec_tag(key: Seq<u8>, nonce: u64, aad: Seq<u8>, cipher: Seq<u8>) -> Seq<u8> {
        aes_gcm_tag(key, nonce12_be(nonce), aad, cipher)
    }

    open spec fn spec_plain(key: Seq<u8>, nonce: u64, cipher: Seq<u8>) -> Seq<u8> {
        aes_gcm_plain(key, nonce12_be(nonce), cipher)
    }

    fn name() -> (r: &'static str) {
        "AESGCM"
    }

    fn encrypt(&self, nonce: u64, associated_data: &[u8], input: &[u8], output: &mut Vec<u8>) -> (tag: Vec<
        u8,
    >) {
        let nonce_bytes = nonce_bytes_be(nonce);
        *output = slice_to_vec(input);
        aes256_gcm_seal(self.raw.as_slice(), nonce_bytes.as_slice(), associated_data, output)
    }

    fn decrypt(
        &self,
        nonce: u64,
        associated_data: &[u8],
        input: &[u8],
        output: &mut Vec<u8>,
        tag: &[u8],
    ) -> (r: Result<(), AuthError>) {
        let nonce_bytes = nonce_bytes_be(nonce);
        *output = slice_to_vec(input);
        if aes256_gcm_open(
            self.raw.as_slice(),
            nonce_bytes.as_slice(),
            associated_data,
            output,
            tag,
        ) {
            Ok(())
        } else {
            Err(AuthError)
        }
    }
}

} // verus!
