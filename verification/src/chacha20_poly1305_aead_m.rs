use vstd::prelude::*;
use vstd::pervasive::unreached;
use vstd::slice::slice_to_vec;

use crate::line::{DecodeError, Line, LineValid, copy_bytes};
use crate::symmetric::{AuthError, Key};
use crate::chacha20poly1305_m::{nonce12_le, nonce_bytes_le};

verus! {

/// The ciphertext the `chacha20_poly1305_aead` implementation produces
/// from a key, a 12-byte nonce and a plaintext.
pub uninterp spec fn legacy_cipher(key: Seq<u8>, nonce: Seq<u8>, data: Seq<u8>) -> Seq<u8>;

/// The tag the `chacha20_poly1305_aead` implementation computes over
/// associated data and a ciphertext.
pub uninterp spec fn legacy_tag(key: Seq<u8>, nonce: Seq<u8>, aad: Seq<u8>, cipher: Seq<u8>) -> Seq<
    u8,
>;

/// The plaintext the `chacha20_poly1305_aead` implementation recovers from
/// a key, a 12-byte nonce and a ciphertext.
pub uninterp spec fn legacy_plain(key: Seq<u8>, nonce: Seq<u8>, cipher: Seq<u8>) -> Seq<u8>;

/// Relies on `chacha20_poly1305_aead::encrypt`: it writes the ciphertext
/// of the input, of the same length, and returns the 16-byte tag computed
/// over the associated data and that ciphertext; the keystream applied a
/// second time returns the input; writing to a byte vector never fails and
/// the length limit keeps the block counter from overflowing.
#[verifier::external_body]
fn legacy_seal(key: &[u8], nonce: &[u8], aad: &[u8], input: &[u8], output: &mut Vec<u8>) -> (tag:
    Vec<u8>)
    requires
        key@.len() == 32,
        nonce@.len() == 12,
        input@.len() < 0x1_0000_0000,
        aad@.len() < 0x2000_0000_0000_0000,
    ensures
        final(output)@ == legacy_cipher(key@, nonce@, input@),
        final(output)@.len() == input@.len(),
        tag@ == legacy_tag(key@, nonce@, aad@, final(output)@),
        tag@.len() == 16,
        legacy_plain(key@, nonce@, final(output)@) == input@,
{
    let mut out: Vec<u8> = Vec::with_capacity(input.len());
    let tag = chacha20_poly1305_aead::encrypt(key, nonce, aad, input, &mut out).unwrap();
    *output = out;
    tag.to_vec()
}

/// Relies on `chacha20_poly1305_aead::decrypt`: it recomputes the tag over
/// the associated data and the input, compares it with the presented tag
/// in constant time, and only on a match writes the decrypted input; on a
/// mismatch it produces no output.
#[verifier::external_body]
fn legacy_open(
    key: &[u8],
    nonce: &[u8],
    aad: &[u8],
    input: &[u8],
    output: &mut Vec<u8>,
    tag: &[u8],
) -> (r: bool)
    requires
        key@.len() == 32,
        nonce@.len() == 12,
        tag@.len() == 16,
        input@.len() < 0x1_0000_0000,
        aad@.len() < 0x2000_0000_0000_0000,
    ensures
        r <==> tag@ == legacy_tag(key@, nonce@, aad@, input@),
        r ==> final(output)@ == legacy_plain(key@, nonce@, input@),
        r ==> final(output)@.len() == input@.len(),
        !r ==> final(output)@ == old(output)@,
{
    let mut out: Vec<u8> = Vec::with_capacity(input.len());
    match chacha20_poly1305_aead::decrypt(key, nonce, aad, input, tag, &mut out) {
        Ok(()) => {
            *output = out;
            true
        },
        Err(_) => false,
    }
}

/// A 16-byte ChaCha20-Poly1305 authentication tag, as a fixed-length
/// value of its own.
#[verifier::ext_equal]
#[derive(Clone, Copy, Debug, PartialEq, Eq)]
pub struct Chacha20Poly1305AeadTag {
    raw: [u8; 16],
}

impl LineValid for Chacha20Poly1305AeadTag {
    open spec fn line_len() -> nat {
        16
    }

    open spec fn wf(&self) -> bool {
        true
    }

    closed spec fn bytes(&self) -> Seq<u8> {
        self.raw@
    }

    open spec fn valid_bytes(s: Seq<u8>) -> bool {
        s.len() == 16
    }

    fn length() -> (r: usize) {
        16
    }

    fn try_clone_array(a: &[u8]) -> (r: Result<Self, DecodeError>) {
        Ok(Chacha20Poly1305AeadTag { raw: copy_bytes::<16>(a) })
    }

    fn clone_line(&self) -> (r: Vec<u8>) {
        slice_to_vec(self.raw.as_slice())
    }

    proof fn lemma_wf_bytes(&self) {
    }

    proof fn lemma_bytes_injective(a: &Self, b: &Self) {
        assert(a.raw =~= b.raw);
        assert(a =~= b);
    }
}

impl Line for Chacha20Poly1305AeadTag {
    fn clone_array(a: &[u8]) -> (r: Self) {
        match Self::try_clone_array(a) {
            Ok(v) => v,
            Err(_) => unreached(),
        }
    }
}

/// A 32-byte key for the `chacha20_poly1305_aead` implementation of
/// ChaCha20-Poly1305.
#[verifier::ext_equal]
#[derive(Clone, Copy, Debug, PartialEq, Eq)]
pub struct Chacha20Poly1305AeadKey {
    raw: [u8; 32],
}

impl LineValid for Chacha20Poly1305AeadKey {
    open spec fn line_len() -> nat {
        32
    }

    open spec fn wf(&self) -> bool {
        true
    }

    closed spec fn bytes(&self) -> Seq<u8> {
        self.raw@
    }

    open spec fn valid_bytes(s: Seq<u8>) -> bool {
        s.len() == 32
    }

    fn length() -> (r: usize) {
        32
    }

    fn try_clone_array(a: &[u8]) -> (r: Result<Self, DecodeError>) {
        Ok(Chacha20Poly1305AeadKey { raw: copy_bytes::<32>(a) })
    }

    fn clone_line(&self) -> (r: Vec<u8>) {
        slice_to_vec(self.raw.as_slice())
    }

    proof fn lemma_wf_bytes(&self) {
    }

    proof fn lemma_bytes_injective(a: &Self, b: &Self) {
        assert(a.raw =~= b.raw);
        assert(a =~= b);
    }
}

impl Line for Chacha20Poly1305AeadKey {
    fn clone_array(a: &[u8]) -> (r: Self) {
        match Self::try_clone_array(a) {
            Ok(v) => v,
            Err(_) => unreached(),
        }
    }
}

impl Key for Chacha20Poly1305AeadKey {
    open spec fn spec_name() -> Seq<char> {
        "ChaChaPoly"@
    }

    open spec fn tag_len() -> nat {
        16
    }

    open spec fn spec_cipher(key: Seq<u8>, nonce: u64, input: Seq<u8>) -> Seq<u8> {
        legacy_cipher(key, nonce12_le(nonce), input)
    }

    open spec fn spec_tag(key: Seq<u8>, nonce: u64, aad: Seq<u8>, cipher: Seq<u8>) -> Seq<u8> {
        legacy_tag(key, nonce12_le(nonce), aad, cipher)
    }

    open spec fn spec_plain(key: Seq<u8>, nonce: u64, cipher: Seq<u8>) -> Seq<u8> {
        legacy_plain(key, nonce12_le(nonce), cipher)
    }

    fn name() -> (r: &'static str) {
        "ChaChaPoly"
    }

    fn encrypt(&self, nonce: u64, associated_data: &[u8], input: &[u8], output: &mut Vec<u8>) -> (tag: Vec<
        u8,
    >) {
        let nonce_bytes = nonce_bytes_le(nonce);
        legacy_seal(self.raw.as_slice(), nonce_bytes.as_slice(), associated_data, input, output)
    }

    fn decrypt(
        &self,
        nonce: u64,
        associated_data: &[u8],
        input: &[u8],
        output: &mut Vec<u8>,
        tag: &[u8],
    ) -> (r: Result<(), AuthError>) {
        let nonce_bytes = nonce_bytes_le(nonce);
        if legacy_open(
            self.raw.as_slice(),
            nonce_bytes.as_slice(),
            associated_data,
            input,
            output,
            tag,
        ) {
            Ok(())
        } else {
            Err(AuthError)
        }
    }
}

} // verus!
