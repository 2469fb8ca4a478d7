use vstd::prelude::*;
use vstd::pervasive::unreached;
use vstd::slice::slice_to_vec;

use crate::line::Line;

verus! {

/// Error returned when an authentication tag does not match.
#[derive(Clone, Copy, Debug, PartialEq, Eq, Structural)]
pub struct AuthError;

/// Authenticated symmetric encryption with a detached tag.
///
/// A key is itself a fixed-length value.  Encryption maps a plaintext
/// buffer to a ciphertext of the same length plus a separate fixed-length
/// tag over the ciphertext and the associated data; decryption accepts
/// exactly when the presented tag is the one encryption would have
/// produced, and then returns the original plaintext.
///
/// The three spec functions name the backend's cipher: what ciphertext a
/// key and nonce produce, what tag authenticates a ciphertext, and what
/// plaintext a ciphertext decrypts to.  The contracts of `encrypt` and
/// `decrypt` tie every call to those functions, so that decrypting an
/// encryption under the same key, nonce and associated data provably
/// returns the input.
///
/// The 64-bit nonce is embedded into the algorithm's full nonce by
/// zero-padding, in the byte order conventional for the algorithm; callers
/// must guarantee nonce uniqueness per key, which no contract here tracks.
pub trait Key: Line {
    /// The algorithm's name, as a specification-level character string.
    spec fn spec_name() -> Seq<char>;

    /// Byte length of the detached authentication tag.
    spec fn tag_len() -> nat;

    /// The ciphertext this key and nonce produce from a plaintext.
    spec fn spec_cipher(key: Seq<u8>, nonce: u64, input: Seq<u8>) -> Seq<u8>;

    /// The tag that authenticates a ciphertext and its associated data.
    spec fn spec_tag(key: Seq<u8>, nonce: u64, aad: Seq<u8>, cipher: Seq<u8>) -> Seq<u8>;

    /// The plaintext this key and nonce recover from a ciphertext.
    spec fn spec_plain(key: Seq<u8>, nonce: u64, cipher: Seq<u8>) -> Seq<u8>;

    /// The algorithm's name.
    fn name() -> (r: &'static str)
        ensures
            r@ == Self::spec_name(),
    ;

    /// Encrypt `input` into `output` and return the detached tag.
    ///
    /// The length bounds keep the buffers inside the limits below which the
    /// backends never report an internal failure.
    fn encrypt(&self, nonce: u64, associated_data: &[u8], input: &[u8], output: &mut Vec<u8>) -> (tag: Vec<
        u8,
    >)
        requires
            self.wf(),
            old(output)@.len() == input@.len(),
            input@.len() < 0x1_0000_0000,
            associated_data@.len() < 0x2000_0000_0000_0000,
        ensures
            final(output)@.len() == input@.len(),
            final(output)@ == Self::spec_cipher(self.bytes(), nonce, input@),
            tag@.len() == Self::tag_len(),
            tag@ == Self::spec_tag(self.bytes(), nonce, associated_data@, final(output)@),
            Self::spec_plain(self.bytes(), nonce, final(output)@) == input@,
    ;

    /// Decrypt `input` into `output`, accepting exactly when `tag` is the
    /// tag encryption would have produced for this ciphertext.
    ///
    /// On failure the content of `output` is unspecified and must not be
    /// read as plaintext.
    fn decrypt(
        &self,
        nonce: u64,
        associated_data: &[u8],
        input: &[u8],
        output: &mut Vec<u8>,
        tag: &[u8],
    ) -> (r: Result<(), AuthError>)
        requires
            self.wf(),
            old(output)@.len() == input@.len(),
            tag@.len() == Self::tag_len(),
            input@.len() < 0x1_0000_0000,
            associated_data@.len() < 0x2000_0000_0000_0000,
        ensures
            r is Ok <==> tag@ == Self::spec_tag(self.bytes(), nonce, associated_data@, input@),
            r is Ok ==> final(output)@ == Self::spec_plain(self.bytes(), nonce, input@),
            r is Ok ==> final(output)@.len() == input@.len(),
    ;
}

/// Authenticated round trip: decrypting an encryption under the same key,
/// nonce and associated data accepts the tag and returns the plaintext
/// unchanged, for every `Key` type.
pub fn encrypt_then_decrypt<K: Key>(key: &K, nonce: u64, aad: &[u8], input: &[u8]) -> (r: Vec<u8>)
    requires
        key.wf(),
        input@.len() < 0x1_0000_0000,
        aad@.len() < 0x2000_0000_0000_0000,
    ensures
        r@ == input@,
{
    let mut cipher = slice_to_vec(input);
    let tag = key.encrypt(nonce, aad, input, &mut cipher);
    let mut plain = slice_to_vec(cipher.as_slice());
    match key.decrypt(nonce, aad, cipher.as_slice(), &mut plain, tag.as_slice()) {
        Ok(()) => plain,
        Err(_) => unreached(),
    }
}

} // verus!
