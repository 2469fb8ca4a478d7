//! Fixed-length binary values and the crypto capabilities built on them.
//!
//! Every value handled here has an exact, statically known byte length and
//! a canonical encoding.  The [`LineValid`] / [`Line`] traits state that
//! contract; [`Concat`] glues two such types into one whose length is the
//! sum of the parts; the [`Key`], [`Scalar`], [`Curve`] and [`Signature`]
//! traits describe authenticated symmetric encryption and elliptic-curve
//! operations over such values.  The backend types delegate the
//! cryptography itself to outside libraries and are verified against the
//! contracts stated for those calls.

mod line;
pub use line::{DecodeError, Line, LineValid, hex_line, hex_of, line_round_trip};

mod concat;
pub use concat::{Concat, lemma_concat_associative_len, lemma_concat_split};

mod elliptic;
pub use elliptic::{Curve, Scalar, Signature, VerifyError, compress_round_trip, sign_then_verify};

mod symmetric;
pub use symmetric::{AuthError, Key, encrypt_then_decrypt};

mod secp256k1_m;
pub use secp256k1_m::{PublicKey, Secp256k1Signature, SecretKey};

mod aes_gcm_m;
pub use aes_gcm_m::AesGcmAeadKey;

mod chacha20poly1305_m;
pub use chacha20poly1305_m::Chacha20Poly1305AeadKey;

pub mod chacha20_poly1305_aead_m;
