use vstd::prelude::*;
use vstd::pervasive::unreached;

use crate::line::{DecodeError, Line, LineValid};

verus! {

/// Error returned when a signature does not verify.
#[derive(Clone, Copy, Debug, PartialEq, Eq, Structural)]
pub struct VerifyError;

/// A finite-field element with field arithmetic.
///
/// Each value is a fixed-length line whose numeric reading, `value()`, is
/// reduced modulo the field order `modulus()`.  Addition and multiplication
/// are exact modular arithmetic; the preconditions `add_ok` / `mul_ok`
/// exclude the inputs on which the backend has no representable result
/// (for example a sum that is zero modulo the order, where the backend
/// admits no zero element).  Inversion may be a capability a backend
/// deliberately does not offer, in which case it returns `None`.
pub trait Scalar: Line {
    /// The algorithm's name, as a specification-level character string.
    spec fn spec_name() -> Seq<char>;

    /// The order of the scalar field.
    spec fn modulus() -> nat;

    /// The numeric value this scalar represents.
    spec fn value(&self) -> nat;

    /// The pairs whose sum the backend can represent.
    spec fn add_ok(&self, rhs: &Self) -> bool;

    /// The pairs whose product the backend can represent.
    spec fn mul_ok(&self, rhs: &Self) -> bool;

    /// The algorithm's name.
    fn name() -> (r: &'static str)
        ensures
            r@ == Self::spec_name(),
    ;

    /// Field addition modulo `modulus()`.
    fn add_ff(&self, rhs: &Self) -> (r: Self)
        requires
            self.wf(),
            rhs.wf(),
            self.add_ok(rhs),
        ensures
            r.wf(),
            r.value() == (self.value() + rhs.value()) % Self::modulus(),
    ;

    /// Field multiplication modulo `modulus()`.
    fn mul_ff(&self, rhs: &Self) -> (r: Self)
        requires
            self.wf(),
            rhs.wf(),
            self.mul_ok(rhs),
        ensures
            r.wf(),
            r.value() == (self.value() * rhs.value()) % Self::modulus(),
    ;

    /// Multiplicative inverse, or `None` where the backend does not offer
    /// inversion.
    fn inv_ff(&self) -> (r: Option<Self>)
        requires
            self.wf(),
        ensures
            r matches Some(v) ==> v.wf() && (v.value() * self.value()) % Self::modulus() == 1,
    ;
}

/// A point on an elliptic curve, with the group operations and a canonical
/// packed encoding.
///
/// `compress` maps a point's full encoding to its packed form — a parity
/// header over one coordinate — and `decompress` inverts it: it accepts a
/// packed buffer exactly when some valid point compresses to it, and the
/// point it returns is the unique such point.  Together with the line
/// contract this makes `decompress(compress(p)) == p` provable for every
/// well-formed point; see [`compress_round_trip`].
pub trait Curve: LineValid {
    /// The scalars this curve's points are multiplied by.
    type Scalar: Scalar;

    /// Byte length of the packed encoding.
    spec fn compressed_len() -> nat;

    /// The encoding of the fixed, algorithm-defined generator point.
    spec fn base_bytes() -> Seq<u8>;

    /// The point a scalar multiplication produces, by encoding.
    spec fn spec_exp(point: Seq<u8>, scalar: Seq<u8>) -> Seq<u8>;

    /// The point a group-law combination produces, by encoding.
    spec fn spec_combine(a: Seq<u8>, b: Seq<u8>) -> Seq<u8>;

    /// The packed encoding of a point, from its full encoding.
    spec fn spec_compress(point: Seq<u8>) -> Seq<u8>;

    /// Byte length of the packed encoding, as a runtime value.
    fn compressed_length() -> (r: usize)
        ensures
            r as nat == Self::compressed_len(),
    ;

    /// The fixed generator point.
    fn base() -> (r: Self)
        ensures
            r.wf(),
            r.bytes() == Self::base_bytes(),
    ;

    /// Combination of two points under the group law, or `None` where the
    /// backend does not offer the operation.
    fn mul_ec(&self, rhs: &Self) -> (r: Option<Self>)
        requires
            self.wf(),
            rhs.wf(),
        ensures
            r matches Some(p) ==> p.wf() && p.bytes() == Self::spec_combine(
                self.bytes(),
                rhs.bytes(),
            ),
    ;

    /// Multiplication of this point by a scalar.
    fn exp_ec(&self, rhs: &Self::Scalar) -> (r: Self)
        requires
            self.wf(),
            rhs.wf(),
        ensures
            r.wf(),
            r.bytes() == Self::spec_exp(self.bytes(), rhs.bytes()),
    ;

    /// The canonical packed encoding of this point.
    fn compress(&self) -> (r: Vec<u8>)
        requires
            self.wf(),
        ensures
            r@ == Self::spec_compress(self.bytes()),
            r@.len() == Self::compressed_len(),
    ;

    /// Decode a packed encoding: accepts exactly the packed forms of valid
    /// points, and returns the unique point with that packed form.
    fn decompress(packed: &[u8]) -> (r: Result<Self, DecodeError>)
        requires
            packed@.len() == Self::compressed_len(),
        ensures
            r is Ok <==> exists|s: Seq<u8>|
                Self::valid_bytes(s) && (#[trigger] Self::spec_compress(s)) == packed@,
            r matches Ok(p) ==> p.wf() && Self::spec_compress(p.bytes()) == packed@ && forall|
                s: Seq<u8>,
            |
                Self::valid_bytes(s) && (#[trigger] Self::spec_compress(s)) == packed@ ==> s
                    == p.bytes(),
    ;
}

/// A digital signature binding a scalar message digest to the curve point
/// of the signing scalar.
///
/// `spec_sign` names the (deterministic) signature the backend produces;
/// `spec_valid` names the exact set of signatures its verifier accepts.
/// Signing promises that the produced signature is accepted for the public
/// key derived from the secret key — the generator raised to it — and
/// `verify` accepts exactly the valid signatures; see [`sign_then_verify`].
pub trait Signature: LineValid {
    /// The scalars used as secret keys and message digests.
    type Scalar: Scalar;

    /// The curve whose points serve as public keys.
    type Curve: Curve<Scalar = Self::Scalar>;

    /// The signature bytes signing produces.
    spec fn spec_sign(sk: Seq<u8>, msg: Seq<u8>) -> Seq<u8>;

    /// Whether the verifier accepts a signature for a key and message.
    spec fn spec_valid(sig: Seq<u8>, pk: Seq<u8>, msg: Seq<u8>) -> bool;

    /// Sign a pre-hashed message digest with a secret scalar.
    fn sign(secret_key: &Self::Scalar, message: &Self::Scalar) -> (r: Self)
        requires
            secret_key.wf(),
            message.wf(),
        ensures
            r.wf(),
            r.bytes() == Self::spec_sign(secret_key.bytes(), message.bytes()),
            Self::spec_valid(
                r.bytes(),
                <Self::Curve as Curve>::spec_exp(
                    <Self::Curve as Curve>::base_bytes(),
                    secret_key.bytes(),
                ),
                message.bytes(),
            ),
    ;

    /// Verify this signature against a public key and message digest:
    /// accepts exactly the signatures the backend's verifier accepts.
    fn verify(&self, public_key: &Self::Curve, message: &Self::Scalar) -> (r: Result<
        (),
        VerifyError,
    >)
        requires
            self.wf(),
            public_key.wf(),
            message.wf(),
        ensures
            r is Ok <==> Self::spec_valid(self.bytes(), public_key.bytes(), message.bytes()),
    ;
}

/// Compression round trip: packing a well-formed point and unpacking the
/// result returns the very same point, for every `Curve` type.
pub fn compress_round_trip<C: Curve>(p: &C) -> (r: C)
    requires
        p.wf(),
    ensures
        r == *p,
{
    proof {
        p.lemma_wf_bytes();
    }
    let packed = p.compress();
    match C::decompress(packed.as_slice()) {
        Ok(q) => {
            proof {
                C::lemma_bytes_injective(&q, p);
            }
            q
        },
        Err(_) => {
            proof {
                assert(C::valid_bytes(p.bytes()) && C::spec_compress(p.bytes()) == packed@);
            }
            unreached()
        },
    }
}

/// Signing round trip: a signature over any message digest, made with any
/// well-formed secret scalar, verifies against the public key derived from
/// that scalar, for every `Signature` type.
pub fn sign_then_verify<S: Signature>(secret_key: &S::Scalar, message: &S::Scalar) -> (r: bool)
    requires
        secret_key.wf(),
        message.wf(),
    ensures
        r,
{
    let signature = S::sign(secret_key, message);
    let public_key = <S::Curve as Curve>::base().exp_ec(secret_key);
    signature.verify(&public_key, message).is_ok()
}

} // verus!
