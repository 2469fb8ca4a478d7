use vstd::prelude::*;
use vstd::pervasive::unreached;
use vstd::slice::slice_to_vec;

use crate::line::{DecodeError, Line, LineValid, copy_bytes};
use crate::elliptic::{Curve, Scalar, Signature, VerifyError};

verus! {

/// The big-endian numeric value of a byte string.
pub open spec fn be_val(s: Seq<u8>) -> nat
    decreases s.len(),
{
    if s.len() == 0 {
        0
    } else {
        be_val(s.drop_last()) * 256 + (s.last() as nat)
    }
}

/// The order of the secp256k1 group, which is also the order of its scalar
/// field.
pub open spec fn secp_order() -> nat {
    0xFFFFFFFFFFFFFFFFFFFFFFFFFFFFFFFEBAAEDCE6AF48A03BBFD25E8CD0364141nat
}

/// The prime of the field the curve's coordinates live in.
pub open spec fn secp_field() -> nat {
    0xFFFFFFFFFFFFFFFFFFFFFFFFFFFFFFFFFFFFFFFFFFFFFFFFFFFFFFFEFFFFFC2Fnat
}

/// The byte strings that encode a secret scalar: 32 big-endian bytes whose
/// value is nonzero and below the group order.
pub open spec fn valid_scalar_bytes(s: Seq<u8>) -> bool {
    s.len() == 32 && 1 <= be_val(s) && be_val(s) < secp_order()
}

/// The x coordinate of a 64-byte uncompressed point encoding.
pub open spec fn point_x(s: Seq<u8>) -> nat {
    be_val(s.take(32))
}

/// The y coordinate of a 64-byte uncompressed point encoding.
pub open spec fn point_y(s: Seq<u8>) -> nat {
    be_val(s.skip(32))
}

/// The byte strings that encode a curve point: both coordinates below the
/// field prime and satisfying the curve equation y^2 = x^3 + 7.
pub open spec fn valid_point_bytes(s: Seq<u8>) -> bool {
    &&& s.len() == 64
    &&& point_x(s) < secp_field()
    &&& point_y(s) < secp_field()
    &&& (point_y(s) * point_y(s)) % secp_field() == (point_x(s) * point_x(s) * point_x(s) + 7)
        % secp_field()
}

/// The canonical packed encoding of a point: a parity header over the y
/// coordinate — 0x02 for even, 0x03 for odd — followed by the x coordinate.
/// The last byte of the big-endian y coordinate carries its parity.
pub open spec fn compress_bytes(s: Seq<u8>) -> Seq<u8> {
    seq![if s[63] % 2 == 1 { 3u8 } else { 2u8 }] + s.take(32)
}

/// The packed byte strings some valid point compresses to.
pub open spec fn packed_point_bytes(c: Seq<u8>) -> bool {
    exists|s: Seq<u8>| valid_point_bytes(s) && (#[trigger] compress_bytes(s)) == c
}

/// The byte strings that encode a signature in compact form: two 32-byte
/// big-endian values each below the group order.
pub open spec fn valid_sig_bytes(s: Seq<u8>) -> bool {
    s.len() == 64 && be_val(s.take(32)) < secp_order() && be_val(s.skip(32)) < secp_order()
}

/// The uncompressed encoding of the generator point of secp256k1.
pub open spec fn secp_base_bytes() -> Seq<u8> {
    seq![
        0x79u8, 0xBE, 0x66, 0x7E, 0xF9, 0xDC, 0xBB, 0xAC,
        0x55, 0xA0, 0x62, 0x95, 0xCE, 0x87, 0x0B, 0x07,
        0x02, 0x9B, 0xFC, 0xDB, 0x2D, 0xCE, 0x28, 0xD9,
        0x59, 0xF2, 0x81, 0x5B, 0x16, 0xF8, 0x17, 0x98,
        0x48, 0x3A, 0xDA, 0x77, 0x26, 0xA3, 0xC4, 0x65,
        0x5D, 0xA4, 0xFB, 0xFC, 0x0E, 0x11, 0x08, 0xA8,
        0xFD, 0x17, 0xB4, 0x48, 0xA6, 0x85, 0x54, 0x19,
        0x9C, 0x47, 0xD0, 0x8F, 0xFB, 0x10, 0xD4, 0xB8,
    ]
}

/// The uncompressed encoding of the point a scalar multiplication yields.
pub uninterp spec fn secp_exp_bytes(point: Seq<u8>, scalar: Seq<u8>) -> Seq<u8>;

/// The compact encoding of the signature the deterministic ECDSA signer
/// yields for a secret key and message digest.
pub uninterp spec fn secp_sign_bytes(sk: Seq<u8>, msg: Seq<u8>) -> Seq<u8>;

/// Whether the ECDSA verifier accepts a compact signature for a public key
/// and message digest.
pub uninterp spec fn secp_sig_ok(sig: Seq<u8>, pk: Seq<u8>, msg: Seq<u8>) -> bool;

/// Relies on `secp256k1::SecretKey::from_secret_bytes`, which accepts
/// exactly the 32-byte strings whose big-endian value is nonzero and below
/// the curve order.
#[verifier::external_body]
fn seckey_accepts(a: &[u8]) -> (r: bool)
    requires
        a@.len() == 32,
    ensures
        r <==> valid_scalar_bytes(a@),
{
    secp256k1::SecretKey::from_secret_bytes(a.try_into().unwrap()).is_ok()
}

/// Relies on `secp256k1::SecretKey::add_tweak` (`secp256k1_ec_seckey_tweak_add`):
/// it returns the sum of the two scalars modulo the curve order, serialized
/// big-endian, and fails exactly when that sum is zero.
#[verifier::external_body]
fn scalar_add_bytes(a: &[u8], b: &[u8]) -> (r: Option<Vec<u8>>)
    requires
        valid_scalar_bytes(a@),
        valid_scalar_bytes(b@),
    ensures
        r is Some <==> (be_val(a@) + be_val(b@)) % secp_order() != 0,
        r matches Some(c) ==> c@.len() == 32 && be_val(c@) == (be_val(a@) + be_val(b@))
            % secp_order(),
{
    let sk = secp256k1::SecretKey::from_secret_bytes(a.try_into().unwrap()).unwrap();
    let tweak = secp256k1::Scalar::from_be_bytes(b.try_into().unwrap()).unwrap();
    match sk.add_tweak(&tweak) {
        Ok(c) => Some(c.to_secret_bytes().to_vec()),
        Err(_) => None,
    }
}

/// Relies on `secp256k1::SecretKey::mul_tweak` (`secp256k1_ec_seckey_tweak_mul`):
/// it returns the product of the two scalars modulo the curve order,
/// serialized big-endian, and fails exactly when that product is zero —
/// which, the order being prime, no two valid scalars produce.
#[verifier::external_body]
fn scalar_mul_bytes(a: &[u8], b: &[u8]) -> (r: Option<Vec<u8>>)
    requires
        valid_scalar_bytes(a@),
        valid_scalar_bytes(b@),
    ensures
        r is Some <==> (be_val(a@) * be_val(b@)) % secp_order() != 0,
        r matches Some(c) ==> c@.len() == 32 && be_val(c@) == (be_val(a@) * be_val(b@))
            % secp_order(),
{
    let sk = secp256k1::SecretKey::from_secret_bytes(a.try_into().unwrap()).unwrap();
    let tweak = secp256k1::Scalar::from_be_bytes(b.try_into().unwrap()).unwrap();
    match sk.mul_tweak(&tweak) {
        Ok(c) => Some(c.to_secret_bytes().to_vec()),
        Err(_) => None,
    }
}

/// Relies on `secp256k1::PublicKey::from_slice` over the 65-byte
/// uncompressed form (`secp256k1_ec_pubkey_parse`), which accepts exactly
/// the coordinate pairs below the field prime that satisfy the curve
/// equation.
#[verifier::external_body]
fn point_accepts(a: &[u8]) -> (r: bool)
    requires
        a@.len() == 64,
    ensures
        r <==> valid_point_bytes(a@),
{
    let mut buffer = [4u8; 65];
    buffer[1..].copy_from_slice(a);
    secp256k1::PublicKey::from_slice(&buffer).is_ok()
}

/// Relies on `secp256k1::PublicKey::from_slice` and
/// `serialize_uncompressed`: parsing the standard generator constant and
/// serializing it back yields the constant itself, and the generator is a
/// valid point of the curve.
#[verifier::external_body]
fn base_point_bytes() -> (r: Vec<u8>)
    ensures
        r@ == secp_base_bytes(),
        valid_point_bytes(r@),
{
    let mut buffer = [4u8; 65];
    buffer[1..].copy_from_slice(&[
        0x79, 0xBE, 0x66, 0x7E, 0xF9, 0xDC, 0xBB, 0xAC, 0x55, 0xA0, 0x62, 0x95, 0xCE, 0x87, 0x0B,
        0x07, 0x02, 0x9B, 0xFC, 0xDB, 0x2D, 0xCE, 0x28, 0xD9, 0x59, 0xF2, 0x81, 0x5B, 0x16, 0xF8,
        0x17, 0x98, 0x48, 0x3A, 0xDA, 0x77, 0x26, 0xA3, 0xC4, 0x65, 0x5D, 0xA4, 0xFB, 0xFC, 0x0E,
        0x11, 0x08, 0xA8, 0xFD, 0x17, 0xB4, 0x48, 0xA6, 0x85, 0x54, 0x19, 0x9C, 0x47, 0xD0, 0x8F,
        0xFB, 0x10, 0xD4, 0xB8,
    ]);
    let point = secp256k1::PublicKey::from_slice(&buffer).unwrap();
    point.serialize_uncompressed()[1..].to_vec()
}

/// Relies on `secp256k1::PublicKey::mul_tweak`
/// (`secp256k1_ec_pubkey_tweak_mul`): it returns the point multiplied by
/// the scalar.  With a valid point and a scalar in `[1, n)` the result is a
/// valid point and the call does not fail: the group has prime order `n`,
/// so no such multiple is the point at infinity.
#[verifier::external_body]
fn exp_point_bytes(p: &[u8], k: &[u8]) -> (r: Vec<u8>)
    requires
        valid_point_bytes(p@),
        valid_scalar_bytes(k@),
    ensures
        r@ == secp_exp_bytes(p@, k@),
        valid_point_bytes(r@),
{
    let mut buffer = [4u8; 65];
    buffer[1..].copy_from_slice(p);
    let point = secp256k1::PublicKey::from_slice(&buffer).unwrap();
    let tweak = secp256k1::Scalar::from_be_bytes(k.try_into().unwrap()).unwrap();
    let out = point.mul_tweak(&tweak).unwrap();
    out.serialize_uncompressed()[1..].to_vec()
}

/// Relies on `secp256k1::PublicKey::from_slice` over the 33-byte
/// compressed form and `serialize_uncompressed`.  Parsing accepts exactly
/// the packed encodings of valid points: a 0x02/0x03 parity header and an
/// x coordinate for which the curve equation has a root of that parity.
/// The returned point is the unique valid point with that packed form: for
/// a given x the equation has at most one root of each parity, the field
/// prime being odd and the curve having no point with y = 0.
#[verifier::external_body]
fn decompress_point_bytes(c: &[u8]) -> (r: Option<Vec<u8>>)
    requires
        c@.len() == 33,
    ensures
        r is Some <==> packed_point_bytes(c@),
        r matches Some(p) ==> valid_point_bytes(p@) && compress_bytes(p@) == c@,
        r matches Some(p) ==> forall|s: Seq<u8>|
            valid_point_bytes(s) && (#[trigger] compress_bytes(s)) == c@ ==> s == p@,
{
    match secp256k1::PublicKey::from_slice(c) {
        Ok(point) => Some(point.serialize_uncompressed()[1..].to_vec()),
        Err(_) => None,
    }
}

/// Relies on `secp256k1::ecdsa::Signature::from_compact`
/// (`secp256k1_ecdsa_signature_parse_compact`), which accepts exactly the
/// 64-byte strings whose two halves are below the curve order.
#[verifier::external_body]
fn sig_accepts(a: &[u8]) -> (r: bool)
    requires
        a@.len() == 64,
    ensures
        r <==> valid_sig_bytes(a@),
{
    secp256k1::ecdsa::Signature::from_compact(a).is_ok()
}

/// Relies on `secp256k1::ecdsa::sign`, which is deterministic (RFC 6979
/// nonces), always parses back from its compact serialization, and
/// produces a signature its own verifier accepts for the public key
/// derived from the secret key — the generator multiplied by it.
#[verifier::external_body]
fn sign_compact_bytes(sk: &[u8], m: &[u8]) -> (r: Vec<u8>)
    requires
        valid_scalar_bytes(sk@),
        m@.len() == 32,
    ensures
        r@ == secp_sign_bytes(sk@, m@),
        valid_sig_bytes(r@),
        secp_sig_ok(r@, secp_exp_bytes(secp_base_bytes(), sk@), m@),
{
    let sk = secp256k1::SecretKey::from_secret_bytes(sk.try_into().unwrap()).unwrap();
    let msg = secp256k1::Message::from_digest(m.try_into().unwrap());
    secp256k1::ecdsa::sign(msg, &sk).serialize_compact().to_vec()
}

/// Relies on `secp256k1::ecdsa::verify`, whose acceptance is a function of
/// the signature, public key and message digest alone.
#[verifier::external_body]
fn verify_compact_bytes(sig: &[u8], pk: &[u8], m: &[u8]) -> (r: bool)
    requires
        valid_sig_bytes(sig@),
        valid_point_bytes(pk@),
        m@.len() == 32,
    ensures
        r <==> secp_sig_ok(sig@, pk@, m@),
{
    let sig = secp256k1::ecdsa::Signature::from_compact(sig).unwrap();
    let mut buffer = [4u8; 65];
    buffer[1..].copy_from_slice(pk);
    let point = secp256k1::PublicKey::from_slice(&buffer).unwrap();
    let msg = secp256k1::Message::from_digest(m.try_into().unwrap());
    secp256k1::ecdsa::verify(&sig, msg, &point).is_ok()
}

/// A secret scalar of the secp256k1 curve: 32 big-endian bytes holding a
/// nonzero field element below the group order.
#[verifier::ext_equal]
#[derive(Clone, Copy, Debug, PartialEq, Eq)]
pub struct SecretKey {
    raw: [u8; 32],
}

impl LineValid for SecretKey {
    open spec fn line_len() -> nat {
        32
    }

    closed spec fn wf(&self) -> bool {
        valid_scalar_bytes(self.raw@)
    }

    closed spec fn bytes(&self) -> Seq<u8> {
        self.raw@
    }

    open spec fn valid_bytes(s: Seq<u8>) -> bool {
        valid_scalar_bytes(s)
    }

    fn length() -> (r: usize) {
        32
    }

    fn try_clone_array(a: &[u8]) -> (r: Result<Self, DecodeError>) {
        if seckey_accepts(a) {
            Ok(SecretKey { raw: copy_bytes::<32>(a) })
        } else {
            Err(DecodeError::Invalid)
        }
    }

    fn clone_line(&self) -> (r: Vec<u8>) {
        slice_to_vec(self.raw.as_slice())
    }

    proof fn lemma_wf_bytes(&self) {
    }

    proof fn lemma_bytes_injective(a: &Self, b: &Self) {
        assert(a.raw =~= b.raw);
        assert(a =~= b);
    }
}

impl Line for SecretKey {
    fn clone_array(a: &[u8]) -> (r: Self) {
        match Self::try_clone_array(a) {
            Ok(v) => v,
            Err(_) => unreached(),
        }
    }
}

impl Scalar for SecretKey {
    open spec fn spec_name() -> Seq<char> {
        "secp256k1"@
    }

    open spec fn modulus() -> nat {
        secp_order()
    }

    open spec fn value(&self) -> nat {
        be_val(self.bytes())
    }

    open spec fn add_ok(&self, rhs: &Self) -> bool {
        (self.value() + rhs.value()) % secp_order() != 0
    }

    open spec fn mul_ok(&self, rhs: &Self) -> bool {
        (self.value() * rhs.value()) % secp_order() != 0
    }

    fn name() -> (r: &'static str) {
        "secp256k1"
    }

    fn add_ff(&self, rhs: &Self) -> (r: Self) {
        match scalar_add_bytes(self.raw.as_slice(), rhs.raw.as_slice()) {
            Some(c) => SecretKey { raw: copy_bytes::<32>(c.as_slice()) },
            None => unreached(),
        }
    }

    fn mul_ff(&self, rhs: &Self) -> (r: Self) {
        match scalar_mul_bytes(self.raw.as_slice(), rhs.raw.as_slice()) {
            Some(c) => SecretKey { raw: copy_bytes::<32>(c.as_slice()) },
            None => unreached(),
        }
    }

    /// Inversion is a capability this backend does not offer.
    fn inv_ff(&self) -> (r: Option<Self>) {
        None
    }
}

/// A point of the secp256k1 curve: the 64-byte uncompressed coordinate
/// pair, without the leading format byte.
#[verifier::ext_equal]
#[derive(Clone, Copy, Debug, PartialEq, Eq)]
pub struct PublicKey {
    raw: [u8; 64],
}

impl LineValid for PublicKey {
    open spec fn line_len() -> nat {
        64
    }

    closed spec fn wf(&self) -> bool {
        valid_point_bytes(self.raw@)
    }

    closed spec fn bytes(&self) -> Seq<u8> {
        self.raw@
    }

    open spec fn valid_bytes(s: Seq<u8>) -> bool {
        valid_point_bytes(s)
    }

    fn length() -> (r: usize) {
        64
    }

    fn try_clone_array(a: &[u8]) -> (r: Result<Self, DecodeError>) {
        if point_accepts(a) {
            Ok(PublicKey { raw: copy_bytes::<64>(a) })
        } else {
            Err(DecodeError::Invalid)
        }
    }

    fn clone_line(&self) -> (r: Vec<u8>) {
        slice_to_vec(self.raw.as_slice())
    }

    proof fn lemma_wf_bytes(&self) {
    }

    proof fn lemma_bytes_injective(a: &Self, b: &Self) {
        assert(a.raw =~= b.raw);
        assert(a =~= b);
    }
}

impl Curve for PublicKey {
    type Scalar = SecretKey;

    open spec fn compressed_len() -> nat {
        33
    }

    open spec fn base_bytes() -> Seq<u8> {
        secp_base_bytes()
    }

    open spec fn spec_exp(point: Seq<u8>, scalar: Seq<u8>) -> Seq<u8> {
        secp_exp_bytes(point, scalar)
    }

    /// Combination under the group law is a capability this backend does
    /// not offer, so no encoding is ever produced by it.
    open spec fn spec_combine(a: Seq<u8>, b: Seq<u8>) -> Seq<u8> {
        Seq::empty()
    }

    open spec fn spec_compress(point: Seq<u8>) -> Seq<u8> {
        compress_bytes(point)
    }

    fn compressed_length() -> (r: usize) {
        33
    }

    fn base() -> (r: Self) {
        let bytes = base_point_bytes();
        PublicKey { raw: copy_bytes::<64>(bytes.as_slice()) }
    }

    /// Combination under the group law is a capability this backend does
    /// not offer.
    fn mul_ec(&self, rhs: &Self) -> (r: Option<Self>) {
        None
    }

    fn exp_ec(&self, rhs: &Self::Scalar) -> (r: Self) {
        let bytes = exp_point_bytes(self.raw.as_slice(), rhs.raw.as_slice());
        PublicKey { raw: copy_bytes::<64>(bytes.as_slice()) }
    }

    fn compress(&self) -> (r: Vec<u8>) {
        let mut r: Vec<u8> = Vec::new();
        let header: u8 = if self.raw[63] % 2 == 1 {
            3
        } else {
            2
        };
        r.push(header);
        let mut i: usize = 0;
        while i < 32
            invariant
                0 <= i <= 32,
                r@.len() == i + 1,
                r@[0] == (if self.raw@[63] % 2 == 1 {
                    3u8
                } else {
                    2u8
                }),
                forall|j: int| 0 <= j < i ==> r@[j + 1] == self.raw@[j],
            decreases 32 - i,
        {
            let byte = self.raw[i];
            r.push(byte);
            i = i + 1;
        }
        proof {
            assert(r@ =~= compress_bytes(self.raw@));
        }
        r
    }

    fn decompress(packed: &[u8]) -> (r: Result<Self, DecodeError>) {
        let res = decompress_point_bytes(packed);
        proof {
            if packed_point_bytes(packed@) {
                let s = choose|s: Seq<u8>|
                    valid_point_bytes(s) && (#[trigger] compress_bytes(s)) == packed@;
                assert(Self::valid_bytes(s) && Self::spec_compress(s) == packed@);
            }
            if exists|s: Seq<u8>|
                Self::valid_bytes(s) && (#[trigger] Self::spec_compress(s)) == packed@ {
                let s = choose|s: Seq<u8>|
                    Self::valid_bytes(s) && (#[trigger] Self::spec_compress(s)) == packed@;
                assert(valid_point_bytes(s) && compress_bytes(s) == packed@);
            }
        }
        match res {
            Some(p) => Ok(PublicKey { raw: copy_bytes::<64>(p.as_slice()) }),
            None => Err(DecodeError::Invalid),
        }
    }
}

/// A compact ECDSA signature over secp256k1: two 32-byte big-endian values
/// below the group order.
#[verifier::ext_equal]
#[derive(Clone, Copy, Debug, PartialEq, Eq)]
pub struct Secp256k1Signature {
    raw: [u8; 64],
}

impl LineValid for Secp256k1Signature {
    open spec fn line_len() -> nat {
        64
    }

    closed spec fn wf(&self) -> bool {
        valid_sig_bytes(self.raw@)
    }

    closed spec fn bytes(&self) -> Seq<u8> {
        self.raw@
    }

    open spec fn valid_bytes(s: Seq<u8>) -> bool {
        valid_sig_bytes(s)
    }

    fn length() -> (r: usize) {
        64
    }

    fn try_clone_array(a: &[u8]) -> (r: Result<Self, DecodeError>) {
        if sig_accepts(a) {
            Ok(Secp256k1Signature { raw: copy_bytes::<64>(a) })
        } else {
            Err(DecodeError::Invalid)
        }
    }

    fn clone_line(&self) -> (r: Vec<u8>) {
        slice_to_vec(self.raw.as_slice())
    }

    proof fn lemma_wf_bytes(&self) {
    }

    proof fn lemma_bytes_injective(a: &Self, b: &Self) {
        assert(a.raw =~= b.raw);
        assert(a =~= b);
    }
}

impl Signature for Secp256k1Signature {
    type Scalar = SecretKey;

    type Curve = PublicKey;

    open spec fn spec_sign(sk: Seq<u8>, msg: Seq<u8>) -> Seq<u8> {
        secp_sign_bytes(sk, msg)
    }

    open spec fn spec_valid(sig: Seq<u8>, pk: Seq<u8>, msg: Seq<u8>) -> bool {
        secp_sig_ok(sig, pk, msg)
    }

    fn sign(secret_key: &Self::Scalar, message: &Self::Scalar) -> (r: Self) {
        let sk = secret_key.clone_line();
        let m = message.clone_line();
        let sig = sign_compact_bytes(sk.as_slice(), m.as_slice());
        Secp256k1Signature { raw: copy_bytes::<64>(sig.as_slice()) }
    }

    fn verify(&self, public_key: &Self::Curve, message: &Self::Scalar) -> (r: Result<
        (),
        VerifyError,
    >) {
        let m = message.clone_line();
        if verify_compact_bytes(self.raw.as_slice(), public_key.raw.as_slice(), m.as_slice()) {
            Ok(())
        } else {
            Err(VerifyError)
        }
    }
}

} // verus!
