use vstd::prelude::*;
use vstd::pervasive::unreached;
use vstd::slice::slice_index_get;

verus! {

/// Copy a slice of exactly `N` bytes into a fixed-size array.
pub(crate) fn copy_bytes<const N: usize>(a: &[u8]) -> (r: [u8; N])
    requires
        a@.len() == N,
    ensures
        r@ == a@,
{
    let mut r = [0u8; N];
    let mut i: usize = 0;
    while i < N
        invariant
            a@.len() == N,
            0 <= i <= N,
            forall|j: int| 0 <= j < i ==> r@[j] == a@[j],
        decreases N - i,
    {
        r[i] = *slice_index_get(a, i);
        i = i + 1;
    }
    proof {
        assert(r@ =~= a@);
    }
    r
}

/// Error returned when a byte buffer does not represent a valid value.
#[derive(Clone, Copy, Debug, PartialEq, Eq, Structural)]
pub enum DecodeError {
    Invalid,
}

/// Contract for types with an exact, statically known byte length.
///
/// Every well-formed value encodes to exactly `line_len()` bytes, and a
/// buffer of that length decodes successfully exactly when it is the
/// encoding of some value.  The two proof obligations make the encoding
/// canonical: a well-formed value's bytes are themselves valid, and no two
/// distinct well-formed values share an encoding.
pub trait LineValid: Sized {
    /// Exact byte length of every encoded value.
    spec fn line_len() -> nat;

    /// Well-formedness: the values this type promises to encode faithfully.
    spec fn wf(&self) -> bool;

    /// The canonical encoding of a value.
    spec fn bytes(&self) -> Seq<u8>;

    /// The byte strings that decode successfully.
    spec fn valid_bytes(s: Seq<u8>) -> bool;

    /// The byte length, as a runtime value.
    fn length() -> (r: usize)
        requires
            Self::line_len() <= usize::MAX,
        ensures
            r as nat == Self::line_len(),
    ;

    /// Validated decode: accepts exactly the valid byte strings.
    fn try_clone_array(a: &[u8]) -> (r: Result<Self, DecodeError>)
        requires
            a@.len() == Self::line_len(),
        ensures
            r is Ok <==> Self::valid_bytes(a@),
            r matches Ok(v) ==> v.wf() && v.bytes() == a@,
    ;

    /// Encode: deterministic and total on well-formed values.
    fn clone_line(&self) -> (r: Vec<u8>)
        requires
            self.wf(),
        ensures
            r@ == self.bytes(),
    ;

    /// A well-formed value encodes to a valid line of the exact length.
    proof fn lemma_wf_bytes(&self)
        requires
            self.wf(),
        ensures
            self.bytes().len() == Self::line_len(),
            Self::valid_bytes(self.bytes()),
    ;

    /// The encoding is canonical: equal bytes means equal values.
    proof fn lemma_bytes_injective(a: &Self, b: &Self)
        requires
            a.wf(),
            b.wf(),
            a.bytes() == b.bytes(),
        ensures
            a == b,
    ;
}

/// Trusted decode for buffers already known to be valid.
///
/// Calling this with a buffer that is not a valid encoding is a caller bug;
/// the precondition states exactly that.
pub trait Line: LineValid {
    /// Decode a buffer that is already known to be valid.
    fn clone_array(a: &[u8]) -> (r: Self)
        requires
            a@.len() == Self::line_len(),
            Self::valid_bytes(a@),
        ensures
            r.wf(),
            r.bytes() == a@,
    ;
}

/// Round trip: encoding a well-formed value and decoding it again returns
/// the very same value, for every `LineValid` type.
pub fn line_round_trip<T: LineValid>(x: &T) -> (r: T)
    requires
        x.wf(),
    ensures
        r == *x,
{
    proof {
        x.lemma_wf_bytes();
    }
    let a = x.clone_line();
    match T::try_clone_array(a.as_slice()) {
        Ok(y) => {
            proof {
                T::lemma_bytes_injective(&y, x);
            }
            y
        },
        Err(_) => unreached(),
    }
}

/// The lowercase hexadecimal digit for a value below sixteen.
pub open spec fn hex_char(d: u8) -> char {
    if d == 0 {
        '0'
    } else if d == 1 {
        '1'
    } else if d == 2 {
        '2'
    } else if d == 3 {
        '3'
    } else if d == 4 {
        '4'
    } else if d == 5 {
        '5'
    } else if d == 6 {
        '6'
    } else if d == 7 {
        '7'
    } else if d == 8 {
        '8'
    } else if d == 9 {
        '9'
    } else if d == 10 {
        'a'
    } else if d == 11 {
        'b'
    } else if d == 12 {
        'c'
    } else if d == 13 {
        'd'
    } else if d == 14 {
        'e'
    } else {
        'f'
    }
}

/// The lowercase hexadecimal rendering of a byte string, two digits a byte.
pub open spec fn hex_of(s: Seq<u8>) -> Seq<char>
    decreases s.len(),
{
    if s.len() == 0 {
        Seq::empty()
    } else {
        hex_of(s.drop_last()).push(hex_char(s.last() / 16)).push(hex_char(s.last() % 16))
    }
}

/// Relies on `hex::encode`: it renders each input byte as two lowercase
/// hexadecimal digits, in order.
#[verifier::external_body]
fn hex_encode(b: &[u8]) -> (r: String)
    ensures
        r@ == hex_of(b@),
{
    hex::encode(b)
}

/// The hexadecimal rendering of a value's encoding.
pub fn hex_line<T: LineValid>(x: &T) -> (r: String)
    requires
        x.wf(),
    ensures
        r@ == hex_of(x.bytes()),
{
    let a = x.clone_line();
    hex_encode(a.as_slice())
}

} // verus!
