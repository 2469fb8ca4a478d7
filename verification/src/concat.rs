use vstd::prelude::*;
use vstd::slice::slice_subrange;

use crate::line::{DecodeError, Line, LineValid};

verus! {

/// Two fixed-length values glued into one, whose length is the sum of the
/// parts.  Decoding splits the buffer at the statically known boundary and
/// requires both halves to decode; encoding writes the first part's bytes
/// followed by the second's.  Nesting `Concat` builds compound wire layouts
/// without ad hoc framing code.
#[verifier::ext_equal]
#[derive(Clone, Debug, PartialEq, Eq)]
pub struct Concat<U, V>(pub U, pub V);

impl<U: LineValid, V: LineValid> LineValid for Concat<U, V> {
    open spec fn line_len() -> nat {
        U::line_len() + V::line_len()
    }

    open spec fn wf(&self) -> bool {
        self.0.wf() && self.1.wf()
    }

    open spec fn bytes(&self) -> Seq<u8> {
        self.0.bytes() + self.1.bytes()
    }

    open spec fn valid_bytes(s: Seq<u8>) -> bool {
        &&& s.len() == U::line_len() + V::line_len()
        &&& U::valid_bytes(s.take(U::line_len() as int))
        &&& V::valid_bytes(s.skip(U::line_len() as int))
    }

    fn length() -> (r: usize) {
        U::length() + V::length()
    }

    fn try_clone_array(a: &[u8]) -> (r: Result<Self, DecodeError>) {
        let total = a.len();
        let boundary = U::length();
        let first = slice_subrange(a, 0, boundary);
        let second = slice_subrange(a, boundary, total);
        let u = match U::try_clone_array(first) {
            Ok(u) => u,
            Err(_) => {
                return Err(DecodeError::Invalid);
            },
        };
        let v = match V::try_clone_array(second) {
            Ok(v) => v,
            Err(_) => {
                return Err(DecodeError::Invalid);
            },
        };
        proof {
            assert(a@.take(U::line_len() as int) + a@.skip(U::line_len() as int) =~= a@);
        }
        Ok(Concat(u, v))
    }

    fn clone_line(&self) -> (r: Vec<u8>) {
        let mut r = self.0.clone_line();
        let mut tail = self.1.clone_line();
        r.append(&mut tail);
        r
    }

    proof fn lemma_wf_bytes(&self) {
        self.0.lemma_wf_bytes();
        self.1.lemma_wf_bytes();
        assert(self.bytes().take(U::line_len() as int) =~= self.0.bytes());
        assert(self.bytes().skip(U::line_len() as int) =~= self.1.bytes());
    }

    proof fn lemma_bytes_injective(a: &Self, b: &Self) {
        a.lemma_wf_bytes();
        b.lemma_wf_bytes();
        a.0.lemma_wf_bytes();
        b.0.lemma_wf_bytes();
        assert(a.0.bytes() =~= a.bytes().take(U::line_len() as int));
        assert(a.1.bytes() =~= a.bytes().skip(U::line_len() as int));
        assert(b.0.bytes() =~= b.bytes().take(U::line_len() as int));
        assert(b.1.bytes() =~= b.bytes().skip(U::line_len() as int));
        U::lemma_bytes_injective(&a.0, &b.0);
        V::lemma_bytes_injective(&a.1, &b.1);
        assert(a =~= b);
    }
}

impl<U: Line, V: Line> Line for Concat<U, V> {
    fn clone_array(a: &[u8]) -> (r: Self) {
        let total = a.len();
        let boundary = U::length();
        let first = slice_subrange(a, 0, boundary);
        let second = slice_subrange(a, boundary, total);
        let u = U::clone_array(first);
        let v = V::clone_array(second);
        proof {
            assert(a@.take(U::line_len() as int) + a@.skip(U::line_len() as int) =~= a@);
        }
        Concat(u, v)
    }
}

/// The length of a nested concatenation is the plain sum of the three
/// parts, whichever way the nesting associates.
pub proof fn lemma_concat_associative_len<A: LineValid, B: LineValid, C: LineValid>()
    ensures
        Concat::<Concat<A, B>, C>::line_len() == A::line_len() + B::line_len() + C::line_len(),
        Concat::<A, Concat<B, C>>::line_len() == A::line_len() + B::line_len() + C::line_len(),
{
}

/// Decoding a concatenated buffer reproduces the original pair exactly at
/// the static boundary: the first part's bytes are the first `U::line_len()`
/// bytes of the buffer, the second part's bytes are the rest.
pub proof fn lemma_concat_split<U: LineValid, V: LineValid>(c: Concat<U, V>, a: Seq<u8>)
    requires
        c.wf(),
        c.bytes() == a,
    ensures
        c.0.bytes() == a.take(U::line_len() as int),
        c.1.bytes() == a.skip(U::line_len() as int),
{
    c.0.lemma_wf_bytes();
    c.1.lemma_wf_bytes();
    assert(c.0.bytes() =~= a.take(U::line_len() as int));
    assert(c.1.bytes() =~= a.skip(U::line_len() as int));
}

} // verus!
