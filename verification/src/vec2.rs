//! Two-component vectors.

use vstd::prelude::*;

use crate::bytes;
use crate::scalar;

verus! {

/// A 2-component vector. Each component holds the bit pattern of an
/// IEEE-754 single-precision scalar.
#[derive(Clone, Copy, Debug)]
pub struct Vector2 {
    pub x: u32,
    pub y: u32,
}

/// The vector whose components are the first and second element of `arr`.
pub open spec fn spec_from_array2(arr: Seq<u32>) -> Vector2
    recommends
        arr.len() == 2,
{
    Vector2 { x: arr[0], y: arr[1] }
}

impl Vector2 {
    /// The vector with the given components.
    pub fn new(x: u32, y: u32) -> (r: Vector2)
        ensures
            r.x == x,
            r.y == y,
    {
        Vector2 { x, y }
    }

    /// The zero vector: both components are the pattern of positive zero.
    pub fn zero() -> (r: Vector2)
        ensures
            r.x == 0,
            r.y == 0,
    {
        Vector2 { x: 0, y: 0 }
    }

    /// The component-wise image of `self` and `other` under `f`: each
    /// component of the result is an output of `f` on the corresponding
    /// pair of components. Component-wise addition, subtraction and the
    /// Hadamard product are this, with the scalar operation passed in by
    /// the caller.
    pub fn zip_with<F: Fn(u32, u32) -> u32>(self, other: Vector2, f: F) -> (r: Vector2)
        requires
            call_requires(f, (self.x, other.x)),
            call_requires(f, (self.y, other.y)),
        ensures
            call_ensures(f, (self.x, other.x), r.x),
            call_ensures(f, (self.y, other.y), r.y),
    {
        Vector2 { x: f(self.x, other.x), y: f(self.y, other.y) }
    }

    /// The image of `self` under `f` with the fixed scalar `s` as second
    /// argument: adding, subtracting or multiplying a scalar component-wise
    /// is this.
    pub fn map_with<F: Fn(u32, u32) -> u32>(self, s: u32, f: F) -> (r: Vector2)
        requires
            call_requires(f, (self.x, s)),
            call_requires(f, (self.y, s)),
        ensures
            call_ensures(f, (self.x, s), r.x),
            call_ensures(f, (self.y, s), r.y),
    {
        Vector2 { x: f(self.x, s), y: f(self.y, s) }
    }

    /// The negated vector: each component's sign bit flipped.
    pub open spec fn spec_neg(self) -> Vector2 {
        Vector2 { x: scalar::spec_neg(self.x), y: scalar::spec_neg(self.y) }
    }

    /// Component-wise IEEE-754 negation, exact on every bit pattern.
    pub fn neg(self) -> (r: Vector2)
        ensures
            r == self.spec_neg(),
    {
        Vector2 { x: scalar::neg_bits(self.x), y: scalar::neg_bits(self.y) }
    }

    /// Negating a vector twice restores it component for component.
    pub proof fn lemma_neg_involution(self)
        ensures
            self.spec_neg().spec_neg() == self,
    {
        scalar::lemma_neg_involution(self.x);
        scalar::lemma_neg_involution(self.y);
    }

    /// The serialized form: the little-endian bytes of `x`, then of `y`.
    pub open spec fn spec_bytes(self) -> Seq<u8> {
        bytes::le_bytes(self.x) + bytes::le_bytes(self.y)
    }

    /// The vector a serialized form stands for.
    pub open spec fn spec_of_bytes(data: Seq<u8>) -> Vector2
        recommends
            data.len() == 8,
    {
        Vector2 {
            x: bytes::word_of(data[0], data[1], data[2], data[3]),
            y: bytes::word_of(data[4], data[5], data[6], data[7]),
        }
    }

    /// Serializes the vector as eight bytes: the little-endian bytes of
    /// `x`, then of `y`.
    pub fn to_bytes(self) -> (r: Vec<u8>)
        ensures
            r@ == self.spec_bytes(),
    {
        let mut out: Vec<u8> = Vec::new();
        bytes::push_le_bytes(&mut out, self.x);
        bytes::push_le_bytes(&mut out, self.y);
        proof {
            assert(out@ =~= self.spec_bytes());
        }
        out
    }

    /// Deserializes a vector from exactly eight bytes; any other length
    /// is rejected.
    pub fn from_bytes(data: &[u8]) -> (r: Option<Vector2>)
        ensures
            data@.len() == 8 ==> r == Some(Self::spec_of_bytes(data@)),
            data@.len() != 8 ==> r is None,
    {
        if data.len() != 8 {
            return None;
        }
        let x = bytes::le_word(data[0], data[1], data[2], data[3]);
        let y = bytes::le_word(data[4], data[5], data[6], data[7]);
        Some(Vector2 { x, y })
    }

    /// Serialization round trip: deserializing a vector's serialized form
    /// restores it exactly, for every bit pattern of its components.
    pub proof fn lemma_bytes_round_trip(self)
        ensures
            self.spec_bytes().len() == 8,
            Self::spec_of_bytes(self.spec_bytes()) == self,
    {
        bytes::lemma_word_round_trip(self.x);
        bytes::lemma_word_round_trip(self.y);
    }

    /// Deserialization is injective into the bytes: serializing the vector
    /// eight bytes stand for gives back those bytes.
    pub proof fn lemma_bytes_inverse(data: Seq<u8>)
        requires
            data.len() == 8,
        ensures
            Self::spec_of_bytes(data).spec_bytes() =~= data,
    {
        bytes::lemma_bytes_of_word(data[0], data[1], data[2], data[3]);
        bytes::lemma_bytes_of_word(data[4], data[5], data[6], data[7]);
    }
}

impl From<[u32; 2]> for Vector2 {
    /// The vector with the array's elements as components, in order.
    fn from(arr: [u32; 2]) -> (r: Vector2)
        ensures
            r == spec_from_array2(arr@),
    {
        Vector2 { x: arr[0], y: arr[1] }
    }
}

impl vstd::std_specs::convert::FromSpecImpl<[u32; 2]> for Vector2 {
    open spec fn obeys_from_spec() -> bool {
        true
    }

    open spec fn from_spec(arr: [u32; 2]) -> Vector2 {
        spec_from_array2(arr@)
    }
}

} // verus!
