//! Four-component vectors.

use vstd::prelude::*;

use crate::bytes;
use crate::scalar;

verus! {

/// A 4-component vector. Each component holds the bit pattern of an
/// IEEE-754 single-precision scalar.
#[derive(Clone, Copy, Debug)]
pub struct Vector4 {
    pub x: u32,
    pub y: u32,
    pub z: u32,
    pub w: u32,
}

/// The vector whose components are the elements of `arr`, in order.
pub open spec fn spec_from_array4(arr: Seq<u32>) -> Vector4
    recommends
        arr.len() == 4,
{
    Vector4 { x: arr[0], y: arr[1], z: arr[2], w: arr[3] }
}

impl Vector4 {
    /// The vector with the given components.
    pub fn new(x: u32, y: u32, z: u32, w: u32) -> (r: Vector4)
        ensures
            r.x == x,
            r.y == y,
            r.z == z,
            r.w == w,
    {
        Vector4 { x, y, z, w }
    }

    /// The zero vector: every component is the pattern of positive zero.
    pub fn zero() -> (r: Vector4)
        ensures
            r.x == 0,
            r.y == 0,
            r.z == 0,
            r.w == 0,
    {
        Vector4 { x: 0, y: 0, z: 0, w: 0 }
    }

    /// The component-wise image of `self` and `other` under `f`: each
    /// component of the result is an output of `f` on the corresponding
    /// pair of components. Component-wise addition, subtraction and the
    /// Hadamard product are this, with the scalar operation passed in by
    /// the caller.
    pub fn zip_with<F: Fn(u32, u32) -> u32>(self, other: Vector4, f: F) -> (r: Vector4)
        requires
            call_requires(f, (self.x, other.x)),
            call_requires(f, (self.y, other.y)),
            call_requires(f, (self.z, other.z)),
            call_requires(f, (self.w, other.w)),
        ensures
            call_ensures(f, (self.x, other.x), r.x),
            call_ensures(f, (self.y, other.y), r.y),
            call_ensures(f, (self.z, other.z), r.z),
            call_ensures(f, (self.w, other.w), r.w),
    {
        Vector4 {
            x: f(self.x, other.x),
            y: f(self.y, other.y),
            z: f(self.z, other.z),
            w: f(self.w, other.w),
        }
    }

    /// The image of `self` under `f` with the fixed scalar `s` as second
    /// argument: adding, subtracting or multiplying a scalar component-wise
    /// is this.
    pub fn map_with<F: Fn(u32, u32) -> u32>(self, s: u32, f: F) -> (r: Vector4)
        requires
            call_requires(f, (self.x, s)),
            call_requires(f, (self.y, s)),
            call_requires(f, (self.z, s)),
            call_requires(f, (self.w, s)),
        ensures
            call_ensures(f, (self.x, s), r.x),
            call_ensures(f, (self.y, s), r.y),
            call_ensures(f, (self.z, s), r.z),
            call_ensures(f, (self.w, s), r.w),
    {
        Vector4 { x: f(self.x, s), y: f(self.y, s), z: f(self.z, s), w: f(self.w, s) }
    }

    /// The negated vector: each component's sign bit flipped.
    pub open spec fn spec_neg(self) -> Vector4 {
        Vector4 {
            x: scalar::spec_neg(self.x),
            y: scalar::spec_neg(self.y),
            z: scalar::spec_neg(self.z),
            w: scalar::spec_neg(self.w),
        }
    }

    /// Component-wise IEEE-754 negation, exact on every bit pattern.
    pub fn neg(self) -> (r: Vector4)
        ensures
            r == self.spec_neg(),
    {
        Vector4 {
            x: scalar::neg_bits(self.x),
            y: scalar::neg_bits(self.y),
            z: scalar::neg_bits(self.z),
            w: scalar::neg_bits(self.w),
        }
    }

    /// Negating a vector twice restores it component for component.
    pub proof fn lemma_neg_involution(self)
        ensures
            self.spec_neg().spec_neg() == self,
    {
        scalar::lemma_neg_involution(self.x);
        scalar::lemma_neg_involution(self.y);
        scalar::lemma_neg_involution(self.z);
        scalar::lemma_neg_involution(self.w);
    }

    /// The components in field order.
    pub open spec fn spec_to_slice(self) -> Seq<u32> {
        seq![self.x, self.y, self.z, self.w]
    }

    /// The components as an array, in field order.
    pub fn to_slice(&self) -> (r: [u32; 4])
        ensures
            r@ == self.spec_to_slice(),
    {
        let r = [self.x, self.y, self.z, self.w];
        proof {
            assert(r@ =~= self.spec_to_slice());
        }
        r
    }

    /// Array round trip: the slice of the vector an array converts to is
    /// that array.
    pub proof fn lemma_array_round_trip(arr: Seq<u32>)
        requires
            arr.len() == 4,
        ensures
            spec_from_array4(arr).spec_to_slice() == arr,
    {
        assert(spec_from_array4(arr).spec_to_slice() =~= arr);
    }

    /// The serialized form: the little-endian bytes of `x`, `y`, `z` and
    /// `w`, in field order.
    pub open spec fn spec_bytes(self) -> Seq<u8> {
        bytes::le_bytes(self.x) + bytes::le_bytes(self.y) + bytes::le_bytes(self.z)
            + bytes::le_bytes(self.w)
    }

    /// The vector a serialized form stands for.
    pub open spec fn spec_of_bytes(data: Seq<u8>) -> Vector4
        recommends
            data.len() == 16,
    {
        Vector4 {
            x: bytes::word_of(data[0], data[1], data[2], data[3]),
            y: bytes::word_of(data[4], data[5], data[6], data[7]),
            z: bytes::word_of(data[8], data[9], data[10], data[11]),
            w: bytes::word_of(data[12], data[13], data[14], data[15]),
        }
    }

    /// Serializes the vector as sixteen bytes: the little-endian bytes of
    /// `x`, then of `y`, then of `z`, then of `w`.
    pub fn to_bytes(self) -> (r: Vec<u8>)
        ensures
            r@ == self.spec_bytes(),
    {
        let mut out: Vec<u8> = Vec::new();
        bytes::push_le_bytes(&mut out, self.x);
        bytes::push_le_bytes(&mut out, self.y);
        bytes::push_le_bytes(&mut out, self.z);
        bytes::push_le_bytes(&mut out, self.w);
        proof {
            assert(out@ =~= self.spec_bytes());
        }
        out
    }

    /// Deserializes a vector from exactly sixteen bytes; any other length
    /// is rejected.
    pub fn from_bytes(data: &[u8]) -> (r: Option<Vector4>)
        ensures
            data@.len() == 16 ==> r == Some(Self::spec_of_bytes(data@)),
            data@.len() != 16 ==> r is None,
    {
        if data.len() != 16 {
            return None;
        }
        let x = bytes::le_word(data[0], data[1], data[2], data[3]);
        let y = bytes::le_word(data[4], data[5], data[6], data[7]);
        let z = bytes::le_word(data[8], data[9], data[10], data[11]);
        let w = bytes::le_word(data[12], data[13], data[14], data[15]);
        Some(Vector4 { x, y, z, w })
    }

    /// Serialization round trip: deserializing a vector's serialized form
    /// restores it exactly, for every bit pattern of its components.
    pub proof fn lemma_bytes_round_trip(self)
        ensures
            self.spec_bytes().len() == 16,
            Self::spec_of_bytes(self.spec_bytes()) == self,
    {
        bytes::lemma_word_round_trip(self.x);
        bytes::lemma_word_round_trip(self.y);
        bytes::lemma_word_round_trip(self.z);
        bytes::lemma_word_round_trip(self.w);
    }

    /// Deserialization is injective into the bytes: serializing the vector
    /// sixteen bytes stand for gives back those bytes.
    pub proof fn lemma_bytes_inverse(data: Seq<u8>)
        requires
            data.len() == 16,
        ensures
            Self::spec_of_bytes(data).spec_bytes() =~= data,
    {
        bytes::lemma_bytes_of_word(data[0], data[1], data[2], data[3]);
        bytes::lemma_bytes_of_word(data[4], data[5], data[6], data[7]);
        bytes::lemma_bytes_of_word(data[8], data[9], data[10], data[11]);
        bytes::lemma_bytes_of_word(data[12], data[13], data[14], data[15]);
    }
}

impl From<[u32; 4]> for Vector4 {
    /// The vector with the array's elements as components, in order.
    fn from(arr: [u32; 4]) -> (r: Vector4)
        ensures
            r == spec_from_array4(arr@),
    {
        Vector4 { x: arr[0], y: arr[1], z: arr[2], w: arr[3] }
    }
}

impl vstd::std_specs::convert::FromSpecImpl<[u32; 4]> for Vector4 {
    open spec fn obeys_from_spec() -> bool {
        true
    }

    open spec fn from_spec(arr: [u32; 4]) -> Vector4 {
        spec_from_array4(arr@)
    }
}

} // verus!
