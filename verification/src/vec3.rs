//! Three-component vectors.

use vstd::prelude::*;

use crate::bytes;
use crate::scalar;
use crate::vec2::Vector2;

verus! {

/// A 3-component vector. Each component holds the bit pattern of an
/// IEEE-754 single-precision scalar.
#[derive(Clone, Copy, Debug)]
pub struct Vector3 {
    pub x: u32,
    pub y: u32,
    pub z: u32,
}

/// The vector whose components are the elements of `arr`, in order.
pub open spec fn spec_from_array3(arr: Seq<u32>) -> Vector3
    recommends
        arr.len() == 3,
{
    Vector3 { x: arr[0], y: arr[1], z: arr[2] }
}

/// Holds when `out` is a possible value of `diff(prod(a1, b1), prod(a2, b2))`:
/// the shape of one cross-product component.
pub open spec fn cross_component<M: Fn(u32, u32) -> u32, S: Fn(u32, u32) -> u32>(
    prod: M,
    diff: S,
    a1: u32,
    b1: u32,
    a2: u32,
    b2: u32,
    out: u32,
) -> bool {
    exists|p: u32, q: u32|
        call_ensures(prod, (a1, b1), p) && call_ensures(prod, (a2, b2), q) && #[trigger] call_ensures(
            diff,
            (p, q),
            out,
        )
}

impl Vector3 {
    /// The vector with the given components.
    pub fn new(x: u32, y: u32, z: u32) -> (r: Vector3)
        ensures
            r.x == x,
            r.y == y,
            r.z == z,
    {
        Vector3 { x, y, z }
    }

    /// The zero vector: every component is the pattern of positive zero.
    pub fn zero() -> (r: Vector3)
        ensures
            r.x == 0,
            r.y == 0,
            r.z == 0,
    {
        Vector3 { x: 0, y: 0, z: 0 }
    }

    /// The component-wise image of `self` and `other` under `f`: each
    /// component of the result is an output of `f` on the corresponding
    /// pair of components. Component-wise addition, subtraction and the
    /// Hadamard product are this, with the scalar operation passed in by
    /// the caller.
    pub fn zip_with<F: Fn(u32, u32) -> u32>(self, other: Vector3, f: F) -> (r: Vector3)
        requires
            call_requires(f, (self.x, other.x)),
            call_requires(f, (self.y, other.y)),
            call_requires(f, (self.z, other.z)),
        ensures
            call_ensures(f, (self.x, other.x), r.x),
            call_ensures(f, (self.y, other.y), r.y),
            call_ensures(f, (self.z, other.z), r.z),
    {
        Vector3 { x: f(self.x, other.x), y: f(self.y, other.y), z: f(self.z, other.z) }
    }

    /// The image of `self` under `f` with the fixed scalar `s` as second
    /// argument: adding, subtracting or multiplying a scalar component-wise
    /// is this.
    pub fn map_with<F: Fn(u32, u32) -> u32>(self, s: u32, f: F) -> (r: Vector3)
        requires
            call_requires(f, (self.x, s)),
            call_requires(f, (self.y, s)),
            call_requires(f, (self.z, s)),
        ensures
            call_ensures(f, (self.x, s), r.x),
            call_ensures(f, (self.y, s), r.y),
            call_ensures(f, (self.z, s), r.z),
    {
        Vector3 { x: f(self.x, s), y: f(self.y, s), z: f(self.z, s) }
    }

    /// The negated vector: each component's sign bit flipped.
    pub open spec fn spec_neg(self) -> Vector3 {
        Vector3 {
            x: scalar::spec_neg(self.x),
            y: scalar::spec_neg(self.y),
            z: scalar::spec_neg(self.z),
        }
    }

    /// Component-wise IEEE-754 negation, exact on every bit pattern.
    pub fn neg(self) -> (r: Vector3)
        ensures
            r == self.spec_neg(),
    {
        Vector3 {
            x: scalar::neg_bits(self.x),
            y: scalar::neg_bits(self.y),
            z: scalar::neg_bits(self.z),
        }
    }

    /// Negating a vector twice restores it component for component.
    pub proof fn lemma_neg_involution(self)
        ensures
            self.spec_neg().spec_neg() == self,
    {
        scalar::lemma_neg_involution(self.x);
        scalar::lemma_neg_involution(self.y);
        scalar::lemma_neg_involution(self.z);
    }

    /// The cross product of `self` and `other`, with the scalar product
    /// and the scalar difference passed in by the caller: the first
    /// component is `diff(prod(y1, z2), prod(z1, y2))`, and the others
    /// follow the cyclic pattern.
    pub fn cross<M: Fn(u32, u32) -> u32, S: Fn(u32, u32) -> u32>(
        &self,
        other: &Vector3,
        prod: M,
        diff: S,
    ) -> (r: Vector3)
        requires
            call_requires(prod, (self.y, other.z)),
            call_requires(prod, (self.z, other.y)),
            call_requires(prod, (self.z, other.x)),
            call_requires(prod, (self.x, other.z)),
            call_requires(prod, (self.x, other.y)),
            call_requires(prod, (self.y, other.x)),
            // the products are not known here, so `diff` must take any pair
            forall|p: u32, q: u32| call_requires(diff, (p, q)),
        ensures
            cross_component(prod, diff, self.y, other.z, self.z, other.y, r.x),
            cross_component(prod, diff, self.z, other.x, self.x, other.z, r.y),
            cross_component(prod, diff, self.x, other.y, self.y, other.x, r.z),
    {
        let x = diff(prod(self.y, other.z), prod(self.z, other.y));
        let y = diff(prod(self.z, other.x), prod(self.x, other.z));
        let z = diff(prod(self.x, other.y), prod(self.y, other.x));
        Vector3 { x, y, z }
    }

    /// The first two components, dropping `z`.
    pub fn xy(&self) -> (r: Vector2)
        ensures
            r.x == self.x,
            r.y == self.y,
    {
        Vector2 { x: self.x, y: self.y }
    }

    /// The components in field order.
    pub open spec fn spec_to_slice(self) -> Seq<u32> {
        seq![self.x, self.y, self.z]
    }

    /// The components as an array, in field order.
    pub fn to_slice(&self) -> (r: [u32; 3])
        ensures
            r@ == self.spec_to_slice(),
    {
        let r = [self.x, self.y, self.z];
        proof {
            assert(r@ =~= self.spec_to_slice());
        }
        r
    }

    /// Array round trip: the slice of the vector an array converts to is
    /// that array.
    pub proof fn lemma_array_round_trip(arr: Seq<u32>)
        requires
            arr.len() == 3,
        ensures
            spec_from_array3(arr).spec_to_slice() == arr,
    {
        assert(spec_from_array3(arr).spec_to_slice() =~= arr);
    }

    /// The serialized form: the little-endian bytes of `x`, `y` and `z`,
    /// in field order.
    pub open spec fn spec_bytes(self) -> Seq<u8> {
        bytes::le_bytes(self.x) + bytes::le_bytes(self.y) + bytes::le_bytes(self.z)
    }

    /// The vector a serialized form stands for.
    pub open spec fn spec_of_bytes(data: Seq<u8>) -> Vector3
        recommends
            data.len() == 12,
    {
        Vector3 {
            x: bytes::word_of(data[0], data[1], data[2], data[3]),
            y: bytes::word_of(data[4], data[5], data[6], data[7]),
            z: bytes::word_of(data[8], data[9], data[10], data[11]),
        }
    }

    /// Serializes the vector as twelve bytes: the little-endian bytes of
    /// `x`, then of `y`, then of `z`.
    pub fn to_bytes(self) -> (r: Vec<u8>)
        ensures
            r@ == self.spec_bytes(),
    {
        let mut out: Vec<u8> = Vec::new();
        bytes::push_le_bytes(&mut out, self.x);
        bytes::push_le_bytes(&mut out, self.y);
        bytes::push_le_bytes(&mut out, self.z);
        proof {
            assert(out@ =~= self.spec_bytes());
        }
        out
    }

    /// Deserializes a vector from exactly twelve bytes; any other length
    /// is rejected.
    pub fn from_bytes(data: &[u8]) -> (r: Option<Vector3>)
        ensures
            data@.len() == 12 ==> r == Some(Self::spec_of_bytes(data@)),
            data@.len() != 12 ==> r is None,
    {
        if data.len() != 12 {
            return None;
        }
        let x = bytes::le_word(data[0], data[1], data[2], data[3]);
        let y = bytes::le_word(data[4], data[5], data[6], data[7]);
        let z = bytes::le_word(data[8], data[9], data[10], data[11]);
        Some(Vector3 { x, y, z })
    }

    /// Serialization round trip: deserializing a vector's serialized form
    /// restores it exactly, for every bit pattern of its components.
    pub proof fn lemma_bytes_round_trip(self)
        ensures
            self.spec_bytes().len() == 12,
            Self::spec_of_bytes(self.spec_bytes()) == self,
    {
        bytes::lemma_word_round_trip(self.x);
        bytes::lemma_word_round_trip(self.y);
        bytes::lemma_word_round_trip(self.z);
    }

    /// Deserialization is injective into the bytes: serializing the vector
    /// twelve bytes stand for gives back those bytes.
    pub proof fn lemma_bytes_inverse(data: Seq<u8>)
        requires
            data.len() == 12,
        ensures
            Self::spec_of_bytes(data).spec_bytes() =~= data,
    {
        bytes::lemma_bytes_of_word(data[0], data[1], data[2], data[3]);
        bytes::lemma_bytes_of_word(data[4], data[5], data[6], data[7]);
        bytes::lemma_bytes_of_word(data[8], data[9], data[10], data[11]);
    }
}

impl From<[u32; 3]> for Vector3 {
    /// The vector with the array's elements as components, in order.
    fn from(arr: [u32; 3]) -> (r: Vector3)
        ensures
            r == spec_from_array3(arr@),
    {
        Vector3 { x: arr[0], y: arr[1], z: arr[2] }
    }
}

impl vstd::std_specs::convert::FromSpecImpl<[u32; 3]> for Vector3 {
    open spec fn obeys_from_spec() -> bool {
        true
    }

    open spec fn from_spec(arr: [u32; 3]) -> Vector3 {
        spec_from_array3(arr@)
    }
}

} // verus!
