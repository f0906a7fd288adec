//! Fixed-size 2-, 3- and 4-component vectors of IEEE-754 single-precision
//! scalars, each scalar held as its 32-bit pattern so that construction,
//! conversion, negation, component-wise combination and byte serialization
//! can be verified exactly.

pub mod bytes;
pub mod scalar;
pub mod vec2;
pub mod vec3;
pub mod vec4;

pub use vec2::Vector2;
pub use vec3::Vector3;
pub use vec4::Vector4;
