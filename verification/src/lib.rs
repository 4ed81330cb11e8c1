//! Scalar reference implementation of a fixed-width packed-vector API.
//!
//! Five value types carry 128 bits of packed lane data each: four 32-bit
//! float lanes, two 64-bit float lanes, four signed 32-bit integer lanes,
//! four unsigned 32-bit mask lanes, and sixteen byte lanes. Float lanes are
//! held as their raw IEEE-754 bit patterns, so that lane permutation,
//! bit-level reinterpretation between shapes, comparison masks and
//! NaN-aware minimum/maximum are all plain integer computations with
//! proved contracts. Lane arithmetic on decoded float values lives with
//! the callers that hold floats.

pub mod bits;
pub mod f32x4;
pub mod f64x2;
pub mod i32x4;
pub mod u32x4;
pub mod u8x16;

pub use f32x4::F32x4;
pub use f64x2::F64x2;
pub use i32x4::I32x4;
pub use u32x4::U32x4;
pub use u8x16::U8x16;
