//! Value-level facades for a native 2D graphics engine's transform matrix and
//! for the Vulkan resource descriptors that its GPU backend exchanges with
//! callers.
//!
//! The matrix is nine packed 32-bit scalars in row-major order; each slot is
//! held here as the scalar's IEEE-754 bit pattern, so every slot movement and
//! every classification the engine defines over scalar comparisons is stated
//! and proved exactly. Arithmetic on the scalars themselves (composition,
//! inversion, trigonometry, fitting solvers) belongs to the engine and is not
//! redefined here.

pub mod matrix;
pub mod scalar;
pub mod vk;
