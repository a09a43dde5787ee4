//! Input files for Wannier90: the configuration of a Wannierization, the rules
//! by which one is derived from the stages of a plane-wave calculation, and the
//! text in which it is handed to the program.
//!
//! Verified code holds no floating-point values. A real number is carried by
//! the bit pattern of its binary64 form, and where a rule calls for a product,
//! the product is recorded by its two factors. Arithmetic on real numbers and
//! their printing are left to the caller: a [`text::Text`] says where each
//! number stands and which number it is.
pub mod number;
pub mod text;
pub mod input;
pub mod pw;
pub mod qe_workflow;
pub mod serialize;
