//! Constraint synthesis for two small relations over the BLS12-381 scalar
//! field, and the hex encoding of the proof artifacts they lead to.

pub mod field;
pub mod hex;
pub mod encode;
pub mod circuit;
pub mod cube;
pub mod hash;
