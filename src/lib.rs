//! A zero-knowledge proof that a hidden, Pedersen-committed value stands at
//! some position of a public vector of scalars, built from a KZG commitment
//! to the vector's interpolating polynomial and a pairing check.

pub mod algebra;
pub mod kzg;
pub mod protocol;
pub mod text;
