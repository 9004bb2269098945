//! A distributed SNARK prover core: SumFold aggregation of SumCheck instances
//! and the SumCheck protocol over the BLS12-381 scalar field.

pub mod field;
pub mod algebra;
pub mod transcript;
pub mod poly;
pub mod upoly;
pub mod sumcheck;
pub mod sumfold;
pub mod roundpoly;
pub mod errors;
pub mod structs;
pub mod snark;
pub mod laws;
pub mod primality;
pub mod certificate;
