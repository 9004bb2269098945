//! Errors of the distributed SNARK protocol.

use vstd::prelude::*;
use crate::sumcheck::PolyIOPErrors;

verus! {

/// What is wrong with the parameters of a request.
#[derive(Debug, Clone, Copy, PartialEq, Eq)]
pub enum ParamError {
    /// There is no instance to fold.
    NoInstances,
    /// The number of instances (given) is not a power of two.
    InstancesNotPowerOfTwo(usize),
    /// There is no proof to combine.
    NoProofs,
    /// The auxiliary information of this party's proof differs from party 0's.
    IncompatibleAuxInfo(usize),
    /// This party's proof has this many round messages where that many were expected.
    WrongRoundCount(usize, usize, usize),
}

/// Which step of the proof system failed.
#[derive(Debug, Clone, Copy, PartialEq, Eq)]
pub enum ProtocolError {
    /// The SumFold prover failed.
    SumFold(PolyIOPErrors),
    /// The combined SumFold SumCheck did not verify.
    SumFoldVerification(PolyIOPErrors),
    /// The combined claim `c` differs from `v_total * eq(rho, r_b)`.
    ConsistencyCheckFailed,
    /// The distributed SumCheck on the folded instance failed.
    DistributedSumCheck(PolyIOPErrors),
}

/// What went wrong on the network.
#[derive(Debug, Clone, Copy, PartialEq, Eq)]
pub enum NetworkFailure {
    /// A party's response (got) differs from the expected one.
    ResponseMismatch { party: usize, got: u64, expected: u64 },
}

/// Errors for the deSnark protocol.
#[derive(Debug, Clone, Copy, PartialEq, Eq)]
pub enum DeSnarkError {
    /// The parameters are invalid.
    InvalidParameters(ParamError),
    /// A step of the proof system failed.
    HyperPlonkError(ProtocolError),
    /// The network check failed.
    NetworkError(NetworkFailure),
}

} // verus!
