//! Core data structures for the distributed SNARK protocol.

use vstd::prelude::*;
use crate::field::Fe;
use crate::poly::{AuxInfo, VirtualPolynomial};
use crate::sumcheck::IOPProof;

verus! {

/// Gate type for the circuit.
#[derive(Clone, Copy, Debug, Default, PartialEq, Eq)]
pub enum GateType {
    /// Vanilla PLONK gate: q_L w_1 + q_R w_2 + q_O w_3 + q_M w_1 w_2 + q_C = 0
    /// 3 witness columns, 5 selector columns
    #[default]
    Vanilla,
}

impl GateType {
    /// t - number of witness columns for this gate type.
    pub fn num_witness_columns(&self) -> (r: usize)
        ensures
            *self == GateType::Vanilla ==> r == 3,
    {
        match self {
            GateType::Vanilla => 3,
        }
    }
}

/// `2^k` for exponents below the word size.
pub open spec fn pow2_word(k: usize) -> nat {
    vstd::arithmetic::power2::pow2(k as nat)
}

/// Configuration for the distributed SNARK protocol.
#[derive(Clone, Debug, Default, PartialEq, Eq)]
pub struct Config {
    /// M - number of instances
    pub num_instances: usize,
    /// nu - log of number of instances
    pub log_num_instances: usize,
    /// N - number of constraints
    pub num_constraints: usize,
    /// mu - log of number of constraints
    pub log_num_constraints: usize,
    /// Gate type
    pub gate_type: GateType,
    /// K - number of parties
    pub num_parties: usize,
    /// kappa - log of number of parties
    pub log_num_parties: usize,
}

/// `1 << k` for `k` below the word size.
fn shl_one(k: usize) -> (r: usize)
    requires
        k < usize::BITS,
    ensures
        r as nat == pow2_word(k),
{
    proof {
        vstd::arithmetic::power2::lemma2_to64();
        vstd::arithmetic::power2::lemma2_to64_rest();
    }
    let r: usize = crate::sumcheck::pow2_usize_checked(k);
    r
}

impl Config {
    /// Create a new Config: each count is two to the power of its logarithm.
    pub fn new(
        log_num_instances: usize,
        log_num_constraints: usize,
        gate_type: GateType,
        log_num_parties: usize,
    ) -> (r: Self)
        requires
            log_num_instances < usize::BITS,
            log_num_constraints < usize::BITS,
            log_num_parties < usize::BITS,
        ensures
            r.num_instances as nat == pow2_word(log_num_instances),
            r.log_num_instances == log_num_instances,
            r.num_constraints as nat == pow2_word(log_num_constraints),
            r.log_num_constraints == log_num_constraints,
            r.gate_type == gate_type,
            r.num_parties as nat == pow2_word(log_num_parties),
            r.log_num_parties == log_num_parties,
    {
        Config {
            num_instances: shl_one(log_num_instances),
            log_num_instances,
            num_constraints: shl_one(log_num_constraints),
            log_num_constraints,
            gate_type,
            num_parties: shl_one(log_num_parties),
            log_num_parties,
        }
    }

    /// t - number of witness columns based on gate type.
    pub fn num_witness_columns(&self) -> (r: usize)
        ensures
            self.gate_type == GateType::Vanilla ==> r == 3,
    {
        self.gate_type.num_witness_columns()
    }
}

/// Proving key for the distributed SNARK.
#[derive(Clone, Debug)]
pub struct ProvingKey {}

/// Verifying key for the distributed SNARK.
#[derive(Clone, Debug)]
pub struct VerifyingKey {}

/// Public instance (public input); it holds nothing yet.
#[derive(Clone, Debug, Default)]
pub struct Instance {}

/// Private witness; it holds nothing yet.
#[derive(Clone, Debug, Default)]
pub struct Witness {}

/// Proof for the distributed SNARK: the SumCheck proof of the folded instance.
#[derive(Debug, PartialEq, Eq)]
pub struct Proof {
    /// The SumCheck proof.
    pub sumcheck_proof: IOPProof,
}

/// Network configuration for distributed proving.
#[derive(Clone, Debug)]
pub struct NetworkConfig {
    /// Path to hosts file (one HOST:PORT per line)
    pub hosts_file: String,
    /// This party's ID (0-indexed)
    pub party_id: usize,
}

impl NetworkConfig {
    /// Create a new NetworkConfig.
    pub fn new(hosts_file: String, party_id: usize) -> (r: Self)
        ensures
            r.hosts_file@ == hosts_file@,
            r.party_id == party_id,
    {
        NetworkConfig { hosts_file, party_id }
    }
}

/// A SumCheck instance: a polynomial and its claimed sum over the hypercube.
#[derive(Debug, PartialEq, Eq)]
pub struct SumCheckInstance {
    /// The polynomial.
    pub poly: VirtualPolynomial,
    /// The claimed sum.
    pub sum: Fe,
}

impl SumCheckInstance {
    /// An instance from a polynomial and its claimed sum.
    pub fn new(poly: VirtualPolynomial, sum: Fe) -> (r: Self)
        ensures
            r.poly == poly,
            r.sum == sum,
    {
        SumCheckInstance { poly, sum }
    }

    /// The auxiliary information of the polynomial.
    pub fn aux_info(&self) -> (r: AuxInfo)
        ensures
            r == self.poly.aux_info,
    {
        self.poly.aux_info
    }
}

/// A SumFold proof: the SumCheck proof over the instance variables, its claimed sum
/// `T`, its auxiliary information, and the claimed sum `v` of the folded instance.
#[derive(Debug, PartialEq, Eq)]
pub struct SumFoldProof {
    /// The SumCheck proof.
    pub proof: IOPProof,
    /// The claimed sum `T`.
    pub sum_t: Fe,
    /// Degree and number of rounds.
    pub q_aux_info: AuxInfo,
    /// The folded claim `v`.
    pub v: Fe,
}

impl SumFoldProof {
    /// A SumFold proof from its parts.
    pub fn new(proof: IOPProof, sum_t: Fe, q_aux_info: AuxInfo, v: Fe) -> (r: Self)
        ensures
            r.proof == proof,
            r.sum_t == sum_t,
            r.q_aux_info == q_aux_info,
            r.v == v,
    {
        SumFoldProof { proof, sum_t, q_aux_info, v }
    }
}

} // verus!
