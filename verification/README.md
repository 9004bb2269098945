# desnark

The prover core of a distributed SNARK: SumFold aggregation of SumCheck
instances and the SumCheck protocol over the scalar field of BLS12-381, stated
and proved in Verus. The calls into `ark_ff` (field arithmetic, conversion to and
from bytes) and `merlin` (the transcript) stand behind small trusted wrappers whose
contracts say what those crates compute; everything built on them is proved.

Layout of `src/`:

- `field.rs` — field elements as canonical limbs, their arithmetic done by
  `ark_ff` behind small trusted wrappers, stated as arithmetic modulo the order.
- `algebra.rs` — ring identities of the field operations and facts about sums.
- `primality.rs` — powers modulo a number and Lucas's criterion: an element of
  order `n - 1` makes every nonzero residue modulo `n` a unit.
- `certificate.rs` — the criterion applied to the field order and, in turn, to
  the prime factors below it: generators, factorizations and their powers by
  repeated squaring. With it every nonzero field value has an inverse.
- `transcript.rs` — the Fiat-Shamir transcript kept by `merlin`, modelled as the
  sequence of operations it absorbed.
- `poly.rs` — multilinear tables, virtual polynomials, the `eq` polynomial,
  univariate interpolation.
- `upoly.rs` — univariate polynomials as coefficient sequences; Lagrange
  interpolation gives back every polynomial of low enough degree.
- `sumcheck.rs` — the SumCheck prover and verifier.
- `roundpoly.rs` — what the rounds compute: degree, round sums, honest runs.
- `sumfold.rs` — SumFold (both provers) and its verifier.
- `snark.rs`, `structs.rs`, `errors.rs` — the protocol phases and their types.
- `laws.rs` — completeness of SumCheck and SumFold, the folded instance's claim,
  agreement of the two SumFold provers, the claimed sums reaching only the folded
  claim, the merge of party proofs as their element-wise sum and independent of
  the parties' order, the eq table and the evaluation of a multilinear extension,
  and the network check on honest parties.

`app/` holds the network round trip and the proving pipeline around the library.
