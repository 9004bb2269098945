//! The Fiat-Shamir transcript shared by prover and verifier, kept by `merlin`.
//!
//! What a transcript has absorbed is modelled as a sequence of operations: an
//! appended message `(false, label, message)` or a squeezed challenge
//! `(true, label, LE32(length))`. Challenge bytes are a function of that sequence
//! (`merlin_prf`), so two transcripts that absorbed the same operations hand out
//! the same challenges.

use vstd::prelude::*;
use crate::field::{Fe, fe_vals, le_bytes, le_val, modulus};
use vstd::string::StringSliceAdditionalSpecFns;

verus! {

#[verifier::external_type_specification]
#[verifier::external_body]
pub struct ExMerlinTranscript(merlin::Transcript);

/// One operation absorbed by a transcript.
pub type TranscriptOp = (bool, Seq<u8>, Seq<u8>);

/// The operations a `merlin::Transcript` has absorbed, oldest first.
pub uninterp spec fn merlin_ops(t: merlin::Transcript) -> Seq<TranscriptOp>;

/// The bytes `merlin::Transcript::challenge_bytes` hands out after the given
/// operations, for a label and a length.
pub uninterp spec fn merlin_prf(ops: Seq<TranscriptOp>, label: Seq<u8>, len: nat) -> Seq<u8>;

/// The operation absorbed when a message is appended.
pub open spec fn message_op(label: Seq<u8>, message: Seq<u8>) -> TranscriptOp {
    (false, label, message)
}

/// The operation absorbed when `len` challenge bytes are squeezed.
pub open spec fn challenge_op(label: Seq<u8>, len: nat) -> TranscriptOp {
    (true, label, le_bytes(len, 4))
}

/// The label merlin absorbs the protocol name under, `dom-sep`.
pub open spec fn dom_sep_label() -> Seq<u8> {
    seq![100u8, 111, 109, 45, 115, 101, 112]
}

/// `merlin::Transcript::new`: a transcript that has absorbed the domain separator
/// `label` under the label `dom-sep`.
#[verifier::external_body]
fn merlin_new(label: &'static [u8]) -> (r: merlin::Transcript)
    ensures
        merlin_ops(r) == seq![message_op(dom_sep_label(), label@)],
{
    merlin::Transcript::new(label)
}

/// `merlin::Transcript::append_message`: absorbs `message` under `label`.
#[verifier::external_body]
fn merlin_append_message(t: &mut merlin::Transcript, label: &'static [u8], message: &[u8])
    requires
        message@.len() <= u32::MAX,
    ensures
        merlin_ops(*final(t)) == merlin_ops(*old(t)).push(message_op(label@, message@)),
{
    t.append_message(label, message)
}

/// `merlin::Transcript::challenge_bytes` into a buffer of `len` bytes: the bytes are
/// a function of what was absorbed, and the request is absorbed in turn.
#[verifier::external_body]
fn merlin_challenge_bytes(t: &mut merlin::Transcript, label: &'static [u8], len: usize) -> (r: Vec<u8>)
    requires
        len <= u32::MAX,
    ensures
        r@ == merlin_prf(merlin_ops(*old(t)), label@, len as nat),
        r@.len() == len,
        merlin_ops(*final(t)) == merlin_ops(*old(t)).push(challenge_op(label@, len as nat)),
{
    let mut buf = vec![0u8; len];
    t.challenge_bytes(label, &mut buf);
    buf
}

/// Errors of the transcript.
#[derive(Debug, Clone, Copy, PartialEq, Eq)]
pub enum TranscriptError {
    /// A challenge was asked of a transcript that holds no message yet.
    InvalidTranscript,
}

/// A transcript for an interactive oracle proof made non-interactive.
pub struct IOPTranscript {
    transcript: merlin::Transcript,
    is_empty: bool,
}

/// The value of the challenge squeezed under `label` after the operations `ops`.
pub open spec fn challenge_value(ops: Seq<TranscriptOp>, label: Seq<u8>) -> nat {
    le_val(merlin_prf(ops, label, 64)) % modulus()
}

/// The operations after squeezing a field challenge under `label` and appending it.
pub open spec fn after_challenge(ops: Seq<TranscriptOp>, label: Seq<u8>) -> Seq<TranscriptOp> {
    ops.push(challenge_op(label, 64)).push(
        message_op(label, le_bytes(challenge_value(ops, label), 32)),
    )
}

/// The values of `n` challenges squeezed one after the other under `label`.
pub open spec fn challenge_values(ops: Seq<TranscriptOp>, label: Seq<u8>, n: nat) -> Seq<nat>
    decreases n,
{
    if n == 0 {
        Seq::empty()
    } else {
        challenge_values(ops, label, (n - 1) as nat).push(
            challenge_value(ops_after_challenges(ops, label, (n - 1) as nat), label),
        )
    }
}

/// The operations after squeezing `n` challenges under `label`.
pub open spec fn ops_after_challenges(ops: Seq<TranscriptOp>, label: Seq<u8>, n: nat) -> Seq<
    TranscriptOp,
>
    decreases n,
{
    if n == 0 {
        ops
    } else {
        after_challenge(ops_after_challenges(ops, label, (n - 1) as nat), label)
    }
}

impl IOPTranscript {
    /// What the transcript has absorbed.
    pub closed spec fn ops(&self) -> Seq<TranscriptOp> {
        merlin_ops(self.transcript)
    }

    /// Whether no message has been appended since creation.
    pub closed spec fn empty(&self) -> bool {
        self.is_empty
    }

    /// A new transcript for the protocol named `label`.
    pub fn new(label: &'static [u8]) -> (r: IOPTranscript)
        ensures
            r.ops() == seq![message_op(dom_sep_label(), label@)],
            r.empty(),
    {
        IOPTranscript { transcript: merlin_new(label), is_empty: true }
    }

    /// Appends a message under `label`.
    pub fn append_message(&mut self, label: &'static [u8], message: &[u8])
        requires
            message@.len() <= u32::MAX,
        ensures
            final(self).ops() == old(self).ops().push(message_op(label@, message@)),
            !final(self).empty(),
    {
        merlin_append_message(&mut self.transcript, label, message);
        self.is_empty = false;
    }

    /// Appends the canonical encoding of a field element under `label`.
    pub fn append_field_element(&mut self, label: &'static [u8], x: &Fe)
        ensures
            final(self).ops() == old(self).ops().push(message_op(label@, le_bytes(x.val(), 32))),
            !final(self).empty(),
    {
        let bytes = x.to_bytes();
        proof {
            lemma_le_bytes_len(x.val(), 32);
        }
        self.append_message(label, bytes.as_slice());
    }

    /// Squeezes a field challenge under `label` and appends it to the transcript.
    /// Fails on a transcript that holds no message yet.
    pub fn get_and_append_challenge(&mut self, label: &'static [u8]) -> (r: Result<
        Fe,
        TranscriptError,
    >)
        ensures
            old(self).empty() ==> r == Err::<Fe, TranscriptError>(
                TranscriptError::InvalidTranscript,
            ) && *final(self) == *old(self),
            !old(self).empty() ==> {
                &&& r matches Ok(c) && c.val() == challenge_value(old(self).ops(), label@)
                &&& final(self).ops() == after_challenge(old(self).ops(), label@)
                &&& !final(self).empty()
            },
    {
        if self.is_empty {
            return Err(TranscriptError::InvalidTranscript);
        }
        let buf = merlin_challenge_bytes(&mut self.transcript, label, 64);
        let c = Fe::from_le_bytes_mod_order(&buf);
        self.append_field_element(label, &c);
        Ok(c)
    }

    /// Squeezes `n` field challenges under `label`, each appended in turn.
    pub fn get_and_append_challenge_vectors(&mut self, label: &'static [u8], n: usize) -> (r:
        Result<Vec<Fe>, TranscriptError>)
        ensures
            old(self).empty() && n > 0 ==> r == Err::<Vec<Fe>, TranscriptError>(
                TranscriptError::InvalidTranscript,
            ) && *final(self) == *old(self),
            !old(self).empty() || n == 0 ==> {
                &&& r matches Ok(v) && fe_vals(v@) == challenge_values(old(self).ops(), label@, n as nat)
                &&& final(self).ops() == ops_after_challenges(old(self).ops(), label@, n as nat)
                &&& final(self).empty() == old(self).empty()
            },
    {
        let mut v: Vec<Fe> = Vec::new();
        let ghost ops0 = self.ops();
        let mut i: usize = 0;
        while i < n
            invariant
                i <= n,
                v@.len() == i,
                old(self).empty() ==> i == 0 && *self == *old(self),
                ops0 == old(self).ops(),
                fe_vals(v@) == challenge_values(ops0, label@, i as nat),
                self.ops() == ops_after_challenges(ops0, label@, i as nat),
                i > 0 ==> !self.empty(),
                self.empty() == old(self).empty(),
            decreases n - i,
        {
            let c = self.get_and_append_challenge(label)?;
            v.push(c);
            i = i + 1;
            proof {
                assert(fe_vals(v@) =~= fe_vals(v@.drop_last()).push(c.val()));
                assert(v@.drop_last() =~= v@.subrange(0, i - 1));
            }
        }
        Ok(v)
    }
}

/// The encodings of a sequence of field values, one after the other.
pub open spec fn elems_bytes(s: Seq<nat>) -> Seq<u8>
    decreases s.len(),
{
    if s.len() == 0 {
        Seq::empty()
    } else {
        elems_bytes(s.drop_last()) + le_bytes(s.last(), 32)
    }
}

/// The canonical encoding of a vector of field values: its length as eight
/// little-endian bytes, then the elements.
pub open spec fn vec_bytes(s: Seq<nat>) -> Seq<u8> {
    le_bytes(s.len(), 8) + elems_bytes(s)
}

/// `elems_bytes(s)` has 32 bytes per element.
pub proof fn lemma_elems_bytes_len(s: Seq<nat>)
    ensures
        elems_bytes(s).len() == 32 * s.len(),
    decreases s.len(),
{
    if s.len() > 0 {
        lemma_elems_bytes_len(s.drop_last());
        lemma_le_bytes_len(s.last(), 32);
    }
}

/// The eight little-endian bytes of `x`, as `CanonicalSerialize` writes a `u64`.
fn u64_to_bytes(x: u64) -> (r: Vec<u8>)
    ensures
        r@ == le_bytes(x as nat, 8),
{
    let mut out: Vec<u8> = Vec::new();
    let mut v: u64 = x;
    let mut i: usize = 0;
    while i < 8
        invariant
            i <= 8,
            out@ + le_bytes(v as nat, (8 - i) as nat) == le_bytes(x as nat, 8),
        decreases 8 - i,
    {
        let ghost rest = le_bytes((v / 256) as nat, (8 - i - 1) as nat);
        let b = (v % 256) as u8;
        proof {
            assert(le_bytes(v as nat, (8 - i) as nat) == seq![b] + rest);
            assert(out@.push(b) + rest =~= out@ + (seq![b] + rest));
        }
        out.push(b);
        v = v / 256;
        i = i + 1;
    }
    assert(out@ + le_bytes(v as nat, 0) =~= out@);
    out
}

/// The eight little-endian bytes of a length or count, as `CanonicalSerialize`
/// writes a `usize`.
pub fn usize_to_bytes(x: usize) -> (r: Vec<u8>)
    ensures
        r@ == le_bytes(x as nat, 8),
{
    u64_to_bytes(x as u64)
}

/// The canonical encoding of a vector of field elements.
pub fn serialize_elements(v: &Vec<Fe>) -> (r: Vec<u8>)
    ensures
        r@ == vec_bytes(fe_vals(v@)),
{
    let mut out = usize_to_bytes(v.len());
    let mut i: usize = 0;
    assert(fe_vals(v@).subrange(0, 0) =~= Seq::<nat>::empty());
    assert(out@ =~= le_bytes(v@.len() as nat, 8) + elems_bytes(fe_vals(v@).subrange(0, 0)));
    while i < v.len()
        invariant
            i <= v@.len(),
            out@ == le_bytes(v@.len() as nat, 8) + elems_bytes(fe_vals(v@).subrange(0, i as int)),
        decreases v.len() - i,
    {
        let mut b = v[i].to_bytes();
        out.append(&mut b);
        proof {
            let s = fe_vals(v@).subrange(0, i + 1);
            assert(s.drop_last() =~= fe_vals(v@).subrange(0, i as int));
            assert(s.last() == v@[i as int].val());
        }
        i = i + 1;
    }
    assert(fe_vals(v@).subrange(0, v@.len() as int) =~= fe_vals(v@));
    out
}

/// `n` challenges are `n` values.
pub proof fn lemma_challenge_values_len(ops: Seq<TranscriptOp>, label: Seq<u8>, n: nat)
    ensures
        challenge_values(ops, label, n).len() == n,
    decreases n,
{
    if n > 0 {
        lemma_challenge_values_len(ops, label, (n - 1) as nat);
    }
}

/// `le_bytes(v, n)` has `n` bytes.
pub proof fn lemma_le_bytes_len(v: nat, n: nat)
    ensures
        le_bytes(v, n).len() == n,
    decreases n,
{
    if n > 0 {
        lemma_le_bytes_len(v / 256, (n - 1) as nat);
    }
}

} // verus!
