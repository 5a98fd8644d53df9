//! The proof gate: decides whether a progress submission is admissible.
//!
//! A submission carries a proof and is judged by an external verifier
//! capability.  The host performs that call and reports its outcome as a
//! [`Verdict`]; the admission rule uses only the proof bytes and that outcome.
//! An empty proof is a recognized bypass sentinel for non-production
//! configurations: it is admitted without consulting the verifier.

use vstd::prelude::*;

verus! {

/// Outcome of the external verifier capability for one submission.
#[derive(Clone, Copy, Debug, PartialEq, Eq, Structural)]
pub enum Verdict {
    /// The verifier call returned: the commitment is proven.
    Accepted,
    /// The verifier call failed: the commitment is not proven.
    Rejected,
}

/// Whether a submission is admissible: either the bypass sentinel
/// (empty proof) or a verifier acceptance.
pub open spec fn gate_accepts(proof: Seq<u8>, verdict: Verdict) -> bool {
    proof.len() == 0 || verdict == Verdict::Accepted
}

/// Admission decision for one submission.  `verdict` is the outcome the
/// host obtained from the verifier for this proof; it is ignored when the
/// bypass sentinel (an empty proof) is used.
pub fn accepts(proof: &Vec<u8>, verdict: Verdict) -> (r: bool)
    ensures
        r == gate_accepts(proof@, verdict),
{
    proof.len() == 0 || verdict == Verdict::Accepted
}

/// Reference verifier stub: stands in for a deployed verifier and accepts
/// every submission.  A production deployment substitutes a real verifier
/// at the host boundary.
pub struct ZKVerifier;

impl ZKVerifier {
    /// Accepts any proof against any image id and commitment.
    #[allow(unused_variables)]
    pub fn verify(proof: &Vec<u8>, image_id: &Vec<u8>, journal_hash: &Vec<u8>) -> (r: Verdict)
        ensures
            r == Verdict::Accepted,
    {
        Verdict::Accepted
    }
}

} // verus!
