use vstd::prelude::*;

verus! {

/// The zero-knowledge proof checker, as the state machine sees it: a
/// deterministic, side-effect-free verdict over a Groth16 proof — two G1
/// points and one G2 point, serialized big-endian — and a vector of
/// 32-byte field-element public inputs. Malformed encodings are simply
/// rejected, not a distinct error class.
///
/// The pairing arithmetic itself is a pluggable external collaborator, so
/// the escrow logic is verified against this narrow interface and an
/// implementation is injected by the caller.
pub trait ProofVerifier {
    /// Which (proof, public inputs) pairs this checker accepts.
    spec fn accepts(
        &self,
        proof_a: Seq<u8>,
        proof_b: Seq<u8>,
        proof_c: Seq<u8>,
        public_inputs: Seq<[u8; 32]>,
    ) -> bool;

    /// Checks the proof; returns the verdict and changes nothing.
    fn verify(
        &self,
        proof_a: &[u8; 64],
        proof_b: &[u8; 128],
        proof_c: &[u8; 64],
        public_inputs: &Vec<[u8; 32]>,
    ) -> (r: bool)
        ensures
            r == self.accepts(proof_a@, proof_b@, proof_c@, public_inputs@),
    ;
}

/// A proof checker whose answer is chosen up front: it accepts all
/// proofs, or rejects all of them. Useful wherever only the outcome of
/// the pairing check matters and its arithmetic does not, as when driving
/// the escrow logic through both outcomes of a gated transition.
pub struct FixedVerifier {
    /// The verdict this checker returns for every proof.
    pub verdict: bool,
}

impl ProofVerifier for FixedVerifier {
    open spec fn accepts(
        &self,
        proof_a: Seq<u8>,
        proof_b: Seq<u8>,
        proof_c: Seq<u8>,
        public_inputs: Seq<[u8; 32]>,
    ) -> bool {
        self.verdict
    }

    fn verify(
        &self,
        proof_a: &[u8; 64],
        proof_b: &[u8; 128],
        proof_c: &[u8; 64],
        public_inputs: &Vec<[u8; 32]>,
    ) -> (r: bool) {
        self.verdict
    }
}

} // verus!
