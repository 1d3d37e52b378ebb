use vstd::prelude::*;

verus! {

pub trait PrivacyProver {
    fn generate_proof(&self, secret: &[u8], public_inputs: &[u8]) -> Vec<u8>;

    fn verify_proof(proof: &[u8], public_inputs: &[u8]) -> bool;
}

/// The one proof that the mock prover makes and accepts.
pub open spec fn mock_proof() -> Seq<u8> {
    seq![0xdeu8, 0xadu8, 0xbeu8, 0xefu8]
}

pub struct MockZkProver;

impl PrivacyProver for MockZkProver {
    /// Always the mock proof, whatever the inputs.
    fn generate_proof(&self, _secret: &[u8], _public_inputs: &[u8]) -> (proof: Vec<u8>)
        ensures
            proof@ == mock_proof(),
    {
        let proof: Vec<u8> = vec![0xdeu8, 0xadu8, 0xbeu8, 0xefu8];
        assert(proof@ =~= mock_proof());
        proof
    }

    /// Accepts the mock proof and nothing else.
    fn verify_proof(proof: &[u8], _public_inputs: &[u8]) -> (ok: bool)
        ensures
            ok == (proof@ == mock_proof()),
    {
        let ok = proof.len() == 4 && proof[0] == 0xde && proof[1] == 0xad && proof[2] == 0xbe
            && proof[3] == 0xef;
        if ok {
            assert(proof@ =~= mock_proof());
        }
        ok
    }
}

} // verus!
