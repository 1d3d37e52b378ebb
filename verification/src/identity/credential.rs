use vstd::prelude::*;

verus! {

#[derive(Debug, Clone)]
pub struct VerifiableCredential {
    pub id: String,
    /// DID of the issuer.
    pub issuer: String,
    /// DID of the subject.
    pub subject: String,
    /// The claims, as JSON text.
    pub claims: String,
    /// Signature of the issuer.
    pub proof: Vec<u8>,
}

impl VerifiableCredential {
    pub fn new(id: String, issuer: String, subject: String, claims: String, proof: Vec<u8>) -> (vc:
        Self)
        ensures
            vc.id == id,
            vc.issuer == issuer,
            vc.subject == subject,
            vc.claims == claims,
            vc.proof == proof,
    {
        Self { id, issuer, subject, claims, proof }
    }

    /// Accepts a credential that carries a proof when a key of the issuer is
    /// given: neither may be empty.
    pub fn verify(&self, issuer_public_key: &[u8]) -> (ok: bool)
        ensures
            ok == (self.proof@.len() > 0 && issuer_public_key@.len() > 0),
    {
        self.proof.len() > 0 && issuer_public_key.len() > 0
    }
}

} // verus!
