use vstd::prelude::*;

verus! {

/// Body of a request that adds a public key to a user.
#[derive(Debug, Clone)]
pub struct AddPublicKeyRequest {
    /// Hex-encoded public key
    pub public_key: String,
}

} // verus!
