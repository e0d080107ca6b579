use vstd::prelude::*;

verus! {

/// Body of a password login request.
#[derive(Debug, Clone)]
pub struct LoginRequest {
    pub email: String,
    pub password: String,
}

} // verus!
