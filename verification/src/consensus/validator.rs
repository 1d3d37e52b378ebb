use vstd::prelude::*;

verus! {

#[derive(Debug, Clone, PartialEq, Eq)]
pub struct Validator {
    pub public_key: Vec<u8>,
    pub stake: u64,
    pub is_slashed: bool,
}

impl Validator {
    pub fn new(public_key: Vec<u8>, stake: u64) -> (validator: Self)
        ensures
            validator.public_key == public_key,
            validator.stake == stake,
            !validator.is_slashed,
    {
        Self { public_key, stake, is_slashed: false }
    }
}

} // verus!
