use vstd::prelude::*;

verus! {

#[derive(Debug, Clone, Copy, PartialEq, Eq, Structural)]
pub enum SystemContract {
    Staking,
    Governance,
    IdentityRegistry,
}

impl SystemContract {
    /// The contract at a one-byte address: 1 is staking, 2 governance,
    /// 3 the identity registry.
    pub open spec fn at(addr: Seq<u8>) -> Option<SystemContract> {
        if addr.len() != 1 {
            None
        } else if addr[0] == 1 {
            Some(SystemContract::Staking)
        } else if addr[0] == 2 {
            Some(SystemContract::Governance)
        } else if addr[0] == 3 {
            Some(SystemContract::IdentityRegistry)
        } else {
            None
        }
    }

    pub fn from_address(addr: &[u8]) -> (contract: Option<Self>)
        ensures
            contract == Self::at(addr@),
    {
        if addr.len() == 1 {
            match addr[0] {
                0x01 => Some(Self::Staking),
                0x02 => Some(Self::Governance),
                0x03 => Some(Self::IdentityRegistry),
                _ => None,
            }
        } else {
            None
        }
    }
}

} // verus!
