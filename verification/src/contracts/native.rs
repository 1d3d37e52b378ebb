use vstd::prelude::*;
use crate::contracts::registry::SystemContract;
use crate::storage::state_compliance::AccountState;

verus! {

/// The action byte that asks the staking contract to stake.
pub const STAKE_ACTION: u8 = 0x01;

/// The reply of the staking contract to a stake: the bytes of `Staked`.
pub open spec fn staked_reply() -> Seq<u8> {
    seq![0x53u8, 0x74u8, 0x61u8, 0x6bu8, 0x65u8, 0x64u8]
}

/// The reply of a contract that does nothing: the bytes of `NoOp`.
pub open spec fn noop_reply() -> Seq<u8> {
    seq![0x4eu8, 0x6fu8, 0x4fu8, 0x70u8]
}

/// Whether `input` asks the staking contract to stake.
pub open spec fn is_stake_request(input: Seq<u8>) -> bool {
    input.len() >= 1 && input[0] == STAKE_ACTION
}

/// Execution of system contracts in native code.
pub trait NativeExecution {
    /// The calls that an executor can take.
    spec fn admits(&self, contract: SystemContract, input: Seq<u8>, state: AccountState) -> bool;

    fn execute(
        &self,
        contract: SystemContract,
        input: &[u8],
        state: &mut AccountState,
    ) -> (res: Result<Vec<u8>, String>)
        requires
            self.admits(contract, input@, *old(state)),
    ;
}

pub struct NativeExecutor;

impl NativeExecutor {
    pub fn new() -> (executor: Self) {
        Self
    }
}

impl NativeExecution for NativeExecutor {
    /// A stake bumps the nonce of the account, so the nonce must have room.
    open spec fn admits(
        &self,
        contract: SystemContract,
        input: Seq<u8>,
        state: AccountState,
    ) -> bool {
        contract is Staking && is_stake_request(input) ==> state.nonce < u64::MAX
    }

    /// The staking contract answers a stake request with `Staked` and bumps
    /// the nonce of the account; it refuses any other input. The other
    /// contracts answer `NoOp`. Nothing else of the account changes.
    fn execute(
        &self,
        contract: SystemContract,
        input: &[u8],
        state: &mut AccountState,
    ) -> (res: Result<Vec<u8>, String>)
        ensures
            final(state).balance == old(state).balance,
            final(state).last_rent_paid_epoch == old(state).last_rent_paid_epoch,
            final(state).code_hash == old(state).code_hash,
            final(state).storage_root == old(state).storage_root,
            contract is Staking && is_stake_request(input@) ==> ({
                &&& final(state).nonce == old(state).nonce + 1
                &&& res matches Ok(reply) && reply@ == staked_reply()
            }),
            contract is Staking && !is_stake_request(input@) ==> ({
                &&& final(state).nonce == old(state).nonce
                &&& res matches Err(reason) && reason@ == "Invalid staking input"@
            }),
            !(contract is Staking) ==> ({
                &&& final(state).nonce == old(state).nonce
                &&& res matches Ok(reply) && reply@ == noop_reply()
            }),
    {
        match contract {
            SystemContract::Staking => {
                if input.len() >= 1 && input[0] == STAKE_ACTION {
                    state.nonce += 1;
                    let reply: Vec<u8> = vec![0x53u8, 0x74u8, 0x61u8, 0x6bu8, 0x65u8, 0x64u8];
                    assert(reply@ =~= staked_reply());
                    Ok(reply)
                } else {
                    Err("Invalid staking input".to_string())
                }
            },
            _ => {
                let reply: Vec<u8> = vec![0x4eu8, 0x6fu8, 0x4fu8, 0x70u8];
                assert(reply@ =~= noop_reply());
                Ok(reply)
            },
        }
    }
}

} // verus!
