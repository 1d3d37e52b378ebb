use vstd::prelude::*;

verus! {

#[derive(Debug, Clone)]
pub struct AccountState {
    pub balance: u64,
    pub nonce: u64,
    pub last_rent_paid_epoch: u64,
    /// Digest of the code of a contract account.
    pub code_hash: Vec<u8>,
    /// Root of the storage of a contract account.
    pub storage_root: Vec<u8>,
}

impl AccountState {
    /// The rent owed at `current_epoch`: the epochs since rent was last paid,
    /// times the rent of one epoch. Nothing is owed up to the epoch of the
    /// last payment.
    pub open spec fn rent_due(self, current_epoch: u64, rent_per_epoch: u64) -> int {
        if current_epoch <= self.last_rent_paid_epoch {
            0
        } else {
            (current_epoch - self.last_rent_paid_epoch) * rent_per_epoch
        }
    }

    /// Whether the account lives on at `current_epoch`: nothing is owed yet,
    /// or the balance covers the rent with something to spare.
    pub open spec fn survives(self, current_epoch: u64, rent_per_epoch: u64) -> bool {
        current_epoch <= self.last_rent_paid_epoch || self.rent_due(current_epoch, rent_per_epoch)
            < self.balance
    }

    pub fn new(balance: u64, nonce: u64, current_epoch: u64) -> (account: Self)
        ensures
            account.balance == balance,
            account.nonce == nonce,
            account.last_rent_paid_epoch == current_epoch,
            account.code_hash@ == Seq::<u8>::empty(),
            account.storage_root@ == Seq::<u8>::empty(),
    {
        Self {
            balance,
            nonce,
            last_rent_paid_epoch: current_epoch,
            code_hash: Vec::new(),
            storage_root: Vec::new(),
        }
    }

    /// Deducts the rent for the epochs since it was last paid and says
    /// whether the account lives on.
    ///
    /// An account that survives pays the rent owed, and has then paid up to
    /// `current_epoch` if that is later than its last payment. An account
    /// that does not is to be pruned: its balance drops to zero and the epoch
    /// of the last payment stays.
    ///
    /// The rent owed must fit in a `u64`.
    pub fn apply_rent(&mut self, current_epoch: u64, rent_per_epoch: u64) -> (alive: bool)
        requires
            old(self).rent_due(current_epoch, rent_per_epoch) <= u64::MAX,
        ensures
            alive == old(self).survives(current_epoch, rent_per_epoch),
            final(self).balance == if alive {
                old(self).balance - old(self).rent_due(current_epoch, rent_per_epoch)
            } else {
                0
            },
            final(self).last_rent_paid_epoch == if alive {
                vstd::math::max(current_epoch as int, old(self).last_rent_paid_epoch as int)
            } else {
                old(self).last_rent_paid_epoch as int
            },
            final(self).nonce == old(self).nonce,
            final(self).code_hash == old(self).code_hash,
            final(self).storage_root == old(self).storage_root,
    {
        if current_epoch <= self.last_rent_paid_epoch {
            return true;
        }
        let epochs_passed = current_epoch - self.last_rent_paid_epoch;
        let total_rent = epochs_passed * rent_per_epoch;
        if total_rent >= self.balance {
            self.balance = 0;
            false
        } else {
            self.balance -= total_rent;
            self.last_rent_paid_epoch = current_epoch;
            true
        }
    }
}

} // verus!
