use vstd::prelude::*;
use crate::bytes::bytes_equal;
use crate::consensus::validator::Validator;

verus! {

/// What the stake manager records of a validator.
pub struct Stake {
    pub amount: u64,
    pub slashed: bool,
}

/// The records after `amount` was staked for `key`: a new validator starts
/// with it, a slashed one stays as it is, and any other has it added.
pub open spec fn with_stake_added(
    records: Map<Seq<u8>, Stake>,
    key: Seq<u8>,
    amount: u64,
) -> Map<Seq<u8>, Stake> {
    if !records.contains_key(key) {
        records.insert(key, Stake { amount, slashed: false })
    } else if records[key].slashed {
        records
    } else {
        records.insert(key, Stake { amount: (records[key].amount + amount) as u64, slashed: false })
    }
}

/// The records after the validator with `key` was slashed: it loses its
/// whole stake. An unknown key changes nothing.
pub open spec fn with_slashed(records: Map<Seq<u8>, Stake>, key: Seq<u8>) -> Map<Seq<u8>, Stake> {
    if records.contains_key(key) {
        records.insert(key, Stake { amount: 0, slashed: true })
    } else {
        records
    }
}

/// Whether `root` is the integer square root of `n`, rounded down.
pub open spec fn is_floor_sqrt(n: nat, root: nat) -> bool {
    root * root <= n < (root + 1) * (root + 1)
}

/// The voting power of a record: the square root of the stake, rounded down,
/// and nothing for a slashed validator.
pub open spec fn is_voting_power(stake: Stake, power: nat) -> bool {
    if stake.slashed {
        power == 0
    } else {
        is_floor_sqrt(stake.amount as nat, power)
    }
}

/// The integer square root of `n`, rounded down.
pub fn integer_sqrt(n: u64) -> (root: u64)
    ensures
        is_floor_sqrt(n as nat, root as nat),
{
    let mut low: u64 = 0;
    let mut high: u64 = 0x1_0000_0000;
    assert(n < high * high) by (nonlinear_arith)
        requires
            high == 0x1_0000_0000,
            n <= u64::MAX,
    ;
    while high - low > 1
        invariant
            low < high <= 0x1_0000_0000,
            low * low <= n < high * high,
        decreases high - low,
    {
        let mid = low + (high - low) / 2;
        assert(mid * mid <= 0xffff_ffff * 0xffff_ffff) by (nonlinear_arith)
            requires
                mid <= 0xffff_ffff,
        ;
        if mid * mid <= n {
            low = mid;
        } else {
            high = mid;
        }
    }
    low
}

/// The stake of each validator, by public key. A validator that was slashed
/// keeps its entry, with no stake.
pub struct StakeManager {
    validators: Vec<Validator>,
}

impl View for StakeManager {
    type V = Map<Seq<u8>, Stake>;

    closed spec fn view(&self) -> Map<Seq<u8>, Stake> {
        Map::new(
            |key: Seq<u8>| self.holds(key),
            |key: Seq<u8>|
                Stake {
                    amount: self.validators@[self.index_of(key)].stake,
                    slashed: self.validators@[self.index_of(key)].is_slashed,
                },
        )
    }
}

impl StakeManager {
    /// Well-formedness: no public key occurs twice.
    pub closed spec fn wf(self) -> bool {
        forall|i: int, j: int|
            0 <= i < j < self.validators@.len() ==> self.validators@[i].public_key@
                != self.validators@[j].public_key@
    }

    closed spec fn holds(self, key: Seq<u8>) -> bool {
        exists|i: int| 0 <= i < self.validators@.len() && self.validators@[i].public_key@ == key
    }

    closed spec fn index_of(self, key: Seq<u8>) -> int {
        choose|i: int| 0 <= i < self.validators@.len() && self.validators@[i].public_key@ == key
    }

    pub fn new() -> (manager: Self)
        ensures
            manager.wf(),
            manager@ == Map::<Seq<u8>, Stake>::empty(),
    {
        let manager = Self { validators: Vec::new() };
        assert(manager@ =~= Map::<Seq<u8>, Stake>::empty());
        manager
    }

    fn position(&self, public_key: &[u8]) -> (found: Option<usize>)
        requires
            self.wf(),
        ensures
            match found {
                Some(i) => i < self.validators@.len() && self.validators@[i as int].public_key@
                    == public_key@ && self.holds(public_key@) && self.index_of(public_key@) == i,
                None => !self.holds(public_key@),
            },
    {
        let mut i: usize = 0;
        while i < self.validators.len()
            invariant
                self.wf(),
                i <= self.validators@.len(),
                forall|k: int| 0 <= k < i ==> self.validators@[k].public_key@ != public_key@,
            decreases self.validators@.len() - i,
        {
            if bytes_equal(self.validators[i].public_key.as_slice(), public_key) {
                assert(self.validators@[i as int].public_key@ == public_key@);
                assert(self.holds(public_key@));
                return Some(i);
            }
            i += 1;
        }
        None
    }

    /// Adds `amount` to the stake of the validator with this key, which is
    /// entered with no stake first if it is new. The stake of a slashed
    /// validator stays as it is. The new stake must fit in a `u64`.
    pub fn add_stake(&mut self, public_key: Vec<u8>, amount: u64)
        requires
            old(self).wf(),
            old(self)@.contains_key(public_key@) && !old(self)@[public_key@].slashed
                ==> old(self)@[public_key@].amount + amount <= u64::MAX,
        ensures
            final(self).wf(),
            final(self)@ == with_stake_added(old(self)@, public_key@, amount),
    {
        match self.position(public_key.as_slice()) {
            Some(i) => {
                if !self.validators[i].is_slashed {
                    let stake = self.validators[i].stake + amount;
                    self.validators[i].stake = stake;
                    proof {
                        self.lemma_same_keys(*old(self));
                    }
                    assert(final(self)@ =~= old(self)@.insert(
                        public_key@,
                        Stake { amount: stake, slashed: false },
                    ));
                }
            },
            None => {
                let ghost key = public_key@;
                self.validators.push(Validator::new(public_key, amount));
                proof {
                    self.lemma_pushed(*old(self));
                }
                assert(final(self)@ =~= old(self)@.insert(
                    key,
                    Stake { amount, slashed: false },
                ));
            },
        }
    }

    /// Calculates voting power using a square root function to dampen whale
    /// influence: the square root of the stake, rounded down. A validator
    /// that is unknown or slashed has none.
    pub fn get_voting_power(&self, public_key: &[u8]) -> (power: u64)
        requires
            self.wf(),
        ensures
            self@.contains_key(public_key@) ==> is_voting_power(self@[public_key@], power as nat),
            !self@.contains_key(public_key@) ==> power == 0,
    {
        match self.position(public_key) {
            Some(i) => {
                if self.validators[i].is_slashed {
                    0
                } else {
                    integer_sqrt(self.validators[i].stake)
                }
            },
            None => 0,
        }
    }

    /// Takes the whole stake of the validator with this key and marks it as
    /// slashed. An unknown key changes nothing.
    pub fn slash(&mut self, public_key: &[u8])
        requires
            old(self).wf(),
        ensures
            final(self).wf(),
            final(self)@ == with_slashed(old(self)@, public_key@),
    {
        match self.position(public_key) {
            Some(i) => {
                self.validators[i].is_slashed = true;
                self.validators[i].stake = 0;
                proof {
                    self.lemma_same_keys(*old(self));
                }
                assert(final(self)@ =~= old(self)@.insert(
                    public_key@,
                    Stake { amount: 0, slashed: true },
                ));
            },
            None => {},
        }
    }

    /// The record of the validator with this key.
    pub fn validator(&self, public_key: &[u8]) -> (found: Option<&Validator>)
        requires
            self.wf(),
        ensures
            match found {
                Some(v) => self@.contains_key(public_key@) && v.public_key@ == public_key@
                    && v.stake == self@[public_key@].amount && v.is_slashed
                    == self@[public_key@].slashed,
                None => !self@.contains_key(public_key@),
            },
    {
        match self.position(public_key) {
            Some(i) => Some(&self.validators[i]),
            None => None,
        }
    }

    /// Two managers with the same keys in the same places find every key in
    /// the same place.
    proof fn lemma_same_keys(self, other: Self)
        requires
            self.wf(),
            other.wf(),
            self.validators@.len() == other.validators@.len(),
            forall|i: int|
                0 <= i < self.validators@.len() ==> self.validators@[i].public_key@
                    == other.validators@[i].public_key@,
        ensures
            forall|key: Seq<u8>| self.holds(key) == other.holds(key),
            forall|key: Seq<u8>| self.holds(key) ==> self.index_of(key) == other.index_of(key),
    {
        assert forall|key: Seq<u8>| self.holds(key) == other.holds(key) by {
            if self.holds(key) {
                let i = self.index_of(key);
                assert(other.validators@[i].public_key@ == key);
            }
            if other.holds(key) {
                let i = other.index_of(key);
                assert(self.validators@[i].public_key@ == key);
            }
        }
        assert forall|key: Seq<u8>| self.holds(key) implies self.index_of(key) == other.index_of(
            key,
        ) by {
            let i = self.index_of(key);
            assert(other.validators@[i].public_key@ == key);
            let j = other.index_of(key);
            assert(self.validators@[j].public_key@ == key);
        }
    }

    /// A manager that is `other` with one new key at the end finds the old
    /// keys where they were and the new one at the end.
    proof fn lemma_pushed(self, other: Self)
        requires
            self.wf(),
            other.wf(),
            self.validators@.len() == other.validators@.len() + 1,
            forall|i: int|
                0 <= i < other.validators@.len() ==> self.validators@[i] == other.validators@[i],
            !other.holds(self.validators@.last().public_key@),
        ensures
            forall|key: Seq<u8>|
                self.holds(key) == (other.holds(key) || key == self.validators@.last().public_key@),
            forall|key: Seq<u8>| other.holds(key) ==> self.index_of(key) == other.index_of(key),
            self.index_of(self.validators@.last().public_key@) == self.validators@.len() - 1,
    {
        let last = self.validators@.len() - 1;
        let new_key = self.validators@.last().public_key@;
        assert(self.validators@[last].public_key@ == new_key);
        assert forall|key: Seq<u8>|
            self.holds(key) == (other.holds(key) || key == new_key) by {
            if self.holds(key) {
                let i = self.index_of(key);
                if i < last {
                    assert(other.validators@[i].public_key@ == key);
                }
            }
            if other.holds(key) {
                let i = other.index_of(key);
                assert(self.validators@[i].public_key@ == key);
            }
        }
        assert forall|key: Seq<u8>| other.holds(key) implies self.index_of(key) == other.index_of(
            key,
        ) by {
            let i = other.index_of(key);
            assert(self.validators@[i].public_key@ == key);
        }
    }
}

impl Default for StakeManager {
    fn default() -> (manager: Self)
        ensures
            manager.wf(),
            manager@ == Map::<Seq<u8>, Stake>::empty(),
    {
        Self::new()
    }
}

} // verus!
