use vstd::prelude::*;
use crate::ledger::block::Block;

verus! {

/// The weight of a chain of `length` blocks: ten for each block.
pub open spec fn chain_weight(length: nat) -> nat {
    length * 10
}

/// Whether chain `i` is the one that the heaviest-chain rule selects: it
/// has weight, no chain is heavier, and every chain before it is lighter.
pub open spec fn is_heaviest(chains: Seq<Vec<Block>>, i: int) -> bool {
    &&& 0 <= i < chains.len()
    &&& chain_weight(chains[i]@.len()) > 0
    &&& forall|j: int|
        0 <= j < chains.len() ==> chain_weight(#[trigger] chains[j]@.len()) <= chain_weight(
            chains[i]@.len(),
        )
    &&& forall|j: int|
        0 <= j < i ==> chain_weight(#[trigger] chains[j]@.len()) < chain_weight(chains[i]@.len())
}

/// A rule that picks the chain to follow among competing ones.
pub trait ForkChoice {
    /// The lists of chains that a rule can take.
    spec fn admits(&self, chains: Seq<Vec<Block>>) -> bool;

    fn select_best_chain<'a>(&self, chains: &'a [Vec<Block>]) -> (best: Option<&'a Vec<Block>>)
        requires
            self.admits(chains@),
    ;
}

pub struct HeaviestChainRule;

impl HeaviestChainRule {
    pub fn new() -> (rule: Self) {
        Self
    }

    /// The weight of a chain, which must fit in a `u64`.
    pub fn calculate_chain_weight(&self, chain: &[Block]) -> (weight: u64)
        requires
            chain_weight(chain@.len()) <= u64::MAX,
        ensures
            weight == chain_weight(chain@.len()),
    {
        (chain.len() as u64) * 10
    }
}

impl ForkChoice for HeaviestChainRule {
    /// The weight of every chain must fit in a `u64`.
    open spec fn admits(&self, chains: Seq<Vec<Block>>) -> bool {
        forall|i: int|
            0 <= i < chains.len() ==> chain_weight(#[trigger] chains[i]@.len()) <= u64::MAX
    }

    /// The first of the heaviest chains, or nothing if no chain has a block.
    fn select_best_chain<'a>(&self, chains: &'a [Vec<Block>]) -> (best: Option<&'a Vec<Block>>)
        ensures
            match best {
                Some(chain) => exists|i: int| is_heaviest(chains@, i) && *chain == chains@[i],
                None => forall|i: int|
                    0 <= i < chains@.len() ==> (#[trigger] chains@[i])@.len() == 0,
            },
    {
        let mut best_chain: Option<&'a Vec<Block>> = None;
        let mut max_weight: u64 = 0;
        let ghost mut best_index: int = 0;
        let mut k: usize = 0;
        while k < chains.len()
            invariant
                self.admits(chains@),
                k <= chains@.len(),
                forall|j: int|
                    0 <= j < k ==> chain_weight(#[trigger] chains@[j]@.len()) <= max_weight,
                match best_chain {
                    Some(chain) => 0 <= best_index < k && *chain == chains@[best_index]
                        && max_weight == chain_weight(chains@[best_index]@.len()) && max_weight > 0
                        && forall|j: int|
                        0 <= j < best_index ==> chain_weight(#[trigger] chains@[j]@.len())
                            < max_weight,
                    None => max_weight == 0,
                },
            decreases chains@.len() - k,
        {
            let chain = &chains[k];
            let weight = self.calculate_chain_weight(chain.as_slice());
            if weight > max_weight {
                max_weight = weight;
                best_chain = Some(chain);
                proof {
                    best_index = k as int;
                }
            }
            k += 1;
        }
        proof {
            if best_chain is Some {
                assert(is_heaviest(chains@, best_index));
            }
        }
        best_chain
    }
}

} // verus!
