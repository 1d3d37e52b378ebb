use vstd::prelude::*;

verus! {

#[derive(Debug, Clone, PartialEq, Eq, Structural)]
pub enum Misbehavior {
    DoubleSign,
    /// With the number of blocks missed.
    Downtime(u64),
}

pub struct SlashingManager {
    pub double_sign_penalty_percent: u8,
    /// A flat amount for each block missed.
    pub downtime_penalty_per_block: u64,
}

impl SlashingManager {
    /// The penalty for a misbehavior of a validator with this stake.
    ///
    /// For a double signature it is the configured percentage of the stake,
    /// rounded down and reduced modulo 2^64 (which only matters for a
    /// percentage above 100). For downtime it is the flat amount for each
    /// block missed.
    pub open spec fn penalty(self, misbehavior: Misbehavior, stake: u64) -> int {
        match misbehavior {
            Misbehavior::DoubleSign => (stake * self.double_sign_penalty_percent / 100)
                % 0x1_0000_0000_0000_0000,
            Misbehavior::Downtime(blocks_missed) => blocks_missed * self.downtime_penalty_per_block,
        }
    }

    pub fn new(double_sign_penalty_percent: u8, downtime_penalty_per_block: u64) -> (manager: Self)
        ensures
            manager.double_sign_penalty_percent == double_sign_penalty_percent,
            manager.downtime_penalty_per_block == downtime_penalty_per_block,
    {
        Self { double_sign_penalty_percent, downtime_penalty_per_block }
    }

    /// Computes [`SlashingManager::penalty`]. A penalty for downtime must
    /// fit in a `u64`.
    pub fn calculate_penalty(&self, misbehavior: Misbehavior, stake: u64) -> (penalty: u64)
        requires
            misbehavior matches Misbehavior::Downtime(blocks_missed) ==> blocks_missed
                * self.downtime_penalty_per_block <= u64::MAX,
        ensures
            penalty == self.penalty(misbehavior, stake),
            misbehavior is DoubleSign && self.double_sign_penalty_percent <= 100 ==> penalty
                == stake * self.double_sign_penalty_percent / 100,
    {
        match misbehavior {
            Misbehavior::DoubleSign => {
                let percent = self.double_sign_penalty_percent;
                assert(stake * percent <= 0xffff_ffff_ffff_ffff * 255) by (nonlinear_arith)
                    requires
                        stake <= 0xffff_ffff_ffff_ffff,
                        percent <= 255,
                ;
                assert(percent <= 100 ==> stake * percent / 100 <= stake) by (nonlinear_arith)
                    requires
                        stake >= 0,
                        percent >= 0,
                ;
                let product: u128 = stake as u128 * percent as u128;
                let penalty: u128 = product / 100;
                let truncated = #[verifier::truncate] (penalty as u64);
                assert(truncated == penalty % 0x1_0000_0000_0000_0000) by (bit_vector)
                    requires
                        truncated == #[verifier::truncate] (penalty as u64),
                ;
                truncated
            },
            Misbehavior::Downtime(blocks_missed) => blocks_missed * self.downtime_penalty_per_block,
        }
    }
}

} // verus!
