use vstd::prelude::*;
use crate::vm::bytecode::OpCode;

verus! {

#[derive(Debug, Clone, Copy, PartialEq, Eq, Structural)]
pub enum GasError {
    OutOfGas,
}

impl GasError {
    /// The text shown for this error.
    pub fn message(&self) -> (s: String)
        ensures
            s@ == "Out of gas"@,
    {
        "Out of gas".to_string()
    }
}

/// The fixed price of each operation kind. It depends on neither the
/// literal of a `PUSH` nor the state of the machine.
pub open spec fn op_cost(op: OpCode) -> nat {
    match op {
        OpCode::STOP => 0,
        OpCode::ADD => 3,
        OpCode::SUB => 3,
        OpCode::MUL => 5,
        OpCode::DIV => 5,
        OpCode::PUSH(_) => 2,
        OpCode::POP => 2,
        OpCode::DUP => 3,
        OpCode::SWAP => 3,
        OpCode::LOAD => 10,
        OpCode::STORE => 10,
        OpCode::JUMP => 8,
        OpCode::JUMPI => 10,
    }
}

/// Counts the gas consumed against a fixed limit.
pub struct GasMeter {
    pub limit: u64,
    pub consumed: u64,
}

impl GasMeter {
    /// Whether a charge of `amount` fits in what is left of the budget.
    pub open spec fn can_afford(&self, amount: nat) -> bool {
        self.consumed + amount <= self.limit
    }

    /// A meter that has consumed nothing of its limit.
    pub fn new(limit: u64) -> (meter: Self)
        ensures
            meter.limit == limit,
            meter.consumed == 0,
    {
        Self { limit, consumed: 0 }
    }

    /// Charges `amount` if it fits in the budget and refuses it otherwise.
    /// A refused charge leaves the meter as it was.
    pub fn consume(&mut self, amount: u64) -> (res: Result<(), GasError>)
        ensures
            final(self).limit == old(self).limit,
            final(self).consumed >= old(self).consumed,
            old(self).can_afford(amount as nat) ==> res == Ok::<(), GasError>(())
                && final(self).consumed == old(self).consumed + amount
                && final(self).consumed <= final(self).limit,
            !old(self).can_afford(amount as nat) ==> res == Err::<(), GasError>(GasError::OutOfGas)
                && final(self).consumed == old(self).consumed,
    {
        if self.consumed > self.limit || amount > self.limit - self.consumed {
            return Err(GasError::OutOfGas);
        }
        self.consumed += amount;
        Ok(())
    }

    /// The price of an operation, by the table [`op_cost`]. It does not
    /// depend on the state of the meter.
    pub fn cost(&self, op: OpCode) -> (c: u64)
        ensures
            c == op_cost(op),
    {
        match op {
            OpCode::STOP => 0,
            OpCode::ADD => 3,
            OpCode::SUB => 3,
            OpCode::MUL => 5,
            OpCode::DIV => 5,
            OpCode::PUSH(_) => 2,
            OpCode::POP => 2,
            OpCode::DUP => 3,
            OpCode::SWAP => 3,
            OpCode::LOAD => 10,
            OpCode::STORE => 10,
            OpCode::JUMP => 8,
            OpCode::JUMPI => 10,
        }
    }
}

} // verus!
