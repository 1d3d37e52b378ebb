use vstd::prelude::*;
use crate::vm::bytecode::{OpCode, Program};
use crate::vm::gas::{op_cost, GasError, GasMeter};

verus! {

#[derive(Debug, Clone, Copy, PartialEq, Eq, Structural)]
pub enum VMError {
    /// An operation needed more operands than the stack held.
    StackUnderflow,
    /// `DIV` with a zero divisor.
    DivisionByZero,
    /// A jump target outside the program.
    InvalidJump,
    /// A charge would have gone over the gas limit.
    GasError(GasError),
}

impl VMError {
    /// The text shown for this error.
    pub fn message(&self) -> (s: String)
        ensures
            s@ == match *self {
                VMError::StackUnderflow => "Stack underflow"@,
                VMError::DivisionByZero => "Division by zero"@,
                VMError::InvalidJump => "Invalid jump destination"@,
                VMError::GasError(_) => "Gas error: "@ + "Out of gas"@,
            },
    {
        match self {
            VMError::StackUnderflow => "Stack underflow".to_string(),
            VMError::DivisionByZero => "Division by zero".to_string(),
            VMError::InvalidJump => "Invalid jump destination".to_string(),
            VMError::GasError(e) => {
                let mut s = "Gas error: ".to_string();
                let inner = e.message();
                s.append(inner.as_str());
                s
            },
        }
    }
}

impl From<GasError> for VMError {
    fn from(e: GasError) -> (res: VMError) {
        VMError::GasError(e)
    }
}

impl vstd::std_specs::convert::FromSpecImpl<GasError> for VMError {
    open spec fn obeys_from_spec() -> bool {
        true
    }

    open spec fn from_spec(e: GasError) -> VMError {
        VMError::GasError(e)
    }
}

/// Size of the linear memory of every interpreter, in bytes.
pub const MEMORY_SIZE: usize = 1024;

/// The state of an interpreter: operand stack (top last), linear memory,
/// program counter and gas meter.
pub struct Machine {
    pub stack: Seq<u64>,
    pub memory: Seq<u8>,
    pub pc: nat,
    pub gas_limit: nat,
    pub gas_consumed: nat,
}

/// Where an invocation stands after a step.
pub enum Status {
    Running,
    /// Stopped normally, with the top of the stack if there was one.
    Halted(Option<u64>),
    Failed(VMError),
}

impl Status {
    /// What the caller of a finished invocation receives.
    pub open spec fn result(self) -> Result<Option<u64>, VMError> {
        match self {
            Status::Failed(e) => Err(e),
            Status::Halted(v) => Ok(v),
            Status::Running => Ok(None),
        }
    }
}

/// Reduction modulo 2^64.
pub open spec fn wrap(x: int) -> u64 {
    (x % 0x1_0000_0000_0000_0000) as u64
}

/// `a OP b` for the four arithmetic operations, `b` being the operand that
/// was on top of the stack. `DIV` is only evaluated with `b != 0`.
pub open spec fn arith(op: OpCode, a: u64, b: u64) -> u64 {
    match op {
        OpCode::ADD => wrap(a + b),
        OpCode::SUB => wrap(a - b),
        OpCode::MUL => wrap(a * b),
        _ => (a / b) as u64,
    }
}

impl Machine {
    /// A machine as `VM::new` makes it.
    pub open spec fn fresh(gas_limit: u64) -> Machine {
        Machine {
            stack: Seq::empty(),
            memory: Seq::new(MEMORY_SIZE as nat, |i: int| 0u8),
            pc: 0,
            gas_limit: gas_limit as nat,
            gas_consumed: 0,
        }
    }

    pub open spec fn top(self) -> Option<u64> {
        if self.stack.len() > 0 {
            Some(self.stack.last())
        } else {
            None
        }
    }

    pub open spec fn restart(self) -> Machine {
        Machine { pc: 0, ..self }
    }

    pub open spec fn charge(self, amount: nat) -> Machine {
        Machine { gas_consumed: self.gas_consumed + amount, ..self }
    }

    pub open spec fn with_stack(self, stack: Seq<u64>) -> Machine {
        Machine { stack, ..self }
    }

    pub open spec fn advance(self) -> Machine {
        Machine { pc: self.pc + 1, ..self }
    }

    pub open spec fn jump(self, dest: nat) -> Machine {
        Machine { pc: dest, ..self }
    }

    /// The same machine under another gas limit.
    pub open spec fn with_limit(self, limit: nat) -> Machine {
        Machine { gas_limit: limit, ..self }
    }

    /// The stack without its `n` topmost values (empty if it has fewer).
    pub open spec fn below(self, n: nat) -> Seq<u64> {
        if self.stack.len() >= n {
            self.stack.take(self.stack.len() - n)
        } else {
            Seq::empty()
        }
    }

    /// The value `depth` places under the top of the stack.
    pub open spec fn peek(self, depth: nat) -> u64 {
        self.stack[self.stack.len() - 1 - depth]
    }
}

/// The effect of `op` on a machine that has already paid for it, in a program
/// of `program_len` operations.
///
/// Operands leave the stack top first. A failure keeps what was popped before
/// it was found: a two-operand operation that finds fewer than two values
/// leaves the stack empty, and `DIV` by zero or a jump out of the program
/// leaves it without the operands. The program counter stays on the failed
/// operation. The reserved operations move on to the next operation and touch
/// neither stack nor memory.
pub open spec fn apply(op: OpCode, m: Machine, program_len: nat) -> (Machine, Status) {
    match op {
        OpCode::STOP => (m, Status::Halted(m.top())),
        OpCode::PUSH(v) => (m.with_stack(m.stack.push(v)).advance(), Status::Running),
        OpCode::POP => if m.stack.len() < 1 {
            (m, Status::Failed(VMError::StackUnderflow))
        } else {
            (m.with_stack(m.below(1)).advance(), Status::Running)
        },
        OpCode::ADD | OpCode::SUB | OpCode::MUL => if m.stack.len() < 2 {
            (m.with_stack(Seq::empty()), Status::Failed(VMError::StackUnderflow))
        } else {
            (
                m.with_stack(m.below(2).push(arith(op, m.peek(1), m.peek(0)))).advance(),
                Status::Running,
            )
        },
        OpCode::DIV => if m.stack.len() < 2 {
            (m.with_stack(Seq::empty()), Status::Failed(VMError::StackUnderflow))
        } else if m.peek(0) == 0 {
            (m.with_stack(m.below(2)), Status::Failed(VMError::DivisionByZero))
        } else {
            (
                m.with_stack(m.below(2).push(arith(op, m.peek(1), m.peek(0)))).advance(),
                Status::Running,
            )
        },
        OpCode::JUMP => if m.stack.len() < 1 {
            (m, Status::Failed(VMError::StackUnderflow))
        } else if m.peek(0) >= program_len {
            (m.with_stack(m.below(1)), Status::Failed(VMError::InvalidJump))
        } else {
            (m.with_stack(m.below(1)).jump(m.peek(0) as nat), Status::Running)
        },
        OpCode::JUMPI => if m.stack.len() < 2 {
            (m.with_stack(Seq::empty()), Status::Failed(VMError::StackUnderflow))
        } else if m.peek(1) == 0 {
            (m.with_stack(m.below(2)).advance(), Status::Running)
        } else if m.peek(0) >= program_len {
            (m.with_stack(m.below(2)), Status::Failed(VMError::InvalidJump))
        } else {
            (m.with_stack(m.below(2)).jump(m.peek(0) as nat), Status::Running)
        },
        OpCode::DUP | OpCode::SWAP | OpCode::LOAD | OpCode::STORE => (
            m.advance(),
            Status::Running,
        ),
    }
}

/// One round of the fetch-charge-execute protocol.
///
/// Past the last operation the machine halts with the top of its stack.
/// Otherwise the operation at `pc` is charged first; a charge that does not
/// fit fails with `OutOfGas` and leaves the machine exactly as it was.
pub open spec fn step(code: Seq<OpCode>, m: Machine) -> (Machine, Status) {
    if m.pc >= code.len() {
        (m, Status::Halted(m.top()))
    } else {
        let cost = op_cost(code[m.pc as int]);
        if m.gas_consumed + cost > m.gas_limit {
            (m, Status::Failed(VMError::GasError(GasError::OutOfGas)))
        } else {
            apply(code[m.pc as int], m.charge(cost), code.len())
        }
    }
}

/// The machine and status in which an invocation that starts in `m` ends.
/// Every step that goes on costs at least 2 gas, so this is well defined.
pub open spec fn run(code: Seq<OpCode>, m: Machine) -> (Machine, Status)
    decreases m.gas_limit - m.gas_consumed,
{
    let (next, status) = step(code, m);
    if status is Running {
        run(code, next)
    } else {
        (next, status)
    }
}

/// The state after `n` steps that all went on, if the invocation lasts so long.
pub open spec fn after_steps(code: Seq<OpCode>, m: Machine, n: nat) -> Option<Machine>
    decreases n,
{
    if n == 0 {
        Some(m)
    } else {
        let (next, status) = step(code, m);
        if status is Running {
            after_steps(code, next, (n - 1) as nat)
        } else {
            None
        }
    }
}

/// A step never lowers the gas consumed nor changes the limit; one that goes
/// on has paid at least 2 and stays within the limit.
pub proof fn lemma_step_gas(code: Seq<OpCode>, m: Machine)
    ensures
        step(code, m).0.gas_limit == m.gas_limit,
        step(code, m).0.gas_consumed >= m.gas_consumed,
        step(code, m).0.memory == m.memory,
        m.gas_consumed <= m.gas_limit ==> step(code, m).0.gas_consumed <= m.gas_limit,
        step(code, m).1 is Running ==> m.gas_consumed + 2 <= step(code, m).0.gas_consumed
            <= m.gas_limit,
{
}

/// An invocation never ends in the status `Running`.
pub proof fn lemma_run_finishes(code: Seq<OpCode>, m: Machine)
    ensures
        !(run(code, m).1 is Running),
    decreases m.gas_limit - m.gas_consumed,
{
    lemma_step_gas(code, m);
    let (next, status) = step(code, m);
    if status is Running {
        lemma_run_finishes(code, next);
    }
}

/// Unfolding of [`run`]: an invocation is its first step, followed by the
/// invocation from the state that step leads to if it goes on.
pub proof fn lemma_run_unfold(code: Seq<OpCode>, m: Machine)
    ensures
        run(code, m) == if step(code, m).1 is Running {
            run(code, step(code, m).0)
        } else {
            step(code, m)
        },
{
    lemma_step_gas(code, m);
}

/// Determinism: two interpreters that start in the same state and execute
/// the same program end in the same state with the same result. The result
/// depends on nothing but the program and the state at the start.
pub proof fn lemma_deterministic(code: Seq<OpCode>, first: Machine, second: Machine)
    requires
        first == second,
    ensures
        run(code, first.restart()) == run(code, second.restart()),
        run(code, first.restart()).1.result() == run(code, second.restart()).1.result(),
{
}

/// Gas monotonicity: over a whole invocation the gas consumed never goes
/// down, the limit never changes, and a meter that starts within its limit
/// stays within it. The linear memory stays as it is.
pub proof fn lemma_gas_monotone(code: Seq<OpCode>, m: Machine)
    ensures
        run(code, m).0.memory == m.memory,
        run(code, m).0.gas_limit == m.gas_limit,
        run(code, m).0.gas_consumed >= m.gas_consumed,
        m.gas_consumed <= m.gas_limit ==> run(code, m).0.gas_consumed <= m.gas_limit,
    decreases m.gas_limit - m.gas_consumed,
{
    lemma_step_gas(code, m);
    let (next, status) = step(code, m);
    if status is Running {
        lemma_gas_monotone(code, next);
    }
}

/// The gas consumed never goes down along the steps of an invocation either.
pub proof fn lemma_gas_monotone_steps(code: Seq<OpCode>, m: Machine, n: nat)
    requires
        after_steps(code, m, n) is Some,
    ensures
        after_steps(code, m, n)->0.gas_limit == m.gas_limit,
        after_steps(code, m, n)->0.gas_consumed >= m.gas_consumed,
        m.gas_consumed <= m.gas_limit ==> after_steps(code, m, n)->0.gas_consumed <= m.gas_limit,
    decreases n,
{
    if n > 0 {
        lemma_step_gas(code, m);
        lemma_gas_monotone_steps(code, step(code, m).0, (n - 1) as nat);
    }
}

/// An invocation that lasts `n` steps ends as the invocation from the state
/// after those steps does.
pub proof fn lemma_run_after_steps(code: Seq<OpCode>, m: Machine, n: nat)
    requires
        after_steps(code, m, n) is Some,
    ensures
        run(code, m) == run(code, after_steps(code, m, n)->0),
    decreases n,
{
    if n > 0 {
        lemma_run_unfold(code, m);
        lemma_run_after_steps(code, step(code, m).0, (n - 1) as nat);
    }
}

/// Gas exhaustion ordering: if the first `n` operations executed were all
/// paid for and went on, and the price of the operation reached then does
/// not fit in what is left, the invocation fails with `OutOfGas` at exactly
/// that operation: the machine is left as it was when it reached it.
pub proof fn lemma_out_of_gas_at(code: Seq<OpCode>, m: Machine, n: nat)
    requires
        after_steps(code, m, n) is Some,
        after_steps(code, m, n)->0.pc < code.len(),
        after_steps(code, m, n)->0.gas_consumed + op_cost(
            code[after_steps(code, m, n)->0.pc as int],
        ) > m.gas_limit,
    ensures
        run(code, m) == (
            after_steps(code, m, n)->0,
            Status::Failed(VMError::GasError(GasError::OutOfGas)),
        ),
{
    lemma_run_after_steps(code, m, n);
    lemma_gas_monotone_steps(code, m, n);
    lemma_run_unfold(code, after_steps(code, m, n)->0);
}

/// A step that goes on does the same under any gas limit that its charge
/// fits in.
pub proof fn lemma_step_any_limit(code: Seq<OpCode>, m: Machine, limit: nat)
    requires
        step(code, m).1 is Running,
        step(code, m).0.gas_consumed <= limit,
    ensures
        step(code, m.with_limit(limit)) == (step(code, m).0.with_limit(limit), Status::Running),
{
}

/// Steps that go on do the same under any gas limit that their charges fit
/// in together.
pub proof fn lemma_steps_any_limit(code: Seq<OpCode>, m: Machine, n: nat, limit: nat)
    requires
        after_steps(code, m, n) is Some,
        after_steps(code, m, n)->0.gas_consumed <= limit,
    ensures
        after_steps(code, m.with_limit(limit), n) == Some(
            after_steps(code, m, n)->0.with_limit(limit),
        ),
    decreases n,
{
    if n > 0 {
        let next = step(code, m).0;
        lemma_step_gas(code, m);
        lemma_gas_monotone_steps(code, next, (n - 1) as nat);
        lemma_step_any_limit(code, m, limit);
        lemma_steps_any_limit(code, next, (n - 1) as nat, limit);
    }
}

/// Gas exhaustion ordering, stated over budgets. Let the program, given
/// some budget, execute `n` operations that all go on and reach an
/// operation. If the gas consumed up to there, that operation excluded, is
/// within the limit of `m`, and the price of that operation would take it
/// over the limit, then the invocation from `m` fails with `OutOfGas` at
/// that operation, not earlier and not later: it ends in the state in which
/// the operation was reached.
pub proof fn lemma_out_of_gas_ordering(code: Seq<OpCode>, m: Machine, n: nat, budget: nat)
    requires
        after_steps(code, m.with_limit(budget), n) is Some,
        after_steps(code, m.with_limit(budget), n)->0.pc < code.len(),
        after_steps(code, m.with_limit(budget), n)->0.gas_consumed <= m.gas_limit,
        after_steps(code, m.with_limit(budget), n)->0.gas_consumed + op_cost(
            code[after_steps(code, m.with_limit(budget), n)->0.pc as int],
        ) > m.gas_limit,
    ensures
        run(code, m) == (
            after_steps(code, m.with_limit(budget), n)->0.with_limit(m.gas_limit),
            Status::Failed(VMError::GasError(GasError::OutOfGas)),
        ),
{
    lemma_steps_any_limit(code, m.with_limit(budget), n, m.gas_limit);
    assert(m.with_limit(budget).with_limit(m.gas_limit) == m);
    lemma_out_of_gas_at(code, m, n);
}

/// The converse: an invocation fails with `OutOfGas` only at an operation
/// whose price does not fit in what is left.
pub proof fn lemma_out_of_gas_only_at(code: Seq<OpCode>, m: Machine)
    requires
        run(code, m).1 == Status::Failed(VMError::GasError(GasError::OutOfGas)),
    ensures
        run(code, m).0.pc < code.len(),
        run(code, m).0.gas_consumed + op_cost(code[run(code, m).0.pc as int]) > m.gas_limit,
    decreases m.gas_limit - m.gas_consumed,
{
    lemma_step_gas(code, m);
    let (next, status) = step(code, m);
    if status is Running {
        lemma_out_of_gas_only_at(code, next);
    }
}

/// An interpreter for one invocation: operand stack, 1 KiB of linear memory,
/// program counter and gas meter.
pub struct VM {
    stack: Vec<u64>,
    memory: Vec<u8>,
    pc: usize,
    gas_meter: GasMeter,
}

impl View for VM {
    type V = Machine;

    closed spec fn view(&self) -> Machine {
        Machine {
            stack: self.stack@,
            memory: self.memory@,
            pc: self.pc as nat,
            gas_limit: self.gas_meter.limit as nat,
            gas_consumed: self.gas_meter.consumed as nat,
        }
    }
}

/// Pops the two topmost values, the top one second in the pair. With fewer
/// than two values the stack is emptied and nothing is returned.
fn pop_two(stack: &mut Vec<u64>) -> (r: Option<(u64, u64)>)
    ensures
        old(stack)@.len() >= 2 ==> r == Some(
            (old(stack)@[old(stack)@.len() - 2], old(stack)@[old(stack)@.len() - 1]),
        ) && final(stack)@ == old(stack)@.take(old(stack)@.len() - 2),
        old(stack)@.len() < 2 ==> r is None && final(stack)@ == Seq::<u64>::empty(),
{
    match stack.pop() {
        None => None,
        Some(b) => match stack.pop() {
            None => None,
            Some(a) => Some((a, b)),
        },
    }
}

impl VM {
    /// A fresh interpreter: empty stack, zeroed memory, program counter 0
    /// and nothing consumed of `gas_limit`.
    pub fn new(gas_limit: u64) -> (vm: Self)
        ensures
            vm@ == Machine::fresh(gas_limit),
    {
        let vm = Self {
            stack: Vec::with_capacity(1024),
            memory: vec![0u8; MEMORY_SIZE],
            pc: 0,
            gas_meter: GasMeter::new(gas_limit),
        };
        assert(vm.memory@ =~= Seq::new(MEMORY_SIZE as nat, |i: int| 0u8));
        vm
    }

    /// The gas charged so far.
    pub fn gas_consumed(&self) -> (g: u64)
        ensures
            g == self@.gas_consumed,
    {
        self.gas_meter.consumed
    }

    /// The gas limit this interpreter was made with.
    pub fn gas_limit(&self) -> (g: u64)
        ensures
            g == self@.gas_limit,
    {
        self.gas_meter.limit
    }

    /// The operand stack, top last.
    pub fn stack(&self) -> (s: &Vec<u64>)
        ensures
            s@ == self@.stack,
    {
        &self.stack
    }

    /// The index of the operation at which the last invocation stopped.
    pub fn pc(&self) -> (pc: usize)
        ensures
            pc == self@.pc,
    {
        self.pc
    }

    /// Runs `program` from its first operation until it halts or fails, and
    /// returns the top of the stack or the error. Stack, memory and gas
    /// consumed carry over from the state the interpreter is in; for a fresh
    /// interpreter that state is `Machine::fresh(gas_limit)`.
    pub fn execute(&mut self, program: &Program) -> (res: Result<Option<u64>, VMError>)
        ensures
            final(self)@ == run(program@, old(self)@.restart()).0,
            res == run(program@, old(self)@.restart()).1.result(),
            final(self)@.memory == old(self)@.memory,
            final(self)@.gas_limit == old(self)@.gas_limit,
            final(self)@.gas_consumed >= old(self)@.gas_consumed,
            old(self)@.gas_consumed <= old(self)@.gas_limit ==> final(self)@.gas_consumed
                <= old(self)@.gas_limit,
    {
        self.pc = 0;
        let ghost goal = run(program@, old(self)@.restart());
        proof {
            lemma_gas_monotone(program@, old(self)@.restart());
        }
        loop
            invariant
                goal == run(program@, old(self)@.restart()),
                run(program@, self@) == goal,
                goal.0.memory == old(self)@.memory,
                goal.0.gas_limit == old(self)@.gas_limit,
                goal.0.gas_consumed >= old(self)@.gas_consumed,
                old(self)@.gas_consumed <= old(self)@.gas_limit ==> goal.0.gas_consumed
                    <= old(self)@.gas_limit,
            decreases self.gas_meter.limit - self.gas_meter.consumed,
        {
            proof {
                lemma_run_unfold(program@, self@);
                lemma_step_gas(program@, self@);
            }
            let ghost before = self@;
            if self.pc >= program.code.len() {
                return Ok(self.top());
            }
            let op = program.code[self.pc];
            let cost = self.gas_meter.cost(op);
            match self.gas_meter.consume(cost) {
                Err(e) => {
                    return Err(VMError::from(e));
                },
                Ok(()) => {},
            }
            let ghost paid = before.charge(op_cost(op));
            assert(self@ == paid);
            match op {
                OpCode::STOP => {
                    return Ok(self.top());
                },
                OpCode::PUSH(val) => {
                    self.stack.push(val);
                },
                OpCode::POP => {
                    if self.stack.pop().is_none() {
                        return Err(VMError::StackUnderflow);
                    }
                },
                OpCode::ADD => {
                    match pop_two(&mut self.stack) {
                        None => {
                            return Err(VMError::StackUnderflow);
                        },
                        Some((a, b)) => {
                            self.stack.push(a.wrapping_add(b));
                        },
                    }
                },
                OpCode::SUB => {
                    match pop_two(&mut self.stack) {
                        None => {
                            return Err(VMError::StackUnderflow);
                        },
                        Some((a, b)) => {
                            self.stack.push(a.wrapping_sub(b));
                        },
                    }
                },
                OpCode::MUL => {
                    match pop_two(&mut self.stack) {
                        None => {
                            return Err(VMError::StackUnderflow);
                        },
                        Some((a, b)) => {
                            self.stack.push(a.wrapping_mul(b));
                        },
                    }
                },
                OpCode::DIV => {
                    match pop_two(&mut self.stack) {
                        None => {
                            return Err(VMError::StackUnderflow);
                        },
                        Some((a, b)) => {
                            if b == 0 {
                                return Err(VMError::DivisionByZero);
                            }
                            self.stack.push(a / b);
                        },
                    }
                },
                OpCode::JUMP => {
                    match self.stack.pop() {
                        None => {
                            return Err(VMError::StackUnderflow);
                        },
                        Some(dest) => {
                            if dest >= program.code.len() as u64 {
                                return Err(VMError::InvalidJump);
                            }
                            self.pc = dest as usize;
                            continue ;
                        },
                    }
                },
                OpCode::JUMPI => {
                    match pop_two(&mut self.stack) {
                        None => {
                            return Err(VMError::StackUnderflow);
                        },
                        Some((condition, dest)) => {
                            if condition != 0 {
                                if dest >= program.code.len() as u64 {
                                    return Err(VMError::InvalidJump);
                                }
                                self.pc = dest as usize;
                                continue ;
                            }
                        },
                    }
                },
                OpCode::DUP | OpCode::SWAP | OpCode::LOAD | OpCode::STORE => {},
            }
            self.pc += 1;
        }
    }

    fn top(&self) -> (t: Option<u64>)
        ensures
            t == self@.top(),
    {
        if self.stack.len() > 0 {
            Some(self.stack[self.stack.len() - 1])
        } else {
            None
        }
    }
}

} // verus!
