use vajra::vm::bytecode::{OpCode, Program};
use vajra::vm::gas::{GasError, GasMeter};
use vajra::vm::interpreter::{VMError, VM};

fn program(code: Vec<OpCode>) -> Program {
    Program { code }
}

#[test]
fn test_arithmetic() {
    let mut vm = VM::new(100);
    let prog = Program {
        code: vec![
            OpCode::PUSH(10),
            OpCode::PUSH(20),
            OpCode::ADD,
            OpCode::STOP,
        ],
    };
    let res = vm.execute(&prog).unwrap();
    assert_eq!(res, Some(30));
}

#[test]
fn test_gas_limit() {
    let mut vm = VM::new(5); // Not enough gas
    let prog = Program {
        code: vec![
            OpCode::PUSH(10),
            OpCode::PUSH(20),
            OpCode::ADD, // Cost 3 + 2 + 2 = 7 > 5
        ],
    };
    let res = vm.execute(&prog);
    assert_eq!(res, Err(VMError::GasError(GasError::OutOfGas)));
}

#[test]
fn test_jump() {
    let mut vm = VM::new(100);
    let prog = Program {
        code: vec![
            OpCode::PUSH(4), // Jump dest index
            OpCode::JUMP,
            OpCode::PUSH(999), // Should skip this
            OpCode::STOP,      // PC 3
            OpCode::PUSH(42),  // PC 4 (Dest)
            OpCode::STOP,
        ],
    };
    let res = vm.execute(&prog).unwrap();
    assert_eq!(res, Some(42));
}

#[test]
fn jump_skips_the_operations_in_between() {
    let mut vm = VM::new(100);
    let prog = program(vec![
        OpCode::PUSH(4),
        OpCode::JUMP,
        OpCode::PUSH(999),
        OpCode::STOP,
        OpCode::PUSH(42),
        OpCode::STOP,
    ]);
    assert_eq!(vm.execute(&prog), Ok(Some(42)));
    assert_eq!(vm.stack(), &vec![42]);
    assert_eq!(vm.pc(), 5);
    // PUSH 2 + JUMP 8 + PUSH 2 + STOP 0
    assert_eq!(vm.gas_consumed(), 12);
}

#[test]
fn fresh_interpreter_has_consumed_nothing() {
    let vm = VM::new(77);
    assert_eq!(vm.gas_limit(), 77);
    assert_eq!(vm.gas_consumed(), 0);
    assert_eq!(vm.pc(), 0);
    assert!(vm.stack().is_empty());
}

#[test]
fn addition_wraps_around() {
    let mut vm = VM::new(100);
    let prog = program(vec![OpCode::PUSH(u64::MAX), OpCode::PUSH(1), OpCode::ADD, OpCode::STOP]);
    assert_eq!(vm.execute(&prog), Ok(Some(0)));
}

#[test]
fn subtraction_wraps_around() {
    let mut vm = VM::new(100);
    let prog = program(vec![OpCode::PUSH(3), OpCode::PUSH(5), OpCode::SUB, OpCode::STOP]);
    assert_eq!(vm.execute(&prog), Ok(Some(u64::MAX - 1)));
}

#[test]
fn subtraction_takes_the_top_from_the_value_below() {
    let mut vm = VM::new(100);
    let prog = program(vec![OpCode::PUSH(50), OpCode::PUSH(8), OpCode::SUB, OpCode::STOP]);
    assert_eq!(vm.execute(&prog), Ok(Some(42)));
}

#[test]
fn multiplication_wraps_around() {
    let mut vm = VM::new(100);
    let prog = program(vec![
        OpCode::PUSH(1 << 63),
        OpCode::PUSH(6),
        OpCode::MUL,
        OpCode::STOP,
    ]);
    assert_eq!(vm.execute(&prog), Ok(Some(0)));
    let mut vm = VM::new(100);
    let prog = program(vec![OpCode::PUSH(u64::MAX), OpCode::PUSH(3), OpCode::MUL]);
    assert_eq!(vm.execute(&prog), Ok(Some(u64::MAX - 2)));
}

#[test]
fn division_rounds_down() {
    let mut vm = VM::new(100);
    let prog = program(vec![OpCode::PUSH(17), OpCode::PUSH(5), OpCode::DIV, OpCode::STOP]);
    assert_eq!(vm.execute(&prog), Ok(Some(3)));
    assert_eq!(vm.gas_consumed(), 9);
}

#[test]
fn add_on_empty_stack_underflows_after_the_charge() {
    let mut vm = VM::new(100);
    let prog = program(vec![OpCode::ADD, OpCode::STOP]);
    assert_eq!(vm.execute(&prog), Err(VMError::StackUnderflow));
    assert_eq!(vm.gas_consumed(), 3);
    assert!(vm.stack().is_empty());
    assert_eq!(vm.pc(), 0);
}

#[test]
fn add_on_one_value_underflows_and_leaves_the_stack_empty() {
    let mut vm = VM::new(100);
    let prog = program(vec![OpCode::PUSH(7), OpCode::ADD]);
    assert_eq!(vm.execute(&prog), Err(VMError::StackUnderflow));
    assert_eq!(vm.gas_consumed(), 5);
    assert!(vm.stack().is_empty());
    assert_eq!(vm.pc(), 1);
}

#[test]
fn pop_on_empty_stack_underflows() {
    let mut vm = VM::new(100);
    let prog = program(vec![OpCode::POP]);
    assert_eq!(vm.execute(&prog), Err(VMError::StackUnderflow));
    assert_eq!(vm.gas_consumed(), 2);
}

#[test]
fn pop_discards_the_top() {
    let mut vm = VM::new(100);
    let prog = program(vec![OpCode::PUSH(1), OpCode::PUSH(2), OpCode::POP]);
    assert_eq!(vm.execute(&prog), Ok(Some(1)));
    assert_eq!(vm.stack(), &vec![1]);
}

#[test]
fn division_by_zero_fails() {
    let mut vm = VM::new(100);
    let prog = program(vec![OpCode::PUSH(5), OpCode::PUSH(0), OpCode::DIV]);
    assert_eq!(vm.execute(&prog), Err(VMError::DivisionByZero));
    // both operands are gone, and the division was paid for
    assert!(vm.stack().is_empty());
    assert_eq!(vm.gas_consumed(), 9);
    assert_eq!(vm.pc(), 2);
}

#[test]
fn division_with_one_operand_underflows() {
    let mut vm = VM::new(100);
    let prog = program(vec![OpCode::PUSH(0), OpCode::DIV]);
    assert_eq!(vm.execute(&prog), Err(VMError::StackUnderflow));
}

#[test]
fn jump_out_of_the_program_fails() {
    let mut vm = VM::new(100);
    let prog = program(vec![OpCode::PUSH(2), OpCode::JUMP]);
    assert_eq!(vm.execute(&prog), Err(VMError::InvalidJump));
    assert!(vm.stack().is_empty());
    let mut vm = VM::new(100);
    let prog = program(vec![OpCode::PUSH(u64::MAX), OpCode::JUMP]);
    assert_eq!(vm.execute(&prog), Err(VMError::InvalidJump));
}

#[test]
fn jump_without_target_underflows() {
    let mut vm = VM::new(100);
    let prog = program(vec![OpCode::JUMP]);
    assert_eq!(vm.execute(&prog), Err(VMError::StackUnderflow));
    assert_eq!(vm.gas_consumed(), 8);
}

#[test]
fn conditional_jump_falls_through_on_zero() {
    let mut vm = VM::new(100);
    let prog = program(vec![
        OpCode::PUSH(0),
        OpCode::PUSH(4),
        OpCode::JUMPI,
        OpCode::PUSH(7),
        OpCode::STOP,
        OpCode::PUSH(9),
        OpCode::STOP,
    ]);
    assert_eq!(vm.execute(&prog), Ok(Some(7)));
    assert_eq!(vm.pc(), 4);
    assert_eq!(vm.gas_consumed(), 2 + 2 + 10 + 2);
}

#[test]
fn conditional_jump_on_zero_ignores_a_bad_target() {
    let mut vm = VM::new(100);
    let prog = program(vec![OpCode::PUSH(0), OpCode::PUSH(999), OpCode::JUMPI, OpCode::PUSH(7)]);
    assert_eq!(vm.execute(&prog), Ok(Some(7)));
}

#[test]
fn conditional_jump_is_taken_on_non_zero() {
    let mut vm = VM::new(100);
    let prog = program(vec![
        OpCode::PUSH(1),
        OpCode::PUSH(5),
        OpCode::JUMPI,
        OpCode::PUSH(7),
        OpCode::STOP,
        OpCode::PUSH(9),
        OpCode::STOP,
    ]);
    assert_eq!(vm.execute(&prog), Ok(Some(9)));
}

#[test]
fn conditional_jump_out_of_the_program_fails() {
    let mut vm = VM::new(100);
    let prog = program(vec![OpCode::PUSH(1), OpCode::PUSH(3), OpCode::JUMPI]);
    assert_eq!(vm.execute(&prog), Err(VMError::InvalidJump));
    assert!(vm.stack().is_empty());
}

#[test]
fn conditional_jump_with_one_operand_underflows() {
    let mut vm = VM::new(100);
    let prog = program(vec![OpCode::PUSH(1), OpCode::JUMPI]);
    assert_eq!(vm.execute(&prog), Err(VMError::StackUnderflow));
    assert!(vm.stack().is_empty());
}

#[test]
fn empty_program_halts_with_nothing() {
    let mut vm = VM::new(0);
    assert_eq!(vm.execute(&program(vec![])), Ok(None));
    assert_eq!(vm.gas_consumed(), 0);
}

#[test]
fn stop_on_empty_stack_gives_nothing() {
    let mut vm = VM::new(0);
    assert_eq!(vm.execute(&program(vec![OpCode::STOP, OpCode::PUSH(1)])), Ok(None));
}

#[test]
fn end_of_program_gives_the_top() {
    let mut vm = VM::new(10);
    assert_eq!(vm.execute(&program(vec![OpCode::PUSH(1), OpCode::PUSH(2)])), Ok(Some(2)));
}

#[test]
fn out_of_gas_comes_at_the_first_operation_that_does_not_fit() {
    // PUSH 2 + PUSH 2 = 4 fit in 6, ADD (3) does not
    let mut vm = VM::new(6);
    let prog = program(vec![OpCode::PUSH(10), OpCode::PUSH(20), OpCode::ADD, OpCode::STOP]);
    assert_eq!(vm.execute(&prog), Err(VMError::GasError(GasError::OutOfGas)));
    assert_eq!(vm.pc(), 2);
    assert_eq!(vm.gas_consumed(), 4);
    assert_eq!(vm.stack(), &vec![10, 20]);
    // with exactly enough the program runs to its end
    let mut vm = VM::new(7);
    assert_eq!(vm.execute(&prog), Ok(Some(30)));
    assert_eq!(vm.gas_consumed(), 7);
}

#[test]
fn a_loop_ends_when_the_gas_does() {
    let mut vm = VM::new(1000);
    let prog = program(vec![OpCode::PUSH(0), OpCode::JUMP]);
    assert_eq!(vm.execute(&prog), Err(VMError::GasError(GasError::OutOfGas)));
    assert_eq!(vm.gas_consumed(), 1000);
}

#[test]
fn two_interpreters_agree() {
    let prog = program(vec![
        OpCode::PUSH(6),
        OpCode::PUSH(7),
        OpCode::MUL,
        OpCode::PUSH(0),
        OpCode::DIV,
    ]);
    let mut first = VM::new(50);
    let mut second = VM::new(50);
    let a = first.execute(&prog);
    let b = second.execute(&prog);
    assert_eq!(a, b);
    assert_eq!(a, Err(VMError::DivisionByZero));
    assert_eq!(first.gas_consumed(), second.gas_consumed());
    assert_eq!(first.stack(), second.stack());
}

#[test]
fn gas_consumed_grows_and_stays_within_the_limit() {
    let mut vm = VM::new(9);
    let prog = program(vec![OpCode::PUSH(1), OpCode::PUSH(2), OpCode::MUL, OpCode::POP]);
    let before = vm.gas_consumed();
    let res = vm.execute(&prog);
    assert_eq!(res, Err(VMError::GasError(GasError::OutOfGas)));
    assert!(vm.gas_consumed() >= before);
    assert!(vm.gas_consumed() <= vm.gas_limit());
    assert_eq!(vm.gas_consumed(), 9);
}

#[test]
fn reserved_operations_are_charged_and_change_nothing() {
    let mut vm = VM::new(100);
    let prog = program(vec![
        OpCode::PUSH(1),
        OpCode::PUSH(2),
        OpCode::DUP,
        OpCode::SWAP,
        OpCode::LOAD,
        OpCode::STORE,
    ]);
    assert_eq!(vm.execute(&prog), Ok(Some(2)));
    assert_eq!(vm.stack(), &vec![1, 2]);
    assert_eq!(vm.gas_consumed(), 2 + 2 + 3 + 3 + 10 + 10);
    assert_eq!(prog.first_reserved(), Some(2));
    assert_eq!(program(vec![OpCode::PUSH(1), OpCode::ADD]).first_reserved(), None);
    assert!(OpCode::STORE.reserved());
    assert!(!OpCode::JUMPI.reserved());
}

#[test]
fn a_second_invocation_starts_from_the_state_left() {
    let mut vm = VM::new(10);
    let prog = program(vec![OpCode::PUSH(5)]);
    assert_eq!(vm.execute(&prog), Ok(Some(5)));
    assert_eq!(vm.execute(&prog), Ok(Some(5)));
    assert_eq!(vm.stack(), &vec![5, 5]);
    assert_eq!(vm.gas_consumed(), 4);
}

#[test]
fn cost_table() {
    let meter = GasMeter::new(0);
    assert_eq!(meter.cost(OpCode::STOP), 0);
    assert_eq!(meter.cost(OpCode::ADD), 3);
    assert_eq!(meter.cost(OpCode::SUB), 3);
    assert_eq!(meter.cost(OpCode::MUL), 5);
    assert_eq!(meter.cost(OpCode::DIV), 5);
    assert_eq!(meter.cost(OpCode::PUSH(0)), 2);
    assert_eq!(meter.cost(OpCode::PUSH(u64::MAX)), 2);
    assert_eq!(meter.cost(OpCode::POP), 2);
    assert_eq!(meter.cost(OpCode::DUP), 3);
    assert_eq!(meter.cost(OpCode::SWAP), 3);
    assert_eq!(meter.cost(OpCode::LOAD), 10);
    assert_eq!(meter.cost(OpCode::STORE), 10);
    assert_eq!(meter.cost(OpCode::JUMP), 8);
    assert_eq!(meter.cost(OpCode::JUMPI), 10);
}

#[test]
fn charge_is_all_or_nothing() {
    let mut meter = GasMeter::new(10);
    assert_eq!(meter.consumed, 0);
    assert_eq!(meter.consume(4), Ok(()));
    assert_eq!(meter.consumed, 4);
    assert_eq!(meter.consume(7), Err(GasError::OutOfGas));
    assert_eq!(meter.consumed, 4);
    assert_eq!(meter.consume(6), Ok(()));
    assert_eq!(meter.consumed, 10);
    assert_eq!(meter.consume(0), Ok(()));
    assert_eq!(meter.consume(1), Err(GasError::OutOfGas));
    assert_eq!(meter.limit, 10);
}

#[test]
fn charge_that_would_overflow_is_refused() {
    let mut meter = GasMeter::new(u64::MAX);
    assert_eq!(meter.consume(u64::MAX - 1), Ok(()));
    assert_eq!(meter.consume(u64::MAX), Err(GasError::OutOfGas));
    assert_eq!(meter.consumed, u64::MAX - 1);
    let mut broken = GasMeter { limit: 5, consumed: 9 };
    assert_eq!(broken.consume(0), Err(GasError::OutOfGas));
    assert_eq!(broken.consumed, 9);
}

#[test]
fn error_messages() {
    assert_eq!(VMError::StackUnderflow.message(), "Stack underflow");
    assert_eq!(VMError::DivisionByZero.message(), "Division by zero");
    assert_eq!(VMError::InvalidJump.message(), "Invalid jump destination");
    assert_eq!(VMError::GasError(GasError::OutOfGas).message(), "Gas error: Out of gas");
    assert_eq!(GasError::OutOfGas.message(), "Out of gas");
    assert_eq!(VMError::from(GasError::OutOfGas), VMError::GasError(GasError::OutOfGas));
}
