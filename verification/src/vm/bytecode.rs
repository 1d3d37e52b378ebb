use vstd::prelude::*;

verus! {

/// One operation of the stack machine. `PUSH` carries its literal; every
/// other operation takes its operands from the stack.
#[derive(Debug, Clone, Copy, PartialEq, Eq, Structural)]
pub enum OpCode {
    STOP,
    ADD,
    SUB,
    MUL,
    DIV,
    PUSH(u64),
    POP,
    DUP,
    SWAP,
    /// Reserved for reads of linear memory.
    LOAD,
    /// Reserved for writes of linear memory.
    STORE,
    JUMP,
    /// Jump if the condition is non-zero.
    JUMPI,
}

impl OpCode {
    /// The operations whose effect on stack and memory is not yet defined.
    /// The interpreter charges for them and moves on; a caller that must
    /// agree with other nodes can refuse such programs up front with
    /// [`Program::first_reserved`].
    pub open spec fn is_reserved(self) -> bool {
        self is DUP || self is SWAP || self is LOAD || self is STORE
    }

    /// Executable form of [`OpCode::is_reserved`].
    pub fn reserved(&self) -> (r: bool)
        ensures
            r == self.is_reserved(),
    {
        match self {
            OpCode::DUP | OpCode::SWAP | OpCode::LOAD | OpCode::STORE => true,
            _ => false,
        }
    }
}

/// An ordered sequence of operations. Jump targets are indices into `code`.
#[derive(Debug, Clone)]
pub struct Program {
    pub code: Vec<OpCode>,
}

impl View for Program {
    type V = Seq<OpCode>;

    open spec fn view(&self) -> Seq<OpCode> {
        self.code@
    }
}

impl Program {
    /// The index of the first reserved operation, if the program has one.
    pub fn first_reserved(&self) -> (r: Option<usize>)
        ensures
            match r {
                Some(i) => i < self@.len() && self@[i as int].is_reserved() && forall|j: int|
                    0 <= j < i ==> !(#[trigger] self@[j]).is_reserved(),
                None => forall|j: int|
                    0 <= j < self@.len() ==> !(#[trigger] self@[j]).is_reserved(),
            },
    {
        let mut i: usize = 0;
        while i < self.code.len()
            invariant
                i <= self.code@.len(),
                forall|j: int| 0 <= j < i ==> !(#[trigger] self.code@[j]).is_reserved(),
            decreases self.code@.len() - i,
        {
            if self.code[i].reserved() {
                return Some(i);
            }
            i += 1;
        }
        None
    }
}

} // verus!
