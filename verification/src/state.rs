//! The abstract machine: its state as mathematical values, what each
//! instruction does to it, what one fetch-decode-execute cycle does, and
//! where a run of many cycles ends.
use vstd::prelude::*;
use crate::opcode::{decode_spec, Instruction};

verus! {

/// How a cycle that did not fail left the machine.
#[derive(Clone, Copy, Debug, PartialEq, Eq, Structural)]
pub enum Status {
    /// The machine goes on with the next instruction.
    Running,
    /// The machine executed the halt instruction.
    Halted,
}

/// The fatal conditions of the machine.
#[derive(Clone, Copy, Debug, PartialEq, Eq, Structural)]
pub enum CpuError {
    /// A call with sixteen return addresses already on the stack.
    StackOverflow,
    /// A return with no return address on the stack.
    StackUnderflow,
    /// The fetched word, which stands for no instruction.
    UnknownOpcode(u16),
    /// The program counter does not point at two bytes inside memory.
    FetchOutOfBounds,
}

/// The state of the machine.
#[verifier::ext_equal]
pub struct State {
    /// The sixteen registers. Register 15 is the carry and borrow flag.
    pub registers: Seq<u8>,
    /// The 4096 bytes of memory.
    pub memory: Seq<u8>,
    /// The return addresses of the calls in progress, the oldest first.
    pub stack: Seq<u16>,
    /// The address of the next instruction to fetch.
    pub pc: int,
}

impl State {
    /// The shape every machine state has: sixteen registers, 4096 bytes of
    /// memory, at most sixteen return addresses and a program counter that
    /// is not negative.
    pub open spec fn wf(self) -> bool {
        &&& self.registers.len() == 16
        &&& self.memory.len() == 4096
        &&& self.stack.len() <= 16
        &&& 0 <= self.pc
    }

    /// The state of a new machine that is to start at `start`: registers and
    /// memory are zero and the stack is empty.
    pub open spec fn initial(start: int) -> State {
        State {
            registers: Seq::new(16, |i: int| 0u8),
            memory: Seq::new(4096, |i: int| 0u8),
            stack: Seq::empty(),
            pc: start,
        }
    }

    /// The value of register `x`.
    pub open spec fn reg(self, x: u8) -> u8
        recommends
            x < 16,
    {
        self.registers[x as int]
    }

    /// This state with the program counter at `pc`.
    pub open spec fn with_pc(self, pc: int) -> State {
        State { pc, ..self }
    }

    /// This state with `value` in register `x`.
    pub open spec fn with_register(self, x: u8, value: u8) -> State
        recommends
            x < 16,
    {
        State { registers: self.registers.update(x as int, value), ..self }
    }

    /// This state with `value` in the memory byte at `addr`.
    pub open spec fn with_memory(self, addr: int, value: u8) -> State
        recommends
            0 <= addr < 4096,
    {
        State { memory: self.memory.update(addr, value), ..self }
    }

    /// This state with the program counter moved past one instruction if
    /// `taken`.
    pub open spec fn skip_if(self, taken: bool) -> State {
        if taken {
            self.with_pc(self.pc + 2)
        } else {
            self
        }
    }

    /// This state after a call to `addr`: the program counter, cut to 16
    /// bits, goes on top of the stack.
    pub open spec fn call(self, addr: u16) -> State {
        State { pc: addr as int, stack: self.stack.push(self.pc as u16), ..self }
    }

    /// This state after a return: the program counter is the address that
    /// was on top of the stack.
    pub open spec fn ret(self) -> State
        recommends
            self.stack.len() > 0,
    {
        State { pc: self.stack.last() as int, stack: self.stack.drop_last(), ..self }
    }

    /// This state with `kk` added to register `x`, modulo 256.
    pub open spec fn add_immediate(self, x: u8, kk: u8) -> State {
        self.with_register(x, ((self.reg(x) + kk) % 256) as u8)
    }

    /// This state with the sum of registers `x` and `y`, modulo 256, in
    /// register `x`, and then the carry in register 15: 1 if the sum is
    /// over 255, else 0.
    pub open spec fn add_registers(self, x: u8, y: u8) -> State {
        let sum = self.reg(x) + self.reg(y);
        let carry = if sum > 255 { 1u8 } else { 0u8 };
        self.with_register(x, (sum % 256) as u8).with_register(15, carry)
    }

    /// This state with register `x` less register `y`, modulo 256, in
    /// register `x`, and then the flag in register 15: 0 if register `y` was
    /// the larger (a borrow), else 1.
    pub open spec fn sub_registers(self, x: u8, y: u8) -> State {
        let difference = self.reg(x) - self.reg(y);
        let flag = if self.reg(x) < self.reg(y) { 0u8 } else { 1u8 };
        self.with_register(x, (difference % 256) as u8).with_register(15, flag)
    }

    /// Whether `instruction` fails in this state, and with what. Apart from
    /// that, only the halt instruction stops the machine.
    pub open spec fn outcome(self, instruction: Instruction) -> Result<Status, CpuError> {
        match instruction {
            Instruction::Halt => Ok(Status::Halted),
            Instruction::Return => if self.stack.len() == 0 {
                Err(CpuError::StackUnderflow)
            } else {
                Ok(Status::Running)
            },
            Instruction::Call { .. } => if self.stack.len() >= 16 {
                Err(CpuError::StackOverflow)
            } else {
                Ok(Status::Running)
            },
            _ => Ok(Status::Running),
        }
    }

    /// The state that executing `instruction` leads to. An instruction that
    /// fails changes nothing, and neither does the halt instruction.
    pub open spec fn execute(self, instruction: Instruction) -> State {
        if self.outcome(instruction) is Err {
            self
        } else {
            match instruction {
                Instruction::Halt => self,
                Instruction::ClearScreen => self,
                Instruction::Return => self.ret(),
                Instruction::Jump { addr } => self.with_pc(addr as int),
                Instruction::Call { addr } => self.call(addr),
                Instruction::SkipEqImm { x, kk } => self.skip_if(self.reg(x) == kk),
                Instruction::SkipNeImm { x, kk } => self.skip_if(self.reg(x) != kk),
                Instruction::SkipEqReg { x, y } => self.skip_if(self.reg(x) == self.reg(y)),
                Instruction::SkipNeReg { x, y } => self.skip_if(self.reg(x) != self.reg(y)),
                Instruction::LoadImm { x, kk } => self.with_register(x, kk),
                Instruction::AddImm { x, kk } => self.add_immediate(x, kk),
                Instruction::LoadReg { x, y } => self.with_register(x, self.reg(y)),
                Instruction::OrReg { x, y } => self.with_register(x, self.reg(x) | self.reg(y)),
                Instruction::AndReg { x, y } => self.with_register(x, self.reg(x) & self.reg(y)),
                Instruction::XorReg { x, y } => self.with_register(x, self.reg(x) ^ self.reg(y)),
                Instruction::AddReg { x, y } => self.add_registers(x, y),
                Instruction::SubReg { x, y } => self.sub_registers(x, y),
            }
        }
    }

    /// Whether the program counter points at two bytes inside memory.
    pub open spec fn can_fetch(self) -> bool {
        0 <= self.pc && self.pc + 1 < 4096
    }

    /// The instruction word at the program counter: two bytes, the high
    /// byte first.
    pub open spec fn fetch(self) -> u16
        recommends
            self.can_fetch(),
    {
        (self.memory[self.pc] * 256 + self.memory[self.pc + 1]) as u16
    }

    /// The result of one cycle: fetch the word at the program counter,
    /// decode it and execute the instruction.
    pub open spec fn step_result(self) -> Result<Status, CpuError> {
        if !self.can_fetch() {
            Err(CpuError::FetchOutOfBounds)
        } else {
            match decode_spec(self.fetch()) {
                None => Err(CpuError::UnknownOpcode(self.fetch())),
                Some(instruction) => self.with_pc(self.pc + 2).outcome(instruction),
            }
        }
    }

    /// The state after one cycle. A failed fetch changes nothing. Otherwise
    /// the program counter moves past the fetched word before that word is
    /// decoded and executed, so it has moved also where the machine halts
    /// or the cycle fails.
    pub open spec fn step_state(self) -> State {
        if !self.can_fetch() {
            self
        } else {
            match decode_spec(self.fetch()) {
                None => self.with_pc(self.pc + 2),
                Some(instruction) => self.with_pc(self.pc + 2).execute(instruction),
            }
        }
    }

    /// The result of running for up to `n` cycles: that of the first cycle
    /// that halts or fails, and `Running` if none of the `n` does.
    pub open spec fn result_after(self, n: nat) -> Result<Status, CpuError>
        decreases n,
    {
        if n == 0 {
            Ok(Status::Running)
        } else if self.step_result() == Ok::<Status, CpuError>(Status::Running) {
            self.step_state().result_after((n - 1) as nat)
        } else {
            self.step_result()
        }
    }

    /// The state after running for up to `n` cycles, the first cycle that
    /// halts or fails being the last one.
    pub open spec fn after(self, n: nat) -> State
        decreases n,
    {
        if n == 0 {
            self
        } else if self.step_result() == Ok::<Status, CpuError>(Status::Running) {
            self.step_state().after((n - 1) as nat)
        } else {
            self.step_state()
        }
    }

    /// Whether one of the first `n` cycles halts or fails.
    pub open spec fn stops_within(self, n: nat) -> bool {
        self.result_after(n) != Ok::<Status, CpuError>(Status::Running)
    }

    /// Whether the machine ever halts or fails.
    pub open spec fn terminates(self) -> bool {
        exists|n: nat| self.stops_within(n)
    }

    /// A number of cycles within which the machine stops, if it terminates.
    pub open spec fn enough_cycles(self) -> nat {
        choose|n: nat| self.stops_within(n)
    }

    /// The state in which a machine that terminates comes to rest.
    pub open spec fn final_state(self) -> State {
        self.after(self.enough_cycles())
    }

    /// The result of the cycle that stops a machine that terminates.
    pub open spec fn final_result(self) -> Result<Status, CpuError> {
        self.result_after(self.enough_cycles())
    }

    /// The result of a run to the end: success if the machine halts, and
    /// the error if a cycle fails.
    pub open spec fn run_result(self) -> Result<(), CpuError> {
        match self.final_result() {
            Ok(_) => Ok(()),
            Err(e) => Err(e),
        }
    }
}

} // verus!
