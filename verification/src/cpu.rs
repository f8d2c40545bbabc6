//! The executable machine.
use vstd::prelude::*;
use crate::opcode::{decode, Instruction, OPCODETYPE};
use crate::state::{CpuError, State, Status};

verus! {

/// The virtual CPU: register file, memory, call stack and program counter.
///
/// Its view is the [`State`] it stands for; every operation says what it
/// does to that state.
pub struct CPU {
    registers: [u8; 16],
    position_in_memory: usize,
    memory: [u8; 4096],
    stack: [OPCODETYPE; 16],
    stack_pointer: usize,
}

impl View for CPU {
    type V = State;

    /// The stack of the state holds the used entries only.
    closed spec fn view(&self) -> State {
        State {
            registers: self.registers@,
            memory: self.memory@,
            stack: self.stack@.subrange(0, self.stack_pointer as int),
            pc: self.position_in_memory as int,
        }
    }
}

impl CPU {
    /// The stack pointer never leaves the range from 0 to 16.
    #[verifier::type_invariant]
    spec fn stack_pointer_in_range(self) -> bool {
        self.stack_pointer <= 16
    }

    /// A new machine that is to start at `start`: registers and memory are
    /// zero and the stack is empty.
    pub fn new(start: usize) -> (cpu: CPU)
        ensures
            cpu@ == State::initial(start as int),
            cpu@.wf(),
    {
        CPU {
            registers: [0; 16],
            position_in_memory: start,
            memory: [0; 4096],
            stack: [0; 16],
            stack_pointer: 0,
        }
    }

    /// The value of register `x`.
    pub fn register(&self, x: u8) -> (value: u8)
        requires
            x < 16,
        ensures
            value == self@.reg(x),
            self@.wf(),
    {
        proof {
            use_type_invariant(self);
        }
        self.registers[x as usize]
    }

    /// The address of the next instruction to fetch.
    pub fn program_counter(&self) -> (pc: usize)
        ensures
            pc == self@.pc,
            self@.wf(),
    {
        proof {
            use_type_invariant(self);
        }
        self.position_in_memory
    }

    /// The number of return addresses on the stack.
    pub fn stack_pointer(&self) -> (sp: usize)
        ensures
            sp == self@.stack.len(),
            self@.wf(),
    {
        proof {
            use_type_invariant(self);
        }
        self.stack_pointer
    }

    /// The memory byte at `addr`.
    pub fn read_memory(&self, addr: usize) -> (value: u8)
        requires
            addr < 4096,
        ensures
            value == self@.memory[addr as int],
            self@.wf(),
    {
        proof {
            use_type_invariant(self);
        }
        self.memory[addr]
    }

    /// Stores `value` in the memory byte at `addr`. This is how a program
    /// gets into memory before the machine runs.
    pub fn write_memory(&mut self, addr: usize, value: u8)
        requires
            addr < 4096,
        ensures
            final(self)@ == old(self)@.with_memory(addr as int, value),
            old(self)@.wf(),
            final(self)@.wf(),
    {
        proof {
            use_type_invariant(&*self);
        }
        self.memory[addr] = value;
    }

    /// Adds register `y` to register `x`, wrapping at 8 bits, and then sets
    /// register 15 to 1 if the sum did not fit in 8 bits and to 0 if it did.
    pub fn add_xy(&mut self, x: u8, y: u8)
        requires
            x < 16,
            y < 16,
        ensures
            final(self)@ == old(self)@.add_registers(x, y),
            old(self)@.wf(),
            final(self)@.wf(),
    {
        proof {
            use_type_invariant(&*self);
        }
        let vx = self.registers[x as usize];
        let vy = self.registers[y as usize];

        let val = vx.wrapping_add(vy);
        let overflow = vy > u8::MAX - vx;
        self.registers[x as usize] = val;

        if overflow {
            self.registers[0xF] = 1;
        } else {
            self.registers[0xF] = 0;
        }
    }

    /// Subtracts register `y` from register `x`, wrapping at 8 bits, and
    /// then sets register 15 to 0 if that borrowed and to 1 if it did not.
    pub fn sub_xy(&mut self, x: u8, y: u8)
        requires
            x < 16,
            y < 16,
        ensures
            final(self)@ == old(self)@.sub_registers(x, y),
            old(self)@.wf(),
            final(self)@.wf(),
    {
        proof {
            use_type_invariant(&*self);
        }
        let vx = self.registers[x as usize];
        let vy = self.registers[y as usize];

        let val = vx.wrapping_sub(vy);
        let overflow = vx < vy;
        self.registers[x as usize] = val;

        if overflow {
            self.registers[0xF] = 0
        } else {
            self.registers[0xF] = 1
        }
    }

    /// Calls the routine at `addr`: pushes the program counter, cut to 16
    /// bits, and continues at `addr`.
    ///
    /// Fails with `StackOverflow`, changing nothing, if the stack already
    /// holds sixteen return addresses.
    pub fn call(&mut self, addr: OPCODETYPE) -> (res: Result<(), CpuError>)
        ensures
            old(self)@.stack.len() >= 16 ==> res == Err::<(), CpuError>(CpuError::StackOverflow)
                && final(self)@ == old(self)@,
            old(self)@.stack.len() < 16 ==> res == Ok::<(), CpuError>(())
                && final(self)@ == old(self)@.call(addr),
            old(self)@.wf(),
            final(self)@.wf(),
    {
        proof {
            use_type_invariant(&*self);
        }
        let sp = self.stack_pointer;

        if sp >= 16 {
            return Err(CpuError::StackOverflow);
        }
        self.stack[sp] = #[verifier::truncate] (self.position_in_memory as OPCODETYPE);
        self.stack_pointer += 1;
        self.position_in_memory = addr as usize;
        Ok(())
    }

    /// Returns from a routine: pops the stack and continues at the popped
    /// address.
    ///
    /// Fails with `StackUnderflow`, changing nothing, if the stack is empty.
    pub fn ret(&mut self) -> (res: Result<(), CpuError>)
        ensures
            old(self)@.stack.len() == 0 ==> res == Err::<(), CpuError>(CpuError::StackUnderflow)
                && final(self)@ == old(self)@,
            old(self)@.stack.len() > 0 ==> res == Ok::<(), CpuError>(())
                && final(self)@ == old(self)@.ret(),
            old(self)@.wf(),
            final(self)@.wf(),
    {
        proof {
            use_type_invariant(&*self);
        }
        if self.stack_pointer == 0 {
            return Err(CpuError::StackUnderflow);
        }
        self.stack_pointer -= 1;
        let addr = self.stack[self.stack_pointer];
        self.position_in_memory = addr as usize;
        Ok(())
    }

    /// Skips the next instruction if registers `x` and `y` are equal.
    pub fn xy_skip_eq(&mut self, x: u8, y: u8)
        requires
            x < 16,
            y < 16,
            old(self)@.pc + 2 <= usize::MAX,
        ensures
            final(self)@ == old(self)@.skip_if(old(self)@.reg(x) == old(self)@.reg(y)),
            old(self)@.wf(),
            final(self)@.wf(),
    {
        proof {
            use_type_invariant(&*self);
        }
        let vx = self.registers[x as usize];
        let vy = self.registers[y as usize];
        if vx == vy {
            self.position_in_memory += 2;
        }
    }

    /// Skips the next instruction if registers `x` and `y` differ.
    pub fn xy_skip_ne(&mut self, x: u8, y: u8)
        requires
            x < 16,
            y < 16,
            old(self)@.pc + 2 <= usize::MAX,
        ensures
            final(self)@ == old(self)@.skip_if(old(self)@.reg(x) != old(self)@.reg(y)),
            old(self)@.wf(),
            final(self)@.wf(),
    {
        proof {
            use_type_invariant(&*self);
        }
        let vx = self.registers[x as usize];
        let vy = self.registers[y as usize];
        if vx != vy {
            self.position_in_memory += 2;
        }
    }

    /// The instruction word at the program counter: the byte there is its
    /// high byte, the next one its low byte.
    pub fn read_opcode(&self) -> (opcode: OPCODETYPE)
        requires
            self@.can_fetch(),
        ensures
            opcode == self@.fetch(),
            self@.wf(),
    {
        proof {
            use_type_invariant(self);
        }
        let p = self.position_in_memory;
        let op_byte1 = self.memory[p] as OPCODETYPE;
        let op_byte2 = self.memory[p + 1] as OPCODETYPE;

        assert(op_byte1 << 8 | op_byte2 == op_byte1 * 256 + op_byte2) by (bit_vector)
            requires
                op_byte1 < 256,
                op_byte2 < 256,
        ;
        op_byte1 << 8 | op_byte2
    }

    /// Skips the next instruction if register `x` holds `kk`.
    pub fn kk_skip_eq(&mut self, x: u8, kk: u8)
        requires
            x < 16,
            old(self)@.pc + 2 <= usize::MAX,
        ensures
            final(self)@ == old(self)@.skip_if(old(self)@.reg(x) == kk),
            old(self)@.wf(),
            final(self)@.wf(),
    {
        proof {
            use_type_invariant(&*self);
        }
        let vx = self.registers[x as usize];
        if vx == kk {
            self.position_in_memory += 2;
        }
    }

    /// Skips the next instruction if register `x` does not hold `kk`.
    pub fn kk_skip_ne(&mut self, x: u8, kk: u8)
        requires
            x < 16,
            old(self)@.pc + 2 <= usize::MAX,
        ensures
            final(self)@ == old(self)@.skip_if(old(self)@.reg(x) != kk),
            old(self)@.wf(),
            final(self)@.wf(),
    {
        proof {
            use_type_invariant(&*self);
        }
        let vx = self.registers[x as usize];
        if vx != kk {
            self.position_in_memory += 2;
        }
    }

    /// Continues at `nnn`.
    pub fn jump(&mut self, nnn: OPCODETYPE)
        ensures
            final(self)@ == old(self)@.with_pc(nnn as int),
            old(self)@.wf(),
            final(self)@.wf(),
    {
        proof {
            use_type_invariant(&*self);
        }
        self.position_in_memory = nnn as usize;
    }

    /// Stores `kk_vy` in register `vx`.
    pub fn set(&mut self, vx: u8, kk_vy: u8)
        requires
            vx < 16,
        ensures
            final(self)@ == old(self)@.with_register(vx, kk_vy),
            old(self)@.wf(),
            final(self)@.wf(),
    {
        proof {
            use_type_invariant(&*self);
        }
        self.registers[vx as usize] = kk_vy;
    }

    /// Adds `kk_vy` to register `vx`, wrapping at 8 bits. Register 15 is
    /// written only if it is `vx`.
    pub fn add(&mut self, vx: u8, kk_vy: u8)
        requires
            vx < 16,
        ensures
            final(self)@ == old(self)@.add_immediate(vx, kk_vy),
            old(self)@.wf(),
            final(self)@.wf(),
    {
        proof {
            use_type_invariant(&*self);
        }
        let value = self.registers[vx as usize];
        self.registers[vx as usize] = value.wrapping_add(kk_vy);
    }

    /// Stores the bitwise OR of registers `x` and `y` in register `x`.
    pub fn or_bitwise_set(&mut self, x: u8, y: u8)
        requires
            x < 16,
            y < 16,
        ensures
            final(self)@ == old(self)@.with_register(x, old(self)@.reg(x) | old(self)@.reg(y)),
            old(self)@.wf(),
            final(self)@.wf(),
    {
        proof {
            use_type_invariant(&*self);
        }
        let vx = self.registers[x as usize];
        let vy = self.registers[y as usize];

        self.registers[x as usize] = vx | vy;
    }

    /// Stores the bitwise AND of registers `x` and `y` in register `x`.
    pub fn and_bitwise_set(&mut self, x: u8, y: u8)
        requires
            x < 16,
            y < 16,
        ensures
            final(self)@ == old(self)@.with_register(x, old(self)@.reg(x) & old(self)@.reg(y)),
            old(self)@.wf(),
            final(self)@.wf(),
    {
        proof {
            use_type_invariant(&*self);
        }
        let vx = self.registers[x as usize];
        let vy = self.registers[y as usize];

        self.registers[x as usize] = vx & vy;
    }

    /// Stores the bitwise XOR of registers `x` and `y` in register `x`.
    pub fn xor_bitwise_set(&mut self, x: u8, y: u8)
        requires
            x < 16,
            y < 16,
        ensures
            final(self)@ == old(self)@.with_register(x, old(self)@.reg(x) ^ old(self)@.reg(y)),
            old(self)@.wf(),
            final(self)@.wf(),
    {
        proof {
            use_type_invariant(&*self);
        }
        let vx = self.registers[x as usize];
        let vy = self.registers[y as usize];

        self.registers[x as usize] = vx ^ vy;
    }

    /// Executes one decoded instruction.
    ///
    /// The result is `Halted` for the halt instruction, the error for a
    /// call on a full stack or a return on an empty one, and `Running` for
    /// everything else. The halt instruction and a failing instruction
    /// leave the machine as it was.
    pub fn execute(&mut self, instruction: Instruction) -> (res: Result<Status, CpuError>)
        requires
            instruction.wf(),
            instruction.is_skip() ==> old(self)@.pc + 2 <= usize::MAX,
        ensures
            res == old(self)@.outcome(instruction),
            final(self)@ == old(self)@.execute(instruction),
            old(self)@.wf(),
            final(self)@.wf(),
    {
        proof {
            use_type_invariant(&*self);
        }
        match instruction {
            Instruction::Halt => {
                return Ok(Status::Halted);
            },
            Instruction::ClearScreen => {},
            Instruction::Return => {
                self.ret()?;
            },
            Instruction::Jump { addr } => self.jump(addr),
            Instruction::Call { addr } => {
                self.call(addr)?;
            },
            Instruction::SkipEqImm { x, kk } => self.kk_skip_eq(x, kk),
            Instruction::SkipNeImm { x, kk } => self.kk_skip_ne(x, kk),
            Instruction::SkipEqReg { x, y } => self.xy_skip_eq(x, y),
            Instruction::LoadImm { x, kk } => self.set(x, kk),
            Instruction::AddImm { x, kk } => self.add(x, kk),
            Instruction::LoadReg { x, y } => {
                let vy = self.registers[y as usize];
                self.set(x, vy)
            },
            Instruction::OrReg { x, y } => self.or_bitwise_set(x, y),
            Instruction::AndReg { x, y } => self.and_bitwise_set(x, y),
            Instruction::XorReg { x, y } => self.xor_bitwise_set(x, y),
            Instruction::AddReg { x, y } => self.add_xy(x, y),
            Instruction::SubReg { x, y } => self.sub_xy(x, y),
            Instruction::SkipNeReg { x, y } => self.xy_skip_ne(x, y),
        }
        Ok(Status::Running)
    }

    /// Runs one cycle: fetches the instruction word at the program counter,
    /// moves the program counter past it, decodes the word and executes the
    /// instruction.
    ///
    /// Fails with `FetchOutOfBounds`, changing nothing, if the program
    /// counter is not below 4095, and with `UnknownOpcode` and the word if
    /// the word stands for no instruction.
    pub fn step(&mut self) -> (res: Result<Status, CpuError>)
        ensures
            res == old(self)@.step_result(),
            final(self)@ == old(self)@.step_state(),
            old(self)@.wf(),
            final(self)@.wf(),
    {
        proof {
            use_type_invariant(&*self);
        }
        if self.position_in_memory >= 4095 {
            return Err(CpuError::FetchOutOfBounds);
        }
        let opcode = self.read_opcode();
        self.position_in_memory += 2;

        match decode(opcode) {
            Some(instruction) => self.execute(instruction),
            None => Err(CpuError::UnknownOpcode(opcode)),
        }
    }

    /// Runs cycles until the machine halts or a cycle fails.
    ///
    /// There is no limit on the number of cycles. The machine must be one
    /// that stops: a program that loops for ever has no result to state.
    /// [`CPU::run_for`] runs any program, for a bounded number of cycles.
    pub fn run(&mut self) -> (res: Result<(), CpuError>)
        requires
            old(self)@.terminates(),
        ensures
            res == old(self)@.run_result(),
            final(self)@ == old(self)@.final_state(),
            old(self)@.wf(),
            final(self)@.wf(),
    {
        proof {
            use_type_invariant(&*self);
        }
        let ghost start = self@;
        let ghost mut fuel: nat = start.enough_cycles();
        loop
            invariant
                start == old(self)@,
                start.wf(),
                self@.stops_within(fuel),
                self@.after(fuel) == start.final_state(),
                self@.result_after(fuel) == start.final_result(),
            decreases fuel,
        {
            match self.step() {
                Ok(Status::Running) => {
                    proof {
                        fuel = (fuel - 1) as nat;
                    }
                },
                Ok(Status::Halted) => {
                    return Ok(());
                },
                Err(e) => {
                    return Err(e);
                },
            }
        }
    }

    /// Runs cycles until the machine halts, a cycle fails or `max_cycles`
    /// cycles have run.
    ///
    /// The result is `Running` if the machine is still going after
    /// `max_cycles` cycles.
    pub fn run_for(&mut self, max_cycles: u64) -> (res: Result<Status, CpuError>)
        ensures
            res == old(self)@.result_after(max_cycles as nat),
            final(self)@ == old(self)@.after(max_cycles as nat),
            old(self)@.wf(),
            final(self)@.wf(),
    {
        proof {
            use_type_invariant(&*self);
        }
        let ghost start = self@;
        let mut remaining = max_cycles;
        while remaining > 0
            invariant
                start == old(self)@,
                start.wf(),
                self@.wf(),
                self@.after(remaining as nat) == start.after(max_cycles as nat),
                self@.result_after(remaining as nat) == start.result_after(max_cycles as nat),
            decreases remaining,
        {
            match self.step() {
                Ok(Status::Running) => {
                    remaining -= 1;
                },
                stopped => {
                    return stopped;
                },
            }
        }
        Ok(Status::Running)
    }
}

} // verus!
