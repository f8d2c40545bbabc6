//! Theorems about the abstract machine.
//!
//! Each is stated for every well-formed state, over the functions that the
//! contracts of the executable machine are written in.
use vstd::prelude::*;
use crate::opcode::{
    class_of, d_of, decode_spec, kk_of, nnn_of, word_nnn, word_xkk, word_xyd, x_of, y_of,
    Instruction,
};
use crate::state::{CpuError, State, Status};

verus! {

/// The digits that a word was made of are the fields that decoding finds
/// in it.
pub proof fn lemma_fields_of_word_xyd(class: u8, x: u8, y: u8, d: u8)
    requires
        class < 16,
        x < 16,
        y < 16,
        d < 16,
    ensures
        class_of(word_xyd(class, x, y, d)) == class,
        x_of(word_xyd(class, x, y, d)) == x,
        y_of(word_xyd(class, x, y, d)) == y,
        d_of(word_xyd(class, x, y, d)) == d,
        word_xyd(class, x, y, d) == class * 0x1000 + x * 0x100 + y * 0x10 + d,
{
}

/// The digits and the immediate that a word was made of are the fields
/// that decoding finds in it.
pub proof fn lemma_fields_of_word_xkk(class: u8, x: u8, kk: u8)
    requires
        class < 16,
        x < 16,
    ensures
        class_of(word_xkk(class, x, kk)) == class,
        x_of(word_xkk(class, x, kk)) == x,
        kk_of(word_xkk(class, x, kk)) == kk,
        word_xkk(class, x, kk) == class * 0x1000 + x * 0x100 + kk,
{
}

/// The digit and the address that a word was made of are the fields that
/// decoding finds in it.
pub proof fn lemma_fields_of_word_nnn(class: u8, nnn: u16)
    requires
        class < 16,
        nnn < 0x1000,
    ensures
        class_of(word_nnn(class, nnn)) == class,
        nnn_of(word_nnn(class, nnn)) == nnn,
        word_nnn(class, nnn) == class * 0x1000 + nnn,
{
}

/// A cycle keeps the shape of the state and never writes to memory.
pub proof fn law_step_keeps_shape(s: State)
    requires
        s.wf(),
    ensures
        s.step_state().wf(),
        s.step_state().memory == s.memory,
{
}

/// A run of any length keeps the shape of the state and never writes to
/// memory.
pub proof fn law_run_keeps_shape(s: State, n: nat)
    requires
        s.wf(),
    ensures
        s.after(n).wf(),
        s.after(n).memory == s.memory,
    decreases n,
{
    if n > 0 {
        law_step_keeps_shape(s);
        if s.step_result() == Ok::<Status, CpuError>(Status::Running) {
            law_run_keeps_shape(s.step_state(), (n - 1) as nat);
        }
    }
}

/// Once the machine has stopped, more cycles change neither the state nor
/// the result.
pub proof fn law_stopped_stays(s: State, n: nat, m: nat)
    requires
        s.stops_within(n),
        n <= m,
    ensures
        s.after(m) == s.after(n),
        s.result_after(m) == s.result_after(n),
    decreases n,
{
    if s.step_result() == Ok::<Status, CpuError>(Status::Running) {
        law_stopped_stays(s.step_state(), (n - 1) as nat, (m - 1) as nat);
    }
}

/// Where and how a machine comes to rest is what it has reached after any
/// number of cycles within which it stops.
pub proof fn law_final_state(s: State, n: nat)
    requires
        s.stops_within(n),
    ensures
        s.terminates(),
        s.final_state() == s.after(n),
        s.final_result() == s.result_after(n),
        s.final_result() != Ok::<Status, CpuError>(Status::Running),
{
    let k = s.enough_cycles();
    if k <= n {
        law_stopped_stays(s, k, n);
    } else {
        law_stopped_stays(s, n, k);
    }
}

/// The all-zero word halts the machine; the cycle changes nothing but the
/// program counter, which has moved past the word.
pub proof fn law_halt(s: State)
    requires
        s.wf(),
        s.can_fetch(),
        s.fetch() == 0x0000,
    ensures
        s.step_result() == Ok::<Status, CpuError>(Status::Halted),
        s.step_state() == s.with_pc(s.pc + 2),
{
}

/// Executing `6xkk` leaves `kk` in register `x`: the cycle stores it there
/// and moves the program counter to the next instruction.
pub proof fn law_load_immediate(s: State, x: u8, kk: u8)
    requires
        s.wf(),
        s.can_fetch(),
        x < 16,
        s.fetch() == word_xkk(6, x, kk),
    ensures
        s.step_result() == Ok::<Status, CpuError>(Status::Running),
        s.step_state() == s.with_pc(s.pc + 2).with_register(x, kk),
        s.step_state().reg(x) == kk,
{
    lemma_fields_of_word_xkk(6, x, kk);
}

/// Executing `8xy4` sets register 15 to 1 if the sum of registers `x` and
/// `y` is over 255, and to 0 otherwise.
pub proof fn law_add_sets_carry(s: State, x: u8, y: u8)
    requires
        s.wf(),
        s.can_fetch(),
        x < 16,
        y < 16,
        s.fetch() == word_xyd(8, x, y, 4),
    ensures
        s.step_result() == Ok::<Status, CpuError>(Status::Running),
        s.step_state() == s.with_pc(s.pc + 2).add_registers(x, y),
        s.reg(x) + s.reg(y) > 255 ==> s.step_state().reg(15) == 1,
        s.reg(x) + s.reg(y) <= 255 ==> s.step_state().reg(15) == 0,
        x != 15 ==> s.step_state().reg(x) == (s.reg(x) + s.reg(y)) % 256,
{
    lemma_fields_of_word_xyd(8, x, y, 4);
}

/// Executing `8xy5` sets register 15 to 0 if register `x` is less than
/// register `y`, and to 1 otherwise.
pub proof fn law_sub_sets_borrow(s: State, x: u8, y: u8)
    requires
        s.wf(),
        s.can_fetch(),
        x < 16,
        y < 16,
        s.fetch() == word_xyd(8, x, y, 5),
    ensures
        s.step_result() == Ok::<Status, CpuError>(Status::Running),
        s.step_state() == s.with_pc(s.pc + 2).sub_registers(x, y),
        s.reg(x) < s.reg(y) ==> s.step_state().reg(15) == 0,
        s.reg(x) >= s.reg(y) ==> s.step_state().reg(15) == 1,
        x != 15 ==> s.step_state().reg(x) == (s.reg(x) - s.reg(y)) % 256,
{
    lemma_fields_of_word_xyd(8, x, y, 5);
}

/// Executing `2nnn` and then the `00EE` at `nnn` brings the machine back
/// to the instruction after the call, with the stack as it was before:
/// the two cycles change nothing but the program counter.
pub proof fn law_call_then_return(s: State, nnn: u16)
    requires
        s.wf(),
        s.can_fetch(),
        nnn < 0x1000,
        s.fetch() == word_nnn(2, nnn),
        s.stack.len() < 16,
        s.with_pc(nnn as int).can_fetch(),
        s.with_pc(nnn as int).fetch() == 0x00EE,
    ensures
        s.step_result() == Ok::<Status, CpuError>(Status::Running),
        s.step_state().step_result() == Ok::<Status, CpuError>(Status::Running),
        s.step_state().step_state() == s.with_pc(s.pc + 2),
        s.step_state().step_state().stack.len() == s.stack.len(),
{
    lemma_fields_of_word_nnn(2, nnn);
    let called = s.step_state();
    assert(called == s.with_pc(s.pc + 2).call(nnn));
    assert(called.fetch() == s.with_pc(nnn as int).fetch());
    assert(called.stack.drop_last() == s.stack);
}

/// A skip instruction moves the program counter by 4 if its condition
/// holds and by 2 if it does not, and changes nothing else.
pub proof fn law_skip_moves_by_two_or_four(s: State, x: u8, y: u8, kk: u8)
    requires
        s.wf(),
        s.can_fetch(),
        x < 16,
        y < 16,
    ensures
        s.fetch() == word_xkk(3, x, kk) ==> s.step_state() == s.with_pc(
            s.pc + if s.reg(x) == kk { 4int } else { 2int },
        ),
        s.fetch() == word_xkk(4, x, kk) ==> s.step_state() == s.with_pc(
            s.pc + if s.reg(x) != kk { 4int } else { 2int },
        ),
        s.fetch() == word_xyd(5, x, y, 0) ==> s.step_state() == s.with_pc(
            s.pc + if s.reg(x) == s.reg(y) { 4int } else { 2int },
        ),
        s.fetch() == word_xyd(9, x, y, 0) ==> s.step_state() == s.with_pc(
            s.pc + if s.reg(x) != s.reg(y) { 4int } else { 2int },
        ),
        s.fetch() == word_xkk(3, x, kk) || s.fetch() == word_xkk(4, x, kk) || s.fetch()
            == word_xyd(5, x, y, 0) || s.fetch() == word_xyd(9, x, y, 0) ==> s.step_result()
            == Ok::<Status, CpuError>(Status::Running),
{
    lemma_fields_of_word_xkk(3, x, kk);
    lemma_fields_of_word_xkk(4, x, kk);
    lemma_fields_of_word_xyd(5, x, y, 0);
    lemma_fields_of_word_xyd(9, x, y, 0);
}

} // verus!
