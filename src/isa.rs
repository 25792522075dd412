use vstd::prelude::*;
use crate::module::{LoadKind, NumOp, StoreKind};

verus! {

/// How many values a jump discards from below the ones it keeps.
#[derive(Clone, Copy, Debug, PartialEq, Eq, Structural)]
pub struct DropKeep {
    pub drop: usize,
    pub keep: usize,
}

/// A resolved jump: the index of the destination instruction and the stack
/// adjustment made on the way.
#[derive(Clone, Copy, Debug, PartialEq, Eq, Structural)]
pub struct Target {
    pub dst_pc: usize,
    pub drop_keep: DropKeep,
}

/// One instruction of the execution-ready encoding. Structured control flow
/// is gone: every jump names its destination instruction.
#[derive(Clone, Copy, Debug, PartialEq, Eq, Structural)]
pub enum Instruction {
    Unreachable,
    Br(Target),
    /// Pops an `i32`; jumps if it is zero.
    BrIfEqz(Target),
    /// Pops an `i32`; jumps if it is not zero.
    BrIfNez(Target),
    /// Pops an index; followed by `count` `BrTableTarget` entries, the last
    /// of which is the default.
    BrTable(usize),
    BrTableTarget(Target),
    Return(DropKeep),
    Call(u32),
    CallIndirect(u32),
    Drop,
    Select,
    GetLocal(u32),
    SetLocal(u32),
    TeeLocal(u32),
    GetGlobal(u32),
    SetGlobal(u32),
    Load(LoadKind, u32),
    Store(StoreKind, u32),
    CurrentMemory,
    GrowMemory,
    I32Const(i32),
    I64Const(i64),
    F32Const(u32),
    F64Const(u64),
    Num(NumOp),
}

/// The compiled code of one function.
#[derive(Clone, Debug, PartialEq, Eq)]
pub struct Instructions {
    pub code: Vec<Instruction>,
}

impl Instructions {
    pub open spec fn view(&self) -> Seq<Instruction> {
        self.code@
    }

    pub fn len(&self) -> (r: usize)
        ensures
            r == self@.len(),
    {
        self.code.len()
    }

    pub fn get(&self, i: usize) -> (r: Option<Instruction>)
        ensures
            r == (if i < self@.len() { Some(self@[i as int]) } else { None::<Instruction> }),
    {
        if i < self.code.len() {
            Some(self.code[i])
        } else {
            None
        }
    }
}

} // verus!
