use vstd::prelude::*;
use crate::error::{Error, ErrorKind};
use crate::isa;
use crate::isa::{DropKeep, Target};
use crate::module::{
    block_result, block_result_exec, load_max_align, load_max_align_exec, load_type,
    load_type_exec, num_params, num_params_exec, num_result, num_result_exec, store_max_align,
    store_max_align_exec, store_type, store_type_exec, types1, types2, Instruction, Local, Module,
    ValueType,
};

verus! {

/// The construct that opened a control frame.
#[derive(Clone, Copy, Debug, PartialEq, Eq, Structural)]
pub enum FrameKind {
    Function,
    Block,
    Loop,
    If,
    Else,
}

/// A control frame: the construct, its declared result, the value stack
/// height at entry, whether the code that follows is unreachable, and a code
/// offset (for a loop, its first instruction; for an `if`, the conditional
/// jump that skips to the `else` branch).
#[derive(Clone, Copy, Debug, PartialEq, Eq, Structural)]
pub struct Frame {
    pub kind: FrameKind,
    pub result: Option<ValueType>,
    pub height: usize,
    pub unreachable: bool,
    pub start: usize,
}

/// The validator's state: the value-type stack (`None` is a value of unknown
/// type, popped from the polymorphic stack of unreachable code), the control
/// frames, the code emitted so far, and the jumps whose destination is the
/// end of a frame that is still open, as (frame index, code offset).
pub struct State {
    pub vals: Seq<Option<ValueType>>,
    pub frames: Seq<Frame>,
    pub code: Seq<isa::Instruction>,
    pub fixups: Seq<(usize, usize)>,
}

/// The state at the start of a function body with the given result.
pub open spec fn initial_state(result: Option<ValueType>) -> State {
    State {
        vals: Seq::empty(),
        frames: seq![
            Frame { kind: FrameKind::Function, result, height: 0, unreachable: false, start: 0 },
        ],
        code: Seq::empty(),
        fixups: Seq::empty(),
    }
}

pub open spec fn top(s: State) -> Frame {
    s.frames.last()
}

/// Pops one value; below the frame's entry height only unreachable code may pop.
pub open spec fn pop_any(s: State) -> Result<(State, Option<ValueType>), ErrorKind> {
    if s.vals.len() > top(s).height {
        Ok((State { vals: s.vals.drop_last(), ..s }, s.vals.last()))
    } else if top(s).unreachable {
        Ok((s, None))
    } else {
        Err(ErrorKind::Type)
    }
}

pub open spec fn pop_expect(s: State, t: ValueType) -> Result<State, ErrorKind> {
    match pop_any(s) {
        Ok((s2, v)) => if v is None || v == Some(t) {
            Ok(s2)
        } else {
            Err(ErrorKind::Type)
        },
        Err(e) => Err(e),
    }
}

pub open spec fn pop_opt(s: State, t: Option<ValueType>) -> Result<State, ErrorKind> {
    match t {
        Some(t) => pop_expect(s, t),
        None => Ok(s),
    }
}

/// Pops values of the given types, the last type from the top.
pub open spec fn pop_seq(s: State, ts: Seq<ValueType>) -> Result<State, ErrorKind>
    decreases ts.len(),
{
    if ts.len() == 0 {
        Ok(s)
    } else {
        match pop_expect(s, ts.last()) {
            Ok(s2) => pop_seq(s2, ts.drop_last()),
            Err(e) => Err(e),
        }
    }
}

pub open spec fn push(s: State, t: ValueType) -> State {
    State { vals: s.vals.push(Some(t)), ..s }
}

pub open spec fn push_opt(s: State, t: Option<ValueType>) -> State {
    match t {
        Some(t) => push(s, t),
        None => s,
    }
}

pub open spec fn emit(s: State, i: isa::Instruction) -> State {
    State { code: s.code.push(i), ..s }
}

/// Drops the values above the current frame's entry height and marks the
/// rest of the frame unreachable.
pub open spec fn set_unreachable(s: State) -> State {
    let k = s.frames.len() - 1;
    let f = s.frames[k];
    State {
        vals: if s.vals.len() > f.height {
            s.vals.subrange(0, f.height as int)
        } else {
            s.vals
        },
        frames: s.frames.update(k, Frame { unreachable: true, ..f }),
        ..s
    }
}

/// The type a branch to the frame carries: none for a loop, whose label is
/// its start.
pub open spec fn label_type(f: Frame) -> Option<ValueType> {
    if f.kind == FrameKind::Loop {
        None
    } else {
        f.result
    }
}

pub open spec fn arity(t: Option<ValueType>) -> usize {
    if t is Some {
        1
    } else {
        0
    }
}

/// The stack adjustment of a branch to frame `f` taken with `len` values on the stack.
pub open spec fn drop_keep(len: int, f: Frame) -> DropKeep {
    let keep = arity(label_type(f));
    DropKeep {
        drop: if len >= f.height + keep {
            (len - f.height - keep) as usize
        } else {
            0
        },
        keep,
    }
}

/// Which kind of jump instruction to emit.
#[derive(Clone, Copy, Debug, PartialEq, Eq, Structural)]
pub enum JumpKind {
    Br,
    BrIfNez,
    TableEntry,
}

pub open spec fn jump_instr(j: JumpKind, t: Target) -> isa::Instruction {
    match j {
        JumpKind::Br => isa::Instruction::Br(t),
        JumpKind::BrIfNez => isa::Instruction::BrIfNez(t),
        JumpKind::TableEntry => isa::Instruction::BrTableTarget(t),
    }
}

/// Emits a jump to frame `k`. A loop's start is known; the end of any other
/// frame is not, so the jump is recorded to be resolved at that frame's `end`.
pub open spec fn emit_jump(s: State, k: int, j: JumpKind, dk: DropKeep) -> State {
    let f = s.frames[k];
    if f.kind == FrameKind::Loop {
        emit(s, jump_instr(j, Target { dst_pc: f.start, drop_keep: dk }))
    } else {
        State {
            code: s.code.push(jump_instr(j, Target { dst_pc: 0, drop_keep: dk })),
            fixups: s.fixups.push((k as usize, s.code.len() as usize)),
            ..s
        }
    }
}

/// The instruction with its jump destination set to `pc`.
pub open spec fn set_target(i: isa::Instruction, pc: usize) -> isa::Instruction {
    match i {
        isa::Instruction::Br(t) => isa::Instruction::Br(Target { dst_pc: pc, ..t }),
        isa::Instruction::BrIfEqz(t) => isa::Instruction::BrIfEqz(Target { dst_pc: pc, ..t }),
        isa::Instruction::BrIfNez(t) => isa::Instruction::BrIfNez(Target { dst_pc: pc, ..t }),
        isa::Instruction::BrTableTarget(t) => isa::Instruction::BrTableTarget(
            Target { dst_pc: pc, ..t },
        ),
        _ => i,
    }
}

pub open spec fn patch_site(code: Seq<isa::Instruction>, site: usize, pc: usize) -> Seq<
    isa::Instruction,
> {
    if site < code.len() {
        code.update(site as int, set_target(code[site as int], pc))
    } else {
        code
    }
}

/// Points every recorded jump to frame `k` at `pc`.
pub open spec fn resolve(code: Seq<isa::Instruction>, fixups: Seq<(usize, usize)>, k: usize, pc: usize) -> Seq<isa::Instruction>
    decreases fixups.len(),
{
    if fixups.len() == 0 {
        code
    } else {
        let c = resolve(code, fixups.drop_last(), k, pc);
        if fixups.last().0 == k {
            patch_site(c, fixups.last().1, pc)
        } else {
            c
        }
    }
}

/// The recorded jumps that do not go to frame `k`.
pub open spec fn unresolved(fixups: Seq<(usize, usize)>, k: usize) -> Seq<(usize, usize)>
    decreases fixups.len(),
{
    if fixups.len() == 0 {
        fixups
    } else {
        let rest = unresolved(fixups.drop_last(), k);
        if fixups.last().0 == k {
            rest
        } else {
            rest.push(fixups.last())
        }
    }
}

/// Checks the stack at the end of the current frame (or at its `else`): the
/// frame's result on top, nothing below it above the entry height.
pub open spec fn close_check(s: State) -> Result<State, ErrorKind> {
    match pop_opt(s, top(s).result) {
        Ok(s1) => if s1.vals.len() == top(s).height {
            Ok(s1)
        } else {
            Err(ErrorKind::Type)
        },
        Err(e) => Err(e),
    }
}

/// The checks on a branch table, entry by entry: each depth must exist and
/// carry the type `t` of the default.
pub open spec fn table_check(frames: Seq<Frame>, tbl: Seq<u32>, t: Option<ValueType>) -> Result<(), ErrorKind>
    decreases tbl.len(),
{
    if tbl.len() == 0 {
        Ok(())
    } else {
        match table_check(frames, tbl.drop_last(), t) {
            Ok(()) => if tbl.last() as int >= frames.len() {
                Err(ErrorKind::Control)
            } else if label_type(frames[frames.len() - 1 - tbl.last()]) != t {
                Err(ErrorKind::Type)
            } else {
                Ok(())
            },
            Err(e) => Err(e),
        }
    }
}

/// Emits one table entry per depth, each with the stack adjustment for `len` values.
pub open spec fn emit_entries(s: State, tbl: Seq<u32>, len: int) -> State
    decreases tbl.len(),
{
    if tbl.len() == 0 {
        s
    } else {
        let s1 = emit_entries(s, tbl.drop_last(), len);
        let k = s1.frames.len() - 1 - tbl.last();
        emit_jump(s1, k, JumpKind::TableEntry, drop_keep(len, s1.frames[k]))
    }
}

/// The type of local `j` among the declared runs of locals.
pub open spec fn declared_local(locals: Seq<Local>, j: int) -> Option<ValueType>
    decreases locals.len(),
{
    if locals.len() == 0 {
        None
    } else if j < locals[0].count {
        Some(locals[0].value_type)
    } else {
        declared_local(locals.drop_first(), j - locals[0].count)
    }
}

/// The type of local `i` of a function: its parameters come first, then
/// the declared locals.
pub open spec fn local_type(params: Seq<ValueType>, locals: Seq<Local>, i: u32) -> Option<ValueType> {
    if (i as int) < params.len() {
        Some(params[i as int])
    } else {
        declared_local(locals, i - params.len())
    }
}

/// The typing rule and translation of a branch to depth `d` with the stack in
/// state `s` (after any condition was popped).
pub open spec fn branch(s: State, d: u32, j: JumpKind) -> Result<State, ErrorKind> {
    if d as int >= s.frames.len() {
        Err(ErrorKind::Control)
    } else {
        let k = s.frames.len() - 1 - d;
        let t = label_type(s.frames[k]);
        let dk = drop_keep(s.vals.len() as int, s.frames[k]);
        match pop_opt(s, t) {
            Ok(s1) => if j == JumpKind::Br {
                Ok(set_unreachable(emit_jump(s1, k, j, dk)))
            } else {
                Ok(emit_jump(push_opt(s1, t), k, j, dk))
            },
            Err(e) => Err(e),
        }
    }
}

/// The typing rule and translation of a branch table, with the index popped.
pub open spec fn branch_table(s: State, tbl: Seq<u32>, def: u32) -> Result<State, ErrorKind> {
    if def as int >= s.frames.len() {
        Err(ErrorKind::Control)
    } else {
        let t = label_type(s.frames[s.frames.len() - 1 - def]);
        match table_check(s.frames, tbl, t) {
            Ok(()) => match pop_opt(s, t) {
                Ok(s1) => Ok(
                    set_unreachable(
                        emit_entries(
                            emit(s1, isa::Instruction::BrTable(tbl.len() as usize)),
                            tbl.push(def),
                            s.vals.len() as int,
                        ),
                    ),
                ),
                Err(e) => Err(e),
            },
            Err(e) => Err(e),
        }
    }
}

/// The rule of `else`: only inside an `if`; the `then` branch must leave the
/// frame's result, then jumps to the frame's end, and the `if`'s jump is
/// pointed at the `else` branch.
pub open spec fn else_rule(s: State) -> Result<State, ErrorKind> {
    if s.frames.len() == 0 || top(s).kind != FrameKind::If {
        Err(ErrorKind::Control)
    } else {
        let f = top(s);
        let k = s.frames.len() - 1;
        match close_check(s) {
            Ok(s1) => {
                let dk = DropKeep { drop: 0, keep: arity(f.result) };
                let s2 = emit_jump(s1, k, JumpKind::Br, dk);
                Ok(
                    State {
                        code: patch_site(s2.code, f.start, s2.code.len() as usize),
                        frames: s2.frames.update(
                            k,
                            Frame { kind: FrameKind::Else, unreachable: false, ..f },
                        ),
                        ..s2
                    },
                )
            },
            Err(e) => Err(e),
        }
    }
}

/// The rule of `end`: the frame's result must be all that is left of it; an
/// `if` without `else` has no result; the jumps to its end are resolved. The
/// end of the function frame emits the final `return`.
pub open spec fn end_rule(s: State) -> Result<State, ErrorKind> {
    if s.frames.len() == 0 {
        Err(ErrorKind::Control)
    } else {
        let f = top(s);
        let k = (s.frames.len() - 1) as usize;
        match close_check(s) {
            Ok(s1) => if f.kind == FrameKind::If && f.result is Some {
                Err(ErrorKind::Type)
            } else {
                let pc = s1.code.len() as usize;
                let c1 = if f.kind == FrameKind::If {
                    patch_site(s1.code, f.start, pc)
                } else {
                    s1.code
                };
                let s2 = push_opt(
                    State {
                        code: resolve(c1, s1.fixups, k, pc),
                        fixups: unresolved(s1.fixups, k),
                        frames: s1.frames.drop_last(),
                        ..s1
                    },
                    f.result,
                );
                if k == 0 {
                    Ok(emit(s2, isa::Instruction::Return(DropKeep { drop: 0, keep: arity(f.result) })))
                } else {
                    Ok(s2)
                }
            },
            Err(e) => Err(e),
        }
    }
}

/// Pushes a frame opened at the current stack height.
pub open spec fn open_frame(s: State, kind: FrameKind, result: Option<ValueType>, start: usize) -> State {
    State {
        frames: s.frames.push(
            Frame { kind, result, height: s.vals.len() as usize, unreachable: false, start },
        ),
        ..s
    }
}

/// Pops the operands `ts`, pushes `r` and emits `i`.
pub open spec fn plain(s: State, ts: Seq<ValueType>, r: Option<ValueType>, i: isa::Instruction) -> Result<State, ErrorKind> {
    match pop_seq(s, ts) {
        Ok(s1) => Ok(emit(push_opt(s1, r), i)),
        Err(e) => Err(e),
    }
}

/// The typing rule and translation of one instruction of a function body
/// with parameters `params` and declared locals `locals`, in module `m`.
pub open spec fn step(m: Module, params: Seq<ValueType>, locals: Seq<Local>, s: State, ins: Instruction) -> Result<State, ErrorKind> {
    let i32 = ValueType::I32;
    if s.frames.len() == 0 {
        Err(ErrorKind::Control)
    } else {
        match ins {
            Instruction::Unreachable => Ok(set_unreachable(emit(s, isa::Instruction::Unreachable))),
            Instruction::Nop => Ok(s),
            Instruction::Block(b) => Ok(open_frame(s, FrameKind::Block, block_result(b), 0)),
            Instruction::Loop(b) => Ok(
                open_frame(s, FrameKind::Loop, block_result(b), s.code.len() as usize),
            ),
            Instruction::If(b) => match pop_expect(s, i32) {
                Ok(s1) => Ok(
                    open_frame(
                        emit(
                            s1,
                            isa::Instruction::BrIfEqz(
                                Target { dst_pc: 0, drop_keep: DropKeep { drop: 0, keep: 0 } },
                            ),
                        ),
                        FrameKind::If,
                        block_result(b),
                        s1.code.len() as usize,
                    ),
                ),
                Err(e) => Err(e),
            },
            Instruction::Else => else_rule(s),
            Instruction::End => end_rule(s),
            Instruction::Br(d) => branch(s, d, JumpKind::Br),
            Instruction::BrIf(d) => match pop_expect(s, i32) {
                Ok(s1) => branch(s1, d, JumpKind::BrIfNez),
                Err(e) => Err(e),
            },
            Instruction::BrTable(tbl, def) => match pop_expect(s, i32) {
                Ok(s1) => branch_table(s1, tbl@, def),
                Err(e) => Err(e),
            },
            Instruction::Return => {
                let f = s.frames[0];
                let keep = arity(f.result);
                let dk = DropKeep {
                    drop: if s.vals.len() >= keep {
                        (s.vals.len() - keep) as usize
                    } else {
                        0
                    },
                    keep,
                };
                match pop_opt(s, f.result) {
                    Ok(s1) => Ok(set_unreachable(emit(s1, isa::Instruction::Return(dk)))),
                    Err(e) => Err(e),
                }
            },
            Instruction::Call(idx) => match m.signature(idx as int) {
                Some(sig) => plain(s, sig.params@, sig.result, isa::Instruction::Call(idx)),
                None => Err(ErrorKind::Type),
            },
            Instruction::Drop => match pop_any(s) {
                Ok((s1, _)) => Ok(emit(s1, isa::Instruction::Drop)),
                Err(e) => Err(e),
            },
            Instruction::Select => match pop_expect(s, i32) {
                Ok(s1) => match pop_any(s1) {
                    Ok((s2, t1)) => match pop_any(s2) {
                        Ok((s3, t2)) => if t1 is Some && t2 is Some && t1 != t2 {
                            Err(ErrorKind::Type)
                        } else {
                            Ok(
                                emit(
                                    State {
                                        vals: s3.vals.push(if t1 is Some { t1 } else { t2 }),
                                        ..s3
                                    },
                                    isa::Instruction::Select,
                                ),
                            )
                        },
                        Err(e) => Err(e),
                    },
                    Err(e) => Err(e),
                },
                Err(e) => Err(e),
            },
            Instruction::GetLocal(_) | Instruction::SetLocal(_) | Instruction::TeeLocal(_)
            | Instruction::GetGlobal(_) | Instruction::SetGlobal(_) | Instruction::CallIndirect(_) => {
                var_rule(m, params, locals, s, ins)
            },
            Instruction::Load(..) | Instruction::Store(..) | Instruction::CurrentMemory
            | Instruction::GrowMemory => mem_rule(m, s, ins),
            _ => const_rule(s, ins),
        }
    }
}

/// The rules of the instructions that read or write locals and globals, and
/// of calls through the table.
pub open spec fn var_rule(m: Module, params: Seq<ValueType>, locals: Seq<Local>, s: State, ins: Instruction) -> Result<State, ErrorKind> {
    match ins {
        Instruction::CallIndirect(idx) => if m.tables > 0 && (idx as int) < m.types@.len() {
            match pop_expect(s, ValueType::I32) {
                Ok(s1) => plain(
                    s1,
                    m.types@[idx as int].params@,
                    m.types@[idx as int].result,
                    isa::Instruction::CallIndirect(idx),
                ),
                Err(e) => Err(e),
            }
        } else {
            Err(ErrorKind::Type)
        },
        Instruction::GetLocal(i) => match local_type(params, locals, i) {
            Some(t) => plain(s, seq![], Some(t), isa::Instruction::GetLocal(i)),
            None => Err(ErrorKind::Type),
        },
        Instruction::SetLocal(i) => match local_type(params, locals, i) {
            Some(t) => plain(s, seq![t], None, isa::Instruction::SetLocal(i)),
            None => Err(ErrorKind::Type),
        },
        Instruction::TeeLocal(i) => match local_type(params, locals, i) {
            Some(t) => plain(s, seq![t], Some(t), isa::Instruction::TeeLocal(i)),
            None => Err(ErrorKind::Type),
        },
        Instruction::GetGlobal(i) => if (i as int) < m.globals@.len() {
            plain(s, seq![], Some(m.globals@[i as int].value_type), isa::Instruction::GetGlobal(i))
        } else {
            Err(ErrorKind::Type)
        },
        Instruction::SetGlobal(i) => if (i as int) < m.globals@.len()
            && m.globals@[i as int].mutable {
            plain(s, seq![m.globals@[i as int].value_type], None, isa::Instruction::SetGlobal(i))
        } else {
            Err(ErrorKind::Type)
        },
        _ => Err(ErrorKind::Control),
    }
}

/// The rules of the memory instructions: a memory must exist, and an
/// access may not declare an alignment above its width.
pub open spec fn mem_rule(m: Module, s: State, ins: Instruction) -> Result<State, ErrorKind> {
    let i32 = ValueType::I32;
    match ins {
        Instruction::Load(k, align, off) => if m.has_memory() && align
            <= load_max_align(k) {
            plain(s, seq![i32], Some(load_type(k)), isa::Instruction::Load(k, off))
        } else {
            Err(ErrorKind::Type)
        },
        Instruction::Store(k, align, off) => if m.has_memory() && align
            <= store_max_align(k) {
            plain(s, seq![i32, store_type(k)], None, isa::Instruction::Store(k, off))
        } else {
            Err(ErrorKind::Type)
        },
        Instruction::CurrentMemory => if m.has_memory() {
            plain(s, seq![], Some(i32), isa::Instruction::CurrentMemory)
        } else {
            Err(ErrorKind::Type)
        },
        Instruction::GrowMemory => if m.has_memory() {
            plain(s, seq![i32], Some(i32), isa::Instruction::GrowMemory)
        } else {
            Err(ErrorKind::Type)
        },
        _ => Err(ErrorKind::Control),
    }
}

/// The rules of constants and numeric instructions.
pub open spec fn const_rule(s: State, ins: Instruction) -> Result<State, ErrorKind> {
    let i32 = ValueType::I32;
    match ins {
        Instruction::I32Const(v) => plain(s, seq![], Some(i32), isa::Instruction::I32Const(v)),
        Instruction::I64Const(v) => plain(
            s,
            seq![],
            Some(ValueType::I64),
            isa::Instruction::I64Const(v),
        ),
        Instruction::F32Const(v) => plain(
            s,
            seq![],
            Some(ValueType::F32),
            isa::Instruction::F32Const(v),
        ),
        Instruction::F64Const(v) => plain(
            s,
            seq![],
            Some(ValueType::F64),
            isa::Instruction::F64Const(v),
        ),
        Instruction::Num(op) => plain(
            s,
            num_params(op),
            Some(num_result(op)),
            isa::Instruction::Num(op),
        ),
        _ => Err(ErrorKind::Control),
    }
}

/// The state after the first `n` instructions of `code`, or the first
/// failure with its position.
pub open spec fn run(m: Module, params: Seq<ValueType>, locals: Seq<Local>, result: Option<ValueType>, code: Seq<Instruction>, n: nat) -> Result<State, (ErrorKind, usize)>
    decreases n,
{
    if n == 0 {
        Ok(initial_state(result))
    } else {
        match run(m, params, locals, result, code, (n - 1) as nat) {
            Ok(s) => match step(m, params, locals, s, code[n - 1]) {
                Ok(s1) => Ok(s1),
                Err(e) => Err((e, (n - 1) as usize)),
            },
            Err(e) => Err(e),
        }
    }
}

pub open spec fn error_at(kind: ErrorKind, func: usize, pos: usize) -> Error {
    match kind {
        ErrorKind::Type => Error::Type { func, pos },
        ErrorKind::Control => Error::Control { func, pos },
    }
}

/// The compiled code of function `f` of `m`, or the first rule it breaks.
pub open spec fn function_result(m: Module, f: int) -> Result<Seq<isa::Instruction>, Error> {
    match m.body_signature(f) {
        None => Err(Error::Declaration { func: f as usize }),
        Some(sig) => {
            let body = m.bodies@[f];
            let n = body.code@.len();
            match run(m, sig.params@, body.locals@, sig.result, body.code@, n) {
                Ok(s) => if s.frames.len() == 0 {
                    Ok(s.code)
                } else {
                    Err(Error::Control { func: f as usize, pos: n as usize })
                },
                Err((kind, pos)) => Err(error_at(kind, f as usize, pos)),
            }
        },
    }
}

/// The instructions whose rule is to pop operands, push at most one result
/// and emit one instruction.
pub open spec fn is_plain(ins: Instruction) -> bool {
    match ins {
        Instruction::GetLocal(_) | Instruction::SetLocal(_) | Instruction::TeeLocal(_)
        | Instruction::CallIndirect(_) | Instruction::GetGlobal(_) | Instruction::SetGlobal(_) | Instruction::Load(..)
        | Instruction::Store(..) | Instruction::CurrentMemory | Instruction::GrowMemory
        | Instruction::I32Const(_) | Instruction::I64Const(_) | Instruction::F32Const(_)
        | Instruction::F64Const(_) | Instruction::Num(_) => true,
        _ => false,
    }
}

/// The validator's working state.
struct Compiler {
    vals: Vec<Option<ValueType>>,
    frames: Vec<Frame>,
    code: Vec<isa::Instruction>,
    fixups: Vec<(usize, usize)>,
}

fn jump_instr_exec(j: JumpKind, t: Target) -> (r: isa::Instruction)
    ensures
        r == jump_instr(j, t),
{
    match j {
        JumpKind::Br => isa::Instruction::Br(t),
        JumpKind::BrIfNez => isa::Instruction::BrIfNez(t),
        JumpKind::TableEntry => isa::Instruction::BrTableTarget(t),
    }
}

fn set_target_exec(i: isa::Instruction, pc: usize) -> (r: isa::Instruction)
    ensures
        r == set_target(i, pc),
{
    match i {
        isa::Instruction::Br(t) => isa::Instruction::Br(Target { dst_pc: pc, ..t }),
        isa::Instruction::BrIfEqz(t) => isa::Instruction::BrIfEqz(Target { dst_pc: pc, ..t }),
        isa::Instruction::BrIfNez(t) => isa::Instruction::BrIfNez(Target { dst_pc: pc, ..t }),
        isa::Instruction::BrTableTarget(t) => isa::Instruction::BrTableTarget(
            Target { dst_pc: pc, ..t },
        ),
        _ => i,
    }
}

fn arity_exec(t: Option<ValueType>) -> (r: usize)
    ensures
        r == arity(t),
{
    if t.is_some() {
        1
    } else {
        0
    }
}

fn label_type_exec(f: Frame) -> (r: Option<ValueType>)
    ensures
        r == label_type(f),
{
    if f.kind == FrameKind::Loop {
        None
    } else {
        f.result
    }
}

fn drop_keep_exec(len: usize, f: Frame) -> (r: DropKeep)
    ensures
        r == drop_keep(len as int, f),
{
    let keep = arity_exec(label_type_exec(f));
    let drop = if len >= f.height && len - f.height >= keep {
        len - f.height - keep
    } else {
        0
    };
    DropKeep { drop, keep }
}

fn local_type_exec(params: &Vec<ValueType>, locals: &Vec<Local>, i: u32) -> (r: Option<ValueType>)
    ensures
        r == local_type(params@, locals@, i),
{
    let idx = i as usize;
    if idx < params.len() {
        return Some(params[idx]);
    }
    let mut j: usize = idx - params.len();
    let mut k: usize = 0;
    assert(locals@.subrange(0, locals@.len() as int) =~= locals@);
    while k < locals.len()
        invariant
            k <= locals@.len(),
            local_type(params@, locals@, i) == declared_local(
                locals@.subrange(k as int, locals@.len() as int),
                j as int,
            ),
        decreases locals@.len() - k,
    {
        let l = locals[k];
        assert(locals@.subrange(k as int, locals@.len() as int)[0] == l);
        assert(locals@.subrange(k as int, locals@.len() as int).drop_first() =~= locals@.subrange(
            k + 1,
            locals@.len() as int,
        ));
        if j < l.count as usize {
            return Some(l.value_type);
        }
        j = j - l.count as usize;
        k = k + 1;
    }
    None
}

impl Compiler {
    spec fn view(&self) -> State {
        State {
            vals: self.vals@,
            frames: self.frames@,
            code: self.code@,
            fixups: self.fixups@,
        }
    }

    fn new(result: Option<ValueType>) -> (r: Compiler)
        ensures
            r@ == initial_state(result),
    {
        let mut frames: Vec<Frame> = Vec::new();
        frames.push(
            Frame { kind: FrameKind::Function, result, height: 0, unreachable: false, start: 0 },
        );
        let r = Compiler { vals: Vec::new(), frames, code: Vec::new(), fixups: Vec::new() };
        assert(r@.frames =~= initial_state(result).frames);
        assert(r@.vals =~= initial_state(result).vals);
        assert(r@.code =~= initial_state(result).code);
        assert(r@.fixups =~= initial_state(result).fixups);
        r
    }

    fn top(&self) -> (r: Frame)
        requires
            self@.frames.len() > 0,
        ensures
            r == top(self@),
    {
        self.frames[self.frames.len() - 1]
    }

    fn pop_any(&mut self) -> (r: Result<Option<ValueType>, ErrorKind>)
        requires
            old(self)@.frames.len() > 0,
        ensures
            match pop_any(old(self)@) {
                Ok((s, v)) => r == Ok::<Option<ValueType>, ErrorKind>(v) && final(self)@ == s,
                Err(e) => r == Err::<Option<ValueType>, ErrorKind>(e),
            },
    {
        let f = self.top();
        if self.vals.len() > f.height {
            let v = self.vals.pop().unwrap();
            assert(self.vals@ =~= old(self).vals@.drop_last());
            Ok(v)
        } else if f.unreachable {
            Ok(None)
        } else {
            Err(ErrorKind::Type)
        }
    }

    fn pop_expect(&mut self, t: ValueType) -> (r: Result<(), ErrorKind>)
        requires
            old(self)@.frames.len() > 0,
        ensures
            match pop_expect(old(self)@, t) {
                Ok(s) => r is Ok && final(self)@ == s,
                Err(e) => r == Err::<(), ErrorKind>(e),
            },
    {
        match self.pop_any() {
            Ok(v) => if v.is_none() || v == Some(t) {
                Ok(())
            } else {
                Err(ErrorKind::Type)
            },
            Err(e) => Err(e),
        }
    }

    fn pop_opt(&mut self, t: Option<ValueType>) -> (r: Result<(), ErrorKind>)
        requires
            old(self)@.frames.len() > 0,
        ensures
            match pop_opt(old(self)@, t) {
                Ok(s) => r is Ok && final(self)@ == s,
                Err(e) => r == Err::<(), ErrorKind>(e),
            },
    {
        match t {
            Some(t) => self.pop_expect(t),
            None => Ok(()),
        }
    }

    fn pop_seq(&mut self, ts: &Vec<ValueType>) -> (r: Result<(), ErrorKind>)
        requires
            old(self)@.frames.len() > 0,
        ensures
            match pop_seq(old(self)@, ts@) {
                Ok(s) => r is Ok && final(self)@ == s,
                Err(e) => r == Err::<(), ErrorKind>(e),
            },
    {
        let mut i = ts.len();
        assert(ts@.take(i as int) =~= ts@);
        while i > 0
            invariant
                i <= ts@.len(),
                self@.frames == old(self)@.frames,
                old(self)@.frames.len() > 0,
                pop_seq(old(self)@, ts@) == pop_seq(self@, ts@.take(i as int)),
            decreases i,
        {
            assert(ts@.take(i as int).drop_last() =~= ts@.take(i - 1));
            match self.pop_expect(ts[i - 1]) {
                Ok(()) => {},
                Err(e) => {
                    return Err(e);
                },
            }
            i = i - 1;
        }
        assert(ts@.take(0) =~= Seq::<ValueType>::empty());
        Ok(())
    }

    fn push(&mut self, t: ValueType)
        ensures
            final(self)@ == push(old(self)@, t),
    {
        self.vals.push(Some(t));
    }

    fn push_opt(&mut self, t: Option<ValueType>)
        ensures
            final(self)@ == push_opt(old(self)@, t),
    {
        match t {
            Some(t) => self.push(t),
            None => {},
        }
    }

    fn emit(&mut self, i: isa::Instruction)
        ensures
            final(self)@ == emit(old(self)@, i),
    {
        self.code.push(i);
    }

    fn set_unreachable(&mut self)
        requires
            old(self)@.frames.len() > 0,
        ensures
            final(self)@ == set_unreachable(old(self)@),
    {
        let k = self.frames.len() - 1;
        let f = self.frames[k];
        if self.vals.len() > f.height {
            self.vals.truncate(f.height);
        }
        self.frames.set(k, Frame { unreachable: true, ..f });
    }

    fn emit_jump(&mut self, k: usize, j: JumpKind, dk: DropKeep)
        requires
            k < old(self)@.frames.len(),
        ensures
            final(self)@ == emit_jump(old(self)@, k as int, j, dk),
    {
        let f = self.frames[k];
        if f.kind == FrameKind::Loop {
            self.emit(jump_instr_exec(j, Target { dst_pc: f.start, drop_keep: dk }));
        } else {
            let site = self.code.len();
            self.code.push(jump_instr_exec(j, Target { dst_pc: 0, drop_keep: dk }));
            self.fixups.push((k, site));
        }
    }

    fn patch_site(&mut self, site: usize, pc: usize)
        ensures
            final(self)@ == (State { code: patch_site(old(self)@.code, site, pc), ..old(self)@ }),
    {
        if site < self.code.len() {
            let i = set_target_exec(self.code[site], pc);
            self.code.set(site, i);
        }
    }

    /// Points the recorded jumps to frame `k` at `pc` and forgets them.
    fn resolve(&mut self, k: usize, pc: usize)
        ensures
            final(self)@ == (State {
                code: resolve(old(self)@.code, old(self)@.fixups, k, pc),
                fixups: unresolved(old(self)@.fixups, k),
                ..old(self)@
            }),
    {
        let mut kept: Vec<(usize, usize)> = Vec::new();
        let mut i: usize = 0;
        while i < self.fixups.len()
            invariant
                i <= self.fixups@.len(),
                self.fixups@ == old(self)@.fixups,
                self.vals@ == old(self)@.vals,
                self.frames@ == old(self)@.frames,
                self.code@ == resolve(old(self)@.code, self.fixups@.take(i as int), k, pc),
                kept@ == unresolved(self.fixups@.take(i as int), k),
            decreases self.fixups@.len() - i,
        {
            let ghost fx = self.fixups@;
            assert(fx.take(i + 1).drop_last() =~= fx.take(i as int));
            let (fk, site) = self.fixups[i];
            if fk == k {
                self.patch_site(site, pc);
            } else {
                kept.push((fk, site));
            }
            i = i + 1;
        }
        assert(self.fixups@.take(i as int) =~= self.fixups@);
        self.fixups = kept;
    }

    fn close_check(&mut self) -> (r: Result<(), ErrorKind>)
        requires
            old(self)@.frames.len() > 0,
        ensures
            match close_check(old(self)@) {
                Ok(s) => r is Ok && final(self)@ == s,
                Err(e) => r == Err::<(), ErrorKind>(e),
            },
    {
        let f = self.top();
        match self.pop_opt(f.result) {
            Ok(()) => if self.vals.len() == f.height {
                Ok(())
            } else {
                Err(ErrorKind::Type)
            },
            Err(e) => Err(e),
        }
    }

    fn open_frame(&mut self, kind: FrameKind, result: Option<ValueType>, start: usize)
        ensures
            final(self)@ == open_frame(old(self)@, kind, result, start),
    {
        let height = self.vals.len();
        self.frames.push(Frame { kind, result, height, unreachable: false, start });
    }

    fn plain(&mut self, ts: &Vec<ValueType>, r: Option<ValueType>, i: isa::Instruction) -> (res: Result<(), ErrorKind>)
        requires
            old(self)@.frames.len() > 0,
        ensures
            match plain(old(self)@, ts@, r, i) {
                Ok(s) => res is Ok && final(self)@ == s,
                Err(e) => res == Err::<(), ErrorKind>(e),
            },
    {
        match self.pop_seq(ts) {
            Ok(()) => {
                self.push_opt(r);
                self.emit(i);
                Ok(())
            },
            Err(e) => Err(e),
        }
    }
    fn branch(&mut self, d: u32, j: JumpKind) -> (r: Result<(), ErrorKind>)
        requires
            old(self)@.frames.len() > 0,
        ensures
            match branch(old(self)@, d, j) {
                Ok(s) => r is Ok && final(self)@ == s,
                Err(e) => r == Err::<(), ErrorKind>(e),
            },
    {
        let n = self.frames.len();
        if d as usize >= n {
            return Err(ErrorKind::Control);
        }
        let k = n - 1 - d as usize;
        let f = self.frames[k];
        let t = label_type_exec(f);
        let dk = drop_keep_exec(self.vals.len(), f);
        match self.pop_opt(t) {
            Ok(()) => {},
            Err(e) => {
                return Err(e);
            },
        }
        if j == JumpKind::Br {
            self.emit_jump(k, j, dk);
            self.set_unreachable();
        } else {
            self.push_opt(t);
            self.emit_jump(k, j, dk);
        }
        Ok(())
    }

    fn branch_table(&mut self, tbl: &Vec<u32>, def: u32) -> (r: Result<(), ErrorKind>)
        requires
            old(self)@.frames.len() > 0,
        ensures
            match branch_table(old(self)@, tbl@, def) {
                Ok(s) => r is Ok && final(self)@ == s,
                Err(e) => r == Err::<(), ErrorKind>(e),
            },
    {
        let n = self.frames.len();
        if def as usize >= n {
            return Err(ErrorKind::Control);
        }
        let t = label_type_exec(self.frames[n - 1 - def as usize]);
        assert(t == label_type(self@.frames[self@.frames.len() - 1 - def]));
        let mut i: usize = 0;
        while i < tbl.len()
            invariant
                i <= tbl@.len(),
                n == self@.frames.len(),
                self@ == old(self)@,
                (def as int) < n,
                t == label_type(self@.frames[self@.frames.len() - 1 - def]),
                table_check(self@.frames, tbl@.take(i as int), t) == Ok::<(), ErrorKind>(()),
                forall|j: int| 0 <= j < i ==> (tbl@[j] as int) < n,
            decreases tbl@.len() - i,
        {
            assert(tbl@.take(i + 1).drop_last() =~= tbl@.take(i as int));
            let d = tbl[i];
            assert(tbl@.take(i + 1).last() == tbl@[i as int]);
            if d as usize >= n {
                assert(table_check(self@.frames, tbl@.take(i + 1), t) == Err::<(), ErrorKind>(
                    ErrorKind::Control,
                ));
                proof {
                    lemma_table_check_prefix(self@.frames, tbl@, i + 1, t);
                }
                assert(branch_table(self@, tbl@, def) == Err::<State, ErrorKind>(ErrorKind::Control));
                return Err(ErrorKind::Control);
            }
            if !opt_eq(label_type_exec(self.frames[n - 1 - d as usize]), t) {
                assert(table_check(self@.frames, tbl@.take(i + 1), t) == Err::<(), ErrorKind>(
                    ErrorKind::Type,
                ));
                proof {
                    lemma_table_check_prefix(self@.frames, tbl@, i + 1, t);
                }
                assert(branch_table(self@, tbl@, def) == Err::<State, ErrorKind>(ErrorKind::Type));
                return Err(ErrorKind::Type);
            }
            i = i + 1;
        }
        assert(tbl@.take(i as int) =~= tbl@);
        let len = self.vals.len();
        match self.pop_opt(t) {
            Ok(()) => {},
            Err(e) => {
                return Err(e);
            },
        }
        self.emit(isa::Instruction::BrTable(tbl.len()));
        let ghost s1 = self@;
        let mut i: usize = 0;
        while i < tbl.len()
            invariant
                i <= tbl@.len(),
                n == self@.frames.len(),
                self@.frames == s1.frames,
                s1.frames.len() == n,
                len == old(self)@.vals.len(),
                self@ == emit_entries(s1, tbl@.take(i as int), len as int),
                forall|j: int| 0 <= j < tbl@.len() ==> (tbl@[j] as int) < n,
            decreases tbl@.len() - i,
        {
            assert(tbl@.take(i + 1).drop_last() =~= tbl@.take(i as int));
            assert((tbl@[i as int] as int) < n);
            let k = n - 1 - tbl[i] as usize;
            let dk = drop_keep_exec(len, self.frames[k]);
            self.emit_jump(k, JumpKind::TableEntry, dk);
            i = i + 1;
        }
        assert(tbl@.take(i as int) =~= tbl@);
        assert(tbl@.push(def).drop_last() =~= tbl@);
        let k = n - 1 - def as usize;
        let dk = drop_keep_exec(len, self.frames[k]);
        self.emit_jump(k, JumpKind::TableEntry, dk);
        self.set_unreachable();
        Ok(())
    }

    fn else_rule(&mut self) -> (r: Result<(), ErrorKind>)
        ensures
            match else_rule(old(self)@) {
                Ok(s) => r is Ok && final(self)@ == s,
                Err(e) => r == Err::<(), ErrorKind>(e),
            },
    {
        if self.frames.len() == 0 || self.top().kind != FrameKind::If {
            return Err(ErrorKind::Control);
        }
        let f = self.top();
        let k = self.frames.len() - 1;
        match self.close_check() {
            Ok(()) => {},
            Err(e) => {
                return Err(e);
            },
        }
        let dk = DropKeep { drop: 0, keep: arity_exec(f.result) };
        self.emit_jump(k, JumpKind::Br, dk);
        let pc = self.code.len();
        self.patch_site(f.start, pc);
        self.frames.set(k, Frame { kind: FrameKind::Else, unreachable: false, ..f });
        Ok(())
    }

    fn end_rule(&mut self) -> (r: Result<(), ErrorKind>)
        ensures
            match end_rule(old(self)@) {
                Ok(s) => r is Ok && final(self)@ == s,
                Err(e) => r == Err::<(), ErrorKind>(e),
            },
    {
        if self.frames.len() == 0 {
            return Err(ErrorKind::Control);
        }
        let f = self.top();
        let k = self.frames.len() - 1;
        match self.close_check() {
            Ok(()) => {},
            Err(e) => {
                return Err(e);
            },
        }
        if f.kind == FrameKind::If && f.result.is_some() {
            return Err(ErrorKind::Type);
        }
        let pc = self.code.len();
        if f.kind == FrameKind::If {
            self.patch_site(f.start, pc);
        }
        self.resolve(k, pc);
        self.frames.pop();
        assert(self.frames@ =~= old(self)@.frames.drop_last());
        self.push_opt(f.result);
        if k == 0 {
            self.emit(isa::Instruction::Return(DropKeep { drop: 0, keep: arity_exec(f.result) }));
        }
        Ok(())
    }

    /// The instructions that pop operands, push a result and emit one instruction.
    #[verifier::rlimit(100)]
    fn step_plain(&mut self, m: &Module, params: &Vec<ValueType>, locals: &Vec<Local>, ins: &Instruction) -> (r: Result<(), ErrorKind>)
        requires
            old(self)@.frames.len() > 0,
            is_plain(*ins),
        ensures
            match step(*m, params@, locals@, old(self)@, *ins) {
                Ok(s) => r is Ok && final(self)@ == s,
                Err(e) => r == Err::<(), ErrorKind>(e),
            },
    {
        let none: Vec<ValueType> = Vec::new();
        assert(none@ =~= Seq::<ValueType>::empty());
        match ins {
            Instruction::CallIndirect(idx) => if m.tables > 0 && (*idx as usize) < m.types.len() {
                match self.pop_expect(ValueType::I32) {
                    Ok(()) => {
                        let t = &m.types[*idx as usize];
                        self.plain(&t.params, t.result, isa::Instruction::CallIndirect(*idx))
                    },
                    Err(e) => Err(e),
                }
            } else {
                Err(ErrorKind::Type)
            },
            Instruction::GetLocal(i) => match local_type_exec(params, locals, *i) {
                Some(t) => self.plain(&none, Some(t), isa::Instruction::GetLocal(*i)),
                None => Err(ErrorKind::Type),
            },
            Instruction::SetLocal(i) => match local_type_exec(params, locals, *i) {
                Some(t) => self.plain(&types1(t), None, isa::Instruction::SetLocal(*i)),
                None => Err(ErrorKind::Type),
            },
            Instruction::TeeLocal(i) => match local_type_exec(params, locals, *i) {
                Some(t) => self.plain(&types1(t), Some(t), isa::Instruction::TeeLocal(*i)),
                None => Err(ErrorKind::Type),
            },
            Instruction::GetGlobal(i) => if (*i as usize) < m.globals.len() {
                let t = m.globals[*i as usize].value_type;
                self.plain(&none, Some(t), isa::Instruction::GetGlobal(*i))
            } else {
                Err(ErrorKind::Type)
            },
            Instruction::SetGlobal(i) => if (*i as usize) < m.globals.len()
                && m.globals[*i as usize].mutable {
                let t = m.globals[*i as usize].value_type;
                self.plain(&types1(t), None, isa::Instruction::SetGlobal(*i))
            } else {
                Err(ErrorKind::Type)
            },
            Instruction::Load(k, align, off) => if m.has_memory_exec() && *align
                <= load_max_align_exec(*k) {
                self.plain(
                    &types1(ValueType::I32),
                    Some(load_type_exec(*k)),
                    isa::Instruction::Load(*k, *off),
                )
            } else {
                Err(ErrorKind::Type)
            },
            Instruction::Store(k, align, off) => if m.has_memory_exec() && *align
                <= store_max_align_exec(*k) {
                self.plain(
                    &types2(ValueType::I32, store_type_exec(*k)),
                    None,
                    isa::Instruction::Store(*k, *off),
                )
            } else {
                Err(ErrorKind::Type)
            },
            Instruction::CurrentMemory => if m.has_memory_exec() {
                self.plain(&none, Some(ValueType::I32), isa::Instruction::CurrentMemory)
            } else {
                Err(ErrorKind::Type)
            },
            Instruction::GrowMemory => if m.has_memory_exec() {
                self.plain(
                    &types1(ValueType::I32),
                    Some(ValueType::I32),
                    isa::Instruction::GrowMemory,
                )
            } else {
                Err(ErrorKind::Type)
            },
            Instruction::I32Const(v) => self.plain(
                &none,
                Some(ValueType::I32),
                isa::Instruction::I32Const(*v),
            ),
            Instruction::I64Const(v) => self.plain(
                &none,
                Some(ValueType::I64),
                isa::Instruction::I64Const(*v),
            ),
            Instruction::F32Const(v) => self.plain(
                &none,
                Some(ValueType::F32),
                isa::Instruction::F32Const(*v),
            ),
            Instruction::F64Const(v) => self.plain(
                &none,
                Some(ValueType::F64),
                isa::Instruction::F64Const(*v),
            ),
            Instruction::Num(op) => self.plain(
                &num_params_exec(*op),
                Some(num_result_exec(*op)),
                isa::Instruction::Num(*op),
            ),
            _ => Err(ErrorKind::Control),
        }
    }

    #[verifier::rlimit(100)]
    fn step(&mut self, m: &Module, params: &Vec<ValueType>, locals: &Vec<Local>, ins: &Instruction) -> (r: Result<(), ErrorKind>)
        ensures
            match step(*m, params@, locals@, old(self)@, *ins) {
                Ok(s) => r is Ok && final(self)@ == s,
                Err(e) => r == Err::<(), ErrorKind>(e),
            },
    {
        if self.frames.len() == 0 {
            return Err(ErrorKind::Control);
        }
        let none: Vec<ValueType> = Vec::new();
        assert(none@ =~= Seq::<ValueType>::empty());
        match ins {
            Instruction::Unreachable => {
                self.emit(isa::Instruction::Unreachable);
                self.set_unreachable();
                Ok(())
            },
            Instruction::Nop => Ok(()),
            Instruction::Block(b) => {
                self.open_frame(FrameKind::Block, block_result_exec(*b), 0);
                Ok(())
            },
            Instruction::Loop(b) => {
                let pc = self.code.len();
                self.open_frame(FrameKind::Loop, block_result_exec(*b), pc);
                Ok(())
            },
            Instruction::If(b) => match self.pop_expect(ValueType::I32) {
                Ok(()) => {
                    let site = self.code.len();
                    self.emit(
                        isa::Instruction::BrIfEqz(
                            Target { dst_pc: 0, drop_keep: DropKeep { drop: 0, keep: 0 } },
                        ),
                    );
                    self.open_frame(FrameKind::If, block_result_exec(*b), site);
                    Ok(())
                },
                Err(e) => Err(e),
            },
            Instruction::Else => self.else_rule(),
            Instruction::End => self.end_rule(),
            Instruction::Br(d) => self.branch(*d, JumpKind::Br),
            Instruction::BrIf(d) => match self.pop_expect(ValueType::I32) {
                Ok(()) => self.branch(*d, JumpKind::BrIfNez),
                Err(e) => Err(e),
            },
            Instruction::BrTable(tbl, def) => match self.pop_expect(ValueType::I32) {
                Ok(()) => self.branch_table(tbl, *def),
                Err(e) => Err(e),
            },
            Instruction::Return => {
                let f = self.frames[0];
                let keep = arity_exec(f.result);
                let drop = if self.vals.len() >= keep {
                    self.vals.len() - keep
                } else {
                    0
                };
                match self.pop_opt(f.result) {
                    Ok(()) => {
                        self.emit(isa::Instruction::Return(DropKeep { drop, keep }));
                        self.set_unreachable();
                        Ok(())
                    },
                    Err(e) => Err(e),
                }
            },
            Instruction::Call(idx) => match m.signature_exec(*idx as usize) {
                Some(sig) => self.plain(&sig.params, sig.result, isa::Instruction::Call(*idx)),
                None => Err(ErrorKind::Type),
            },
            Instruction::Drop => match self.pop_any() {
                Ok(_) => {
                    self.emit(isa::Instruction::Drop);
                    Ok(())
                },
                Err(e) => Err(e),
            },
            Instruction::Select => {
                match self.pop_expect(ValueType::I32) {
                    Ok(()) => {},
                    Err(e) => {
                        return Err(e);
                    },
                }
                let t1 = match self.pop_any() {
                    Ok(t) => t,
                    Err(e) => {
                        return Err(e);
                    },
                };
                let t2 = match self.pop_any() {
                    Ok(t) => t,
                    Err(e) => {
                        return Err(e);
                    },
                };
                if t1.is_some() && t2.is_some() && !opt_eq(t1, t2) {
                    return Err(ErrorKind::Type);
                }
                self.vals.push(
                    if t1.is_some() {
                        t1
                    } else {
                        t2
                    },
                );
                self.emit(isa::Instruction::Select);
                Ok(())
            },
            _ => self.step_plain(m, params, locals, ins),
        }
    }
}

fn opt_eq(a: Option<ValueType>, b: Option<ValueType>) -> (r: bool)
    ensures
        r == (a == b),
{
    match (a, b) {
        (Some(x), Some(y)) => x == y,
        (None, None) => true,
        _ => false,
    }
}

proof fn lemma_table_check_prefix(frames: Seq<Frame>, tbl: Seq<u32>, i: int, t: Option<ValueType>)
    requires
        0 <= i <= tbl.len(),
        table_check(frames, tbl.take(i), t) is Err,
    ensures
        table_check(frames, tbl, t) == table_check(frames, tbl.take(i), t),
    decreases tbl.len(),
{
    if i == tbl.len() {
        assert(tbl.take(i) =~= tbl);
    } else {
        assert(tbl.drop_last().take(i) =~= tbl.take(i));
        lemma_table_check_prefix(frames, tbl.drop_last(), i, t);
    }
}

/// Once a prefix of a body fails, the whole body fails the same way.
pub proof fn lemma_run_err(m: Module, params: Seq<ValueType>, locals: Seq<Local>, result: Option<ValueType>, code: Seq<Instruction>, j: nat, n: nat)
    requires
        j <= n,
        run(m, params, locals, result, code, j) is Err,
    ensures
        run(m, params, locals, result, code, n) == run(m, params, locals, result, code, j),
    decreases n,
{
    if n > j {
        lemma_run_err(m, params, locals, result, code, j, (n - 1) as nat);
    }
}

fn error_at_exec(kind: ErrorKind, func: usize, pos: usize) -> (r: Error)
    ensures
        r == error_at(kind, func, pos),
{
    match kind {
        ErrorKind::Type => Error::Type { func, pos },
        ErrorKind::Control => Error::Control { func, pos },
    }
}

/// Validates function `f` of `m` and compiles its body.
pub fn compile_function(m: &Module, f: usize) -> (r: Result<isa::Instructions, Error>)
    requires
        f < m.bodies@.len(),
    ensures
        match function_result(*m, f as int) {
            Ok(c) => r is Ok && r->Ok_0@ == c,
            Err(e) => r == Err::<isa::Instructions, Error>(e),
        },
{
    let sig = match m.body_signature_exec(f) {
        Some(sig) => sig,
        None => {
            return Err(Error::Declaration { func: f });
        },
    };
    let body = &m.bodies[f];
    let mut c = Compiler::new(sig.result);
    let mut i: usize = 0;
    while i < body.code.len()
        invariant
            i <= body.code@.len(),
            f < m.bodies@.len(),
            m.body_signature(f as int) == Some(*sig),
            *body == m.bodies@[f as int],
            run(*m, sig.params@, body.locals@, sig.result, body.code@, i as nat) == Ok::<
                State,
                (ErrorKind, usize),
            >(c@),
        decreases body.code@.len() - i,
    {
        let ghost s0 = c@;
        match c.step(m, &sig.params, &body.locals, &body.code[i]) {
            Ok(()) => {},
            Err(e) => {
                assert(run(*m, sig.params@, body.locals@, sig.result, body.code@, (i + 1) as nat)
                    == Err::<State, (ErrorKind, usize)>((e, i)));
                proof {
                    lemma_run_err(
                        *m,
                        sig.params@,
                        body.locals@,
                        sig.result,
                        body.code@,
                        (i + 1) as nat,
                        body.code@.len(),
                    );
                }
                assert(run(*m, sig.params@, body.locals@, sig.result, body.code@, body.code@.len())
                    == Err::<State, (ErrorKind, usize)>((e, i)));
                assert(function_result(*m, f as int) == Err::<Seq<isa::Instruction>, Error>(
                    error_at(e, f, i),
                ));
                return Err(error_at_exec(e, f, i));
            },
        }
        i = i + 1;
    }
    if c.frames.len() == 0 {
        Ok(isa::Instructions { code: c.code })
    } else {
        Err(Error::Control { func: f, pos: body.code.len() })
    }
}

/// Popping from an unreachable frame whose own values are used up yields
/// values of unknown type and leaves the state as it is.
pub proof fn lemma_polymorphic_pops(s: State, ts: Seq<ValueType>)
    requires
        s.frames.len() > 0,
        top(s).unreachable,
        s.vals.len() <= top(s).height,
    ensures
        pop_seq(s, ts) == Ok::<State, ErrorKind>(s),
    decreases ts.len(),
{
    if ts.len() > 0 {
        lemma_polymorphic_pops(s, ts.drop_last());
    }
}

proof fn lemma_emit_entries_frames(s: State, tbl: Seq<u32>, len: int)
    ensures
        emit_entries(s, tbl, len).frames == s.frames,
    decreases tbl.len(),
{
    if tbl.len() > 0 {
        lemma_emit_entries_frames(s, tbl.drop_last(), len);
    }
}

/// After `unreachable`, `br`, `br_table` or `return`, the rest of the
/// enclosing frame is unreachable: its stack is polymorphic, so popping any
/// sequence of operand types succeeds until the frame's `end` or `else`.
pub proof fn lemma_after_terminator(m: Module, params: Seq<ValueType>, locals: Seq<Local>, s: State, ins: Instruction, ts: Seq<ValueType>)
    requires
        ins is Unreachable || ins is Br || ins is BrTable || ins is Return,
        step(m, params, locals, s, ins) is Ok,
    ensures
        top(step(m, params, locals, s, ins)->Ok_0).unreachable,
        pop_seq(step(m, params, locals, s, ins)->Ok_0, ts) == Ok::<State, ErrorKind>(
            step(m, params, locals, s, ins)->Ok_0,
        ),
{
    let s2 = step(m, params, locals, s, ins)->Ok_0;
    match ins {
        Instruction::BrTable(tbl, def) => {
            let s0 = pop_expect(s, ValueType::I32)->Ok_0;
            let t = label_type(s0.frames[s0.frames.len() - 1 - def]);
            let s1 = pop_opt(s0, t)->Ok_0;
            lemma_emit_entries_frames(
                emit(s1, isa::Instruction::BrTable(tbl@.len() as usize)),
                tbl@.push(def),
                s0.vals.len() as int,
            );
        },
        _ => {},
    }
    lemma_polymorphic_pops(s2, ts);
}

} // verus!
