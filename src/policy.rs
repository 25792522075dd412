use vstd::prelude::*;
use crate::error::{Error, FloatWidth};
use crate::module::{
    float_width, ConvOp, FloatType, Instruction, IntType, LoadKind, MemoryType, Module, NumOp,
    StoreKind, ValueType,
};

verus! {

/// The float width a numeric instruction works on, if any. A conversion to
/// a float counts by the float it produces; a truncation counts as f32 only
/// from f32 to i32, and as f64 otherwise; a conversion between the two float
/// widths counts as f64; a reinterpretation by the width of its operand and
/// result.
pub open spec fn num_float_class(op: NumOp) -> Option<FloatWidth> {
    match op {
        NumOp::FloatRel(t, _) | NumOp::FloatUn(t, _) | NumOp::FloatBin(t, _) => Some(
            float_width(t),
        ),
        NumOp::Conv(c) => match c {
            ConvOp::Convert(f, _, _) => Some(float_width(f)),
            ConvOp::F32DemoteF64 => Some(FloatWidth::F64),
            ConvOp::F64PromoteF32 => Some(FloatWidth::F64),
            ConvOp::Trunc(IntType::I32, FloatType::F32, _) => Some(FloatWidth::F32),
            ConvOp::Trunc(..) => Some(FloatWidth::F64),
            ConvOp::ReinterpretFloat(IntType::I32) => Some(FloatWidth::F32),
            ConvOp::ReinterpretFloat(IntType::I64) => Some(FloatWidth::F64),
            ConvOp::ReinterpretInt(f) => Some(float_width(f)),
            _ => None,
        },
        _ => None,
    }
}

/// The float width an instruction is classed under, if any.
pub open spec fn float_class(i: Instruction) -> Option<FloatWidth> {
    match i {
        Instruction::Load(LoadKind::F32Load, _, _) => Some(FloatWidth::F32),
        Instruction::Load(LoadKind::F64Load, _, _) => Some(FloatWidth::F64),
        Instruction::Store(StoreKind::F32Store, _, _) => Some(FloatWidth::F32),
        Instruction::Store(StoreKind::F64Store, _, _) => Some(FloatWidth::F64),
        Instruction::F32Const(_) => Some(FloatWidth::F32),
        Instruction::F64Const(_) => Some(FloatWidth::F64),
        Instruction::Num(op) => num_float_class(op),
        _ => None,
    }
}

/// 64-bit float instructions are always denied; 32-bit ones only when
/// `allow_f32` is set, since otherwise the signature check forbids f32.
pub open spec fn denied_instr(i: Instruction, allow_f32: bool) -> bool {
    match float_class(i) {
        Some(FloatWidth::F64) => true,
        Some(FloatWidth::F32) => allow_f32,
        None => false,
    }
}

pub open spec fn denied_type(t: ValueType, allow_f32: bool) -> bool {
    t == ValueType::F64 || (!allow_f32 && t == ValueType::F32)
}

/// Instruction `pos` of function body `f` is denied.
pub open spec fn denied_at(m: Module, f: int, pos: int, allow_f32: bool) -> bool {
    &&& 0 <= f < m.bodies@.len()
    &&& 0 <= pos < m.bodies@[f].code@.len()
    &&& denied_instr(m.bodies@[f].code@[pos], allow_f32)
}

/// The signature of defined function `f` has a denied parameter or result type.
pub open spec fn denied_signature(m: Module, f: int, allow_f32: bool) -> bool {
    match m.body_signature(f) {
        Some(sig) => (exists|j: int|
            0 <= j < sig.params@.len() && denied_type(#[trigger] sig.params@[j], allow_f32)) || (
        sig.result matches Some(t) && denied_type(t, allow_f32)),
        None => false,
    }
}

pub open spec fn no_denied_instr(m: Module, allow_f32: bool) -> bool {
    forall|f: int, p: int| !#[trigger] denied_at(m, f, p, allow_f32)
}

fn num_float_class_exec(op: NumOp) -> (r: Option<FloatWidth>)
    ensures
        r == num_float_class(op),
{
    match op {
        NumOp::FloatRel(t, _) | NumOp::FloatUn(t, _) | NumOp::FloatBin(t, _) => match t {
            FloatType::F32 => Some(FloatWidth::F32),
            FloatType::F64 => Some(FloatWidth::F64),
        },
        NumOp::Conv(c) => match c {
            ConvOp::Convert(FloatType::F32, _, _) => Some(FloatWidth::F32),
            ConvOp::Convert(FloatType::F64, _, _) => Some(FloatWidth::F64),
            ConvOp::F32DemoteF64 => Some(FloatWidth::F64),
            ConvOp::F64PromoteF32 => Some(FloatWidth::F64),
            ConvOp::Trunc(IntType::I32, FloatType::F32, _) => Some(FloatWidth::F32),
            ConvOp::Trunc(..) => Some(FloatWidth::F64),
            ConvOp::ReinterpretFloat(IntType::I32) => Some(FloatWidth::F32),
            ConvOp::ReinterpretFloat(IntType::I64) => Some(FloatWidth::F64),
            ConvOp::ReinterpretInt(FloatType::F32) => Some(FloatWidth::F32),
            ConvOp::ReinterpretInt(FloatType::F64) => Some(FloatWidth::F64),
            _ => None,
        },
        _ => None,
    }
}

/// The float width an instruction is classed under, if any.
pub fn float_class_exec(i: &Instruction) -> (r: Option<FloatWidth>)
    ensures
        r == float_class(*i),
{
    match i {
        Instruction::Load(LoadKind::F32Load, _, _) => Some(FloatWidth::F32),
        Instruction::Load(LoadKind::F64Load, _, _) => Some(FloatWidth::F64),
        Instruction::Store(StoreKind::F32Store, _, _) => Some(FloatWidth::F32),
        Instruction::Store(StoreKind::F64Store, _, _) => Some(FloatWidth::F64),
        Instruction::F32Const(_) => Some(FloatWidth::F32),
        Instruction::F64Const(_) => Some(FloatWidth::F64),
        Instruction::Num(op) => num_float_class_exec(*op),
        _ => None,
    }
}

fn denied_type_exec(t: ValueType, allow_f32: bool) -> (r: bool)
    ensures
        r == denied_type(t, allow_f32),
{
    t == ValueType::F64 || (!allow_f32 && t == ValueType::F32)
}

fn denied_signature_exec(m: &Module, f: usize, allow_f32: bool) -> (r: bool)
    ensures
        r == denied_signature(*m, f as int, allow_f32),
{
    match m.body_signature_exec(f) {
        None => false,
        Some(sig) => {
            let mut j: usize = 0;
            while j < sig.params.len()
                invariant
                    j <= sig.params@.len(),
                    m.body_signature(f as int) == Some(*sig),
                    forall|k: int| 0 <= k < j ==> !denied_type(#[trigger] sig.params@[k], allow_f32),
                decreases sig.params@.len() - j,
            {
                if denied_type_exec(sig.params[j], allow_f32) {
                    assert(denied_type(sig.params@[j as int], allow_f32));
                    return true;
                }
                j = j + 1;
            }
            match sig.result {
                Some(t) => denied_type_exec(t, allow_f32),
                None => false,
            }
        },
    }
}

/// Verify that the module doesn't use f32 and/or f64 floating point
/// instructions or types. Instructions are scanned first, body by body; the
/// first denied one is reported. Then the signatures of the declared
/// functions are scanned, and the first with a denied type is reported.
pub fn deny_floating_point(module: &Module, allow_f32: bool) -> (r: Result<(), Error>)
    ensures
        match r {
            Ok(()) => no_denied_instr(*module, allow_f32) && forall|f: int|
                0 <= f < module.defined_functions() ==> !#[trigger] denied_signature(
                    *module,
                    f,
                    allow_f32,
                ),
            Err(Error::FloatInstruction { func, pos, width }) => {
                &&& denied_at(*module, func as int, pos as int, allow_f32)
                &&& float_class(module.bodies@[func as int].code@[pos as int]) == Some(width)
                &&& forall|f: int, p: int|
                    (f < func || (f == func && p < pos)) ==> !#[trigger] denied_at(
                        *module,
                        f,
                        p,
                        allow_f32,
                    )
            },
            Err(Error::FloatSignature { func }) => {
                &&& no_denied_instr(*module, allow_f32)
                &&& func < module.defined_functions()
                &&& denied_signature(*module, func as int, allow_f32)
                &&& forall|g: int| 0 <= g < func ==> !#[trigger] denied_signature(*module, g, allow_f32)
            },
            Err(_) => false,
        },
{
    let mut f: usize = 0;
    while f < module.bodies.len()
        invariant
            f <= module.bodies@.len(),
            forall|g: int, p: int| g < f ==> !#[trigger] denied_at(*module, g, p, allow_f32),
        decreases module.bodies@.len() - f,
    {
        let code = &module.bodies[f].code;
        let mut p: usize = 0;
        while p < code.len()
            invariant
                f < module.bodies@.len(),
                *code == module.bodies@[f as int].code,
                p <= code@.len(),
                forall|g: int, q: int|
                    (g < f || (g == f && q < p)) ==> !#[trigger] denied_at(*module, g, q, allow_f32),
            decreases code@.len() - p,
        {
            match float_class_exec(&code[p]) {
                Some(FloatWidth::F64) => {
                    return Err(Error::FloatInstruction { func: f, pos: p, width: FloatWidth::F64 });
                },
                Some(FloatWidth::F32) => {
                    if allow_f32 {
                        return Err(
                            Error::FloatInstruction { func: f, pos: p, width: FloatWidth::F32 },
                        );
                    }
                },
                None => {},
            }
            p = p + 1;
        }
        f = f + 1;
    }
    let n = module.defined_functions_exec();
    let mut g: usize = 0;
    while g < n
        invariant
            n == module.defined_functions(),
            g <= n,
            no_denied_instr(*module, allow_f32),
            forall|h: int| 0 <= h < g ==> !#[trigger] denied_signature(*module, h, allow_f32),
        decreases n - g,
    {
        if denied_signature_exec(module, g, allow_f32) {
            return Err(Error::FloatSignature { func: g });
        }
        g = g + 1;
    }
    Ok(())
}

/// The sum of the initial page counts of the memories.
pub open spec fn sum_initial(mems: Seq<MemoryType>) -> int
    decreases mems.len(),
{
    if mems.len() == 0 {
        0
    } else {
        sum_initial(mems.drop_last()) + mems.last().initial
    }
}

/// The sum over a prefix is at most the sum over the whole.
pub proof fn lemma_sum_initial_prefix(mems: Seq<MemoryType>, i: int)
    requires
        0 <= i <= mems.len(),
    ensures
        sum_initial(mems.take(i)) <= sum_initial(mems),
    decreases mems.len(),
{
    if i == mems.len() {
        assert(mems.take(i) =~= mems);
    } else {
        assert(mems.drop_last().take(i) =~= mems.take(i));
        lemma_sum_initial_prefix(mems.drop_last(), i);
    }
}

/// Check that the initial pages of all memories add up to at most `max_pages`.
pub fn validate_memory_size(module: &Module, max_pages: u32) -> (r: Result<(), Error>)
    ensures
        r is Ok <==> sum_initial(module.memories@) <= max_pages,
        r is Err ==> r == Err::<(), Error>(Error::MemoryPages { max_pages }),
{
    let mut sum: u64 = 0;
    let mut i: usize = 0;
    while i < module.memories.len()
        invariant
            i <= module.memories@.len(),
            sum == sum_initial(module.memories@.take(i as int)),
            sum <= max_pages,
        decreases module.memories@.len() - i,
    {
        assert(module.memories@.take(i + 1).drop_last() =~= module.memories@.take(i as int));
        sum = sum + module.memories[i].initial as u64;
        i = i + 1;
        if sum > max_pages as u64 {
            proof {
                lemma_sum_initial_prefix(module.memories@, i as int);
            }
            return Err(Error::MemoryPages { max_pages });
        }
    }
    assert(module.memories@.take(i as int) =~= module.memories@);
    Ok(())
}

} // verus!
