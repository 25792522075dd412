use vstd::prelude::*;
use crate::error::FloatWidth;

verus! {

#[derive(Clone, Copy, Debug, PartialEq, Eq, Structural)]
pub enum ValueType {
    I32,
    I64,
    F32,
    F64,
}

#[derive(Clone, Copy, Debug, PartialEq, Eq, Structural)]
pub enum IntType {
    I32,
    I64,
}

#[derive(Clone, Copy, Debug, PartialEq, Eq, Structural)]
pub enum FloatType {
    F32,
    F64,
}

pub open spec fn int_type(t: IntType) -> ValueType {
    match t {
        IntType::I32 => ValueType::I32,
        IntType::I64 => ValueType::I64,
    }
}

pub open spec fn float_type(t: FloatType) -> ValueType {
    match t {
        FloatType::F32 => ValueType::F32,
        FloatType::F64 => ValueType::F64,
    }
}

pub open spec fn float_width(t: FloatType) -> FloatWidth {
    match t {
        FloatType::F32 => FloatWidth::F32,
        FloatType::F64 => FloatWidth::F64,
    }
}

/// The float width of a value type, if it is a float type.
pub open spec fn value_float_width(t: ValueType) -> Option<FloatWidth> {
    match t {
        ValueType::F32 => Some(FloatWidth::F32),
        ValueType::F64 => Some(FloatWidth::F64),
        _ => None,
    }
}

/// Full-width and narrow memory loads.
#[derive(Clone, Copy, Debug, PartialEq, Eq, Structural)]
pub enum LoadKind {
    I32Load,
    I64Load,
    F32Load,
    F64Load,
    I32Load8S,
    I32Load8U,
    I32Load16S,
    I32Load16U,
    I64Load8S,
    I64Load8U,
    I64Load16S,
    I64Load16U,
    I64Load32S,
    I64Load32U,
}

/// Full-width and narrow memory stores.
#[derive(Clone, Copy, Debug, PartialEq, Eq, Structural)]
pub enum StoreKind {
    I32Store,
    I64Store,
    F32Store,
    F64Store,
    I32Store8,
    I32Store16,
    I64Store8,
    I64Store16,
    I64Store32,
}

/// The value type a load pushes.
pub open spec fn load_type(k: LoadKind) -> ValueType {
    match k {
        LoadKind::I32Load | LoadKind::I32Load8S | LoadKind::I32Load8U | LoadKind::I32Load16S
        | LoadKind::I32Load16U => ValueType::I32,
        LoadKind::F32Load => ValueType::F32,
        LoadKind::F64Load => ValueType::F64,
        _ => ValueType::I64,
    }
}

/// The log2 of the number of bytes a load reads: the largest alignment it may declare.
pub open spec fn load_max_align(k: LoadKind) -> u32 {
    match k {
        LoadKind::I32Load8S | LoadKind::I32Load8U | LoadKind::I64Load8S | LoadKind::I64Load8U => 0,
        LoadKind::I32Load16S | LoadKind::I32Load16U | LoadKind::I64Load16S
        | LoadKind::I64Load16U => 1,
        LoadKind::I32Load | LoadKind::F32Load | LoadKind::I64Load32S | LoadKind::I64Load32U => 2,
        LoadKind::I64Load | LoadKind::F64Load => 3,
    }
}

/// The value type a store pops (below it, the `i32` address).
pub open spec fn store_type(k: StoreKind) -> ValueType {
    match k {
        StoreKind::I32Store | StoreKind::I32Store8 | StoreKind::I32Store16 => ValueType::I32,
        StoreKind::F32Store => ValueType::F32,
        StoreKind::F64Store => ValueType::F64,
        _ => ValueType::I64,
    }
}

/// The log2 of the number of bytes a store writes.
pub open spec fn store_max_align(k: StoreKind) -> u32 {
    match k {
        StoreKind::I32Store8 | StoreKind::I64Store8 => 0,
        StoreKind::I32Store16 | StoreKind::I64Store16 => 1,
        StoreKind::I32Store | StoreKind::F32Store | StoreKind::I64Store32 => 2,
        StoreKind::I64Store | StoreKind::F64Store => 3,
    }
}

pub fn load_type_exec(k: LoadKind) -> (r: ValueType)
    ensures
        r == load_type(k),
{
    match k {
        LoadKind::I32Load | LoadKind::I32Load8S | LoadKind::I32Load8U | LoadKind::I32Load16S
        | LoadKind::I32Load16U => ValueType::I32,
        LoadKind::F32Load => ValueType::F32,
        LoadKind::F64Load => ValueType::F64,
        _ => ValueType::I64,
    }
}

pub fn load_max_align_exec(k: LoadKind) -> (r: u32)
    ensures
        r == load_max_align(k),
{
    match k {
        LoadKind::I32Load8S | LoadKind::I32Load8U | LoadKind::I64Load8S | LoadKind::I64Load8U => 0,
        LoadKind::I32Load16S | LoadKind::I32Load16U | LoadKind::I64Load16S
        | LoadKind::I64Load16U => 1,
        LoadKind::I32Load | LoadKind::F32Load | LoadKind::I64Load32S | LoadKind::I64Load32U => 2,
        LoadKind::I64Load | LoadKind::F64Load => 3,
    }
}

pub fn store_type_exec(k: StoreKind) -> (r: ValueType)
    ensures
        r == store_type(k),
{
    match k {
        StoreKind::I32Store | StoreKind::I32Store8 | StoreKind::I32Store16 => ValueType::I32,
        StoreKind::F32Store => ValueType::F32,
        StoreKind::F64Store => ValueType::F64,
        _ => ValueType::I64,
    }
}

pub fn store_max_align_exec(k: StoreKind) -> (r: u32)
    ensures
        r == store_max_align(k),
{
    match k {
        StoreKind::I32Store8 | StoreKind::I64Store8 => 0,
        StoreKind::I32Store16 | StoreKind::I64Store16 => 1,
        StoreKind::I32Store | StoreKind::F32Store | StoreKind::I64Store32 => 2,
        StoreKind::I64Store | StoreKind::F64Store => 3,
    }
}

#[derive(Clone, Copy, Debug, PartialEq, Eq, Structural)]
pub enum IntUnOp {
    Clz,
    Ctz,
    Popcnt,
}

#[derive(Clone, Copy, Debug, PartialEq, Eq, Structural)]
pub enum IntBinOp {
    Add,
    Sub,
    Mul,
    DivS,
    DivU,
    RemS,
    RemU,
    And,
    Or,
    Xor,
    Shl,
    ShrS,
    ShrU,
    Rotl,
    Rotr,
}

#[derive(Clone, Copy, Debug, PartialEq, Eq, Structural)]
pub enum IntRelOp {
    Eq,
    Ne,
    LtS,
    LtU,
    GtS,
    GtU,
    LeS,
    LeU,
    GeS,
    GeU,
}

#[derive(Clone, Copy, Debug, PartialEq, Eq, Structural)]
pub enum FloatUnOp {
    Abs,
    Neg,
    Ceil,
    Floor,
    Trunc,
    Nearest,
    Sqrt,
}

#[derive(Clone, Copy, Debug, PartialEq, Eq, Structural)]
pub enum FloatBinOp {
    Add,
    Sub,
    Mul,
    Div,
    Min,
    Max,
    Copysign,
}

#[derive(Clone, Copy, Debug, PartialEq, Eq, Structural)]
pub enum FloatRelOp {
    Eq,
    Ne,
    Lt,
    Gt,
    Le,
    Ge,
}

/// Conversions between value types. A `bool` field is `true` for the signed form.
#[derive(Clone, Copy, Debug, PartialEq, Eq, Structural)]
pub enum ConvOp {
    /// `i32.wrap/i64`
    I32WrapI64,
    /// `i64.extend_s/i32`, `i64.extend_u/i32`
    I64ExtendI32(bool),
    /// `<int>.trunc_s/<float>`, `<int>.trunc_u/<float>`
    Trunc(IntType, FloatType, bool),
    /// `<float>.convert_s/<int>`, `<float>.convert_u/<int>`
    Convert(FloatType, IntType, bool),
    /// `f32.demote/f64`
    F32DemoteF64,
    /// `f64.promote/f32`
    F64PromoteF32,
    /// `i32.reinterpret/f32`, `i64.reinterpret/f64`
    ReinterpretFloat(IntType),
    /// `f32.reinterpret/i32`, `f64.reinterpret/i64`
    ReinterpretInt(FloatType),
}

/// The numeric instructions: each pops its operands and pushes one result.
#[derive(Clone, Copy, Debug, PartialEq, Eq, Structural)]
pub enum NumOp {
    /// `<int>.eqz`
    Eqz(IntType),
    IntRel(IntType, IntRelOp),
    FloatRel(FloatType, FloatRelOp),
    IntUn(IntType, IntUnOp),
    FloatUn(FloatType, FloatUnOp),
    IntBin(IntType, IntBinOp),
    FloatBin(FloatType, FloatBinOp),
    Conv(ConvOp),
}

pub open spec fn conv_from(c: ConvOp) -> ValueType {
    match c {
        ConvOp::I32WrapI64 => ValueType::I64,
        ConvOp::I64ExtendI32(_) => ValueType::I32,
        ConvOp::Trunc(_, f, _) => float_type(f),
        ConvOp::Convert(_, i, _) => int_type(i),
        ConvOp::F32DemoteF64 => ValueType::F64,
        ConvOp::F64PromoteF32 => ValueType::F32,
        ConvOp::ReinterpretFloat(IntType::I32) => ValueType::F32,
        ConvOp::ReinterpretFloat(IntType::I64) => ValueType::F64,
        ConvOp::ReinterpretInt(FloatType::F32) => ValueType::I32,
        ConvOp::ReinterpretInt(FloatType::F64) => ValueType::I64,
    }
}

pub open spec fn conv_to(c: ConvOp) -> ValueType {
    match c {
        ConvOp::I32WrapI64 => ValueType::I32,
        ConvOp::I64ExtendI32(_) => ValueType::I64,
        ConvOp::Trunc(i, _, _) => int_type(i),
        ConvOp::Convert(f, _, _) => float_type(f),
        ConvOp::F32DemoteF64 => ValueType::F32,
        ConvOp::F64PromoteF32 => ValueType::F64,
        ConvOp::ReinterpretFloat(i) => int_type(i),
        ConvOp::ReinterpretInt(f) => float_type(f),
    }
}

/// The operand types of a numeric instruction, deepest first.
pub open spec fn num_params(op: NumOp) -> Seq<ValueType> {
    match op {
        NumOp::Eqz(t) => seq![int_type(t)],
        NumOp::IntRel(t, _) => seq![int_type(t), int_type(t)],
        NumOp::FloatRel(t, _) => seq![float_type(t), float_type(t)],
        NumOp::IntUn(t, _) => seq![int_type(t)],
        NumOp::FloatUn(t, _) => seq![float_type(t)],
        NumOp::IntBin(t, _) => seq![int_type(t), int_type(t)],
        NumOp::FloatBin(t, _) => seq![float_type(t), float_type(t)],
        NumOp::Conv(c) => seq![conv_from(c)],
    }
}

/// The result type of a numeric instruction.
pub open spec fn num_result(op: NumOp) -> ValueType {
    match op {
        NumOp::Eqz(_) | NumOp::IntRel(..) | NumOp::FloatRel(..) => ValueType::I32,
        NumOp::IntUn(t, _) | NumOp::IntBin(t, _) => int_type(t),
        NumOp::FloatUn(t, _) | NumOp::FloatBin(t, _) => float_type(t),
        NumOp::Conv(c) => conv_to(c),
    }
}

/// How a block, loop or if declares its result.
#[derive(Clone, Copy, Debug, PartialEq, Eq, Structural)]
pub enum BlockType {
    NoResult,
    Value(ValueType),
}

pub open spec fn block_result(b: BlockType) -> Option<ValueType> {
    match b {
        BlockType::NoResult => None,
        BlockType::Value(t) => Some(t),
    }
}

pub fn int_type_exec(t: IntType) -> (r: ValueType)
    ensures
        r == int_type(t),
{
    match t {
        IntType::I32 => ValueType::I32,
        IntType::I64 => ValueType::I64,
    }
}

pub fn float_type_exec(t: FloatType) -> (r: ValueType)
    ensures
        r == float_type(t),
{
    match t {
        FloatType::F32 => ValueType::F32,
        FloatType::F64 => ValueType::F64,
    }
}

pub fn conv_from_exec(c: ConvOp) -> (r: ValueType)
    ensures
        r == conv_from(c),
{
    match c {
        ConvOp::I32WrapI64 => ValueType::I64,
        ConvOp::I64ExtendI32(_) => ValueType::I32,
        ConvOp::Trunc(_, f, _) => float_type_exec(f),
        ConvOp::Convert(_, i, _) => int_type_exec(i),
        ConvOp::F32DemoteF64 => ValueType::F64,
        ConvOp::F64PromoteF32 => ValueType::F32,
        ConvOp::ReinterpretFloat(IntType::I32) => ValueType::F32,
        ConvOp::ReinterpretFloat(IntType::I64) => ValueType::F64,
        ConvOp::ReinterpretInt(FloatType::F32) => ValueType::I32,
        ConvOp::ReinterpretInt(FloatType::F64) => ValueType::I64,
    }
}

pub fn conv_to_exec(c: ConvOp) -> (r: ValueType)
    ensures
        r == conv_to(c),
{
    match c {
        ConvOp::I32WrapI64 => ValueType::I32,
        ConvOp::I64ExtendI32(_) => ValueType::I64,
        ConvOp::Trunc(i, _, _) => int_type_exec(i),
        ConvOp::Convert(f, _, _) => float_type_exec(f),
        ConvOp::F32DemoteF64 => ValueType::F32,
        ConvOp::F64PromoteF32 => ValueType::F64,
        ConvOp::ReinterpretFloat(i) => int_type_exec(i),
        ConvOp::ReinterpretInt(f) => float_type_exec(f),
    }
}

/// A vector of one type.
pub fn types1(a: ValueType) -> (r: Vec<ValueType>)
    ensures
        r@ == seq![a],
{
    let mut r: Vec<ValueType> = Vec::new();
    r.push(a);
    assert(r@ =~= seq![a]);
    r
}

/// A vector of two types.
pub fn types2(a: ValueType, b: ValueType) -> (r: Vec<ValueType>)
    ensures
        r@ == seq![a, b],
{
    let mut r: Vec<ValueType> = Vec::new();
    r.push(a);
    r.push(b);
    assert(r@ =~= seq![a, b]);
    r
}

pub fn num_params_exec(op: NumOp) -> (r: Vec<ValueType>)
    ensures
        r@ == num_params(op),
{
    match op {
        NumOp::Eqz(t) => types1(int_type_exec(t)),
        NumOp::IntRel(t, _) => types2(int_type_exec(t), int_type_exec(t)),
        NumOp::FloatRel(t, _) => types2(float_type_exec(t), float_type_exec(t)),
        NumOp::IntUn(t, _) => types1(int_type_exec(t)),
        NumOp::FloatUn(t, _) => types1(float_type_exec(t)),
        NumOp::IntBin(t, _) => types2(int_type_exec(t), int_type_exec(t)),
        NumOp::FloatBin(t, _) => types2(float_type_exec(t), float_type_exec(t)),
        NumOp::Conv(c) => types1(conv_from_exec(c)),
    }
}

pub fn num_result_exec(op: NumOp) -> (r: ValueType)
    ensures
        r == num_result(op),
{
    match op {
        NumOp::Eqz(_) | NumOp::IntRel(..) | NumOp::FloatRel(..) => ValueType::I32,
        NumOp::IntUn(t, _) | NumOp::IntBin(t, _) => int_type_exec(t),
        NumOp::FloatUn(t, _) | NumOp::FloatBin(t, _) => float_type_exec(t),
        NumOp::Conv(c) => conv_to_exec(c),
    }
}

pub fn block_result_exec(b: BlockType) -> (r: Option<ValueType>)
    ensures
        r == block_result(b),
{
    match b {
        BlockType::NoResult => None,
        BlockType::Value(t) => Some(t),
    }
}

/// One instruction of a function body, as the binary format gives it.
/// Memory instructions carry their alignment exponent and offset.
#[derive(Clone, Debug, PartialEq, Eq)]
pub enum Instruction {
    Unreachable,
    Nop,
    Block(BlockType),
    Loop(BlockType),
    If(BlockType),
    Else,
    End,
    Br(u32),
    BrIf(u32),
    /// The branch depths of the table, and the default depth.
    BrTable(Vec<u32>, u32),
    Return,
    Call(u32),
    /// Calls through the table, with the index of the expected signature.
    CallIndirect(u32),
    Drop,
    Select,
    GetLocal(u32),
    SetLocal(u32),
    TeeLocal(u32),
    GetGlobal(u32),
    SetGlobal(u32),
    Load(LoadKind, u32, u32),
    Store(StoreKind, u32, u32),
    CurrentMemory,
    GrowMemory,
    I32Const(i32),
    I64Const(i64),
    F32Const(u32),
    F64Const(u64),
    Num(NumOp),
}

/// A function signature: parameter types and at most one result type.
#[derive(Clone, Debug, PartialEq, Eq)]
pub struct FuncType {
    pub params: Vec<ValueType>,
    pub result: Option<ValueType>,
}

#[derive(Clone, Copy, Debug, PartialEq, Eq, Structural)]
pub struct GlobalType {
    pub value_type: ValueType,
    pub mutable: bool,
}

/// A linear memory declaration, in pages.
#[derive(Clone, Copy, Debug, PartialEq, Eq, Structural)]
pub struct MemoryType {
    pub initial: u32,
    pub maximum: Option<u32>,
}

/// A run of `count` declared locals of one type.
#[derive(Clone, Copy, Debug, PartialEq, Eq, Structural)]
pub struct Local {
    pub count: u32,
    pub value_type: ValueType,
}

/// One function's code: its declared locals, as runs of one type, and its
/// instructions, ending with the `end` of the function body.
#[derive(Clone, Debug, PartialEq, Eq)]
pub struct FuncBody {
    pub locals: Vec<Local>,
    pub code: Vec<Instruction>,
}

/// The parts of a parsed module that validation reads. `functions` holds,
/// for each function of the index space (imported functions first), the
/// index into `types` of its signature; `bodies` holds the code of the
/// functions the module defines, which follow the `imported_functions`
/// imports. `globals` covers the whole global index space; `memories` holds
/// the memories the module declares, beside `imported_memories` imported ones;
/// `tables` counts the tables, declared or imported.
#[derive(Clone, Debug, PartialEq, Eq)]
pub struct Module {
    pub types: Vec<FuncType>,
    pub functions: Vec<u32>,
    pub imported_functions: usize,
    pub globals: Vec<GlobalType>,
    pub memories: Vec<MemoryType>,
    pub imported_memories: usize,
    pub tables: usize,
    pub bodies: Vec<FuncBody>,
}

impl Module {
    /// The signature of function `f`, if it is declared with a known type.
    pub open spec fn signature(&self, f: int) -> Option<FuncType> {
        if 0 <= f < self.functions@.len() && (self.functions@[f] as int) < self.types@.len() {
            Some(self.types@[self.functions@[f] as int])
        } else {
            None
        }
    }

    /// The signature of the function whose code is body `b`.
    pub open spec fn body_signature(&self, b: int) -> Option<FuncType> {
        self.signature(self.imported_functions + b)
    }

    /// The number of functions the module defines, after the imported ones.
    pub open spec fn defined_functions(&self) -> int {
        if self.imported_functions <= self.functions@.len() {
            self.functions@.len() - self.imported_functions
        } else {
            0
        }
    }

    pub fn defined_functions_exec(&self) -> (r: usize)
        ensures
            r == self.defined_functions(),
    {
        if self.imported_functions <= self.functions.len() {
            self.functions.len() - self.imported_functions
        } else {
            0
        }
    }

    /// The module has a memory, declared or imported.
    pub open spec fn has_memory(&self) -> bool {
        self.memories@.len() > 0 || self.imported_memories > 0
    }

    pub fn has_memory_exec(&self) -> (r: bool)
        ensures
            r == self.has_memory(),
    {
        self.memories.len() > 0 || self.imported_memories > 0
    }

    pub fn body_signature_exec(&self, b: usize) -> (r: Option<&FuncType>)
        ensures
            match r {
                Some(t) => self.body_signature(b as int) == Some(*t),
                None => self.body_signature(b as int) is None,
            },
    {
        if self.imported_functions <= self.functions.len() && b < self.functions.len()
            - self.imported_functions {
            self.signature_exec(self.imported_functions + b)
        } else {
            None
        }
    }

    pub fn signature_exec(&self, f: usize) -> (r: Option<&FuncType>)
        ensures
            match r {
                Some(t) => self.signature(f as int) == Some(*t),
                None => self.signature(f as int) is None,
            },
    {
        if f < self.functions.len() && (self.functions[f] as usize) < self.types.len() {
            Some(&self.types[self.functions[f] as usize])
        } else {
            None
        }
    }
}

} // verus!
