use wasm_prepare::compile::compile_function;
use wasm_prepare::error::{Error, FloatWidth};
use wasm_prepare::isa::{DropKeep, Instruction as Op, Instructions, Target};
use wasm_prepare::module::{
    BlockType, ConvOp, FloatBinOp, FloatType, FuncBody, FuncType, GlobalType, Instruction,
    IntBinOp, IntType, LoadKind, Local, MemoryType, Module, NumOp, ValueType,
};
use wasm_prepare::{
    compile_module, deny_floating_point, validate_memory_size, validate_module, WasmiValidation,
};

fn sig(params: Vec<ValueType>, result: Option<ValueType>) -> FuncType {
    FuncType { params, result }
}

fn module_of(funcs: Vec<(FuncType, Vec<Instruction>)>) -> Module {
    let mut m = Module {
        types: Vec::new(),
        functions: Vec::new(),
        imported_functions: 0,
        globals: Vec::new(),
        memories: Vec::new(),
        imported_memories: 0,
        tables: 0,
        bodies: Vec::new(),
    };
    for (i, (t, code)) in funcs.into_iter().enumerate() {
        m.types.push(t);
        m.functions.push(i as u32);
        m.bodies.push(FuncBody { locals: Vec::new(), code });
    }
    m
}

fn one(result: Option<ValueType>, code: Vec<Instruction>) -> Module {
    module_of(vec![(sig(Vec::new(), result), code)])
}

fn dk(drop: usize, keep: usize) -> DropKeep {
    DropKeep { drop, keep }
}

fn i32_add() -> Instruction {
    Instruction::Num(NumOp::IntBin(IntType::I32, IntBinOp::Add))
}

#[test]
fn valid_module_compiles_in_index_order() {
    let m = module_of(vec![
        (sig(Vec::new(), Some(ValueType::I32)), vec![Instruction::I32Const(1), Instruction::End]),
        (sig(Vec::new(), Some(ValueType::I64)), vec![Instruction::I64Const(2), Instruction::End]),
    ]);
    let c = compile_module(m.clone()).unwrap();
    assert_eq!(c.code_map.len(), 2);
    assert_eq!(c.code_map[0].code, vec![Op::I32Const(1), Op::Return(dk(0, 1))]);
    assert_eq!(c.code_map[1].code, vec![Op::I64Const(2), Op::Return(dk(0, 1))]);
    assert_eq!(c.module, m);
}

#[test]
fn empty_module_compiles_to_empty_code_map() {
    let m = module_of(Vec::new());
    let c = compile_module(m).unwrap();
    assert_eq!(c.code_map.len(), 0);
}

#[test]
fn int_add_on_float_is_type_error() {
    let m = one(
        Some(ValueType::I32),
        vec![Instruction::F64Const(0), Instruction::I32Const(1), i32_add(), Instruction::End],
    );
    assert_eq!(compile_module(m).err(), Some(Error::Type { func: 0, pos: 2 }));
}

#[test]
fn first_failing_function_is_reported() {
    let m = module_of(vec![
        (sig(Vec::new(), None), vec![Instruction::End]),
        (sig(Vec::new(), None), vec![Instruction::Drop, Instruction::End]),
        (sig(Vec::new(), None), vec![Instruction::Else, Instruction::End]),
    ]);
    assert_eq!(compile_module(m).err(), Some(Error::Type { func: 1, pos: 0 }));
}

#[test]
fn validation_is_deterministic() {
    let good = one(Some(ValueType::I32), vec![Instruction::I32Const(7), Instruction::End]);
    let a = validate_module(&good).unwrap();
    let b = validate_module(&good).unwrap();
    assert_eq!(a.len(), b.len());
    assert_eq!(a[0].code, b[0].code);
    let bad = one(None, vec![i32_add(), Instruction::End]);
    assert_eq!(validate_module(&bad).err(), validate_module(&bad).err());
}

#[test]
fn f64_const_denied_either_way() {
    let m = one(None, vec![Instruction::F64Const(0), Instruction::Drop, Instruction::End]);
    let e = Error::FloatInstruction { func: 0, pos: 0, width: FloatWidth::F64 };
    assert_eq!(deny_floating_point(&m, true), Err(e));
    assert_eq!(deny_floating_point(&m, false), Err(e));
}

#[test]
fn f32_const_with_f32_param() {
    let m = module_of(vec![(
        sig(vec![ValueType::F32], None),
        vec![Instruction::F32Const(0), Instruction::Drop, Instruction::End],
    )]);
    assert_eq!(deny_floating_point(&m, false), Err(Error::FloatSignature { func: 0 }));
    assert_eq!(
        deny_floating_point(&m, true),
        Err(Error::FloatInstruction { func: 0, pos: 0, width: FloatWidth::F32 })
    );
}

#[test]
fn f32_instructions_skipped_when_f32_disallowed() {
    let m = one(None, vec![Instruction::F32Const(0), Instruction::Drop, Instruction::End]);
    assert_eq!(deny_floating_point(&m, false), Ok(()));
    assert!(deny_floating_point(&m, true).is_err());
}

#[test]
fn float_classes_of_conversions() {
    let trunc = Instruction::Num(NumOp::Conv(ConvOp::Trunc(IntType::I32, FloatType::F64, true)));
    let mut m = one(Some(ValueType::I32), vec![Instruction::GetLocal(0), trunc, Instruction::End]);
    m.bodies[0].locals.push(Local { count: 1, value_type: ValueType::F64 });
    let e = Error::FloatInstruction { func: 0, pos: 1, width: FloatWidth::F64 };
    assert_eq!(deny_floating_point(&m, false), Err(e));
    assert_eq!(deny_floating_point(&m, true), Err(e));
    let demote = Instruction::Num(NumOp::Conv(ConvOp::F32DemoteF64));
    let m = one(None, vec![Instruction::Nop, demote, Instruction::End]);
    assert_eq!(
        deny_floating_point(&m, false),
        Err(Error::FloatInstruction { func: 0, pos: 1, width: FloatWidth::F64 })
    );
    let trunc64 = Instruction::Num(NumOp::Conv(ConvOp::Trunc(IntType::I64, FloatType::F32, true)));
    let mut m = one(
        None,
        vec![Instruction::GetLocal(0), trunc64, Instruction::Drop, Instruction::End],
    );
    m.bodies[0].locals.push(Local { count: 1, value_type: ValueType::F32 });
    let e = Error::FloatInstruction { func: 0, pos: 1, width: FloatWidth::F64 };
    assert_eq!(deny_floating_point(&m, false), Err(e));
    assert_eq!(deny_floating_point(&m, true), Err(e));
    let trunc32 = Instruction::Num(NumOp::Conv(ConvOp::Trunc(IntType::I32, FloatType::F32, false)));
    let m = one(None, vec![trunc32, Instruction::End]);
    assert_eq!(deny_floating_point(&m, false), Ok(()));
    assert_eq!(
        deny_floating_point(&m, true),
        Err(Error::FloatInstruction { func: 0, pos: 0, width: FloatWidth::F32 })
    );
    let promote = Instruction::Num(NumOp::Conv(ConvOp::F64PromoteF32));
    let m = one(None, vec![Instruction::Nop, promote, Instruction::End]);
    assert_eq!(
        deny_floating_point(&m, false),
        Err(Error::FloatInstruction { func: 0, pos: 1, width: FloatWidth::F64 })
    );
    let reinterpret = Instruction::Num(NumOp::Conv(ConvOp::ReinterpretFloat(IntType::I32)));
    let m = one(None, vec![reinterpret, Instruction::End]);
    assert_eq!(deny_floating_point(&m, false), Ok(()));
    assert!(deny_floating_point(&m, true).is_err());
}

#[test]
fn f64_result_denied_in_signature() {
    let m = module_of(vec![
        (sig(vec![ValueType::I32], None), vec![Instruction::End]),
        (sig(Vec::new(), Some(ValueType::F64)), vec![Instruction::End]),
    ]);
    assert_eq!(deny_floating_point(&m, true), Err(Error::FloatSignature { func: 1 }));
    let ok = module_of(vec![(sig(vec![ValueType::I64], Some(ValueType::I32)), vec![])]);
    assert_eq!(deny_floating_point(&ok, false), Ok(()));
}

fn with_memories(initials: &[u32]) -> Module {
    let mut m = module_of(Vec::new());
    for &i in initials {
        m.memories.push(MemoryType { initial: i, maximum: Some(100) });
    }
    m
}

#[test]
fn memory_gate_sums_initial_pages() {
    let m = with_memories(&[3, 4]);
    assert_eq!(validate_memory_size(&m, 6), Err(Error::MemoryPages { max_pages: 6 }));
    assert_eq!(validate_memory_size(&m, 7), Ok(()));
    assert_eq!(validate_memory_size(&m, 8), Ok(()));
}

#[test]
fn memory_gate_without_memories() {
    assert_eq!(validate_memory_size(&with_memories(&[]), 0), Ok(()));
    let big = with_memories(&[u32::MAX, u32::MAX]);
    assert_eq!(validate_memory_size(&big, u32::MAX), Err(Error::MemoryPages { max_pages: u32::MAX }));
}

#[test]
fn branch_out_of_block_then_unreachable() {
    let m = one(
        None,
        vec![
            Instruction::Block(BlockType::NoResult),
            Instruction::Br(0),
            Instruction::Unreachable,
            Instruction::End,
            Instruction::End,
        ],
    );
    let c = compile_module(m).unwrap();
    assert_eq!(
        c.code_map[0].code,
        vec![
            Op::Br(Target { dst_pc: 2, drop_keep: dk(0, 0) }),
            Op::Unreachable,
            Op::Return(dk(0, 0)),
        ]
    );
}

#[test]
fn missing_result_at_function_end() {
    let m = one(Some(ValueType::I32), vec![Instruction::End]);
    assert_eq!(compile_module(m).err(), Some(Error::Type { func: 0, pos: 0 }));
}

#[test]
fn if_else_targets_are_resolved() {
    let m = module_of(vec![(
        sig(vec![ValueType::I32], Some(ValueType::I32)),
        vec![
            Instruction::GetLocal(0),
            Instruction::If(BlockType::Value(ValueType::I32)),
            Instruction::I32Const(1),
            Instruction::Else,
            Instruction::I32Const(2),
            Instruction::End,
            Instruction::End,
        ],
    )]);
    let code = compile_function(&m, 0).unwrap().code;
    assert_eq!(
        code,
        vec![
            Op::GetLocal(0),
            Op::BrIfEqz(Target { dst_pc: 4, drop_keep: dk(0, 0) }),
            Op::I32Const(1),
            Op::Br(Target { dst_pc: 5, drop_keep: dk(0, 1) }),
            Op::I32Const(2),
            Op::Return(dk(0, 1)),
        ]
    );
}

#[test]
fn loop_branches_back_to_its_start() {
    let m = one(
        None,
        vec![
            Instruction::Loop(BlockType::NoResult),
            Instruction::I32Const(0),
            Instruction::BrIf(0),
            Instruction::End,
            Instruction::End,
        ],
    );
    let code = compile_function(&m, 0).unwrap().code;
    assert_eq!(
        code,
        vec![
            Op::I32Const(0),
            Op::BrIfNez(Target { dst_pc: 0, drop_keep: dk(0, 0) }),
            Op::Return(dk(0, 0)),
        ]
    );
}

#[test]
fn branch_table_entries() {
    let m = one(
        Some(ValueType::I32),
        vec![
            Instruction::Block(BlockType::Value(ValueType::I32)),
            Instruction::I32Const(5),
            Instruction::I32Const(0),
            Instruction::BrTable(vec![0, 1], 0),
            Instruction::End,
            Instruction::End,
        ],
    );
    let code = compile_function(&m, 0).unwrap().code;
    assert_eq!(
        code,
        vec![
            Op::I32Const(5),
            Op::I32Const(0),
            Op::BrTable(2),
            Op::BrTableTarget(Target { dst_pc: 6, drop_keep: dk(0, 1) }),
            Op::BrTableTarget(Target { dst_pc: 6, drop_keep: dk(0, 1) }),
            Op::BrTableTarget(Target { dst_pc: 6, drop_keep: dk(0, 1) }),
            Op::Return(dk(0, 1)),
        ]
    );
}

#[test]
fn branch_table_with_mismatched_labels() {
    let m = one(
        None,
        vec![
            Instruction::Block(BlockType::Value(ValueType::I32)),
            Instruction::I32Const(5),
            Instruction::I32Const(0),
            Instruction::BrTable(vec![1], 0),
            Instruction::End,
            Instruction::Drop,
            Instruction::End,
        ],
    );
    assert_eq!(compile_module(m).err(), Some(Error::Type { func: 0, pos: 3 }));
}

#[test]
fn control_errors() {
    let m = one(None, vec![Instruction::Br(1), Instruction::End]);
    assert_eq!(compile_module(m).err(), Some(Error::Control { func: 0, pos: 0 }));
    let m = one(None, vec![Instruction::Else, Instruction::End]);
    assert_eq!(compile_module(m).err(), Some(Error::Control { func: 0, pos: 0 }));
    let m = one(None, vec![Instruction::Nop]);
    assert_eq!(compile_module(m).err(), Some(Error::Control { func: 0, pos: 1 }));
    let m = one(None, vec![Instruction::End, Instruction::Nop]);
    assert_eq!(compile_module(m).err(), Some(Error::Control { func: 0, pos: 1 }));
}

#[test]
fn imported_functions_come_first() {
    let mut m = module_of(vec![(
        sig(Vec::new(), Some(ValueType::I32)),
        vec![Instruction::F32Const(0), Instruction::Call(0), Instruction::End],
    )]);
    m.types.push(sig(vec![ValueType::F32], Some(ValueType::I32)));
    m.functions.insert(0, 1);
    m.imported_functions = 1;
    let c = compile_module(m.clone()).unwrap();
    assert_eq!(c.code_map.len(), 1);
    assert_eq!(c.code_map[0].code[1], Op::Call(0));
    assert_eq!(deny_floating_point(&m, false), Ok(()));
    m.imported_memories = 1;
    assert_eq!(validate_memory_size(&m, 0), Ok(()));
}

#[test]
fn indirect_calls_need_a_table() {
    let mut m = one(
        Some(ValueType::I32),
        vec![Instruction::I64Const(1), Instruction::I32Const(0), Instruction::CallIndirect(1), Instruction::End],
    );
    m.types.push(sig(vec![ValueType::I64], Some(ValueType::I32)));
    assert_eq!(compile_module(m.clone()).err(), Some(Error::Type { func: 0, pos: 2 }));
    m.tables = 1;
    let c = compile_module(m).unwrap();
    assert_eq!(c.code_map[0].code[2], Op::CallIndirect(1));
}

#[test]
fn declaration_error() {
    let mut m = one(None, vec![Instruction::End]);
    m.functions[0] = 9;
    assert_eq!(compile_module(m).err(), Some(Error::Declaration { func: 0 }));
}

#[test]
fn references_must_exist() {
    let m = one(None, vec![Instruction::GetLocal(0), Instruction::Drop, Instruction::End]);
    assert_eq!(compile_module(m).err(), Some(Error::Type { func: 0, pos: 0 }));
    let load = Instruction::Load(LoadKind::I32Load, 2, 0);
    let m = one(None, vec![Instruction::I32Const(0), load.clone(), Instruction::Drop, Instruction::End]);
    assert_eq!(compile_module(m.clone()).err(), Some(Error::Type { func: 0, pos: 1 }));
    let mut m = m;
    m.memories.push(MemoryType { initial: 1, maximum: None });
    assert!(compile_module(m.clone()).is_ok());
    m.bodies[0].code[1] = Instruction::Load(LoadKind::I32Load, 3, 0);
    assert_eq!(compile_module(m).err(), Some(Error::Type { func: 0, pos: 1 }));
    let mut m = one(None, vec![Instruction::I32Const(0), Instruction::SetGlobal(0), Instruction::End]);
    m.globals.push(GlobalType { value_type: ValueType::I32, mutable: false });
    assert_eq!(compile_module(m.clone()).err(), Some(Error::Type { func: 0, pos: 1 }));
    m.globals[0].mutable = true;
    assert!(compile_module(m).is_ok());
}

#[test]
fn locals_follow_parameters() {
    let mut m = module_of(vec![(
        sig(vec![ValueType::I32], Some(ValueType::F64)),
        vec![
            Instruction::GetLocal(1),
            Instruction::GetLocal(1),
            Instruction::Num(NumOp::FloatBin(FloatType::F64, FloatBinOp::Add)),
            Instruction::End,
        ],
    )]);
    m.bodies[0].locals.push(Local { count: 1, value_type: ValueType::F64 });
    assert!(compile_module(m).is_ok());
}

#[test]
fn locals_in_runs() {
    let mut m = module_of(vec![(
        sig(vec![ValueType::I32], Some(ValueType::I64)),
        vec![Instruction::GetLocal(3), Instruction::End],
    )]);
    m.bodies[0].locals.push(Local { count: 2, value_type: ValueType::F32 });
    m.bodies[0].locals.push(Local { count: 0, value_type: ValueType::F64 });
    m.bodies[0].locals.push(Local { count: u32::MAX, value_type: ValueType::I64 });
    assert!(compile_module(m.clone()).is_ok());
    m.bodies[0].code[0] = Instruction::GetLocal(2);
    assert_eq!(compile_module(m.clone()).err(), Some(Error::Type { func: 0, pos: 1 }));
    m.bodies[0].locals.clear();
    assert_eq!(compile_module(m).err(), Some(Error::Type { func: 0, pos: 0 }));
}

#[test]
fn select_and_calls() {
    let m = module_of(vec![
        (
            sig(vec![ValueType::I64], Some(ValueType::I64)),
            vec![
                Instruction::GetLocal(0),
                Instruction::I64Const(3),
                Instruction::I32Const(1),
                Instruction::Select,
                Instruction::End,
            ],
        ),
        (
            sig(Vec::new(), Some(ValueType::I64)),
            vec![Instruction::I64Const(1), Instruction::Call(0), Instruction::End],
        ),
    ]);
    assert!(compile_module(m).is_ok());
    let m = one(
        None,
        vec![
            Instruction::I64Const(1),
            Instruction::I32Const(3),
            Instruction::I32Const(1),
            Instruction::Select,
            Instruction::Drop,
            Instruction::End,
        ],
    );
    assert_eq!(compile_module(m).err(), Some(Error::Type { func: 0, pos: 3 }));
}

#[test]
fn return_drops_what_lies_below() {
    let m = one(
        Some(ValueType::I32),
        vec![Instruction::I32Const(1), Instruction::I32Const(2), Instruction::Return, Instruction::End],
    );
    let code = compile_function(&m, 0).unwrap().code;
    assert_eq!(
        code,
        vec![Op::I32Const(1), Op::I32Const(2), Op::Return(dk(1, 1)), Op::Return(dk(0, 1))]
    );
}

#[test]
fn collector_keeps_order() {
    let m = module_of(Vec::new());
    let mut v = WasmiValidation::new(&m);
    v.on_function_validated(0, Instructions { code: vec![Op::Drop] });
    v.on_function_validated(1, Instructions { code: vec![Op::Select] });
    let out = v.finish();
    assert_eq!(out.len(), 2);
    assert_eq!(out[0].code, vec![Op::Drop]);
    assert_eq!(out[1].get(0), Some(Op::Select));
    assert_eq!(out[1].len(), 1);
}

#[test]
fn memory_message_names_the_cap() {
    assert_eq!(
        Error::MemoryPages { max_pages: 6 }.message(),
        "The WASM module is not allowed to have more than 6 pages of memory"
    );
    assert_eq!(
        Error::MemoryPages { max_pages: 4096 }.message(),
        "The WASM module is not allowed to have more than 4096 pages of memory"
    );
    assert_eq!(
        Error::MemoryPages { max_pages: 0 }.message(),
        "The WASM module is not allowed to have more than 0 pages of memory"
    );
}

#[test]
fn unreachable_code_pops_vacuously() {
    let m = one(
        None,
        vec![
            Instruction::Block(BlockType::NoResult),
            Instruction::Br(0),
            i32_add(),
            Instruction::Drop,
            Instruction::End,
            Instruction::End,
        ],
    );
    assert!(compile_module(m).is_ok());
}

#[test]
fn error_messages() {
    let e = Error::FloatInstruction { func: 0, pos: 0, width: FloatWidth::F64 };
    assert!(e.message().starts_with("f64"));
    assert_eq!(Error::FloatSignature { func: 0 }.message(), "Use of floating point types denied");
    assert_eq!(Error::Type { func: 1, pos: 2 }.message(), "type mismatch");
    assert_eq!(Error::Control { func: 1, pos: 2 }.message(), "malformed control structure");
    assert_eq!(Error::Declaration { func: 1 }.message(), "function without a signature");
}
