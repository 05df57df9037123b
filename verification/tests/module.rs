//! The assembly of a module from its fields.

use std::collections::HashMap;
use wat_ir::error::ErrorStage;
use wat_ir::helper::SerializedNumber;
use wat_ir::instruction::InputOutput;
use wat_ir::instruction::SerializedInstruction;
use wat_ir::marker::NumLocationKind;
use wat_ir::marker::SerializableWatType;
use wat_ir::marker::SimpleInstruction;
use wat_ir::module::const_eval_expr;
use wat_ir::module::DataValue;
use wat_ir::module::GlobalData;
use wat_ir::module::InterpreterStructure;
use wat_ir::module::MemoryData;
use wat_ir::module::WastFunc;
use wat_ir::module::PAGE_SIZE_AS_BYTES;
use wat_ir::syntax::Data;
use wat_ir::syntax::DataKind;
use wat_ir::syntax::DataVal;
use wat_ir::syntax::Export;
use wat_ir::syntax::ExportKind;
use wat_ir::syntax::Func;
use wat_ir::syntax::FuncKind;
use wat_ir::syntax::FunctionType;
use wat_ir::syntax::Global;
use wat_ir::syntax::GlobalKind;
use wat_ir::syntax::Index;
use wat_ir::syntax::Instruction;
use wat_ir::syntax::Local;
use wat_ir::syntax::Memory;
use wat_ir::syntax::MemoryKind;
use wat_ir::syntax::ModuleField;
use wat_ir::syntax::TypeUse;
use wat_ir::syntax::ValType;
use wat_ir::validator::Validator;

fn constant(v: i32) -> SerializedInstruction {
    SerializedInstruction::Const { typ: SerializableWatType::I32, value: SerializedNumber::from_i32(v) }
}

fn no_type() -> TypeUse {
    TypeUse { index: None, inline: None }
}

fn empty_func(id: Option<&str>, exports: &[&str]) -> ModuleField {
    ModuleField::Func(Func {
        id: id.map(str::to_string),
        exports: exports.iter().map(|e| e.to_string()).collect(),
        kind: FuncKind::Inline { locals: vec![], expression: vec![] },
        ty: no_type(),
    })
}

fn global(id: Option<&str>, exports: &[&str], ty: ValType, init: Vec<Instruction>) -> ModuleField {
    ModuleField::Global(Global {
        id: id.map(str::to_string),
        exports: exports.iter().map(|e| e.to_string()).collect(),
        ty,
        mutable: false,
        kind: GlobalKind::Inline(init),
    })
}

fn memory(id: Option<&str>, exports: &[&str], kind: MemoryKind) -> ModuleField {
    ModuleField::Memory(Memory {
        id: id.map(str::to_string),
        exports: exports.iter().map(|e| e.to_string()).collect(),
        kind,
    })
}

fn limits(min: u64, max: Option<u64>) -> MemoryKind {
    MemoryKind::Normal { is_32: true, min, max, shared: false }
}

fn export(name: &str, kind: ExportKind, item: Index) -> ModuleField {
    ModuleField::Export(Export { name: name.to_string(), kind, item })
}

fn build(fields: Vec<ModuleField>) -> InterpreterStructure {
    InterpreterStructure::try_new(&fields, &None).unwrap()
}

fn refuse(fields: Vec<ModuleField>) -> (ErrorStage, String) {
    let e = InterpreterStructure::try_new(&fields, &None).unwrap_err();
    (e.stage(), e.message().unwrap())
}

#[test]
fn page_size() {
    assert_eq!(PAGE_SIZE_AS_BYTES, 65536);
}

#[test]
fn initializer_is_one_constant() {
    assert_eq!(const_eval_expr(&[constant(7)], None).unwrap(), SerializedNumber::from_i32(7));
    assert_eq!(
        const_eval_expr(&[constant(7)], Some(SerializableWatType::I32)).unwrap(),
        SerializedNumber::from_i32(7)
    );
    let e = const_eval_expr(&[constant(7)], Some(SerializableWatType::F32)).unwrap_err();
    assert_eq!(e.stage(), ErrorStage::TypeChecking);
    assert_eq!(e.message(), Some("Expected F32 type but got I32 type!".to_string()));
    let e = const_eval_expr(&[], None).unwrap_err();
    assert_eq!(e.message(), Some("Expected Const instruction but got nothing!".to_string()));
    let e = const_eval_expr(&[constant(1), constant(2)], None).unwrap_err();
    assert_eq!(e.message(), Some("Expect a single const expression for initalizing".to_string()));
    let nop = SerializedInstruction::Simple(SimpleInstruction::Nop);
    let e = const_eval_expr(&[nop], None).unwrap_err();
    assert_eq!(e.message(), Some("Expect a single const expression for initalizing".to_string()));
}

#[test]
fn global_data() {
    let g = GlobalData::try_new("g".to_string(), SerializableWatType::I32, true, vec![constant(3)]).unwrap();
    assert_eq!(
        g,
        GlobalData {
            name: "g".to_string(),
            typ: SerializableWatType::I32,
            is_mutable: true,
            val: SerializedNumber::from_i32(3)
        }
    );
    assert!(GlobalData::try_new("g".to_string(), SerializableWatType::I64, true, vec![constant(3)]).is_err());
    assert!(GlobalData::try_new("g".to_string(), SerializableWatType::I32, true, vec![]).is_err());
}

#[test]
fn data_values() {
    let s = DataValue::clone_from(&DataVal::String(b"hi".to_vec()));
    assert_eq!(s, DataValue { id: String::new(), is_string: true, data: vec![b'h', b'i'] });
    let i = DataValue::clone_from(&DataVal::Integral(vec![1, 2, 3]));
    assert_eq!(i, DataValue { id: String::new(), is_string: false, data: vec![1, 2, 3] });
    let list = vec![DataVal::String(b"ab".to_vec()), DataVal::String(vec![]), DataVal::String(b"c".to_vec())];
    let joined = DataValue::from_list("d".to_string(), &list);
    assert_eq!(joined, DataValue { id: "d".to_string(), is_string: true, data: b"abc".to_vec() });
    let mixed = vec![DataVal::String(b"ab".to_vec()), DataVal::Integral(vec![9])];
    let joined = DataValue::from_list(String::new(), &mixed);
    assert_eq!(joined, DataValue { id: String::new(), is_string: false, data: vec![b'a', b'b', 9] });
    assert_eq!(joined.duplicate(), joined);
    let nothing = DataValue::from_list(String::new(), &vec![]);
    assert_eq!(nothing, DataValue { id: String::new(), is_string: true, data: vec![] });
}

#[test]
fn memory_data() {
    let m = MemoryData::new("m".to_string(), 1, Some(2), true, false, HashMap::new());
    assert_eq!(m.min, SerializedNumber::from_i64(1));
    assert_eq!(m.max, SerializedNumber::from_i64(2));
    let open = MemoryData::new("m".to_string(), 1, None, false, true, HashMap::new());
    assert_eq!(open.max, SerializedNumber::from_i32(0));
    assert!(!open.is_32);
    assert!(open.is_shared);
}

#[test]
fn memory_with_limits() {
    let structure = build(vec![memory(Some("m"), &["mem"], limits(1, Some(u64::MAX)))]);
    assert_eq!(structure.memory.len(), 1);
    let m = &structure.memory[0];
    assert_eq!(m.name, "m");
    assert_eq!(m.min, SerializedNumber::from_i64(1));
    assert_eq!(m.max, SerializedNumber::from_i64(-1));
    assert!(m.is_32);
    assert!(m.data.is_empty());
    assert_eq!(structure.exported, vec![("mem".to_string(), (NumLocationKind::Memory, 0))]);
}

#[test]
fn inline_memory_is_laid_out_from_zero() {
    let data = vec![
        DataVal::String(b"hello".to_vec()),
        DataVal::Integral(vec![1, 2]),
        DataVal::String(vec![]),
        DataVal::String(b"!".to_vec()),
    ];
    let structure = build(vec![memory(None, &[], MemoryKind::Inline { is_32: true, data })]);
    let m = &structure.memory[0];
    assert_eq!(m.name, "");
    assert_eq!(m.min, SerializedNumber::from_i64(0));
    assert_eq!(m.max, SerializedNumber::from_i64(1));
    assert!(!m.is_shared);
    assert_eq!(m.data.len(), 3);
    assert_eq!(m.data[&0].data, b"hello".to_vec());
    assert!(m.data[&0].is_string);
    assert_eq!(m.data[&5].data, vec![1, 2]);
    assert!(!m.data[&5].is_string);
    // Of the two items that start at offset 7 the later stays.
    assert_eq!(m.data[&7].data, b"!".to_vec());
}

#[test]
fn inline_memory_pages_round_up() {
    let pages = |bytes: usize| {
        let data = vec![DataVal::Integral(vec![0; bytes])];
        let structure = build(vec![memory(None, &[], MemoryKind::Inline { is_32: false, data })]);
        structure.memory[0].max
    };
    assert_eq!(pages(0), SerializedNumber::from_i64(0));
    assert_eq!(pages(1), SerializedNumber::from_i64(1));
    assert_eq!(pages(65535), SerializedNumber::from_i64(1));
    assert_eq!(pages(65536), SerializedNumber::from_i64(1));
    assert_eq!(pages(65537), SerializedNumber::from_i64(2));
    assert_eq!(pages(3 * 65536), SerializedNumber::from_i64(3));
}

#[test]
fn passive_data_is_free() {
    let d = ModuleField::Data(Data {
        id: Some("d".to_string()),
        kind: DataKind::Passive,
        data: vec![DataVal::String(b"ab".to_vec())],
    });
    let structure = build(vec![d]);
    assert_eq!(structure.free_data, vec![DataValue { id: "d".to_string(), is_string: true, data: b"ab".to_vec() }]);
}

fn active(memory: Index, offset: Vec<Instruction>) -> ModuleField {
    ModuleField::Data(Data {
        id: None,
        kind: DataKind::Active { memory, offset },
        data: vec![DataVal::Integral(vec![7, 8])],
    })
}

#[test]
fn active_data_goes_into_its_memory() {
    let fields = vec![
        memory(Some("a"), &[], limits(1, None)),
        memory(Some("b"), &[], limits(1, None)),
        active(Index::Id("b".to_string()), vec![Instruction::I32Const(16)]),
        active(Index::Num(0), vec![Instruction::I64Const(32)]),
        active(Index::Num(0), vec![Instruction::I32Const(32)]),
    ];
    let structure = build(fields);
    assert_eq!(structure.memory[1].data.len(), 1);
    assert_eq!(structure.memory[1].data[&16].data, vec![7, 8]);
    assert_eq!(structure.memory[0].data.len(), 1);
    assert_eq!(structure.memory[0].data[&32].data, vec![7, 8]);
    assert!(structure.free_data.is_empty());
}

#[test]
fn active_data_faults() {
    let (stage, message) = refuse(vec![active(Index::Num(0), vec![Instruction::I32Const(0)])]);
    assert_eq!(stage, ErrorStage::Unimplemented);
    assert_eq!(
        message,
        "Currently cannot add data to memory not already defined: memory 0 is not defined at this point"
    );
    let mem = || memory(Some("m"), &[], limits(1, None));
    let (stage, message) = refuse(vec![mem(), active(Index::Num(0), vec![])]);
    assert_eq!(stage, ErrorStage::TypeChecking);
    assert_eq!(message, "Expected Const instruction but got nothing!");
    let (_, message) = refuse(vec![mem(), active(Index::Num(0), vec![Instruction::Nop])]);
    assert_eq!(message, "Expect a single const expression for initalizing");
    let (_, message) = refuse(vec![mem(), active(Index::Num(0), vec![Instruction::I64Const(1 << 40)])]);
    assert_eq!(message, "Number does not fit in 32 bits");
}

#[test]
fn export_fields_resolve_by_position_or_name() {
    let fields = vec![
        empty_func(Some("f"), &[]),
        empty_func(None, &[]),
        global(Some("g"), &[], ValType::I32, vec![Instruction::I32Const(0)]),
        memory(None, &[], limits(0, None)),
        export("by_name", ExportKind::Func, Index::Id("f".to_string())),
        export("by_position", ExportKind::Func, Index::Num(1)),
        export("first", ExportKind::Func, Index::Num(0)),
        export("global", ExportKind::Global, Index::Id("g".to_string())),
        export("memory", ExportKind::Memory, Index::Num(0)),
    ];
    let structure = build(fields);
    assert_eq!(
        structure.exported,
        vec![
            ("by_name".to_string(), (NumLocationKind::Function, 0)),
            ("by_position".to_string(), (NumLocationKind::Function, 1)),
            ("first".to_string(), (NumLocationKind::Function, 0)),
            ("global".to_string(), (NumLocationKind::Global, 0)),
            ("memory".to_string(), (NumLocationKind::Memory, 0)),
        ]
    );
}

#[test]
fn export_faults() {
    let (stage, message) = refuse(vec![export("x", ExportKind::Func, Index::Num(0))]);
    assert_eq!(stage, ErrorStage::NameResolving);
    assert_eq!(message, "Function 0 not found!");
    let (_, message) = refuse(vec![export("x", ExportKind::Global, Index::Id("g".to_string()))]);
    assert_eq!(message, "Global g not found!");
    let (_, message) = refuse(vec![export("x", ExportKind::Memory, Index::Num(2))]);
    assert_eq!(message, "Memory 2 not found!");
    let (stage, message) = refuse(vec![export("x", ExportKind::Table, Index::Num(0))]);
    assert_eq!(stage, ErrorStage::Unimplemented);
    assert_eq!(message, "Export Tables not implemented");
    let (_, message) = refuse(vec![export("x", ExportKind::Tag, Index::Num(0))]);
    assert_eq!(message, "Export Tags not implemented");
}

#[test]
fn a_name_is_exported_once() {
    let (stage, message) = refuse(vec![empty_func(None, &["run"]), empty_func(None, &["run"])]);
    assert_eq!(stage, ErrorStage::NameResolving);
    assert_eq!(message, "Name run is defined multiple times");
    let (_, message) = refuse(vec![empty_func(None, &["a", "b", "a"])]);
    assert_eq!(message, "Name a is defined multiple times");
    let (_, message) = refuse(vec![
        empty_func(None, &["run"]),
        memory(None, &["run"], limits(0, None)),
    ]);
    assert_eq!(message, "Name run is defined multiple times");
    let (_, message) = refuse(vec![
        global(None, &["run"], ValType::I32, vec![Instruction::I32Const(0)]),
        empty_func(None, &[]),
        export("run", ExportKind::Func, Index::Num(0)),
    ]);
    assert_eq!(message, "Name run is defined multiple times");
    let structure = build(vec![empty_func(None, &["a", "b"])]);
    assert_eq!(structure.exported.len(), 2);
}

#[test]
fn start_is_recorded() {
    let structure = build(vec![empty_func(Some("main"), &[]), ModuleField::Start(Index::Id("main".to_string()))]);
    assert_eq!(structure.start, Some("main".to_string()));
    let structure = build(vec![ModuleField::Start(Index::Num(3))]);
    assert_eq!(structure.start, Some("3".to_string()));
}

#[test]
fn unsupported_fields() {
    let cases = [
        (ModuleField::Import, "Import field not implemented"),
        (ModuleField::Type, "Type field not implemented"),
        (ModuleField::Rec, "Rec field not implemented"),
        (ModuleField::Table, "Table field not implemented"),
        (ModuleField::Elem, "Element field not implemented"),
        (ModuleField::Tag, "Tag field not implemented"),
        (ModuleField::Custom, "Custom field not implemented"),
    ];
    for (field, message) in cases {
        assert_eq!(refuse(vec![field]), (ErrorStage::Unimplemented, message.to_string()));
    }
}

#[test]
fn imports_are_unimplemented() {
    let f = ModuleField::Func(Func { id: None, exports: vec![], kind: FuncKind::Import, ty: no_type() });
    assert_eq!(refuse(vec![f]), (ErrorStage::Unimplemented, "Import functions are not supported yet.".to_string()));
    let g = ModuleField::Global(Global {
        id: None,
        exports: vec![],
        ty: ValType::I32,
        mutable: false,
        kind: GlobalKind::Import,
    });
    assert_eq!(refuse(vec![g]), (ErrorStage::Unimplemented, "Imported globals not yet implemented.".to_string()));
    let m = memory(None, &[], MemoryKind::Import);
    assert_eq!(refuse(vec![m]), (ErrorStage::Unimplemented, "Imported memory not yet implemented.".to_string()));
}

#[test]
fn global_faults() {
    let (stage, message) = refuse(vec![global(None, &[], ValType::Ref, vec![Instruction::I32Const(0)])]);
    assert_eq!(stage, ErrorStage::Unimplemented);
    assert_eq!(message, "Cannot use Ref type");
    let (stage, message) = refuse(vec![global(None, &[], ValType::I64, vec![Instruction::I32Const(0)])]);
    assert_eq!(stage, ErrorStage::TypeChecking);
    assert_eq!(message, "Expected I64 type but got I32 type!");
    let (_, message) = refuse(vec![global(None, &[], ValType::I32, vec![Instruction::GlobalGet(Index::Num(0))])]);
    assert_eq!(message, "Expect a single const expression for initalizing");
    let (_, message) = refuse(vec![global(None, &[], ValType::I32, vec![])]);
    assert_eq!(message, "Expected Const instruction but got nothing!");
}

#[test]
fn function_records() {
    let f = Func {
        id: Some("f".to_string()),
        exports: vec![],
        kind: FuncKind::Inline {
            locals: vec![Local { id: Some("t".to_string()), ty: ValType::F32 }, Local { id: None, ty: ValType::I64 }],
            expression: vec![Instruction::Nop],
        },
        ty: TypeUse {
            index: None,
            inline: Some(FunctionType { params: vec![(Some("p".to_string()), ValType::I32)], results: vec![] }),
        },
    };
    let mut record = WastFunc::try_from_func(&f).unwrap();
    assert_eq!(record.name(), Some("f".to_string()));
    assert_eq!(
        record.info,
        InputOutput {
            index: Some("f".to_string()),
            input: vec![(Some("p".to_string()), SerializableWatType::I32)],
            output: vec![]
        }
    );
    assert_eq!(
        record.locals,
        vec![(Some("t".to_string()), SerializableWatType::F32), (None, SerializableWatType::I64)]
    );
    assert_eq!(record.block.get_root().len(), 1);
    record.set_name_from_number(12);
    assert_eq!(record.name(), Some("12".to_string()));

    let typed = Func { ty: TypeUse { index: Some(Index::Id("sig".to_string())), inline: None }, ..f.clone() };
    assert_eq!(WastFunc::try_from_func(&typed).unwrap().name(), Some("sig".to_string()));

    let with_ref = WastFunc::try_new(InputOutput::default(), &[Local { id: None, ty: ValType::Ref }], &[]);
    assert_eq!(with_ref.unwrap_err().message(), Some("Cannot use Ref type".to_string()));
    let anonymous = WastFunc::try_new(InputOutput::default(), &[], &[]).unwrap();
    assert_eq!(anonymous.name(), None);
}

#[test]
fn locals_follow_the_parameters() {
    let f = ModuleField::Func(Func {
        id: None,
        exports: vec![],
        kind: FuncKind::Inline {
            locals: vec![Local { id: Some("t".to_string()), ty: ValType::F32 }],
            expression: vec![
                Instruction::LocalGet(Index::Num(1)),
                Instruction::LocalGet(Index::Id("t".to_string())),
                Instruction::F32Add,
                Instruction::LocalGet(Index::Num(0)),
                Instruction::Drop,
            ],
        },
        ty: TypeUse {
            index: None,
            inline: Some(FunctionType {
                params: vec![(Some("p".to_string()), ValType::I32)],
                results: vec![ValType::F32],
            }),
        },
    });
    build(vec![f]);
}

#[test]
fn validator_of_a_module() {
    let structure = build(vec![
        global(Some("g"), &[], ValType::I32, vec![Instruction::I32Const(0)]),
        memory(None, &[], limits(1, None)),
        empty_func(Some("f"), &[]),
    ]);
    assert!(structure.validate().is_ok());
    let mut validator = Validator::new(&structure);
    let get = SerializedInstruction::Data {
        kind: wat_ir::marker::DataInstruction::GetGlobal,
        location: "g".to_string(),
    };
    validator.validate_function(&[get], &[], &[], &[SerializableWatType::I32]).unwrap();
    let size = SerializedInstruction::Data {
        kind: wat_ir::marker::DataInstruction::GetMemorySize,
        location: "0".to_string(),
    };
    validator.validate_function(&[size], &[], &[], &[SerializableWatType::I32]).unwrap();
    let call = SerializedInstruction::Call { index: "f".to_string(), inout: InputOutput::default() };
    validator.validate_function(&[call], &[], &[], &[]).unwrap();
}

#[test]
fn the_first_invalid_function_is_reported() {
    let bad = |name: &str, body: Vec<Instruction>| {
        ModuleField::Func(Func {
            id: Some(name.to_string()),
            exports: vec![],
            kind: FuncKind::Inline { locals: vec![], expression: body },
            ty: no_type(),
        })
    };
    let (_, message) = refuse(vec![
        empty_func(None, &[]),
        bad("a", vec![Instruction::LocalGet(Index::Id("a".to_string()))]),
        bad("b", vec![Instruction::Drop]),
    ]);
    assert_eq!(message, "Local a not found!");
}

#[test]
fn a_later_function_may_be_called() {
    let caller = ModuleField::Func(Func {
        id: None,
        exports: vec![],
        kind: FuncKind::Inline { locals: vec![], expression: vec![Instruction::Call(Index::Id("later".to_string()))] },
        ty: no_type(),
    });
    build(vec![caller, empty_func(Some("later"), &[])]);
}

#[test]
fn variables_carry_distinct_identifiers() {
    let f = |params: Vec<&str>, locals: Vec<&str>| {
        ModuleField::Func(Func {
            id: None,
            exports: vec![],
            kind: FuncKind::Inline {
                locals: locals.iter().map(|n| Local { id: Some(n.to_string()), ty: ValType::I32 }).collect(),
                expression: vec![],
            },
            ty: TypeUse {
                index: None,
                inline: Some(FunctionType {
                    params: params.iter().map(|n| (Some(n.to_string()), ValType::I32)).collect(),
                    results: vec![],
                }),
            },
        })
    };
    build(vec![f(vec!["a", "b"], vec!["c"])]);
    let (stage, message) = refuse(vec![f(vec!["a", "b", "a"], vec![])]);
    assert_eq!(stage, ErrorStage::NameResolving);
    assert_eq!(message, "Name a is defined multiple times");
    let (_, message) = refuse(vec![f(vec!["a", "b"], vec!["c", "b"])]);
    assert_eq!(message, "Name b is defined multiple times");
    let (_, message) = refuse(vec![f(vec![], vec!["x", "y", "y", "x"])]);
    assert_eq!(message, "Name y is defined multiple times");
}

#[test]
fn globals_and_memories_carry_distinct_identifiers() {
    let g = |id: Option<&str>| global(id, &[], ValType::I32, vec![Instruction::I32Const(0)]);
    build(vec![g(Some("a")), g(None), g(None), g(Some("b"))]);
    let (stage, message) = refuse(vec![g(Some("a")), g(Some("b")), g(Some("a"))]);
    assert_eq!(stage, ErrorStage::NameResolving);
    assert_eq!(message, "Name a is defined multiple times");
    let m = |id: Option<&str>| memory(id, &[], limits(0, None));
    build(vec![m(Some("a")), m(None), m(None), g(Some("a"))]);
    let (_, message) = refuse(vec![m(Some("m")), m(Some("m"))]);
    assert_eq!(message, "Name m is defined multiple times");
}

#[test]
fn function_copies_are_equal() {
    let f = Func {
        id: Some("f".to_string()),
        exports: vec![],
        kind: FuncKind::Inline {
            locals: vec![Local { id: Some("t".to_string()), ty: ValType::F32 }, Local { id: None, ty: ValType::I64 }],
            expression: vec![Instruction::Nop, Instruction::LocalGet(Index::Num(0)), Instruction::Drop],
        },
        ty: no_type(),
    };
    let record = WastFunc::try_from_func(&f).unwrap();
    assert_eq!(record.duplicate(), record);
}

#[test]
fn root_names() {
    use_root_names();
}

fn use_root_names() {
    let structure = wat_ir::InterpreterStructure::empty("m".to_string());
    assert_eq!(structure.name, "m");
    let e = wat_ir::WatError::unimplemented_error("x");
    assert_eq!(e.stage(), wat_ir::ErrorStage::Unimplemented);
    assert_eq!(wat_ir::NumLocationKind::Type.name(), "Type");
}
