//! Whole modules, from the parsed form to the verdict.

use wat_ir::error::ErrorStage;
use wat_ir::error::WatError;
use wat_ir::instruction::SerializedInstruction;
use wat_ir::marker::ArithmeticOperation;
use wat_ir::marker::NumLocationKind;
use wat_ir::marker::SerializableWatType;
use wat_ir::module::inner_transform;
use wat_ir::module::transform;
use wat_ir::module::InterpreterStructure;
use wat_ir::module::TransfromResult;
use wat_ir::syntax::BlockType;
use wat_ir::syntax::BrTableIndices;
use wat_ir::syntax::Func;
use wat_ir::syntax::FuncKind;
use wat_ir::syntax::FunctionType;
use wat_ir::syntax::Global;
use wat_ir::syntax::GlobalKind;
use wat_ir::syntax::Index;
use wat_ir::syntax::Instruction;
use wat_ir::syntax::Module;
use wat_ir::syntax::ModuleField;
use wat_ir::syntax::ModuleKind;
use wat_ir::syntax::ParseFailure;
use wat_ir::syntax::ParseOutcome;
use wat_ir::syntax::TypeUse;
use wat_ir::syntax::ValType;
use wat_ir::syntax::Wat;
use wat_ir::tree::SerializedInstructionNode;

fn signature(params: Vec<(Option<&str>, ValType)>, results: Vec<ValType>) -> TypeUse {
    if params.is_empty() && results.is_empty() {
        return TypeUse { index: None, inline: None };
    }
    TypeUse {
        index: None,
        inline: Some(FunctionType {
            params: params.into_iter().map(|(n, t)| (n.map(str::to_string), t)).collect(),
            results,
        }),
    }
}

fn func(
    id: Option<&str>,
    exports: &[&str],
    params: Vec<(Option<&str>, ValType)>,
    results: Vec<ValType>,
    body: Vec<Instruction>,
) -> ModuleField {
    ModuleField::Func(Func {
        id: id.map(str::to_string),
        exports: exports.iter().map(|e| e.to_string()).collect(),
        kind: FuncKind::Inline { locals: vec![], expression: body },
        ty: signature(params, results),
    })
}

fn block(label: Option<&str>, results: Vec<ValType>) -> BlockType {
    BlockType { label: label.map(str::to_string), ty: signature(vec![], results) }
}

fn id(name: &str) -> Index {
    Index::Id(name.to_string())
}

fn parsed(fields: Vec<ModuleField>) -> ParseOutcome {
    ParseOutcome::Parsed {
        wat: Wat::Module(Module { id: None, kind: ModuleKind::Text(fields) }),
        resolution: None,
    }
}

fn accept(fields: Vec<ModuleField>) -> InterpreterStructure {
    match inner_transform(parsed(fields)) {
        Ok(structure) => structure,
        Err(e) => panic!("rejected: {}", e.to_text()),
    }
}

fn reject(fields: Vec<ModuleField>) -> WatError {
    match inner_transform(parsed(fields)) {
        Ok(_) => panic!("accepted"),
        Err(e) => e,
    }
}

fn leaf(node: &SerializedInstructionNode) -> &SerializedInstruction {
    match node {
        SerializedInstructionNode::NonBlock(i) => i,
        other => panic!("not a leaf: {:?}", other),
    }
}

#[test]
fn empty_module_succeeds_with_empty_fields() {
    let structure = accept(vec![]);
    assert_eq!(structure.name, "");
    assert!(structure.exported.is_empty());
    assert!(structure.globals.is_empty());
    assert!(structure.memory.is_empty());
    assert!(structure.free_data.is_empty());
    assert!(structure.func.is_empty());
    assert_eq!(structure.start, None);
}

#[test]
fn module_name_is_kept() {
    let outcome = ParseOutcome::Parsed {
        wat: Wat::Module(Module { id: Some("m".to_string()), kind: ModuleKind::Text(vec![]) }),
        resolution: None,
    };
    assert_eq!(inner_transform(outcome).unwrap().name, "m");
}

#[test]
fn constant_function_validates() {
    // (module (func (result i32) i32.const 42))
    let structure = accept(vec![func(None, &[], vec![], vec![ValType::I32], vec![Instruction::I32Const(42)])]);
    assert_eq!(structure.func.len(), 1);
    let f = &structure.func[0];
    assert_eq!(f.info.output, vec![SerializableWatType::I32]);
    assert!(f.info.input.is_empty());
    assert_eq!(f.name(), Some("0".to_string()));
    let root = f.block.get_root();
    assert_eq!(root.len(), 1);
    match leaf(&root[0]) {
        SerializedInstruction::Const { typ, value } => {
            assert_eq!(*typ, SerializableWatType::I32);
            assert_eq!(value.typ(), SerializableWatType::I32);
            assert_eq!(value.first_bytes(), [0, 0, 0, 42]);
            assert_eq!(value.second_bytes(), None);
        }
        other => panic!("not a constant: {:?}", other),
    }
}

#[test]
fn call_uses_the_signature_of_the_callee() {
    // (module (func $getAnswer (result i32) i32.const 42)
    //         (func (export "plus1") (result i32) call $getAnswer i32.const 1 i32.add))
    let structure = accept(vec![
        func(Some("getAnswer"), &[], vec![], vec![ValType::I32], vec![Instruction::I32Const(42)]),
        func(
            None,
            &["plus1"],
            vec![],
            vec![ValType::I32],
            vec![Instruction::Call(id("getAnswer")), Instruction::I32Const(1), Instruction::I32Add],
        ),
    ]);
    assert_eq!(structure.exported, vec![("plus1".to_string(), (NumLocationKind::Function, 1))]);
    assert_eq!(structure.func[0].name(), Some("getAnswer".to_string()));
    assert_eq!(structure.func[1].name(), Some("1".to_string()));
    let root = structure.func[1].block.get_root();
    assert_eq!(root.len(), 3);
    assert!(matches!(leaf(&root[0]), SerializedInstruction::Call { index, inout } if index == "getAnswer" && inout.is_empty()));
    assert!(matches!(leaf(&root[1]), SerializedInstruction::Const { .. }));
    assert_eq!(
        *leaf(&root[2]),
        SerializedInstruction::Arithmetic { kind: ArithmeticOperation::Addition, typ: SerializableWatType::I32 }
    );
}

#[test]
fn call_by_position_resolves_like_call_by_name() {
    let structure = accept(vec![
        func(Some("getAnswer"), &[], vec![], vec![ValType::I32], vec![Instruction::I32Const(42)]),
        func(None, &[], vec![], vec![ValType::I32], vec![Instruction::Call(Index::Num(0))]),
    ]);
    assert_eq!(structure.func.len(), 2);
}

#[test]
fn call_of_unknown_function_is_rejected() {
    let e = reject(vec![func(None, &[], vec![], vec![], vec![Instruction::Call(id("nowhere"))])]);
    assert_eq!(e.stage(), ErrorStage::NameResolving);
    assert_eq!(e.message(), Some("Function nowhere not found!".to_string()));
}

#[test]
fn named_parameter_validates() {
    // (module (func (param $a i32) (result i32) local.get $a local.get $a i32.mul))
    let structure = accept(vec![func(
        None,
        &[],
        vec![(Some("a"), ValType::I32)],
        vec![ValType::I32],
        vec![Instruction::LocalGet(id("a")), Instruction::LocalGet(id("a")), Instruction::I32Mul],
    )]);
    assert_eq!(structure.func[0].info.input, vec![(Some("a".to_string()), SerializableWatType::I32)]);
}

#[test]
fn parameter_by_position_validates() {
    accept(vec![func(
        None,
        &[],
        vec![(Some("a"), ValType::I32)],
        vec![ValType::I32],
        vec![Instruction::LocalGet(Index::Num(0)), Instruction::LocalGet(id("a")), Instruction::I32Mul],
    )]);
}

#[test]
fn extra_item_on_stack_is_rejected() {
    // (module (func (result i32) i32.const 1 i32.const 2))
    let e = reject(vec![func(
        None,
        &[],
        vec![],
        vec![ValType::I32],
        vec![Instruction::I32Const(1), Instruction::I32Const(2)],
    )]);
    assert_eq!(e.stage(), ErrorStage::TypeChecking);
    assert_eq!(e.span(), None);
    assert_eq!(e.message(), Some("Expect stack to be empty, but found: I32.".to_string()));
    assert_eq!(e.to_text(), "[TypeChecking Error]: Expect stack to be empty, but found: I32.");
}

fn immutable_global() -> ModuleField {
    ModuleField::Global(Global {
        id: Some("g".to_string()),
        exports: vec![],
        ty: ValType::I32,
        mutable: false,
        kind: GlobalKind::Inline(vec![Instruction::I32Const(0)]),
    })
}

#[test]
fn setting_immutable_global_is_rejected() {
    // (module (global $g i32 (i32.const 0)) (func (i32.const 5) (global.set $g)))
    let e = reject(vec![
        immutable_global(),
        func(None, &[], vec![], vec![], vec![Instruction::I32Const(5), Instruction::GlobalSet(id("g"))]),
    ]);
    assert_eq!(e.stage(), ErrorStage::TypeChecking);
    assert_eq!(e.message(), Some("Cannot set immutable Global g!".to_string()));
}

#[test]
fn reading_immutable_global_validates() {
    accept(vec![
        immutable_global(),
        func(None, &[], vec![], vec![ValType::I32], vec![Instruction::GlobalGet(id("g"))]),
    ]);
}

#[test]
fn setting_mutable_global_validates() {
    let global = ModuleField::Global(Global {
        id: Some("g".to_string()),
        exports: vec!["counter".to_string()],
        ty: ValType::I64,
        mutable: true,
        kind: GlobalKind::Inline(vec![Instruction::I64Const(7)]),
    });
    let structure = accept(vec![
        global,
        func(None, &[], vec![], vec![], vec![Instruction::I64Const(5), Instruction::GlobalSet(Index::Num(0))]),
    ]);
    assert_eq!(structure.exported, vec![("counter".to_string(), (NumLocationKind::Global, 0))]);
    assert_eq!(structure.globals[0].name, "g");
    assert!(structure.globals[0].is_mutable);
    assert_eq!(structure.globals[0].val.first_bytes(), [0, 0, 0, 0]);
    assert_eq!(structure.globals[0].val.second_bytes(), Some([0, 0, 0, 7]));
}

#[test]
fn mismatched_operand_is_rejected() {
    // (module (func (param $x i32) (result i32) local.get $x f32.const 1.0 i32.add))
    let e = reject(vec![func(
        None,
        &[],
        vec![(Some("x"), ValType::I32)],
        vec![ValType::I32],
        vec![Instruction::LocalGet(id("x")), Instruction::F32Const(1.0f32.to_bits()), Instruction::I32Add],
    )]);
    assert_eq!(e.stage(), ErrorStage::TypeChecking);
    assert_eq!(e.message(), Some("Mismatched types, expected I32, but got F32.".to_string()));
}

#[test]
fn branch_to_own_block_validates() {
    // (module (func (block $b (br $b))))
    let structure = accept(vec![func(
        None,
        &[],
        vec![],
        vec![],
        vec![Instruction::Block(block(Some("b"), vec![])), Instruction::Br(id("b")), Instruction::End(None)],
    )]);
    let root = structure.func[0].block.get_root();
    assert_eq!(root.len(), 1);
    match &root[0] {
        SerializedInstructionNode::SingleBlock { label, is_loop, inner_nodes, inout } => {
            assert_eq!(label, "b");
            assert!(!is_loop);
            assert!(inout.is_empty());
            assert_eq!(inner_nodes.len(), 1);
        }
        other => panic!("not a block: {:?}", other),
    }
}

#[test]
fn if_with_both_arms_validates() {
    // (module (func (if (i32.const 1) (then (nop)) (else (nop)))))
    let structure = accept(vec![func(
        None,
        &[],
        vec![],
        vec![],
        vec![
            Instruction::I32Const(1),
            Instruction::If(block(None, vec![])),
            Instruction::Nop,
            Instruction::Else(None),
            Instruction::Nop,
            Instruction::End(None),
        ],
    )]);
    let root = structure.func[0].block.get_root();
    assert_eq!(root.len(), 2);
    match &root[1] {
        SerializedInstructionNode::ConditionalBlock { then_nodes, else_nodes, .. } => {
            assert_eq!(then_nodes.len(), 1);
            assert_eq!(else_nodes.len(), 1);
        }
        other => panic!("not a conditional: {:?}", other),
    }
}

#[test]
fn code_after_unreachable_validates() {
    accept(vec![func(
        None,
        &[],
        vec![],
        vec![ValType::I32],
        vec![Instruction::Unreachable, Instruction::I32Add],
    )]);
    accept(vec![func(None, &[], vec![], vec![ValType::I32], vec![Instruction::Unreachable])]);
    accept(vec![func(
        None,
        &[],
        vec![],
        vec![],
        vec![Instruction::Unreachable, Instruction::Drop, Instruction::F64Sqrt, Instruction::Drop],
    )]);
}

#[test]
fn known_operand_in_unreachable_code_is_still_checked() {
    let e = reject(vec![func(
        None,
        &[],
        vec![],
        vec![],
        vec![Instruction::Unreachable, Instruction::F32Const(0), Instruction::I32Eqz, Instruction::Drop],
    )]);
    assert_eq!(e.message(), Some("Mismatched types, expected I32, but got F32.".to_string()));
}

#[test]
fn branch_at_top_level_takes_the_results() {
    accept(vec![func(
        None,
        &[],
        vec![],
        vec![ValType::I32],
        vec![Instruction::I32Const(1), Instruction::Br(Index::Num(0))],
    )]);
    let e = reject(vec![func(None, &[], vec![], vec![ValType::I32], vec![Instruction::Br(Index::Num(0))])]);
    assert_eq!(
        e.message(),
        Some("Expected at least a value on the stack, but nothing is on the stack!".to_string())
    );
}

#[test]
fn branch_past_the_function_is_rejected() {
    let e = reject(vec![func(None, &[], vec![], vec![], vec![Instruction::Br(Index::Num(1))])]);
    assert_eq!(e.stage(), ErrorStage::TypeChecking);
    assert_eq!(e.message(), Some("Index 1 out of range: max 1.".to_string()));
}

#[test]
fn branch_to_unknown_label_is_rejected() {
    let e = reject(vec![func(None, &[], vec![], vec![], vec![Instruction::Br(id("out"))])]);
    assert_eq!(e.stage(), ErrorStage::NameResolving);
    assert_eq!(e.message(), Some("Label out not found in flow of block!".to_string()));
}

#[test]
fn branch_table_with_mismatched_labels_is_rejected() {
    let body = vec![
        Instruction::Block(block(Some("a"), vec![ValType::I32])),
        Instruction::Block(block(Some("b"), vec![])),
        Instruction::I32Const(0),
        Instruction::BrTable(BrTableIndices { labels: vec![id("a")], default: id("b") }),
        Instruction::End(None),
        Instruction::I32Const(1),
        Instruction::End(None),
        Instruction::Drop,
    ];
    let e = reject(vec![func(None, &[], vec![], vec![], body)]);
    assert_eq!(e.stage(), ErrorStage::TypeChecking);
    assert_eq!(
        e.message(),
        Some("Expected Parameter types to be [] on the stack, but stack has [I32]!".to_string())
    );
}

#[test]
fn branch_table_with_matching_labels_validates() {
    let body = vec![
        Instruction::Block(block(Some("a"), vec![])),
        Instruction::Block(block(Some("b"), vec![])),
        Instruction::I32Const(0),
        Instruction::BrTable(BrTableIndices { labels: vec![id("a"), Index::Num(0)], default: id("b") }),
        Instruction::End(None),
        Instruction::End(None),
    ];
    accept(vec![func(None, &[], vec![], vec![], body)]);
}

#[test]
fn conditional_branch_keeps_the_operands() {
    let body = vec![
        Instruction::Block(block(Some("a"), vec![ValType::I32])),
        Instruction::I32Const(7),
        Instruction::I32Const(1),
        Instruction::BrIf(id("a")),
        Instruction::End(None),
    ];
    accept(vec![func(None, &[], vec![], vec![ValType::I32], body)]);
}

#[test]
fn loop_label_carries_the_inputs() {
    // A branch to a loop carries what the loop takes: nothing here.
    let body = vec![
        Instruction::Loop(block(Some("again"), vec![ValType::I32])),
        Instruction::Br(id("again")),
        Instruction::End(None),
    ];
    accept(vec![func(None, &[], vec![], vec![ValType::I32], body)]);
}

#[test]
fn parse_failure_becomes_a_parsing_error() {
    let outcome = ParseOutcome::Failed(ParseFailure { offset: 7, message: "expected `(`".to_string() });
    let e = inner_transform(outcome).unwrap_err();
    assert_eq!(e.stage(), ErrorStage::Parsing);
    assert_eq!(e.span().map(|s| (s.start, s.end)), Some((7, 8)));
    assert_eq!(e.to_text(), "[Parsing Error@7-8]: expected `(`");
}

#[test]
fn resolution_failure_goes_before_the_module() {
    let outcome = ParseOutcome::Parsed {
        wat: Wat::Module(Module {
            id: None,
            kind: ModuleKind::Text(vec![func(None, &[], vec![], vec![], vec![Instruction::Drop])]),
        }),
        resolution: Some(ParseFailure { offset: 3, message: "unknown local".to_string() }),
    };
    let e = inner_transform(outcome).unwrap_err();
    assert_eq!(e.stage(), ErrorStage::NameResolving);
    assert_eq!(e.to_text(), "[NameResolving Error@3-4]: unknown local");
}

#[test]
fn component_and_binary_are_unimplemented() {
    let component = ParseOutcome::Parsed { wat: Wat::Component, resolution: None };
    let e = inner_transform(component).unwrap_err();
    assert_eq!(e.stage(), ErrorStage::Unimplemented);
    assert_eq!(e.message(), Some("Cannot compile components currently.".to_string()));
    let binary = ParseOutcome::Parsed {
        wat: Wat::Module(Module { id: None, kind: ModuleKind::Binary }),
        resolution: None,
    };
    let e = inner_transform(binary).unwrap_err();
    assert_eq!(e.stage(), ErrorStage::Unimplemented);
    assert_eq!(e.message(), Some("Unimplemented Error: Cannot binary type currently.".to_string()));
}

#[test]
fn transform_wraps_both_outcomes() {
    assert!(matches!(transform(parsed(vec![])), TransfromResult::Structure(_)));
    let bad = parsed(vec![func(None, &[], vec![], vec![], vec![Instruction::Drop])]);
    match transform(bad) {
        TransfromResult::Failure(e) => assert_eq!(e.stage(), ErrorStage::TypeChecking),
        TransfromResult::Structure(_) => panic!("accepted"),
    }
    let from: TransfromResult = Ok(InterpreterStructure::empty("m".to_string())).into();
    assert_eq!(from, TransfromResult::Structure(InterpreterStructure::empty("m".to_string())));
}

#[test]
fn unsupported_instruction_is_unimplemented() {
    let e = reject(vec![func(None, &[], vec![], vec![], vec![Instruction::Other("V128Not".to_string())])]);
    assert_eq!(e.stage(), ErrorStage::Unimplemented);
    assert_eq!(e.message(), Some("Instruction not supported: V128Not".to_string()));
    let e = reject(vec![func(None, &[], vec![], vec![], vec![Instruction::I32Extend8S])]);
    assert_eq!(e.message(), Some("Instruction not supported: I32Extend8S".to_string()));
}
