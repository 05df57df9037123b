//! Source texts, parsed by the parser that the library is written for.

use wat_ir::error::ErrorStage;
use wat_ir::error::WatError;
use wat_ir::instruction::SerializedInstruction;
use wat_ir::marker::NumLocationKind;
use wat_ir::marker::SerializableWatType;
use wat_ir::module::inner_transform;
use wat_ir::module::InterpreterStructure;
use wat_ir::syntax::BlockType;
use wat_ir::syntax::BrTableIndices;
use wat_ir::syntax::CallIndirect;
use wat_ir::syntax::Data;
use wat_ir::syntax::DataKind;
use wat_ir::syntax::DataVal;
use wat_ir::syntax::Export;
use wat_ir::syntax::ExportKind;
use wat_ir::syntax::Func;
use wat_ir::syntax::FuncKind;
use wat_ir::syntax::FunctionType;
use wat_ir::syntax::Global;
use wat_ir::syntax::GlobalKind;
use wat_ir::syntax::Index;
use wat_ir::syntax::Instruction;
use wat_ir::syntax::Local;
use wat_ir::syntax::MemArg;
use wat_ir::syntax::Memory;
use wat_ir::syntax::MemoryKind;
use wat_ir::syntax::Module;
use wat_ir::syntax::ModuleField;
use wat_ir::syntax::ModuleKind;
use wat_ir::syntax::ParseFailure;
use wat_ir::syntax::ParseOutcome;
use wat_ir::syntax::TypeUse;
use wat_ir::syntax::ValType;
use wat_ir::syntax::Wat;
use wat_ir::tree::SerializedInstructionNode;

fn name_of(id: &Option<wast::token::Id>) -> Option<String> {
    id.map(|i| i.name().to_string())
}

fn index(i: &wast::token::Index) -> Index {
    match i {
        wast::token::Index::Num(n, _) => Index::Num(*n),
        wast::token::Index::Id(id) => Index::Id(id.name().to_string()),
    }
}

fn val_type(t: &wast::core::ValType) -> ValType {
    match t {
        wast::core::ValType::I32 => ValType::I32,
        wast::core::ValType::I64 => ValType::I64,
        wast::core::ValType::F32 => ValType::F32,
        wast::core::ValType::F64 => ValType::F64,
        wast::core::ValType::V128 => ValType::V128,
        wast::core::ValType::Ref(_) => ValType::Ref,
    }
}

fn type_use(t: &wast::core::TypeUse<wast::core::FunctionType>) -> TypeUse {
    TypeUse {
        index: t.index.as_ref().map(index),
        inline: t.inline.as_ref().map(|ft| FunctionType {
            params: ft.params.iter().map(|(id, _, ty)| (name_of(id), val_type(ty))).collect(),
            results: ft.results.iter().map(val_type).collect(),
        }),
    }
}

fn block_type(b: &wast::core::BlockType) -> BlockType {
    BlockType { label: name_of(&b.label), ty: type_use(&b.ty) }
}

fn mem_arg(m: &wast::core::MemArg) -> MemArg {
    MemArg { align: m.align, offset: m.offset, memory: index(&m.memory) }
}

fn instruction(i: &wast::core::Instruction) -> Instruction {
    match i {
        wast::core::Instruction::Unreachable => Instruction::Unreachable,
        wast::core::Instruction::Nop => Instruction::Nop,
        wast::core::Instruction::Return => Instruction::Return,
        wast::core::Instruction::Drop => Instruction::Drop,
        wast::core::Instruction::Block(b) => Instruction::Block(block_type(b)),
        wast::core::Instruction::If(b) => Instruction::If(block_type(b)),
        wast::core::Instruction::Loop(b) => Instruction::Loop(block_type(b)),
        wast::core::Instruction::Else(id) => Instruction::Else(name_of(id)),
        wast::core::Instruction::End(id) => Instruction::End(name_of(id)),
        wast::core::Instruction::Br(i) => Instruction::Br(index(i)),
        wast::core::Instruction::BrIf(i) => Instruction::BrIf(index(i)),
        wast::core::Instruction::Call(i) => Instruction::Call(index(i)),
        wast::core::Instruction::LocalGet(i) => Instruction::LocalGet(index(i)),
        wast::core::Instruction::LocalSet(i) => Instruction::LocalSet(index(i)),
        wast::core::Instruction::LocalTee(i) => Instruction::LocalTee(index(i)),
        wast::core::Instruction::GlobalGet(i) => Instruction::GlobalGet(index(i)),
        wast::core::Instruction::GlobalSet(i) => Instruction::GlobalSet(index(i)),
        wast::core::Instruction::BrTable(t) => Instruction::BrTable(BrTableIndices {
            labels: t.labels.iter().map(index).collect(),
            default: index(&t.default),
        }),
        wast::core::Instruction::CallIndirect(c) => {
            Instruction::CallIndirect(CallIndirect { table: index(&c.table), ty: type_use(&c.ty) })
        }
        wast::core::Instruction::MemorySize(m) => Instruction::MemorySize(index(&m.mem)),
        wast::core::Instruction::MemoryGrow(m) => Instruction::MemoryGrow(index(&m.mem)),
        wast::core::Instruction::I32Load(m) => Instruction::I32Load(mem_arg(m)),
        wast::core::Instruction::I64Load(m) => Instruction::I64Load(mem_arg(m)),
        wast::core::Instruction::F32Load(m) => Instruction::F32Load(mem_arg(m)),
        wast::core::Instruction::F64Load(m) => Instruction::F64Load(mem_arg(m)),
        wast::core::Instruction::I32Load8s(m) => Instruction::I32Load8s(mem_arg(m)),
        wast::core::Instruction::I32Load8u(m) => Instruction::I32Load8u(mem_arg(m)),
        wast::core::Instruction::I32Load16s(m) => Instruction::I32Load16s(mem_arg(m)),
        wast::core::Instruction::I32Load16u(m) => Instruction::I32Load16u(mem_arg(m)),
        wast::core::Instruction::I64Load8s(m) => Instruction::I64Load8s(mem_arg(m)),
        wast::core::Instruction::I64Load8u(m) => Instruction::I64Load8u(mem_arg(m)),
        wast::core::Instruction::I64Load16s(m) => Instruction::I64Load16s(mem_arg(m)),
        wast::core::Instruction::I64Load16u(m) => Instruction::I64Load16u(mem_arg(m)),
        wast::core::Instruction::I64Load32s(m) => Instruction::I64Load32s(mem_arg(m)),
        wast::core::Instruction::I64Load32u(m) => Instruction::I64Load32u(mem_arg(m)),
        wast::core::Instruction::I32Store(m) => Instruction::I32Store(mem_arg(m)),
        wast::core::Instruction::I64Store(m) => Instruction::I64Store(mem_arg(m)),
        wast::core::Instruction::F32Store(m) => Instruction::F32Store(mem_arg(m)),
        wast::core::Instruction::F64Store(m) => Instruction::F64Store(mem_arg(m)),
        wast::core::Instruction::I32Store8(m) => Instruction::I32Store8(mem_arg(m)),
        wast::core::Instruction::I32Store16(m) => Instruction::I32Store16(mem_arg(m)),
        wast::core::Instruction::I64Store8(m) => Instruction::I64Store8(mem_arg(m)),
        wast::core::Instruction::I64Store16(m) => Instruction::I64Store16(mem_arg(m)),
        wast::core::Instruction::I64Store32(m) => Instruction::I64Store32(mem_arg(m)),
        wast::core::Instruction::I32Const(v) => Instruction::I32Const(*v),
        wast::core::Instruction::I64Const(v) => Instruction::I64Const(*v),
        wast::core::Instruction::F32Const(v) => Instruction::F32Const(v.bits),
        wast::core::Instruction::F64Const(v) => Instruction::F64Const(v.bits),
        wast::core::Instruction::I32Clz => Instruction::I32Clz,
        wast::core::Instruction::I32Ctz => Instruction::I32Ctz,
        wast::core::Instruction::I32Popcnt => Instruction::I32Popcnt,
        wast::core::Instruction::I32Add => Instruction::I32Add,
        wast::core::Instruction::I32Sub => Instruction::I32Sub,
        wast::core::Instruction::I32Mul => Instruction::I32Mul,
        wast::core::Instruction::I32DivS => Instruction::I32DivS,
        wast::core::Instruction::I32DivU => Instruction::I32DivU,
        wast::core::Instruction::I32RemS => Instruction::I32RemS,
        wast::core::Instruction::I32RemU => Instruction::I32RemU,
        wast::core::Instruction::I32And => Instruction::I32And,
        wast::core::Instruction::I32Or => Instruction::I32Or,
        wast::core::Instruction::I32Xor => Instruction::I32Xor,
        wast::core::Instruction::I32Shl => Instruction::I32Shl,
        wast::core::Instruction::I32ShrS => Instruction::I32ShrS,
        wast::core::Instruction::I32ShrU => Instruction::I32ShrU,
        wast::core::Instruction::I32Rotl => Instruction::I32Rotl,
        wast::core::Instruction::I32Rotr => Instruction::I32Rotr,
        wast::core::Instruction::I32Eqz => Instruction::I32Eqz,
        wast::core::Instruction::I32Eq => Instruction::I32Eq,
        wast::core::Instruction::I32Ne => Instruction::I32Ne,
        wast::core::Instruction::I32LtS => Instruction::I32LtS,
        wast::core::Instruction::I32LtU => Instruction::I32LtU,
        wast::core::Instruction::I32GtS => Instruction::I32GtS,
        wast::core::Instruction::I32GtU => Instruction::I32GtU,
        wast::core::Instruction::I32LeS => Instruction::I32LeS,
        wast::core::Instruction::I32LeU => Instruction::I32LeU,
        wast::core::Instruction::I32GeS => Instruction::I32GeS,
        wast::core::Instruction::I32GeU => Instruction::I32GeU,
        wast::core::Instruction::I64Clz => Instruction::I64Clz,
        wast::core::Instruction::I64Ctz => Instruction::I64Ctz,
        wast::core::Instruction::I64Popcnt => Instruction::I64Popcnt,
        wast::core::Instruction::I64Add => Instruction::I64Add,
        wast::core::Instruction::I64Sub => Instruction::I64Sub,
        wast::core::Instruction::I64Mul => Instruction::I64Mul,
        wast::core::Instruction::I64DivS => Instruction::I64DivS,
        wast::core::Instruction::I64DivU => Instruction::I64DivU,
        wast::core::Instruction::I64RemS => Instruction::I64RemS,
        wast::core::Instruction::I64RemU => Instruction::I64RemU,
        wast::core::Instruction::I64And => Instruction::I64And,
        wast::core::Instruction::I64Or => Instruction::I64Or,
        wast::core::Instruction::I64Xor => Instruction::I64Xor,
        wast::core::Instruction::I64Shl => Instruction::I64Shl,
        wast::core::Instruction::I64ShrS => Instruction::I64ShrS,
        wast::core::Instruction::I64ShrU => Instruction::I64ShrU,
        wast::core::Instruction::I64Rotl => Instruction::I64Rotl,
        wast::core::Instruction::I64Rotr => Instruction::I64Rotr,
        wast::core::Instruction::I64Eqz => Instruction::I64Eqz,
        wast::core::Instruction::I64Eq => Instruction::I64Eq,
        wast::core::Instruction::I64Ne => Instruction::I64Ne,
        wast::core::Instruction::I64LtS => Instruction::I64LtS,
        wast::core::Instruction::I64LtU => Instruction::I64LtU,
        wast::core::Instruction::I64GtS => Instruction::I64GtS,
        wast::core::Instruction::I64GtU => Instruction::I64GtU,
        wast::core::Instruction::I64LeS => Instruction::I64LeS,
        wast::core::Instruction::I64LeU => Instruction::I64LeU,
        wast::core::Instruction::I64GeS => Instruction::I64GeS,
        wast::core::Instruction::I64GeU => Instruction::I64GeU,
        wast::core::Instruction::F32Abs => Instruction::F32Abs,
        wast::core::Instruction::F32Neg => Instruction::F32Neg,
        wast::core::Instruction::F32Ceil => Instruction::F32Ceil,
        wast::core::Instruction::F32Floor => Instruction::F32Floor,
        wast::core::Instruction::F32Trunc => Instruction::F32Trunc,
        wast::core::Instruction::F32Nearest => Instruction::F32Nearest,
        wast::core::Instruction::F32Sqrt => Instruction::F32Sqrt,
        wast::core::Instruction::F32Add => Instruction::F32Add,
        wast::core::Instruction::F32Sub => Instruction::F32Sub,
        wast::core::Instruction::F32Mul => Instruction::F32Mul,
        wast::core::Instruction::F32Div => Instruction::F32Div,
        wast::core::Instruction::F32Min => Instruction::F32Min,
        wast::core::Instruction::F32Max => Instruction::F32Max,
        wast::core::Instruction::F32Copysign => Instruction::F32Copysign,
        wast::core::Instruction::F32Eq => Instruction::F32Eq,
        wast::core::Instruction::F32Ne => Instruction::F32Ne,
        wast::core::Instruction::F32Lt => Instruction::F32Lt,
        wast::core::Instruction::F32Gt => Instruction::F32Gt,
        wast::core::Instruction::F32Le => Instruction::F32Le,
        wast::core::Instruction::F32Ge => Instruction::F32Ge,
        wast::core::Instruction::F64Abs => Instruction::F64Abs,
        wast::core::Instruction::F64Neg => Instruction::F64Neg,
        wast::core::Instruction::F64Ceil => Instruction::F64Ceil,
        wast::core::Instruction::F64Floor => Instruction::F64Floor,
        wast::core::Instruction::F64Trunc => Instruction::F64Trunc,
        wast::core::Instruction::F64Nearest => Instruction::F64Nearest,
        wast::core::Instruction::F64Sqrt => Instruction::F64Sqrt,
        wast::core::Instruction::F64Add => Instruction::F64Add,
        wast::core::Instruction::F64Sub => Instruction::F64Sub,
        wast::core::Instruction::F64Mul => Instruction::F64Mul,
        wast::core::Instruction::F64Div => Instruction::F64Div,
        wast::core::Instruction::F64Min => Instruction::F64Min,
        wast::core::Instruction::F64Max => Instruction::F64Max,
        wast::core::Instruction::F64Copysign => Instruction::F64Copysign,
        wast::core::Instruction::F64Eq => Instruction::F64Eq,
        wast::core::Instruction::F64Ne => Instruction::F64Ne,
        wast::core::Instruction::F64Lt => Instruction::F64Lt,
        wast::core::Instruction::F64Gt => Instruction::F64Gt,
        wast::core::Instruction::F64Le => Instruction::F64Le,
        wast::core::Instruction::F64Ge => Instruction::F64Ge,
        wast::core::Instruction::I32WrapI64 => Instruction::I32WrapI64,
        wast::core::Instruction::I32TruncF32S => Instruction::I32TruncF32S,
        wast::core::Instruction::I32TruncF32U => Instruction::I32TruncF32U,
        wast::core::Instruction::I32TruncF64S => Instruction::I32TruncF64S,
        wast::core::Instruction::I32TruncF64U => Instruction::I32TruncF64U,
        wast::core::Instruction::I64ExtendI32S => Instruction::I64ExtendI32S,
        wast::core::Instruction::I64ExtendI32U => Instruction::I64ExtendI32U,
        wast::core::Instruction::I64TruncF32S => Instruction::I64TruncF32S,
        wast::core::Instruction::I64TruncF32U => Instruction::I64TruncF32U,
        wast::core::Instruction::I64TruncF64S => Instruction::I64TruncF64S,
        wast::core::Instruction::I64TruncF64U => Instruction::I64TruncF64U,
        wast::core::Instruction::F32ConvertI32S => Instruction::F32ConvertI32S,
        wast::core::Instruction::F32ConvertI32U => Instruction::F32ConvertI32U,
        wast::core::Instruction::F32ConvertI64S => Instruction::F32ConvertI64S,
        wast::core::Instruction::F32ConvertI64U => Instruction::F32ConvertI64U,
        wast::core::Instruction::F32DemoteF64 => Instruction::F32DemoteF64,
        wast::core::Instruction::F64ConvertI32S => Instruction::F64ConvertI32S,
        wast::core::Instruction::F64ConvertI32U => Instruction::F64ConvertI32U,
        wast::core::Instruction::F64ConvertI64S => Instruction::F64ConvertI64S,
        wast::core::Instruction::F64ConvertI64U => Instruction::F64ConvertI64U,
        wast::core::Instruction::F64PromoteF32 => Instruction::F64PromoteF32,
        wast::core::Instruction::I32ReinterpretF32 => Instruction::I32ReinterpretF32,
        wast::core::Instruction::I64ReinterpretF64 => Instruction::I64ReinterpretF64,
        wast::core::Instruction::F32ReinterpretI32 => Instruction::F32ReinterpretI32,
        wast::core::Instruction::F64ReinterpretI64 => Instruction::F64ReinterpretI64,
        wast::core::Instruction::I32TruncSatF32S => Instruction::I32TruncSatF32S,
        wast::core::Instruction::I32TruncSatF32U => Instruction::I32TruncSatF32U,
        wast::core::Instruction::I32TruncSatF64S => Instruction::I32TruncSatF64S,
        wast::core::Instruction::I32TruncSatF64U => Instruction::I32TruncSatF64U,
        wast::core::Instruction::I64TruncSatF32S => Instruction::I64TruncSatF32S,
        wast::core::Instruction::I64TruncSatF32U => Instruction::I64TruncSatF32U,
        wast::core::Instruction::I64TruncSatF64S => Instruction::I64TruncSatF64S,
        wast::core::Instruction::I64TruncSatF64U => Instruction::I64TruncSatF64U,
        wast::core::Instruction::I32Extend8S => Instruction::I32Extend8S,
        wast::core::Instruction::I32Extend16S => Instruction::I32Extend16S,
        wast::core::Instruction::I64Extend8S => Instruction::I64Extend8S,
        wast::core::Instruction::I64Extend16S => Instruction::I64Extend16S,
        wast::core::Instruction::I64Extend32S => Instruction::I64Extend32S,
        other => Instruction::Other(format!("{:?}", other)),
    }
}

fn instructions(e: &wast::core::Expression) -> Vec<Instruction> {
    e.instrs.iter().map(instruction).collect()
}

fn exports(e: &wast::core::InlineExport) -> Vec<String> {
    e.names.iter().map(|n| n.to_string()).collect()
}

fn data_val(v: &wast::core::DataVal) -> DataVal {
    match v {
        wast::core::DataVal::String(s) => DataVal::String(s.to_vec()),
        wast::core::DataVal::Integral(i) => DataVal::Integral(i.clone()),
    }
}

fn func(f: &wast::core::Func) -> Func {
    Func {
        id: name_of(&f.id),
        exports: exports(&f.exports),
        kind: match &f.kind {
            wast::core::FuncKind::Import(_) => FuncKind::Import,
            wast::core::FuncKind::Inline { locals, expression } => FuncKind::Inline {
                locals: locals.iter().map(|l| Local { id: name_of(&l.id), ty: val_type(&l.ty) }).collect(),
                expression: instructions(expression),
            },
        },
        ty: type_use(&f.ty),
    }
}

fn global(g: &wast::core::Global) -> Global {
    Global {
        id: name_of(&g.id),
        exports: exports(&g.exports),
        ty: val_type(&g.ty.ty),
        mutable: g.ty.mutable,
        kind: match &g.kind {
            wast::core::GlobalKind::Import(_) => GlobalKind::Import,
            wast::core::GlobalKind::Inline(e) => GlobalKind::Inline(instructions(e)),
        },
    }
}

fn memory(m: &wast::core::Memory) -> Memory {
    Memory {
        id: name_of(&m.id),
        exports: exports(&m.exports),
        kind: match &m.kind {
            wast::core::MemoryKind::Import { .. } => MemoryKind::Import,
            wast::core::MemoryKind::Normal(wast::core::MemoryType::B32 { limits, shared }) => MemoryKind::Normal {
                is_32: true,
                min: u64::from(limits.min),
                max: limits.max.map(u64::from),
                shared: *shared,
            },
            wast::core::MemoryKind::Normal(wast::core::MemoryType::B64 { limits, shared }) => {
                MemoryKind::Normal { is_32: false, min: limits.min, max: limits.max, shared: *shared }
            }
            wast::core::MemoryKind::Inline { is_32, data } => {
                MemoryKind::Inline { is_32: *is_32, data: data.iter().map(data_val).collect() }
            }
        },
    }
}

fn data(d: &wast::core::Data) -> Data {
    Data {
        id: name_of(&d.id),
        kind: match &d.kind {
            wast::core::DataKind::Passive => DataKind::Passive,
            wast::core::DataKind::Active { memory, offset } => {
                DataKind::Active { memory: index(memory), offset: instructions(offset) }
            }
        },
        data: d.data.iter().map(data_val).collect(),
    }
}

fn export(e: &wast::core::Export) -> Export {
    Export {
        name: e.name.to_string(),
        kind: match e.kind {
            wast::core::ExportKind::Func => ExportKind::Func,
            wast::core::ExportKind::Table => ExportKind::Table,
            wast::core::ExportKind::Memory => ExportKind::Memory,
            wast::core::ExportKind::Global => ExportKind::Global,
            wast::core::ExportKind::Tag => ExportKind::Tag,
        },
        item: index(&e.item),
    }
}

fn field(f: &wast::core::ModuleField) -> ModuleField {
    match f {
        wast::core::ModuleField::Type(_) => ModuleField::Type,
        wast::core::ModuleField::Rec(_) => ModuleField::Rec,
        wast::core::ModuleField::Import(_) => ModuleField::Import,
        wast::core::ModuleField::Func(f) => ModuleField::Func(func(f)),
        wast::core::ModuleField::Table(_) => ModuleField::Table,
        wast::core::ModuleField::Memory(m) => ModuleField::Memory(memory(m)),
        wast::core::ModuleField::Global(g) => ModuleField::Global(global(g)),
        wast::core::ModuleField::Export(e) => ModuleField::Export(export(e)),
        wast::core::ModuleField::Start(i) => ModuleField::Start(index(i)),
        wast::core::ModuleField::Elem(_) => ModuleField::Elem,
        wast::core::ModuleField::Data(d) => ModuleField::Data(data(d)),
        wast::core::ModuleField::Tag(_) => ModuleField::Tag,
        wast::core::ModuleField::Custom(_) => ModuleField::Custom,
    }
}

fn wat(w: &wast::Wat) -> Wat {
    match w {
        wast::Wat::Module(m) => Wat::Module(Module {
            id: name_of(&m.id),
            kind: match &m.kind {
                wast::core::ModuleKind::Text(fields) => ModuleKind::Text(fields.iter().map(field).collect()),
                wast::core::ModuleKind::Binary(_) => ModuleKind::Binary,
            },
        }),
        wast::Wat::Component(_) => Wat::Component,
    }
}

fn failure(e: &wast::Error) -> ParseFailure {
    ParseFailure { offset: e.span().offset(), message: e.message() }
}

/// Parses a source text and hands over what the parser made of it, with
/// the outcome of resolving the identifiers of a module.
pub fn parse(text: &str) -> ParseOutcome {
    let buffer = match wast::parser::ParseBuffer::new(text) {
        Ok(b) => b,
        Err(e) => return ParseOutcome::Failed(failure(&e)),
    };
    let mut parsed = match wast::parser::parse::<wast::Wat>(&buffer) {
        Ok(w) => w,
        Err(e) => return ParseOutcome::Failed(failure(&e)),
    };
    let converted = wat(&parsed);
    let resolution = match &mut parsed {
        wast::Wat::Module(m) => m.resolve().err().map(|e| failure(&e)),
        wast::Wat::Component(_) => None,
    };
    ParseOutcome::Parsed { wat: converted, resolution }
}

fn accept(text: &str) -> InterpreterStructure {
    match inner_transform(parse(text)) {
        Ok(structure) => structure,
        Err(e) => panic!("rejected: {}", e.to_text()),
    }
}

fn reject(text: &str) -> WatError {
    match inner_transform(parse(text)) {
        Ok(_) => panic!("accepted"),
        Err(e) => e,
    }
}

fn body(text: &str) -> Vec<Instruction> {
    match parse(text) {
        ParseOutcome::Parsed { wat: Wat::Module(Module { kind: ModuleKind::Text(fields), .. }), .. } => {
            match &fields[0] {
                ModuleField::Func(Func { kind: FuncKind::Inline { expression, .. }, .. }) => expression.clone(),
                other => panic!("no function: {:?}", other),
            }
        }
        other => panic!("no module: {:?}", other),
    }
}

#[test]
fn text_empty_module() {
    let structure = accept("(module)");
    assert_eq!(structure, InterpreterStructure::empty(String::new()));
    assert_eq!(accept("(module $named)").name, "named");
}

#[test]
fn text_constant_function() {
    let structure = accept("(module (func (result i32) i32.const 42))");
    assert_eq!(structure.func.len(), 1);
    assert_eq!(structure.func[0].info.output, vec![SerializableWatType::I32]);
    let root = structure.func[0].block.get_root();
    assert_eq!(root.len(), 1);
    match &root[0] {
        SerializedInstructionNode::NonBlock(SerializedInstruction::Const { typ, value }) => {
            assert_eq!(*typ, SerializableWatType::I32);
            assert_eq!(value.first_bytes(), [0, 0, 0, 42]);
        }
        other => panic!("{:?}", other),
    }
}

#[test]
fn text_call_and_inline_export() {
    let structure = accept(
        "(module (func $getAnswer (result i32) i32.const 42) (func (export \"plus1\") (result i32) call $getAnswer i32.const 1 i32.add))",
    );
    assert_eq!(structure.exported, vec![("plus1".to_string(), (NumLocationKind::Function, 1))]);
    assert_eq!(structure.func[1].block.get_root().len(), 3);
}

#[test]
fn text_named_parameter() {
    accept("(module (func (param $a i32) (result i32) local.get $a local.get $a i32.mul))");
}

#[test]
fn text_extra_item_on_stack() {
    let e = reject("(module (func (result i32) i32.const 1 i32.const 2))");
    assert_eq!(e.stage(), ErrorStage::TypeChecking);
    assert_eq!(e.message(), Some("Expect stack to be empty, but found: I32.".to_string()));
}

#[test]
fn text_immutable_global() {
    let e = reject("(module (global $g i32 (i32.const 0)) (func (i32.const 5) (global.set $g)))");
    assert_eq!(e.stage(), ErrorStage::TypeChecking);
    assert_eq!(e.message(), Some("Cannot set immutable Global g!".to_string()));
    accept("(module (global $g (mut i32) (i32.const 0)) (func (i32.const 5) (global.set $g)))");
}

#[test]
fn text_mismatched_operand() {
    let e = reject("(module (func (param $x i32) (result i32) local.get $x f32.const 1.0 i32.add))");
    assert_eq!(e.stage(), ErrorStage::TypeChecking);
    assert_eq!(e.message(), Some("Mismatched types, expected I32, but got F32.".to_string()));
}

#[test]
fn text_branch_to_own_block() {
    let structure = accept("(module (func (block $b (br $b))))");
    assert_eq!(
        body("(module (func (block $b (br $b))))"),
        vec![
            Instruction::Block(BlockType { label: Some("b".to_string()), ty: TypeUse { index: None, inline: None } }),
            Instruction::Br(Index::Id("b".to_string())),
            Instruction::End(None),
        ]
    );
    assert!(matches!(structure.func[0].block.get_root()[0], SerializedInstructionNode::SingleBlock { .. }));
}

#[test]
fn text_if_with_both_arms() {
    let text = "(module (func (if (i32.const 1) (then (nop)) (else (nop)))))";
    assert_eq!(
        body(text),
        vec![
            Instruction::I32Const(1),
            Instruction::If(BlockType { label: None, ty: TypeUse { index: None, inline: None } }),
            Instruction::Nop,
            Instruction::Else(None),
            Instruction::Nop,
            Instruction::End(None),
        ]
    );
    let structure = accept(text);
    let root = structure.func[0].block.get_root();
    assert_eq!(root.len(), 2);
    match &root[1] {
        SerializedInstructionNode::ConditionalBlock { then_nodes, else_nodes, .. } => {
            assert_eq!(then_nodes.len(), 1);
            assert_eq!(else_nodes.len(), 1);
        }
        other => panic!("{:?}", other),
    }
}

#[test]
fn text_labelled_if_in_plain_form() {
    accept("(module (func (result i32) i32.const 1 if $c (result i32) i32.const 2 br $c else $c i32.const 3 end $c))");
}

#[test]
fn text_unreachable_code() {
    accept("(module (func (result i32) unreachable i32.add))");
    accept("(module (func (result i64) (block (result i64) unreachable)))");
}

#[test]
fn text_branch_at_top_level() {
    accept("(module (func (result i32) i32.const 1 br 0))");
}

#[test]
fn text_branch_table() {
    let e = reject(
        "(module (func (block $a (result i32) (block $b (i32.const 0) (br_table $a $b)) (i32.const 1)) drop))",
    );
    assert_eq!(e.stage(), ErrorStage::TypeChecking);
    accept("(module (func (block $a (block $b (i32.const 0) (br_table $a $b 0 1)))))");
}

#[test]
fn text_loops_and_locals() {
    accept(
        "(module (func $count (param $n i32) (result i32) (local $i i32)
            (block $done
              (loop $again
                (br_if $done (i32.ge_u (local.get $i) (local.get $n)))
                (local.set $i (i32.add (local.get $i) (i32.const 1)))
                (br $again)))
            (local.get $i)))",
    );
}

#[test]
fn text_memory_and_data() {
    let structure = accept(
        "(module (memory $m 1 2) (data (memory $m) (i32.const 8) \"hi\") (data $p \"free\")
            (func (result i32) (i32.load $m (i32.const 8)))
            (func (i32.store8 $m (i32.const 0) (i32.const 1)))
            (func (result i32) (memory.grow $m (memory.size $m))))",
    );
    assert_eq!(structure.memory.len(), 1);
    assert_eq!(structure.memory[0].name, "m");
    assert_eq!(structure.memory[0].data[&8].data, b"hi".to_vec());
    assert!(structure.memory[0].data[&8].is_string);
    assert_eq!(structure.free_data.len(), 1);
    assert_eq!(structure.free_data[0].id, "p");
    assert_eq!(structure.free_data[0].data, b"free".to_vec());
}

#[test]
fn text_default_memory_is_found_by_position() {
    accept("(module (memory 1) (func (result i32) (i32.load (i32.const 0))) (data (i32.const 0) \"x\"))");
    accept("(module (memory (data \"abc\" \"de\")) (func (result i64) (i64.load16_u offset=2 (i32.const 0))))");
}

#[test]
fn text_inline_memory() {
    let structure = accept("(module (memory $m (data \"abc\" \"de\")))");
    let m = &structure.memory[0];
    assert_eq!(m.data.len(), 2);
    assert_eq!(m.data[&0].data, b"abc".to_vec());
    assert_eq!(m.data[&3].data, b"de".to_vec());
    assert_eq!(m.max.second_bytes(), Some([0, 0, 0, 1]));
}

#[test]
fn text_exports_and_start() {
    let structure = accept(
        "(module (func $main) (global $g i32 (i32.const 1)) (memory 1)
            (export \"main\" (func $main)) (export \"g\" (global 0)) (export \"mem\" (memory 0)) (start $main))",
    );
    assert_eq!(
        structure.exported,
        vec![
            ("main".to_string(), (NumLocationKind::Function, 0)),
            ("g".to_string(), (NumLocationKind::Global, 0)),
            ("mem".to_string(), (NumLocationKind::Memory, 0)),
        ]
    );
    assert_eq!(structure.start, Some("main".to_string()));
    let e = reject("(module (func (export \"f\")) (func (export \"f\")))");
    assert_eq!(e.stage(), ErrorStage::NameResolving);
    assert_eq!(e.message(), Some("Name f is defined multiple times".to_string()));
}

#[test]
fn text_conversions_and_floats() {
    accept("(module (func (param f32) (result i64) (i64.trunc_f64_s (f64.promote_f32 (f32.sqrt (local.get 0))))))");
    accept("(module (func (param i64) (result i32) (i32.wrap_i64 (i64.popcnt (local.get 0)))))");
    accept("(module (func (param i32) (result i32) (i32.eqz (local.get 0))))");
    accept("(module (func (result f64) (f64.copysign (f64.const -1.5) (f64.const 2))))");
    let e = reject("(module (func (result i32) (i64.eqz (i32.const 0))))");
    assert_eq!(e.message(), Some("Mismatched types, expected I64, but got I32.".to_string()));
}

#[test]
fn text_syntax_error() {
    let e = reject("(module (func");
    assert_eq!(e.stage(), ErrorStage::Parsing);
    let span = e.span().unwrap();
    assert_eq!(span.end, span.start + 1);
    assert!(e.message().is_some());
    let e = reject("(module (func i32.bogus))");
    assert_eq!(e.stage(), ErrorStage::Parsing);
    assert_eq!(e.span().unwrap().start, 14);
}

#[test]
fn text_unresolved_name() {
    let e = reject("(module (func (local.get $nowhere) drop))");
    assert_eq!(e.stage(), ErrorStage::NameResolving);
    assert!(e.span().is_some());
    let e = reject("(module (func (param $a i32) (param $a i32)))");
    assert_eq!(e.stage(), ErrorStage::NameResolving);
    assert!(e.span().is_some());
}

#[test]
fn text_unimplemented_features() {
    let cases = [
        "(component)",
        "(module binary \"\\00asm\\01\\00\\00\\00\")",
        "(module (import \"env\" \"f\" (func)))",
        "(module (func (import \"env\" \"f\")))",
        "(module (global (import \"env\" \"g\") i32))",
        "(module (memory (import \"env\" \"m\") 1))",
        "(module (table 1 funcref))",
        "(module (type (func)))",
        "(module (func (param funcref)))",
        "(module (func (result i32) (select (i32.const 1) (i32.const 2) (i32.const 0))))",
        "(module (func (result i32) (i32.extend8_s (i32.const 1))))",
        "(module (func (result v128) (v128.const i32x4 0 0 0 0)))",
    ];
    for text in cases {
        assert_eq!(reject(text).stage(), ErrorStage::Unimplemented, "{}", text);
    }
    let e = reject("(module (func (result i32) (i32.extend8_s (i32.const 1))))");
    assert_eq!(e.message(), Some("Instruction not supported: I32Extend8S".to_string()));
}
