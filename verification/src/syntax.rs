//! The parsed form of a text module, as a parser hands it over: identifiers
//! still unresolved, one instruction per opcode, block structure still flat.

use vstd::prelude::*;

verus! {

/// A value type as written in the source.
#[derive(Debug, Clone, Copy, PartialEq, Eq, Structural)]
pub enum ValType {
    I32,
    I64,
    F32,
    F64,
    V128,
    /// Any reference type; the library only needs to know that it is one.
    Ref,
}

/// A reference to an item of a module: by position or by identifier.
#[derive(Debug, Clone, PartialEq, Eq)]
pub enum Index {
    Num(u32),
    /// The identifier without its leading `$`.
    Id(String),
}

/// An inline function signature: named or unnamed parameters, then results.
#[derive(Debug, Clone, PartialEq, Eq)]
pub struct FunctionType {
    pub params: Vec<(Option<String>, ValType)>,
    pub results: Vec<ValType>,
}

/// A use of a type: a reference to a declared type, an inline signature, or both.
#[derive(Debug, Clone, PartialEq, Eq)]
pub struct TypeUse {
    pub index: Option<Index>,
    pub inline: Option<FunctionType>,
}

/// What follows `block`, `loop` or `if`: an optional label and the signature.
#[derive(Debug, Clone, PartialEq, Eq)]
pub struct BlockType {
    pub label: Option<String>,
    pub ty: TypeUse,
}

/// The immediate of a load or store.
#[derive(Debug, Clone, PartialEq, Eq)]
pub struct MemArg {
    /// Alignment in bytes.
    pub align: u32,
    pub offset: u64,
    pub memory: Index,
}

/// The immediate of `br_table`.
#[derive(Debug, Clone, PartialEq, Eq)]
pub struct BrTableIndices {
    pub labels: Vec<Index>,
    pub default: Index,
}

/// The immediate of `call_indirect`.
#[derive(Debug, Clone, PartialEq, Eq)]
pub struct CallIndirect {
    pub table: Index,
    pub ty: TypeUse,
}

/// One instruction of the source, one variant per opcode.
///
/// Floating-point constants carry their bit pattern. Opcodes outside the
/// families listed here arrive as `Other` with the parser's rendering of them.
#[derive(Debug, Clone, PartialEq, Eq)]
pub enum Instruction {
    Unreachable,
    Nop,
    Return,
    Drop,
    Block(BlockType),
    If(BlockType),
    Loop(BlockType),
    Else(Option<String>),
    End(Option<String>),
    Br(Index),
    BrIf(Index),
    BrTable(BrTableIndices),
    Call(Index),
    CallIndirect(CallIndirect),
    LocalGet(Index),
    LocalSet(Index),
    LocalTee(Index),
    GlobalGet(Index),
    GlobalSet(Index),
    MemorySize(Index),
    MemoryGrow(Index),
    I32Load(MemArg),
    I64Load(MemArg),
    F32Load(MemArg),
    F64Load(MemArg),
    I32Load8s(MemArg),
    I32Load8u(MemArg),
    I32Load16s(MemArg),
    I32Load16u(MemArg),
    I64Load8s(MemArg),
    I64Load8u(MemArg),
    I64Load16s(MemArg),
    I64Load16u(MemArg),
    I64Load32s(MemArg),
    I64Load32u(MemArg),
    I32Store(MemArg),
    I64Store(MemArg),
    F32Store(MemArg),
    F64Store(MemArg),
    I32Store8(MemArg),
    I32Store16(MemArg),
    I64Store8(MemArg),
    I64Store16(MemArg),
    I64Store32(MemArg),
    I32Const(i32),
    I64Const(i64),
    F32Const(u32),
    F64Const(u64),
    I32Clz,
    I32Ctz,
    I32Popcnt,
    I32Add,
    I32Sub,
    I32Mul,
    I32DivS,
    I32DivU,
    I32RemS,
    I32RemU,
    I32And,
    I32Or,
    I32Xor,
    I32Shl,
    I32ShrS,
    I32ShrU,
    I32Rotl,
    I32Rotr,
    I32Eqz,
    I32Eq,
    I32Ne,
    I32LtS,
    I32LtU,
    I32GtS,
    I32GtU,
    I32LeS,
    I32LeU,
    I32GeS,
    I32GeU,
    I64Clz,
    I64Ctz,
    I64Popcnt,
    I64Add,
    I64Sub,
    I64Mul,
    I64DivS,
    I64DivU,
    I64RemS,
    I64RemU,
    I64And,
    I64Or,
    I64Xor,
    I64Shl,
    I64ShrS,
    I64ShrU,
    I64Rotl,
    I64Rotr,
    I64Eqz,
    I64Eq,
    I64Ne,
    I64LtS,
    I64LtU,
    I64GtS,
    I64GtU,
    I64LeS,
    I64LeU,
    I64GeS,
    I64GeU,
    F32Abs,
    F32Neg,
    F32Ceil,
    F32Floor,
    F32Trunc,
    F32Nearest,
    F32Sqrt,
    F32Add,
    F32Sub,
    F32Mul,
    F32Div,
    F32Min,
    F32Max,
    F32Copysign,
    F32Eq,
    F32Ne,
    F32Lt,
    F32Gt,
    F32Le,
    F32Ge,
    F64Abs,
    F64Neg,
    F64Ceil,
    F64Floor,
    F64Trunc,
    F64Nearest,
    F64Sqrt,
    F64Add,
    F64Sub,
    F64Mul,
    F64Div,
    F64Min,
    F64Max,
    F64Copysign,
    F64Eq,
    F64Ne,
    F64Lt,
    F64Gt,
    F64Le,
    F64Ge,
    I32WrapI64,
    I32TruncF32S,
    I32TruncF32U,
    I32TruncF64S,
    I32TruncF64U,
    I64ExtendI32S,
    I64ExtendI32U,
    I64TruncF32S,
    I64TruncF32U,
    I64TruncF64S,
    I64TruncF64U,
    F32ConvertI32S,
    F32ConvertI32U,
    F32ConvertI64S,
    F32ConvertI64U,
    F32DemoteF64,
    F64ConvertI32S,
    F64ConvertI32U,
    F64ConvertI64S,
    F64ConvertI64U,
    F64PromoteF32,
    I32ReinterpretF32,
    I64ReinterpretF64,
    F32ReinterpretI32,
    F64ReinterpretI64,
    I32TruncSatF32S,
    I32TruncSatF32U,
    I32TruncSatF64S,
    I32TruncSatF64U,
    I64TruncSatF32S,
    I64TruncSatF32U,
    I64TruncSatF64S,
    I64TruncSatF64U,
    I32Extend8S,
    I32Extend16S,
    I64Extend8S,
    I64Extend16S,
    I64Extend32S,
    Other(String),
}

/// A local variable declaration of a function.
#[derive(Debug, Clone, PartialEq, Eq)]
pub struct Local {
    pub id: Option<String>,
    pub ty: ValType,
}

/// How a function is defined.
#[derive(Debug, Clone, PartialEq, Eq)]
pub enum FuncKind {
    Import,
    Inline { locals: Vec<Local>, expression: Vec<Instruction> },
}

/// A `func` field.
#[derive(Debug, Clone, PartialEq, Eq)]
pub struct Func {
    pub id: Option<String>,
    /// Names of inline exports.
    pub exports: Vec<String>,
    pub kind: FuncKind,
    pub ty: TypeUse,
}

/// How a global is defined.
#[derive(Debug, Clone, PartialEq, Eq)]
pub enum GlobalKind {
    Import,
    Inline(Vec<Instruction>),
}

/// A `global` field.
#[derive(Debug, Clone, PartialEq, Eq)]
pub struct Global {
    pub id: Option<String>,
    pub exports: Vec<String>,
    pub ty: ValType,
    pub mutable: bool,
    pub kind: GlobalKind,
}

/// One item of a data string list.
#[derive(Debug, Clone, PartialEq, Eq)]
pub enum DataVal {
    String(Vec<u8>),
    Integral(Vec<u8>),
}

/// How a memory is defined.
#[derive(Debug, Clone, PartialEq, Eq)]
pub enum MemoryKind {
    Import,
    /// Explicit limits, in pages.
    Normal { is_32: bool, min: u64, max: Option<u64>, shared: bool },
    /// Contents listed inline, starting at offset 0.
    Inline { is_32: bool, data: Vec<DataVal> },
}

/// A `memory` field.
#[derive(Debug, Clone, PartialEq, Eq)]
pub struct Memory {
    pub id: Option<String>,
    pub exports: Vec<String>,
    pub kind: MemoryKind,
}

/// Whether a data segment is loaded at instantiation.
#[derive(Debug, Clone, PartialEq, Eq)]
pub enum DataKind {
    Passive,
    Active { memory: Index, offset: Vec<Instruction> },
}

/// A `data` field.
#[derive(Debug, Clone, PartialEq, Eq)]
pub struct Data {
    pub id: Option<String>,
    pub kind: DataKind,
    pub data: Vec<DataVal>,
}

/// What an `export` field exports.
#[derive(Debug, Clone, Copy, PartialEq, Eq, Structural)]
pub enum ExportKind {
    Func,
    Table,
    Memory,
    Global,
    Tag,
}

/// An `export` field.
#[derive(Debug, Clone, PartialEq, Eq)]
pub struct Export {
    pub name: String,
    pub kind: ExportKind,
    pub item: Index,
}

/// One field of a module, in source order.
#[derive(Debug, Clone, PartialEq, Eq)]
pub enum ModuleField {
    Type,
    Rec,
    Import,
    Func(Func),
    Table,
    Memory(Memory),
    Global(Global),
    Export(Export),
    Start(Index),
    Elem,
    Data(Data),
    Tag,
    Custom,
}

/// The body of a module: its fields, or an embedded binary.
#[derive(Debug, Clone, PartialEq, Eq)]
pub enum ModuleKind {
    Text(Vec<ModuleField>),
    Binary,
}

/// A parsed module.
#[derive(Debug, Clone, PartialEq, Eq)]
pub struct Module {
    pub id: Option<String>,
    pub kind: ModuleKind,
}

/// A parsed source file.
#[derive(Debug, Clone, PartialEq, Eq)]
pub enum Wat {
    Module(Module),
    Component,
}

/// An error reported by the parser or by its name resolution.
#[derive(Debug, Clone, PartialEq, Eq)]
pub struct ParseFailure {
    /// Byte offset into the source.
    pub offset: usize,
    pub message: String,
}

/// What parsing a source text gave.
#[derive(Debug, Clone, PartialEq, Eq)]
pub enum ParseOutcome {
    /// The text is not well-formed.
    Failed(ParseFailure),
    /// The text parsed. `resolution` holds the error of resolving the
    /// identifiers of a module, if there was one.
    Parsed { wat: Wat, resolution: Option<ParseFailure> },
}

} // verus!
