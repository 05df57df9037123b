//! The closed tag enumerations shared by lowering and validation, and the
//! tables that read them off an opcode.

use crate::error::WatError;
use crate::syntax::Instruction;
use crate::syntax::ValType;
use vstd::prelude::*;
use vstd::std_specs::convert::FromSpecImpl;

verus! {

/// The value types a module may mention.
#[derive(Debug, Clone, Copy, PartialEq, Eq, Structural)]
pub enum SerializableWatType {
    I32,
    I64,
    F32,
    F64,
    V128,
}

impl DeepView for SerializableWatType {
    type V = SerializableWatType;

    open spec fn deep_view(&self) -> SerializableWatType {
        *self
    }
}

impl SerializableWatType {
    /// The name of the type as diagnostics print it.
    pub open spec fn name_spec(self) -> Seq<char> {
        match self {
            SerializableWatType::I32 => "I32"@,
            SerializableWatType::I64 => "I64"@,
            SerializableWatType::F32 => "F32"@,
            SerializableWatType::F64 => "F64"@,
            SerializableWatType::V128 => "V128"@,
        }
    }

    /// The name of the type as diagnostics print it.
    pub fn name(&self) -> (r: &'static str)
        ensures
            r@ == self.name_spec(),
    {
        match self {
            SerializableWatType::I32 => "I32",
            SerializableWatType::I64 => "I64",
            SerializableWatType::F32 => "F32",
            SerializableWatType::F64 => "F64",
            SerializableWatType::V128 => "V128",
        }
    }

    /// The value type that a source type denotes; reference types have none.
    pub open spec fn of_val_type(value: ValType) -> Option<SerializableWatType> {
        match value {
            ValType::I32 => Some(SerializableWatType::I32),
            ValType::I64 => Some(SerializableWatType::I64),
            ValType::F32 => Some(SerializableWatType::F32),
            ValType::F64 => Some(SerializableWatType::F64),
            ValType::V128 => Some(SerializableWatType::V128),
            ValType::Ref => None,
        }
    }

    /// Converts a source type. A reference type is refused as unimplemented.
    pub fn try_from_val_type(value: ValType) -> (r: Result<SerializableWatType, WatError>)
        ensures
            match r {
                Ok(t) => Self::of_val_type(value) == Some(t),
                Err(e) => Self::of_val_type(value) is None && e.deep_view()
                    == WatError::spec_unimplemented_error("Cannot use Ref type"@),
            },
    {
        match value {
            ValType::I32 => Ok(SerializableWatType::I32),
            ValType::I64 => Ok(SerializableWatType::I64),
            ValType::F32 => Ok(SerializableWatType::F32),
            ValType::F64 => Ok(SerializableWatType::F64),
            ValType::V128 => Ok(SerializableWatType::V128),
            ValType::Ref => Err(WatError::unimplemented_error("Cannot use Ref type")),
        }
    }

    /// Succeeds exactly when `other` is this type; the error names both.
    pub fn try_type_match(&self, other: &SerializableWatType) -> (r: Result<(), WatError>)
        ensures
            match r {
                Ok(()) => *self == *other,
                Err(e) => *self != *other && e.deep_view() == WatError::spec_type_error(
                    *self,
                    *other,
                ),
            },
    {
        if *self == *other {
            Ok(())
        } else {
            Err(WatError::type_error(self, other))
        }
    }
}

/// How the bits of a number are read.
#[derive(Debug, Clone, Copy, PartialEq, Eq, Structural)]
pub enum NumberKind {
    /// An integer of either signedness.
    Bytes,
    UnsignedInt,
    SignedInt,
    Float,
}

/// The width of a memory access or alignment.
#[derive(Debug, Clone, Copy, PartialEq, Eq, Structural)]
pub enum ByteKind {
    Bits8,
    Bits16,
    Bits32,
    Bits64,
}

impl ByteKind {
    /// The width for a count of bytes; anything but 1, 2 and 4 is 64 bits.
    pub open spec fn of_byte_count(value: u32) -> ByteKind {
        if value == 1 {
            ByteKind::Bits8
        } else if value == 2 {
            ByteKind::Bits16
        } else if value == 4 {
            ByteKind::Bits32
        } else {
            ByteKind::Bits64
        }
    }

    /// The width for a count of bits; anything but 8, 16 and 32 is 64 bits.
    pub open spec fn of_bit_count(value: u32) -> ByteKind {
        if value == 8 {
            ByteKind::Bits8
        } else if value == 16 {
            ByteKind::Bits16
        } else if value == 32 {
            ByteKind::Bits32
        } else {
            ByteKind::Bits64
        }
    }

    /// The width that an alignment in bytes stands for.
    pub fn from_alignment(value: u32) -> (r: Self)
        ensures
            r == Self::of_byte_count(value),
    {
        Self::from_byte_count(value)
    }

    /// The width that a number of bits stands for.
    pub fn from_bit_count(value: u32) -> (r: Self)
        ensures
            r == Self::of_bit_count(value),
    {
        if value == 8 {
            ByteKind::Bits8
        } else if value == 16 {
            ByteKind::Bits16
        } else if value == 32 {
            ByteKind::Bits32
        } else {
            ByteKind::Bits64
        }
    }

    /// The width that a number of bytes stands for.
    pub fn from_byte_count(value: u32) -> (r: Self)
        ensures
            r == Self::of_byte_count(value),
    {
        if value == 1 {
            ByteKind::Bits8
        } else if value == 2 {
            ByteKind::Bits16
        } else if value == 4 {
            ByteKind::Bits32
        } else {
            ByteKind::Bits64
        }
    }
}

/// Comparison operations.
#[derive(Debug, Clone, Copy, PartialEq, Eq, Structural)]
pub enum ComparisonOperation {
    EqualZero,
    Equal,
    NotEqual,
    LessThenSigned,
    LessThenUnsigned,
    GreaterThenSigned,
    GreaterThenUnsigned,
    LessThenOrEqualToSigned,
    LessThenOrEqualToUnsigned,
    GreaterThenOrEqualToSigned,
    GreaterThenOrEqualToUnsigned,
}

/// Arithmetic operations.
#[derive(Debug, Clone, Copy, PartialEq, Eq, Structural)]
pub enum ArithmeticOperation {
    Addition,
    Subtraction,
    Multiplication,
    DivisonSigned,
    DivisonUnsigned,
    RemainderSigned,
    RemainderUnsigned,
}

/// Bitwise operations on integers.
#[derive(Debug, Clone, Copy, PartialEq, Eq, Structural)]
pub enum BitwiseOperation {
    CountLeadingZero,
    CountTrailingZero,
    CountNonZero,
    And,
    Or,
    Xor,
    ShiftLeft,
    ShiftRightSigned,
    ShiftRightUnsigned,
    RotateLeft,
    RotateRight,
}

/// Operations that only floats have.
#[derive(Debug, Clone, Copy, PartialEq, Eq, Structural)]
pub enum FloatOperation {
    AbsoluteValue,
    Negation,
    Ceiling,
    Floor,
    Truncate,
    Nearest,
    SquareRoot,
    Minimum,
    Maximum,
    CopySign,
}

/// Every concrete numeric conversion; the tag fixes both operand and result type.
#[derive(Debug, Clone, Copy, PartialEq, Eq, Structural)]
pub enum NumericConversionKind {
    WrapInt,
    SignedTruncF32ToI32,
    UnsignedTruncF32ToI32,
    SignedTruncF64ToI32,
    UnsignedTruncF64ToI32,
    SignedTruncF32ToI64,
    UnsignedTruncF32ToI64,
    SignedTruncF64ToI64,
    UnsignedTruncF64ToI64,
    SignedExtend,
    UnsignedExtend,
    SignedConvertI32ToF32,
    UnsignedConvertI32ToF32,
    SignedConvertI64ToF32,
    UnsignedConvertI64ToF32,
    SignedConvertI32ToF64,
    UnsignedConvertI32ToF64,
    SignedConvertI64ToF64,
    UnsignedConvertI64ToF64,
    DemoteFloat,
    PromoteFloat,
    Reinterpret32FToI,
    Reinterpret32IToF,
    Reinterpret64FToI,
    Reinterpret64IToF,
}

impl NumericConversionKind {
    /// The operand type of the conversion.
    pub open spec fn source_type(self) -> SerializableWatType {
        match self {
            NumericConversionKind::WrapInt
            | NumericConversionKind::SignedConvertI64ToF32
            | NumericConversionKind::UnsignedConvertI64ToF32
            | NumericConversionKind::SignedConvertI64ToF64
            | NumericConversionKind::UnsignedConvertI64ToF64
            | NumericConversionKind::Reinterpret64IToF => SerializableWatType::I64,
            NumericConversionKind::SignedTruncF32ToI32
            | NumericConversionKind::UnsignedTruncF32ToI32
            | NumericConversionKind::SignedTruncF32ToI64
            | NumericConversionKind::UnsignedTruncF32ToI64
            | NumericConversionKind::PromoteFloat
            | NumericConversionKind::Reinterpret32FToI => SerializableWatType::F32,
            NumericConversionKind::SignedTruncF64ToI32
            | NumericConversionKind::UnsignedTruncF64ToI32
            | NumericConversionKind::SignedTruncF64ToI64
            | NumericConversionKind::UnsignedTruncF64ToI64
            | NumericConversionKind::DemoteFloat
            | NumericConversionKind::Reinterpret64FToI => SerializableWatType::F64,
            NumericConversionKind::SignedExtend
            | NumericConversionKind::UnsignedExtend
            | NumericConversionKind::SignedConvertI32ToF32
            | NumericConversionKind::UnsignedConvertI32ToF32
            | NumericConversionKind::SignedConvertI32ToF64
            | NumericConversionKind::UnsignedConvertI32ToF64
            | NumericConversionKind::Reinterpret32IToF => SerializableWatType::I32,
        }
    }

    /// The result type of the conversion.
    pub open spec fn target_type(self) -> SerializableWatType {
        match self {
            NumericConversionKind::WrapInt
            | NumericConversionKind::SignedTruncF32ToI32
            | NumericConversionKind::UnsignedTruncF32ToI32
            | NumericConversionKind::SignedTruncF64ToI32
            | NumericConversionKind::UnsignedTruncF64ToI32
            | NumericConversionKind::Reinterpret32FToI => SerializableWatType::I32,
            NumericConversionKind::SignedTruncF32ToI64
            | NumericConversionKind::UnsignedTruncF32ToI64
            | NumericConversionKind::SignedTruncF64ToI64
            | NumericConversionKind::UnsignedTruncF64ToI64
            | NumericConversionKind::SignedExtend
            | NumericConversionKind::UnsignedExtend
            | NumericConversionKind::Reinterpret64FToI => SerializableWatType::I64,
            NumericConversionKind::SignedConvertI32ToF32
            | NumericConversionKind::UnsignedConvertI32ToF32
            | NumericConversionKind::SignedConvertI64ToF32
            | NumericConversionKind::UnsignedConvertI64ToF32
            | NumericConversionKind::DemoteFloat
            | NumericConversionKind::Reinterpret32IToF => SerializableWatType::F32,
            NumericConversionKind::SignedConvertI32ToF64
            | NumericConversionKind::UnsignedConvertI32ToF64
            | NumericConversionKind::SignedConvertI64ToF64
            | NumericConversionKind::UnsignedConvertI64ToF64
            | NumericConversionKind::PromoteFloat
            | NumericConversionKind::Reinterpret64IToF => SerializableWatType::F64,
        }
    }

    /// The operand type and the result type of the conversion.
    pub fn signature(&self) -> (r: (SerializableWatType, SerializableWatType))
        ensures
            r.0 == self.source_type(),
            r.1 == self.target_type(),
    {
        match self {
            NumericConversionKind::WrapInt => (SerializableWatType::I64, SerializableWatType::I32),
            NumericConversionKind::SignedTruncF32ToI32
            | NumericConversionKind::UnsignedTruncF32ToI32
            | NumericConversionKind::Reinterpret32FToI => (
                SerializableWatType::F32,
                SerializableWatType::I32,
            ),
            NumericConversionKind::SignedTruncF64ToI32
            | NumericConversionKind::UnsignedTruncF64ToI32 => (
                SerializableWatType::F64,
                SerializableWatType::I32,
            ),
            NumericConversionKind::SignedTruncF32ToI64
            | NumericConversionKind::UnsignedTruncF32ToI64 => (
                SerializableWatType::F32,
                SerializableWatType::I64,
            ),
            NumericConversionKind::SignedTruncF64ToI64
            | NumericConversionKind::UnsignedTruncF64ToI64
            | NumericConversionKind::Reinterpret64FToI => (
                SerializableWatType::F64,
                SerializableWatType::I64,
            ),
            NumericConversionKind::SignedExtend | NumericConversionKind::UnsignedExtend => (
                SerializableWatType::I32,
                SerializableWatType::I64,
            ),
            NumericConversionKind::SignedConvertI32ToF32
            | NumericConversionKind::UnsignedConvertI32ToF32
            | NumericConversionKind::Reinterpret32IToF => (
                SerializableWatType::I32,
                SerializableWatType::F32,
            ),
            NumericConversionKind::SignedConvertI64ToF32
            | NumericConversionKind::UnsignedConvertI64ToF32 => (
                SerializableWatType::I64,
                SerializableWatType::F32,
            ),
            NumericConversionKind::SignedConvertI32ToF64
            | NumericConversionKind::UnsignedConvertI32ToF64 => (
                SerializableWatType::I32,
                SerializableWatType::F64,
            ),
            NumericConversionKind::SignedConvertI64ToF64
            | NumericConversionKind::UnsignedConvertI64ToF64
            | NumericConversionKind::Reinterpret64IToF => (
                SerializableWatType::I64,
                SerializableWatType::F64,
            ),
            NumericConversionKind::DemoteFloat => (
                SerializableWatType::F64,
                SerializableWatType::F32,
            ),
            NumericConversionKind::PromoteFloat => (
                SerializableWatType::F32,
                SerializableWatType::F64,
            ),
        }
    }
}

/// Instructions without operands that are no block markers.
#[derive(Debug, Clone, Copy, PartialEq, Eq, Structural)]
pub enum SimpleInstruction {
    Unreachable,
    Nop,
    Drop,
    Return,
}

/// The markers that delimit structured control flow in a flat stream.
#[derive(Debug, Clone, Copy, PartialEq, Eq, Structural)]
pub enum BlockKind {
    Block,
    If,
    Else,
    Loop,
    End,
}

/// Accesses to locals, globals and the size of a memory.
#[derive(Debug, Clone, Copy, PartialEq, Eq, Structural)]
pub enum DataInstruction {
    GetLocal,
    GetGlobal,
    SetLocal,
    SetGlobal,
    TeeLocal,
    GetMemorySize,
    /// `memory.grow`: takes the number of pages to add, gives the old size.
    SetMemorySize,
}

/// The category of an item that an identifier refers to.
#[derive(Debug, Clone, Copy, PartialEq, Eq, Structural)]
pub enum NumLocationKind {
    Function,
    Global,
    Memory,
    Type,
}

impl DeepView for NumLocationKind {
    type V = NumLocationKind;

    open spec fn deep_view(&self) -> NumLocationKind {
        *self
    }
}

impl NumLocationKind {
    /// The name of the category as diagnostics print it.
    pub open spec fn name_spec(self) -> Seq<char> {
        match self {
            NumLocationKind::Function => "Function"@,
            NumLocationKind::Global => "Global"@,
            NumLocationKind::Memory => "Memory"@,
            NumLocationKind::Type => "Type"@,
        }
    }

    /// The name of the category as diagnostics print it.
    pub fn name(&self) -> (r: &'static str)
        ensures
            r@ == self.name_spec(),
    {
        match self {
            NumLocationKind::Function => "Function",
            NumLocationKind::Global => "Global",
            NumLocationKind::Memory => "Memory",
            NumLocationKind::Type => "Type",
        }
    }
}

/// Any of the four families of numeric operations.
#[derive(Debug, Clone, Copy, PartialEq, Eq, Structural)]
pub enum NumericOperationKind {
    Comparison(ComparisonOperation),
    Arithmetic(ArithmeticOperation),
    Bitwise(BitwiseOperation),
    Float(FloatOperation),
}

impl From<ComparisonOperation> for NumericOperationKind {
    fn from(value: ComparisonOperation) -> (r: Self) {
        NumericOperationKind::Comparison(value)
    }
}

impl FromSpecImpl<ComparisonOperation> for NumericOperationKind {
    open spec fn obeys_from_spec() -> bool {
        true
    }

    open spec fn from_spec(value: ComparisonOperation) -> Self {
        NumericOperationKind::Comparison(value)
    }
}

impl From<ArithmeticOperation> for NumericOperationKind {
    fn from(value: ArithmeticOperation) -> (r: Self) {
        NumericOperationKind::Arithmetic(value)
    }
}

impl FromSpecImpl<ArithmeticOperation> for NumericOperationKind {
    open spec fn obeys_from_spec() -> bool {
        true
    }

    open spec fn from_spec(value: ArithmeticOperation) -> Self {
        NumericOperationKind::Arithmetic(value)
    }
}

impl From<BitwiseOperation> for NumericOperationKind {
    fn from(value: BitwiseOperation) -> (r: Self) {
        NumericOperationKind::Bitwise(value)
    }
}

impl FromSpecImpl<BitwiseOperation> for NumericOperationKind {
    open spec fn obeys_from_spec() -> bool {
        true
    }

    open spec fn from_spec(value: BitwiseOperation) -> Self {
        NumericOperationKind::Bitwise(value)
    }
}

impl From<FloatOperation> for NumericOperationKind {
    fn from(value: FloatOperation) -> (r: Self) {
        NumericOperationKind::Float(value)
    }
}

impl FromSpecImpl<FloatOperation> for NumericOperationKind {
    open spec fn obeys_from_spec() -> bool {
        true
    }

    open spec fn from_spec(value: FloatOperation) -> Self {
        NumericOperationKind::Float(value)
    }
}


/// The width of the memory cell that a load or store touches.
pub open spec fn byte_count_of(instruction: Instruction) -> Option<ByteKind> {
    match instruction {
        Instruction::I32Load8s(_) | Instruction::I32Load8u(_) | Instruction::I64Load8s(_)
        | Instruction::I64Load8u(_) | Instruction::I32Store8(_) | Instruction::I64Store8(_) => Some(ByteKind::Bits8),
        Instruction::I32Load16s(_) | Instruction::I32Load16u(_) | Instruction::I64Load16s(_)
        | Instruction::I64Load16u(_) | Instruction::I32Store16(_)
        | Instruction::I64Store16(_) => Some(ByteKind::Bits16),
        Instruction::I32Load(_) | Instruction::F32Load(_) | Instruction::I64Load32s(_)
        | Instruction::I64Load32u(_) | Instruction::I32Store(_) | Instruction::F32Store(_)
        | Instruction::I64Store32(_) => Some(ByteKind::Bits32),
        Instruction::I64Load(_) | Instruction::F64Load(_) | Instruction::I64Store(_)
        | Instruction::F64Store(_) => Some(ByteKind::Bits64),
        _ => None,
    }
}

/// The access width of a load or store; `None` for any other instruction.
pub fn try_byte_count_from(instruction: &Instruction) -> (r: Option<ByteKind>)
    ensures
        r == byte_count_of(*instruction),
{
    match instruction {
        Instruction::I32Load8s(_) | Instruction::I32Load8u(_) | Instruction::I64Load8s(_)
        | Instruction::I64Load8u(_) | Instruction::I32Store8(_) | Instruction::I64Store8(_) => Some(ByteKind::Bits8),
        Instruction::I32Load16s(_) | Instruction::I32Load16u(_) | Instruction::I64Load16s(_)
        | Instruction::I64Load16u(_) | Instruction::I32Store16(_)
        | Instruction::I64Store16(_) => Some(ByteKind::Bits16),
        Instruction::I32Load(_) | Instruction::F32Load(_) | Instruction::I64Load32s(_)
        | Instruction::I64Load32u(_) | Instruction::I32Store(_) | Instruction::F32Store(_)
        | Instruction::I64Store32(_) => Some(ByteKind::Bits32),
        Instruction::I64Load(_) | Instruction::F64Load(_) | Instruction::I64Store(_)
        | Instruction::F64Store(_) => Some(ByteKind::Bits64),
        _ => None,
    }
}

/// The comparison that an opcode performs. Float comparisons share the signed tags.
pub open spec fn comparison_of(instruction: Instruction) -> Option<ComparisonOperation> {
    match instruction {
        Instruction::I32Eqz | Instruction::I64Eqz => Some(ComparisonOperation::EqualZero),
        Instruction::I32Eq | Instruction::I64Eq | Instruction::F32Eq | Instruction::F64Eq => Some(ComparisonOperation::Equal),
        Instruction::I32Ne | Instruction::I64Ne | Instruction::F32Ne | Instruction::F64Ne => Some(ComparisonOperation::NotEqual),
        Instruction::I32LtS | Instruction::I64LtS | Instruction::F32Lt | Instruction::F64Lt => Some(ComparisonOperation::LessThenSigned),
        Instruction::I32LtU | Instruction::I64LtU => Some(ComparisonOperation::LessThenUnsigned),
        Instruction::I32GtS | Instruction::I64GtS | Instruction::F32Gt | Instruction::F64Gt => Some(ComparisonOperation::GreaterThenSigned),
        Instruction::I32GtU | Instruction::I64GtU => Some(ComparisonOperation::GreaterThenUnsigned),
        Instruction::I32LeS | Instruction::I64LeS | Instruction::F32Le | Instruction::F64Le => Some(ComparisonOperation::LessThenOrEqualToSigned),
        Instruction::I32LeU | Instruction::I64LeU => Some(ComparisonOperation::LessThenOrEqualToUnsigned),
        Instruction::I32GeS | Instruction::I64GeS | Instruction::F32Ge | Instruction::F64Ge => Some(ComparisonOperation::GreaterThenOrEqualToSigned),
        Instruction::I32GeU | Instruction::I64GeU => Some(ComparisonOperation::GreaterThenOrEqualToUnsigned),
        _ => None,
    }
}

/// The comparison of a comparison opcode; `None` for any other instruction.
pub fn try_comparison_from(instruction: &Instruction) -> (r: Option<ComparisonOperation>)
    ensures
        r == comparison_of(*instruction),
{
    match instruction {
        Instruction::I32Eqz | Instruction::I64Eqz => Some(ComparisonOperation::EqualZero),
        Instruction::I32Eq | Instruction::I64Eq | Instruction::F32Eq | Instruction::F64Eq => Some(ComparisonOperation::Equal),
        Instruction::I32Ne | Instruction::I64Ne | Instruction::F32Ne | Instruction::F64Ne => Some(ComparisonOperation::NotEqual),
        Instruction::I32LtS | Instruction::I64LtS | Instruction::F32Lt | Instruction::F64Lt => Some(ComparisonOperation::LessThenSigned),
        Instruction::I32LtU | Instruction::I64LtU => Some(ComparisonOperation::LessThenUnsigned),
        Instruction::I32GtS | Instruction::I64GtS | Instruction::F32Gt | Instruction::F64Gt => Some(ComparisonOperation::GreaterThenSigned),
        Instruction::I32GtU | Instruction::I64GtU => Some(ComparisonOperation::GreaterThenUnsigned),
        Instruction::I32LeS | Instruction::I64LeS | Instruction::F32Le | Instruction::F64Le => Some(ComparisonOperation::LessThenOrEqualToSigned),
        Instruction::I32LeU | Instruction::I64LeU => Some(ComparisonOperation::LessThenOrEqualToUnsigned),
        Instruction::I32GeS | Instruction::I64GeS | Instruction::F32Ge | Instruction::F64Ge => Some(ComparisonOperation::GreaterThenOrEqualToSigned),
        Instruction::I32GeU | Instruction::I64GeU => Some(ComparisonOperation::GreaterThenOrEqualToUnsigned),
        _ => None,
    }
}

/// The arithmetic operation of an opcode. Float division shares the signed tag.
pub open spec fn arithmetic_of(instruction: Instruction) -> Option<ArithmeticOperation> {
    match instruction {
        Instruction::I32Add | Instruction::I64Add | Instruction::F32Add
        | Instruction::F64Add => Some(ArithmeticOperation::Addition),
        Instruction::I32Sub | Instruction::I64Sub | Instruction::F32Sub
        | Instruction::F64Sub => Some(ArithmeticOperation::Subtraction),
        Instruction::I32Mul | Instruction::I64Mul | Instruction::F32Mul
        | Instruction::F64Mul => Some(ArithmeticOperation::Multiplication),
        Instruction::I32DivS | Instruction::I64DivS | Instruction::F32Div
        | Instruction::F64Div => Some(ArithmeticOperation::DivisonSigned),
        Instruction::I32DivU | Instruction::I64DivU => Some(ArithmeticOperation::DivisonUnsigned),
        Instruction::I32RemS | Instruction::I64RemS => Some(ArithmeticOperation::RemainderSigned),
        Instruction::I32RemU | Instruction::I64RemU => Some(ArithmeticOperation::RemainderUnsigned),
        _ => None,
    }
}

/// The operation of an arithmetic opcode; `None` for any other instruction.
pub fn try_arithmetic_from(instruction: &Instruction) -> (r: Option<ArithmeticOperation>)
    ensures
        r == arithmetic_of(*instruction),
{
    match instruction {
        Instruction::I32Add | Instruction::I64Add | Instruction::F32Add
        | Instruction::F64Add => Some(ArithmeticOperation::Addition),
        Instruction::I32Sub | Instruction::I64Sub | Instruction::F32Sub
        | Instruction::F64Sub => Some(ArithmeticOperation::Subtraction),
        Instruction::I32Mul | Instruction::I64Mul | Instruction::F32Mul
        | Instruction::F64Mul => Some(ArithmeticOperation::Multiplication),
        Instruction::I32DivS | Instruction::I64DivS | Instruction::F32Div
        | Instruction::F64Div => Some(ArithmeticOperation::DivisonSigned),
        Instruction::I32DivU | Instruction::I64DivU => Some(ArithmeticOperation::DivisonUnsigned),
        Instruction::I32RemS | Instruction::I64RemS => Some(ArithmeticOperation::RemainderSigned),
        Instruction::I32RemU | Instruction::I64RemU => Some(ArithmeticOperation::RemainderUnsigned),
        _ => None,
    }
}

/// The bitwise operation of an integer opcode.
pub open spec fn bitwise_of(instruction: Instruction) -> Option<BitwiseOperation> {
    match instruction {
        Instruction::I32Clz | Instruction::I64Clz => Some(BitwiseOperation::CountLeadingZero),
        Instruction::I32Ctz | Instruction::I64Ctz => Some(BitwiseOperation::CountTrailingZero),
        Instruction::I32Popcnt | Instruction::I64Popcnt => Some(BitwiseOperation::CountNonZero),
        Instruction::I32And | Instruction::I64And => Some(BitwiseOperation::And),
        Instruction::I32Or | Instruction::I64Or => Some(BitwiseOperation::Or),
        Instruction::I32Xor | Instruction::I64Xor => Some(BitwiseOperation::Xor),
        Instruction::I32Shl | Instruction::I64Shl => Some(BitwiseOperation::ShiftLeft),
        Instruction::I32ShrS | Instruction::I64ShrS => Some(BitwiseOperation::ShiftRightSigned),
        Instruction::I32ShrU | Instruction::I64ShrU => Some(BitwiseOperation::ShiftRightUnsigned),
        Instruction::I32Rotl | Instruction::I64Rotl => Some(BitwiseOperation::RotateLeft),
        Instruction::I32Rotr | Instruction::I64Rotr => Some(BitwiseOperation::RotateRight),
        _ => None,
    }
}

/// The operation of a bitwise opcode; `None` for any other instruction.
pub fn try_bitwise_from(instruction: &Instruction) -> (r: Option<BitwiseOperation>)
    ensures
        r == bitwise_of(*instruction),
{
    match instruction {
        Instruction::I32Clz | Instruction::I64Clz => Some(BitwiseOperation::CountLeadingZero),
        Instruction::I32Ctz | Instruction::I64Ctz => Some(BitwiseOperation::CountTrailingZero),
        Instruction::I32Popcnt | Instruction::I64Popcnt => Some(BitwiseOperation::CountNonZero),
        Instruction::I32And | Instruction::I64And => Some(BitwiseOperation::And),
        Instruction::I32Or | Instruction::I64Or => Some(BitwiseOperation::Or),
        Instruction::I32Xor | Instruction::I64Xor => Some(BitwiseOperation::Xor),
        Instruction::I32Shl | Instruction::I64Shl => Some(BitwiseOperation::ShiftLeft),
        Instruction::I32ShrS | Instruction::I64ShrS => Some(BitwiseOperation::ShiftRightSigned),
        Instruction::I32ShrU | Instruction::I64ShrU => Some(BitwiseOperation::ShiftRightUnsigned),
        Instruction::I32Rotl | Instruction::I64Rotl => Some(BitwiseOperation::RotateLeft),
        Instruction::I32Rotr | Instruction::I64Rotr => Some(BitwiseOperation::RotateRight),
        _ => None,
    }
}

/// The float-only operation of an opcode.
pub open spec fn float_op_of(instruction: Instruction) -> Option<FloatOperation> {
    match instruction {
        Instruction::F32Abs | Instruction::F64Abs => Some(FloatOperation::AbsoluteValue),
        Instruction::F32Neg | Instruction::F64Neg => Some(FloatOperation::Negation),
        Instruction::F32Ceil | Instruction::F64Ceil => Some(FloatOperation::Ceiling),
        Instruction::F32Floor | Instruction::F64Floor => Some(FloatOperation::Floor),
        Instruction::F32Trunc | Instruction::F64Trunc => Some(FloatOperation::Truncate),
        Instruction::F32Nearest | Instruction::F64Nearest => Some(FloatOperation::Nearest),
        Instruction::F32Sqrt | Instruction::F64Sqrt => Some(FloatOperation::SquareRoot),
        Instruction::F32Min | Instruction::F64Min => Some(FloatOperation::Minimum),
        Instruction::F32Max | Instruction::F64Max => Some(FloatOperation::Maximum),
        Instruction::F32Copysign | Instruction::F64Copysign => Some(FloatOperation::CopySign),
        _ => None,
    }
}

/// The operation of a float-only opcode; `None` for any other instruction.
pub fn try_float_op_from(instruction: &Instruction) -> (r: Option<FloatOperation>)
    ensures
        r == float_op_of(*instruction),
{
    match instruction {
        Instruction::F32Abs | Instruction::F64Abs => Some(FloatOperation::AbsoluteValue),
        Instruction::F32Neg | Instruction::F64Neg => Some(FloatOperation::Negation),
        Instruction::F32Ceil | Instruction::F64Ceil => Some(FloatOperation::Ceiling),
        Instruction::F32Floor | Instruction::F64Floor => Some(FloatOperation::Floor),
        Instruction::F32Trunc | Instruction::F64Trunc => Some(FloatOperation::Truncate),
        Instruction::F32Nearest | Instruction::F64Nearest => Some(FloatOperation::Nearest),
        Instruction::F32Sqrt | Instruction::F64Sqrt => Some(FloatOperation::SquareRoot),
        Instruction::F32Min | Instruction::F64Min => Some(FloatOperation::Minimum),
        Instruction::F32Max | Instruction::F64Max => Some(FloatOperation::Maximum),
        Instruction::F32Copysign | Instruction::F64Copysign => Some(FloatOperation::CopySign),
        _ => None,
    }
}

/// The conversion that an opcode performs.
pub open spec fn cast_kind_of(instruction: Instruction) -> Option<NumericConversionKind> {
    match instruction {
        Instruction::I32WrapI64 => Some(NumericConversionKind::WrapInt),
        Instruction::I32TruncF32S => Some(NumericConversionKind::SignedTruncF32ToI32),
        Instruction::I32TruncF32U => Some(NumericConversionKind::UnsignedTruncF32ToI32),
        Instruction::I32TruncF64S => Some(NumericConversionKind::SignedTruncF64ToI32),
        Instruction::I32TruncF64U => Some(NumericConversionKind::UnsignedTruncF64ToI32),
        Instruction::I64ExtendI32S => Some(NumericConversionKind::SignedExtend),
        Instruction::I64ExtendI32U => Some(NumericConversionKind::UnsignedExtend),
        Instruction::I64TruncF32S => Some(NumericConversionKind::SignedTruncF32ToI64),
        Instruction::I64TruncF32U => Some(NumericConversionKind::UnsignedTruncF32ToI64),
        Instruction::I64TruncF64S => Some(NumericConversionKind::SignedTruncF64ToI64),
        Instruction::I64TruncF64U => Some(NumericConversionKind::UnsignedTruncF64ToI64),
        Instruction::F32ConvertI32S => Some(NumericConversionKind::SignedConvertI32ToF32),
        Instruction::F32ConvertI32U => Some(NumericConversionKind::UnsignedConvertI32ToF32),
        Instruction::F32ConvertI64S => Some(NumericConversionKind::SignedConvertI64ToF32),
        Instruction::F32ConvertI64U => Some(NumericConversionKind::UnsignedConvertI64ToF32),
        Instruction::F32DemoteF64 => Some(NumericConversionKind::DemoteFloat),
        Instruction::F64ConvertI32S => Some(NumericConversionKind::SignedConvertI32ToF64),
        Instruction::F64ConvertI32U => Some(NumericConversionKind::UnsignedConvertI32ToF64),
        Instruction::F64ConvertI64S => Some(NumericConversionKind::SignedConvertI64ToF64),
        Instruction::F64ConvertI64U => Some(NumericConversionKind::UnsignedConvertI64ToF64),
        Instruction::F64PromoteF32 => Some(NumericConversionKind::PromoteFloat),
        Instruction::I32ReinterpretF32 => Some(NumericConversionKind::Reinterpret32FToI),
        Instruction::I64ReinterpretF64 => Some(NumericConversionKind::Reinterpret64FToI),
        Instruction::F32ReinterpretI32 => Some(NumericConversionKind::Reinterpret32IToF),
        Instruction::F64ReinterpretI64 => Some(NumericConversionKind::Reinterpret64IToF),
        _ => None,
    }
}

/// The conversion of a conversion opcode; `None` for any other instruction.
pub fn try_cast_kind_from(instruction: &Instruction) -> (r: Option<NumericConversionKind>)
    ensures
        r == cast_kind_of(*instruction),
{
    match instruction {
        Instruction::I32WrapI64 => Some(NumericConversionKind::WrapInt),
        Instruction::I32TruncF32S => Some(NumericConversionKind::SignedTruncF32ToI32),
        Instruction::I32TruncF32U => Some(NumericConversionKind::UnsignedTruncF32ToI32),
        Instruction::I32TruncF64S => Some(NumericConversionKind::SignedTruncF64ToI32),
        Instruction::I32TruncF64U => Some(NumericConversionKind::UnsignedTruncF64ToI32),
        Instruction::I64ExtendI32S => Some(NumericConversionKind::SignedExtend),
        Instruction::I64ExtendI32U => Some(NumericConversionKind::UnsignedExtend),
        Instruction::I64TruncF32S => Some(NumericConversionKind::SignedTruncF32ToI64),
        Instruction::I64TruncF32U => Some(NumericConversionKind::UnsignedTruncF32ToI64),
        Instruction::I64TruncF64S => Some(NumericConversionKind::SignedTruncF64ToI64),
        Instruction::I64TruncF64U => Some(NumericConversionKind::UnsignedTruncF64ToI64),
        Instruction::F32ConvertI32S => Some(NumericConversionKind::SignedConvertI32ToF32),
        Instruction::F32ConvertI32U => Some(NumericConversionKind::UnsignedConvertI32ToF32),
        Instruction::F32ConvertI64S => Some(NumericConversionKind::SignedConvertI64ToF32),
        Instruction::F32ConvertI64U => Some(NumericConversionKind::UnsignedConvertI64ToF32),
        Instruction::F32DemoteF64 => Some(NumericConversionKind::DemoteFloat),
        Instruction::F64ConvertI32S => Some(NumericConversionKind::SignedConvertI32ToF64),
        Instruction::F64ConvertI32U => Some(NumericConversionKind::UnsignedConvertI32ToF64),
        Instruction::F64ConvertI64S => Some(NumericConversionKind::SignedConvertI64ToF64),
        Instruction::F64ConvertI64U => Some(NumericConversionKind::UnsignedConvertI64ToF64),
        Instruction::F64PromoteF32 => Some(NumericConversionKind::PromoteFloat),
        Instruction::I32ReinterpretF32 => Some(NumericConversionKind::Reinterpret32FToI),
        Instruction::I64ReinterpretF64 => Some(NumericConversionKind::Reinterpret64FToI),
        Instruction::F32ReinterpretI32 => Some(NumericConversionKind::Reinterpret32IToF),
        Instruction::F64ReinterpretI64 => Some(NumericConversionKind::Reinterpret64IToF),
        _ => None,
    }
}

/// The operand-free control instruction that an opcode stands for.
pub open spec fn simple_instruction_of(instruction: Instruction) -> Option<SimpleInstruction> {
    match instruction {
        Instruction::Unreachable => Some(SimpleInstruction::Unreachable),
        Instruction::Nop => Some(SimpleInstruction::Nop),
        Instruction::Drop => Some(SimpleInstruction::Drop),
        Instruction::Return => Some(SimpleInstruction::Return),
        _ => None,
    }
}

/// The tag of `unreachable`, `nop`, `drop` or `return`; `None` for any other instruction.
pub fn try_simple_instruction_from(instruction: &Instruction) -> (r: Option<SimpleInstruction>)
    ensures
        r == simple_instruction_of(*instruction),
{
    match instruction {
        Instruction::Unreachable => Some(SimpleInstruction::Unreachable),
        Instruction::Nop => Some(SimpleInstruction::Nop),
        Instruction::Drop => Some(SimpleInstruction::Drop),
        Instruction::Return => Some(SimpleInstruction::Return),
        _ => None,
    }
}

/// The block marker that an opcode stands for.
pub open spec fn block_kind_of(instruction: Instruction) -> Option<BlockKind> {
    match instruction {
        Instruction::Block(_) => Some(BlockKind::Block),
        Instruction::If(_) => Some(BlockKind::If),
        Instruction::Else(_) => Some(BlockKind::Else),
        Instruction::Loop(_) => Some(BlockKind::Loop),
        Instruction::End(_) => Some(BlockKind::End),
        _ => None,
    }
}

/// The tag of a block marker; `None` for any other instruction.
pub fn try_block_kind_from(instruction: &Instruction) -> (r: Option<BlockKind>)
    ensures
        r == block_kind_of(*instruction),
{
    match instruction {
        Instruction::Block(_) => Some(BlockKind::Block),
        Instruction::If(_) => Some(BlockKind::If),
        Instruction::Else(_) => Some(BlockKind::Else),
        Instruction::Loop(_) => Some(BlockKind::Loop),
        Instruction::End(_) => Some(BlockKind::End),
        _ => None,
    }
}

/// The variable or memory-size access that an opcode stands for.
pub open spec fn data_instruction_of(instruction: Instruction) -> Option<DataInstruction> {
    match instruction {
        Instruction::LocalGet(_) => Some(DataInstruction::GetLocal),
        Instruction::LocalSet(_) => Some(DataInstruction::SetLocal),
        Instruction::LocalTee(_) => Some(DataInstruction::TeeLocal),
        Instruction::GlobalGet(_) => Some(DataInstruction::GetGlobal),
        Instruction::GlobalSet(_) => Some(DataInstruction::SetGlobal),
        Instruction::MemorySize(_) => Some(DataInstruction::GetMemorySize),
        Instruction::MemoryGrow(_) => Some(DataInstruction::SetMemorySize),
        _ => None,
    }
}

/// The tag of a local, global or memory-size access; `None` for any other instruction.
pub fn try_data_instruction_from(instruction: &Instruction) -> (r: Option<DataInstruction>)
    ensures
        r == data_instruction_of(*instruction),
{
    match instruction {
        Instruction::LocalGet(_) => Some(DataInstruction::GetLocal),
        Instruction::LocalSet(_) => Some(DataInstruction::SetLocal),
        Instruction::LocalTee(_) => Some(DataInstruction::TeeLocal),
        Instruction::GlobalGet(_) => Some(DataInstruction::GetGlobal),
        Instruction::GlobalSet(_) => Some(DataInstruction::SetGlobal),
        Instruction::MemorySize(_) => Some(DataInstruction::GetMemorySize),
        Instruction::MemoryGrow(_) => Some(DataInstruction::SetMemorySize),
        _ => None,
    }
}

} // verus!
