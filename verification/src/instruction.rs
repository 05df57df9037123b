//! The normalized instruction set and the lowering of source instructions
//! onto it.

use crate::error::WatError;
use crate::error::WatErrorView;
use crate::error::WatResult;
use crate::helper::bits_of_i32;
use crate::helper::bits_of_i64;
use crate::helper::lemma_number_32_injective;
use crate::helper::lemma_number_64_injective;
use crate::helper::number_32;
use crate::helper::number_64;
use crate::helper::SerializedNumber;
use crate::helper::SerializedNumberView;
use crate::marker::arithmetic_of;
use crate::marker::ArithmeticOperation;
use crate::marker::bitwise_of;
use crate::marker::BitwiseOperation;
use crate::marker::block_kind_of;
use crate::marker::BlockKind;
use crate::marker::byte_count_of;
use crate::marker::ByteKind;
use crate::marker::cast_kind_of;
use crate::marker::comparison_of;
use crate::marker::ComparisonOperation;
use crate::marker::data_instruction_of;
use crate::marker::DataInstruction;
use crate::marker::float_op_of;
use crate::marker::FloatOperation;
use crate::marker::NumericConversionKind;
use crate::marker::SerializableWatType;
use crate::marker::simple_instruction_of;
use crate::marker::SimpleInstruction;
use crate::marker::try_arithmetic_from;
use crate::marker::try_bitwise_from;
use crate::marker::try_byte_count_from;
use crate::marker::try_cast_kind_from;
use crate::marker::try_comparison_from;
use crate::marker::try_data_instruction_from;
use crate::marker::try_float_op_from;
use crate::marker::try_simple_instruction_from;
use crate::names::distinct;
use crate::names::find_repeated;
use crate::names::first_repeated;
use crate::names::lemma_first_repeated;
use crate::syntax::BlockType;
use crate::syntax::Index;
use crate::syntax::Instruction;
use crate::syntax::MemArg;
use crate::syntax::TypeUse;
use crate::syntax::ValType;
use crate::text::decimal;
use crate::text::u64_to_string;
use crate::views::lemma_deep_view_index;
use crate::views::lemma_deep_view_push;
use crate::views::lemma_deep_view_take;
use vstd::prelude::*;
use vstd::string::StringExecFns;

verus! {

/// A copy of a list of types.
pub fn copy_types(types: &[SerializableWatType]) -> (r: Vec<SerializableWatType>)
    ensures
        r@ == types@,
{
    let mut out: Vec<SerializableWatType> = Vec::new();
    let mut i: usize = 0;
    while i < types.len()
        invariant
            i <= types.len(),
            out@ == types@.take(i as int),
        decreases types.len() - i,
    {
        out.push(types[i]);
        assert(out@ =~= types@.take(i + 1));
        i = i + 1;
    }
    assert(types@.take(types.len() as int) =~= types@);
    out
}

/// A copy of an optional name.
pub fn copy_name(name: &Option<String>) -> (r: Option<String>)
    ensures
        r.deep_view() == name.deep_view(),
{
    match name {
        Some(n) => Some(n.clone()),
        None => None,
    }
}

/// The identifiers of a list of variables, in order.
pub open spec fn variable_names(
    variables: Seq<(Option<Seq<char>>, SerializableWatType)>,
) -> Seq<Option<Seq<char>>> {
    Seq::new(variables.len(), |i: int| variables[i].0)
}

/// The identifiers of a list of variables, in order.
pub fn names_of_variables(variables: &[(Option<String>, SerializableWatType)]) -> (r: Vec<
    Option<String>,
>)
    ensures
        r.deep_view() == variable_names(variables.deep_view()),
{
    let ghost want = variable_names(variables.deep_view());
    let mut out: Vec<Option<String>> = Vec::new();
    let mut i: usize = 0;
    proof {
        assert(out.deep_view() =~= want.take(0));
    }
    while i < variables.len()
        invariant
            i <= variables.len(),
            want == variable_names(variables.deep_view()),
            want.len() == variables.len(),
            out.deep_view() == want.take(i as int),
        decreases variables.len() - i,
    {
        let ghost before = out;
        let name = copy_name(&variables[i].0);
        out.push(name);
        proof {
            lemma_deep_view_push(before, out, name);
            assert(out.deep_view() =~= want.take(i + 1));
        }
        i = i + 1;
    }
    proof {
        assert(want.take(variables.len() as int) =~= want);
    }
    out
}

/// The signature of a function or block: an optional reference to a
/// declared type, the inputs with their optional identifiers, the outputs.
/// No two inputs carry the same identifier.
#[derive(Debug, Clone, PartialEq, Eq)]
pub struct InputOutput {
    pub index: Option<String>,
    pub input: Vec<(Option<String>, SerializableWatType)>,
    pub output: Vec<SerializableWatType>,
}

/// What an `InputOutput` holds.
pub struct InputOutputView {
    pub index: Option<Seq<char>>,
    pub input: Seq<(Option<Seq<char>>, SerializableWatType)>,
    pub output: Seq<SerializableWatType>,
}

impl DeepView for InputOutput {
    type V = InputOutputView;

    open spec fn deep_view(&self) -> InputOutputView {
        InputOutputView {
            index: self.index.deep_view(),
            input: self.input.deep_view(),
            output: self.output@,
        }
    }
}

impl Default for InputOutput {
    fn default() -> (r: Self)
        ensures
            r.deep_view() == InputOutputView::empty(),
    {
        Self::empty()
    }
}

impl InputOutputView {
    /// The signature without a type reference, inputs or outputs.
    pub open spec fn empty() -> InputOutputView {
        InputOutputView { index: None, input: Seq::empty(), output: Seq::empty() }
    }

    /// The types of the inputs, in order.
    pub open spec fn input_types(self) -> Seq<SerializableWatType> {
        Seq::new(self.input.len(), |i: int| self.input[i].1)
    }

    /// Whether no two inputs carry the same identifier.
    pub open spec fn distinct_names(self) -> bool {
        distinct(variable_names(self.input))
    }
}

impl InputOutput {
    /// The signature without a type reference, inputs or outputs.
    pub fn empty() -> (r: Self)
        ensures
            r.deep_view() == InputOutputView::empty(),
            r.deep_view().distinct_names(),
    {
        let r = InputOutput { index: None, input: Vec::new(), output: Vec::new() };
        assert(r.deep_view().input =~= Seq::empty());
        r
    }

    /// Whether this is the signature without a type reference, inputs or
    /// outputs.
    pub fn is_empty(&self) -> (r: bool)
        ensures
            r == (self.deep_view() == InputOutputView::empty()),
    {
        let r = self.index.is_none() && self.input.len() == 0 && self.output.len() == 0;
        proof {
            lemma_deep_view_index(self.input);
            if r {
                assert(self.deep_view().input =~= Seq::empty());
                assert(self.deep_view().output =~= Seq::empty());
            }
        }
        r
    }

    /// Names the signature unless it has a name already; tells whether it
    /// did.
    pub fn set_name_if_none(&mut self, name: &str) -> (r: bool)
        ensures
            r == (old(self).index is None),
            final(self).deep_view() == (InputOutputView {
                index: if r {
                    Some(name@)
                } else {
                    old(self).deep_view().index
                },
                ..old(self).deep_view()
            }),
    {
        if self.index.is_none() {
            self.index = Some(String::from_str(name));
            return true;
        }
        false
    }

    /// The types of the inputs, in order.
    pub fn get_input_types(&self) -> (r: Vec<SerializableWatType>)
        ensures
            r@ == self.deep_view().input_types(),
    {
        let mut out: Vec<SerializableWatType> = Vec::new();
        let mut i: usize = 0;
        while i < self.input.len()
            invariant
                i <= self.input.len(),
                out@ == self.deep_view().input_types().take(i as int),
            decreases self.input.len() - i,
        {
            out.push(self.input[i].1);
            assert(out@ =~= self.deep_view().input_types().take(i + 1));
            i = i + 1;
        }
        assert(self.deep_view().input_types().take(self.input.len() as int)
            =~= self.deep_view().input_types());
        out
    }

    /// A copy of the signature.
    pub fn duplicate(&self) -> (r: Self)
        ensures
            r.deep_view() == self.deep_view(),
    {
        let mut input: Vec<(Option<String>, SerializableWatType)> = Vec::new();
        let mut i: usize = 0;
        while i < self.input.len()
            invariant
                i <= self.input.len(),
                input.deep_view() == self.input.deep_view().take(i as int),
            decreases self.input.len() - i,
        {
            let name = copy_name(&self.input[i].0);
            let ghost before = input;
            let item = (name, self.input[i].1);
            input.push(item);
            proof {
                lemma_deep_view_push(before, input, item);
                lemma_deep_view_take(self.input, i as int);
            }
            i = i + 1;
        }
        proof {
            if self.input.len() > 0 {
                lemma_deep_view_take(self.input, 0);
            } else {
                assert(self.input.deep_view().take(0) =~= self.input.deep_view());
            }
        }
        InputOutput { index: copy_name(&self.index), input, output: copy_types(&self.output) }
    }

    /// The value types of a list of source types, if none is a reference type.
    pub open spec fn value_types(types: Seq<ValType>) -> Option<Seq<SerializableWatType>> {
        if forall|i: int| 0 <= i < types.len() ==> types[i] != ValType::Ref {
            Some(Seq::new(types.len(), |i: int| SerializableWatType::of_val_type(types[i])->0))
        } else {
            None
        }
    }

    /// The parameters of an inline signature, if none has a reference type.
    pub open spec fn parameters(params: Seq<(Option<String>, ValType)>) -> Option<
        Seq<(Option<Seq<char>>, SerializableWatType)>,
    > {
        if forall|i: int| 0 <= i < params.len() ==> params[i].1 != ValType::Ref {
            Some(
                Seq::new(
                    params.len(),
                    |i: int|
                        (params[i].0.deep_view(), SerializableWatType::of_val_type(params[i].1)->0),
                ),
            )
        } else {
            None
        }
    }

    /// The signature that a type use denotes: the referenced type's name
    /// and the inline parameters and results. A reference type anywhere in
    /// it is unimplemented; after that, an identifier that two parameters
    /// carry is a fault.
    pub open spec fn of_type_use(value: TypeUse) -> Result<InputOutputView, WatErrorView> {
        let index = match value.index {
            Some(i) => Some(index_text(i)),
            None => None,
        };
        match value.inline {
            Some(ft) => match (Self::parameters(ft.params@), Self::value_types(ft.results@)) {
                (Some(input), Some(output)) => match first_repeated(variable_names(input)) {
                    Some(name) => Err(WatError::spec_duplicate_name_error(name)),
                    None => Ok(InputOutputView { index, input, output }),
                },
                _ => Err(WatError::spec_unimplemented_error("Cannot use Ref type"@)),
            },
            None => Ok(InputOutputView { index, input: Seq::empty(), output: Seq::empty() }),
        }
    }

    fn convert_parameters(params: &Vec<(Option<String>, ValType)>) -> (r: WatResult<
        Vec<(Option<String>, SerializableWatType)>,
    >)
        ensures
            match r {
                Ok(v) => Self::parameters(params@) == Some(v.deep_view()),
                Err(e) => Self::parameters(params@) is None && e.deep_view()
                    == WatError::spec_unimplemented_error("Cannot use Ref type"@),
            },
    {
        let mut out: Vec<(Option<String>, SerializableWatType)> = Vec::new();
        let mut i: usize = 0;
        while i < params.len()
            invariant
                i <= params.len(),
                Self::parameters(params@.take(i as int)) == Some(out.deep_view()),
            decreases params.len() - i,
        {
            let ghost before = params@.take(i as int);
            let ghost after = params@.take(i + 1);
            match SerializableWatType::try_from_val_type(params[i].1) {
                Ok(t) => {
                    let ghost old_out = out;
                    let item = (copy_name(&params[i].0), t);
                    out.push(item);
                    proof {
                        lemma_deep_view_push(old_out, out, item);
                        assert forall|j: int| 0 <= j < after.len() implies after[j].1
                            != ValType::Ref by {
                            if j < i {
                                assert(before[j] == after[j]);
                            }
                        }
                        assert(out.deep_view() =~= Self::parameters(after)->0) by {
                            assert forall|j: int| 0 <= j < i implies out.deep_view()[j]
                                == Self::parameters(after)->0[j] by {
                                assert(before[j] == after[j]);
                                assert(old_out.deep_view()[j] == Self::parameters(before)->0[j]);
                            }
                        }
                    }
                },
                Err(e) => {
                    return Err(e);
                },
            }
            i = i + 1;
        }
        proof {
            assert(params@.take(params.len() as int) =~= params@);
        }
        Ok(out)
    }

    fn convert_types(types: &Vec<ValType>) -> (r: WatResult<Vec<SerializableWatType>>)
        ensures
            match r {
                Ok(v) => Self::value_types(types@) == Some(v@),
                Err(e) => Self::value_types(types@) is None && e.deep_view()
                    == WatError::spec_unimplemented_error("Cannot use Ref type"@),
            },
    {
        let mut out: Vec<SerializableWatType> = Vec::new();
        let mut i: usize = 0;
        while i < types.len()
            invariant
                i <= types.len(),
                Self::value_types(types@.take(i as int)) == Some(out@),
            decreases types.len() - i,
        {
            let ghost before = types@.take(i as int);
            let ghost after = types@.take(i + 1);
            match SerializableWatType::try_from_val_type(types[i]) {
                Ok(t) => {
                    out.push(t);
                    proof {
                        assert forall|j: int| 0 <= j < after.len() implies after[j]
                            != ValType::Ref by {
                            if j < i {
                                assert(before[j] == after[j]);
                            }
                        }
                        assert(out@ =~= Self::value_types(after)->0) by {
                            assert forall|j: int| 0 <= j < i implies out@[j] == Self::value_types(
                                after,
                            )->0[j] by {
                                assert(before[j] == after[j]);
                                assert(out@[j] == Self::value_types(before)->0[j]);
                            }
                        }
                    }
                },
                Err(e) => {
                    return Err(e);
                },
            }
            i = i + 1;
        }
        proof {
            assert(types@.take(types.len() as int) =~= types@);
        }
        Ok(out)
    }

    /// Converts a type use into a signature.
    pub fn try_from_type_use(value: &TypeUse) -> (r: WatResult<Self>)
        ensures
            match r {
                Ok(v) => Self::of_type_use(*value) == Ok::<InputOutputView, WatErrorView>(
                    v.deep_view(),
                ) && v.deep_view().distinct_names(),
                Err(e) => Self::of_type_use(*value) == Err::<InputOutputView, WatErrorView>(
                    e.deep_view(),
                ),
            },
    {
        let index = match &value.index {
            Some(i) => Some(index_to_string(i)),
            None => None,
        };
        match &value.inline {
            Some(ft) => {
                let input = match Self::convert_parameters(&ft.params) {
                    Ok(v) => v,
                    Err(e) => {
                        return Err(e);
                    },
                };
                let output = match Self::convert_types(&ft.results) {
                    Ok(v) => v,
                    Err(e) => {
                        return Err(e);
                    },
                };
                let variables = input.as_slice();
                let names = names_of_variables(variables);
                proof {
                    assert(variables.deep_view() =~= input.deep_view());
                    lemma_first_repeated(variable_names(input.deep_view()));
                }
                match find_repeated(&names) {
                    Some(name) => Err(WatError::duplicate_name_error(name.as_str())),
                    None => Ok(InputOutput { index, input, output }),
                }
            },
            None => {
                let r = InputOutput { index, input: Vec::new(), output: Vec::new() };
                assert(r.deep_view().input =~= Seq::empty());
                Ok(r)
            },
        }
    }
}

/// The text that stands for a reference: the digits of a position, or
/// the identifier.
pub open spec fn index_text(index: Index) -> Seq<char> {
    match index {
        Index::Num(n) => decimal(n as nat),
        Index::Id(id) => id@,
    }
}

/// Writes a reference as text.
pub fn index_to_string(index: &Index) -> (r: String)
    ensures
        r@ == index_text(*index),
{
    match index {
        Index::Num(n) => u64_to_string(*n as u64),
        Index::Id(id) => id.clone(),
    }
}

/// The text of an optional label; an absent label is empty.
pub open spec fn label_text(label: Option<String>) -> Seq<char> {
    match label {
        Some(l) => l@,
        None => Seq::empty(),
    }
}

/// Writes an optional label as text; an absent label is empty.
pub fn label_to_string(label: &Option<String>) -> (r: String)
    ensures
        r@ == label_text(*label),
{
    match label {
        Some(l) => l.clone(),
        None => {
            proof {
                reveal_strlit("");
            }
            let r = String::from_str("");
            assert(r@ =~= Seq::empty());
            r
        },
    }
}

/// A normalized instruction: the family, with the value type carried as
/// data.
#[derive(Debug, Clone, PartialEq, Eq)]
pub enum SerializedInstruction {
    Simple(SimpleInstruction),
    /// A block marker. `inout` is absent on `Else` and `End`.
    Block { label: String, kind: BlockKind, inout: Option<InputOutput> },
    /// `br`, `br_if` or, with `other_labels`, `br_table`.
    Branch { default_label: String, other_labels: Vec<String>, is_conditional: bool },
    /// A call. The empty signature marks a direct call, whose signature is
    /// that of the callee.
    Call { index: String, inout: InputOutput },
    Data { kind: DataInstruction, location: String },
    Memory {
        location: String,
        typ: SerializableWatType,
        count: ByteKind,
        offset: u32,
        alignment: ByteKind,
        is_storing: bool,
    },
    Const { typ: SerializableWatType, value: SerializedNumber },
    Comparison { kind: ComparisonOperation, typ: SerializableWatType },
    Arithmetic { kind: ArithmeticOperation, typ: SerializableWatType },
    Bitwise { kind: BitwiseOperation, is_64_bit: bool },
    Float { kind: FloatOperation, is_64_bit: bool },
    Conversion(NumericConversionKind),
    /// An opcode outside the supported set, with a rendering of it.
    DefaultString(String),
}

/// What a `SerializedInstruction` holds.
pub enum SerializedInstructionView {
    Simple(SimpleInstruction),
    Block { label: Seq<char>, kind: BlockKind, inout: Option<InputOutputView> },
    Branch { default_label: Seq<char>, other_labels: Seq<Seq<char>>, is_conditional: bool },
    Call { index: Seq<char>, inout: InputOutputView },
    Data { kind: DataInstruction, location: Seq<char> },
    Memory {
        location: Seq<char>,
        typ: SerializableWatType,
        count: ByteKind,
        offset: u32,
        alignment: ByteKind,
        is_storing: bool,
    },
    Const { typ: SerializableWatType, value: SerializedNumberView },
    Comparison { kind: ComparisonOperation, typ: SerializableWatType },
    Arithmetic { kind: ArithmeticOperation, typ: SerializableWatType },
    Bitwise { kind: BitwiseOperation, is_64_bit: bool },
    Float { kind: FloatOperation, is_64_bit: bool },
    Conversion(NumericConversionKind),
    DefaultString(Seq<char>),
}

impl DeepView for SerializedInstruction {
    type V = SerializedInstructionView;

    open spec fn deep_view(&self) -> SerializedInstructionView {
        match self {
            SerializedInstruction::Simple(s) => SerializedInstructionView::Simple(*s),
            SerializedInstruction::Block { label, kind, inout } => SerializedInstructionView::Block {
                label: label@,
                kind: *kind,
                inout: inout.deep_view(),
            },
            SerializedInstruction::Branch {
                default_label,
                other_labels,
                is_conditional,
            } => SerializedInstructionView::Branch {
                default_label: default_label@,
                other_labels: other_labels.deep_view(),
                is_conditional: *is_conditional,
            },
            SerializedInstruction::Call { index, inout } => SerializedInstructionView::Call {
                index: index@,
                inout: inout.deep_view(),
            },
            SerializedInstruction::Data { kind, location } => SerializedInstructionView::Data {
                kind: *kind,
                location: location@,
            },
            SerializedInstruction::Memory {
                location,
                typ,
                count,
                offset,
                alignment,
                is_storing,
            } => SerializedInstructionView::Memory {
                location: location@,
                typ: *typ,
                count: *count,
                offset: *offset,
                alignment: *alignment,
                is_storing: *is_storing,
            },
            SerializedInstruction::Const { typ, value } => SerializedInstructionView::Const {
                typ: *typ,
                value: value.deep_view(),
            },
            SerializedInstruction::Comparison { kind, typ } => SerializedInstructionView::Comparison {
                kind: *kind,
                typ: *typ,
            },
            SerializedInstruction::Arithmetic { kind, typ } => SerializedInstructionView::Arithmetic {
                kind: *kind,
                typ: *typ,
            },
            SerializedInstruction::Bitwise { kind, is_64_bit } => SerializedInstructionView::Bitwise {
                kind: *kind,
                is_64_bit: *is_64_bit,
            },
            SerializedInstruction::Float { kind, is_64_bit } => SerializedInstructionView::Float {
                kind: *kind,
                is_64_bit: *is_64_bit,
            },
            SerializedInstruction::Conversion(c) => SerializedInstructionView::Conversion(*c),
            SerializedInstruction::DefaultString(s) => SerializedInstructionView::DefaultString(s@),
        }
    }
}

fn copy_labels(labels: &Vec<String>) -> (r: Vec<String>)
    ensures
        r.deep_view() == labels.deep_view(),
{
    let mut out: Vec<String> = Vec::new();
    let mut i: usize = 0;
    while i < labels.len()
        invariant
            i <= labels.len(),
            out.deep_view() == labels.deep_view().take(i as int),
        decreases labels.len() - i,
    {
        let ghost before = out;
        let label = labels[i].clone();
        out.push(label);
        proof {
            lemma_deep_view_push(before, out, label);
            lemma_deep_view_take(*labels, i as int);
        }
        i = i + 1;
    }
    assert(labels.deep_view().take(labels.len() as int) =~= labels.deep_view());
    out
}

impl SerializedInstruction {
    /// A copy of the instruction.
    pub fn duplicate(&self) -> (r: Self)
        ensures
            r.deep_view() == self.deep_view(),
    {
        match self {
            SerializedInstruction::Simple(s) => SerializedInstruction::Simple(*s),
            SerializedInstruction::Block { label, kind, inout } => SerializedInstruction::Block {
                label: label.clone(),
                kind: *kind,
                inout: match inout {
                    Some(io) => Some(io.duplicate()),
                    None => None,
                },
            },
            SerializedInstruction::Branch {
                default_label,
                other_labels,
                is_conditional,
            } => SerializedInstruction::Branch {
                default_label: default_label.clone(),
                other_labels: copy_labels(other_labels),
                is_conditional: *is_conditional,
            },
            SerializedInstruction::Call { index, inout } => SerializedInstruction::Call {
                index: index.clone(),
                inout: inout.duplicate(),
            },
            SerializedInstruction::Data { kind, location } => SerializedInstruction::Data {
                kind: *kind,
                location: location.clone(),
            },
            SerializedInstruction::Memory {
                location,
                typ,
                count,
                offset,
                alignment,
                is_storing,
            } => SerializedInstruction::Memory {
                location: location.clone(),
                typ: *typ,
                count: *count,
                offset: *offset,
                alignment: *alignment,
                is_storing: *is_storing,
            },
            SerializedInstruction::Const { typ, value } => SerializedInstruction::Const {
                typ: *typ,
                value: *value,
            },
            SerializedInstruction::Comparison { kind, typ } => SerializedInstruction::Comparison {
                kind: *kind,
                typ: *typ,
            },
            SerializedInstruction::Arithmetic { kind, typ } => SerializedInstruction::Arithmetic {
                kind: *kind,
                typ: *typ,
            },
            SerializedInstruction::Bitwise { kind, is_64_bit } => SerializedInstruction::Bitwise {
                kind: *kind,
                is_64_bit: *is_64_bit,
            },
            SerializedInstruction::Float { kind, is_64_bit } => SerializedInstruction::Float {
                kind: *kind,
                is_64_bit: *is_64_bit,
            },
            SerializedInstruction::Conversion(c) => SerializedInstruction::Conversion(*c),
            SerializedInstruction::DefaultString(s) => SerializedInstruction::DefaultString(
                s.clone(),
            ),
        }
    }
}


/// The numeric type that an opcode belongs to: that of its result, except for `i32.wrap_i64`, which counts as a 64-bit opcode.
pub open spec fn data_type_of(instruction: Instruction) -> Option<SerializableWatType> {
    match instruction {
        Instruction::F32Load(_) | Instruction::F32Store(_) | Instruction::F32Const(_)
        | Instruction::F32Abs | Instruction::F32Neg | Instruction::F32Ceil
        | Instruction::F32Floor | Instruction::F32Trunc | Instruction::F32Nearest
        | Instruction::F32Sqrt | Instruction::F32Add | Instruction::F32Sub
        | Instruction::F32Mul | Instruction::F32Div | Instruction::F32Min
        | Instruction::F32Max | Instruction::F32Copysign | Instruction::F32Eq
        | Instruction::F32Ne | Instruction::F32Lt | Instruction::F32Gt | Instruction::F32Le
        | Instruction::F32Ge | Instruction::F32ConvertI32S | Instruction::F32ConvertI32U
        | Instruction::F32ConvertI64S | Instruction::F32ConvertI64U
        | Instruction::F32DemoteF64 | Instruction::F32ReinterpretI32 => Some(SerializableWatType::F32),
        Instruction::F64Load(_) | Instruction::F64Store(_) | Instruction::F64Const(_)
        | Instruction::F64Abs | Instruction::F64Neg | Instruction::F64Ceil
        | Instruction::F64Floor | Instruction::F64Trunc | Instruction::F64Nearest
        | Instruction::F64Sqrt | Instruction::F64Add | Instruction::F64Sub
        | Instruction::F64Mul | Instruction::F64Div | Instruction::F64Min
        | Instruction::F64Max | Instruction::F64Copysign | Instruction::F64Eq
        | Instruction::F64Ne | Instruction::F64Lt | Instruction::F64Gt | Instruction::F64Le
        | Instruction::F64Ge | Instruction::F64ConvertI32S | Instruction::F64ConvertI32U
        | Instruction::F64ConvertI64S | Instruction::F64ConvertI64U
        | Instruction::F64PromoteF32 | Instruction::F64ReinterpretI64 => Some(SerializableWatType::F64),
        Instruction::I32Load(_) | Instruction::I32Load8s(_) | Instruction::I32Load8u(_)
        | Instruction::I32Load16s(_) | Instruction::I32Load16u(_) | Instruction::I32Store(_)
        | Instruction::I32Store8(_) | Instruction::I32Store16(_) | Instruction::I32Const(_)
        | Instruction::I32Clz | Instruction::I32Ctz | Instruction::I32Popcnt
        | Instruction::I32Add | Instruction::I32Sub | Instruction::I32Mul
        | Instruction::I32DivS | Instruction::I32DivU | Instruction::I32RemS
        | Instruction::I32RemU | Instruction::I32And | Instruction::I32Or
        | Instruction::I32Xor | Instruction::I32Shl | Instruction::I32ShrS
        | Instruction::I32ShrU | Instruction::I32Rotl | Instruction::I32Rotr
        | Instruction::I32Eqz | Instruction::I32Eq | Instruction::I32Ne
        | Instruction::I32LtS | Instruction::I32LtU | Instruction::I32GtS
        | Instruction::I32GtU | Instruction::I32LeS | Instruction::I32LeU
        | Instruction::I32GeS | Instruction::I32GeU | Instruction::I32TruncF32S
        | Instruction::I32TruncF32U | Instruction::I32TruncF64S | Instruction::I32TruncF64U
        | Instruction::I32ReinterpretF32 | Instruction::I32TruncSatF32S
        | Instruction::I32TruncSatF32U | Instruction::I32TruncSatF64S
        | Instruction::I32TruncSatF64U | Instruction::I32Extend8S
        | Instruction::I32Extend16S => Some(SerializableWatType::I32),
        Instruction::I64Load(_) | Instruction::I64Load8s(_) | Instruction::I64Load8u(_)
        | Instruction::I64Load16s(_) | Instruction::I64Load16u(_)
        | Instruction::I64Load32s(_) | Instruction::I64Load32u(_) | Instruction::I64Store(_)
        | Instruction::I64Store8(_) | Instruction::I64Store16(_)
        | Instruction::I64Store32(_) | Instruction::I64Const(_) | Instruction::I64Clz
        | Instruction::I64Ctz | Instruction::I64Popcnt | Instruction::I64Add
        | Instruction::I64Sub | Instruction::I64Mul | Instruction::I64DivS
        | Instruction::I64DivU | Instruction::I64RemS | Instruction::I64RemU
        | Instruction::I64And | Instruction::I64Or | Instruction::I64Xor
        | Instruction::I64Shl | Instruction::I64ShrS | Instruction::I64ShrU
        | Instruction::I64Rotl | Instruction::I64Rotr | Instruction::I64Eqz
        | Instruction::I64Eq | Instruction::I64Ne | Instruction::I64LtS
        | Instruction::I64LtU | Instruction::I64GtS | Instruction::I64GtU
        | Instruction::I64LeS | Instruction::I64LeU | Instruction::I64GeS
        | Instruction::I64GeU | Instruction::I32WrapI64 | Instruction::I64ExtendI32S
        | Instruction::I64ExtendI32U | Instruction::I64TruncF32S | Instruction::I64TruncF32U
        | Instruction::I64TruncF64S | Instruction::I64TruncF64U
        | Instruction::I64ReinterpretF64 | Instruction::I64TruncSatF32S
        | Instruction::I64TruncSatF32U | Instruction::I64TruncSatF64S
        | Instruction::I64TruncSatF64U | Instruction::I64Extend8S
        | Instruction::I64Extend16S | Instruction::I64Extend32S => Some(SerializableWatType::I64),
        _ => None,
    }
}

/// The numeric type of a typed opcode; `None` for control, variable and unsupported instructions.
pub fn data_type_of_instruction(instruction: &Instruction) -> (r: Option<SerializableWatType>)
    ensures
        r == data_type_of(*instruction),
{
    match instruction {
        Instruction::F32Load(_) | Instruction::F32Store(_) | Instruction::F32Const(_)
        | Instruction::F32Abs | Instruction::F32Neg | Instruction::F32Ceil
        | Instruction::F32Floor | Instruction::F32Trunc | Instruction::F32Nearest
        | Instruction::F32Sqrt | Instruction::F32Add | Instruction::F32Sub
        | Instruction::F32Mul | Instruction::F32Div | Instruction::F32Min
        | Instruction::F32Max | Instruction::F32Copysign | Instruction::F32Eq
        | Instruction::F32Ne | Instruction::F32Lt | Instruction::F32Gt | Instruction::F32Le
        | Instruction::F32Ge | Instruction::F32ConvertI32S | Instruction::F32ConvertI32U
        | Instruction::F32ConvertI64S | Instruction::F32ConvertI64U
        | Instruction::F32DemoteF64 | Instruction::F32ReinterpretI32 => Some(SerializableWatType::F32),
        Instruction::F64Load(_) | Instruction::F64Store(_) | Instruction::F64Const(_)
        | Instruction::F64Abs | Instruction::F64Neg | Instruction::F64Ceil
        | Instruction::F64Floor | Instruction::F64Trunc | Instruction::F64Nearest
        | Instruction::F64Sqrt | Instruction::F64Add | Instruction::F64Sub
        | Instruction::F64Mul | Instruction::F64Div | Instruction::F64Min
        | Instruction::F64Max | Instruction::F64Copysign | Instruction::F64Eq
        | Instruction::F64Ne | Instruction::F64Lt | Instruction::F64Gt | Instruction::F64Le
        | Instruction::F64Ge | Instruction::F64ConvertI32S | Instruction::F64ConvertI32U
        | Instruction::F64ConvertI64S | Instruction::F64ConvertI64U
        | Instruction::F64PromoteF32 | Instruction::F64ReinterpretI64 => Some(SerializableWatType::F64),
        Instruction::I32Load(_) | Instruction::I32Load8s(_) | Instruction::I32Load8u(_)
        | Instruction::I32Load16s(_) | Instruction::I32Load16u(_) | Instruction::I32Store(_)
        | Instruction::I32Store8(_) | Instruction::I32Store16(_) | Instruction::I32Const(_)
        | Instruction::I32Clz | Instruction::I32Ctz | Instruction::I32Popcnt
        | Instruction::I32Add | Instruction::I32Sub | Instruction::I32Mul
        | Instruction::I32DivS | Instruction::I32DivU | Instruction::I32RemS
        | Instruction::I32RemU | Instruction::I32And | Instruction::I32Or
        | Instruction::I32Xor | Instruction::I32Shl | Instruction::I32ShrS
        | Instruction::I32ShrU | Instruction::I32Rotl | Instruction::I32Rotr
        | Instruction::I32Eqz | Instruction::I32Eq | Instruction::I32Ne
        | Instruction::I32LtS | Instruction::I32LtU | Instruction::I32GtS
        | Instruction::I32GtU | Instruction::I32LeS | Instruction::I32LeU
        | Instruction::I32GeS | Instruction::I32GeU | Instruction::I32TruncF32S
        | Instruction::I32TruncF32U | Instruction::I32TruncF64S | Instruction::I32TruncF64U
        | Instruction::I32ReinterpretF32 | Instruction::I32TruncSatF32S
        | Instruction::I32TruncSatF32U | Instruction::I32TruncSatF64S
        | Instruction::I32TruncSatF64U | Instruction::I32Extend8S
        | Instruction::I32Extend16S => Some(SerializableWatType::I32),
        Instruction::I64Load(_) | Instruction::I64Load8s(_) | Instruction::I64Load8u(_)
        | Instruction::I64Load16s(_) | Instruction::I64Load16u(_)
        | Instruction::I64Load32s(_) | Instruction::I64Load32u(_) | Instruction::I64Store(_)
        | Instruction::I64Store8(_) | Instruction::I64Store16(_)
        | Instruction::I64Store32(_) | Instruction::I64Const(_) | Instruction::I64Clz
        | Instruction::I64Ctz | Instruction::I64Popcnt | Instruction::I64Add
        | Instruction::I64Sub | Instruction::I64Mul | Instruction::I64DivS
        | Instruction::I64DivU | Instruction::I64RemS | Instruction::I64RemU
        | Instruction::I64And | Instruction::I64Or | Instruction::I64Xor
        | Instruction::I64Shl | Instruction::I64ShrS | Instruction::I64ShrU
        | Instruction::I64Rotl | Instruction::I64Rotr | Instruction::I64Eqz
        | Instruction::I64Eq | Instruction::I64Ne | Instruction::I64LtS
        | Instruction::I64LtU | Instruction::I64GtS | Instruction::I64GtU
        | Instruction::I64LeS | Instruction::I64LeU | Instruction::I64GeS
        | Instruction::I64GeU | Instruction::I32WrapI64 | Instruction::I64ExtendI32S
        | Instruction::I64ExtendI32U | Instruction::I64TruncF32S | Instruction::I64TruncF32U
        | Instruction::I64TruncF64S | Instruction::I64TruncF64U
        | Instruction::I64ReinterpretF64 | Instruction::I64TruncSatF32S
        | Instruction::I64TruncSatF32U | Instruction::I64TruncSatF64S
        | Instruction::I64TruncSatF64U | Instruction::I64Extend8S
        | Instruction::I64Extend16S | Instruction::I64Extend32S => Some(SerializableWatType::I64),
        _ => None,
    }
}

/// The rendering of an opcode that has a type but no normalized form.
pub open spec fn rendering_of(instruction: Instruction) -> Seq<char> {
    match instruction {
        Instruction::I32TruncSatF32S => "I32TruncSatF32S"@,
        Instruction::I32TruncSatF32U => "I32TruncSatF32U"@,
        Instruction::I32TruncSatF64S => "I32TruncSatF64S"@,
        Instruction::I32TruncSatF64U => "I32TruncSatF64U"@,
        Instruction::I64TruncSatF32S => "I64TruncSatF32S"@,
        Instruction::I64TruncSatF32U => "I64TruncSatF32U"@,
        Instruction::I64TruncSatF64S => "I64TruncSatF64S"@,
        Instruction::I64TruncSatF64U => "I64TruncSatF64U"@,
        Instruction::I32Extend8S => "I32Extend8S"@,
        Instruction::I32Extend16S => "I32Extend16S"@,
        Instruction::I64Extend8S => "I64Extend8S"@,
        Instruction::I64Extend16S => "I64Extend16S"@,
        Instruction::I64Extend32S => "I64Extend32S"@,
        Instruction::Other(text) => text@,
        _ => Seq::empty(),
    }
}

fn rendering(instruction: &Instruction) -> (r: String)
    ensures
        r@ == rendering_of(*instruction),
{
    match instruction {
        Instruction::I32TruncSatF32S => String::from_str("I32TruncSatF32S"),
        Instruction::I32TruncSatF32U => String::from_str("I32TruncSatF32U"),
        Instruction::I32TruncSatF64S => String::from_str("I32TruncSatF64S"),
        Instruction::I32TruncSatF64U => String::from_str("I32TruncSatF64U"),
        Instruction::I64TruncSatF32S => String::from_str("I64TruncSatF32S"),
        Instruction::I64TruncSatF32U => String::from_str("I64TruncSatF32U"),
        Instruction::I64TruncSatF64S => String::from_str("I64TruncSatF64S"),
        Instruction::I64TruncSatF64U => String::from_str("I64TruncSatF64U"),
        Instruction::I32Extend8S => String::from_str("I32Extend8S"),
        Instruction::I32Extend16S => String::from_str("I32Extend16S"),
        Instruction::I64Extend8S => String::from_str("I64Extend8S"),
        Instruction::I64Extend16S => String::from_str("I64Extend16S"),
        Instruction::I64Extend32S => String::from_str("I64Extend32S"),
        Instruction::Other(text) => text.clone(),
        _ => {
            proof {
                reveal_strlit("");
            }
            let r = String::from_str("");
            assert(r@ =~= Seq::empty());
            r
        },
    }
}

/// Whether a typed opcode works on 64 bits.
pub open spec fn is_64_bit_of(instruction: Instruction) -> Option<bool> {
    match data_type_of(instruction) {
        Some(SerializableWatType::I32) | Some(SerializableWatType::F32) | Some(
            SerializableWatType::V128,
        ) => Some(false),
        Some(SerializableWatType::I64) | Some(SerializableWatType::F64) => Some(true),
        None => None,
    }
}

/// Whether a typed opcode works on 64 bits; `None` where the opcode has
/// no type.
pub fn is_64_bit_instruction(instruction: &Instruction) -> (r: Option<bool>)
    ensures
        r == is_64_bit_of(*instruction),
{
    match data_type_of_instruction(instruction) {
        Some(SerializableWatType::I32) | Some(SerializableWatType::F32) | Some(
            SerializableWatType::V128,
        ) => Some(false),
        Some(SerializableWatType::I64) | Some(SerializableWatType::F64) => Some(true),
        None => None,
    }
}

/// The immediate of a load or store.
pub open spec fn mem_arg_of(instruction: Instruction) -> Option<MemArg> {
    match instruction {
        Instruction::I32Load(m)
        | Instruction::I64Load(m)
        | Instruction::F32Load(m)
        | Instruction::F64Load(m)
        | Instruction::I32Load8s(m)
        | Instruction::I32Load8u(m)
        | Instruction::I32Load16s(m)
        | Instruction::I32Load16u(m)
        | Instruction::I64Load8s(m)
        | Instruction::I64Load8u(m)
        | Instruction::I64Load16s(m)
        | Instruction::I64Load16u(m)
        | Instruction::I64Load32s(m)
        | Instruction::I64Load32u(m)
        | Instruction::I32Store(m)
        | Instruction::I64Store(m)
        | Instruction::F32Store(m)
        | Instruction::F64Store(m)
        | Instruction::I32Store8(m)
        | Instruction::I32Store16(m)
        | Instruction::I64Store8(m)
        | Instruction::I64Store16(m)
        | Instruction::I64Store32(m) => Some(m),
        _ => None,
    }
}

/// Whether the opcode is a store.
pub open spec fn is_store(instruction: Instruction) -> bool {
    match instruction {
        Instruction::I32Store(_)
        | Instruction::I64Store(_)
        | Instruction::F32Store(_)
        | Instruction::F64Store(_)
        | Instruction::I32Store8(_)
        | Instruction::I32Store16(_)
        | Instruction::I64Store8(_)
        | Instruction::I64Store16(_)
        | Instruction::I64Store32(_) => true,
        _ => false,
    }
}

/// The reference that a variable access, a branch or a direct call
/// carries.
pub open spec fn reference_of(instruction: Instruction) -> Option<Index> {
    match instruction {
        Instruction::Br(i)
        | Instruction::BrIf(i)
        | Instruction::Call(i)
        | Instruction::LocalGet(i)
        | Instruction::LocalSet(i)
        | Instruction::LocalTee(i)
        | Instruction::GlobalGet(i)
        | Instruction::GlobalSet(i)
        | Instruction::MemorySize(i)
        | Instruction::MemoryGrow(i) => Some(i),
        _ => None,
    }
}

/// The normalized form of a load or store.
pub open spec fn lower_memory(instruction: Instruction, m: MemArg) -> SerializedInstructionView {
    SerializedInstructionView::Memory {
        location: index_text(m.memory),
        typ: data_type_of(instruction)->0,
        count: byte_count_of(instruction)->0,
        offset: (m.offset % 0x1_0000_0000) as u32,
        alignment: ByteKind::of_byte_count(m.align),
        is_storing: is_store(instruction),
    }
}

/// The normalized form of a source instruction.
///
/// Opcodes of one family collapse onto one variant that carries the type;
/// block markers keep their label and signature; references become text.
/// An opcode outside the supported families becomes `DefaultString`. The
/// only failure is a reference type in a signature.
pub open spec fn lower(instruction: Instruction) -> Result<
    SerializedInstructionView,
    WatErrorView,
> {
    match instruction {
        Instruction::Block(b) | Instruction::If(b) | Instruction::Loop(b) => match InputOutput::of_type_use(
            b.ty,
        ) {
            Ok(inout) => Ok(
                SerializedInstructionView::Block {
                    label: label_text(b.label),
                    kind: block_kind_of(instruction)->0,
                    inout: Some(inout),
                },
            ),
            Err(e) => Err(e),
        },
        Instruction::Else(label) | Instruction::End(label) => Ok(
            SerializedInstructionView::Block {
                label: label_text(label),
                kind: block_kind_of(instruction)->0,
                inout: None,
            },
        ),
        Instruction::Br(i) => Ok(
            SerializedInstructionView::Branch {
                default_label: index_text(i),
                other_labels: Seq::empty(),
                is_conditional: false,
            },
        ),
        Instruction::BrIf(i) => Ok(
            SerializedInstructionView::Branch {
                default_label: index_text(i),
                other_labels: Seq::empty(),
                is_conditional: true,
            },
        ),
        Instruction::BrTable(table) => Ok(
            SerializedInstructionView::Branch {
                default_label: index_text(table.default),
                other_labels: Seq::new(table.labels@.len(), |i: int| index_text(table.labels@[i])),
                is_conditional: true,
            },
        ),
        Instruction::Call(i) => Ok(
            SerializedInstructionView::Call { index: index_text(i), inout: InputOutputView::empty() },
        ),
        Instruction::CallIndirect(c) => match InputOutput::of_type_use(c.ty) {
            Ok(inout) => Ok(SerializedInstructionView::Call { index: index_text(c.table), inout }),
            Err(e) => Err(e),
        },
        Instruction::I32Const(v) => Ok(
            SerializedInstructionView::Const {
                typ: SerializableWatType::I32,
                value: number_32(bits_of_i32(v), SerializableWatType::I32),
            },
        ),
        Instruction::I64Const(v) => Ok(
            SerializedInstructionView::Const {
                typ: SerializableWatType::I64,
                value: number_64(bits_of_i64(v), SerializableWatType::I64),
            },
        ),
        Instruction::F32Const(bits) => Ok(
            SerializedInstructionView::Const {
                typ: SerializableWatType::F32,
                value: number_32(bits as nat, SerializableWatType::F32),
            },
        ),
        Instruction::F64Const(bits) => Ok(
            SerializedInstructionView::Const {
                typ: SerializableWatType::F64,
                value: number_64(bits as nat, SerializableWatType::F64),
            },
        ),
        _ => Ok(
            if let Some(s) = simple_instruction_of(instruction) {
                SerializedInstructionView::Simple(s)
            } else if let Some(kind) = data_instruction_of(instruction) {
                SerializedInstructionView::Data {
                    kind,
                    location: index_text(reference_of(instruction)->0),
                }
            } else if let Some(m) = mem_arg_of(instruction) {
                lower_memory(instruction, m)
            } else if let Some(kind) = arithmetic_of(instruction) {
                SerializedInstructionView::Arithmetic { kind, typ: data_type_of(instruction)->0 }
            } else if let Some(kind) = comparison_of(instruction) {
                SerializedInstructionView::Comparison { kind, typ: data_type_of(instruction)->0 }
            } else if let Some(kind) = bitwise_of(instruction) {
                SerializedInstructionView::Bitwise { kind, is_64_bit: is_64_bit_of(instruction)->0 }
            } else if let Some(kind) = float_op_of(instruction) {
                SerializedInstructionView::Float { kind, is_64_bit: is_64_bit_of(instruction)->0 }
            } else if let Some(kind) = cast_kind_of(instruction) {
                SerializedInstructionView::Conversion(kind)
            } else {
                SerializedInstructionView::DefaultString(rendering_of(instruction))
            },
        ),
    }
}

fn mem_arg(instruction: &Instruction) -> (r: Option<&MemArg>)
    ensures
        match r {
            Some(m) => mem_arg_of(*instruction) == Some(*m),
            None => mem_arg_of(*instruction) is None,
        },
{
    match instruction {
        Instruction::I32Load(m)
        | Instruction::I64Load(m)
        | Instruction::F32Load(m)
        | Instruction::F64Load(m)
        | Instruction::I32Load8s(m)
        | Instruction::I32Load8u(m)
        | Instruction::I32Load16s(m)
        | Instruction::I32Load16u(m)
        | Instruction::I64Load8s(m)
        | Instruction::I64Load8u(m)
        | Instruction::I64Load16s(m)
        | Instruction::I64Load16u(m)
        | Instruction::I64Load32s(m)
        | Instruction::I64Load32u(m)
        | Instruction::I32Store(m)
        | Instruction::I64Store(m)
        | Instruction::F32Store(m)
        | Instruction::F64Store(m)
        | Instruction::I32Store8(m)
        | Instruction::I32Store16(m)
        | Instruction::I64Store8(m)
        | Instruction::I64Store16(m)
        | Instruction::I64Store32(m) => Some(m),
        _ => None,
    }
}

fn storing(instruction: &Instruction) -> (r: bool)
    ensures
        r == is_store(*instruction),
{
    match instruction {
        Instruction::I32Store(_)
        | Instruction::I64Store(_)
        | Instruction::F32Store(_)
        | Instruction::F64Store(_)
        | Instruction::I32Store8(_)
        | Instruction::I32Store16(_)
        | Instruction::I64Store8(_)
        | Instruction::I64Store16(_)
        | Instruction::I64Store32(_) => true,
        _ => false,
    }
}

fn reference(instruction: &Instruction) -> (r: Option<&Index>)
    ensures
        match r {
            Some(i) => reference_of(*instruction) == Some(*i),
            None => reference_of(*instruction) is None,
        },
{
    match instruction {
        Instruction::Br(i)
        | Instruction::BrIf(i)
        | Instruction::Call(i)
        | Instruction::LocalGet(i)
        | Instruction::LocalSet(i)
        | Instruction::LocalTee(i)
        | Instruction::GlobalGet(i)
        | Instruction::GlobalSet(i)
        | Instruction::MemorySize(i)
        | Instruction::MemoryGrow(i) => Some(i),
        _ => None,
    }
}

fn table_labels(labels: &Vec<Index>) -> (r: Vec<String>)
    ensures
        r.deep_view() == Seq::new(labels@.len(), |i: int| index_text(labels@[i])),
{
    let ghost want = Seq::new(labels@.len(), |i: int| index_text(labels@[i]));
    let mut out: Vec<String> = Vec::new();
    let mut i: usize = 0;
    while i < labels.len()
        invariant
            i <= labels.len(),
            want == Seq::new(labels@.len(), |i: int| index_text(labels@[i])),
            out.deep_view() == want.take(i as int),
        decreases labels.len() - i,
    {
        let ghost before = out;
        let label = index_to_string(&labels[i]);
        out.push(label);
        proof {
            lemma_deep_view_push(before, out, label);
            assert(out.deep_view() =~= want.take(i + 1));
        }
        i = i + 1;
    }
    assert(want.take(labels.len() as int) =~= want);
    out
}

impl SerializedInstruction {
    fn block_marker(
        label: &Option<String>,
        kind: BlockKind,
        inout: Option<InputOutput>,
    ) -> (r: Self)
        ensures
            r.deep_view() == (SerializedInstructionView::Block {
                label: label_text(*label),
                kind,
                inout: inout.deep_view(),
            }),
    {
        SerializedInstruction::Block { label: label_to_string(label), kind, inout }
    }

    fn lower_block(block: &BlockType, kind: BlockKind) -> (r: WatResult<Self>)
        ensures
            match r {
                Ok(v) => InputOutput::of_type_use(block.ty) matches Ok(inout) && v.deep_view() == (
                SerializedInstructionView::Block {
                    label: label_text(block.label),
                    kind,
                    inout: Some(inout),
                }),
                Err(e) => InputOutput::of_type_use(block.ty) == Err::<InputOutputView, WatErrorView>(
                    e.deep_view(),
                ),
            },
    {
        match InputOutput::try_from_type_use(&block.ty) {
            Ok(inout) => Ok(Self::block_marker(&block.label, kind, Some(inout))),
            Err(e) => Err(e),
        }
    }

    fn branch(default: &Index, other_labels: Vec<String>, is_conditional: bool) -> (r: Self)
        ensures
            r.deep_view() == (SerializedInstructionView::Branch {
                default_label: index_text(*default),
                other_labels: other_labels.deep_view(),
                is_conditional,
            }),
    {
        SerializedInstruction::Branch {
            default_label: index_to_string(default),
            other_labels,
            is_conditional,
        }
    }

    /// Lowers one source instruction.
    pub fn try_from_instruction(value: &Instruction) -> (r: WatResult<Self>)
        ensures
            match r {
                Ok(v) => lower(*value) == Ok::<SerializedInstructionView, WatErrorView>(
                    v.deep_view(),
                ),
                Err(e) => lower(*value) == Err::<SerializedInstructionView, WatErrorView>(
                    e.deep_view(),
                ),
            },
    {
        match value {
            Instruction::Block(b) => Self::lower_block(b, BlockKind::Block),
            Instruction::If(b) => Self::lower_block(b, BlockKind::If),
            Instruction::Loop(b) => Self::lower_block(b, BlockKind::Loop),
            Instruction::Else(label) => Ok(Self::block_marker(label, BlockKind::Else, None)),
            Instruction::End(label) => Ok(Self::block_marker(label, BlockKind::End, None)),
            Instruction::Br(i) => {
                let r = Self::branch(i, Vec::new(), false);
                assert(r.deep_view()->Branch_other_labels =~= Seq::empty());
                Ok(r)
            },
            Instruction::BrIf(i) => {
                let r = Self::branch(i, Vec::new(), true);
                assert(r.deep_view()->Branch_other_labels =~= Seq::empty());
                Ok(r)
            },
            Instruction::BrTable(table) => Ok(
                Self::branch(&table.default, table_labels(&table.labels), true),
            ),
            Instruction::Call(i) => Ok(
                SerializedInstruction::Call { index: index_to_string(i), inout: InputOutput::empty() },
            ),
            Instruction::CallIndirect(c) => match InputOutput::try_from_type_use(&c.ty) {
                Ok(inout) => Ok(
                    SerializedInstruction::Call { index: index_to_string(&c.table), inout },
                ),
                Err(e) => Err(e),
            },
            Instruction::I32Const(v) => Ok(
                SerializedInstruction::Const {
                    typ: SerializableWatType::I32,
                    value: SerializedNumber::from_i32(*v),
                },
            ),
            Instruction::I64Const(v) => Ok(
                SerializedInstruction::Const {
                    typ: SerializableWatType::I64,
                    value: SerializedNumber::from_i64(*v),
                },
            ),
            Instruction::F32Const(bits) => Ok(
                SerializedInstruction::Const {
                    typ: SerializableWatType::F32,
                    value: SerializedNumber::from_f32_bits(*bits),
                },
            ),
            Instruction::F64Const(bits) => Ok(
                SerializedInstruction::Const {
                    typ: SerializableWatType::F64,
                    value: SerializedNumber::from_f64_bits(*bits),
                },
            ),
            _ => Ok(Self::lower_plain(value)),
        }
    }

    #[verifier::rlimit(40)]
    fn lower_plain(value: &Instruction) -> (r: Self)
        requires
            !(*value is Block || *value is If || *value is Loop || *value is Else || *value is End
                || *value is Br || *value is BrIf || *value is BrTable || *value is Call
                || *value is CallIndirect || *value is I32Const || *value is I64Const
                || *value is F32Const || *value is F64Const),
        ensures
            lower(*value) == Ok::<SerializedInstructionView, WatErrorView>(r.deep_view()),
    {
        if let Some(s) = try_simple_instruction_from(value) {
            return SerializedInstruction::Simple(s);
        }
        if let Some(kind) = try_data_instruction_from(value) {
            if let Some(i) = reference(value) {
                return SerializedInstruction::Data { kind, location: index_to_string(i) };
            }
        }
        if let Some(m) = mem_arg(value) {
            if let Some(typ) = data_type_of_instruction(value) {
                if let Some(count) = try_byte_count_from(value) {
                    return SerializedInstruction::Memory {
                        location: index_to_string(&m.memory),
                        typ,
                        count,
                        offset: (m.offset % 0x1_0000_0000) as u32,
                        alignment: ByteKind::from_alignment(m.align),
                        is_storing: storing(value),
                    };
                }
            }
        }
        if let Some(kind) = try_arithmetic_from(value) {
            if let Some(typ) = data_type_of_instruction(value) {
                return SerializedInstruction::Arithmetic { kind, typ };
            }
        }
        if let Some(kind) = try_comparison_from(value) {
            if let Some(typ) = data_type_of_instruction(value) {
                return SerializedInstruction::Comparison { kind, typ };
            }
        }
        if let Some(kind) = try_bitwise_from(value) {
            if let Some(is_64_bit) = is_64_bit_instruction(value) {
                return SerializedInstruction::Bitwise { kind, is_64_bit };
            }
        }
        if let Some(kind) = try_float_op_from(value) {
            if let Some(is_64_bit) = is_64_bit_instruction(value) {
                return SerializedInstruction::Float { kind, is_64_bit };
            }
        }
        if let Some(kind) = try_cast_kind_from(value) {
            return SerializedInstruction::Conversion(kind);
        }
        SerializedInstruction::DefaultString(rendering(value))
    }

    /// Lowers a sequence of instructions, in order; the first failure ends it.
    pub fn lower_all(instructions: &[Instruction]) -> (r: WatResult<Vec<Self>>)
        ensures
            match r {
                Ok(v) => lower_sequence(instructions@) == Ok::<
                    Seq<SerializedInstructionView>,
                    WatErrorView,
                >(v.deep_view()),
                Err(e) => lower_sequence(instructions@) == Err::<
                    Seq<SerializedInstructionView>,
                    WatErrorView,
                >(e.deep_view()),
            },
    {
        let mut out: Vec<SerializedInstruction> = Vec::new();
        let mut i: usize = 0;
        proof {
            assert(instructions@.take(0) =~= Seq::empty());
            assert(out.deep_view() =~= Seq::empty());
        }
        while i < instructions.len()
            invariant
                i <= instructions.len(),
                lower_sequence(instructions@.take(i as int)) == Ok::<
                    Seq<SerializedInstructionView>,
                    WatErrorView,
                >(out.deep_view()),
            decreases instructions.len() - i,
        {
            let ghost before = instructions@.take(i as int);
            let ghost after = instructions@.take(i + 1);
            proof {
                assert(after.drop_last() =~= before);
                assert(after.last() == instructions@[i as int]);
            }
            match Self::try_from_instruction(&instructions[i]) {
                Ok(v) => {
                    let ghost old_out = out;
                    out.push(v);
                    proof {
                        lemma_deep_view_push(old_out, out, v);
                    }
                },
                Err(e) => {
                    proof {
                        lemma_lower_sequence_prefix_error(instructions@, i + 1);
                    }
                    return Err(e);
                },
            }
            i = i + 1;
        }
        proof {
            assert(instructions@.take(instructions.len() as int) =~= instructions@);
        }
        Ok(out)
    }
}

/// The normalized forms of a sequence of instructions, or the failure of
/// the first one that has none.
pub open spec fn lower_sequence(instructions: Seq<Instruction>) -> Result<
    Seq<SerializedInstructionView>,
    WatErrorView,
>
    decreases instructions.len(),
{
    if instructions.len() == 0 {
        Ok(Seq::empty())
    } else {
        match lower_sequence(instructions.drop_last()) {
            Ok(done) => match lower(instructions.last()) {
                Ok(v) => Ok(done.push(v)),
                Err(e) => Err(e),
            },
            Err(e) => Err(e),
        }
    }
}

proof fn lemma_lower_sequence_prefix_error(instructions: Seq<Instruction>, n: int)
    requires
        0 <= n <= instructions.len(),
        lower_sequence(instructions.take(n)) is Err,
    ensures
        lower_sequence(instructions) == lower_sequence(instructions.take(n)),
    decreases instructions.len() - n,
{
    if n < instructions.len() {
        let next = instructions.take(n + 1);
        assert(next.drop_last() =~= instructions.take(n));
        lemma_lower_sequence_prefix_error(instructions, n + 1);
    } else {
        assert(instructions.take(n) =~= instructions);
    }
}

/// A constant that lowering makes carries the type of its opcode in its
/// own type tag.
pub proof fn lemma_constant_carries_its_type(instruction: Instruction)
    ensures
        lower(instruction) matches Ok(SerializedInstructionView::Const { typ, value })
            ==> value.typ == typ && data_type_of(instruction) == Some(typ),
{
}

/// Whether an opcode carries nothing but itself or a constant: the
/// operand-free control instructions, the numeric operations, the
/// conversions and the four constants.
pub open spec fn is_plain(instruction: Instruction) -> bool {
    simple_instruction_of(instruction) is Some || arithmetic_of(instruction) is Some
        || comparison_of(instruction) is Some || bitwise_of(instruction) is Some || float_op_of(
        instruction,
    ) is Some || cast_kind_of(instruction) is Some || instruction is I32Const
        || instruction is I64Const || instruction is F32Const || instruction is F64Const
}

/// The plain opcode that a normalized instruction stands for, where it
/// stands for one: the inverse of lowering on the numeric operations, the
/// conversions and the operand-free control instructions.
pub open spec fn opcode_of(instruction: SerializedInstructionView) -> Option<Instruction> {
    match instruction {
        SerializedInstructionView::Simple(s) => Some(
            match s {
                SimpleInstruction::Unreachable => Instruction::Unreachable,
                SimpleInstruction::Nop => Instruction::Nop,
                SimpleInstruction::Drop => Instruction::Drop,
                SimpleInstruction::Return => Instruction::Return,
            },
        ),
        SerializedInstructionView::Arithmetic { kind, typ } => match (typ, kind) {
            (SerializableWatType::I32, ArithmeticOperation::Addition) => Some(Instruction::I32Add),
            (SerializableWatType::I32, ArithmeticOperation::Subtraction) => Some(Instruction::I32Sub),
            (SerializableWatType::I32, ArithmeticOperation::Multiplication) => Some(Instruction::I32Mul),
            (SerializableWatType::I32, ArithmeticOperation::DivisonSigned) => Some(Instruction::I32DivS),
            (SerializableWatType::I32, ArithmeticOperation::DivisonUnsigned) => Some(Instruction::I32DivU),
            (SerializableWatType::I32, ArithmeticOperation::RemainderSigned) => Some(Instruction::I32RemS),
            (SerializableWatType::I32, ArithmeticOperation::RemainderUnsigned) => Some(Instruction::I32RemU),
            (SerializableWatType::I64, ArithmeticOperation::Addition) => Some(Instruction::I64Add),
            (SerializableWatType::I64, ArithmeticOperation::Subtraction) => Some(Instruction::I64Sub),
            (SerializableWatType::I64, ArithmeticOperation::Multiplication) => Some(Instruction::I64Mul),
            (SerializableWatType::I64, ArithmeticOperation::DivisonSigned) => Some(Instruction::I64DivS),
            (SerializableWatType::I64, ArithmeticOperation::DivisonUnsigned) => Some(Instruction::I64DivU),
            (SerializableWatType::I64, ArithmeticOperation::RemainderSigned) => Some(Instruction::I64RemS),
            (SerializableWatType::I64, ArithmeticOperation::RemainderUnsigned) => Some(Instruction::I64RemU),
            (SerializableWatType::F32, ArithmeticOperation::Addition) => Some(Instruction::F32Add),
            (SerializableWatType::F32, ArithmeticOperation::Subtraction) => Some(Instruction::F32Sub),
            (SerializableWatType::F32, ArithmeticOperation::Multiplication) => Some(Instruction::F32Mul),
            (SerializableWatType::F32, ArithmeticOperation::DivisonSigned) => Some(Instruction::F32Div),
            (SerializableWatType::F64, ArithmeticOperation::Addition) => Some(Instruction::F64Add),
            (SerializableWatType::F64, ArithmeticOperation::Subtraction) => Some(Instruction::F64Sub),
            (SerializableWatType::F64, ArithmeticOperation::Multiplication) => Some(Instruction::F64Mul),
            (SerializableWatType::F64, ArithmeticOperation::DivisonSigned) => Some(Instruction::F64Div),
            _ => None,
        },
        SerializedInstructionView::Comparison { kind, typ } => match (typ, kind) {
            (SerializableWatType::I32, ComparisonOperation::EqualZero) => Some(Instruction::I32Eqz),
            (SerializableWatType::I32, ComparisonOperation::Equal) => Some(Instruction::I32Eq),
            (SerializableWatType::I32, ComparisonOperation::NotEqual) => Some(Instruction::I32Ne),
            (SerializableWatType::I32, ComparisonOperation::LessThenSigned) => Some(Instruction::I32LtS),
            (SerializableWatType::I32, ComparisonOperation::LessThenUnsigned) => Some(Instruction::I32LtU),
            (SerializableWatType::I32, ComparisonOperation::GreaterThenSigned) => Some(Instruction::I32GtS),
            (SerializableWatType::I32, ComparisonOperation::GreaterThenUnsigned) => Some(Instruction::I32GtU),
            (SerializableWatType::I32, ComparisonOperation::LessThenOrEqualToSigned) => Some(Instruction::I32LeS),
            (SerializableWatType::I32, ComparisonOperation::LessThenOrEqualToUnsigned) => Some(Instruction::I32LeU),
            (SerializableWatType::I32, ComparisonOperation::GreaterThenOrEqualToSigned) => Some(Instruction::I32GeS),
            (SerializableWatType::I32, ComparisonOperation::GreaterThenOrEqualToUnsigned) => Some(Instruction::I32GeU),
            (SerializableWatType::I64, ComparisonOperation::EqualZero) => Some(Instruction::I64Eqz),
            (SerializableWatType::I64, ComparisonOperation::Equal) => Some(Instruction::I64Eq),
            (SerializableWatType::I64, ComparisonOperation::NotEqual) => Some(Instruction::I64Ne),
            (SerializableWatType::I64, ComparisonOperation::LessThenSigned) => Some(Instruction::I64LtS),
            (SerializableWatType::I64, ComparisonOperation::LessThenUnsigned) => Some(Instruction::I64LtU),
            (SerializableWatType::I64, ComparisonOperation::GreaterThenSigned) => Some(Instruction::I64GtS),
            (SerializableWatType::I64, ComparisonOperation::GreaterThenUnsigned) => Some(Instruction::I64GtU),
            (SerializableWatType::I64, ComparisonOperation::LessThenOrEqualToSigned) => Some(Instruction::I64LeS),
            (SerializableWatType::I64, ComparisonOperation::LessThenOrEqualToUnsigned) => Some(Instruction::I64LeU),
            (SerializableWatType::I64, ComparisonOperation::GreaterThenOrEqualToSigned) => Some(Instruction::I64GeS),
            (SerializableWatType::I64, ComparisonOperation::GreaterThenOrEqualToUnsigned) => Some(Instruction::I64GeU),
            (SerializableWatType::F32, ComparisonOperation::Equal) => Some(Instruction::F32Eq),
            (SerializableWatType::F32, ComparisonOperation::NotEqual) => Some(Instruction::F32Ne),
            (SerializableWatType::F32, ComparisonOperation::LessThenSigned) => Some(Instruction::F32Lt),
            (SerializableWatType::F32, ComparisonOperation::GreaterThenSigned) => Some(Instruction::F32Gt),
            (SerializableWatType::F32, ComparisonOperation::LessThenOrEqualToSigned) => Some(Instruction::F32Le),
            (SerializableWatType::F32, ComparisonOperation::GreaterThenOrEqualToSigned) => Some(Instruction::F32Ge),
            (SerializableWatType::F64, ComparisonOperation::Equal) => Some(Instruction::F64Eq),
            (SerializableWatType::F64, ComparisonOperation::NotEqual) => Some(Instruction::F64Ne),
            (SerializableWatType::F64, ComparisonOperation::LessThenSigned) => Some(Instruction::F64Lt),
            (SerializableWatType::F64, ComparisonOperation::GreaterThenSigned) => Some(Instruction::F64Gt),
            (SerializableWatType::F64, ComparisonOperation::LessThenOrEqualToSigned) => Some(Instruction::F64Le),
            (SerializableWatType::F64, ComparisonOperation::GreaterThenOrEqualToSigned) => Some(Instruction::F64Ge),
            _ => None,
        },
        SerializedInstructionView::Bitwise { kind, is_64_bit } => match (is_64_bit, kind) {
            (false, BitwiseOperation::CountLeadingZero) => Some(Instruction::I32Clz),
            (false, BitwiseOperation::CountTrailingZero) => Some(Instruction::I32Ctz),
            (false, BitwiseOperation::CountNonZero) => Some(Instruction::I32Popcnt),
            (false, BitwiseOperation::And) => Some(Instruction::I32And),
            (false, BitwiseOperation::Or) => Some(Instruction::I32Or),
            (false, BitwiseOperation::Xor) => Some(Instruction::I32Xor),
            (false, BitwiseOperation::ShiftLeft) => Some(Instruction::I32Shl),
            (false, BitwiseOperation::ShiftRightSigned) => Some(Instruction::I32ShrS),
            (false, BitwiseOperation::ShiftRightUnsigned) => Some(Instruction::I32ShrU),
            (false, BitwiseOperation::RotateLeft) => Some(Instruction::I32Rotl),
            (false, BitwiseOperation::RotateRight) => Some(Instruction::I32Rotr),
            (true, BitwiseOperation::CountLeadingZero) => Some(Instruction::I64Clz),
            (true, BitwiseOperation::CountTrailingZero) => Some(Instruction::I64Ctz),
            (true, BitwiseOperation::CountNonZero) => Some(Instruction::I64Popcnt),
            (true, BitwiseOperation::And) => Some(Instruction::I64And),
            (true, BitwiseOperation::Or) => Some(Instruction::I64Or),
            (true, BitwiseOperation::Xor) => Some(Instruction::I64Xor),
            (true, BitwiseOperation::ShiftLeft) => Some(Instruction::I64Shl),
            (true, BitwiseOperation::ShiftRightSigned) => Some(Instruction::I64ShrS),
            (true, BitwiseOperation::ShiftRightUnsigned) => Some(Instruction::I64ShrU),
            (true, BitwiseOperation::RotateLeft) => Some(Instruction::I64Rotl),
            (true, BitwiseOperation::RotateRight) => Some(Instruction::I64Rotr),
        },
        SerializedInstructionView::Float { kind, is_64_bit } => match (is_64_bit, kind) {
            (false, FloatOperation::AbsoluteValue) => Some(Instruction::F32Abs),
            (false, FloatOperation::Negation) => Some(Instruction::F32Neg),
            (false, FloatOperation::Ceiling) => Some(Instruction::F32Ceil),
            (false, FloatOperation::Floor) => Some(Instruction::F32Floor),
            (false, FloatOperation::Truncate) => Some(Instruction::F32Trunc),
            (false, FloatOperation::Nearest) => Some(Instruction::F32Nearest),
            (false, FloatOperation::SquareRoot) => Some(Instruction::F32Sqrt),
            (false, FloatOperation::Minimum) => Some(Instruction::F32Min),
            (false, FloatOperation::Maximum) => Some(Instruction::F32Max),
            (false, FloatOperation::CopySign) => Some(Instruction::F32Copysign),
            (true, FloatOperation::AbsoluteValue) => Some(Instruction::F64Abs),
            (true, FloatOperation::Negation) => Some(Instruction::F64Neg),
            (true, FloatOperation::Ceiling) => Some(Instruction::F64Ceil),
            (true, FloatOperation::Floor) => Some(Instruction::F64Floor),
            (true, FloatOperation::Truncate) => Some(Instruction::F64Trunc),
            (true, FloatOperation::Nearest) => Some(Instruction::F64Nearest),
            (true, FloatOperation::SquareRoot) => Some(Instruction::F64Sqrt),
            (true, FloatOperation::Minimum) => Some(Instruction::F64Min),
            (true, FloatOperation::Maximum) => Some(Instruction::F64Max),
            (true, FloatOperation::CopySign) => Some(Instruction::F64Copysign),
        },
        SerializedInstructionView::Conversion(c) => Some(
            match c {
                NumericConversionKind::WrapInt => Instruction::I32WrapI64,
                NumericConversionKind::SignedTruncF32ToI32 => Instruction::I32TruncF32S,
                NumericConversionKind::UnsignedTruncF32ToI32 => Instruction::I32TruncF32U,
                NumericConversionKind::SignedTruncF64ToI32 => Instruction::I32TruncF64S,
                NumericConversionKind::UnsignedTruncF64ToI32 => Instruction::I32TruncF64U,
                NumericConversionKind::SignedExtend => Instruction::I64ExtendI32S,
                NumericConversionKind::UnsignedExtend => Instruction::I64ExtendI32U,
                NumericConversionKind::SignedTruncF32ToI64 => Instruction::I64TruncF32S,
                NumericConversionKind::UnsignedTruncF32ToI64 => Instruction::I64TruncF32U,
                NumericConversionKind::SignedTruncF64ToI64 => Instruction::I64TruncF64S,
                NumericConversionKind::UnsignedTruncF64ToI64 => Instruction::I64TruncF64U,
                NumericConversionKind::SignedConvertI32ToF32 => Instruction::F32ConvertI32S,
                NumericConversionKind::UnsignedConvertI32ToF32 => Instruction::F32ConvertI32U,
                NumericConversionKind::SignedConvertI64ToF32 => Instruction::F32ConvertI64S,
                NumericConversionKind::UnsignedConvertI64ToF32 => Instruction::F32ConvertI64U,
                NumericConversionKind::DemoteFloat => Instruction::F32DemoteF64,
                NumericConversionKind::SignedConvertI32ToF64 => Instruction::F64ConvertI32S,
                NumericConversionKind::UnsignedConvertI32ToF64 => Instruction::F64ConvertI32U,
                NumericConversionKind::SignedConvertI64ToF64 => Instruction::F64ConvertI64S,
                NumericConversionKind::UnsignedConvertI64ToF64 => Instruction::F64ConvertI64U,
                NumericConversionKind::PromoteFloat => Instruction::F64PromoteF32,
                NumericConversionKind::Reinterpret32FToI => Instruction::I32ReinterpretF32,
                NumericConversionKind::Reinterpret64FToI => Instruction::I64ReinterpretF64,
                NumericConversionKind::Reinterpret32IToF => Instruction::F32ReinterpretI32,
                NumericConversionKind::Reinterpret64IToF => Instruction::F64ReinterpretI64,
            },
        ),
        _ => None,
    }
}

#[verifier::rlimit(40)]
proof fn lemma_opcode_of_lowered(a: Instruction)
    requires
        is_plain(a),
        !(a is I32Const || a is I64Const || a is F32Const || a is F64Const),
    ensures
        lower(a) is Ok,
        opcode_of(lower(a)->Ok_0) == Some(a),
{
    if simple_instruction_of(a) is Some {
    } else if arithmetic_of(a) is Some {
    } else if comparison_of(a) is Some {
    } else if bitwise_of(a) is Some {
    } else if float_op_of(a) is Some {
    } else {
    }
}

/// Whether a normalized instruction is of a family that plain opcodes
/// lower to.
pub open spec fn is_plain_form(instruction: SerializedInstructionView) -> bool {
    instruction is Simple || instruction is Arithmetic || instruction is Comparison
        || instruction is Bitwise || instruction is Float || instruction is Conversion
        || instruction is Const
}

#[verifier::rlimit(40)]
proof fn lemma_plain_opcode_has_plain_form(a: Instruction)
    requires
        is_plain(a),
    ensures
        lower(a) is Ok,
        is_plain_form(lower(a)->Ok_0),
{
}

#[verifier::rlimit(40)]
proof fn lemma_plain_form_is_of_plain_opcode(b: Instruction)
    requires
        lower(b) is Ok,
        is_plain_form(lower(b)->Ok_0),
    ensures
        is_plain(b),
{
}

/// Lowering loses nothing of a plain opcode: no other opcode has the
/// normalized form of a plain one.
pub proof fn lemma_lowering_is_injective(a: Instruction, b: Instruction)
    requires
        is_plain(a),
        lower(a) == lower(b),
    ensures
        a == b,
{
    lemma_plain_opcode_has_plain_form(a);
    lemma_plain_form_is_of_plain_opcode(b);
    let a_const = a is I32Const || a is I64Const || a is F32Const || a is F64Const;
    let b_const = b is I32Const || b is I64Const || b is F32Const || b is F64Const;
    if a_const && b_const {
        match a {
            Instruction::I32Const(v) => {
                let w = b->I32Const_0;
                lemma_number_32_injective(bits_of_i32(v), bits_of_i32(w), SerializableWatType::I32);
            },
            Instruction::I64Const(v) => {
                let w = b->I64Const_0;
                lemma_number_64_injective(bits_of_i64(v), bits_of_i64(w), SerializableWatType::I64);
            },
            Instruction::F32Const(v) => {
                let w = b->F32Const_0;
                lemma_number_32_injective(v as nat, w as nat, SerializableWatType::F32);
            },
            Instruction::F64Const(v) => {
                let w = b->F64Const_0;
                lemma_number_64_injective(v as nat, w as nat, SerializableWatType::F64);
            },
            _ => {},
        }
    } else if a_const {
        lemma_opcode_of_lowered(b);
    } else if b_const {
        lemma_opcode_of_lowered(a);
    } else {
        lemma_opcode_of_lowered(a);
        lemma_opcode_of_lowered(b);
    }
}

/// Lowering is total but for signatures: it fails only on a block marker
/// or an indirect call whose signature has no normalized form.
pub proof fn lemma_lowering_fails_on_signatures_only(instruction: Instruction)
    ensures
        lower(instruction) is Err ==> match instruction {
            Instruction::Block(b) | Instruction::If(b) | Instruction::Loop(b) => lower(instruction)
                == Err::<SerializedInstructionView, WatErrorView>(
                InputOutput::of_type_use(b.ty)->Err_0,
            ) && InputOutput::of_type_use(b.ty) is Err,
            Instruction::CallIndirect(c) => lower(instruction) == Err::<
                SerializedInstructionView,
                WatErrorView,
            >(InputOutput::of_type_use(c.ty)->Err_0) && InputOutput::of_type_use(c.ty) is Err,
            _ => false,
        },
{
}

/// The numeric type that a normalized instruction carries, as the type
/// table gives it for the opcode it came from. A conversion counts under
/// its result type, but `i32.wrap_i64` under `I64`.
pub open spec fn type_carried(instruction: SerializedInstructionView) -> Option<
    SerializableWatType,
> {
    match instruction {
        SerializedInstructionView::Memory { typ, .. }
        | SerializedInstructionView::Const { typ, .. }
        | SerializedInstructionView::Comparison { typ, .. }
        | SerializedInstructionView::Arithmetic { typ, .. } => Some(typ),
        SerializedInstructionView::Bitwise { is_64_bit, .. } => Some(
            if is_64_bit {
                SerializableWatType::I64
            } else {
                SerializableWatType::I32
            },
        ),
        SerializedInstructionView::Float { is_64_bit, .. } => Some(
            if is_64_bit {
                SerializableWatType::F64
            } else {
                SerializableWatType::F32
            },
        ),
        SerializedInstructionView::Conversion(c) => Some(
            if c == NumericConversionKind::WrapInt {
                SerializableWatType::I64
            } else {
                c.target_type()
            },
        ),
        _ => None,
    }
}

#[verifier::rlimit(40)]
proof fn lemma_lowering_keeps_simple(instruction: Instruction)
    requires
        lower(instruction) is Ok,
    ensures
        simple_instruction_of(instruction) == match lower(instruction)->Ok_0 {
            SerializedInstructionView::Simple(s) => Some(s),
            _ => None,
        },
{
}

#[verifier::rlimit(40)]
proof fn lemma_lowering_keeps_block(instruction: Instruction)
    requires
        lower(instruction) is Ok,
    ensures
        block_kind_of(instruction) == match lower(instruction)->Ok_0 {
            SerializedInstructionView::Block { kind, .. } => Some(kind),
            _ => None,
        },
{
}

#[verifier::rlimit(40)]
proof fn lemma_lowering_keeps_data(instruction: Instruction)
    requires
        lower(instruction) is Ok,
    ensures
        data_instruction_of(instruction) == match lower(instruction)->Ok_0 {
            SerializedInstructionView::Data { kind, .. } => Some(kind),
            _ => None,
        },
{
}

#[verifier::rlimit(40)]
proof fn lemma_lowering_keeps_arithmetic(instruction: Instruction)
    requires
        lower(instruction) is Ok,
    ensures
        arithmetic_of(instruction) == match lower(instruction)->Ok_0 {
            SerializedInstructionView::Arithmetic { kind, .. } => Some(kind),
            _ => None,
        },
{
}

#[verifier::rlimit(40)]
proof fn lemma_lowering_keeps_comparison(instruction: Instruction)
    requires
        lower(instruction) is Ok,
    ensures
        comparison_of(instruction) == match lower(instruction)->Ok_0 {
            SerializedInstructionView::Comparison { kind, .. } => Some(kind),
            _ => None,
        },
{
}

#[verifier::rlimit(40)]
proof fn lemma_lowering_keeps_bitwise(instruction: Instruction)
    requires
        lower(instruction) is Ok,
    ensures
        bitwise_of(instruction) == match lower(instruction)->Ok_0 {
            SerializedInstructionView::Bitwise { kind, .. } => Some(kind),
            _ => None,
        },
{
}

#[verifier::rlimit(40)]
proof fn lemma_lowering_keeps_float(instruction: Instruction)
    requires
        lower(instruction) is Ok,
    ensures
        float_op_of(instruction) == match lower(instruction)->Ok_0 {
            SerializedInstructionView::Float { kind, .. } => Some(kind),
            _ => None,
        },
{
}

#[verifier::rlimit(40)]
proof fn lemma_lowering_keeps_cast(instruction: Instruction)
    requires
        lower(instruction) is Ok,
    ensures
        cast_kind_of(instruction) == match lower(instruction)->Ok_0 {
            SerializedInstructionView::Conversion(c) => Some(c),
            _ => None,
        },
{
}

#[verifier::rlimit(40)]
proof fn lemma_lowering_keeps_width(instruction: Instruction)
    requires
        lower(instruction) is Ok,
    ensures
        byte_count_of(instruction) == match lower(instruction)->Ok_0 {
            SerializedInstructionView::Memory { count, .. } => Some(count),
            _ => None,
        },
{
}

#[verifier::rlimit(40)]
proof fn lemma_lowering_keeps_store(instruction: Instruction)
    requires
        lower(instruction) is Ok,
    ensures
        is_store(instruction) == (lower(instruction)->Ok_0 matches SerializedInstructionView::Memory {
            is_storing,
            ..
        } && is_storing),
{
}

#[verifier::rlimit(40)]
proof fn lemma_lowering_keeps_type(instruction: Instruction)
    requires
        lower(instruction) is Ok,
    ensures
        !(lower(instruction)->Ok_0 is DefaultString) ==> data_type_of(instruction) == type_carried(
            lower(instruction)->Ok_0,
        ),
{
    if mem_arg_of(instruction) is Some {
    } else if arithmetic_of(instruction) is Some {
    } else if comparison_of(instruction) is Some {
    } else if bitwise_of(instruction) is Some {
    } else if float_op_of(instruction) is Some {
    } else if cast_kind_of(instruction) is Some {
    } else if simple_instruction_of(instruction) is Some {
    } else if data_instruction_of(instruction) is Some {
    } else {
    }
}

/// Nothing that the tables say of an opcode is lost in lowering: each
/// family tag, the access width and, for a supported opcode, the numeric
/// type can be read off the normalized form. So two opcodes that any
/// table tells apart have different normalized forms.
pub proof fn lemma_lowering_keeps_the_tables(instruction: Instruction)
    requires
        lower(instruction) is Ok,
    ensures
        simple_instruction_of(instruction) == match lower(instruction)->Ok_0 {
            SerializedInstructionView::Simple(s) => Some(s),
            _ => None,
        },
        block_kind_of(instruction) == match lower(instruction)->Ok_0 {
            SerializedInstructionView::Block { kind, .. } => Some(kind),
            _ => None,
        },
        data_instruction_of(instruction) == match lower(instruction)->Ok_0 {
            SerializedInstructionView::Data { kind, .. } => Some(kind),
            _ => None,
        },
        arithmetic_of(instruction) == match lower(instruction)->Ok_0 {
            SerializedInstructionView::Arithmetic { kind, .. } => Some(kind),
            _ => None,
        },
        comparison_of(instruction) == match lower(instruction)->Ok_0 {
            SerializedInstructionView::Comparison { kind, .. } => Some(kind),
            _ => None,
        },
        bitwise_of(instruction) == match lower(instruction)->Ok_0 {
            SerializedInstructionView::Bitwise { kind, .. } => Some(kind),
            _ => None,
        },
        float_op_of(instruction) == match lower(instruction)->Ok_0 {
            SerializedInstructionView::Float { kind, .. } => Some(kind),
            _ => None,
        },
        cast_kind_of(instruction) == match lower(instruction)->Ok_0 {
            SerializedInstructionView::Conversion(c) => Some(c),
            _ => None,
        },
        byte_count_of(instruction) == match lower(instruction)->Ok_0 {
            SerializedInstructionView::Memory { count, .. } => Some(count),
            _ => None,
        },
        is_store(instruction) == (lower(instruction)->Ok_0 matches SerializedInstructionView::Memory {
            is_storing,
            ..
        } && is_storing),
        !(lower(instruction)->Ok_0 is DefaultString) ==> data_type_of(instruction) == type_carried(
            lower(instruction)->Ok_0,
        ),
{
    lemma_lowering_keeps_simple(instruction);
    lemma_lowering_keeps_block(instruction);
    lemma_lowering_keeps_data(instruction);
    lemma_lowering_keeps_arithmetic(instruction);
    lemma_lowering_keeps_comparison(instruction);
    lemma_lowering_keeps_bitwise(instruction);
    lemma_lowering_keeps_float(instruction);
    lemma_lowering_keeps_cast(instruction);
    lemma_lowering_keeps_width(instruction);
    lemma_lowering_keeps_store(instruction);
    lemma_lowering_keeps_type(instruction);
}

} // verus!
