//! The assembled module: functions, globals, memories, data and exports,
//! gathered from the fields of a parsed module and validated.

use crate::error::WatError;
use crate::error::WatErrorView;
use crate::error::WatResult;
use crate::helper::bits_of_i64;
use crate::helper::number_32;
use crate::helper::number_64;
use crate::helper::optional_number;
use crate::helper::SerializedNumber;
use crate::helper::SerializedNumberView;
use crate::instruction::index_text;
use crate::instruction::index_to_string;
use crate::instruction::InputOutput;
use crate::instruction::InputOutputView;
use crate::instruction::label_text;
use crate::instruction::label_to_string;
use crate::instruction::lower_sequence;
use crate::instruction::names_of_variables;
use crate::instruction::SerializedInstruction;
use crate::instruction::SerializedInstructionView;
use crate::instruction::variable_names;
use crate::marker::NumLocationKind;
use crate::marker::SerializableWatType;
use crate::names::distinct;
use crate::names::find_repeated;
use crate::names::first_repeated;
use crate::names::has_name;
use crate::names::lemma_distinct_push;
use crate::names::lemma_first_repeated;
use crate::names::occurs;
use crate::syntax::Data;
use crate::syntax::DataKind;
use crate::syntax::DataVal;
use crate::syntax::Export;
use crate::syntax::ExportKind;
use crate::syntax::Func;
use crate::syntax::FuncKind;
use crate::syntax::Global;
use crate::syntax::GlobalKind;
use crate::syntax::Instruction;
use crate::syntax::Local;
use crate::syntax::Memory;
use crate::syntax::MemoryKind;
use crate::syntax::Module;
use crate::syntax::ModuleField;
use crate::syntax::ModuleKind;
use crate::syntax::ParseOutcome;
use crate::syntax::ValType;
use crate::syntax::Wat;
use crate::text::decimal;
use crate::text::usize_to_string;
use crate::tree::flatten;
use crate::tree::leaves_are_plain;
use crate::tree::lemma_assembled_tree_is_stable;
use crate::tree::SerializedInstructionNodeView;
use crate::tree::SerializedInstructionTree;
use crate::tree::tree_of;
use crate::validator::Catalog;
use crate::validator::find_key;
use crate::validator::function_verdict;
use crate::validator::lemma_find_key_bounds;
use crate::validator::ModuleContext;
use crate::validator::resolve_key;
use crate::validator::Validator;
use crate::views::lemma_deep_view_index;
use crate::views::lemma_deep_view_push;
use std::collections::HashMap;
use vstd::prelude::*;
use vstd::std_specs::convert::FromSpecImpl;
use vstd::string::StringExecFns;
use vstd::string::StrSliceExecFns;

verus! {

/// The number of bytes in a page of memory.
pub const PAGE_SIZE_AS_BYTES: u32 = 65536;

/// The value of an initializer: that of its one instruction, which has to
/// be a constant, of type `expected` where one is expected.
pub open spec fn const_value(
    instructions: Seq<SerializedInstructionView>,
    expected: Option<SerializableWatType>,
) -> Result<SerializedNumberView, WatErrorView> {
    if instructions.len() == 0 {
        Err(WatError::spec_no_instruction_provided("Const"@))
    } else if instructions.len() == 1 {
        match instructions[0] {
            SerializedInstructionView::Const { typ, value } => match expected {
                Some(wanted) => if wanted == typ {
                    Ok(value)
                } else {
                    Err(WatError::spec_type_error(wanted, typ))
                },
                None => Ok(value),
            },
            _ => Err(WatError::spec_non_initializer_expression()),
        }
    } else {
        Err(WatError::spec_non_initializer_expression())
    }
}

/// Evaluates an initializer expression.
pub fn const_eval_expr(
    instrs: &[SerializedInstruction],
    expected_type: Option<SerializableWatType>,
) -> (r: WatResult<SerializedNumber>)
    ensures
        match r {
            Ok(v) => const_value(instrs.deep_view(), expected_type) == Ok::<
                SerializedNumberView,
                WatErrorView,
            >(v.deep_view()),
            Err(e) => const_value(instrs.deep_view(), expected_type) == Err::<
                SerializedNumberView,
                WatErrorView,
            >(e.deep_view()),
        },
{
    if instrs.len() == 0 {
        return Err(WatError::no_instruction_provided("Const"));
    }
    if instrs.len() != 1 {
        return Err(WatError::non_initializer_expression());
    }
    match &instrs[0] {
        SerializedInstruction::Const { typ, value } => match expected_type {
            Some(wanted) => match wanted.try_type_match(typ) {
                Ok(()) => Ok(*value),
                Err(e) => Err(e),
            },
            None => Ok(*value),
        },
        _ => Err(WatError::non_initializer_expression()),
    }
}

/// A global of the module.
#[derive(Debug, Clone, PartialEq, Eq)]
pub struct GlobalData {
    /// The identifier; empty where the global has none.
    pub name: String,
    pub typ: SerializableWatType,
    pub is_mutable: bool,
    /// The initial value.
    pub val: SerializedNumber,
}

/// What a `GlobalData` holds.
pub struct GlobalDataView {
    pub name: Seq<char>,
    pub typ: SerializableWatType,
    pub is_mutable: bool,
    pub val: SerializedNumberView,
}

impl DeepView for GlobalData {
    type V = GlobalDataView;

    open spec fn deep_view(&self) -> GlobalDataView {
        GlobalDataView {
            name: self.name@,
            typ: self.typ,
            is_mutable: self.is_mutable,
            val: self.val.deep_view(),
        }
    }
}

impl GlobalData {
    /// The global with the given name, type and mutability, initialized by
    /// `instructions`.
    pub open spec fn with_initializer(
        name: Seq<char>,
        gtyp: SerializableWatType,
        is_mutable: bool,
        instructions: Seq<SerializedInstructionView>,
    ) -> Result<GlobalDataView, WatErrorView> {
        match const_value(instructions, Some(gtyp)) {
            Ok(val) => Ok(GlobalDataView { name, typ: gtyp, is_mutable, val }),
            Err(e) => Err(e),
        }
    }

    /// Makes a global; its initializer has to be one constant of its type.
    pub fn try_new(
        name: String,
        gtyp: SerializableWatType,
        is_mutable: bool,
        instructions: Vec<SerializedInstruction>,
    ) -> (r: WatResult<Self>)
        ensures
            match r {
                Ok(g) => Self::with_initializer(name@, gtyp, is_mutable, instructions.deep_view())
                    == Ok::<GlobalDataView, WatErrorView>(g.deep_view()),
                Err(e) => Self::with_initializer(name@, gtyp, is_mutable, instructions.deep_view())
                    == Err::<GlobalDataView, WatErrorView>(e.deep_view()),
            },
    {
        let slice = instructions.as_slice();
        proof {
            assert(slice.deep_view() =~= instructions.deep_view());
        }
        match const_eval_expr(slice, Some(gtyp)) {
            Ok(val) => Ok(GlobalData { name, typ: gtyp, is_mutable, val }),
            Err(e) => Err(e),
        }
    }
}

/// The bytes of a data segment or of one item of inline memory contents.
#[derive(Debug, Clone, PartialEq, Eq)]
pub struct DataValue {
    /// The identifier of the segment; empty where there is none.
    pub id: String,
    /// Whether the bytes were written as strings only.
    pub is_string: bool,
    pub data: Vec<u8>,
}

/// What a `DataValue` holds.
pub struct DataValueView {
    pub id: Seq<char>,
    pub is_string: bool,
    pub data: Seq<u8>,
}

impl DeepView for DataValue {
    type V = DataValueView;

    open spec fn deep_view(&self) -> DataValueView {
        DataValueView { id: self.id@, is_string: self.is_string, data: self.data@ }
    }
}

/// The bytes of one item of a data list.
pub open spec fn item_bytes(value: DataVal) -> Seq<u8> {
    match value {
        DataVal::String(s) => s@,
        DataVal::Integral(i) => i@,
    }
}

/// The bytes of a data list, one item after the other.
pub open spec fn all_bytes(values: Seq<DataVal>) -> Seq<u8>
    decreases values.len(),
{
    if values.len() == 0 {
        Seq::empty()
    } else {
        all_bytes(values.drop_last()) + item_bytes(values.last())
    }
}

/// Whether every item of a data list is a string.
pub open spec fn all_strings(values: Seq<DataVal>) -> bool {
    forall|i: int| 0 <= i < values.len() ==> values[i] is String
}

fn copy_bytes(bytes: &Vec<u8>) -> (r: Vec<u8>)
    ensures
        r@ == bytes@,
{
    let mut out: Vec<u8> = Vec::new();
    let mut i: usize = 0;
    while i < bytes.len()
        invariant
            i <= bytes.len(),
            out@ == bytes@.take(i as int),
        decreases bytes.len() - i,
    {
        out.push(bytes[i]);
        assert(out@ =~= bytes@.take(i + 1));
        i = i + 1;
    }
    assert(bytes@.take(bytes.len() as int) =~= bytes@);
    out
}

fn append_bytes(out: &mut Vec<u8>, bytes: &Vec<u8>)
    ensures
        final(out)@ == old(out)@ + bytes@,
{
    let mut i: usize = 0;
    assert(out@ =~= old(out)@ + bytes@.take(0));
    while i < bytes.len()
        invariant
            i <= bytes.len(),
            out@ == old(out)@ + bytes@.take(i as int),
        decreases bytes.len() - i,
    {
        out.push(bytes[i]);
        assert(out@ =~= old(out)@ + bytes@.take(i + 1));
        i = i + 1;
    }
    assert(bytes@.take(bytes.len() as int) =~= bytes@);
}

impl DataValue {
    /// The unnamed value that one item of a data list stands for.
    pub open spec fn of_item(value: DataVal) -> DataValueView {
        DataValueView {
            id: Seq::empty(),
            is_string: value is String,
            data: item_bytes(value),
        }
    }

    /// The value of one item of a data list.
    pub fn clone_from(value: &DataVal) -> (r: Self)
        ensures
            r.deep_view() == Self::of_item(*value),
    {
        proof {
            reveal_strlit("");
        }
        let id = String::from_str("");
        assert(id@ =~= Seq::empty());
        match value {
            DataVal::String(s) => DataValue { id, is_string: true, data: copy_bytes(s) },
            DataVal::Integral(i) => DataValue { id, is_string: false, data: copy_bytes(i) },
        }
    }

    /// The segment named `id` that a whole data list stands for.
    pub open spec fn of_list(id: Seq<char>, values: Seq<DataVal>) -> DataValueView {
        DataValueView { id, is_string: all_strings(values), data: all_bytes(values) }
    }

    /// The value of a whole data list under the name `id`.
    pub fn from_list(id: String, values: &Vec<DataVal>) -> (r: Self)
        ensures
            r.deep_view() == Self::of_list(id@, values@),
    {
        let mut data: Vec<u8> = Vec::new();
        let mut is_string = true;
        let mut i: usize = 0;
        proof {
            assert(values@.take(0) =~= Seq::empty());
        }
        while i < values.len()
            invariant
                i <= values.len(),
                data@ == all_bytes(values@.take(i as int)),
                is_string == all_strings(values@.take(i as int)),
            decreases values.len() - i,
        {
            let ghost before = values@.take(i as int);
            let ghost after = values@.take(i + 1);
            proof {
                assert(after.drop_last() =~= before);
                assert(after.last() == values@[i as int]);
            }
            match &values[i] {
                DataVal::String(s) => {
                    append_bytes(&mut data, s);
                },
                DataVal::Integral(b) => {
                    append_bytes(&mut data, b);
                    is_string = false;
                },
            }
            proof {
                if all_strings(after) {
                    assert forall|j: int| 0 <= j < before.len() implies before[j] is String by {
                        assert(before[j] == after[j]);
                    }
                    assert(after[i as int] is String);
                } else if all_strings(before) {
                    assert forall|j: int| 0 <= j < i implies after[j] is String by {
                        assert(before[j] == after[j]);
                    }
                    assert(!(after[i as int] is String));
                }
            }
            i = i + 1;
        }
        proof {
            assert(values@.take(values.len() as int) =~= values@);
        }
        DataValue { id, is_string, data }
    }

    /// A copy of the value.
    pub fn duplicate(&self) -> (r: Self)
        ensures
            r.deep_view() == self.deep_view(),
    {
        DataValue { id: self.id.clone(), is_string: self.is_string, data: copy_bytes(&self.data) }
    }
}

/// A memory of the module.
#[derive(Debug, Clone, PartialEq, Eq)]
pub struct MemoryData {
    /// The identifier; empty where the memory has none.
    pub name: String,
    /// The least number of pages.
    pub min: SerializedNumber,
    /// The greatest number of pages; zero of 32 bits where there is none.
    pub max: SerializedNumber,
    pub is_32: bool,
    pub is_shared: bool,
    /// The initial contents, by the offset at which each starts.
    pub data: HashMap<u32, DataValue>,
}

/// What a `MemoryData` holds.
pub struct MemoryDataView {
    pub name: Seq<char>,
    pub min: SerializedNumberView,
    pub max: SerializedNumberView,
    pub is_32: bool,
    pub is_shared: bool,
    pub data: Map<u32, DataValueView>,
}

/// The contents of a memory as a contract sees them.
pub open spec fn contents_view(data: Map<u32, DataValue>) -> Map<u32, DataValueView> {
    Map::new(|k: u32| data.contains_key(k), |k: u32| data[k].deep_view())
}

impl DeepView for MemoryData {
    type V = MemoryDataView;

    open spec fn deep_view(&self) -> MemoryDataView {
        MemoryDataView {
            name: self.name@,
            min: self.min.deep_view(),
            max: self.max.deep_view(),
            is_32: self.is_32,
            is_shared: self.is_shared,
            data: contents_view(self.data@),
        }
    }
}

fn no_contents() -> (r: HashMap<u32, DataValue>)
    ensures
        contents_view(r@) == Map::<u32, DataValueView>::empty(),
{
    broadcast use vstd::std_specs::hash::group_hash_axioms;

    let r: HashMap<u32, DataValue> = HashMap::new();
    assert(contents_view(r@) =~= Map::empty());
    r
}

fn insert_contents(contents: &mut HashMap<u32, DataValue>, offset: u32, item: DataValue)
    ensures
        contents_view(final(contents)@) == contents_view(old(contents)@).insert(
            offset,
            item.deep_view(),
        ),
{
    broadcast use vstd::std_specs::hash::group_hash_axioms;

    contents.insert(offset, item);
    assert(contents_view(contents@) =~= contents_view(old(contents)@).insert(
        offset,
        item.deep_view(),
    ));
}

impl MemoryData {
    /// The memory with the given limits, as signed page counts, and
    /// contents.
    pub fn new(
        name: String,
        min: i64,
        max: Option<i64>,
        is_32: bool,
        is_shared: bool,
        data: HashMap<u32, DataValue>,
    ) -> (r: Self)
        ensures
            r.deep_view() == (MemoryDataView {
                name: name@,
                min: number_64(bits_of_i64(min), SerializableWatType::I64),
                max: optional_number(max),
                is_32,
                is_shared,
                data: contents_view(data@),
            }),
    {
        MemoryData {
            name,
            min: SerializedNumber::from_i64(min),
            max: SerializedNumber::from_optional_i64(max),
            is_32,
            is_shared,
            data,
        }
    }
}

/// A function of the module.
#[derive(Debug, PartialEq, Eq)]
pub struct WastFunc {
    /// The signature. Its `index` names the function: the referenced type
    /// where the function refers to one, else the identifier of the
    /// function, else its position.
    pub info: InputOutput,
    pub locals: Vec<(Option<String>, SerializableWatType)>,
    pub block: SerializedInstructionTree,
}

/// What a `WastFunc` holds.
pub struct WastFuncView {
    pub info: InputOutputView,
    pub locals: Seq<(Option<Seq<char>>, SerializableWatType)>,
    pub block: Seq<SerializedInstructionNodeView>,
}

impl DeepView for WastFunc {
    type V = WastFuncView;

    open spec fn deep_view(&self) -> WastFuncView {
        WastFuncView {
            info: self.info.deep_view(),
            locals: self.locals.deep_view(),
            block: self.block.deep_view(),
        }
    }
}

impl WastFunc {
    /// The declared locals with their value types, if none has a
    /// reference type.
    pub open spec fn local_variables(locals: Seq<Local>) -> Option<
        Seq<(Option<Seq<char>>, SerializableWatType)>,
    > {
        if forall|i: int| 0 <= i < locals.len() ==> locals[i].ty != ValType::Ref {
            Some(
                Seq::new(
                    locals.len(),
                    |i: int|
                        (
                            locals[i].id.deep_view(),
                            SerializableWatType::of_val_type(locals[i].ty)->0,
                        ),
                ),
            )
        } else {
            None
        }
    }

    /// The function with the given signature, locals and body. Parameters
    /// and locals are the variables of the function: no two of them may
    /// carry the same identifier.
    pub open spec fn with_body(
        info: InputOutputView,
        locals: Seq<Local>,
        expression: Seq<Instruction>,
    ) -> Result<WastFuncView, WatErrorView> {
        match Self::local_variables(locals) {
            Some(variables) => match first_repeated(variable_names(info.input + variables)) {
                Some(name) => Err(WatError::spec_duplicate_name_error(name)),
                None => match tree_of(expression) {
                    Ok(block) => Ok(WastFuncView { info, locals: variables, block }),
                    Err(e) => Err(e),
                },
            },
            None => Err(WatError::spec_unimplemented_error("Cannot use Ref type"@)),
        }
    }

    fn convert_locals(locals: &[Local]) -> (r: WatResult<
        Vec<(Option<String>, SerializableWatType)>,
    >)
        ensures
            match r {
                Ok(v) => Self::local_variables(locals@) == Some(v.deep_view()),
                Err(e) => Self::local_variables(locals@) is None && e.deep_view()
                    == WatError::spec_unimplemented_error("Cannot use Ref type"@),
            },
    {
        let mut out: Vec<(Option<String>, SerializableWatType)> = Vec::new();
        let mut i: usize = 0;
        proof {
            assert(out.deep_view() =~= Self::local_variables(locals@.take(0))->0);
        }
        while i < locals.len()
            invariant
                i <= locals.len(),
                Self::local_variables(locals@.take(i as int)) == Some(out.deep_view()),
            decreases locals.len() - i,
        {
            let ghost before = locals@.take(i as int);
            let ghost after = locals@.take(i + 1);
            match SerializableWatType::try_from_val_type(locals[i].ty) {
                Ok(t) => {
                    let ghost old_out = out;
                    let item = (crate::instruction::copy_name(&locals[i].id), t);
                    out.push(item);
                    proof {
                        lemma_deep_view_push(old_out, out, item);
                        assert forall|j: int| 0 <= j < after.len() implies after[j].ty
                            != ValType::Ref by {
                            if j < i {
                                assert(before[j] == after[j]);
                            }
                        }
                        assert(out.deep_view() =~= Self::local_variables(after)->0) by {
                            assert forall|j: int| 0 <= j < i implies out.deep_view()[j]
                                == Self::local_variables(after)->0[j] by {
                                assert(before[j] == after[j]);
                                assert(old_out.deep_view()[j] == Self::local_variables(
                                    before,
                                )->0[j]);
                            }
                        }
                    }
                },
                Err(e) => {
                    return Err(e);
                },
            }
            i = i + 1;
        }
        proof {
            assert(locals@.take(locals.len() as int) =~= locals@);
        }
        Ok(out)
    }

    /// Makes a function from its signature, its declared locals and the
    /// instructions of its body.
    pub fn try_new(info: InputOutput, locals: &[Local], expression: &[Instruction]) -> (r:
        WatResult<Self>)
        ensures
            match r {
                Ok(f) => Self::with_body(info.deep_view(), locals@, expression@) == Ok::<
                    WastFuncView,
                    WatErrorView,
                >(f.deep_view()),
                Err(e) => Self::with_body(info.deep_view(), locals@, expression@) == Err::<
                    WastFuncView,
                    WatErrorView,
                >(e.deep_view()),
            },
    {
        let locals = match Self::convert_locals(locals) {
            Ok(v) => v,
            Err(e) => {
                return Err(e);
            },
        };
        let params = info.input.as_slice();
        let variables = locals.as_slice();
        let mut names = names_of_variables(params);
        let mut local_names = names_of_variables(variables);
        proof {
            assert(params.deep_view() =~= info.input.deep_view());
            assert(variables.deep_view() =~= locals.deep_view());
            lemma_deep_view_index(names);
            lemma_deep_view_index(local_names);
        }
        let ghost first = names;
        let ghost second = local_names;
        names.append(&mut local_names);
        proof {
            lemma_deep_view_index(names);
            let all = info.deep_view().input + locals.deep_view();
            assert forall|i: int| 0 <= i < names@.len() implies names.deep_view()[i]
                == variable_names(all)[i] by {
                if i < first@.len() {
                    assert(names@[i] == first@[i]);
                    assert(first.deep_view()[i] == all[i].0);
                } else {
                    assert(names@[i] == second@[i - first@.len()]);
                    assert(second.deep_view()[i - first@.len()] == all[i].0);
                }
            }
            assert(names.deep_view() =~= variable_names(all));
        }
        match find_repeated(&names) {
            Some(name) => {
                return Err(WatError::duplicate_name_error(name.as_str()));
            },
            None => {},
        }
        match SerializedInstructionTree::try_from_instruction(expression) {
            Ok(block) => Ok(WastFunc { info, locals, block }),
            Err(e) => Err(e),
        }
    }

    /// The function that a `func` field declares. An imported function is
    /// unimplemented.
    pub open spec fn of_func(value: Func) -> Result<WastFuncView, WatErrorView> {
        match InputOutput::of_type_use(value.ty) {
            Ok(signature) => {
                let info = InputOutputView {
                    index: if signature.index is None {
                        value.id.deep_view()
                    } else {
                        signature.index
                    },
                    ..signature
                };
                match value.kind {
                    FuncKind::Import => Err(
                        WatError::spec_unimplemented_error(
                            "Import functions are not supported yet."@,
                        ),
                    ),
                    FuncKind::Inline { locals, expression } => Self::with_body(
                        info,
                        locals@,
                        expression@,
                    ),
                }
            },
            Err(e) => Err(e),
        }
    }

    /// Makes the function that a `func` field declares.
    pub fn try_from_func(value: &Func) -> (r: WatResult<Self>)
        ensures
            match r {
                Ok(f) => Self::of_func(*value) == Ok::<WastFuncView, WatErrorView>(f.deep_view()),
                Err(e) => Self::of_func(*value) == Err::<WastFuncView, WatErrorView>(
                    e.deep_view(),
                ),
            },
    {
        let mut info = match InputOutput::try_from_type_use(&value.ty) {
            Ok(v) => v,
            Err(e) => {
                return Err(e);
            },
        };
        match &value.id {
            Some(id) => {
                info.set_name_if_none(id.as_str());
            },
            None => {},
        }
        match &value.kind {
            FuncKind::Import => Err(
                WatError::unimplemented_error("Import functions are not supported yet."),
            ),
            FuncKind::Inline { locals, expression } => Self::try_new(
                info,
                locals.as_slice(),
                expression.as_slice(),
            ),
        }
    }

    /// A copy of the function.
    pub fn duplicate(&self) -> (r: Self)
        ensures
            r.deep_view() == self.deep_view(),
    {
        let info = self.info.duplicate();
        let variables = self.locals.as_slice();
        let mut locals: Vec<(Option<String>, SerializableWatType)> = Vec::new();
        let mut i: usize = 0;
        proof {
            assert(locals.deep_view() =~= self.locals.deep_view().take(0));
        }
        while i < variables.len()
            invariant
                i <= variables.len(),
                variables@ == self.locals@,
                locals.deep_view() == self.locals.deep_view().take(i as int),
            decreases variables.len() - i,
        {
            let ghost before = locals;
            let item = (crate::instruction::copy_name(&variables[i].0), variables[i].1);
            locals.push(item);
            proof {
                lemma_deep_view_push(before, locals, item);
                lemma_deep_view_index(self.locals);
                assert(locals.deep_view() =~= self.locals.deep_view().take(i + 1));
            }
            i = i + 1;
        }
        proof {
            assert(self.locals.deep_view().take(variables.len() as int)
                =~= self.locals.deep_view());
        }
        WastFunc { info, locals, block: self.block.duplicate() }
    }

    /// Names the function by its position.
    pub fn set_name_from_number(&mut self, index: usize)
        ensures
            final(self).deep_view() == (WastFuncView {
                info: InputOutputView {
                    index: Some(decimal(index as nat)),
                    ..old(self).deep_view().info
                },
                ..old(self).deep_view()
            }),
    {
        self.info.index = Some(usize_to_string(index));
    }

    /// The name of the function.
    pub fn name(&self) -> (r: Option<String>)
        ensures
            r.deep_view() == self.deep_view().info.index,
    {
        crate::instruction::copy_name(&self.info.index)
    }
}

/// The module: what its fields declare, in source order.
#[derive(Debug, PartialEq, Eq)]
pub struct InterpreterStructure {
    /// The identifier of the module; empty where it has none.
    pub name: String,
    /// The exports: each name once, with the kind and position of what it
    /// exports.
    pub exported: Vec<(String, (NumLocationKind, u32))>,
    pub globals: Vec<GlobalData>,
    pub memory: Vec<MemoryData>,
    /// The passive data segments.
    pub free_data: Vec<DataValue>,
    pub func: Vec<WastFunc>,
    /// The start function, if one is declared.
    pub start: Option<String>,
}

/// What an `InterpreterStructure` holds.
pub struct InterpreterStructureView {
    pub name: Seq<char>,
    pub exported: Seq<(Seq<char>, (NumLocationKind, u32))>,
    pub globals: Seq<GlobalDataView>,
    pub memory: Seq<MemoryDataView>,
    pub free_data: Seq<DataValueView>,
    pub func: Seq<WastFuncView>,
    pub start: Option<Seq<char>>,
}

impl DeepView for InterpreterStructure {
    type V = InterpreterStructureView;

    open spec fn deep_view(&self) -> InterpreterStructureView {
        InterpreterStructureView {
            name: self.name@,
            exported: self.exported.deep_view(),
            globals: self.globals.deep_view(),
            memory: self.memory.deep_view(),
            free_data: self.free_data.deep_view(),
            func: self.func.deep_view(),
            start: self.start.deep_view(),
        }
    }
}

/// The name under which an item may be referred to: none where the
/// identifier is empty.
pub open spec fn optional_name(name: Seq<char>) -> Option<Seq<char>> {
    if name.len() == 0 {
        None
    } else {
        Some(name)
    }
}

impl InterpreterStructureView {
    /// The module without anything in it.
    pub open spec fn empty(name: Seq<char>) -> InterpreterStructureView {
        InterpreterStructureView {
            name,
            exported: Seq::empty(),
            globals: Seq::empty(),
            memory: Seq::empty(),
            free_data: Seq::empty(),
            func: Seq::empty(),
            start: None,
        }
    }

    /// What the instructions of the module may refer to.
    pub open spec fn context(self) -> ModuleContext {
        ModuleContext {
            globals: Catalog {
                names: Seq::new(self.globals.len(), |i: int| optional_name(self.globals[i].name)),
                values: Seq::new(
                    self.globals.len(),
                    |i: int| (self.globals[i].is_mutable, self.globals[i].typ),
                ),
            },
            memories: Catalog {
                names: Seq::new(self.memory.len(), |i: int| optional_name(self.memory[i].name)),
                values: Seq::new(self.memory.len(), |i: int| ()),
            },
            functions: Catalog {
                names: Seq::new(self.func.len(), |i: int| self.func[i].info.index),
                values: Seq::new(
                    self.func.len(),
                    |i: int| (self.func[i].info.input_types(), self.func[i].info.output),
                ),
            },
        }
    }

    /// The verdict on the functions from position `from` on: the first
    /// fault of the first function that has one.
    pub open spec fn functions_verdict(self, from: int) -> Result<(), WatErrorView>
        decreases self.func.len() - from,
    {
        if from < 0 || from >= self.func.len() {
            Ok(())
        } else {
            let f = self.func[from];
            match function_verdict(
                self.context(),
                flatten(f.block),
                f.info.input,
                f.locals,
                f.info.output,
            ) {
                Ok(()) => self.functions_verdict(from + 1),
                Err(e) => Err(e),
            }
        }
    }

    /// The verdict on the module: that on its functions, in order.
    pub open spec fn verdict(self) -> Result<(), WatErrorView> {
        self.functions_verdict(0)
    }
}

impl InterpreterStructure {
    /// Validates every function of the module, in order.
    pub fn validate(&self) -> (r: WatResult<()>)
        ensures
            match r {
                Ok(()) => self.deep_view().verdict() == Ok::<(), WatErrorView>(()),
                Err(e) => self.deep_view().verdict() == Err::<(), WatErrorView>(e.deep_view()),
            },
    {
        let mut validator = Validator::new(self);
        let mut i: usize = 0;
        proof {
            lemma_deep_view_index(self.func);
        }
        while i < self.func.len()
            invariant
                i <= self.func.len(),
                self.deep_view().func.len() == self.func.len(),
                validator.context() == self.deep_view().context(),
                self.deep_view().verdict() == self.deep_view().functions_verdict(i as int),
            decreases self.func.len() - i,
        {
            proof {
                lemma_deep_view_index(self.func);
            }
            let f = &self.func[i];
            let flat = f.block.flatten();
            let body = flat.as_slice();
            let params = f.info.input.as_slice();
            let locals = f.locals.as_slice();
            let results = f.info.output.as_slice();
            proof {
                assert(body.deep_view() =~= flat.deep_view());
                assert(params.deep_view() =~= f.info.input.deep_view());
                assert(locals.deep_view() =~= f.locals.deep_view());
            }
            match validator.validate_function(body, params, locals, results) {
                Ok(()) => {},
                Err(e) => {
                    return Err(e);
                },
            }
            i = i + 1;
        }
        Ok(())
    }
}

/// The position of an item as an export records it: the position itself,
/// or the largest 32-bit number where the position is past it.
pub open spec fn position(n: nat) -> u32 {
    if n <= u32::MAX {
        n as u32
    } else {
        u32::MAX
    }
}

fn position_of(n: usize) -> (r: u32)
    ensures
        r == position(n as nat),
{
    if n <= u32::MAX as usize {
        n as u32
    } else {
        u32::MAX
    }
}

/// Whether a name is exported already.
pub open spec fn is_exported(
    exported: Seq<(Seq<char>, (NumLocationKind, u32))>,
    name: Seq<char>,
) -> bool {
    exists|i: int| 0 <= i < exported.len() && (#[trigger] exported[i]).0 == name
}

/// The exports with one more; a name may be exported once only.
pub open spec fn add_export(
    exported: Seq<(Seq<char>, (NumLocationKind, u32))>,
    name: Seq<char>,
    kind: NumLocationKind,
    index: u32,
) -> Result<Seq<(Seq<char>, (NumLocationKind, u32))>, WatErrorView> {
    if is_exported(exported, name) {
        Err(WatError::spec_duplicate_name_error(name))
    } else {
        Ok(exported.push((name, (kind, index))))
    }
}

/// The exports with the inline exports of one item, in order.
pub open spec fn add_exports(
    exported: Seq<(Seq<char>, (NumLocationKind, u32))>,
    names: Seq<String>,
    kind: NumLocationKind,
    index: u32,
) -> Result<Seq<(Seq<char>, (NumLocationKind, u32))>, WatErrorView>
    decreases names.len(),
{
    if names.len() == 0 {
        Ok(exported)
    } else {
        match add_exports(exported, names.drop_last(), kind, index) {
            Ok(so_far) => add_export(so_far, names.last()@, kind, index),
            Err(e) => Err(e),
        }
    }
}

/// The unsigned 64-bit number of pages as a limit records it.
pub open spec fn page_limit(pages: Option<u64>) -> SerializedNumberView {
    match pages {
        Some(v) => number_64(v as nat, SerializableWatType::I64),
        None => number_32(0, SerializableWatType::I32),
    }
}

/// Inline memory contents laid out from offset 0: the number of bytes,
/// and each item under the offset at which it starts. Of two items that
/// start at one offset the later stays.
pub open spec fn inline_layout(values: Seq<DataVal>) -> (nat, Map<u32, DataValueView>)
    decreases values.len(),
{
    if values.len() == 0 {
        (0, Map::empty())
    } else {
        let (offset, contents) = inline_layout(values.drop_last());
        (
            offset + item_bytes(values.last()).len(),
            contents.insert(offset as u32, DataValue::of_item(values.last())),
        )
    }
}

/// The number of pages that hold `bytes` bytes.
pub open spec fn pages_for(bytes: nat) -> nat {
    bytes / 65536 + if bytes % 65536 != 0 {
        1nat
    } else {
        0nat
    }
}

impl MemoryData {
    /// The memory that a `memory` field declares. An imported memory is
    /// unimplemented; inline contents have to fit in 32 bits of offsets.
    pub open spec fn of_memory(value: Memory) -> Result<MemoryDataView, WatErrorView> {
        let name = label_text(value.id);
        match value.kind {
            MemoryKind::Import => Err(
                WatError::spec_unimplemented_error("Imported memory not yet implemented."@),
            ),
            MemoryKind::Normal { is_32, min, max, shared } => Ok(
                MemoryDataView {
                    name,
                    min: number_64(min as nat, SerializableWatType::I64),
                    max: page_limit(max),
                    is_32,
                    is_shared: shared,
                    data: Map::empty(),
                },
            ),
            MemoryKind::Inline { is_32, data } => {
                let (bytes, contents) = inline_layout(data@);
                if bytes > u32::MAX {
                    Err(WatError::spec_number_to_large())
                } else {
                    Ok(
                        MemoryDataView {
                            name,
                            min: number_64(0, SerializableWatType::I64),
                            max: number_64(pages_for(bytes), SerializableWatType::I64),
                            is_32,
                            is_shared: false,
                            data: contents,
                        },
                    )
                }
            },
        }
    }

    /// Makes the memory that a `memory` field declares.
    pub fn try_from_memory(value: &Memory) -> (r: WatResult<Self>)
        ensures
            match r {
                Ok(m) => Self::of_memory(*value) == Ok::<MemoryDataView, WatErrorView>(
                    m.deep_view(),
                ),
                Err(e) => Self::of_memory(*value) == Err::<MemoryDataView, WatErrorView>(
                    e.deep_view(),
                ),
            },
    {
        let name = label_to_string(&value.id);
        match &value.kind {
            MemoryKind::Import => Err(
                WatError::unimplemented_error("Imported memory not yet implemented."),
            ),
            MemoryKind::Normal { is_32, min, max, shared } => {
                let max = match max {
                    Some(v) => Some(reinterpret(*v)),
                    None => None,
                };
                Ok(MemoryData::new(name, reinterpret(*min), max, *is_32, *shared, no_contents()))
            },
            MemoryKind::Inline { is_32, data } => match lay_out(data) {
                Some((bytes, contents)) => {
                    let pages = bytes / PAGE_SIZE_AS_BYTES + if bytes % PAGE_SIZE_AS_BYTES != 0 {
                        1
                    } else {
                        0
                    };
                    Ok(MemoryData::new(name, 0, Some(pages as i64), *is_32, false, contents))
                },
                None => Err(WatError::number_to_large()),
            },
        }
    }
}

fn lay_out(data: &Vec<DataVal>) -> (r: Option<(u32, HashMap<u32, DataValue>)>)
    ensures
        match r {
            Some((bytes, contents)) => bytes == inline_layout(data@).0 && contents_view(contents@)
                == inline_layout(data@).1,
            None => inline_layout(data@).0 > u32::MAX,
        },
{
    let mut contents = no_contents();
    let mut offset: u32 = 0;
    let mut i: usize = 0;
    proof {
        assert(data@.take(0) =~= Seq::empty());
    }
    while i < data.len()
        invariant
            i <= data.len(),
            offset == inline_layout(data@.take(i as int)).0,
            contents_view(contents@) == inline_layout(data@.take(i as int)).1,
        decreases data.len() - i,
    {
        let ghost before = data@.take(i as int);
        let ghost after = data@.take(i + 1);
        let ghost so_far = inline_layout(before);
        proof {
            assert(after.drop_last() =~= before);
            assert(after.last() == data@[i as int]);
            assert(inline_layout(after) == (
                so_far.0 + item_bytes(after.last()).len(),
                so_far.1.insert(so_far.0 as u32, DataValue::of_item(after.last())),
            ));
        }
        let item = DataValue::clone_from(&data[i]);
        let size = item.data.len();
        if size > (u32::MAX - offset) as usize {
            proof {
                lemma_layout_grows(data@, i + 1);
            }
            return None;
        }
        insert_contents(&mut contents, offset, item);
        offset = offset + size as u32;
        i = i + 1;
    }
    proof {
        assert(data@.take(data.len() as int) =~= data@);
    }
    Some((offset, contents))
}

proof fn lemma_layout_grows(values: Seq<DataVal>, n: int)
    requires
        0 <= n <= values.len(),
    ensures
        inline_layout(values.take(n)).0 <= inline_layout(values).0,
    decreases values.len() - n,
{
    if n < values.len() {
        assert(values.take(n + 1).drop_last() =~= values.take(n));
        lemma_layout_grows(values, n + 1);
    } else {
        assert(values.take(n) =~= values);
    }
}

fn reinterpret(v: u64) -> (r: i64)
    ensures
        bits_of_i64(r) == v,
{
    if v <= i64::MAX as u64 {
        v as i64
    } else {
        ((v - 0x8000_0000_0000_0000) as i64) + i64::MIN
    }
}

impl InterpreterStructureView {
    /// The names under which the functions may be referred to.
    pub open spec fn function_names(self) -> Seq<Option<Seq<char>>> {
        self.context().functions.names
    }

    /// The names under which the globals may be referred to.
    pub open spec fn global_names(self) -> Seq<Option<Seq<char>>> {
        self.context().globals.names
    }

    /// The names under which the memories may be referred to.
    pub open spec fn memory_names(self) -> Seq<Option<Seq<char>>> {
        self.context().memories.names
    }

    /// The fault of declaring a global or memory under an identifier that
    /// another one carries already.
    pub open spec fn identifier_taken(names: Seq<Option<Seq<char>>>, id: Option<String>) -> Option<
        WatErrorView,
    > {
        match id {
            Some(name) => if name@.len() > 0 && occurs(names, name@) {
                Some(WatError::spec_duplicate_name_error(name@))
            } else {
                None
            },
            None => None,
        }
    }

    /// The module with the global of a `global` field: its identifier has
    /// to be new among the globals; then come its inline exports, then the
    /// global, whose initializer has to be one constant of its type. An
    /// imported global is unimplemented.
    pub open spec fn add_global(self, value: Global) -> Result<
        InterpreterStructureView,
        WatErrorView,
    > {
        if let Some(e) = Self::identifier_taken(self.global_names(), value.id) {
            Err(e)
        } else {
            self.add_new_global(value)
        }
    }

    /// The module with a global whose identifier is new.
    pub open spec fn add_new_global(self, value: Global) -> Result<
        InterpreterStructureView,
        WatErrorView,
    > {
        match add_exports(
            self.exported,
            value.exports@,
            NumLocationKind::Global,
            position(self.globals.len()),
        ) {
            Ok(exported) => match value.kind {
                GlobalKind::Import => Err(
                    WatError::spec_unimplemented_error("Imported globals not yet implemented."@),
                ),
                GlobalKind::Inline(instructions) => match SerializableWatType::of_val_type(
                    value.ty,
                ) {
                    Some(typ) => match lower_sequence(instructions@) {
                        Ok(flat) => match GlobalData::with_initializer(
                            label_text(value.id),
                            typ,
                            value.mutable,
                            flat,
                        ) {
                            Ok(global) => Ok(
                                InterpreterStructureView {
                                    exported,
                                    globals: self.globals.push(global),
                                    ..self
                                },
                            ),
                            Err(e) => Err(e),
                        },
                        Err(e) => Err(e),
                    },
                    None => Err(WatError::spec_unimplemented_error("Cannot use Ref type"@)),
                },
            },
            Err(e) => Err(e),
        }
    }

    /// The module with the function of a `func` field: its inline exports
    /// first, then the function, named by its position where it has no
    /// name.
    pub open spec fn add_func(self, value: Func) -> Result<
        InterpreterStructureView,
        WatErrorView,
    > {
        match add_exports(
            self.exported,
            value.exports@,
            NumLocationKind::Function,
            position(self.func.len()),
        ) {
            Ok(exported) => match WastFunc::of_func(value) {
                Ok(function) => {
                    let named = if function.info.index is None {
                        WastFuncView {
                            info: InputOutputView {
                                index: Some(decimal(self.func.len())),
                                ..function.info
                            },
                            ..function
                        }
                    } else {
                        function
                    };
                    Ok(InterpreterStructureView { exported, func: self.func.push(named), ..self })
                },
                Err(e) => Err(e),
            },
            Err(e) => Err(e),
        }
    }

    /// The module with the memory of a `memory` field: its identifier has
    /// to be new among the memories; then come its inline exports, then
    /// the memory.
    pub open spec fn add_memory(self, value: Memory) -> Result<
        InterpreterStructureView,
        WatErrorView,
    > {
        if let Some(e) = Self::identifier_taken(self.memory_names(), value.id) {
            Err(e)
        } else {
            self.add_new_memory(value)
        }
    }

    /// The module with a memory whose identifier is new.
    pub open spec fn add_new_memory(self, value: Memory) -> Result<
        InterpreterStructureView,
        WatErrorView,
    > {
        match add_exports(
            self.exported,
            value.exports@,
            NumLocationKind::Memory,
            position(self.memory.len()),
        ) {
            Ok(exported) => match MemoryData::of_memory(value) {
                Ok(memory) => Ok(
                    InterpreterStructureView { exported, memory: self.memory.push(memory), ..self },
                ),
                Err(e) => Err(e),
            },
            Err(e) => Err(e),
        }
    }

    /// The module with the segment of a `data` field. A passive segment
    /// joins the free data. An active one goes into its memory, which has
    /// to be declared already, at the offset that its offset expression,
    /// one constant, gives as an unsigned 32-bit number.
    pub open spec fn add_data(self, value: Data) -> Result<
        InterpreterStructureView,
        WatErrorView,
    > {
        let segment = DataValue::of_list(label_text(value.id), value.data@);
        match value.kind {
            DataKind::Passive => Ok(
                InterpreterStructureView { free_data: self.free_data.push(segment), ..self },
            ),
            DataKind::Active { memory, offset } => match find_key(
                self.memory_names(),
                index_text(memory),
            ) {
                Some(target) => match lower_sequence(offset@) {
                    Ok(flat) => match const_value(flat, None) {
                        Ok(number) => match SerializedNumber::as_u32(number) {
                            Some(at) => Ok(
                                InterpreterStructureView {
                                    memory: self.memory.update(
                                        target,
                                        MemoryDataView {
                                            data: self.memory[target].data.insert(at, segment),
                                            ..self.memory[target]
                                        },
                                    ),
                                    ..self
                                },
                            ),
                            None => Err(WatError::spec_number_to_large()),
                        },
                        Err(e) => Err(e),
                    },
                    Err(e) => Err(e),
                },
                None => Err(
                    WatError::spec_unimplemented_error(
                        "Currently cannot add data to memory not already defined: memory "@
                            + index_text(memory) + " is not defined at this point"@,
                    ),
                ),
            },
        }
    }

    /// The module with the export of an `export` field: the item that the
    /// reference denotes among the functions, memories or globals declared
    /// so far. Tables and tags are unimplemented.
    pub open spec fn add_export_field(self, value: Export) -> Result<
        InterpreterStructureView,
        WatErrorView,
    > {
        let (names, kind) = match value.kind {
            ExportKind::Func => (self.function_names(), NumLocationKind::Function),
            ExportKind::Memory => (self.memory_names(), NumLocationKind::Memory),
            _ => (self.global_names(), NumLocationKind::Global),
        };
        match value.kind {
            ExportKind::Table => Err(
                WatError::spec_unimplemented_error("Export Tables not implemented"@),
            ),
            ExportKind::Tag => Err(
                WatError::spec_unimplemented_error("Export Tags not implemented"@),
            ),
            _ => match find_key(names, index_text(value.item)) {
                Some(i) => match add_export(self.exported, value.name@, kind, position(i as nat)) {
                    Ok(exported) => Ok(InterpreterStructureView { exported, ..self }),
                    Err(e) => Err(e),
                },
                None => Err(WatError::spec_name_resolution_error(index_text(value.item), kind)),
            },
        }
    }

    /// The module with one more field.
    pub open spec fn add_field(self, field: ModuleField) -> Result<
        InterpreterStructureView,
        WatErrorView,
    > {
        match field {
            ModuleField::Func(f) => self.add_func(f),
            ModuleField::Global(g) => self.add_global(g),
            ModuleField::Memory(m) => self.add_memory(m),
            ModuleField::Data(d) => self.add_data(d),
            ModuleField::Export(e) => self.add_export_field(e),
            ModuleField::Start(s) => Ok(
                InterpreterStructureView { start: Some(index_text(s)), ..self },
            ),
            ModuleField::Import => Err(
                WatError::spec_unimplemented_error("Import field not implemented"@),
            ),
            ModuleField::Type => Err(
                WatError::spec_unimplemented_error("Type field not implemented"@),
            ),
            ModuleField::Rec => Err(WatError::spec_unimplemented_error("Rec field not implemented"@)),
            ModuleField::Table => Err(
                WatError::spec_unimplemented_error("Table field not implemented"@),
            ),
            ModuleField::Elem => Err(
                WatError::spec_unimplemented_error("Element field not implemented"@),
            ),
            ModuleField::Tag => Err(WatError::spec_unimplemented_error("Tag field not implemented"@)),
            ModuleField::Custom => Err(
                WatError::spec_unimplemented_error("Custom field not implemented"@),
            ),
        }
    }

    /// The module with the given fields added in order, or the first fault.
    pub open spec fn add_fields(self, fields: Seq<ModuleField>) -> Result<
        InterpreterStructureView,
        WatErrorView,
    >
        decreases fields.len(),
    {
        if fields.len() == 0 {
            Ok(self)
        } else {
            match self.add_field(fields.first()) {
                Ok(next) => next.add_fields(fields.drop_first()),
                Err(e) => Err(e),
            }
        }
    }
}

/// The module that the fields of a parsed module declare, if it is valid.
pub open spec fn module_of(fields: Seq<ModuleField>, name: Option<String>) -> Result<
    InterpreterStructureView,
    WatErrorView,
> {
    match InterpreterStructureView::empty(label_text(name)).add_fields(fields) {
        Ok(structure) => match structure.verdict() {
            Ok(()) => Ok(structure),
            Err(e) => Err(e),
        },
        Err(e) => Err(e),
    }
}

/// What a source text comes to: the diagnostic of the parser, or the
/// module that was parsed, lowered, assembled and validated. A fault of
/// name resolution goes before any fault of the module itself.
pub open spec fn transform_outcome(parsed: ParseOutcome) -> Result<
    InterpreterStructureView,
    WatErrorView,
> {
    match parsed {
        ParseOutcome::Failed(failure) => Err(
            WatError::spec_parsing_error(failure.offset, failure.message@),
        ),
        ParseOutcome::Parsed { wat, resolution } => match wat {
            Wat::Component => Err(
                WatError::spec_unimplemented_error("Cannot compile components currently."@),
            ),
            Wat::Module(module) => match resolution {
                Some(failure) => Err(
                    WatError::spec_resolution_error(failure.offset, failure.message@),
                ),
                None => match module.kind {
                    ModuleKind::Text(fields) => module_of(fields@, module.id),
                    ModuleKind::Binary => Err(
                        WatError::spec_unimplemented_error(
                            "Unimplemented Error: Cannot binary type currently."@,
                        ),
                    ),
                },
            },
        },
    }
}

fn exported_has(exported: &Vec<(String, (NumLocationKind, u32))>, name: &String) -> (r: bool)
    ensures
        r == is_exported(exported.deep_view(), name@),
{
    proof {
        lemma_deep_view_index(*exported);
    }
    let mut i: usize = 0;
    while i < exported.len()
        invariant
            i <= exported.len(),
            exported.deep_view().len() == exported.len(),
            forall|j: int| 0 <= j < i ==> (#[trigger] exported.deep_view()[j]).0 != name@,
        decreases exported.len() - i,
    {
        proof {
            lemma_deep_view_index(*exported);
        }
        if exported[i].0 == *name {
            assert(exported.deep_view()[i as int].0 == name@);
            return true;
        }
        i = i + 1;
    }
    false
}

fn identifier_fault(names: &Vec<Option<String>>, id: &Option<String>) -> (r: Option<WatError>)
    ensures
        r.deep_view() == InterpreterStructureView::identifier_taken(names.deep_view(), *id),
{
    match id {
        Some(name) => {
            if name.as_str().unicode_len() > 0 && has_name(names, name) {
                Some(WatError::duplicate_name_error(name.as_str()))
            } else {
                None
            }
        },
        None => None,
    }
}

fn names_of_globals(globals: &Vec<GlobalData>) -> (r: Vec<Option<String>>)
    ensures
        r.deep_view() == Seq::new(
            globals.deep_view().len(),
            |i: int| optional_name(globals.deep_view()[i].name),
        ),
{
    let ghost want = Seq::new(
        globals.deep_view().len(),
        |i: int| optional_name(globals.deep_view()[i].name),
    );
    let mut out: Vec<Option<String>> = Vec::new();
    let mut i: usize = 0;
    proof {
        lemma_deep_view_index(*globals);
        assert(out.deep_view() =~= want.take(0));
    }
    while i < globals.len()
        invariant
            i <= globals.len(),
            want.len() == globals.len(),
            want == Seq::new(
                globals.deep_view().len(),
                |i: int| optional_name(globals.deep_view()[i].name),
            ),
            out.deep_view() == want.take(i as int),
        decreases globals.len() - i,
    {
        let ghost before = out;
        let name = if globals[i].name.as_str().unicode_len() == 0 {
            None
        } else {
            Some(globals[i].name.clone())
        };
        out.push(name);
        proof {
            lemma_deep_view_index(*globals);
            lemma_deep_view_push(before, out, name);
            assert(out.deep_view() =~= want.take(i + 1));
        }
        i = i + 1;
    }
    proof {
        assert(want.take(globals.len() as int) =~= want);
    }
    out
}

fn names_of_memories(memory: &Vec<MemoryData>) -> (r: Vec<Option<String>>)
    ensures
        r.deep_view() == Seq::new(
            memory.deep_view().len(),
            |i: int| optional_name(memory.deep_view()[i].name),
        ),
{
    let ghost want = Seq::new(
        memory.deep_view().len(),
        |i: int| optional_name(memory.deep_view()[i].name),
    );
    let mut out: Vec<Option<String>> = Vec::new();
    let mut i: usize = 0;
    proof {
        lemma_deep_view_index(*memory);
        assert(out.deep_view() =~= want.take(0));
    }
    while i < memory.len()
        invariant
            i <= memory.len(),
            want.len() == memory.len(),
            want == Seq::new(
                memory.deep_view().len(),
                |i: int| optional_name(memory.deep_view()[i].name),
            ),
            out.deep_view() == want.take(i as int),
        decreases memory.len() - i,
    {
        let ghost before = out;
        let name = if memory[i].name.as_str().unicode_len() == 0 {
            None
        } else {
            Some(memory[i].name.clone())
        };
        out.push(name);
        proof {
            lemma_deep_view_index(*memory);
            lemma_deep_view_push(before, out, name);
            assert(out.deep_view() =~= want.take(i + 1));
        }
        i = i + 1;
    }
    proof {
        assert(want.take(memory.len() as int) =~= want);
    }
    out
}

fn names_of_functions(func: &Vec<WastFunc>) -> (r: Vec<Option<String>>)
    ensures
        r.deep_view() == Seq::new(func.deep_view().len(), |i: int| func.deep_view()[i].info.index),
{
    let ghost want = Seq::new(func.deep_view().len(), |i: int| func.deep_view()[i].info.index);
    let mut out: Vec<Option<String>> = Vec::new();
    let mut i: usize = 0;
    proof {
        lemma_deep_view_index(*func);
        assert(out.deep_view() =~= want.take(0));
    }
    while i < func.len()
        invariant
            i <= func.len(),
            want.len() == func.len(),
            want == Seq::new(func.deep_view().len(), |i: int| func.deep_view()[i].info.index),
            out.deep_view() == want.take(i as int),
        decreases func.len() - i,
    {
        let ghost before = out;
        let name = func[i].name();
        out.push(name);
        proof {
            lemma_deep_view_index(*func);
            lemma_deep_view_push(before, out, name);
            assert(out.deep_view() =~= want.take(i + 1));
        }
        i = i + 1;
    }
    proof {
        assert(want.take(func.len() as int) =~= want);
    }
    out
}

impl InterpreterStructure {
    /// The module without anything in it.
    pub fn empty(name: String) -> (r: Self)
        ensures
            r.deep_view() == InterpreterStructureView::empty(name@),
    {
        let r = InterpreterStructure {
            name,
            exported: Vec::new(),
            globals: Vec::new(),
            memory: Vec::new(),
            free_data: Vec::new(),
            func: Vec::new(),
            start: None,
        };
        proof {
            assert(r.deep_view().exported =~= Seq::empty());
            assert(r.deep_view().globals =~= Seq::empty());
            assert(r.deep_view().memory =~= Seq::empty());
            assert(r.deep_view().free_data =~= Seq::empty());
            assert(r.deep_view().func =~= Seq::empty());
        }
        r
    }

    fn export(&mut self, name: String, kind: NumLocationKind, index: u32) -> (r: WatResult<()>)
        ensures
            final(self).deep_view() == (InterpreterStructureView {
                exported: final(self).deep_view().exported,
                ..old(self).deep_view()
            }),
            match r {
                Ok(()) => add_export(old(self).deep_view().exported, name@, kind, index) == Ok::<
                    Seq<(Seq<char>, (NumLocationKind, u32))>,
                    WatErrorView,
                >(final(self).deep_view().exported),
                Err(e) => add_export(old(self).deep_view().exported, name@, kind, index) == Err::<
                    Seq<(Seq<char>, (NumLocationKind, u32))>,
                    WatErrorView,
                >(e.deep_view()) && final(self).deep_view() == old(self).deep_view(),
            },
    {
        if exported_has(&self.exported, &name) {
            return Err(WatError::duplicate_name_error(name.as_str()));
        }
        let ghost before = self.exported;
        let entry = (name, (kind, index));
        self.exported.push(entry);
        proof {
            lemma_deep_view_push(before, self.exported, entry);
        }
        Ok(())
    }

    fn export_all(&mut self, names: &Vec<String>, kind: NumLocationKind, index: u32) -> (r:
        WatResult<()>)
        ensures
            final(self).deep_view() == (InterpreterStructureView {
                exported: final(self).deep_view().exported,
                ..old(self).deep_view()
            }),
            match r {
                Ok(()) => add_exports(old(self).deep_view().exported, names@, kind, index) == Ok::<
                    Seq<(Seq<char>, (NumLocationKind, u32))>,
                    WatErrorView,
                >(final(self).deep_view().exported),
                Err(e) => add_exports(old(self).deep_view().exported, names@, kind, index) == Err::<
                    Seq<(Seq<char>, (NumLocationKind, u32))>,
                    WatErrorView,
                >(e.deep_view()),
            },
    {
        let mut i: usize = 0;
        proof {
            assert(names@.take(0) =~= Seq::empty());
        }
        while i < names.len()
            invariant
                i <= names.len(),
                self.deep_view() == (InterpreterStructureView {
                    exported: self.deep_view().exported,
                    ..old(self).deep_view()
                }),
                add_exports(old(self).deep_view().exported, names@.take(i as int), kind, index)
                    == Ok::<Seq<(Seq<char>, (NumLocationKind, u32))>, WatErrorView>(
                    self.deep_view().exported,
                ),
            decreases names.len() - i,
        {
            proof {
                assert(names@.take(i + 1).drop_last() =~= names@.take(i as int));
                assert(names@.take(i + 1).last() == names@[i as int]);
            }
            match self.export(names[i].clone(), kind, index) {
                Ok(()) => {},
                Err(e) => {
                    proof {
                        lemma_add_exports_prefix(
                            old(self).deep_view().exported,
                            names@,
                            kind,
                            index,
                            i + 1,
                        );
                    }
                    return Err(e);
                },
            }
            i = i + 1;
        }
        proof {
            assert(names@.take(names.len() as int) =~= names@);
        }
        Ok(())
    }

    fn add_global(&mut self, value: &Global) -> (r: WatResult<()>)
        ensures
            match r {
                Ok(()) => old(self).deep_view().add_global(*value) == Ok::<
                    InterpreterStructureView,
                    WatErrorView,
                >(final(self).deep_view()),
                Err(e) => old(self).deep_view().add_global(*value) == Err::<
                    InterpreterStructureView,
                    WatErrorView,
                >(e.deep_view()),
            },
    {
        proof {
            lemma_deep_view_index(self.globals);
        }
        let names = names_of_globals(&self.globals);
        proof {
            assert(names.deep_view() =~= self.deep_view().global_names());
        }
        match identifier_fault(&names, &value.id) {
            Some(e) => {
                return Err(e);
            },
            None => {},
        }
        let index = position_of(self.globals.len());
        match self.export_all(&value.exports, NumLocationKind::Global, index) {
            Ok(()) => {},
            Err(e) => {
                return Err(e);
            },
        }
        let instructions = match &value.kind {
            GlobalKind::Import => {
                return Err(WatError::unimplemented_error("Imported globals not yet implemented."));
            },
            GlobalKind::Inline(instructions) => instructions,
        };
        let typ = match SerializableWatType::try_from_val_type(value.ty) {
            Ok(t) => t,
            Err(e) => {
                return Err(e);
            },
        };
        let flat = match SerializedInstruction::lower_all(instructions.as_slice()) {
            Ok(v) => v,
            Err(e) => {
                return Err(e);
            },
        };
        let global = match GlobalData::try_new(label_to_string(&value.id), typ, value.mutable, flat) {
            Ok(g) => g,
            Err(e) => {
                return Err(e);
            },
        };
        let ghost before = self.globals;
        self.globals.push(global);
        proof {
            lemma_deep_view_push(before, self.globals, global);
        }
        Ok(())
    }

    fn add_func(&mut self, value: &Func) -> (r: WatResult<()>)
        ensures
            match r {
                Ok(()) => old(self).deep_view().add_func(*value) == Ok::<
                    InterpreterStructureView,
                    WatErrorView,
                >(final(self).deep_view()),
                Err(e) => old(self).deep_view().add_func(*value) == Err::<
                    InterpreterStructureView,
                    WatErrorView,
                >(e.deep_view()),
            },
    {
        proof {
            lemma_deep_view_index(self.func);
        }
        let index = position_of(self.func.len());
        match self.export_all(&value.exports, NumLocationKind::Function, index) {
            Ok(()) => {},
            Err(e) => {
                return Err(e);
            },
        }
        let mut function = match WastFunc::try_from_func(value) {
            Ok(f) => f,
            Err(e) => {
                return Err(e);
            },
        };
        if function.info.index.is_none() {
            function.set_name_from_number(self.func.len());
        }
        let ghost before = self.func;
        self.func.push(function);
        proof {
            lemma_deep_view_push(before, self.func, function);
        }
        Ok(())
    }

    fn add_memory(&mut self, value: &Memory) -> (r: WatResult<()>)
        ensures
            match r {
                Ok(()) => old(self).deep_view().add_memory(*value) == Ok::<
                    InterpreterStructureView,
                    WatErrorView,
                >(final(self).deep_view()),
                Err(e) => old(self).deep_view().add_memory(*value) == Err::<
                    InterpreterStructureView,
                    WatErrorView,
                >(e.deep_view()),
            },
    {
        proof {
            lemma_deep_view_index(self.memory);
        }
        let names = names_of_memories(&self.memory);
        proof {
            assert(names.deep_view() =~= self.deep_view().memory_names());
        }
        match identifier_fault(&names, &value.id) {
            Some(e) => {
                return Err(e);
            },
            None => {},
        }
        let index = position_of(self.memory.len());
        match self.export_all(&value.exports, NumLocationKind::Memory, index) {
            Ok(()) => {},
            Err(e) => {
                return Err(e);
            },
        }
        let memory = match MemoryData::try_from_memory(value) {
            Ok(m) => m,
            Err(e) => {
                return Err(e);
            },
        };
        let ghost before = self.memory;
        self.memory.push(memory);
        proof {
            lemma_deep_view_push(before, self.memory, memory);
        }
        Ok(())
    }

    fn add_data(&mut self, value: &Data) -> (r: WatResult<()>)
        ensures
            match r {
                Ok(()) => old(self).deep_view().add_data(*value) == Ok::<
                    InterpreterStructureView,
                    WatErrorView,
                >(final(self).deep_view()),
                Err(e) => old(self).deep_view().add_data(*value) == Err::<
                    InterpreterStructureView,
                    WatErrorView,
                >(e.deep_view()),
            },
    {
        let segment = DataValue::from_list(label_to_string(&value.id), &value.data);
        match &value.kind {
            DataKind::Passive => {
                let ghost before = self.free_data;
                self.free_data.push(segment);
                proof {
                    lemma_deep_view_push(before, self.free_data, segment);
                }
                Ok(())
            },
            DataKind::Active { memory, offset } => {
                let names = names_of_memories(&self.memory);
                let key = index_to_string(memory);
                proof {
                    assert(names.deep_view() =~= self.deep_view().memory_names());
                }
                let target = match resolve_key(&names, key.as_str()) {
                    Some(i) => i,
                    None => {
                        let mut message = String::from_str(
                            "Currently cannot add data to memory not already defined: memory ",
                        );
                        message.append(key.as_str());
                        message.append(" is not defined at this point");
                        return Err(WatError::unimplemented_error(message.as_str()));
                    },
                };
                let flat = match SerializedInstruction::lower_all(offset.as_slice()) {
                    Ok(v) => v,
                    Err(e) => {
                        return Err(e);
                    },
                };
                let slice = flat.as_slice();
                proof {
                    assert(slice.deep_view() =~= flat.deep_view());
                }
                let number = match const_eval_expr(slice, None) {
                    Ok(n) => n,
                    Err(e) => {
                        return Err(e);
                    },
                };
                let at = match number.try_into_u32() {
                    Ok(v) => v,
                    Err(e) => {
                        return Err(e);
                    },
                };
                proof {
                    lemma_deep_view_index(self.memory);
                    lemma_deep_view_index(names);
                }
                let ghost before = self.memory;
                insert_contents(&mut self.memory[target].data, at, segment);
                proof {
                    lemma_deep_view_index(self.memory);
                    assert(self.memory.deep_view() =~= before.deep_view().update(
                        target as int,
                        MemoryDataView {
                            data: before.deep_view()[target as int].data.insert(
                                at,
                                segment.deep_view(),
                            ),
                            ..before.deep_view()[target as int]
                        },
                    ));
                }
                Ok(())
            },
        }
    }

    fn add_export_field(&mut self, value: &Export) -> (r: WatResult<()>)
        ensures
            match r {
                Ok(()) => old(self).deep_view().add_export_field(*value) == Ok::<
                    InterpreterStructureView,
                    WatErrorView,
                >(final(self).deep_view()),
                Err(e) => old(self).deep_view().add_export_field(*value) == Err::<
                    InterpreterStructureView,
                    WatErrorView,
                >(e.deep_view()),
            },
    {
        let (names, kind) = match value.kind {
            ExportKind::Table => {
                return Err(WatError::unimplemented_error("Export Tables not implemented"));
            },
            ExportKind::Tag => {
                return Err(WatError::unimplemented_error("Export Tags not implemented"));
            },
            ExportKind::Func => (names_of_functions(&self.func), NumLocationKind::Function),
            ExportKind::Memory => (names_of_memories(&self.memory), NumLocationKind::Memory),
            ExportKind::Global => (names_of_globals(&self.globals), NumLocationKind::Global),
        };
        proof {
            match value.kind {
                ExportKind::Func => {
                    assert(names.deep_view() =~= self.deep_view().function_names());
                },
                ExportKind::Memory => {
                    assert(names.deep_view() =~= self.deep_view().memory_names());
                },
                _ => {
                    assert(names.deep_view() =~= self.deep_view().global_names());
                },
            }
        }
        let key = index_to_string(&value.item);
        match resolve_key(&names, key.as_str()) {
            Some(i) => self.export(value.name.clone(), kind, position_of(i)),
            None => Err(WatError::name_resolution_error(key.as_str(), kind)),
        }
    }

    fn add_field(&mut self, field: &ModuleField) -> (r: WatResult<()>)
        ensures
            match r {
                Ok(()) => old(self).deep_view().add_field(*field) == Ok::<
                    InterpreterStructureView,
                    WatErrorView,
                >(final(self).deep_view()),
                Err(e) => old(self).deep_view().add_field(*field) == Err::<
                    InterpreterStructureView,
                    WatErrorView,
                >(e.deep_view()),
            },
    {
        match field {
            ModuleField::Func(f) => self.add_func(f),
            ModuleField::Global(g) => self.add_global(g),
            ModuleField::Memory(m) => self.add_memory(m),
            ModuleField::Data(d) => self.add_data(d),
            ModuleField::Export(e) => self.add_export_field(e),
            ModuleField::Start(s) => {
                self.start = Some(index_to_string(s));
                Ok(())
            },
            ModuleField::Import => Err(
                WatError::unimplemented_error("Import field not implemented"),
            ),
            ModuleField::Type => Err(WatError::unimplemented_error("Type field not implemented")),
            ModuleField::Rec => Err(WatError::unimplemented_error("Rec field not implemented")),
            ModuleField::Table => Err(WatError::unimplemented_error("Table field not implemented")),
            ModuleField::Elem => Err(
                WatError::unimplemented_error("Element field not implemented"),
            ),
            ModuleField::Tag => Err(WatError::unimplemented_error("Tag field not implemented")),
            ModuleField::Custom => Err(
                WatError::unimplemented_error("Custom field not implemented"),
            ),
        }
    }

    /// Assembles the module that the fields of a parsed module declare and
    /// validates it.
    pub fn try_new(fields: &[ModuleField], name: &Option<String>) -> (r: WatResult<Self>)
        ensures
            match r {
                Ok(structure) => module_of(fields@, *name) == Ok::<
                    InterpreterStructureView,
                    WatErrorView,
                >(structure.deep_view()) && structure.deep_view().well_formed(),
                Err(e) => module_of(fields@, *name) == Err::<
                    InterpreterStructureView,
                    WatErrorView,
                >(e.deep_view()),
            },
    {
        let mut structure = Self::empty(label_to_string(name));
        let ghost start = structure.deep_view();
        let mut i: usize = 0;
        proof {
            assert(fields@.skip(0) =~= fields@);
        }
        while i < fields.len()
            invariant
                i <= fields.len(),
                start == InterpreterStructureView::empty(label_text(*name)),
                start.add_fields(fields@) == structure.deep_view().add_fields(
                    fields@.skip(i as int),
                ),
            decreases fields.len() - i,
        {
            proof {
                assert(fields@.skip(i as int).first() == fields@[i as int]);
                assert(fields@.skip(i as int).drop_first() =~= fields@.skip(i + 1));
            }
            match structure.add_field(&fields[i]) {
                Ok(()) => {},
                Err(e) => {
                    return Err(e);
                },
            }
            i = i + 1;
        }
        match structure.validate() {
            Ok(()) => {
                proof {
                    lemma_module_is_well_formed(fields@, *name);
                }
                Ok(structure)
            },
            Err(e) => Err(e),
        }
    }
}

proof fn lemma_add_exports_prefix(
    exported: Seq<(Seq<char>, (NumLocationKind, u32))>,
    names: Seq<String>,
    kind: NumLocationKind,
    index: u32,
    n: int,
)
    requires
        0 <= n <= names.len(),
        add_exports(exported, names.take(n), kind, index) is Err,
    ensures
        add_exports(exported, names, kind, index) == add_exports(
            exported,
            names.take(n),
            kind,
            index,
        ),
    decreases names.len() - n,
{
    if n < names.len() {
        assert(names.take(n + 1).drop_last() =~= names.take(n));
        lemma_add_exports_prefix(exported, names, kind, index, n + 1);
    } else {
        assert(names.take(n) =~= names);
    }
}

/// The result of a transformation as it is handed on: a module or a
/// diagnostic.
#[derive(Debug, PartialEq, Eq)]
pub enum TransfromResult {
    Structure(InterpreterStructure),
    Failure(WatError),
}

impl From<WatResult<InterpreterStructure>> for TransfromResult {
    fn from(value: WatResult<InterpreterStructure>) -> (r: Self) {
        match value {
            Ok(val) => TransfromResult::Structure(val),
            Err(err) => TransfromResult::Failure(err),
        }
    }
}

impl FromSpecImpl<WatResult<InterpreterStructure>> for TransfromResult {
    open spec fn obeys_from_spec() -> bool {
        true
    }

    open spec fn from_spec(value: WatResult<InterpreterStructure>) -> Self {
        match value {
            Ok(val) => TransfromResult::Structure(val),
            Err(err) => TransfromResult::Failure(err),
        }
    }
}

/// Lowers, assembles and validates what a parser made of a source text.
pub fn inner_transform(parsed: ParseOutcome) -> (r: WatResult<InterpreterStructure>)
    ensures
        match r {
            Ok(structure) => transform_outcome(parsed) == Ok::<
                InterpreterStructureView,
                WatErrorView,
            >(structure.deep_view()),
            Err(e) => transform_outcome(parsed) == Err::<InterpreterStructureView, WatErrorView>(
                e.deep_view(),
            ),
        },
{
    match parsed {
        ParseOutcome::Failed(failure) => Err(WatError::parsing_error(failure)),
        ParseOutcome::Parsed { wat, resolution } => {
            let module = match wat {
                Wat::Module(m) => m,
                Wat::Component => {
                    return Err(
                        WatError::unimplemented_error("Cannot compile components currently."),
                    );
                },
            };
            match resolution {
                Some(failure) => {
                    return Err(WatError::resolution_error(failure));
                },
                None => {},
            }
            match &module.kind {
                ModuleKind::Text(fields) => InterpreterStructure::try_new(
                    fields.as_slice(),
                    &module.id,
                ),
                ModuleKind::Binary => Err(
                    WatError::unimplemented_error(
                        "Unimplemented Error: Cannot binary type currently.",
                    ),
                ),
            }
        },
    }
}

/// The same as `inner_transform`, with the result in the form in which it
/// is handed on.
pub fn transform(parsed: ParseOutcome) -> (r: TransfromResult)
    ensures
        match r {
            TransfromResult::Structure(structure) => transform_outcome(parsed) == Ok::<
                InterpreterStructureView,
                WatErrorView,
            >(structure.deep_view()),
            TransfromResult::Failure(e) => transform_outcome(parsed) == Err::<
                InterpreterStructureView,
                WatErrorView,
            >(e.deep_view()),
        },
{
    match inner_transform(parsed) {
        Ok(structure) => TransfromResult::Structure(structure),
        Err(e) => TransfromResult::Failure(e),
    }
}

/// Whether no name is exported twice.
pub open spec fn distinct_exports(exported: Seq<(Seq<char>, (NumLocationKind, u32))>) -> bool {
    forall|i: int, j: int|
        0 <= i < j < exported.len() ==> (#[trigger] exported[i]).0 != (#[trigger] exported[j]).0
}

impl WastFuncView {
    /// Whether no two of the parameters and locals carry one identifier.
    pub open spec fn distinct_variables(self) -> bool {
        distinct(variable_names(self.info.input + self.locals))
    }
}

impl InterpreterStructureView {
    /// What holds of every assembled module: no two globals and no two
    /// memories carry one identifier, no name is exported twice, and every
    /// function has a name, variables with distinct identifiers and a body
    /// without a block marker among its leaves.
    pub open spec fn well_formed(self) -> bool {
        &&& distinct(self.global_names())
        &&& distinct(self.memory_names())
        &&& distinct_exports(self.exported)
        &&& forall|i: int|
            0 <= i < self.func.len() ==> (#[trigger] self.func[i]).distinct_variables()
                && self.func[i].info.index is Some && leaves_are_plain(self.func[i].block)
    }
}

proof fn lemma_add_export_distinct(
    exported: Seq<(Seq<char>, (NumLocationKind, u32))>,
    name: Seq<char>,
    kind: NumLocationKind,
    index: u32,
)
    requires
        distinct_exports(exported),
        add_export(exported, name, kind, index) is Ok,
    ensures
        distinct_exports(add_export(exported, name, kind, index)->Ok_0),
{
    let after = exported.push((name, (kind, index)));
    assert forall|i: int, j: int| 0 <= i < j < after.len() implies (#[trigger] after[i]).0 != (
    #[trigger] after[j]).0 by {
        if j < exported.len() {
            assert(after[i] == exported[i]);
            assert(after[j] == exported[j]);
        } else {
            assert(after[i] == exported[i]);
        }
    }
}

proof fn lemma_add_exports_distinct(
    exported: Seq<(Seq<char>, (NumLocationKind, u32))>,
    names: Seq<String>,
    kind: NumLocationKind,
    index: u32,
)
    requires
        distinct_exports(exported),
        add_exports(exported, names, kind, index) is Ok,
    ensures
        distinct_exports(add_exports(exported, names, kind, index)->Ok_0),
    decreases names.len(),
{
    if names.len() > 0 {
        lemma_add_exports_distinct(exported, names.drop_last(), kind, index);
        lemma_add_export_distinct(
            add_exports(exported, names.drop_last(), kind, index)->Ok_0,
            names.last()@,
            kind,
            index,
        );
    }
}

proof fn lemma_add_field_well_formed(structure: InterpreterStructureView, field: ModuleField)
    requires
        structure.well_formed(),
        structure.add_field(field) is Ok,
    ensures
        structure.add_field(field)->Ok_0.well_formed(),
{
    let next = structure.add_field(field)->Ok_0;
    match field {
        ModuleField::Func(f) => {
            lemma_add_exports_distinct(
                structure.exported,
                f.exports@,
                NumLocationKind::Function,
                position(structure.func.len()),
            );
            let function = WastFunc::of_func(f)->Ok_0;
            lemma_first_repeated(variable_names(function.info.input + function.locals));
            match f.kind {
                FuncKind::Inline { expression, .. } => {
                    lemma_assembled_tree_is_stable(lower_sequence(expression@)->Ok_0);
                },
                FuncKind::Import => {},
            }
            assert(next.global_names() =~= structure.global_names());
            assert(next.memory_names() =~= structure.memory_names());
            assert forall|i: int| 0 <= i < next.func.len() implies (
            #[trigger] next.func[i]).distinct_variables() && next.func[i].info.index is Some
                && leaves_are_plain(next.func[i].block) by {
                if i < structure.func.len() {
                    assert(next.func[i] == structure.func[i]);
                }
            }
        },
        ModuleField::Global(g) => {
            lemma_add_exports_distinct(
                structure.exported,
                g.exports@,
                NumLocationKind::Global,
                position(structure.globals.len()),
            );
            let name = optional_name(label_text(g.id));
            lemma_distinct_push(structure.global_names(), name);
            assert(next.global_names() =~= structure.global_names().push(name));
            assert(next.memory_names() =~= structure.memory_names());
        },
        ModuleField::Memory(m) => {
            lemma_add_exports_distinct(
                structure.exported,
                m.exports@,
                NumLocationKind::Memory,
                position(structure.memory.len()),
            );
            let name = optional_name(label_text(m.id));
            lemma_distinct_push(structure.memory_names(), name);
            assert(next.memory_names() =~= structure.memory_names().push(name));
            assert(next.global_names() =~= structure.global_names());
        },
        ModuleField::Data(d) => {
            assert(next.global_names() =~= structure.global_names());
            assert(next.memory_names() =~= structure.memory_names()) by {
                lemma_find_key_bounds(
                    structure.memory_names(),
                    match d.kind {
                        DataKind::Active { memory, .. } => index_text(memory),
                        DataKind::Passive => Seq::empty(),
                    },
                );
            }
        },
        ModuleField::Export(e) => {
            let (names, kind) = match e.kind {
                ExportKind::Func => (structure.function_names(), NumLocationKind::Function),
                ExportKind::Memory => (structure.memory_names(), NumLocationKind::Memory),
                _ => (structure.global_names(), NumLocationKind::Global),
            };
            let found = find_key(names, index_text(e.item))->0;
            lemma_add_export_distinct(structure.exported, e.name@, kind, position(found as nat));
            assert(next.global_names() =~= structure.global_names());
            assert(next.memory_names() =~= structure.memory_names());
        },
        ModuleField::Start(_) => {
            assert(next.global_names() =~= structure.global_names());
            assert(next.memory_names() =~= structure.memory_names());
        },
        _ => {},
    }
}

proof fn lemma_add_fields_well_formed(structure: InterpreterStructureView, fields: Seq<ModuleField>)
    requires
        structure.well_formed(),
        structure.add_fields(fields) is Ok,
    ensures
        structure.add_fields(fields)->Ok_0.well_formed(),
    decreases fields.len(),
{
    if fields.len() > 0 {
        lemma_add_field_well_formed(structure, fields.first());
        lemma_add_fields_well_formed(
            structure.add_field(fields.first())->Ok_0,
            fields.drop_first(),
        );
    }
}

/// Every module that is assembled is well-formed.
pub proof fn lemma_module_is_well_formed(fields: Seq<ModuleField>, name: Option<String>)
    requires
        module_of(fields, name) is Ok,
    ensures
        module_of(fields, name)->Ok_0.well_formed(),
{
    let start = InterpreterStructureView::empty(label_text(name));
    assert(start.global_names() =~= Seq::empty());
    assert(start.memory_names() =~= Seq::empty());
    lemma_add_fields_well_formed(start, fields);
}

} // verus!
