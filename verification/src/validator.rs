//! Stack-based validation of normalized instructions.

use crate::error::WatError;
use crate::error::WatErrorView;
use crate::error::WatResult;
use crate::instruction::copy_name;
use crate::instruction::copy_types;
use crate::instruction::InputOutput;
use crate::instruction::InputOutputView;
use crate::instruction::SerializedInstruction;
use crate::instruction::SerializedInstructionView;
use crate::marker::BitwiseOperation;
use crate::marker::BlockKind;
use crate::marker::ComparisonOperation;
use crate::marker::DataInstruction;
use crate::marker::FloatOperation;
use crate::marker::NumLocationKind;
use crate::marker::SerializableWatType;
use crate::marker::SimpleInstruction;
use crate::module::InterpreterStructure;
use crate::module::optional_name;
use crate::names::distinct;
use crate::text::decimal;
use crate::text::parse_index;
use crate::text::parse_usize;
use crate::views::lemma_deep_view_index;
use crate::views::lemma_deep_view_push;
use vstd::prelude::*;
use vstd::string::StringExecFns;
use vstd::string::StrSliceExecFns;

verus! {

/// Reads a name as an index: `Ok` with the index where the name is a
/// decimal number, else `Err` with the name itself.
pub fn try_name_to_index(name: &str) -> (r: Result<usize, &str>)
    ensures
        match r {
            Ok(i) => parse_index(name@) == Some(i),
            Err(n) => parse_index(name@) is None && n@ == name@,
        },
{
    match parse_usize(name) {
        Some(i) => Ok(i),
        None => Err(name),
    }
}

/// The position of the last of `names` that is `name`.
pub open spec fn find_name(names: Seq<Option<Seq<char>>>, name: Seq<char>) -> Option<int>
    decreases names.len(),
{
    if names.len() == 0 {
        None
    } else if names.last() == Some(name) {
        Some(names.len() - 1)
    } else {
        find_name(names.drop_last(), name)
    }
}

/// The position that a key refers to among items with the given names: the
/// key read as a number where it is one and within range, else the last
/// item of that name.
pub open spec fn find_key(names: Seq<Option<Seq<char>>>, key: Seq<char>) -> Option<int> {
    match parse_index(key) {
        Some(i) => if i < names.len() {
            Some(i as int)
        } else {
            None
        },
        None => find_name(names, key),
    }
}

/// The position that `key` refers to among items with the given names.
pub fn resolve_key(names: &Vec<Option<String>>, key: &str) -> (r: Option<usize>)
    ensures
        match r {
            Some(i) => find_key(names.deep_view(), key@) == Some(i as int) && i < names.len(),
            None => find_key(names.deep_view(), key@) is None,
        },
{
    proof {
        lemma_deep_view_index(*names);
    }
    match try_name_to_index(key) {
        Ok(index) => if index < names.len() {
            Some(index)
        } else {
            None
        },
        Err(name) => {
            let wanted = String::from_str(name);
            let ghost all = names.deep_view();
            let mut i: usize = names.len();
            proof {
                assert(all.take(i as int) =~= all);
            }
            while i > 0
                invariant
                    i <= names.len(),
                    all == names.deep_view(),
                    all.len() == names.len(),
                    wanted@ == key@,
                    parse_index(key@) is None,
                    find_name(all, key@) == find_name(all.take(i as int), key@),
                decreases i,
            {
                i = i - 1;
                proof {
                    lemma_deep_view_index(*names);
                    assert(all.take(i + 1).drop_last() =~= all.take(i as int));
                    assert(all.take(i + 1).last() == names@[i as int].deep_view());
                }
                match &names[i] {
                    Some(n) => {
                        if *n == wanted {
                            return Some(i);
                        }
                    },
                    None => {},
                }
            }
            None
        },
    }
}

/// Items in order, each reachable by its position and, where it has one,
/// by its name. Of two items with one name the later answers to it.
#[derive(Debug, Clone, PartialEq, Eq)]
pub struct ValueMapping<Value> {
    entries: Vec<(Option<String>, Value)>,
}

impl<Value> Default for ValueMapping<Value> {
    fn default() -> (r: Self)
        ensures
            r.items() == Seq::<Value>::empty(),
            r.keys() == Seq::<Option<Seq<char>>>::empty(),
    {
        Self::new()
    }
}

impl<Value> ValueMapping<Value> {
    /// The items, in order.
    pub closed spec fn items(&self) -> Seq<Value> {
        Seq::new(self.entries@.len(), |i: int| self.entries@[i].1)
    }

    /// The names of the items, in order.
    pub closed spec fn keys(&self) -> Seq<Option<Seq<char>>> {
        Seq::new(self.entries@.len(), |i: int| self.entries@[i].0.deep_view())
    }

    /// There are as many names as items.
    pub proof fn lemma_lengths(&self)
        ensures
            self.keys().len() == self.items().len(),
    {
    }

    /// A mapping without items.
    pub fn new() -> (r: Self)
        ensures
            r.items() == Seq::<Value>::empty(),
            r.keys() == Seq::<Option<Seq<char>>>::empty(),
    {
        let r = Self { entries: Vec::new() };
        assert(r.keys() =~= Seq::empty());
        assert(r.items() =~= Seq::empty());
        r
    }

    /// The number of items.
    pub fn len(&self) -> (r: usize)
        ensures
            r == self.items().len(),
            r == self.keys().len(),
    {
        self.entries.len()
    }

    /// Adds an item at the end, under `name` if there is one.
    pub fn push(&mut self, name: Option<String>, value: Value)
        ensures
            final(self).items() == old(self).items().push(value),
            final(self).keys() == old(self).keys().push(name.deep_view()),
    {
        let ghost before = *self;
        self.entries.push((name, value));
        proof {
            assert(self.keys() =~= before.keys().push(name.deep_view()));
            assert(self.items() =~= before.items().push(value));
        }
    }

    /// The item at `index`, if there is one.
    pub fn get_by_index(&self, index: usize) -> (r: Option<&Value>)
        ensures
            r == if index < self.items().len() {
                Some(&self.items()[index as int])
            } else {
                None
            },
    {
        if index < self.entries.len() {
            Some(&self.entries[index].1)
        } else {
            None
        }
    }

    /// The item at `index`, to change it, if there is one.
    pub fn get_mut_by_index(&mut self, index: usize) -> (r: Option<&mut Value>)
        ensures
            final(self).keys() == old(self).keys(),
            match r {
                Some(v) => index < old(self).items().len() && *v == old(self).items()[index as int]
                    && final(self).items() == old(self).items().update(index as int, *final(v)),
                None => index >= old(self).items().len() && final(self).items() == old(
                    self,
                ).items(),
            },
    {
        if index < self.entries.len() {
            Some(&mut self.entries[index].1)
        } else {
            None
        }
    }

    fn position_of_name(&self, name: &str) -> (r: Option<usize>)
        ensures
            match r {
                Some(i) => find_name(self.keys(), name@) == Some(i as int) && i
                    < self.items().len(),
                None => find_name(self.keys(), name@) is None,
            },
    {
        let key = String::from_str(name);
        let mut i: usize = self.entries.len();
        proof {
            assert(self.keys().take(i as int) =~= self.keys());
        }
        while i > 0
            invariant
                i <= self.entries.len(),
                key@ == name@,
                find_name(self.keys(), name@) == find_name(self.keys().take(i as int), name@),
            decreases i,
        {
            i = i - 1;
            let ghost prefix = self.keys().take(i + 1);
            proof {
                assert(prefix.drop_last() =~= self.keys().take(i as int));
                assert(prefix.last() == self.entries@[i as int].0.deep_view());
            }
            match &self.entries[i].0 {
                Some(n) => {
                    if *n == key {
                        return Some(i);
                    }
                },
                None => {},
            }
        }
        None
    }

    /// The last item named `name`, if there is one.
    pub fn get_by_name(&self, name: &str) -> (r: Option<&Value>)
        ensures
            r == match find_name(self.keys(), name@) {
                Some(i) => Some(&self.items()[i]),
                None => None,
            },
    {
        match self.position_of_name(name) {
            Some(i) => self.get_by_index(i),
            None => None,
        }
    }

    /// The last item named `name`, to change it, if there is one.
    pub fn get_mut_by_name(&mut self, name: &str) -> (r: Option<&mut Value>)
        ensures
            final(self).keys() == old(self).keys(),
            match r {
                Some(v) => match find_name(old(self).keys(), name@) {
                    Some(i) => *v == old(self).items()[i] && final(self).items() == old(
                        self,
                    ).items().update(i, *final(v)),
                    None => false,
                },
                None => find_name(old(self).keys(), name@) is None && final(self).items() == old(
                    self,
                ).items(),
            },
    {
        match self.position_of_name(name) {
            Some(i) => self.get_mut_by_index(i),
            None => None,
        }
    }

    fn position_of_key(&self, key: &str) -> (r: Option<usize>)
        ensures
            match r {
                Some(i) => find_key(self.keys(), key@) == Some(i as int) && i < self.items().len(),
                None => find_key(self.keys(), key@) is None,
            },
    {
        match try_name_to_index(key) {
            Ok(index) => if index < self.entries.len() {
                Some(index)
            } else {
                None
            },
            Err(name) => self.position_of_name(name),
        }
    }

    /// The item that `key` refers to: the one at that position where the key
    /// is a number, else the last one of that name.
    pub fn get(&self, key: &str) -> (r: Option<&Value>)
        ensures
            r == match find_key(self.keys(), key@) {
                Some(i) => Some(&self.items()[i]),
                None => None,
            },
    {
        match self.position_of_key(key) {
            Some(i) => self.get_by_index(i),
            None => None,
        }
    }

    /// The item that `key` refers to, to change it.
    pub fn get_mut(&mut self, key: &str) -> (r: Option<&mut Value>)
        ensures
            final(self).keys() == old(self).keys(),
            match r {
                Some(v) => match find_key(old(self).keys(), key@) {
                    Some(i) => *v == old(self).items()[i] && final(self).items() == old(
                        self,
                    ).items().update(i, *final(v)),
                    None => false,
                },
                None => find_key(old(self).keys(), key@) is None && final(self).items() == old(
                    self,
                ).items(),
            },
    {
        match self.position_of_key(key) {
            Some(i) => self.get_mut_by_index(i),
            None => None,
        }
    }
}

/// Named items as a contract sees them.
pub struct Catalog<V> {
    pub names: Seq<Option<Seq<char>>>,
    pub values: Seq<V>,
}

impl<V> Catalog<V> {
    /// The item that `key` refers to.
    pub open spec fn lookup(self, key: Seq<char>) -> Option<V> {
        match find_key(self.names, key) {
            Some(i) => Some(self.values[i]),
            None => None,
        }
    }
}

impl<Value: DeepView> ValueMapping<Value> {
    /// The names and the views of the items.
    pub open spec fn catalog(&self) -> Catalog<Value::V> {
        Catalog {
            names: self.keys(),
            values: Seq::new(self.items().len(), |i: int| self.items()[i].deep_view()),
        }
    }

    /// `get` finds what the catalog lists.
    pub proof fn lemma_catalog_lookup(&self, key: Seq<char>)
        ensures
            self.catalog().lookup(key) == match find_key(self.keys(), key) {
                Some(i) => Some(self.items()[i].deep_view()),
                None => None,
            },
            find_key(self.keys(), key) matches Some(i) ==> 0 <= i < self.items().len(),
    {
        self.lemma_lengths();
        lemma_find_name_bounds(self.keys(), key);
    }
}

/// A key that leads to an item leads to a position of the list.
pub proof fn lemma_find_key_bounds(names: Seq<Option<Seq<char>>>, key: Seq<char>)
    ensures
        find_key(names, key) matches Some(i) ==> 0 <= i < names.len(),
{
    lemma_find_name_bounds(names, key);
}

/// A name that is found is found at a position of the list, and names that
/// position.
pub proof fn lemma_find_name_bounds(names: Seq<Option<Seq<char>>>, name: Seq<char>)
    ensures
        find_name(names, name) matches Some(i) ==> 0 <= i < names.len() && names[i] == Some(name),
    decreases names.len(),
{
    if names.len() > 0 && names.last() != Some(name) {
        lemma_find_name_bounds(names.drop_last(), name);
    }
}

/// One entry of the control stack: an open block.
#[derive(Debug, Clone, PartialEq, Eq)]
pub struct ControlFrame {
    opcode: BlockKind,
    label: Option<String>,
    start_types: Vec<SerializableWatType>,
    end_types: Vec<SerializableWatType>,
    height: usize,
    unreachable: bool,
}

/// What a `ControlFrame` holds.
pub struct ControlFrameView {
    /// The marker that opened the block.
    pub opcode: BlockKind,
    pub label: Option<Seq<char>>,
    /// The types the block takes.
    pub start_types: Seq<SerializableWatType>,
    /// The types the block leaves.
    pub end_types: Seq<SerializableWatType>,
    /// The height of the value stack when the block was opened.
    pub height: nat,
    /// Whether the rest of the block cannot be reached.
    pub unreachable: bool,
}

impl DeepView for ControlFrame {
    type V = ControlFrameView;

    closed spec fn deep_view(&self) -> ControlFrameView {
        ControlFrameView {
            opcode: self.opcode,
            label: self.label.deep_view(),
            start_types: self.start_types@,
            end_types: self.end_types@,
            height: self.height as nat,
            unreachable: self.unreachable,
        }
    }
}

impl ControlFrameView {
    /// The types that a branch to the block carries: what a loop takes,
    /// what any other block leaves.
    pub open spec fn label_types(self) -> Seq<SerializableWatType> {
        if self.opcode == BlockKind::Loop {
            self.start_types
        } else {
            self.end_types
        }
    }
}

impl ControlFrame {
    /// Whether an `if` opened the block.
    pub fn is_if(&self) -> (r: bool)
        ensures
            r == (self.deep_view().opcode == BlockKind::If),
    {
        self.opcode == BlockKind::If
    }

    /// A copy of the frame.
    pub fn duplicate(&self) -> (r: Self)
        ensures
            r.deep_view() == self.deep_view(),
    {
        ControlFrame {
            opcode: self.opcode,
            label: match &self.label {
                Some(l) => Some(l.clone()),
                None => None,
            },
            start_types: copy_types(&self.start_types),
            end_types: copy_types(&self.end_types),
            height: self.height,
            unreachable: self.unreachable,
        }
    }
}

/// The two stacks of the validator.
pub struct ValidatorState {
    /// The types of the operands, the top last.
    pub values: Seq<SerializableWatType>,
    /// The open blocks, the innermost last.
    pub frames: Seq<ControlFrameView>,
}

/// The position of the outermost of `frames` that carries `label`.
pub open spec fn first_labelled(frames: Seq<ControlFrameView>, label: Seq<char>) -> Option<int>
    decreases frames.len(),
{
    if frames.len() == 0 {
        None
    } else {
        match first_labelled(frames.drop_last(), label) {
            Some(i) => Some(i),
            None => if frames.last().label == Some(label) {
                Some(frames.len() - 1)
            } else {
                None
            },
        }
    }
}

impl ValidatorState {
    /// The state before the first instruction of a function that returns
    /// `results`: no operands, and the function body as the one open block.
    pub open spec fn at_function_start(results: Seq<SerializableWatType>) -> ValidatorState {
        ValidatorState {
            values: Seq::empty(),
            frames: seq![
                ControlFrameView {
                    opcode: BlockKind::Block,
                    label: None,
                    start_types: Seq::empty(),
                    end_types: results,
                    height: 0,
                    unreachable: false,
                },
            ],
        }
    }

    /// The height below which the innermost block may not pop.
    pub open spec fn floor(self) -> nat {
        if self.frames.len() == 0 {
            0
        } else {
            self.frames.last().height
        }
    }

    /// Whether the innermost block is past an instruction that never
    /// falls through.
    pub open spec fn in_unreachable_code(self) -> bool {
        self.frames.len() > 0 && self.frames.last().unreachable
    }

    /// Puts an operand on the stack.
    pub open spec fn push_val(self, typ: SerializableWatType) -> ValidatorState {
        ValidatorState { values: self.values.push(typ), ..self }
    }

    /// Puts operands on the stack, the last of `types` on top.
    pub open spec fn push_vals(self, types: Seq<SerializableWatType>) -> ValidatorState {
        ValidatorState { values: self.values + types, ..self }
    }

    /// Takes the top operand. At the floor of a block in unreachable code
    /// the stack stays and the operand has no type (`None`): it stands for
    /// any type. At the floor of any other block there is nothing to take.
    pub open spec fn pop_val(self) -> Result<
        (ValidatorState, Option<SerializableWatType>),
        WatErrorView,
    > {
        if self.values.len() > self.floor() {
            Ok((ValidatorState { values: self.values.drop_last(), ..self }, Some(self.values.last())))
        } else if self.in_unreachable_code() {
            Ok((self, None))
        } else {
            Err(WatError::spec_empty_stack(1))
        }
    }

    /// Takes the top operand, which has to be of type `expected` or of no
    /// type.
    pub open spec fn expected_pop_val(self, expected: SerializableWatType) -> Result<
        ValidatorState,
        WatErrorView,
    > {
        match self.pop_val() {
            Ok((next, Some(actual))) => if actual == expected {
                Ok(next)
            } else {
                Err(WatError::spec_unexpected_type(expected, actual))
            },
            Ok((next, None)) => Ok(next),
            Err(e) => Err(e),
        }
    }

    /// Takes operands of the given types, the last of `types` from the top.
    pub open spec fn pop_vals(self, types: Seq<SerializableWatType>) -> Result<
        ValidatorState,
        WatErrorView,
    >
        decreases types.len(),
    {
        if types.len() == 0 {
            Ok(self)
        } else {
            match self.expected_pop_val(types.last()) {
                Ok(next) => next.pop_vals(types.drop_last()),
                Err(e) => Err(e),
            }
        }
    }

    /// Opens a block at the present height. An empty label is no label.
    pub open spec fn push_control(
        self,
        opcode: BlockKind,
        label: Seq<char>,
        input: Seq<SerializableWatType>,
        output: Seq<SerializableWatType>,
    ) -> ValidatorState {
        ValidatorState {
            frames: self.frames.push(
                ControlFrameView {
                    opcode,
                    label: if label.len() == 0 {
                        None
                    } else {
                        Some(label)
                    },
                    start_types: input,
                    end_types: output,
                    height: self.values.len(),
                    unreachable: false,
                },
            ),
            ..self
        }
    }

    /// Closes the innermost block: takes what it leaves, which has to bring
    /// the stack back to the height at which the block was opened.
    pub open spec fn pop_control(self) -> Result<(ValidatorState, ControlFrameView), WatErrorView> {
        if self.frames.len() == 0 {
            Err(WatError::spec_empty_stack(1))
        } else {
            let frame = self.frames.last();
            match self.pop_vals(frame.end_types) {
                Ok(next) => if next.values.len() != frame.height {
                    Err(WatError::spec_wrong_arity_error(frame.height, next.values.len()))
                } else {
                    Ok((ValidatorState { frames: next.frames.drop_last(), ..next }, frame))
                },
                Err(e) => Err(e),
            }
        }
    }

    /// Marks the rest of the innermost block as unreachable and drops its
    /// operands.
    pub open spec fn mark_unreachable(self) -> ValidatorState {
        if self.frames.len() == 0 {
            self
        } else {
            let top = self.frames.last();
            ValidatorState {
                values: if top.height <= self.values.len() {
                    self.values.take(top.height as int)
                } else {
                    self.values
                },
                frames: self.frames.update(
                    self.frames.len() - 1,
                    ControlFrameView { unreachable: true, ..top },
                ),
            }
        }
    }

    /// The block that a label refers to: a number counts blocks from the
    /// innermost, starting at zero; a name refers to the outermost block
    /// that carries it.
    pub open spec fn find_frame(self, label: Seq<char>) -> Result<ControlFrameView, WatErrorView> {
        match parse_index(label) {
            Some(depth) => if depth < self.frames.len() {
                Ok(self.frames[self.frames.len() - 1 - depth])
            } else {
                Err(WatError::spec_index_out_of_range_range(self.frames.len(), depth as nat))
            },
            None => match first_labelled(self.frames, label) {
                Some(i) => Ok(self.frames[i]),
                None => Err(WatError::spec_label_resolution_error(label)),
            },
        }
    }
}

impl ValidatorState {
    /// Takes one operand of type `from` and leaves one of type `to`.
    pub open spec fn step_unary(self, from: SerializableWatType, to: SerializableWatType) -> Result<
        ValidatorState,
        WatErrorView,
    > {
        match self.expected_pop_val(from) {
            Ok(next) => Ok(next.push_val(to)),
            Err(e) => Err(e),
        }
    }

    /// Takes two operands of type `operand` and leaves one of type `to`.
    pub open spec fn step_binary(
        self,
        operand: SerializableWatType,
        to: SerializableWatType,
    ) -> Result<ValidatorState, WatErrorView> {
        match self.expected_pop_val(operand) {
            Ok(next) => next.step_unary(operand, to),
            Err(e) => Err(e),
        }
    }

    /// The rule of `unreachable`, `nop`, `drop` and `return`.
    pub open spec fn step_simple(
        self,
        instruction: SimpleInstruction,
        results: Seq<SerializableWatType>,
    ) -> Result<ValidatorState, WatErrorView> {
        match instruction {
            SimpleInstruction::Unreachable => Ok(self.mark_unreachable()),
            SimpleInstruction::Nop => Ok(self),
            SimpleInstruction::Drop => match self.pop_val() {
                Ok((next, _)) => Ok(next),
                Err(e) => Err(e),
            },
            SimpleInstruction::Return => self.pop_vals(results),
        }
    }

    /// The rule of a block marker. `block`, `loop` and `if` take the inputs
    /// of the block, `if` after its condition, and open a block; `else`
    /// closes the first arm of an `if` and opens the second with the same
    /// signature; `end` closes a block and leaves its outputs. A marker
    /// without a signature has the empty one.
    pub open spec fn step_block(
        self,
        label: Seq<char>,
        kind: BlockKind,
        inout: Option<InputOutputView>,
    ) -> Result<ValidatorState, WatErrorView> {
        let signature = match inout {
            Some(io) => io,
            None => InputOutputView::empty(),
        };
        match kind {
            BlockKind::Block | BlockKind::Loop => match self.pop_vals(signature.input_types()) {
                Ok(next) => Ok(
                    next.push_control(kind, label, signature.input_types(), signature.output),
                ),
                Err(e) => Err(e),
            },
            BlockKind::If => match self.expected_pop_val(SerializableWatType::I32) {
                Ok(after) => match after.pop_vals(signature.input_types()) {
                    Ok(next) => Ok(
                        next.push_control(kind, label, signature.input_types(), signature.output),
                    ),
                    Err(e) => Err(e),
                },
                Err(e) => Err(e),
            },
            BlockKind::Else => match self.pop_control() {
                Ok((next, frame)) => if frame.opcode == BlockKind::If {
                    Ok(next.push_control(kind, label, frame.start_types, frame.end_types))
                } else {
                    Err(WatError::spec_else_without_if_error())
                },
                Err(e) => Err(e),
            },
            BlockKind::End => match self.pop_control() {
                Ok((next, frame)) => Ok(next.push_vals(frame.end_types)),
                Err(e) => Err(e),
            },
        }
    }

    /// The first fault among the labels of a table from position `from`
    /// on: a label that refers to no block, or to one whose branch types
    /// are not `types`.
    pub open spec fn labels_failure(
        self,
        labels: Seq<Seq<char>>,
        types: Seq<SerializableWatType>,
        from: int,
    ) -> Option<WatErrorView>
        decreases labels.len() - from,
    {
        if from < 0 || from >= labels.len() {
            None
        } else {
            match self.find_frame(labels[from]) {
                Ok(frame) => if frame.label_types() == types {
                    self.labels_failure(labels, types, from + 1)
                } else {
                    Some(WatError::spec_mismatched_inout(types, frame.label_types(), false))
                },
                Err(e) => Some(e),
            }
        }
    }

    /// The rule of a branch. The types are those of the default label.
    /// `br` takes them and makes the rest unreachable; `br_if` takes its
    /// condition and the types and puts the types back; `br_table` takes
    /// its selector, wants every other label to carry the same types, takes
    /// the types and makes the rest unreachable.
    pub open spec fn step_branch(
        self,
        default_label: Seq<char>,
        other_labels: Seq<Seq<char>>,
        is_conditional: bool,
    ) -> Result<ValidatorState, WatErrorView> {
        match self.find_frame(default_label) {
            Ok(frame) => {
                let types = frame.label_types();
                if other_labels.len() == 0 {
                    if is_conditional {
                        match self.expected_pop_val(SerializableWatType::I32) {
                            Ok(after) => match after.pop_vals(types) {
                                Ok(next) => Ok(next.push_vals(types)),
                                Err(e) => Err(e),
                            },
                            Err(e) => Err(e),
                        }
                    } else {
                        match self.pop_vals(types) {
                            Ok(next) => Ok(next.mark_unreachable()),
                            Err(e) => Err(e),
                        }
                    }
                } else {
                    match self.expected_pop_val(SerializableWatType::I32) {
                        Ok(after) => match after.labels_failure(other_labels, types, 0) {
                            Some(e) => Err(e),
                            None => match after.pop_vals(types) {
                                Ok(next) => Ok(next.mark_unreachable()),
                                Err(e) => Err(e),
                            },
                        },
                        Err(e) => Err(e),
                    }
                }
            },
            Err(e) => Err(e),
        }
    }

    /// The rule of a call: the callee has to be a function of the module.
    /// The empty signature stands for that of the callee.
    pub open spec fn step_call(
        self,
        context: ModuleContext,
        index: Seq<char>,
        inout: InputOutputView,
    ) -> Result<ValidatorState, WatErrorView> {
        match context.functions.lookup(index) {
            Some(declared) => {
                let (inputs, outputs) = if inout == InputOutputView::empty() {
                    declared
                } else {
                    (inout.input_types(), inout.output)
                };
                match self.pop_vals(inputs) {
                    Ok(next) => Ok(next.push_vals(outputs)),
                    Err(e) => Err(e),
                }
            },
            None => Err(WatError::spec_name_resolution_error(index, NumLocationKind::Function)),
        }
    }

    /// The rule of an access to a local, a global or the size of a memory.
    pub open spec fn step_data(
        self,
        context: ModuleContext,
        locals: Catalog<SerializableWatType>,
        kind: DataInstruction,
        location: Seq<char>,
    ) -> Result<ValidatorState, WatErrorView> {
        match kind {
            DataInstruction::GetLocal => match locals.lookup(location) {
                Some(typ) => Ok(self.push_val(typ)),
                None => Err(WatError::spec_local_resolution_error(location)),
            },
            DataInstruction::SetLocal => match locals.lookup(location) {
                Some(typ) => self.expected_pop_val(typ),
                None => Err(WatError::spec_local_resolution_error(location)),
            },
            DataInstruction::TeeLocal => match locals.lookup(location) {
                Some(typ) => self.step_unary(typ, typ),
                None => Err(WatError::spec_local_resolution_error(location)),
            },
            DataInstruction::GetGlobal => match context.globals.lookup(location) {
                Some((_, typ)) => Ok(self.push_val(typ)),
                None => Err(WatError::spec_name_resolution_error(location, NumLocationKind::Global)),
            },
            DataInstruction::SetGlobal => match context.globals.lookup(location) {
                Some((mutable, typ)) => if mutable {
                    self.expected_pop_val(typ)
                } else {
                    Err(WatError::spec_setting_immutable_global_error(location))
                },
                None => Err(WatError::spec_name_resolution_error(location, NumLocationKind::Global)),
            },
            DataInstruction::GetMemorySize => match context.memories.lookup(location) {
                Some(_) => Ok(self.push_val(SerializableWatType::I32)),
                None => Err(WatError::spec_name_resolution_error(location, NumLocationKind::Memory)),
            },
            DataInstruction::SetMemorySize => match context.memories.lookup(location) {
                Some(_) => self.step_unary(SerializableWatType::I32, SerializableWatType::I32),
                None => Err(WatError::spec_name_resolution_error(location, NumLocationKind::Memory)),
            },
        }
    }

    /// The rule of a load or store: a store takes the value and then the
    /// address, a load takes the address and leaves the value.
    pub open spec fn step_memory(
        self,
        context: ModuleContext,
        location: Seq<char>,
        typ: SerializableWatType,
        is_storing: bool,
    ) -> Result<ValidatorState, WatErrorView> {
        match context.memories.lookup(location) {
            Some(_) => if is_storing {
                match self.expected_pop_val(typ) {
                    Ok(next) => next.expected_pop_val(SerializableWatType::I32),
                    Err(e) => Err(e),
                }
            } else {
                self.step_unary(SerializableWatType::I32, typ)
            },
            None => Err(WatError::spec_name_resolution_error(location, NumLocationKind::Memory)),
        }
    }

    /// The state after one instruction, or the fault that the instruction
    /// is. `results` are the result types of the function, `locals` its
    /// parameters and locals.
    pub open spec fn step(
        self,
        context: ModuleContext,
        instruction: SerializedInstructionView,
        results: Seq<SerializableWatType>,
        locals: Catalog<SerializableWatType>,
    ) -> Result<ValidatorState, WatErrorView> {
        match instruction {
            SerializedInstructionView::Simple(s) => self.step_simple(s, results),
            SerializedInstructionView::Block { label, kind, inout } => self.step_block(
                label,
                kind,
                inout,
            ),
            SerializedInstructionView::Branch {
                default_label,
                other_labels,
                is_conditional,
            } => self.step_branch(default_label, other_labels, is_conditional),
            SerializedInstructionView::Call { index, inout } => self.step_call(context, index, inout),
            SerializedInstructionView::Data { kind, location } => self.step_data(
                context,
                locals,
                kind,
                location,
            ),
            SerializedInstructionView::Memory { location, typ, is_storing, .. } => self.step_memory(
                context,
                location,
                typ,
                is_storing,
            ),
            SerializedInstructionView::Const { typ, .. } => Ok(self.push_val(typ)),
            SerializedInstructionView::Arithmetic { typ, .. } => self.step_binary(typ, typ),
            SerializedInstructionView::Comparison { kind, typ } => if kind
                == ComparisonOperation::EqualZero {
                self.step_unary(typ, SerializableWatType::I32)
            } else {
                self.step_binary(typ, SerializableWatType::I32)
            },
            SerializedInstructionView::Bitwise { kind, is_64_bit } => {
                let typ = integer_type(is_64_bit);
                if is_counting(kind) {
                    self.step_unary(typ, typ)
                } else {
                    self.step_binary(typ, typ)
                }
            },
            SerializedInstructionView::Float { kind, is_64_bit } => {
                let typ = float_type(is_64_bit);
                if is_float_binary(kind) {
                    self.step_binary(typ, typ)
                } else {
                    self.step_unary(typ, typ)
                }
            },
            SerializedInstructionView::Conversion(c) => self.step_unary(
                c.source_type(),
                c.target_type(),
            ),
            SerializedInstructionView::DefaultString(msg) => Err(
                WatError::spec_unimplemented_error("Instruction not supported: "@ + msg),
            ),
        }
    }

    /// The state after a sequence of instructions, or the first fault.
    pub open spec fn run(
        self,
        context: ModuleContext,
        instructions: Seq<SerializedInstructionView>,
        results: Seq<SerializableWatType>,
        locals: Catalog<SerializableWatType>,
    ) -> Result<ValidatorState, WatErrorView>
        decreases instructions.len(),
    {
        if instructions.len() == 0 {
            Ok(self)
        } else {
            match self.step(context, instructions.first(), results, locals) {
                Ok(next) => next.run(context, instructions.drop_first(), results, locals),
                Err(e) => Err(e),
            }
        }
    }
}

/// The integer type of a width.
pub open spec fn integer_type(is_64_bit: bool) -> SerializableWatType {
    if is_64_bit {
        SerializableWatType::I64
    } else {
        SerializableWatType::I32
    }
}

/// The float type of a width.
pub open spec fn float_type(is_64_bit: bool) -> SerializableWatType {
    if is_64_bit {
        SerializableWatType::F64
    } else {
        SerializableWatType::F32
    }
}

/// Whether a bitwise operation counts bits: these take one operand.
pub open spec fn is_counting(kind: BitwiseOperation) -> bool {
    kind == BitwiseOperation::CountLeadingZero || kind == BitwiseOperation::CountTrailingZero
        || kind == BitwiseOperation::CountNonZero
}

/// Whether a float operation takes two operands.
pub open spec fn is_float_binary(kind: FloatOperation) -> bool {
    kind == FloatOperation::Minimum || kind == FloatOperation::Maximum || kind
        == FloatOperation::CopySign
}

/// The parameters and locals of a function as one list of variables.
pub open spec fn variables(
    params: Seq<(Option<Seq<char>>, SerializableWatType)>,
    locals: Seq<(Option<Seq<char>>, SerializableWatType)>,
) -> Catalog<SerializableWatType> {
    let all = params + locals;
    Catalog {
        names: Seq::new(all.len(), |i: int| all[i].0),
        values: Seq::new(all.len(), |i: int| all[i].1),
    }
}

/// The state in which a valid function body ends: run from the start
/// state, it leaves exactly the results, which are taken.
pub open spec fn function_end(
    context: ModuleContext,
    instructions: Seq<SerializedInstructionView>,
    params: Seq<(Option<Seq<char>>, SerializableWatType)>,
    locals: Seq<(Option<Seq<char>>, SerializableWatType)>,
    results: Seq<SerializableWatType>,
) -> Result<ValidatorState, WatErrorView> {
    match ValidatorState::at_function_start(results).run(
        context,
        instructions,
        results,
        variables(params, locals),
    ) {
        Ok(body) => match body.pop_vals(results) {
            Ok(rest) => if rest.values.len() == 0 {
                Ok(rest)
            } else {
                Err(WatError::spec_extra_items_on_stack_error(rest.values))
            },
            Err(e) => Err(e),
        },
        Err(e) => Err(e),
    }
}

/// Whether a function body is valid, or the first fault in it.
pub open spec fn function_verdict(
    context: ModuleContext,
    instructions: Seq<SerializedInstructionView>,
    params: Seq<(Option<Seq<char>>, SerializableWatType)>,
    locals: Seq<(Option<Seq<char>>, SerializableWatType)>,
    results: Seq<SerializableWatType>,
) -> Result<(), WatErrorView> {
    match function_end(context, instructions, params, locals, results) {
        Ok(_) => Ok(()),
        Err(e) => Err(e),
    }
}

/// Taking operands leaves the open blocks as they are.
pub proof fn lemma_pop_vals_keeps_frames(state: ValidatorState, types: Seq<SerializableWatType>)
    ensures
        state.pop_vals(types) matches Ok(next) ==> next.frames == state.frames && next.values.len()
            <= state.values.len(),
    decreases types.len(),
{
    if types.len() > 0 {
        match state.expected_pop_val(types.last()) {
            Ok(next) => {
                lemma_pop_vals_keeps_frames(next, types.drop_last());
            },
            Err(_) => {},
        }
    }
}

proof fn lemma_first_labelled_prefix(frames: Seq<ControlFrameView>, label: Seq<char>, n: int)
    requires
        0 <= n <= frames.len(),
        first_labelled(frames.take(n), label) is Some,
    ensures
        first_labelled(frames, label) == first_labelled(frames.take(n), label),
    decreases frames.len() - n,
{
    if n < frames.len() {
        assert(frames.take(n + 1).drop_last() =~= frames.take(n));
        lemma_first_labelled_prefix(frames, label, n + 1);
    } else {
        assert(frames.take(n) =~= frames);
    }
}

/// The items of a module that instructions may refer to.
pub struct ModuleContext {
    /// Mutability and type of each global.
    pub globals: Catalog<(bool, SerializableWatType)>,
    pub memories: Catalog<()>,
    /// Parameter and result types of each function.
    pub functions: Catalog<(Seq<SerializableWatType>, Seq<SerializableWatType>)>,
}

/// The validator: the value stack, the control stack, and what the module
/// declares.
#[derive(Debug, Clone, PartialEq, Eq)]
pub struct Validator {
    value_stack: Vec<SerializableWatType>,
    control_stack: Vec<ControlFrame>,
    globals: ValueMapping<(bool, SerializableWatType)>,
    memories: ValueMapping<()>,
    functions: ValueMapping<(Vec<SerializableWatType>, Vec<SerializableWatType>)>,
}

impl Validator {
    /// The two stacks.
    pub closed spec fn state(&self) -> ValidatorState {
        ValidatorState { values: self.value_stack@, frames: self.control_stack.deep_view() }
    }

    /// What the module declares.
    pub closed spec fn context(&self) -> ModuleContext {
        ModuleContext {
            globals: self.globals.catalog(),
            memories: self.memories.catalog(),
            functions: self.functions.catalog(),
        }
    }

    /// A validator with empty stacks for the items of `structure`. An
    /// item without an identifier answers to its position only.
    pub fn new(structure: &InterpreterStructure) -> (r: Self)
        ensures
            r.state() == (ValidatorState { values: Seq::empty(), frames: Seq::empty() }),
            r.context() == structure.deep_view().context(),
    {
        let ghost view = structure.deep_view();
        let ghost want = view.context();
        proof {
            lemma_deep_view_index(structure.globals);
            lemma_deep_view_index(structure.memory);
            lemma_deep_view_index(structure.func);
        }
        let mut globals: ValueMapping<(bool, SerializableWatType)> = ValueMapping::new();
        let mut i: usize = 0;
        while i < structure.globals.len()
            invariant
                i <= structure.globals.len(),
                view == structure.deep_view(),
                view.globals.len() == structure.globals.len(),
                globals.keys() == view.context().globals.names.take(i as int),
                globals.items() == view.context().globals.values.take(i as int),
            decreases structure.globals.len() - i,
        {
            proof {
                lemma_deep_view_index(structure.globals);
            }
            let g = &structure.globals[i];
            globals.push(name_key(&g.name), (g.is_mutable, g.typ));
            proof {
                assert(globals.keys() =~= view.context().globals.names.take(i + 1));
                assert(globals.items() =~= view.context().globals.values.take(i + 1));
            }
            i = i + 1;
        }
        let mut memories: ValueMapping<()> = ValueMapping::new();
        let mut j: usize = 0;
        while j < structure.memory.len()
            invariant
                j <= structure.memory.len(),
                view == structure.deep_view(),
                view.memory.len() == structure.memory.len(),
                memories.keys() == view.context().memories.names.take(j as int),
                memories.items() == view.context().memories.values.take(j as int),
            decreases structure.memory.len() - j,
        {
            proof {
                lemma_deep_view_index(structure.memory);
            }
            memories.push(name_key(&structure.memory[j].name), ());
            proof {
                assert(memories.keys() =~= view.context().memories.names.take(j + 1));
                assert(memories.items() =~= view.context().memories.values.take(j + 1));
            }
            j = j + 1;
        }
        let mut functions: ValueMapping<
            (Vec<SerializableWatType>, Vec<SerializableWatType>),
        > = ValueMapping::new();
        let mut k: usize = 0;
        proof {
            assert(functions.catalog().values =~= view.context().functions.values.take(0));
        }
        while k < structure.func.len()
            invariant
                k <= structure.func.len(),
                view == structure.deep_view(),
                view.func.len() == structure.func.len(),
                functions.keys() == view.context().functions.names.take(k as int),
                functions.catalog().values == view.context().functions.values.take(k as int),
            decreases structure.func.len() - k,
        {
            proof {
                lemma_deep_view_index(structure.func);
            }
            let f = &structure.func[k];
            let ghost before = functions;
            let signature = (f.info.get_input_types(), copy_types(&f.info.output));
            functions.push(f.name(), signature);
            proof {
                assert(signature.0.deep_view() =~= signature.0@);
                assert(signature.1.deep_view() =~= signature.1@);
                assert(functions.keys() =~= view.context().functions.names.take(k + 1));
                assert(functions.catalog().values =~= view.context().functions.values.take(
                    k + 1,
                )) by {
                    assert forall|n: int| 0 <= n < k implies functions.catalog().values[n]
                        == view.context().functions.values[n] by {
                        assert(functions.items()[n] == before.items()[n]);
                        assert(before.catalog().values[n] == view.context().functions.values.take(
                            k as int,
                        )[n]);
                    }
                }
            }
            k = k + 1;
        }
        proof {
            assert(globals.catalog().names =~= want.globals.names);
            assert(globals.catalog().values =~= want.globals.values);
            assert(memories.catalog().names =~= want.memories.names);
            assert(memories.catalog().values =~= want.memories.values);
            assert(functions.catalog().names =~= want.functions.names);
            assert(functions.catalog().values =~= want.functions.values);
        }
        Self::from_items(globals, memories, functions)
    }

    /// A validator with empty stacks for a module with the given items.
    pub fn from_items(
        globals: ValueMapping<(bool, SerializableWatType)>,
        memories: ValueMapping<()>,
        functions: ValueMapping<(Vec<SerializableWatType>, Vec<SerializableWatType>)>,
    ) -> (r: Self)
        ensures
            r.state() == (ValidatorState { values: Seq::empty(), frames: Seq::empty() }),
            r.context() == (ModuleContext {
                globals: globals.catalog(),
                memories: memories.catalog(),
                functions: functions.catalog(),
            }),
    {
        let r = Validator {
            value_stack: Vec::new(),
            control_stack: Vec::new(),
            globals,
            memories,
            functions,
        };
        assert(r.control_stack.deep_view() =~= Seq::empty());
        r
    }

    /// Empties both stacks.
    pub fn reset_stack(&mut self)
        ensures
            final(self).state() == (ValidatorState { values: Seq::empty(), frames: Seq::empty() }),
            final(self).context() == old(self).context(),
    {
        self.value_stack.clear();
        self.control_stack.clear();
        assert(self.control_stack.deep_view() =~= Seq::empty());
    }

    /// The types on the value stack, the top last.
    pub fn value_stack(&self) -> (r: Vec<SerializableWatType>)
        ensures
            r@ == self.state().values,
    {
        copy_types(&self.value_stack)
    }

    /// The number of open blocks.
    pub fn depth(&self) -> (r: usize)
        ensures
            r == self.state().frames.len(),
    {
        proof {
            lemma_deep_view_index(self.control_stack);
        }
        self.control_stack.len()
    }

    /// Puts a type on the value stack.
    pub fn push_val(&mut self, typ: SerializableWatType)
        ensures
            final(self).state() == old(self).state().push_val(typ),
            final(self).context() == old(self).context(),
    {
        self.value_stack.push(typ);
    }

    fn floor(&self) -> (r: (usize, bool))
        ensures
            r.0 == self.state().floor(),
            r.1 == self.state().in_unreachable_code(),
    {
        proof {
            lemma_deep_view_index(self.control_stack);
        }
        let n = self.control_stack.len();
        if n == 0 {
            (0, false)
        } else {
            (self.control_stack[n - 1].height, self.control_stack[n - 1].unreachable)
        }
    }

    /// Takes the top of the value stack; `None` is the operand of no type
    /// that unreachable code yields.
    pub fn pop_val(&mut self) -> (r: WatResult<Option<SerializableWatType>>)
        ensures
            final(self).context() == old(self).context(),
            match r {
                Ok(t) => old(self).state().pop_val() == Ok::<
                    (ValidatorState, Option<SerializableWatType>),
                    WatErrorView,
                >((final(self).state(), t)),
                Err(e) => old(self).state().pop_val() == Err::<
                    (ValidatorState, Option<SerializableWatType>),
                    WatErrorView,
                >(e.deep_view()) && final(self).state() == old(self).state(),
            },
    {
        let (floor, unreachable) = self.floor();
        if self.value_stack.len() > floor {
            let top = self.value_stack.pop();
            assert(self.value_stack@ =~= old(self).value_stack@.drop_last());
            Ok(top)
        } else if unreachable {
            Ok(None)
        } else {
            Err(WatError::empty_stack(1))
        }
    }

    /// Takes the top of the value stack, which has to be of type
    /// `expected`; gives that type.
    pub fn expected_pop_val(&mut self, expected: &SerializableWatType) -> (r: WatResult<
        SerializableWatType,
    >)
        ensures
            final(self).context() == old(self).context(),
            match r {
                Ok(t) => t == *expected && old(self).state().expected_pop_val(*expected) == Ok::<
                    ValidatorState,
                    WatErrorView,
                >(final(self).state()),
                Err(e) => old(self).state().expected_pop_val(*expected) == Err::<
                    ValidatorState,
                    WatErrorView,
                >(e.deep_view()),
            },
    {
        match self.pop_val() {
            Ok(Some(actual)) => {
                if actual != *expected {
                    Err(WatError::unexpected_type(expected, &actual))
                } else {
                    Ok(actual)
                }
            },
            Ok(None) => Ok(*expected),
            Err(e) => Err(e),
        }
    }

    /// Puts types on the value stack, the last of `types` on top.
    pub fn push_vals(&mut self, types: &[SerializableWatType])
        ensures
            final(self).state() == old(self).state().push_vals(types@),
            final(self).context() == old(self).context(),
    {
        let mut i: usize = 0;
        while i < types.len()
            invariant
                i <= types.len(),
                self.value_stack@ == old(self).value_stack@ + types@.take(i as int),
                self.control_stack == old(self).control_stack,
                self.globals == old(self).globals,
                self.memories == old(self).memories,
                self.functions == old(self).functions,
            decreases types.len() - i,
        {
            self.value_stack.push(types[i]);
            assert(self.value_stack@ =~= old(self).value_stack@ + types@.take(i + 1));
            i = i + 1;
        }
        assert(types@.take(types.len() as int) =~= types@);
    }

    /// Takes operands of the given types from the value stack, the last of
    /// `types` from the top; gives the types taken.
    pub fn pop_vals(&mut self, types: &[SerializableWatType]) -> (r: WatResult<
        Vec<SerializableWatType>,
    >)
        ensures
            final(self).context() == old(self).context(),
            match r {
                Ok(taken) => taken@ == types@ && old(self).state().pop_vals(types@) == Ok::<
                    ValidatorState,
                    WatErrorView,
                >(final(self).state()),
                Err(e) => old(self).state().pop_vals(types@) == Err::<
                    ValidatorState,
                    WatErrorView,
                >(e.deep_view()),
            },
    {
        let mut i: usize = types.len();
        proof {
            assert(types@.take(i as int) =~= types@);
        }
        while i > 0
            invariant
                i <= types.len(),
                self.context() == old(self).context(),
                old(self).state().pop_vals(types@) == self.state().pop_vals(types@.take(i as int)),
            decreases i,
        {
            i = i - 1;
            proof {
                let prefix = types@.take(i + 1);
                assert(prefix.drop_last() =~= types@.take(i as int));
                assert(prefix.last() == types@[i as int]);
            }
            match self.expected_pop_val(&types[i]) {
                Ok(_) => {},
                Err(e) => {
                    return Err(e);
                },
            }
        }
        Ok(copy_types(types))
    }

    /// Opens a block at the present height of the value stack.
    pub fn push_control(
        &mut self,
        opcode: BlockKind,
        label: &String,
        input: Vec<SerializableWatType>,
        output: Vec<SerializableWatType>,
    )
        ensures
            final(self).state() == old(self).state().push_control(opcode, label@, input@, output@),
            final(self).context() == old(self).context(),
    {
        let name = if label.as_str().unicode_len() == 0 {
            None
        } else {
            Some(label.clone())
        };
        let frame = ControlFrame {
            opcode,
            label: name,
            start_types: input,
            end_types: output,
            height: self.value_stack.len(),
            unreachable: false,
        };
        let ghost before = self.control_stack;
        self.control_stack.push(frame);
        proof {
            lemma_deep_view_push(before, self.control_stack, frame);
        }
    }

    /// Closes the innermost block and gives its frame.
    pub fn pop_control(&mut self) -> (r: WatResult<ControlFrame>)
        ensures
            final(self).context() == old(self).context(),
            match r {
                Ok(frame) => old(self).state().pop_control() == Ok::<
                    (ValidatorState, ControlFrameView),
                    WatErrorView,
                >((final(self).state(), frame.deep_view())),
                Err(e) => old(self).state().pop_control() == Err::<
                    (ValidatorState, ControlFrameView),
                    WatErrorView,
                >(e.deep_view()),
            },
    {
        proof {
            lemma_deep_view_index(self.control_stack);
        }
        let n = self.control_stack.len();
        if n == 0 {
            return Err(WatError::empty_stack(1));
        }
        let end_types = copy_types(&self.control_stack[n - 1].end_types);
        let height = self.control_stack[n - 1].height;
        proof {
            lemma_pop_vals_keeps_frames(self.state(), end_types@);
        }
        match self.pop_vals(&end_types) {
            Ok(_) => {},
            Err(e) => {
                return Err(e);
            },
        }
        if self.value_stack.len() != height {
            return Err(WatError::wrong_arity_error(height, self.value_stack.len()));
        }
        proof {
            lemma_deep_view_index(self.control_stack);
        }
        let ghost before = self.control_stack;
        match self.control_stack.pop() {
            Some(frame) => {
                proof {
                    assert(self.control_stack.deep_view() =~= before.deep_view().drop_last());
                }
                Ok(frame)
            },
            None => Err(WatError::empty_stack(1)),
        }
    }

    /// The types that a branch to the block of `frame` carries.
    pub fn label_types(&self, frame: ControlFrame) -> (r: Vec<SerializableWatType>)
        ensures
            r@ == frame.deep_view().label_types(),
    {
        if frame.opcode == BlockKind::Loop {
            frame.start_types
        } else {
            frame.end_types
        }
    }

    /// Marks the rest of the innermost block as unreachable.
    pub fn unreachable(&mut self)
        ensures
            final(self).state() == old(self).state().mark_unreachable(),
            final(self).context() == old(self).context(),
    {
        proof {
            lemma_deep_view_index(self.control_stack);
        }
        let n = self.control_stack.len();
        if n > 0 {
            let height = self.control_stack[n - 1].height;
            self.value_stack.truncate(height);
            let ghost before = self.control_stack;
            let mut top = self.control_stack[n - 1].duplicate();
            top.unreachable = true;
            self.control_stack.set(n - 1, top);
            proof {
                assert(self.control_stack.deep_view() =~= before.deep_view().update(
                    n - 1,
                    ControlFrameView { unreachable: true, ..before.deep_view()[n - 1] },
                ));
            }
        }
    }

    /// The frame of the block that `label` refers to.
    pub fn try_get_control_frame(&self, label: &str) -> (r: WatResult<ControlFrame>)
        ensures
            match r {
                Ok(frame) => self.state().find_frame(label@) == Ok::<ControlFrameView, WatErrorView>(
                    frame.deep_view(),
                ),
                Err(e) => self.state().find_frame(label@) == Err::<ControlFrameView, WatErrorView>(
                    e.deep_view(),
                ),
            },
    {
        proof {
            lemma_deep_view_index(self.control_stack);
        }
        let n = self.control_stack.len();
        match try_name_to_index(label) {
            Ok(depth) => {
                if depth < n {
                    Ok(self.control_stack[n - 1 - depth].duplicate())
                } else {
                    Err(WatError::index_out_of_range_range(n, depth))
                }
            },
            Err(name) => {
                let key = String::from_str(name);
                let ghost frames = self.control_stack.deep_view();
                let mut i: usize = 0;
                proof {
                    assert(frames.take(0) =~= Seq::empty());
                }
                while i < n
                    invariant
                        i <= n,
                        n == self.control_stack.len(),
                        frames == self.control_stack.deep_view(),
                        frames.len() == n,
                        key@ == label@,
                        parse_index(label@) is None,
                        first_labelled(frames.take(i as int), label@) is None,
                    decreases n - i,
                {
                    proof {
                        lemma_deep_view_index(self.control_stack);
                        assert(frames.take(i + 1).drop_last() =~= frames.take(i as int));
                        assert(frames.take(i + 1).last() == frames[i as int]);
                    }
                    let found = match &self.control_stack[i].label {
                        Some(l) => *l == key,
                        None => false,
                    };
                    if found {
                        proof {
                            lemma_first_labelled_prefix(frames, label@, i + 1);
                        }
                        return Ok(self.control_stack[i].duplicate());
                    }
                    i = i + 1;
                }
                proof {
                    assert(frames.take(n as int) =~= frames);
                }
                Err(WatError::label_resolution_error(name))
            },
        }
    }

    fn validate_unary(&mut self, from: SerializableWatType, to: SerializableWatType) -> (r:
        WatResult<()>)
        ensures
            final(self).context() == old(self).context(),
            outcome_matches(r, old(self).state().step_unary(from, to), final(self).state()),
    {
        match self.expected_pop_val(&from) {
            Ok(_) => {
                self.push_val(to);
                Ok(())
            },
            Err(e) => Err(e),
        }
    }

    fn validate_binary(&mut self, operand: SerializableWatType, to: SerializableWatType) -> (r:
        WatResult<()>)
        ensures
            final(self).context() == old(self).context(),
            outcome_matches(r, old(self).state().step_binary(operand, to), final(self).state()),
    {
        match self.expected_pop_val(&operand) {
            Ok(_) => self.validate_unary(operand, to),
            Err(e) => Err(e),
        }
    }

    fn validate_pop(&mut self, typ: SerializableWatType) -> (r: WatResult<()>)
        ensures
            final(self).context() == old(self).context(),
            outcome_matches(r, old(self).state().expected_pop_val(typ), final(self).state()),
    {
        match self.expected_pop_val(&typ) {
            Ok(_) => Ok(()),
            Err(e) => Err(e),
        }
    }

    fn validate_pops(&mut self, types: &[SerializableWatType]) -> (r: WatResult<()>)
        ensures
            final(self).context() == old(self).context(),
            outcome_matches(r, old(self).state().pop_vals(types@), final(self).state()),
    {
        match self.pop_vals(types) {
            Ok(_) => Ok(()),
            Err(e) => Err(e),
        }
    }

    fn validate_simple(&mut self, instruction: SimpleInstruction, output: &[SerializableWatType]) -> (r:
        WatResult<()>)
        ensures
            final(self).context() == old(self).context(),
            outcome_matches(
                r,
                old(self).state().step_simple(instruction, output@),
                final(self).state(),
            ),
    {
        match instruction {
            SimpleInstruction::Unreachable => {
                self.unreachable();
                Ok(())
            },
            SimpleInstruction::Nop => Ok(()),
            SimpleInstruction::Drop => match self.pop_val() {
                Ok(_) => Ok(()),
                Err(e) => Err(e),
            },
            SimpleInstruction::Return => self.validate_pops(output),
        }
    }

    fn validate_block(
        &mut self,
        label: &String,
        kind: BlockKind,
        inout: &Option<InputOutput>,
    ) -> (r: WatResult<()>)
        ensures
            final(self).context() == old(self).context(),
            outcome_matches(
                r,
                old(self).state().step_block(label@, kind, inout.deep_view()),
                final(self).state(),
            ),
    {
        match kind {
            BlockKind::Block | BlockKind::Loop | BlockKind::If => {
                let (input, output) = match inout {
                    Some(io) => (io.get_input_types(), copy_types(&io.output)),
                    None => (Vec::new(), Vec::new()),
                };
                proof {
                    if inout is None {
                        assert(input@ =~= InputOutputView::empty().input_types());
                    }
                }
                if kind == BlockKind::If {
                    match self.expected_pop_val(&SerializableWatType::I32) {
                        Ok(_) => {},
                        Err(e) => {
                            return Err(e);
                        },
                    }
                }
                match self.pop_vals(&input) {
                    Ok(_) => {},
                    Err(e) => {
                        return Err(e);
                    },
                }
                self.push_control(kind, label, input, output);
                Ok(())
            },
            BlockKind::Else => {
                let frame = match self.pop_control() {
                    Ok(f) => f,
                    Err(e) => {
                        return Err(e);
                    },
                };
                if !frame.is_if() {
                    return Err(WatError::else_without_if_error());
                }
                self.push_control(kind, label, frame.start_types, frame.end_types);
                Ok(())
            },
            BlockKind::End => {
                let frame = match self.pop_control() {
                    Ok(f) => f,
                    Err(e) => {
                        return Err(e);
                    },
                };
                self.push_vals(&frame.end_types);
                Ok(())
            },
        }
    }

    fn check_labels(&self, labels: &Vec<String>, types: &Vec<SerializableWatType>) -> (r:
        WatResult<()>)
        ensures
            match r {
                Ok(()) => self.state().labels_failure(labels.deep_view(), types@, 0) is None,
                Err(e) => self.state().labels_failure(labels.deep_view(), types@, 0) == Some(
                    e.deep_view(),
                ),
            },
    {
        proof {
            lemma_deep_view_index(*labels);
        }
        let mut i: usize = 0;
        while i < labels.len()
            invariant
                i <= labels.len(),
                labels.deep_view().len() == labels.len(),
                forall|j: int| 0 <= j < labels.len() ==> #[trigger] labels.deep_view()[j] == labels@[j]@,
                self.state().labels_failure(labels.deep_view(), types@, 0)
                    == self.state().labels_failure(labels.deep_view(), types@, i as int),
            decreases labels.len() - i,
        {
            let frame = match self.try_get_control_frame(labels[i].as_str()) {
                Ok(f) => f,
                Err(e) => {
                    return Err(e);
                },
            };
            let found = self.label_types(frame);
            if !types_equal(&found, types) {
                return Err(WatError::mismatched_inout(types, &found, false));
            }
            i = i + 1;
        }
        Ok(())
    }

    fn validate_branch(
        &mut self,
        default_label: &String,
        other_labels: &Vec<String>,
        is_conditional: bool,
    ) -> (r: WatResult<()>)
        ensures
            final(self).context() == old(self).context(),
            outcome_matches(
                r,
                old(self).state().step_branch(
                    default_label@,
                    other_labels.deep_view(),
                    is_conditional,
                ),
                final(self).state(),
            ),
    {
        proof {
            lemma_deep_view_index(*other_labels);
        }
        let frame = match self.try_get_control_frame(default_label.as_str()) {
            Ok(f) => f,
            Err(e) => {
                return Err(e);
            },
        };
        let types = self.label_types(frame);
        if other_labels.len() == 0 {
            if is_conditional {
                match self.expected_pop_val(&SerializableWatType::I32) {
                    Ok(_) => {},
                    Err(e) => {
                        return Err(e);
                    },
                }
                match self.pop_vals(&types) {
                    Ok(_) => {},
                    Err(e) => {
                        return Err(e);
                    },
                }
                self.push_vals(&types);
                Ok(())
            } else {
                match self.pop_vals(&types) {
                    Ok(_) => {},
                    Err(e) => {
                        return Err(e);
                    },
                }
                self.unreachable();
                Ok(())
            }
        } else {
            match self.expected_pop_val(&SerializableWatType::I32) {
                Ok(_) => {},
                Err(e) => {
                    return Err(e);
                },
            }
            match self.check_labels(other_labels, &types) {
                Ok(()) => {},
                Err(e) => {
                    return Err(e);
                },
            }
            match self.pop_vals(&types) {
                Ok(_) => {},
                Err(e) => {
                    return Err(e);
                },
            }
            self.unreachable();
            Ok(())
        }
    }

    fn validate_call(&mut self, index: &String, inout: &InputOutput) -> (r: WatResult<()>)
        ensures
            final(self).context() == old(self).context(),
            outcome_matches(
                r,
                old(self).state().step_call(old(self).context(), index@, inout.deep_view()),
                final(self).state(),
            ),
    {
        proof {
            self.functions.lemma_catalog_lookup(index@);
        }
        let (inputs, outputs) = match self.functions.get(index.as_str()) {
            Some(declared) => {
                proof {
                    assert(declared.0.deep_view() =~= declared.0@);
                    assert(declared.1.deep_view() =~= declared.1@);
                }
                if inout.is_empty() {
                    (copy_types(&declared.0), copy_types(&declared.1))
                } else {
                    (inout.get_input_types(), copy_types(&inout.output))
                }
            },
            None => {
                return Err(
                    WatError::name_resolution_error(index.as_str(), NumLocationKind::Function),
                );
            },
        };
        match self.pop_vals(&inputs) {
            Ok(_) => {},
            Err(e) => {
                return Err(e);
            },
        }
        self.push_vals(&outputs);
        Ok(())
    }

    fn validate_data(
        &mut self,
        kind: DataInstruction,
        location: &String,
        locals: &ValueMapping<SerializableWatType>,
    ) -> (r: WatResult<()>)
        ensures
            final(self).context() == old(self).context(),
            outcome_matches(
                r,
                old(self).state().step_data(
                    old(self).context(),
                    locals.catalog(),
                    kind,
                    location@,
                ),
                final(self).state(),
            ),
    {
        proof {
            locals.lemma_catalog_lookup(location@);
            self.globals.lemma_catalog_lookup(location@);
            self.memories.lemma_catalog_lookup(location@);
        }
        match kind {
            DataInstruction::GetLocal | DataInstruction::SetLocal | DataInstruction::TeeLocal => {
                let typ = match locals.get(location.as_str()) {
                    Some(t) => *t,
                    None => {
                        return Err(WatError::local_resolution_error(location.as_str()));
                    },
                };
                match kind {
                    DataInstruction::GetLocal => {
                        self.push_val(typ);
                        Ok(())
                    },
                    DataInstruction::SetLocal => self.validate_pop(typ),
                    _ => self.validate_unary(typ, typ),
                }
            },
            DataInstruction::GetGlobal | DataInstruction::SetGlobal => {
                let (mutable, typ) = match self.globals.get(location.as_str()) {
                    Some(g) => *g,
                    None => {
                        return Err(
                            WatError::name_resolution_error(
                                location.as_str(),
                                NumLocationKind::Global,
                            ),
                        );
                    },
                };
                match kind {
                    DataInstruction::GetGlobal => {
                        self.push_val(typ);
                        Ok(())
                    },
                    _ => {
                        if mutable {
                            self.validate_pop(typ)
                        } else {
                            Err(WatError::setting_immutable_global_error(location.as_str()))
                        }
                    },
                }
            },
            DataInstruction::GetMemorySize | DataInstruction::SetMemorySize => {
                if self.memories.get(location.as_str()).is_none() {
                    return Err(
                        WatError::name_resolution_error(location.as_str(), NumLocationKind::Memory),
                    );
                }
                match kind {
                    DataInstruction::GetMemorySize => {
                        self.push_val(SerializableWatType::I32);
                        Ok(())
                    },
                    _ => self.validate_unary(SerializableWatType::I32, SerializableWatType::I32),
                }
            },
        }
    }

    fn validate_memory(
        &mut self,
        location: &String,
        typ: SerializableWatType,
        is_storing: bool,
    ) -> (r: WatResult<()>)
        ensures
            final(self).context() == old(self).context(),
            outcome_matches(
                r,
                old(self).state().step_memory(old(self).context(), location@, typ, is_storing),
                final(self).state(),
            ),
    {
        proof {
            self.memories.lemma_catalog_lookup(location@);
        }
        if self.memories.get(location.as_str()).is_none() {
            return Err(WatError::name_resolution_error(location.as_str(), NumLocationKind::Memory));
        }
        if is_storing {
            match self.expected_pop_val(&typ) {
                Ok(_) => self.validate_pop(SerializableWatType::I32),
                Err(e) => Err(e),
            }
        } else {
            self.validate_unary(SerializableWatType::I32, typ)
        }
    }

    /// Applies the rule of one instruction to the stacks. `output` are the
    /// result types of the function, `locals` its parameters and locals.
    /// After a fault nothing is promised of the stacks.
    pub fn validate(
        &mut self,
        instruction: &SerializedInstruction,
        output: &[SerializableWatType],
        locals: &ValueMapping<SerializableWatType>,
    ) -> (r: WatResult<()>)
        ensures
            final(self).context() == old(self).context(),
            outcome_matches(
                r,
                old(self).state().step(
                    old(self).context(),
                    instruction.deep_view(),
                    output@,
                    locals.catalog(),
                ),
                final(self).state(),
            ),
    {
        match instruction {
            SerializedInstruction::Simple(s) => self.validate_simple(*s, output),
            SerializedInstruction::Block { label, kind, inout } => self.validate_block(
                label,
                *kind,
                inout,
            ),
            SerializedInstruction::Branch {
                default_label,
                other_labels,
                is_conditional,
            } => self.validate_branch(default_label, other_labels, *is_conditional),
            SerializedInstruction::Call { index, inout } => self.validate_call(index, inout),
            SerializedInstruction::Data { kind, location } => self.validate_data(
                *kind,
                location,
                locals,
            ),
            SerializedInstruction::Memory { location, typ, is_storing, .. } => self.validate_memory(
                location,
                *typ,
                *is_storing,
            ),
            SerializedInstruction::Const { typ, .. } => {
                self.push_val(*typ);
                Ok(())
            },
            SerializedInstruction::Arithmetic { typ, .. } => self.validate_binary(*typ, *typ),
            SerializedInstruction::Comparison { kind, typ } => {
                if *kind == ComparisonOperation::EqualZero {
                    self.validate_unary(*typ, SerializableWatType::I32)
                } else {
                    self.validate_binary(*typ, SerializableWatType::I32)
                }
            },
            SerializedInstruction::Bitwise { kind, is_64_bit } => {
                let typ = if *is_64_bit {
                    SerializableWatType::I64
                } else {
                    SerializableWatType::I32
                };
                if *kind == BitwiseOperation::CountLeadingZero || *kind
                    == BitwiseOperation::CountTrailingZero || *kind
                    == BitwiseOperation::CountNonZero {
                    self.validate_unary(typ, typ)
                } else {
                    self.validate_binary(typ, typ)
                }
            },
            SerializedInstruction::Float { kind, is_64_bit } => {
                let typ = if *is_64_bit {
                    SerializableWatType::F64
                } else {
                    SerializableWatType::F32
                };
                if *kind == FloatOperation::Minimum || *kind == FloatOperation::Maximum || *kind
                    == FloatOperation::CopySign {
                    self.validate_binary(typ, typ)
                } else {
                    self.validate_unary(typ, typ)
                }
            },
            SerializedInstruction::Conversion(c) => {
                let (from, to) = c.signature();
                self.validate_unary(from, to)
            },
            SerializedInstruction::DefaultString(msg) => {
                let mut message = String::from_str("Instruction not supported: ");
                message.append(msg.as_str());
                Err(WatError::unimplemented_error(message.as_str()))
            },
        }
    }

    /// Validates the body of a function: a flat stream of instructions
    /// with its block markers. Both stacks are reset first; after success
    /// the value stack is empty. After a fault nothing is promised of the
    /// stacks.
    pub fn validate_function(
        &mut self,
        instuctions: &[SerializedInstruction],
        params: &[(Option<String>, SerializableWatType)],
        locals: &[(Option<String>, SerializableWatType)],
        results: &[SerializableWatType],
    ) -> (r: WatResult<()>)
        ensures
            final(self).context() == old(self).context(),
            match r {
                Ok(()) => function_end(
                    old(self).context(),
                    instuctions.deep_view(),
                    params.deep_view(),
                    locals.deep_view(),
                    results@,
                ) == Ok::<ValidatorState, WatErrorView>(final(self).state()) && function_verdict(
                    old(self).context(),
                    instuctions.deep_view(),
                    params.deep_view(),
                    locals.deep_view(),
                    results@,
                ) == Ok::<(), WatErrorView>(()) && final(self).state().values.len() == 0,
                Err(e) => function_verdict(
                    old(self).context(),
                    instuctions.deep_view(),
                    params.deep_view(),
                    locals.deep_view(),
                    results@,
                ) == Err::<(), WatErrorView>(e.deep_view()),
            },
    {
        self.reset_stack();
        let no_label = String::from_str("");
        proof {
            reveal_strlit("");
        }
        self.push_control(BlockKind::Block, &no_label, Vec::new(), copy_types(results));
        assert(self.state() =~~= ValidatorState::at_function_start(results@));
        let local_vars = collect_variables(params, locals);
        let ghost context = self.context();
        let ghost all = instuctions.deep_view();
        let ghost vars = local_vars.catalog();
        let ghost start = self.state();
        let mut i: usize = 0;
        proof {
            assert(all.skip(0) =~= all);
        }
        while i < instuctions.len()
            invariant
                i <= instuctions.len(),
                all == instuctions.deep_view(),
                all.len() == instuctions.len(),
                vars == local_vars.catalog(),
                vars == variables(params.deep_view(), locals.deep_view()),
                context == self.context(),
                context == old(self).context(),
                start == ValidatorState::at_function_start(results@),
                start.run(context, all, results@, vars) == self.state().run(
                    context,
                    all.skip(i as int),
                    results@,
                    vars,
                ),
            decreases instuctions.len() - i,
        {
            proof {
                assert(all.skip(i as int).first() == instuctions@[i as int].deep_view());
                assert(all.skip(i as int).drop_first() =~= all.skip(i + 1));
            }
            match self.validate(&instuctions[i], results, &local_vars) {
                Ok(()) => {},
                Err(e) => {
                    return Err(e);
                },
            }
            i = i + 1;
        }
        match self.pop_vals(results) {
            Ok(_) => {},
            Err(e) => {
                return Err(e);
            },
        }
        if self.value_stack.len() != 0 {
            Err(WatError::extra_items_on_stack_error(&self.value_stack))
        } else {
            Ok(())
        }
    }
}

/// Whether what a function returned is what its rule says: on success the
/// state that the rule gives, on failure the fault that the rule gives.
pub open spec fn outcome_matches(
    returned: WatResult<()>,
    rule: Result<ValidatorState, WatErrorView>,
    after: ValidatorState,
) -> bool {
    match returned {
        Ok(()) => rule == Ok::<ValidatorState, WatErrorView>(after),
        Err(e) => rule == Err::<ValidatorState, WatErrorView>(e.deep_view()),
    }
}

fn name_key(name: &String) -> (r: Option<String>)
    ensures
        r.deep_view() == optional_name(name@),
{
    if name.as_str().unicode_len() == 0 {
        None
    } else {
        Some(name.clone())
    }
}

fn types_equal(a: &Vec<SerializableWatType>, b: &Vec<SerializableWatType>) -> (r: bool)
    ensures
        r == (a@ == b@),
{
    if a.len() != b.len() {
        return false;
    }
    let mut i: usize = 0;
    while i < a.len()
        invariant
            i <= a.len(),
            a.len() == b.len(),
            forall|j: int| 0 <= j < i ==> a@[j] == b@[j],
        decreases a.len() - i,
    {
        if a[i] != b[i] {
            return false;
        }
        i = i + 1;
    }
    assert(a@ =~= b@);
    true
}

fn collect_variables(
    params: &[(Option<String>, SerializableWatType)],
    locals: &[(Option<String>, SerializableWatType)],
) -> (r: ValueMapping<SerializableWatType>)
    ensures
        r.catalog() == variables(params.deep_view(), locals.deep_view()),
{
    let ghost all = params.deep_view() + locals.deep_view();
    let mut out: ValueMapping<SerializableWatType> = ValueMapping::new();
    let mut i: usize = 0;
    while i < params.len()
        invariant
            i <= params.len(),
            all == params.deep_view() + locals.deep_view(),
            out.keys() == Seq::new(i as nat, |j: int| all[j].0),
            out.items() == Seq::new(i as nat, |j: int| all[j].1),
        decreases params.len() - i,
    {
        out.push(copy_name(&params[i].0), params[i].1);
        proof {
            assert(all[i as int] == params@[i as int].deep_view());
            assert(out.keys() =~= Seq::new((i + 1) as nat, |j: int| all[j].0));
            assert(out.items() =~= Seq::new((i + 1) as nat, |j: int| all[j].1));
        }
        i = i + 1;
    }
    let mut k: usize = 0;
    while k < locals.len()
        invariant
            k <= locals.len(),
            all == params.deep_view() + locals.deep_view(),
            out.keys() == Seq::new((params.len() + k) as nat, |j: int| all[j].0),
            out.items() == Seq::new((params.len() + k) as nat, |j: int| all[j].1),
        decreases locals.len() - k,
    {
        out.push(copy_name(&locals[k].0), locals[k].1);
        proof {
            assert(all[params.len() + k] == locals@[k as int].deep_view());
            assert(out.keys() =~= Seq::new((params.len() + k + 1) as nat, |j: int| all[j].0));
            assert(out.items() =~= Seq::new((params.len() + k + 1) as nat, |j: int| all[j].1));
        }
        k = k + 1;
    }
    proof {
        assert(out.catalog().names =~= variables(params.deep_view(), locals.deep_view()).names);
        assert(out.catalog().values =~= variables(params.deep_view(), locals.deep_view()).values);
    }
    out
}

/// The operands that an instruction takes and leaves, where that does not
/// depend on the open blocks: the types taken, the last from the top, and
/// the types left. Branches, block markers, `unreachable` and `drop` have
/// none, nor has an instruction that refers to what is not declared.
pub open spec fn operand_signature(
    context: ModuleContext,
    locals: Catalog<SerializableWatType>,
    results: Seq<SerializableWatType>,
    instruction: SerializedInstructionView,
) -> Option<(Seq<SerializableWatType>, Seq<SerializableWatType>)> {
    match instruction {
        SerializedInstructionView::Simple(SimpleInstruction::Nop) => Some(
            (Seq::empty(), Seq::empty()),
        ),
        SerializedInstructionView::Simple(SimpleInstruction::Return) => Some(
            (results, Seq::empty()),
        ),
        SerializedInstructionView::Const { typ, .. } => Some((Seq::empty(), seq![typ])),
        SerializedInstructionView::Arithmetic { typ, .. } => Some((seq![typ, typ], seq![typ])),
        SerializedInstructionView::Comparison { kind, typ } => if kind
            == ComparisonOperation::EqualZero {
            Some((seq![typ], seq![SerializableWatType::I32]))
        } else {
            Some((seq![typ, typ], seq![SerializableWatType::I32]))
        },
        SerializedInstructionView::Bitwise { kind, is_64_bit } => {
            let typ = integer_type(is_64_bit);
            if is_counting(kind) {
                Some((seq![typ], seq![typ]))
            } else {
                Some((seq![typ, typ], seq![typ]))
            }
        },
        SerializedInstructionView::Float { kind, is_64_bit } => {
            let typ = float_type(is_64_bit);
            if is_float_binary(kind) {
                Some((seq![typ, typ], seq![typ]))
            } else {
                Some((seq![typ], seq![typ]))
            }
        },
        SerializedInstructionView::Conversion(c) => Some(
            (seq![c.source_type()], seq![c.target_type()]),
        ),
        SerializedInstructionView::Memory { location, typ, is_storing, .. } => match context.memories.lookup(
            location,
        ) {
            Some(_) => if is_storing {
                Some((seq![SerializableWatType::I32, typ], Seq::empty()))
            } else {
                Some((seq![SerializableWatType::I32], seq![typ]))
            },
            None => None,
        },
        SerializedInstructionView::Data { kind, location } => match kind {
            DataInstruction::GetLocal => match locals.lookup(location) {
                Some(typ) => Some((Seq::empty(), seq![typ])),
                None => None,
            },
            DataInstruction::SetLocal => match locals.lookup(location) {
                Some(typ) => Some((seq![typ], Seq::empty())),
                None => None,
            },
            DataInstruction::TeeLocal => match locals.lookup(location) {
                Some(typ) => Some((seq![typ], seq![typ])),
                None => None,
            },
            DataInstruction::GetGlobal => match context.globals.lookup(location) {
                Some((_, typ)) => Some((Seq::empty(), seq![typ])),
                None => None,
            },
            DataInstruction::SetGlobal => match context.globals.lookup(location) {
                Some((mutable, typ)) => if mutable {
                    Some((seq![typ], Seq::empty()))
                } else {
                    None
                },
                None => None,
            },
            DataInstruction::GetMemorySize => match context.memories.lookup(location) {
                Some(_) => Some((Seq::empty(), seq![SerializableWatType::I32])),
                None => None,
            },
            DataInstruction::SetMemorySize => match context.memories.lookup(location) {
                Some(_) => Some((seq![SerializableWatType::I32], seq![SerializableWatType::I32])),
                None => None,
            },
        },
        SerializedInstructionView::Call { index, inout } => match context.functions.lookup(index) {
            Some(declared) => if inout == InputOutputView::empty() {
                Some(declared)
            } else {
                Some((inout.input_types(), inout.output))
            },
            None => None,
        },
        _ => None,
    }
}

/// The types that an instruction takes, the last from the top; none where
/// it has no operand signature.
pub open spec fn operands_taken(
    context: ModuleContext,
    locals: Catalog<SerializableWatType>,
    results: Seq<SerializableWatType>,
    instruction: SerializedInstructionView,
) -> Seq<SerializableWatType> {
    match operand_signature(context, locals, results, instruction) {
        Some((takes, _)) => takes,
        None => Seq::empty(),
    }
}

/// The types that an instruction leaves; none where it has no operand
/// signature.
pub open spec fn operands_left(
    context: ModuleContext,
    locals: Catalog<SerializableWatType>,
    results: Seq<SerializableWatType>,
    instruction: SerializedInstructionView,
) -> Seq<SerializableWatType> {
    match operand_signature(context, locals, results, instruction) {
        Some((_, leaves)) => leaves,
        None => Seq::empty(),
    }
}

proof fn lemma_pop_none(state: ValidatorState)
    ensures
        state.pop_vals(Seq::empty()) == Ok::<ValidatorState, WatErrorView>(state),
        state.push_vals(Seq::empty()) == state,
{
    assert(state.values + Seq::<SerializableWatType>::empty() =~= state.values);
}

proof fn lemma_pop_one(state: ValidatorState, typ: SerializableWatType)
    ensures
        state.pop_vals(seq![typ]) == state.expected_pop_val(typ),
        state.push_vals(seq![typ]) == state.push_val(typ),
{
    reveal_with_fuel(ValidatorState::pop_vals, 2);
    assert(seq![typ].drop_last() =~= Seq::<SerializableWatType>::empty());
    assert(state.values + seq![typ] =~= state.values.push(typ));
}

proof fn lemma_pop_two(state: ValidatorState, below: SerializableWatType, top: SerializableWatType)
    ensures
        state.pop_vals(seq![below, top]) == match state.expected_pop_val(top) {
            Ok(next) => next.expected_pop_val(below),
            Err(e) => Err(e),
        },
{
    assert(seq![below, top].drop_last() =~= seq![below]);
    match state.expected_pop_val(top) {
        Ok(next) => {
            lemma_pop_one(next, below);
        },
        Err(_) => {},
    }
}

/// The rule that the validator applies to an instruction is its operand
/// signature: it takes the operands of the signature and leaves its
/// results, and fails exactly where those operands cannot be taken.
pub proof fn lemma_step_applies_signature(
    state: ValidatorState,
    context: ModuleContext,
    instruction: SerializedInstructionView,
    results: Seq<SerializableWatType>,
    locals: Catalog<SerializableWatType>,
)
    requires
        operand_signature(context, locals, results, instruction) is Some,
    ensures
        state.step(context, instruction, results, locals) == match state.pop_vals(
            operands_taken(context, locals, results, instruction),
        ) {
            Ok(next) => Ok(next.push_vals(operands_left(context, locals, results, instruction))),
            Err(e) => Err(e),
        },
{
    let takes = operands_taken(context, locals, results, instruction);
    let leaves = operands_left(context, locals, results, instruction);
    lemma_pop_none(state);
    if takes.len() == 1 {
        assert(takes =~= seq![takes[0]]);
        lemma_pop_one(state, takes[0]);
    } else if takes.len() == 2 && !(instruction is Call) && !(instruction is Simple) {
        assert(takes =~= seq![takes[0], takes[1]]);
        lemma_pop_two(state, takes[0], takes[1]);
    }
    match state.pop_vals(takes) {
        Ok(next) => {
            lemma_pop_none(next);
            if leaves.len() == 1 {
                assert(leaves =~= seq![leaves[0]]);
                lemma_pop_one(next, leaves[0]);
            }
        },
        Err(_) => {},
    }
}

/// Operands that lie on the stack above the floor of the innermost block
/// are taken as they are.
pub proof fn lemma_pop_vals_takes(
    state: ValidatorState,
    rest: Seq<SerializableWatType>,
    types: Seq<SerializableWatType>,
)
    requires
        state.values == rest + types,
        rest.len() >= state.floor(),
    ensures
        state.pop_vals(types) == Ok::<ValidatorState, WatErrorView>(
            ValidatorState { values: rest, ..state },
        ),
    decreases types.len(),
{
    if types.len() == 0 {
        assert(rest + types =~= rest);
    } else {
        let next = ValidatorState { values: state.values.drop_last(), ..state };
        assert(state.values.last() == types.last());
        assert(next.values =~= rest + types.drop_last());
        lemma_pop_vals_takes(next, rest, types.drop_last());
    }
}

/// On a stack that holds the operands of an instruction above the floor
/// of the innermost block, the instruction is valid and replaces them by
/// its results.
pub proof fn lemma_signature_is_effect(
    state: ValidatorState,
    context: ModuleContext,
    instruction: SerializedInstructionView,
    results: Seq<SerializableWatType>,
    locals: Catalog<SerializableWatType>,
    rest: Seq<SerializableWatType>,
)
    requires
        operand_signature(context, locals, results, instruction) is Some,
        state.values == rest + operands_taken(context, locals, results, instruction),
        rest.len() >= state.floor(),
    ensures
        state.step(context, instruction, results, locals) == Ok::<ValidatorState, WatErrorView>(
            ValidatorState {
                values: rest + operands_left(context, locals, results, instruction),
                ..state
            },
        ),
{
    lemma_step_applies_signature(state, context, instruction, results, locals);
    lemma_pop_vals_takes(state, rest, operands_taken(context, locals, results, instruction));
}

/// In unreachable code, at the floor of the innermost block, operands of
/// any types can be taken, and the stack stays as it is.
pub proof fn lemma_unreachable_code_yields_any_operands(
    state: ValidatorState,
    types: Seq<SerializableWatType>,
)
    requires
        state.in_unreachable_code(),
        state.values.len() <= state.floor(),
    ensures
        state.pop_vals(types) == Ok::<ValidatorState, WatErrorView>(state),
    decreases types.len(),
{
    if types.len() > 0 {
        lemma_unreachable_code_yields_any_operands(state, types.drop_last());
    }
}

/// `drop` takes the operand on top of the stack, of whatever type, where
/// one lies above the floor of the innermost block.
pub proof fn lemma_drop_takes_any_operand(
    state: ValidatorState,
    context: ModuleContext,
    results: Seq<SerializableWatType>,
    locals: Catalog<SerializableWatType>,
)
    requires
        state.values.len() > state.floor(),
    ensures
        state.step(
            context,
            SerializedInstructionView::Simple(SimpleInstruction::Drop),
            results,
            locals,
        ) == Ok::<ValidatorState, WatErrorView>(
            ValidatorState { values: state.values.drop_last(), ..state },
        ),
{
}

/// An item is found under its position and under its name alike: where
/// the item at `position` is the last one named `name`, and `name` is not
/// itself a number, both keys lead to it.
pub proof fn lemma_position_and_name_agree(
    names: Seq<Option<Seq<char>>>,
    position: nat,
    name: Seq<char>,
)
    requires
        position < names.len(),
        position <= usize::MAX,
        names[position as int] == Some(name),
        forall|later: int| position < later < names.len() ==> names[later] != Some(name),
        parse_index(name) is None,
    ensures
        find_key(names, decimal(position)) == Some(position as int),
        find_key(names, name) == Some(position as int),
{
    crate::text::lemma_parse_decimal(position);
    lemma_find_last_name(names, position as int, name);
}

/// Among items with distinct names, an item is found under its position
/// and under its name alike, unless the name is itself a number.
pub proof fn lemma_lookup_by_position_and_name<V>(
    catalog: Catalog<V>,
    position: nat,
    name: Seq<char>,
)
    requires
        distinct(catalog.names),
        position < catalog.names.len(),
        position <= usize::MAX,
        catalog.names[position as int] == Some(name),
        parse_index(name) is None,
    ensures
        catalog.lookup(decimal(position)) == Some(catalog.values[position as int]),
        catalog.lookup(name) == catalog.lookup(decimal(position)),
{
    lemma_position_and_name_agree(catalog.names, position, name);
}

proof fn lemma_find_last_name(names: Seq<Option<Seq<char>>>, position: int, name: Seq<char>)
    requires
        0 <= position < names.len(),
        names[position] == Some(name),
        forall|later: int| position < later < names.len() ==> names[later] != Some(name),
    ensures
        find_name(names, name) == Some(position),
    decreases names.len(),
{
    if position < names.len() - 1 {
        lemma_find_last_name(names.drop_last(), position, name);
    }
}

} // verus!
