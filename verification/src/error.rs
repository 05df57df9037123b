//! The one error type of the library: a stage, an optional source span and an
//! optional message.

use crate::marker::NumLocationKind;
use crate::marker::SerializableWatType;
use crate::syntax::ParseFailure;
use crate::text::decimal;
use crate::text::usize_to_string;
use vstd::prelude::*;
use vstd::string::StringExecFns;

verus! {

/// A result whose fault is a `WatError`.
pub type WatResult<T> = Result<T, WatError>;

/// The stage of the pipeline that gave up.
#[derive(Debug, Clone, Copy, PartialEq, Eq, Structural)]
pub enum ErrorStage {
    Parsing,
    TypeChecking,
    NameResolving,
    Unimplemented,
}

impl ErrorStage {
    /// The name of the stage as diagnostics print it.
    pub open spec fn name_spec(self) -> Seq<char> {
        match self {
            ErrorStage::Parsing => "Parsing"@,
            ErrorStage::TypeChecking => "TypeChecking"@,
            ErrorStage::NameResolving => "NameResolving"@,
            ErrorStage::Unimplemented => "Unimplemented"@,
        }
    }

    /// The name of the stage as diagnostics print it.
    pub fn name(&self) -> (r: &'static str)
        ensures
            r@ == self.name_spec(),
    {
        match self {
            ErrorStage::Parsing => "Parsing",
            ErrorStage::TypeChecking => "TypeChecking",
            ErrorStage::NameResolving => "NameResolving",
            ErrorStage::Unimplemented => "Unimplemented",
        }
    }
}

/// A range of byte offsets into the source text.
#[derive(Debug, Clone, Copy, PartialEq, Eq, Structural)]
pub struct Span {
    pub start: usize,
    pub end: usize,
}

/// A diagnostic. The first one raised ends the run.
#[derive(Debug, Clone, PartialEq, Eq)]
pub struct WatError {
    span: Option<Span>,
    stage: ErrorStage,
    message: Option<String>,
}

/// What a `WatError` holds, with the message as a sequence of characters.
pub struct WatErrorView {
    pub span: Option<Span>,
    pub stage: ErrorStage,
    pub message: Option<Seq<char>>,
}

impl DeepView for WatError {
    type V = WatErrorView;

    closed spec fn deep_view(&self) -> WatErrorView {
        WatErrorView {
            span: self.span,
            stage: self.stage,
            message: match self.message {
                Some(m) => Some(m@),
                None => None,
            },
        }
    }
}

/// The names of `types`, separated by commas.
pub open spec fn join_type_names(types: Seq<SerializableWatType>) -> Seq<char>
    decreases types.len(),
{
    if types.len() == 0 {
        Seq::empty()
    } else if types.len() == 1 {
        types[0].name_spec()
    } else {
        join_type_names(types.drop_last()) + ","@ + types.last().name_spec()
    }
}

fn type_names(types: &[SerializableWatType]) -> (r: String)
    ensures
        r@ == join_type_names(types@),
{
    let mut out = String::from_str("");
    proof {
        reveal_strlit("");
        assert(out@ =~= join_type_names(types@.take(0)));
    }
    let mut i: usize = 0;
    while i < types.len()
        invariant
            i <= types.len(),
            out@ == join_type_names(types@.take(i as int)),
        decreases types.len() - i,
    {
        let ghost before = types@.take(i as int);
        let ghost after = types@.take(i + 1);
        proof {
            assert(after.drop_last() =~= before);
            assert(after.last() == types@[i as int]);
        }
        if i > 0 {
            out.append(",");
        }
        out.append(types[i].name());
        proof {
            if i == 0 {
                assert(out@ =~= after[0].name_spec());
            }
            assert(out@ =~= join_type_names(after));
        }
        i = i + 1;
    }
    proof {
        assert(types@.take(types.len() as int) =~= types@);
    }
    out
}

impl WatError {
    /// An error without a span.
    pub open spec fn plain(stage: ErrorStage, message: Seq<char>) -> WatErrorView {
        WatErrorView { span: None, stage, message: Some(message) }
    }

    /// An error that covers the one byte at `offset`.
    pub open spec fn located(stage: ErrorStage, offset: usize, message: Seq<char>) -> WatErrorView {
        WatErrorView {
            span: Some(
                Span { start: offset, end: if offset < usize::MAX {
                    (offset + 1) as usize
                } else {
                    offset
                } },
            ),
            stage,
            message: Some(message),
        }
    }

    fn with_message(stage: ErrorStage, message: String) -> (r: Self)
        ensures
            r.deep_view() == Self::plain(stage, message@),
    {
        WatError { span: None, stage, message: Some(message) }
    }

    fn at_offset(stage: ErrorStage, offset: usize, message: String) -> (r: Self)
        ensures
            r.deep_view() == Self::located(stage, offset, message@),
    {
        let end = if offset < usize::MAX {
            offset + 1
        } else {
            offset
        };
        WatError { span: Some(Span { start: offset, end }), stage, message: Some(message) }
    }

    /// The stage that raised the error.
    pub fn stage(&self) -> (r: ErrorStage)
        ensures
            r == self.deep_view().stage,
    {
        self.stage
    }

    /// The span of source that the error points at, if any.
    pub fn span(&self) -> (r: Option<Span>)
        ensures
            r == self.deep_view().span,
    {
        self.span
    }

    /// The message of the error, if any.
    pub fn message(&self) -> (r: Option<String>)
        ensures
            r.deep_view() == self.deep_view().message,
    {
        match &self.message {
            Some(m) => Some(m.clone()),
            None => None,
        }
    }

    /// An error with every part given.
    pub fn from_parts(span: Option<Span>, stage: ErrorStage, message: Option<String>) -> (r: Self)
        ensures
            r.deep_view() == (WatErrorView { span, stage, message: message.deep_view() }),
    {
        WatError { span, stage, message }
    }

    /// A copy of the error.
    pub fn duplicate(&self) -> (r: Self)
        ensures
            r.deep_view() == self.deep_view(),
    {
        WatError { span: self.span, stage: self.stage, message: self.message() }
    }

    /// The printed form: `[Stage Error@start-end]: message`, without the
    /// span or the message where the error has none.
    pub open spec fn text_of(e: WatErrorView) -> Seq<char> {
        let head = "["@ + e.stage.name_spec() + " Error"@;
        let place = match e.span {
            Some(span) => head + "@"@ + decimal(span.start as nat) + "-"@ + decimal(
                span.end as nat,
            ),
            None => head,
        };
        match e.message {
            Some(m) => place + "]: "@ + m,
            None => place + "]"@,
        }
    }

    /// The printed form of the error.
    pub fn to_text(&self) -> (r: String)
        ensures
            r@ == Self::text_of(self.deep_view()),
    {
        let mut out = String::from_str("[");
        out.append(self.stage.name());
        out.append(" Error");
        match self.span {
            Some(span) => {
                out.append("@");
                let start = usize_to_string(span.start);
                out.append(start.as_str());
                out.append("-");
                let end = usize_to_string(span.end);
                out.append(end.as_str());
            },
            None => {},
        }
        match &self.message {
            Some(m) => {
                out.append("]: ");
                out.append(m.as_str());
            },
            None => {
                out.append("]");
            },
        }
        out
    }

    /// The error that `unimplemented_error` makes.
    pub open spec fn spec_unimplemented_error(msg: Seq<char>) -> WatErrorView {
        Self::plain(ErrorStage::Unimplemented, msg)
    }

    /// A feature of the source language that the library does not model.
    pub fn unimplemented_error(msg: &str) -> (r: Self)
        ensures
            r.deep_view() == Self::spec_unimplemented_error(msg@),
    {
        Self::with_message(ErrorStage::Unimplemented, String::from_str(msg))
    }

    /// The error that `invalid_instruction` makes.
    pub open spec fn spec_invalid_instruction(
        expected_type: Seq<char>,
        instruction: Seq<char>,
    ) -> WatErrorView {
        Self::plain(
            ErrorStage::Parsing,
            "Not a valid "@ + expected_type + " instruction: "@ + instruction,
        )
    }

    /// An instruction stands where its family is not allowed. `instruction`
    /// is the rendering of the instruction.
    pub fn invalid_instruction(expected_type: &str, instruction: &str) -> (r: Self)
        ensures
            r.deep_view() == Self::spec_invalid_instruction(expected_type@, instruction@),
    {
        let mut message = String::from_str("Not a valid ");
        message.append(expected_type);
        message.append(" instruction: ");
        message.append(instruction);
        Self::with_message(ErrorStage::Parsing, message)
    }

    /// The error that `parsing_error` makes.
    pub open spec fn spec_parsing_error(offset: usize, message: Seq<char>) -> WatErrorView {
        Self::located(ErrorStage::Parsing, offset, message)
    }

    /// The source text is malformed; the span covers the byte at the
    /// parser's offset.
    pub fn parsing_error(value: ParseFailure) -> (r: Self)
        ensures
            r.deep_view() == Self::spec_parsing_error(value.offset, value.message@),
    {
        Self::at_offset(ErrorStage::Parsing, value.offset, value.message)
    }

    /// The error that `resolution_error` makes.
    pub open spec fn spec_resolution_error(offset: usize, message: Seq<char>) -> WatErrorView {
        Self::located(ErrorStage::NameResolving, offset, message)
    }

    /// The parser could not resolve an identifier.
    pub fn resolution_error(value: ParseFailure) -> (r: Self)
        ensures
            r.deep_view() == Self::spec_resolution_error(value.offset, value.message@),
    {
        Self::at_offset(ErrorStage::NameResolving, value.offset, value.message)
    }

    /// The error that `name_resolution_error` makes.
    pub open spec fn spec_name_resolution_error(
        name: Seq<char>,
        kind: NumLocationKind,
    ) -> WatErrorView {
        Self::plain(ErrorStage::NameResolving, kind.name_spec() + " "@ + name + " not found!"@)
    }

    /// No item of the category `kind` answers to `name`.
    pub fn name_resolution_error(name: &str, kind: NumLocationKind) -> (r: Self)
        ensures
            r.deep_view() == Self::spec_name_resolution_error(name@, kind),
    {
        let mut message = String::from_str(kind.name());
        message.append(" ");
        message.append(name);
        message.append(" not found!");
        Self::with_message(ErrorStage::NameResolving, message)
    }

    /// The error that `local_resolution_error` makes.
    pub open spec fn spec_local_resolution_error(name: Seq<char>) -> WatErrorView {
        Self::plain(ErrorStage::NameResolving, "Local "@ + name + " not found!"@)
    }

    /// No parameter or local answers to `name`.
    pub fn local_resolution_error(name: &str) -> (r: Self)
        ensures
            r.deep_view() == Self::spec_local_resolution_error(name@),
    {
        let mut message = String::from_str("Local ");
        message.append(name);
        message.append(" not found!");
        Self::with_message(ErrorStage::NameResolving, message)
    }

    /// The error that `label_resolution_error` makes.
    pub open spec fn spec_label_resolution_error(name: Seq<char>) -> WatErrorView {
        Self::plain(ErrorStage::NameResolving, "Label "@ + name + " not found in flow of block!"@)
    }

    /// No enclosing block carries the label `name`.
    pub fn label_resolution_error(name: &str) -> (r: Self)
        ensures
            r.deep_view() == Self::spec_label_resolution_error(name@),
    {
        let mut message = String::from_str("Label ");
        message.append(name);
        message.append(" not found in flow of block!");
        Self::with_message(ErrorStage::NameResolving, message)
    }

    /// The error that `type_error` makes.
    pub open spec fn spec_type_error(
        expected: SerializableWatType,
        actual: SerializableWatType,
    ) -> WatErrorView {
        Self::plain(
            ErrorStage::TypeChecking,
            "Expected "@ + expected.name_spec() + " type but got "@ + actual.name_spec()
                + " type!"@,
        )
    }

    /// Two types that had to agree do not.
    pub fn type_error(expected: &SerializableWatType, actual: &SerializableWatType) -> (r: Self)
        ensures
            r.deep_view() == Self::spec_type_error(*expected, *actual),
    {
        let mut message = String::from_str("Expected ");
        message.append(expected.name());
        message.append(" type but got ");
        message.append(actual.name());
        message.append(" type!");
        Self::with_message(ErrorStage::TypeChecking, message)
    }

    /// The error that `setting_immutable_global_error` makes.
    pub open spec fn spec_setting_immutable_global_error(name: Seq<char>) -> WatErrorView {
        Self::plain(ErrorStage::TypeChecking, "Cannot set immutable Global "@ + name + "!"@)
    }

    /// `global.set` on a global that is not mutable.
    pub fn setting_immutable_global_error(name: &str) -> (r: Self)
        ensures
            r.deep_view() == Self::spec_setting_immutable_global_error(name@),
    {
        let mut message = String::from_str("Cannot set immutable Global ");
        message.append(name);
        message.append("!");
        Self::with_message(ErrorStage::TypeChecking, message)
    }

    /// The error that `no_instruction_provided` makes.
    pub open spec fn spec_no_instruction_provided(expected_type: Seq<char>) -> WatErrorView {
        Self::plain(
            ErrorStage::TypeChecking,
            "Expected "@ + expected_type + " instruction but got nothing!"@,
        )
    }

    /// An expression that had to hold an instruction is empty.
    pub fn no_instruction_provided(expected_type: &str) -> (r: Self)
        ensures
            r.deep_view() == Self::spec_no_instruction_provided(expected_type@),
    {
        let mut message = String::from_str("Expected ");
        message.append(expected_type);
        message.append(" instruction but got nothing!");
        Self::with_message(ErrorStage::TypeChecking, message)
    }

    /// The error that `non_initializer_expression` makes.
    pub open spec fn spec_non_initializer_expression() -> WatErrorView {
        Self::plain(
            ErrorStage::TypeChecking,
            "Expect a single const expression for initalizing"@,
        )
    }

    /// An initializer is anything but one constant of the declared type.
    pub fn non_initializer_expression() -> (r: Self)
        ensures
            r.deep_view() == Self::spec_non_initializer_expression(),
    {
        Self::with_message(
            ErrorStage::TypeChecking,
            String::from_str("Expect a single const expression for initalizing"),
        )
    }

    /// The error that `number_to_large` makes.
    pub open spec fn spec_number_to_large() -> WatErrorView {
        Self::plain(ErrorStage::TypeChecking, "Number does not fit in 32 bits"@)
    }

    /// A 64-bit number stands where an offset of 32 bits is needed.
    pub fn number_to_large() -> (r: Self)
        ensures
            r.deep_view() == Self::spec_number_to_large(),
    {
        Self::with_message(
            ErrorStage::TypeChecking,
            String::from_str("Number does not fit in 32 bits"),
        )
    }

    /// The error that `empty_stack` makes.
    pub open spec fn spec_empty_stack(expected: nat) -> WatErrorView {
        Self::spec_not_enough_on_stack(expected, 0)
    }

    /// An operand is missing on an empty stack.
    pub fn empty_stack(expected: usize) -> (r: Self)
        requires
            expected > 0,
        ensures
            r.deep_view() == Self::spec_empty_stack(expected as nat),
    {
        Self::not_enough_on_stack(expected, 0)
    }

    /// The error that `not_enough_on_stack` makes.
    pub open spec fn spec_not_enough_on_stack(expected: nat, actual: nat) -> WatErrorView {
        Self::plain(
            ErrorStage::TypeChecking,
            if expected == 1 && actual == 0 {
                "Expected at least a value on the stack, but nothing is on the stack!"@
            } else if actual == 0 {
                "Expected at least "@ + decimal(expected)
                    + " values on the stack, but nothing is on the stack!"@
            } else {
                "Expected at least "@ + decimal(expected)
                    + " values on the stack, but stack only has "@ + decimal(actual) + "!"@
            },
        )
    }

    /// The stack holds fewer operands than are needed.
    pub fn not_enough_on_stack(expected: usize, actual: usize) -> (r: Self)
        requires
            actual < expected,
        ensures
            r.deep_view() == Self::spec_not_enough_on_stack(expected as nat, actual as nat),
    {
        if expected == 1 && actual == 0 {
            Self::with_message(
                ErrorStage::TypeChecking,
                String::from_str(
                    "Expected at least a value on the stack, but nothing is on the stack!",
                ),
            )
        } else {
            let mut message = String::from_str("Expected at least ");
            let wanted = usize_to_string(expected);
            message.append(wanted.as_str());
            if actual == 0 {
                message.append(" values on the stack, but nothing is on the stack!");
            } else {
                message.append(" values on the stack, but stack only has ");
                let found = usize_to_string(actual);
                message.append(found.as_str());
                message.append("!");
            }
            Self::with_message(ErrorStage::TypeChecking, message)
        }
    }

    /// The error that `mismatched_inout` makes.
    pub open spec fn spec_mismatched_inout(
        expected: Seq<SerializableWatType>,
        actual: Seq<SerializableWatType>,
        is_return: bool,
    ) -> WatErrorView {
        Self::plain(
            ErrorStage::TypeChecking,
            "Expected "@ + (if is_return {
                "Return"@
            } else {
                "Parameter"@
            }) + " types to be ["@ + join_type_names(expected) + "] on the stack, but stack has ["@
                + join_type_names(actual) + "]!"@,
        )
    }

    /// Two lists of types that had to agree do not.
    pub fn mismatched_inout(
        expected: &[SerializableWatType],
        actual: &[SerializableWatType],
        is_return: bool,
    ) -> (r: Self)
        ensures
            r.deep_view() == Self::spec_mismatched_inout(expected@, actual@, is_return),
    {
        let mut message = String::from_str("Expected ");
        if is_return {
            message.append("Return");
        } else {
            message.append("Parameter");
        }
        message.append(" types to be [");
        let wanted = type_names(expected);
        message.append(wanted.as_str());
        message.append("] on the stack, but stack has [");
        let found = type_names(actual);
        message.append(found.as_str());
        message.append("]!");
        Self::with_message(ErrorStage::TypeChecking, message)
    }

    /// The error that `duplicate_name_error` makes.
    pub open spec fn spec_duplicate_name_error(name: Seq<char>) -> WatErrorView {
        Self::plain(ErrorStage::NameResolving, "Name "@ + name + " is defined multiple times"@)
    }

    /// A name is exported twice.
    pub fn duplicate_name_error(name: &str) -> (r: Self)
        ensures
            r.deep_view() == Self::spec_duplicate_name_error(name@),
    {
        let mut message = String::from_str("Name ");
        message.append(name);
        message.append(" is defined multiple times");
        Self::with_message(ErrorStage::NameResolving, message)
    }

    /// The error that `unexpected_type` makes.
    pub open spec fn spec_unexpected_type(
        expected: SerializableWatType,
        actual: SerializableWatType,
    ) -> WatErrorView {
        Self::plain(
            ErrorStage::TypeChecking,
            "Mismatched types, expected "@ + expected.name_spec() + ", but got "@
                + actual.name_spec() + "."@,
        )
    }

    /// The operand on top of the stack has another type than the
    /// instruction takes.
    pub fn unexpected_type(expected: &SerializableWatType, actual: &SerializableWatType) -> (r:
        Self)
        ensures
            r.deep_view() == Self::spec_unexpected_type(*expected, *actual),
    {
        let mut message = String::from_str("Mismatched types, expected ");
        message.append(expected.name());
        message.append(", but got ");
        message.append(actual.name());
        message.append(".");
        Self::with_message(ErrorStage::TypeChecking, message)
    }

    /// The error that `else_without_if_error` makes.
    pub open spec fn spec_else_without_if_error() -> WatErrorView {
        Self::plain(
            ErrorStage::TypeChecking,
            "An else block should only follow after an if block."@,
        )
    }

    /// An `else` that does not close the first arm of an `if`.
    pub fn else_without_if_error() -> (r: Self)
        ensures
            r.deep_view() == Self::spec_else_without_if_error(),
    {
        Self::with_message(
            ErrorStage::TypeChecking,
            String::from_str("An else block should only follow after an if block."),
        )
    }

    /// The error that `unclosed_block_error` makes.
    pub open spec fn spec_unclosed_block_error(label: Seq<char>) -> WatErrorView {
        Self::plain(ErrorStage::Parsing, "Block "@ + label + " is never closed."@)
    }

    /// A block is still open where the instructions end.
    pub fn unclosed_block_error(label: &str) -> (r: Self)
        ensures
            r.deep_view() == Self::spec_unclosed_block_error(label@),
    {
        let mut message = String::from_str("Block ");
        message.append(label);
        message.append(" is never closed.");
        Self::with_message(ErrorStage::Parsing, message)
    }

    /// The error that `index_out_of_range_range` makes.
    pub open spec fn spec_index_out_of_range_range(expected: nat, actual: nat) -> WatErrorView {
        Self::plain(
            ErrorStage::TypeChecking,
            "Index "@ + decimal(actual) + " out of range: max "@ + decimal(expected) + "."@,
        )
    }

    /// A label depth that reaches past the outermost block.
    pub fn index_out_of_range_range(expected: usize, actual: usize) -> (r: Self)
        ensures
            r.deep_view() == Self::spec_index_out_of_range_range(expected as nat, actual as nat),
    {
        let mut message = String::from_str("Index ");
        let found = usize_to_string(actual);
        message.append(found.as_str());
        message.append(" out of range: max ");
        let wanted = usize_to_string(expected);
        message.append(wanted.as_str());
        message.append(".");
        Self::with_message(ErrorStage::TypeChecking, message)
    }

    /// The error that `wrong_arity_error` makes.
    pub open spec fn spec_wrong_arity_error(expected: nat, actual: nat) -> WatErrorView {
        Self::plain(
            ErrorStage::TypeChecking,
            "Expect stack arity to be "@ + decimal(expected) + ", but got "@ + decimal(actual)
                + "."@,
        )
    }

    /// A block ends with another number of operands than it declared.
    pub fn wrong_arity_error(expected: usize, actual: usize) -> (r: Self)
        ensures
            r.deep_view() == Self::spec_wrong_arity_error(expected as nat, actual as nat),
    {
        let mut message = String::from_str("Expect stack arity to be ");
        let wanted = usize_to_string(expected);
        message.append(wanted.as_str());
        message.append(", but got ");
        let found = usize_to_string(actual);
        message.append(found.as_str());
        message.append(".");
        Self::with_message(ErrorStage::TypeChecking, message)
    }

    /// The error that `extra_items_on_stack_error` makes.
    pub open spec fn spec_extra_items_on_stack_error(
        values: Seq<SerializableWatType>,
    ) -> WatErrorView {
        Self::plain(
            ErrorStage::TypeChecking,
            "Expect stack to be empty, but found: "@ + join_type_names(values) + "."@,
        )
    }

    /// Operands are left over at the end of a function.
    pub fn extra_items_on_stack_error(values: &[SerializableWatType]) -> (r: Self)
        ensures
            r.deep_view() == Self::spec_extra_items_on_stack_error(values@),
    {
        let mut message = String::from_str("Expect stack to be empty, but found: ");
        let found = type_names(values);
        message.append(found.as_str());
        message.append(".");
        Self::with_message(ErrorStage::TypeChecking, message)
    }
}

} // verus!
