//! Lowering of parsed WebAssembly text modules into a small typed instruction
//! set, and stack-based validation of the result.
//!
//! A parser hands over a module in the form of [`syntax`]. Each source
//! instruction is lowered onto a normalized one ([`instruction`]), the flat
//! stream of a function body is read into its block tree ([`tree`]), the
//! fields of the module are gathered into one structure ([`module`]), and
//! every function is validated against an operand stack and a control stack
//! ([`validator`]). The first fault ends the run with a [`error::WatError`].
//!
//! Every function carries its contract; the model that the contracts speak
//! of is the deep view of each type, with sequences for vectors and strings.

pub mod error;
pub mod helper;
pub mod instruction;
pub mod marker;
pub mod module;
pub mod names;
pub mod syntax;
pub mod text;
pub mod tree;
pub mod validator;
pub mod views;

pub use error::ErrorStage;
pub use error::WatError;
pub use error::WatResult;
pub use marker::NumLocationKind;
pub use module::const_eval_expr;
pub use module::inner_transform;
pub use module::transform;
pub use module::DataValue;
pub use module::GlobalData;
pub use module::InterpreterStructure;
pub use module::MemoryData;
pub use module::TransfromResult;
pub use module::WastFunc;
