//! The engine of an immediate-execution pocket calculator.
//!
//! The engine reads a stream of messages (digits, operators, scientific
//! functions, angle-mode toggles) and keeps a pending input, the last result
//! and at most one operation waiting for its right operand. Operations chain
//! from left to right with no precedence.
//!
//! Floating-point arithmetic stays with the caller: a value is held as its bit
//! pattern (`Number`), and for each message the engine names the `Formula` to
//! evaluate. Whole-number work (the factorial and its decimal text) is done
//! here.
pub mod engine;
pub mod laws;
pub mod number;
pub mod numeral;

pub use engine::{
    AngleMode, Calculator, Evaluation, Formula, LogFunction, Message, Operator, Outcome, Register,
    TrigFunction,
};
pub use number::Number;
