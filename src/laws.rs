use vstd::prelude::*;

use crate::engine::{
    binary_formula, divides_by_zero, error_marker, formula_for, initial_state, next_state,
    outcome_of, CalculatorView, Evaluation, Formula, Message, Operator, Outcome,
    Register, TrigFunction,
};
use crate::number::Number;
use crate::numeral::whole_number;

verus! {

/// A chain `a OP b =` started with nothing held asks the evaluator for
/// exactly `a OP b` and shows what it found, and the result is held as the
/// next left operand; a division by zero asks for nothing and shows the error
/// marker. Either way the input is consumed.
pub proof fn lemma_two_operand_chain(
    s: CalculatorView,
    a_text: String,
    a: Number,
    operator: Operator,
    b_text: String,
    b: Number,
    e: Evaluation,
)
    requires
        s.register == Register::Idle,
    ensures
        ({
            let s1 = next_state(s, Message::Input(a_text), None, None);
            let s2 = next_state(s1, Message::OperatorPressed(operator), Some(a), None);
            let s3 = next_state(s2, Message::Input(b_text), None, None);
            let s4 = next_state(s3, Message::Calculate, Some(b), Some(e));
            &&& formula_for(s1, Message::OperatorPressed(operator), Some(a)) is None
            &&& s3.register == (Register::Pending { accumulator: a, operator })
            &&& formula_for(s3, Message::Calculate, Some(b)) == binary_formula(operator, a, b)
            &&& s4.input == Seq::<char>::empty()
            &&& if divides_by_zero(operator, b) {
                s4.result == error_marker() && s4.register == Register::Idle
            } else {
                s4.result == e.text@ && s4.register == (Register::Stored { accumulator: e.value })
            }
        }),
{
    let s1 = next_state(s, Message::Input(a_text), None, None);
    assert(s1.register == Register::Idle);
    let s2 = next_state(s1, Message::OperatorPressed(operator), Some(a), None);
    assert(s2.register == (Register::Pending { accumulator: a, operator }));
    let s3 = next_state(s2, Message::Input(b_text), None, None);
    assert(s3.register == s2.register);
}

/// Operators chain from left to right, with no precedence: a second operator
/// first carries out the waiting one on the held value and the reading of the
/// input, and then waits on that result.
pub proof fn lemma_chaining_commits_first(
    s: CalculatorView,
    a: Number,
    first: Operator,
    b: Number,
    second: Operator,
    e: Evaluation,
)
    requires
        s.register == (Register::Pending { accumulator: a, operator: first }),
        !divides_by_zero(first, b),
    ensures
        formula_for(s, Message::OperatorPressed(second), Some(b)) == Some(
            Formula::Binary { operator: first, lhs: a, rhs: b },
        ),
        next_state(s, Message::OperatorPressed(second), Some(b), Some(e)).register == (
        Register::Pending { accumulator: e.value, operator: second }),
        next_state(s, Message::OperatorPressed(second), Some(b), Some(e)).result == e.text@,
{
}

/// Clear empties the input, the result and the register and keeps the angle
/// mode; clearing twice is clearing once.
pub proof fn lemma_clear_idempotent(
    s: CalculatorView,
    r1: Option<Number>,
    e1: Option<Evaluation>,
    r2: Option<Number>,
    e2: Option<Evaluation>,
)
    ensures
        next_state(s, Message::Clear, r1, e1) == (CalculatorView {
            input: Seq::empty(),
            result: Seq::empty(),
            register: Register::Idle,
            angle_mode: s.angle_mode,
        }),
        next_state(next_state(s, Message::Clear, r1, e1), Message::Clear, r2, e2) == next_state(
            s,
            Message::Clear,
            r1,
            e1,
        ),
{
}

/// From the initial state, typing an operand, pressing an operator and then
/// Clear returns to the initial state.
pub proof fn lemma_operand_operator_clear(
    text: String,
    operator: Operator,
    reading: Option<Number>,
    e: Option<Evaluation>,
)
    ensures
        ({
            let s1 = next_state(initial_state(), Message::Input(text), None, None);
            let s2 = next_state(s1, Message::OperatorPressed(operator), reading, e);
            next_state(s2, Message::Clear, None, None) == initial_state()
        }),
{
}

/// A trigonometric function is evaluated in the current angle mode, and
/// toggling the mode changes the unit that the next one uses.
pub proof fn lemma_trig_follows_angle_mode(s: CalculatorView, function: TrigFunction, x: Number)
    ensures
        formula_for(s, Message::TrigFunctionPressed(function), Some(x)) == Some(
            Formula::Trig { function, angle: x, unit: s.angle_mode },
        ),
        formula_for(
            next_state(s, Message::ToggleAngleMode, None, None),
            Message::TrigFunctionPressed(function),
            Some(x),
        ) == Some(Formula::Trig { function, angle: x, unit: s.angle_mode.toggled() }),
        s.angle_mode.toggled() != s.angle_mode,
{
}

/// Toggling the angle mode twice restores the state.
pub proof fn lemma_toggle_twice(
    s: CalculatorView,
    r1: Option<Number>,
    e1: Option<Evaluation>,
    r2: Option<Number>,
    e2: Option<Evaluation>,
)
    ensures
        next_state(next_state(s, Message::ToggleAngleMode, r1, e1), Message::ToggleAngleMode, r2, e2)
            == s,
{
}

/// The factorial of an input that is no whole number (negative, fractional,
/// not a numeral at all) is ignored and changes nothing.
pub proof fn lemma_factorial_needs_whole_number(
    s: CalculatorView,
    reading: Option<Number>,
    e: Option<Evaluation>,
)
    requires
        whole_number(s.input) is None,
    ensures
        next_state(s, Message::Factorial, reading, e) == s,
        outcome_of(s, Message::Factorial, reading) == Outcome::Ignored,
{
}

/// `=` on an input that does not read as a number changes nothing: the held
/// value and the waiting operator stay as they were.
pub proof fn lemma_unreadable_input_is_ignored(s: CalculatorView, e: Option<Evaluation>)
    ensures
        next_state(s, Message::Calculate, None, e) == s,
        outcome_of(s, Message::Calculate, None) == Outcome::Ignored,
        formula_for(s, Message::Calculate, None) is None,
{
}

/// An ignored message leaves the state as it was.
pub proof fn lemma_ignored_changes_nothing(
    s: CalculatorView,
    message: Message,
    reading: Option<Number>,
    e: Option<Evaluation>,
)
    requires
        outcome_of(s, message, reading) == Outcome::Ignored,
    ensures
        next_state(s, message, reading, e) == s,
{
}

} // verus!
