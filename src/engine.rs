use vstd::prelude::*;

use crate::number::Number;
use crate::numeral::{checked_factorial, decimal, decimal_text, factorial, parse_whole, whole_u64};

verus! {

#[derive(Clone, Copy, Debug, PartialEq, Eq, Structural)]
pub enum Operator {
    Add,
    Subtract,
    Multiply,
    Divide,
    Exponentiate,
}

#[derive(Clone, Copy, Debug, PartialEq, Eq, Structural)]
pub enum TrigFunction {
    Sine,
    Cosine,
    Tangent,
}

#[derive(Clone, Copy, Debug, PartialEq, Eq, Structural)]
pub enum LogFunction {
    Log10,
    Ln,
}

/// How the argument of a trigonometric function is read.
#[derive(Clone, Copy, Debug, PartialEq, Eq, Structural)]
pub enum AngleMode {
    Degrees,
    Radians,
}

/// The left operand of a binary operation, and the operator waiting for its
/// right operand.
///
/// An operator never stands without its left operand. A value without an
/// operator is the result of the last `=`, kept as the left operand of the
/// next operator.
#[derive(Clone, Copy, Debug, PartialEq, Eq, Structural)]
pub enum Register {
    Idle,
    Stored { accumulator: Number },
    Pending { accumulator: Number, operator: Operator },
}

/// An input event.
#[derive(Clone, Debug)]
pub enum Message {
    /// Text appended to the pending input as it stands.
    Input(String),
    Clear,
    /// `=`
    Calculate,
    OperatorPressed(Operator),
    TrigFunctionPressed(TrigFunction),
    LogFunctionPressed(LogFunction),
    /// `x^y`: the pending input becomes the base of an exponentiation.
    Exponentiate,
    SquareRoot,
    ToggleAngleMode,
    Factorial,
    Square,
    Cube,
    Reciprocal,
    /// `x√y`: the root of the held value whose degree is the pending input.
    RootY,
    Exponential,
    /// Recall of Euler's number.
    Euler,
    /// The exponent marker `e`, appended to the pending input.
    EE,
    Percentage,
}

/// A floating-point computation that a message needs, on values that the
/// engine has read or holds.
#[derive(Clone, Copy, Debug, PartialEq, Eq, Structural)]
pub enum Formula {
    /// `lhs operator rhs`; `Exponentiate` raises `lhs` to the power `rhs`.
    Binary { operator: Operator, lhs: Number, rhs: Number },
    /// The function of `angle`, measured in `unit`.
    Trig { function: TrigFunction, angle: Number, unit: AngleMode },
    Log { base: LogFunction, value: Number },
    Square(Number),
    Cube(Number),
    /// `1 / x`, for `x` other than zero.
    Reciprocal(Number),
    /// `x^(1/2)`
    SquareRoot(Number),
    /// `radicand^(1/degree)`
    Root { radicand: Number, degree: Number },
    /// `e^x`
    Exponential(Number),
    /// `x / 100`
    Percentage(Number),
    /// Euler's number.
    Euler,
}

/// What the evaluator found for a formula: the value and its decimal text.
#[derive(Clone, Debug)]
pub struct Evaluation {
    pub value: Number,
    pub text: String,
}

/// Whether a message was carried out, or ignored because an operand it needs
/// could not be read.
#[derive(Clone, Copy, Debug, PartialEq, Eq, Structural)]
pub enum Outcome {
    Applied,
    Ignored,
}

/// The state of the engine as the contracts see it.
pub struct CalculatorView {
    pub input: Seq<char>,
    pub result: Seq<char>,
    pub register: Register,
    pub angle_mode: AngleMode,
}

/// The result text shown where an operation is undefined.
pub open spec fn error_marker() -> Seq<char> {
    seq!['E', 'r', 'r', 'o', 'r']
}

pub open spec fn initial_state() -> CalculatorView {
    CalculatorView {
        input: Seq::empty(),
        result: Seq::empty(),
        register: Register::Idle,
        angle_mode: AngleMode::Radians,
    }
}

impl Register {
    pub open spec fn spec_accumulator(&self) -> Option<Number> {
        match *self {
            Register::Idle => None,
            Register::Stored { accumulator } => Some(accumulator),
            Register::Pending { accumulator, .. } => Some(accumulator),
        }
    }

    /// The held value, whether or not an operator waits on it.
    #[verifier::when_used_as_spec(spec_accumulator)]
    pub fn accumulator(&self) -> (r: Option<Number>)
        ensures
            r == self.spec_accumulator(),
    {
        match *self {
            Register::Idle => None,
            Register::Stored { accumulator } => Some(accumulator),
            Register::Pending { accumulator, .. } => Some(accumulator),
        }
    }
}

impl AngleMode {
    pub open spec fn spec_toggled(&self) -> AngleMode {
        match *self {
            AngleMode::Degrees => AngleMode::Radians,
            AngleMode::Radians => AngleMode::Degrees,
        }
    }

    #[verifier::when_used_as_spec(spec_toggled)]
    pub fn toggled(&self) -> (r: AngleMode)
        ensures
            r == self.spec_toggled(),
    {
        match *self {
            AngleMode::Degrees => AngleMode::Radians,
            AngleMode::Radians => AngleMode::Degrees,
        }
    }
}

/// Whether `lhs operator rhs` is a division by zero.
pub open spec fn divides_by_zero(operator: Operator, rhs: Number) -> bool {
    operator == Operator::Divide && rhs.spec_is_zero()
}

/// The formula of a binary operation, which a division by zero does not have.
pub open spec fn binary_formula(operator: Operator, lhs: Number, rhs: Number) -> Option<Formula> {
    if divides_by_zero(operator, rhs) {
        None
    } else {
        Some(Formula::Binary { operator, lhs, rhs })
    }
}

/// The formula of a function of the pending input alone, read as `x`.
pub open spec fn unary_formula(s: CalculatorView, message: Message, x: Number) -> Option<Formula> {
    match message {
        Message::TrigFunctionPressed(function) => Some(
            Formula::Trig { function, angle: x, unit: s.angle_mode },
        ),
        Message::LogFunctionPressed(base) => Some(Formula::Log { base, value: x }),
        Message::SquareRoot => Some(Formula::SquareRoot(x)),
        Message::Square => Some(Formula::Square(x)),
        Message::Cube => Some(Formula::Cube(x)),
        Message::Exponential => Some(Formula::Exponential(x)),
        Message::Percentage => Some(Formula::Percentage(x)),
        Message::Reciprocal => if x.spec_is_zero() {
            None
        } else {
            Some(Formula::Reciprocal(x))
        },
        _ => None,
    }
}

/// Whether the message is a function of the pending input alone.
pub open spec fn is_unary(message: Message) -> bool {
    match message {
        Message::TrigFunctionPressed(_) | Message::LogFunctionPressed(_) | Message::SquareRoot
        | Message::Square | Message::Cube | Message::Exponential | Message::Percentage
        | Message::Reciprocal => true,
        _ => false,
    }
}

/// The formula that `message` needs evaluated in state `s`, where `reading` is
/// the numeric reading of the pending input (`None`: it does not read as a
/// number); `None` where the message needs no evaluation.
pub open spec fn formula_for(s: CalculatorView, message: Message, reading: Option<Number>) -> Option<
    Formula,
> {
    match message {
        Message::Calculate | Message::OperatorPressed(_) => match s.register {
            Register::Pending { accumulator, operator } => match reading {
                Some(rhs) => binary_formula(operator, accumulator, rhs),
                None => None,
            },
            _ => None,
        },
        Message::RootY => match (s.register.accumulator(), reading) {
            (Some(radicand), Some(degree)) => Some(Formula::Root { radicand, degree }),
            _ => None,
        },
        Message::Euler => Some(Formula::Euler),
        _ => if is_unary(message) {
            match reading {
                Some(x) => unary_formula(s, message, x),
                None => None,
            }
        } else {
            None
        },
    }
}

/// Whether `message` is ignored in state `s`: an operand it needs does not
/// read as a number (or, for the factorial, as a whole number whose factorial
/// fits in 64 bits), or `x√y` finds no held value.
pub open spec fn ignores(s: CalculatorView, message: Message, reading: Option<Number>) -> bool {
    match message {
        Message::Calculate => !(s.register is Pending && reading is Some),
        Message::RootY => !(s.register.accumulator() is Some && reading is Some),
        Message::Exponentiate => reading is None,
        Message::Factorial => match whole_u64(s.input) {
            Some(n) => factorial(n as nat) > u64::MAX,
            None => true,
        },
        _ => is_unary(message) && reading is None,
    }
}

pub open spec fn evaluated_text(evaluation: Option<Evaluation>) -> Seq<char> {
    match evaluation {
        Some(e) => e.text@,
        None => Seq::empty(),
    }
}

pub open spec fn evaluated_value(evaluation: Option<Evaluation>) -> Number {
    match evaluation {
        Some(e) => e.value,
        None => Number { bits: 0 },
    }
}

/// `s` with the pending input consumed, `result` shown and `register` held.
pub open spec fn settled(s: CalculatorView, result: Seq<char>, register: Register) -> CalculatorView {
    CalculatorView { input: Seq::empty(), result, register, angle_mode: s.angle_mode }
}

/// Whether `message` is carried out or ignored in state `s`.
pub open spec fn outcome_of(s: CalculatorView, message: Message, reading: Option<Number>) -> Outcome {
    if ignores(s, message, reading) {
        Outcome::Ignored
    } else {
        Outcome::Applied
    }
}

/// The state after `message` in state `s`, where `reading` is the numeric
/// reading of the pending input and `evaluation` what the evaluator found for
/// `formula_for(s, message, reading)`.
pub open spec fn next_state(
    s: CalculatorView,
    message: Message,
    reading: Option<Number>,
    evaluation: Option<Evaluation>,
) -> CalculatorView {
    let text = evaluated_text(evaluation);
    let value = evaluated_value(evaluation);
    if ignores(s, message, reading) {
        s
    } else {
        match message {
            Message::Input(t) => CalculatorView { input: s.input + t@, ..s },
            Message::EE => CalculatorView { input: s.input.push('e'), ..s },
            Message::Clear => CalculatorView {
                input: Seq::empty(),
                result: Seq::empty(),
                register: Register::Idle,
                angle_mode: s.angle_mode,
            },
            Message::ToggleAngleMode => CalculatorView { angle_mode: s.angle_mode.toggled(), ..s },
            Message::Calculate => match (s.register, reading) {
                (Register::Pending { operator, .. }, Some(rhs)) => if divides_by_zero(
                    operator,
                    rhs,
                ) {
                    settled(s, error_marker(), Register::Idle)
                } else {
                    settled(s, text, Register::Stored { accumulator: value })
                },
                _ => s,
            },
            Message::OperatorPressed(next) => match s.register {
                Register::Idle => match reading {
                    Some(x) => settled(
                        s,
                        s.result,
                        Register::Pending { accumulator: x, operator: next },
                    ),
                    None => settled(s, s.result, Register::Idle),
                },
                Register::Stored { accumulator } => settled(
                    s,
                    s.result,
                    Register::Pending { accumulator, operator: next },
                ),
                Register::Pending { accumulator, operator } => match reading {
                    Some(rhs) => if divides_by_zero(operator, rhs) {
                        settled(s, error_marker(), Register::Idle)
                    } else {
                        settled(s, text, Register::Pending { accumulator: value, operator: next })
                    },
                    None => settled(s, s.result, Register::Pending { accumulator, operator: next }),
                },
            },
            Message::Exponentiate => match reading {
                Some(x) => settled(
                    s,
                    s.result,
                    Register::Pending { accumulator: x, operator: Operator::Exponentiate },
                ),
                None => s,
            },
            Message::Factorial => match whole_u64(s.input) {
                Some(n) => settled(s, decimal(factorial(n as nat)), s.register),
                None => s,
            },
            Message::RootY => settled(s, text, Register::Idle),
            Message::Reciprocal => match reading {
                Some(x) => if x.spec_is_zero() {
                    settled(s, error_marker(), s.register)
                } else {
                    settled(s, text, s.register)
                },
                None => s,
            },
            _ => settled(s, text, s.register),
        }
    }
}

/// The engine of an immediate-execution calculator: one pending input, one
/// result, and at most one operation waiting for its right operand.
///
/// The engine does no floating-point arithmetic itself. For a message, the
/// caller reads the pending input as a number (`reading`), asks `formula` what
/// must be evaluated, evaluates it, and hands both to `update`.
pub struct Calculator {
    input: String,
    result: String,
    register: Register,
    angle_mode: AngleMode,
}

impl View for Calculator {
    type V = CalculatorView;

    closed spec fn view(&self) -> CalculatorView {
        CalculatorView {
            input: self.input@,
            result: self.result@,
            register: self.register,
            angle_mode: self.angle_mode,
        }
    }
}

impl Calculator {
    pub fn new() -> (r: Calculator)
        ensures
            r@ == initial_state(),
    {
        Calculator {
            input: String::new(),
            result: String::new(),
            register: Register::Idle,
            angle_mode: AngleMode::Radians,
        }
    }

    /// The operand being typed, as typed.
    pub fn input(&self) -> (r: &str)
        ensures
            r@ == self@.input,
    {
        self.input.as_str()
    }

    /// The text of the last result, the error marker, or nothing.
    pub fn result(&self) -> (r: &str)
        ensures
            r@ == self@.result,
    {
        self.result.as_str()
    }

    pub fn angle_mode(&self) -> (r: AngleMode)
        ensures
            r == self@.angle_mode,
    {
        self.angle_mode
    }

    pub fn register(&self) -> (r: Register)
        ensures
            r == self@.register,
    {
        self.register
    }

    /// The formula that `message` needs evaluated before `update` can carry it
    /// out, given the numeric reading of the pending input.
    pub fn formula(&self, message: &Message, reading: Option<Number>) -> (r: Option<Formula>)
        ensures
            r == formula_for(self@, *message, reading),
    {
        match message {
            Message::Calculate | Message::OperatorPressed(_) => match self.register {
                Register::Pending { accumulator, operator } => match reading {
                    Some(rhs) => binary(operator, accumulator, rhs),
                    None => None,
                },
                _ => None,
            },
            Message::RootY => match (self.register.accumulator(), reading) {
                (Some(radicand), Some(degree)) => Some(Formula::Root { radicand, degree }),
                _ => None,
            },
            Message::Euler => Some(Formula::Euler),
            _ => match reading {
                Some(x) => match message {
                    Message::TrigFunctionPressed(function) => Some(
                        Formula::Trig { function: *function, angle: x, unit: self.angle_mode },
                    ),
                    Message::LogFunctionPressed(base) => Some(
                        Formula::Log { base: *base, value: x },
                    ),
                    Message::SquareRoot => Some(Formula::SquareRoot(x)),
                    Message::Square => Some(Formula::Square(x)),
                    Message::Cube => Some(Formula::Cube(x)),
                    Message::Exponential => Some(Formula::Exponential(x)),
                    Message::Percentage => Some(Formula::Percentage(x)),
                    Message::Reciprocal => if x.is_zero() {
                        None
                    } else {
                        Some(Formula::Reciprocal(x))
                    },
                    _ => None,
                },
                None => None,
            },
        }
    }

    /// Carries out `message`. `reading` is the numeric reading of the pending
    /// input (`None` where it does not read as a number), and `evaluation` what
    /// the evaluator found for `self.formula(&message, reading)`.
    pub fn update(
        &mut self,
        message: Message,
        reading: Option<Number>,
        evaluation: Option<Evaluation>,
    ) -> (r: Outcome)
        requires
            formula_for(old(self)@, message, reading) is Some ==> (evaluation is Some),
        ensures
            final(self)@ == next_state(old(self)@, message, reading, evaluation),
            r == outcome_of(old(self)@, message, reading),
    {
        match &message {
            Message::Input(t) => {
                self.input.append(t.as_str());
                Outcome::Applied
            },
            Message::EE => {
                proof {
                    reveal_strlit("e");
                }
                let ghost before = self.input@;
                self.input.append("e");
                assert(self.input@ =~= before.push('e'));
                Outcome::Applied
            },
            Message::Clear => {
                self.clear();
                Outcome::Applied
            },
            Message::ToggleAngleMode => {
                self.toggle_angle_mode();
                Outcome::Applied
            },
            Message::Calculate => self.calculate(reading, evaluation),
            Message::OperatorPressed(operator) => {
                self.handle_operator(*operator, reading, evaluation);
                Outcome::Applied
            },
            Message::Exponentiate => self.prepare_exponentiation(reading),
            Message::Factorial => self.apply_factorial(),
            Message::Euler => {
                self.show(evaluation);
                Outcome::Applied
            },
            Message::RootY => self.apply_root(reading, evaluation),
            Message::Reciprocal => self.apply_reciprocal(reading, evaluation),
            _ => match reading {
                Some(_) => {
                    self.show(evaluation);
                    Outcome::Applied
                },
                None => Outcome::Ignored,
            },
        }
    }

    /// Empties the input, the result and the register; the angle mode stays.
    pub fn clear(&mut self)
        ensures
            final(self)@ == next_state(old(self)@, Message::Clear, None, None),
    {
        self.input = String::new();
        self.result = String::new();
        self.register = Register::Idle;
    }

    pub fn toggle_angle_mode(&mut self)
        ensures
            final(self)@ == next_state(old(self)@, Message::ToggleAngleMode, None, None),
    {
        self.angle_mode = self.angle_mode.toggled();
    }

    /// `=`: applies the waiting operator to the held value and the reading of
    /// the input. The result becomes the held value, with no operator.
    pub fn calculate(&mut self, reading: Option<Number>, evaluation: Option<Evaluation>) -> (r:
        Outcome)
        requires
            formula_for(old(self)@, Message::Calculate, reading) is Some ==> (evaluation is Some),
        ensures
            final(self)@ == next_state(old(self)@, Message::Calculate, reading, evaluation),
            r == outcome_of(old(self)@, Message::Calculate, reading),
    {
        match (self.register, reading) {
            (Register::Pending { operator, .. }, Some(rhs)) => {
                self.register = match self.commit(operator, rhs, evaluation) {
                    Some(value) => Register::Stored { accumulator: value },
                    None => Register::Idle,
                };
                Outcome::Applied
            },
            _ => Outcome::Ignored,
        }
    }

    /// An operator: the waiting operation, if any, is carried out first with
    /// the reading of the input as its right operand; then `operator` waits on
    /// the held value.
    pub fn handle_operator(
        &mut self,
        operator: Operator,
        reading: Option<Number>,
        evaluation: Option<Evaluation>,
    )
        requires
            formula_for(old(self)@, Message::OperatorPressed(operator), reading) is Some
                ==> (evaluation is Some),
        ensures
            final(self)@ == next_state(
                old(self)@,
                Message::OperatorPressed(operator),
                reading,
                evaluation,
            ),
    {
        match self.register {
            Register::Idle => {
                self.input = String::new();
                self.register = match reading {
                    Some(x) => Register::Pending { accumulator: x, operator },
                    None => Register::Idle,
                };
            },
            Register::Stored { accumulator } => {
                self.input = String::new();
                self.register = Register::Pending { accumulator, operator };
            },
            Register::Pending { accumulator, operator: waiting } => match reading {
                Some(rhs) => {
                    self.register = match self.commit(waiting, rhs, evaluation) {
                        Some(value) => Register::Pending { accumulator: value, operator },
                        None => Register::Idle,
                    };
                },
                None => {
                    self.input = String::new();
                    self.register = Register::Pending { accumulator, operator };
                },
            },
        }
    }

    /// `x^y`: the reading of the input becomes the base of a waiting
    /// exponentiation.
    pub fn prepare_exponentiation(&mut self, reading: Option<Number>) -> (r: Outcome)
        ensures
            final(self)@ == next_state(old(self)@, Message::Exponentiate, reading, None),
            r == outcome_of(old(self)@, Message::Exponentiate, reading),
    {
        match reading {
            Some(x) => {
                self.input = String::new();
                self.register = Register::Pending {
                    accumulator: x,
                    operator: Operator::Exponentiate,
                };
                Outcome::Applied
            },
            None => Outcome::Ignored,
        }
    }

    /// `x!` of the input read as a whole number; ignored where the input is
    /// no whole number or its factorial exceeds 64 bits.
    pub fn apply_factorial(&mut self) -> (r: Outcome)
        ensures
            final(self)@ == next_state(old(self)@, Message::Factorial, None, None),
            r == outcome_of(old(self)@, Message::Factorial, None),
    {
        match parse_whole(self.input.as_str()) {
            Some(n) => match checked_factorial(n) {
                Some(f) => {
                    self.result = decimal_text(f);
                    self.input = String::new();
                    Outcome::Applied
                },
                None => Outcome::Ignored,
            },
            None => Outcome::Ignored,
        }
    }

    /// `x√y`: the root of the held value whose degree is the reading of the
    /// input. The register is emptied.
    pub fn apply_root(&mut self, reading: Option<Number>, evaluation: Option<Evaluation>) -> (r:
        Outcome)
        requires
            formula_for(old(self)@, Message::RootY, reading) is Some ==> (evaluation is Some),
        ensures
            final(self)@ == next_state(old(self)@, Message::RootY, reading, evaluation),
            r == outcome_of(old(self)@, Message::RootY, reading),
    {
        match (self.register.accumulator(), reading) {
            (Some(_), Some(_)) => {
                self.show(evaluation);
                self.register = Register::Idle;
                Outcome::Applied
            },
            _ => Outcome::Ignored,
        }
    }

    /// `1/x`, with the error marker for zero.
    pub fn apply_reciprocal(&mut self, reading: Option<Number>, evaluation: Option<Evaluation>) -> (r:
        Outcome)
        requires
            formula_for(old(self)@, Message::Reciprocal, reading) is Some ==> (evaluation is Some),
        ensures
            final(self)@ == next_state(old(self)@, Message::Reciprocal, reading, evaluation),
            r == outcome_of(old(self)@, Message::Reciprocal, reading),
    {
        match reading {
            Some(x) => {
                if x.is_zero() {
                    self.input = String::new();
                    self.result = error_text();
                } else {
                    self.show(evaluation);
                }
                Outcome::Applied
            },
            None => Outcome::Ignored,
        }
    }

    /// Consumes the input and shows an evaluation.
    fn show(&mut self, evaluation: Option<Evaluation>)
        requires
            (evaluation is Some),
        ensures
            final(self)@ == settled(old(self)@, evaluated_text(evaluation), old(self)@.register),
    {
        self.input = String::new();
        match evaluation {
            Some(e) => {
                self.result = e.text;
            },
            None => {},
        }
    }

    /// Consumes the input as the right operand of `operator` and shows the
    /// outcome: the evaluation, whose value is returned, or the error marker
    /// for a division by zero.
    fn commit(&mut self, operator: Operator, rhs: Number, evaluation: Option<Evaluation>) -> (r:
        Option<Number>)
        requires
            !divides_by_zero(operator, rhs) ==> (evaluation is Some),
        ensures
            final(self)@.input == Seq::<char>::empty(),
            final(self)@.angle_mode == old(self)@.angle_mode,
            final(self)@.register == old(self)@.register,
            divides_by_zero(operator, rhs) ==> (r is None) && final(self)@.result == error_marker(),
            !divides_by_zero(operator, rhs) ==> r == Some(evaluated_value(evaluation))
                && final(self)@.result == evaluated_text(evaluation),
    {
        self.input = String::new();
        if operator == Operator::Divide && rhs.is_zero() {
            self.result = error_text();
            None
        } else {
            match evaluation {
                Some(e) => {
                    self.result = e.text;
                    Some(e.value)
                },
                None => None,
            }
        }
    }
}

fn binary(operator: Operator, lhs: Number, rhs: Number) -> (r: Option<Formula>)
    ensures
        r == binary_formula(operator, lhs, rhs),
{
    if operator == Operator::Divide && rhs.is_zero() {
        None
    } else {
        Some(Formula::Binary { operator, lhs, rhs })
    }
}

fn error_text() -> (r: String)
    ensures
        r@ == error_marker(),
{
    proof {
        reveal_strlit("Error");
    }
    String::from_str("Error")
}

} // verus!
