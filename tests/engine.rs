use calculator::{
    AngleMode, Calculator, Evaluation, Formula, LogFunction, Message, Number, Operator, Outcome,
    Register, TrigFunction,
};

fn number(x: f64) -> Number {
    Number::from_bits(x.to_bits())
}

fn value(n: Number) -> f64 {
    f64::from_bits(n.bits)
}

fn evaluate(formula: &Formula) -> Evaluation {
    let v = match *formula {
        Formula::Binary { operator, lhs, rhs } => {
            let (a, b) = (value(lhs), value(rhs));
            match operator {
                Operator::Add => a + b,
                Operator::Subtract => a - b,
                Operator::Multiply => a * b,
                Operator::Divide => a / b,
                Operator::Exponentiate => a.powf(b),
            }
        }
        Formula::Trig { function, angle, unit } => {
            let x = value(angle);
            let radians = if unit == AngleMode::Degrees { x.to_radians() } else { x };
            match function {
                TrigFunction::Sine => radians.sin(),
                TrigFunction::Cosine => radians.cos(),
                TrigFunction::Tangent => radians.tan(),
            }
        }
        Formula::Log { base, value: x } => match base {
            LogFunction::Log10 => value(x).log10(),
            LogFunction::Ln => value(x).ln(),
        },
        Formula::Square(x) => value(x) * value(x),
        Formula::Cube(x) => value(x) * value(x) * value(x),
        Formula::Reciprocal(x) => 1.0 / value(x),
        Formula::SquareRoot(x) => value(x).powf(1.0 / 2.0),
        Formula::Root { radicand, degree } => value(radicand).powf(1.0 / value(degree)),
        Formula::Exponential(x) => value(x).exp(),
        Formula::Percentage(x) => value(x) / 100.0,
        Formula::Euler => std::f64::consts::E,
    };
    Evaluation { value: number(v), text: v.to_string() }
}

fn press(calc: &mut Calculator, message: Message) -> Outcome {
    let reading = calc.input().parse::<f64>().ok().map(number);
    let evaluation = calc.formula(&message, reading).map(|f| evaluate(&f));
    calc.update(message, reading, evaluation)
}

fn input(calc: &mut Calculator, text: &str) {
    assert_eq!(press(calc, Message::Input(text.to_string())), Outcome::Applied);
}

fn assert_initial(calc: &Calculator, mode: AngleMode) {
    assert_eq!(calc.input(), "");
    assert_eq!(calc.result(), "");
    assert_eq!(calc.register(), Register::Idle);
    assert_eq!(calc.angle_mode(), mode);
}

fn result_value(calc: &Calculator) -> f64 {
    calc.result().parse::<f64>().unwrap()
}

#[test]
fn starts_empty_in_radians() {
    let calc = Calculator::new();
    assert_initial(&calc, AngleMode::Radians);
}

#[test]
fn update_input_appends() {
    let mut calc = Calculator::new();
    input(&mut calc, "5");
    assert_eq!(calc.input(), "5");
    input(&mut calc, "3");
    assert_eq!(calc.input(), "53");
}

#[test]
fn update_clear() {
    let mut calc = Calculator::new();
    input(&mut calc, "123");
    press(&mut calc, Message::Clear);
    assert_initial(&calc, AngleMode::Radians);
}

#[test]
fn update_calculate_adds() {
    let mut calc = Calculator::new();
    input(&mut calc, "5");
    press(&mut calc, Message::OperatorPressed(Operator::Add));
    input(&mut calc, "3");
    assert_eq!(press(&mut calc, Message::Calculate), Outcome::Applied);
    assert_eq!(calc.result(), "8");
    assert_eq!(calc.input(), "");
    assert_eq!(calc.register(), Register::Stored { accumulator: number(8.0) });
}

#[test]
fn two_operand_chains_of_each_operator() {
    let cases = [
        (Operator::Add, "7", "2", "9"),
        (Operator::Subtract, "7", "2", "5"),
        (Operator::Multiply, "7", "2", "14"),
        (Operator::Divide, "7", "2", "3.5"),
        (Operator::Exponentiate, "2", "10", "1024"),
    ];
    for (operator, a, b, expected) in cases {
        let mut calc = Calculator::new();
        input(&mut calc, a);
        press(&mut calc, Message::OperatorPressed(operator));
        input(&mut calc, b);
        press(&mut calc, Message::Calculate);
        assert_eq!(calc.result(), expected);
    }
}

#[test]
fn chaining_has_no_precedence() {
    let mut calc = Calculator::new();
    input(&mut calc, "5");
    press(&mut calc, Message::OperatorPressed(Operator::Add));
    input(&mut calc, "3");
    press(&mut calc, Message::OperatorPressed(Operator::Multiply));
    assert_eq!(calc.result(), "8");
    input(&mut calc, "2");
    press(&mut calc, Message::Calculate);
    assert_eq!(calc.result(), "16");
}

#[test]
fn result_of_equals_is_next_left_operand() {
    let mut calc = Calculator::new();
    input(&mut calc, "5");
    press(&mut calc, Message::OperatorPressed(Operator::Add));
    input(&mut calc, "3");
    press(&mut calc, Message::Calculate);
    press(&mut calc, Message::OperatorPressed(Operator::Multiply));
    input(&mut calc, "2");
    press(&mut calc, Message::Calculate);
    assert_eq!(calc.result(), "16");
}

#[test]
fn clear_twice_is_clear_once() {
    let mut calc = Calculator::new();
    press(&mut calc, Message::ToggleAngleMode);
    input(&mut calc, "4");
    press(&mut calc, Message::OperatorPressed(Operator::Subtract));
    input(&mut calc, "9");
    assert_eq!(press(&mut calc, Message::Clear), Outcome::Applied);
    assert_initial(&calc, AngleMode::Degrees);
    assert_eq!(press(&mut calc, Message::Clear), Outcome::Applied);
    assert_initial(&calc, AngleMode::Degrees);
}

#[test]
fn operand_operator_clear_round_trip() {
    let mut calc = Calculator::new();
    input(&mut calc, "42");
    press(&mut calc, Message::OperatorPressed(Operator::Divide));
    assert_eq!(calc.register(), Register::Pending { accumulator: number(42.0), operator: Operator::Divide });
    press(&mut calc, Message::Clear);
    assert_initial(&calc, AngleMode::Radians);
}

#[test]
fn sine_follows_angle_mode() {
    let mut calc = Calculator::new();
    press(&mut calc, Message::ToggleAngleMode);
    input(&mut calc, "90");
    press(&mut calc, Message::TrigFunctionPressed(TrigFunction::Sine));
    assert!((result_value(&calc) - 1.0).abs() < 1e-12);
    assert_eq!(calc.input(), "");

    press(&mut calc, Message::ToggleAngleMode);
    input(&mut calc, &std::f64::consts::PI.to_string());
    press(&mut calc, Message::TrigFunctionPressed(TrigFunction::Sine));
    assert!(result_value(&calc).abs() < 1e-12);
}

#[test]
fn trig_formula_carries_the_angle_mode() {
    let mut calc = Calculator::new();
    input(&mut calc, "30");
    let message = Message::TrigFunctionPressed(TrigFunction::Cosine);
    assert_eq!(
        calc.formula(&message, Some(number(30.0))),
        Some(Formula::Trig { function: TrigFunction::Cosine, angle: number(30.0), unit: AngleMode::Radians })
    );
    press(&mut calc, Message::ToggleAngleMode);
    assert_eq!(
        calc.formula(&message, Some(number(30.0))),
        Some(Formula::Trig { function: TrigFunction::Cosine, angle: number(30.0), unit: AngleMode::Degrees })
    );
}

#[test]
fn apply_trig_function_at_zero() {
    let mut calc = Calculator::new();
    input(&mut calc, "0");
    press(&mut calc, Message::TrigFunctionPressed(TrigFunction::Sine));
    assert_eq!(calc.result(), "0");
    input(&mut calc, "0");
    press(&mut calc, Message::TrigFunctionPressed(TrigFunction::Tangent));
    assert_eq!(calc.result(), "0");
    press(&mut calc, Message::ToggleAngleMode);
    input(&mut calc, "90");
    press(&mut calc, Message::TrigFunctionPressed(TrigFunction::Cosine));
    assert!(result_value(&calc).abs() < 1e-12);
}

#[test]
fn apply_log_function() {
    let mut calc = Calculator::new();
    input(&mut calc, "100");
    press(&mut calc, Message::LogFunctionPressed(LogFunction::Log10));
    assert_eq!(calc.result(), "2");
    input(&mut calc, &std::f64::consts::E.to_string());
    press(&mut calc, Message::LogFunctionPressed(LogFunction::Ln));
    assert_eq!(calc.result(), "1");
}

#[test]
fn toggle_twice_restores_mode() {
    let mut calc = Calculator::new();
    assert_eq!(calc.angle_mode(), AngleMode::Radians);
    press(&mut calc, Message::ToggleAngleMode);
    assert_eq!(calc.angle_mode(), AngleMode::Degrees);
    press(&mut calc, Message::ToggleAngleMode);
    assert_eq!(calc.angle_mode(), AngleMode::Radians);
}

#[test]
fn factorial_of_zero_and_five() {
    let mut calc = Calculator::new();
    input(&mut calc, "0");
    assert_eq!(press(&mut calc, Message::Factorial), Outcome::Applied);
    assert_eq!(calc.result(), "1");
    assert_eq!(calc.input(), "");
    input(&mut calc, "5");
    press(&mut calc, Message::Factorial);
    assert_eq!(calc.result(), "120");
    input(&mut calc, "20");
    press(&mut calc, Message::Factorial);
    assert_eq!(calc.result(), "2432902008176640000");
}

#[test]
fn factorial_of_non_whole_input_is_ignored() {
    for text in ["2.5", "-3", "abc", "", "+", "21"] {
        let mut calc = Calculator::new();
        input(&mut calc, "7");
        press(&mut calc, Message::Factorial);
        input(&mut calc, text);
        assert_eq!(press(&mut calc, Message::Factorial), Outcome::Ignored);
        assert_eq!(calc.result(), "5040");
        assert_eq!(calc.input(), text);
    }
}

#[test]
fn division_by_zero() {
    let mut calc = Calculator::new();
    input(&mut calc, "1");
    press(&mut calc, Message::OperatorPressed(Operator::Divide));
    input(&mut calc, "0");
    assert_eq!(calc.formula(&Message::Calculate, Some(number(0.0))), None);
    assert_eq!(press(&mut calc, Message::Calculate), Outcome::Applied);
    assert_eq!(calc.result(), "Error");
    assert_eq!(calc.input(), "");
    assert_eq!(calc.register(), Register::Idle);
    press(&mut calc, Message::Clear);
    assert_initial(&calc, AngleMode::Radians);
}

#[test]
fn division_by_negative_zero_is_an_error() {
    let mut calc = Calculator::new();
    input(&mut calc, "3");
    press(&mut calc, Message::OperatorPressed(Operator::Divide));
    input(&mut calc, "-0");
    press(&mut calc, Message::Calculate);
    assert_eq!(calc.result(), "Error");
}

#[test]
fn invalid_input() {
    let mut calc = Calculator::new();
    input(&mut calc, "abc");
    assert_eq!(press(&mut calc, Message::Calculate), Outcome::Ignored);
    assert_eq!(calc.result(), "");
    assert_eq!(calc.input(), "abc");
    assert_eq!(calc.register(), Register::Idle);
}

#[test]
fn unreadable_input_keeps_pending_operation() {
    let mut calc = Calculator::new();
    input(&mut calc, "6");
    press(&mut calc, Message::OperatorPressed(Operator::Multiply));
    input(&mut calc, "x");
    assert_eq!(press(&mut calc, Message::Calculate), Outcome::Ignored);
    assert_eq!(calc.input(), "x");
    assert_eq!(calc.register(), Register::Pending { accumulator: number(6.0), operator: Operator::Multiply });
}

#[test]
fn operator_on_unreadable_input_holds_nothing() {
    let mut calc = Calculator::new();
    input(&mut calc, "abc");
    assert_eq!(press(&mut calc, Message::OperatorPressed(Operator::Add)), Outcome::Applied);
    assert_eq!(calc.input(), "");
    assert_eq!(calc.register(), Register::Idle);
}

#[test]
fn reciprocal_and_its_zero() {
    let mut calc = Calculator::new();
    input(&mut calc, "4");
    press(&mut calc, Message::Reciprocal);
    assert_eq!(calc.result(), "0.25");
    input(&mut calc, "0");
    assert_eq!(press(&mut calc, Message::Reciprocal), Outcome::Applied);
    assert_eq!(calc.result(), "Error");
    assert_eq!(calc.input(), "");
}

#[test]
fn unary_functions() {
    let cases = [
        (Message::Square, "3", "9"),
        (Message::Cube, "2", "8"),
        (Message::SquareRoot, "9", "3"),
        (Message::Exponential, "0", "1"),
        (Message::Percentage, "50", "0.5"),
    ];
    for (message, operand, expected) in cases {
        let mut calc = Calculator::new();
        input(&mut calc, operand);
        assert_eq!(press(&mut calc, message), Outcome::Applied);
        assert_eq!(calc.result(), expected);
        assert_eq!(calc.input(), "");
    }
}

#[test]
fn unary_function_on_unreadable_input_is_ignored() {
    let mut calc = Calculator::new();
    input(&mut calc, "1..2");
    assert_eq!(press(&mut calc, Message::Square), Outcome::Ignored);
    assert_eq!(calc.input(), "1..2");
    assert_eq!(calc.result(), "");
}

#[test]
fn exponent_marker_extends_input() {
    let mut calc = Calculator::new();
    input(&mut calc, "1");
    press(&mut calc, Message::EE);
    assert_eq!(calc.input(), "1e");
    input(&mut calc, "3");
    press(&mut calc, Message::Square);
    assert_eq!(calc.result(), "1000000");
}

#[test]
fn euler_recall_consumes_input() {
    let mut calc = Calculator::new();
    input(&mut calc, "12");
    assert_eq!(press(&mut calc, Message::Euler), Outcome::Applied);
    assert_eq!(calc.result(), std::f64::consts::E.to_string());
    assert_eq!(calc.input(), "");
}

#[test]
fn prepared_power_and_root() {
    let mut calc = Calculator::new();
    input(&mut calc, "2");
    press(&mut calc, Message::Exponentiate);
    assert_eq!(calc.register(), Register::Pending { accumulator: number(2.0), operator: Operator::Exponentiate });
    input(&mut calc, "8");
    press(&mut calc, Message::Calculate);
    assert_eq!(calc.result(), "256");

    let mut calc = Calculator::new();
    input(&mut calc, "16");
    press(&mut calc, Message::Exponentiate);
    input(&mut calc, "4");
    assert_eq!(press(&mut calc, Message::RootY), Outcome::Applied);
    assert_eq!(calc.result(), "2");
    assert_eq!(calc.register(), Register::Idle);
    assert_eq!(calc.input(), "");
}

#[test]
fn root_without_held_value_is_ignored() {
    let mut calc = Calculator::new();
    input(&mut calc, "3");
    assert_eq!(press(&mut calc, Message::RootY), Outcome::Ignored);
    assert_eq!(calc.input(), "3");
}

#[test]
fn prepare_exponentiation_on_unreadable_input_is_ignored() {
    let mut calc = Calculator::new();
    input(&mut calc, ".");
    assert_eq!(press(&mut calc, Message::Exponentiate), Outcome::Ignored);
    assert_eq!(calc.register(), Register::Idle);
}
