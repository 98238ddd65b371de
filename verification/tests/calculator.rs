use mscalculator::calculator::Calculator;
use mscalculator::number::Number;
use mscalculator::ops::{BinOp, Sign, UnaryOp};

fn num(v: f64) -> Number {
    Number {
        bits: v.to_bits(),
        fixed: if v.is_finite() { Some(format!("{:.10}", v)) } else { None },
    }
}

fn shown_value(calc: &Calculator) -> f64 {
    calc.display.parse().unwrap_or(0.0)
}

fn lhs(calc: &Calculator) -> f64 {
    f64::from_bits(calc.lhs.bits)
}

fn apply(op: BinOp, a: f64, b: f64) -> f64 {
    match op {
        BinOp::Add => a + b,
        BinOp::Sub => a - b,
        BinOp::Mul => a * b,
        BinOp::Div => {
            if b == 0.0 {
                f64::NAN
            } else {
                a / b
            }
        }
    }
}

fn op_key(calc: &mut Calculator, op: BinOp) {
    let value = shown_value(calc);
    let applied = apply(calc.op.unwrap_or(BinOp::Add), lhs(calc), value);
    calc.set_op(op, sign_of(value), num(value), num(applied));
}

fn equals_key(calc: &mut Calculator) {
    let value = shown_value(calc);
    let result = apply(calc.op.unwrap_or(BinOp::Add), lhs(calc), value);
    calc.evaluate(sign_of(value), num(result));
}

fn sign_of(v: f64) -> Sign {
    if v < 0.0 {
        Sign::Negative
    } else if v == 0.0 {
        Sign::Zero
    } else {
        Sign::Positive
    }
}

fn type_digits(calc: &mut Calculator, digits: &str) {
    for ch in digits.chars() {
        if ch == '.' {
            calc.input_decimal();
        } else {
            calc.input_digit(ch.to_digit(10).unwrap() as u8);
        }
    }
}

#[test]
fn new_calculator_shows_zero() {
    let calc = Calculator::new();
    assert_eq!(calc.display, "0");
    assert!(calc.fresh);
    assert!(!calc.error);
    assert_eq!(calc.op, None);
    assert_eq!(calc.expression, "");
    assert_eq!(calc.memory.bits, 0);
    assert_eq!(calc.lhs.bits, 0);
    let d = Calculator::default();
    assert_eq!(d.display, "0");
}

#[test]
fn digits_replace_then_append() {
    let mut calc = Calculator::new();
    calc.input_digit(1);
    assert_eq!(calc.display, "1");
    assert!(!calc.fresh);
    calc.input_digit(2);
    calc.input_digit(3);
    assert_eq!(calc.display, "123");
}

#[test]
fn zero_is_replaced_by_digit() {
    let mut calc = Calculator::new();
    calc.input_digit(0);
    assert_eq!(calc.display, "0");
    calc.input_digit(0);
    assert_eq!(calc.display, "0");
    calc.input_digit(7);
    assert_eq!(calc.display, "7");
}

#[test]
fn entry_stops_at_sixteen_bytes() {
    let mut calc = Calculator::new();
    for _ in 0..20 {
        calc.input_digit(9);
    }
    assert_eq!(calc.display, "9999999999999999");
    assert_eq!(calc.display.len(), 16);
}

#[test]
fn decimal_point_once() {
    let mut calc = Calculator::new();
    calc.input_decimal();
    assert_eq!(calc.display, "0.");
    calc.input_digit(5);
    calc.input_decimal();
    calc.input_digit(2);
    assert_eq!(calc.display, "0.52");
}

#[test]
fn decimal_twice_is_once() {
    let mut calc = Calculator::new();
    calc.input_digit(3);
    calc.input_decimal();
    calc.input_decimal();
    assert_eq!(calc.display, "3.");
}

#[test]
fn negate_toggles_sign() {
    let mut calc = Calculator::new();
    calc.negate();
    assert_eq!(calc.display, "0");
    calc.input_digit(4);
    calc.input_digit(2);
    calc.negate();
    assert_eq!(calc.display, "-42");
    calc.negate();
    assert_eq!(calc.display, "42");
}

#[test]
fn negate_of_minus_zero_gives_zero() {
    let mut calc = Calculator::new();
    calc.display = String::from("-0");
    calc.negate();
    assert_eq!(calc.display, "0");
    calc.negate();
    assert_eq!(calc.display, "0");
}

#[test]
fn backspace_removes_last_char() {
    let mut calc = Calculator::new();
    type_digits(&mut calc, "123");
    calc.backspace();
    assert_eq!(calc.display, "12");
    calc.backspace();
    calc.backspace();
    assert_eq!(calc.display, "0");
    assert!(calc.fresh);
    calc.backspace();
    assert_eq!(calc.display, "0");
}

#[test]
fn backspace_undoes_last_digit() {
    let mut calc = Calculator::new();
    type_digits(&mut calc, "58");
    let before = calc.display.clone();
    calc.input_digit(3);
    calc.backspace();
    assert_eq!(calc.display, before);
    assert!(!calc.fresh);
}

#[test]
fn backspace_ignored_on_fresh_display() {
    let mut calc = Calculator::new();
    type_digits(&mut calc, "12");
    op_key(&mut calc, BinOp::Add);
    calc.backspace();
    assert_eq!(calc.display, "12");
}

#[test]
fn add_then_equals() {
    let mut calc = Calculator::new();
    type_digits(&mut calc, "12");
    op_key(&mut calc, BinOp::Add);
    assert_eq!(calc.expression, "12 +");
    assert_eq!(lhs(&calc), 12.0);
    type_digits(&mut calc, "30");
    equals_key(&mut calc);
    assert_eq!(calc.display, "42");
    assert_eq!(calc.op, None);
    assert_eq!(calc.expression, "");
    assert!(calc.fresh);
}

#[test]
fn chained_operators_compute_pending() {
    let mut calc = Calculator::new();
    type_digits(&mut calc, "7");
    op_key(&mut calc, BinOp::Mul);
    type_digits(&mut calc, "6");
    op_key(&mut calc, BinOp::Sub);
    assert_eq!(calc.display, "42");
    assert_eq!(calc.expression, "42 \u{2212}");
    type_digits(&mut calc, "2");
    equals_key(&mut calc);
    assert_eq!(calc.display, "40");
}

#[test]
fn second_operator_only_replaces_first() {
    let mut calc = Calculator::new();
    type_digits(&mut calc, "9");
    op_key(&mut calc, BinOp::Add);
    op_key(&mut calc, BinOp::Div);
    assert_eq!(calc.op, Some(BinOp::Div));
    assert_eq!(lhs(&calc), 9.0);
    assert_eq!(calc.display, "9");
    assert_eq!(calc.expression, "9 \u{f7}");
}

#[test]
fn digit_after_operator_starts_new_entry() {
    let mut calc = Calculator::new();
    type_digits(&mut calc, "55");
    op_key(&mut calc, BinOp::Sub);
    calc.input_digit(4);
    assert_eq!(calc.display, "4");
    assert_eq!(calc.op, Some(BinOp::Sub));
}

#[test]
fn division_by_zero_is_error() {
    let mut calc = Calculator::new();
    type_digits(&mut calc, "5");
    op_key(&mut calc, BinOp::Div);
    type_digits(&mut calc, "0");
    equals_key(&mut calc);
    assert_eq!(calc.display, "Error");
    assert!(calc.error);
    assert_eq!(calc.op, None);
    assert_eq!(calc.expression, "");
    calc.negate();
    assert_eq!(calc.display, "Error");
    calc.input_digit(3);
    assert!(!calc.error);
    assert_eq!(calc.display, "3");
}

#[test]
fn chained_division_by_zero_is_error() {
    let mut calc = Calculator::new();
    type_digits(&mut calc, "5");
    op_key(&mut calc, BinOp::Div);
    type_digits(&mut calc, "0");
    op_key(&mut calc, BinOp::Add);
    assert!(calc.error);
    assert_eq!(calc.display, "Error");
    assert_eq!(calc.op, None);
    assert_eq!(calc.expression, "");
}

#[test]
fn operator_right_after_division_is_no_error() {
    let mut calc = Calculator::new();
    type_digits(&mut calc, "5");
    op_key(&mut calc, BinOp::Div);
    calc.input_digit(0);
    calc.clear_entry();
    op_key(&mut calc, BinOp::Sub);
    assert!(!calc.error);
    assert_eq!(calc.op, Some(BinOp::Sub));
    assert_eq!(calc.display, "0");
}

#[test]
fn equals_without_operator_does_nothing() {
    let mut calc = Calculator::new();
    type_digits(&mut calc, "8");
    calc.evaluate(Sign::Positive, num(99.0));
    assert_eq!(calc.display, "8");
    assert!(!calc.fresh);
}

#[test]
fn sqrt_of_negative_is_error() {
    let mut calc = Calculator::new();
    type_digits(&mut calc, "9");
    calc.negate();
    let v = shown_value(&calc);
    calc.unary_op(UnaryOp::Sqrt, sign_of(v), num(v.sqrt()));
    assert!(calc.error);
    assert_eq!(calc.display, "Error");
    assert_eq!(calc.op, None);
}

#[test]
fn reciprocal_of_zero_is_error() {
    let mut calc = Calculator::new();
    let v = shown_value(&calc);
    calc.unary_op(UnaryOp::Reciprocal, sign_of(v), num(1.0 / v));
    assert!(calc.error);
    assert_eq!(calc.display, "Error");
}

#[test]
fn unary_functions() {
    let mut calc = Calculator::new();
    type_digits(&mut calc, "16");
    let v = shown_value(&calc);
    calc.unary_op(UnaryOp::Sqrt, sign_of(v), num(v.sqrt()));
    assert_eq!(calc.display, "4");
    assert!(calc.fresh);
    let v = shown_value(&calc);
    calc.unary_op(UnaryOp::Square, sign_of(v), num(v * v));
    assert_eq!(calc.display, "16");
    let v = shown_value(&calc);
    calc.unary_op(UnaryOp::Percent, sign_of(v), num(v / 100.0));
    assert_eq!(calc.display, "0.16");
    let v = shown_value(&calc);
    calc.unary_op(UnaryOp::Reciprocal, sign_of(v), num(1.0 / v));
    assert_eq!(calc.display, "6.25");
}

#[test]
fn error_blocks_keys_until_cleared() {
    let mut calc = Calculator::new();
    calc.unary_op(UnaryOp::Reciprocal, Sign::Zero, num(f64::INFINITY));
    assert!(calc.error);
    calc.negate();
    calc.backspace();
    calc.set_op(BinOp::Add, Sign::Zero, num(0.0), num(0.0));
    calc.evaluate(Sign::Positive, num(1.0));
    calc.unary_op(UnaryOp::Square, Sign::Positive, num(4.0));
    assert_eq!(calc.display, "Error");
    assert!(calc.error);
    calc.input_digit(2);
    assert!(!calc.error);
    assert_eq!(calc.display, "2");
}

#[test]
fn clear_entry_and_clear_all() {
    let mut calc = Calculator::new();
    type_digits(&mut calc, "12");
    op_key(&mut calc, BinOp::Add);
    type_digits(&mut calc, "34");
    calc.clear_entry();
    assert_eq!(calc.display, "0");
    assert!(calc.fresh);
    assert_eq!(calc.op, Some(BinOp::Add));
    calc.memory_store(num(5.0));
    calc.clear_all();
    assert_eq!(calc.display, "0");
    assert_eq!(calc.op, None);
    assert_eq!(calc.expression, "");
    assert_eq!(calc.lhs.bits, 0);
    assert_eq!(f64::from_bits(calc.memory.bits), 5.0);
    calc.clear_all();
    assert_eq!(calc.display, "0");
}

#[test]
fn clear_entry_leaves_error() {
    let mut calc = Calculator::new();
    calc.unary_op(UnaryOp::Sqrt, Sign::Negative, num(f64::NAN));
    calc.clear_entry();
    assert!(!calc.error);
    assert_eq!(calc.display, "0");
}

#[test]
fn memory_store_and_recall() {
    let mut calc = Calculator::new();
    type_digits(&mut calc, "2.5");
    calc.memory_store(num(shown_value(&calc)));
    calc.clear_all();
    calc.memory_recall();
    assert_eq!(calc.display, "2.5");
    assert!(calc.fresh);
    let m = f64::from_bits(calc.memory.bits);
    calc.memory_add(num(m + shown_value(&calc)));
    calc.memory_recall();
    assert_eq!(calc.display, "5");
    let m = f64::from_bits(calc.memory.bits);
    calc.memory_sub(num(m - 1.0));
    calc.memory_recall();
    assert_eq!(calc.display, "4");
    calc.memory_clear();
    calc.memory_recall();
    assert_eq!(calc.display, "0");
}

#[test]
fn memory_recall_leaves_error() {
    let mut calc = Calculator::new();
    calc.memory_store(num(7.0));
    calc.unary_op(UnaryOp::Sqrt, Sign::Negative, num(f64::NAN));
    calc.memory_recall();
    assert!(!calc.error);
    assert_eq!(calc.display, "7");
}

#[test]
fn value_above_nine_replaces_display() {
    let mut calc = Calculator::new();
    calc.input_digit(123);
    assert_eq!(calc.display, "123");
    let mut calc = Calculator::new();
    calc.input_digit(0);
    calc.input_digit(45);
    assert_eq!(calc.display, "45");
}

#[test]
fn clear_entry_then_clear_all_is_clear_all() {
    let mut a = Calculator::new();
    type_digits(&mut a, "64");
    op_key(&mut a, BinOp::Mul);
    type_digits(&mut a, "2");
    let mut b = Calculator::new();
    type_digits(&mut b, "64");
    op_key(&mut b, BinOp::Mul);
    type_digits(&mut b, "2");
    a.clear_entry();
    a.clear_all();
    b.clear_all();
    assert_eq!(a.display, b.display);
    assert_eq!(a.fresh, b.fresh);
    assert_eq!(a.op, b.op);
    assert_eq!(a.lhs.bits, b.lhs.bits);
    assert_eq!(a.expression, b.expression);
}

#[test]
fn error_clears_pending_operator() {
    let mut calc = Calculator::new();
    type_digits(&mut calc, "3");
    op_key(&mut calc, BinOp::Add);
    type_digits(&mut calc, "0");
    calc.unary_op(UnaryOp::Reciprocal, Sign::Zero, num(f64::INFINITY));
    assert!(calc.error);
    assert_eq!(calc.op, None);
    assert_eq!(calc.expression, "");
}
