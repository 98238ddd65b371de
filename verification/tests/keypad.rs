use mscalculator::calculator::Calculator;
use mscalculator::keypad::{
    button_style, clear_label, handle_input, parse_key, parse_memory_key, parse_u8, ButtonTone, Key, MemoryKey, Readings,
};
use mscalculator::number::Number;
use mscalculator::ops::{BinOp, Sign, UnaryOp};
use mscalculator::text::{has_char, is_single, same_text, starts_with_char};

fn num(v: f64) -> Number {
    Number {
        bits: v.to_bits(),
        fixed: if v.is_finite() { Some(format!("{:.10}", v)) } else { None },
    }
}

fn apply(op: BinOp, a: f64, b: f64) -> f64 {
    match op {
        BinOp::Add => a + b,
        BinOp::Sub => a - b,
        BinOp::Mul => a * b,
        BinOp::Div => {
            if b == 0.0 {
                f64::NAN
            } else {
                a / b
            }
        }
    }
}

fn readings(calc: &Calculator) -> Readings {
    let value: f64 = calc.display.parse().unwrap_or(0.0);
    let lhs = f64::from_bits(calc.lhs.bits);
    let sign = if value < 0.0 {
        Sign::Negative
    } else if value == 0.0 {
        Sign::Zero
    } else {
        Sign::Positive
    };
    let applied = match calc.op {
        Some(op) => apply(op, lhs, value),
        None => value,
    };
    Readings {
        value: num(value),
        sign,
        applied: num(applied),
        percent: num(value / 100.0),
        root: num(value.sqrt()),
        square: num(value * value),
        reciprocal: num(1.0 / value),
    }
}

fn press(calc: &mut Calculator, label: &str) {
    let r = readings(calc);
    handle_input(calc, label, r);
}

fn press_all(calc: &mut Calculator, labels: &[&str]) {
    for l in labels {
        press(calc, l);
    }
}

#[test]
fn digit_labels_are_digits() {
    for d in 0u8..=9 {
        assert_eq!(parse_key(&d.to_string()), Some(Key::Digit(d)));
    }
}

#[test]
fn named_labels() {
    assert_eq!(parse_key("."), Some(Key::Point));
    assert_eq!(parse_key("\u{b1}"), Some(Key::Negate));
    assert_eq!(parse_key("+"), Some(Key::Operator(BinOp::Add)));
    assert_eq!(parse_key("-"), Some(Key::Operator(BinOp::Sub)));
    assert_eq!(parse_key("\u{d7}"), Some(Key::Operator(BinOp::Mul)));
    assert_eq!(parse_key("\u{f7}"), Some(Key::Operator(BinOp::Div)));
    assert_eq!(parse_key("="), Some(Key::Equals));
    assert_eq!(parse_key("%"), Some(Key::Function(UnaryOp::Percent)));
    assert_eq!(parse_key("\u{221a}"), Some(Key::Function(UnaryOp::Sqrt)));
    assert_eq!(parse_key("x\u{b2}"), Some(Key::Function(UnaryOp::Square)));
    assert_eq!(parse_key("1/x"), Some(Key::Function(UnaryOp::Reciprocal)));
    assert_eq!(parse_key("CE"), Some(Key::ClearEntry));
    assert_eq!(parse_key("C"), Some(Key::ClearAll));
    assert_eq!(parse_key("\u{232b}"), Some(Key::Backspace));
    assert_eq!(parse_key("MC"), None);
    assert_eq!(parse_key(""), None);
    assert_eq!(parse_key("10"), None);
}

#[test]
fn labels_read_like_u8_parse() {
    for label in ["0", "7", "+7", "007", "255", "256", "1000", "+", "-1", "", "12a", "x", "\u{b2}"] {
        assert_eq!(parse_u8(label), label.parse::<u8>().ok(), "label {:?}", label);
    }
    assert_eq!(parse_key("+5"), Some(Key::Digit(5)));
    assert_eq!(parse_key("09"), Some(Key::Digit(9)));
}

#[test]
fn keypad_session() {
    let mut calc = Calculator::new();
    press_all(&mut calc, &["1", "2", "+", "3", "0", "="]);
    assert_eq!(calc.display, "42");
    press_all(&mut calc, &["\u{f7}", "4", "="]);
    assert_eq!(calc.display, "10.5");
    press_all(&mut calc, &["x\u{b2}"]);
    assert_eq!(calc.display, "110.25");
    press_all(&mut calc, &["\u{b1}"]);
    assert_eq!(calc.display, "-110.25");
    press_all(&mut calc, &["\u{221a}"]);
    assert!(calc.error);
    press_all(&mut calc, &["C"]);
    assert_eq!(calc.display, "0");
    assert!(!calc.error);
}

#[test]
fn keypad_entry_keys() {
    let mut calc = Calculator::new();
    press_all(&mut calc, &["9", ".", "5", "\u{232b}", "7"]);
    assert_eq!(calc.display, "9.7");
    press_all(&mut calc, &["%"]);
    assert_eq!(calc.display, "0.097");
    press_all(&mut calc, &["CE"]);
    assert_eq!(calc.display, "0");
    press_all(&mut calc, &["4", "1/x"]);
    assert_eq!(calc.display, "0.25");
    press_all(&mut calc, &["\u{d7}", "8", "-", "1", "="]);
    assert_eq!(calc.display, "1");
}

#[test]
fn unknown_label_changes_nothing() {
    let mut calc = Calculator::new();
    press_all(&mut calc, &["5", "MC", "?", "12"]);
    assert_eq!(calc.display, "5");
    assert!(!calc.fresh);
}

#[test]
fn clear_key_label() {
    let mut calc = Calculator::new();
    assert_eq!(clear_label(&calc), "C");
    press(&mut calc, "5");
    assert_eq!(clear_label(&calc), "CE");
    press(&mut calc, "+");
    assert_eq!(clear_label(&calc), "C");
    press(&mut calc, "0");
    assert_eq!(clear_label(&calc), "C");
    press(&mut calc, ".");
    assert_eq!(clear_label(&calc), "CE");
}

#[test]
fn equals_key_is_accented() {
    assert_eq!(button_style("="), ButtonTone::Accent);
    assert_eq!(button_style("+"), ButtonTone::Plain);
    assert_eq!(button_style("=="), ButtonTone::Plain);
}

#[test]
fn text_helpers() {
    assert!(same_text("x\u{b2}", "x\u{b2}"));
    assert!(!same_text("CE", "C"));
    assert!(has_char("1.5", '.'));
    assert!(!has_char("15", '.'));
    assert!(starts_with_char("-3", '-'));
    assert!(!starts_with_char("", '-'));
    assert!(is_single("0", '0'));
    assert!(!is_single("00", '0'));
}

#[test]
fn memory_row_labels() {
    assert_eq!(parse_memory_key("MC"), Some(MemoryKey::Clear));
    assert_eq!(parse_memory_key("MR"), Some(MemoryKey::Recall));
    assert_eq!(parse_memory_key("M+"), Some(MemoryKey::Add));
    assert_eq!(parse_memory_key("M-"), Some(MemoryKey::Subtract));
    assert_eq!(parse_memory_key("MS"), Some(MemoryKey::Store));
    assert_eq!(parse_memory_key("M"), None);
    assert_eq!(parse_memory_key("C"), None);
}

#[test]
fn keypad_division_by_zero() {
    let mut calc = Calculator::new();
    press_all(&mut calc, &["8", "\u{f7}", "0", "="]);
    assert!(calc.error);
    assert_eq!(calc.display, "Error");
    assert_eq!(clear_label(&calc), "C");
    press_all(&mut calc, &["\u{b1}", "\u{232b}", "+"]);
    assert_eq!(calc.display, "Error");
    press_all(&mut calc, &["CE"]);
    assert!(!calc.error);
    assert_eq!(calc.display, "0");
}
