//! The keypad: which command each key label stands for, and what pressing
//! it does to the calculator.
use vstd::prelude::*;

use crate::calculator::{
    backspace_step, clear_entry_step, cleared, decimal_step, digit_appends, digit_step, evaluate_step,
    negate_step, set_op_step, unary_step, CalcModel, Calculator,
};
use crate::number::{Number, NumberModel};
use crate::ops::{BinOp, Sign, UnaryOp};
use crate::text::{is_digit, is_single, same_text};

verus! {

/// The commands of the keypad.
#[derive(Clone, Copy, Debug, PartialEq, Eq, Structural)]
pub enum Key {
    Digit(u8),
    Point,
    Negate,
    Operator(BinOp),
    Equals,
    Function(UnaryOp),
    ClearEntry,
    ClearAll,
    Backspace,
}

/// The keys of the memory row.
#[derive(Clone, Copy, Debug, PartialEq, Eq, Structural)]
pub enum MemoryKey {
    Clear,
    Recall,
    Add,
    Subtract,
    Store,
}

/// How a key is drawn: the `=` key stands out in the accent colour.
#[derive(Clone, Copy, Debug, PartialEq, Eq, Structural)]
pub enum ButtonTone {
    Accent,
    Plain,
}

/// The number written in decimal by a string of digits.
pub open spec fn digits_value(s: Seq<char>) -> nat
    decreases s.len(),
{
    if s.len() == 0 {
        0
    } else {
        digits_value(s.drop_last()) * 10 + ((s.last() as u32) - 48) as nat
    }
}

/// The digits of a label read as an unsigned number: the label without one
/// leading `+`.
pub open spec fn u8_body(s: Seq<char>) -> Seq<char> {
    if s.len() > 0 && s[0] == '+' {
        s.drop_first()
    } else {
        s
    }
}

/// What `str::parse::<u8>` gives for a label: the value of an optional `+`
/// followed by at least one digit, when it does not exceed 255.
pub open spec fn u8_parse(s: Seq<char>) -> Option<u8> {
    let body = u8_body(s);
    if body.len() > 0 && (forall|i: int| 0 <= i < body.len() ==> is_digit(#[trigger] body[i]))
        && digits_value(body) <= 255 {
        Some(digits_value(body) as u8)
    } else {
        None
    }
}

/// The command of a key that is not a digit.
pub open spec fn named_key(label: Seq<char>) -> Option<Key> {
    if label == seq!['.'] {
        Some(Key::Point)
    } else if label == seq!['\u{b1}'] {
        Some(Key::Negate)
    } else if label == seq!['+'] {
        Some(Key::Operator(BinOp::Add))
    } else if label == seq!['-'] {
        Some(Key::Operator(BinOp::Sub))
    } else if label == seq!['\u{d7}'] {
        Some(Key::Operator(BinOp::Mul))
    } else if label == seq!['\u{f7}'] {
        Some(Key::Operator(BinOp::Div))
    } else if label == seq!['='] {
        Some(Key::Equals)
    } else if label == seq!['%'] {
        Some(Key::Function(UnaryOp::Percent))
    } else if label == seq!['\u{221a}'] {
        Some(Key::Function(UnaryOp::Sqrt))
    } else if label == seq!['x', '\u{b2}'] {
        Some(Key::Function(UnaryOp::Square))
    } else if label == seq!['1', '/', 'x'] {
        Some(Key::Function(UnaryOp::Reciprocal))
    } else if label == seq!['C', 'E'] {
        Some(Key::ClearEntry)
    } else if label == seq!['C'] {
        Some(Key::ClearAll)
    } else if label == seq!['\u{232b}'] {
        Some(Key::Backspace)
    } else {
        None
    }
}

/// The command of a key label: a label that reads as a number up to 9 is
/// that digit; the others are matched by their text.
pub open spec fn key_of(label: Seq<char>) -> Option<Key> {
    if u8_parse(label) is Some && u8_parse(label).unwrap() <= 9 {
        Some(Key::Digit(u8_parse(label).unwrap()))
    } else {
        named_key(label)
    }
}

/// The values of the calculator's arithmetic that a key may need, all taken
/// in the state in which the key is pressed.
pub struct Readings {
    /// The displayed value.
    pub value: Number,
    /// The sign of the displayed value.
    pub sign: Sign,
    /// The pending operator applied to the left operand and the displayed
    /// value (any value when no operator is pending).
    pub applied: Number,
    /// The displayed value divided by 100.
    pub percent: Number,
    /// The square root of the displayed value.
    pub root: Number,
    /// The displayed value times itself.
    pub square: Number,
    /// One divided by the displayed value.
    pub reciprocal: Number,
}

/// The mathematical content of [`Readings`].
pub struct ReadingsModel {
    pub value: NumberModel,
    pub sign: Sign,
    pub applied: NumberModel,
    pub percent: NumberModel,
    pub root: NumberModel,
    pub square: NumberModel,
    pub reciprocal: NumberModel,
}

impl View for Readings {
    type V = ReadingsModel;

    open spec fn view(&self) -> ReadingsModel {
        ReadingsModel {
            value: self.value@,
            sign: self.sign,
            applied: self.applied@,
            percent: self.percent@,
            root: self.root@,
            square: self.square@,
            reciprocal: self.reciprocal@,
        }
    }
}

/// The reading that a unary function key shows.
pub open spec fn function_result(r: ReadingsModel, op: UnaryOp) -> NumberModel {
    match op {
        UnaryOp::Percent => r.percent,
        UnaryOp::Sqrt => r.root,
        UnaryOp::Square => r.square,
        UnaryOp::Reciprocal => r.reciprocal,
    }
}

/// What pressing a key does.
pub open spec fn press_step(c: CalcModel, key: Key, r: ReadingsModel) -> CalcModel {
    match key {
        Key::Digit(d) => digit_step(c, d),
        Key::Point => decimal_step(c),
        Key::Negate => negate_step(c),
        Key::Operator(op) => set_op_step(c, op, r.sign, r.value, r.applied),
        Key::Equals => evaluate_step(c, r.sign, r.applied),
        Key::Function(op) => unary_step(c, op, r.sign, function_result(r, op)),
        Key::ClearEntry => clear_entry_step(c),
        Key::ClearAll => cleared(c),
        Key::Backspace => backspace_step(c),
    }
}

/// The label that the clear key carries: `C` when there is no entry to clear
/// (an error, a lone `0`, or a fresh display), `CE` otherwise.
pub open spec fn clear_label_of(c: CalcModel) -> Seq<char> {
    if c.error || c.display == seq!['0'] || c.fresh {
        seq!['C']
    } else {
        seq!['C', 'E']
    }
}

proof fn lemma_digits_value_prefix(s: Seq<char>, k: int)
    requires
        0 <= k <= s.len(),
    ensures
        digits_value(s.subrange(0, k)) <= digits_value(s),
    decreases s.len(),
{
    if k < s.len() {
        lemma_digits_value_prefix(s.drop_last(), k);
        assert(s.drop_last().subrange(0, k) =~= s.subrange(0, k));
    } else {
        assert(s.subrange(0, k) =~= s);
    }
}

/// `str::parse::<u8>` on a key label.
pub fn parse_u8(label: &str) -> (r: Option<u8>)
    ensures
        r == u8_parse(label@),
{
    let n = label.unicode_len();
    let ghost body = u8_body(label@);
    if n == 0 {
        return None;
    }
    let start: usize = if label.get_char(0) == '+' {
        1
    } else {
        0
    };
    assert(body =~= label@.subrange(start as int, n as int));
    if start == n {
        return None;
    }
    let mut i = start;
    let mut v: u32 = 0;
    assert(body.subrange(0, 0) =~= Seq::<char>::empty());
    while i < n
        invariant
            n == label@.len(),
            body == u8_body(label@),
            start <= i <= n,
            start < n,
            body =~= label@.subrange(start as int, n as int),
            v == digits_value(body.subrange(0, i - start)),
            v <= 255,
            forall|j: int| 0 <= j < i - start ==> is_digit(#[trigger] body[j]),
        decreases n - i,
    {
        let ch = label.get_char(i);
        let code = ch as u32;
        if code < 48 || code > 57 {
            assert(!is_digit(body[i - start]));
            assert(!(forall|j: int| 0 <= j < body.len() ==> is_digit(#[trigger] body[j])));
            assert(u8_parse(label@) is None);
            return None;
        }
        assert(body.subrange(0, i - start + 1).drop_last() =~= body.subrange(0, i - start));
        v = v * 10 + (code - 48);
        i = i + 1;
        if v > 255 {
            proof {
                lemma_digits_value_prefix(body, i - start);
                assert(digits_value(body) > 255);
                assert(u8_parse(label@) is None);
            }
            return None;
        }
    }
    assert(body.subrange(0, n - start) =~= body);
    Some(v as u8)
}

/// The command of a key label.
pub fn parse_key(label: &str) -> (k: Option<Key>)
    ensures
        k == key_of(label@),
{
    match parse_u8(label) {
        Some(d) => {
            if d <= 9 {
                return Some(Key::Digit(d));
            }
        },
        None => {},
    }
    proof {
        reveal_strlit(".");
        assert("."@ =~= seq!['.']);
        reveal_strlit("\u{b1}");
        assert("\u{b1}"@ =~= seq!['\u{b1}']);
        reveal_strlit("+");
        assert("+"@ =~= seq!['+']);
        reveal_strlit("-");
        assert("-"@ =~= seq!['-']);
        reveal_strlit("\u{d7}");
        assert("\u{d7}"@ =~= seq!['\u{d7}']);
        reveal_strlit("\u{f7}");
        assert("\u{f7}"@ =~= seq!['\u{f7}']);
        reveal_strlit("=");
        assert("="@ =~= seq!['=']);
        reveal_strlit("%");
        assert("%"@ =~= seq!['%']);
        reveal_strlit("\u{221a}");
        assert("\u{221a}"@ =~= seq!['\u{221a}']);
        reveal_strlit("x\u{b2}");
        assert("x\u{b2}"@ =~= seq!['x', '\u{b2}']);
        reveal_strlit("1/x");
        assert("1/x"@ =~= seq!['1', '/', 'x']);
        reveal_strlit("CE");
        assert("CE"@ =~= seq!['C', 'E']);
        reveal_strlit("C");
        assert("C"@ =~= seq!['C']);
        reveal_strlit("\u{232b}");
        assert("\u{232b}"@ =~= seq!['\u{232b}']);
    }
    if same_text(label, ".") {
        Some(Key::Point)
    } else if same_text(label, "\u{b1}") {
        Some(Key::Negate)
    } else if same_text(label, "+") {
        Some(Key::Operator(BinOp::Add))
    } else if same_text(label, "-") {
        Some(Key::Operator(BinOp::Sub))
    } else if same_text(label, "\u{d7}") {
        Some(Key::Operator(BinOp::Mul))
    } else if same_text(label, "\u{f7}") {
        Some(Key::Operator(BinOp::Div))
    } else if same_text(label, "=") {
        Some(Key::Equals)
    } else if same_text(label, "%") {
        Some(Key::Function(UnaryOp::Percent))
    } else if same_text(label, "\u{221a}") {
        Some(Key::Function(UnaryOp::Sqrt))
    } else if same_text(label, "x\u{b2}") {
        Some(Key::Function(UnaryOp::Square))
    } else if same_text(label, "1/x") {
        Some(Key::Function(UnaryOp::Reciprocal))
    } else if same_text(label, "CE") {
        Some(Key::ClearEntry)
    } else if same_text(label, "C") {
        Some(Key::ClearAll)
    } else if same_text(label, "\u{232b}") {
        Some(Key::Backspace)
    } else {
        None
    }
}

/// The command of a key of the memory row: `MC`, `MR`, `M+`, `M-`, `MS`.
pub open spec fn memory_key_of(label: Seq<char>) -> Option<MemoryKey> {
    if label == seq!['M', 'C'] {
        Some(MemoryKey::Clear)
    } else if label == seq!['M', 'R'] {
        Some(MemoryKey::Recall)
    } else if label == seq!['M', '+'] {
        Some(MemoryKey::Add)
    } else if label == seq!['M', '-'] {
        Some(MemoryKey::Subtract)
    } else if label == seq!['M', 'S'] {
        Some(MemoryKey::Store)
    } else {
        None
    }
}

/// The command of a key label of the memory row.
pub fn parse_memory_key(label: &str) -> (k: Option<MemoryKey>)
    ensures
        k == memory_key_of(label@),
{
    proof {
        reveal_strlit("MC");
        assert("MC"@ =~= seq!['M', 'C']);
        reveal_strlit("MR");
        assert("MR"@ =~= seq!['M', 'R']);
        reveal_strlit("M+");
        assert("M+"@ =~= seq!['M', '+']);
        reveal_strlit("M-");
        assert("M-"@ =~= seq!['M', '-']);
        reveal_strlit("MS");
        assert("MS"@ =~= seq!['M', 'S']);
    }
    if same_text(label, "MC") {
        Some(MemoryKey::Clear)
    } else if same_text(label, "MR") {
        Some(MemoryKey::Recall)
    } else if same_text(label, "M+") {
        Some(MemoryKey::Add)
    } else if same_text(label, "M-") {
        Some(MemoryKey::Subtract)
    } else if same_text(label, "MS") {
        Some(MemoryKey::Store)
    } else {
        None
    }
}

impl Calculator {
    /// Carries out a command; `readings` are the values of the arithmetic
    /// taken in the current state.
    pub fn press(&mut self, key: Key, readings: Readings)
        requires
            key matches Key::Digit(d) ==> d <= 9 || !digit_appends(old(self)@),
        ensures
            final(self)@ == press_step(old(self)@, key, readings@),
    {
        match key {
            Key::Digit(d) => self.input_digit(d),
            Key::Point => self.input_decimal(),
            Key::Negate => self.negate(),
            Key::Operator(op) => self.set_op(op, readings.sign, readings.value, readings.applied),
            Key::Equals => self.evaluate(readings.sign, readings.applied),
            Key::Function(op) => {
                let result = match op {
                    UnaryOp::Percent => readings.percent,
                    UnaryOp::Sqrt => readings.root,
                    UnaryOp::Square => readings.square,
                    UnaryOp::Reciprocal => readings.reciprocal,
                };
                self.unary_op(op, readings.sign, result);
            },
            Key::ClearEntry => self.clear_entry(),
            Key::ClearAll => self.clear_all(),
            Key::Backspace => self.backspace(),
        }
    }
}

/// Handles a click on the key labelled `label`; `readings` are the values of
/// the arithmetic taken in the current state. A label that stands for no
/// command leaves the calculator as it is.
pub fn handle_input(calc: &mut Calculator, label: &str, readings: Readings)
    ensures
        final(calc)@ == match key_of(label@) {
            Some(k) => press_step(old(calc)@, k, readings@),
            None => old(calc)@,
        },
{
    match parse_key(label) {
        Some(key) => calc.press(key, readings),
        None => {},
    }
}

/// The label of the clear key for the current state.
pub fn clear_label(calc: &Calculator) -> (r: &'static str)
    ensures
        r@ == clear_label_of(calc@),
{
    if calc.error || is_single(calc.display.as_str(), '0') || calc.fresh {
        proof {
            reveal_strlit("C");
        }
        "C"
    } else {
        proof {
            reveal_strlit("CE");
        }
        "CE"
    }
}

/// How the key labelled `label` is drawn.
pub fn button_style(label: &str) -> (t: ButtonTone)
    ensures
        t == (if label@ == seq!['='] {
            ButtonTone::Accent
        } else {
            ButtonTone::Plain
        }),
{
    if is_single(label, '=') {
        ButtonTone::Accent
    } else {
        ButtonTone::Plain
    }
}

} // verus!
