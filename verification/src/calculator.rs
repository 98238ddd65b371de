//! The calculator's state and every operation of the keypad and the memory
//! row, each stated as a transition of [`CalcModel`].
use vstd::prelude::*;

use crate::number::{error_text, format_number, shown, zero_number, Number, NumberModel};
use crate::ops::{op_symbol, symbol, BinOp, Sign, UnaryOp};
use crate::text::{byte_len, has_char, insert_front, is_single, owned, pop_char, push_char, remove_front, starts_with_char};

verus! {

/// The state of a Standard-mode calculator.
pub struct Calculator {
    /// What is currently shown on the display.
    pub display: String,
    /// The left-hand side operand (accumulated value).
    pub lhs: Number,
    /// Pending binary operator.
    pub op: Option<BinOp>,
    /// Whether the next digit should replace the current display.
    pub fresh: bool,
    /// Whether an error (e.g. division by zero) is active.
    pub error: bool,
    /// Memory register.
    pub memory: Number,
    /// Small expression label shown above the main display.
    pub expression: String,
}

/// The mathematical content of a [`Calculator`].
#[verifier::ext_equal]
pub struct CalcModel {
    pub display: Seq<char>,
    pub lhs: NumberModel,
    pub op: Option<BinOp>,
    pub fresh: bool,
    pub error: bool,
    pub memory: NumberModel,
    pub expression: Seq<char>,
}

impl View for Calculator {
    type V = CalcModel;

    open spec fn view(&self) -> CalcModel {
        CalcModel {
            display: self.display@,
            lhs: self.lhs@,
            op: self.op,
            fresh: self.fresh,
            error: self.error,
            memory: self.memory@,
            expression: self.expression@,
        }
    }
}

/// The character of the decimal digit `n`.
pub open spec fn digit_char(n: u8) -> char {
    (48 + n) as char
}

/// The decimal writing of `d`, without leading zeros.
pub open spec fn u8_text(d: u8) -> Seq<char> {
    if d < 10 {
        seq![digit_char(d)]
    } else if d < 100 {
        seq![digit_char(d / 10), digit_char(d % 10)]
    } else {
        seq![digit_char(d / 100), digit_char((d / 10) % 10), digit_char(d % 10)]
    }
}

/// A freshly started calculator: `0` on the display, nothing pending, an
/// empty memory.
pub open spec fn initial() -> CalcModel {
    CalcModel {
        display: seq!['0'],
        lhs: zero_number(),
        op: None,
        fresh: true,
        error: false,
        memory: zero_number(),
        expression: Seq::empty(),
    }
}

/// `C`: everything but the memory back to the start.
pub open spec fn cleared(c: CalcModel) -> CalcModel {
    CalcModel { memory: c.memory, ..initial() }
}

/// The state from which `c` starts a key that first leaves an error.
pub open spec fn recovered(c: CalcModel) -> CalcModel {
    if c.error {
        cleared(c)
    } else {
        c
    }
}

/// Whether a digit key in state `c` appends to the display (rather than
/// replacing it or being ignored).
pub open spec fn digit_appends(c: CalcModel) -> bool {
    !c.error && !c.fresh && c.display != seq!['0'] && byte_len(c.display) < 16
}

/// A digit key: it replaces a fresh display or a lone `0`, and is appended
/// otherwise as long as the display holds fewer than 16 bytes.
pub open spec fn digit_step(c: CalcModel, d: u8) -> CalcModel {
    let c0 = recovered(c);
    if c0.fresh {
        CalcModel { display: u8_text(d), fresh: false, ..c0 }
    } else if c0.display == seq!['0'] {
        CalcModel { display: u8_text(d), ..c0 }
    } else if byte_len(c0.display) < 16 {
        CalcModel { display: c0.display.push(digit_char(d)), ..c0 }
    } else {
        c0
    }
}

/// The `.` key: a fresh display becomes `0.`; otherwise a point is appended
/// unless the display holds one already.
pub open spec fn decimal_step(c: CalcModel) -> CalcModel {
    let c0 = recovered(c);
    if c0.fresh {
        CalcModel { display: seq!['0', '.'], fresh: false, ..c0 }
    } else if !c0.display.contains('.') {
        CalcModel { display: c0.display.push('.'), ..c0 }
    } else {
        c0
    }
}

/// The `±` key: a leading `-` is taken away, otherwise one is put in front
/// of any display but a lone `0`.
pub open spec fn negate_step(c: CalcModel) -> CalcModel {
    if c.error {
        c
    } else if c.display.len() > 0 && c.display[0] == '-' {
        CalcModel { display: c.display.drop_first(), ..c }
    } else if c.display != seq!['0'] {
        CalcModel { display: seq!['-'] + c.display, ..c }
    } else {
        c
    }
}

/// The `⌫` key: on an entry being typed, the last character goes; a
/// display of one byte becomes a fresh `0`.
pub open spec fn backspace_step(c: CalcModel) -> CalcModel {
    if c.error || c.fresh {
        c
    } else if byte_len(c.display) > 1 {
        CalcModel { display: c.display.drop_last(), ..c }
    } else {
        CalcModel { display: seq!['0'], fresh: true, ..c }
    }
}

/// The `CE` key: the entry becomes a fresh `0`; an error is cleared as by `C`.
pub open spec fn clear_entry_step(c: CalcModel) -> CalcModel {
    if c.error {
        cleared(c)
    } else {
        CalcModel { display: seq!['0'], fresh: true, ..c }
    }
}

/// The state of an error: `Error` shown, nothing pending.
pub open spec fn errored(c: CalcModel) -> CalcModel {
    CalcModel { error: true, display: error_text(), expression: Seq::empty(), op: None, ..c }
}

/// The expression line for a pending operator.
pub open spec fn expression_of(lhs: NumberModel, op: BinOp) -> Seq<char> {
    shown(lhs) + seq![' '] + symbol(op)
}

/// Whether carrying out the pending operator in `c` on a displayed value of
/// the given sign divides by zero.
pub open spec fn divides_by_zero(c: CalcModel, sign: Sign) -> bool {
    c.op == Some(BinOp::Div) && sign == Sign::Zero
}

/// A binary operator key. `sign` is that of the displayed value, `value` the
/// displayed value and `applied` the pending operator applied to the left
/// operand and `value`. A pending operator with a typed entry is carried out
/// first, its result becoming the left operand and the display (a division
/// by zero is an error instead); with no operator pending, `value` becomes
/// the left operand.
pub open spec fn set_op_step(
    c: CalcModel,
    op: BinOp,
    sign: Sign,
    value: NumberModel,
    applied: NumberModel,
) -> CalcModel {
    if c.error {
        c
    } else if !c.fresh && divides_by_zero(c, sign) {
        errored(c)
    } else {
        let c1 = match c.op {
            Some(_) => if !c.fresh {
                CalcModel { lhs: applied, display: shown(applied), ..c }
            } else {
                c
            },
            None => CalcModel { lhs: value, ..c },
        };
        CalcModel { op: Some(op), fresh: true, expression: expression_of(c1.lhs, op), ..c1 }
    }
}

/// The `=` key. `sign` is that of the displayed value and `result` the
/// pending operator applied to the left operand and the displayed value; it
/// becomes the left operand and the display, unless it is a division by zero,
/// which is an error.
pub open spec fn evaluate_step(c: CalcModel, sign: Sign, result: NumberModel) -> CalcModel {
    if c.error || c.op is None {
        c
    } else if divides_by_zero(c, sign) {
        errored(c)
    } else {
        CalcModel {
            lhs: result,
            display: shown(result),
            op: None,
            fresh: true,
            expression: Seq::empty(),
            ..c
        }
    }
}

/// Whether a unary function is undefined on a value of the given sign:
/// the square root of a negative value, the reciprocal of zero.
pub open spec fn unary_fails(op: UnaryOp, sign: Sign) -> bool {
    (op == UnaryOp::Sqrt && sign == Sign::Negative) || (op == UnaryOp::Reciprocal && sign
        == Sign::Zero)
}

/// A unary function key. `sign` is that of the displayed value and `result`
/// the function applied to it.
pub open spec fn unary_step(c: CalcModel, op: UnaryOp, sign: Sign, result: NumberModel) -> CalcModel {
    if c.error {
        c
    } else if unary_fails(op, sign) {
        errored(c)
    } else {
        CalcModel { display: shown(result), fresh: true, ..c }
    }
}

/// `MR`: the memory is shown as a fresh entry, after leaving an error.
pub open spec fn memory_recall_step(c: CalcModel) -> CalcModel {
    let c0 = recovered(c);
    CalcModel { display: shown(c0.memory), fresh: true, ..c0 }
}

/// The memory register set to `m`, all else unchanged.
pub open spec fn with_memory(c: CalcModel, m: NumberModel) -> CalcModel {
    CalcModel { memory: m, ..c }
}

/// The decimal digit `n` as a character.
fn digit_of(n: u8) -> (c: char)
    requires
        n < 10,
    ensures
        c == digit_char(n),
{
    (48u8 + n) as char
}

/// The decimal writing of `d`.
fn decimal_text(d: u8) -> (r: String)
    ensures
        r@ == u8_text(d),
{
    let mut s = String::new();
    if d >= 100 {
        push_char(&mut s, digit_of(d / 100));
    }
    if d >= 10 {
        push_char(&mut s, digit_of((d / 10) % 10));
    }
    push_char(&mut s, digit_of(d % 10));
    assert(s@ =~= u8_text(d));
    s
}

/// The text `0`.
fn zero_text() -> (r: String)
    ensures
        r@ == seq!['0'],
{
    let mut s = String::new();
    push_char(&mut s, '0');
    assert(s@ =~= seq!['0']);
    s
}

impl Default for Calculator {
    fn default() -> (r: Self)
        ensures
            r@ == initial(),
    {
        Self::new()
    }
}

impl Calculator {
    /// A freshly started calculator.
    pub fn new() -> (r: Self)
        ensures
            r@ == initial(),
    {
        Calculator {
            display: zero_text(),
            lhs: Number::zero(),
            op: None,
            fresh: true,
            error: false,
            memory: Number::zero(),
            expression: String::new(),
        }
    }

    /// A digit key. A value above 9 is no single digit character: it may
    /// replace the display (written in decimal) but is never appended.
    pub fn input_digit(&mut self, d: u8)
        requires
            d <= 9 || !digit_appends(old(self)@),
        ensures
            final(self)@ == digit_step(old(self)@, d),
    {
        if self.error {
            self.clear_all();
        }
        if self.fresh {
            self.display = decimal_text(d);
            self.fresh = false;
        } else if is_single(self.display.as_str(), '0') {
            self.display = decimal_text(d);
        } else if self.display.as_str().as_bytes().len() < 16 {
            push_char(&mut self.display, digit_of(d));
        }
    }

    /// The `.` key.
    pub fn input_decimal(&mut self)
        ensures
            final(self)@ == decimal_step(old(self)@),
    {
        if self.error {
            self.clear_all();
        }
        if self.fresh {
            proof {
                reveal_strlit("0.");
            }
            self.display = owned("0.");
            self.fresh = false;
            return;
        }
        if !has_char(self.display.as_str(), '.') {
            push_char(&mut self.display, '.');
        }
    }

    /// The `±` key.
    pub fn negate(&mut self)
        ensures
            final(self)@ == negate_step(old(self)@),
    {
        if self.error {
            return;
        }
        if starts_with_char(self.display.as_str(), '-') {
            remove_front(&mut self.display);
        } else if !is_single(self.display.as_str(), '0') {
            insert_front(&mut self.display, '-');
        }
    }

    /// The `⌫` key.
    pub fn backspace(&mut self)
        ensures
            final(self)@ == backspace_step(old(self)@),
    {
        if self.error || self.fresh {
            return;
        }
        if self.display.as_str().as_bytes().len() > 1 {
            pop_char(&mut self.display);
        } else {
            self.display = zero_text();
            self.fresh = true;
        }
    }

    /// The `CE` key.
    pub fn clear_entry(&mut self)
        ensures
            final(self)@ == clear_entry_step(old(self)@),
    {
        self.display = zero_text();
        self.fresh = true;
        if self.error {
            self.clear_all();
        }
    }

    /// The `C` key.
    pub fn clear_all(&mut self)
        ensures
            final(self)@ == cleared(old(self)@),
    {
        self.display = zero_text();
        self.lhs = Number::zero();
        self.op = None;
        self.fresh = true;
        self.error = false;
        self.expression = String::new();
    }

    /// A binary operator key; `sign` is that of the displayed value, `value`
    /// the displayed value and `applied` the pending operator applied to the
    /// left operand and `value`.
    pub fn set_op(&mut self, op: BinOp, sign: Sign, value: Number, applied: Number)
        ensures
            final(self)@ == set_op_step(old(self)@, op, sign, value@, applied@),
    {
        if self.error {
            return;
        }
        if !self.fresh && self.op == Some(BinOp::Div) && sign == Sign::Zero {
            self.set_error();
            return;
        }
        if self.op.is_some() {
            if !self.fresh {
                self.display = format_number(&applied);
                self.lhs = applied;
            }
        } else {
            self.lhs = value;
        }
        self.op = Some(op);
        self.fresh = true;
        self.update_expression();
    }

    /// The `=` key; `sign` is that of the displayed value and `result` the
    /// pending operator applied to the left operand and the displayed value.
    pub fn evaluate(&mut self, sign: Sign, result: Number)
        ensures
            final(self)@ == evaluate_step(old(self)@, sign, result@),
    {
        if self.error {
            return;
        }
        if self.op == Some(BinOp::Div) && sign == Sign::Zero {
            self.set_error();
            return;
        }
        if self.op.is_some() {
            self.display = format_number(&result);
            self.lhs = result;
            self.op = None;
            self.fresh = true;
            self.expression = String::new();
        }
    }

    /// A unary function key; `sign` is that of the displayed value and
    /// `result` the function applied to it.
    pub fn unary_op(&mut self, op: UnaryOp, sign: Sign, result: Number)
        ensures
            final(self)@ == unary_step(old(self)@, op, sign, result@),
    {
        if self.error {
            return;
        }
        match op {
            UnaryOp::Sqrt => {
                if sign == Sign::Negative {
                    self.set_error();
                    return;
                }
            },
            UnaryOp::Reciprocal => {
                if sign == Sign::Zero {
                    self.set_error();
                    return;
                }
            },
            _ => {},
        }
        self.display = format_number(&result);
        self.fresh = true;
    }

    fn set_error(&mut self)
        ensures
            final(self)@ == errored(old(self)@),
    {
        self.error = true;
        proof {
            reveal_strlit("Error");
        }
        self.display = owned("Error");
        self.expression = String::new();
        self.op = None;
    }

    fn update_expression(&mut self)
        requires
            old(self).op is Some,
        ensures
            final(self)@ == (CalcModel {
                expression: expression_of(old(self)@.lhs, old(self)@.op.unwrap()),
                ..old(self)@
            }),
    {
        let mut e = format_number(&self.lhs);
        proof {
            reveal_strlit(" ");
        }
        e.append(" ");
        match self.op {
            Some(op) => e.append(op_symbol(op)),
            None => {},
        }
        self.expression = e;
    }

    /// `MC`: the memory back to zero.
    pub fn memory_clear(&mut self)
        ensures
            final(self)@ == with_memory(old(self)@, zero_number()),
    {
        self.memory = Number::zero();
    }

    /// `MR`: the memory shown as a fresh entry.
    pub fn memory_recall(&mut self)
        ensures
            final(self)@ == memory_recall_step(old(self)@),
    {
        if self.error {
            self.clear_all();
        }
        self.display = format_number(&self.memory);
        self.fresh = true;
    }

    /// `M+`: `sum` is the memory plus the displayed value.
    pub fn memory_add(&mut self, sum: Number)
        ensures
            final(self)@ == with_memory(old(self)@, sum@),
    {
        self.memory = sum;
    }

    /// `M−`: `difference` is the memory minus the displayed value.
    pub fn memory_sub(&mut self, difference: Number)
        ensures
            final(self)@ == with_memory(old(self)@, difference@),
    {
        self.memory = difference;
    }

    /// `MS`: `value` is the displayed value.
    pub fn memory_store(&mut self, value: Number)
        ensures
            final(self)@ == with_memory(old(self)@, value@),
    {
        self.memory = value;
    }
}

} // verus!
