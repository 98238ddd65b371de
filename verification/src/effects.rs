//! What each key and memory operation does to the calculator, field by field.
use vstd::prelude::*;
use vstd::utf8::{encode_scalar, encode_utf8};

use crate::calculator::{
    backspace_step, clear_entry_step, cleared, decimal_step, digit_step, evaluate_step, initial,
    memory_recall_step, negate_step, set_op_step, unary_step, with_memory, CalcModel,
};
use crate::calculator::u8_text;
use crate::keypad::{
    clear_label_of, digits_value, key_of, memory_key_of, press_step, Key, MemoryKey,
    ReadingsModel,
};
use crate::text::is_digit;
use crate::number::{error_text, shown, zero_number, NumberModel};
use crate::ops::{symbol, BinOp, Sign, UnaryOp};
use crate::text::byte_len;

verus! {

/// `b` keeps the pending operator, the left operand, the expression line,
/// the memory and the error flag of `a`.
pub open spec fn keeps_pending(a: CalcModel, b: CalcModel) -> bool {
    &&& b.op == a.op
    &&& b.lhs == a.lhs
    &&& b.expression == a.expression
    &&& b.memory == a.memory
    &&& b.error == a.error
}

/// `b` is the state right after `C` from a state with memory `m`, except
/// for its display and fresh flag.
pub open spec fn reset_but_entry(b: CalcModel, m: NumberModel) -> bool {
    &&& !b.error
    &&& b.op is None
    &&& b.lhs == zero_number()
    &&& b.expression.len() == 0
    &&& b.memory == m
}

/// A new calculator shows `0` as a fresh entry, with nothing pending, no
/// error and an empty memory.
pub proof fn new_calculator_state()
    ensures
        initial().display == seq!['0'],
        initial().fresh,
        !initial().error,
        initial().op is None,
        initial().expression.len() == 0,
        initial().lhs == zero_number(),
        initial().memory == zero_number(),
{
}

/// `C` shows a fresh `0` and drops the error, the pending operator, the left
/// operand and the expression line; it keeps the memory.
pub proof fn clear_all_effect(c: CalcModel)
    ensures
        cleared(c).display == seq!['0'],
        cleared(c).fresh,
        reset_but_entry(cleared(c), c.memory),
{
}

/// A digit key. Outside an error only the display and the fresh flag change:
/// the digit replaces a fresh display or a lone `0`, is appended to a display
/// of fewer than 16 bytes, and is ignored otherwise. In an error, the
/// calculator is cleared and the digit is the new entry.
pub proof fn digit_key_effect(c: CalcModel, d: u8)
    requires
        d <= 9,
    ensures
        !c.error ==> keeps_pending(c, digit_step(c, d)),
        !c.error && c.fresh ==> digit_step(c, d).display == seq![(48 + d) as char],
        !c.error && !c.fresh && c.display == seq!['0'] ==> digit_step(c, d).display == seq![
            (48 + d) as char,
        ],
        !c.error && !c.fresh && c.display != seq!['0'] && byte_len(c.display) < 16
            ==> digit_step(c, d).display == c.display.push((48 + d) as char),
        !c.error && !c.fresh && c.display != seq!['0'] && byte_len(c.display) >= 16
            ==> digit_step(c, d).display == c.display,
        !c.error ==> (digit_step(c, d).fresh <==> false),
        c.error ==> digit_step(c, d).display == seq![(48 + d) as char] && !digit_step(c, d).fresh
            && reset_but_entry(digit_step(c, d), c.memory),
{
}

/// The point key. Outside an error only the display and the fresh flag
/// change: a fresh display becomes `0.`, a display without a point gets one
/// at its end, and one with a point is kept. In an error, the calculator is
/// cleared and the entry is `0.`.
pub proof fn decimal_key_effect(c: CalcModel)
    ensures
        !c.error ==> keeps_pending(c, decimal_step(c)),
        !decimal_step(c).fresh,
        !c.error && c.fresh ==> decimal_step(c).display == seq!['0', '.'],
        !c.error && !c.fresh && !c.display.contains('.') ==> decimal_step(c).display
            == c.display.push('.'),
        !c.error && !c.fresh && c.display.contains('.') ==> decimal_step(c).display == c.display,
        c.error ==> decimal_step(c).display == seq!['0', '.'] && reset_but_entry(
            decimal_step(c),
            c.memory,
        ),
{
}

/// The sign key changes only the display: a leading `-` is taken away,
/// otherwise one is put in front of any display but a lone `0`. In an error
/// nothing changes.
pub proof fn negate_key_effect(c: CalcModel)
    ensures
        keeps_pending(c, negate_step(c)),
        negate_step(c).fresh == c.fresh,
        c.error ==> negate_step(c).display == c.display,
        !c.error && c.display.len() > 0 && c.display[0] == '-' ==> negate_step(c).display
            == c.display.drop_first(),
        !c.error && !(c.display.len() > 0 && c.display[0] == '-') && c.display != seq!['0']
            ==> negate_step(c).display == seq!['-'] + c.display,
        !c.error && c.display == seq!['0'] ==> negate_step(c).display == c.display,
{
}

/// The backspace key changes only the display and the fresh flag, and only
/// on a typed entry outside an error: it drops the last character, or turns
/// a one-byte display into a fresh `0`.
pub proof fn backspace_key_effect(c: CalcModel)
    ensures
        keeps_pending(c, backspace_step(c)),
        c.error || c.fresh ==> backspace_step(c).display == c.display && backspace_step(c).fresh
            == c.fresh,
        !c.error && !c.fresh && byte_len(c.display) > 1 ==> backspace_step(c).display
            == c.display.drop_last() && !backspace_step(c).fresh,
        !c.error && !c.fresh && byte_len(c.display) <= 1 ==> backspace_step(c).display == seq![
            '0',
        ] && backspace_step(c).fresh,
{
}

/// `CE` shows a fresh `0`. Outside an error the pending operator, the left
/// operand, the expression line and the memory are kept; in an error it
/// clears like `C`.
pub proof fn clear_entry_effect(c: CalcModel)
    ensures
        clear_entry_step(c).display == seq!['0'],
        clear_entry_step(c).fresh,
        !c.error ==> keeps_pending(c, clear_entry_step(c)),
        c.error ==> reset_but_entry(clear_entry_step(c), c.memory),
{
}

/// An operator key outside an error. Unless it divides by zero, it sets the
/// new operator, makes the display fresh and writes the left operand and the
/// operator on the expression line; the left operand becomes the displayed
/// value when nothing was pending, stays when nothing was typed since, and
/// becomes the pending operator's result (also shown) after a typed entry.
/// A pending division with a typed zero entry is an error instead. No other
/// operator, and no non-zero entry, ever makes an error.
pub proof fn operator_key_effect(c: CalcModel, op: BinOp, sign: Sign, value: NumberModel, applied: NumberModel)
    requires
        !c.error,
    ensures
        ({
            let n = set_op_step(c, op, sign, value, applied);
            &&& (c.fresh || c.op != Some(BinOp::Div) || sign != Sign::Zero) ==> {
                &&& !n.error
                &&& n.op == Some(op)
                &&& n.fresh
                &&& n.expression == shown(n.lhs) + seq![' '] + symbol(op)
                &&& n.memory == c.memory
            }
            &&& c.op is None ==> n.lhs == value && n.display == c.display
            &&& c.op is Some && c.fresh ==> n.lhs == c.lhs && n.display == c.display
            &&& c.op is Some && !c.fresh && (c.op != Some(BinOp::Div) || sign != Sign::Zero) ==> n.lhs
                == applied && n.display == shown(applied)
            &&& c.op == Some(BinOp::Div) && !c.fresh && sign == Sign::Zero ==> {
                &&& n.error
                &&& n.display == error_text()
                &&& n.op is None
                &&& n.expression.len() == 0
                &&& n.lhs == c.lhs
                &&& n.memory == c.memory
            }
        }),
{
}

/// The `=` key outside an error. With nothing pending nothing changes.
/// Otherwise the result becomes the left operand and is shown as a fresh
/// entry, the operator and the expression line are dropped — unless the
/// pending operator is a division and the displayed value is zero, which is
/// an error. No other operator, and no non-zero value, ever makes an error.
pub proof fn equals_key_effect(c: CalcModel, sign: Sign, result: NumberModel)
    requires
        !c.error,
    ensures
        ({
            let n = evaluate_step(c, sign, result);
            &&& c.op is None ==> n == c
            &&& c.op is Some && (c.op != Some(BinOp::Div) || sign != Sign::Zero) ==> {
                &&& !n.error
                &&& n.lhs == result
                &&& n.display == shown(result)
                &&& n.op is None
                &&& n.fresh
                &&& n.expression.len() == 0
                &&& n.memory == c.memory
            }
            &&& c.op == Some(BinOp::Div) && sign == Sign::Zero ==> {
                &&& n.error
                &&& n.display == error_text()
                &&& n.op is None
                &&& n.expression.len() == 0
                &&& n.lhs == c.lhs
                &&& n.memory == c.memory
            }
        }),
{
}

/// A function key outside an error is an error exactly for the square root
/// of a negative value and the reciprocal of zero. Otherwise it shows the
/// function's result as a fresh entry and changes nothing else.
pub proof fn function_key_effect(c: CalcModel, op: UnaryOp, sign: Sign, result: NumberModel)
    requires
        !c.error,
    ensures
        ({
            let n = unary_step(c, op, sign, result);
            &&& n.error <==> ((op == UnaryOp::Sqrt && sign == Sign::Negative) || (op
                == UnaryOp::Reciprocal && sign == Sign::Zero))
            &&& !n.error ==> keeps_pending(c, n) && n.display == shown(result) && n.fresh
            &&& n.error ==> {
                &&& n.display == error_text()
                &&& n.op is None
                &&& n.expression.len() == 0
                &&& n.lhs == c.lhs
                &&& n.memory == c.memory
            }
        }),
{
}

/// `MR` shows the memory as a fresh entry. Outside an error nothing else
/// changes (a pending operator stays pending); in an error it first clears
/// like `C`.
pub proof fn memory_recall_effect(c: CalcModel)
    ensures
        memory_recall_step(c).display == shown(c.memory),
        memory_recall_step(c).fresh,
        !c.error ==> keeps_pending(c, memory_recall_step(c)),
        c.error ==> reset_but_entry(memory_recall_step(c), c.memory),
{
}

/// `MC`, `M+`, `M−` and `MS` set the memory and change nothing else.
pub proof fn memory_set_effect(c: CalcModel, m: NumberModel)
    ensures
        with_memory(c, m).memory == m,
        with_memory(c, m).display == c.display,
        with_memory(c, m).fresh == c.fresh,
        with_memory(c, m).op == c.op,
        with_memory(c, m).lhs == c.lhs,
        with_memory(c, m).expression == c.expression,
        with_memory(c, m).error == c.error,
{
}

/// Each key command does what its key does: the digit, point, sign,
/// backspace, `CE` and `C` keys act on the entry; the operator and `=` keys
/// use the displayed value, its sign and the pending operator's result; a
/// function key uses that function's result.
pub proof fn press_effect(c: CalcModel, r: ReadingsModel, d: u8, op: BinOp, f: UnaryOp)
    ensures
        press_step(c, Key::Digit(d), r) == digit_step(c, d),
        press_step(c, Key::Point, r) == decimal_step(c),
        press_step(c, Key::Negate, r) == negate_step(c),
        press_step(c, Key::Backspace, r) == backspace_step(c),
        press_step(c, Key::ClearEntry, r) == clear_entry_step(c),
        press_step(c, Key::ClearAll, r) == cleared(c),
        press_step(c, Key::Operator(op), r) == set_op_step(c, op, r.sign, r.value, r.applied),
        press_step(c, Key::Equals, r) == evaluate_step(c, r.sign, r.applied),
        press_step(c, Key::Function(UnaryOp::Percent), r) == unary_step(
            c,
            UnaryOp::Percent,
            r.sign,
            r.percent,
        ),
        press_step(c, Key::Function(UnaryOp::Sqrt), r) == unary_step(c, UnaryOp::Sqrt, r.sign, r.root),
        press_step(c, Key::Function(UnaryOp::Square), r) == unary_step(
            c,
            UnaryOp::Square,
            r.sign,
            r.square,
        ),
        press_step(c, Key::Function(UnaryOp::Reciprocal), r) == unary_step(
            c,
            UnaryOp::Reciprocal,
            r.sign,
            r.reciprocal,
        ),
        !c.error ==> press_step(c, Key::ClearEntry, r).op == c.op && press_step(
            c,
            Key::ClearEntry,
            r,
        ).lhs == c.lhs,
        press_step(c, Key::ClearAll, r).op is None,
{
}

/// A value written as a digit key's entry is written in decimal without
/// leading zeros: its characters are digits that read back as the value.
pub proof fn digit_entry_text(d: u8)
    ensures
        forall|i: int| 0 <= i < u8_text(d).len() ==> is_digit(#[trigger] u8_text(d)[i]),
        digits_value(u8_text(d)) == d,
        u8_text(d).len() > 1 ==> u8_text(d)[0] != '0',
        1 <= u8_text(d).len() <= 3,
{
    let t = u8_text(d);
    let a = d / 100;
    let b = (d / 10) % 10;
    let e = d % 10;
    assert(((48 + a) as char) as u32 == 48 + a);
    assert(((48 + b) as char) as u32 == 48 + b);
    assert(((48 + e) as char) as u32 == 48 + e);
    assert(((48 + d / 10) as char) as u32 == 48 + d / 10) by {
        if d < 100 {
            assert(d / 10 < 10);
        }
    }
    if d < 10 {
        assert(t.drop_last() =~= Seq::<char>::empty());
        assert(digits_value(t) == digits_value(t.drop_last()) * 10 + e);
    } else if d < 100 {
        let t1 = t.drop_last();
        assert(t1 =~= seq![((48 + d / 10) as char)]);
        assert(t1.drop_last() =~= Seq::<char>::empty());
        assert(digits_value(t1.drop_last()) == 0);
        assert(t1.last() == (48 + d / 10) as char);
        assert(digits_value(t1) == d / 10);
        assert(digits_value(t) == digits_value(t1) * 10 + e);
    } else {
        let t1 = t.drop_last();
        let t2 = t1.drop_last();
        assert(t1 =~= seq![((48 + a) as char), ((48 + b) as char)]);
        assert(t2 =~= seq![((48 + a) as char)]);
        assert(t2.drop_last() =~= Seq::<char>::empty());
        assert(digits_value(t2.drop_last()) == 0);
        assert(t2.last() == (48 + a) as char);
        assert(digits_value(t2) == a);
        assert(t1.last() == (48 + b) as char);
        assert(digits_value(t1) == a * 10 + b);
        assert(digits_value(t) == digits_value(t1) * 10 + e);
    }
}

/// The clear key reads `CE` exactly when there is a typed entry to clear:
/// no error, a display that is not fresh and not a lone `0`; else `C`.
pub proof fn clear_label_effect(c: CalcModel)
    ensures
        (clear_label_of(c) == seq!['C', 'E']) <==> (!c.error && !c.fresh && c.display != seq!['0']),
        clear_label_of(c) == seq!['C'] || clear_label_of(c) == seq!['C', 'E'],
{
    assert(seq!['C'] != seq!['C', 'E']) by {
        assert(seq!['C'].len() != seq!['C', 'E'].len());
    }
}

/// The labels of the memory row and the operations they stand for.
pub proof fn memory_labels()
    ensures
        memory_key_of(seq!['M', 'C']) == Some(MemoryKey::Clear),
        memory_key_of(seq!['M', 'R']) == Some(MemoryKey::Recall),
        memory_key_of(seq!['M', '+']) == Some(MemoryKey::Add),
        memory_key_of(seq!['M', '-']) == Some(MemoryKey::Subtract),
        memory_key_of(seq!['M', 'S']) == Some(MemoryKey::Store),
{
}

/// Every digit key label stands for its digit.
pub proof fn digit_labels(d: u8)
    requires
        d <= 9,
    ensures
        key_of(seq![(48 + d) as char]) == Some(Key::Digit(d)),
{
    let s = seq![(48 + d) as char];
    assert(((48 + d) as char) as u32 == 48 + d);
    assert(s[0] != '+');
    assert(crate::keypad::u8_body(s) =~= s);
    assert(s.drop_last() =~= Seq::<char>::empty());
    assert(crate::keypad::digits_value(s.drop_last()) == 0);
    assert(crate::keypad::digits_value(s) == d);
    assert(forall|i: int| 0 <= i < s.len() ==> crate::text::is_digit(#[trigger] s[i]));
    assert(crate::keypad::u8_parse(s) == Some(d));
}

/// The labels of the other keys of the keypad and the commands they stand for.
pub proof fn named_labels()
    ensures
        key_of(seq!['.']) == Some(Key::Point),
        key_of(seq!['\u{b1}']) == Some(Key::Negate),
        key_of(seq!['+']) == Some(Key::Operator(BinOp::Add)),
        key_of(seq!['-']) == Some(Key::Operator(BinOp::Sub)),
        key_of(seq!['\u{d7}']) == Some(Key::Operator(BinOp::Mul)),
        key_of(seq!['\u{f7}']) == Some(Key::Operator(BinOp::Div)),
        key_of(seq!['=']) == Some(Key::Equals),
        key_of(seq!['%']) == Some(Key::Function(UnaryOp::Percent)),
        key_of(seq!['\u{221a}']) == Some(Key::Function(UnaryOp::Sqrt)),
        key_of(seq!['x', '\u{b2}']) == Some(Key::Function(UnaryOp::Square)),
        key_of(seq!['1', '/', 'x']) == Some(Key::Function(UnaryOp::Reciprocal)),
        key_of(seq!['C', 'E']) == Some(Key::ClearEntry),
        key_of(seq!['C']) == Some(Key::ClearAll),
        key_of(seq!['\u{232b}']) == Some(Key::Backspace),
{
    assert(crate::keypad::u8_parse(seq!['.']) is None) by {
        assert(!crate::text::is_digit(seq!['.'][0]));
    }
    assert(crate::keypad::u8_parse(seq!['\u{b1}']) is None) by {
        assert(!crate::text::is_digit(seq!['\u{b1}'][0]));
    }
    assert(crate::keypad::u8_parse(seq!['+']) is None) by {
        assert(seq!['+'].drop_first().len() == 0);
    }
    assert(crate::keypad::u8_parse(seq!['-']) is None) by {
        assert(!crate::text::is_digit(seq!['-'][0]));
    }
    assert(crate::keypad::u8_parse(seq!['\u{d7}']) is None) by {
        assert(!crate::text::is_digit(seq!['\u{d7}'][0]));
    }
    assert(crate::keypad::u8_parse(seq!['\u{f7}']) is None) by {
        assert(!crate::text::is_digit(seq!['\u{f7}'][0]));
    }
    assert(crate::keypad::u8_parse(seq!['=']) is None) by {
        assert(!crate::text::is_digit(seq!['='][0]));
    }
    assert(crate::keypad::u8_parse(seq!['%']) is None) by {
        assert(!crate::text::is_digit(seq!['%'][0]));
    }
    assert(crate::keypad::u8_parse(seq!['\u{221a}']) is None) by {
        assert(!crate::text::is_digit(seq!['\u{221a}'][0]));
    }
    assert(crate::keypad::u8_parse(seq!['x', '\u{b2}']) is None) by {
        assert(!crate::text::is_digit(seq!['x', '\u{b2}'][0]));
    }
    assert(crate::keypad::u8_parse(seq!['1', '/', 'x']) is None) by {
        assert(!crate::text::is_digit(seq!['1', '/', 'x'][1]));
    }
    assert(crate::keypad::u8_parse(seq!['C', 'E']) is None) by {
        assert(!crate::text::is_digit(seq!['C', 'E'][0]));
    }
    assert(crate::keypad::u8_parse(seq!['C']) is None) by {
        assert(!crate::text::is_digit(seq!['C'][0]));
    }
    assert(crate::keypad::u8_parse(seq!['\u{232b}']) is None) by {
        assert(!crate::text::is_digit(seq!['\u{232b}'][0]));
    }
}

} // verus!
