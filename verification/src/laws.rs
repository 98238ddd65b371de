//! Properties that hold across the calculator's operations.
use vstd::prelude::*;
use vstd::utf8::{encode_scalar, encode_utf8};

use crate::calculator::{
    backspace_step, clear_entry_step, cleared, decimal_step, digit_appends, digit_char,
    digit_step, divides_by_zero, evaluate_step, expression_of, initial, memory_recall_step,
    negate_step, set_op_step, unary_step, with_memory, CalcModel,
};
use crate::keypad::{press_step, Key, ReadingsModel};
use crate::number::{
    error_text, finite_bits, shown, strip_end, ten_decimal, unsigned_part, well_formed,
    NumberModel,
};
use crate::text::is_digit;
use crate::ops::{BinOp, Sign, UnaryOp};
use crate::text::byte_len;

verus! {

proof fn lemma_byte_len_push(s: Seq<char>, c: char)
    ensures
        byte_len(s.push(c)) == byte_len(s) + encode_scalar(c as u32).len(),
    decreases s.len(),
{
    if s.len() == 0 {
        assert(s.push(c).drop_first() =~= Seq::<char>::empty());
        assert(encode_utf8(Seq::<char>::empty()) =~= Seq::<u8>::empty());
    } else {
        assert(s.push(c).drop_first() =~= s.drop_first().push(c));
        lemma_byte_len_push(s.drop_first(), c);
    }
}

proof fn lemma_byte_len_positive(s: Seq<char>)
    ensures
        s.len() > 0 ==> byte_len(s) > 0,
        s.len() == 0 ==> byte_len(s) == 0,
{
    if s.len() > 0 {
        assert(encode_scalar(s[0] as u32).len() > 0);
    }
}

proof fn lemma_digit_one_byte(d: u8)
    requires
        d <= 9,
    ensures
        encode_scalar(digit_char(d) as u32).len() == 1,
        byte_len(seq![digit_char(d)]) == 1,
{
    assert(digit_char(d) as u32 == 48 + d);
    assert(seq![digit_char(d)].drop_first() =~= Seq::<char>::empty());
    assert(encode_utf8(Seq::<char>::empty()) =~= Seq::<u8>::empty());
}

/// The sign key undoes itself: pressing it twice gives back the state,
/// except on a display of `-0` (which becomes `0`) or one that begins with
/// two minus signs.
pub proof fn negate_twice(c: CalcModel)
    requires
        c.display != seq!['-', '0'],
        !(c.display.len() >= 2 && c.display[0] == '-' && c.display[1] == '-'),
    ensures
        negate_step(negate_step(c)) == c,
{
    if !c.error {
        if c.display.len() > 0 && c.display[0] == '-' {
            let r = c.display.drop_first();
            if r == seq!['0'] {
                assert(c.display =~= seq!['-', '0']);
            }
            assert(seq!['-'] + r =~= c.display);
        } else if c.display != seq!['0'] {
            assert((seq!['-'] + c.display).drop_first() =~= c.display);
        }
    }
    assert(negate_step(negate_step(c)) =~= c);
}

/// While digits are typed, the display grows to at most 16 bytes: a digit
/// key either leaves the display as it was or leaves at most 16 bytes on it.
pub proof fn digit_entry_bounded(c: CalcModel, d: u8)
    requires
        d <= 9,
    ensures
        byte_len(digit_step(c, d).display) <= 16 || digit_step(c, d).display == c.display,
{
    lemma_digit_one_byte(d);
    let c0 = if c.error { cleared(c) } else { c };
    if !c0.fresh && c0.display != seq!['0'] && byte_len(c0.display) < 16 {
        lemma_byte_len_push(c0.display, digit_char(d));
    }
}

/// After an operator key (that did not divide by zero), the next digit
/// starts a new entry: the display holds that digit alone, and the left
/// operand and the operator are kept.
pub proof fn digit_after_operator(
    c: CalcModel,
    op: BinOp,
    sign: Sign,
    value: NumberModel,
    applied: NumberModel,
    d: u8,
)
    requires
        !c.error,
        !(!c.fresh && divides_by_zero(c, sign)),
        d <= 9,
    ensures
        digit_step(set_op_step(c, op, sign, value, applied), d).display == seq![digit_char(d)],
        digit_step(set_op_step(c, op, sign, value, applied), d).lhs == set_op_step(
            c,
            op,
            sign,
            value,
            applied,
        ).lhs,
        digit_step(set_op_step(c, op, sign, value, applied), d).op == Some(op),
{
}

/// A second operator key pressed right after the first (that did not
/// divide by zero) only replaces the pending operator: nothing is computed,
/// and the left operand and the display stay as the first key left them.
pub proof fn operator_replaces_operator(
    c: CalcModel,
    first: BinOp,
    second: BinOp,
    sign: Sign,
    value: NumberModel,
    applied: NumberModel,
    sign2: Sign,
    value2: NumberModel,
    applied2: NumberModel,
)
    requires
        !c.error,
        !(!c.fresh && divides_by_zero(c, sign)),
    ensures
        set_op_step(set_op_step(c, first, sign, value, applied), second, sign2, value2, applied2).lhs
            == set_op_step(c, first, sign, value, applied).lhs,
        set_op_step(set_op_step(c, first, sign, value, applied), second, sign2, value2, applied2).display
            == set_op_step(c, first, sign, value, applied).display,
        set_op_step(set_op_step(c, first, sign, value, applied), second, sign2, value2, applied2).op
            == Some(second),
{
}

/// A division by zero, by `=` or by an operator key after a typed entry,
/// makes the error active: `Error` is shown and nothing stays pending.
pub proof fn division_by_zero_is_error(
    c: CalcModel,
    op: BinOp,
    value: NumberModel,
    result: NumberModel,
)
    requires
        !c.error,
        c.op == Some(BinOp::Div),
    ensures
        evaluate_step(c, Sign::Zero, result).error,
        evaluate_step(c, Sign::Zero, result).display == error_text(),
        evaluate_step(c, Sign::Zero, result).op is None,
        !c.fresh ==> set_op_step(c, op, Sign::Zero, value, result).error,
        !c.fresh ==> set_op_step(c, op, Sign::Zero, value, result).display == error_text(),
        !c.fresh ==> set_op_step(c, op, Sign::Zero, value, result).op is None,
{
}

/// The backspace key takes back a digit that was just appended.
pub proof fn backspace_undoes_digit(c: CalcModel, d: u8)
    requires
        d <= 9,
        digit_appends(c),
        c.display.len() > 0,
    ensures
        backspace_step(digit_step(c, d)) == c,
{
    lemma_digit_one_byte(d);
    lemma_byte_len_push(c.display, digit_char(d));
    lemma_byte_len_positive(c.display);
    assert(c.display.push(digit_char(d)).drop_last() =~= c.display);
    assert(backspace_step(digit_step(c, d)) =~= c);
}

/// The point key is idempotent: a second press changes nothing.
pub proof fn decimal_idempotent(c: CalcModel)
    ensures
        decimal_step(decimal_step(c)) == decimal_step(c),
{
    let c1 = decimal_step(c);
    let c0 = if c.error { cleared(c) } else { c };
    if c0.fresh {
        assert(c1.display[1] == '.');
    } else if !c0.display.contains('.') {
        assert(c1.display[c1.display.len() - 1] == '.');
    }
    assert(decimal_step(c1) =~= c1);
}

/// Clearing everything twice is clearing once, and clearing the entry
/// before clearing everything makes no difference; the memory survives both.
pub proof fn clear_all_absorbs(c: CalcModel)
    ensures
        cleared(cleared(c)) == cleared(c),
        cleared(clear_entry_step(c)) == cleared(c),
        cleared(c).memory == c.memory,
{
    assert(cleared(cleared(c)) =~= cleared(c));
    assert(cleared(clear_entry_step(c)) =~= cleared(c));
}

/// An error holds until it is cleared: the sign, backspace, operator, `=`
/// and function keys leave a state in error as it is.
pub proof fn error_is_sticky(
    c: CalcModel,
    op: BinOp,
    f: UnaryOp,
    sign: Sign,
    value: NumberModel,
    result: NumberModel,
)
    requires
        c.error,
    ensures
        negate_step(c) == c,
        backspace_step(c) == c,
        set_op_step(c, op, sign, value, result) == c,
        evaluate_step(c, sign, result) == c,
        unary_step(c, f, sign, result) == c,
{
}

/// Memory recall shows what was stored: after the memory is set to a value,
/// `MR` puts that value's display text on the display as a fresh entry.
pub proof fn recall_shows_stored(c: CalcModel, v: NumberModel)
    ensures
        memory_recall_step(with_memory(c, v)).display == shown(v),
        memory_recall_step(with_memory(c, v)).fresh,
        memory_recall_step(with_memory(c, v)).memory == v,
{
}

/// In an error, `Error` is shown and nothing is pending: no operator, no
/// expression line.
pub open spec fn error_shown(c: CalcModel) -> bool {
    c.error ==> c.display == error_text() && c.op is None && c.expression.len() == 0
}

/// The expression line shows exactly the left operand and the pending
/// operator, and is empty when no operator is pending.
pub open spec fn expression_matches(c: CalcModel) -> bool {
    match c.op {
        Some(b) => c.expression == expression_of(c.lhs, b),
        None => c.expression.len() == 0,
    }
}

/// Both state invariants of the calculator.
pub open spec fn consistent(c: CalcModel) -> bool {
    error_shown(c) && expression_matches(c)
}

/// A new calculator is consistent, and every key and every memory
/// operation keeps it so.
pub proof fn operations_keep_consistency(c: CalcModel, key: Key, r: ReadingsModel, m: NumberModel)
    requires
        consistent(c),
    ensures
        consistent(initial()),
        consistent(press_step(c, key, r)),
        consistent(memory_recall_step(c)),
        consistent(with_memory(c, m)),
{
}

/// The values that a state holds are well formed.
pub open spec fn numbers_well_formed(c: CalcModel) -> bool {
    well_formed(c.lhs) && well_formed(c.memory)
}

/// The values that a key can store.
pub open spec fn readings_well_formed(r: ReadingsModel) -> bool {
    &&& well_formed(r.value)
    &&& well_formed(r.applied)
    &&& well_formed(r.percent)
    &&& well_formed(r.root)
    &&& well_formed(r.square)
    &&& well_formed(r.reciprocal)
}

/// Given well-formed values, every key and memory operation leaves the
/// calculator holding well-formed values only.
pub proof fn operations_keep_numbers_well_formed(
    c: CalcModel,
    key: Key,
    r: ReadingsModel,
    m: NumberModel,
)
    requires
        numbers_well_formed(c),
        readings_well_formed(r),
        well_formed(m),
    ensures
        numbers_well_formed(press_step(c, key, r)),
        numbers_well_formed(memory_recall_step(c)),
        numbers_well_formed(with_memory(c, m)),
{
    assert(finite_bits(0u64)) by (bit_vector);
    assert(ten_decimal(crate::number::zero_fixed()));
}

proof fn lemma_strip_end_index(s: Seq<char>, c: char) -> (k: int)
    ensures
        0 <= k <= s.len(),
        strip_end(s, c) == s.subrange(0, k),
        forall|i: int| k <= i < s.len() ==> s[i] == c,
        k > 0 ==> s[k - 1] != c,
    decreases s.len(),
{
    if s.len() > 0 && s.last() == c {
        let k = lemma_strip_end_index(s.drop_last(), c);
        assert(s.drop_last().subrange(0, k) =~= s.subrange(0, k));
        assert forall|i: int| k <= i < s.len() implies s[i] == c by {
            if i < s.len() - 1 {
                assert(s.drop_last()[i] == s[i]);
            }
        }
        k
    } else {
        assert(s.subrange(0, s.len() as int) =~= s);
        s.len() as int
    }
}

/// For a well-formed value, the display shows `Error` exactly when the value
/// is not finite; a finite value never shows as a lone `-`, and never with a
/// trailing zero after its point. What a finite value shows is its
/// ten-decimal rendering with only zeros and the point taken off its end.
pub proof fn shown_of_well_formed(n: NumberModel)
    requires
        well_formed(n),
    ensures
        (shown(n) == error_text()) <==> !finite_bits(n.bits),
        finite_bits(n.bits) ==> shown(n) != seq!['-'],
        shown(n).contains('.') ==> shown(n).last() != '0',
        n.fixed matches Some(f) ==> {
            &&& shown(n).len() <= f.len()
            &&& shown(n) == f.subrange(0, shown(n).len() as int)
            &&& forall|i: int| shown(n).len() <= i < f.len() ==> f[i] == '0' || f[i] == '.'
        },
{
    match n.fixed {
        None => {
            assert(!error_text().contains('.'));
        },
        Some(f) => {
            let off: int = if f.len() > 0 && f[0] == '-' { 1 } else { 0 };
            let body = unsigned_part(f);
            let dot = f.len() - 11;
            assert(body.len() == f.len() - off);
            assert forall|i: int| off <= i < f.len() && i != dot implies is_digit(#[trigger] f[i]) by {
                assert(f[i] == body[i - off]);
                assert(i - off != body.len() - 11);
                assert(0 <= i - off < body.len());
                assert(is_digit(body[i - off]));
            }
            assert(f[dot] == body[body.len() - 11]);
            assert(f[dot] == '.');
            assert(dot >= off + 1);
            let k1 = lemma_strip_end_index(f, '0');
            assert(k1 > dot) by {
                if k1 <= dot {
                    assert(f[dot] == '0');
                }
            }
            let a = f.subrange(0, k1);
            let k2 = lemma_strip_end_index(a, '.');
            let m: int = if k1 == dot + 1 { dot } else { k1 };
            if k1 == dot + 1 {
                assert(is_digit(f[dot - 1]));
                assert(a[dot - 1] == f[dot - 1]);
                assert(a[dot] == '.');
                assert(k2 == dot) by {
                    if k2 < dot {
                        assert(a[dot - 1] == '.');
                    }
                    if k2 > dot {
                        assert(a[k2 - 1] != '.');
                    }
                }
            } else {
                assert(is_digit(f[k1 - 1]));
                assert(a[k1 - 1] == f[k1 - 1]);
                assert(f[k1 - 1] != '0');
                assert(k2 == k1) by {
                    if k2 < k1 {
                        assert(a[k1 - 1] == '.');
                    }
                }
            }
            let t = f.subrange(0, m);
            assert(strip_end(strip_end(f, '0'), '.') =~= t);
            assert forall|i: int| m <= i < f.len() implies f[i] == '0' || f[i] == '.' by {
                if i < k1 {
                    assert(i == dot);
                }
            }
            assert(is_digit(t[off]));
            assert(t.len() >= 1);
            assert(t != seq!['-']) by {
                if t == seq!['-'] {
                    assert(t.len() == 1);
                    assert(off == 0);
                }
            }
            assert(shown(n) == t);
            assert(t != error_text()) by {
                assert(error_text()[0] == 'E');
                assert(t[0] == '-' || is_digit(t[0]));
            }
            if t.contains('.') {
                let j = choose|j: int| 0 <= j < t.len() && t[j] == '.';
                assert(t[j] == f[j]);
                assert(j == dot);
                assert(m == k1);
                assert(t.last() == f[k1 - 1]);
            }
        },
    }
}

proof fn lemma_strip_end_last(s: Seq<char>, c: char)
    ensures
        strip_end(s, c).len() > 0 ==> strip_end(s, c).last() != c,
    decreases s.len(),
{
    if s.len() > 0 && s.last() == c {
        lemma_strip_end_last(s.drop_last(), c);
    }
}

/// A displayed value never ends in a decimal point.
pub proof fn shown_has_no_trailing_point(n: NumberModel)
    ensures
        shown(n).len() > 0,
        shown(n).last() != '.',
{
    match n.fixed {
        None => {},
        Some(f) => {
            lemma_strip_end_last(strip_end(f, '0'), '.');
        },
    }
}

} // verus!
