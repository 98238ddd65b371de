//! The operators of the keypad and their printed symbols.
use vstd::prelude::*;

verus! {

/// The four binary operators.
#[derive(Clone, Copy, Debug, PartialEq, Eq, Structural)]
pub enum BinOp {
    Add,
    Sub,
    Mul,
    Div,
}

/// The four functions that act on the displayed value alone.
#[derive(Clone, Copy, Debug, PartialEq, Eq, Structural)]
pub enum UnaryOp {
    Percent,
    Sqrt,
    Square,
    Reciprocal,
}

/// Where a value stands with respect to zero: `Negative` when it is below
/// zero, `Zero` when it equals zero (either sign of zero), `Positive` for
/// every other value.
#[derive(Clone, Copy, Debug, PartialEq, Eq, Structural)]
pub enum Sign {
    Negative,
    Zero,
    Positive,
}

/// The symbol that the expression line shows for an operator:
/// `+`, `−` (U+2212), `×` (U+00D7) and `÷` (U+00F7).
pub open spec fn symbol(op: BinOp) -> Seq<char> {
    match op {
        BinOp::Add => seq!['+'],
        BinOp::Sub => seq!['\u{2212}'],
        BinOp::Mul => seq!['\u{d7}'],
        BinOp::Div => seq!['\u{f7}'],
    }
}

/// The printed symbol of a binary operator.
pub fn op_symbol(op: BinOp) -> (s: &'static str)
    ensures
        s@ == symbol(op),
{
    match op {
        BinOp::Add => {
            proof {
                reveal_strlit("+");
            }
            "+"
        },
        BinOp::Sub => {
            proof {
                reveal_strlit("\u{2212}");
            }
            "\u{2212}"
        },
        BinOp::Mul => {
            proof {
                reveal_strlit("\u{d7}");
            }
            "\u{d7}"
        },
        BinOp::Div => {
            proof {
                reveal_strlit("\u{f7}");
            }
            "\u{f7}"
        },
    }
}

} // verus!
