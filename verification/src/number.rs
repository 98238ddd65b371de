//! Values of the calculator's arithmetic as this library holds them, and
//! how they are written on the display.
use vstd::prelude::*;

use crate::text::{is_digit, owned, push_char};

verus! {

/// A value of the calculator's `f64` arithmetic: its IEEE-754 bit pattern
/// (`f64::to_bits`) and, when the value is finite, its rendering with ten
/// decimals (`format!("{:.10}", v)`); `fixed` is `None` for NaN and the
/// infinities. Whoever does the arithmetic builds these values.
pub struct Number {
    pub bits: u64,
    pub fixed: Option<String>,
}

/// The mathematical content of a [`Number`].
#[verifier::ext_equal]
pub struct NumberModel {
    pub bits: u64,
    pub fixed: Option<Seq<char>>,
}

impl View for Number {
    type V = NumberModel;

    open spec fn view(&self) -> NumberModel {
        NumberModel {
            bits: self.bits,
            fixed: match self.fixed {
                Some(s) => Some(s@),
                None => None,
            },
        }
    }
}

/// Whether the IEEE-754 bit pattern `bits` is that of a finite `f64`: its
/// eleven exponent bits are not all set (all set is NaN or an infinity).
pub open spec fn finite_bits(bits: u64) -> bool {
    (bits >> 52u64) & 0x7ffu64 != 0x7ffu64
}

/// A rendering without its leading `-`, if it has one.
pub open spec fn unsigned_part(s: Seq<char>) -> Seq<char> {
    if s.len() > 0 && s[0] == '-' {
        s.drop_first()
    } else {
        s
    }
}

/// Whether `s` has the shape of a `{:.10}` rendering: an optional `-`, at
/// least one digit, a point, and exactly ten digits.
pub open spec fn ten_decimal(s: Seq<char>) -> bool {
    let body = unsigned_part(s);
    &&& body.len() >= 12
    &&& body[body.len() - 11] == '.'
    &&& forall|i: int| 0 <= i < body.len() && i != body.len() - 11 ==> is_digit(#[trigger] body[i])
}

/// Whether a [`Number`] is as its arithmetic makes it: a rendering exactly
/// when the bits are those of a finite value, and that rendering of the
/// ten-decimal shape.
pub open spec fn well_formed(n: NumberModel) -> bool {
    &&& (n.fixed is Some <==> finite_bits(n.bits))
    &&& (n.fixed matches Some(f) ==> ten_decimal(f))
}

/// The ten-decimal rendering of zero.
pub open spec fn zero_fixed() -> Seq<char> {
    seq!['0', '.', '0', '0', '0', '0', '0', '0', '0', '0', '0', '0']
}

/// Positive zero: all bits clear.
pub open spec fn zero_number() -> NumberModel {
    NumberModel { bits: 0, fixed: Some(zero_fixed()) }
}

/// The text that the display shows for an error.
pub open spec fn error_text() -> Seq<char> {
    seq!['E', 'r', 'r', 'o', 'r']
}

/// `s` without the run of `c` at its end.
pub open spec fn strip_end(s: Seq<char>, c: char) -> Seq<char>
    decreases s.len(),
{
    if s.len() > 0 && s.last() == c {
        strip_end(s.drop_last(), c)
    } else {
        s
    }
}

/// A ten-decimal rendering with its trailing zeros, then its trailing
/// points, taken off; `0` where nothing or only a sign is left.
pub open spec fn trimmed(fixed: Seq<char>) -> Seq<char> {
    let t = strip_end(strip_end(fixed, '0'), '.');
    if t.len() == 0 || t == seq!['-'] {
        seq!['0']
    } else {
        t
    }
}

/// What the display shows for a value: `Error` for NaN and the
/// infinities, otherwise its trimmed ten-decimal rendering.
pub open spec fn shown(n: NumberModel) -> Seq<char> {
    match n.fixed {
        None => error_text(),
        Some(f) => trimmed(f),
    }
}

impl Number {
    /// Positive zero.
    pub fn zero() -> (r: Number)
        ensures
            r@ == zero_number(),
            well_formed(r@),
    {
        assert(finite_bits(0u64)) by (bit_vector);
        assert(ten_decimal(zero_fixed()));
        proof {
            reveal_strlit("0.0000000000");
        }
        let f = owned("0.0000000000");
        assert(f@ =~= zero_fixed());
        Number { bits: 0, fixed: Some(f) }
    }
}

proof fn lemma_strip_end_prefix(s: Seq<char>, c: char, k: int)
    requires
        0 < k <= s.len(),
        s[k - 1] == c,
    ensures
        strip_end(s.subrange(0, k), c) == strip_end(s.subrange(0, k - 1), c),
{
    assert(s.subrange(0, k).drop_last() =~= s.subrange(0, k - 1));
}

/// `s` without the run of `c` at its end.
fn strip_end_exec(s: &str, c: char) -> (r: String)
    ensures
        r@ == strip_end(s@, c),
{
    let mut k = s.unicode_len();
    assert(s@.subrange(0, k as int) =~= s@);
    while k > 0 && s.get_char(k - 1) == c
        invariant
            k <= s@.len(),
            strip_end(s@.subrange(0, k as int), c) == strip_end(s@, c),
        decreases k,
    {
        proof {
            lemma_strip_end_prefix(s@, c, k as int);
        }
        k = k - 1;
    }
    let r = s.substring_char(0, k);
    proof {
        if k == 0 {
            assert(s@.subrange(0, 0) =~= Seq::<char>::empty());
        }
    }
    owned(r)
}

/// The display text of a value: `Error` when it is not finite, otherwise
/// its ten-decimal rendering without trailing zeros and without a trailing
/// point, and `0` where that leaves nothing or a lone `-`.
pub fn format_number(n: &Number) -> (r: String)
    ensures
        r@ == shown(n@),
{
    match &n.fixed {
        None => {
            proof {
                reveal_strlit("Error");
            }
            owned("Error")
        },
        Some(f) => {
            let a = strip_end_exec(f.as_str(), '0');
            let t = strip_end_exec(a.as_str(), '.');
            let tl = t.as_str().unicode_len();
            if tl == 0 || (tl == 1 && t.as_str().get_char(0) == '-') {
                proof {
                    if tl == 1 && t@[0] == '-' {
                        assert(t@ =~= seq!['-']);
                    }
                }
                let mut z = String::new();
                push_char(&mut z, '0');
                assert(z@ =~= seq!['0']);
                z
            } else {
                proof {
                    if t@ == seq!['-'] {
                        assert(t@.len() == 1);
                    }
                }
                t
            }
        },
    }
}

} // verus!
