use vstd::prelude::*;
use vstd::string::*;
use crate::add::NumericResults;
use crate::ast::BinaryOp;
use crate::number::{denotes_integer, number_le, number_lt, truncated_int32, JsNumber};
use crate::range::DependencyRange;
use crate::value::{is_compile_time, is_str, str_of, EvaluatedExpression, Value};

verus! {

/// The UTF-16 code units of a character: the character itself below
/// U+10000, else its high surrogate and then its low surrogate.
pub open spec fn code_units(c: char) -> Seq<int> {
    let v = c as int;
    if v < 0x10000 {
        seq![v]
    } else {
        seq![0xd800 + (v - 0x10000) / 0x400, 0xdc00 + (v - 0x10000) % 0x400]
    }
}

/// Lexicographic order of two sequences of one or two code units.
pub open spec fn units_lt(x: Seq<int>, y: Seq<int>) -> bool {
    if x[0] != y[0] {
        x[0] < y[0]
    } else if x.len() == 1 || y.len() == 1 {
        x.len() < y.len()
    } else {
        x[1] < y[1]
    }
}

/// `a` sorts before `b` by UTF-16 code units, comparing from character
/// index `i` on. Equal characters have equal code units, so the first
/// character where the texts differ decides, by its code units.
pub open spec fn text_lt_from(a: Seq<char>, b: Seq<char>, i: int) -> bool
    decreases a.len() - i,
{
    if i >= a.len() {
        i < b.len()
    } else if i >= b.len() {
        false
    } else if a[i] != b[i] {
        units_lt(code_units(a[i]), code_units(b[i]))
    } else {
        text_lt_from(a, b, i + 1)
    }
}

/// Lexicographic order of texts by UTF-16 code units, as JavaScript
/// compares strings.
pub open spec fn text_lt(a: Seq<char>, b: Seq<char>) -> bool {
    text_lt_from(a, b, 0)
}

pub open spec fn int_of(e: EvaluatedExpression) -> Option<i32> {
    match e.value {
        Value::Number(n) => truncated_int32(n.bits),
        _ => None,
    }
}

pub open spec fn num_of(e: EvaluatedExpression) -> JsNumber {
    e.value->Number_0
}

/// The 32-bit result of a shift or bitwise operator on two integers. A
/// shift uses only the low five bits of a non-negative amount (`1 << 33`
/// is `1 << 1`); a negative amount leaves the left operand as it is.
pub open spec fn int_op(op: BinaryOp, l: i32, r: i32) -> i32 {
    match op {
        BinaryOp::LShift => if 0 <= r {
            l << ((r % 32) as u32)
        } else {
            l
        },
        BinaryOp::RShift => if 0 <= r {
            l >> ((r % 32) as u32)
        } else {
            l
        },
        BinaryOp::BitAnd => l & r,
        BinaryOp::BitXor => l ^ r,
        _ => l | r,
    }
}

/// The relational operators on two texts or two numbers.
pub open spec fn relation_holds(op: BinaryOp, left: EvaluatedExpression, right: EvaluatedExpression) -> bool {
    if is_str(left) && is_str(right) {
        let (a, b) = (str_of(left), str_of(right));
        match op {
            BinaryOp::Lt => text_lt(a, b),
            BinaryOp::LtEq => !text_lt(b, a),
            BinaryOp::Gt => text_lt(b, a),
            _ => !text_lt(a, b),
        }
    } else {
        let (a, b) = (num_of(left).bits, num_of(right).bits);
        match op {
            BinaryOp::Lt => number_lt(a, b),
            BinaryOp::LtEq => number_le(a, b),
            BinaryOp::Gt => number_lt(b, a),
            _ => number_le(b, a),
        }
    }
}

/// What an operator outside the equality, logical and `+` families folds
/// to when both operands are compile-time values.
pub open spec fn const_result(
    op: BinaryOp,
    left: EvaluatedExpression,
    right: EvaluatedExpression,
    span: DependencyRange,
    nums: NumericResults,
    r: Option<EvaluatedExpression>,
) -> bool {
    let se = left.side_effects || right.side_effects;
    let x = r->Some_0;
    let some = r is Some && x.range == Some(span) && x.side_effects == se;
    if !is_compile_time(left) || !is_compile_time(right) {
        r is None
    } else {
        match op {
            BinaryOp::Sub | BinaryOp::Mul | BinaryOp::Div | BinaryOp::Exp => if left.value is Number
                && right.value is Number {
                some && x.value == Value::Number(nums.result)
            } else {
                r is None
            },
            BinaryOp::LShift | BinaryOp::RShift | BinaryOp::BitAnd | BinaryOp::BitXor
            | BinaryOp::BitOr => if int_of(left) is Some && int_of(right) is Some {
                some && x.value is Number && denotes_integer(
                    x.value->Number_0.bits,
                    int_op(op, int_of(left)->Some_0, int_of(right)->Some_0) as int,
                )
            } else {
                r is None
            },
            BinaryOp::Lt | BinaryOp::Gt | BinaryOp::LtEq | BinaryOp::GtEq => if (is_str(left)
                && is_str(right)) || (left.value is Number && right.value is Number) {
                some && x.value == Value::Boolean(relation_holds(op, left, right))
            } else {
                r is None
            },
            _ => r is None,
        }
    }
}

fn char_units_less(ca: char, cb: char) -> (r: bool)
    ensures
        r == units_lt(code_units(ca), code_units(cb)),
{
    let va = ca as u32;
    let vb = cb as u32;
    let (a0, a1, a_two) = if va < 0x10000 {
        (va, 0u32, false)
    } else {
        (0xd800 + (va - 0x10000) / 0x400, 0xdc00 + (va - 0x10000) % 0x400, true)
    };
    let (b0, b1, b_two) = if vb < 0x10000 {
        (vb, 0u32, false)
    } else {
        (0xd800 + (vb - 0x10000) / 0x400, 0xdc00 + (vb - 0x10000) % 0x400, true)
    };
    if a0 != b0 {
        a0 < b0
    } else if !a_two || !b_two {
        !a_two && b_two
    } else {
        a1 < b1
    }
}

fn text_less(a: &str, b: &str) -> (r: bool)
    ensures
        r == text_lt(a@, b@),
{
    let la = a.unicode_len();
    let lb = b.unicode_len();
    let mut i: usize = 0;
    while i < la && i < lb
        invariant
            la == a@.len(),
            lb == b@.len(),
            i <= la,
            i <= lb,
            text_lt_from(a@, b@, i as int) == text_lt_from(a@, b@, 0),
        decreases la - i,
    {
        let ca = a.get_char(i);
        let cb = b.get_char(i);
        if ca != cb {
            return char_units_less(ca, cb);
        }
        i = i + 1;
    }
    i < lb && i >= la
}

fn number_result(value: Value, span: DependencyRange, side_effects: bool) -> (r: Option<EvaluatedExpression>)
    ensures
        r == Some(EvaluatedExpression { range: Some(span), side_effects, value }),
{
    Some(EvaluatedExpression { range: Some(span), side_effects, value })
}

/// Folds `-`, `*`, `/`, `**`, the shifts, the bitwise operators and the
/// relational operators when both operands are compile-time values.
pub fn handle_const_operation(
    op: BinaryOp,
    left: &EvaluatedExpression,
    right: &EvaluatedExpression,
    span: DependencyRange,
    nums: &NumericResults,
) -> (r: Option<EvaluatedExpression>)
    ensures
        const_result(op, *left, *right, span, *nums, r),
{
    if !left.is_compile_time_value() || !right.is_compile_time_value() {
        return None;
    }
    let se = left.could_have_side_effects() || right.could_have_side_effects();
    match op {
        BinaryOp::Sub | BinaryOp::Mul | BinaryOp::Div | BinaryOp::Exp => {
            if left.is_number() && right.is_number() {
                number_result(Value::Number(nums.result), span, se)
            } else {
                None
            }
        },
        BinaryOp::LShift | BinaryOp::RShift | BinaryOp::BitAnd | BinaryOp::BitXor
        | BinaryOp::BitOr => {
            match (left.as_int(), right.as_int()) {
                (Some(l), Some(r)) => {
                    let v: i32 = match op {
                        BinaryOp::LShift => if 0 <= r {
                            l << ((r % 32) as u32)
                        } else {
                            l
                        },
                        BinaryOp::RShift => if 0 <= r {
                            l >> ((r % 32) as u32)
                        } else {
                            l
                        },
                        BinaryOp::BitAnd => l & r,
                        BinaryOp::BitXor => l ^ r,
                        _ => l | r,
                    };
                    number_result(Value::Number(JsNumber::from_int32(v)), span, se)
                },
                _ => None,
            }
        },
        BinaryOp::Lt | BinaryOp::Gt | BinaryOp::LtEq | BinaryOp::GtEq => {
            match (&left.value, &right.value) {
                (Value::String(a), Value::String(b)) => {
                    let holds = match op {
                        BinaryOp::Lt => text_less(a.as_str(), b.as_str()),
                        BinaryOp::LtEq => !text_less(b.as_str(), a.as_str()),
                        BinaryOp::Gt => text_less(b.as_str(), a.as_str()),
                        _ => !text_less(a.as_str(), b.as_str()),
                    };
                    number_result(Value::Boolean(holds), span, se)
                },
                (Value::Number(a), Value::Number(b)) => {
                    let holds = match op {
                        BinaryOp::Lt => a.less_than(b),
                        BinaryOp::LtEq => a.less_or_equal(b),
                        BinaryOp::Gt => b.less_than(a),
                        _ => b.less_or_equal(a),
                    };
                    number_result(Value::Boolean(holds), span, se)
                },
                _ => None,
            }
        },
        _ => None,
    }
}

} // verus!
