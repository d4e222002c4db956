use vstd::prelude::*;
use crate::add::NumericResults;
use crate::ast::BinaryOp;
use crate::chain::{link_result, operand_effects, right_needed};
use crate::compare::{abstract_equality, known_prefix, starts_differ, strict_equality};
use crate::const_fold::{const_result, int_of, int_op};
use crate::number::{denotes_integer, exponent_of, is_nan_bits};
use vstd::arithmetic::power2::*;
use crate::range::DependencyRange;
use crate::value::{bool_at, is_compile_time, EvaluatedExpression, Value};

verus! {

/// For compile-time values `a` and `b`, `a === b` and `b === a` fold to the
/// same boolean, and `a !== b` folds to its negation.
pub proof fn lemma_strict_equality_symmetric(
    a: EvaluatedExpression,
    b: EvaluatedExpression,
    span: DependencyRange,
    nums: NumericResults,
)
    requires
        is_compile_time(a),
        is_compile_time(b),
    ensures
        strict_equality(true, a, b, span, nums) is Some,
        strict_equality(true, a, b, span, nums)->Some_0.value is Boolean,
        strict_equality(true, b, a, span, nums)->Some_0.value == strict_equality(true, a, b, span, nums)->Some_0.value,
        strict_equality(false, a, b, span, nums)->Some_0.value == Value::Boolean(
            !strict_equality(true, a, b, span, nums)->Some_0.value->Boolean_0,
        ),
{
}

/// The same two laws for `==` and `!=` on compile-time values.
pub proof fn lemma_abstract_equality_symmetric(
    a: EvaluatedExpression,
    b: EvaluatedExpression,
    span: DependencyRange,
    nums: NumericResults,
)
    requires
        is_compile_time(a),
        is_compile_time(b),
    ensures
        abstract_equality(true, a, b, span, nums) is Some,
        abstract_equality(true, a, b, span, nums)->Some_0.value is Boolean,
        abstract_equality(true, b, a, span, nums)->Some_0.value == abstract_equality(true, a, b, span, nums)->Some_0.value,
        abstract_equality(false, a, b, span, nums)->Some_0.value == Value::Boolean(
            !abstract_equality(true, a, b, span, nums)->Some_0.value->Boolean_0,
        ),
{
}

/// Every link has the side effects of each operand it evaluates: the result
/// of `left op right` never reports fewer side effects than its operands.
pub proof fn lemma_link_side_effects(
    op: BinaryOp,
    left: EvaluatedExpression,
    right: Option<EvaluatedExpression>,
    span: DependencyRange,
    nums: NumericResults,
    x: EvaluatedExpression,
)
    requires
        right is Some <==> right_needed(op, left),
        link_result(op, left, right, span, nums, x),
    ensures
        operand_effects(left, right) ==> x.side_effects,
{
}

/// Every link's result spans the whole link.
pub proof fn lemma_link_range(
    op: BinaryOp,
    left: EvaluatedExpression,
    right: Option<EvaluatedExpression>,
    span: DependencyRange,
    nums: NumericResults,
    x: EvaluatedExpression,
)
    requires
        right is Some <==> right_needed(op, left),
        link_result(op, left, right, span, nums, x),
    ensures
        x.range == Some(span),
{
}

/// A binary64 bit pattern that stands for an integer is the only one that
/// does.
pub proof fn lemma_denotes_integer_unique(b1: u64, b2: u64, v: int)
    requires
        denotes_integer(b1, v),
        denotes_integer(b2, v),
    ensures
        b1 == b2,
{
    let m: u64 = 0x7ffu64;
    let fm: u64 = 0xf_ffff_ffff_ffffu64;
    if v != 0 {
        let a: int = if v < 0 {
            -v
        } else {
            v
        };
        let k1 = (1075 - exponent_of(b1)) as nat;
        let k2 = (1075 - exponent_of(b2)) as nat;
        assert(b1 & fm < 0x10_0000_0000_0000u64) by (bit_vector)
            requires
                fm == 0xf_ffff_ffff_ffffu64,
        ;
        assert(b2 & fm < 0x10_0000_0000_0000u64) by (bit_vector)
            requires
                fm == 0xf_ffff_ffff_ffffu64,
        ;
        lemma2_to64();
        lemma2_to64_rest();
        assert(k1 == k2) by {
            if k1 < k2 {
                lemma_pow2_adds(k1, (k2 - k1) as nat);
                lemma_pow2_strictly_increases(0, (k2 - k1) as nat);
                lemma_pow2_pos(k1);
                assert(a * pow2(k2) == a * pow2(k1) * pow2((k2 - k1) as nat)) by (nonlinear_arith)
                    requires
                        pow2(k2) == pow2(k1) * pow2((k2 - k1) as nat),
                ;
                assert(a * pow2(k1) * pow2((k2 - k1) as nat) >= a * pow2(k1) * 2) by (
                nonlinear_arith)
                    requires
                        pow2((k2 - k1) as nat) >= 2,
                        a * pow2(k1) >= 0,
                ;
            } else if k2 < k1 {
                lemma_pow2_adds(k2, (k1 - k2) as nat);
                lemma_pow2_strictly_increases(0, (k1 - k2) as nat);
                lemma_pow2_pos(k2);
                assert(a * pow2(k1) == a * pow2(k2) * pow2((k1 - k2) as nat)) by (nonlinear_arith)
                    requires
                        pow2(k1) == pow2(k2) * pow2((k1 - k2) as nat),
                ;
                assert(a * pow2(k2) * pow2((k1 - k2) as nat) >= a * pow2(k2) * 2) by (
                nonlinear_arith)
                    requires
                        pow2((k1 - k2) as nat) >= 2,
                        a * pow2(k2) >= 0,
                ;
            }
        }
    }
    assert((b1 >> 63u64) == (b2 >> 63u64)) by (bit_vector)
        requires
            ((b1 >> 63u64) == 1u64) == ((b2 >> 63u64) == 1u64),
    ;
    assert(b1 == b2) by (bit_vector)
        requires
            (b1 >> 63u64) == (b2 >> 63u64),
            ((b1 >> 52u64) & m) == ((b2 >> 52u64) & m),
            (b1 & fm) == (b2 & fm),
            m == 0x7ffu64,
            fm == 0xf_ffff_ffff_ffffu64,
    ;
}

/// Constant folding is a function of its inputs: folding the same
/// compile-time operands twice gives the same result.
pub proof fn lemma_const_fold_deterministic(
    op: BinaryOp,
    left: EvaluatedExpression,
    right: EvaluatedExpression,
    span: DependencyRange,
    nums: NumericResults,
    x1: EvaluatedExpression,
    x2: EvaluatedExpression,
)
    requires
        const_result(op, left, right, span, nums, Some(x1)),
        const_result(op, left, right, span, nums, Some(x2)),
    ensures
        x1 == x2,
{
    if x1.value is Number && x2.value is Number {
        match op {
            BinaryOp::LShift | BinaryOp::RShift | BinaryOp::BitAnd | BinaryOp::BitXor
            | BinaryOp::BitOr => {
                lemma_denotes_integer_unique(
                    x1.value->Number_0.bits,
                    x2.value->Number_0.bits,
                    int_op(op, int_of(left)->Some_0, int_of(right)->Some_0) as int,
                );
            },
            _ => {},
        }
    }
}

/// Two template strings whose literal prefixes disagree are never
/// identical, whatever their other parts hold: `===` folds to `false` and
/// `!==` to `true`.
pub proof fn lemma_template_prefix_divergence(
    eql: bool,
    left: EvaluatedExpression,
    right: EvaluatedExpression,
    span: DependencyRange,
    nums: NumericResults,
)
    requires
        left.value is TemplateString,
        right.value is TemplateString,
        starts_differ(known_prefix(left, nums.left_parts@), known_prefix(right, nums.right_parts@)),
    ensures
        strict_equality(eql, left, right, span, nums) == Some(
            bool_at(!eql, span, left.side_effects || right.side_effects),
        ),
        abstract_equality(eql, left, right, span, nums) == Some(
            bool_at(!eql, span, left.side_effects || right.side_effects),
        ),
{
}

/// Every relational comparison with a NaN operand folds to `false`.
pub proof fn lemma_nan_comparisons_false(
    op: BinaryOp,
    left: EvaluatedExpression,
    right: EvaluatedExpression,
    span: DependencyRange,
    nums: NumericResults,
    x: EvaluatedExpression,
)
    requires
        op == BinaryOp::Lt || op == BinaryOp::LtEq || op == BinaryOp::Gt || op == BinaryOp::GtEq,
        left.value is Number,
        right.value is Number,
        is_nan_bits(left.value->Number_0.bits) || is_nan_bits(right.value->Number_0.bits),
        const_result(op, left, right, span, nums, Some(x)),
    ensures
        x.value == Value::Boolean(false),
{
}

} // verus!
