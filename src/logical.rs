use vstd::prelude::*;
use crate::range::DependencyRange;
use crate::value::{nullishness, truthiness, EvaluatedExpression, Value};

verus! {

/// `e` moved to the span `span`, with side effects `side_effects`.
pub open spec fn reframed(e: EvaluatedExpression, span: DependencyRange, side_effects: bool) -> EvaluatedExpression {
    EvaluatedExpression { range: Some(span), side_effects, value: e.value }
}

/// Whether `left && right` looks at its right operand: unless the left is
/// known to be falsy.
pub open spec fn and_needs_right(left: EvaluatedExpression) -> bool {
    truthiness(left) != Some(false)
}

/// Whether `left || right` looks at its right operand: unless the left is
/// known to be truthy.
pub open spec fn or_needs_right(left: EvaluatedExpression) -> bool {
    truthiness(left) != Some(true)
}

/// Whether `left ?? right` looks at its right operand: only when the left is
/// known to be nullish.
pub open spec fn nullish_needs_right(left: EvaluatedExpression) -> bool {
    nullishness(left) == Some(true)
}

/// `left && right`: the right operand when the left is truthy, the left
/// when it is falsy; when the left's truthiness is unknown and the right is
/// falsy, a value known only to be falsy (it is the left operand or the
/// right one, so no single constant can stand for it).
pub open spec fn logical_and(
    left: EvaluatedExpression,
    right: Option<EvaluatedExpression>,
    span: DependencyRange,
) -> Option<EvaluatedExpression> {
    let r = right->Some_0;
    match truthiness(left) {
        Some(true) => Some(reframed(r, span, r.side_effects || left.side_effects)),
        Some(false) => Some(reframed(left, span, left.side_effects)),
        None => if truthiness(r) == Some(false) {
            Some(EvaluatedExpression { range: Some(span), side_effects: left.side_effects || r.side_effects, value: Value::Falsy })
        } else {
            None
        },
    }
}

/// `left || right`: the left operand when it is truthy, the right when the
/// left is falsy; when the left's truthiness is unknown and the right is
/// truthy, a value known only to be truthy.
pub open spec fn logical_or(
    left: EvaluatedExpression,
    right: Option<EvaluatedExpression>,
    span: DependencyRange,
) -> Option<EvaluatedExpression> {
    let r = right->Some_0;
    match truthiness(left) {
        Some(true) => Some(reframed(left, span, left.side_effects)),
        Some(false) => Some(reframed(r, span, r.side_effects || left.side_effects)),
        None => if truthiness(r) == Some(true) {
            Some(EvaluatedExpression { range: Some(span), side_effects: left.side_effects || r.side_effects, value: Value::Truthy })
        } else {
            None
        },
    }
}

/// `left ?? right`: the right operand when the left is nullish, the left
/// when it is not; nothing when that is unknown.
pub open spec fn nullish_coalescing(
    left: EvaluatedExpression,
    right: Option<EvaluatedExpression>,
    span: DependencyRange,
) -> Option<EvaluatedExpression> {
    let r = right->Some_0;
    match nullishness(left) {
        Some(true) => Some(reframed(r, span, r.side_effects || left.side_effects)),
        Some(false) => Some(reframed(left, span, left.side_effects)),
        None => None,
    }
}

fn reframe(e: EvaluatedExpression, span: DependencyRange, side_effects: bool) -> (r: EvaluatedExpression)
    ensures
        r == reframed(e, span, side_effects),
{
    EvaluatedExpression { range: Some(span), side_effects, value: e.value }
}

/// `left && right`. The right operand is given exactly when it is looked at.
pub fn handle_logical_and(
    left: EvaluatedExpression,
    right: Option<EvaluatedExpression>,
    span: DependencyRange,
) -> (r: Option<EvaluatedExpression>)
    requires
        right is Some <==> and_needs_right(left),
    ensures
        r == logical_and(left, right, span),
{
    match left.as_bool() {
        Some(true) => {
            let right = right.unwrap();
            let se = right.side_effects || left.side_effects;
            Some(reframe(right, span, se))
        },
        Some(false) => {
            let se = left.side_effects;
            Some(reframe(left, span, se))
        },
        None => {
            let right = right.unwrap();
            if right.as_bool() == Some(false) {
                Some(
                    EvaluatedExpression {
                        range: Some(span),
                        side_effects: left.side_effects || right.side_effects,
                        value: Value::Falsy,
                    },
                )
            } else {
                None
            }
        },
    }
}

/// `left || right`. The right operand is given exactly when it is looked at.
pub fn handle_logical_or(
    left: EvaluatedExpression,
    right: Option<EvaluatedExpression>,
    span: DependencyRange,
) -> (r: Option<EvaluatedExpression>)
    requires
        right is Some <==> or_needs_right(left),
    ensures
        r == logical_or(left, right, span),
{
    match left.as_bool() {
        Some(true) => {
            let se = left.side_effects;
            Some(reframe(left, span, se))
        },
        Some(false) => {
            let right = right.unwrap();
            let se = right.side_effects || left.side_effects;
            Some(reframe(right, span, se))
        },
        None => {
            let right = right.unwrap();
            if right.as_bool() == Some(true) {
                Some(
                    EvaluatedExpression {
                        range: Some(span),
                        side_effects: left.side_effects || right.side_effects,
                        value: Value::Truthy,
                    },
                )
            } else {
                None
            }
        },
    }
}

/// `left ?? right`. The right operand is given exactly when it is looked at.
pub fn handle_nullish_coalescing(
    left: EvaluatedExpression,
    right: Option<EvaluatedExpression>,
    span: DependencyRange,
) -> (r: Option<EvaluatedExpression>)
    requires
        right is Some <==> nullish_needs_right(left),
    ensures
        r == nullish_coalescing(left, right, span),
{
    match left.as_nullish() {
        Some(true) => {
            let right = right.unwrap();
            let se = right.side_effects || left.side_effects;
            Some(reframe(right, span, se))
        },
        Some(false) => {
            let se = left.side_effects;
            Some(reframe(left, span, se))
        },
        None => None,
    }
}

} // verus!
