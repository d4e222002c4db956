use vstd::prelude::*;
use vstd::string::*;
use crate::number::JsNumber;
use crate::range::{as_pair, join_ranges, joinable, joined, DependencyRange};
use crate::value::{is_str, str_of, EvaluatedExpression, Value};

verus! {

/// What the host arithmetic gave for the two operands of one link: the
/// text of each operand that is a number, the result of the link's
/// arithmetic operator on the two numbers, and, for an operand that is a
/// template string, the text of each of its parts that is a number (empty
/// for the other parts).
#[derive(Debug)]
pub struct NumericResults {
    pub left_text: String,
    pub right_text: String,
    pub result: JsNumber,
    pub left_parts: Vec<String>,
    pub right_parts: Vec<String>,
}

pub open spec fn w_prefix(e: EvaluatedExpression) -> Option<Box<EvaluatedExpression>> {
    match e.value {
        Value::Wrapped { prefix, .. } => prefix,
        _ => None,
    }
}

pub open spec fn w_postfix(e: EvaluatedExpression) -> Option<Box<EvaluatedExpression>> {
    match e.value {
        Value::Wrapped { postfix, .. } => postfix,
        _ => None,
    }
}

pub open spec fn w_inner(e: EvaluatedExpression) -> Seq<EvaluatedExpression> {
    match e.value {
        Value::Wrapped { inner_expressions: Some(v), .. } => v@,
        _ => Seq::empty(),
    }
}

/// A wrapped value carries its inner expressions.
pub open spec fn inner_present(e: EvaluatedExpression) -> bool {
    e.value is Wrapped ==> e.value->Wrapped_inner_expressions is Some
}

pub open spec fn has_inner(e: EvaluatedExpression) -> bool {
    e.value->Wrapped_inner_expressions is Some
}

/// The branches of `+` that extend one wrapped operand by a string or a
/// number read that operand's inner expressions, which must be there. The
/// other branches that meet a wrapped value without them fall back as the
/// original merge does (see `add_result`).
pub open spec fn add_inner_present(left: EvaluatedExpression, right: EvaluatedExpression) -> bool {
    &&& (is_str(left) && right.value is Wrapped) ==> inner_present(right)
    &&& (left.value is Wrapped && (is_str(right) || right.value is Number)) ==> inner_present(left)
}

pub open spec fn opt_is_str(o: Option<Box<EvaluatedExpression>>) -> bool {
    match o {
        Some(b) => is_str(*b),
        None => false,
    }
}

pub open spec fn opt_seq(o: Option<Box<EvaluatedExpression>>) -> Seq<EvaluatedExpression> {
    match o {
        Some(b) => seq![*b],
        None => Seq::empty(),
    }
}

pub open spec fn span_of(p: (u32, u32)) -> Option<DependencyRange> {
    Some(DependencyRange { start: p.0, end: p.1 })
}

pub open spec fn string_over(x: EvaluatedExpression, text: Seq<char>) -> bool {
    is_str(x) && str_of(x) == text
}

/// A string fragment made by folding: it has no side effects of its own.
pub open spec fn fresh_string(
    o: Option<Box<EvaluatedExpression>>,
    text: Seq<char>,
    range: Option<DependencyRange>,
) -> bool {
    o is Some && o->Some_0.range == range && !o->Some_0.side_effects && string_over(
        *o->Some_0,
        text,
    )
}

pub open spec fn wrapped_as(
    x: EvaluatedExpression,
    prefix: Option<Box<EvaluatedExpression>>,
    postfix: Option<Box<EvaluatedExpression>>,
    inner: Seq<EvaluatedExpression>,
) -> bool {
    x.value matches Value::Wrapped { prefix: p, postfix: q, inner_expressions: Some(v) } && p
        == prefix && q == postfix && v@ == inner
}

pub open spec fn wrapped_new_prefix(
    x: EvaluatedExpression,
    text: Seq<char>,
    range: Option<DependencyRange>,
    postfix: Option<Box<EvaluatedExpression>>,
    inner: Seq<EvaluatedExpression>,
) -> bool {
    x.value matches Value::Wrapped { prefix: p, postfix: q, inner_expressions: Some(v) }
        && fresh_string(p, text, range) && q == postfix && v@ == inner
}

pub open spec fn wrapped_new_postfix(
    x: EvaluatedExpression,
    prefix: Option<Box<EvaluatedExpression>>,
    text: Seq<char>,
    range: Option<DependencyRange>,
    inner: Seq<EvaluatedExpression>,
) -> bool {
    x.value matches Value::Wrapped { prefix: p, postfix: q, inner_expressions: Some(v) } && p
        == prefix && fresh_string(q, text, range) && v@ == inner
}

/// The spans that `+` joins can be joined.
pub open spec fn add_ranges_joinable(left: EvaluatedExpression, right: EvaluatedExpression) -> bool {
    &&& (is_str(left) && right.value is Wrapped && opt_is_str(w_prefix(right))) ==> joinable(
        as_pair(left.range),
        as_pair(w_prefix(right)->Some_0.range),
    )
    &&& (left.value is Wrapped && opt_is_str(w_postfix(left)) && (is_str(right)
        || right.value is Number)) ==> joinable(
        as_pair(w_postfix(left)->Some_0.range),
        as_pair(right.range),
    )
}

/// What `left + right` evaluates to over the span `span`.
pub open spec fn add_result(
    left: EvaluatedExpression,
    right: EvaluatedExpression,
    span: DependencyRange,
    nums: NumericResults,
    r: Option<EvaluatedExpression>,
) -> bool {
    let se = left.side_effects || right.side_effects;
    let x = r->Some_0;
    let some = r is Some && x.range == Some(span) && x.side_effects == se;
    if is_str(left) {
        if is_str(right) {
            some && string_over(x, str_of(left) + str_of(right))
        } else if right.value is Number {
            some && string_over(x, str_of(left) + nums.right_text@)
        } else if right.value is Wrapped && opt_is_str(w_prefix(right)) {
            let p = *w_prefix(right)->Some_0;
            some && wrapped_new_prefix(
                x,
                str_of(left) + str_of(p),
                span_of(joined(as_pair(left.range), as_pair(p.range))),
                w_postfix(right),
                w_inner(right),
            )
        } else if right.value is Wrapped {
            some && wrapped_as(
                x,
                Some(Box::new(left)),
                w_postfix(right),
                opt_seq(w_prefix(right)) + w_inner(right),
            )
        } else {
            some && wrapped_as(x, Some(Box::new(left)), None, seq![right])
        }
    } else if left.value is Number {
        if is_str(right) {
            some && string_over(x, nums.left_text@ + str_of(right))
        } else if right.value is Number {
            some && x.value == Value::Number(nums.result)
        } else {
            r is None
        }
    } else if left.value is BigInt {
        r is None
    } else if left.value is Wrapped {
        let q = *w_postfix(left)->Some_0;
        if opt_is_str(w_postfix(left)) && is_str(right) {
            some && wrapped_new_postfix(
                x,
                w_prefix(left),
                str_of(q) + str_of(right),
                span_of(joined(as_pair(q.range), as_pair(right.range))),
                w_inner(left),
            )
        } else if opt_is_str(w_postfix(left)) && right.value is Number {
            some && wrapped_new_postfix(
                x,
                w_prefix(left),
                str_of(q) + nums.right_text@,
                span_of(joined(as_pair(q.range), as_pair(right.range))),
                w_inner(left),
            )
        } else if is_str(right) {
            some && wrapped_as(
                x,
                w_prefix(left),
                Some(Box::new(right)),
                w_inner(left) + opt_seq(w_postfix(left)),
            )
        } else if right.value is Number {
            some && wrapped_new_postfix(
                x,
                w_prefix(left),
                nums.right_text@,
                right.range,
                w_inner(left) + opt_seq(w_postfix(left)),
            )
        } else if right.value is Wrapped {
            some && wrapped_as(
                x,
                w_prefix(left),
                w_postfix(right),
                if has_inner(left) && has_inner(right) {
                    w_inner(left) + opt_seq(w_postfix(left)) + opt_seq(w_prefix(right)) + w_inner(
                        right,
                    )
                } else {
                    Seq::empty()
                },
            )
        } else {
            some && wrapped_as(
                x,
                w_prefix(left),
                None,
                if has_inner(left) {
                    w_inner(left) + opt_seq(w_postfix(left)) + seq![right]
                } else {
                    Seq::empty()
                },
            )
        }
    } else if is_str(right) {
        some && wrapped_as(x, None, Some(Box::new(right)), seq![left])
    } else if right.value is Wrapped {
        some && wrapped_as(x, None, w_postfix(right), seq![left] + opt_seq(w_prefix(right)) + w_inner(right))
    } else {
        r is None
    }
}

fn text_of(e: &EvaluatedExpression) -> (r: String)
    requires
        is_str(*e),
    ensures
        r@ == str_of(*e),
{
    match &e.value {
        Value::String(s) => s.clone(),
        _ => String::new(),
    }
}

fn concat(a: &String, b: &String) -> (r: String)
    ensures
        r@ == a@ + b@,
{
    let mut t = a.clone();
    t.append(b.as_str());
    t
}

fn pair_of(r: &Option<DependencyRange>) -> (p: Option<(u32, u32)>)
    ensures
        p == as_pair(*r),
{
    match r {
        Some(d) => Some((d.start, d.end)),
        None => None,
    }
}

/// A folded string fragment over the joined span.
fn fragment(text: String, range: (u32, u32)) -> (r: Box<EvaluatedExpression>)
    ensures
        r.range == span_of(range),
        !r.side_effects,
        string_over(*r, text@),
{
    Box::new(
        EvaluatedExpression {
            range: Some(DependencyRange { start: range.0, end: range.1 }),
            side_effects: false,
            value: Value::String(text),
        },
    )
}

fn framed(value: Value, span: DependencyRange, side_effects: bool) -> (r: EvaluatedExpression)
    ensures
        r == (EvaluatedExpression { range: Some(span), side_effects, value }),
{
    EvaluatedExpression { range: Some(span), side_effects, value }
}

/// `left + right` over the span `span`: string concatenation, numeric
/// addition, or a partially folded concatenation. Where a branch reads a
/// wrapped operand's inner expressions to extend it by a string or a
/// number, they must be there (`add_inner_present`): a wrapped value without
/// them is the internal-consistency violation that ends the evaluation in
/// the chain driver. The merges of a wrapped value with another wrapped
/// value or with anything else keep the defensive fallback: an empty inner
/// sequence (or, for a wrapped right operand, none of its inner pieces).
/// A prefix or postfix that is not a string is never dropped: it moves to
/// the inner expressions.
pub fn handle_add(
    left: EvaluatedExpression,
    right: EvaluatedExpression,
    span: DependencyRange,
    nums: &NumericResults,
) -> (r: Option<EvaluatedExpression>)
    requires
        add_inner_present(left, right),
        add_ranges_joinable(left, right),
    ensures
        add_result(left, right, span, *nums, r),
{
    let se = left.side_effects || right.side_effects;
    let ghost l0 = left;
    let ghost r0 = right;
    if left.is_string() {
        if right.is_string() {
            let t = concat(&text_of(&left), &text_of(&right));
            Some(framed(Value::String(t), span, se))
        } else if right.is_number() {
            let t = concat(&text_of(&left), &nums.right_text);
            Some(framed(Value::String(t), span, se))
        } else if right.is_wrapped() {
            let left_text = text_of(&left);
            let left_range = pair_of(&left.range);
            match right.value {
                Value::Wrapped { prefix, postfix, inner_expressions } => {
                    let inner = inner_expressions.unwrap();
                    let prefix_is_string = match &prefix {
                        Some(p) => p.is_string(),
                        None => false,
                    };
                    if prefix_is_string {
                        let p = prefix.unwrap();
                        let range = join_ranges(left_range, pair_of(&p.range));
                        let merged = fragment(concat(&left_text, &text_of(&p)), range);
                        Some(
                            framed(
                                Value::Wrapped {
                                    prefix: Some(merged),
                                    postfix,
                                    inner_expressions: Some(inner),
                                },
                                span,
                                se,
                            ),
                        )
                    } else {
                        let mut pieces = Vec::new();
                        if let Some(p) = prefix {
                            pieces.push(*p);
                        }
                        let mut inner = inner;
                        pieces.append(&mut inner);
                        assert(pieces@ =~= opt_seq(w_prefix(r0)) + w_inner(r0));
                        Some(
                            framed(
                                Value::Wrapped {
                                    prefix: Some(Box::new(left)),
                                    postfix,
                                    inner_expressions: Some(pieces),
                                },
                                span,
                                se,
                            ),
                        )
                    }
                },
                _ => None,
            }
        } else {
            let mut inner = Vec::new();
            inner.push(right);
            Some(
                framed(
                    Value::Wrapped {
                        prefix: Some(Box::new(left)),
                        postfix: None,
                        inner_expressions: Some(inner),
                    },
                    span,
                    se,
                ),
            )
        }
    } else if left.is_number() {
        if right.is_string() {
            let t = concat(&nums.left_text, &text_of(&right));
            Some(framed(Value::String(t), span, se))
        } else if right.is_number() {
            Some(framed(Value::Number(nums.result), span, se))
        } else {
            None
        }
    } else if left.is_bigint() {
        None
    } else if left.is_wrapped() {
        let right_is_string = right.is_string();
        let right_is_number = right.is_number();
        let right_is_wrapped = right.is_wrapped();
        match left.value {
            Value::Wrapped { prefix, postfix, inner_expressions } => {
                let postfix_is_string = match &postfix {
                    Some(q) => q.is_string(),
                    None => false,
                };
                if postfix_is_string && (right_is_string || right_is_number) {
                    let inner = inner_expressions.unwrap();
                    let q = postfix.unwrap();
                    let range = join_ranges(pair_of(&q.range), pair_of(&right.range));
                    let tail = if right_is_string {
                        text_of(&right)
                    } else {
                        nums.right_text.clone()
                    };
                    let merged = fragment(concat(&text_of(&q), &tail), range);
                    Some(
                        framed(
                            Value::Wrapped {
                                prefix,
                                postfix: Some(merged),
                                inner_expressions: Some(inner),
                            },
                            span,
                            se,
                        ),
                    )
                } else if right_is_string || right_is_number {
                    let mut inner = inner_expressions.unwrap();
                    if let Some(q) = postfix {
                        inner.push(*q);
                    }
                    assert(inner@ =~= w_inner(l0) + opt_seq(w_postfix(l0)));
                    let new_postfix = if right_is_string {
                        Box::new(right)
                    } else {
                        Box::new(
                            EvaluatedExpression {
                                range: right.range,
                                side_effects: false,
                                value: Value::String(nums.right_text.clone()),
                            },
                        )
                    };
                    Some(
                        framed(
                            Value::Wrapped {
                                prefix,
                                postfix: Some(new_postfix),
                                inner_expressions: Some(inner),
                            },
                            span,
                            se,
                        ),
                    )
                } else if right_is_wrapped {
                    match right.value {
                        Value::Wrapped {
                            prefix: right_prefix,
                            postfix: right_postfix,
                            inner_expressions: right_inner,
                        } => {
                            let merged_inner = match (inner_expressions, right_inner) {
                                (Some(mut inner), Some(mut right_inner)) => {
                                    if let Some(q) = postfix {
                                        inner.push(*q);
                                    }
                                    if let Some(p) = right_prefix {
                                        inner.push(*p);
                                    }
                                    inner.append(&mut right_inner);
                                    assert(inner@ =~= w_inner(l0) + opt_seq(w_postfix(l0))
                                        + opt_seq(w_prefix(r0)) + w_inner(r0));
                                    inner
                                },
                                _ => Vec::new(),
                            };
                            Some(
                                framed(
                                    Value::Wrapped {
                                        prefix,
                                        postfix: right_postfix,
                                        inner_expressions: Some(merged_inner),
                                    },
                                    span,
                                    se,
                                ),
                            )
                        },
                        _ => None,
                    }
                } else {
                    let merged_inner = match inner_expressions {
                        Some(mut inner) => {
                            if let Some(q) = postfix {
                                inner.push(*q);
                            }
                            inner.push(right);
                            assert(inner@ =~= w_inner(l0) + opt_seq(w_postfix(l0)) + seq![r0]);
                            inner
                        },
                        None => Vec::new(),
                    };
                    Some(
                        framed(
                            Value::Wrapped {
                                prefix,
                                postfix: None,
                                inner_expressions: Some(merged_inner),
                            },
                            span,
                            se,
                        ),
                    )
                }
            },
            _ => None,
        }
    } else if right.is_string() {
        let mut inner = Vec::new();
        inner.push(left);
        Some(
            framed(
                Value::Wrapped {
                    prefix: None,
                    postfix: Some(Box::new(right)),
                    inner_expressions: Some(inner),
                },
                span,
                se,
            ),
        )
    } else if right.is_wrapped() {
        let mut inner = Vec::new();
        inner.push(left);
        match right.value {
            Value::Wrapped { prefix, postfix, inner_expressions } => {
                if let Some(p) = prefix {
                    inner.push(*p);
                }
                if let Some(mut right_inner) = inner_expressions {
                    inner.append(&mut right_inner);
                }
                assert(inner@ =~= seq![l0] + opt_seq(w_prefix(r0)) + w_inner(r0));
                Some(
                    framed(
                        Value::Wrapped { prefix: None, postfix, inner_expressions: Some(inner) },
                        span,
                        se,
                    ),
                )
            },
            _ => None,
        }
    } else {
        None
    }
}

} // verus!
