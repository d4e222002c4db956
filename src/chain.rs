use vstd::prelude::*;
use crate::add::{add_inner_present, add_ranges_joinable, add_result, handle_add, inner_present, w_postfix, w_prefix, NumericResults};
use crate::ast::{BinExpr, BinaryOp, Expr};
use crate::compare::{
    abstract_equality, handle_abstract_equality_comparison, handle_strict_equality_comparison,
    strict_equality,
};
use crate::const_fold::{const_result, handle_const_operation};
use crate::logical::{
    and_needs_right, handle_logical_and, handle_logical_or, handle_nullish_coalescing, logical_and,
    logical_or, nullish_coalescing, nullish_needs_right, or_needs_right,
};
use crate::number::{JsNumber, NumberArith};
use crate::range::{joinable, DependencyRange};
use crate::value::{is_compile_time, unknown_at, EvaluatedExpression, Value};

verus! {

/// The host's evaluator of single expressions, which this evaluator calls
/// back for every operand that is not part of the chain it unrolls.
pub trait Scanner<T> {
    fn evaluate_expression(&mut self, expr: &Expr<T>) -> EvaluatedExpression;
}

/// Whether the link `left op right` looks at its right operand.
pub open spec fn right_needed(op: BinaryOp, left: EvaluatedExpression) -> bool {
    match op {
        BinaryOp::LogicalAnd => and_needs_right(left),
        BinaryOp::LogicalOr => or_needs_right(left),
        BinaryOp::NullishCoalescing => nullish_needs_right(left),
        BinaryOp::EqEq | BinaryOp::NotEq | BinaryOp::EqEqEq | BinaryOp::NotEqEq | BinaryOp::Add => true,
        _ => is_compile_time(left),
    }
}

/// The operands of `+` are internally consistent: every wrapped value
/// carries its inner expressions and the spans to be joined can be joined.
/// A link that is not consistent ends the whole evaluation: a wrapped value
/// without inner expressions, met where `+` extends it by a string or a
/// number, is the fatal internal-consistency violation. The merges of
/// wrapped values keep their defensive fallback (see `handle_add`).
pub open spec fn link_consistent(
    op: BinaryOp,
    left: EvaluatedExpression,
    right: Option<EvaluatedExpression>,
) -> bool {
    op == BinaryOp::Add ==> (right is Some && add_inner_present(left, right->Some_0)
        && add_ranges_joinable(left, right->Some_0))
}

/// A handler's result, or an unknown value over the link's span when the
/// handler declines.
pub open spec fn or_unknown(
    h: Option<EvaluatedExpression>,
    span: DependencyRange,
    side_effects: bool,
) -> EvaluatedExpression {
    match h {
        Some(x) => x,
        None => unknown_at(span, side_effects),
    }
}

/// The side effects of the operands that were evaluated.
pub open spec fn operand_effects(left: EvaluatedExpression, right: Option<EvaluatedExpression>) -> bool {
    left.side_effects || (right is Some && right->Some_0.side_effects)
}

/// What the link `left op right` evaluates to (for `+`, see `add_result`).
pub open spec fn link_result(
    op: BinaryOp,
    left: EvaluatedExpression,
    right: Option<EvaluatedExpression>,
    span: DependencyRange,
    nums: NumericResults,
    x: EvaluatedExpression,
) -> bool {
    let r = right->Some_0;
    let se = operand_effects(left, right);
    match op {
        BinaryOp::EqEq => x == or_unknown(abstract_equality(true, left, r, span, nums), span, se),
        BinaryOp::NotEq => x == or_unknown(abstract_equality(false, left, r, span, nums), span, se),
        BinaryOp::EqEqEq => x == or_unknown(strict_equality(true, left, r, span, nums), span, se),
        BinaryOp::NotEqEq => x == or_unknown(strict_equality(false, left, r, span, nums), span, se),
        BinaryOp::LogicalAnd => x == or_unknown(logical_and(left, right, span), span, se),
        BinaryOp::LogicalOr => x == or_unknown(logical_or(left, right, span), span, se),
        BinaryOp::NullishCoalescing => x == or_unknown(nullish_coalescing(left, right, span), span, se),
        BinaryOp::Add => if add_result(left, r, span, nums, None) {
            x == unknown_at(span, se)
        } else {
            add_result(left, r, span, nums, Some(x))
        },
        _ => if is_compile_time(left) && const_result(op, left, r, span, nums, None) {
            x == unknown_at(span, se)
        } else if !is_compile_time(left) {
            x == unknown_at(span, se)
        } else {
            const_result(op, left, r, span, nums, Some(x))
        },
    }
}

fn inner_is_present(e: &EvaluatedExpression) -> (b: bool)
    ensures
        b == inner_present(*e),
{
    match &e.value {
        Value::Wrapped { inner_expressions, .. } => inner_expressions.is_some(),
        _ => true,
    }
}

fn can_join(a: &Option<DependencyRange>, b: &Option<DependencyRange>) -> (r: bool)
    ensures
        r == joinable(crate::range::as_pair(*a), crate::range::as_pair(*b)),
{
    match (a, b) {
        (None, None) => false,
        (Some(x), Some(y)) => x.start <= y.end,
        _ => true,
    }
}

fn add_spans_joinable(left: &EvaluatedExpression, right: &EvaluatedExpression) -> (r: bool)
    ensures
        r == add_ranges_joinable(*left, *right),
{
    let first = match (&left.value, &right.value) {
        (Value::String(_), Value::Wrapped { prefix: Some(p), .. }) => {
            if p.is_string() {
                can_join(&left.range, &p.range)
            } else {
                true
            }
        },
        _ => true,
    };
    let second = match &left.value {
        Value::Wrapped { postfix: Some(q), .. } => {
            if q.is_string() && (right.is_string() || right.is_number()) {
                can_join(&q.range, &right.range)
            } else {
                true
            }
        },
        _ => true,
    };
    first && second
}

/// Whether `left op right` is internally consistent (see `link_consistent`).
pub fn is_link_consistent(
    op: BinaryOp,
    left: &EvaluatedExpression,
    right: &Option<EvaluatedExpression>,
) -> (b: bool)
    ensures
        b == link_consistent(op, *left, *right),
{
    if op != BinaryOp::Add {
        return true;
    }
    match right {
        Some(r) => {
            let right_reads = left.is_string() && r.is_wrapped();
            let left_reads = left.is_wrapped() && (r.is_string() || r.is_number());
            (!right_reads || inner_is_present(r)) && (!left_reads || inner_is_present(left))
                && add_spans_joinable(left, r)
        },
        None => false,
    }
}

/// Whether the link `left op right` looks at its right operand.
pub fn needs_right(op: BinaryOp, left: &EvaluatedExpression) -> (b: bool)
    ensures
        b == right_needed(op, *left),
{
    match op {
        BinaryOp::LogicalAnd => left.as_bool() != Some(false),
        BinaryOp::LogicalOr => left.as_bool() != Some(true),
        BinaryOp::NullishCoalescing => left.as_nullish() == Some(true),
        BinaryOp::EqEq | BinaryOp::NotEq | BinaryOp::EqEqEq | BinaryOp::NotEqEq | BinaryOp::Add => true,
        _ => left.is_compile_time_value(),
    }
}

fn fallback(h: Option<EvaluatedExpression>, span: DependencyRange, side_effects: bool) -> (r: EvaluatedExpression)
    ensures
        r == or_unknown(h, span, side_effects),
{
    match h {
        Some(x) => x,
        None => EvaluatedExpression { range: Some(span), side_effects, value: Value::Unknown },
    }
}

/// Evaluates one link `left op right` of a chain over the span `span`; the
/// right operand is given exactly when the link looks at it. `None` when
/// the operands are internally inconsistent, which ends the evaluation.
pub fn evaluate_link(
    op: BinaryOp,
    left: EvaluatedExpression,
    right: Option<EvaluatedExpression>,
    span: DependencyRange,
    nums: &NumericResults,
) -> (r: Option<EvaluatedExpression>)
    requires
        right is Some <==> right_needed(op, left),
    ensures
        r is Some <==> link_consistent(op, left, right),
        r is Some ==> link_result(op, left, right, span, *nums, r->Some_0),
        r is Some ==> r->Some_0.range == Some(span),
{
    if !is_link_consistent(op, &left, &right) {
        return None;
    }
    let se = left.side_effects || match &right {
        Some(r) => r.side_effects,
        None => false,
    };
    let x = match op {
        BinaryOp::EqEq => fallback(
            handle_abstract_equality_comparison(true, &left, right.as_ref().unwrap(), span, nums),
            span,
            se,
        ),
        BinaryOp::NotEq => fallback(
            handle_abstract_equality_comparison(false, &left, right.as_ref().unwrap(), span, nums),
            span,
            se,
        ),
        BinaryOp::EqEqEq => fallback(
            handle_strict_equality_comparison(true, &left, right.as_ref().unwrap(), span, nums),
            span,
            se,
        ),
        BinaryOp::NotEqEq => fallback(
            handle_strict_equality_comparison(false, &left, right.as_ref().unwrap(), span, nums),
            span,
            se,
        ),
        BinaryOp::LogicalAnd => fallback(handle_logical_and(left, right, span), span, se),
        BinaryOp::LogicalOr => fallback(handle_logical_or(left, right, span), span, se),
        BinaryOp::NullishCoalescing => fallback(handle_nullish_coalescing(left, right, span), span, se),
        BinaryOp::Add => fallback(handle_add(left, right.unwrap(), span, nums), span, se),
        _ => {
            match &right {
                Some(r) => fallback(handle_const_operation(op, &left, r, span, nums), span, se),
                None => fallback(None, span, se),
            }
        },
    };
    Some(x)
}

/// For a template string, the host's text of each part that is a number,
/// and an empty text for each other part; nothing for other values.
fn part_texts<A: NumberArith>(arith: &A, e: &EvaluatedExpression) -> (r: Vec<String>)
    ensures
        e.value is TemplateString ==> r@.len() == e.value->TemplateString_0@.len(),
{
    let mut out: Vec<String> = Vec::new();
    match &e.value {
        Value::TemplateString(parts) => {
            let mut i: usize = 0;
            while i < parts.len()
                invariant
                    e.value == Value::TemplateString(*parts),
                    i <= parts@.len(),
                    out@.len() == i,
                decreases parts@.len() - i,
            {
                let text = match &parts[i].value {
                    Value::Number(n) => arith.to_text(*n),
                    _ => String::new(),
                };
                out.push(text);
                i = i + 1;
            }
        },
        _ => {},
    }
    out
}

/// Asks the host arithmetic for what the link `left op right` may need:
/// the text of each operand that is a number and, when both are numbers,
/// the result of `op` on them.
pub fn numeric_results<A: NumberArith>(
    arith: &A,
    op: BinaryOp,
    left: &EvaluatedExpression,
    right: &Option<EvaluatedExpression>,
) -> (r: NumericResults)
    ensures
        !(left.value is Number) ==> r.left_text@.len() == 0,
        !(right is Some && right->Some_0.value is Number) ==> r.right_text@.len() == 0,
        !(left.value is Number && right is Some && right->Some_0.value is Number && (op
            == BinaryOp::Add || op == BinaryOp::Sub || op == BinaryOp::Mul || op == BinaryOp::Div
            || op == BinaryOp::Exp)) ==> r.result.bits == 0,
        left.value is TemplateString ==> r.left_parts@.len() == left.value->TemplateString_0@.len(),
        right is Some && right->Some_0.value is TemplateString ==> r.right_parts@.len()
            == right->Some_0.value->TemplateString_0@.len(),
{
    let left_number = left.as_number();
    let right_number = match right {
        Some(r) => r.as_number(),
        None => None,
    };
    let left_text = match left_number {
        Some(n) => arith.to_text(n),
        None => String::new(),
    };
    let right_text = match right_number {
        Some(n) => arith.to_text(n),
        None => String::new(),
    };
    let result = match (left_number, right_number) {
        (Some(a), Some(b)) => match op {
            BinaryOp::Add => arith.add(a, b),
            BinaryOp::Sub => arith.sub(a, b),
            BinaryOp::Mul => arith.mul(a, b),
            BinaryOp::Div => arith.div(a, b),
            BinaryOp::Exp => arith.pow(a, b),
            _ => JsNumber::from_bits(0),
        },
        _ => JsNumber::from_bits(0),
    };
    let left_parts = part_texts(arith, left);
    let right_parts = match right {
        Some(r) => part_texts(arith, r),
        None => Vec::new(),
    };
    NumericResults { left_text, right_text, result, left_parts, right_parts }
}

/// The number of binary expressions along the left spine of `e`.
pub open spec fn spine_len<T>(e: Expr<T>) -> nat
    decreases e,
{
    match e {
        Expr::Bin(b) => 1 + spine_len(b.left),
        Expr::Other(_) => 0,
    }
}

/// The binary expressions down the left spine of `e`, outermost first.
pub open spec fn spine_nodes<T>(e: Expr<T>) -> Seq<BinExpr<T>>
    decreases e,
{
    match e {
        Expr::Bin(b) => seq![*b] + spine_nodes(b.left),
        Expr::Other(_) => Seq::empty(),
    }
}

/// The links of the chain rooted at `expr`, outermost first.
pub open spec fn chain_nodes<T>(expr: BinExpr<T>) -> Seq<BinExpr<T>> {
    seq![expr] + spine_nodes(expr.left)
}

/// One link evaluated: `x` is what `node` gives over the left operand
/// `left`, with the right operand given exactly when the link looks at it.
pub open spec fn link_step<T>(
    node: BinExpr<T>,
    left: EvaluatedExpression,
    right: Option<EvaluatedExpression>,
    nums: NumericResults,
    x: EvaluatedExpression,
) -> bool {
    &&& (right is Some <==> right_needed(node.op, left))
    &&& link_consistent(node.op, left, right)
    &&& link_result(node.op, left, right, node.span, nums, x)
}

/// A run of the chain `nodes` (outermost first): `values[nodes.len()]` is the
/// leftmost leaf's value, and each link `j` takes `values[j + 1]` as its left
/// operand and the answer `rights[j]` as its right operand, and gives
/// `values[j]`.
pub open spec fn chain_run<T>(
    nodes: Seq<BinExpr<T>>,
    values: Seq<EvaluatedExpression>,
    rights: Seq<Option<EvaluatedExpression>>,
    nums: Seq<NumericResults>,
) -> bool {
    &&& values.len() == nodes.len() + 1
    &&& rights.len() == nodes.len()
    &&& nums.len() == nodes.len()
    &&& forall|j: int|
        0 <= j < nodes.len() ==> #[trigger] link_step(
            nodes[j],
            values[j + 1],
            rights[j],
            nums[j],
            values[j],
        )
}

pub open spec fn derefs<T>(s: Seq<&BinExpr<T>>) -> Seq<BinExpr<T>> {
    s.map_values(|x: &BinExpr<T>| *x)
}

/// `x` is what the chain rooted at `expr` gives for some answers of the
/// host: each link in turn, from the innermost out, over the previous
/// link's result.
pub open spec fn chain_gives<T>(expr: BinExpr<T>, x: EvaluatedExpression) -> bool {
    exists|
        values: Seq<EvaluatedExpression>,
        rights: Seq<Option<EvaluatedExpression>>,
        nums: Seq<NumericResults>,
    | #[trigger] chain_run(chain_nodes(expr), values, rights, nums) && values[0] == x
}

/// No link on the left spine of `e` is a `+`.
pub open spec fn spine_ok<T>(e: Expr<T>) -> bool
    decreases e,
{
    match e {
        Expr::Bin(b) => b.op != BinaryOp::Add && spine_ok(b.left),
        Expr::Other(_) => true,
    }
}

/// No link of the chain rooted at `expr` is a `+`: every link is then
/// internally consistent, and the evaluation cannot end early.
pub open spec fn spine_without_add<T>(expr: BinExpr<T>) -> bool {
    expr.op != BinaryOp::Add && spine_ok(expr.left)
}

/// Evaluates a left-associative chain of binary expressions with an explicit
/// stack: the left spine is pushed, its leftmost leaf evaluated, then each
/// link is evaluated in turn from the innermost out with `evaluate_link`,
/// its left operand being the previous link's result. The leftmost leaf
/// goes to `scanner` once; a link's right operand goes to `scanner` once,
/// and only when `needs_right` says the link looks at it. `numeric_results`
/// asks `arith` for what each link may need.
///
/// The scanner and the host arithmetic carry no contract, so the result is
/// stated for every answer they may give: it is the link-by-link run of the
/// chain over those answers (`chain_gives`). So a declining outermost link
/// gives an unknown value over the whole span that keeps the side effects
/// of its operands. The result covers `expr`'s span, and it is always there
/// for a chain with no `+` on its left spine. `None` when a link's
/// operands are internally inconsistent.
pub fn eval_binary_expression<T, S: Scanner<T>, A: NumberArith>(
    scanner: &mut S,
    arith: &A,
    expr: &BinExpr<T>,
) -> (r: Option<EvaluatedExpression>)
    ensures
        r is Some ==> r->Some_0.range == Some(expr.span),
        spine_without_add(*expr) ==> r is Some,
        r is Some ==> chain_gives(*expr, r->Some_0),
{
    let ghost nodes = chain_nodes(*expr);
    let mut stack: Vec<&BinExpr<T>> = Vec::new();
    stack.push(expr);
    let mut cur: &Expr<T> = &expr.left;
    loop
        invariant
            stack@.len() >= 1,
            stack@[0] == expr,
            nodes == chain_nodes(*expr),
            derefs(stack@) + spine_nodes(*cur) == nodes,
            spine_without_add(*expr) ==> spine_ok(*cur),
            spine_without_add(*expr) ==> forall|i: int|
                0 <= i < stack@.len() ==> #[trigger] stack@[i].op != BinaryOp::Add,
        ensures
            spine_nodes(*cur) == Seq::<BinExpr<T>>::empty(),
            derefs(stack@) + spine_nodes(*cur) == nodes,
            stack@.len() >= 1,
            stack@[0] == expr,
            spine_without_add(*expr) ==> forall|i: int|
                0 <= i < stack@.len() ==> #[trigger] stack@[i].op != BinaryOp::Add,
        decreases spine_len(*cur),
    {
        match cur {
            Expr::Bin(b) => {
                let ghost old_stack = derefs(stack@);
                stack.push(b);
                cur = &b.left;
                assert(derefs(stack@) =~= old_stack.push(**b));
                assert(derefs(stack@) + spine_nodes(*cur) =~= old_stack + (seq![**b] + spine_nodes(
                    b.left,
                )));
            },
            Expr::Other(_) => {
                break ;
            },
        }
    }
    assert(derefs(stack@) =~= nodes);
    let mut evaluated = scanner.evaluate_expression(cur);
    let ghost mut values: Seq<EvaluatedExpression> = seq![evaluated];
    let ghost mut rights: Seq<Option<EvaluatedExpression>> = Seq::empty();
    let ghost mut numss: Seq<NumericResults> = Seq::empty();
    while stack.len() > 0
        invariant
            stack@.len() <= nodes.len(),
            derefs(stack@) == nodes.take(stack@.len() as int),
            nodes.len() > 0,
            nodes[0] == *expr,
            values.len() == nodes.len() - stack@.len() + 1,
            rights.len() == nodes.len() - stack@.len(),
            numss.len() == nodes.len() - stack@.len(),
            values[0] == evaluated,
            forall|j: int|
                0 <= j < rights.len() ==> #[trigger] link_step(
                    nodes[stack@.len() + j],
                    values[j + 1],
                    rights[j],
                    numss[j],
                    values[j],
                ),
            stack@.len() == 0 ==> evaluated.range == Some(expr.span),
            spine_without_add(*expr) ==> forall|i: int|
                0 <= i < stack@.len() ==> #[trigger] stack@[i].op != BinaryOp::Add,
        decreases stack@.len(),
    {
        let ghost m = stack@.len() as int;
        let ghost before = stack@;
        let node = stack.pop().unwrap();
        assert(derefs(before)[m - 1] == nodes.take(m)[m - 1]);
        assert(*node == nodes[m - 1]);
        let left = evaluated;
        let right = if needs_right(node.op, &left) {
            Some(scanner.evaluate_expression(&node.right))
        } else {
            None
        };
        let nums = numeric_results(arith, node.op, &left, &right);
        let ghost g_left = left;
        let ghost g_right = right;
        let ghost g_nums = nums;
        match evaluate_link(node.op, left, right, node.span, &nums) {
            Some(v) => {
                evaluated = v;
            },
            None => {
                return None;
            },
        }
        proof {
            let old_values = values;
            let old_rights = rights;
            let old_nums = numss;
            values = seq![evaluated] + old_values;
            rights = seq![g_right] + old_rights;
            numss = seq![g_nums] + old_nums;
            assert(link_step(nodes[m - 1], values[1], rights[0], numss[0], values[0]));
            assert forall|j: int| 0 <= j < rights.len() implies #[trigger] link_step(
                nodes[(m - 1) + j],
                values[j + 1],
                rights[j],
                numss[j],
                values[j],
            ) by {
                if j > 0 {
                    assert(link_step(
                        nodes[m + (j - 1)],
                        old_values[(j - 1) + 1],
                        old_rights[j - 1],
                        old_nums[j - 1],
                        old_values[j - 1],
                    ));
                    assert(nodes[(m - 1) + j] == nodes[m + (j - 1)]);
                }
            }
            assert(derefs(stack@) =~= nodes.take(m - 1));
        }
    }
    proof {
        assert(chain_run(nodes, values, rights, numss)) by {
            assert forall|j: int| 0 <= j < nodes.len() implies #[trigger] link_step(
                nodes[j],
                values[j + 1],
                rights[j],
                numss[j],
                values[j],
            ) by {
                assert(link_step(nodes[0 + j], values[j + 1], rights[j], numss[j], values[j]));
            }
        }
    }
    Some(evaluated)
}

} // verus!
