use js_const_eval::add::{handle_add, NumericResults};
use js_const_eval::ast::{BinExpr, BinaryOp, Expr};
use js_const_eval::chain::{eval_binary_expression, evaluate_link, Scanner};
use js_const_eval::compare::{handle_strict_equality_comparison, handle_template_string_compare, is_always_different};
use js_const_eval::number::{JsNumber, NumberArith};
use js_const_eval::range::{join_locations, join_ranges, DependencyRange};
use js_const_eval::value::{EvaluatedExpression, Value};

struct Arith;

impl NumberArith for Arith {
    fn add(&self, a: JsNumber, b: JsNumber) -> JsNumber {
        num(f64::from_bits(a.bits) + f64::from_bits(b.bits))
    }
    fn sub(&self, a: JsNumber, b: JsNumber) -> JsNumber {
        num(f64::from_bits(a.bits) - f64::from_bits(b.bits))
    }
    fn mul(&self, a: JsNumber, b: JsNumber) -> JsNumber {
        num(f64::from_bits(a.bits) * f64::from_bits(b.bits))
    }
    fn div(&self, a: JsNumber, b: JsNumber) -> JsNumber {
        num(f64::from_bits(a.bits) / f64::from_bits(b.bits))
    }
    fn pow(&self, a: JsNumber, b: JsNumber) -> JsNumber {
        num(f64::from_bits(a.bits).powf(f64::from_bits(b.bits)))
    }
    fn to_text(&self, a: JsNumber) -> String {
        js_text(f64::from_bits(a.bits))
    }
}

// JavaScript's default text of a number.
fn js_text(v: f64) -> String {
    if v.is_nan() {
        return "NaN".to_string();
    }
    if v == 0.0 {
        return "0".to_string();
    }
    if v < 0.0 {
        return format!("-{}", js_text(-v));
    }
    if v.is_infinite() {
        return "Infinity".to_string();
    }
    let sci = format!("{:e}", v);
    let (mantissa, exp) = sci.split_once('e').unwrap();
    let digits: String = mantissa.chars().filter(|c| *c != '.').collect();
    let k = digits.len() as i32;
    let n = exp.parse::<i32>().unwrap() + 1;
    if k <= n && n <= 21 {
        format!("{}{}", digits, "0".repeat((n - k) as usize))
    } else if 0 < n && n <= 21 {
        format!("{}.{}", &digits[..n as usize], &digits[n as usize..])
    } else if -6 < n && n <= 0 {
        format!("0.{}{}", "0".repeat((-n) as usize), digits)
    } else {
        let sign = if n - 1 >= 0 { '+' } else { '-' };
        if k == 1 {
            format!("{}e{}{}", digits, sign, (n - 1).abs())
        } else {
            format!("{}.{}e{}{}", &digits[..1], &digits[1..], sign, (n - 1).abs())
        }
    }
}

fn no_numbers() -> NumericResults {
    NumericResults {
        left_text: String::new(),
        right_text: String::new(),
        result: num(0.0),
        left_parts: Vec::new(),
        right_parts: Vec::new(),
    }
}

fn num(v: f64) -> JsNumber {
    JsNumber::from_bits(v.to_bits())
}

#[derive(Debug)]
enum Part {
    Text(&'static str),
    Bool(bool),
    Num(f64),
    Hole,
}

#[derive(Debug)]
enum Leaf {
    Str(&'static str),
    Num(f64),
    Bool(bool),
    BigInt(&'static str),
    Null,
    Call,
    Ident,
    Regex,
    Array(Vec<f64>),
    Template(Vec<Part>),
    BrokenWrapped,
}

#[derive(Debug)]
struct Node {
    leaf: Leaf,
    start: u32,
    end: u32,
}

struct Host {
    calls: usize,
}

fn at(start: u32, end: u32, side_effects: bool, value: Value) -> EvaluatedExpression {
    EvaluatedExpression { range: Some(DependencyRange::new(start, end)), side_effects, value }
}

fn leaf_value(n: &Node) -> EvaluatedExpression {
    let (s, e) = (n.start, n.end);
    match &n.leaf {
        Leaf::Str(t) => at(s, e, false, Value::String(t.to_string())),
        Leaf::Num(v) => at(s, e, false, Value::Number(num(*v))),
        Leaf::Bool(b) => at(s, e, false, Value::Boolean(*b)),
        Leaf::BigInt(t) => at(s, e, false, Value::BigInt(t.to_string())),
        Leaf::Null => at(s, e, false, Value::Null),
        Leaf::Call => at(s, e, true, Value::Unknown),
        Leaf::Ident => at(s, e, false, Value::Identifier("x".to_string())),
        Leaf::Regex => at(s, e, false, Value::RegExp { pattern: "a".to_string(), flags: String::new() }),
        Leaf::Array(items) => at(
            s,
            e,
            false,
            Value::Array(items.iter().map(|v| at(s, e, false, Value::Number(num(*v)))).collect()),
        ),
        Leaf::Template(parts) => at(
            s,
            e,
            false,
            Value::TemplateString(
                parts
                    .iter()
                    .map(|p| match p {
                        Part::Text(t) => at(s, e, false, Value::String(t.to_string())),
                        Part::Bool(b) => at(s, e, false, Value::Boolean(*b)),
                        Part::Num(v) => at(s, e, false, Value::Number(num(*v))),
                        Part::Hole => at(s, e, false, Value::Unknown),
                    })
                    .collect(),
            ),
        ),
        Leaf::BrokenWrapped => at(
            s,
            e,
            false,
            Value::Wrapped { prefix: None, postfix: None, inner_expressions: None },
        ),
    }
}

impl Scanner<Node> for Host {
    fn evaluate_expression(&mut self, expr: &Expr<Node>) -> EvaluatedExpression {
        self.calls += 1;
        match expr {
            Expr::Bin(b) => eval_binary_expression(self, &Arith, b).unwrap(),
            Expr::Other(n) => leaf_value(n),
        }
    }
}

fn span(e: &Expr<Node>) -> (u32, u32) {
    match e {
        Expr::Bin(b) => (b.span.start, b.span.end),
        Expr::Other(n) => (n.start, n.end),
    }
}

fn leaf(leaf: Leaf, start: u32, end: u32) -> Expr<Node> {
    Expr::Other(Node { leaf, start, end })
}

fn bin(op: BinaryOp, left: Expr<Node>, right: Expr<Node>) -> BinExpr<Node> {
    let span = DependencyRange::new(span(&left).0, span(&right).1);
    BinExpr { op, left, right, span }
}

fn chain(op: BinaryOp, left: BinExpr<Node>, right: Expr<Node>) -> BinExpr<Node> {
    bin(op, Expr::Bin(Box::new(left)), right)
}

fn run(e: &BinExpr<Node>) -> (Option<EvaluatedExpression>, usize) {
    let mut host = Host { calls: 0 };
    let r = eval_binary_expression(&mut host, &Arith, e);
    (r, host.calls)
}

fn eval(e: &BinExpr<Node>) -> EvaluatedExpression {
    run(e).0.unwrap()
}

fn as_string(e: &EvaluatedExpression) -> String {
    match &e.value {
        Value::String(s) => s.clone(),
        v => panic!("not a string: {:?}", v),
    }
}

fn as_bool(e: &EvaluatedExpression) -> bool {
    match &e.value {
        Value::Boolean(b) => *b,
        v => panic!("not a boolean: {:?}", v),
    }
}

fn as_f64(e: &EvaluatedExpression) -> f64 {
    match &e.value {
        Value::Number(n) => f64::from_bits(n.bits),
        v => panic!("not a number: {:?}", v),
    }
}

fn range_of(e: &EvaluatedExpression) -> (u32, u32) {
    let r = e.range.unwrap();
    (r.start, r.end)
}

#[test]
fn string_plus_number_concatenates() {
    let e = bin(BinaryOp::Add, leaf(Leaf::Str("a"), 0, 3), leaf(Leaf::Num(1.0), 6, 7));
    let r = eval(&e);
    assert_eq!(as_string(&r), "a1");
    assert!(!r.side_effects);
    assert_eq!(range_of(&r), (0, 7));
}

#[test]
fn string_call_string_is_wrapped() {
    let e = chain(
        BinaryOp::Add,
        bin(BinaryOp::Add, leaf(Leaf::Str("x:"), 0, 4), leaf(Leaf::Call, 7, 10)),
        leaf(Leaf::Str(":y"), 13, 17),
    );
    let r = eval(&e);
    assert!(r.side_effects);
    assert_eq!(range_of(&r), (0, 17));
    match &r.value {
        Value::Wrapped { prefix, postfix, inner_expressions } => {
            assert_eq!(as_string(prefix.as_ref().unwrap()), "x:");
            assert_eq!(as_string(postfix.as_ref().unwrap()), ":y");
            let inner = inner_expressions.as_ref().unwrap();
            assert_eq!(inner.len(), 1);
            assert!(matches!(inner[0].value, Value::Unknown));
            assert!(inner[0].side_effects);
        },
        v => panic!("not wrapped: {:?}", v),
    }
}

#[test]
fn string_chain_folds_to_one_string() {
    let e = chain(
        BinaryOp::Add,
        bin(BinaryOp::Add, leaf(Leaf::Str("a"), 0, 3), leaf(Leaf::Str("b"), 6, 9)),
        leaf(Leaf::Num(2.5), 12, 15),
    );
    assert_eq!(as_string(&eval(&e)), "ab2.5");
}

#[test]
fn number_plus_number_adds() {
    let e = bin(BinaryOp::Add, leaf(Leaf::Num(0.1), 0, 3), leaf(Leaf::Num(0.2), 6, 9));
    assert_eq!(as_f64(&eval(&e)), 0.1 + 0.2);
}

#[test]
fn number_plus_string_concatenates() {
    let e = bin(BinaryOp::Add, leaf(Leaf::Num(3.0), 0, 1), leaf(Leaf::Str("px"), 4, 8));
    assert_eq!(as_string(&eval(&e)), "3px");
}

#[test]
fn bigint_plus_anything_declines() {
    let e = bin(BinaryOp::Add, leaf(Leaf::BigInt("1"), 0, 2), leaf(Leaf::BigInt("2"), 5, 7));
    let r = eval(&e);
    assert!(matches!(r.value, Value::Unknown));
    assert_eq!(range_of(&r), (0, 7));
}

#[test]
fn declined_link_keeps_side_effects() {
    let e = bin(BinaryOp::Add, leaf(Leaf::Call, 0, 3), leaf(Leaf::BigInt("2"), 6, 8));
    let r = eval(&e);
    assert!(matches!(r.value, Value::Unknown));
    assert!(r.side_effects);
}

#[test]
fn string_then_wrapped_merges_prefix() {
    // "a" + ("b" + f())
    let inner = bin(BinaryOp::Add, leaf(Leaf::Str("b"), 7, 10), leaf(Leaf::Call, 13, 16));
    let e = bin(BinaryOp::Add, leaf(Leaf::Str("a"), 0, 3), Expr::Bin(Box::new(inner)));
    let r = eval(&e);
    match &r.value {
        Value::Wrapped { prefix, postfix, inner_expressions } => {
            let p = prefix.as_ref().unwrap();
            assert_eq!(as_string(p), "ab");
            assert_eq!(range_of(p), (0, 10));
            assert!(postfix.is_none());
            assert_eq!(inner_expressions.as_ref().unwrap().len(), 1);
        },
        v => panic!("not wrapped: {:?}", v),
    }
}

#[test]
fn wrapped_plus_wrapped_keeps_source_order() {
    // ("a" + f() + "b") + (g() + "c")
    let left = chain(
        BinaryOp::Add,
        bin(BinaryOp::Add, leaf(Leaf::Str("a"), 0, 3), leaf(Leaf::Call, 6, 9)),
        leaf(Leaf::Str("b"), 12, 15),
    );
    let right = bin(BinaryOp::Add, leaf(Leaf::Ident, 20, 23), leaf(Leaf::Str("c"), 26, 29));
    let e = bin(BinaryOp::Add, Expr::Bin(Box::new(left)), Expr::Bin(Box::new(right)));
    let r = eval(&e);
    match &r.value {
        Value::Wrapped { prefix, postfix, inner_expressions } => {
            assert_eq!(as_string(prefix.as_ref().unwrap()), "a");
            assert_eq!(as_string(postfix.as_ref().unwrap()), "c");
            let inner = inner_expressions.as_ref().unwrap();
            assert_eq!(inner.len(), 3);
            assert!(matches!(inner[0].value, Value::Unknown));
            assert_eq!(as_string(&inner[1]), "b");
            assert!(matches!(inner[2].value, Value::Identifier(_)));
        },
        v => panic!("not wrapped: {:?}", v),
    }
}

#[test]
fn wrapped_postfix_absorbs_number() {
    // "a" + f() + "b" + 7
    let e = chain(
        BinaryOp::Add,
        chain(
            BinaryOp::Add,
            bin(BinaryOp::Add, leaf(Leaf::Str("a"), 0, 3), leaf(Leaf::Call, 6, 9)),
            leaf(Leaf::Str("b"), 12, 15),
        ),
        leaf(Leaf::Num(7.0), 18, 19),
    );
    let r = eval(&e);
    match &r.value {
        Value::Wrapped { postfix, .. } => {
            let q = postfix.as_ref().unwrap();
            assert_eq!(as_string(q), "b7");
            assert_eq!(range_of(q), (12, 19));
        },
        v => panic!("not wrapped: {:?}", v),
    }
}

#[test]
fn wrapped_without_inner_expressions_aborts() {
    let e = bin(BinaryOp::Add, leaf(Leaf::BrokenWrapped, 0, 3), leaf(Leaf::Str("a"), 6, 9));
    assert!(run(&e).0.is_none());
}

#[test]
fn shift_by_thirty_three_uses_low_five_bits() {
    let e = bin(BinaryOp::LShift, leaf(Leaf::Num(1.0), 0, 1), leaf(Leaf::Num(33.0), 5, 7));
    assert_eq!(as_f64(&eval(&e)), 2.0);
    let e = bin(BinaryOp::RShift, leaf(Leaf::Num(-64.0), 0, 3), leaf(Leaf::Num(36.0), 7, 9));
    assert_eq!(as_f64(&eval(&e)), -4.0);
}

#[test]
fn shift_by_negative_amount_leaves_left_operand() {
    let e = bin(BinaryOp::LShift, leaf(Leaf::Num(1.0), 0, 1), leaf(Leaf::Num(-1.0), 5, 7));
    assert_eq!(as_f64(&eval(&e)), 1.0);
}

#[test]
fn shift_in_range_shifts() {
    let e = bin(BinaryOp::LShift, leaf(Leaf::Num(1.0), 0, 1), leaf(Leaf::Num(1.0), 5, 6));
    assert_eq!(as_f64(&eval(&e)), 2.0);
    let e = bin(BinaryOp::RShift, leaf(Leaf::Num(-8.0), 0, 2), leaf(Leaf::Num(1.0), 6, 7));
    assert_eq!(as_f64(&eval(&e)), -4.0);
    let e = bin(BinaryOp::LShift, leaf(Leaf::Num(1.0), 0, 1), leaf(Leaf::Num(31.0), 5, 7));
    assert_eq!(as_f64(&eval(&e)), -2147483648.0);
}

#[test]
fn bitwise_operators_fold() {
    let e = bin(BinaryOp::BitAnd, leaf(Leaf::Num(5.0), 0, 1), leaf(Leaf::Num(3.0), 4, 5));
    assert_eq!(as_f64(&eval(&e)), 1.0);
    let e = bin(BinaryOp::BitXor, leaf(Leaf::Num(5.0), 0, 1), leaf(Leaf::Num(3.0), 4, 5));
    assert_eq!(as_f64(&eval(&e)), 6.0);
    let e = bin(BinaryOp::BitOr, leaf(Leaf::Num(5.5), 0, 3), leaf(Leaf::Num(-3.0), 6, 8));
    assert_eq!(as_f64(&eval(&e)), -3.0);
}

#[test]
fn bitwise_on_large_number_declines() {
    let e = bin(BinaryOp::BitOr, leaf(Leaf::Num(4294967296.0), 0, 10), leaf(Leaf::Num(0.0), 13, 14));
    assert!(matches!(eval(&e).value, Value::Unknown));
}

#[test]
fn arithmetic_folds_with_ieee_results() {
    let e = bin(BinaryOp::Sub, leaf(Leaf::Num(2.0), 0, 1), leaf(Leaf::Num(0.5), 4, 7));
    assert_eq!(as_f64(&eval(&e)), 1.5);
    let e = bin(BinaryOp::Mul, leaf(Leaf::Num(3.0), 0, 1), leaf(Leaf::Num(4.0), 4, 5));
    assert_eq!(as_f64(&eval(&e)), 12.0);
    let e = bin(BinaryOp::Div, leaf(Leaf::Num(1.0), 0, 1), leaf(Leaf::Num(0.0), 4, 5));
    assert_eq!(as_f64(&eval(&e)), f64::INFINITY);
    let e = bin(BinaryOp::Exp, leaf(Leaf::Num(2.0), 0, 1), leaf(Leaf::Num(10.0), 5, 7));
    assert_eq!(as_f64(&eval(&e)), 1024.0);
}

#[test]
fn folding_twice_gives_identical_bits() {
    let e = bin(BinaryOp::Div, leaf(Leaf::Num(1.0), 0, 1), leaf(Leaf::Num(3.0), 4, 5));
    let a = as_f64(&eval(&e)).to_bits();
    let b = as_f64(&eval(&e)).to_bits();
    assert_eq!(a, b);
}

#[test]
fn non_constant_operand_is_not_folded() {
    let e = bin(BinaryOp::Sub, leaf(Leaf::Ident, 0, 1), leaf(Leaf::Num(1.0), 4, 5));
    let (r, calls) = run(&e);
    assert!(matches!(r.unwrap().value, Value::Unknown));
    // the right operand is not evaluated once the left is not constant
    assert_eq!(calls, 1);
}

#[test]
fn nan_comparisons_are_false() {
    let e = bin(BinaryOp::Lt, leaf(Leaf::Num(f64::NAN), 0, 3), leaf(Leaf::Num(1.0), 6, 7));
    assert!(!as_bool(&eval(&e)));
    let e = bin(BinaryOp::GtEq, leaf(Leaf::Num(f64::NAN), 0, 3), leaf(Leaf::Num(f64::NAN), 7, 10));
    assert!(!as_bool(&eval(&e)));
}

#[test]
fn number_comparisons_fold() {
    let e = bin(BinaryOp::Lt, leaf(Leaf::Num(-1.0), 0, 2), leaf(Leaf::Num(1.0), 5, 6));
    assert!(as_bool(&eval(&e)));
    let e = bin(BinaryOp::LtEq, leaf(Leaf::Num(-0.0), 0, 2), leaf(Leaf::Num(0.0), 6, 7));
    assert!(as_bool(&eval(&e)));
    let e = bin(BinaryOp::Gt, leaf(Leaf::Num(f64::INFINITY), 0, 8), leaf(Leaf::Num(1e300), 11, 16));
    assert!(as_bool(&eval(&e)));
}

#[test]
fn string_comparisons_are_lexicographic() {
    let e = bin(BinaryOp::Lt, leaf(Leaf::Str("ab"), 0, 4), leaf(Leaf::Str("b"), 7, 10));
    assert!(as_bool(&eval(&e)));
    let e = bin(BinaryOp::LtEq, leaf(Leaf::Str("b"), 0, 3), leaf(Leaf::Str("ab"), 7, 11));
    assert!(!as_bool(&eval(&e)));
    let e = bin(BinaryOp::GtEq, leaf(Leaf::Str("ab"), 0, 4), leaf(Leaf::Str("a"), 8, 11));
    assert!(as_bool(&eval(&e)));
}

#[test]
fn string_comparisons_use_utf16_code_units() {
    let e = bin(BinaryOp::Lt, leaf(Leaf::Str("\u{10000}"), 0, 4), leaf(Leaf::Str("\u{ffff}"), 7, 10));
    assert!(as_bool(&eval(&e)));
    let e = bin(BinaryOp::Gt, leaf(Leaf::Str("\u{10001}"), 0, 4), leaf(Leaf::Str("\u{10000}"), 7, 11));
    assert!(as_bool(&eval(&e)));
    let e = bin(BinaryOp::Lt, leaf(Leaf::Str("\u{d7ff}"), 0, 4), leaf(Leaf::Str("\u{10000}"), 7, 11));
    assert!(as_bool(&eval(&e)));
}

#[test]
fn logical_and_true_left_takes_right() {
    let e = bin(BinaryOp::LogicalAnd, leaf(Leaf::Bool(true), 0, 4), leaf(Leaf::Call, 8, 24));
    let r = eval(&e);
    assert!(matches!(r.value, Value::Unknown));
    assert!(r.side_effects);
    assert_eq!(range_of(&r), (0, 24));
}

#[test]
fn logical_and_false_left_skips_right() {
    let e = bin(BinaryOp::LogicalAnd, leaf(Leaf::Bool(false), 0, 5), leaf(Leaf::Call, 9, 25));
    let (r, calls) = run(&e);
    let r = r.unwrap();
    assert!(!as_bool(&r));
    assert!(!r.side_effects);
    assert_eq!(calls, 1);
}

#[test]
fn logical_and_false_right_is_falsy() {
    let e = bin(BinaryOp::LogicalAnd, leaf(Leaf::Ident, 0, 1), leaf(Leaf::Num(0.0), 5, 6));
    let r = eval(&e);
    assert!(matches!(r.value, Value::Falsy));
    assert_eq!(r.as_bool(), Some(false));
    // `(x && false) === 0` is not decided: x may be 0
    let e = chain(
        BinaryOp::EqEqEq,
        bin(BinaryOp::LogicalAnd, leaf(Leaf::Ident, 0, 1), leaf(Leaf::Bool(false), 5, 10)),
        leaf(Leaf::Num(0.0), 15, 16),
    );
    assert!(matches!(eval(&e).value, Value::Unknown));
}

#[test]
fn wrapped_without_inner_expressions_falls_back_when_merged() {
    let e = bin(BinaryOp::Add, leaf(Leaf::BrokenWrapped, 0, 3), leaf(Leaf::Ident, 6, 7));
    let r = eval(&e);
    match &r.value {
        Value::Wrapped { inner_expressions, .. } => assert_eq!(inner_expressions.as_ref().unwrap().len(), 0),
        v => panic!("not wrapped: {:?}", v),
    }
}

#[test]
fn logical_or_folds() {
    let e = bin(BinaryOp::LogicalOr, leaf(Leaf::Str("a"), 0, 3), leaf(Leaf::Call, 7, 10));
    let (r, calls) = run(&e);
    assert_eq!(as_string(&r.unwrap()), "a");
    assert_eq!(calls, 1);
    let e = bin(BinaryOp::LogicalOr, leaf(Leaf::Ident, 0, 1), leaf(Leaf::Bool(true), 5, 9));
    let r = eval(&e);
    assert!(matches!(r.value, Value::Truthy));
    assert_eq!(r.as_bool(), Some(true));
    let e = bin(BinaryOp::LogicalOr, leaf(Leaf::Ident, 0, 1), leaf(Leaf::Bool(false), 5, 10));
    assert!(matches!(eval(&e).value, Value::Unknown));
}

#[test]
fn nullish_coalescing_folds() {
    let e = bin(BinaryOp::NullishCoalescing, leaf(Leaf::Null, 0, 4), leaf(Leaf::Str("d"), 8, 11));
    assert_eq!(as_string(&eval(&e)), "d");
    let e = bin(BinaryOp::NullishCoalescing, leaf(Leaf::Num(0.0), 0, 1), leaf(Leaf::Call, 5, 8));
    let (r, calls) = run(&e);
    assert_eq!(as_f64(&r.unwrap()), 0.0);
    assert_eq!(calls, 1);
    let e = bin(BinaryOp::NullishCoalescing, leaf(Leaf::Ident, 0, 1), leaf(Leaf::Str("d"), 5, 8));
    assert!(matches!(eval(&e).value, Value::Unknown));
}

#[test]
fn template_strings_with_different_prefixes_differ() {
    let e = bin(
        BinaryOp::EqEqEq,
        leaf(Leaf::Template(vec![Part::Text("a"), Part::Hole]), 0, 7),
        leaf(Leaf::Template(vec![Part::Text("b"), Part::Hole]), 12, 19),
    );
    let r = eval(&e);
    assert!(!as_bool(&r));
    assert_eq!(range_of(&r), (0, 19));
}

#[test]
fn template_strings_with_different_suffixes_differ() {
    let e = bin(
        BinaryOp::NotEq,
        leaf(Leaf::Template(vec![Part::Hole, Part::Text("x"), Part::Text("yz")]), 0, 9),
        leaf(Leaf::Template(vec![Part::Hole, Part::Text("xyw")]), 13, 22),
    );
    assert!(as_bool(&eval(&e)));
}

#[test]
fn template_strings_with_matching_ends_are_unknown() {
    let e = bin(
        BinaryOp::EqEqEq,
        leaf(Leaf::Template(vec![Part::Text("ab"), Part::Hole, Part::Text("c")]), 0, 9),
        leaf(Leaf::Template(vec![Part::Text("a"), Part::Hole]), 13, 20),
    );
    assert!(matches!(eval(&e).value, Value::Unknown));
}

#[test]
fn strict_equality_is_symmetric_on_constants() {
    let pairs = [
        (Leaf::Num(1.0), Leaf::Str("1")),
        (Leaf::Str("a"), Leaf::Str("a")),
        (Leaf::Num(0.0), Leaf::Num(-0.0)),
        (Leaf::Num(f64::NAN), Leaf::Num(f64::NAN)),
        (Leaf::Null, Leaf::Bool(false)),
    ];
    let expected = [false, true, true, false, false];
    for ((a, b), want) in pairs.into_iter().zip(expected) {
        let (ca, cb) = (leaf_value(&Node { leaf: a, start: 0, end: 1 }), leaf_value(&Node { leaf: b, start: 4, end: 5 }));
        let span = DependencyRange::new(0, 5);
        let ab = handle_strict_equality_comparison(true, &ca, &cb, span, &no_numbers()).unwrap();
        let ba = handle_strict_equality_comparison(true, &cb, &ca, span, &no_numbers()).unwrap();
        let not_ab = handle_strict_equality_comparison(false, &ca, &cb, span, &no_numbers()).unwrap();
        assert_eq!(as_bool(&ab), want);
        assert_eq!(as_bool(&ab), as_bool(&ba));
        assert_eq!(as_bool(&not_ab), !as_bool(&ab));
    }
}

#[test]
fn distinct_arrays_are_never_identical() {
    let e = bin(BinaryOp::EqEqEq, leaf(Leaf::Array(vec![1.0]), 0, 3), leaf(Leaf::Array(vec![1.0]), 8, 11));
    assert!(!as_bool(&eval(&e)));
    let e = bin(BinaryOp::NotEq, leaf(Leaf::Array(vec![]), 0, 2), leaf(Leaf::Array(vec![]), 6, 8));
    assert!(as_bool(&eval(&e)));
}

#[test]
fn object_against_primitive_is_never_identical() {
    let e = bin(BinaryOp::EqEqEq, leaf(Leaf::Regex, 0, 3), leaf(Leaf::Ident, 8, 9));
    assert!(matches!(eval(&e).value, Value::Unknown));
    let e = bin(BinaryOp::EqEqEq, leaf(Leaf::Regex, 0, 3), leaf(Leaf::Template(vec![Part::Hole]), 8, 12));
    assert!(!as_bool(&eval(&e)));
    let e = bin(BinaryOp::NotEqEq, leaf(Leaf::Array(vec![1.0]), 0, 3), leaf(Leaf::Call, 8, 11));
    assert!(matches!(eval(&e).value, Value::Unknown));
    let e = bin(BinaryOp::NotEqEq, leaf(Leaf::Ident, 0, 1), leaf(Leaf::Str("s"), 6, 9));
    assert!(matches!(eval(&e).value, Value::Unknown));
}

#[test]
fn strict_equality_of_truthy_and_falsy_differs() {
    let e = bin(BinaryOp::EqEqEq, leaf(Leaf::Call, 0, 3), leaf(Leaf::Null, 8, 12));
    assert!(matches!(eval(&e).value, Value::Unknown));
    let e = bin(BinaryOp::EqEqEq, leaf(Leaf::Template(vec![Part::Text("t"), Part::Hole]), 0, 6), leaf(Leaf::Null, 11, 15));
    let r = eval(&e);
    assert!(!as_bool(&r));
}

#[test]
fn abstract_equality_folds_constants_only() {
    let e = bin(BinaryOp::EqEq, leaf(Leaf::Num(1.0), 0, 1), leaf(Leaf::Num(1.0), 5, 6));
    assert!(as_bool(&eval(&e)));
    let e = bin(BinaryOp::EqEq, leaf(Leaf::Ident, 0, 1), leaf(Leaf::Num(1.0), 5, 6));
    assert!(matches!(eval(&e).value, Value::Unknown));
}

#[test]
fn chain_result_spans_whole_chain() {
    let e = chain(
        BinaryOp::Mul,
        chain(
            BinaryOp::Sub,
            bin(BinaryOp::Add, leaf(Leaf::Num(1.0), 0, 1), leaf(Leaf::Ident, 4, 5)),
            leaf(Leaf::Num(2.0), 8, 9),
        ),
        leaf(Leaf::Num(3.0), 12, 13),
    );
    let r = eval(&e);
    assert_eq!(range_of(&r), (0, 13));
    assert!(matches!(r.value, Value::Unknown));
}

#[test]
fn long_chain_is_evaluated_without_deep_recursion() {
    let mut e = bin(BinaryOp::Add, leaf(Leaf::Str("a"), 0, 1), leaf(Leaf::Str("b"), 2, 3));
    for i in 0..20000u32 {
        e = chain(BinaryOp::Add, e, leaf(Leaf::Str("c"), 4 + 2 * i, 5 + 2 * i));
    }
    let r = eval(&e);
    assert_eq!(as_string(&r).len(), 20002);
    std::mem::forget(e);
}

#[test]
fn evaluate_link_substitutes_unknown_when_declining() {
    let nums = no_numbers();
    let left = at(0, 1, true, Value::Identifier("x".to_string()));
    let right = Some(at(4, 5, false, Value::Identifier("y".to_string())));
    let r = evaluate_link(BinaryOp::EqEq, left, right, DependencyRange::new(0, 5), &nums).unwrap();
    assert!(matches!(r.value, Value::Unknown));
    assert!(r.side_effects);
    assert_eq!(range_of(&r), (0, 5));
}

#[test]
fn handle_add_uses_the_given_number_text() {
    let nums = NumericResults { right_text: "42".to_string(), ..no_numbers() };
    let left = at(0, 3, false, Value::String("n=".to_string()));
    let right = at(6, 8, false, Value::Number(num(42.0)));
    let r = handle_add(left, right, DependencyRange::new(0, 8), &nums).unwrap();
    assert_eq!(as_string(&r), "n=42");
}

#[test]
fn template_compare_direct() {
    let l = leaf_value(&Node { leaf: Leaf::Template(vec![Part::Text("ab"), Part::Hole]), start: 0, end: 5 });
    let r = leaf_value(&Node { leaf: Leaf::Template(vec![Part::Text("ac"), Part::Hole]), start: 8, end: 13 });
    let res = handle_template_string_compare(&l, &r, DependencyRange::new(0, 13), true, &vec![], &vec![]).unwrap();
    assert!(!as_bool(&res));
}

#[test]
fn template_prefix_counts_constant_parts() {
    // `${true}...` against `f${x}`: "true" and "f" differ
    let e = bin(
        BinaryOp::EqEqEq,
        leaf(Leaf::Template(vec![Part::Bool(true), Part::Hole]), 0, 9),
        leaf(Leaf::Template(vec![Part::Text("f"), Part::Hole]), 14, 20),
    );
    assert!(!as_bool(&eval(&e)));
    // `${1}a${x}` against `1a${y}`: same known prefix "1a", unknown
    let e = bin(
        BinaryOp::EqEqEq,
        leaf(Leaf::Template(vec![Part::Num(1.0), Part::Text("a"), Part::Hole]), 0, 9),
        leaf(Leaf::Template(vec![Part::Text("1a"), Part::Hole]), 14, 20),
    );
    assert!(matches!(eval(&e).value, Value::Unknown));
    // `${x}${2.5}` against `${y}2.6`: the suffixes differ
    let e = bin(
        BinaryOp::NotEqEq,
        leaf(Leaf::Template(vec![Part::Hole, Part::Num(2.5)]), 0, 9),
        leaf(Leaf::Template(vec![Part::Hole, Part::Text("2.6")]), 14, 20),
    );
    assert!(as_bool(&eval(&e)));
}

#[test]
fn number_text_follows_javascript() {
    let e = bin(BinaryOp::Add, leaf(Leaf::Str("a"), 0, 3), leaf(Leaf::Num(f64::INFINITY), 6, 14));
    assert_eq!(as_string(&eval(&e)), "aInfinity");
    let e = bin(BinaryOp::Add, leaf(Leaf::Str("a"), 0, 3), leaf(Leaf::Num(-0.0), 6, 8));
    assert_eq!(as_string(&eval(&e)), "a0");
    let e = bin(BinaryOp::Add, leaf(Leaf::Str("a"), 0, 3), leaf(Leaf::Num(1e21), 6, 10));
    assert_eq!(as_string(&eval(&e)), "a1e+21");
}

#[test]
fn always_different_needs_both_known() {
    assert!(is_always_different(Some(true), Some(false)));
    assert!(!is_always_different(Some(true), Some(true)));
    assert!(!is_always_different(None, Some(false)));
}

#[test]
fn join_ranges_spans_both() {
    assert_eq!(join_ranges(Some((1, 3)), Some((5, 9))), (1, 9));
    assert_eq!(join_ranges(None, Some((5, 9))), (5, 9));
    assert_eq!(join_ranges(Some((1, 3)), None), (1, 3));
    let a = DependencyRange::new(2, 4);
    let b = DependencyRange::new(6, 8);
    assert_eq!(join_locations(Some(&a), Some(&b)), (2, 8));
    assert_eq!(join_locations(None, Some(&b)), (6, 8));
}
