use vstd::prelude::*;
use crate::range::DependencyRange;

verus! {

/// The binary operators of JavaScript.
#[derive(Clone, Copy, Debug, PartialEq, Eq, Structural)]
pub enum BinaryOp {
    EqEq,
    NotEq,
    EqEqEq,
    NotEqEq,
    Lt,
    LtEq,
    Gt,
    GtEq,
    LShift,
    RShift,
    ZeroFillRShift,
    Add,
    Sub,
    Mul,
    Div,
    Mod,
    BitOr,
    BitXor,
    BitAnd,
    LogicalOr,
    LogicalAnd,
    In,
    InstanceOf,
    Exp,
    NullishCoalescing,
}

/// An expression: a binary expression, or any other expression, whose
/// payload `T` only the host evaluator reads.
#[derive(Debug)]
pub enum Expr<T> {
    Bin(Box<BinExpr<T>>),
    Other(T),
}

/// `left op right` over the source span `span`.
#[derive(Debug)]
pub struct BinExpr<T> {
    pub op: BinaryOp,
    pub left: Expr<T>,
    pub right: Expr<T>,
    pub span: DependencyRange,
}

} // verus!
