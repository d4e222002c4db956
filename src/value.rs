use vstd::prelude::*;
use vstd::string::*;
use crate::number::{number_eq, number_truthy, truncated_int32, JsNumber};
use crate::range::DependencyRange;

verus! {

/// What is statically known of the value of an expression.
#[derive(Debug)]
pub enum Value {
    /// Nothing is known.
    Unknown,
    Null,
    Undefined,
    Boolean(bool),
    Number(JsNumber),
    /// A BigInt, as its canonical decimal digits.
    BigInt(String),
    String(String),
    RegExp { pattern: String, flags: String },
    /// A template literal, each of its pieces evaluated on its own.
    TemplateString(Vec<EvaluatedExpression>),
    Array(Vec<EvaluatedExpression>),
    /// A string built by concatenation: a known leading fragment, a known
    /// trailing fragment, and the pieces in between in source order.
    Wrapped {
        prefix: Option<Box<EvaluatedExpression>>,
        postfix: Option<Box<EvaluatedExpression>>,
        inner_expressions: Option<Vec<EvaluatedExpression>>,
    },
    /// A name or any other kind of value that is not a compile-time value.
    Identifier(String),
    /// A value of unknown kind that is known to be truthy.
    Truthy,
    /// A value of unknown kind that is known to be falsy (`false`, `0`,
    /// `""`, `null`, `undefined`, NaN or `0n`).
    Falsy,
}

/// The result of evaluating one expression.
#[derive(Debug)]
pub struct EvaluatedExpression {
    pub range: Option<DependencyRange>,
    pub side_effects: bool,
    pub value: Value,
}

/// A literal: `null`, `undefined`, a boolean, number, BigInt, string or
/// regular expression.
pub open spec fn is_literal(e: EvaluatedExpression) -> bool {
    match e.value {
        Value::Null | Value::Undefined | Value::Boolean(_) | Value::Number(_) | Value::BigInt(_)
        | Value::String(_) | Value::RegExp { .. } => true,
        _ => false,
    }
}

/// A value known at compile time: a literal, or an array whose items are
/// all literals. An array that nests arrays counts as not known: folding
/// then declines where it could have folded, which loses precision but
/// never folds wrongly (an array is compared by identity anyway).
pub open spec fn is_compile_time(e: EvaluatedExpression) -> bool {
    match e.value {
        Value::Array(items) => forall|i: int|
            0 <= i < items@.len() ==> #[trigger] is_literal(items@[i]),
        _ => is_literal(e),
    }
}

pub open spec fn is_str(e: EvaluatedExpression) -> bool {
    e.value is String
}

/// The text of a string value (empty for any other value).
pub open spec fn str_of(e: EvaluatedExpression) -> Seq<char> {
    match e.value {
        Value::String(s) => s@,
        _ => Seq::empty(),
    }
}

pub open spec fn is_nonempty_str(e: EvaluatedExpression) -> bool {
    is_str(e) && str_of(e).len() > 0
}

pub open spec fn opt_nonempty_str(o: Option<Box<EvaluatedExpression>>) -> bool {
    match o {
        Some(b) => is_nonempty_str(*b),
        None => false,
    }
}

/// JavaScript truthiness, where it is statically known.
pub open spec fn truthiness(e: EvaluatedExpression) -> Option<bool> {
    match e.value {
        Value::Boolean(b) => Some(b),
        Value::Number(n) => Some(number_truthy(n.bits)),
        Value::String(s) => Some(s@.len() > 0),
        Value::BigInt(s) => Some(!(s@.len() == 1 && s@[0] == '0')),
        Value::Null | Value::Undefined => Some(false),
        Value::RegExp { .. } | Value::Array(_) => Some(true),
        Value::TemplateString(parts) => if exists|i: int|
            0 <= i < parts@.len() && #[trigger] is_nonempty_str(parts@[i]) {
            Some(true)
        } else {
            None
        },
        Value::Wrapped { prefix, postfix, .. } => if opt_nonempty_str(prefix) || opt_nonempty_str(
            postfix,
        ) {
            Some(true)
        } else {
            None
        },
        Value::Truthy => Some(true),
        Value::Falsy => Some(false),
        Value::Unknown | Value::Identifier(_) => None,
    }
}

/// Whether the value is `null` or `undefined`, where it is statically known.
pub open spec fn nullishness(e: EvaluatedExpression) -> Option<bool> {
    match e.value {
        Value::Null | Value::Undefined => Some(true),
        Value::Unknown | Value::Identifier(_) | Value::Falsy => None,
        _ => Some(false),
    }
}

/// Whether the value is a primitive (not an object), where it is known.
pub open spec fn primitiveness(e: EvaluatedExpression) -> Option<bool> {
    match e.value {
        Value::RegExp { .. } | Value::Array(_) => Some(false),
        Value::Unknown | Value::Identifier(_) | Value::Truthy => None,
        _ => Some(true),
    }
}

/// `===` between two compile-time values. Primitives compare by value
/// (numbers as IEEE-754 values); a regular expression or an array literal
/// is a fresh object, identical to nothing else.
pub open spec fn compile_time_equal(a: EvaluatedExpression, b: EvaluatedExpression) -> bool {
    match (a.value, b.value) {
        (Value::Null, Value::Null) => true,
        (Value::Undefined, Value::Undefined) => true,
        (Value::Boolean(x), Value::Boolean(y)) => x == y,
        (Value::Number(x), Value::Number(y)) => number_eq(x.bits, y.bits),
        (Value::String(x), Value::String(y)) => x@ == y@,
        (Value::BigInt(x), Value::BigInt(y)) => x@ == y@,
        _ => false,
    }
}

/// A value that knows nothing but its span and side effects.
pub open spec fn unknown_at(range: DependencyRange, side_effects: bool) -> EvaluatedExpression {
    EvaluatedExpression { range: Some(range), side_effects, value: Value::Unknown }
}

/// A definite boolean over a span.
pub open spec fn bool_at(b: bool, range: DependencyRange, side_effects: bool) -> EvaluatedExpression {
    EvaluatedExpression { range: Some(range), side_effects, value: Value::Boolean(b) }
}

impl EvaluatedExpression {
    /// An unknown value without side effects over `[start, end)`.
    pub fn with_range(start: u32, end: u32) -> (r: EvaluatedExpression)
        ensures
            r == unknown_at(DependencyRange { start, end }, false),
    {
        EvaluatedExpression {
            range: Some(DependencyRange { start, end }),
            side_effects: false,
            value: Value::Unknown,
        }
    }

    pub fn could_have_side_effects(&self) -> (r: bool)
        ensures
            r == self.side_effects,
    {
        self.side_effects
    }

    pub fn set_side_effects(&mut self, side_effects: bool)
        ensures
            *final(self) == (EvaluatedExpression { side_effects, ..*old(self) }),
    {
        self.side_effects = side_effects;
    }

    pub fn set_range(&mut self, start: u32, end: u32)
        ensures
            *final(self) == (EvaluatedExpression {
                range: Some(DependencyRange { start, end }),
                ..*old(self)
            }),
    {
        self.range = Some(DependencyRange { start, end });
    }

    pub fn set_bool(&mut self, b: bool)
        ensures
            *final(self) == (EvaluatedExpression { value: Value::Boolean(b), ..*old(self) }),
    {
        self.value = Value::Boolean(b);
    }

    pub fn set_number(&mut self, n: JsNumber)
        ensures
            *final(self) == (EvaluatedExpression { value: Value::Number(n), ..*old(self) }),
    {
        self.value = Value::Number(n);
    }

    pub fn set_string(&mut self, s: String)
        ensures
            *final(self) == (EvaluatedExpression { value: Value::String(s), ..*old(self) }),
    {
        self.value = Value::String(s);
    }

    pub fn set_wrapped(
        &mut self,
        prefix: Option<EvaluatedExpression>,
        postfix: Option<EvaluatedExpression>,
        inner_expressions: Vec<EvaluatedExpression>,
    )
        ensures
            final(self).range == old(self).range,
            final(self).side_effects == old(self).side_effects,
            final(self).value == (Value::Wrapped {
                prefix: match prefix {
                    Some(p) => Some(Box::new(p)),
                    None => None,
                },
                postfix: match postfix {
                    Some(p) => Some(Box::new(p)),
                    None => None,
                },
                inner_expressions: Some(inner_expressions),
            }),
    {
        let prefix = match prefix {
            Some(p) => Some(Box::new(p)),
            None => None,
        };
        let postfix = match postfix {
            Some(p) => Some(Box::new(p)),
            None => None,
        };
        self.value = Value::Wrapped { prefix, postfix, inner_expressions: Some(inner_expressions) };
    }

    pub fn is_string(&self) -> (r: bool)
        ensures
            r == (self.value is String),
    {
        matches!(self.value, Value::String(_))
    }

    pub fn is_number(&self) -> (r: bool)
        ensures
            r == (self.value is Number),
    {
        matches!(self.value, Value::Number(_))
    }

    pub fn is_bigint(&self) -> (r: bool)
        ensures
            r == (self.value is BigInt),
    {
        matches!(self.value, Value::BigInt(_))
    }

    pub fn is_array(&self) -> (r: bool)
        ensures
            r == (self.value is Array),
    {
        matches!(self.value, Value::Array(_))
    }

    pub fn is_template_string(&self) -> (r: bool)
        ensures
            r == (self.value is TemplateString),
    {
        matches!(self.value, Value::TemplateString(_))
    }

    pub fn is_wrapped(&self) -> (r: bool)
        ensures
            r == (self.value is Wrapped),
    {
        matches!(self.value, Value::Wrapped { .. })
    }

    pub fn is_compile_time_value(&self) -> (r: bool)
        ensures
            r == is_compile_time(*self),
    {
        match &self.value {
            Value::Array(items) => {
                let mut i: usize = 0;
                while i < items.len()
                    invariant
                        self.value == Value::Array(*items),
                        i <= items@.len(),
                        forall|j: int| 0 <= j < i ==> #[trigger] is_literal(items@[j]),
                    decreases items@.len() - i,
                {
                    if !items[i].is_literal() {
                        assert(!is_literal(self.value->Array_0@[i as int]));
                        return false;
                    }
                    i = i + 1;
                }
                true
            },
            _ => self.is_literal(),
        }
    }

    pub fn is_literal(&self) -> (r: bool)
        ensures
            r == is_literal(*self),
    {
        match &self.value {
            Value::Null | Value::Undefined | Value::Boolean(_) | Value::Number(_) | Value::BigInt(
                _,
            )
            | Value::String(_) | Value::RegExp { .. } => true,
            _ => false,
        }
    }

    pub fn as_bool(&self) -> (r: Option<bool>)
        ensures
            r == truthiness(*self),
    {
        match &self.value {
            Value::Boolean(b) => Some(*b),
            Value::Number(n) => Some(n.is_truthy()),
            Value::String(s) => Some(s.unicode_len() > 0),
            Value::BigInt(s) => {
                let one_zero = s.unicode_len() == 1 && s.as_str().get_char(0) == '0';
                Some(!one_zero)
            },
            Value::Null | Value::Undefined => Some(false),
            Value::RegExp { .. } | Value::Array(_) => Some(true),
            Value::TemplateString(parts) => {
                let mut i: usize = 0;
                while i < parts.len()
                    invariant
                        self.value == Value::TemplateString(*parts),
                        i <= parts@.len(),
                        forall|j: int| 0 <= j < i ==> !#[trigger] is_nonempty_str(parts@[j]),
                    decreases parts@.len() - i,
                {
                    if let Value::String(s) = &parts[i].value {
                        if s.unicode_len() > 0 {
                            assert(is_nonempty_str(self.value->TemplateString_0@[i as int]));
                            return Some(true);
                        }
                    }
                    i = i + 1;
                }
                None
            },
            Value::Wrapped { prefix, postfix, .. } => {
                if nonempty_string_part(prefix) || nonempty_string_part(postfix) {
                    Some(true)
                } else {
                    None
                }
            },
            Value::Truthy => Some(true),
            Value::Falsy => Some(false),
            Value::Unknown | Value::Identifier(_) => None,
        }
    }

    pub fn as_nullish(&self) -> (r: Option<bool>)
        ensures
            r == nullishness(*self),
    {
        match &self.value {
            Value::Null | Value::Undefined => Some(true),
            Value::Unknown | Value::Identifier(_) | Value::Falsy => None,
            _ => Some(false),
        }
    }

    pub fn is_primitive_type(&self) -> (r: Option<bool>)
        ensures
            r == primitiveness(*self),
    {
        match &self.value {
            Value::RegExp { .. } | Value::Array(_) => Some(false),
            Value::Unknown | Value::Identifier(_) | Value::Truthy => None,
            _ => Some(true),
        }
    }

    /// `self === other` for two compile-time values.
    pub fn compare_compile_time_value(&self, other: &EvaluatedExpression) -> (r: bool)
        ensures
            r == compile_time_equal(*self, *other),
    {
        match (&self.value, &other.value) {
            (Value::Null, Value::Null) => true,
            (Value::Undefined, Value::Undefined) => true,
            (Value::Boolean(x), Value::Boolean(y)) => *x == *y,
            (Value::Number(x), Value::Number(y)) => x.strict_equals(y),
            (Value::String(x), Value::String(y)) => x.eq(y),
            (Value::BigInt(x), Value::BigInt(y)) => x.eq(y),
            _ => false,
        }
    }

    /// The number, for a number value.
    pub fn as_number(&self) -> (r: Option<JsNumber>)
        ensures
            r == (match self.value {
                Value::Number(n) => Some(n),
                _ => None,
            }),
    {
        match &self.value {
            Value::Number(n) => Some(*n),
            _ => None,
        }
    }

    /// The integer part of a number value, when it fits 32 bits as
    /// `JsNumber::as_int32` describes.
    pub fn as_int(&self) -> (r: Option<i32>)
        ensures
            r == (match self.value {
                Value::Number(n) => truncated_int32(n.bits),
                _ => None,
            }),
    {
        match &self.value {
            Value::Number(n) => n.as_int32(),
            _ => None,
        }
    }
}

fn nonempty_string_part(o: &Option<Box<EvaluatedExpression>>) -> (r: bool)
    ensures
        r == opt_nonempty_str(*o),
{
    match o {
        Some(b) => match &b.value {
            Value::String(s) => s.unicode_len() > 0,
            _ => false,
        },
        None => false,
    }
}

} // verus!
