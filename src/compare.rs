use vstd::prelude::*;
use vstd::string::*;
use crate::add::NumericResults;
use crate::range::DependencyRange;
use crate::value::{
    bool_at, compile_time_equal, is_compile_time, is_str, nullishness, primitiveness, str_of,
    truthiness, EvaluatedExpression, Value,
};

verus! {

/// The host's text for the part at index `i`, where the host gave one.
pub open spec fn host_at(hosts: Seq<String>, i: int) -> Option<Seq<char>> {
    if 0 <= i < hosts.len() {
        Some(hosts[i]@)
    } else {
        None
    }
}

/// The text of a constant template part: a string's text, `true` or
/// `false`, `null`, `undefined`, a BigInt's digits, and for a number the
/// text the host gave for it (`host`). `None` for a part that is not
/// constant, or a number without a text from the host.
pub open spec fn part_text(p: EvaluatedExpression, host: Option<Seq<char>>) -> Option<Seq<char>> {
    match p.value {
        Value::String(s) => Some(s@),
        Value::Boolean(b) => Some(
            if b {
                "true"@
            } else {
                "false"@
            },
        ),
        Value::Null => Some("null"@),
        Value::Undefined => Some("undefined"@),
        Value::BigInt(d) => Some(d@),
        Value::Number(_) => host,
        _ => None,
    }
}

/// The text of the constant parts from index `i` on, up to the first part
/// that is not constant.
pub open spec fn prefix_from(parts: Seq<EvaluatedExpression>, hosts: Seq<String>, i: int) -> Seq<
    char,
>
    decreases parts.len() - i,
{
    if i < 0 || i >= parts.len() || part_text(parts[i], host_at(hosts, i)) is None {
        Seq::empty()
    } else {
        part_text(parts[i], host_at(hosts, i))->Some_0 + prefix_from(parts, hosts, i + 1)
    }
}

/// The text of the constant parts that end just before index `j`, back to
/// the last part before them that is not constant.
pub open spec fn suffix_to(parts: Seq<EvaluatedExpression>, hosts: Seq<String>, j: int) -> Seq<char>
    decreases j,
{
    if j <= 0 || j > parts.len() || part_text(parts[j - 1], host_at(hosts, j - 1)) is None {
        Seq::empty()
    } else {
        suffix_to(parts, hosts, j - 1) + part_text(parts[j - 1], host_at(hosts, j - 1))->Some_0
    }
}

pub open spec fn template_parts(e: EvaluatedExpression) -> Seq<EvaluatedExpression> {
    match e.value {
        Value::TemplateString(parts) => parts@,
        _ => Seq::empty(),
    }
}

/// The literal text that a template string is known to start with; `hosts`
/// holds the host's text of its number parts.
pub open spec fn known_prefix(e: EvaluatedExpression, hosts: Seq<String>) -> Seq<char> {
    prefix_from(template_parts(e), hosts, 0)
}

/// The literal text that a template string is known to end with.
pub open spec fn known_suffix(e: EvaluatedExpression, hosts: Seq<String>) -> Seq<char> {
    suffix_to(template_parts(e), hosts, template_parts(e).len() as int)
}

pub open spec fn min_len(a: Seq<char>, b: Seq<char>) -> int {
    if a.len() <= b.len() {
        a.len() as int
    } else {
        b.len() as int
    }
}

/// Over the length they share, the two texts start differently.
pub open spec fn starts_differ(a: Seq<char>, b: Seq<char>) -> bool {
    let n = min_len(a, b);
    n > 0 && a.take(n) != b.take(n)
}

/// Over the length they share, the two texts end differently.
pub open spec fn ends_differ(a: Seq<char>, b: Seq<char>) -> bool {
    let n = min_len(a, b);
    n > 0 && a.skip(a.len() - n) != b.skip(b.len() - n)
}

/// Two template strings whose known prefixes or known suffixes disagree can
/// never be equal; otherwise nothing is known.
pub open spec fn template_compare(
    left: EvaluatedExpression,
    right: EvaluatedExpression,
    span: DependencyRange,
    eql: bool,
    left_hosts: Seq<String>,
    right_hosts: Seq<String>,
) -> Option<EvaluatedExpression> {
    if starts_differ(known_prefix(left, left_hosts), known_prefix(right, right_hosts)) || ends_differ(
        known_suffix(left, left_hosts),
        known_suffix(right, right_hosts),
    ) {
        Some(bool_at(!eql, span, left.side_effects || right.side_effects))
    } else {
        None
    }
}

pub open spec fn always_different(a: Option<bool>, b: Option<bool>) -> bool {
    match (a, b) {
        (Some(x), Some(y)) => x != y,
        _ => false,
    }
}

/// `===` (`eql`) or `!==` (`!eql`) over two evaluated operands. Among the
/// cases: a value known not to be a primitive is never identical to the
/// other operand when that operand is a constant or known to be a primitive.
pub open spec fn strict_equality(
    eql: bool,
    left: EvaluatedExpression,
    right: EvaluatedExpression,
    span: DependencyRange,
    nums: NumericResults,
) -> Option<EvaluatedExpression> {
    let se = left.side_effects || right.side_effects;
    let left_const = is_compile_time(left);
    let right_const = is_compile_time(right);
    if left_const && right_const {
        Some(bool_at(eql == compile_time_equal(left, right), span, se))
    } else if left.value is Array && right.value is Array {
        Some(bool_at(!eql, span, se))
    } else if left.value is TemplateString && right.value is TemplateString {
        template_compare(left, right, span, eql, nums.left_parts@, nums.right_parts@)
    } else if always_different(truthiness(left), truthiness(right)) || always_different(
        nullishness(left),
        nullishness(right),
    ) {
        Some(bool_at(!eql, span, se))
    } else if (primitiveness(left) == Some(false) && (right_const || primitiveness(right) == Some(
        true,
    ))) || (primitiveness(right) == Some(false) && (left_const || primitiveness(left) == Some(
        true,
    ))) {
        Some(bool_at(!eql, span, se))
    } else {
        None
    }
}

/// `==` (`eql`) or `!=` (`!eql`) over two evaluated operands.
pub open spec fn abstract_equality(
    eql: bool,
    left: EvaluatedExpression,
    right: EvaluatedExpression,
    span: DependencyRange,
    nums: NumericResults,
) -> Option<EvaluatedExpression> {
    let se = left.side_effects || right.side_effects;
    if is_compile_time(left) && is_compile_time(right) {
        Some(bool_at(eql == compile_time_equal(left, right), span, se))
    } else if left.value is Array && right.value is Array {
        Some(bool_at(!eql, span, se))
    } else if left.value is TemplateString && right.value is TemplateString {
        template_compare(left, right, span, eql, nums.left_parts@, nums.right_parts@)
    } else {
        None
    }
}

fn part_text_of(p: &EvaluatedExpression, hosts: &Vec<String>, i: usize) -> (r: Option<String>)
    ensures
        r is Some == part_text(*p, host_at(hosts@, i as int)) is Some,
        r is Some ==> r->Some_0@ == part_text(*p, host_at(hosts@, i as int))->Some_0,
{
    match &p.value {
        Value::String(s) => Some(s.clone()),
        Value::Boolean(b) => if *b {
            Some(String::from_str("true"))
        } else {
            Some(String::from_str("false"))
        },
        Value::Null => Some(String::from_str("null")),
        Value::Undefined => Some(String::from_str("undefined")),
        Value::BigInt(d) => Some(d.clone()),
        Value::Number(_) => if i < hosts.len() {
            Some(hosts[i].clone())
        } else {
            None
        },
        _ => None,
    }
}

fn get_prefix(parts: &Vec<EvaluatedExpression>, hosts: &Vec<String>) -> (r: String)
    ensures
        r@ == prefix_from(parts@, hosts@, 0),
{
    let mut acc = String::new();
    let mut i: usize = 0;
    while i < parts.len()
        invariant
            i <= parts@.len(),
            acc@ + prefix_from(parts@, hosts@, i as int) == prefix_from(parts@, hosts@, 0),
        decreases parts@.len() - i,
    {
        match part_text_of(&parts[i], hosts, i) {
            Some(t) => {
                let ghost old_acc = acc@;
                acc.append(t.as_str());
                assert(old_acc + prefix_from(parts@, hosts@, i as int) == old_acc + (t@
                    + prefix_from(parts@, hosts@, i + 1)));
                assert(acc@ + prefix_from(parts@, hosts@, i + 1) =~= old_acc + (t@ + prefix_from(
                    parts@,
                    hosts@,
                    i + 1,
                )));
            },
            None => {
                assert(acc@ =~= acc@ + prefix_from(parts@, hosts@, i as int));
                return acc;
            },
        }
        i = i + 1;
    }
    assert(acc@ =~= acc@ + prefix_from(parts@, hosts@, i as int));
    acc
}

fn get_suffix(parts: &Vec<EvaluatedExpression>, hosts: &Vec<String>) -> (r: String)
    ensures
        r@ == suffix_to(parts@, hosts@, parts@.len() as int),
{
    let mut acc = String::new();
    let mut j: usize = parts.len();
    while j > 0
        invariant
            j <= parts@.len(),
            suffix_to(parts@, hosts@, j as int) + acc@ == suffix_to(
                parts@,
                hosts@,
                parts@.len() as int,
            ),
        decreases j,
    {
        match part_text_of(&parts[j - 1], hosts, j - 1) {
            Some(t) => {
                let ghost old_acc = acc@;
                let mut u = t;
                u.append(acc.as_str());
                acc = u;
                assert(suffix_to(parts@, hosts@, j as int) + old_acc == (suffix_to(
                    parts@,
                    hosts@,
                    j - 1,
                ) + t@) + old_acc);
                assert(suffix_to(parts@, hosts@, j - 1) + acc@ =~= (suffix_to(parts@, hosts@, j - 1)
                    + t@) + old_acc);
            },
            None => {
                assert(acc@ =~= suffix_to(parts@, hosts@, j as int) + acc@);
                return acc;
            },
        }
        j = j - 1;
    }
    assert(acc@ =~= suffix_to(parts@, hosts@, j as int) + acc@);
    acc
}

fn texts_start_differ(a: &str, b: &str) -> (r: bool)
    ensures
        r == starts_differ(a@, b@),
{
    let la = a.unicode_len();
    let lb = b.unicode_len();
    let n = if la <= lb {
        la
    } else {
        lb
    };
    let mut i: usize = 0;
    while i < n
        invariant
            n as int == min_len(a@, b@),
            i <= n,
            forall|k: int| 0 <= k < i ==> a@[k] == b@[k],
        decreases n - i,
    {
        if a.get_char(i) != b.get_char(i) {
            assert(a@.take(n as int)[i as int] != b@.take(n as int)[i as int]);
            return n > 0;
        }
        i = i + 1;
    }
    assert(a@.take(n as int) =~= b@.take(n as int));
    false
}

fn texts_end_differ(a: &str, b: &str) -> (r: bool)
    ensures
        r == ends_differ(a@, b@),
{
    let la = a.unicode_len();
    let lb = b.unicode_len();
    let n = if la <= lb {
        la
    } else {
        lb
    };
    let mut i: usize = 0;
    while i < n
        invariant
            n as int == min_len(a@, b@),
            la == a@.len(),
            lb == b@.len(),
            i <= n,
            forall|k: int| 0 <= k < i ==> #[trigger] a@.skip(la - n)[k] == b@.skip(lb - n)[k],
        decreases n - i,
    {
        if a.get_char(la - n + i) != b.get_char(lb - n + i) {
            assert(a@.skip(la - n)[i as int] != b@.skip(lb - n)[i as int]);
            return true;
        }
        i = i + 1;
    }
    assert(a@.skip(la - n) =~= b@.skip(lb - n));
    false
}

/// Compares the literal prefixes, then the literal suffixes, of two
/// template strings (`eql` is true for `==`/`===`). The literal text runs
/// over the constant parts; `left_hosts` and `right_hosts` hold the host's
/// text of each number part.
pub fn handle_template_string_compare(
    left: &EvaluatedExpression,
    right: &EvaluatedExpression,
    span: DependencyRange,
    eql: bool,
    left_hosts: &Vec<String>,
    right_hosts: &Vec<String>,
) -> (r: Option<EvaluatedExpression>)
    ensures
        r == template_compare(*left, *right, span, eql, left_hosts@, right_hosts@),
{
    let (left_parts, right_parts) = match (&left.value, &right.value) {
        (Value::TemplateString(l), Value::TemplateString(r)) => (l, r),
        _ => {
            assert(known_prefix(*left, left_hosts@).len() == 0 || known_prefix(
                *right,
                right_hosts@,
            ).len() == 0);
            assert(known_suffix(*left, left_hosts@).len() == 0 || known_suffix(
                *right,
                right_hosts@,
            ).len() == 0);
            return None;
        },
    };
    let left_prefix = get_prefix(left_parts, left_hosts);
    let right_prefix = get_prefix(right_parts, right_hosts);
    if texts_start_differ(left_prefix.as_str(), right_prefix.as_str()) {
        return Some(
            EvaluatedExpression {
                range: Some(span),
                side_effects: left.side_effects || right.side_effects,
                value: Value::Boolean(!eql),
            },
        );
    }
    let left_suffix = get_suffix(left_parts, left_hosts);
    let right_suffix = get_suffix(right_parts, right_hosts);
    if texts_end_differ(left_suffix.as_str(), right_suffix.as_str()) {
        return Some(
            EvaluatedExpression {
                range: Some(span),
                side_effects: left.side_effects || right.side_effects,
                value: Value::Boolean(!eql),
            },
        );
    }
    None
}

/// Both tri-states are known and they disagree.
pub fn is_always_different(a: Option<bool>, b: Option<bool>) -> (r: bool)
    ensures
        r == always_different(a, b),
{
    match (a, b) {
        (Some(a), Some(b)) => a != b,
        _ => false,
    }
}

fn bool_result(b: bool, span: DependencyRange, side_effects: bool) -> (r: EvaluatedExpression)
    ensures
        r == bool_at(b, span, side_effects),
{
    EvaluatedExpression { range: Some(span), side_effects, value: Value::Boolean(b) }
}

/// `===` (`eql`) or `!==` (`!eql`): `span` is the span of the whole
/// comparison.
pub fn handle_strict_equality_comparison(
    eql: bool,
    left: &EvaluatedExpression,
    right: &EvaluatedExpression,
    span: DependencyRange,
    nums: &NumericResults,
) -> (r: Option<EvaluatedExpression>)
    ensures
        r == strict_equality(eql, *left, *right, span, *nums),
{
    let se = left.could_have_side_effects() || right.could_have_side_effects();
    let left_const = left.is_compile_time_value();
    let right_const = right.is_compile_time_value();
    if left_const && right_const {
        Some(bool_result(eql == left.compare_compile_time_value(right), span, se))
    } else if left.is_array() && right.is_array() {
        Some(bool_result(!eql, span, se))
    } else if left.is_template_string() && right.is_template_string() {
        handle_template_string_compare(left, right, span, eql, &nums.left_parts, &nums.right_parts)
    } else if is_always_different(left.as_bool(), right.as_bool()) || is_always_different(
        left.as_nullish(),
        right.as_nullish(),
    ) {
        Some(bool_result(!eql, span, se))
    } else {
        let left_primitive = left.is_primitive_type();
        let right_primitive = right.is_primitive_type();
        if (left_primitive == Some(false) && (right_const || right_primitive == Some(true))) || (
        right_primitive == Some(false) && (left_const || left_primitive == Some(true))) {
            Some(bool_result(!eql, span, se))
        } else {
            None
        }
    }
}

/// `==` (`eql`) or `!=` (`!eql`): `span` is the span of the whole
/// comparison.
pub fn handle_abstract_equality_comparison(
    eql: bool,
    left: &EvaluatedExpression,
    right: &EvaluatedExpression,
    span: DependencyRange,
    nums: &NumericResults,
) -> (r: Option<EvaluatedExpression>)
    ensures
        r == abstract_equality(eql, *left, *right, span, *nums),
{
    let se = left.could_have_side_effects() || right.could_have_side_effects();
    if left.is_compile_time_value() && right.is_compile_time_value() {
        Some(bool_result(eql == left.compare_compile_time_value(right), span, se))
    } else if left.is_array() && right.is_array() {
        Some(bool_result(!eql, span, se))
    } else if left.is_template_string() && right.is_template_string() {
        handle_template_string_compare(left, right, span, eql, &nums.left_parts, &nums.right_parts)
    } else {
        None
    }
}

} // verus!
