use vstd::prelude::*;
use crate::ast::{BinaryOperator, Node};

verus! {

pub const OPERATOR_PRECEDENCE_INVALID: i8 = -1;
pub const OPERATOR_PRECEDENCE_COMMA: i8 = 0;
pub const OPERATOR_PRECEDENCE_SPREAD: i8 = 1;
pub const OPERATOR_PRECEDENCE_YIELD: i8 = 2;
pub const OPERATOR_PRECEDENCE_ASSIGNMENT: i8 = 3;
pub const OPERATOR_PRECEDENCE_CONDITIONAL: i8 = 4;
pub const OPERATOR_PRECEDENCE_COALESCE: i8 = 4;
pub const OPERATOR_PRECEDENCE_LOGICAL_OR: i8 = 5;
pub const OPERATOR_PRECEDENCE_LOGICAL_AND: i8 = 6;
pub const OPERATOR_PRECEDENCE_BITWISE_OR: i8 = 7;
pub const OPERATOR_PRECEDENCE_BITWISE_XOR: i8 = 8;
pub const OPERATOR_PRECEDENCE_BITWISE_AND: i8 = 9;
pub const OPERATOR_PRECEDENCE_EQUALITY: i8 = 10;
pub const OPERATOR_PRECEDENCE_RELATIONAL: i8 = 11;
pub const OPERATOR_PRECEDENCE_SHIFT: i8 = 12;
pub const OPERATOR_PRECEDENCE_ADDITIVE: i8 = 13;
pub const OPERATOR_PRECEDENCE_MULTIPLICATIVE: i8 = 14;
pub const OPERATOR_PRECEDENCE_EXPONENTIATION: i8 = 15;
pub const OPERATOR_PRECEDENCE_UNARY: i8 = 16;
pub const OPERATOR_PRECEDENCE_UPDATE: i8 = 17;
pub const OPERATOR_PRECEDENCE_LEFT_HAND_SIDE: i8 = 18;
pub const OPERATOR_PRECEDENCE_OPTIONAL_CHAIN: i8 = 19;
pub const OPERATOR_PRECEDENCE_MEMBER: i8 = 20;
pub const OPERATOR_PRECEDENCE_PRIMARY: i8 = 21;
pub const OPERATOR_PRECEDENCE_PARENTHESES: i8 = 22;
pub const OPERATOR_PRECEDENCE_LOWEST: i8 = 0;
pub const OPERATOR_PRECEDENCE_HIGHEST: i8 = 22;
pub const OPERATOR_PRECEDENCE_DISALLOW_COMMA: i8 = 1;

pub const TYPE_PRECEDENCE_CONDITIONAL: i8 = 0;
pub const TYPE_PRECEDENCE_JSDOC: i8 = 1;
pub const TYPE_PRECEDENCE_FUNCTION: i8 = 2;
pub const TYPE_PRECEDENCE_UNION: i8 = 3;
pub const TYPE_PRECEDENCE_INTERSECTION: i8 = 4;
pub const TYPE_PRECEDENCE_TYPE_OPERATOR: i8 = 5;
pub const TYPE_PRECEDENCE_POSTFIX: i8 = 6;
pub const TYPE_PRECEDENCE_NON_ARRAY: i8 = 7;
pub const TYPE_PRECEDENCE_LOWEST: i8 = 0;
pub const TYPE_PRECEDENCE_HIGHEST: i8 = 7;

/// The precedence a binary expression with operator `op` has.
pub open spec fn binary_operator_precedence(op: BinaryOperator) -> i8 {
    match op {
        BinaryOperator::Comma => OPERATOR_PRECEDENCE_COMMA,
        BinaryOperator::QuestionQuestion => OPERATOR_PRECEDENCE_COALESCE,
        BinaryOperator::BarBar => OPERATOR_PRECEDENCE_LOGICAL_OR,
        BinaryOperator::AmpersandAmpersand => OPERATOR_PRECEDENCE_LOGICAL_AND,
        BinaryOperator::Bar => OPERATOR_PRECEDENCE_BITWISE_OR,
        BinaryOperator::Caret => OPERATOR_PRECEDENCE_BITWISE_XOR,
        BinaryOperator::Ampersand => OPERATOR_PRECEDENCE_BITWISE_AND,
        BinaryOperator::EqualsEquals | BinaryOperator::ExclamationEquals
        | BinaryOperator::EqualsEqualsEquals
        | BinaryOperator::ExclamationEqualsEquals => OPERATOR_PRECEDENCE_EQUALITY,
        BinaryOperator::LessThan | BinaryOperator::GreaterThan | BinaryOperator::LessThanEquals
        | BinaryOperator::GreaterThanEquals | BinaryOperator::InstanceOf
        | BinaryOperator::In => OPERATOR_PRECEDENCE_RELATIONAL,
        BinaryOperator::LessThanLessThan | BinaryOperator::GreaterThanGreaterThan
        | BinaryOperator::GreaterThanGreaterThanGreaterThan => OPERATOR_PRECEDENCE_SHIFT,
        BinaryOperator::Plus | BinaryOperator::Minus => OPERATOR_PRECEDENCE_ADDITIVE,
        BinaryOperator::Asterisk | BinaryOperator::Slash
        | BinaryOperator::Percent => OPERATOR_PRECEDENCE_MULTIPLICATIVE,
        BinaryOperator::AsteriskAsterisk => OPERATOR_PRECEDENCE_EXPONENTIATION,
        _ => OPERATOR_PRECEDENCE_ASSIGNMENT,
    }
}

/// The precedence a binary expression with operator `op` has.
pub fn get_binary_operator_precedence(op: BinaryOperator) -> (r: i8)
    ensures
        r == binary_operator_precedence(op),
{
    match op {
        BinaryOperator::Comma => OPERATOR_PRECEDENCE_COMMA,
        BinaryOperator::QuestionQuestion => OPERATOR_PRECEDENCE_COALESCE,
        BinaryOperator::BarBar => OPERATOR_PRECEDENCE_LOGICAL_OR,
        BinaryOperator::AmpersandAmpersand => OPERATOR_PRECEDENCE_LOGICAL_AND,
        BinaryOperator::Bar => OPERATOR_PRECEDENCE_BITWISE_OR,
        BinaryOperator::Caret => OPERATOR_PRECEDENCE_BITWISE_XOR,
        BinaryOperator::Ampersand => OPERATOR_PRECEDENCE_BITWISE_AND,
        BinaryOperator::EqualsEquals | BinaryOperator::ExclamationEquals
        | BinaryOperator::EqualsEqualsEquals
        | BinaryOperator::ExclamationEqualsEquals => OPERATOR_PRECEDENCE_EQUALITY,
        BinaryOperator::LessThan | BinaryOperator::GreaterThan | BinaryOperator::LessThanEquals
        | BinaryOperator::GreaterThanEquals | BinaryOperator::InstanceOf
        | BinaryOperator::In => OPERATOR_PRECEDENCE_RELATIONAL,
        BinaryOperator::LessThanLessThan | BinaryOperator::GreaterThanGreaterThan
        | BinaryOperator::GreaterThanGreaterThanGreaterThan => OPERATOR_PRECEDENCE_SHIFT,
        BinaryOperator::Plus | BinaryOperator::Minus => OPERATOR_PRECEDENCE_ADDITIVE,
        BinaryOperator::Asterisk | BinaryOperator::Slash
        | BinaryOperator::Percent => OPERATOR_PRECEDENCE_MULTIPLICATIVE,
        BinaryOperator::AsteriskAsterisk => OPERATOR_PRECEDENCE_EXPONENTIATION,
        _ => OPERATOR_PRECEDENCE_ASSIGNMENT,
    }
}

/// The precedence of an expression node: how tightly it binds, so that an
/// operand position asking for more gets it wrapped in parentheses; -1 for a
/// node that is not an expression.
pub open spec fn expression_precedence(n: Node) -> i8 {
    match n {
        Node::Identifier(_) | Node::NumericLiteral(_) | Node::KeywordExpression(_)
        | Node::NoSubstitutionTemplateLiteral(_) | Node::StringLiteral { .. } | Node::BigIntLiteral(_)
        | Node::RegularExpressionLiteral(_) | Node::PrivateIdentifier(_)
        | Node::TemplateExpression { .. } | Node::JsxElement { .. }
        | Node::JsxSelfClosingElement { .. } | Node::JsxFragment { .. } | Node::OmittedExpression
        | Node::ParenthesizedExpression(_) | Node::FunctionExpression { .. }
        | Node::ClassExpression { .. } | Node::ObjectLiteralExpression { .. }
        | Node::ArrayLiteralExpression { .. } => OPERATOR_PRECEDENCE_PRIMARY,
        Node::ArrowFunction { .. } => OPERATOR_PRECEDENCE_ASSIGNMENT,
        Node::BinaryExpression { operator, .. } => binary_operator_precedence(operator),
        Node::ConditionalExpression { .. } => OPERATOR_PRECEDENCE_CONDITIONAL,
        Node::YieldExpression { .. } => OPERATOR_PRECEDENCE_YIELD,
        Node::SpreadElement(_) => OPERATOR_PRECEDENCE_SPREAD,
        Node::PrefixUnaryExpression { .. } | Node::DeleteExpression(_) | Node::VoidExpression(_)
        | Node::TypeOfExpression(_) | Node::AwaitExpression(_) | Node::NonNullExpression(_)
        | Node::TypeAssertionExpression { .. } => OPERATOR_PRECEDENCE_UNARY,
        Node::PostfixUnaryExpression { .. } => OPERATOR_PRECEDENCE_UPDATE,
        Node::NewExpression { arguments, .. } => if arguments is Some {
            OPERATOR_PRECEDENCE_MEMBER
        } else {
            OPERATOR_PRECEDENCE_LEFT_HAND_SIDE
        },
        Node::PropertyAccessExpression { optional_chain, .. }
        | Node::ElementAccessExpression { optional_chain, .. }
        | Node::CallExpression { optional_chain, .. } => if optional_chain {
            OPERATOR_PRECEDENCE_OPTIONAL_CHAIN
        } else {
            OPERATOR_PRECEDENCE_MEMBER
        },
        Node::TaggedTemplateExpression { .. }
        | Node::ExpressionWithTypeArguments { .. }
        | Node::MetaProperty { .. } => OPERATOR_PRECEDENCE_MEMBER,
        Node::AsExpression { .. } | Node::SatisfiesExpression { .. } => OPERATOR_PRECEDENCE_RELATIONAL,
        _ => OPERATOR_PRECEDENCE_INVALID,
    }
}

/// The precedence of an expression node, as `expression_precedence` states.
pub fn get_expression_precedence(n: &Node) -> (r: i8)
    ensures
        r == expression_precedence(*n),
{
    match n {
        Node::Identifier(_) | Node::NumericLiteral(_) | Node::KeywordExpression(_)
        | Node::NoSubstitutionTemplateLiteral(_) | Node::StringLiteral { .. } | Node::BigIntLiteral(_)
        | Node::RegularExpressionLiteral(_) | Node::PrivateIdentifier(_)
        | Node::TemplateExpression { .. } | Node::JsxElement { .. }
        | Node::JsxSelfClosingElement { .. } | Node::JsxFragment { .. } | Node::OmittedExpression
        | Node::ParenthesizedExpression(_) | Node::FunctionExpression { .. }
        | Node::ClassExpression { .. } | Node::ObjectLiteralExpression { .. }
        | Node::ArrayLiteralExpression { .. } => OPERATOR_PRECEDENCE_PRIMARY,
        Node::ArrowFunction { .. } => OPERATOR_PRECEDENCE_ASSIGNMENT,
        Node::BinaryExpression { operator, .. } => get_binary_operator_precedence(*operator),
        Node::ConditionalExpression { .. } => OPERATOR_PRECEDENCE_CONDITIONAL,
        Node::YieldExpression { .. } => OPERATOR_PRECEDENCE_YIELD,
        Node::SpreadElement(_) => OPERATOR_PRECEDENCE_SPREAD,
        Node::PrefixUnaryExpression { .. } | Node::DeleteExpression(_) | Node::VoidExpression(_)
        | Node::TypeOfExpression(_) | Node::AwaitExpression(_) | Node::NonNullExpression(_)
        | Node::TypeAssertionExpression { .. } => OPERATOR_PRECEDENCE_UNARY,
        Node::PostfixUnaryExpression { .. } => OPERATOR_PRECEDENCE_UPDATE,
        Node::NewExpression { arguments, .. } => if arguments.is_some() {
            OPERATOR_PRECEDENCE_MEMBER
        } else {
            OPERATOR_PRECEDENCE_LEFT_HAND_SIDE
        },
        Node::PropertyAccessExpression { optional_chain, .. }
        | Node::ElementAccessExpression { optional_chain, .. }
        | Node::CallExpression { optional_chain, .. } => if *optional_chain {
            OPERATOR_PRECEDENCE_OPTIONAL_CHAIN
        } else {
            OPERATOR_PRECEDENCE_MEMBER
        },
        Node::TaggedTemplateExpression { .. }
        | Node::ExpressionWithTypeArguments { .. }
        | Node::MetaProperty { .. } => OPERATOR_PRECEDENCE_MEMBER,
        Node::AsExpression { .. } | Node::SatisfiesExpression { .. } => OPERATOR_PRECEDENCE_RELATIONAL,
        _ => OPERATOR_PRECEDENCE_INVALID,
    }
}

/// The precedence of a type node, as an operand position compares it.
pub open spec fn type_node_precedence(n: Node) -> i8 {
    match n {
        Node::ConditionalType { .. } => TYPE_PRECEDENCE_CONDITIONAL,
        Node::FunctionType { .. } => TYPE_PRECEDENCE_FUNCTION,
        Node::UnionType(_) => TYPE_PRECEDENCE_UNION,
        Node::IntersectionType(_) => TYPE_PRECEDENCE_INTERSECTION,
        Node::TypeOperator { .. } | Node::TypeQuery { .. } => TYPE_PRECEDENCE_TYPE_OPERATOR,
        Node::InferType { constraint, .. } => if constraint is Some {
            TYPE_PRECEDENCE_FUNCTION
        } else {
            TYPE_PRECEDENCE_TYPE_OPERATOR
        },
        Node::IndexedAccessType { .. } | Node::ArrayType(_) | Node::OptionalType(_)
        | Node::RestType(_) => TYPE_PRECEDENCE_POSTFIX,
        _ => TYPE_PRECEDENCE_NON_ARRAY,
    }
}

/// The precedence of a type node, as `type_node_precedence` states.
pub fn get_type_node_precedence(n: &Node) -> (r: i8)
    ensures
        r == type_node_precedence(*n),
{
    match n {
        Node::ConditionalType { .. } => TYPE_PRECEDENCE_CONDITIONAL,
        Node::FunctionType { .. } => TYPE_PRECEDENCE_FUNCTION,
        Node::UnionType(_) => TYPE_PRECEDENCE_UNION,
        Node::IntersectionType(_) => TYPE_PRECEDENCE_INTERSECTION,
        Node::TypeOperator { .. } | Node::TypeQuery { .. } => TYPE_PRECEDENCE_TYPE_OPERATOR,
        Node::InferType { constraint, .. } => if constraint.is_some() {
            TYPE_PRECEDENCE_FUNCTION
        } else {
            TYPE_PRECEDENCE_TYPE_OPERATOR
        },
        Node::IndexedAccessType { .. } | Node::ArrayType(_) | Node::OptionalType(_)
        | Node::RestType(_) => TYPE_PRECEDENCE_POSTFIX,
        _ => TYPE_PRECEDENCE_NON_ARRAY,
    }
}

/// Whether writing `inner` directly as an operand of `outer` mixes `??` with
/// `||` or `&&`, which the language forbids without parentheses.
pub open spec fn mixing_operators_requires_parentheses(outer: BinaryOperator, inner: BinaryOperator) -> bool {
    ||| (outer == BinaryOperator::QuestionQuestion && (inner == BinaryOperator::AmpersandAmpersand
        || inner == BinaryOperator::BarBar))
    ||| (inner == BinaryOperator::QuestionQuestion && (outer == BinaryOperator::AmpersandAmpersand
        || outer == BinaryOperator::BarBar))
}

/// Whether mixing `outer` and `inner` requires parentheses, as
/// `mixing_operators_requires_parentheses` states.
pub fn mixing_binary_operators_requires_parentheses(outer: BinaryOperator, inner: BinaryOperator) -> (r: bool)
    ensures
        r == mixing_operators_requires_parentheses(outer, inner),
{
    match outer {
        BinaryOperator::QuestionQuestion => match inner {
            BinaryOperator::AmpersandAmpersand | BinaryOperator::BarBar => true,
            _ => false,
        },
        BinaryOperator::AmpersandAmpersand | BinaryOperator::BarBar => match inner {
            BinaryOperator::QuestionQuestion => true,
            _ => false,
        },
        _ => false,
    }
}

/// Whether `n` is a binary expression with operator `op`.
pub open spec fn is_binary_with(n: Node, op: BinaryOperator) -> bool {
    n matches Node::BinaryExpression { operator, .. } && operator == op
}

/// The precedences the operands of a binary expression with operator `op` and
/// right operand `right` are written at, before the `??`-mixing rule: both equal
/// to the operator's, except that the right side binds one level tighter for
/// left-associative operators, assignment takes a conditional on the left and a
/// yield on the right, `**` wants an update expression on the left, and `*`
/// keeps a right `*` operand unparenthesized.
pub open spec fn binary_expression_precedence(op: BinaryOperator, right: Node) -> (i8, i8) {
    let p = binary_operator_precedence(op);
    if p == OPERATOR_PRECEDENCE_ASSIGNMENT {
        (OPERATOR_PRECEDENCE_CONDITIONAL, OPERATOR_PRECEDENCE_YIELD)
    } else if p == OPERATOR_PRECEDENCE_LOGICAL_OR {
        (p, OPERATOR_PRECEDENCE_LOGICAL_AND)
    } else if p == OPERATOR_PRECEDENCE_LOGICAL_AND {
        (p, OPERATOR_PRECEDENCE_BITWISE_OR)
    } else if p == OPERATOR_PRECEDENCE_EQUALITY {
        (p, OPERATOR_PRECEDENCE_RELATIONAL)
    } else if p == OPERATOR_PRECEDENCE_RELATIONAL {
        (p, OPERATOR_PRECEDENCE_SHIFT)
    } else if p == OPERATOR_PRECEDENCE_SHIFT {
        (p, OPERATOR_PRECEDENCE_ADDITIVE)
    } else if p == OPERATOR_PRECEDENCE_ADDITIVE {
        (p, OPERATOR_PRECEDENCE_MULTIPLICATIVE)
    } else if p == OPERATOR_PRECEDENCE_MULTIPLICATIVE {
        if op != BinaryOperator::Asterisk || !is_binary_with(right, BinaryOperator::Asterisk) {
            (p, OPERATOR_PRECEDENCE_EXPONENTIATION)
        } else {
            (p, p)
        }
    } else if p == OPERATOR_PRECEDENCE_EXPONENTIATION {
        (OPERATOR_PRECEDENCE_UPDATE, p)
    } else {
        (p, p)
    }
}

/// The precedences the operands of a binary expression are written at, as
/// `binary_expression_precedence` states.
pub fn get_binary_expression_precedence(op: BinaryOperator, right: &Node) -> (r: (i8, i8))
    ensures
        r == binary_expression_precedence(op, *right),
{
    let precedence = get_binary_operator_precedence(op);
    let mut left_precedence = precedence;
    let mut right_precedence = precedence;
    if precedence == OPERATOR_PRECEDENCE_ASSIGNMENT {
        left_precedence = OPERATOR_PRECEDENCE_CONDITIONAL;
        right_precedence = OPERATOR_PRECEDENCE_YIELD;
    } else if precedence == OPERATOR_PRECEDENCE_LOGICAL_OR {
        right_precedence = OPERATOR_PRECEDENCE_LOGICAL_AND;
    } else if precedence == OPERATOR_PRECEDENCE_LOGICAL_AND {
        right_precedence = OPERATOR_PRECEDENCE_BITWISE_OR;
    } else if precedence == OPERATOR_PRECEDENCE_EQUALITY {
        right_precedence = OPERATOR_PRECEDENCE_RELATIONAL;
    } else if precedence == OPERATOR_PRECEDENCE_RELATIONAL {
        right_precedence = OPERATOR_PRECEDENCE_SHIFT;
    } else if precedence == OPERATOR_PRECEDENCE_SHIFT {
        right_precedence = OPERATOR_PRECEDENCE_ADDITIVE;
    } else if precedence == OPERATOR_PRECEDENCE_ADDITIVE {
        right_precedence = OPERATOR_PRECEDENCE_MULTIPLICATIVE;
    } else if precedence == OPERATOR_PRECEDENCE_MULTIPLICATIVE {
        let right_is_asterisk = match right {
            Node::BinaryExpression { operator, .. } => match operator {
                BinaryOperator::Asterisk => true,
                _ => false,
            },
            _ => false,
        };
        let op_is_asterisk = match op {
            BinaryOperator::Asterisk => true,
            _ => false,
        };
        if !op_is_asterisk || !right_is_asterisk {
            right_precedence = OPERATOR_PRECEDENCE_EXPONENTIATION;
        }
    } else if precedence == OPERATOR_PRECEDENCE_EXPONENTIATION {
        left_precedence = OPERATOR_PRECEDENCE_UPDATE;
    }
    (left_precedence, right_precedence)
}

/// The precedences the operands of a binary expression are written at: those of
/// `binary_expression_precedence`, raised to the highest on a side whose operand
/// is a binary expression whose operator may not be mixed with `op` unwrapped.
pub open spec fn binary_operand_precedences(left: Node, op: BinaryOperator, right: Node) -> (i8, i8) {
    let (l, r) = binary_expression_precedence(op, right);
    let l2 = if left matches Node::BinaryExpression { operator, .. }
        && mixing_operators_requires_parentheses(op, operator) {
        OPERATOR_PRECEDENCE_HIGHEST
    } else {
        l
    };
    let r2 = if right matches Node::BinaryExpression { operator, .. }
        && mixing_operators_requires_parentheses(op, operator) {
        OPERATOR_PRECEDENCE_HIGHEST
    } else {
        r
    };
    (l2, r2)
}

/// The expression at the left end of `n`: following left operands, conditions,
/// tags, and the objects of member accesses, calls and assertions.
pub open spec fn leftmost_expression(n: Node) -> Node
    decreases n,
{
    match n {
        Node::PostfixUnaryExpression { operand, .. } => leftmost_expression(*operand),
        Node::BinaryExpression { left, .. } => leftmost_expression(*left),
        Node::ConditionalExpression { condition, .. } => leftmost_expression(*condition),
        Node::TaggedTemplateExpression { tag, .. } => leftmost_expression(*tag),
        Node::CallExpression { expression, .. } | Node::AsExpression { expression, .. }
        | Node::ElementAccessExpression { expression, .. }
        | Node::PropertyAccessExpression { expression, .. }
        | Node::SatisfiesExpression { expression, .. } => leftmost_expression(*expression),
        Node::NonNullExpression(expression) => leftmost_expression(*expression),
        _ => n,
    }
}

/// Whether the leftmost expression of `n` is a function or object literal,
/// which must not begin a statement.
pub open spec fn leftmost_is_function_or_object_literal(n: Node) -> bool {
    leftmost_expression(n) is FunctionExpression || leftmost_expression(n) is ObjectLiteralExpression
}

/// Whether the leftmost expression of `n` is a class or function expression,
/// which must not follow `export default` unwrapped.
pub open spec fn leftmost_is_class_or_function(n: Node) -> bool {
    leftmost_expression(n) is ClassExpression || leftmost_expression(n) is FunctionExpression
}

/// Finds the expression at the left end of `n`, as `leftmost_expression` states.
pub fn get_leftmost_expression(n: &Node) -> (r: &Node)
    ensures
        *r == leftmost_expression(*n),
    decreases n,
{
    match n {
        Node::PostfixUnaryExpression { operand, .. } => get_leftmost_expression(operand),
        Node::BinaryExpression { left, .. } => get_leftmost_expression(left),
        Node::ConditionalExpression { condition, .. } => get_leftmost_expression(condition),
        Node::TaggedTemplateExpression { tag, .. } => get_leftmost_expression(tag),
        Node::CallExpression { expression, .. } => get_leftmost_expression(expression),
        Node::AsExpression { expression, .. } => get_leftmost_expression(expression),
        Node::ElementAccessExpression { expression, .. } => get_leftmost_expression(expression),
        Node::PropertyAccessExpression { expression, .. } => get_leftmost_expression(expression),
        Node::SatisfiesExpression { expression, .. } => get_leftmost_expression(expression),
        Node::NonNullExpression(expression) => get_leftmost_expression(expression),
        _ => n,
    }
}

/// Whether `n` is a `new` expression written without an argument list.
pub open spec fn is_new_without_arguments(n: Node) -> bool {
    n matches Node::NewExpression { arguments, .. } && arguments is None
}

/// Whether `n` is a `new` expression written without an argument list.
pub fn is_new_expression_without_arguments(n: &Node) -> (r: bool)
    ensures
        r == is_new_without_arguments(*n),
{
    match n {
        Node::NewExpression { arguments, .. } => arguments.is_none(),
        _ => false,
    }
}

/// Whether `n` is a binary expression with operator `op`, as `is_binary_with`
/// states.
pub fn is_binary_expression_with(n: &Node, op: BinaryOperator) -> (r: bool)
    ensures
        r == is_binary_with(*n, op),
{
    match n {
        Node::BinaryExpression { operator, .. } => *operator == op,
        _ => false,
    }
}

/// The precedences the operands of a binary expression are written at, as
/// `binary_operand_precedences` states.
pub fn get_binary_operand_precedences(left: &Node, op: BinaryOperator, right: &Node) -> (r: (i8, i8))
    ensures
        r == binary_operand_precedences(*left, op, *right),
{
    let (l, r) = get_binary_expression_precedence(op, right);
    let left_precedence = match left {
        Node::BinaryExpression { operator, .. } => if mixing_binary_operators_requires_parentheses(
            op,
            *operator,
        ) {
            OPERATOR_PRECEDENCE_HIGHEST
        } else {
            l
        },
        _ => l,
    };
    let right_precedence = match right {
        Node::BinaryExpression { operator, .. } => if mixing_binary_operators_requires_parentheses(
            op,
            *operator,
        ) {
            OPERATOR_PRECEDENCE_HIGHEST
        } else {
            r
        },
        _ => r,
    };
    (left_precedence, right_precedence)
}

/// Whether the leftmost expression of `n` is a function or object literal, as
/// `leftmost_is_function_or_object_literal` states.
pub fn starts_with_function_or_object_literal(n: &Node) -> (r: bool)
    ensures
        r == leftmost_is_function_or_object_literal(*n),
{
    match get_leftmost_expression(n) {
        Node::FunctionExpression { .. } | Node::ObjectLiteralExpression { .. } => true,
        _ => false,
    }
}

/// Whether the leftmost expression of `n` is a class or function expression, as
/// `leftmost_is_class_or_function` states.
pub fn starts_with_class_or_function(n: &Node) -> (r: bool)
    ensures
        r == leftmost_is_class_or_function(*n),
{
    match get_leftmost_expression(n) {
        Node::ClassExpression { .. } | Node::FunctionExpression { .. } => true,
        _ => false,
    }
}

} // verus!
