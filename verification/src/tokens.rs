use vstd::prelude::*;
use crate::ast::{BinaryOperator, ExpressionKeyword, ModifierKind, PostfixOperator, PrefixOperator, TypeKeyword, TypeOperatorKind};

verus! {

/// The text of a binary operator.
pub open spec fn binary_operator_text(k: BinaryOperator) -> Seq<char> {
    match k {
        BinaryOperator::Comma => ","@,
        BinaryOperator::Equals => "="@,
        BinaryOperator::PlusEquals => "+="@,
        BinaryOperator::MinusEquals => "-="@,
        BinaryOperator::AsteriskEquals => "*="@,
        BinaryOperator::AsteriskAsteriskEquals => "**="@,
        BinaryOperator::SlashEquals => "/="@,
        BinaryOperator::PercentEquals => "%="@,
        BinaryOperator::LessThanLessThanEquals => "<<="@,
        BinaryOperator::GreaterThanGreaterThanEquals => ">>="@,
        BinaryOperator::GreaterThanGreaterThanGreaterThanEquals => ">>>="@,
        BinaryOperator::AmpersandEquals => "&="@,
        BinaryOperator::BarEquals => "|="@,
        BinaryOperator::CaretEquals => "^="@,
        BinaryOperator::AmpersandAmpersandEquals => "&&="@,
        BinaryOperator::BarBarEquals => "||="@,
        BinaryOperator::QuestionQuestionEquals => "??="@,
        BinaryOperator::QuestionQuestion => "??"@,
        BinaryOperator::BarBar => "||"@,
        BinaryOperator::AmpersandAmpersand => "&&"@,
        BinaryOperator::Bar => "|"@,
        BinaryOperator::Caret => "^"@,
        BinaryOperator::Ampersand => "&"@,
        BinaryOperator::EqualsEquals => "=="@,
        BinaryOperator::ExclamationEquals => "!="@,
        BinaryOperator::EqualsEqualsEquals => "==="@,
        BinaryOperator::ExclamationEqualsEquals => "!=="@,
        BinaryOperator::LessThan => "<"@,
        BinaryOperator::GreaterThan => ">"@,
        BinaryOperator::LessThanEquals => "<="@,
        BinaryOperator::GreaterThanEquals => ">="@,
        BinaryOperator::InstanceOf => "instanceof"@,
        BinaryOperator::In => "in"@,
        BinaryOperator::LessThanLessThan => "<<"@,
        BinaryOperator::GreaterThanGreaterThan => ">>"@,
        BinaryOperator::GreaterThanGreaterThanGreaterThan => ">>>"@,
        BinaryOperator::Plus => "+"@,
        BinaryOperator::Minus => "-"@,
        BinaryOperator::Asterisk => "*"@,
        BinaryOperator::Slash => "/"@,
        BinaryOperator::Percent => "%"@,
        BinaryOperator::AsteriskAsterisk => "**"@,
    }
}

/// The text of a binary operator.
pub fn get_binary_operator_text(k: BinaryOperator) -> (r: &'static str)
    ensures
        r@ == binary_operator_text(k),
{
    match k {
        BinaryOperator::Comma => ",",
        BinaryOperator::Equals => "=",
        BinaryOperator::PlusEquals => "+=",
        BinaryOperator::MinusEquals => "-=",
        BinaryOperator::AsteriskEquals => "*=",
        BinaryOperator::AsteriskAsteriskEquals => "**=",
        BinaryOperator::SlashEquals => "/=",
        BinaryOperator::PercentEquals => "%=",
        BinaryOperator::LessThanLessThanEquals => "<<=",
        BinaryOperator::GreaterThanGreaterThanEquals => ">>=",
        BinaryOperator::GreaterThanGreaterThanGreaterThanEquals => ">>>=",
        BinaryOperator::AmpersandEquals => "&=",
        BinaryOperator::BarEquals => "|=",
        BinaryOperator::CaretEquals => "^=",
        BinaryOperator::AmpersandAmpersandEquals => "&&=",
        BinaryOperator::BarBarEquals => "||=",
        BinaryOperator::QuestionQuestionEquals => "??=",
        BinaryOperator::QuestionQuestion => "??",
        BinaryOperator::BarBar => "||",
        BinaryOperator::AmpersandAmpersand => "&&",
        BinaryOperator::Bar => "|",
        BinaryOperator::Caret => "^",
        BinaryOperator::Ampersand => "&",
        BinaryOperator::EqualsEquals => "==",
        BinaryOperator::ExclamationEquals => "!=",
        BinaryOperator::EqualsEqualsEquals => "===",
        BinaryOperator::ExclamationEqualsEquals => "!==",
        BinaryOperator::LessThan => "<",
        BinaryOperator::GreaterThan => ">",
        BinaryOperator::LessThanEquals => "<=",
        BinaryOperator::GreaterThanEquals => ">=",
        BinaryOperator::InstanceOf => "instanceof",
        BinaryOperator::In => "in",
        BinaryOperator::LessThanLessThan => "<<",
        BinaryOperator::GreaterThanGreaterThan => ">>",
        BinaryOperator::GreaterThanGreaterThanGreaterThan => ">>>",
        BinaryOperator::Plus => "+",
        BinaryOperator::Minus => "-",
        BinaryOperator::Asterisk => "*",
        BinaryOperator::Slash => "/",
        BinaryOperator::Percent => "%",
        BinaryOperator::AsteriskAsterisk => "**",
    }
}

/// The text of a prefix operator.
pub open spec fn prefix_operator_text(k: PrefixOperator) -> Seq<char> {
    match k {
        PrefixOperator::Plus => "+"@,
        PrefixOperator::Minus => "-"@,
        PrefixOperator::Tilde => "~"@,
        PrefixOperator::Exclamation => "!"@,
        PrefixOperator::PlusPlus => "++"@,
        PrefixOperator::MinusMinus => "--"@,
    }
}

/// The text of a prefix operator.
pub fn get_prefix_operator_text(k: PrefixOperator) -> (r: &'static str)
    ensures
        r@ == prefix_operator_text(k),
{
    match k {
        PrefixOperator::Plus => "+",
        PrefixOperator::Minus => "-",
        PrefixOperator::Tilde => "~",
        PrefixOperator::Exclamation => "!",
        PrefixOperator::PlusPlus => "++",
        PrefixOperator::MinusMinus => "--",
    }
}

/// The text of a postfix operator.
pub open spec fn postfix_operator_text(k: PostfixOperator) -> Seq<char> {
    match k {
        PostfixOperator::PlusPlus => "++"@,
        PostfixOperator::MinusMinus => "--"@,
    }
}

/// The text of a postfix operator.
pub fn get_postfix_operator_text(k: PostfixOperator) -> (r: &'static str)
    ensures
        r@ == postfix_operator_text(k),
{
    match k {
        PostfixOperator::PlusPlus => "++",
        PostfixOperator::MinusMinus => "--",
    }
}

/// The text of a keyword expression.
pub open spec fn expression_keyword_text(k: ExpressionKeyword) -> Seq<char> {
    match k {
        ExpressionKeyword::This => "this"@,
        ExpressionKeyword::Super => "super"@,
        ExpressionKeyword::Null => "null"@,
        ExpressionKeyword::True => "true"@,
        ExpressionKeyword::False => "false"@,
        ExpressionKeyword::Import => "import"@,
    }
}

/// The text of a keyword expression.
pub fn get_expression_keyword_text(k: ExpressionKeyword) -> (r: &'static str)
    ensures
        r@ == expression_keyword_text(k),
{
    match k {
        ExpressionKeyword::This => "this",
        ExpressionKeyword::Super => "super",
        ExpressionKeyword::Null => "null",
        ExpressionKeyword::True => "true",
        ExpressionKeyword::False => "false",
        ExpressionKeyword::Import => "import",
    }
}

/// The text of a keyword type.
pub open spec fn type_keyword_text(k: TypeKeyword) -> Seq<char> {
    match k {
        TypeKeyword::Any => "any"@,
        TypeKeyword::Unknown => "unknown"@,
        TypeKeyword::Number => "number"@,
        TypeKeyword::BigInt => "bigint"@,
        TypeKeyword::Object => "object"@,
        TypeKeyword::Boolean => "boolean"@,
        TypeKeyword::String => "string"@,
        TypeKeyword::Symbol => "symbol"@,
        TypeKeyword::Void => "void"@,
        TypeKeyword::Undefined => "undefined"@,
        TypeKeyword::Never => "never"@,
        TypeKeyword::This => "this"@,
        TypeKeyword::Intrinsic => "intrinsic"@,
    }
}

/// The text of a keyword type.
pub fn get_type_keyword_text(k: TypeKeyword) -> (r: &'static str)
    ensures
        r@ == type_keyword_text(k),
{
    match k {
        TypeKeyword::Any => "any",
        TypeKeyword::Unknown => "unknown",
        TypeKeyword::Number => "number",
        TypeKeyword::BigInt => "bigint",
        TypeKeyword::Object => "object",
        TypeKeyword::Boolean => "boolean",
        TypeKeyword::String => "string",
        TypeKeyword::Symbol => "symbol",
        TypeKeyword::Void => "void",
        TypeKeyword::Undefined => "undefined",
        TypeKeyword::Never => "never",
        TypeKeyword::This => "this",
        TypeKeyword::Intrinsic => "intrinsic",
    }
}

/// The keyword of a type operator.
pub open spec fn type_operator_text(k: TypeOperatorKind) -> Seq<char> {
    match k {
        TypeOperatorKind::KeyOf => "keyof"@,
        TypeOperatorKind::Unique => "unique"@,
        TypeOperatorKind::Readonly => "readonly"@,
    }
}

/// The keyword of a type operator.
pub fn get_type_operator_text(k: TypeOperatorKind) -> (r: &'static str)
    ensures
        r@ == type_operator_text(k),
{
    match k {
        TypeOperatorKind::KeyOf => "keyof",
        TypeOperatorKind::Unique => "unique",
        TypeOperatorKind::Readonly => "readonly",
    }
}

/// The keyword of a modifier.
pub open spec fn modifier_text(k: ModifierKind) -> Seq<char> {
    match k {
        ModifierKind::Export => "export"@,
        ModifierKind::Default => "default"@,
        ModifierKind::Declare => "declare"@,
        ModifierKind::Abstract => "abstract"@,
        ModifierKind::Public => "public"@,
        ModifierKind::Private => "private"@,
        ModifierKind::Protected => "protected"@,
        ModifierKind::Static => "static"@,
        ModifierKind::Readonly => "readonly"@,
        ModifierKind::Override => "override"@,
        ModifierKind::Async => "async"@,
        ModifierKind::Const => "const"@,
        ModifierKind::Accessor => "accessor"@,
        ModifierKind::In => "in"@,
        ModifierKind::Out => "out"@,
    }
}

/// The keyword of a modifier.
pub fn get_modifier_text(k: ModifierKind) -> (r: &'static str)
    ensures
        r@ == modifier_text(k),
{
    match k {
        ModifierKind::Export => "export",
        ModifierKind::Default => "default",
        ModifierKind::Declare => "declare",
        ModifierKind::Abstract => "abstract",
        ModifierKind::Public => "public",
        ModifierKind::Private => "private",
        ModifierKind::Protected => "protected",
        ModifierKind::Static => "static",
        ModifierKind::Readonly => "readonly",
        ModifierKind::Override => "override",
        ModifierKind::Async => "async",
        ModifierKind::Const => "const",
        ModifierKind::Accessor => "accessor",
        ModifierKind::In => "in",
        ModifierKind::Out => "out",
    }
}

} // verus!
