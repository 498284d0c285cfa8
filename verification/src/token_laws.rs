use vstd::prelude::*;
use crate::ast::{BinaryOperator, ExpressionKeyword, ModifierKind, PostfixOperator, PrefixOperator, TypeKeyword, TypeOperatorKind};
use crate::tokens::{binary_operator_text, expression_keyword_text, modifier_text, postfix_operator_text, prefix_operator_text, type_keyword_text, type_operator_text};

verus! {

/// The binary operator a token spells, as a scanner reads the characters of
/// an operator token or of an operator keyword; `None` for any other text.
pub open spec fn binary_operator_spelled(s: Seq<char>) -> Option<BinaryOperator> {
    if s.len() == 0 {
        Option::None
    } else if s.len() == 1 {
        if s[0] == ',' {
            Option::Some(BinaryOperator::Comma)
        } else if s[0] == '=' {
            Option::Some(BinaryOperator::Equals)
        } else if s[0] == '|' {
            Option::Some(BinaryOperator::Bar)
        } else if s[0] == '^' {
            Option::Some(BinaryOperator::Caret)
        } else if s[0] == '&' {
            Option::Some(BinaryOperator::Ampersand)
        } else if s[0] == '<' {
            Option::Some(BinaryOperator::LessThan)
        } else if s[0] == '>' {
            Option::Some(BinaryOperator::GreaterThan)
        } else if s[0] == '+' {
            Option::Some(BinaryOperator::Plus)
        } else if s[0] == '-' {
            Option::Some(BinaryOperator::Minus)
        } else if s[0] == '*' {
            Option::Some(BinaryOperator::Asterisk)
        } else if s[0] == '/' {
            Option::Some(BinaryOperator::Slash)
        } else if s[0] == '%' {
            Option::Some(BinaryOperator::Percent)
        } else {
            Option::None
        }
    } else if s.len() == 2 {
        if s[0] == '+' && s[1] == '=' {
            Option::Some(BinaryOperator::PlusEquals)
        } else if s[0] == '-' && s[1] == '=' {
            Option::Some(BinaryOperator::MinusEquals)
        } else if s[0] == '*' && s[1] == '=' {
            Option::Some(BinaryOperator::AsteriskEquals)
        } else if s[0] == '/' && s[1] == '=' {
            Option::Some(BinaryOperator::SlashEquals)
        } else if s[0] == '%' && s[1] == '=' {
            Option::Some(BinaryOperator::PercentEquals)
        } else if s[0] == '&' && s[1] == '=' {
            Option::Some(BinaryOperator::AmpersandEquals)
        } else if s[0] == '|' && s[1] == '=' {
            Option::Some(BinaryOperator::BarEquals)
        } else if s[0] == '^' && s[1] == '=' {
            Option::Some(BinaryOperator::CaretEquals)
        } else if s[0] == '?' && s[1] == '?' {
            Option::Some(BinaryOperator::QuestionQuestion)
        } else if s[0] == '|' && s[1] == '|' {
            Option::Some(BinaryOperator::BarBar)
        } else if s[0] == '&' && s[1] == '&' {
            Option::Some(BinaryOperator::AmpersandAmpersand)
        } else if s[0] == '=' && s[1] == '=' {
            Option::Some(BinaryOperator::EqualsEquals)
        } else if s[0] == '!' && s[1] == '=' {
            Option::Some(BinaryOperator::ExclamationEquals)
        } else if s[0] == '<' && s[1] == '=' {
            Option::Some(BinaryOperator::LessThanEquals)
        } else if s[0] == '>' && s[1] == '=' {
            Option::Some(BinaryOperator::GreaterThanEquals)
        } else if s[0] == 'i' && s[1] == 'n' {
            Option::Some(BinaryOperator::In)
        } else if s[0] == '<' && s[1] == '<' {
            Option::Some(BinaryOperator::LessThanLessThan)
        } else if s[0] == '>' && s[1] == '>' {
            Option::Some(BinaryOperator::GreaterThanGreaterThan)
        } else if s[0] == '*' && s[1] == '*' {
            Option::Some(BinaryOperator::AsteriskAsterisk)
        } else {
            Option::None
        }
    } else if s.len() == 3 {
        if s[0] == '*' && s[1] == '*' && s[2] == '=' {
            Option::Some(BinaryOperator::AsteriskAsteriskEquals)
        } else if s[0] == '<' && s[1] == '<' && s[2] == '=' {
            Option::Some(BinaryOperator::LessThanLessThanEquals)
        } else if s[0] == '>' && s[1] == '>' && s[2] == '=' {
            Option::Some(BinaryOperator::GreaterThanGreaterThanEquals)
        } else if s[0] == '&' && s[1] == '&' && s[2] == '=' {
            Option::Some(BinaryOperator::AmpersandAmpersandEquals)
        } else if s[0] == '|' && s[1] == '|' && s[2] == '=' {
            Option::Some(BinaryOperator::BarBarEquals)
        } else if s[0] == '?' && s[1] == '?' && s[2] == '=' {
            Option::Some(BinaryOperator::QuestionQuestionEquals)
        } else if s[0] == '=' && s[1] == '=' && s[2] == '=' {
            Option::Some(BinaryOperator::EqualsEqualsEquals)
        } else if s[0] == '!' && s[1] == '=' && s[2] == '=' {
            Option::Some(BinaryOperator::ExclamationEqualsEquals)
        } else if s[0] == '>' && s[1] == '>' && s[2] == '>' {
            Option::Some(BinaryOperator::GreaterThanGreaterThanGreaterThan)
        } else {
            Option::None
        }
    } else if s.len() == 4 {
        if s[0] == '>' && s[1] == '>' && s[2] == '>' && s[3] == '=' {
            Option::Some(BinaryOperator::GreaterThanGreaterThanGreaterThanEquals)
        } else {
            Option::None
        }
    } else if s.len() == 10 {
        if s[0] == 'i' && s[1] == 'n' && s[2] == 's' && s[3] == 't' && s[4] == 'a' && s[5] == 'n' && s[6] == 'c' && s[7] == 'e' && s[8] == 'o' && s[9] == 'f' {
            Option::Some(BinaryOperator::InstanceOf)
        } else {
            Option::None
        }
    } else {
        Option::None
    }
}

/// The text written for a binary operator is that operator's own token:
/// reading it back gives the same operator.
pub proof fn lemma_binary_operator_text_reads_back(k: BinaryOperator)
    ensures
        binary_operator_spelled(binary_operator_text(k)) == Option::Some(k),
{
    match k {
        BinaryOperator::Comma => {
            reveal_strlit(",");
            assert(binary_operator_text(k) =~= seq![',']);
        },
        BinaryOperator::Equals => {
            reveal_strlit("=");
            assert(binary_operator_text(k) =~= seq!['=']);
        },
        BinaryOperator::PlusEquals => {
            reveal_strlit("+=");
            assert(binary_operator_text(k) =~= seq!['+', '=']);
        },
        BinaryOperator::MinusEquals => {
            reveal_strlit("-=");
            assert(binary_operator_text(k) =~= seq!['-', '=']);
        },
        BinaryOperator::AsteriskEquals => {
            reveal_strlit("*=");
            assert(binary_operator_text(k) =~= seq!['*', '=']);
        },
        BinaryOperator::AsteriskAsteriskEquals => {
            reveal_strlit("**=");
            assert(binary_operator_text(k) =~= seq!['*', '*', '=']);
        },
        BinaryOperator::SlashEquals => {
            reveal_strlit("/=");
            assert(binary_operator_text(k) =~= seq!['/', '=']);
        },
        BinaryOperator::PercentEquals => {
            reveal_strlit("%=");
            assert(binary_operator_text(k) =~= seq!['%', '=']);
        },
        BinaryOperator::LessThanLessThanEquals => {
            reveal_strlit("<<=");
            assert(binary_operator_text(k) =~= seq!['<', '<', '=']);
        },
        BinaryOperator::GreaterThanGreaterThanEquals => {
            reveal_strlit(">>=");
            assert(binary_operator_text(k) =~= seq!['>', '>', '=']);
        },
        BinaryOperator::GreaterThanGreaterThanGreaterThanEquals => {
            reveal_strlit(">>>=");
            assert(binary_operator_text(k) =~= seq!['>', '>', '>', '=']);
        },
        BinaryOperator::AmpersandEquals => {
            reveal_strlit("&=");
            assert(binary_operator_text(k) =~= seq!['&', '=']);
        },
        BinaryOperator::BarEquals => {
            reveal_strlit("|=");
            assert(binary_operator_text(k) =~= seq!['|', '=']);
        },
        BinaryOperator::CaretEquals => {
            reveal_strlit("^=");
            assert(binary_operator_text(k) =~= seq!['^', '=']);
        },
        BinaryOperator::AmpersandAmpersandEquals => {
            reveal_strlit("&&=");
            assert(binary_operator_text(k) =~= seq!['&', '&', '=']);
        },
        BinaryOperator::BarBarEquals => {
            reveal_strlit("||=");
            assert(binary_operator_text(k) =~= seq!['|', '|', '=']);
        },
        BinaryOperator::QuestionQuestionEquals => {
            reveal_strlit("??=");
            assert(binary_operator_text(k) =~= seq!['?', '?', '=']);
        },
        BinaryOperator::QuestionQuestion => {
            reveal_strlit("??");
            assert(binary_operator_text(k) =~= seq!['?', '?']);
        },
        BinaryOperator::BarBar => {
            reveal_strlit("||");
            assert(binary_operator_text(k) =~= seq!['|', '|']);
        },
        BinaryOperator::AmpersandAmpersand => {
            reveal_strlit("&&");
            assert(binary_operator_text(k) =~= seq!['&', '&']);
        },
        BinaryOperator::Bar => {
            reveal_strlit("|");
            assert(binary_operator_text(k) =~= seq!['|']);
        },
        BinaryOperator::Caret => {
            reveal_strlit("^");
            assert(binary_operator_text(k) =~= seq!['^']);
        },
        BinaryOperator::Ampersand => {
            reveal_strlit("&");
            assert(binary_operator_text(k) =~= seq!['&']);
        },
        BinaryOperator::EqualsEquals => {
            reveal_strlit("==");
            assert(binary_operator_text(k) =~= seq!['=', '=']);
        },
        BinaryOperator::ExclamationEquals => {
            reveal_strlit("!=");
            assert(binary_operator_text(k) =~= seq!['!', '=']);
        },
        BinaryOperator::EqualsEqualsEquals => {
            reveal_strlit("===");
            assert(binary_operator_text(k) =~= seq!['=', '=', '=']);
        },
        BinaryOperator::ExclamationEqualsEquals => {
            reveal_strlit("!==");
            assert(binary_operator_text(k) =~= seq!['!', '=', '=']);
        },
        BinaryOperator::LessThan => {
            reveal_strlit("<");
            assert(binary_operator_text(k) =~= seq!['<']);
        },
        BinaryOperator::GreaterThan => {
            reveal_strlit(">");
            assert(binary_operator_text(k) =~= seq!['>']);
        },
        BinaryOperator::LessThanEquals => {
            reveal_strlit("<=");
            assert(binary_operator_text(k) =~= seq!['<', '=']);
        },
        BinaryOperator::GreaterThanEquals => {
            reveal_strlit(">=");
            assert(binary_operator_text(k) =~= seq!['>', '=']);
        },
        BinaryOperator::InstanceOf => {
            reveal_strlit("instanceof");
            assert(binary_operator_text(k) =~= seq!['i', 'n', 's', 't', 'a', 'n', 'c', 'e', 'o', 'f']);
        },
        BinaryOperator::In => {
            reveal_strlit("in");
            assert(binary_operator_text(k) =~= seq!['i', 'n']);
        },
        BinaryOperator::LessThanLessThan => {
            reveal_strlit("<<");
            assert(binary_operator_text(k) =~= seq!['<', '<']);
        },
        BinaryOperator::GreaterThanGreaterThan => {
            reveal_strlit(">>");
            assert(binary_operator_text(k) =~= seq!['>', '>']);
        },
        BinaryOperator::GreaterThanGreaterThanGreaterThan => {
            reveal_strlit(">>>");
            assert(binary_operator_text(k) =~= seq!['>', '>', '>']);
        },
        BinaryOperator::Plus => {
            reveal_strlit("+");
            assert(binary_operator_text(k) =~= seq!['+']);
        },
        BinaryOperator::Minus => {
            reveal_strlit("-");
            assert(binary_operator_text(k) =~= seq!['-']);
        },
        BinaryOperator::Asterisk => {
            reveal_strlit("*");
            assert(binary_operator_text(k) =~= seq!['*']);
        },
        BinaryOperator::Slash => {
            reveal_strlit("/");
            assert(binary_operator_text(k) =~= seq!['/']);
        },
        BinaryOperator::Percent => {
            reveal_strlit("%");
            assert(binary_operator_text(k) =~= seq!['%']);
        },
        BinaryOperator::AsteriskAsterisk => {
            reveal_strlit("**");
            assert(binary_operator_text(k) =~= seq!['*', '*']);
        },
    }
}

/// Distinct binary operators are written with distinct texts.
pub proof fn lemma_binary_operator_texts_distinct(a: BinaryOperator, b: BinaryOperator)
    ensures
        binary_operator_text(a) == binary_operator_text(b) ==> a == b,
{
    lemma_binary_operator_text_reads_back(a);
    lemma_binary_operator_text_reads_back(b);
}

/// The prefix operator a token spells; `None` for any other text.
pub open spec fn prefix_operator_spelled(s: Seq<char>) -> Option<PrefixOperator> {
    if s.len() == 0 {
        Option::None
    } else if s.len() == 1 {
        if s[0] == '+' {
            Option::Some(PrefixOperator::Plus)
        } else if s[0] == '-' {
            Option::Some(PrefixOperator::Minus)
        } else if s[0] == '~' {
            Option::Some(PrefixOperator::Tilde)
        } else if s[0] == '!' {
            Option::Some(PrefixOperator::Exclamation)
        } else {
            Option::None
        }
    } else if s.len() == 2 {
        if s[0] == '+' && s[1] == '+' {
            Option::Some(PrefixOperator::PlusPlus)
        } else if s[0] == '-' && s[1] == '-' {
            Option::Some(PrefixOperator::MinusMinus)
        } else {
            Option::None
        }
    } else {
        Option::None
    }
}

/// The text written for a prefix operator is that operator's own token:
/// reading it back gives the same operator.
pub proof fn lemma_prefix_operator_text_reads_back(k: PrefixOperator)
    ensures
        prefix_operator_spelled(prefix_operator_text(k)) == Option::Some(k),
{
    match k {
        PrefixOperator::Plus => {
            reveal_strlit("+");
            assert(prefix_operator_text(k) =~= seq!['+']);
        },
        PrefixOperator::Minus => {
            reveal_strlit("-");
            assert(prefix_operator_text(k) =~= seq!['-']);
        },
        PrefixOperator::Tilde => {
            reveal_strlit("~");
            assert(prefix_operator_text(k) =~= seq!['~']);
        },
        PrefixOperator::Exclamation => {
            reveal_strlit("!");
            assert(prefix_operator_text(k) =~= seq!['!']);
        },
        PrefixOperator::PlusPlus => {
            reveal_strlit("++");
            assert(prefix_operator_text(k) =~= seq!['+', '+']);
        },
        PrefixOperator::MinusMinus => {
            reveal_strlit("--");
            assert(prefix_operator_text(k) =~= seq!['-', '-']);
        },
    }
}

/// Distinct prefix operators are written with distinct texts.
pub proof fn lemma_prefix_operator_texts_distinct(a: PrefixOperator, b: PrefixOperator)
    ensures
        prefix_operator_text(a) == prefix_operator_text(b) ==> a == b,
{
    lemma_prefix_operator_text_reads_back(a);
    lemma_prefix_operator_text_reads_back(b);
}

/// The postfix operator a token spells; `None` for any other text.
pub open spec fn postfix_operator_spelled(s: Seq<char>) -> Option<PostfixOperator> {
    if s.len() == 0 {
        Option::None
    } else if s.len() == 2 {
        if s[0] == '+' && s[1] == '+' {
            Option::Some(PostfixOperator::PlusPlus)
        } else if s[0] == '-' && s[1] == '-' {
            Option::Some(PostfixOperator::MinusMinus)
        } else {
            Option::None
        }
    } else {
        Option::None
    }
}

/// The text written for a postfix operator is that operator's own token:
/// reading it back gives the same operator.
pub proof fn lemma_postfix_operator_text_reads_back(k: PostfixOperator)
    ensures
        postfix_operator_spelled(postfix_operator_text(k)) == Option::Some(k),
{
    match k {
        PostfixOperator::PlusPlus => {
            reveal_strlit("++");
            assert(postfix_operator_text(k) =~= seq!['+', '+']);
        },
        PostfixOperator::MinusMinus => {
            reveal_strlit("--");
            assert(postfix_operator_text(k) =~= seq!['-', '-']);
        },
    }
}

/// Distinct postfix operators are written with distinct texts.
pub proof fn lemma_postfix_operator_texts_distinct(a: PostfixOperator, b: PostfixOperator)
    ensures
        postfix_operator_text(a) == postfix_operator_text(b) ==> a == b,
{
    lemma_postfix_operator_text_reads_back(a);
    lemma_postfix_operator_text_reads_back(b);
}

/// The keyword expression a word spells; `None` for any other text.
pub open spec fn expression_keyword_spelled(s: Seq<char>) -> Option<ExpressionKeyword> {
    if s.len() == 0 {
        Option::None
    } else if s.len() == 4 {
        if s[0] == 't' && s[1] == 'h' && s[2] == 'i' && s[3] == 's' {
            Option::Some(ExpressionKeyword::This)
        } else if s[0] == 'n' && s[1] == 'u' && s[2] == 'l' && s[3] == 'l' {
            Option::Some(ExpressionKeyword::Null)
        } else if s[0] == 't' && s[1] == 'r' && s[2] == 'u' && s[3] == 'e' {
            Option::Some(ExpressionKeyword::True)
        } else {
            Option::None
        }
    } else if s.len() == 5 {
        if s[0] == 's' && s[1] == 'u' && s[2] == 'p' && s[3] == 'e' && s[4] == 'r' {
            Option::Some(ExpressionKeyword::Super)
        } else if s[0] == 'f' && s[1] == 'a' && s[2] == 'l' && s[3] == 's' && s[4] == 'e' {
            Option::Some(ExpressionKeyword::False)
        } else {
            Option::None
        }
    } else if s.len() == 6 {
        if s[0] == 'i' && s[1] == 'm' && s[2] == 'p' && s[3] == 'o' && s[4] == 'r' && s[5] == 't' {
            Option::Some(ExpressionKeyword::Import)
        } else {
            Option::None
        }
    } else {
        Option::None
    }
}

/// The text written for a keyword expression is its own keyword: reading it
/// back gives the same keyword.
pub proof fn lemma_expression_keyword_text_reads_back(k: ExpressionKeyword)
    ensures
        expression_keyword_spelled(expression_keyword_text(k)) == Option::Some(k),
{
    match k {
        ExpressionKeyword::This => {
            reveal_strlit("this");
            assert(expression_keyword_text(k) =~= seq!['t', 'h', 'i', 's']);
        },
        ExpressionKeyword::Super => {
            reveal_strlit("super");
            assert(expression_keyword_text(k) =~= seq!['s', 'u', 'p', 'e', 'r']);
        },
        ExpressionKeyword::Null => {
            reveal_strlit("null");
            assert(expression_keyword_text(k) =~= seq!['n', 'u', 'l', 'l']);
        },
        ExpressionKeyword::True => {
            reveal_strlit("true");
            assert(expression_keyword_text(k) =~= seq!['t', 'r', 'u', 'e']);
        },
        ExpressionKeyword::False => {
            reveal_strlit("false");
            assert(expression_keyword_text(k) =~= seq!['f', 'a', 'l', 's', 'e']);
        },
        ExpressionKeyword::Import => {
            reveal_strlit("import");
            assert(expression_keyword_text(k) =~= seq!['i', 'm', 'p', 'o', 'r', 't']);
        },
    }
}

/// Distinct keyword expressions are written with distinct keywords.
pub proof fn lemma_expression_keyword_texts_distinct(a: ExpressionKeyword, b: ExpressionKeyword)
    ensures
        expression_keyword_text(a) == expression_keyword_text(b) ==> a == b,
{
    lemma_expression_keyword_text_reads_back(a);
    lemma_expression_keyword_text_reads_back(b);
}

/// The keyword type a word spells; `None` for any other text.
pub open spec fn type_keyword_spelled(s: Seq<char>) -> Option<TypeKeyword> {
    if s.len() == 0 {
        Option::None
    } else if s.len() == 3 {
        if s[0] == 'a' && s[1] == 'n' && s[2] == 'y' {
            Option::Some(TypeKeyword::Any)
        } else {
            Option::None
        }
    } else if s.len() == 4 {
        if s[0] == 'v' && s[1] == 'o' && s[2] == 'i' && s[3] == 'd' {
            Option::Some(TypeKeyword::Void)
        } else if s[0] == 't' && s[1] == 'h' && s[2] == 'i' && s[3] == 's' {
            Option::Some(TypeKeyword::This)
        } else {
            Option::None
        }
    } else if s.len() == 5 {
        if s[0] == 'n' && s[1] == 'e' && s[2] == 'v' && s[3] == 'e' && s[4] == 'r' {
            Option::Some(TypeKeyword::Never)
        } else {
            Option::None
        }
    } else if s.len() == 6 {
        if s[0] == 'n' && s[1] == 'u' && s[2] == 'm' && s[3] == 'b' && s[4] == 'e' && s[5] == 'r' {
            Option::Some(TypeKeyword::Number)
        } else if s[0] == 'b' && s[1] == 'i' && s[2] == 'g' && s[3] == 'i' && s[4] == 'n' && s[5] == 't' {
            Option::Some(TypeKeyword::BigInt)
        } else if s[0] == 'o' && s[1] == 'b' && s[2] == 'j' && s[3] == 'e' && s[4] == 'c' && s[5] == 't' {
            Option::Some(TypeKeyword::Object)
        } else if s[0] == 's' && s[1] == 't' && s[2] == 'r' && s[3] == 'i' && s[4] == 'n' && s[5] == 'g' {
            Option::Some(TypeKeyword::String)
        } else if s[0] == 's' && s[1] == 'y' && s[2] == 'm' && s[3] == 'b' && s[4] == 'o' && s[5] == 'l' {
            Option::Some(TypeKeyword::Symbol)
        } else {
            Option::None
        }
    } else if s.len() == 7 {
        if s[0] == 'u' && s[1] == 'n' && s[2] == 'k' && s[3] == 'n' && s[4] == 'o' && s[5] == 'w' && s[6] == 'n' {
            Option::Some(TypeKeyword::Unknown)
        } else if s[0] == 'b' && s[1] == 'o' && s[2] == 'o' && s[3] == 'l' && s[4] == 'e' && s[5] == 'a' && s[6] == 'n' {
            Option::Some(TypeKeyword::Boolean)
        } else {
            Option::None
        }
    } else if s.len() == 9 {
        if s[0] == 'u' && s[1] == 'n' && s[2] == 'd' && s[3] == 'e' && s[4] == 'f' && s[5] == 'i' && s[6] == 'n' && s[7] == 'e' && s[8] == 'd' {
            Option::Some(TypeKeyword::Undefined)
        } else if s[0] == 'i' && s[1] == 'n' && s[2] == 't' && s[3] == 'r' && s[4] == 'i' && s[5] == 'n' && s[6] == 's' && s[7] == 'i' && s[8] == 'c' {
            Option::Some(TypeKeyword::Intrinsic)
        } else {
            Option::None
        }
    } else {
        Option::None
    }
}

/// The text written for a keyword type is its own keyword: reading it back
/// gives the same keyword.
pub proof fn lemma_type_keyword_text_reads_back(k: TypeKeyword)
    ensures
        type_keyword_spelled(type_keyword_text(k)) == Option::Some(k),
{
    match k {
        TypeKeyword::Any => {
            reveal_strlit("any");
            assert(type_keyword_text(k) =~= seq!['a', 'n', 'y']);
        },
        TypeKeyword::Unknown => {
            reveal_strlit("unknown");
            assert(type_keyword_text(k) =~= seq!['u', 'n', 'k', 'n', 'o', 'w', 'n']);
        },
        TypeKeyword::Number => {
            reveal_strlit("number");
            assert(type_keyword_text(k) =~= seq!['n', 'u', 'm', 'b', 'e', 'r']);
        },
        TypeKeyword::BigInt => {
            reveal_strlit("bigint");
            assert(type_keyword_text(k) =~= seq!['b', 'i', 'g', 'i', 'n', 't']);
        },
        TypeKeyword::Object => {
            reveal_strlit("object");
            assert(type_keyword_text(k) =~= seq!['o', 'b', 'j', 'e', 'c', 't']);
        },
        TypeKeyword::Boolean => {
            reveal_strlit("boolean");
            assert(type_keyword_text(k) =~= seq!['b', 'o', 'o', 'l', 'e', 'a', 'n']);
        },
        TypeKeyword::String => {
            reveal_strlit("string");
            assert(type_keyword_text(k) =~= seq!['s', 't', 'r', 'i', 'n', 'g']);
        },
        TypeKeyword::Symbol => {
            reveal_strlit("symbol");
            assert(type_keyword_text(k) =~= seq!['s', 'y', 'm', 'b', 'o', 'l']);
        },
        TypeKeyword::Void => {
            reveal_strlit("void");
            assert(type_keyword_text(k) =~= seq!['v', 'o', 'i', 'd']);
        },
        TypeKeyword::Undefined => {
            reveal_strlit("undefined");
            assert(type_keyword_text(k) =~= seq!['u', 'n', 'd', 'e', 'f', 'i', 'n', 'e', 'd']);
        },
        TypeKeyword::Never => {
            reveal_strlit("never");
            assert(type_keyword_text(k) =~= seq!['n', 'e', 'v', 'e', 'r']);
        },
        TypeKeyword::This => {
            reveal_strlit("this");
            assert(type_keyword_text(k) =~= seq!['t', 'h', 'i', 's']);
        },
        TypeKeyword::Intrinsic => {
            reveal_strlit("intrinsic");
            assert(type_keyword_text(k) =~= seq!['i', 'n', 't', 'r', 'i', 'n', 's', 'i', 'c']);
        },
    }
}

/// Distinct keyword types are written with distinct keywords.
pub proof fn lemma_type_keyword_texts_distinct(a: TypeKeyword, b: TypeKeyword)
    ensures
        type_keyword_text(a) == type_keyword_text(b) ==> a == b,
{
    lemma_type_keyword_text_reads_back(a);
    lemma_type_keyword_text_reads_back(b);
}

/// The type operator a keyword spells; `None` for any other text.
pub open spec fn type_operator_spelled(s: Seq<char>) -> Option<TypeOperatorKind> {
    if s.len() == 0 {
        Option::None
    } else if s.len() == 5 {
        if s[0] == 'k' && s[1] == 'e' && s[2] == 'y' && s[3] == 'o' && s[4] == 'f' {
            Option::Some(TypeOperatorKind::KeyOf)
        } else {
            Option::None
        }
    } else if s.len() == 6 {
        if s[0] == 'u' && s[1] == 'n' && s[2] == 'i' && s[3] == 'q' && s[4] == 'u' && s[5] == 'e' {
            Option::Some(TypeOperatorKind::Unique)
        } else {
            Option::None
        }
    } else if s.len() == 8 {
        if s[0] == 'r' && s[1] == 'e' && s[2] == 'a' && s[3] == 'd' && s[4] == 'o' && s[5] == 'n' && s[6] == 'l' && s[7] == 'y' {
            Option::Some(TypeOperatorKind::Readonly)
        } else {
            Option::None
        }
    } else {
        Option::None
    }
}

/// The text written for a type operator is its own keyword: reading it back
/// gives the same operator.
pub proof fn lemma_type_operator_text_reads_back(k: TypeOperatorKind)
    ensures
        type_operator_spelled(type_operator_text(k)) == Option::Some(k),
{
    match k {
        TypeOperatorKind::KeyOf => {
            reveal_strlit("keyof");
            assert(type_operator_text(k) =~= seq!['k', 'e', 'y', 'o', 'f']);
        },
        TypeOperatorKind::Unique => {
            reveal_strlit("unique");
            assert(type_operator_text(k) =~= seq!['u', 'n', 'i', 'q', 'u', 'e']);
        },
        TypeOperatorKind::Readonly => {
            reveal_strlit("readonly");
            assert(type_operator_text(k) =~= seq!['r', 'e', 'a', 'd', 'o', 'n', 'l', 'y']);
        },
    }
}

/// Distinct type operators are written with distinct keywords.
pub proof fn lemma_type_operator_texts_distinct(a: TypeOperatorKind, b: TypeOperatorKind)
    ensures
        type_operator_text(a) == type_operator_text(b) ==> a == b,
{
    lemma_type_operator_text_reads_back(a);
    lemma_type_operator_text_reads_back(b);
}

/// The modifier a keyword spells; `None` for any other text.
pub open spec fn modifier_spelled(s: Seq<char>) -> Option<ModifierKind> {
    if s.len() == 0 {
        Option::None
    } else if s.len() == 2 {
        if s[0] == 'i' && s[1] == 'n' {
            Option::Some(ModifierKind::In)
        } else {
            Option::None
        }
    } else if s.len() == 3 {
        if s[0] == 'o' && s[1] == 'u' && s[2] == 't' {
            Option::Some(ModifierKind::Out)
        } else {
            Option::None
        }
    } else if s.len() == 5 {
        if s[0] == 'a' && s[1] == 's' && s[2] == 'y' && s[3] == 'n' && s[4] == 'c' {
            Option::Some(ModifierKind::Async)
        } else if s[0] == 'c' && s[1] == 'o' && s[2] == 'n' && s[3] == 's' && s[4] == 't' {
            Option::Some(ModifierKind::Const)
        } else {
            Option::None
        }
    } else if s.len() == 6 {
        if s[0] == 'e' && s[1] == 'x' && s[2] == 'p' && s[3] == 'o' && s[4] == 'r' && s[5] == 't' {
            Option::Some(ModifierKind::Export)
        } else if s[0] == 'p' && s[1] == 'u' && s[2] == 'b' && s[3] == 'l' && s[4] == 'i' && s[5] == 'c' {
            Option::Some(ModifierKind::Public)
        } else if s[0] == 's' && s[1] == 't' && s[2] == 'a' && s[3] == 't' && s[4] == 'i' && s[5] == 'c' {
            Option::Some(ModifierKind::Static)
        } else {
            Option::None
        }
    } else if s.len() == 7 {
        if s[0] == 'd' && s[1] == 'e' && s[2] == 'f' && s[3] == 'a' && s[4] == 'u' && s[5] == 'l' && s[6] == 't' {
            Option::Some(ModifierKind::Default)
        } else if s[0] == 'd' && s[1] == 'e' && s[2] == 'c' && s[3] == 'l' && s[4] == 'a' && s[5] == 'r' && s[6] == 'e' {
            Option::Some(ModifierKind::Declare)
        } else if s[0] == 'p' && s[1] == 'r' && s[2] == 'i' && s[3] == 'v' && s[4] == 'a' && s[5] == 't' && s[6] == 'e' {
            Option::Some(ModifierKind::Private)
        } else {
            Option::None
        }
    } else if s.len() == 8 {
        if s[0] == 'a' && s[1] == 'b' && s[2] == 's' && s[3] == 't' && s[4] == 'r' && s[5] == 'a' && s[6] == 'c' && s[7] == 't' {
            Option::Some(ModifierKind::Abstract)
        } else if s[0] == 'r' && s[1] == 'e' && s[2] == 'a' && s[3] == 'd' && s[4] == 'o' && s[5] == 'n' && s[6] == 'l' && s[7] == 'y' {
            Option::Some(ModifierKind::Readonly)
        } else if s[0] == 'o' && s[1] == 'v' && s[2] == 'e' && s[3] == 'r' && s[4] == 'r' && s[5] == 'i' && s[6] == 'd' && s[7] == 'e' {
            Option::Some(ModifierKind::Override)
        } else if s[0] == 'a' && s[1] == 'c' && s[2] == 'c' && s[3] == 'e' && s[4] == 's' && s[5] == 's' && s[6] == 'o' && s[7] == 'r' {
            Option::Some(ModifierKind::Accessor)
        } else {
            Option::None
        }
    } else if s.len() == 9 {
        if s[0] == 'p' && s[1] == 'r' && s[2] == 'o' && s[3] == 't' && s[4] == 'e' && s[5] == 'c' && s[6] == 't' && s[7] == 'e' && s[8] == 'd' {
            Option::Some(ModifierKind::Protected)
        } else {
            Option::None
        }
    } else {
        Option::None
    }
}

/// The text written for a modifier is that modifier's own keyword: reading
/// it back gives the same modifier.
pub proof fn lemma_modifier_text_reads_back(k: ModifierKind)
    ensures
        modifier_spelled(modifier_text(k)) == Option::Some(k),
{
    match k {
        ModifierKind::Export => {
            reveal_strlit("export");
            assert(modifier_text(k) =~= seq!['e', 'x', 'p', 'o', 'r', 't']);
        },
        ModifierKind::Default => {
            reveal_strlit("default");
            assert(modifier_text(k) =~= seq!['d', 'e', 'f', 'a', 'u', 'l', 't']);
        },
        ModifierKind::Declare => {
            reveal_strlit("declare");
            assert(modifier_text(k) =~= seq!['d', 'e', 'c', 'l', 'a', 'r', 'e']);
        },
        ModifierKind::Abstract => {
            reveal_strlit("abstract");
            assert(modifier_text(k) =~= seq!['a', 'b', 's', 't', 'r', 'a', 'c', 't']);
        },
        ModifierKind::Public => {
            reveal_strlit("public");
            assert(modifier_text(k) =~= seq!['p', 'u', 'b', 'l', 'i', 'c']);
        },
        ModifierKind::Private => {
            reveal_strlit("private");
            assert(modifier_text(k) =~= seq!['p', 'r', 'i', 'v', 'a', 't', 'e']);
        },
        ModifierKind::Protected => {
            reveal_strlit("protected");
            assert(modifier_text(k) =~= seq!['p', 'r', 'o', 't', 'e', 'c', 't', 'e', 'd']);
        },
        ModifierKind::Static => {
            reveal_strlit("static");
            assert(modifier_text(k) =~= seq!['s', 't', 'a', 't', 'i', 'c']);
        },
        ModifierKind::Readonly => {
            reveal_strlit("readonly");
            assert(modifier_text(k) =~= seq!['r', 'e', 'a', 'd', 'o', 'n', 'l', 'y']);
        },
        ModifierKind::Override => {
            reveal_strlit("override");
            assert(modifier_text(k) =~= seq!['o', 'v', 'e', 'r', 'r', 'i', 'd', 'e']);
        },
        ModifierKind::Async => {
            reveal_strlit("async");
            assert(modifier_text(k) =~= seq!['a', 's', 'y', 'n', 'c']);
        },
        ModifierKind::Const => {
            reveal_strlit("const");
            assert(modifier_text(k) =~= seq!['c', 'o', 'n', 's', 't']);
        },
        ModifierKind::Accessor => {
            reveal_strlit("accessor");
            assert(modifier_text(k) =~= seq!['a', 'c', 'c', 'e', 's', 's', 'o', 'r']);
        },
        ModifierKind::In => {
            reveal_strlit("in");
            assert(modifier_text(k) =~= seq!['i', 'n']);
        },
        ModifierKind::Out => {
            reveal_strlit("out");
            assert(modifier_text(k) =~= seq!['o', 'u', 't']);
        },
    }
}

/// Distinct modifiers are written with distinct keywords.
pub proof fn lemma_modifier_texts_distinct(a: ModifierKind, b: ModifierKind)
    ensures
        modifier_text(a) == modifier_text(b) ==> a == b,
{
    lemma_modifier_text_reads_back(a);
    lemma_modifier_text_reads_back(b);
}

/// The operator whose token is `op`'s token followed by `=`: the compound
/// assignment of an arithmetic, bitwise or logical operator, and the strict
/// form of an equality operator.
pub open spec fn operator_with_equals_sign(op: BinaryOperator) -> Option<BinaryOperator> {
    match op {
        BinaryOperator::Plus => Option::Some(BinaryOperator::PlusEquals),
        BinaryOperator::Minus => Option::Some(BinaryOperator::MinusEquals),
        BinaryOperator::Asterisk => Option::Some(BinaryOperator::AsteriskEquals),
        BinaryOperator::AsteriskAsterisk => Option::Some(BinaryOperator::AsteriskAsteriskEquals),
        BinaryOperator::Slash => Option::Some(BinaryOperator::SlashEquals),
        BinaryOperator::Percent => Option::Some(BinaryOperator::PercentEquals),
        BinaryOperator::LessThanLessThan => Option::Some(BinaryOperator::LessThanLessThanEquals),
        BinaryOperator::GreaterThanGreaterThan => Option::Some(BinaryOperator::GreaterThanGreaterThanEquals),
        BinaryOperator::GreaterThanGreaterThanGreaterThan => Option::Some(BinaryOperator::GreaterThanGreaterThanGreaterThanEquals),
        BinaryOperator::Ampersand => Option::Some(BinaryOperator::AmpersandEquals),
        BinaryOperator::Bar => Option::Some(BinaryOperator::BarEquals),
        BinaryOperator::Caret => Option::Some(BinaryOperator::CaretEquals),
        BinaryOperator::AmpersandAmpersand => Option::Some(BinaryOperator::AmpersandAmpersandEquals),
        BinaryOperator::BarBar => Option::Some(BinaryOperator::BarBarEquals),
        BinaryOperator::QuestionQuestion => Option::Some(BinaryOperator::QuestionQuestionEquals),
        BinaryOperator::EqualsEquals => Option::Some(BinaryOperator::EqualsEqualsEquals),
        BinaryOperator::ExclamationEquals => Option::Some(BinaryOperator::ExclamationEqualsEquals),
        _ => Option::None,
    }
}

/// A compound assignment is written as its operator followed by `=`, and a
/// strict equality operator as the loose one followed by `=`.
pub proof fn lemma_operator_text_followed_by_equals_sign(op: BinaryOperator)
    ensures
        operator_with_equals_sign(op) matches Option::Some(longer) ==> binary_operator_text(longer)
            == binary_operator_text(op) + seq!['='],
{
    match op {
        BinaryOperator::Plus => {
            reveal_strlit("+");
            reveal_strlit("+=");
            assert(binary_operator_text(BinaryOperator::PlusEquals) =~= binary_operator_text(op) + seq!['=']);
        },
        BinaryOperator::Minus => {
            reveal_strlit("-");
            reveal_strlit("-=");
            assert(binary_operator_text(BinaryOperator::MinusEquals) =~= binary_operator_text(op) + seq!['=']);
        },
        BinaryOperator::Asterisk => {
            reveal_strlit("*");
            reveal_strlit("*=");
            assert(binary_operator_text(BinaryOperator::AsteriskEquals) =~= binary_operator_text(op) + seq!['=']);
        },
        BinaryOperator::AsteriskAsterisk => {
            reveal_strlit("**");
            reveal_strlit("**=");
            assert(binary_operator_text(BinaryOperator::AsteriskAsteriskEquals) =~= binary_operator_text(op) + seq!['=']);
        },
        BinaryOperator::Slash => {
            reveal_strlit("/");
            reveal_strlit("/=");
            assert(binary_operator_text(BinaryOperator::SlashEquals) =~= binary_operator_text(op) + seq!['=']);
        },
        BinaryOperator::Percent => {
            reveal_strlit("%");
            reveal_strlit("%=");
            assert(binary_operator_text(BinaryOperator::PercentEquals) =~= binary_operator_text(op) + seq!['=']);
        },
        BinaryOperator::LessThanLessThan => {
            reveal_strlit("<<");
            reveal_strlit("<<=");
            assert(binary_operator_text(BinaryOperator::LessThanLessThanEquals) =~= binary_operator_text(op) + seq!['=']);
        },
        BinaryOperator::GreaterThanGreaterThan => {
            reveal_strlit(">>");
            reveal_strlit(">>=");
            assert(binary_operator_text(BinaryOperator::GreaterThanGreaterThanEquals) =~= binary_operator_text(op) + seq!['=']);
        },
        BinaryOperator::GreaterThanGreaterThanGreaterThan => {
            reveal_strlit(">>>");
            reveal_strlit(">>>=");
            assert(binary_operator_text(BinaryOperator::GreaterThanGreaterThanGreaterThanEquals) =~= binary_operator_text(op) + seq!['=']);
        },
        BinaryOperator::Ampersand => {
            reveal_strlit("&");
            reveal_strlit("&=");
            assert(binary_operator_text(BinaryOperator::AmpersandEquals) =~= binary_operator_text(op) + seq!['=']);
        },
        BinaryOperator::Bar => {
            reveal_strlit("|");
            reveal_strlit("|=");
            assert(binary_operator_text(BinaryOperator::BarEquals) =~= binary_operator_text(op) + seq!['=']);
        },
        BinaryOperator::Caret => {
            reveal_strlit("^");
            reveal_strlit("^=");
            assert(binary_operator_text(BinaryOperator::CaretEquals) =~= binary_operator_text(op) + seq!['=']);
        },
        BinaryOperator::AmpersandAmpersand => {
            reveal_strlit("&&");
            reveal_strlit("&&=");
            assert(binary_operator_text(BinaryOperator::AmpersandAmpersandEquals) =~= binary_operator_text(op) + seq!['=']);
        },
        BinaryOperator::BarBar => {
            reveal_strlit("||");
            reveal_strlit("||=");
            assert(binary_operator_text(BinaryOperator::BarBarEquals) =~= binary_operator_text(op) + seq!['=']);
        },
        BinaryOperator::QuestionQuestion => {
            reveal_strlit("??");
            reveal_strlit("??=");
            assert(binary_operator_text(BinaryOperator::QuestionQuestionEquals) =~= binary_operator_text(op) + seq!['=']);
        },
        BinaryOperator::EqualsEquals => {
            reveal_strlit("==");
            reveal_strlit("===");
            assert(binary_operator_text(BinaryOperator::EqualsEqualsEquals) =~= binary_operator_text(op) + seq!['=']);
        },
        BinaryOperator::ExclamationEquals => {
            reveal_strlit("!=");
            reveal_strlit("!==");
            assert(binary_operator_text(BinaryOperator::ExclamationEqualsEquals) =~= binary_operator_text(op) + seq!['=']);
        },
        _ => {},
    }
}

/// A word or sign that is a token of more than one kind is written alike in
/// each: `in` as an operator and as a modifier, `readonly` as a modifier and as
/// a type operator, `this` as an expression and as a type, and `+`, `-` as
/// prefix and as binary operators, `++`, `--` as prefix and as postfix
/// operators.
pub proof fn lemma_shared_tokens_written_alike()
    ensures
        modifier_text(ModifierKind::In) == binary_operator_text(BinaryOperator::In),
        modifier_text(ModifierKind::Readonly) == type_operator_text(TypeOperatorKind::Readonly),
        expression_keyword_text(ExpressionKeyword::This) == type_keyword_text(TypeKeyword::This),
        prefix_operator_text(PrefixOperator::Plus) == binary_operator_text(BinaryOperator::Plus),
        prefix_operator_text(PrefixOperator::Minus) == binary_operator_text(BinaryOperator::Minus),
        prefix_operator_text(PrefixOperator::PlusPlus) == postfix_operator_text(PostfixOperator::PlusPlus),
        prefix_operator_text(PrefixOperator::MinusMinus) == postfix_operator_text(
            PostfixOperator::MinusMinus,
        ),
{
}

} // verus!
