use vstd::prelude::*;
use crate::ast::{BinaryOperator, ImportPhase, MappedTypeModifier, MetaPropertyKeyword, ModuleKeyword, Node, PrefixOperator, VariableKind};
use crate::layout::{PrintContext, closing_line_terminator_count, delimiter_doc, is_valid_list_format, leading_line_terminator_count, lines_doc, separating_line_terminator_count, valid_list_flags};
use crate::list_format::{LF_ALLOW_TRAILING_COMMA, LF_ASTERISK_DELIMITED, LF_BRACKETS_MASK, LF_COMMA_DELIMITED, LF_INDENTED, LF_LINES_MASK, LF_MULTI_LINE, LF_NONE, LF_NO_SPACE_IF_EMPTY, LF_OPTIONAL_IF_EMPTY, LF_PREFER_NEW_LINE, LF_PRESERVE_LINES, LF_SPACE_AFTER_LIST, LF_SPACE_BETWEEN_BRACES, LF_SPACE_BETWEEN_SIBLINGS, ListFormat};
use crate::precedence::{OPERATOR_PRECEDENCE_ASSIGNMENT, OPERATOR_PRECEDENCE_COALESCE, OPERATOR_PRECEDENCE_COMMA, OPERATOR_PRECEDENCE_DISALLOW_COMMA, OPERATOR_PRECEDENCE_LEFT_HAND_SIDE, OPERATOR_PRECEDENCE_LOGICAL_OR, OPERATOR_PRECEDENCE_LOWEST, OPERATOR_PRECEDENCE_MEMBER, OPERATOR_PRECEDENCE_OPTIONAL_CHAIN, OPERATOR_PRECEDENCE_PARENTHESES, OPERATOR_PRECEDENCE_RELATIONAL, OPERATOR_PRECEDENCE_SPREAD, OPERATOR_PRECEDENCE_UNARY, OPERATOR_PRECEDENCE_UPDATE, OPERATOR_PRECEDENCE_YIELD, TYPE_PRECEDENCE_CONDITIONAL, TYPE_PRECEDENCE_FUNCTION, TYPE_PRECEDENCE_HIGHEST, TYPE_PRECEDENCE_LOWEST, TYPE_PRECEDENCE_POSTFIX, TYPE_PRECEDENCE_TYPE_OPERATOR, TYPE_PRECEDENCE_UNION, binary_operand_precedences, expression_precedence, is_binary_with, is_new_without_arguments, leftmost_expression, leftmost_is_class_or_function, leftmost_is_function_or_object_literal, type_node_precedence};
use crate::text_writer::{Piece, lines_and_indent_doc, step, text_doc};
use crate::tokens::{binary_operator_text, expression_keyword_text, modifier_text, postfix_operator_text, prefix_operator_text, type_keyword_text, type_operator_text};

verus! {

/// How the items of a list are written: as nodes, as expressions at a
/// precedence, as types at a precedence, or as types outside any `extends`.
#[derive(Clone, Copy, Debug, PartialEq, Eq)]
pub enum ChildMode {
    Plain,
    Expression(i8),
    Type(i8),
    TypeOutsideExtends,
}

/// A document of one piece of text.
pub open spec fn t(s: Seq<char>) -> Seq<Piece> {
    text_doc(s)
}

/// `d` between parentheses.
pub open spec fn parenthesized(d: Seq<Piece>) -> Seq<Piece> {
    t("("@) + d + t(")"@)
}

/// The text of an optional name, or nothing.
pub open spec fn optional_text(s: Option<String>) -> Seq<Piece> {
    match s {
        Option::Some(s) => t(s@),
        Option::None => Seq::empty(),
    }
}

/// The text of a template literal with no substitutions.
pub open spec fn template_text(s: Seq<char>) -> Seq<char> {
    seq!['`'] + s + seq!['`']
}

/// Whether a prefix operator followed by an operand that is itself a prefix
/// expression needs a space between them (`+ +a`, `- --a`).
pub open spec fn prefix_needs_space(op: PrefixOperator, operand: Node) -> bool {
    operand matches Node::PrefixUnaryExpression { operator, .. } && (
    (op == PrefixOperator::Plus && (operator == PrefixOperator::Plus || operator
        == PrefixOperator::PlusPlus)) || (op == PrefixOperator::Minus && (operator
        == PrefixOperator::Minus || operator == PrefixOperator::MinusMinus)))
}

/// The text of a numeric or bigint literal as it is written: as it is when
/// `keep_separators` holds, and without its `_` separators otherwise.
pub open spec fn literal_digits(s: Seq<char>, keep_separators: bool) -> Seq<char>
    decreases s.len(),
{
    if keep_separators || s.len() == 0 {
        s
    } else {
        literal_digits(s.drop_last(), false) + (if s.last() == '_' {
            Seq::empty()
        } else {
            seq![s.last()]
        })
    }
}

/// Whether the text of a numeric literal starts with a base specifier: `0x`,
/// `0b` or `0o`, in either case.
pub open spec fn has_base_specifier(text: Seq<char>) -> bool {
    text.len() >= 2 && text[0] == '0' && (text[1] == 'x' || text[1] == 'X' || text[1] == 'b'
        || text[1] == 'B' || text[1] == 'o' || text[1] == 'O')
}

/// Whether a numeric literal written before `.` needs a second dot so that the
/// dot is not read as its decimal point: a decimal literal with neither a dot
/// nor an exponent.
pub open spec fn needs_dot_dot(n: Node) -> bool {
    n matches Node::NumericLiteral(text) && !has_base_specifier(text@) && !text@.contains('.')
        && !text@.contains('E') && !text@.contains('e')
}

/// Whether an arrow function's only parameter can be written without
/// parentheses.
pub open spec fn is_simple_arrow_parameter_list(parameters: Seq<Node>) -> bool {
    parameters.len() == 1 && (parameters[0] matches Node::Parameter {
        modifiers,
        dot_dot_dot,
        name,
        question,
        type_node,
        initializer,
    } && modifiers@.len() == 0 && !dot_dot_dot && *name is Identifier && !question && type_node is None
        && initializer is None)
}

/// Whether an arrow function writes its lone parameter without parentheses:
/// it has no modifiers, type parameters or return type, and one plain
/// parameter that the source did not write between parentheses.
pub open spec fn is_simple_arrow_head(n: Node) -> bool {
    n matches Node::ArrowFunction {
        modifiers,
        type_parameters,
        parameters,
        parameter_in_parentheses,
        type_node,
        ..
    } && modifiers@.len() == 0 && type_parameters@.len() == 0 && type_node is None
        && !parameter_in_parentheses && is_simple_arrow_parameter_list(parameters@)
}

/// Whether a statement is a call whose callee is a function or arrow function.
pub open spec fn is_immediately_invoked_function(n: Node) -> bool {
    n matches Node::CallExpression { expression, .. } && (*expression is FunctionExpression
        || *expression is ArrowFunction)
}

/// The keywords that begin a variable declaration list.
pub open spec fn variable_keyword_doc(kind: VariableKind) -> Seq<Piece> {
    match kind {
        VariableKind::Let => t("let"@),
        VariableKind::Const => t("const"@),
        VariableKind::AwaitUsing => t("await"@) + t(" "@) + t("using"@),
        VariableKind::Using => t("using"@),
        VariableKind::Var => t("var"@),
    }
}

/// Whether a node is a decorator.
pub open spec fn is_decorator(n: Node) -> bool {
    n is Decorator
}

/// The end of the run of nodes that, like the node before `i`, are or are not
/// decorators.
pub open spec fn run_end(nodes: Seq<Node>, i: int, decorators: bool) -> int
    decreases nodes.len() - i,
{
    if i < 0 || i >= nodes.len() || is_decorator(nodes[i]) != decorators {
        i
    } else {
        run_end(nodes, i + 1, decorators)
    }
}

/// A run starting at `i` ends at or after `i`, and no later than the end of
/// the nodes.
pub proof fn lemma_run_end_bounds(nodes: Seq<Node>, i: int, decorators: bool)
    requires
        0 <= i <= nodes.len(),
    ensures
        i <= run_end(nodes, i, decorators) <= nodes.len(),
    decreases nodes.len() - i,
{
    if i < nodes.len() && is_decorator(nodes[i]) == decorators {
        lemma_run_end_bounds(nodes, i + 1, decorators);
    }
}

/// The format of the items of a block that is a statement.
pub open spec fn block_format(statements_len: nat, multi_line: bool) -> ListFormat {
    if !multi_line && statements_len == 0 {
        ListFormat(FORMAT_SINGLE_LINE_BLOCK_STATEMENTS)
    } else {
        ListFormat(FORMAT_MULTI_LINE_BLOCK_STATEMENTS)
    }
}

/// Whether a function body is written on one line.
pub open spec fn function_body_on_single_line(c: PrintContext, statements_len: nat, multi_line: bool) -> bool {
    let f = ListFormat(LF_PRESERVE_LINES);
    let first = if statements_len > 0 { Option::Some(false) } else { Option::None };
    &&& !multi_line
    &&& leading_line_terminator_count(f, first, c) == 0
    &&& closing_line_terminator_count(f, first, c) == 0
    &&& (statements_len <= 1 || separating_line_terminator_count(
        f,
        Option::Some(false),
        Option::Some(false),
        c,
    ) == 0)
}

/// The format of the properties of an object literal: a trailing comma is
/// allowed inside a source file, and a literal marked multi-line puts each
/// property on a line of its own.
pub open spec fn object_literal_format(c: PrintContext, multi_line: bool) -> ListFormat {
    ListFormat(FORMAT_OBJECT_LITERAL_PROPERTIES | (if c.in_source_file {
        LF_ALLOW_TRAILING_COMMA
    } else {
        LF_NONE
    }) | (if multi_line {
        LF_PREFER_NEW_LINE
    } else {
        LF_NONE
    }))
}

/// The format of the elements of an array literal.
pub open spec fn array_literal_format(multi_line: bool) -> ListFormat {
    ListFormat(FORMAT_ARRAY_LITERAL_ELEMENTS | (if multi_line {
        LF_PREFER_NEW_LINE
    } else {
        LF_NONE
    }))
}

/// The format of the elements of a tuple type.
pub open spec fn tuple_format(single_line: bool) -> ListFormat {
    ListFormat((if single_line {
        FORMAT_SINGLE_LINE_TUPLE_TYPE_ELEMENTS
    } else {
        FORMAT_MULTI_LINE_TUPLE_TYPE_ELEMENTS
    }) | LF_NO_SPACE_IF_EMPTY)
}

pub const FORMAT_SINGLE_LINE_BLOCK_STATEMENTS: u32 = 0x300;
pub const FORMAT_MULTI_LINE_BLOCK_STATEMENTS: u32 = 0x81;
pub const FORMAT_OBJECT_LITERAL_PROPERTIES: u32 = 0x80792;
pub const FORMAT_ARRAY_LITERAL_ELEMENTS: u32 = 0x22D2;
pub const FORMAT_SINGLE_LINE_TUPLE_TYPE_ELEMENTS: u32 = 0x210;
pub const FORMAT_MULTI_LINE_TUPLE_TYPE_ELEMENTS: u32 = 0x291;
pub const FORMAT_CALL_ARGUMENTS: u32 = 0xA10;
pub const FORMAT_NEW_ARGUMENTS: u32 = 0x4A10;
pub const FORMAT_TYPE_ARGUMENTS: u32 = 0xD210;
pub const FORMAT_PARAMETERS: u32 = 0xA10;
pub const FORMAT_SINGLE_ARROW_PARAMETER: u32 = 0x210;
pub const FORMAT_CLASS_MEMBERS: u32 = 0x81;
pub const FORMAT_UNION_TYPE_CONSTITUENTS: u32 = 0x204;
pub const FORMAT_INTERSECTION_TYPE_CONSTITUENTS: u32 = 0x208;
pub const FORMAT_VARIABLE_DECLARATION_LIST: u32 = 0x210;
pub const FORMAT_MODIFIERS: u32 = 0x240200;
pub const FORMAT_DECORATORS: u32 = 0x20C001;
pub const FORMAT_SINGLE_LINE_FUNCTION_BODY_STATEMENTS: u32 = 0x300;
pub const FORMAT_MULTI_LINE_FUNCTION_BODY_STATEMENTS: u32 = 0x1;
pub const FORMAT_SOURCE_FILE_STATEMENTS: u32 = 0x1;
pub const FORMAT_CASE_BLOCK_CLAUSES: u32 = 0x81;
pub const FORMAT_CASE_OR_DEFAULT_CLAUSE_STATEMENTS: u32 = 0x28081;
pub const FORMAT_SINGLE_CLAUSE_STATEMENT: u32 = 0x28000;
pub const FORMAT_TYPE_PARAMETERS: u32 = 0xD210;
pub const FORMAT_HERITAGE_CLAUSES: u32 = 0x200;
pub const FORMAT_CLASS_HERITAGE_CLAUSES: u32 = 0;
pub const FORMAT_HERITAGE_CLAUSE_TYPES: u32 = 0x210;
pub const FORMAT_INTERFACE_MEMBERS: u32 = 0x81;
pub const FORMAT_SINGLE_LINE_TYPE_LITERAL_MEMBERS: u32 = 0x300;
pub const FORMAT_MULTI_LINE_TYPE_LITERAL_MEMBERS: u32 = 0x8081;
pub const FORMAT_ENUM_MEMBERS: u32 = 0x91;
pub const FORMAT_NAMED_IMPORTS_OR_EXPORTS_ELEMENTS: u32 = 0x80350;
pub const FORMAT_INDEX_SIGNATURE_PARAMETERS: u32 = 0x2290;
pub const FORMAT_TEMPLATE_EXPRESSION_SPANS: u32 = 0x40000;
pub const FORMAT_JSX_ELEMENT_OR_FRAGMENT_CHILDREN: u32 = 0x40000;
pub const FORMAT_JSX_ELEMENT_ATTRIBUTES: u32 = 0x40200;
pub const FORMAT_OBJECT_BINDING_PATTERN_ELEMENTS: u32 = 0x80350;
pub const FORMAT_ARRAY_BINDING_PATTERN_ELEMENTS: u32 = 0x80250;
pub const FORMAT_IMPORT_ATTRIBUTES: u32 = 0x80792;

/// The fixed list formats the printer lays lists out with.
pub open spec fn is_printer_list_format(f: u32) -> bool {
    f == FORMAT_SINGLE_LINE_BLOCK_STATEMENTS || f == FORMAT_MULTI_LINE_BLOCK_STATEMENTS
        || f == FORMAT_CALL_ARGUMENTS || f == FORMAT_NEW_ARGUMENTS || f == FORMAT_TYPE_ARGUMENTS
        || f == FORMAT_SINGLE_ARROW_PARAMETER || f == FORMAT_CLASS_MEMBERS
        || f == FORMAT_UNION_TYPE_CONSTITUENTS || f == FORMAT_INTERSECTION_TYPE_CONSTITUENTS
        || f == FORMAT_MODIFIERS || f == FORMAT_DECORATORS
        || f == FORMAT_MULTI_LINE_FUNCTION_BODY_STATEMENTS || f == FORMAT_PARAMETERS
        || f == FORMAT_VARIABLE_DECLARATION_LIST || f == FORMAT_SINGLE_LINE_FUNCTION_BODY_STATEMENTS
        || f == FORMAT_SOURCE_FILE_STATEMENTS || f == FORMAT_CASE_BLOCK_CLAUSES
        || f == FORMAT_CASE_OR_DEFAULT_CLAUSE_STATEMENTS || f == FORMAT_SINGLE_CLAUSE_STATEMENT
        || f == FORMAT_TYPE_PARAMETERS || f == FORMAT_HERITAGE_CLAUSES
        || f == FORMAT_CLASS_HERITAGE_CLAUSES || f == FORMAT_HERITAGE_CLAUSE_TYPES
        || f == FORMAT_INTERFACE_MEMBERS || f == FORMAT_ENUM_MEMBERS || f == LF_PRESERVE_LINES
        || f == FORMAT_NAMED_IMPORTS_OR_EXPORTS_ELEMENTS || f == FORMAT_INDEX_SIGNATURE_PARAMETERS
        || f == FORMAT_TEMPLATE_EXPRESSION_SPANS || f == FORMAT_JSX_ELEMENT_OR_FRAGMENT_CHILDREN
        || f == FORMAT_JSX_ELEMENT_ATTRIBUTES || f == FORMAT_OBJECT_BINDING_PATTERN_ELEMENTS
        || f == FORMAT_ARRAY_BINDING_PATTERN_ELEMENTS || f == FORMAT_IMPORT_ATTRIBUTES
}

/// Each fixed list format of the printer names at most one delimiter and at
/// most one kind of bracket.
pub proof fn lemma_list_format_valid(f: u32)
    requires
        is_printer_list_format(f),
    ensures
        is_valid_list_format(ListFormat(f)),
{
    lemma_printer_formats_valid(PrintContext { in_source_file: false, preserve_source_newlines: false, numeric_separators: false }, false, false, 0);
}

/// Every list format the printer lays lists out with names at most one
/// delimiter and at most one kind of bracket.
pub proof fn lemma_printer_formats_valid(c: PrintContext, multi_line: bool, single_line: bool, statements_len: nat)
    ensures
        is_valid_list_format(ListFormat(FORMAT_SINGLE_LINE_BLOCK_STATEMENTS)),
        is_valid_list_format(ListFormat(FORMAT_MULTI_LINE_BLOCK_STATEMENTS)),
        is_valid_list_format(ListFormat(FORMAT_CALL_ARGUMENTS)),
        is_valid_list_format(ListFormat(FORMAT_NEW_ARGUMENTS)),
        is_valid_list_format(ListFormat(FORMAT_TYPE_ARGUMENTS)),
        is_valid_list_format(ListFormat(FORMAT_SINGLE_ARROW_PARAMETER)),
        is_valid_list_format(ListFormat(FORMAT_CLASS_MEMBERS)),
        is_valid_list_format(ListFormat(FORMAT_UNION_TYPE_CONSTITUENTS)),
        is_valid_list_format(ListFormat(FORMAT_INTERSECTION_TYPE_CONSTITUENTS)),
        is_valid_list_format(ListFormat(FORMAT_MODIFIERS)),
        is_valid_list_format(ListFormat(FORMAT_DECORATORS)),
        is_valid_list_format(ListFormat(FORMAT_MULTI_LINE_FUNCTION_BODY_STATEMENTS)),
        is_valid_list_format(ListFormat(FORMAT_PARAMETERS)),
        is_valid_list_format(ListFormat(FORMAT_VARIABLE_DECLARATION_LIST)),
        is_valid_list_format(ListFormat(FORMAT_SINGLE_LINE_FUNCTION_BODY_STATEMENTS)),
        is_valid_list_format(ListFormat(FORMAT_SOURCE_FILE_STATEMENTS)),
        is_valid_list_format(ListFormat(FORMAT_CASE_BLOCK_CLAUSES)),
        is_valid_list_format(ListFormat(FORMAT_CASE_OR_DEFAULT_CLAUSE_STATEMENTS)),
        is_valid_list_format(ListFormat(FORMAT_SINGLE_CLAUSE_STATEMENT)),
        is_valid_list_format(object_literal_format(c, multi_line)),
        is_valid_list_format(array_literal_format(multi_line)),
        is_valid_list_format(tuple_format(single_line)),
        is_valid_list_format(type_literal_format(single_line)),
        is_valid_list_format(ListFormat(FORMAT_TYPE_PARAMETERS)),
        is_valid_list_format(ListFormat(FORMAT_HERITAGE_CLAUSES)),
        is_valid_list_format(ListFormat(FORMAT_CLASS_HERITAGE_CLAUSES)),
        is_valid_list_format(ListFormat(FORMAT_HERITAGE_CLAUSE_TYPES)),
        is_valid_list_format(ListFormat(FORMAT_INTERFACE_MEMBERS)),
        is_valid_list_format(ListFormat(FORMAT_ENUM_MEMBERS)),
        is_valid_list_format(ListFormat(LF_PRESERVE_LINES)),
        is_valid_list_format(ListFormat(FORMAT_NAMED_IMPORTS_OR_EXPORTS_ELEMENTS)),
        is_valid_list_format(ListFormat(FORMAT_INDEX_SIGNATURE_PARAMETERS)),
        is_valid_list_format(ListFormat(FORMAT_TEMPLATE_EXPRESSION_SPANS)),
        is_valid_list_format(ListFormat(FORMAT_JSX_ELEMENT_OR_FRAGMENT_CHILDREN)),
        is_valid_list_format(ListFormat(FORMAT_JSX_ELEMENT_ATTRIBUTES)),
        is_valid_list_format(ListFormat(FORMAT_OBJECT_BINDING_PATTERN_ELEMENTS)),
        is_valid_list_format(ListFormat(FORMAT_ARRAY_BINDING_PATTERN_ELEMENTS)),
        is_valid_list_format(ListFormat(FORMAT_IMPORT_ATTRIBUTES)),
        is_valid_list_format(block_format(statements_len, multi_line)),
{
    reveal(is_valid_list_format);
    assert(valid_list_flags(FORMAT_SINGLE_LINE_BLOCK_STATEMENTS)) by (bit_vector);
    assert(valid_list_flags(FORMAT_MULTI_LINE_BLOCK_STATEMENTS)) by (bit_vector);
    assert(valid_list_flags(FORMAT_CALL_ARGUMENTS)) by (bit_vector);
    assert(valid_list_flags(FORMAT_NEW_ARGUMENTS)) by (bit_vector);
    assert(valid_list_flags(FORMAT_TYPE_ARGUMENTS)) by (bit_vector);
    assert(valid_list_flags(FORMAT_SINGLE_ARROW_PARAMETER)) by (bit_vector);
    assert(valid_list_flags(FORMAT_CLASS_MEMBERS)) by (bit_vector);
    assert(valid_list_flags(FORMAT_UNION_TYPE_CONSTITUENTS)) by (bit_vector);
    assert(valid_list_flags(FORMAT_INTERSECTION_TYPE_CONSTITUENTS)) by (bit_vector);
    assert(valid_list_flags(FORMAT_MODIFIERS)) by (bit_vector);
    assert(valid_list_flags(FORMAT_DECORATORS)) by (bit_vector);
    assert(valid_list_flags(FORMAT_MULTI_LINE_FUNCTION_BODY_STATEMENTS)) by (bit_vector);
    assert(valid_list_flags(FORMAT_CASE_OR_DEFAULT_CLAUSE_STATEMENTS)) by (bit_vector);
    assert(valid_list_flags(FORMAT_SINGLE_CLAUSE_STATEMENT)) by (bit_vector);
    assert(valid_list_flags(FORMAT_OBJECT_LITERAL_PROPERTIES | LF_NONE | LF_NONE)) by (bit_vector);
    assert(valid_list_flags(FORMAT_OBJECT_LITERAL_PROPERTIES | LF_ALLOW_TRAILING_COMMA | LF_NONE)) by (bit_vector);
    assert(valid_list_flags(FORMAT_OBJECT_LITERAL_PROPERTIES | LF_NONE | LF_PREFER_NEW_LINE)) by (bit_vector);
    assert(valid_list_flags(FORMAT_OBJECT_LITERAL_PROPERTIES | LF_ALLOW_TRAILING_COMMA | LF_PREFER_NEW_LINE)) by (bit_vector);
    assert(valid_list_flags(FORMAT_ARRAY_LITERAL_ELEMENTS | LF_NONE)) by (bit_vector);
    assert(valid_list_flags(FORMAT_ARRAY_LITERAL_ELEMENTS | LF_PREFER_NEW_LINE)) by (bit_vector);
    assert(valid_list_flags(FORMAT_SINGLE_LINE_TUPLE_TYPE_ELEMENTS | LF_NO_SPACE_IF_EMPTY)) by (bit_vector);
    assert(valid_list_flags(FORMAT_MULTI_LINE_TUPLE_TYPE_ELEMENTS | LF_NO_SPACE_IF_EMPTY)) by (bit_vector);
    assert(valid_list_flags(FORMAT_SINGLE_LINE_TYPE_LITERAL_MEMBERS | LF_NO_SPACE_IF_EMPTY)) by (bit_vector);
    assert(valid_list_flags(FORMAT_MULTI_LINE_TYPE_LITERAL_MEMBERS | LF_NO_SPACE_IF_EMPTY)) by (bit_vector);
    assert(valid_list_flags(FORMAT_HERITAGE_CLAUSES)) by (bit_vector);
    assert(valid_list_flags(FORMAT_CLASS_HERITAGE_CLAUSES)) by (bit_vector);
    assert(valid_list_flags(FORMAT_ENUM_MEMBERS)) by (bit_vector);
    assert(valid_list_flags(LF_PRESERVE_LINES)) by (bit_vector);
    assert(valid_list_flags(FORMAT_NAMED_IMPORTS_OR_EXPORTS_ELEMENTS)) by (bit_vector);
    assert(valid_list_flags(FORMAT_INDEX_SIGNATURE_PARAMETERS)) by (bit_vector);
    assert(valid_list_flags(FORMAT_TEMPLATE_EXPRESSION_SPANS)) by (bit_vector);
    assert(valid_list_flags(FORMAT_JSX_ELEMENT_ATTRIBUTES)) by (bit_vector);
    assert(valid_list_flags(FORMAT_ARRAY_BINDING_PATTERN_ELEMENTS)) by (bit_vector);
    assert(valid_list_flags(FORMAT_IMPORT_ATTRIBUTES)) by (bit_vector);
}

/// The text a node is printed as, at no particular precedence: the document of
/// the printer's `write_node_worker`. `ie` is whether the node lies in the
/// `extends` clause of a conditional type.
pub open spec fn doc_node(c: PrintContext, n: Node, ie: bool) -> Seq<Piece>
    decreases n, 2int, 0int,
{
    match n {
        Node::Identifier(s) => t(s@),
        Node::NumericLiteral(s) => t(literal_digits(s@, c.numeric_separators)),
        Node::KeywordExpression(k) => t(expression_keyword_text(k)),
        Node::NoSubstitutionTemplateLiteral(s) => t(template_text(s@)),
        Node::StringLiteral { text, single_quote } => t(string_literal_text(text@, single_quote)),
        Node::BigIntLiteral(s) => t(literal_digits(s@, c.numeric_separators)),
        Node::RegularExpressionLiteral(s) => t(s@),
        Node::PrivateIdentifier(s) => t(s@),
        Node::MetaProperty { keyword, name } => (match keyword {
            MetaPropertyKeyword::New => t("new"@),
            MetaPropertyKeyword::Import => t("import"@),
        }) + t("."@) + t(name@),
        Node::SemicolonClassElement => t(";"@),
        Node::JsxText(s) => t(s@),
        Node::ThisType => t("this"@),
        Node::ImportAttributes { .. } => doc_import_attributes(c, n, ie),
        Node::ImportAttribute { .. } => doc_import_attributes(c, n, ie),
        Node::ObjectBindingPattern { .. } => doc_binding_pattern(c, n, ie),
        Node::ArrayBindingPattern { .. } => doc_binding_pattern(c, n, ie),
        Node::BindingElement { .. } => doc_binding_pattern(c, n, ie),
        Node::OmittedExpression => Seq::empty(),
        Node::BinaryExpression { .. } => doc_binary_expression(c, n, ie),
        Node::ConditionalExpression { .. } => doc_conditional_expression(c, n, ie),
        Node::PrefixUnaryExpression { .. } => doc_prefix_unary_expression(c, n, ie),
        Node::PostfixUnaryExpression { .. } => doc_postfix_unary_expression(c, n, ie),
        Node::DeleteExpression(..) => doc_keyword_operator_expression(c, n, ie),
        Node::VoidExpression(..) => doc_keyword_operator_expression(c, n, ie),
        Node::TypeOfExpression(..) => doc_keyword_operator_expression(c, n, ie),
        Node::AwaitExpression(..) => doc_keyword_operator_expression(c, n, ie),
        Node::YieldExpression { .. } => doc_yield_expression(c, n, ie),
        Node::PropertyAccessExpression { .. } => doc_property_access_expression(c, n, ie),
        Node::ElementAccessExpression { .. } => doc_element_access_expression(c, n, ie),
        Node::CallExpression { .. } => doc_call_expression(c, n, ie),
        Node::NewExpression { .. } => doc_new_expression(c, n, ie),
        Node::TaggedTemplateExpression { .. } => doc_tagged_template_expression(c, n, ie),
        Node::ParenthesizedExpression(..) => doc_parenthesized(c, n, ie),
        Node::ArrowFunction { .. } => doc_arrow_function(c, n, ie),
        Node::FunctionExpression { .. } => doc_function_expression(c, n, ie),
        Node::ClassExpression { .. } => doc_class(c, n, ie),
        Node::ObjectLiteralExpression { .. } => doc_object_literal_expression(c, n, ie),
        Node::ArrayLiteralExpression { .. } => doc_array_literal_expression(c, n, ie),
        Node::SpreadElement(..) => doc_spread(c, n, ie),
        Node::AsExpression { .. } => doc_as_or_satisfies_expression(c, n, ie),
        Node::SatisfiesExpression { .. } => doc_as_or_satisfies_expression(c, n, ie),
        Node::NonNullExpression(..) => doc_non_null_or_type_assertion(c, n, ie),
        Node::TypeAssertionExpression { .. } => doc_non_null_or_type_assertion(c, n, ie),
        Node::ExpressionWithTypeArguments { .. } => doc_expression_with_type_arguments(c, n, ie),
        Node::PropertyAssignment { .. } => doc_property_names(c, n, ie),
        Node::ShorthandPropertyAssignment(s) => t(s@),
        Node::SpreadAssignment(..) => doc_spread(c, n, ie),
        Node::ComputedPropertyName(..) => doc_property_names(c, n, ie),
        Node::Parameter { .. } => doc_parameter(c, n, ie),
        Node::PropertyDeclaration { .. } => doc_property_declaration(c, n, ie),
        Node::Modifier(k) => t(modifier_text(k)),
        Node::Decorator(..) => doc_decorator(c, n, ie),
        Node::TypeReference { .. } => doc_type_reference(c, n, ie),
        Node::KeywordType(k) => t(type_keyword_text(k)),
        Node::UnionType(..) => doc_union_or_intersection_type(c, n, ie),
        Node::IntersectionType(..) => doc_union_or_intersection_type(c, n, ie),
        Node::ArrayType(..) => doc_postfix_type(c, n, ie),
        Node::TupleType { .. } => doc_tuple_type(c, n, ie),
        Node::OptionalType(..) => doc_postfix_type(c, n, ie),
        Node::RestType(..) => doc_postfix_type(c, n, ie),
        Node::FunctionType { .. } => doc_function_type(c, n, ie),
        Node::InferType { .. } => doc_infer_type(c, n, ie),
        Node::TypeOperator { .. } => doc_type_operator(c, n, ie),
        Node::IndexedAccessType { .. } => doc_indexed_access_type(c, n, ie),
        Node::TypeQuery { .. } => doc_type_reference(c, n, ie),
        Node::ConditionalType { .. } => doc_conditional_type(c, n, ie),
        Node::ParenthesizedType(..) => doc_parenthesized(c, n, ie),
        Node::ExpressionStatement(..) => doc_expression_statement(c, n, ie),
        Node::ExportAssignment { .. } => doc_export_assignment(c, n, ie),
        Node::TypeAliasDeclaration { .. } => doc_type_alias_declaration(c, n, ie),
        Node::VariableStatement { .. } => doc_variable_statement(c, n, ie),
        Node::VariableDeclaration { .. } => doc_variable_declaration(c, n, ie),
        Node::ReturnStatement(..) => doc_return_statement(c, n, ie),
        Node::IfStatement { .. } => doc_if_statement(c, n, ie),
        Node::Block { .. } => doc_block(c, n, ie),
        Node::EmptyStatement => t(";"@),
        Node::FunctionDeclaration { .. } => doc_function_declaration(c, n, ie),
        Node::ClassDeclaration { .. } => doc_class(c, n, ie),
        Node::SourceFile { .. } => doc_source_file_node(c, n, ie),
        Node::DoStatement { .. } => doc_loop_statement(c, n, ie),
        Node::WhileStatement { .. } => doc_loop_statement(c, n, ie),
        Node::ForStatement { .. } => doc_for_statement(c, n, ie),
        Node::ForInStatement { .. } => doc_for_in_or_of_statement(c, n, ie),
        Node::ForOfStatement { .. } => doc_for_in_or_of_statement(c, n, ie),
        Node::ContinueStatement(..) => doc_jump_statement(c, n, ie),
        Node::BreakStatement(..) => doc_jump_statement(c, n, ie),
        Node::ThrowStatement(..) => doc_jump_statement(c, n, ie),
        Node::TryStatement { .. } => doc_try_statement(c, n, ie),
        Node::CatchClause { .. } => doc_catch_clause(c, n, ie),
        Node::SwitchStatement { .. } => doc_switch_statement(c, n, ie),
        Node::CaseClause { .. } => doc_case_or_default_clause(c, n, ie),
        Node::DefaultClause { .. } => doc_case_or_default_clause(c, n, ie),
        Node::LabeledStatement { .. } => doc_labeled_or_with_statement(c, n, ie),
        Node::DebuggerStatement => t("debugger"@) + t(";"@),
        Node::WithStatement { .. } => doc_labeled_or_with_statement(c, n, ie),
        Node::VariableDeclarationList { .. } => doc_variable_declaration_list(c, n, ie),
        Node::TypeParameter { .. } => doc_type_parameter(c, n, ie),
        Node::HeritageClause { .. } => doc_heritage_clause(c, n, ie),
        Node::InterfaceDeclaration { .. } => doc_interface_declaration(c, n, ie),
        Node::TypeLiteral { .. } => doc_type_literal(c, n, ie),
        Node::PropertySignature { .. } => doc_signature(c, n, ie),
        Node::MethodSignature { .. } => doc_signature(c, n, ie),
        Node::MethodDeclaration { .. } => doc_method_like(c, n, ie),
        Node::Constructor { .. } => doc_method_like(c, n, ie),
        Node::GetAccessor { .. } => doc_method_like(c, n, ie),
        Node::SetAccessor { .. } => doc_method_like(c, n, ie),
        Node::EnumDeclaration { .. } => doc_enum(c, n, ie),
        Node::EnumMember { .. } => doc_enum(c, n, ie),
        Node::MappedType { .. } => doc_mapped_type(c, n, ie),
        Node::ImportDeclaration { .. } => doc_import_declaration(c, n, ie),
        Node::ImportClause { .. } => doc_import_part(c, n, ie),
        Node::NamespaceImport { .. } => doc_import_part(c, n, ie),
        Node::NamedImports { .. } => doc_import_part(c, n, ie),
        Node::ImportSpecifier { .. } => doc_import_part(c, n, ie),
        Node::ExportDeclaration { .. } => doc_export_declaration(c, n, ie),
        Node::NamedExports { .. } => doc_export_part(c, n, ie),
        Node::NamespaceExport { .. } => doc_export_part(c, n, ie),
        Node::ExportSpecifier { .. } => doc_export_part(c, n, ie),
        Node::ModuleDeclaration { .. } => doc_module(c, n, ie),
        Node::ModuleBlock { .. } => doc_module(c, n, ie),
        Node::NamespaceExportDeclaration { .. } => doc_import_equals(c, n, ie),
        Node::ImportEqualsDeclaration { .. } => doc_import_equals(c, n, ie),
        Node::ExternalModuleReference(..) => doc_import_equals(c, n, ie),
        Node::ImportType { .. } => doc_import_type(c, n, ie),
        Node::LiteralType(..) => doc_literal_or_predicate_type(c, n, ie),
        Node::TypePredicate { .. } => doc_literal_or_predicate_type(c, n, ie),
        Node::ConstructorType { .. } => doc_constructor_type(c, n, ie),
        Node::IndexSignature { .. } => doc_member_signature(c, n, ie),
        Node::CallSignature { .. } => doc_member_signature(c, n, ie),
        Node::ConstructSignature { .. } => doc_member_signature(c, n, ie),
        Node::NamedTupleMember { .. } => doc_named_tuple_member(c, n, ie),
        Node::TemplateExpression { .. } => doc_template(c, n, ie),
        Node::TemplateSpan { .. } => doc_template(c, n, ie),
        Node::TemplateLiteralType { .. } => doc_template(c, n, ie),
        Node::TemplateLiteralTypeSpan { .. } => doc_template(c, n, ie),
        Node::ClassStaticBlockDeclaration { .. } => doc_class_static_block(c, n, ie),
        Node::JsxElement { .. } => doc_jsx_element(c, n, ie),
        Node::JsxSelfClosingElement { .. } => doc_jsx_element(c, n, ie),
        Node::JsxOpeningElement { .. } => doc_jsx_element(c, n, ie),
        Node::JsxClosingElement { .. } => doc_jsx_element(c, n, ie),
        Node::JsxFragment { .. } => doc_jsx_element(c, n, ie),
        Node::JsxExpression { .. } => doc_jsx_part(c, n, ie),
        Node::JsxAttributes { .. } => doc_jsx_part(c, n, ie),
        Node::JsxAttribute { .. } => doc_jsx_part(c, n, ie),
        Node::JsxSpreadAttribute { .. } => doc_jsx_part(c, n, ie),
        Node::JsxNamespacedName { .. } => doc_jsx_part(c, n, ie),
    }
}

/// The document of a binary expression, each operand parenthesized as its precedence and the `??` mixing rule ask.
pub open spec fn doc_binary_expression(c: PrintContext, n: Node, ie: bool) -> Seq<Piece>
    decreases n, 1int, 0int,
{
    match n {
        Node::BinaryExpression {
            left,
            operator,
            right,
            line_break_before_operator,
            line_break_after_operator,
        } => {
            let (lp, rp) = binary_operand_precedences(*left, operator, *right);
            let lb = kept_line_break(c, line_break_before_operator);
            let la = kept_line_break(c, line_break_after_operator);
            doc_expr(c, *left, lp, ie) + lines_and_indent_doc(lb, operator != BinaryOperator::Comma) + t(
                binary_operator_text(operator),
            ) + lines_and_indent_doc(la, true) + doc_expr(c, *right, rp, ie) + break_dedent_doc(la)
                + break_dedent_doc(lb)
        },
        _ => Seq::empty(),
    }
}

/// The number of line breaks kept where the source breaks the line between two
/// parts of an expression: one when the printer prints a source file and the
/// source breaks the line there, none otherwise.
pub open spec fn kept_line_break(c: PrintContext, source_break: bool) -> int {
    if c.in_source_file && source_break {
        1
    } else {
        0
    }
}

/// The step into the indentation taken after `lines` kept line breaks.
pub open spec fn break_indent_doc(lines: int) -> Seq<Piece> {
    if lines > 0 {
        seq![Piece::Indent]
    } else {
        Seq::empty()
    }
}

/// The step out of the indentation taken for `lines` kept line breaks.
pub open spec fn break_dedent_doc(lines: int) -> Seq<Piece> {
    if lines > 0 {
        seq![Piece::Dedent]
    } else {
        Seq::empty()
    }
}

/// The document of a conditional expression.
pub open spec fn doc_conditional_expression(c: PrintContext, n: Node, ie: bool) -> Seq<Piece>
    decreases n, 1int, 0int,
{
    match n {
        Node::ConditionalExpression {
            condition,
            when_true,
            when_false,
            line_break_before_question,
            line_break_after_question,
            line_break_before_colon,
            line_break_after_colon,
        } => {
            let cp = if is_binary_with(*condition, BinaryOperator::QuestionQuestion) {
                OPERATOR_PRECEDENCE_COALESCE
            } else {
                OPERATOR_PRECEDENCE_LOGICAL_OR
            };
            let bq = kept_line_break(c, line_break_before_question);
            let aq = kept_line_break(c, line_break_after_question);
            let bc = kept_line_break(c, line_break_before_colon);
            let ac = kept_line_break(c, line_break_after_colon);
            doc_expr(c, *condition, cp, ie) + lines_and_indent_doc(bq, true) + t("?"@) + lines_and_indent_doc(
                aq,
                true,
            ) + doc_expr(c, *when_true, OPERATOR_PRECEDENCE_YIELD, ie) + break_dedent_doc(aq) + break_dedent_doc(
                bq,
            ) + lines_and_indent_doc(bc, true) + t(":"@) + lines_and_indent_doc(ac, true) + doc_expr(
                c,
                *when_false,
                OPERATOR_PRECEDENCE_YIELD,
                ie,
            ) + break_dedent_doc(ac) + break_dedent_doc(bc)
        },
        _ => Seq::empty(),
    }
}

/// The document of a prefix unary expression; `+ +a` and `- -a` keep a space.
pub open spec fn doc_prefix_unary_expression(c: PrintContext, n: Node, ie: bool) -> Seq<Piece>
    decreases n, 1int, 0int,
{
    match n {
        Node::PrefixUnaryExpression { operator, operand } => t(prefix_operator_text(operator)) + (
        if prefix_needs_space(operator, *operand) {
            t(" "@)
        } else {
            Seq::empty()
        }) + doc_expr(c, *operand, OPERATOR_PRECEDENCE_UNARY, ie),
        _ => Seq::empty(),
    }
}

/// The document of a postfix unary expression.
pub open spec fn doc_postfix_unary_expression(c: PrintContext, n: Node, ie: bool) -> Seq<Piece>
    decreases n, 1int, 0int,
{
    match n {
        Node::PostfixUnaryExpression { operand, operator } => doc_expr(
            c,
            *operand,
            OPERATOR_PRECEDENCE_UPDATE,
            ie,
        ) + t(postfix_operator_text(operator)),
        _ => Seq::empty(),
    }
}

/// The document of a `delete`, `void`, `typeof` or `await` expression.
pub open spec fn doc_keyword_operator_expression(c: PrintContext, n: Node, ie: bool) -> Seq<Piece>
    decreases n, 1int, 0int,
{
    match n {
        Node::DeleteExpression(e) => t("delete"@) + t(" "@) + doc_expr(
            c,
            *e,
            OPERATOR_PRECEDENCE_UNARY,
            ie,
        ),
        Node::VoidExpression(e) => t("void"@) + t(" "@) + doc_expr(
            c,
            *e,
            OPERATOR_PRECEDENCE_UNARY,
            ie,
        ),
        Node::TypeOfExpression(e) => t("typeof"@) + t(" "@) + doc_expr(
            c,
            *e,
            OPERATOR_PRECEDENCE_UNARY,
            ie,
        ),
        Node::AwaitExpression(e) => t("await"@) + t(" "@) + doc_expr(
            c,
            *e,
            OPERATOR_PRECEDENCE_UNARY,
            ie,
        ),
        _ => Seq::empty(),
    }
}

/// The document of a `yield` expression.
pub open spec fn doc_yield_expression(c: PrintContext, n: Node, ie: bool) -> Seq<Piece>
    decreases n, 1int, 0int,
{
    match n {
        Node::YieldExpression { asterisk, expression } => t("yield"@) + (if asterisk {
            t("*"@)
        } else {
            Seq::empty()
        }) + match expression {
            Option::Some(e) => t(" "@) + doc_expr(c, *e, OPERATOR_PRECEDENCE_DISALLOW_COMMA, ie),
            Option::None => Seq::empty(),
        },
        _ => Seq::empty(),
    }
}

/// The document of a property access; a whole-number literal before `.` gets a second dot.
pub open spec fn doc_property_access_expression(c: PrintContext, n: Node, ie: bool) -> Seq<Piece>
    decreases n, 1int, 0int,
{
    match n {
        Node::PropertyAccessExpression {
            expression,
            name,
            question_dot,
            optional_chain,
            line_break_before_dot,
            line_break_after_dot,
        } => {
            let p = if is_new_without_arguments(*expression) {
                OPERATOR_PRECEDENCE_PARENTHESES
            } else if optional_chain {
                OPERATOR_PRECEDENCE_OPTIONAL_CHAIN
            } else {
                OPERATOR_PRECEDENCE_MEMBER
            };
            let bd = kept_line_break(c, line_break_before_dot);
            let ad = kept_line_break(c, line_break_after_dot);
            doc_expr(c, *expression, p, ie) + lines_doc(bd) + break_indent_doc(bd) + (if !question_dot
                && needs_dot_dot(*expression) && bd == 0 {
                t("."@)
            } else {
                Seq::empty()
            }) + (if question_dot {
                t("?."@)
            } else {
                t("."@)
            }) + lines_doc(ad) + break_indent_doc(ad) + t(name@) + break_dedent_doc(ad) + break_dedent_doc(bd)
        },
        _ => Seq::empty(),
    }
}

/// The document of an element access.
pub open spec fn doc_element_access_expression(c: PrintContext, n: Node, ie: bool) -> Seq<Piece>
    decreases n, 1int, 0int,
{
    match n {
        Node::ElementAccessExpression { expression, argument, question_dot, optional_chain } => {
            let p = if optional_chain {
                OPERATOR_PRECEDENCE_OPTIONAL_CHAIN
            } else {
                OPERATOR_PRECEDENCE_MEMBER
            };
            doc_expr(c, *expression, p, ie) + (if question_dot {
                t("?."@)
            } else {
                Seq::empty()
            }) + t("["@) + doc_expr(c, *argument, OPERATOR_PRECEDENCE_COMMA, ie) + t("]"@)
        },
        _ => Seq::empty(),
    }
}

/// The document of a call.
pub open spec fn doc_call_expression(c: PrintContext, n: Node, ie: bool) -> Seq<Piece>
    decreases n, 1int, 0int,
{
    match n {
        Node::CallExpression { expression, type_arguments, arguments, question_dot, optional_chain } => {
            let p = if is_new_without_arguments(*expression) {
                OPERATOR_PRECEDENCE_PARENTHESES
            } else if optional_chain {
                OPERATOR_PRECEDENCE_OPTIONAL_CHAIN
            } else {
                OPERATOR_PRECEDENCE_MEMBER
            };
            doc_expr(c, *expression, p, ie) + (if question_dot {
                t("?."@)
            } else {
                Seq::empty()
            }) + doc_list(
                c,
                type_arguments@,
                0,
                type_arguments@.len() as int,
                ListFormat(FORMAT_TYPE_ARGUMENTS),
                false,
                ChildMode::TypeOutsideExtends,
                ie,
            ) + doc_list(
                c,
                arguments@,
                0,
                arguments@.len() as int,
                ListFormat(FORMAT_CALL_ARGUMENTS),
                false,
                ChildMode::Expression(OPERATOR_PRECEDENCE_SPREAD),
                ie,
            )
        },
        _ => Seq::empty(),
    }
}

/// The document of a `new` expression; a callee that is a call is parenthesized.
pub open spec fn doc_new_expression(c: PrintContext, n: Node, ie: bool) -> Seq<Piece>
    decreases n, 1int, 0int,
{
    match n {
        Node::NewExpression { expression, type_arguments, arguments } => {
            let p = if *expression is CallExpression {
                OPERATOR_PRECEDENCE_PARENTHESES
            } else {
                OPERATOR_PRECEDENCE_MEMBER
            };
            t("new"@) + t(" "@) + doc_expr(c, *expression, p, ie) + doc_list(
                c,
                type_arguments@,
                0,
                type_arguments@.len() as int,
                ListFormat(FORMAT_TYPE_ARGUMENTS),
                false,
                ChildMode::TypeOutsideExtends,
                ie,
            ) + match arguments {
                Option::Some(a) => doc_list(
                    c,
                    a@,
                    0,
                    a@.len() as int,
                    ListFormat(FORMAT_NEW_ARGUMENTS),
                    false,
                    ChildMode::Expression(OPERATOR_PRECEDENCE_SPREAD),
                    ie,
                ),
                Option::None => Seq::empty(),
            }
        },
        _ => Seq::empty(),
    }
}

/// The document of a tagged template.
pub open spec fn doc_tagged_template_expression(c: PrintContext, n: Node, ie: bool) -> Seq<Piece>
    decreases n, 1int, 0int,
{
    match n {
        Node::TaggedTemplateExpression { tag, type_arguments, template } => doc_expr(
            c,
            *tag,
            OPERATOR_PRECEDENCE_MEMBER,
            ie,
        ) + doc_list(
            c,
            type_arguments@,
            0,
            type_arguments@.len() as int,
            ListFormat(FORMAT_TYPE_ARGUMENTS),
            false,
            ChildMode::TypeOutsideExtends,
            ie,
        ) + t(" "@) + doc_node(c, *template, ie),
        _ => Seq::empty(),
    }
}

/// The document of an arrow function; a lone plain parameter goes without parentheses.
pub open spec fn doc_arrow_function(c: PrintContext, n: Node, ie: bool) -> Seq<Piece>
    decreases n, 1int, 0int,
{
    match n {
        Node::ArrowFunction { modifiers, body, .. } => doc_modifiers(c, modifiers@, 0, false, ie)
            + signature_like_doc(c, n, ie) + t(" "@) + t("=>"@) + t(" "@) + doc_concise_body(c, *body, ie),
        _ => Seq::empty(),
    }
}

/// The document of a function expression.
pub open spec fn doc_function_expression(c: PrintContext, n: Node, ie: bool) -> Seq<Piece>
    decreases n, 1int, 0int,
{
    match n {
        Node::FunctionExpression { modifiers, asterisk, name, body, .. } => doc_modifiers(
            c,
            modifiers@,
            0,
            false,
            ie,
        ) + t("function"@) + (if asterisk {
            t("*"@)
        } else {
            Seq::empty()
        }) + match name {
            Option::Some(s) => t(" "@) + t(s@),
            Option::None => t(" "@),
        } + signature_like_doc(c, n, ie) + t(" "@) + doc_function_body(c, *body, ie),
        _ => Seq::empty(),
    }
}

/// The document of a class expression or declaration.
pub open spec fn doc_class(c: PrintContext, n: Node, ie: bool) -> Seq<Piece>
    decreases n, 1int, 0int,
{
    if n is ClassExpression || n is ClassDeclaration {
        class_head_doc(c, n, ie) + class_body_doc(c, n, ie)
    } else {
        Seq::empty()
    }
}

/// The document of an object literal.
pub open spec fn doc_object_literal_expression(c: PrintContext, n: Node, ie: bool) -> Seq<Piece>
    decreases n, 1int, 0int,
{
    match n {
        Node::ObjectLiteralExpression { properties, multi_line, has_trailing_comma } => doc_list(
            c,
            properties@,
            0,
            properties@.len() as int,
            object_literal_format(c, multi_line),
            has_trailing_comma,
            ChildMode::Plain,
            ie,
        ),
        _ => Seq::empty(),
    }
}

/// The document of an array literal; a last element that is omitted keeps its comma.
pub open spec fn doc_array_literal_expression(c: PrintContext, n: Node, ie: bool) -> Seq<Piece>
    decreases n, 1int, 0int,
{
    match n {
        Node::ArrayLiteralExpression { elements, multi_line, has_trailing_comma } => doc_list(
            c,
            elements@,
            0,
            elements@.len() as int,
            array_literal_format(multi_line),
            has_trailing_comma || (elements@.len() > 0 && elements@.last() is OmittedExpression),
            ChildMode::Expression(OPERATOR_PRECEDENCE_SPREAD),
            ie,
        ),
        _ => Seq::empty(),
    }
}

/// The document of a spread element or spread assignment.
pub open spec fn doc_spread(c: PrintContext, n: Node, ie: bool) -> Seq<Piece>
    decreases n, 1int, 0int,
{
    match n {
        Node::SpreadElement(e) => t("..."@) + doc_expr(c, *e, OPERATOR_PRECEDENCE_DISALLOW_COMMA, ie),
        Node::SpreadAssignment(e) => t("..."@) + doc_node(c, *e, ie),
        _ => Seq::empty(),
    }
}

/// The document of an `as` or `satisfies` expression.
pub open spec fn doc_as_or_satisfies_expression(c: PrintContext, n: Node, ie: bool) -> Seq<Piece>
    decreases n, 1int, 0int,
{
    match n {
        Node::AsExpression { expression, type_node } => doc_expr(
            c,
            *expression,
            OPERATOR_PRECEDENCE_RELATIONAL,
            ie,
        ) + t(" "@) + t("as"@) + t(" "@) + doc_node(c, *type_node, ie),
        Node::SatisfiesExpression { expression, type_node } => doc_expr(
            c,
            *expression,
            OPERATOR_PRECEDENCE_RELATIONAL,
            ie,
        ) + t(" "@) + t("satisfies"@) + t(" "@) + doc_node(c, *type_node, ie),
        _ => Seq::empty(),
    }
}

/// The document of a non-null assertion or a type assertion.
pub open spec fn doc_non_null_or_type_assertion(c: PrintContext, n: Node, ie: bool) -> Seq<Piece>
    decreases n, 1int, 0int,
{
    match n {
        Node::NonNullExpression(e) => doc_expr(c, *e, OPERATOR_PRECEDENCE_MEMBER, ie) + t("!"@),
        Node::TypeAssertionExpression { type_node, expression } => t("<"@) + doc_node(
            c,
            *type_node,
            ie,
        ) + t(">"@) + doc_expr(c, *expression, OPERATOR_PRECEDENCE_UPDATE, ie),
        _ => Seq::empty(),
    }
}

/// The document of an expression with type arguments.
pub open spec fn doc_expression_with_type_arguments(c: PrintContext, n: Node, ie: bool) -> Seq<Piece>
    decreases n, 1int, 0int,
{
    match n {
        Node::ExpressionWithTypeArguments { expression, type_arguments } => doc_expr(
            c,
            *expression,
            OPERATOR_PRECEDENCE_MEMBER,
            ie,
        ) + doc_list(
            c,
            type_arguments@,
            0,
            type_arguments@.len() as int,
            ListFormat(FORMAT_TYPE_ARGUMENTS),
            false,
            ChildMode::TypeOutsideExtends,
            ie,
        ),
        _ => Seq::empty(),
    }
}

/// The document of a property assignment or a computed property name.
pub open spec fn doc_property_names(c: PrintContext, n: Node, ie: bool) -> Seq<Piece>
    decreases n, 1int, 0int,
{
    match n {
        Node::PropertyAssignment { name, initializer } => doc_node(c, *name, ie) + t(":"@) + t(
            " "@,
        ) + doc_expr(c, *initializer, OPERATOR_PRECEDENCE_DISALLOW_COMMA, ie),
        Node::ComputedPropertyName(e) => t("["@) + doc_expr(
            c,
            *e,
            OPERATOR_PRECEDENCE_DISALLOW_COMMA,
            ie,
        ) + t("]"@),
        _ => Seq::empty(),
    }
}

/// The document of a parameter.
pub open spec fn doc_parameter(c: PrintContext, n: Node, ie: bool) -> Seq<Piece>
    decreases n, 1int, 0int,
{
    match n {
        Node::Parameter { modifiers, dot_dot_dot, name, question, type_node, initializer } => doc_modifiers(
            c,
            modifiers@,
            0,
            true,
            ie,
        ) + (if dot_dot_dot {
            t("..."@)
        } else {
            Seq::empty()
        }) + doc_node(c, *name, ie) + (if question {
            t("?"@)
        } else {
            Seq::empty()
        }) + match type_node {
            Option::Some(ty) => t(":"@) + t(" "@) + doc_type(c, *ty, TYPE_PRECEDENCE_LOWEST, false),
            Option::None => Seq::empty(),
        } + match initializer {
            Option::Some(e) => t(" "@) + t("="@) + t(" "@) + doc_node(c, *e, ie),
            Option::None => Seq::empty(),
        },
        _ => Seq::empty(),
    }
}

/// The document of a property declaration.
pub open spec fn doc_property_declaration(c: PrintContext, n: Node, ie: bool) -> Seq<Piece>
    decreases n, 1int, 0int,
{
    match n {
        Node::PropertyDeclaration { modifiers, name, question, exclamation, type_node, initializer } =>
            doc_modifiers(c, modifiers@, 0, true, ie) + doc_node(c, *name, ie) + (if question {
            t("?"@)
        } else if exclamation {
            t("!"@)
        } else {
            Seq::empty()
        }) + match type_node {
            Option::Some(ty) => t(":"@) + t(" "@) + doc_node(c, *ty, ie),
            Option::None => Seq::empty(),
        } + match initializer {
            Option::Some(e) => t(" "@) + t("="@) + t(" "@) + doc_node(c, *e, ie),
            Option::None => Seq::empty(),
        } + t(";"@),
        _ => Seq::empty(),
    }
}

/// The document of a decorator.
pub open spec fn doc_decorator(c: PrintContext, n: Node, ie: bool) -> Seq<Piece>
    decreases n, 1int, 0int,
{
    match n {
        Node::Decorator(e) => t("@"@) + doc_expr(c, *e, OPERATOR_PRECEDENCE_LEFT_HAND_SIDE, ie),
        _ => Seq::empty(),
    }
}

/// The document of a type reference.
pub open spec fn doc_type_reference(c: PrintContext, n: Node, ie: bool) -> Seq<Piece>
    decreases n, 1int, 0int,
{
    match n {
        Node::TypeReference { name, type_arguments } => t(name@) + doc_list(
            c,
            type_arguments@,
            0,
            type_arguments@.len() as int,
            ListFormat(FORMAT_TYPE_ARGUMENTS),
            false,
            ChildMode::TypeOutsideExtends,
            ie,
        ),
        Node::TypeQuery { name, type_arguments } => t("typeof"@) + t(" "@) + t(name@) + doc_list(
            c,
            type_arguments@,
            0,
            type_arguments@.len() as int,
            ListFormat(FORMAT_TYPE_ARGUMENTS),
            false,
            ChildMode::TypeOutsideExtends,
            ie,
        ),
        _ => Seq::empty(),
    }
}

/// The document of a union or intersection type.
pub open spec fn doc_union_or_intersection_type(c: PrintContext, n: Node, ie: bool) -> Seq<Piece>
    decreases n, 1int, 0int,
{
    match n {
        Node::UnionType(types) => doc_items(
            c,
            types@,
            0,
            types@.len() as int,
            ListFormat(FORMAT_UNION_TYPE_CONSTITUENTS),
            false,
            ChildMode::Type(TYPE_PRECEDENCE_TYPE_OPERATOR),
            ie,
        ),
        Node::IntersectionType(types) => doc_items(
            c,
            types@,
            0,
            types@.len() as int,
            ListFormat(FORMAT_INTERSECTION_TYPE_CONSTITUENTS),
            false,
            ChildMode::Type(TYPE_PRECEDENCE_TYPE_OPERATOR),
            ie,
        ),
        _ => Seq::empty(),
    }
}

/// The document of an array, optional or rest type.
pub open spec fn doc_postfix_type(c: PrintContext, n: Node, ie: bool) -> Seq<Piece>
    decreases n, 1int, 0int,
{
    match n {
        Node::ArrayType(e) => doc_type(c, *e, TYPE_PRECEDENCE_POSTFIX, ie) + t("["@) + t("]"@),
        Node::OptionalType(e) => doc_type(c, *e, TYPE_PRECEDENCE_POSTFIX, ie) + t("?"@),
        Node::RestType(e) => t("..."@) + doc_type(c, *e, TYPE_PRECEDENCE_LOWEST, false),
        _ => Seq::empty(),
    }
}

/// The document of a tuple type.
pub open spec fn doc_tuple_type(c: PrintContext, n: Node, ie: bool) -> Seq<Piece>
    decreases n, 1int, 0int,
{
    match n {
        Node::TupleType { elements, single_line } => t("["@) + doc_list(
            c,
            elements@,
            0,
            elements@.len() as int,
            tuple_format(single_line),
            false,
            ChildMode::TypeOutsideExtends,
            ie,
        ) + t("]"@),
        _ => Seq::empty(),
    }
}

/// The document of a function type; inside an `extends` clause an `infer` return type with a constraint is parenthesized.
pub open spec fn doc_function_type(c: PrintContext, n: Node, ie: bool) -> Seq<Piece>
    decreases n, 1int, 0int,
{
    match n {
        Node::FunctionType { type_parameters, parameters, return_type } => type_parameters_doc(
            c,
            type_parameters@,
            ie,
        ) + parameters_doc(c, parameters@, ie) + t(" "@) + t("=>"@) + t(" "@) + (if ie && (*return_type matches Node::InferType { constraint, .. } && constraint is Some) {
            doc_type(c, *return_type, TYPE_PRECEDENCE_HIGHEST, ie)
        } else {
            doc_type(c, *return_type, TYPE_PRECEDENCE_LOWEST, ie)
        }),
        _ => Seq::empty(),
    }
}

/// The document of an `infer` type.
pub open spec fn doc_infer_type(c: PrintContext, n: Node, ie: bool) -> Seq<Piece>
    decreases n, 1int, 0int,
{
    match n {
        Node::InferType { name, constraint } => t("infer"@) + t(" "@) + t(name@) + match constraint {
            Option::Some(ct) => t(" "@) + t("extends"@) + t(" "@) + doc_type(
                c,
                *ct,
                TYPE_PRECEDENCE_LOWEST,
                true,
            ),
            Option::None => Seq::empty(),
        },
        _ => Seq::empty(),
    }
}

/// The document of a type operator; `readonly` binds its operand as a postfix type.
pub open spec fn doc_type_operator(c: PrintContext, n: Node, ie: bool) -> Seq<Piece>
    decreases n, 1int, 0int,
{
    match n {
        Node::TypeOperator { operator, type_node } => t(type_operator_text(operator)) + t(" "@)
            + doc_type(
            c,
            *type_node,
            if operator == crate::ast::TypeOperatorKind::Readonly {
                TYPE_PRECEDENCE_POSTFIX
            } else {
                TYPE_PRECEDENCE_TYPE_OPERATOR
            },
            ie,
        ),
        _ => Seq::empty(),
    }
}

/// The document of an indexed access type.
pub open spec fn doc_indexed_access_type(c: PrintContext, n: Node, ie: bool) -> Seq<Piece>
    decreases n, 1int, 0int,
{
    match n {
        Node::IndexedAccessType { object_type, index_type } => doc_type(
            c,
            *object_type,
            TYPE_PRECEDENCE_POSTFIX,
            ie,
        ) + t("["@) + doc_type(c, *index_type, TYPE_PRECEDENCE_LOWEST, false) + t("]"@),
        _ => Seq::empty(),
    }
}

/// The document of a conditional type.
pub open spec fn doc_conditional_type(c: PrintContext, n: Node, ie: bool) -> Seq<Piece>
    decreases n, 1int, 0int,
{
    match n {
        Node::ConditionalType { check_type, extends_type, true_type, false_type } => doc_type(
            c,
            *check_type,
            TYPE_PRECEDENCE_UNION,
            ie,
        ) + t(" "@) + t("extends"@) + t(" "@) + doc_type(
            c,
            *extends_type,
            TYPE_PRECEDENCE_LOWEST,
            true,
        ) + t(" "@) + t("?"@) + t(" "@) + doc_type(c, *true_type, TYPE_PRECEDENCE_LOWEST, false)
            + t(" "@) + t(":"@) + t(" "@) + doc_type(
            c,
            *false_type,
            TYPE_PRECEDENCE_LOWEST,
            false,
        ),
        _ => Seq::empty(),
    }
}

/// The document of a parenthesized expression or type.
pub open spec fn doc_parenthesized(c: PrintContext, n: Node, ie: bool) -> Seq<Piece>
    decreases n, 1int, 0int,
{
    match n {
        Node::ParenthesizedExpression(e) => t("("@) + doc_node(c, *e, ie) + t(")"@),
        Node::ParenthesizedType(e) => t("("@) + doc_type(c, *e, TYPE_PRECEDENCE_LOWEST, false) + t(
            ")"@,
        ),
        _ => Seq::empty(),
    }
}

/// The document of an expression statement; a leading function, class or object literal is parenthesized.
pub open spec fn doc_expression_statement(c: PrintContext, n: Node, ie: bool) -> Seq<Piece>
    decreases n, 1int, 0int,
{
    match n {
        Node::ExpressionStatement(e) => (if is_immediately_invoked_function(*e) {
            doc_iife(c, *e, ie)
        } else if leftmost_is_function_or_object_literal(*e) {
            doc_expr(c, *e, OPERATOR_PRECEDENCE_PARENTHESES, ie)
        } else {
            doc_expr(c, *e, OPERATOR_PRECEDENCE_COMMA, ie)
        }) + t(";"@),
        _ => Seq::empty(),
    }
}

/// The document of an `export =` or `export default` statement.
pub open spec fn doc_export_assignment(c: PrintContext, n: Node, ie: bool) -> Seq<Piece>
    decreases n, 1int, 0int,
{
    match n {
        Node::ExportAssignment { is_export_equals, expression } => t("export"@) + t(" "@) + (
        if is_export_equals {
            t("="@)
        } else {
            t("default"@)
        }) + t(" "@) + (if !is_export_equals && leftmost_is_class_or_function(*expression) {
            doc_expr(c, *expression, OPERATOR_PRECEDENCE_PARENTHESES, ie)
        } else {
            doc_expr(c, *expression, OPERATOR_PRECEDENCE_ASSIGNMENT, ie)
        }) + t(";"@),
        _ => Seq::empty(),
    }
}

/// The document of a type alias declaration.
pub open spec fn doc_type_alias_declaration(c: PrintContext, n: Node, ie: bool) -> Seq<Piece>
    decreases n, 1int, 0int,
{
    match n {
        Node::TypeAliasDeclaration { modifiers, name, type_parameters, type_node } => doc_modifiers(
            c,
            modifiers@,
            0,
            false,
            ie,
        ) + t("type"@) + t(" "@) + t(name@) + doc_list(
            c,
            type_parameters@,
            0,
            type_parameters@.len() as int,
            ListFormat(FORMAT_TYPE_PARAMETERS),
            false,
            ChildMode::Plain,
            ie,
        ) + t(" "@) + t("="@) + t(" "@) + doc_node(c, *type_node, ie) + t(";"@),
        _ => Seq::empty(),
    }
}

/// The document of a variable statement.
pub open spec fn doc_variable_statement(c: PrintContext, n: Node, ie: bool) -> Seq<Piece>
    decreases n, 1int, 0int,
{
    match n {
        Node::VariableStatement { modifiers, kind, declarations } => doc_modifiers(
            c,
            modifiers@,
            0,
            false,
            ie,
        ) + variable_keyword_doc(kind) + t(" "@) + doc_items(
            c,
            declarations@,
            0,
            declarations@.len() as int,
            ListFormat(FORMAT_VARIABLE_DECLARATION_LIST),
            false,
            ChildMode::Plain,
            ie,
        ) + t(";"@),
        _ => Seq::empty(),
    }
}

/// The document of a variable declaration.
pub open spec fn doc_variable_declaration(c: PrintContext, n: Node, ie: bool) -> Seq<Piece>
    decreases n, 1int, 0int,
{
    match n {
        Node::VariableDeclaration { name, type_node, initializer } => doc_node(c, *name, ie) + match type_node {
            Option::Some(ty) => t(":"@) + t(" "@) + doc_node(c, *ty, ie),
            Option::None => Seq::empty(),
        } + match initializer {
            Option::Some(e) => t(" "@) + t("="@) + t(" "@) + doc_expr(
                c,
                *e,
                OPERATOR_PRECEDENCE_DISALLOW_COMMA,
                ie,
            ),
            Option::None => Seq::empty(),
        },
        _ => Seq::empty(),
    }
}

/// The document of a `return` statement.
pub open spec fn doc_return_statement(c: PrintContext, n: Node, ie: bool) -> Seq<Piece>
    decreases n, 1int, 0int,
{
    match n {
        Node::ReturnStatement(e) => t("return"@) + match e {
            Option::Some(e) => t(" "@) + doc_expr(c, *e, OPERATOR_PRECEDENCE_LOWEST, ie),
            Option::None => Seq::empty(),
        } + t(";"@),
        _ => Seq::empty(),
    }
}

/// The document of an `if` statement; `else if` stays on one line.
pub open spec fn doc_if_statement(c: PrintContext, n: Node, ie: bool) -> Seq<Piece>
    decreases n, 1int, 0int,
{
    match n {
        Node::IfStatement { expression, then_statement, else_statement } => t("if"@) + t(" "@) + t(
            "("@,
        ) + doc_node(c, *expression, ie) + t(")"@) + doc_embedded(c, *then_statement, ie)
            + match else_statement {
            Option::Some(s) => (if c.preserve_source_newlines {
                t(" "@)
            } else {
                seq![Piece::Line]
            }) + t("else"@) + (if *s is IfStatement {
                t(" "@) + doc_node(c, *s, ie)
            } else {
                doc_embedded(c, *s, ie)
            }),
            Option::None => Seq::empty(),
        },
        _ => Seq::empty(),
    }
}

/// The document of a block statement.
pub open spec fn doc_block(c: PrintContext, n: Node, ie: bool) -> Seq<Piece>
    decreases n, 1int, 0int,
{
    match n {
        Node::Block { statements, multi_line } => t("{"@) + doc_list(
            c,
            statements@,
            0,
            statements@.len() as int,
            block_format(statements@.len(), multi_line),
            false,
            ChildMode::Plain,
            ie,
        ) + t("}"@),
        _ => Seq::empty(),
    }
}

/// The document of a function declaration; one without a body ends with `;`.
pub open spec fn doc_function_declaration(c: PrintContext, n: Node, ie: bool) -> Seq<Piece>
    decreases n, 1int, 0int,
{
    match n {
        Node::FunctionDeclaration { modifiers, asterisk, name, body, .. } => doc_modifiers(
            c,
            modifiers@,
            0,
            false,
            ie,
        ) + t("function"@) + (if asterisk {
            t("*"@)
        } else {
            Seq::empty()
        }) + t(" "@) + optional_text(name) + signature_like_doc(c, n, ie) + optional_body_doc(c, body, ie),
        _ => Seq::empty(),
    }
}

/// The document of the statements of a source file, each on a line of its own.
pub open spec fn doc_source_file_node(c: PrintContext, n: Node, ie: bool) -> Seq<Piece>
    decreases n, 1int, 0int,
{
    match n {
        Node::SourceFile { statements } => seq![Piece::Line] + (if statements@.len() == 0 {
            Seq::empty()
        } else {
            doc_items(
                c,
                statements@,
                0,
                statements@.len() as int,
                ListFormat(FORMAT_SOURCE_FILE_STATEMENTS),
                false,
                ChildMode::Plain,
                ie,
            )
        }),
        _ => Seq::empty(),
    }
}

/// A line break between the parts of a statement, or a space where the
/// printer keeps the lines of the source (printed nodes have none).
pub open spec fn line_or_space(c: PrintContext) -> Seq<Piece> {
    if c.preserve_source_newlines {
        t(" "@)
    } else {
        seq![Piece::Line]
    }
}

/// The document of a `do` or `while` statement.
pub open spec fn doc_loop_statement(c: PrintContext, n: Node, ie: bool) -> Seq<Piece>
    decreases n, 1int, 0int,
{
    match n {
        Node::DoStatement { statement, expression } => t("do"@) + doc_embedded(c, *statement, ie) + (
        if c.preserve_source_newlines || *statement is Block {
            t(" "@)
        } else {
            seq![Piece::Line]
        }) + t("while"@) + t(" "@) + t("("@) + doc_node(c, *expression, ie) + t(")"@) + t(";"@),
        Node::WhileStatement { expression, statement } => t("while"@) + t(" "@) + t("("@) + doc_node(
            c,
            *expression,
            ie,
        ) + t(")"@) + doc_embedded(c, *statement, ie),
        _ => Seq::empty(),
    }
}

/// The document of a `for` statement.
pub open spec fn doc_for_statement(c: PrintContext, n: Node, ie: bool) -> Seq<Piece>
    decreases n, 1int, 0int,
{
    match n {
        Node::ForStatement { initializer, condition, incrementor, statement } => t("for"@) + t(" "@)
            + t("("@) + match initializer {
            Option::Some(i) => doc_node(c, *i, ie),
            Option::None => Seq::empty(),
        } + t(";"@) + match condition {
            Option::Some(e) => t(" "@) + doc_node(c, *e, ie),
            Option::None => Seq::empty(),
        } + t(";"@) + match incrementor {
            Option::Some(e) => t(" "@) + doc_node(c, *e, ie),
            Option::None => Seq::empty(),
        } + t(")"@) + doc_embedded(c, *statement, ie),
        _ => Seq::empty(),
    }
}

/// The document of a `for`-`in` or `for`-`of` statement.
pub open spec fn doc_for_in_or_of_statement(c: PrintContext, n: Node, ie: bool) -> Seq<Piece>
    decreases n, 1int, 0int,
{
    match n {
        Node::ForInStatement { initializer, expression, statement } => t("for"@) + t(" "@) + t("("@)
            + doc_node(c, *initializer, ie) + t(" "@) + t("in"@) + t(" "@) + doc_node(
            c,
            *expression,
            ie,
        ) + t(")"@) + doc_embedded(c, *statement, ie),
        Node::ForOfStatement { is_await, initializer, expression, statement } => t("for"@) + t(" "@)
            + (if is_await {
            t("await"@) + t(" "@)
        } else {
            Seq::empty()
        }) + t("("@) + doc_node(c, *initializer, ie) + t(" "@) + t("of"@) + t(" "@) + doc_node(
            c,
            *expression,
            ie,
        ) + t(")"@) + doc_embedded(c, *statement, ie),
        _ => Seq::empty(),
    }
}

/// The document of a `continue`, `break` or `throw` statement.
pub open spec fn doc_jump_statement(c: PrintContext, n: Node, ie: bool) -> Seq<Piece>
    decreases n, 1int, 0int,
{
    match n {
        Node::ContinueStatement(label) => t("continue"@) + optional_label(label) + t(";"@),
        Node::BreakStatement(label) => t("break"@) + optional_label(label) + t(";"@),
        Node::ThrowStatement(e) => t("throw"@) + match e {
            Option::Some(e) => t(" "@) + doc_expr(c, *e, OPERATOR_PRECEDENCE_LOWEST, ie),
            Option::None => Seq::empty(),
        } + t(";"@),
        _ => Seq::empty(),
    }
}

/// A label after `continue` or `break`, after a space.
pub open spec fn optional_label(label: Option<String>) -> Seq<Piece> {
    match label {
        Option::Some(l) => t(" "@) + t(l@),
        Option::None => Seq::empty(),
    }
}

/// The document of a `try` statement.
pub open spec fn doc_try_statement(c: PrintContext, n: Node, ie: bool) -> Seq<Piece>
    decreases n, 1int, 0int,
{
    match n {
        Node::TryStatement { try_block, catch_clause, finally_block } => t("try"@) + t(" "@)
            + doc_node(c, *try_block, ie) + match catch_clause {
            Option::Some(cc) => line_or_space(c) + doc_node(c, *cc, ie),
            Option::None => Seq::empty(),
        } + match finally_block {
            Option::Some(f) => line_or_space(c) + t("finally"@) + t(" "@) + doc_node(c, *f, ie),
            Option::None => Seq::empty(),
        },
        _ => Seq::empty(),
    }
}

/// The document of a `catch` clause.
pub open spec fn doc_catch_clause(c: PrintContext, n: Node, ie: bool) -> Seq<Piece>
    decreases n, 1int, 0int,
{
    match n {
        Node::CatchClause { variable_declaration, block } => t("catch"@) + match variable_declaration {
            Option::Some(v) => t(" "@) + t("("@) + doc_node(c, *v, ie) + t(")"@),
            Option::None => Seq::empty(),
        } + t(" "@) + doc_node(c, *block, ie),
        _ => Seq::empty(),
    }
}

/// The document of a `switch` statement: its clauses each on a line of their
/// own, indented within the braces.
pub open spec fn doc_switch_statement(c: PrintContext, n: Node, ie: bool) -> Seq<Piece>
    decreases n, 1int, 0int,
{
    match n {
        Node::SwitchStatement { expression, clauses } => t("switch"@) + t(" "@) + t("("@) + doc_node(
            c,
            *expression,
            ie,
        ) + t(")"@) + t(" "@) + t("{"@) + doc_items(
            c,
            clauses@,
            0,
            clauses@.len() as int,
            ListFormat(FORMAT_CASE_BLOCK_CLAUSES),
            false,
            ChildMode::Plain,
            ie,
        ) + t("}"@),
        _ => Seq::empty(),
    }
}

/// The statements after the colon of a `case` or `default` clause: a lone
/// statement follows the colon on its line, several go indented on lines of
/// their own.
pub open spec fn clause_statements_doc(
    c: PrintContext,
    statements: Seq<Node>,
    on_next_line: bool,
    ie: bool,
) -> Seq<Piece>
    decreases statements, 2int, 0int,
{
    if statements.len() == 1 && !(on_next_line && c.in_source_file) {
        t(" "@) + doc_items(
            c,
            statements,
            0,
            1,
            ListFormat(FORMAT_SINGLE_CLAUSE_STATEMENT),
            false,
            ChildMode::Plain,
            ie,
        )
    } else if statements.len() > 0 {
        doc_items(
            c,
            statements,
            0,
            statements.len() as int,
            ListFormat(FORMAT_CASE_OR_DEFAULT_CLAUSE_STATEMENTS),
            false,
            ChildMode::Plain,
            ie,
        )
    } else {
        Seq::empty()
    }
}

/// The document of a `case` or `default` clause.
pub open spec fn doc_case_or_default_clause(c: PrintContext, n: Node, ie: bool) -> Seq<Piece>
    decreases n, 1int, 0int,
{
    match n {
        Node::CaseClause { expression, statements, statement_on_next_line } => t("case"@) + t(" "@)
            + doc_node(c, *expression, ie) + t(":"@) + clause_statements_doc(
            c,
            statements@,
            statement_on_next_line,
            ie,
        ),
        Node::DefaultClause { statements, statement_on_next_line } => t("default"@) + t(":"@)
            + clause_statements_doc(c, statements@, statement_on_next_line, ie),
        _ => Seq::empty(),
    }
}

/// The document of a labeled statement or a `with` statement.
pub open spec fn doc_labeled_or_with_statement(c: PrintContext, n: Node, ie: bool) -> Seq<Piece>
    decreases n, 1int, 0int,
{
    match n {
        Node::LabeledStatement { label, statement } => t(label@) + t(":"@) + t(" "@) + doc_node(
            c,
            *statement,
            ie,
        ),
        Node::WithStatement { expression, statement } => t("with"@) + t(" "@) + t("("@) + doc_node(
            c,
            *expression,
            ie,
        ) + t(")"@) + doc_embedded(c, *statement, ie),
        _ => Seq::empty(),
    }
}

/// The name of a class after a space, where it has a non-empty one.
pub open spec fn class_name_doc(name: Option<String>) -> Seq<Piece> {
    if name is Some && name->0@.len() > 0 {
        t(" "@) + t(name->0@)
    } else {
        Seq::empty()
    }
}

/// The head of a class: its modifiers and decorators, name, type parameters
/// and heritage clauses.
pub open spec fn class_head_doc(c: PrintContext, n: Node, ie: bool) -> Seq<Piece>
    decreases n, 0int, 0int,
{
    match n {
        Node::ClassExpression { modifiers, name, type_parameters, heritage_clauses, .. } => doc_modifiers(
            c,
            modifiers@,
            0,
            true,
            ie,
        ) + t("class"@) + class_name_doc(name) + type_parameters_doc(c, type_parameters@, ie) + heritage_clauses_doc(c, heritage_clauses@, ListFormat(FORMAT_CLASS_HERITAGE_CLAUSES), ie),
        Node::ClassDeclaration { modifiers, name, type_parameters, heritage_clauses, .. } => doc_modifiers(
            c,
            modifiers@,
            0,
            true,
            ie,
        ) + t("class"@) + class_name_doc(name) + type_parameters_doc(c, type_parameters@, ie) + heritage_clauses_doc(c, heritage_clauses@, ListFormat(FORMAT_CLASS_HERITAGE_CLAUSES), ie),
        _ => Seq::empty(),
    }
}

/// The body of a class: its members between braces, each on a line of its own.
pub open spec fn class_body_doc(c: PrintContext, n: Node, ie: bool) -> Seq<Piece>
    decreases n, 0int, 0int,
{
    match n {
        Node::ClassExpression { members, .. } => t(" "@) + t("{"@) + doc_list(
            c,
            members@,
            0,
            members@.len() as int,
            ListFormat(FORMAT_CLASS_MEMBERS),
            false,
            ChildMode::Plain,
            ie,
        ) + t("}"@),
        Node::ClassDeclaration { members, .. } => t(" "@) + t("{"@) + doc_list(
            c,
            members@,
            0,
            members@.len() as int,
            ListFormat(FORMAT_CLASS_MEMBERS),
            false,
            ChildMode::Plain,
            ie,
        ) + t("}"@),
        _ => Seq::empty(),
    }
}

/// The type parameters of a function-like node between angle brackets, none
/// where it has none.
pub open spec fn type_parameters_doc(c: PrintContext, type_parameters: Seq<Node>, ie: bool) -> Seq<Piece>
    decreases type_parameters, 3int, 0int,
{
    doc_list(
        c,
        type_parameters,
        0,
        type_parameters.len() as int,
        ListFormat(FORMAT_TYPE_PARAMETERS),
        false,
        ChildMode::Plain,
        ie,
    )
}

/// The parameters of a function-like node between parentheses.
pub open spec fn parameters_doc(c: PrintContext, parameters: Seq<Node>, ie: bool) -> Seq<Piece>
    decreases parameters, 3int, 0int,
{
    doc_list(
        c,
        parameters,
        0,
        parameters.len() as int,
        ListFormat(FORMAT_PARAMETERS),
        false,
        ChildMode::Plain,
        ie,
    )
}

/// The type parameters, parameters and return type of a function, method or
/// arrow function; an arrow function with a simple head writes its lone
/// parameter without parentheses.
pub open spec fn signature_like_doc(c: PrintContext, n: Node, ie: bool) -> Seq<Piece>
    decreases n, 0int, 0int,
{
    match n {
        Node::FunctionDeclaration { type_parameters, parameters, type_node, .. } => type_parameters_doc(
            c,
            type_parameters@,
            ie,
        ) + parameters_doc(c, parameters@, ie) + type_annotation_doc(c, type_node),
        Node::FunctionExpression { type_parameters, parameters, type_node, .. } => type_parameters_doc(
            c,
            type_parameters@,
            ie,
        ) + parameters_doc(c, parameters@, ie) + type_annotation_doc(c, type_node),
        Node::MethodDeclaration { type_parameters, parameters, type_node, .. } => type_parameters_doc(
            c,
            type_parameters@,
            ie,
        ) + parameters_doc(c, parameters@, ie) + type_annotation_doc(c, type_node),
        Node::MethodSignature { type_parameters, parameters, type_node, .. } => type_parameters_doc(
            c,
            type_parameters@,
            ie,
        ) + parameters_doc(c, parameters@, ie) + type_annotation_doc(c, type_node),
        Node::CallSignature { type_parameters, parameters, type_node } => type_parameters_doc(
            c,
            type_parameters@,
            ie,
        ) + parameters_doc(c, parameters@, ie) + type_annotation_doc(c, type_node),
        Node::ConstructSignature { type_parameters, parameters, type_node } => type_parameters_doc(
            c,
            type_parameters@,
            ie,
        ) + parameters_doc(c, parameters@, ie) + type_annotation_doc(c, type_node),
        Node::ArrowFunction { type_parameters, parameters, type_node, .. } => type_parameters_doc(
            c,
            type_parameters@,
            ie,
        ) + (if is_simple_arrow_head(n) {
            doc_list(
                c,
                parameters@,
                0,
                parameters@.len() as int,
                ListFormat(FORMAT_SINGLE_ARROW_PARAMETER),
                false,
                ChildMode::Plain,
                ie,
            )
        } else {
            parameters_doc(c, parameters@, ie)
        }) + type_annotation_doc(c, type_node),
        _ => Seq::empty(),
    }
}


/// The format of the members of a type literal.
pub open spec fn type_literal_format(single_line: bool) -> ListFormat {
    ListFormat((if single_line {
        FORMAT_SINGLE_LINE_TYPE_LITERAL_MEMBERS
    } else {
        FORMAT_MULTI_LINE_TYPE_LITERAL_MEMBERS
    }) | LF_NO_SPACE_IF_EMPTY)
}

/// A type annotation `: T`, its type laid out as outside an `extends` clause.
pub open spec fn type_annotation_doc(c: PrintContext, type_node: Option<Box<Node>>) -> Seq<Piece>
    decreases type_node, 1int, 0int,
{
    match type_node {
        Option::Some(ty) => t(":"@) + t(" "@) + doc_type(c, *ty, TYPE_PRECEDENCE_LOWEST, false),
        Option::None => Seq::empty(),
    }
}

/// The sign before `readonly` or `?` in a mapped type.
pub open spec fn mapped_modifier_doc(m: MappedTypeModifier) -> Seq<Piece> {
    match m {
        MappedTypeModifier::Bare => Seq::empty(),
        MappedTypeModifier::Plus => t("+"@),
        MappedTypeModifier::Minus => t("-"@),
    }
}

/// The document of a type parameter.
pub open spec fn doc_type_parameter(c: PrintContext, n: Node, ie: bool) -> Seq<Piece>
    decreases n, 1int, 0int,
{
    match n {
        Node::TypeParameter { modifiers, name, constraint, default_type } => doc_modifiers(
            c,
            modifiers@,
            0,
            false,
            ie,
        ) + t(name@) + match constraint {
            Option::Some(ct) => t(" "@) + t("extends"@) + t(" "@) + doc_type(c, *ct, TYPE_PRECEDENCE_LOWEST, false),
            Option::None => Seq::empty(),
        } + match default_type {
            Option::Some(d) => t(" "@) + t("="@) + t(" "@) + doc_type(c, *d, TYPE_PRECEDENCE_LOWEST, false),
            Option::None => Seq::empty(),
        },
        _ => Seq::empty(),
    }
}

/// The document of an `extends` or `implements` clause, after a space.
pub open spec fn doc_heritage_clause(c: PrintContext, n: Node, ie: bool) -> Seq<Piece>
    decreases n, 1int, 0int,
{
    match n {
        Node::HeritageClause { is_implements, types } => t(" "@) + (if is_implements {
            t("implements"@)
        } else {
            t("extends"@)
        }) + t(" "@) + doc_items(
            c,
            types@,
            0,
            types@.len() as int,
            ListFormat(FORMAT_HERITAGE_CLAUSE_TYPES),
            false,
            ChildMode::Plain,
            ie,
        ),
        _ => Seq::empty(),
    }
}

/// The heritage clauses of a declaration in the given format; none writes
/// nothing.
pub open spec fn heritage_clauses_doc(c: PrintContext, clauses: Seq<Node>, format: ListFormat, ie: bool) -> Seq<Piece>
    decreases clauses, 3int, 0int,
{
    if clauses.len() == 0 {
        Seq::empty()
    } else {
        doc_list(c, clauses, 0, clauses.len() as int, format, false, ChildMode::Plain, ie)
    }
}

/// The head of an interface declaration: its modifiers, name, type
/// parameters and heritage clauses.
pub open spec fn interface_head_doc(c: PrintContext, n: Node, ie: bool) -> Seq<Piece>
    decreases n, 0int, 0int,
{
    match n {
        Node::InterfaceDeclaration { modifiers, name, type_parameters, heritage_clauses, .. } =>
            doc_modifiers(c, modifiers@, 0, false, ie) + t("interface"@) + t(" "@) + t(name@) + doc_list(
            c,
            type_parameters@,
            0,
            type_parameters@.len() as int,
            ListFormat(FORMAT_TYPE_PARAMETERS),
            false,
            ChildMode::Plain,
            ie,
        ) + heritage_clauses_doc(c, heritage_clauses@, ListFormat(FORMAT_HERITAGE_CLAUSES), ie),
        _ => Seq::empty(),
    }
}

/// The body of an interface declaration: its members between braces, each on
/// a line of its own.
pub open spec fn interface_body_doc(c: PrintContext, n: Node, ie: bool) -> Seq<Piece>
    decreases n, 0int, 0int,
{
    match n {
        Node::InterfaceDeclaration { members, .. } => t(" "@) + t("{"@) + doc_list(
            c,
            members@,
            0,
            members@.len() as int,
            ListFormat(FORMAT_INTERFACE_MEMBERS),
            false,
            ChildMode::Plain,
            ie,
        ) + t("}"@),
        _ => Seq::empty(),
    }
}

/// The document of an interface declaration.
pub open spec fn doc_interface_declaration(c: PrintContext, n: Node, ie: bool) -> Seq<Piece>
    decreases n, 1int, 0int,
{
    match n {
        Node::InterfaceDeclaration { .. } => interface_head_doc(c, n, ie) + interface_body_doc(c, n, ie),
        _ => Seq::empty(),
    }
}

/// The document of a type literal.
pub open spec fn doc_type_literal(c: PrintContext, n: Node, ie: bool) -> Seq<Piece>
    decreases n, 1int, 0int,
{
    match n {
        Node::TypeLiteral { members, single_line } => t("{"@) + doc_list(
            c,
            members@,
            0,
            members@.len() as int,
            type_literal_format(single_line),
            false,
            ChildMode::Plain,
            ie,
        ) + t("}"@),
        _ => Seq::empty(),
    }
}

/// The document of a property or method signature.
pub open spec fn doc_signature(c: PrintContext, n: Node, ie: bool) -> Seq<Piece>
    decreases n, 1int, 0int,
{
    match n {
        Node::PropertySignature { modifiers, name, question, type_node } => doc_modifiers(
            c,
            modifiers@,
            0,
            false,
            ie,
        ) + doc_node(c, *name, ie) + (if question {
            t("?"@)
        } else {
            Seq::empty()
        }) + type_annotation_doc(c, type_node) + t(";"@),
        Node::MethodSignature { modifiers, name, question, .. } => doc_modifiers(
            c,
            modifiers@,
            0,
            false,
            ie,
        ) + doc_node(c, *name, ie) + (if question {
            t("?"@)
        } else {
            Seq::empty()
        }) + signature_like_doc(c, n, ie) + t(";"@),
        _ => Seq::empty(),
    }
}

/// The type after a constructor's parameters, if it has one.
pub open spec fn constructor_annotation_doc(c: PrintContext, type_node: Option<Box<Node>>, ie: bool) -> Seq<Piece>
    decreases type_node, 1int, 0int,
{
    match type_node {
        Option::Some(ty) => t(":"@) + t(" "@) + doc_node(c, *ty, ie),
        Option::None => Seq::empty(),
    }
}

/// A function body after a space, or `;` where there is none.
pub open spec fn optional_body_doc(c: PrintContext, body: Option<Box<Node>>, ie: bool) -> Seq<Piece>
    decreases body, 1int, 0int,
{
    match body {
        Option::Some(b) => t(" "@) + doc_function_body(c, *b, ie),
        Option::None => t(";"@),
    }
}

/// The document of a method, a constructor or an accessor of a class.
pub open spec fn doc_method_like(c: PrintContext, n: Node, ie: bool) -> Seq<Piece>
    decreases n, 1int, 0int,
{
    match n {
        Node::MethodDeclaration { modifiers, asterisk, name, question, body, .. } => doc_modifiers(
            c,
            modifiers@,
            0,
            true,
            ie,
        ) + (if asterisk {
            t("*"@)
        } else {
            Seq::empty()
        }) + doc_node(c, *name, ie) + (if question {
            t("?"@)
        } else {
            Seq::empty()
        }) + signature_like_doc(c, n, ie) + optional_body_doc(c, body, ie),
        Node::Constructor { modifiers, parameters, type_node, body } => doc_modifiers(
            c,
            modifiers@,
            0,
            false,
            ie,
        ) + t("constructor"@) + doc_list(
            c,
            parameters@,
            0,
            parameters@.len() as int,
            ListFormat(FORMAT_PARAMETERS),
            false,
            ChildMode::Plain,
            ie,
        ) + constructor_annotation_doc(c, type_node, ie) + optional_body_doc(c, body, ie),
        Node::GetAccessor { modifiers, name, parameters, type_node, body } => doc_modifiers(
            c,
            modifiers@,
            0,
            true,
            ie,
        ) + t("get"@) + t(" "@) + doc_node(c, *name, ie) + doc_list(
            c,
            parameters@,
            0,
            parameters@.len() as int,
            ListFormat(FORMAT_PARAMETERS),
            false,
            ChildMode::Plain,
            ie,
        ) + type_annotation_doc(c, type_node) + optional_body_doc(c, body, ie),
        Node::SetAccessor { modifiers, name, parameters, type_node, body } => doc_modifiers(
            c,
            modifiers@,
            0,
            true,
            ie,
        ) + t("set"@) + t(" "@) + doc_node(c, *name, ie) + doc_list(
            c,
            parameters@,
            0,
            parameters@.len() as int,
            ListFormat(FORMAT_PARAMETERS),
            false,
            ChildMode::Plain,
            ie,
        ) + type_annotation_doc(c, type_node) + optional_body_doc(c, body, ie),
        _ => Seq::empty(),
    }
}

/// The document of an enum declaration or of one of its members.
pub open spec fn doc_enum(c: PrintContext, n: Node, ie: bool) -> Seq<Piece>
    decreases n, 1int, 0int,
{
    match n {
        Node::EnumDeclaration { modifiers, name, members } => doc_modifiers(
            c,
            modifiers@,
            0,
            false,
            ie,
        ) + t("enum"@) + t(" "@) + t(name@) + t(" "@) + t("{"@) + doc_list(
            c,
            members@,
            0,
            members@.len() as int,
            ListFormat(FORMAT_ENUM_MEMBERS),
            false,
            ChildMode::Plain,
            ie,
        ) + t("}"@),
        Node::EnumMember { name, initializer } => doc_node(c, *name, ie) + match initializer {
            Option::Some(e) => t(" "@) + t("="@) + t(" "@) + doc_node(c, *e, ie),
            Option::None => Seq::empty(),
        },
        _ => Seq::empty(),
    }
}

/// What follows the opening brace of a mapped type: a space, or a line break
/// and one more level of indentation.
pub open spec fn mapped_type_open(single_line: bool) -> Seq<Piece> {
    if single_line {
        t(" "@)
    } else {
        seq![Piece::Line, Piece::Indent]
    }
}

/// What comes before the closing brace of a mapped type: a space, or a line
/// break and one level of indentation less.
pub open spec fn mapped_type_close(single_line: bool) -> Seq<Piece> {
    if single_line {
        t(" "@)
    } else {
        seq![Piece::Line, Piece::Dedent]
    }
}

/// The key part of a mapped type: its `readonly`, its bracketed type
/// parameter with constraint and `as` clause, and its `?`.
pub open spec fn mapped_type_key(c: PrintContext, n: Node) -> Seq<Piece>
    decreases n, 0int, 0int,
{
    match n {
        Node::MappedType {
            readonly_token,
            parameter_name,
            constraint,
            name_type,
            question_token,
            ..
        } => (match readonly_token {
            Option::Some(m) => mapped_modifier_doc(m) + t("readonly"@) + t(" "@),
            Option::None => Seq::empty(),
        }) + t("["@) + t(parameter_name@) + t(" "@) + t("in"@) + t(" "@) + match constraint {
            Option::Some(ct) => doc_type(c, *ct, TYPE_PRECEDENCE_LOWEST, false),
            Option::None => Seq::empty(),
        } + match name_type {
            Option::Some(nt) => t(" "@) + t("as"@) + t(" "@) + doc_type(c, *nt, TYPE_PRECEDENCE_LOWEST, false),
            Option::None => Seq::empty(),
        } + t("]"@) + match question_token {
            Option::Some(m) => mapped_modifier_doc(m) + t("?"@),
            Option::None => Seq::empty(),
        },
        _ => Seq::empty(),
    }
}

/// The value part of a mapped type: its type after a colon, and its members.
pub open spec fn mapped_type_value(c: PrintContext, n: Node, ie: bool) -> Seq<Piece>
    decreases n, 0int, 0int,
{
    match n {
        Node::MappedType { single_line, type_node, members, .. } => t(":"@) + t(" "@) + match type_node {
            Option::Some(ty) => doc_type(c, *ty, TYPE_PRECEDENCE_LOWEST, false),
            Option::None => Seq::empty(),
        } + t(";"@) + (if members@.len() > 0 {
            (if single_line {
                t(" "@)
            } else {
                seq![Piece::Line]
            }) + doc_items(
                c,
                members@,
                0,
                members@.len() as int,
                ListFormat(LF_PRESERVE_LINES),
                false,
                ChildMode::Plain,
                ie,
            )
        } else {
            Seq::empty()
        }),
        _ => Seq::empty(),
    }
}

/// The document of a mapped type: on one line between spaces, or indented on
/// a line of its own.
pub open spec fn doc_mapped_type(c: PrintContext, n: Node, ie: bool) -> Seq<Piece>
    decreases n, 1int, 0int,
{
    match n {
        Node::MappedType { single_line, .. } => t("{"@) + mapped_type_open(single_line)
            + mapped_type_key(c, n) + mapped_type_value(c, n, ie) + mapped_type_close(single_line)
            + t("}"@),
        _ => Seq::empty(),
    }
}

/// The text of a string literal: its text between double quotes.
pub open spec fn string_literal_text(s: Seq<char>, single_quote: bool) -> Seq<char> {
    let q = if single_quote {
        '\''
    } else {
        '"'
    };
    seq![q] + s + seq![q]
}

/// The phase keyword of an import clause.
pub open spec fn import_phase_doc(p: ImportPhase) -> Seq<Piece> {
    match p {
        ImportPhase::Type => t("type"@),
        ImportPhase::Defer => t("defer"@),
    }
}

/// `type` and a space before a specifier or declaration that is only about types.
pub open spec fn type_only_doc(is_type_only: bool) -> Seq<Piece> {
    if is_type_only {
        t("type"@) + t(" "@)
    } else {
        Seq::empty()
    }
}

/// The property name of an import or export specifier followed by `as`.
pub open spec fn specifier_property_doc(c: PrintContext, property_name: Option<Box<Node>>, ie: bool) -> Seq<Piece>
    decreases property_name, 1int, 0int,
{
    match property_name {
        Option::Some(p) => doc_node(c, *p, ie) + t(" "@) + t("as"@) + t(" "@),
        Option::None => Seq::empty(),
    }
}

/// The import attributes after a module specifier, with the space before
/// them.
pub open spec fn attributes_clause_doc(c: PrintContext, attributes: Option<Box<Node>>, ie: bool) -> Seq<Piece>
    decreases attributes, 1int, 0int,
{
    match attributes {
        Option::Some(a) => t(" "@) + doc_node(c, *a, ie),
        Option::None => Seq::empty(),
    }
}

/// The document of import attributes or of one attribute.
pub open spec fn doc_import_attributes(c: PrintContext, n: Node, ie: bool) -> Seq<Piece>
    decreases n, 1int, 0int,
{
    match n {
        Node::ImportAttributes { assert_keyword, elements } => (if assert_keyword {
            t("assert"@)
        } else {
            t("with"@)
        }) + t(" "@) + doc_list(
            c,
            elements@,
            0,
            elements@.len() as int,
            ListFormat(FORMAT_IMPORT_ATTRIBUTES),
            false,
            ChildMode::Plain,
            ie,
        ),
        Node::ImportAttribute { name, value } => doc_node(c, *name, ie) + t(":"@) + t(" "@) + doc_expr(
            c,
            *value,
            OPERATOR_PRECEDENCE_DISALLOW_COMMA,
            ie,
        ),
        _ => Seq::empty(),
    }
}

/// The document of an import declaration.
pub open spec fn doc_import_declaration(c: PrintContext, n: Node, ie: bool) -> Seq<Piece>
    decreases n, 1int, 0int,
{
    match n {
        Node::ImportDeclaration { modifiers, import_clause, module_specifier, attributes } => doc_modifiers(
            c,
            modifiers@,
            0,
            false,
            ie,
        ) + t("import"@) + t(" "@) + match import_clause {
            Option::Some(ic) => doc_node(c, *ic, ie) + t(" "@) + t("from"@) + t(" "@),
            Option::None => Seq::empty(),
        } + doc_node(c, *module_specifier, ie) + attributes_clause_doc(c, attributes, ie) + t(";"@),
        _ => Seq::empty(),
    }
}

/// The document of an import clause, a namespace import, the named imports
/// between braces, or an import specifier.
pub open spec fn doc_import_part(c: PrintContext, n: Node, ie: bool) -> Seq<Piece>
    decreases n, 1int, 0int,
{
    match n {
        Node::ImportClause { phase, name, named_bindings } => (match phase {
            Option::Some(p) => import_phase_doc(p) + t(" "@),
            Option::None => Seq::empty(),
        }) + match name {
            Option::Some(s) => t(s@) + (if named_bindings is Some {
                t(","@) + t(" "@)
            } else {
                Seq::empty()
            }),
            Option::None => Seq::empty(),
        } + match named_bindings {
            Option::Some(b) => doc_node(c, *b, ie),
            Option::None => Seq::empty(),
        },
        Node::NamespaceImport { name } => t("*"@) + t(" "@) + t("as"@) + t(" "@) + t(name@),
        Node::NamedImports { elements, has_trailing_comma } => t("{"@) + doc_items(
            c,
            elements@,
            0,
            elements@.len() as int,
            ListFormat(FORMAT_NAMED_IMPORTS_OR_EXPORTS_ELEMENTS),
            has_trailing_comma,
            ChildMode::Plain,
            ie,
        ) + t("}"@),
        Node::ImportSpecifier { is_type_only, property_name, name } => type_only_doc(is_type_only)
            + specifier_property_doc(c, property_name, ie) + t(name@),
        _ => Seq::empty(),
    }
}

/// The document of an export declaration.
pub open spec fn doc_export_declaration(c: PrintContext, n: Node, ie: bool) -> Seq<Piece>
    decreases n, 1int, 0int,
{
    match n {
        Node::ExportDeclaration { modifiers, is_type_only, export_clause, module_specifier, attributes } =>
            doc_modifiers(c, modifiers@, 0, false, ie) + t("export"@) + t(" "@) + type_only_doc(
            is_type_only,
        ) + match export_clause {
            Option::Some(ec) => doc_node(c, *ec, ie),
            Option::None => t("*"@),
        } + match module_specifier {
            Option::Some(m) => t(" "@) + t("from"@) + t(" "@) + doc_node(c, *m, ie),
            Option::None => Seq::empty(),
        } + attributes_clause_doc(c, attributes, ie) + t(";"@),
        _ => Seq::empty(),
    }
}

/// The document of the named exports between braces, a namespace export, or
/// an export specifier.
pub open spec fn doc_export_part(c: PrintContext, n: Node, ie: bool) -> Seq<Piece>
    decreases n, 1int, 0int,
{
    match n {
        Node::NamedExports { elements, has_trailing_comma } => t("{"@) + doc_items(
            c,
            elements@,
            0,
            elements@.len() as int,
            ListFormat(FORMAT_NAMED_IMPORTS_OR_EXPORTS_ELEMENTS),
            has_trailing_comma,
            ChildMode::Plain,
            ie,
        ) + t("}"@),
        Node::NamespaceExport { name } => t("*"@) + t(" "@) + t("as"@) + t(" "@) + doc_node(c, *name, ie),
        Node::ExportSpecifier { is_type_only, property_name, name } => type_only_doc(is_type_only)
            + specifier_property_doc(c, property_name, ie) + doc_node(c, *name, ie),
        _ => Seq::empty(),
    }
}

/// The keyword of a module declaration with the space after it; a global
/// augmentation has none.
pub open spec fn module_keyword_doc(k: ModuleKeyword) -> Seq<Piece> {
    match k {
        ModuleKeyword::Module => t("module"@) + t(" "@),
        ModuleKeyword::Namespace => t("namespace"@) + t(" "@),
        ModuleKeyword::Global => Seq::empty(),
    }
}

/// What follows the name of a module declaration: the dotted names of the
/// declarations nested as its body, then the block, or `;` where there is none.
pub open spec fn module_body_doc(c: PrintContext, body: Option<Box<Node>>, ie: bool) -> Seq<Piece>
    decreases body, 1int, 0int,
{
    match body {
        Option::Some(b) => match *b {
            Node::ModuleDeclaration { name, body: inner, .. } => t("."@) + doc_node(c, *name, ie)
                + module_body_doc(c, inner, ie),
            _ => t(" "@) + doc_node(c, *b, ie),
        },
        Option::None => t(";"@),
    }
}

/// The document of a module declaration or a module block.
pub open spec fn doc_module(c: PrintContext, n: Node, ie: bool) -> Seq<Piece>
    decreases n, 1int, 0int,
{
    match n {
        Node::ModuleDeclaration { modifiers, keyword, name, body } => doc_modifiers(
            c,
            modifiers@,
            0,
            false,
            ie,
        ) + module_keyword_doc(keyword) + doc_node(c, *name, ie) + module_body_doc(c, body, ie),
        Node::ModuleBlock { statements } => t("{"@) + doc_items(
            c,
            statements@,
            0,
            statements@.len() as int,
            ListFormat(
                if statements@.len() == 0 {
                    FORMAT_SINGLE_LINE_BLOCK_STATEMENTS
                } else {
                    FORMAT_MULTI_LINE_BLOCK_STATEMENTS
                },
            ),
            false,
            ChildMode::Plain,
            ie,
        ) + t("}"@),
        _ => Seq::empty(),
    }
}

/// The text of the head of a template: a backquote, the text, and the start
/// of a substitution.
pub open spec fn template_head_text(s: Seq<char>) -> Seq<char> {
    seq!['`'] + s + seq!['$', '{']
}

/// The text after a substitution of a template: the closing brace, the text,
/// and the start of the next substitution or, after the last, the closing
/// backquote.
pub open spec fn template_continuation_text(s: Seq<char>, is_tail: bool) -> Seq<char> {
    seq!['}'] + s + (if is_tail {
        seq!['`']
    } else {
        seq!['$', '{']
    })
}

/// The document of a literal type or a type predicate.
pub open spec fn doc_literal_or_predicate_type(c: PrintContext, n: Node, ie: bool) -> Seq<Piece>
    decreases n, 1int, 0int,
{
    match n {
        Node::LiteralType(l) => doc_node(c, *l, ie),
        Node::TypePredicate { asserts, parameter_name, type_node } => (if asserts {
            t("asserts"@) + t(" "@)
        } else {
            Seq::empty()
        }) + doc_node(c, *parameter_name, ie) + match type_node {
            Option::Some(ty) => t(" "@) + t("is"@) + t(" "@) + doc_type(c, *ty, TYPE_PRECEDENCE_LOWEST, false),
            Option::None => Seq::empty(),
        },
        _ => Seq::empty(),
    }
}

/// The document of a constructor type: its return type after `=>` is laid
/// out as a function type's is.
pub open spec fn doc_constructor_type(c: PrintContext, n: Node, ie: bool) -> Seq<Piece>
    decreases n, 1int, 0int,
{
    match n {
        Node::ConstructorType { modifiers, type_parameters, parameters, return_type } => doc_modifiers(
            c,
            modifiers@,
            0,
            false,
            ie,
        ) + t("new"@) + t(" "@) + type_parameters_doc(c, type_parameters@, ie) + parameters_doc(
            c,
            parameters@,
            ie,
        ) + t(" "@) + t("=>"@) + t(" "@) + (if ie && (*return_type matches Node::InferType { constraint, .. }
            && constraint is Some) {
            doc_type(c, *return_type, TYPE_PRECEDENCE_HIGHEST, ie)
        } else {
            doc_type(c, *return_type, TYPE_PRECEDENCE_LOWEST, ie)
        }),
        _ => Seq::empty(),
    }
}

/// The document of an index, call or construct signature.
pub open spec fn doc_member_signature(c: PrintContext, n: Node, ie: bool) -> Seq<Piece>
    decreases n, 1int, 0int,
{
    match n {
        Node::IndexSignature { modifiers, parameters, type_node } => doc_modifiers(
            c,
            modifiers@,
            0,
            false,
            ie,
        ) + doc_list(
            c,
            parameters@,
            0,
            parameters@.len() as int,
            ListFormat(FORMAT_INDEX_SIGNATURE_PARAMETERS),
            false,
            ChildMode::Plain,
            ie,
        ) + type_annotation_doc(c, type_node) + t(";"@),
        Node::CallSignature { .. } => signature_like_doc(c, n, ie) + t(";"@),
        Node::ConstructSignature { .. } => t("new"@) + t(" "@) + signature_like_doc(c, n, ie) + t(";"@),
        _ => Seq::empty(),
    }
}

/// The document of a named member of a tuple type.
pub open spec fn doc_named_tuple_member(c: PrintContext, n: Node, ie: bool) -> Seq<Piece>
    decreases n, 1int, 0int,
{
    match n {
        Node::NamedTupleMember { dot_dot_dot, name, question, type_node } => (if dot_dot_dot {
            t("..."@)
        } else {
            Seq::empty()
        }) + t(name@) + (if question {
            t("?"@)
        } else {
            Seq::empty()
        }) + t(":"@) + t(" "@) + doc_type(c, *type_node, TYPE_PRECEDENCE_LOWEST, false),
        _ => Seq::empty(),
    }
}

/// The document of a template expression or template literal type, or of
/// one of their spans.
pub open spec fn doc_template(c: PrintContext, n: Node, ie: bool) -> Seq<Piece>
    decreases n, 1int, 0int,
{
    match n {
        Node::TemplateExpression { head, spans } => t(template_head_text(head@)) + doc_items(
            c,
            spans@,
            0,
            spans@.len() as int,
            ListFormat(FORMAT_TEMPLATE_EXPRESSION_SPANS),
            false,
            ChildMode::Plain,
            ie,
        ),
        Node::TemplateSpan { expression, literal, is_tail } => doc_node(c, *expression, ie) + t(
            template_continuation_text(literal@, is_tail),
        ),
        Node::TemplateLiteralType { head, spans } => t(template_head_text(head@)) + doc_items(
            c,
            spans@,
            0,
            spans@.len() as int,
            ListFormat(FORMAT_TEMPLATE_EXPRESSION_SPANS),
            false,
            ChildMode::Plain,
            ie,
        ),
        Node::TemplateLiteralTypeSpan { type_node, literal, is_tail } => doc_type(
            c,
            *type_node,
            TYPE_PRECEDENCE_LOWEST,
            false,
        ) + t(template_continuation_text(literal@, is_tail)),
        _ => Seq::empty(),
    }
}

/// The document of a static block of a class.
pub open spec fn doc_class_static_block(c: PrintContext, n: Node, ie: bool) -> Seq<Piece>
    decreases n, 1int, 0int,
{
    match n {
        Node::ClassStaticBlockDeclaration { body } => t("static"@) + t(" "@) + doc_function_body(c, *body, ie),
        _ => Seq::empty(),
    }
}

/// Whether the attributes of a JSX opening element hold any attribute.
pub open spec fn has_jsx_attributes(attributes: Node) -> bool {
    attributes matches Node::JsxAttributes { properties } && properties@.len() > 0
}

/// The document of a JSX element, fragment, or opening or closing tag.
pub open spec fn doc_jsx_element(c: PrintContext, n: Node, ie: bool) -> Seq<Piece>
    decreases n, 1int, 0int,
{
    match n {
        Node::JsxElement { opening, children, closing } => doc_node(c, *opening, ie) + doc_items(
            c,
            children@,
            0,
            children@.len() as int,
            ListFormat(FORMAT_JSX_ELEMENT_OR_FRAGMENT_CHILDREN),
            false,
            ChildMode::Plain,
            ie,
        ) + doc_node(c, *closing, ie),
        Node::JsxSelfClosingElement { tag_name, type_arguments, attributes } => t("<"@) + doc_node(
            c,
            *tag_name,
            ie,
        ) + doc_list(
            c,
            type_arguments@,
            0,
            type_arguments@.len() as int,
            ListFormat(FORMAT_TYPE_ARGUMENTS),
            false,
            ChildMode::TypeOutsideExtends,
            ie,
        ) + t(" "@) + doc_node(c, *attributes, ie) + t("/>"@),
        Node::JsxOpeningElement { tag_name, type_arguments, attributes } => t("<"@) + doc_node(
            c,
            *tag_name,
            ie,
        ) + doc_list(
            c,
            type_arguments@,
            0,
            type_arguments@.len() as int,
            ListFormat(FORMAT_TYPE_ARGUMENTS),
            false,
            ChildMode::TypeOutsideExtends,
            ie,
        ) + (if has_jsx_attributes(*attributes) {
            t(" "@)
        } else {
            Seq::empty()
        }) + doc_node(c, *attributes, ie) + t(">"@),
        Node::JsxClosingElement { tag_name } => t("</"@) + doc_node(c, *tag_name, ie) + t(">"@),
        Node::JsxFragment { children } => t("<"@) + t(">"@) + doc_items(
            c,
            children@,
            0,
            children@.len() as int,
            ListFormat(FORMAT_JSX_ELEMENT_OR_FRAGMENT_CHILDREN),
            false,
            ChildMode::Plain,
            ie,
        ) + t("</"@) + t(">"@),
        _ => Seq::empty(),
    }
}

/// The document of a JSX expression, attribute list, attribute, spread
/// attribute or namespaced name.
pub open spec fn doc_jsx_part(c: PrintContext, n: Node, ie: bool) -> Seq<Piece>
    decreases n, 1int, 0int,
{
    match n {
        Node::JsxExpression { dot_dot_dot, expression } => match expression {
            Option::Some(e) => t("{"@) + (if dot_dot_dot {
                t("..."@)
            } else {
                Seq::empty()
            }) + doc_expr(c, *e, OPERATOR_PRECEDENCE_DISALLOW_COMMA, ie) + t("}"@),
            Option::None => Seq::empty(),
        },
        Node::JsxAttributes { properties } => doc_items(
            c,
            properties@,
            0,
            properties@.len() as int,
            ListFormat(FORMAT_JSX_ELEMENT_ATTRIBUTES),
            false,
            ChildMode::Plain,
            ie,
        ),
        Node::JsxAttribute { name, initializer } => doc_node(c, *name, ie) + match initializer {
            Option::Some(i) => t("="@) + doc_node(c, *i, ie),
            Option::None => Seq::empty(),
        },
        Node::JsxSpreadAttribute { expression } => t("{..."@) + doc_node(c, *expression, ie) + t("}"@),
        Node::JsxNamespacedName { namespace, name } => t(namespace@) + t(":"@) + t(name@),
        _ => Seq::empty(),
    }
}

/// The document of an `export as namespace` declaration, an import-equals
/// declaration, or the `require` call it refers to.
pub open spec fn doc_import_equals(c: PrintContext, n: Node, ie: bool) -> Seq<Piece>
    decreases n, 1int, 0int,
{
    match n {
        Node::NamespaceExportDeclaration { modifiers, name } => doc_modifiers(c, modifiers@, 0, false, ie)
            + t("export"@) + t(" "@) + t("as"@) + t(" "@) + t("namespace"@) + t(" "@) + t(name@) + t(";"@),
        Node::ImportEqualsDeclaration { modifiers, is_type_only, name, module_reference } => doc_modifiers(
            c,
            modifiers@,
            0,
            false,
            ie,
        ) + t("import"@) + t(" "@) + type_only_doc(is_type_only) + t(name@) + t(" "@) + t("="@) + t(" "@)
            + doc_node(c, *module_reference, ie) + t(";"@),
        Node::ExternalModuleReference(e) => t("require"@) + t("("@) + doc_node(c, *e, ie) + t(")"@),
        _ => Seq::empty(),
    }
}

/// The document of an object or array binding pattern, or of one of its
/// elements.
pub open spec fn doc_binding_pattern(c: PrintContext, n: Node, ie: bool) -> Seq<Piece>
    decreases n, 1int, 0int,
{
    match n {
        Node::ObjectBindingPattern { elements, has_trailing_comma } => t("{"@) + doc_items(
            c,
            elements@,
            0,
            elements@.len() as int,
            ListFormat(FORMAT_OBJECT_BINDING_PATTERN_ELEMENTS),
            has_trailing_comma,
            ChildMode::Plain,
            ie,
        ) + t("}"@),
        Node::ArrayBindingPattern { elements, has_trailing_comma } => t("["@) + doc_items(
            c,
            elements@,
            0,
            elements@.len() as int,
            ListFormat(FORMAT_ARRAY_BINDING_PATTERN_ELEMENTS),
            has_trailing_comma,
            ChildMode::Plain,
            ie,
        ) + t("]"@),
        Node::BindingElement { dot_dot_dot, property_name, name, initializer } => (if dot_dot_dot {
            t("..."@)
        } else {
            Seq::empty()
        }) + match property_name {
            Option::Some(p) => doc_node(c, *p, ie) + t(":"@) + t(" "@),
            Option::None => Seq::empty(),
        } + doc_node(c, *name, ie) + match initializer {
            Option::Some(e) => t(" "@) + t("="@) + t(" "@) + doc_expr(
                c,
                *e,
                OPERATOR_PRECEDENCE_DISALLOW_COMMA,
                ie,
            ),
            Option::None => Seq::empty(),
        },
        _ => Seq::empty(),
    }
}

/// The document of an import type.
pub open spec fn doc_import_type(c: PrintContext, n: Node, ie: bool) -> Seq<Piece>
    decreases n, 1int, 0int,
{
    match n {
        Node::ImportType { is_type_of, argument, attributes, qualifier, type_arguments } => (if is_type_of {
            t("typeof"@) + t(" "@)
        } else {
            Seq::empty()
        }) + t("import"@) + t("("@) + doc_node(c, *argument, ie) + import_type_attributes_doc(
            c,
            attributes,
            ie,
        ) + t(")"@) + match qualifier {
            Option::Some(q) => t("."@) + doc_node(c, *q, ie),
            Option::None => Seq::empty(),
        } + doc_list(
            c,
            type_arguments@,
            0,
            type_arguments@.len() as int,
            ListFormat(FORMAT_TYPE_ARGUMENTS),
            false,
            ChildMode::TypeOutsideExtends,
            ie,
        ),
        _ => Seq::empty(),
    }
}

/// The import attributes of an import type, after its argument: a comma, then
/// `{ with: ... }` (or `assert`) around the list of attributes. Attributes held
/// in a node of another kind are left out.
pub open spec fn import_type_attributes_doc(c: PrintContext, attributes: Option<Box<Node>>, ie: bool) -> Seq<Piece>
    decreases attributes, 1int, 0int,
{
    match attributes {
        Option::Some(a) => match *a {
            Node::ImportAttributes { assert_keyword, elements } => t(","@) + t(" "@) + t("{"@) + t(" "@)
                + (if assert_keyword {
                t("assert"@)
            } else {
                t("with"@)
            }) + t(":"@) + t(" "@) + doc_list(
                c,
                elements@,
                0,
                elements@.len() as int,
                ListFormat(FORMAT_IMPORT_ATTRIBUTES),
                false,
                ChildMode::Plain,
                ie,
            ) + t(" "@) + t("}"@),
            _ => Seq::empty(),
        },
        Option::None => Seq::empty(),
    }
}

/// The document of the declarations of a `for` statement's initializer.
pub open spec fn doc_variable_declaration_list(c: PrintContext, n: Node, ie: bool) -> Seq<Piece>
    decreases n, 1int, 0int,
{
    match n {
        Node::VariableDeclarationList { kind, declarations } => variable_keyword_doc(kind) + t(" "@)
            + doc_items(
            c,
            declarations@,
            0,
            declarations@.len() as int,
            ListFormat(FORMAT_VARIABLE_DECLARATION_LIST),
            false,
            ChildMode::Plain,
            ie,
        ),
        _ => Seq::empty(),
    }
}

/// A call whose callee is a function, written with the callee in parentheses.
pub open spec fn doc_iife(c: PrintContext, n: Node, ie: bool) -> Seq<Piece>
    decreases n, 1int, 0int,
{
    match n {
        Node::CallExpression { expression, type_arguments, arguments, question_dot, .. } => t(
            "("@,
        ) + doc_expr(c, *expression, OPERATOR_PRECEDENCE_LOWEST, ie) + t(")"@) + (if question_dot {
            t("?."@)
        } else {
            Seq::empty()
        }) + doc_list(
            c,
            type_arguments@,
            0,
            type_arguments@.len() as int,
            ListFormat(FORMAT_TYPE_ARGUMENTS),
            false,
            ChildMode::TypeOutsideExtends,
            ie,
        ) + doc_list(
            c,
            arguments@,
            0,
            arguments@.len() as int,
            ListFormat(FORMAT_CALL_ARGUMENTS),
            false,
            ChildMode::Plain,
            ie,
        ),
        _ => Seq::empty(),
    }
}

/// The body of an arrow function.
pub open spec fn doc_concise_body(c: PrintContext, body: Node, ie: bool) -> Seq<Piece>
    decreases body, 4int, 0int,
{
    if body is Block {
        doc_function_body(c, body, ie)
    } else if leftmost_expression(body) is ObjectLiteralExpression {
        t("("@) + doc_node(c, body, ie) + t(")"@)
    } else {
        doc_expr(c, body, OPERATOR_PRECEDENCE_YIELD, ie)
    }
}

/// The body of a function: a block whose statements go on one line when the
/// printer can keep them there, indented on their own lines otherwise.
pub open spec fn doc_function_body(c: PrintContext, body: Node, ie: bool) -> Seq<Piece>
    decreases body, 2int, 1int,
{
    match body {
        Node::Block { statements, multi_line } => {
            let n = statements@.len() as int;
            t("{"@) + seq![Piece::Indent] + (if function_body_on_single_line(
                c,
                statements@.len(),
                multi_line,
            ) {
                seq![Piece::Dedent] + doc_items(
                    c,
                    statements@,
                    0,
                    n,
                    ListFormat(FORMAT_SINGLE_LINE_FUNCTION_BODY_STATEMENTS),
                    false,
                    ChildMode::Plain,
                    ie,
                ) + seq![Piece::Indent]
            } else {
                doc_items(
                    c,
                    statements@,
                    0,
                    n,
                    ListFormat(FORMAT_MULTI_LINE_FUNCTION_BODY_STATEMENTS),
                    false,
                    ChildMode::Plain,
                    ie,
                )
            }) + seq![Piece::Dedent] + t("}"@)
        },
        _ => doc_node(c, body, ie),
    }
}

/// A statement in the place of the body of an `if`: after a space when it is a
/// block (or when the printer keeps source lines), else indented on a line of
/// its own.
pub open spec fn doc_embedded(c: PrintContext, s: Node, ie: bool) -> Seq<Piece>
    decreases s, 3int, 0int,
{
    if s is Block || c.preserve_source_newlines {
        t(" "@) + doc_node(c, s, ie)
    } else {
        seq![Piece::Indent, Piece::Line] + (if s is EmptyStatement {
            t(";"@)
        } else {
            doc_node(c, s, ie)
        }) + seq![Piece::Dedent]
    }
}

/// `n` as an expression at precedence `p`: in parentheses when it binds less
/// tightly than `p` asks.
pub open spec fn doc_expr(c: PrintContext, n: Node, p: i8, ie: bool) -> Seq<Piece>
    decreases n, 3int, 0int,
{
    if expression_precedence(n) < p {
        parenthesized(doc_node(c, n, ie))
    } else {
        doc_node(c, n, ie)
    }
}

/// The precedence a type is held to: inside an `extends` clause a conditional
/// type never stands unwrapped.
pub open spec fn effective_type_precedence(p: i8, ie: bool) -> i8 {
    if ie && p <= TYPE_PRECEDENCE_CONDITIONAL {
        TYPE_PRECEDENCE_FUNCTION
    } else {
        p
    }
}

/// `n` as a type at precedence `p`: in parentheses when it binds less tightly
/// than `p` asks.
pub open spec fn doc_type(c: PrintContext, n: Node, p: i8, ie: bool) -> Seq<Piece>
    decreases n, 3int, 0int,
{
    if type_node_precedence(n) < effective_type_precedence(p, ie) {
        parenthesized(doc_node(c, n, ie))
    } else {
        doc_node(c, n, ie)
    }
}

/// An item of a list, written as the list's mode asks.
pub open spec fn doc_child(c: PrintContext, n: Node, mode: ChildMode, ie: bool) -> Seq<Piece>
    decreases n, 4int, 0int,
{
    match mode {
        ChildMode::Plain => doc_node(c, n, ie),
        ChildMode::Expression(p) => doc_expr(c, n, p, ie),
        ChildMode::Type(p) => doc_type(c, n, p, ie),
        ChildMode::TypeOutsideExtends => doc_type(c, n, TYPE_PRECEDENCE_LOWEST, false),
    }
}

/// The list `children[lo..hi]` with its brackets: the printer's
/// `emit_list_range_with`.
#[verifier::opaque]
pub open spec fn doc_list(
    c: PrintContext,
    children: Seq<Node>,
    lo: int,
    hi: int,
    format: ListFormat,
    has_trailing_comma: bool,
    mode: ChildMode,
    ie: bool,
) -> Seq<Piece>
    decreases children, 2int, 0int,
{
    let empty = hi <= lo;
    if empty && format.has(LF_OPTIONAL_IF_EMPTY) {
        Seq::empty()
    } else {
        let open = if format.has(LF_BRACKETS_MASK) {
            t(format.spec_opening_bracket())
        } else {
            Seq::empty()
        };
        let close = if format.has(LF_BRACKETS_MASK) {
            t(format.spec_closing_bracket())
        } else {
            Seq::empty()
        };
        let body = if empty {
            if format.has(LF_MULTI_LINE) && !(c.preserve_source_newlines && c.in_source_file) {
                seq![Piece::Line]
            } else if format.has(LF_SPACE_BETWEEN_BRACES) && !format.has(LF_NO_SPACE_IF_EMPTY) {
                t(" "@)
            } else {
                Seq::empty()
            }
        } else {
            doc_items(c, children, lo, hi, format, has_trailing_comma, mode, ie)
        };
        open + body + close
    }
}

/// The items `children[lo..hi]` of a list with the spacing, line breaks,
/// indentation and trailing comma its format asks for: the printer's
/// `emit_list_items_with`.
#[verifier::opaque]
pub open spec fn doc_items(
    c: PrintContext,
    children: Seq<Node>,
    lo: int,
    hi: int,
    format: ListFormat,
    has_trailing_comma: bool,
    mode: ChildMode,
    ie: bool,
) -> Seq<Piece>
    decreases children, 1int, 0int,
{
    if hi <= lo {
        if format.has(LF_MULTI_LINE) {
            seq![Piece::Line]
        } else if format.has(LF_SPACE_BETWEEN_BRACES) && !format.has(LF_NO_SPACE_IF_EMPTY) {
            t(" "@)
        } else {
            Seq::empty()
        }
    } else {
        let leading = leading_line_terminator_count(format, Option::Some(false), c);
        let closing = closing_line_terminator_count(format, Option::Some(false), c);
        (if leading > 0 {
            lines_doc(leading)
        } else if format.has(LF_SPACE_BETWEEN_BRACES) {
            t(" "@)
        } else {
            Seq::empty()
        }) + (if format.has(LF_INDENTED) {
            seq![Piece::Indent]
        } else {
            Seq::empty()
        }) + doc_item_run(c, children, lo, hi, format, mode, ie) + (if has_trailing_comma
            && format.has(LF_ALLOW_TRAILING_COMMA) && format.has(LF_COMMA_DELIMITED) {
            t(","@)
        } else {
            Seq::empty()
        }) + (if format.has(LF_INDENTED) {
            seq![Piece::Dedent]
        } else {
            Seq::empty()
        }) + (if closing > 0 {
            lines_doc(closing)
        } else if format.has(LF_SPACE_AFTER_LIST | LF_SPACE_BETWEEN_BRACES) {
            t(" "@)
        } else {
            Seq::empty()
        })
    }
}

/// Whether a line break between items of a single-line list that is not
/// indented gets an indentation of its own.
pub open spec fn indents_broken_single_line(format: ListFormat) -> bool {
    format.0 & (LF_LINES_MASK | LF_INDENTED) == 0
}

/// What comes before item `i` of a list whose first item is `lo`.
pub open spec fn item_prefix(c: PrintContext, format: ListFormat, lo: int, i: int) -> Seq<Piece> {
    if format.has(LF_ASTERISK_DELIMITED) {
        seq![Piece::Line] + delimiter_doc(format)
    } else if i > lo {
        let s = separating_line_terminator_count(
            format,
            Option::Some(false),
            Option::Some(false),
            c,
        );
        delimiter_doc(format) + (if s > 0 {
            (if indents_broken_single_line(format) {
                seq![Piece::Indent]
            } else {
                Seq::empty()
            }) + lines_doc(s)
        } else if format.has(LF_SPACE_BETWEEN_SIBLINGS) {
            t(" "@)
        } else {
            Seq::empty()
        })
    } else {
        Seq::empty()
    }
}

/// What comes after item `i` of a list whose first item is `lo`.
pub open spec fn item_suffix(c: PrintContext, format: ListFormat, lo: int, i: int) -> Seq<Piece> {
    if !format.has(LF_ASTERISK_DELIMITED) && i > lo && separating_line_terminator_count(
        format,
        Option::Some(false),
        Option::Some(false),
        c,
    ) > 0 && indents_broken_single_line(format) {
        seq![Piece::Dedent]
    } else {
        Seq::empty()
    }
}

/// The items `children[lo..hi]` with what separates them.
pub open spec fn doc_item_run(
    c: PrintContext,
    children: Seq<Node>,
    lo: int,
    hi: int,
    format: ListFormat,
    mode: ChildMode,
    ie: bool,
) -> Seq<Piece>
    decreases children, 0int, hi - lo,
{
    if hi <= lo || hi > children.len() || lo < 0 {
        Seq::empty()
    } else {
        doc_item_run(c, children, lo, hi - 1, format, mode, ie) + item_prefix(c, format, lo, hi - 1)
            + doc_child(c, children[hi - 1], mode, ie) + item_suffix(c, format, lo, hi - 1)
    }
}

/// The modifiers and decorators `nodes[start..]`, run by run: a run of
/// modifiers one after another on the line, a run of decorators each on a
/// line of its own (left out where decorators are not allowed).
pub open spec fn doc_modifiers(
    c: PrintContext,
    nodes: Seq<Node>,
    start: int,
    allow_decorators: bool,
    ie: bool,
) -> Seq<Piece>
    decreases nodes, 2int, nodes.len() - start,
{
    if start < 0 || start >= nodes.len() {
        Seq::empty()
    } else {
        let decorators = is_decorator(nodes[start]);
        let end = run_end(nodes, start + 1, decorators);
        proof {
            lemma_run_end_bounds(nodes, start + 1, decorators);
        }
        if end <= start {
            Seq::empty()
        } else {
            (if allow_decorators || !decorators {
                doc_items(
                    c,
                    nodes,
                    start,
                    end,
                    ListFormat(
                        if decorators {
                            FORMAT_DECORATORS
                        } else {
                            FORMAT_MODIFIERS
                        },
                    ),
                    false,
                    ChildMode::Plain,
                    ie,
                )
            } else {
                Seq::empty()
            }) + doc_modifiers(c, nodes, end, allow_decorators, ie)
        }
    }
}

} // verus!
