use vstd::prelude::*;
use crate::ast::{BinaryOperator, ImportPhase, MappedTypeModifier, MetaPropertyKeyword, ModuleKeyword, Node, PrefixOperator, TypeOperatorKind, VariableKind};
use crate::doc::{ChildMode, FORMAT_ARRAY_BINDING_PATTERN_ELEMENTS, FORMAT_ARRAY_LITERAL_ELEMENTS, FORMAT_CALL_ARGUMENTS, FORMAT_CASE_BLOCK_CLAUSES, FORMAT_CASE_OR_DEFAULT_CLAUSE_STATEMENTS, FORMAT_CLASS_HERITAGE_CLAUSES, FORMAT_CLASS_MEMBERS, FORMAT_DECORATORS, FORMAT_ENUM_MEMBERS, FORMAT_HERITAGE_CLAUSES, FORMAT_HERITAGE_CLAUSE_TYPES, FORMAT_IMPORT_ATTRIBUTES, FORMAT_INDEX_SIGNATURE_PARAMETERS, FORMAT_INTERFACE_MEMBERS, FORMAT_INTERSECTION_TYPE_CONSTITUENTS, FORMAT_JSX_ELEMENT_ATTRIBUTES, FORMAT_JSX_ELEMENT_OR_FRAGMENT_CHILDREN, FORMAT_MODIFIERS, FORMAT_MULTI_LINE_BLOCK_STATEMENTS, FORMAT_MULTI_LINE_FUNCTION_BODY_STATEMENTS, FORMAT_MULTI_LINE_TUPLE_TYPE_ELEMENTS, FORMAT_MULTI_LINE_TYPE_LITERAL_MEMBERS, FORMAT_NAMED_IMPORTS_OR_EXPORTS_ELEMENTS, FORMAT_NEW_ARGUMENTS, FORMAT_OBJECT_BINDING_PATTERN_ELEMENTS, FORMAT_OBJECT_LITERAL_PROPERTIES, FORMAT_PARAMETERS, FORMAT_SINGLE_ARROW_PARAMETER, FORMAT_SINGLE_CLAUSE_STATEMENT, FORMAT_SINGLE_LINE_BLOCK_STATEMENTS, FORMAT_SINGLE_LINE_FUNCTION_BODY_STATEMENTS, FORMAT_SINGLE_LINE_TUPLE_TYPE_ELEMENTS, FORMAT_SINGLE_LINE_TYPE_LITERAL_MEMBERS, FORMAT_SOURCE_FILE_STATEMENTS, FORMAT_TEMPLATE_EXPRESSION_SPANS, FORMAT_TYPE_ARGUMENTS, FORMAT_TYPE_PARAMETERS, FORMAT_UNION_TYPE_CONSTITUENTS, FORMAT_VARIABLE_DECLARATION_LIST, attributes_clause_doc, break_dedent_doc, break_indent_doc, class_body_doc, class_head_doc, class_name_doc, clause_statements_doc, constructor_annotation_doc, doc_array_literal_expression, doc_arrow_function, doc_as_or_satisfies_expression, doc_binary_expression, doc_binding_pattern, doc_block, doc_call_expression, doc_case_or_default_clause, doc_catch_clause, doc_child, doc_class, doc_class_static_block, doc_concise_body, doc_conditional_expression, doc_conditional_type, doc_constructor_type, doc_decorator, doc_element_access_expression, doc_embedded, doc_enum, doc_export_assignment, doc_export_declaration, doc_export_part, doc_expr, doc_expression_statement, doc_expression_with_type_arguments, doc_for_in_or_of_statement, doc_for_statement, doc_function_body, doc_function_declaration, doc_function_expression, doc_function_type, doc_heritage_clause, doc_if_statement, doc_iife, doc_import_attributes, doc_import_declaration, doc_import_equals, doc_import_part, doc_import_type, doc_indexed_access_type, doc_infer_type, doc_interface_declaration, doc_item_run, doc_items, doc_jsx_element, doc_jsx_part, doc_jump_statement, doc_keyword_operator_expression, doc_labeled_or_with_statement, doc_list, doc_literal_or_predicate_type, doc_loop_statement, doc_mapped_type, doc_member_signature, doc_method_like, doc_modifiers, doc_module, doc_named_tuple_member, doc_new_expression, doc_node, doc_non_null_or_type_assertion, doc_object_literal_expression, doc_parameter, doc_parenthesized, doc_postfix_type, doc_postfix_unary_expression, doc_prefix_unary_expression, doc_property_access_expression, doc_property_declaration, doc_property_names, doc_return_statement, doc_signature, doc_source_file_node, doc_spread, doc_switch_statement, doc_tagged_template_expression, doc_template, doc_try_statement, doc_tuple_type, doc_type, doc_type_alias_declaration, doc_type_literal, doc_type_operator, doc_type_parameter, doc_type_reference, doc_union_or_intersection_type, doc_variable_declaration, doc_variable_declaration_list, doc_variable_statement, doc_yield_expression, function_body_on_single_line, heritage_clauses_doc, import_phase_doc, import_type_attributes_doc, interface_body_doc, interface_head_doc, is_decorator, is_immediately_invoked_function, is_simple_arrow_head, item_prefix, item_suffix, lemma_list_format_valid, lemma_printer_formats_valid, lemma_run_end_bounds, line_or_space, mapped_modifier_doc, mapped_type_close, mapped_type_key, mapped_type_open, mapped_type_value, module_body_doc, needs_dot_dot, optional_body_doc, optional_text, parameters_doc, parenthesized, prefix_needs_space, run_end, signature_like_doc, specifier_property_doc, t, template_continuation_text, template_head_text, type_annotation_doc, type_only_doc, type_parameters_doc, variable_keyword_doc};
use crate::layout::{brackets_fit, delimiter_doc, delimiters_fit, lemma_valid_format_brackets_fit, lemma_valid_format_delimiters_fit, get_closing_line_terminator_count, get_leading_line_terminator_count, get_separating_line_terminator_count, has_valid_delimiter, is_valid_list_format, lines_doc};
use crate::list_format::{LF_ALLOW_TRAILING_COMMA, LF_ASTERISK_DELIMITED, LF_BAR_DELIMITED, LF_BRACKETS_MASK, LF_COMMA_DELIMITED, LF_DELIMITERS_MASK, LF_INDENTED, LF_LINES_MASK, LF_MULTI_LINE, LF_NONE, LF_NO_SPACE_IF_EMPTY, LF_OPTIONAL_IF_EMPTY, LF_PREFER_NEW_LINE, LF_PRESERVE_LINES, LF_SPACE_AFTER_LIST, LF_SPACE_BETWEEN_BRACES, LF_SPACE_BETWEEN_SIBLINGS, ListFormat};
use crate::precedence::{OPERATOR_PRECEDENCE_ASSIGNMENT, OPERATOR_PRECEDENCE_COALESCE, OPERATOR_PRECEDENCE_COMMA, OPERATOR_PRECEDENCE_DISALLOW_COMMA, OPERATOR_PRECEDENCE_LEFT_HAND_SIDE, OPERATOR_PRECEDENCE_LOGICAL_OR, OPERATOR_PRECEDENCE_LOWEST, OPERATOR_PRECEDENCE_MEMBER, OPERATOR_PRECEDENCE_OPTIONAL_CHAIN, OPERATOR_PRECEDENCE_PARENTHESES, OPERATOR_PRECEDENCE_RELATIONAL, OPERATOR_PRECEDENCE_SPREAD, OPERATOR_PRECEDENCE_UNARY, OPERATOR_PRECEDENCE_UPDATE, OPERATOR_PRECEDENCE_YIELD, TYPE_PRECEDENCE_CONDITIONAL, TYPE_PRECEDENCE_FUNCTION, TYPE_PRECEDENCE_HIGHEST, TYPE_PRECEDENCE_LOWEST, TYPE_PRECEDENCE_POSTFIX, TYPE_PRECEDENCE_TYPE_OPERATOR, TYPE_PRECEDENCE_UNION, get_binary_operand_precedences, get_expression_precedence, get_leftmost_expression, get_type_node_precedence, is_binary_expression_with, is_new_expression_without_arguments, starts_with_class_or_function, starts_with_function_or_object_literal};
use crate::printer::{Printer, dispatch_group};
use crate::text_writer::{Piece, TextWriter, appends, lemma_doc_concat_assoc, lemma_doc_concat_empty, lines_and_indent_doc, write_lines_and_indent_to_writer};
use crate::tokens::{binary_operator_text, get_binary_operator_text, get_expression_keyword_text, get_modifier_text, get_postfix_operator_text, get_prefix_operator_text, get_type_keyword_text, get_type_operator_text};

verus! {

broadcast use {
    lemma_doc_concat_assoc,
    lemma_doc_concat_empty,
    lemma_valid_format_delimiters_fit,
    lemma_valid_format_brackets_fit,
};

/// Writes `count` line breaks.
fn write_lines(w: &mut TextWriter, count: i32)
    requires
        old(w).wf(),
    ensures
        final(w).wf(),
        final(w).start() == old(w).start(),
        appends(old(w).trace(), final(w).trace(), lines_doc(count as int)),
{
    let mut i: i32 = 0;
    while i < count
        invariant
            0 <= i,
            count > 0 ==> i <= count,
            count <= 0 ==> i == 0,
            w.wf(),
            w.start() == old(w).start(),
            w.trace() == old(w).trace() + Seq::new(i as nat, |k: int| Piece::Line),
        decreases count - i,
    {
        w.write_line();
        i += 1;
        proof {
            assert(old(w).trace() + Seq::new((i - 1) as nat, |k: int| Piece::Line) + seq![Piece::Line]
                =~= old(w).trace() + Seq::new(i as nat, |k: int| Piece::Line));
        }
    }
    proof {
        assert(Seq::new(i as nat, |k: int| Piece::Line) =~= lines_doc(count as int));
    }
}

/// Writes what separates two items of a list of this format.
fn write_delimiter(format: ListFormat, w: &mut TextWriter)
    requires
        old(w).wf(),
        has_valid_delimiter(format),
    ensures
        final(w).wf(),
        final(w).start() == old(w).start(),
        appends(old(w).trace(), final(w).trace(), delimiter_doc(format)),
{
    let d = format.0 & LF_DELIMITERS_MASK;
    if d == LF_NONE {
    } else if d == LF_COMMA_DELIMITED {
        w.write_punctuation(",");
    } else if d == LF_BAR_DELIMITED {
        w.write_space(" ");
        w.write_punctuation("|");
    } else if d == LF_ASTERISK_DELIMITED {
        w.write_space(" ");
        w.write_punctuation("*");
        w.write_space(" ");
    } else {
        w.write_space(" ");
        w.write_punctuation("&");
    }
}

/// Whether `s` holds `c`.
fn text_contains(s: &str, c: char) -> (r: bool)
    ensures
        r == s@.contains(c),
{
    let n = s.unicode_len();
    let mut i: usize = 0;
    while i < n
        invariant
            i <= n,
            n == s@.len(),
            forall|k: int| 0 <= k < i ==> s@[k] != c,
        decreases n - i,
    {
        if s.get_char(i) == c {
            return true;
        }
        i += 1;
    }
    false
}

/// Whether a numeric literal written before `.` needs a second dot, as
/// `needs_dot_dot` states.
fn may_need_dot_dot_for_property_access(n: &Node) -> (r: bool)
    ensures
        r == needs_dot_dot(*n),
{
    match n {
        Node::NumericLiteral(text) => {
            let s = text.as_str();
            let specifier = if s.unicode_len() >= 2 && s.get_char(0) == '0' {
                let c = s.get_char(1);
                c == 'x' || c == 'X' || c == 'b' || c == 'B' || c == 'o' || c == 'O'
            } else {
                false
            };
            !specifier && !text_contains(s, '.') && !text_contains(s, 'E') && !text_contains(s, 'e')
        },
        _ => false,
    }
}

/// Whether a prefix operator needs a space before its operand, as
/// `prefix_needs_space` states.
fn prefix_operator_needs_space(op: PrefixOperator, operand: &Node) -> (r: bool)
    ensures
        r == prefix_needs_space(op, *operand),
{
    match operand {
        Node::PrefixUnaryExpression { operator, .. } => {
            (op == PrefixOperator::Plus && (*operator == PrefixOperator::Plus || *operator
                == PrefixOperator::PlusPlus)) || (op == PrefixOperator::Minus && (*operator
                == PrefixOperator::Minus || *operator == PrefixOperator::MinusMinus))
        },
        _ => false,
    }
}

/// Whether an arrow function writes its lone parameter without parentheses,
/// as `is_simple_arrow_head` states.
fn can_emit_simple_arrow_head(n: &Node) -> (r: bool)
    ensures
        r == is_simple_arrow_head(*n),
{
    match n {
        Node::ArrowFunction { modifiers, type_parameters, parameters, parameter_in_parentheses, type_node, .. } => {
            if modifiers.len() != 0 || type_parameters.len() != 0 || type_node.is_some()
                || *parameter_in_parentheses || parameters.len() != 1 {
                return false;
            }
            match &parameters[0] {
                Node::Parameter { modifiers, dot_dot_dot, name, question, type_node, initializer } => modifiers.len()
                    == 0 && !*dot_dot_dot && matches!(**name, Node::Identifier(_)) && !*question
                    && type_node.is_none() && initializer.is_none(),
                _ => false,
            }
        },
        _ => false,
    }
}

/// Whether a statement is a call of a function or arrow function, as
/// `is_immediately_invoked_function` states.
fn is_immediately_invoked_function_expression(n: &Node) -> (r: bool)
    ensures
        r == is_immediately_invoked_function(*n),
{
    match n {
        Node::CallExpression { expression, .. } => match &**expression {
            Node::FunctionExpression { .. } | Node::ArrowFunction { .. } => true,
            _ => false,
        },
        _ => false,
    }
}

/// Whether a node is a decorator, as `is_decorator` states.
fn node_is_decorator(n: &Node) -> (r: bool)
    ensures
        r == is_decorator(*n),
{
    match n {
        Node::Decorator(_) => true,
        _ => false,
    }
}

/// Writes the keywords that begin a variable declaration list.
fn write_variable_keyword(kind: VariableKind, w: &mut TextWriter)
    requires
        old(w).wf(),
    ensures
        final(w).wf(),
        final(w).start() == old(w).start(),
        appends(old(w).trace(), final(w).trace(), variable_keyword_doc(kind)),
{
    match kind {
        VariableKind::Let => w.write_keyword("let"),
        VariableKind::Const => w.write_keyword("const"),
        VariableKind::AwaitUsing => {
            w.write_keyword("await");
            w.write_space(" ");
            w.write_keyword("using");
        },
        VariableKind::Using => w.write_keyword("using"),
        VariableKind::Var => w.write_keyword("var"),
    }
}

/// The text of the head of a template, as `template_head_text` states.
fn template_head(head: &String) -> (r: String)
    ensures
        r@ == template_head_text(head@),
{
    let mut text = String::from_str("`");
    text.append(head.as_str());
    text.append("${");
    proof {
        reveal_strlit("`");
        reveal_strlit("${");
    }
    text
}

/// The text after a substitution of a template, as
/// `template_continuation_text` states.
fn template_continuation(literal: &String, is_tail: bool) -> (r: String)
    ensures
        r@ == template_continuation_text(literal@, is_tail),
{
    let mut text = String::from_str("}");
    text.append(literal.as_str());
    if is_tail {
        text.append("`");
    } else {
        text.append("${");
    }
    proof {
        reveal_strlit("}");
        reveal_strlit("`");
        reveal_strlit("${");
    }
    text
}

/// Writes the name of a class after a space, where it has a non-empty one.
fn write_class_name(name: &Option<String>, w: &mut TextWriter)
    requires
        old(w).wf(),
    ensures
        final(w).wf(),
        final(w).start() == old(w).start(),
        appends(old(w).trace(), final(w).trace(), class_name_doc(*name)),
{
    match name {
        Option::Some(s) => {
            if !s.as_str().is_empty() {
                w.write_space(" ");
                w.write_symbol(s.as_str());
            }
        },
        Option::None => {},
    }
}

/// Writes what follows the opening brace of a mapped type.
fn write_mapped_type_open(single_line: bool, w: &mut TextWriter)
    requires
        old(w).wf(),
    ensures
        final(w).wf(),
        final(w).start() == old(w).start(),
        appends(old(w).trace(), final(w).trace(), mapped_type_open(single_line)),
{
    if single_line {
        w.write_space(" ");
    } else {
        let ghost t0 = w.trace();
        w.write_line();
        w.increase_indent();
        proof {
            assert(w.trace() =~= t0 + seq![Piece::Line, Piece::Indent]);
        }
    }
}

/// Writes what comes before the closing brace of a mapped type.
fn write_mapped_type_close(single_line: bool, w: &mut TextWriter)
    requires
        old(w).wf(),
    ensures
        final(w).wf(),
        final(w).start() == old(w).start(),
        appends(old(w).trace(), final(w).trace(), mapped_type_close(single_line)),
{
    if single_line {
        w.write_space(" ");
    } else {
        let ghost t0 = w.trace();
        w.write_line();
        w.decrease_indent();
        proof {
            assert(w.trace() =~= t0 + seq![Piece::Line, Piece::Dedent]);
        }
    }
}

impl Printer {
    /// Writes what comes before item `i` of a list whose first item is `lo`.
    #[verifier::spinoff_prover]
    pub(crate) fn emit_item_prefix(&self, format: ListFormat, lo: usize, i: usize, w: &mut TextWriter)
        requires
            old(w).wf(),
            format.has(LF_ASTERISK_DELIMITED) || i > lo ==> has_valid_delimiter(format),
        ensures
            final(w).wf(),
            final(w).start() == old(w).start(),
            appends(old(w).trace(), final(w).trace(), item_prefix(self.context(), format, lo as int, i as int)),
    {
        let c = self.get_context();
        if format.contains(ListFormat(LF_ASTERISK_DELIMITED)) {
            w.write_line();
            write_delimiter(format, w);
        } else if i > lo {
            let s = get_separating_line_terminator_count(
                format,
                Option::Some(false),
                Option::Some(false),
                c,
            );
            write_delimiter(format, w);
            if s > 0 {
                if format.0 & (LF_LINES_MASK | LF_INDENTED) == 0 {
                    w.increase_indent();
                }
                write_lines(w, s);
            } else if format.contains(ListFormat(LF_SPACE_BETWEEN_SIBLINGS)) {
                w.write_space(" ");
            }
        }
    }

    /// Writes what comes after item `i` of a list whose first item is `lo`.
    #[verifier::spinoff_prover]
    pub(crate) fn emit_item_suffix(&self, format: ListFormat, lo: usize, i: usize, w: &mut TextWriter)
        requires
            old(w).wf(),
        ensures
            final(w).wf(),
            final(w).start() == old(w).start(),
            appends(old(w).trace(), final(w).trace(), item_suffix(self.context(), format, lo as int, i as int)),
    {
        let c = self.get_context();
        if !format.contains(ListFormat(LF_ASTERISK_DELIMITED)) && i > lo
            && get_separating_line_terminator_count(
            format,
            Option::Some(false),
            Option::Some(false),
            c,
        ) > 0 && format.0 & (LF_LINES_MASK | LF_INDENTED) == 0 {
            w.decrease_indent();
        }
    }

    /// Writes an item of a list as the list's mode asks.
    #[verifier::spinoff_prover]
    pub(crate) fn emit_child(&self, n: &Node, mode: ChildMode, w: &mut TextWriter, in_extends: bool)
        requires
            old(w).wf(),
        ensures
            final(w).wf(),
            final(w).start() == old(w).start(),
            appends(old(w).trace(), final(w).trace(), doc_child(self.context(), *n, mode, in_extends)),
        decreases n, 4int, 0int,
    {
        match mode {
            ChildMode::Plain => self.write_node_worker(n, w, in_extends),
            ChildMode::Expression(p) => self.emit_expression(n, p, w, in_extends),
            ChildMode::Type(p) => self.emit_type_node(n, p, w, in_extends),
            ChildMode::TypeOutsideExtends => self.emit_type_node(n, TYPE_PRECEDENCE_LOWEST, w, false),
        }
    }

    /// Writes the items `children[lo..hi]` of a list with the spacing, line
    /// breaks, indentation and trailing comma its format asks for.
    #[verifier::spinoff_prover]
    #[verifier::rlimit(40)]
    pub(crate) fn emit_list_items(
        &self,
        children: &Vec<Node>,
        lo: usize,
        hi: usize,
        format: ListFormat,
        has_trailing_comma: bool,
        mode: ChildMode,
        w: &mut TextWriter,
        in_extends: bool,
    )
        requires
            old(w).wf(),
            lo <= hi <= children.len(),
            delimiters_fit(format, hi - lo),
        ensures
            final(w).wf(),
            final(w).start() == old(w).start(),
            appends(old(w).trace(), final(w).trace(), doc_items(
                self.context(),
                children@,
                lo as int,
                hi as int,
                format,
                has_trailing_comma,
                mode,
                in_extends,
            )),
        decreases children@, 1int, 0int,
    {
        proof {
            reveal(doc_items);
        }
        let c = self.get_context();
        if hi <= lo {
            if format.contains(ListFormat(LF_MULTI_LINE)) {
                w.write_line();
            } else if format.contains(ListFormat(LF_SPACE_BETWEEN_BRACES)) && !format.contains(
                ListFormat(LF_NO_SPACE_IF_EMPTY),
            ) {
                w.write_space(" ");
            }
            return ;
        }
        let ghost t0 = w.trace();
        let leading = get_leading_line_terminator_count(format, Option::Some(false), c);
        let closing = get_closing_line_terminator_count(format, Option::Some(false), c);
        if leading > 0 {
            write_lines(w, leading);
        } else if format.contains(ListFormat(LF_SPACE_BETWEEN_BRACES)) {
            w.write_space(" ");
        }
        if format.contains(ListFormat(LF_INDENTED)) {
            w.increase_indent();
        }
        let ghost t1 = w.trace();
        let mut i = lo;
        while i < hi
            invariant
                lo <= i <= hi <= children.len(),
                delimiters_fit(format, hi - lo),
                w.wf(),
                w.start() == old(w).start(),
                w.trace() == t1 + doc_item_run(c, children@, lo as int, i as int, format, mode, in_extends),
                c == self.context(),
            decreases hi - i,
        {
            self.emit_item_prefix(format, lo, i, w);
            self.emit_child(&children[i], mode, w, in_extends);
            self.emit_item_suffix(format, lo, i, w);
            i += 1;
        }
        if has_trailing_comma && format.contains(ListFormat(LF_ALLOW_TRAILING_COMMA))
            && format.contains(ListFormat(LF_COMMA_DELIMITED)) {
            w.write_punctuation(",");
        }
        if format.contains(ListFormat(LF_INDENTED)) {
            w.decrease_indent();
        }
        if closing > 0 {
            write_lines(w, closing);
        } else if format.contains(ListFormat(LF_SPACE_AFTER_LIST | LF_SPACE_BETWEEN_BRACES)) {
            w.write_space(" ");
        }
    }

    /// Writes a list of nodes with its brackets, as its format asks.
    #[verifier::spinoff_prover]
    pub(crate) fn emit_list(
        &self,
        children: &Vec<Node>,
        format: ListFormat,
        has_trailing_comma: bool,
        mode: ChildMode,
        w: &mut TextWriter,
        in_extends: bool,
    )
        requires
            old(w).wf(),
            delimiters_fit(format, children.len() as int),
            brackets_fit(format, children.len() as int),
        ensures
            final(w).wf(),
            final(w).start() == old(w).start(),
            appends(old(w).trace(), final(w).trace(), doc_list(
                self.context(),
                children@,
                0,
                children@.len() as int,
                format,
                has_trailing_comma,
                mode,
                in_extends,
            )),
        decreases children@, 2int, 0int,
    {
        proof {
            reveal(doc_list);
        }
        let c = self.get_context();
        let is_empty = children.len() == 0;
        if is_empty && format.contains(ListFormat(LF_OPTIONAL_IF_EMPTY)) {
            return ;
        }
        if format.contains(ListFormat(LF_BRACKETS_MASK)) {
            w.write_punctuation(format.opening_bracket());
        }
        if is_empty {
            if format.contains(ListFormat(LF_MULTI_LINE)) && !(c.preserve_source_newlines
                && c.in_source_file) {
                w.write_line();
            } else if format.contains(ListFormat(LF_SPACE_BETWEEN_BRACES)) && !format.contains(
                ListFormat(LF_NO_SPACE_IF_EMPTY),
            ) {
                w.write_space(" ");
            }
        } else {
            self.emit_list_items(
                children,
                0,
                children.len(),
                format,
                has_trailing_comma,
                mode,
                w,
                in_extends,
            );
        }
        if format.contains(ListFormat(LF_BRACKETS_MASK)) {
            w.write_punctuation(format.closing_bracket());
        }
    }

    /// Writes the modifiers and decorators of a declaration, run by run.
    #[verifier::spinoff_prover]
    pub(crate) fn emit_modifier_list(
        &self,
        nodes: &Vec<Node>,
        allow_decorators: bool,
        w: &mut TextWriter,
        in_extends: bool,
    )
        requires
            old(w).wf(),
        ensures
            final(w).wf(),
            final(w).start() == old(w).start(),
            appends(old(w).trace(), final(w).trace(), doc_modifiers(
                self.context(),
                nodes@,
                0,
                allow_decorators,
                in_extends,
            )),
        decreases nodes@, 2int, 0int,
    {
        let ghost c = self.context();
        let ghost t0 = w.trace();
        let ghost mut done: Seq<Piece> = Seq::empty();
        proof {
            lemma_printer_formats_valid(c, false, false, 0);
        }
        let len = nodes.len();
        let mut start: usize = 0;
        while start < len
            invariant
                start <= len == nodes.len(),
                w.wf(),
                w.start() == old(w).start(),
                w.trace() == t0 + done,
                doc_modifiers(c, nodes@, 0, allow_decorators, in_extends) == done + doc_modifiers(
                    c,
                    nodes@,
                    start as int,
                    allow_decorators,
                    in_extends,
                ),
                c == self.context(),
                is_valid_list_format(ListFormat(FORMAT_DECORATORS)),
                is_valid_list_format(ListFormat(FORMAT_MODIFIERS)),
            decreases len - start,
        {
            let decorators = node_is_decorator(&nodes[start]);
            let mut end = start + 1;
            while end < len && node_is_decorator(&nodes[end]) == decorators
                invariant
                    start < end <= len == nodes.len(),
                    run_end(nodes@, (start + 1) as int, decorators) == run_end(
                        nodes@,
                        end as int,
                        decorators,
                    ),
                decreases len - end,
            {
                end += 1;
            }
            proof {
                lemma_run_end_bounds(nodes@, (start + 1) as int, decorators);
                assert(run_end(nodes@, end as int, decorators) == end as int);
            }
            let ghost before = w.trace();
            let ghost piece = if allow_decorators || !decorators {
                doc_items(
                    c,
                    nodes@,
                    start as int,
                    end as int,
                    ListFormat(
                        if decorators {
                            FORMAT_DECORATORS
                        } else {
                            FORMAT_MODIFIERS
                        },
                    ),
                    false,
                    ChildMode::Plain,
                    in_extends,
                )
            } else {
                Seq::empty()
            };
            if allow_decorators || !decorators {
                let format = if decorators {
                    ListFormat(FORMAT_DECORATORS)
                } else {
                    ListFormat(FORMAT_MODIFIERS)
                };
                self.emit_list_items(nodes, start, end, format, false, ChildMode::Plain, w, in_extends);
            }
            proof {
                assert(w.trace() == before + piece);
                assert(doc_modifiers(c, nodes@, start as int, allow_decorators, in_extends) == piece
                    + doc_modifiers(c, nodes@, end as int, allow_decorators, in_extends));
                done = done + piece;
            }
            start = end;
        }
        proof {
            assert(doc_modifiers(c, nodes@, start as int, allow_decorators, in_extends) =~= Seq::<
                Piece,
            >::empty());
        }
    }

    /// Writes `n` as an expression at precedence `p`, in parentheses when it
    /// binds less tightly than `p` asks.
    #[verifier::spinoff_prover]
    pub(crate) fn emit_expression(&self, n: &Node, p: i8, w: &mut TextWriter, in_extends: bool)
        requires
            old(w).wf(),
        ensures
            final(w).wf(),
            final(w).start() == old(w).start(),
            appends(old(w).trace(), final(w).trace(), doc_expr(self.context(), *n, p, in_extends)),
        decreases n, 3int, 0int,
    {
        if get_expression_precedence(n) < p {
            w.write_punctuation("(");
            self.write_node_worker(n, w, in_extends);
            w.write_punctuation(")");
        } else {
            self.write_node_worker(n, w, in_extends);
        }
    }

    /// Writes `n` as a type at precedence `p`, in parentheses when it binds less
    /// tightly than `p` asks.
    #[verifier::spinoff_prover]
    pub(crate) fn emit_type_node(&self, n: &Node, p: i8, w: &mut TextWriter, in_extends: bool)
        requires
            old(w).wf(),
        ensures
            final(w).wf(),
            final(w).start() == old(w).start(),
            appends(old(w).trace(), final(w).trace(), doc_type(self.context(), *n, p, in_extends)),
        decreases n, 3int, 0int,
    {
        let effective = if in_extends && p <= TYPE_PRECEDENCE_CONDITIONAL {
            TYPE_PRECEDENCE_FUNCTION
        } else {
            p
        };
        if get_type_node_precedence(n) < effective {
            w.write_punctuation("(");
            self.write_node_worker(n, w, in_extends);
            w.write_punctuation(")");
        } else {
            self.write_node_worker(n, w, in_extends);
        }
    }

    /// Writes a call of a function expression with the callee in parentheses.
    #[verifier::spinoff_prover]
    pub(crate) fn emit_iife(&self, n: &Node, w: &mut TextWriter, in_extends: bool)
        requires
            old(w).wf(),
        ensures
            final(w).wf(),
            final(w).start() == old(w).start(),
            appends(old(w).trace(), final(w).trace(), doc_iife(self.context(), *n, in_extends)),
        decreases n, 1int, 0int,
    {
        proof {
            lemma_printer_formats_valid(self.context(), false, false, 0);
        }
        match n {
            Node::CallExpression { expression, type_arguments, arguments, question_dot, .. } => {
                w.write_punctuation("(");
                self.emit_expression(expression, OPERATOR_PRECEDENCE_LOWEST, w, in_extends);
                w.write_punctuation(")");
                if *question_dot {
                    w.write_punctuation("?.");
                }
                self.emit_list(
                    type_arguments,
                    ListFormat(FORMAT_TYPE_ARGUMENTS),
                    false,
                    ChildMode::TypeOutsideExtends,
                    w,
                    in_extends,
                );
                self.emit_list(
                    arguments,
                    ListFormat(FORMAT_CALL_ARGUMENTS),
                    false,
                    ChildMode::Plain,
                    w,
                    in_extends,
                );
            },
            _ => {},
        }
    }

    /// Writes the body of an arrow function: a block as a function body, an
    /// object literal in parentheses, any other expression above the comma.
    #[verifier::spinoff_prover]
    pub(crate) fn emit_concise_body(&self, body: &Node, w: &mut TextWriter, in_extends: bool)
        requires
            old(w).wf(),
        ensures
            final(w).wf(),
            final(w).start() == old(w).start(),
            appends(old(w).trace(), final(w).trace(), doc_concise_body(self.context(), *body, in_extends)),
        decreases body, 4int, 0int,
    {
        match body {
            Node::Block { .. } => self.emit_function_body(body, w, in_extends),
            _ => {
                let starts_with_object_literal = match get_leftmost_expression(body) {
                    Node::ObjectLiteralExpression { .. } => true,
                    _ => false,
                };
                if starts_with_object_literal {
                    w.write_punctuation("(");
                    self.write_node_worker(body, w, in_extends);
                    w.write_punctuation(")");
                } else {
                    self.emit_expression(body, OPERATOR_PRECEDENCE_YIELD, w, in_extends);
                }
            },
        }
    }

    /// Whether a function body goes on one line, as
    /// `function_body_on_single_line` states.
    pub(crate) fn should_emit_block_function_body_on_single_line(&self, statements_len: usize, multi_line: bool) -> (r: bool)
        ensures
            r == function_body_on_single_line(self.context(), statements_len as nat, multi_line),
    {
        if multi_line {
            return false;
        }
        let c = self.get_context();
        let f = ListFormat(LF_PRESERVE_LINES);
        let first = if statements_len > 0 {
            Option::Some(false)
        } else {
            Option::None
        };
        if get_leading_line_terminator_count(f, first, c) != 0 {
            return false;
        }
        if get_closing_line_terminator_count(f, first, c) != 0 {
            return false;
        }
        if statements_len > 1 && get_separating_line_terminator_count(
            f,
            Option::Some(false),
            Option::Some(false),
            c,
        ) != 0 {
            return false;
        }
        true
    }

    /// Writes the body of a function.
    #[verifier::spinoff_prover]
    pub(crate) fn emit_function_body(&self, body: &Node, w: &mut TextWriter, in_extends: bool)
        requires
            old(w).wf(),
        ensures
            final(w).wf(),
            final(w).start() == old(w).start(),
            appends(old(w).trace(), final(w).trace(), doc_function_body(self.context(), *body, in_extends)),
        decreases body, 2int, 1int,
    {
        proof {
            lemma_printer_formats_valid(self.context(), false, false, 0);
        }
        match body {
            Node::Block { statements, multi_line } => {
                w.write_punctuation("{");
                w.increase_indent();
                if self.should_emit_block_function_body_on_single_line(statements.len(), *multi_line) {
                    w.decrease_indent();
                    self.emit_list_items(
                        statements,
                        0,
                        statements.len(),
                        ListFormat(FORMAT_SINGLE_LINE_FUNCTION_BODY_STATEMENTS),
                        false,
                        ChildMode::Plain,
                        w,
                        in_extends,
                    );
                    w.increase_indent();
                } else {
                    self.emit_list_items(
                        statements,
                        0,
                        statements.len(),
                        ListFormat(FORMAT_MULTI_LINE_FUNCTION_BODY_STATEMENTS),
                        false,
                        ChildMode::Plain,
                        w,
                        in_extends,
                    );
                }
                w.decrease_indent();
                w.write_punctuation("}");
            },
            _ => self.write_node_worker(body, w, in_extends),
        }
    }

    /// Writes the statement in the place of the body of an `if`.
    #[verifier::spinoff_prover]
    pub(crate) fn emit_embedded_statement(&self, s: &Node, w: &mut TextWriter, in_extends: bool)
        requires
            old(w).wf(),
        ensures
            final(w).wf(),
            final(w).start() == old(w).start(),
            appends(old(w).trace(), final(w).trace(), doc_embedded(self.context(), *s, in_extends)),
        decreases s, 3int, 0int,
    {
        let is_block = match s {
            Node::Block { .. } => true,
            _ => false,
        };
        if is_block || self.get_context().preserve_source_newlines {
            w.write_space(" ");
            self.write_node_worker(s, w, in_extends);
        } else {
            let ghost t0 = w.trace();
            w.increase_indent();
            w.write_line();
            proof {
                assert(w.trace() =~= t0 + seq![Piece::Indent, Piece::Line]);
            }
            match s {
                Node::EmptyStatement => w.write_punctuation(";"),
                _ => self.write_node_worker(s, w, in_extends),
            }
            w.decrease_indent();
        }
    }

    /// Writes a binary expression, each operand parenthesized as its precedence and the `??` mixing rule ask.
    #[verifier::spinoff_prover]
    pub(crate) fn emit_binary_expression(&self, n: &Node, w: &mut TextWriter, in_extends: bool)
        requires
            old(w).wf(),
            *n is BinaryExpression,
        ensures
            final(w).wf(),
            final(w).start() == old(w).start(),
            appends(old(w).trace(), final(w).trace(), doc_binary_expression(self.context(), *n, in_extends)),
        decreases n, 1int, 0int,
    {
        match n {
            Node::BinaryExpression {
                left,
                operator,
                right,
                line_break_before_operator,
                line_break_after_operator,
            } => {
                let ghost c = self.context();
                let ghost t0 = w.trace();
                let in_source_file = self.get_context().in_source_file;
                let lb: i32 = if in_source_file && *line_break_before_operator {
                    1
                } else {
                    0
                };
                let la: i32 = if in_source_file && *line_break_after_operator {
                    1
                } else {
                    0
                };
                let (lp, rp) = get_binary_operand_precedences(left, *operator, right);
                self.emit_expression(left, lp, w, in_extends);
                write_lines_and_indent_to_writer(w, lb, *operator != BinaryOperator::Comma);
                w.write_operator(get_binary_operator_text(*operator));
                write_lines_and_indent_to_writer(w, la, true);
                let ghost d1 = doc_expr(c, **left, lp, in_extends) + lines_and_indent_doc(
                    lb as int,
                    *operator != BinaryOperator::Comma,
                ) + t(binary_operator_text(*operator)) + lines_and_indent_doc(la as int, true);
                assert(w.trace() == t0 + d1);
                self.emit_expression(right, rp, w, in_extends);
                if la > 0 {
                    w.decrease_indent();
                }
                if lb > 0 {
                    w.decrease_indent();
                }
            },
            _ => {},
        }
    }

    /// Writes a conditional expression.
    #[verifier::spinoff_prover]
    pub(crate) fn emit_conditional_expression(&self, n: &Node, w: &mut TextWriter, in_extends: bool)
        requires
            old(w).wf(),
            *n is ConditionalExpression,
        ensures
            final(w).wf(),
            final(w).start() == old(w).start(),
            appends(old(w).trace(), final(w).trace(), doc_conditional_expression(self.context(), *n, in_extends)),
        decreases n, 1int, 0int,
    {
        match n {
            Node::ConditionalExpression {
                condition,
                when_true,
                when_false,
                line_break_before_question,
                line_break_after_question,
                line_break_before_colon,
                line_break_after_colon,
            } => {
                let ghost c = self.context();
                let ghost t0 = w.trace();
                let in_source_file = self.get_context().in_source_file;
                let bq: i32 = if in_source_file && *line_break_before_question { 1 } else { 0 };
                let aq: i32 = if in_source_file && *line_break_after_question { 1 } else { 0 };
                let bc: i32 = if in_source_file && *line_break_before_colon { 1 } else { 0 };
                let ac: i32 = if in_source_file && *line_break_after_colon { 1 } else { 0 };
                let cp = if is_binary_expression_with(condition, BinaryOperator::QuestionQuestion) {
                    OPERATOR_PRECEDENCE_COALESCE
                } else {
                    OPERATOR_PRECEDENCE_LOGICAL_OR
                };
                self.emit_expression(condition, cp, w, in_extends);
                write_lines_and_indent_to_writer(w, bq, true);
                w.write_punctuation("?");
                write_lines_and_indent_to_writer(w, aq, true);
                let ghost d1 = doc_expr(c, **condition, cp, in_extends) + lines_and_indent_doc(bq as int, true)
                    + t("?"@) + lines_and_indent_doc(aq as int, true);
                assert(w.trace() == t0 + d1);
                self.emit_expression(when_true, OPERATOR_PRECEDENCE_YIELD, w, in_extends);
                if aq > 0 {
                    w.decrease_indent();
                }
                if bq > 0 {
                    w.decrease_indent();
                }
                let ghost d2 = d1 + doc_expr(c, **when_true, OPERATOR_PRECEDENCE_YIELD, in_extends)
                    + break_dedent_doc(aq as int) + break_dedent_doc(bq as int);
                assert(w.trace() == t0 + d2);
                write_lines_and_indent_to_writer(w, bc, true);
                w.write_punctuation(":");
                write_lines_and_indent_to_writer(w, ac, true);
                let ghost d3 = d2 + lines_and_indent_doc(bc as int, true) + t(":"@) + lines_and_indent_doc(
                    ac as int,
                    true,
                );
                assert(w.trace() == t0 + d3);
                self.emit_expression(when_false, OPERATOR_PRECEDENCE_YIELD, w, in_extends);
                if ac > 0 {
                    w.decrease_indent();
                }
                if bc > 0 {
                    w.decrease_indent();
                }
            },
            _ => {},
        }
    }

    /// Writes a prefix unary expression; `+ +a` and `- -a` keep a space.
    #[verifier::spinoff_prover]
    pub(crate) fn emit_prefix_unary_expression(&self, n: &Node, w: &mut TextWriter, in_extends: bool)
        requires
            old(w).wf(),
            *n is PrefixUnaryExpression,
        ensures
            final(w).wf(),
            final(w).start() == old(w).start(),
            appends(old(w).trace(), final(w).trace(), doc_prefix_unary_expression(self.context(), *n, in_extends)),
        decreases n, 1int, 0int,
    {
        match n {
            Node::PrefixUnaryExpression { operator, operand } => {
                w.write_operator(get_prefix_operator_text(*operator));
                if prefix_operator_needs_space(*operator, operand) {
                    w.write_space(" ");
                }
                self.emit_expression(operand, OPERATOR_PRECEDENCE_UNARY, w, in_extends);
            },
            _ => {},
        }
    }

    /// Writes a postfix unary expression.
    #[verifier::spinoff_prover]
    pub(crate) fn emit_postfix_unary_expression(&self, n: &Node, w: &mut TextWriter, in_extends: bool)
        requires
            old(w).wf(),
            *n is PostfixUnaryExpression,
        ensures
            final(w).wf(),
            final(w).start() == old(w).start(),
            appends(old(w).trace(), final(w).trace(), doc_postfix_unary_expression(self.context(), *n, in_extends)),
        decreases n, 1int, 0int,
    {
        match n {
            Node::PostfixUnaryExpression { operand, operator } => {
                self.emit_expression(operand, OPERATOR_PRECEDENCE_UPDATE, w, in_extends);
                w.write_operator(get_postfix_operator_text(*operator));
            },
            _ => {},
        }
    }

    /// Writes a `delete`, `void`, `typeof` or `await` expression.
    #[verifier::spinoff_prover]
    pub(crate) fn emit_keyword_operator_expression(&self, n: &Node, w: &mut TextWriter, in_extends: bool)
        requires
            old(w).wf(),
            *n is DeleteExpression || *n is VoidExpression || *n is TypeOfExpression || *n is AwaitExpression,
        ensures
            final(w).wf(),
            final(w).start() == old(w).start(),
            appends(old(w).trace(), final(w).trace(), doc_keyword_operator_expression(self.context(), *n, in_extends)),
        decreases n, 1int, 0int,
    {
        match n {
            Node::DeleteExpression(e) => {
                w.write_keyword("delete");
                w.write_space(" ");
                self.emit_expression(e, OPERATOR_PRECEDENCE_UNARY, w, in_extends);
            },
            Node::VoidExpression(e) => {
                w.write_keyword("void");
                w.write_space(" ");
                self.emit_expression(e, OPERATOR_PRECEDENCE_UNARY, w, in_extends);
            },
            Node::TypeOfExpression(e) => {
                w.write_keyword("typeof");
                w.write_space(" ");
                self.emit_expression(e, OPERATOR_PRECEDENCE_UNARY, w, in_extends);
            },
            Node::AwaitExpression(e) => {
                w.write_keyword("await");
                w.write_space(" ");
                self.emit_expression(e, OPERATOR_PRECEDENCE_UNARY, w, in_extends);
            },
            _ => {},
        }
    }

    /// Writes a `yield` expression.
    #[verifier::spinoff_prover]
    pub(crate) fn emit_yield_expression(&self, n: &Node, w: &mut TextWriter, in_extends: bool)
        requires
            old(w).wf(),
            *n is YieldExpression,
        ensures
            final(w).wf(),
            final(w).start() == old(w).start(),
            appends(old(w).trace(), final(w).trace(), doc_yield_expression(self.context(), *n, in_extends)),
        decreases n, 1int, 0int,
    {
        match n {
            Node::YieldExpression { asterisk, expression } => {
                w.write_keyword("yield");
                if *asterisk {
                    w.write_punctuation("*");
                }
                match expression {
                    Option::Some(e) => {
                        w.write_space(" ");
                        self.emit_expression(e, OPERATOR_PRECEDENCE_DISALLOW_COMMA, w, in_extends);
                    },
                    Option::None => {},
                }
            },
            _ => {},
        }
    }

    /// Writes a property access; a whole-number literal before `.` gets a second dot.
    #[verifier::spinoff_prover]
    pub(crate) fn emit_property_access_expression(&self, n: &Node, w: &mut TextWriter, in_extends: bool)
        requires
            old(w).wf(),
            *n is PropertyAccessExpression,
        ensures
            final(w).wf(),
            final(w).start() == old(w).start(),
            appends(old(w).trace(), final(w).trace(), doc_property_access_expression(self.context(), *n, in_extends)),
        decreases n, 1int, 0int,
    {
        match n {
            Node::PropertyAccessExpression {
                expression,
                name,
                question_dot,
                optional_chain,
                line_break_before_dot,
                line_break_after_dot,
            } => {
                let ghost c = self.context();
                let ghost t0 = w.trace();
                let in_source_file = self.get_context().in_source_file;
                let bd: i32 = if in_source_file && *line_break_before_dot { 1 } else { 0 };
                let ad: i32 = if in_source_file && *line_break_after_dot { 1 } else { 0 };
                let p = if is_new_expression_without_arguments(expression) {
                    OPERATOR_PRECEDENCE_PARENTHESES
                } else if *optional_chain {
                    OPERATOR_PRECEDENCE_OPTIONAL_CHAIN
                } else {
                    OPERATOR_PRECEDENCE_MEMBER
                };
                self.emit_expression(expression, p, w, in_extends);
                if bd > 0 {
                    w.write_line();
                    w.increase_indent();
                }
                let ghost d1 = doc_expr(c, **expression, p, in_extends) + lines_doc(bd as int) + break_indent_doc(
                    bd as int,
                );
                proof {
                    if bd > 0 {
                        assert(lines_doc(bd as int) =~= seq![Piece::Line]);
                    } else {
                        assert(lines_doc(bd as int) =~= Seq::<Piece>::empty());
                    }
                }
                assert(w.trace() == t0 + d1);
                if !*question_dot && may_need_dot_dot_for_property_access(expression) && bd == 0 {
                    w.write_punctuation(".");
                }
                if *question_dot {
                    w.write_punctuation("?.");
                } else {
                    w.write_punctuation(".");
                }
                let ghost d2 = d1 + (if !*question_dot && needs_dot_dot(**expression) && bd == 0 {
                    t("."@)
                } else {
                    Seq::empty()
                }) + (if *question_dot {
                    t("?."@)
                } else {
                    t("."@)
                });
                assert(w.trace() == t0 + d2);
                if ad > 0 {
                    w.write_line();
                    w.increase_indent();
                }
                proof {
                    if ad > 0 {
                        assert(lines_doc(ad as int) =~= seq![Piece::Line]);
                    } else {
                        assert(lines_doc(ad as int) =~= Seq::<Piece>::empty());
                    }
                }
                w.write_symbol(name.as_str());
                if ad > 0 {
                    w.decrease_indent();
                }
                if bd > 0 {
                    w.decrease_indent();
                }
            },
            _ => {},
        }
    }

    /// Writes an element access.
    #[verifier::spinoff_prover]
    pub(crate) fn emit_element_access_expression(&self, n: &Node, w: &mut TextWriter, in_extends: bool)
        requires
            old(w).wf(),
            *n is ElementAccessExpression,
        ensures
            final(w).wf(),
            final(w).start() == old(w).start(),
            appends(old(w).trace(), final(w).trace(), doc_element_access_expression(self.context(), *n, in_extends)),
        decreases n, 1int, 0int,
    {
        match n {
            Node::ElementAccessExpression { expression, argument, question_dot, optional_chain } => {
                let p = if *optional_chain {
                    OPERATOR_PRECEDENCE_OPTIONAL_CHAIN
                } else {
                    OPERATOR_PRECEDENCE_MEMBER
                };
                self.emit_expression(expression, p, w, in_extends);
                if *question_dot {
                    w.write_punctuation("?.");
                }
                w.write_punctuation("[");
                self.emit_expression(argument, OPERATOR_PRECEDENCE_COMMA, w, in_extends);
                w.write_punctuation("]");
            },
            _ => {},
        }
    }

    /// Writes a call.
    #[verifier::spinoff_prover]
    pub(crate) fn emit_call_expression(&self, n: &Node, w: &mut TextWriter, in_extends: bool)
        requires
            old(w).wf(),
            *n is CallExpression,
        ensures
            final(w).wf(),
            final(w).start() == old(w).start(),
            appends(old(w).trace(), final(w).trace(), doc_call_expression(self.context(), *n, in_extends)),
        decreases n, 1int, 0int,
    {
        proof {
            lemma_list_format_valid(FORMAT_TYPE_ARGUMENTS);
            lemma_list_format_valid(FORMAT_CALL_ARGUMENTS);
        }
        match n {
            Node::CallExpression { expression, type_arguments, arguments, question_dot, optional_chain } => {
                let p = if is_new_expression_without_arguments(expression) {
                    OPERATOR_PRECEDENCE_PARENTHESES
                } else if *optional_chain {
                    OPERATOR_PRECEDENCE_OPTIONAL_CHAIN
                } else {
                    OPERATOR_PRECEDENCE_MEMBER
                };
                let ghost c = self.context();
                let ghost t0 = w.trace();
                self.emit_expression(expression, p, w, in_extends);
                if *question_dot {
                    w.write_punctuation("?.");
                }
                let ghost d1 = doc_expr(c, **expression, p, in_extends) + (if *question_dot {
                    t("?."@)
                } else {
                    Seq::empty()
                });
                assert(w.trace() == t0 + d1);
                self.emit_list(
                    type_arguments,
                    ListFormat(FORMAT_TYPE_ARGUMENTS),
                    false,
                    ChildMode::TypeOutsideExtends,
                    w,
                    in_extends,
                );
                let ghost d2 = d1 + doc_list(
                    c,
                    type_arguments@,
                    0,
                    type_arguments@.len() as int,
                    ListFormat(FORMAT_TYPE_ARGUMENTS),
                    false,
                    ChildMode::TypeOutsideExtends,
                    in_extends,
                );
                assert(w.trace() == t0 + d2);
                self.emit_list(
                    arguments,
                    ListFormat(FORMAT_CALL_ARGUMENTS),
                    false,
                    ChildMode::Expression(OPERATOR_PRECEDENCE_SPREAD),
                    w,
                    in_extends,
                );
            },
            _ => {},
        }
    }

    /// Writes a `new` expression; a callee that is a call is parenthesized.
    #[verifier::spinoff_prover]
    pub(crate) fn emit_new_expression(&self, n: &Node, w: &mut TextWriter, in_extends: bool)
        requires
            old(w).wf(),
            *n is NewExpression,
        ensures
            final(w).wf(),
            final(w).start() == old(w).start(),
            appends(old(w).trace(), final(w).trace(), doc_new_expression(self.context(), *n, in_extends)),
        decreases n, 1int, 0int,
    {
        proof {
            lemma_list_format_valid(FORMAT_TYPE_ARGUMENTS);
            lemma_list_format_valid(FORMAT_NEW_ARGUMENTS);
        }
        match n {
            Node::NewExpression { expression, type_arguments, arguments } => {
                let p = match &**expression {
                    Node::CallExpression { .. } => OPERATOR_PRECEDENCE_PARENTHESES,
                    _ => OPERATOR_PRECEDENCE_MEMBER,
                };
                let ghost c = self.context();
                let ghost t0 = w.trace();
                w.write_keyword("new");
                w.write_space(" ");
                self.emit_expression(expression, p, w, in_extends);
                let ghost d1 = t("new"@) + t(" "@) + doc_expr(c, **expression, p, in_extends);
                assert(w.trace() == t0 + d1);
                self.emit_list(
                    type_arguments,
                    ListFormat(FORMAT_TYPE_ARGUMENTS),
                    false,
                    ChildMode::TypeOutsideExtends,
                    w,
                    in_extends,
                );
                let ghost d2 = d1 + doc_list(
                    c,
                    type_arguments@,
                    0,
                    type_arguments@.len() as int,
                    ListFormat(FORMAT_TYPE_ARGUMENTS),
                    false,
                    ChildMode::TypeOutsideExtends,
                    in_extends,
                );
                assert(w.trace() == t0 + d2);
                match arguments {
                    Option::Some(a) => {
                        self.emit_list(
                            a,
                            ListFormat(FORMAT_NEW_ARGUMENTS),
                            false,
                            ChildMode::Expression(OPERATOR_PRECEDENCE_SPREAD),
                            w,
                            in_extends,
                        );
                    },
                    Option::None => {},
                }
            },
            _ => {},
        }
    }

    /// Writes a tagged template.
    #[verifier::spinoff_prover]
    pub(crate) fn emit_tagged_template_expression(&self, n: &Node, w: &mut TextWriter, in_extends: bool)
        requires
            old(w).wf(),
            *n is TaggedTemplateExpression,
        ensures
            final(w).wf(),
            final(w).start() == old(w).start(),
            appends(old(w).trace(), final(w).trace(), doc_tagged_template_expression(self.context(), *n, in_extends)),
        decreases n, 1int, 0int,
    {
        proof {
            lemma_printer_formats_valid(self.context(), false, false, 0);
        }
        match n {
            Node::TaggedTemplateExpression { tag, type_arguments, template } => {
                self.emit_expression(tag, OPERATOR_PRECEDENCE_MEMBER, w, in_extends);
                self.emit_list(
                    type_arguments,
                    ListFormat(FORMAT_TYPE_ARGUMENTS),
                    false,
                    ChildMode::TypeOutsideExtends,
                    w,
                    in_extends,
                );
                w.write_space(" ");
                self.write_node_worker(template, w, in_extends);
            },
            _ => {},
        }
    }

    /// Writes an arrow function; a lone plain parameter goes without parentheses.
    #[verifier::spinoff_prover]
    pub(crate) fn emit_arrow_function(&self, n: &Node, w: &mut TextWriter, in_extends: bool)
        requires
            old(w).wf(),
            *n is ArrowFunction,
        ensures
            final(w).wf(),
            final(w).start() == old(w).start(),
            appends(old(w).trace(), final(w).trace(), doc_arrow_function(self.context(), *n, in_extends)),
        decreases n, 1int, 0int,
    {
        match n {
            Node::ArrowFunction { modifiers, body, .. } => {
                self.emit_modifier_list(modifiers, false, w, in_extends);
                self.emit_arrow_signature(n, w, in_extends);
                w.write_space(" ");
                w.write_punctuation("=>");
                w.write_space(" ");
                self.emit_concise_body(body, w, in_extends);
            },
            _ => {},
        }
    }

    /// Writes a function expression.
    #[verifier::spinoff_prover]
    pub(crate) fn emit_function_expression(&self, n: &Node, w: &mut TextWriter, in_extends: bool)
        requires
            old(w).wf(),
            *n is FunctionExpression,
        ensures
            final(w).wf(),
            final(w).start() == old(w).start(),
            appends(old(w).trace(), final(w).trace(), doc_function_expression(self.context(), *n, in_extends)),
        decreases n, 1int, 0int,
    {
        match n {
            Node::FunctionExpression { modifiers, asterisk, name, body, .. } => {
                let ghost c = self.context();
                let ghost t0 = w.trace();
                self.emit_modifier_list(modifiers, false, w, in_extends);
                w.write_keyword("function");
                if *asterisk {
                    w.write_operator("*");
                }
                let ghost d1 = doc_modifiers(c, modifiers@, 0, false, in_extends) + t("function"@) + (if *asterisk {
                    t("*"@)
                } else {
                    Seq::empty()
                });
                assert(w.trace() == t0 + d1);
                match name {
                    Option::Some(s) => {
                        w.write_space(" ");
                        w.write_symbol(s.as_str());
                    },
                    Option::None => {
                        w.write_space(" ");
                    },
                }
                let ghost d2 = d1 + match name {
                    Option::Some(s) => t(" "@) + t(s@),
                    Option::None => t(" "@),
                };
                assert(w.trace() == t0 + d2);
                self.emit_signature_like(n, w, in_extends);
                w.write_space(" ");
                self.emit_function_body(body, w, in_extends);
                assert(w.trace() == t0 + (d2 + signature_like_doc(c, *n, in_extends) + t(" "@)
                    + doc_function_body(c, **body, in_extends)));
            },
            _ => {},
        }
    }

    /// Writes the head of a class.
    #[verifier::spinoff_prover]
    fn emit_class_head(&self, n: &Node, w: &mut TextWriter, in_extends: bool)
        requires
            old(w).wf(),
            *n is ClassExpression || *n is ClassDeclaration,
        ensures
            final(w).wf(),
            final(w).start() == old(w).start(),
            appends(old(w).trace(), final(w).trace(), class_head_doc(self.context(), *n, in_extends)),
        decreases n, 0int, 0int,
    {
        proof {
            lemma_list_format_valid(FORMAT_CLASS_HERITAGE_CLAUSES);
        }
        match n {
            Node::ClassExpression { modifiers, name, type_parameters, heritage_clauses, .. } => {
                let ghost c = self.context();
                let ghost t0 = w.trace();
                self.emit_modifier_list(modifiers, true, w, in_extends);
                w.write_keyword("class");
                write_class_name(name, w);
                let ghost d1 = doc_modifiers(c, modifiers@, 0, true, in_extends) + t("class"@) + class_name_doc(*name);
                assert(w.trace() == t0 + d1);
                self.emit_type_parameters(type_parameters, w, in_extends);
                self.emit_heritage_clauses(heritage_clauses, ListFormat(FORMAT_CLASS_HERITAGE_CLAUSES), w, in_extends);
                assert(w.trace() == t0 + (d1 + type_parameters_doc(c, type_parameters@, in_extends)
                    + heritage_clauses_doc(c, heritage_clauses@, ListFormat(FORMAT_CLASS_HERITAGE_CLAUSES), in_extends)));
            },
            Node::ClassDeclaration { modifiers, name, type_parameters, heritage_clauses, .. } => {
                let ghost c = self.context();
                let ghost t0 = w.trace();
                self.emit_modifier_list(modifiers, true, w, in_extends);
                w.write_keyword("class");
                write_class_name(name, w);
                let ghost d1 = doc_modifiers(c, modifiers@, 0, true, in_extends) + t("class"@) + class_name_doc(*name);
                assert(w.trace() == t0 + d1);
                self.emit_type_parameters(type_parameters, w, in_extends);
                self.emit_heritage_clauses(heritage_clauses, ListFormat(FORMAT_CLASS_HERITAGE_CLAUSES), w, in_extends);
                assert(w.trace() == t0 + (d1 + type_parameters_doc(c, type_parameters@, in_extends)
                    + heritage_clauses_doc(c, heritage_clauses@, ListFormat(FORMAT_CLASS_HERITAGE_CLAUSES), in_extends)));
            },
            _ => {},
        }
    }

    /// Writes the body of a class.
    #[verifier::spinoff_prover]
    fn emit_class_body(&self, n: &Node, w: &mut TextWriter, in_extends: bool)
        requires
            old(w).wf(),
            *n is ClassExpression || *n is ClassDeclaration,
        ensures
            final(w).wf(),
            final(w).start() == old(w).start(),
            appends(old(w).trace(), final(w).trace(), class_body_doc(self.context(), *n, in_extends)),
        decreases n, 0int, 0int,
    {
        proof {
            lemma_printer_formats_valid(self.context(), false, false, 0);
        }
        match n {
            Node::ClassExpression { members, .. } => {
                w.write_space(" ");
                w.write_punctuation("{");
                self.emit_list(members, ListFormat(FORMAT_CLASS_MEMBERS), false, ChildMode::Plain, w, in_extends);
                w.write_punctuation("}");
            },
            Node::ClassDeclaration { members, .. } => {
                w.write_space(" ");
                w.write_punctuation("{");
                self.emit_list(members, ListFormat(FORMAT_CLASS_MEMBERS), false, ChildMode::Plain, w, in_extends);
                w.write_punctuation("}");
            },
            _ => {},
        }
    }

    /// Writes a class expression or declaration.
    #[verifier::spinoff_prover]
    pub(crate) fn emit_class(&self, n: &Node, w: &mut TextWriter, in_extends: bool)
        requires
            old(w).wf(),
            *n is ClassExpression || *n is ClassDeclaration,
        ensures
            final(w).wf(),
            final(w).start() == old(w).start(),
            appends(old(w).trace(), final(w).trace(), doc_class(self.context(), *n, in_extends)),
        decreases n, 1int, 0int,
    {
        self.emit_class_head(n, w, in_extends);
        self.emit_class_body(n, w, in_extends);
    }

    /// Writes an object literal.
    #[verifier::spinoff_prover]
    pub(crate) fn emit_object_literal_expression(&self, n: &Node, w: &mut TextWriter, in_extends: bool)
        requires
            old(w).wf(),
            *n is ObjectLiteralExpression,
        ensures
            final(w).wf(),
            final(w).start() == old(w).start(),
            appends(old(w).trace(), final(w).trace(), doc_object_literal_expression(self.context(), *n, in_extends)),
        decreases n, 1int, 0int,
    {
        match n {
            Node::ObjectLiteralExpression { properties, multi_line, has_trailing_comma } => {
                let format = ListFormat(FORMAT_OBJECT_LITERAL_PROPERTIES | (if self.get_context().in_source_file {
                    LF_ALLOW_TRAILING_COMMA
                } else {
                    LF_NONE
                }) | (if *multi_line {
                    LF_PREFER_NEW_LINE
                } else {
                    LF_NONE
                }));
                proof {
                    lemma_printer_formats_valid(self.context(), *multi_line, false, 0);
                }
                self.emit_list(properties, format, *has_trailing_comma, ChildMode::Plain, w, in_extends);
            },
            _ => {},
        }
    }

    /// Writes an array literal; a last element that is omitted keeps its comma.
    #[verifier::spinoff_prover]
    pub(crate) fn emit_array_literal_expression(&self, n: &Node, w: &mut TextWriter, in_extends: bool)
        requires
            old(w).wf(),
            *n is ArrayLiteralExpression,
        ensures
            final(w).wf(),
            final(w).start() == old(w).start(),
            appends(old(w).trace(), final(w).trace(), doc_array_literal_expression(self.context(), *n, in_extends)),
        decreases n, 1int, 0int,
    {
        match n {
            Node::ArrayLiteralExpression { elements, multi_line, has_trailing_comma } => {
                let format = ListFormat(FORMAT_ARRAY_LITERAL_ELEMENTS | (if *multi_line {
                    LF_PREFER_NEW_LINE
                } else {
                    LF_NONE
                }));
                proof {
                    lemma_printer_formats_valid(self.context(), *multi_line, false, 0);
                }
                let trailing = *has_trailing_comma || (elements.len() > 0 && match &elements[elements.len() - 1] {
                    Node::OmittedExpression => true,
                    _ => false,
                });
                self.emit_list(
                    elements,
                    format,
                    trailing,
                    ChildMode::Expression(OPERATOR_PRECEDENCE_SPREAD),
                    w,
                    in_extends,
                );
            },
            _ => {},
        }
    }

    /// Writes a spread element or spread assignment.
    #[verifier::spinoff_prover]
    pub(crate) fn emit_spread(&self, n: &Node, w: &mut TextWriter, in_extends: bool)
        requires
            old(w).wf(),
            *n is SpreadElement || *n is SpreadAssignment,
        ensures
            final(w).wf(),
            final(w).start() == old(w).start(),
            appends(old(w).trace(), final(w).trace(), doc_spread(self.context(), *n, in_extends)),
        decreases n, 1int, 0int,
    {
        match n {
            Node::SpreadElement(e) => {
                w.write_punctuation("...");
                self.emit_expression(e, OPERATOR_PRECEDENCE_DISALLOW_COMMA, w, in_extends);
            },
            Node::SpreadAssignment(e) => {
                w.write_punctuation("...");
                self.write_node_worker(e, w, in_extends);
            },
            _ => {},
        }
    }

    /// Writes an `as` or `satisfies` expression.
    #[verifier::spinoff_prover]
    pub(crate) fn emit_as_or_satisfies_expression(&self, n: &Node, w: &mut TextWriter, in_extends: bool)
        requires
            old(w).wf(),
            *n is AsExpression || *n is SatisfiesExpression,
        ensures
            final(w).wf(),
            final(w).start() == old(w).start(),
            appends(old(w).trace(), final(w).trace(), doc_as_or_satisfies_expression(self.context(), *n, in_extends)),
        decreases n, 1int, 0int,
    {
        match n {
            Node::AsExpression { expression, type_node } => {
                self.emit_expression(expression, OPERATOR_PRECEDENCE_RELATIONAL, w, in_extends);
                w.write_space(" ");
                w.write_keyword("as");
                w.write_space(" ");
                self.write_node_worker(type_node, w, in_extends);
            },
            Node::SatisfiesExpression { expression, type_node } => {
                self.emit_expression(expression, OPERATOR_PRECEDENCE_RELATIONAL, w, in_extends);
                w.write_space(" ");
                w.write_keyword("satisfies");
                w.write_space(" ");
                self.write_node_worker(type_node, w, in_extends);
            },
            _ => {},
        }
    }

    /// Writes a non-null assertion or a type assertion.
    #[verifier::spinoff_prover]
    pub(crate) fn emit_non_null_or_type_assertion(&self, n: &Node, w: &mut TextWriter, in_extends: bool)
        requires
            old(w).wf(),
            *n is NonNullExpression || *n is TypeAssertionExpression,
        ensures
            final(w).wf(),
            final(w).start() == old(w).start(),
            appends(old(w).trace(), final(w).trace(), doc_non_null_or_type_assertion(self.context(), *n, in_extends)),
        decreases n, 1int, 0int,
    {
        match n {
            Node::NonNullExpression(e) => {
                self.emit_expression(e, OPERATOR_PRECEDENCE_MEMBER, w, in_extends);
                w.write_operator("!");
            },
            Node::TypeAssertionExpression { type_node, expression } => {
                w.write_punctuation("<");
                self.write_node_worker(type_node, w, in_extends);
                w.write_punctuation(">");
                self.emit_expression(expression, OPERATOR_PRECEDENCE_UPDATE, w, in_extends);
            },
            _ => {},
        }
    }

    /// Writes an expression with type arguments.
    #[verifier::spinoff_prover]
    pub(crate) fn emit_expression_with_type_arguments(&self, n: &Node, w: &mut TextWriter, in_extends: bool)
        requires
            old(w).wf(),
            *n is ExpressionWithTypeArguments,
        ensures
            final(w).wf(),
            final(w).start() == old(w).start(),
            appends(old(w).trace(), final(w).trace(), doc_expression_with_type_arguments(self.context(), *n, in_extends)),
        decreases n, 1int, 0int,
    {
        proof {
            lemma_printer_formats_valid(self.context(), false, false, 0);
        }
        match n {
            Node::ExpressionWithTypeArguments { expression, type_arguments } => {
                self.emit_expression(expression, OPERATOR_PRECEDENCE_MEMBER, w, in_extends);
                self.emit_list(
                    type_arguments,
                    ListFormat(FORMAT_TYPE_ARGUMENTS),
                    false,
                    ChildMode::TypeOutsideExtends,
                    w,
                    in_extends,
                );
            },
            _ => {},
        }
    }

    /// Writes a property assignment or a computed property name.
    #[verifier::spinoff_prover]
    pub(crate) fn emit_property_names(&self, n: &Node, w: &mut TextWriter, in_extends: bool)
        requires
            old(w).wf(),
            *n is PropertyAssignment || *n is ComputedPropertyName,
        ensures
            final(w).wf(),
            final(w).start() == old(w).start(),
            appends(old(w).trace(), final(w).trace(), doc_property_names(self.context(), *n, in_extends)),
        decreases n, 1int, 0int,
    {
        match n {
            Node::PropertyAssignment { name, initializer } => {
                self.write_node_worker(name, w, in_extends);
                w.write_punctuation(":");
                w.write_space(" ");
                self.emit_expression(initializer, OPERATOR_PRECEDENCE_DISALLOW_COMMA, w, in_extends);
            },
            Node::ComputedPropertyName(e) => {
                w.write_punctuation("[");
                self.emit_expression(e, OPERATOR_PRECEDENCE_DISALLOW_COMMA, w, in_extends);
                w.write_punctuation("]");
            },
            _ => {},
        }
    }

    /// Writes a parameter.
    #[verifier::spinoff_prover]
    pub(crate) fn emit_parameter(&self, n: &Node, w: &mut TextWriter, in_extends: bool)
        requires
            old(w).wf(),
            *n is Parameter,
        ensures
            final(w).wf(),
            final(w).start() == old(w).start(),
            appends(old(w).trace(), final(w).trace(), doc_parameter(self.context(), *n, in_extends)),
        decreases n, 1int, 0int,
    {
        match n {
            Node::Parameter { modifiers, dot_dot_dot, name, question, type_node, initializer } => {
                let ghost c = self.context();
                let ghost t0 = w.trace();
                self.emit_modifier_list(modifiers, true, w, in_extends);
                if *dot_dot_dot {
                    w.write_punctuation("...");
                }
                self.write_node_worker(name, w, in_extends);
                let ghost d1 = doc_modifiers(c, modifiers@, 0, true, in_extends) + (if *dot_dot_dot {
                    t("..."@)
                } else {
                    Seq::empty()
                }) + doc_node(c, **name, in_extends);
                assert(w.trace() == t0 + d1);
                if *question {
                    w.write_punctuation("?");
                }
                match type_node {
                    Option::Some(ty) => {
                        w.write_punctuation(":");
                        w.write_space(" ");
                        self.emit_type_node(ty, TYPE_PRECEDENCE_LOWEST, w, false);
                    },
                    Option::None => {},
                }
                match initializer {
                    Option::Some(e) => {
                        w.write_space(" ");
                        w.write_operator("=");
                        w.write_space(" ");
                        self.write_node_worker(e, w, in_extends);
                    },
                    Option::None => {},
                }
            },
            _ => {},
        }
    }

    /// Writes a property declaration.
    #[verifier::spinoff_prover]
    pub(crate) fn emit_property_declaration(&self, n: &Node, w: &mut TextWriter, in_extends: bool)
        requires
            old(w).wf(),
            *n is PropertyDeclaration,
        ensures
            final(w).wf(),
            final(w).start() == old(w).start(),
            appends(old(w).trace(), final(w).trace(), doc_property_declaration(self.context(), *n, in_extends)),
        decreases n, 1int, 0int,
    {
        match n {
            Node::PropertyDeclaration { modifiers, name, question, exclamation, type_node, initializer } => {
                self.emit_modifier_list(modifiers, true, w, in_extends);
                self.write_node_worker(name, w, in_extends);
                if *question {
                    w.write_punctuation("?");
                } else if *exclamation {
                    w.write_punctuation("!");
                }
                match type_node {
                    Option::Some(ty) => {
                        w.write_punctuation(":");
                        w.write_space(" ");
                        self.write_node_worker(ty, w, in_extends);
                    },
                    Option::None => {},
                }
                match initializer {
                    Option::Some(e) => {
                        w.write_space(" ");
                        w.write_operator("=");
                        w.write_space(" ");
                        self.write_node_worker(e, w, in_extends);
                    },
                    Option::None => {},
                }
                w.write_trailing_semicolon(";");
            },
            _ => {},
        }
    }

    /// Writes a decorator.
    #[verifier::spinoff_prover]
    pub(crate) fn emit_decorator(&self, n: &Node, w: &mut TextWriter, in_extends: bool)
        requires
            old(w).wf(),
            *n is Decorator,
        ensures
            final(w).wf(),
            final(w).start() == old(w).start(),
            appends(old(w).trace(), final(w).trace(), doc_decorator(self.context(), *n, in_extends)),
        decreases n, 1int, 0int,
    {
        match n {
            Node::Decorator(e) => {
                w.write_punctuation("@");
                self.emit_expression(e, OPERATOR_PRECEDENCE_LEFT_HAND_SIDE, w, in_extends);
            },
            _ => {},
        }
    }

    /// Writes a type reference or a type query.
    #[verifier::spinoff_prover]
    pub(crate) fn emit_type_reference(&self, n: &Node, w: &mut TextWriter, in_extends: bool)
        requires
            old(w).wf(),
            *n is TypeReference || *n is TypeQuery,
        ensures
            final(w).wf(),
            final(w).start() == old(w).start(),
            appends(old(w).trace(), final(w).trace(), doc_type_reference(self.context(), *n, in_extends)),
        decreases n, 1int, 0int,
    {
        proof {
            lemma_printer_formats_valid(self.context(), false, false, 0);
        }
        match n {
            Node::TypeReference { name, type_arguments } => {
                w.write_symbol(name.as_str());
                self.emit_list(
                    type_arguments,
                    ListFormat(FORMAT_TYPE_ARGUMENTS),
                    false,
                    ChildMode::TypeOutsideExtends,
                    w,
                    in_extends,
                );
            },
            Node::TypeQuery { name, type_arguments } => {
                w.write_keyword("typeof");
                w.write_space(" ");
                w.write_symbol(name.as_str());
                self.emit_list(
                    type_arguments,
                    ListFormat(FORMAT_TYPE_ARGUMENTS),
                    false,
                    ChildMode::TypeOutsideExtends,
                    w,
                    in_extends,
                );
            },
            _ => {},
        }
    }

    /// Writes a union or intersection type.
    #[verifier::spinoff_prover]
    pub(crate) fn emit_union_or_intersection_type(&self, n: &Node, w: &mut TextWriter, in_extends: bool)
        requires
            old(w).wf(),
            *n is UnionType || *n is IntersectionType,
        ensures
            final(w).wf(),
            final(w).start() == old(w).start(),
            appends(old(w).trace(), final(w).trace(), doc_union_or_intersection_type(self.context(), *n, in_extends)),
        decreases n, 1int, 0int,
    {
        proof {
            lemma_printer_formats_valid(self.context(), false, false, 0);
        }
        match n {
            Node::UnionType(types) => {
                self.emit_list_items(
                    types,
                    0,
                    types.len(),
                    ListFormat(FORMAT_UNION_TYPE_CONSTITUENTS),
                    false,
                    ChildMode::Type(TYPE_PRECEDENCE_TYPE_OPERATOR),
                    w,
                    in_extends,
                );
            },
            Node::IntersectionType(types) => {
                self.emit_list_items(
                    types,
                    0,
                    types.len(),
                    ListFormat(FORMAT_INTERSECTION_TYPE_CONSTITUENTS),
                    false,
                    ChildMode::Type(TYPE_PRECEDENCE_TYPE_OPERATOR),
                    w,
                    in_extends,
                );
            },
            _ => {},
        }
    }

    /// Writes an array, optional or rest type.
    #[verifier::spinoff_prover]
    pub(crate) fn emit_postfix_type(&self, n: &Node, w: &mut TextWriter, in_extends: bool)
        requires
            old(w).wf(),
            *n is ArrayType || *n is OptionalType || *n is RestType,
        ensures
            final(w).wf(),
            final(w).start() == old(w).start(),
            appends(old(w).trace(), final(w).trace(), doc_postfix_type(self.context(), *n, in_extends)),
        decreases n, 1int, 0int,
    {
        match n {
            Node::ArrayType(e) => {
                self.emit_type_node(e, TYPE_PRECEDENCE_POSTFIX, w, in_extends);
                w.write_punctuation("[");
                w.write_punctuation("]");
            },
            Node::OptionalType(e) => {
                self.emit_type_node(e, TYPE_PRECEDENCE_POSTFIX, w, in_extends);
                w.write_punctuation("?");
            },
            Node::RestType(e) => {
                w.write_punctuation("...");
                self.emit_type_node(e, TYPE_PRECEDENCE_LOWEST, w, false);
            },
            _ => {},
        }
    }

    /// Writes a tuple type.
    #[verifier::spinoff_prover]
    pub(crate) fn emit_tuple_type(&self, n: &Node, w: &mut TextWriter, in_extends: bool)
        requires
            old(w).wf(),
            *n is TupleType,
        ensures
            final(w).wf(),
            final(w).start() == old(w).start(),
            appends(old(w).trace(), final(w).trace(), doc_tuple_type(self.context(), *n, in_extends)),
        decreases n, 1int, 0int,
    {
        match n {
            Node::TupleType { elements, single_line } => {
                let format = ListFormat((if *single_line {
                    FORMAT_SINGLE_LINE_TUPLE_TYPE_ELEMENTS
                } else {
                    FORMAT_MULTI_LINE_TUPLE_TYPE_ELEMENTS
                }) | LF_NO_SPACE_IF_EMPTY);
                proof {
                    lemma_printer_formats_valid(self.context(), false, *single_line, 0);
                }
                w.write_punctuation("[");
                self.emit_list(elements, format, false, ChildMode::TypeOutsideExtends, w, in_extends);
                w.write_punctuation("]");
            },
            _ => {},
        }
    }

    /// Writes a function type; inside an `extends` clause an `infer` return type with a constraint is parenthesized.
    #[verifier::spinoff_prover]
    pub(crate) fn emit_function_type(&self, n: &Node, w: &mut TextWriter, in_extends: bool)
        requires
            old(w).wf(),
            *n is FunctionType,
        ensures
            final(w).wf(),
            final(w).start() == old(w).start(),
            appends(old(w).trace(), final(w).trace(), doc_function_type(self.context(), *n, in_extends)),
        decreases n, 1int, 0int,
    {
        proof {
            lemma_printer_formats_valid(self.context(), false, false, 0);
        }
        match n {
            Node::FunctionType { type_parameters, parameters, return_type } => {
                let ghost c = self.context();
                let ghost t0 = w.trace();
                self.emit_type_parameters(type_parameters, w, in_extends);
                self.emit_parameters(parameters, w, in_extends);
                assert(w.trace() == t0 + type_parameters_doc(c, type_parameters@, in_extends)
                    + parameters_doc(c, parameters@, in_extends));
                w.write_space(" ");
                w.write_punctuation("=>");
                w.write_space(" ");
                let constrained_infer = match &**return_type {
                    Node::InferType { constraint, .. } => constraint.is_some(),
                    _ => false,
                };
                if in_extends && constrained_infer {
                    self.emit_type_node(return_type, TYPE_PRECEDENCE_HIGHEST, w, in_extends);
                } else {
                    self.emit_type_node(return_type, TYPE_PRECEDENCE_LOWEST, w, in_extends);
                }
            },
            _ => {},
        }
    }

    /// Writes an `infer` type.
    #[verifier::spinoff_prover]
    pub(crate) fn emit_infer_type(&self, n: &Node, w: &mut TextWriter, in_extends: bool)
        requires
            old(w).wf(),
            *n is InferType,
        ensures
            final(w).wf(),
            final(w).start() == old(w).start(),
            appends(old(w).trace(), final(w).trace(), doc_infer_type(self.context(), *n, in_extends)),
        decreases n, 1int, 0int,
    {
        match n {
            Node::InferType { name, constraint } => {
                w.write_keyword("infer");
                w.write_space(" ");
                w.write_symbol(name.as_str());
                match constraint {
                    Option::Some(ct) => {
                        w.write_space(" ");
                        w.write_keyword("extends");
                        w.write_space(" ");
                        self.emit_type_node(ct, TYPE_PRECEDENCE_LOWEST, w, true);
                    },
                    Option::None => {},
                }
            },
            _ => {},
        }
    }

    /// Writes a type operator; `readonly` binds its operand as a postfix type.
    #[verifier::spinoff_prover]
    pub(crate) fn emit_type_operator(&self, n: &Node, w: &mut TextWriter, in_extends: bool)
        requires
            old(w).wf(),
            *n is TypeOperator,
        ensures
            final(w).wf(),
            final(w).start() == old(w).start(),
            appends(old(w).trace(), final(w).trace(), doc_type_operator(self.context(), *n, in_extends)),
        decreases n, 1int, 0int,
    {
        match n {
            Node::TypeOperator { operator, type_node } => {
                w.write_operator(get_type_operator_text(*operator));
                w.write_space(" ");
                let p = if *operator == TypeOperatorKind::Readonly {
                    TYPE_PRECEDENCE_POSTFIX
                } else {
                    TYPE_PRECEDENCE_TYPE_OPERATOR
                };
                self.emit_type_node(type_node, p, w, in_extends);
            },
            _ => {},
        }
    }

    /// Writes an indexed access type.
    #[verifier::spinoff_prover]
    pub(crate) fn emit_indexed_access_type(&self, n: &Node, w: &mut TextWriter, in_extends: bool)
        requires
            old(w).wf(),
            *n is IndexedAccessType,
        ensures
            final(w).wf(),
            final(w).start() == old(w).start(),
            appends(old(w).trace(), final(w).trace(), doc_indexed_access_type(self.context(), *n, in_extends)),
        decreases n, 1int, 0int,
    {
        match n {
            Node::IndexedAccessType { object_type, index_type } => {
                self.emit_type_node(object_type, TYPE_PRECEDENCE_POSTFIX, w, in_extends);
                w.write_punctuation("[");
                self.emit_type_node(index_type, TYPE_PRECEDENCE_LOWEST, w, false);
                w.write_punctuation("]");
            },
            _ => {},
        }
    }

    /// Writes a conditional type.
    #[verifier::spinoff_prover]
    pub(crate) fn emit_conditional_type(&self, n: &Node, w: &mut TextWriter, in_extends: bool)
        requires
            old(w).wf(),
            *n is ConditionalType,
        ensures
            final(w).wf(),
            final(w).start() == old(w).start(),
            appends(old(w).trace(), final(w).trace(), doc_conditional_type(self.context(), *n, in_extends)),
        decreases n, 1int, 0int,
    {
        match n {
            Node::ConditionalType { check_type, extends_type, true_type, false_type } => {
                self.emit_type_node(check_type, TYPE_PRECEDENCE_UNION, w, in_extends);
                w.write_space(" ");
                w.write_keyword("extends");
                w.write_space(" ");
                self.emit_type_node(extends_type, TYPE_PRECEDENCE_LOWEST, w, true);
                w.write_space(" ");
                w.write_punctuation("?");
                w.write_space(" ");
                self.emit_type_node(true_type, TYPE_PRECEDENCE_LOWEST, w, false);
                w.write_space(" ");
                w.write_punctuation(":");
                w.write_space(" ");
                self.emit_type_node(false_type, TYPE_PRECEDENCE_LOWEST, w, false);
            },
            _ => {},
        }
    }

    /// Writes a parenthesized expression or type.
    #[verifier::spinoff_prover]
    pub(crate) fn emit_parenthesized(&self, n: &Node, w: &mut TextWriter, in_extends: bool)
        requires
            old(w).wf(),
            *n is ParenthesizedExpression || *n is ParenthesizedType,
        ensures
            final(w).wf(),
            final(w).start() == old(w).start(),
            appends(old(w).trace(), final(w).trace(), doc_parenthesized(self.context(), *n, in_extends)),
        decreases n, 1int, 0int,
    {
        match n {
            Node::ParenthesizedExpression(e) => {
                w.write_punctuation("(");
                self.write_node_worker(e, w, in_extends);
                w.write_punctuation(")");
            },
            Node::ParenthesizedType(e) => {
                w.write_punctuation("(");
                self.emit_type_node(e, TYPE_PRECEDENCE_LOWEST, w, false);
                w.write_punctuation(")");
            },
            _ => {},
        }
    }

    /// Writes an expression statement; a leading function, class or object literal is parenthesized.
    #[verifier::spinoff_prover]
    pub(crate) fn emit_expression_statement(&self, n: &Node, w: &mut TextWriter, in_extends: bool)
        requires
            old(w).wf(),
            *n is ExpressionStatement,
        ensures
            final(w).wf(),
            final(w).start() == old(w).start(),
            appends(old(w).trace(), final(w).trace(), doc_expression_statement(self.context(), *n, in_extends)),
        decreases n, 1int, 0int,
    {
        match n {
            Node::ExpressionStatement(e) => {
                if is_immediately_invoked_function_expression(e) {
                    self.emit_iife(e, w, in_extends);
                } else if starts_with_function_or_object_literal(e) {
                    self.emit_expression(e, OPERATOR_PRECEDENCE_PARENTHESES, w, in_extends);
                } else {
                    self.emit_expression(e, OPERATOR_PRECEDENCE_COMMA, w, in_extends);
                }
                w.write_trailing_semicolon(";");
            },
            _ => {},
        }
    }

    /// Writes an `export =` or `export default` statement.
    #[verifier::spinoff_prover]
    pub(crate) fn emit_export_assignment(&self, n: &Node, w: &mut TextWriter, in_extends: bool)
        requires
            old(w).wf(),
            *n is ExportAssignment,
        ensures
            final(w).wf(),
            final(w).start() == old(w).start(),
            appends(old(w).trace(), final(w).trace(), doc_export_assignment(self.context(), *n, in_extends)),
        decreases n, 1int, 0int,
    {
        match n {
            Node::ExportAssignment { is_export_equals, expression } => {
                w.write_keyword("export");
                w.write_space(" ");
                if *is_export_equals {
                    w.write_operator("=");
                } else {
                    w.write_keyword("default");
                }
                w.write_space(" ");
                if !*is_export_equals && starts_with_class_or_function(expression) {
                    self.emit_expression(expression, OPERATOR_PRECEDENCE_PARENTHESES, w, in_extends);
                } else {
                    self.emit_expression(expression, OPERATOR_PRECEDENCE_ASSIGNMENT, w, in_extends);
                }
                w.write_trailing_semicolon(";");
            },
            _ => {},
        }
    }

    /// Writes a type alias declaration.
    #[verifier::spinoff_prover]
    pub(crate) fn emit_type_alias_declaration(&self, n: &Node, w: &mut TextWriter, in_extends: bool)
        requires
            old(w).wf(),
            *n is TypeAliasDeclaration,
        ensures
            final(w).wf(),
            final(w).start() == old(w).start(),
            appends(old(w).trace(), final(w).trace(), doc_type_alias_declaration(self.context(), *n, in_extends)),
        decreases n, 1int, 0int,
    {
        match n {
            Node::TypeAliasDeclaration { modifiers, name, type_parameters, type_node } => {
                let ghost c = self.context();
                let ghost t0 = w.trace();
                self.emit_modifier_list(modifiers, false, w, in_extends);
                w.write_keyword("type");
                w.write_space(" ");
                w.write_symbol(name.as_str());
                let ghost d1 = doc_modifiers(c, modifiers@, 0, false, in_extends) + t("type"@) + t(" "@) + t(name@);
                assert(w.trace() == t0 + d1);
                self.emit_type_parameters(type_parameters, w, in_extends);
                w.write_space(" ");
                w.write_operator("=");
                w.write_space(" ");
                let ghost d2 = d1 + type_parameters_doc(c, type_parameters@, in_extends) + t(" "@) + t("="@) + t(" "@);
                assert(w.trace() == t0 + d2);
                self.write_node_worker(type_node, w, in_extends);
                w.write_trailing_semicolon(";");
                assert(w.trace() == t0 + (d2 + doc_node(c, **type_node, in_extends) + t(";"@)));
            },
            _ => {},
        }
    }

    /// Writes a variable statement.
    #[verifier::spinoff_prover]
    pub(crate) fn emit_variable_statement(&self, n: &Node, w: &mut TextWriter, in_extends: bool)
        requires
            old(w).wf(),
            *n is VariableStatement,
        ensures
            final(w).wf(),
            final(w).start() == old(w).start(),
            appends(old(w).trace(), final(w).trace(), doc_variable_statement(self.context(), *n, in_extends)),
        decreases n, 1int, 0int,
    {
        proof {
            lemma_printer_formats_valid(self.context(), false, false, 0);
        }
        match n {
            Node::VariableStatement { modifiers, kind, declarations } => {
                self.emit_modifier_list(modifiers, false, w, in_extends);
                write_variable_keyword(*kind, w);
                w.write_space(" ");
                self.emit_list_items(
                    declarations,
                    0,
                    declarations.len(),
                    ListFormat(FORMAT_VARIABLE_DECLARATION_LIST),
                    false,
                    ChildMode::Plain,
                    w,
                    in_extends,
                );
                w.write_trailing_semicolon(";");
            },
            _ => {},
        }
    }

    /// Writes a variable declaration.
    #[verifier::spinoff_prover]
    pub(crate) fn emit_variable_declaration(&self, n: &Node, w: &mut TextWriter, in_extends: bool)
        requires
            old(w).wf(),
            *n is VariableDeclaration,
        ensures
            final(w).wf(),
            final(w).start() == old(w).start(),
            appends(old(w).trace(), final(w).trace(), doc_variable_declaration(self.context(), *n, in_extends)),
        decreases n, 1int, 0int,
    {
        match n {
            Node::VariableDeclaration { name, type_node, initializer } => {
                self.write_node_worker(name, w, in_extends);
                match type_node {
                    Option::Some(ty) => {
                        w.write_punctuation(":");
                        w.write_space(" ");
                        self.write_node_worker(ty, w, in_extends);
                    },
                    Option::None => {},
                }
                match initializer {
                    Option::Some(e) => {
                        w.write_space(" ");
                        w.write_operator("=");
                        w.write_space(" ");
                        self.emit_expression(e, OPERATOR_PRECEDENCE_DISALLOW_COMMA, w, in_extends);
                    },
                    Option::None => {},
                }
            },
            _ => {},
        }
    }

    /// Writes a `return` statement.
    #[verifier::spinoff_prover]
    pub(crate) fn emit_return_statement(&self, n: &Node, w: &mut TextWriter, in_extends: bool)
        requires
            old(w).wf(),
            *n is ReturnStatement,
        ensures
            final(w).wf(),
            final(w).start() == old(w).start(),
            appends(old(w).trace(), final(w).trace(), doc_return_statement(self.context(), *n, in_extends)),
        decreases n, 1int, 0int,
    {
        match n {
            Node::ReturnStatement(e) => {
                w.write_keyword("return");
                match e {
                    Option::Some(e) => {
                        w.write_space(" ");
                        self.emit_expression(e, OPERATOR_PRECEDENCE_LOWEST, w, in_extends);
                    },
                    Option::None => {},
                }
                w.write_trailing_semicolon(";");
            },
            _ => {},
        }
    }

    /// Writes an `if` statement; `else if` stays on one line.
    #[verifier::spinoff_prover]
    pub(crate) fn emit_if_statement(&self, n: &Node, w: &mut TextWriter, in_extends: bool)
        requires
            old(w).wf(),
            *n is IfStatement,
        ensures
            final(w).wf(),
            final(w).start() == old(w).start(),
            appends(old(w).trace(), final(w).trace(), doc_if_statement(self.context(), *n, in_extends)),
        decreases n, 1int, 0int,
    {
        match n {
            Node::IfStatement { expression, then_statement, else_statement } => {
                w.write_keyword("if");
                w.write_space(" ");
                w.write_punctuation("(");
                self.write_node_worker(expression, w, in_extends);
                w.write_punctuation(")");
                self.emit_embedded_statement(then_statement, w, in_extends);
                match else_statement {
                    Option::Some(s) => {
                        if self.get_context().preserve_source_newlines {
                            w.write_space(" ");
                        } else {
                            w.write_line();
                        }
                        w.write_keyword("else");
                        match &**s {
                            Node::IfStatement { .. } => {
                                w.write_space(" ");
                                self.write_node_worker(s, w, in_extends);
                            },
                            _ => {
                                self.emit_embedded_statement(s, w, in_extends);
                            },
                        }
                    },
                    Option::None => {},
                }
            },
            _ => {},
        }
    }

    /// Writes a block statement.
    #[verifier::spinoff_prover]
    pub(crate) fn emit_block(&self, n: &Node, w: &mut TextWriter, in_extends: bool)
        requires
            old(w).wf(),
            *n is Block,
        ensures
            final(w).wf(),
            final(w).start() == old(w).start(),
            appends(old(w).trace(), final(w).trace(), doc_block(self.context(), *n, in_extends)),
        decreases n, 1int, 0int,
    {
        match n {
            Node::Block { statements, multi_line } => {
                let format = if !*multi_line && statements.len() == 0 {
                    ListFormat(FORMAT_SINGLE_LINE_BLOCK_STATEMENTS)
                } else {
                    ListFormat(FORMAT_MULTI_LINE_BLOCK_STATEMENTS)
                };
                proof {
                    lemma_printer_formats_valid(self.context(), *multi_line, false, statements@.len());
                }
                w.write_punctuation("{");
                self.emit_list(statements, format, false, ChildMode::Plain, w, in_extends);
                w.write_punctuation("}");
            },
            _ => {},
        }
    }

    /// Writes a function declaration; one without a body ends with `;`.
    #[verifier::spinoff_prover]
    pub(crate) fn emit_function_declaration(&self, n: &Node, w: &mut TextWriter, in_extends: bool)
        requires
            old(w).wf(),
            *n is FunctionDeclaration,
        ensures
            final(w).wf(),
            final(w).start() == old(w).start(),
            appends(old(w).trace(), final(w).trace(), doc_function_declaration(self.context(), *n, in_extends)),
        decreases n, 1int, 0int,
    {
        proof {
            lemma_printer_formats_valid(self.context(), false, false, 0);
        }
        match n {
            Node::FunctionDeclaration { modifiers, asterisk, name, body, .. } => {
                let ghost c = self.context();
                let ghost t0 = w.trace();
                self.emit_modifier_list(modifiers, false, w, in_extends);
                w.write_keyword("function");
                if *asterisk {
                    w.write_punctuation("*");
                }
                w.write_space(" ");
                match name {
                    Option::Some(s) => {
                        w.write_symbol(s.as_str());
                    },
                    Option::None => {},
                }
                let ghost d1 = doc_modifiers(c, modifiers@, 0, false, in_extends) + t("function"@) + (if *asterisk {
                    t("*"@)
                } else {
                    Seq::empty()
                }) + t(" "@) + optional_text(*name);
                assert(w.trace() == t0 + d1);
                self.emit_signature_like(n, w, in_extends);
                self.emit_optional_body(body, w, in_extends);
                assert(w.trace() == t0 + (d1 + signature_like_doc(c, *n, in_extends) + optional_body_doc(c, *body, in_extends)));
            },
            _ => {},
        }
    }

    /// Writes the statements of a source file, each on a line of its own.
    #[verifier::spinoff_prover]
    pub(crate) fn emit_source_file_node(&self, n: &Node, w: &mut TextWriter, in_extends: bool)
        requires
            old(w).wf(),
            *n is SourceFile,
        ensures
            final(w).wf(),
            final(w).start() == old(w).start(),
            appends(old(w).trace(), final(w).trace(), doc_source_file_node(self.context(), *n, in_extends)),
        decreases n, 1int, 0int,
    {
        proof {
            lemma_printer_formats_valid(self.context(), false, false, 0);
        }
        match n {
            Node::SourceFile { statements } => {
                w.write_line();
                if statements.len() > 0 {
                    self.emit_list_items(
                        statements,
                        0,
                        statements.len(),
                        ListFormat(FORMAT_SOURCE_FILE_STATEMENTS),
                        false,
                        ChildMode::Plain,
                        w,
                        in_extends,
                    );
                }
            },
            _ => {},
        }
    }

    /// Writes a line break between the parts of a statement, or a space where
    /// the printer keeps the lines of the source.
    fn write_line_or_space(&self, w: &mut TextWriter)
        requires
            old(w).wf(),
        ensures
            final(w).wf(),
            final(w).start() == old(w).start(),
            appends(old(w).trace(), final(w).trace(), line_or_space(self.context())),
    {
        if self.get_context().preserve_source_newlines {
            w.write_space(" ");
        } else {
            w.write_line();
        }
    }

    /// Writes a `do` or `while` statement.
    #[verifier::spinoff_prover]
    pub(crate) fn emit_loop_statement(&self, n: &Node, w: &mut TextWriter, in_extends: bool)
        requires
            old(w).wf(),
            *n is DoStatement || *n is WhileStatement,
        ensures
            final(w).wf(),
            final(w).start() == old(w).start(),
            appends(old(w).trace(), final(w).trace(), doc_loop_statement(self.context(), *n, in_extends)),
        decreases n, 1int, 0int,
    {
        match n {
            Node::DoStatement { statement, expression } => {
                w.write_keyword("do");
                self.emit_embedded_statement(statement, w, in_extends);
                let is_block = match &**statement {
                    Node::Block { .. } => true,
                    _ => false,
                };
                if self.get_context().preserve_source_newlines || is_block {
                    w.write_space(" ");
                } else {
                    w.write_line();
                }
                w.write_keyword("while");
                w.write_space(" ");
                w.write_punctuation("(");
                self.write_node_worker(expression, w, in_extends);
                w.write_punctuation(")");
                w.write_trailing_semicolon(";");
            },
            Node::WhileStatement { expression, statement } => {
                w.write_keyword("while");
                w.write_space(" ");
                w.write_punctuation("(");
                self.write_node_worker(expression, w, in_extends);
                w.write_punctuation(")");
                self.emit_embedded_statement(statement, w, in_extends);
            },
            _ => {},
        }
    }

    /// Writes a `for` statement; absent parts leave their semicolons.
    #[verifier::spinoff_prover]
    pub(crate) fn emit_for_statement(&self, n: &Node, w: &mut TextWriter, in_extends: bool)
        requires
            old(w).wf(),
            *n is ForStatement,
        ensures
            final(w).wf(),
            final(w).start() == old(w).start(),
            appends(old(w).trace(), final(w).trace(), doc_for_statement(self.context(), *n, in_extends)),
        decreases n, 1int, 0int,
    {
        match n {
            Node::ForStatement { initializer, condition, incrementor, statement } => {
                w.write_keyword("for");
                w.write_space(" ");
                w.write_punctuation("(");
                match initializer {
                    Option::Some(i) => self.write_node_worker(i, w, in_extends),
                    Option::None => {},
                }
                w.write_punctuation(";");
                match condition {
                    Option::Some(e) => {
                        w.write_space(" ");
                        self.write_node_worker(e, w, in_extends);
                    },
                    Option::None => {},
                }
                w.write_punctuation(";");
                match incrementor {
                    Option::Some(e) => {
                        w.write_space(" ");
                        self.write_node_worker(e, w, in_extends);
                    },
                    Option::None => {},
                }
                w.write_punctuation(")");
                self.emit_embedded_statement(statement, w, in_extends);
            },
            _ => {},
        }
    }

    /// Writes a `for`-`in` or `for`-`of` statement.
    #[verifier::spinoff_prover]
    pub(crate) fn emit_for_in_or_of_statement(&self, n: &Node, w: &mut TextWriter, in_extends: bool)
        requires
            old(w).wf(),
            *n is ForInStatement || *n is ForOfStatement,
        ensures
            final(w).wf(),
            final(w).start() == old(w).start(),
            appends(old(w).trace(), final(w).trace(), doc_for_in_or_of_statement(self.context(), *n, in_extends)),
        decreases n, 1int, 0int,
    {
        match n {
            Node::ForInStatement { initializer, expression, statement } => {
                w.write_keyword("for");
                w.write_space(" ");
                w.write_punctuation("(");
                self.write_node_worker(initializer, w, in_extends);
                w.write_space(" ");
                w.write_keyword("in");
                w.write_space(" ");
                self.write_node_worker(expression, w, in_extends);
                w.write_punctuation(")");
                self.emit_embedded_statement(statement, w, in_extends);
            },
            Node::ForOfStatement { is_await, initializer, expression, statement } => {
                w.write_keyword("for");
                w.write_space(" ");
                if *is_await {
                    w.write_keyword("await");
                    w.write_space(" ");
                }
                w.write_punctuation("(");
                self.write_node_worker(initializer, w, in_extends);
                w.write_space(" ");
                w.write_keyword("of");
                w.write_space(" ");
                self.write_node_worker(expression, w, in_extends);
                w.write_punctuation(")");
                self.emit_embedded_statement(statement, w, in_extends);
            },
            _ => {},
        }
    }

    /// Writes a `continue`, `break` or `throw` statement.
    #[verifier::spinoff_prover]
    pub(crate) fn emit_jump_statement(&self, n: &Node, w: &mut TextWriter, in_extends: bool)
        requires
            old(w).wf(),
            *n is ContinueStatement || *n is BreakStatement || *n is ThrowStatement,
        ensures
            final(w).wf(),
            final(w).start() == old(w).start(),
            appends(old(w).trace(), final(w).trace(), doc_jump_statement(self.context(), *n, in_extends)),
        decreases n, 1int, 0int,
    {
        match n {
            Node::ContinueStatement(label) | Node::BreakStatement(label) => {
                match n {
                    Node::ContinueStatement(_) => w.write_keyword("continue"),
                    _ => w.write_keyword("break"),
                }
                match label {
                    Option::Some(l) => {
                        w.write_space(" ");
                        w.write_symbol(l.as_str());
                    },
                    Option::None => {},
                }
                w.write_trailing_semicolon(";");
            },
            Node::ThrowStatement(e) => {
                w.write_keyword("throw");
                match e {
                    Option::Some(e) => {
                        w.write_space(" ");
                        self.emit_expression(e, OPERATOR_PRECEDENCE_LOWEST, w, in_extends);
                    },
                    Option::None => {},
                }
                w.write_trailing_semicolon(";");
            },
            _ => {},
        }
    }

    /// Writes a `try` statement with its `catch` clause and `finally` block.
    #[verifier::spinoff_prover]
    pub(crate) fn emit_try_statement(&self, n: &Node, w: &mut TextWriter, in_extends: bool)
        requires
            old(w).wf(),
            *n is TryStatement,
        ensures
            final(w).wf(),
            final(w).start() == old(w).start(),
            appends(old(w).trace(), final(w).trace(), doc_try_statement(self.context(), *n, in_extends)),
        decreases n, 1int, 0int,
    {
        match n {
            Node::TryStatement { try_block, catch_clause, finally_block } => {
                w.write_keyword("try");
                w.write_space(" ");
                self.write_node_worker(try_block, w, in_extends);
                match catch_clause {
                    Option::Some(cc) => {
                        self.write_line_or_space(w);
                        self.write_node_worker(cc, w, in_extends);
                    },
                    Option::None => {},
                }
                match finally_block {
                    Option::Some(f) => {
                        self.write_line_or_space(w);
                        w.write_keyword("finally");
                        w.write_space(" ");
                        self.write_node_worker(f, w, in_extends);
                    },
                    Option::None => {},
                }
            },
            _ => {},
        }
    }

    /// Writes a `catch` clause.
    #[verifier::spinoff_prover]
    pub(crate) fn emit_catch_clause(&self, n: &Node, w: &mut TextWriter, in_extends: bool)
        requires
            old(w).wf(),
            *n is CatchClause,
        ensures
            final(w).wf(),
            final(w).start() == old(w).start(),
            appends(old(w).trace(), final(w).trace(), doc_catch_clause(self.context(), *n, in_extends)),
        decreases n, 1int, 0int,
    {
        match n {
            Node::CatchClause { variable_declaration, block } => {
                w.write_keyword("catch");
                match variable_declaration {
                    Option::Some(v) => {
                        w.write_space(" ");
                        w.write_punctuation("(");
                        self.write_node_worker(v, w, in_extends);
                        w.write_punctuation(")");
                    },
                    Option::None => {},
                }
                w.write_space(" ");
                self.write_node_worker(block, w, in_extends);
            },
            _ => {},
        }
    }

    /// Writes a `switch` statement, its clauses on lines of their own.
    #[verifier::spinoff_prover]
    pub(crate) fn emit_switch_statement(&self, n: &Node, w: &mut TextWriter, in_extends: bool)
        requires
            old(w).wf(),
            *n is SwitchStatement,
        ensures
            final(w).wf(),
            final(w).start() == old(w).start(),
            appends(old(w).trace(), final(w).trace(), doc_switch_statement(self.context(), *n, in_extends)),
        decreases n, 1int, 0int,
    {
        proof {
            lemma_printer_formats_valid(self.context(), false, false, 0);
        }
        match n {
            Node::SwitchStatement { expression, clauses } => {
                w.write_keyword("switch");
                w.write_space(" ");
                w.write_punctuation("(");
                self.write_node_worker(expression, w, in_extends);
                w.write_punctuation(")");
                w.write_space(" ");
                w.write_punctuation("{");
                self.emit_list_items(
                    clauses,
                    0,
                    clauses.len(),
                    ListFormat(FORMAT_CASE_BLOCK_CLAUSES),
                    false,
                    ChildMode::Plain,
                    w,
                    in_extends,
                );
                w.write_punctuation("}");
            },
            _ => {},
        }
    }

    /// Writes the statements after the colon of a `case` or `default` clause.
    #[verifier::spinoff_prover]
    fn emit_clause_statements(
        &self,
        statements: &Vec<Node>,
        on_next_line: bool,
        w: &mut TextWriter,
        in_extends: bool,
    )
        requires
            old(w).wf(),
        ensures
            final(w).wf(),
            final(w).start() == old(w).start(),
            appends(old(w).trace(), final(w).trace(), clause_statements_doc(
                self.context(),
                statements@,
                on_next_line,
                in_extends,
            )),
        decreases statements@, 2int, 0int,
    {
        proof {
            lemma_printer_formats_valid(self.context(), false, false, 0);
        }
        let c = self.get_context();
        if statements.len() == 1 && !(on_next_line && c.in_source_file) {
            w.write_space(" ");
            self.emit_list_items(
                statements,
                0,
                1,
                ListFormat(FORMAT_SINGLE_CLAUSE_STATEMENT),
                false,
                ChildMode::Plain,
                w,
                in_extends,
            );
        } else if statements.len() > 0 {
            self.emit_list_items(
                statements,
                0,
                statements.len(),
                ListFormat(FORMAT_CASE_OR_DEFAULT_CLAUSE_STATEMENTS),
                false,
                ChildMode::Plain,
                w,
                in_extends,
            );
        }
    }

    /// Writes a `case` or `default` clause.
    #[verifier::spinoff_prover]
    pub(crate) fn emit_case_or_default_clause(&self, n: &Node, w: &mut TextWriter, in_extends: bool)
        requires
            old(w).wf(),
            *n is CaseClause || *n is DefaultClause,
        ensures
            final(w).wf(),
            final(w).start() == old(w).start(),
            appends(old(w).trace(), final(w).trace(), doc_case_or_default_clause(self.context(), *n, in_extends)),
        decreases n, 1int, 0int,
    {
        match n {
            Node::CaseClause { expression, statements, statement_on_next_line } => {
                w.write_keyword("case");
                w.write_space(" ");
                self.write_node_worker(expression, w, in_extends);
                w.write_punctuation(":");
                self.emit_clause_statements(statements, *statement_on_next_line, w, in_extends);
            },
            Node::DefaultClause { statements, statement_on_next_line } => {
                w.write_keyword("default");
                w.write_punctuation(":");
                self.emit_clause_statements(statements, *statement_on_next_line, w, in_extends);
            },
            _ => {},
        }
    }

    /// Writes a labeled statement or a `with` statement.
    #[verifier::spinoff_prover]
    pub(crate) fn emit_labeled_or_with_statement(&self, n: &Node, w: &mut TextWriter, in_extends: bool)
        requires
            old(w).wf(),
            *n is LabeledStatement || *n is WithStatement,
        ensures
            final(w).wf(),
            final(w).start() == old(w).start(),
            appends(old(w).trace(), final(w).trace(), doc_labeled_or_with_statement(self.context(), *n, in_extends)),
        decreases n, 1int, 0int,
    {
        match n {
            Node::LabeledStatement { label, statement } => {
                w.write_symbol(label.as_str());
                w.write_punctuation(":");
                w.write_space(" ");
                self.write_node_worker(statement, w, in_extends);
            },
            Node::WithStatement { expression, statement } => {
                w.write_keyword("with");
                w.write_space(" ");
                w.write_punctuation("(");
                self.write_node_worker(expression, w, in_extends);
                w.write_punctuation(")");
                self.emit_embedded_statement(statement, w, in_extends);
            },
            _ => {},
        }
    }

    /// Writes the declarations of a `for` statement's initializer.
    #[verifier::spinoff_prover]
    pub(crate) fn emit_variable_declaration_list(&self, n: &Node, w: &mut TextWriter, in_extends: bool)
        requires
            old(w).wf(),
            *n is VariableDeclarationList,
        ensures
            final(w).wf(),
            final(w).start() == old(w).start(),
            appends(old(w).trace(), final(w).trace(), doc_variable_declaration_list(self.context(), *n, in_extends)),
        decreases n, 1int, 0int,
    {
        proof {
            lemma_printer_formats_valid(self.context(), false, false, 0);
        }
        match n {
            Node::VariableDeclarationList { kind, declarations } => {
                write_variable_keyword(*kind, w);
                w.write_space(" ");
                self.emit_list_items(
                    declarations,
                    0,
                    declarations.len(),
                    ListFormat(FORMAT_VARIABLE_DECLARATION_LIST),
                    false,
                    ChildMode::Plain,
                    w,
                    in_extends,
                );
            },
            _ => {},
        }
    }

    /// Writes a type annotation `: T`.
    fn emit_type_annotation(&self, type_node: &Option<Box<Node>>, w: &mut TextWriter)
        requires
            old(w).wf(),
        ensures
            final(w).wf(),
            final(w).start() == old(w).start(),
            appends(old(w).trace(), final(w).trace(), type_annotation_doc(self.context(), *type_node)),
        decreases *type_node, 1int, 0int,
    {
        match type_node {
            Option::Some(ty) => {
                w.write_punctuation(":");
                w.write_space(" ");
                self.emit_type_node(ty, TYPE_PRECEDENCE_LOWEST, w, false);
            },
            Option::None => {},
        }
    }

    /// Writes the type after a constructor's parameters, if it has one.
    fn emit_constructor_annotation(&self, type_node: &Option<Box<Node>>, w: &mut TextWriter, in_extends: bool)
        requires
            old(w).wf(),
        ensures
            final(w).wf(),
            final(w).start() == old(w).start(),
            appends(old(w).trace(), final(w).trace(), constructor_annotation_doc(self.context(), *type_node, in_extends)),
        decreases *type_node, 1int, 0int,
    {
        match type_node {
            Option::Some(ty) => {
                w.write_punctuation(":");
                w.write_space(" ");
                self.write_node_worker(ty, w, in_extends);
            },
            Option::None => {},
        }
    }

    /// Writes a function body after a space, or `;` where there is none.
    fn emit_optional_body(&self, body: &Option<Box<Node>>, w: &mut TextWriter, in_extends: bool)
        requires
            old(w).wf(),
        ensures
            final(w).wf(),
            final(w).start() == old(w).start(),
            appends(old(w).trace(), final(w).trace(), optional_body_doc(self.context(), *body, in_extends)),
        decreases *body, 1int, 0int,
    {
        match body {
            Option::Some(b) => {
                w.write_space(" ");
                self.emit_function_body(b, w, in_extends);
            },
            Option::None => {
                w.write_trailing_semicolon(";");
            },
        }
    }

    /// Writes the sign before `readonly` or `?` in a mapped type.
    fn emit_mapped_modifier(&self, m: MappedTypeModifier, w: &mut TextWriter)
        requires
            old(w).wf(),
        ensures
            final(w).wf(),
            final(w).start() == old(w).start(),
            appends(old(w).trace(), final(w).trace(), mapped_modifier_doc(m)),
    {
        match m {
            MappedTypeModifier::Bare => {},
            MappedTypeModifier::Plus => w.write_punctuation("+"),
            MappedTypeModifier::Minus => w.write_punctuation("-"),
        }
    }

    /// Writes a type parameter with its constraint and default.
    #[verifier::spinoff_prover]
    pub(crate) fn emit_type_parameter(&self, n: &Node, w: &mut TextWriter, in_extends: bool)
        requires
            old(w).wf(),
            *n is TypeParameter,
        ensures
            final(w).wf(),
            final(w).start() == old(w).start(),
            appends(old(w).trace(), final(w).trace(), doc_type_parameter(self.context(), *n, in_extends)),
        decreases n, 1int, 0int,
    {
        match n {
            Node::TypeParameter { modifiers, name, constraint, default_type } => {
                self.emit_modifier_list(modifiers, false, w, in_extends);
                w.write_symbol(name.as_str());
                match constraint {
                    Option::Some(ct) => {
                        w.write_space(" ");
                        w.write_keyword("extends");
                        w.write_space(" ");
                        self.emit_type_node(ct, TYPE_PRECEDENCE_LOWEST, w, false);
                    },
                    Option::None => {},
                }
                match default_type {
                    Option::Some(d) => {
                        w.write_space(" ");
                        w.write_operator("=");
                        w.write_space(" ");
                        self.emit_type_node(d, TYPE_PRECEDENCE_LOWEST, w, false);
                    },
                    Option::None => {},
                }
            },
            _ => {},
        }
    }

    /// Writes an `extends` or `implements` clause after a space.
    #[verifier::spinoff_prover]
    pub(crate) fn emit_heritage_clause(&self, n: &Node, w: &mut TextWriter, in_extends: bool)
        requires
            old(w).wf(),
            *n is HeritageClause,
        ensures
            final(w).wf(),
            final(w).start() == old(w).start(),
            appends(old(w).trace(), final(w).trace(), doc_heritage_clause(self.context(), *n, in_extends)),
        decreases n, 1int, 0int,
    {
        proof {
            lemma_printer_formats_valid(self.context(), false, false, 0);
        }
        match n {
            Node::HeritageClause { is_implements, types } => {
                w.write_space(" ");
                if *is_implements {
                    w.write_keyword("implements");
                } else {
                    w.write_keyword("extends");
                }
                w.write_space(" ");
                self.emit_list_items(
                    types,
                    0,
                    types.len(),
                    ListFormat(FORMAT_HERITAGE_CLAUSE_TYPES),
                    false,
                    ChildMode::Plain,
                    w,
                    in_extends,
                );
            },
            _ => {},
        }
    }

    /// Writes the heritage clauses of a declaration in the given format, if it
    /// has any.
    #[verifier::spinoff_prover]
    fn emit_heritage_clauses(&self, clauses: &Vec<Node>, format: ListFormat, w: &mut TextWriter, in_extends: bool)
        requires
            old(w).wf(),
            is_valid_list_format(format),
        ensures
            final(w).wf(),
            final(w).start() == old(w).start(),
            appends(old(w).trace(), final(w).trace(), heritage_clauses_doc(self.context(), clauses@, format, in_extends)),
        decreases clauses@, 3int, 0int,
    {
        if clauses.len() > 0 {
            self.emit_list(clauses, format, false, ChildMode::Plain, w, in_extends);
        }
    }

    /// Writes the type parameters of a declaration between angle brackets, if
    /// it has any.
    #[verifier::spinoff_prover]
    fn emit_type_parameters(&self, type_parameters: &Vec<Node>, w: &mut TextWriter, in_extends: bool)
        requires
            old(w).wf(),
        ensures
            final(w).wf(),
            final(w).start() == old(w).start(),
            appends(old(w).trace(), final(w).trace(), type_parameters_doc(self.context(), type_parameters@, in_extends)),
        decreases type_parameters@, 3int, 0int,
    {
        proof {
            lemma_printer_formats_valid(self.context(), false, false, 0);
        }
        self.emit_list(type_parameters, ListFormat(FORMAT_TYPE_PARAMETERS), false, ChildMode::Plain, w, in_extends);
    }

    /// Writes the parameters of a function-like node between parentheses.
    #[verifier::spinoff_prover]
    fn emit_parameters(&self, parameters: &Vec<Node>, w: &mut TextWriter, in_extends: bool)
        requires
            old(w).wf(),
        ensures
            final(w).wf(),
            final(w).start() == old(w).start(),
            appends(old(w).trace(), final(w).trace(), parameters_doc(self.context(), parameters@, in_extends)),
        decreases parameters@, 3int, 0int,
    {
        proof {
            lemma_printer_formats_valid(self.context(), false, false, 0);
        }
        self.emit_list(parameters, ListFormat(FORMAT_PARAMETERS), false, ChildMode::Plain, w, in_extends);
    }

    /// Writes the type parameters, parameters and return type of a function or
    /// method.
    #[verifier::spinoff_prover]
    fn emit_signature_like(&self, n: &Node, w: &mut TextWriter, in_extends: bool)
        requires
            old(w).wf(),
            *n is FunctionDeclaration || *n is FunctionExpression || *n is MethodDeclaration
                || *n is MethodSignature || *n is CallSignature || *n is ConstructSignature,
        ensures
            final(w).wf(),
            final(w).start() == old(w).start(),
            appends(old(w).trace(), final(w).trace(), signature_like_doc(self.context(), *n, in_extends)),
        decreases n, 0int, 0int,
    {
        let (type_parameters, parameters, type_node) = match n {
            Node::CallSignature { type_parameters, parameters, type_node } => (type_parameters, parameters, type_node),
            Node::ConstructSignature { type_parameters, parameters, type_node } => (type_parameters, parameters, type_node),
            Node::FunctionDeclaration { type_parameters, parameters, type_node, .. } => (type_parameters, parameters, type_node),
            Node::FunctionExpression { type_parameters, parameters, type_node, .. } => (type_parameters, parameters, type_node),
            Node::MethodDeclaration { type_parameters, parameters, type_node, .. } => (type_parameters, parameters, type_node),
            Node::MethodSignature { type_parameters, parameters, type_node, .. } => (type_parameters, parameters, type_node),
            _ => {
                proof {
                    assert(false);
                }
                return ;
            },
        };
        self.emit_type_parameters(type_parameters, w, in_extends);
        self.emit_parameters(parameters, w, in_extends);
        self.emit_type_annotation(type_node, w);
    }

    /// Writes the type parameters, parameters and return type of an arrow
    /// function; a simple head writes its lone parameter without parentheses.
    #[verifier::spinoff_prover]
    fn emit_arrow_signature(&self, n: &Node, w: &mut TextWriter, in_extends: bool)
        requires
            old(w).wf(),
            *n is ArrowFunction,
        ensures
            final(w).wf(),
            final(w).start() == old(w).start(),
            appends(old(w).trace(), final(w).trace(), signature_like_doc(self.context(), *n, in_extends)),
        decreases n, 0int, 0int,
    {
        proof {
            lemma_list_format_valid(FORMAT_SINGLE_ARROW_PARAMETER);
        }
        match n {
            Node::ArrowFunction { type_parameters, parameters, type_node, .. } => {
                self.emit_type_parameters(type_parameters, w, in_extends);
                if can_emit_simple_arrow_head(n) {
                    self.emit_list(
                        parameters,
                        ListFormat(FORMAT_SINGLE_ARROW_PARAMETER),
                        false,
                        ChildMode::Plain,
                        w,
                        in_extends,
                    );
                } else {
                    self.emit_parameters(parameters, w, in_extends);
                }
                self.emit_type_annotation(type_node, w);
            },
            _ => {},
        }
    }

    /// Writes the head of an interface declaration.
    #[verifier::spinoff_prover]
    fn emit_interface_head(&self, n: &Node, w: &mut TextWriter, in_extends: bool)
        requires
            old(w).wf(),
            *n is InterfaceDeclaration,
        ensures
            final(w).wf(),
            final(w).start() == old(w).start(),
            appends(old(w).trace(), final(w).trace(), interface_head_doc(self.context(), *n, in_extends)),
        decreases n, 0int, 0int,
    {
        proof {
            lemma_printer_formats_valid(self.context(), false, false, 0);
        }
        match n {
            Node::InterfaceDeclaration { modifiers, name, type_parameters, heritage_clauses, .. } => {
                let ghost c = self.context();
                let ghost t0 = w.trace();
                self.emit_modifier_list(modifiers, false, w, in_extends);
                w.write_keyword("interface");
                w.write_space(" ");
                w.write_symbol(name.as_str());
                let ghost d1 = doc_modifiers(c, modifiers@, 0, false, in_extends) + t("interface"@) + t(" "@) + t(name@);
                assert(w.trace() == t0 + d1);
                self.emit_list(type_parameters, ListFormat(FORMAT_TYPE_PARAMETERS), false, ChildMode::Plain, w, in_extends);
                let ghost d2 = d1 + doc_list(
                    c,
                    type_parameters@,
                    0,
                    type_parameters@.len() as int,
                    ListFormat(FORMAT_TYPE_PARAMETERS),
                    false,
                    ChildMode::Plain,
                    in_extends,
                );
                assert(w.trace() == t0 + d2);
                self.emit_heritage_clauses(heritage_clauses, ListFormat(FORMAT_HERITAGE_CLAUSES), w, in_extends);
                assert(w.trace() == t0 + (d2 + heritage_clauses_doc(c, heritage_clauses@, ListFormat(FORMAT_HERITAGE_CLAUSES), in_extends)));
            },
            _ => {},
        }
    }

    /// Writes the body of an interface declaration.
    #[verifier::spinoff_prover]
    fn emit_interface_body(&self, n: &Node, w: &mut TextWriter, in_extends: bool)
        requires
            old(w).wf(),
            *n is InterfaceDeclaration,
        ensures
            final(w).wf(),
            final(w).start() == old(w).start(),
            appends(old(w).trace(), final(w).trace(), interface_body_doc(self.context(), *n, in_extends)),
        decreases n, 0int, 0int,
    {
        proof {
            lemma_printer_formats_valid(self.context(), false, false, 0);
        }
        match n {
            Node::InterfaceDeclaration { members, .. } => {
                w.write_space(" ");
                w.write_punctuation("{");
                self.emit_list(members, ListFormat(FORMAT_INTERFACE_MEMBERS), false, ChildMode::Plain, w, in_extends);
                w.write_punctuation("}");
            },
            _ => {},
        }
    }

    /// Writes an interface declaration.
    #[verifier::spinoff_prover]
    pub(crate) fn emit_interface_declaration(&self, n: &Node, w: &mut TextWriter, in_extends: bool)
        requires
            old(w).wf(),
            *n is InterfaceDeclaration,
        ensures
            final(w).wf(),
            final(w).start() == old(w).start(),
            appends(old(w).trace(), final(w).trace(), doc_interface_declaration(self.context(), *n, in_extends)),
        decreases n, 1int, 0int,
    {
        self.emit_interface_head(n, w, in_extends);
        self.emit_interface_body(n, w, in_extends);
    }

    /// Writes a type literal.
    #[verifier::spinoff_prover]
    pub(crate) fn emit_type_literal(&self, n: &Node, w: &mut TextWriter, in_extends: bool)
        requires
            old(w).wf(),
            *n is TypeLiteral,
        ensures
            final(w).wf(),
            final(w).start() == old(w).start(),
            appends(old(w).trace(), final(w).trace(), doc_type_literal(self.context(), *n, in_extends)),
        decreases n, 1int, 0int,
    {
        match n {
            Node::TypeLiteral { members, single_line } => {
                proof {
                    lemma_printer_formats_valid(self.context(), false, *single_line, 0);
                }
                let format = if *single_line {
                    ListFormat(FORMAT_SINGLE_LINE_TYPE_LITERAL_MEMBERS | LF_NO_SPACE_IF_EMPTY)
                } else {
                    ListFormat(FORMAT_MULTI_LINE_TYPE_LITERAL_MEMBERS | LF_NO_SPACE_IF_EMPTY)
                };
                w.write_punctuation("{");
                self.emit_list(members, format, false, ChildMode::Plain, w, in_extends);
                w.write_punctuation("}");
            },
            _ => {},
        }
    }

    /// Writes a property signature.
    #[verifier::spinoff_prover]
    pub(crate) fn emit_property_signature(&self, n: &Node, w: &mut TextWriter, in_extends: bool)
        requires
            old(w).wf(),
            *n is PropertySignature,
        ensures
            final(w).wf(),
            final(w).start() == old(w).start(),
            appends(old(w).trace(), final(w).trace(), doc_signature(self.context(), *n, in_extends)),
        decreases n, 1int, 0int,
    {
        match n {
            Node::PropertySignature { modifiers, name, question, type_node } => {
                self.emit_modifier_list(modifiers, false, w, in_extends);
                self.write_node_worker(name, w, in_extends);
                if *question {
                    w.write_punctuation("?");
                }
                self.emit_type_annotation(type_node, w);
                w.write_trailing_semicolon(";");
            },
            _ => {},
        }
    }

    /// Writes a method signature.
    #[verifier::spinoff_prover]
    pub(crate) fn emit_method_signature(&self, n: &Node, w: &mut TextWriter, in_extends: bool)
        requires
            old(w).wf(),
            *n is MethodSignature,
        ensures
            final(w).wf(),
            final(w).start() == old(w).start(),
            appends(old(w).trace(), final(w).trace(), doc_signature(self.context(), *n, in_extends)),
        decreases n, 1int, 0int,
    {
        proof {
            lemma_printer_formats_valid(self.context(), false, false, 0);
        }
        match n {
            Node::MethodSignature { modifiers, name, question, .. } => {
                self.emit_modifier_list(modifiers, false, w, in_extends);
                self.write_node_worker(name, w, in_extends);
                if *question {
                    w.write_punctuation("?");
                }
                self.emit_signature_like(n, w, in_extends);
                w.write_trailing_semicolon(";");
            },
            _ => {},
        }
    }

    /// Writes a method of a class.
    #[verifier::spinoff_prover]
    pub(crate) fn emit_method_declaration(&self, n: &Node, w: &mut TextWriter, in_extends: bool)
        requires
            old(w).wf(),
            *n is MethodDeclaration,
        ensures
            final(w).wf(),
            final(w).start() == old(w).start(),
            appends(old(w).trace(), final(w).trace(), doc_method_like(self.context(), *n, in_extends)),
        decreases n, 1int, 0int,
    {
        proof {
            lemma_printer_formats_valid(self.context(), false, false, 0);
        }
        match n {
            Node::MethodDeclaration { modifiers, asterisk, name, question, body, .. } => {
                self.emit_modifier_list(modifiers, true, w, in_extends);
                if *asterisk {
                    w.write_punctuation("*");
                }
                self.write_node_worker(name, w, in_extends);
                if *question {
                    w.write_punctuation("?");
                }
                self.emit_signature_like(n, w, in_extends);
                self.emit_optional_body(body, w, in_extends);
            },
            _ => {},
        }
    }

    /// Writes a constructor.
    #[verifier::spinoff_prover]
    pub(crate) fn emit_constructor(&self, n: &Node, w: &mut TextWriter, in_extends: bool)
        requires
            old(w).wf(),
            *n is Constructor,
        ensures
            final(w).wf(),
            final(w).start() == old(w).start(),
            appends(old(w).trace(), final(w).trace(), doc_method_like(self.context(), *n, in_extends)),
        decreases n, 1int, 0int,
    {
        proof {
            lemma_printer_formats_valid(self.context(), false, false, 0);
        }
        match n {
            Node::Constructor { modifiers, parameters, type_node, body } => {
                self.emit_modifier_list(modifiers, false, w, in_extends);
                w.write_keyword("constructor");
                self.emit_list(parameters, ListFormat(FORMAT_PARAMETERS), false, ChildMode::Plain, w, in_extends);
                self.emit_constructor_annotation(type_node, w, in_extends);
                self.emit_optional_body(body, w, in_extends);
            },
            _ => {},
        }
    }

    /// Writes a `get` accessor.
    #[verifier::spinoff_prover]
    pub(crate) fn emit_get_accessor(&self, n: &Node, w: &mut TextWriter, in_extends: bool)
        requires
            old(w).wf(),
            *n is GetAccessor,
        ensures
            final(w).wf(),
            final(w).start() == old(w).start(),
            appends(old(w).trace(), final(w).trace(), doc_method_like(self.context(), *n, in_extends)),
        decreases n, 1int, 0int,
    {
        proof {
            lemma_printer_formats_valid(self.context(), false, false, 0);
        }
        match n {
            Node::GetAccessor { modifiers, name, parameters, type_node, body } => {
                self.emit_modifier_list(modifiers, true, w, in_extends);
                w.write_keyword("get");
                w.write_space(" ");
                self.write_node_worker(name, w, in_extends);
                self.emit_list(parameters, ListFormat(FORMAT_PARAMETERS), false, ChildMode::Plain, w, in_extends);
                self.emit_type_annotation(type_node, w);
                self.emit_optional_body(body, w, in_extends);
            },
            _ => {},
        }
    }

    /// Writes a `set` accessor.
    #[verifier::spinoff_prover]
    pub(crate) fn emit_set_accessor(&self, n: &Node, w: &mut TextWriter, in_extends: bool)
        requires
            old(w).wf(),
            *n is SetAccessor,
        ensures
            final(w).wf(),
            final(w).start() == old(w).start(),
            appends(old(w).trace(), final(w).trace(), doc_method_like(self.context(), *n, in_extends)),
        decreases n, 1int, 0int,
    {
        proof {
            lemma_printer_formats_valid(self.context(), false, false, 0);
        }
        match n {
            Node::SetAccessor { modifiers, name, parameters, type_node, body } => {
                self.emit_modifier_list(modifiers, true, w, in_extends);
                w.write_keyword("set");
                w.write_space(" ");
                self.write_node_worker(name, w, in_extends);
                self.emit_list(parameters, ListFormat(FORMAT_PARAMETERS), false, ChildMode::Plain, w, in_extends);
                self.emit_type_annotation(type_node, w);
                self.emit_optional_body(body, w, in_extends);
            },
            _ => {},
        }
    }

    /// Writes an enum declaration or one of its members.
    #[verifier::spinoff_prover]
    pub(crate) fn emit_enum(&self, n: &Node, w: &mut TextWriter, in_extends: bool)
        requires
            old(w).wf(),
            *n is EnumDeclaration || *n is EnumMember,
        ensures
            final(w).wf(),
            final(w).start() == old(w).start(),
            appends(old(w).trace(), final(w).trace(), doc_enum(self.context(), *n, in_extends)),
        decreases n, 1int, 0int,
    {
        proof {
            lemma_printer_formats_valid(self.context(), false, false, 0);
        }
        match n {
            Node::EnumDeclaration { modifiers, name, members } => {
                self.emit_modifier_list(modifiers, false, w, in_extends);
                w.write_keyword("enum");
                w.write_space(" ");
                w.write_symbol(name.as_str());
                w.write_space(" ");
                w.write_punctuation("{");
                self.emit_list(members, ListFormat(FORMAT_ENUM_MEMBERS), false, ChildMode::Plain, w, in_extends);
                w.write_punctuation("}");
            },
            Node::EnumMember { name, initializer } => {
                self.write_node_worker(name, w, in_extends);
                match initializer {
                    Option::Some(e) => {
                        w.write_space(" ");
                        w.write_operator("=");
                        w.write_space(" ");
                        self.write_node_worker(e, w, in_extends);
                    },
                    Option::None => {},
                }
            },
            _ => {},
        }
    }

    /// Writes the key part of a mapped type.
    #[verifier::spinoff_prover]
    fn emit_mapped_type_key(&self, n: &Node, w: &mut TextWriter)
        requires
            old(w).wf(),
            *n is MappedType,
        ensures
            final(w).wf(),
            final(w).start() == old(w).start(),
            appends(old(w).trace(), final(w).trace(), mapped_type_key(self.context(), *n)),
        decreases n, 0int, 0int,
    {
        match n {
            Node::MappedType {
                readonly_token,
                parameter_name,
                constraint,
                name_type,
                question_token,
                ..
            } => {
                match readonly_token {
                    Option::Some(m) => {
                        self.emit_mapped_modifier(*m, w);
                        w.write_keyword("readonly");
                        w.write_space(" ");
                    },
                    Option::None => {},
                }
                w.write_punctuation("[");
                w.write_symbol(parameter_name.as_str());
                w.write_space(" ");
                w.write_keyword("in");
                w.write_space(" ");
                match constraint {
                    Option::Some(ct) => self.emit_type_node(ct, TYPE_PRECEDENCE_LOWEST, w, false),
                    Option::None => {},
                }
                match name_type {
                    Option::Some(nt) => {
                        w.write_space(" ");
                        w.write_keyword("as");
                        w.write_space(" ");
                        self.emit_type_node(nt, TYPE_PRECEDENCE_LOWEST, w, false);
                    },
                    Option::None => {},
                }
                w.write_punctuation("]");
                match question_token {
                    Option::Some(m) => {
                        self.emit_mapped_modifier(*m, w);
                        w.write_punctuation("?");
                    },
                    Option::None => {},
                }
            },
            _ => {},
        }
    }

    /// Writes the value part of a mapped type.
    #[verifier::spinoff_prover]
    fn emit_mapped_type_value(&self, n: &Node, w: &mut TextWriter, in_extends: bool)
        requires
            old(w).wf(),
            *n is MappedType,
        ensures
            final(w).wf(),
            final(w).start() == old(w).start(),
            appends(old(w).trace(), final(w).trace(), mapped_type_value(self.context(), *n, in_extends)),
        decreases n, 0int, 0int,
    {
        proof {
            lemma_printer_formats_valid(self.context(), false, false, 0);
        }
        match n {
            Node::MappedType { single_line, type_node, members, .. } => {
                w.write_punctuation(":");
                w.write_space(" ");
                match type_node {
                    Option::Some(ty) => self.emit_type_node(ty, TYPE_PRECEDENCE_LOWEST, w, false),
                    Option::None => {},
                }
                w.write_trailing_semicolon(";");
                if members.len() > 0 {
                    if *single_line {
                        w.write_space(" ");
                    } else {
                        w.write_line();
                    }
                    self.emit_list_items(
                        members,
                        0,
                        members.len(),
                        ListFormat(LF_PRESERVE_LINES),
                        false,
                        ChildMode::Plain,
                        w,
                        in_extends,
                    );
                }
            },
            _ => {},
        }
    }

    /// Writes a mapped type, on one line or with its member indented on a line of its own.
    #[verifier::spinoff_prover]
    pub(crate) fn emit_mapped_type(&self, n: &Node, w: &mut TextWriter, in_extends: bool)
        requires
            old(w).wf(),
            *n is MappedType,
        ensures
            final(w).wf(),
            final(w).start() == old(w).start(),
            appends(old(w).trace(), final(w).trace(), doc_mapped_type(self.context(), *n, in_extends)),
        decreases n, 1int, 0int,
    {
        match n {
            Node::MappedType { single_line, .. } => {
                w.write_punctuation("{");
                write_mapped_type_open(*single_line, w);
                self.emit_mapped_type_key(n, w);
                self.emit_mapped_type_value(n, w, in_extends);
                write_mapped_type_close(*single_line, w);
                w.write_punctuation("}");
            },
            _ => {},
        }
    }

    /// Writes `type` and a space where a specifier or declaration is only
    /// about types.
    fn write_type_only(is_type_only: bool, w: &mut TextWriter)
        requires
            old(w).wf(),
        ensures
            final(w).wf(),
            final(w).start() == old(w).start(),
            appends(old(w).trace(), final(w).trace(), type_only_doc(is_type_only)),
    {
        if is_type_only {
            w.write_keyword("type");
            w.write_space(" ");
        }
    }

    /// Writes the property name of an import or export specifier followed by `as`.
    fn emit_specifier_property(&self, property_name: &Option<Box<Node>>, w: &mut TextWriter, in_extends: bool)
        requires
            old(w).wf(),
        ensures
            final(w).wf(),
            final(w).start() == old(w).start(),
            appends(old(w).trace(), final(w).trace(), specifier_property_doc(self.context(), *property_name, in_extends)),
        decreases *property_name, 1int, 0int,
    {
        match property_name {
            Option::Some(p) => {
                self.write_node_worker(p, w, in_extends);
                w.write_space(" ");
                w.write_keyword("as");
                w.write_space(" ");
            },
            Option::None => {},
        }
    }

    /// Writes the import attributes after a module specifier, with the space
    /// before them.
    fn emit_attributes_clause(&self, attributes: &Option<Box<Node>>, w: &mut TextWriter, in_extends: bool)
        requires
            old(w).wf(),
        ensures
            final(w).wf(),
            final(w).start() == old(w).start(),
            appends(old(w).trace(), final(w).trace(), attributes_clause_doc(self.context(), *attributes, in_extends)),
        decreases *attributes, 1int, 0int,
    {
        match attributes {
            Option::Some(a) => {
                w.write_space(" ");
                self.write_node_worker(a, w, in_extends);
            },
            Option::None => {},
        }
    }

    /// Writes the import attributes of an import type, after its argument.
    #[verifier::spinoff_prover]
    fn emit_import_type_attributes(&self, attributes: &Option<Box<Node>>, w: &mut TextWriter, in_extends: bool)
        requires
            old(w).wf(),
        ensures
            final(w).wf(),
            final(w).start() == old(w).start(),
            appends(old(w).trace(), final(w).trace(), import_type_attributes_doc(self.context(), *attributes, in_extends)),
        decreases *attributes, 1int, 0int,
    {
        proof {
            lemma_list_format_valid(FORMAT_IMPORT_ATTRIBUTES);
        }
        match attributes {
            Option::Some(a) => match &**a {
                Node::ImportAttributes { assert_keyword, elements } => {
                    w.write_punctuation(",");
                    w.write_space(" ");
                    w.write_punctuation("{");
                    w.write_space(" ");
                    if *assert_keyword {
                        w.write_keyword("assert");
                    } else {
                        w.write_keyword("with");
                    }
                    w.write_punctuation(":");
                    w.write_space(" ");
                    self.emit_list(
                        elements,
                        ListFormat(FORMAT_IMPORT_ATTRIBUTES),
                        false,
                        ChildMode::Plain,
                        w,
                        in_extends,
                    );
                    w.write_space(" ");
                    w.write_punctuation("}");
                },
                _ => {},
            },
            Option::None => {},
        }
    }

    /// Writes import attributes or one attribute.
    #[verifier::spinoff_prover]
    pub(crate) fn emit_import_attributes(&self, n: &Node, w: &mut TextWriter, in_extends: bool)
        requires
            old(w).wf(),
            *n is ImportAttributes || *n is ImportAttribute,
        ensures
            final(w).wf(),
            final(w).start() == old(w).start(),
            appends(old(w).trace(), final(w).trace(), doc_import_attributes(self.context(), *n, in_extends)),
        decreases n, 1int, 0int,
    {
        proof {
            lemma_list_format_valid(FORMAT_IMPORT_ATTRIBUTES);
        }
        match n {
            Node::ImportAttributes { assert_keyword, elements } => {
                if *assert_keyword {
                    w.write_keyword("assert");
                } else {
                    w.write_keyword("with");
                }
                w.write_space(" ");
                self.emit_list(
                    elements,
                    ListFormat(FORMAT_IMPORT_ATTRIBUTES),
                    false,
                    ChildMode::Plain,
                    w,
                    in_extends,
                );
            },
            Node::ImportAttribute { name, value } => {
                self.write_node_worker(name, w, in_extends);
                w.write_punctuation(":");
                w.write_space(" ");
                self.emit_expression(value, OPERATOR_PRECEDENCE_DISALLOW_COMMA, w, in_extends);
            },
            _ => {},
        }
    }

    /// Writes an import declaration.
    #[verifier::spinoff_prover]
    pub(crate) fn emit_import_declaration(&self, n: &Node, w: &mut TextWriter, in_extends: bool)
        requires
            old(w).wf(),
            *n is ImportDeclaration,
        ensures
            final(w).wf(),
            final(w).start() == old(w).start(),
            appends(old(w).trace(), final(w).trace(), doc_import_declaration(self.context(), *n, in_extends)),
        decreases n, 1int, 0int,
    {
        match n {
            Node::ImportDeclaration { modifiers, import_clause, module_specifier, attributes } => {
                let ghost c = self.context();
                let ghost t0 = w.trace();
                self.emit_modifier_list(modifiers, false, w, in_extends);
                w.write_keyword("import");
                w.write_space(" ");
                let ghost d1 = doc_modifiers(c, modifiers@, 0, false, in_extends) + t("import"@) + t(" "@);
                assert(w.trace() == t0 + d1);
                match import_clause {
                    Option::Some(ic) => {
                        self.write_node_worker(ic, w, in_extends);
                        w.write_space(" ");
                        w.write_keyword("from");
                        w.write_space(" ");
                    },
                    Option::None => {},
                }
                let ghost d2 = d1 + match import_clause {
                    Option::Some(ic) => doc_node(c, **ic, in_extends) + t(" "@) + t("from"@) + t(" "@),
                    Option::None => Seq::empty(),
                };
                assert(w.trace() == t0 + d2);
                self.write_node_worker(module_specifier, w, in_extends);
                self.emit_attributes_clause(attributes, w, in_extends);
                w.write_trailing_semicolon(";");
                assert(w.trace() == t0 + (d2 + doc_node(c, **module_specifier, in_extends) + attributes_clause_doc(
                    c,
                    *attributes,
                    in_extends,
                ) + t(";"@)));
            },
            _ => {},
        }
    }

    /// Writes an import clause.
    #[verifier::spinoff_prover]
    pub(crate) fn emit_import_clause(&self, n: &Node, w: &mut TextWriter, in_extends: bool)
        requires
            old(w).wf(),
            *n is ImportClause,
        ensures
            final(w).wf(),
            final(w).start() == old(w).start(),
            appends(old(w).trace(), final(w).trace(), doc_import_part(self.context(), *n, in_extends)),
        decreases n, 1int, 0int,
    {
        match n {
            Node::ImportClause { phase, name, named_bindings } => {
                let ghost c = self.context();
                let ghost t0 = w.trace();
                match phase {
                    Option::Some(p) => {
                        match p {
                            ImportPhase::Type => w.write_keyword("type"),
                            ImportPhase::Defer => w.write_keyword("defer"),
                        }
                        w.write_space(" ");
                    },
                    Option::None => {},
                }
                let ghost d1 = match phase {
                    Option::Some(p) => import_phase_doc(*p) + t(" "@),
                    Option::None => Seq::empty(),
                };
                assert(w.trace() == t0 + d1);
                match name {
                    Option::Some(s) => {
                        w.write_symbol(s.as_str());
                        if named_bindings.is_some() {
                            w.write_punctuation(",");
                            w.write_space(" ");
                        }
                    },
                    Option::None => {},
                }
                let ghost d2 = d1 + match name {
                    Option::Some(s) => t(s@) + (if named_bindings is Some {
                        t(","@) + t(" "@)
                    } else {
                        Seq::empty()
                    }),
                    Option::None => Seq::empty(),
                };
                assert(w.trace() == t0 + d2);
                match named_bindings {
                    Option::Some(b) => self.write_node_worker(b, w, in_extends),
                    Option::None => {},
                }
            },
            _ => {},
        }
    }

    /// Writes a namespace import, the named imports between braces, or an
    /// import specifier.
    #[verifier::spinoff_prover]
    pub(crate) fn emit_import_part(&self, n: &Node, w: &mut TextWriter, in_extends: bool)
        requires
            old(w).wf(),
            *n is NamespaceImport || *n is NamedImports || *n is ImportSpecifier,
        ensures
            final(w).wf(),
            final(w).start() == old(w).start(),
            appends(old(w).trace(), final(w).trace(), doc_import_part(self.context(), *n, in_extends)),
        decreases n, 1int, 0int,
    {
        proof {
            lemma_list_format_valid(FORMAT_NAMED_IMPORTS_OR_EXPORTS_ELEMENTS);
        }
        match n {
            Node::NamespaceImport { name } => {
                w.write_punctuation("*");
                w.write_space(" ");
                w.write_keyword("as");
                w.write_space(" ");
                w.write_symbol(name.as_str());
            },
            Node::NamedImports { elements, has_trailing_comma } => {
                w.write_punctuation("{");
                self.emit_list_items(
                    elements,
                    0,
                    elements.len(),
                    ListFormat(FORMAT_NAMED_IMPORTS_OR_EXPORTS_ELEMENTS),
                    *has_trailing_comma,
                    ChildMode::Plain,
                    w,
                    in_extends,
                );
                w.write_punctuation("}");
            },
            Node::ImportSpecifier { is_type_only, property_name, name } => {
                Self::write_type_only(*is_type_only, w);
                self.emit_specifier_property(property_name, w, in_extends);
                w.write_symbol(name.as_str());
            },
            _ => {},
        }
    }

    /// Writes an export declaration.
    #[verifier::spinoff_prover]
    pub(crate) fn emit_export_declaration(&self, n: &Node, w: &mut TextWriter, in_extends: bool)
        requires
            old(w).wf(),
            *n is ExportDeclaration,
        ensures
            final(w).wf(),
            final(w).start() == old(w).start(),
            appends(old(w).trace(), final(w).trace(), doc_export_declaration(self.context(), *n, in_extends)),
        decreases n, 1int, 0int,
    {
        match n {
            Node::ExportDeclaration { modifiers, is_type_only, export_clause, module_specifier, attributes } => {
                let ghost c = self.context();
                let ghost t0 = w.trace();
                self.emit_modifier_list(modifiers, false, w, in_extends);
                w.write_keyword("export");
                w.write_space(" ");
                Self::write_type_only(*is_type_only, w);
                let ghost d1 = doc_modifiers(c, modifiers@, 0, false, in_extends) + t("export"@) + t(" "@)
                    + type_only_doc(*is_type_only);
                assert(w.trace() == t0 + d1);
                match export_clause {
                    Option::Some(ec) => self.write_node_worker(ec, w, in_extends),
                    Option::None => w.write_punctuation("*"),
                }
                let ghost d2 = d1 + match export_clause {
                    Option::Some(ec) => doc_node(c, **ec, in_extends),
                    Option::None => t("*"@),
                };
                assert(w.trace() == t0 + d2);
                match module_specifier {
                    Option::Some(m) => {
                        w.write_space(" ");
                        w.write_keyword("from");
                        w.write_space(" ");
                        self.write_node_worker(m, w, in_extends);
                    },
                    Option::None => {},
                }
                let ghost d3 = d2 + match module_specifier {
                    Option::Some(m) => t(" "@) + t("from"@) + t(" "@) + doc_node(c, **m, in_extends),
                    Option::None => Seq::empty(),
                };
                assert(w.trace() == t0 + d3);
                self.emit_attributes_clause(attributes, w, in_extends);
                w.write_trailing_semicolon(";");
            },
            _ => {},
        }
    }

    /// Writes an `export as namespace` declaration, an import-equals
    /// declaration, or the `require` call it refers to.
    #[verifier::spinoff_prover]
    pub(crate) fn emit_import_equals(&self, n: &Node, w: &mut TextWriter, in_extends: bool)
        requires
            old(w).wf(),
            *n is NamespaceExportDeclaration || *n is ImportEqualsDeclaration || *n is ExternalModuleReference,
        ensures
            final(w).wf(),
            final(w).start() == old(w).start(),
            appends(old(w).trace(), final(w).trace(), doc_import_equals(self.context(), *n, in_extends)),
        decreases n, 1int, 0int,
    {
        match n {
            Node::NamespaceExportDeclaration { modifiers, name } => {
                self.emit_modifier_list(modifiers, false, w, in_extends);
                w.write_keyword("export");
                w.write_space(" ");
                w.write_keyword("as");
                w.write_space(" ");
                w.write_keyword("namespace");
                w.write_space(" ");
                w.write_symbol(name.as_str());
                w.write_trailing_semicolon(";");
            },
            Node::ImportEqualsDeclaration { modifiers, is_type_only, name, module_reference } => {
                let ghost c = self.context();
                let ghost t0 = w.trace();
                self.emit_modifier_list(modifiers, false, w, in_extends);
                w.write_keyword("import");
                w.write_space(" ");
                Self::write_type_only(*is_type_only, w);
                w.write_symbol(name.as_str());
                let ghost d1 = doc_modifiers(c, modifiers@, 0, false, in_extends) + t("import"@) + t(" "@)
                    + type_only_doc(*is_type_only) + t(name@);
                assert(w.trace() == t0 + d1);
                w.write_space(" ");
                w.write_punctuation("=");
                w.write_space(" ");
                self.write_node_worker(module_reference, w, in_extends);
                w.write_trailing_semicolon(";");
            },
            Node::ExternalModuleReference(e) => {
                w.write_keyword("require");
                w.write_punctuation("(");
                self.write_node_worker(e, w, in_extends);
                w.write_punctuation(")");
            },
            _ => {},
        }
    }

    /// Writes an object or array binding pattern, or one of its elements.
    #[verifier::spinoff_prover]
    pub(crate) fn emit_binding_pattern(&self, n: &Node, w: &mut TextWriter, in_extends: bool)
        requires
            old(w).wf(),
            *n is ObjectBindingPattern || *n is ArrayBindingPattern || *n is BindingElement,
        ensures
            final(w).wf(),
            final(w).start() == old(w).start(),
            appends(old(w).trace(), final(w).trace(), doc_binding_pattern(self.context(), *n, in_extends)),
        decreases n, 1int, 0int,
    {
        proof {
            lemma_list_format_valid(FORMAT_OBJECT_BINDING_PATTERN_ELEMENTS);
            lemma_list_format_valid(FORMAT_ARRAY_BINDING_PATTERN_ELEMENTS);
        }
        match n {
            Node::ObjectBindingPattern { elements, has_trailing_comma } => {
                w.write_punctuation("{");
                self.emit_list_items(
                    elements,
                    0,
                    elements.len(),
                    ListFormat(FORMAT_OBJECT_BINDING_PATTERN_ELEMENTS),
                    *has_trailing_comma,
                    ChildMode::Plain,
                    w,
                    in_extends,
                );
                w.write_punctuation("}");
            },
            Node::ArrayBindingPattern { elements, has_trailing_comma } => {
                w.write_punctuation("[");
                self.emit_list_items(
                    elements,
                    0,
                    elements.len(),
                    ListFormat(FORMAT_ARRAY_BINDING_PATTERN_ELEMENTS),
                    *has_trailing_comma,
                    ChildMode::Plain,
                    w,
                    in_extends,
                );
                w.write_punctuation("]");
            },
            Node::BindingElement { dot_dot_dot, property_name, name, initializer } => {
                let ghost c = self.context();
                let ghost t0 = w.trace();
                if *dot_dot_dot {
                    w.write_punctuation("...");
                }
                match property_name {
                    Option::Some(p) => {
                        self.write_node_worker(p, w, in_extends);
                        w.write_punctuation(":");
                        w.write_space(" ");
                    },
                    Option::None => {},
                }
                self.write_node_worker(name, w, in_extends);
                let ghost d1 = (if *dot_dot_dot {
                    t("..."@)
                } else {
                    Seq::empty()
                }) + match property_name {
                    Option::Some(p) => doc_node(c, **p, in_extends) + t(":"@) + t(" "@),
                    Option::None => Seq::empty(),
                } + doc_node(c, **name, in_extends);
                assert(w.trace() == t0 + d1);
                match initializer {
                    Option::Some(e) => {
                        w.write_space(" ");
                        w.write_operator("=");
                        w.write_space(" ");
                        self.emit_expression(e, OPERATOR_PRECEDENCE_DISALLOW_COMMA, w, in_extends);
                    },
                    Option::None => {},
                }
            },
            _ => {},
        }
    }

    /// Writes an import type.
    #[verifier::spinoff_prover]
    pub(crate) fn emit_import_type(&self, n: &Node, w: &mut TextWriter, in_extends: bool)
        requires
            old(w).wf(),
            *n is ImportType,
        ensures
            final(w).wf(),
            final(w).start() == old(w).start(),
            appends(old(w).trace(), final(w).trace(), doc_import_type(self.context(), *n, in_extends)),
        decreases n, 1int, 0int,
    {
        proof {
            lemma_list_format_valid(FORMAT_TYPE_ARGUMENTS);
        }
        match n {
            Node::ImportType { is_type_of, argument, attributes, qualifier, type_arguments } => {
                let ghost c = self.context();
                let ghost t0 = w.trace();
                if *is_type_of {
                    w.write_keyword("typeof");
                    w.write_space(" ");
                }
                w.write_keyword("import");
                w.write_punctuation("(");
                self.write_node_worker(argument, w, in_extends);
                self.emit_import_type_attributes(attributes, w, in_extends);
                w.write_punctuation(")");
                let ghost d1 = (if *is_type_of {
                    t("typeof"@) + t(" "@)
                } else {
                    Seq::empty()
                }) + t("import"@) + t("("@) + doc_node(c, **argument, in_extends) + import_type_attributes_doc(
                    c,
                    *attributes,
                    in_extends,
                ) + t(")"@);
                assert(w.trace() == t0 + d1);
                match qualifier {
                    Option::Some(q) => {
                        w.write_punctuation(".");
                        self.write_node_worker(q, w, in_extends);
                    },
                    Option::None => {},
                }
                self.emit_list(
                    type_arguments,
                    ListFormat(FORMAT_TYPE_ARGUMENTS),
                    false,
                    ChildMode::TypeOutsideExtends,
                    w,
                    in_extends,
                );
            },
            _ => {},
        }
    }

    /// Writes the named exports between braces, a namespace export, or an
    /// export specifier.
    #[verifier::spinoff_prover]
    pub(crate) fn emit_export_part(&self, n: &Node, w: &mut TextWriter, in_extends: bool)
        requires
            old(w).wf(),
            *n is NamedExports || *n is NamespaceExport || *n is ExportSpecifier,
        ensures
            final(w).wf(),
            final(w).start() == old(w).start(),
            appends(old(w).trace(), final(w).trace(), doc_export_part(self.context(), *n, in_extends)),
        decreases n, 1int, 0int,
    {
        proof {
            lemma_list_format_valid(FORMAT_NAMED_IMPORTS_OR_EXPORTS_ELEMENTS);
        }
        match n {
            Node::NamedExports { elements, has_trailing_comma } => {
                w.write_punctuation("{");
                self.emit_list_items(
                    elements,
                    0,
                    elements.len(),
                    ListFormat(FORMAT_NAMED_IMPORTS_OR_EXPORTS_ELEMENTS),
                    *has_trailing_comma,
                    ChildMode::Plain,
                    w,
                    in_extends,
                );
                w.write_punctuation("}");
            },
            Node::NamespaceExport { name } => {
                w.write_punctuation("*");
                w.write_space(" ");
                w.write_keyword("as");
                w.write_space(" ");
                self.write_node_worker(name, w, in_extends);
            },
            Node::ExportSpecifier { is_type_only, property_name, name } => {
                Self::write_type_only(*is_type_only, w);
                self.emit_specifier_property(property_name, w, in_extends);
                self.write_node_worker(name, w, in_extends);
            },
            _ => {},
        }
    }

    /// Writes what follows the name of a module declaration: the dotted names
    /// of the declarations nested as its body, then the block, or `;`.
    fn emit_module_body(&self, body: &Option<Box<Node>>, w: &mut TextWriter, in_extends: bool)
        requires
            old(w).wf(),
        ensures
            final(w).wf(),
            final(w).start() == old(w).start(),
            appends(old(w).trace(), final(w).trace(), module_body_doc(self.context(), *body, in_extends)),
        decreases *body, 1int, 0int,
    {
        match body {
            Option::Some(b) => match &**b {
                Node::ModuleDeclaration { name, body: inner, .. } => {
                    w.write_punctuation(".");
                    self.write_node_worker(name, w, in_extends);
                    self.emit_module_body(inner, w, in_extends);
                },
                _ => {
                    w.write_space(" ");
                    self.write_node_worker(b, w, in_extends);
                },
            },
            Option::None => {
                w.write_trailing_semicolon(";");
            },
        }
    }

    /// Writes a module declaration.
    #[verifier::spinoff_prover]
    pub(crate) fn emit_module_declaration(&self, n: &Node, w: &mut TextWriter, in_extends: bool)
        requires
            old(w).wf(),
            *n is ModuleDeclaration,
        ensures
            final(w).wf(),
            final(w).start() == old(w).start(),
            appends(old(w).trace(), final(w).trace(), doc_module(self.context(), *n, in_extends)),
        decreases n, 1int, 0int,
    {
        match n {
            Node::ModuleDeclaration { modifiers, keyword, name, body } => {
                self.emit_modifier_list(modifiers, false, w, in_extends);
                match keyword {
                    ModuleKeyword::Module => {
                        w.write_keyword("module");
                        w.write_space(" ");
                    },
                    ModuleKeyword::Namespace => {
                        w.write_keyword("namespace");
                        w.write_space(" ");
                    },
                    ModuleKeyword::Global => {},
                }
                self.write_node_worker(name, w, in_extends);
                self.emit_module_body(body, w, in_extends);
            },
            _ => {},
        }
    }

    /// Writes a module block: `{ }` when empty, else its statements on lines
    /// of their own.
    #[verifier::spinoff_prover]
    pub(crate) fn emit_module_block(&self, n: &Node, w: &mut TextWriter, in_extends: bool)
        requires
            old(w).wf(),
            *n is ModuleBlock,
        ensures
            final(w).wf(),
            final(w).start() == old(w).start(),
            appends(old(w).trace(), final(w).trace(), doc_module(self.context(), *n, in_extends)),
        decreases n, 1int, 0int,
    {
        proof {
            lemma_list_format_valid(FORMAT_SINGLE_LINE_BLOCK_STATEMENTS);
            lemma_list_format_valid(FORMAT_MULTI_LINE_BLOCK_STATEMENTS);
        }
        match n {
            Node::ModuleBlock { statements } => {
                let format = if statements.len() == 0 {
                    ListFormat(FORMAT_SINGLE_LINE_BLOCK_STATEMENTS)
                } else {
                    ListFormat(FORMAT_MULTI_LINE_BLOCK_STATEMENTS)
                };
                w.write_punctuation("{");
                self.emit_list_items(statements, 0, statements.len(), format, false, ChildMode::Plain, w, in_extends);
                w.write_punctuation("}");
            },
            _ => {},
        }
    }

    /// Writes a literal type or a type predicate.
    #[verifier::spinoff_prover]
    pub(crate) fn emit_literal_or_predicate_type(&self, n: &Node, w: &mut TextWriter, in_extends: bool)
        requires
            old(w).wf(),
            *n is LiteralType || *n is TypePredicate,
        ensures
            final(w).wf(),
            final(w).start() == old(w).start(),
            appends(old(w).trace(), final(w).trace(), doc_literal_or_predicate_type(self.context(), *n, in_extends)),
        decreases n, 1int, 0int,
    {
        match n {
            Node::LiteralType(l) => self.write_node_worker(l, w, in_extends),
            Node::TypePredicate { asserts, parameter_name, type_node } => {
                if *asserts {
                    w.write_keyword("asserts");
                    w.write_space(" ");
                }
                self.write_node_worker(parameter_name, w, in_extends);
                match type_node {
                    Option::Some(ty) => {
                        w.write_space(" ");
                        w.write_keyword("is");
                        w.write_space(" ");
                        self.emit_type_node(ty, TYPE_PRECEDENCE_LOWEST, w, false);
                    },
                    Option::None => {},
                }
            },
            _ => {},
        }
    }

    /// Writes a constructor type.
    #[verifier::spinoff_prover]
    pub(crate) fn emit_constructor_type(&self, n: &Node, w: &mut TextWriter, in_extends: bool)
        requires
            old(w).wf(),
            *n is ConstructorType,
        ensures
            final(w).wf(),
            final(w).start() == old(w).start(),
            appends(old(w).trace(), final(w).trace(), doc_constructor_type(self.context(), *n, in_extends)),
        decreases n, 1int, 0int,
    {
        match n {
            Node::ConstructorType { modifiers, type_parameters, parameters, return_type } => {
                let ghost c = self.context();
                let ghost t0 = w.trace();
                self.emit_modifier_list(modifiers, false, w, in_extends);
                w.write_keyword("new");
                w.write_space(" ");
                self.emit_type_parameters(type_parameters, w, in_extends);
                self.emit_parameters(parameters, w, in_extends);
                let ghost d1 = doc_modifiers(c, modifiers@, 0, false, in_extends) + t("new"@) + t(" "@)
                    + type_parameters_doc(c, type_parameters@, in_extends) + parameters_doc(c, parameters@, in_extends);
                assert(w.trace() == t0 + d1);
                w.write_space(" ");
                w.write_punctuation("=>");
                w.write_space(" ");
                let needs_parens = in_extends && match &**return_type {
                    Node::InferType { constraint, .. } => constraint.is_some(),
                    _ => false,
                };
                if needs_parens {
                    self.emit_type_node(return_type, TYPE_PRECEDENCE_HIGHEST, w, in_extends);
                } else {
                    self.emit_type_node(return_type, TYPE_PRECEDENCE_LOWEST, w, in_extends);
                }
            },
            _ => {},
        }
    }

    /// Writes an index signature.
    #[verifier::spinoff_prover]
    pub(crate) fn emit_index_signature(&self, n: &Node, w: &mut TextWriter, in_extends: bool)
        requires
            old(w).wf(),
            *n is IndexSignature,
        ensures
            final(w).wf(),
            final(w).start() == old(w).start(),
            appends(old(w).trace(), final(w).trace(), doc_member_signature(self.context(), *n, in_extends)),
        decreases n, 1int, 0int,
    {
        proof {
            lemma_list_format_valid(FORMAT_INDEX_SIGNATURE_PARAMETERS);
        }
        match n {
            Node::IndexSignature { modifiers, parameters, type_node } => {
                self.emit_modifier_list(modifiers, false, w, in_extends);
                self.emit_list(
                    parameters,
                    ListFormat(FORMAT_INDEX_SIGNATURE_PARAMETERS),
                    false,
                    ChildMode::Plain,
                    w,
                    in_extends,
                );
                self.emit_type_annotation(type_node, w);
                w.write_trailing_semicolon(";");
            },
            _ => {},
        }
    }

    /// Writes a call or construct signature.
    #[verifier::spinoff_prover]
    pub(crate) fn emit_call_or_construct_signature(&self, n: &Node, w: &mut TextWriter, in_extends: bool)
        requires
            old(w).wf(),
            *n is CallSignature || *n is ConstructSignature,
        ensures
            final(w).wf(),
            final(w).start() == old(w).start(),
            appends(old(w).trace(), final(w).trace(), doc_member_signature(self.context(), *n, in_extends)),
        decreases n, 1int, 0int,
    {
        match n {
            Node::CallSignature { .. } => {
                self.emit_signature_like(n, w, in_extends);
                w.write_trailing_semicolon(";");
            },
            Node::ConstructSignature { .. } => {
                w.write_keyword("new");
                w.write_space(" ");
                self.emit_signature_like(n, w, in_extends);
                w.write_trailing_semicolon(";");
            },
            _ => {},
        }
    }

    /// Writes a named member of a tuple type.
    #[verifier::spinoff_prover]
    pub(crate) fn emit_named_tuple_member(&self, n: &Node, w: &mut TextWriter, in_extends: bool)
        requires
            old(w).wf(),
            *n is NamedTupleMember,
        ensures
            final(w).wf(),
            final(w).start() == old(w).start(),
            appends(old(w).trace(), final(w).trace(), doc_named_tuple_member(self.context(), *n, in_extends)),
        decreases n, 1int, 0int,
    {
        match n {
            Node::NamedTupleMember { dot_dot_dot, name, question, type_node } => {
                if *dot_dot_dot {
                    w.write_punctuation("...");
                }
                w.write_symbol(name.as_str());
                if *question {
                    w.write_punctuation("?");
                }
                w.write_punctuation(":");
                w.write_space(" ");
                self.emit_type_node(type_node, TYPE_PRECEDENCE_LOWEST, w, false);
            },
            _ => {},
        }
    }

    /// Writes a template expression or template literal type, or one of their
    /// spans.
    #[verifier::spinoff_prover]
    pub(crate) fn emit_template(&self, n: &Node, w: &mut TextWriter, in_extends: bool)
        requires
            old(w).wf(),
            *n is TemplateExpression || *n is TemplateSpan || *n is TemplateLiteralType
                || *n is TemplateLiteralTypeSpan,
        ensures
            final(w).wf(),
            final(w).start() == old(w).start(),
            appends(old(w).trace(), final(w).trace(), doc_template(self.context(), *n, in_extends)),
        decreases n, 1int, 0int,
    {
        proof {
            lemma_list_format_valid(FORMAT_TEMPLATE_EXPRESSION_SPANS);
        }
        match n {
            Node::TemplateExpression { head, spans } | Node::TemplateLiteralType { head, spans } => {
                let text = template_head(head);
                w.write_literal(text.as_str());
                self.emit_list_items(
                    spans,
                    0,
                    spans.len(),
                    ListFormat(FORMAT_TEMPLATE_EXPRESSION_SPANS),
                    false,
                    ChildMode::Plain,
                    w,
                    in_extends,
                );
            },
            Node::TemplateSpan { expression, literal, is_tail } => {
                self.write_node_worker(expression, w, in_extends);
                let text = template_continuation(literal, *is_tail);
                w.write_literal(text.as_str());
            },
            Node::TemplateLiteralTypeSpan { type_node, literal, is_tail } => {
                self.emit_type_node(type_node, TYPE_PRECEDENCE_LOWEST, w, false);
                let text = template_continuation(literal, *is_tail);
                w.write_literal(text.as_str());
            },
            _ => {},
        }
    }

    /// Writes a static block of a class.
    #[verifier::spinoff_prover]
    pub(crate) fn emit_class_static_block(&self, n: &Node, w: &mut TextWriter, in_extends: bool)
        requires
            old(w).wf(),
            *n is ClassStaticBlockDeclaration,
        ensures
            final(w).wf(),
            final(w).start() == old(w).start(),
            appends(old(w).trace(), final(w).trace(), doc_class_static_block(self.context(), *n, in_extends)),
        decreases n, 1int, 0int,
    {
        match n {
            Node::ClassStaticBlockDeclaration { body } => {
                w.write_keyword("static");
                w.write_space(" ");
                self.emit_function_body(body, w, in_extends);
            },
            _ => {},
        }
    }

    /// Writes a JSX element with its children, a closing tag, or a fragment.
    #[verifier::spinoff_prover]
    pub(crate) fn emit_jsx_element(&self, n: &Node, w: &mut TextWriter, in_extends: bool)
        requires
            old(w).wf(),
            *n is JsxElement || *n is JsxClosingElement || *n is JsxFragment,
        ensures
            final(w).wf(),
            final(w).start() == old(w).start(),
            appends(old(w).trace(), final(w).trace(), doc_jsx_element(self.context(), *n, in_extends)),
        decreases n, 1int, 0int,
    {
        proof {
            lemma_list_format_valid(FORMAT_JSX_ELEMENT_OR_FRAGMENT_CHILDREN);
        }
        match n {
            Node::JsxElement { opening, children, closing } => {
                self.write_node_worker(opening, w, in_extends);
                self.emit_list_items(
                    children,
                    0,
                    children.len(),
                    ListFormat(FORMAT_JSX_ELEMENT_OR_FRAGMENT_CHILDREN),
                    false,
                    ChildMode::Plain,
                    w,
                    in_extends,
                );
                self.write_node_worker(closing, w, in_extends);
            },
            Node::JsxClosingElement { tag_name } => {
                w.write_punctuation("</");
                self.write_node_worker(tag_name, w, in_extends);
                w.write_punctuation(">");
            },
            Node::JsxFragment { children } => {
                w.write_punctuation("<");
                w.write_punctuation(">");
                self.emit_list_items(
                    children,
                    0,
                    children.len(),
                    ListFormat(FORMAT_JSX_ELEMENT_OR_FRAGMENT_CHILDREN),
                    false,
                    ChildMode::Plain,
                    w,
                    in_extends,
                );
                w.write_punctuation("</");
                w.write_punctuation(">");
            },
            _ => {},
        }
    }

    /// Writes a self-closing or opening JSX tag.
    #[verifier::spinoff_prover]
    pub(crate) fn emit_jsx_tag(&self, n: &Node, w: &mut TextWriter, in_extends: bool)
        requires
            old(w).wf(),
            *n is JsxSelfClosingElement || *n is JsxOpeningElement,
        ensures
            final(w).wf(),
            final(w).start() == old(w).start(),
            appends(old(w).trace(), final(w).trace(), doc_jsx_element(self.context(), *n, in_extends)),
        decreases n, 1int, 0int,
    {
        proof {
            lemma_list_format_valid(FORMAT_TYPE_ARGUMENTS);
        }
        match n {
            Node::JsxSelfClosingElement { tag_name, type_arguments, attributes } => {
                w.write_punctuation("<");
                self.write_node_worker(tag_name, w, in_extends);
                self.emit_list(
                    type_arguments,
                    ListFormat(FORMAT_TYPE_ARGUMENTS),
                    false,
                    ChildMode::TypeOutsideExtends,
                    w,
                    in_extends,
                );
                w.write_space(" ");
                self.write_node_worker(attributes, w, in_extends);
                w.write_punctuation("/>");
            },
            Node::JsxOpeningElement { tag_name, type_arguments, attributes } => {
                w.write_punctuation("<");
                self.write_node_worker(tag_name, w, in_extends);
                self.emit_list(
                    type_arguments,
                    ListFormat(FORMAT_TYPE_ARGUMENTS),
                    false,
                    ChildMode::TypeOutsideExtends,
                    w,
                    in_extends,
                );
                let has_attributes = match &**attributes {
                    Node::JsxAttributes { properties } => properties.len() > 0,
                    _ => false,
                };
                if has_attributes {
                    w.write_space(" ");
                }
                self.write_node_worker(attributes, w, in_extends);
                w.write_punctuation(">");
            },
            _ => {},
        }
    }

    /// Writes a JSX expression, attribute list, attribute, spread attribute or
    /// namespaced name.
    #[verifier::spinoff_prover]
    pub(crate) fn emit_jsx_part(&self, n: &Node, w: &mut TextWriter, in_extends: bool)
        requires
            old(w).wf(),
            *n is JsxExpression || *n is JsxAttributes || *n is JsxAttribute || *n is JsxSpreadAttribute
                || *n is JsxNamespacedName,
        ensures
            final(w).wf(),
            final(w).start() == old(w).start(),
            appends(old(w).trace(), final(w).trace(), doc_jsx_part(self.context(), *n, in_extends)),
        decreases n, 1int, 0int,
    {
        proof {
            lemma_list_format_valid(FORMAT_JSX_ELEMENT_ATTRIBUTES);
        }
        match n {
            Node::JsxExpression { dot_dot_dot, expression } => {
                match expression {
                    Option::Some(e) => {
                        w.write_punctuation("{");
                        if *dot_dot_dot {
                            w.write_punctuation("...");
                        }
                        self.emit_expression(e, OPERATOR_PRECEDENCE_DISALLOW_COMMA, w, in_extends);
                        w.write_punctuation("}");
                    },
                    Option::None => {},
                }
            },
            Node::JsxAttributes { properties } => {
                self.emit_list_items(
                    properties,
                    0,
                    properties.len(),
                    ListFormat(FORMAT_JSX_ELEMENT_ATTRIBUTES),
                    false,
                    ChildMode::Plain,
                    w,
                    in_extends,
                );
            },
            Node::JsxAttribute { name, initializer } => {
                self.write_node_worker(name, w, in_extends);
                match initializer {
                    Option::Some(i) => {
                        w.write_punctuation("=");
                        self.write_node_worker(i, w, in_extends);
                    },
                    Option::None => {},
                }
            },
            Node::JsxSpreadAttribute { expression } => {
                w.write_punctuation("{...");
                self.write_node_worker(expression, w, in_extends);
                w.write_punctuation("}");
            },
            Node::JsxNamespacedName { namespace, name } => {
                w.write_symbol(namespace.as_str());
                w.write_punctuation(":");
                w.write_symbol(name.as_str());
            },
            _ => {},
        }
    }

    /// Writes a node that has no child: a name, a literal, a keyword or an empty statement.
    #[verifier::spinoff_prover]
    pub(crate) fn emit_leaf_node(&self, n: &Node, w: &mut TextWriter, in_extends: bool)
        requires
            old(w).wf(),
            dispatch_group(*n) == 0,
        ensures
            final(w).wf(),
            final(w).start() == old(w).start(),
            appends(old(w).trace(), final(w).trace(), doc_node(self.context(), *n, in_extends)),
        decreases n, 1int, 1int,
    {
        proof {
            self.lemma_context_numeric_separators();
        }
        match n {
            Node::Identifier(_) => {
                let text = self.get_text_of_node(n, false);
                w.write_symbol(text.as_str());
            },
            Node::NumericLiteral(_) | Node::NoSubstitutionTemplateLiteral(_) | Node::StringLiteral { .. }
            | Node::BigIntLiteral(_) | Node::RegularExpressionLiteral(_) => {
                let text = self.get_literal_text_of_node(n, Option::None);
                w.write_literal(text.as_str());
            },
            Node::KeywordExpression(k) => w.write_keyword(get_expression_keyword_text(*k)),
            Node::OmittedExpression => {},
            Node::ShorthandPropertyAssignment(s) => w.write_symbol(s.as_str()),
            Node::Modifier(k) => w.write_keyword(get_modifier_text(*k)),
            Node::KeywordType(k) => w.write_keyword(get_type_keyword_text(*k)),
            Node::EmptyStatement => w.write_trailing_semicolon(";"),
            Node::PrivateIdentifier(s) => w.write_symbol(s.as_str()),
            Node::MetaProperty { keyword, name } => {
                match keyword {
                    MetaPropertyKeyword::New => w.write_keyword("new"),
                    MetaPropertyKeyword::Import => w.write_keyword("import"),
                }
                w.write_punctuation(".");
                w.write_symbol(name.as_str());
            },
            Node::SemicolonClassElement => w.write_punctuation(";"),
            Node::JsxText(s) => w.write_literal(s.as_str()),
            Node::ThisType => w.write_keyword("this"),
            Node::DebuggerStatement => {
                w.write_keyword("debugger");
                w.write_trailing_semicolon(";");
            },
            _ => {},
        }
    }
}

} // verus!
