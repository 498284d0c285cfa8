use vstd::prelude::*;
use crate::ast::{BinaryOperator, MappedTypeModifier, Node};
use crate::doc::{ChildMode, FORMAT_ARRAY_BINDING_PATTERN_ELEMENTS, FORMAT_CALL_ARGUMENTS, FORMAT_CASE_BLOCK_CLAUSES, FORMAT_CASE_OR_DEFAULT_CLAUSE_STATEMENTS, FORMAT_CLASS_HERITAGE_CLAUSES, FORMAT_CLASS_MEMBERS, FORMAT_ENUM_MEMBERS, FORMAT_HERITAGE_CLAUSES, FORMAT_HERITAGE_CLAUSE_TYPES, FORMAT_IMPORT_ATTRIBUTES, FORMAT_INDEX_SIGNATURE_PARAMETERS, FORMAT_INTERFACE_MEMBERS, FORMAT_INTERSECTION_TYPE_CONSTITUENTS, FORMAT_JSX_ELEMENT_ATTRIBUTES, FORMAT_JSX_ELEMENT_OR_FRAGMENT_CHILDREN, FORMAT_MULTI_LINE_BLOCK_STATEMENTS, FORMAT_MULTI_LINE_FUNCTION_BODY_STATEMENTS, FORMAT_NAMED_IMPORTS_OR_EXPORTS_ELEMENTS, FORMAT_NEW_ARGUMENTS, FORMAT_OBJECT_BINDING_PATTERN_ELEMENTS, FORMAT_PARAMETERS, FORMAT_SINGLE_ARROW_PARAMETER, FORMAT_SINGLE_CLAUSE_STATEMENT, FORMAT_SINGLE_LINE_BLOCK_STATEMENTS, FORMAT_SINGLE_LINE_FUNCTION_BODY_STATEMENTS, FORMAT_SOURCE_FILE_STATEMENTS, FORMAT_TEMPLATE_EXPRESSION_SPANS, FORMAT_TYPE_ARGUMENTS, FORMAT_TYPE_PARAMETERS, FORMAT_UNION_TYPE_CONSTITUENTS, FORMAT_VARIABLE_DECLARATION_LIST, array_literal_format, attributes_clause_doc, block_format, break_dedent_doc, break_indent_doc, class_body_doc, class_head_doc, class_name_doc, clause_statements_doc, constructor_annotation_doc, doc_array_literal_expression, doc_arrow_function, doc_as_or_satisfies_expression, doc_binary_expression, doc_binding_pattern, doc_block, doc_call_expression, doc_case_or_default_clause, doc_catch_clause, doc_child, doc_class, doc_class_static_block, doc_concise_body, doc_conditional_expression, doc_conditional_type, doc_constructor_type, doc_decorator, doc_element_access_expression, doc_embedded, doc_enum, doc_export_assignment, doc_export_declaration, doc_export_part, doc_expr, doc_expression_statement, doc_expression_with_type_arguments, doc_for_in_or_of_statement, doc_for_statement, doc_function_body, doc_function_declaration, doc_function_expression, doc_function_type, doc_heritage_clause, doc_if_statement, doc_iife, doc_import_attributes, doc_import_declaration, doc_import_equals, doc_import_part, doc_import_type, doc_indexed_access_type, doc_infer_type, doc_interface_declaration, doc_item_run, doc_items, doc_jsx_element, doc_jsx_part, doc_jump_statement, doc_keyword_operator_expression, doc_labeled_or_with_statement, doc_list, doc_literal_or_predicate_type, doc_loop_statement, doc_mapped_type, doc_member_signature, doc_method_like, doc_modifiers, doc_module, doc_named_tuple_member, doc_new_expression, doc_node, doc_non_null_or_type_assertion, doc_object_literal_expression, doc_parameter, doc_parenthesized, doc_postfix_type, doc_postfix_unary_expression, doc_prefix_unary_expression, doc_property_access_expression, doc_property_declaration, doc_property_names, doc_return_statement, doc_signature, doc_source_file_node, doc_spread, doc_switch_statement, doc_tagged_template_expression, doc_template, doc_try_statement, doc_tuple_type, doc_type, doc_type_alias_declaration, doc_type_literal, doc_type_operator, doc_type_parameter, doc_type_reference, doc_union_or_intersection_type, doc_variable_declaration, doc_variable_declaration_list, doc_variable_statement, doc_yield_expression, effective_type_precedence, function_body_on_single_line, has_jsx_attributes, heritage_clauses_doc, import_phase_doc, import_type_attributes_doc, interface_body_doc, interface_head_doc, is_immediately_invoked_function, item_prefix, item_suffix, kept_line_break, lemma_run_end_bounds, line_or_space, mapped_modifier_doc, mapped_type_close, mapped_type_key, mapped_type_open, mapped_type_value, module_body_doc, module_keyword_doc, needs_dot_dot, object_literal_format, optional_body_doc, optional_label, optional_text, parameters_doc, parenthesized, prefix_needs_space, run_end, signature_like_doc, specifier_property_doc, t, template_continuation_text, template_head_text, tuple_format, type_annotation_doc, type_literal_format, type_only_doc, type_parameters_doc, variable_keyword_doc};
use crate::layout::{PrintContext, closing_line_terminator_count, delimiter_doc, leading_line_terminator_count, lines_doc, separating_line_terminator_count};
use crate::list_format::{LF_ALLOW_TRAILING_COMMA, LF_BRACKETS_MASK, LF_COMMA_DELIMITED, LF_INDENTED, LF_MULTI_LINE, LF_NO_SPACE_IF_EMPTY, LF_NO_TRAILING_NEW_LINE, LF_OPTIONAL_IF_EMPTY, LF_PREFER_NEW_LINE, LF_PRESERVE_LINES, LF_SPACE_AFTER_LIST, LF_SPACE_BETWEEN_BRACES, ListFormat};
use crate::precedence::{OPERATOR_PRECEDENCE_ADDITIVE, OPERATOR_PRECEDENCE_ASSIGNMENT, OPERATOR_PRECEDENCE_BITWISE_AND, OPERATOR_PRECEDENCE_BITWISE_OR, OPERATOR_PRECEDENCE_BITWISE_XOR, OPERATOR_PRECEDENCE_COALESCE, OPERATOR_PRECEDENCE_COMMA, OPERATOR_PRECEDENCE_DISALLOW_COMMA, OPERATOR_PRECEDENCE_EQUALITY, OPERATOR_PRECEDENCE_EXPONENTIATION, OPERATOR_PRECEDENCE_LEFT_HAND_SIDE, OPERATOR_PRECEDENCE_LOGICAL_AND, OPERATOR_PRECEDENCE_LOGICAL_OR, OPERATOR_PRECEDENCE_LOWEST, OPERATOR_PRECEDENCE_MEMBER, OPERATOR_PRECEDENCE_MULTIPLICATIVE, OPERATOR_PRECEDENCE_OPTIONAL_CHAIN, OPERATOR_PRECEDENCE_PARENTHESES, OPERATOR_PRECEDENCE_RELATIONAL, OPERATOR_PRECEDENCE_SHIFT, OPERATOR_PRECEDENCE_SPREAD, OPERATOR_PRECEDENCE_UNARY, OPERATOR_PRECEDENCE_UPDATE, OPERATOR_PRECEDENCE_YIELD, TYPE_PRECEDENCE_HIGHEST, TYPE_PRECEDENCE_LOWEST, TYPE_PRECEDENCE_POSTFIX, TYPE_PRECEDENCE_TYPE_OPERATOR, TYPE_PRECEDENCE_UNION, binary_operand_precedences, binary_operator_precedence, expression_precedence, is_binary_with, is_new_without_arguments, leftmost_expression, leftmost_is_class_or_function, leftmost_is_function_or_object_literal, mixing_operators_requires_parentheses, type_node_precedence};
use crate::printer::{PrinterOptions, dispatch_group, print_context, printed_text};
use crate::text_writer::{Piece, WriterState, apply, initial_state, lemma_apply_indent, lemma_apply_line_start, lemma_flat_well_nested, lemma_highest_nesting_at_most_len, lemma_lowest_nesting_of_concat, lemma_nesting_concat, lemma_nesting_of_concat, lemma_piece_nesting, lemma_text_well_nested, lemma_well_nested_concat, line_start_after_line_break, lines_and_indent_doc, lowest_nesting, nesting, step, well_nested};
use crate::tokens::{binary_operator_text, postfix_operator_text, prefix_operator_text, type_operator_text};

verus! {

broadcast use {
    lemma_nesting_of_concat,
    lemma_lowest_nesting_of_concat,
    lemma_text_well_nested,
    lemma_well_nested_concat,
};

/// Line breaks are well nested.
proof fn lemma_lines_well_nested(count: int)
    ensures
        well_nested(lines_doc(count)),
{
    lemma_flat_well_nested(lines_doc(count));
}

/// What separates two items of a list is well nested.
proof fn lemma_delimiter_well_nested(format: ListFormat)
    ensures
        well_nested(delimiter_doc(format)),
{
    lemma_piece_nesting();
}

/// What comes before an item of a list steps the indentation in exactly when
/// what comes after it steps back out; otherwise both are well nested.
proof fn lemma_item_frame_nesting(c: PrintContext, format: ListFormat, lo: int, i: int)
    ensures
        item_suffix(c, format, lo, i) == seq![Piece::Dedent] ==> nesting(
            item_prefix(c, format, lo, i),
        ) == 1 && lowest_nesting(item_prefix(c, format, lo, i)) == 0,
        item_suffix(c, format, lo, i) != seq![Piece::Dedent] ==> item_suffix(c, format, lo, i)
            == Seq::<Piece>::empty() && well_nested(item_prefix(c, format, lo, i)),
{
    lemma_piece_nesting();
    lemma_delimiter_well_nested(format);
    lemma_lines_well_nested(
        separating_line_terminator_count(format, Option::Some(false), Option::Some(false), c),
    );
    assert(seq![Piece::Dedent] != Seq::<Piece>::empty()) by {
        assert(seq![Piece::Dedent].len() == 1);
    }
}

/// The items `children[lo..hi]` with what separates them are well nested when
/// each item is.
proof fn lemma_item_run_well_nested(
    c: PrintContext,
    children: Seq<Node>,
    lo: int,
    hi: int,
    format: ListFormat,
    mode: ChildMode,
    ie: bool,
)
    requires
        forall|k: int, c2: PrintContext, m: ChildMode, ie2: bool|
            0 <= k < children.len() ==> well_nested(#[trigger] doc_child(c2, children[k], m, ie2)),
    ensures
        well_nested(doc_item_run(c, children, lo, hi, format, mode, ie)),
    decreases hi - lo,
{
    if !(hi <= lo || hi > children.len() || lo < 0) {
        lemma_item_run_well_nested(c, children, lo, hi - 1, format, mode, ie);
        lemma_piece_nesting();
        lemma_item_frame_nesting(c, format, lo, hi - 1);
        let run = doc_item_run(c, children, lo, hi - 1, format, mode, ie);
        let prefix = item_prefix(c, format, lo, hi - 1);
        let child = doc_child(c, children[hi - 1], mode, ie);
        let suffix = item_suffix(c, format, lo, hi - 1);
        assert(well_nested(child));
        assert(well_nested(run + prefix + child + suffix));
    }
}

/// What leads a list, one step in where the list is indented, its items and
/// trailing comma, the step back out and what closes it are well nested when
/// the parts that lead, close and make up the items are.
proof fn lemma_items_frame(
    lead: Seq<Piece>,
    run: Seq<Piece>,
    comma: Seq<Piece>,
    close: Seq<Piece>,
    indented: bool,
)
    requires
        well_nested(lead),
        well_nested(run),
        well_nested(comma),
        well_nested(close),
    ensures
        well_nested(lead + (if indented {
            seq![Piece::Indent]
        } else {
            Seq::empty()
        }) + run + comma + (if indented {
            seq![Piece::Dedent]
        } else {
            Seq::empty()
        }) + close),
{
    lemma_piece_nesting();
    let ind: Seq<Piece> = if indented {
        seq![Piece::Indent]
    } else {
        Seq::empty()
    };
    let ded: Seq<Piece> = if indented {
        seq![Piece::Dedent]
    } else {
        Seq::empty()
    };
    crate::text_writer::lemma_nesting_concat(lead, ind);
    crate::text_writer::lemma_nesting_concat(lead + ind, run);
    crate::text_writer::lemma_nesting_concat(lead + ind + run, comma);
    crate::text_writer::lemma_nesting_concat(lead + ind + run + comma, ded);
    crate::text_writer::lemma_nesting_concat(lead + ind + run + comma + ded, close);
}

/// A function body's braces around one step in, the statements (with a step
/// back out and in again around them when they stay on one line) and the
/// step back out are well nested.
#[verifier::spinoff_prover]
proof fn lemma_function_body_frame(single: Seq<Piece>, multi: Seq<Piece>, on_one_line: bool)
    requires
        well_nested(single),
        well_nested(multi),
    ensures
        well_nested(t("{"@) + seq![Piece::Indent] + (if on_one_line {
            seq![Piece::Dedent] + single + seq![Piece::Indent]
        } else {
            multi
        }) + seq![Piece::Dedent] + t("}"@)),
{
    lemma_piece_nesting();
    let open = t("{"@);
    let close = t("}"@);
    let i = seq![Piece::Indent];
    let o = seq![Piece::Dedent];
    let mid = if on_one_line {
        o + single + i
    } else {
        multi
    };
    crate::text_writer::lemma_nesting_concat(o, single);
    crate::text_writer::lemma_nesting_concat(o + single, i);
    crate::text_writer::lemma_nesting_concat(open, i);
    crate::text_writer::lemma_nesting_concat(open + i, mid);
    crate::text_writer::lemma_nesting_concat(open + i + mid, o);
    crate::text_writer::lemma_nesting_concat(open + i + mid + o, close);
}

/// A statement indented on a line of its own is well nested when the statement
/// is.
proof fn lemma_embedded_frame(d: Seq<Piece>)
    requires
        well_nested(d),
    ensures
        well_nested(seq![Piece::Indent, Piece::Line] + d + seq![Piece::Dedent]),
{
    lemma_piece_nesting();
    crate::text_writer::lemma_nesting_concat(seq![Piece::Indent, Piece::Line], d);
    crate::text_writer::lemma_nesting_concat(
        seq![Piece::Indent, Piece::Line] + d,
        seq![Piece::Dedent],
    );
}

/// The items of a non-empty list are, in this order: what leads, one step in
/// where the list is indented, the run of items, a trailing comma where the
/// format keeps one, the step back out, and what closes.
pub proof fn lemma_items_shape(
    c: PrintContext,
    children: Seq<Node>,
    lo: int,
    hi: int,
    format: ListFormat,
    has_trailing_comma: bool,
    mode: ChildMode,
    ie: bool,
)
    requires
        hi > lo,
    ensures
        doc_items(c, children, lo, hi, format, has_trailing_comma, mode, ie) == (if leading_line_terminator_count(
            format,
            Option::Some(false),
            c,
        ) > 0 {
            lines_doc(leading_line_terminator_count(format, Option::Some(false), c))
        } else if format.has(LF_SPACE_BETWEEN_BRACES) {
            t(" "@)
        } else {
            Seq::empty()
        }) + (if format.has(LF_INDENTED) {
            seq![Piece::Indent]
        } else {
            Seq::empty()
        }) + doc_item_run(c, children, lo, hi, format, mode, ie) + (if has_trailing_comma
            && format.has(LF_ALLOW_TRAILING_COMMA) && format.has(LF_COMMA_DELIMITED) {
            t(","@)
        } else {
            Seq::empty()
        }) + (if format.has(LF_INDENTED) {
            seq![Piece::Dedent]
        } else {
            Seq::empty()
        }) + (if closing_line_terminator_count(format, Option::Some(false), c) > 0 {
            lines_doc(closing_line_terminator_count(format, Option::Some(false), c))
        } else if format.has(LF_SPACE_AFTER_LIST | LF_SPACE_BETWEEN_BRACES) {
            t(" "@)
        } else {
            Seq::empty()
        }),
{
    reveal(doc_items);
}

/// The items of a list with their spacing, breaks and indentation are well
/// nested when each item is: the list steps the indentation in and back out as
/// often, and never further out than where it started.
pub proof fn lemma_items_well_nested(
    c: PrintContext,
    children: Seq<Node>,
    lo: int,
    hi: int,
    format: ListFormat,
    has_trailing_comma: bool,
    mode: ChildMode,
    ie: bool,
)
    requires
        forall|k: int, c2: PrintContext, m: ChildMode, ie2: bool|
            0 <= k < children.len() ==> well_nested(#[trigger] doc_child(c2, children[k], m, ie2)),
    ensures
        well_nested(doc_items(c, children, lo, hi, format, has_trailing_comma, mode, ie)),
{
    reveal(doc_items);
    lemma_piece_nesting();
    if hi > lo {
        let leading = leading_line_terminator_count(format, Option::Some(false), c);
        let closing = closing_line_terminator_count(format, Option::Some(false), c);
        lemma_lines_well_nested(leading);
        lemma_lines_well_nested(closing);
        lemma_item_run_well_nested(c, children, lo, hi, format, mode, ie);
        let run = doc_item_run(c, children, lo, hi, format, mode, ie);
        let comma = if has_trailing_comma && format.has(LF_ALLOW_TRAILING_COMMA) && format.has(
            LF_COMMA_DELIMITED,
        ) {
            t(","@)
        } else {
            Seq::empty()
        };
        let lead = if leading > 0 {
            lines_doc(leading)
        } else if format.has(LF_SPACE_BETWEEN_BRACES) {
            t(" "@)
        } else {
            Seq::empty()
        };
        let close = if closing > 0 {
            lines_doc(closing)
        } else if format.has(LF_SPACE_AFTER_LIST | LF_SPACE_BETWEEN_BRACES) {
            t(" "@)
        } else {
            Seq::empty()
        };
        let ind = if format.has(LF_INDENTED) {
            seq![Piece::Indent]
        } else {
            Seq::empty()
        };
        let ded = if format.has(LF_INDENTED) {
            seq![Piece::Dedent]
        } else {
            Seq::empty()
        };
        lemma_items_shape(c, children, lo, hi, format, has_trailing_comma, mode, ie);
        assert(well_nested(lead));
        assert(well_nested(comma));
        assert(well_nested(close));
        lemma_items_frame(lead, run, comma, close, format.has(LF_INDENTED));
    }
}

/// A list with its brackets is well nested when each of its items is.
pub proof fn lemma_list_well_nested(
    c: PrintContext,
    children: Seq<Node>,
    lo: int,
    hi: int,
    format: ListFormat,
    has_trailing_comma: bool,
    mode: ChildMode,
    ie: bool,
)
    requires
        forall|k: int, c2: PrintContext, m: ChildMode, ie2: bool|
            0 <= k < children.len() ==> well_nested(#[trigger] doc_child(c2, children[k], m, ie2)),
    ensures
        well_nested(doc_list(c, children, lo, hi, format, has_trailing_comma, mode, ie)),
{
    reveal(doc_list);
    reveal(doc_items);
    lemma_piece_nesting();
    lemma_items_well_nested(c, children, lo, hi, format, has_trailing_comma, mode, ie);
    let items = doc_items(c, children, lo, hi, format, has_trailing_comma, mode, ie);
    assert(well_nested(items));
    let empty = hi <= lo;
    if !(empty && format.has(LF_OPTIONAL_IF_EMPTY)) {
        let open = if format.has(LF_BRACKETS_MASK) {
            t(format.spec_opening_bracket())
        } else {
            Seq::empty()
        };
        let close = if format.has(LF_BRACKETS_MASK) {
            t(format.spec_closing_bracket())
        } else {
            Seq::empty()
        };
        let body = if empty {
            if format.has(LF_MULTI_LINE) && !(c.preserve_source_newlines && c.in_source_file) {
                seq![Piece::Line]
            } else if format.has(LF_SPACE_BETWEEN_BRACES) && !format.has(LF_NO_SPACE_IF_EMPTY) {
                t(" "@)
            } else {
                Seq::empty()
            }
        } else {
            items
        };
        assert(well_nested(open));
        assert(well_nested(close));
        assert(well_nested(body));
        assert(doc_list(c, children, lo, hi, format, has_trailing_comma, mode, ie) == open + body + close);
    }
}

/// The modifiers and decorators `nodes[start..]` are well nested when each of
/// them is.
proof fn lemma_modifiers_well_nested(
    c: PrintContext,
    nodes: Seq<Node>,
    start: int,
    allow_decorators: bool,
    ie: bool,
)
    requires
        forall|k: int, c2: PrintContext, m: ChildMode, ie2: bool|
            0 <= k < nodes.len() ==> well_nested(#[trigger] doc_child(c2, nodes[k], m, ie2)),
    ensures
        well_nested(doc_modifiers(c, nodes, start, allow_decorators, ie)),
    decreases nodes.len() - start,
{
    reveal(doc_items);
    lemma_piece_nesting();
    if 0 <= start < nodes.len() {
        let decorators = crate::doc::is_decorator(nodes[start]);
        lemma_run_end_bounds(nodes, start + 1, decorators);
        let end = run_end(nodes, start + 1, decorators);
        lemma_modifiers_well_nested(c, nodes, end, allow_decorators, ie);
        let format = ListFormat(
            if decorators {
                crate::doc::FORMAT_DECORATORS
            } else {
                crate::doc::FORMAT_MODIFIERS
            },
        );
        lemma_items_well_nested(c, nodes, start, end, format, false, ChildMode::Plain, ie);
        let part = if allow_decorators || !decorators {
            doc_items(c, nodes, start, end, format, false, ChildMode::Plain, ie)
        } else {
            Seq::empty()
        };
        assert(well_nested(part));
        assert(well_nested(doc_modifiers(c, nodes, end, allow_decorators, ie)));
        assert(doc_modifiers(c, nodes, start, allow_decorators, ie) == part + doc_modifiers(
            c,
            nodes,
            end,
            allow_decorators,
            ie,
        ));
    }
}

/// Each of the nodes `children[i..]` has well-nested documents.
proof fn lemma_elements_docs_well_nested(children: Seq<Node>, i: int)
    requires
        0 <= i <= children.len(),
    ensures
        forall|k: int, c: PrintContext, m: ChildMode, ie: bool|
            i <= k < children.len() ==> well_nested(#[trigger] doc_child(c, children[k], m, ie)),
    decreases children, 1int, children.len() - i,
{
    if i < children.len() {
        lemma_node_docs_well_nested(children[i]);
        lemma_elements_docs_well_nested(children, i + 1);
    }
}

/// Every document the printer makes of a list of nodes is well nested.
pub proof fn lemma_nodes_docs_well_nested(children: Seq<Node>)
    ensures
        forall|c: PrintContext, lo: int, hi: int, f: ListFormat, tc: bool, m: ChildMode, ie: bool|
            well_nested(#[trigger] doc_list(c, children, lo, hi, f, tc, m, ie)),
        forall|c: PrintContext, lo: int, hi: int, f: ListFormat, tc: bool, m: ChildMode, ie: bool|
            well_nested(#[trigger] doc_items(c, children, lo, hi, f, tc, m, ie)),
        forall|c: PrintContext, start: int, ad: bool, ie: bool|
            well_nested(#[trigger] doc_modifiers(c, children, start, ad, ie)),
    decreases children, 2int, 0int,
{
    lemma_elements_docs_well_nested(children, 0);
    assert forall|c: PrintContext, lo: int, hi: int, f: ListFormat, tc: bool, m: ChildMode, ie: bool|
        well_nested(#[trigger] doc_list(c, children, lo, hi, f, tc, m, ie)) by {
        lemma_list_well_nested(c, children, lo, hi, f, tc, m, ie);
    }
    assert forall|c: PrintContext, lo: int, hi: int, f: ListFormat, tc: bool, m: ChildMode, ie: bool|
        well_nested(#[trigger] doc_items(c, children, lo, hi, f, tc, m, ie)) by {
        lemma_items_well_nested(c, children, lo, hi, f, tc, m, ie);
    }
    assert forall|c: PrintContext, start: int, ad: bool, ie: bool|
        well_nested(#[trigger] doc_modifiers(c, children, start, ad, ie)) by {
        lemma_modifiers_well_nested(c, children, start, ad, ie);
    }
}

/// Every document the printer makes of a node is well nested: printing a node
/// moves the indentation in and back out as often, and never further out than
/// where it started.
pub proof fn lemma_node_docs_well_nested(n: Node)
    ensures
        forall|c: PrintContext, ie: bool| well_nested(#[trigger] doc_node(c, n, ie)),
        forall|c: PrintContext, p: i8, ie: bool| well_nested(#[trigger] doc_expr(c, n, p, ie)),
        forall|c: PrintContext, p: i8, ie: bool| well_nested(#[trigger] doc_type(c, n, p, ie)),
        forall|c: PrintContext, m: ChildMode, ie: bool| well_nested(#[trigger] doc_child(c, n, m, ie)),
        forall|c: PrintContext, ie: bool| well_nested(#[trigger] doc_concise_body(c, n, ie)),
        forall|c: PrintContext, ie: bool| well_nested(#[trigger] doc_function_body(c, n, ie)),
        forall|c: PrintContext, ie: bool| well_nested(#[trigger] doc_embedded(c, n, ie)),
        forall|c: PrintContext, ie: bool| well_nested(#[trigger] doc_iife(c, n, ie)),
    decreases n, 0int, 4int,
{
    lemma_piece_nesting();
    let g = dispatch_group(n);
    if g == 0 {
        lemma_leaf_docs_well_nested(n);
    } else if g == 1 {
        lemma_operator_expression_docs_well_nested(n);
    } else if g == 2 {
        lemma_primary_expression_docs_well_nested(n);
    } else if g == 3 {
        lemma_member_docs_well_nested(n);
    } else if g == 4 {
        lemma_statement_docs_well_nested(n);
    } else if g == 5 {
        lemma_type_docs_well_nested(n);
    } else if g == 6 {
        lemma_control_statement_docs_well_nested(n);
    } else if g == 7 {
        lemma_clause_docs_well_nested(n);
    } else if g == 8 {
        lemma_signature_docs_well_nested(n);
    } else if g == 9 {
        lemma_member_holder_docs_well_nested(n);
    } else if g == 10 {
        lemma_module_docs_well_nested(n);
    } else if g == 11 {
        lemma_type_signature_docs_well_nested(n);
    } else if g == 12 {
        lemma_template_docs_well_nested(n);
    } else if g == 13 {
        lemma_jsx_docs_well_nested(n);
    } else if g == 14 {
        lemma_import_form_docs_well_nested(n);
    } else {
        lemma_binding_docs_well_nested(n);
    }
    assert forall|c: PrintContext, p: i8, ie: bool| well_nested(#[trigger] doc_expr(c, n, p, ie)) by {
        assert(well_nested(doc_node(c, n, ie)));
    }
    assert forall|c: PrintContext, p: i8, ie: bool| well_nested(#[trigger] doc_type(c, n, p, ie)) by {
        assert(well_nested(doc_node(c, n, ie)));
    }
    assert forall|c: PrintContext, m: ChildMode, ie: bool| well_nested(#[trigger] doc_child(c, n, m, ie)) by {
        assert(well_nested(doc_node(c, n, ie)));
        assert(well_nested(doc_type(c, n, crate::precedence::TYPE_PRECEDENCE_LOWEST, false)));
    }
    assert forall|c: PrintContext, ie: bool| well_nested(#[trigger] doc_function_body(c, n, ie)) by {
        if !(n is Block) {
            assert(doc_function_body(c, n, ie) == doc_node(c, n, ie));
        }
    }
    assert forall|c: PrintContext, ie: bool| well_nested(#[trigger] doc_concise_body(c, n, ie)) by {
        assert(well_nested(doc_node(c, n, ie)));
        assert(well_nested(doc_function_body(c, n, ie)));
        assert(well_nested(doc_expr(c, n, crate::precedence::OPERATOR_PRECEDENCE_YIELD, ie)));
    }
    assert forall|c: PrintContext, ie: bool| well_nested(#[trigger] doc_embedded(c, n, ie)) by {
        assert(well_nested(doc_node(c, n, ie)));
        lemma_embedded_frame(doc_node(c, n, ie));
        lemma_embedded_frame(t(";"@));
    }
    assert forall|c: PrintContext, ie: bool| well_nested(#[trigger] doc_iife(c, n, ie)) by {
    }
}

/// The document of a node without a child is well nested.
#[verifier::spinoff_prover]
proof fn lemma_leaf_docs_well_nested(n: Node)
    requires
        dispatch_group(n) == 0,
    ensures
        forall|c: PrintContext, ie: bool| well_nested(#[trigger] doc_node(c, n, ie)),
        n is Block ==> forall|c: PrintContext, ie: bool| well_nested(#[trigger] doc_function_body(c, n, ie)),
        n is CallExpression ==> forall|c: PrintContext, ie: bool| well_nested(#[trigger] doc_iife(c, n, ie)),
    decreases n, 0int, 1int,
{
    assert forall|c: PrintContext, ie: bool| well_nested(#[trigger] doc_node(c, n, ie)) by {
        lemma_piece_nesting();
    }
}

/// The document of an expression built around an operator, a member access, a call or `new` is well nested.
#[verifier::spinoff_prover]
proof fn lemma_operator_expression_docs_well_nested(n: Node)
    requires
        dispatch_group(n) == 1,
    ensures
        forall|c: PrintContext, ie: bool| well_nested(#[trigger] doc_node(c, n, ie)),
        n is Block ==> forall|c: PrintContext, ie: bool| well_nested(#[trigger] doc_function_body(c, n, ie)),
        n is CallExpression ==> forall|c: PrintContext, ie: bool| well_nested(#[trigger] doc_iife(c, n, ie)),
    decreases n, 0int, 3int,
{
    match n {
        Node::BinaryExpression { .. } => lemma_binary_expression_well_nested(n),
        Node::ConditionalExpression { .. } => lemma_conditional_expression_well_nested(n),
        Node::PrefixUnaryExpression { .. } => lemma_prefix_unary_expression_well_nested(n),
        Node::PostfixUnaryExpression { .. } => lemma_postfix_unary_expression_well_nested(n),
        Node::DeleteExpression(..) => lemma_keyword_operator_expression_well_nested(n),
        Node::VoidExpression(..) => lemma_keyword_operator_expression_well_nested(n),
        Node::TypeOfExpression(..) => lemma_keyword_operator_expression_well_nested(n),
        Node::AwaitExpression(..) => lemma_keyword_operator_expression_well_nested(n),
        Node::YieldExpression { .. } => lemma_yield_expression_well_nested(n),
        Node::PropertyAccessExpression { .. } => lemma_property_access_expression_well_nested(n),
        Node::ElementAccessExpression { .. } => lemma_element_access_expression_well_nested(n),
        Node::CallExpression { .. } => lemma_call_expression_well_nested(n),
        Node::NewExpression { .. } => lemma_new_expression_well_nested(n),
        _ => {},
    }
}

/// The document of one of the other expressions is well nested.
#[verifier::spinoff_prover]
proof fn lemma_primary_expression_docs_well_nested(n: Node)
    requires
        dispatch_group(n) == 2,
    ensures
        forall|c: PrintContext, ie: bool| well_nested(#[trigger] doc_node(c, n, ie)),
        n is Block ==> forall|c: PrintContext, ie: bool| well_nested(#[trigger] doc_function_body(c, n, ie)),
        n is CallExpression ==> forall|c: PrintContext, ie: bool| well_nested(#[trigger] doc_iife(c, n, ie)),
    decreases n, 0int, 3int,
{
    match n {
        Node::TaggedTemplateExpression { .. } => lemma_tagged_template_expression_well_nested(n),
        Node::ParenthesizedExpression(..) => lemma_parenthesized_well_nested(n),
        Node::ArrowFunction { .. } => lemma_arrow_function_well_nested(n),
        Node::FunctionExpression { .. } => lemma_function_expression_well_nested(n),
        Node::ClassExpression { .. } => lemma_class_well_nested(n),
        Node::ObjectLiteralExpression { .. } => lemma_object_literal_expression_well_nested(n),
        Node::ArrayLiteralExpression { .. } => lemma_array_literal_expression_well_nested(n),
        Node::SpreadElement(..) => lemma_spread_well_nested(n),
        Node::AsExpression { .. } => lemma_as_or_satisfies_expression_well_nested(n),
        Node::SatisfiesExpression { .. } => lemma_as_or_satisfies_expression_well_nested(n),
        Node::NonNullExpression(..) => lemma_non_null_or_type_assertion_well_nested(n),
        Node::TypeAssertionExpression { .. } => lemma_non_null_or_type_assertion_well_nested(n),
        Node::ExpressionWithTypeArguments { .. } => lemma_expression_with_type_arguments_well_nested(n),
        _ => {},
    }
}

/// The document of a member, a parameter or a decorator is well nested.
#[verifier::spinoff_prover]
proof fn lemma_member_docs_well_nested(n: Node)
    requires
        dispatch_group(n) == 3,
    ensures
        forall|c: PrintContext, ie: bool| well_nested(#[trigger] doc_node(c, n, ie)),
        n is Block ==> forall|c: PrintContext, ie: bool| well_nested(#[trigger] doc_function_body(c, n, ie)),
        n is CallExpression ==> forall|c: PrintContext, ie: bool| well_nested(#[trigger] doc_iife(c, n, ie)),
    decreases n, 0int, 3int,
{
    match n {
        Node::PropertyAssignment { .. } => lemma_property_names_well_nested(n),
        Node::SpreadAssignment(..) => lemma_spread_well_nested(n),
        Node::ComputedPropertyName(..) => lemma_property_names_well_nested(n),
        Node::Parameter { .. } => lemma_parameter_well_nested(n),
        Node::PropertyDeclaration { .. } => lemma_property_declaration_well_nested(n),
        Node::Decorator(..) => lemma_decorator_well_nested(n),
        _ => {},
    }
}

/// The document of a statement, a declaration or a source file is well nested.
#[verifier::spinoff_prover]
proof fn lemma_statement_docs_well_nested(n: Node)
    requires
        dispatch_group(n) == 4,
    ensures
        forall|c: PrintContext, ie: bool| well_nested(#[trigger] doc_node(c, n, ie)),
        n is Block ==> forall|c: PrintContext, ie: bool| well_nested(#[trigger] doc_function_body(c, n, ie)),
        n is CallExpression ==> forall|c: PrintContext, ie: bool| well_nested(#[trigger] doc_iife(c, n, ie)),
    decreases n, 0int, 3int,
{
    if n is ExpressionStatement || n is ExportAssignment || n is TypeAliasDeclaration || n is VariableStatement || n is VariableDeclaration || n is ReturnStatement {
        lemma_simple_statement_docs_well_nested(n);
    } else {
        lemma_compound_statement_docs_well_nested(n);
    }
}

/// The document of an expression statement, an export, a type alias, a variable statement or declaration, or a return is well nested.
#[verifier::spinoff_prover]
proof fn lemma_simple_statement_docs_well_nested(n: Node)
    requires
        n is ExpressionStatement || n is ExportAssignment || n is TypeAliasDeclaration || n is VariableStatement || n is VariableDeclaration || n is ReturnStatement,
    ensures
        forall|c: PrintContext, ie: bool| well_nested(#[trigger] doc_node(c, n, ie)),
        n is Block ==> forall|c: PrintContext, ie: bool| well_nested(#[trigger] doc_function_body(c, n, ie)),
        n is CallExpression ==> forall|c: PrintContext, ie: bool| well_nested(#[trigger] doc_iife(c, n, ie)),
    decreases n, 0int, 2int,
{
    match n {
        Node::ExpressionStatement(..) => lemma_expression_statement_well_nested(n),
        Node::ExportAssignment { .. } => lemma_export_assignment_well_nested(n),
        Node::TypeAliasDeclaration { .. } => lemma_type_alias_declaration_well_nested(n),
        Node::VariableStatement { .. } => lemma_variable_statement_well_nested(n),
        Node::VariableDeclaration { .. } => lemma_variable_declaration_well_nested(n),
        Node::ReturnStatement(..) => lemma_return_statement_well_nested(n),
        _ => {},
    }
}

/// The document of an `if`, a block, a function or class declaration or a source file is well nested.
#[verifier::spinoff_prover]
proof fn lemma_compound_statement_docs_well_nested(n: Node)
    requires
        n is IfStatement || n is Block || n is FunctionDeclaration || n is ClassDeclaration || n is SourceFile,
    ensures
        forall|c: PrintContext, ie: bool| well_nested(#[trigger] doc_node(c, n, ie)),
        n is Block ==> forall|c: PrintContext, ie: bool| well_nested(#[trigger] doc_function_body(c, n, ie)),
        n is CallExpression ==> forall|c: PrintContext, ie: bool| well_nested(#[trigger] doc_iife(c, n, ie)),
    decreases n, 0int, 2int,
{
    match n {
        Node::IfStatement { .. } => lemma_if_statement_well_nested(n),
        Node::Block { .. } => lemma_block_well_nested(n),
        Node::FunctionDeclaration { .. } => lemma_function_declaration_well_nested(n),
        Node::ClassDeclaration { .. } => lemma_class_well_nested(n),
        Node::SourceFile { .. } => lemma_source_file_node_well_nested(n),
        _ => {},
    }
}

/// The document of a type is well nested.
#[verifier::spinoff_prover]
proof fn lemma_type_docs_well_nested(n: Node)
    requires
        dispatch_group(n) == 5,
    ensures
        forall|c: PrintContext, ie: bool| well_nested(#[trigger] doc_node(c, n, ie)),
        n is Block ==> forall|c: PrintContext, ie: bool| well_nested(#[trigger] doc_function_body(c, n, ie)),
        n is CallExpression ==> forall|c: PrintContext, ie: bool| well_nested(#[trigger] doc_iife(c, n, ie)),
    decreases n, 0int, 3int,
{
    match n {
        Node::TypeReference { .. } => lemma_type_reference_well_nested(n),
        Node::TypeQuery { .. } => lemma_type_reference_well_nested(n),
        Node::UnionType(..) => lemma_union_or_intersection_type_well_nested(n),
        Node::IntersectionType(..) => lemma_union_or_intersection_type_well_nested(n),
        Node::ArrayType(..) => lemma_postfix_type_well_nested(n),
        Node::TupleType { .. } => lemma_tuple_type_well_nested(n),
        Node::OptionalType(..) => lemma_postfix_type_well_nested(n),
        Node::RestType(..) => lemma_postfix_type_well_nested(n),
        Node::FunctionType { .. } => lemma_function_type_well_nested(n),
        Node::InferType { .. } => lemma_infer_type_well_nested(n),
        Node::TypeOperator { .. } => lemma_type_operator_well_nested(n),
        Node::IndexedAccessType { .. } => lemma_indexed_access_type_well_nested(n),
        Node::ConditionalType { .. } => lemma_conditional_type_well_nested(n),
        Node::ParenthesizedType(..) => lemma_parenthesized_well_nested(n),
        _ => {},
    }
}

/// The document of a loop or of another statement that steers control is well nested.
#[verifier::spinoff_prover]
proof fn lemma_control_statement_docs_well_nested(n: Node)
    requires
        dispatch_group(n) == 6,
    ensures
        forall|c: PrintContext, ie: bool| well_nested(#[trigger] doc_node(c, n, ie)),
        n is Block ==> forall|c: PrintContext, ie: bool| well_nested(#[trigger] doc_function_body(c, n, ie)),
        n is CallExpression ==> forall|c: PrintContext, ie: bool| well_nested(#[trigger] doc_iife(c, n, ie)),
    decreases n, 0int, 3int,
{
    match n {
        Node::DoStatement { .. } => lemma_loop_statement_well_nested(n),
        Node::WhileStatement { .. } => lemma_loop_statement_well_nested(n),
        Node::ForStatement { .. } => lemma_for_statement_well_nested(n),
        Node::ForInStatement { .. } => lemma_for_in_or_of_statement_well_nested(n),
        Node::ForOfStatement { .. } => lemma_for_in_or_of_statement_well_nested(n),
        Node::ContinueStatement(..) => lemma_jump_statement_well_nested(n),
        Node::BreakStatement(..) => lemma_jump_statement_well_nested(n),
        Node::ThrowStatement(..) => lemma_jump_statement_well_nested(n),
        Node::TryStatement { .. } => lemma_try_statement_well_nested(n),
        Node::LabeledStatement { .. } => lemma_labeled_or_with_statement_well_nested(n),
        Node::WithStatement { .. } => lemma_labeled_or_with_statement_well_nested(n),
        _ => {},
    }
}

/// The document of a clause, a `switch` statement or a declaration list is well nested.
#[verifier::spinoff_prover]
proof fn lemma_clause_docs_well_nested(n: Node)
    requires
        dispatch_group(n) == 7,
    ensures
        forall|c: PrintContext, ie: bool| well_nested(#[trigger] doc_node(c, n, ie)),
        n is Block ==> forall|c: PrintContext, ie: bool| well_nested(#[trigger] doc_function_body(c, n, ie)),
        n is CallExpression ==> forall|c: PrintContext, ie: bool| well_nested(#[trigger] doc_iife(c, n, ie)),
    decreases n, 0int, 3int,
{
    match n {
        Node::CatchClause { .. } => lemma_catch_clause_well_nested(n),
        Node::SwitchStatement { .. } => lemma_switch_statement_well_nested(n),
        Node::CaseClause { .. } => lemma_case_or_default_clause_well_nested(n),
        Node::DefaultClause { .. } => lemma_case_or_default_clause_well_nested(n),
        Node::VariableDeclarationList { .. } => lemma_variable_declaration_list_well_nested(n),
        _ => {},
    }
}

/// The document of a signature or of a part of a declaration is well nested.
#[verifier::spinoff_prover]
proof fn lemma_signature_docs_well_nested(n: Node)
    requires
        dispatch_group(n) == 8,
    ensures
        forall|c: PrintContext, ie: bool| well_nested(#[trigger] doc_node(c, n, ie)),
        n is Block ==> forall|c: PrintContext, ie: bool| well_nested(#[trigger] doc_function_body(c, n, ie)),
        n is CallExpression ==> forall|c: PrintContext, ie: bool| well_nested(#[trigger] doc_iife(c, n, ie)),
    decreases n, 0int, 3int,
{
    match n {
        Node::TypeParameter { .. } => lemma_type_parameter_well_nested(n),
        Node::HeritageClause { .. } => lemma_heritage_clause_well_nested(n),
        Node::PropertySignature { .. } => lemma_signature_well_nested(n),
        Node::MethodSignature { .. } => lemma_signature_well_nested(n),
        Node::EnumMember { .. } => lemma_enum_well_nested(n),
        _ => {},
    }
}

/// The document of a class member, or of a declaration or type that holds
/// members, is well nested.
#[verifier::spinoff_prover]
proof fn lemma_member_holder_docs_well_nested(n: Node)
    requires
        dispatch_group(n) == 9,
    ensures
        forall|c: PrintContext, ie: bool| well_nested(#[trigger] doc_node(c, n, ie)),
        n is Block ==> forall|c: PrintContext, ie: bool| well_nested(#[trigger] doc_function_body(c, n, ie)),
        n is CallExpression ==> forall|c: PrintContext, ie: bool| well_nested(#[trigger] doc_iife(c, n, ie)),
    decreases n, 0int, 3int,
{
    match n {
        Node::MethodDeclaration { .. } => lemma_method_like_well_nested(n),
        Node::Constructor { .. } => lemma_method_like_well_nested(n),
        Node::GetAccessor { .. } => lemma_method_like_well_nested(n),
        Node::SetAccessor { .. } => lemma_method_like_well_nested(n),
        Node::InterfaceDeclaration { .. } => lemma_interface_declaration_well_nested(n),
        Node::TypeLiteral { .. } => lemma_type_literal_well_nested(n),
        Node::EnumDeclaration { .. } => lemma_enum_well_nested(n),
        Node::MappedType { .. } => lemma_mapped_type_well_nested(n),
        _ => {},
    }
}

/// A part of a document between the indentation and line breaks kept for a
/// source line break and the step back out is well nested.
proof fn lemma_kept_break_well_nested(lines: int, space: bool, x: Seq<Piece>)
    requires
        well_nested(x),
        lines == 0 || lines == 1,
    ensures
        well_nested(lines_and_indent_doc(lines, space) + x + break_dedent_doc(lines)),
{
    lemma_piece_nesting();
    let p = lines_and_indent_doc(lines, space);
    let d = break_dedent_doc(lines);
    if lines > 0 {
        assert(p =~= seq![Piece::Indent, Piece::Line]);
    } else if space {
        lemma_flat_well_nested(p);
    } else {
        assert(p =~= Seq::<Piece>::empty());
    }
    lemma_nesting_concat(p, x);
    lemma_nesting_concat(p + x, d);
}

/// An operand, kept line breaks and indentation around an operator, and the
/// operand after it are well nested together.
proof fn lemma_operator_parts_well_nested(
    l: Seq<Piece>,
    p1: Seq<Piece>,
    o: Seq<Piece>,
    la: int,
    r: Seq<Piece>,
    lb: int,
    space: bool,
)
    requires
        well_nested(l),
        well_nested(r),
        o.len() == 1,
        o[0] is Text,
        la == 0 || la == 1,
        lb == 0 || lb == 1,
        p1 == lines_and_indent_doc(lb, space),
    ensures
        well_nested(l + p1 + o + lines_and_indent_doc(la, true) + r + break_dedent_doc(la) + break_dedent_doc(lb)),
{
    lemma_piece_nesting();
    lemma_flat_well_nested(o);
    lemma_kept_break_well_nested(la, true, r);
    let w2 = lines_and_indent_doc(la, true) + r + break_dedent_doc(la);
    lemma_nesting_concat(o, w2);
    lemma_kept_break_well_nested(lb, space, o + w2);
    let w1 = p1 + (o + w2) + break_dedent_doc(lb);
    lemma_nesting_concat(l, w1);
    assert(l + p1 + o + lines_and_indent_doc(la, true) + r + break_dedent_doc(la) + break_dedent_doc(lb) =~= l + w1);
}

/// The document of a binary expression node is well nested.
#[verifier::spinoff_prover]
proof fn lemma_binary_expression_well_nested(n: Node)
    requires
        n is BinaryExpression,
    ensures
        forall|c: PrintContext, ie: bool| well_nested(#[trigger] doc_binary_expression(c, n, ie)),
        forall|c: PrintContext, ie: bool| well_nested(#[trigger] doc_node(c, n, ie)),
    decreases n, 0int, 1int,
{
    match n {
        Node::BinaryExpression { left, right, .. } => {
            lemma_node_docs_well_nested(*left);
            lemma_node_docs_well_nested(*right);
        },
        _ => {},
    }
    assert forall|c: PrintContext, ie: bool| well_nested(#[trigger] doc_binary_expression(c, n, ie)) by {
        lemma_piece_nesting();
        match n {
            Node::BinaryExpression {
                left,
                operator,
                right,
                line_break_before_operator,
                line_break_after_operator,
            } => {
                let (lp, rp) = binary_operand_precedences(*left, operator, *right);
                let l = doc_expr(c, *left, lp, ie);
                let r = doc_expr(c, *right, rp, ie);
                assert(well_nested(l));
                assert(well_nested(r));
                lemma_operator_parts_well_nested(
                    l,
                    lines_and_indent_doc(kept_line_break(c, line_break_before_operator), operator != BinaryOperator::Comma),
                    t(binary_operator_text(operator)),
                    kept_line_break(c, line_break_after_operator),
                    r,
                    kept_line_break(c, line_break_before_operator),
                    operator != BinaryOperator::Comma,
                );
            },
            _ => {},
        }
    }
    assert forall|c: PrintContext, ie: bool| well_nested(#[trigger] doc_node(c, n, ie)) by {
        assert(well_nested(doc_binary_expression(c, n, ie)));
    }
}

/// The document of a conditional expression node is well nested.
#[verifier::spinoff_prover]
proof fn lemma_conditional_expression_well_nested(n: Node)
    requires
        n is ConditionalExpression,
    ensures
        forall|c: PrintContext, ie: bool| well_nested(#[trigger] doc_conditional_expression(c, n, ie)),
        forall|c: PrintContext, ie: bool| well_nested(#[trigger] doc_node(c, n, ie)),
    decreases n, 0int, 1int,
{
    match n {
        Node::ConditionalExpression { condition, when_true, when_false, .. } => {
            lemma_node_docs_well_nested(*condition);
            lemma_node_docs_well_nested(*when_true);
            lemma_node_docs_well_nested(*when_false);
        },
        _ => {},
    }
    assert forall|c: PrintContext, ie: bool| well_nested(#[trigger] doc_conditional_expression(c, n, ie)) by {
        lemma_piece_nesting();
        match n {
            Node::ConditionalExpression {
                condition,
                when_true,
                when_false,
                line_break_before_question,
                line_break_after_question,
                line_break_before_colon,
                line_break_after_colon,
            } => {
                let cp = if is_binary_with(*condition, BinaryOperator::QuestionQuestion) {
                    OPERATOR_PRECEDENCE_COALESCE
                } else {
                    OPERATOR_PRECEDENCE_LOGICAL_OR
                };
                let bq = kept_line_break(c, line_break_before_question);
                let aq = kept_line_break(c, line_break_after_question);
                let bc = kept_line_break(c, line_break_before_colon);
                let ac = kept_line_break(c, line_break_after_colon);
                let e = doc_expr(c, *condition, cp, ie);
                let wt = doc_expr(c, *when_true, OPERATOR_PRECEDENCE_YIELD, ie);
                let wf = doc_expr(c, *when_false, OPERATOR_PRECEDENCE_YIELD, ie);
                assert(well_nested(e));
                assert(well_nested(wt));
                assert(well_nested(wf));
                lemma_operator_parts_well_nested(e, lines_and_indent_doc(bq, true), t("?"@), aq, wt, bq, true);
                let first = e + lines_and_indent_doc(bq, true) + t("?"@) + lines_and_indent_doc(aq, true) + wt
                    + break_dedent_doc(aq) + break_dedent_doc(bq);
                lemma_operator_parts_well_nested(first, lines_and_indent_doc(bc, true), t(":"@), ac, wf, bc, true);
            },
            _ => {},
        }
    }
    assert forall|c: PrintContext, ie: bool| well_nested(#[trigger] doc_node(c, n, ie)) by {
        assert(well_nested(doc_conditional_expression(c, n, ie)));
    }
}

/// The document of a prefix unary expression node is well nested.
#[verifier::spinoff_prover]
proof fn lemma_prefix_unary_expression_well_nested(n: Node)
    requires
        n is PrefixUnaryExpression,
    ensures
        forall|c: PrintContext, ie: bool| well_nested(#[trigger] doc_prefix_unary_expression(c, n, ie)),
        forall|c: PrintContext, ie: bool| well_nested(#[trigger] doc_node(c, n, ie)),
    decreases n, 0int, 1int,
{
    match n {
        Node::PrefixUnaryExpression { operand, .. } => {
            lemma_node_docs_well_nested(*operand);
        },
        _ => {},
    }
    assert forall|c: PrintContext, ie: bool| well_nested(#[trigger] doc_prefix_unary_expression(c, n, ie)) by {
        lemma_piece_nesting();
        match n {
            Node::PrefixUnaryExpression { operator, operand } => {
                assert(doc_prefix_unary_expression(c, n, ie) == (t(prefix_operator_text(operator)) + (
                if prefix_needs_space(operator, *operand) {
                    t(" "@)
                } else {
                    Seq::empty()
                }) + doc_expr(c, *operand, OPERATOR_PRECEDENCE_UNARY, ie)));
            },
            _ => {},
        }
    }
    assert forall|c: PrintContext, ie: bool| well_nested(#[trigger] doc_node(c, n, ie)) by {
        assert(well_nested(doc_prefix_unary_expression(c, n, ie)));
    }
}

/// The document of a postfix unary expression node is well nested.
#[verifier::spinoff_prover]
proof fn lemma_postfix_unary_expression_well_nested(n: Node)
    requires
        n is PostfixUnaryExpression,
    ensures
        forall|c: PrintContext, ie: bool| well_nested(#[trigger] doc_postfix_unary_expression(c, n, ie)),
        forall|c: PrintContext, ie: bool| well_nested(#[trigger] doc_node(c, n, ie)),
    decreases n, 0int, 1int,
{
    match n {
        Node::PostfixUnaryExpression { operand, .. } => {
            lemma_node_docs_well_nested(*operand);
        },
        _ => {},
    }
    assert forall|c: PrintContext, ie: bool| well_nested(#[trigger] doc_postfix_unary_expression(c, n, ie)) by {
        lemma_piece_nesting();
        match n {
            Node::PostfixUnaryExpression { operand, operator } => {
                assert(doc_postfix_unary_expression(c, n, ie) == (doc_expr(
                    c,
                    *operand,
                    OPERATOR_PRECEDENCE_UPDATE,
                    ie,
                ) + t(postfix_operator_text(operator))));
            },
            _ => {},
        }
    }
    assert forall|c: PrintContext, ie: bool| well_nested(#[trigger] doc_node(c, n, ie)) by {
        assert(well_nested(doc_postfix_unary_expression(c, n, ie)));
    }
}

/// The document of a keyword operator expression node is well nested.
#[verifier::spinoff_prover]
proof fn lemma_keyword_operator_expression_well_nested(n: Node)
    requires
        n is DeleteExpression || n is VoidExpression || n is TypeOfExpression || n is AwaitExpression,
    ensures
        forall|c: PrintContext, ie: bool| well_nested(#[trigger] doc_keyword_operator_expression(c, n, ie)),
        forall|c: PrintContext, ie: bool| well_nested(#[trigger] doc_node(c, n, ie)),
    decreases n, 0int, 1int,
{
    match n {
        Node::DeleteExpression(f0) => {
            lemma_node_docs_well_nested(*f0);
        },
        Node::VoidExpression(f0) => {
            lemma_node_docs_well_nested(*f0);
        },
        Node::TypeOfExpression(f0) => {
            lemma_node_docs_well_nested(*f0);
        },
        Node::AwaitExpression(f0) => {
            lemma_node_docs_well_nested(*f0);
        },
        _ => {},
    }
    assert forall|c: PrintContext, ie: bool| well_nested(#[trigger] doc_keyword_operator_expression(c, n, ie)) by {
        lemma_piece_nesting();
        match n {
            Node::DeleteExpression(e) => {
                assert(doc_keyword_operator_expression(c, n, ie) == (t("delete"@) + t(" "@) + doc_expr(
                    c,
                    *e,
                    OPERATOR_PRECEDENCE_UNARY,
                    ie,
                )));
            },
            Node::VoidExpression(e) => {
                assert(doc_keyword_operator_expression(c, n, ie) == (t("void"@) + t(" "@) + doc_expr(
                    c,
                    *e,
                    OPERATOR_PRECEDENCE_UNARY,
                    ie,
                )));
            },
            Node::TypeOfExpression(e) => {
                assert(doc_keyword_operator_expression(c, n, ie) == (t("typeof"@) + t(" "@) + doc_expr(
                    c,
                    *e,
                    OPERATOR_PRECEDENCE_UNARY,
                    ie,
                )));
            },
            Node::AwaitExpression(e) => {
                assert(doc_keyword_operator_expression(c, n, ie) == (t("await"@) + t(" "@) + doc_expr(
                    c,
                    *e,
                    OPERATOR_PRECEDENCE_UNARY,
                    ie,
                )));
            },
            _ => {},
        }
    }
    assert forall|c: PrintContext, ie: bool| well_nested(#[trigger] doc_node(c, n, ie)) by {
        assert(well_nested(doc_keyword_operator_expression(c, n, ie)));
    }
}

/// The document of a yield expression node is well nested.
#[verifier::spinoff_prover]
proof fn lemma_yield_expression_well_nested(n: Node)
    requires
        n is YieldExpression,
    ensures
        forall|c: PrintContext, ie: bool| well_nested(#[trigger] doc_yield_expression(c, n, ie)),
        forall|c: PrintContext, ie: bool| well_nested(#[trigger] doc_node(c, n, ie)),
    decreases n, 0int, 1int,
{
    match n {
        Node::YieldExpression { expression, .. } => {
            match expression {
                Option::Some(x) => lemma_node_docs_well_nested(*x),
                Option::None => {},
            }
        },
        _ => {},
    }
    assert forall|c: PrintContext, ie: bool| well_nested(#[trigger] doc_yield_expression(c, n, ie)) by {
        lemma_piece_nesting();
        match n {
            Node::YieldExpression { asterisk, expression } => {
                assert(doc_yield_expression(c, n, ie) == (t("yield"@) + (if asterisk {
                    t("*"@)
                } else {
                    Seq::empty()
                }) + match expression {
                    Option::Some(e) => t(" "@) + doc_expr(c, *e, OPERATOR_PRECEDENCE_DISALLOW_COMMA, ie),
                    Option::None => Seq::empty(),
                }));
            },
            _ => {},
        }
    }
    assert forall|c: PrintContext, ie: bool| well_nested(#[trigger] doc_node(c, n, ie)) by {
        assert(well_nested(doc_yield_expression(c, n, ie)));
    }
}

/// Line breaks kept before a part of a document, then one step into the
/// indentation around the part and one back out, are well nested.
proof fn lemma_kept_indent_well_nested(lines: int, x: Seq<Piece>)
    requires
        well_nested(x),
        lines == 0 || lines == 1,
    ensures
        well_nested(lines_doc(lines) + break_indent_doc(lines) + x + break_dedent_doc(lines)),
{
    lemma_piece_nesting();
    let p = lines_doc(lines) + break_indent_doc(lines);
    if lines > 0 {
        assert(p =~= seq![Piece::Line] + seq![Piece::Indent]);
        lemma_nesting_concat(seq![Piece::Line], seq![Piece::Indent]);
    } else {
        assert(p =~= Seq::<Piece>::empty());
    }
    lemma_nesting_concat(p, x);
    lemma_nesting_concat(p + x, break_dedent_doc(lines));
}

/// An expression, kept line breaks and indentation around a dot, and the name
/// after it are well nested together.
proof fn lemma_dot_parts_well_nested(
    e: Seq<Piece>,
    bd: int,
    dd: Seq<Piece>,
    dot: Seq<Piece>,
    ad: int,
    nm: Seq<Piece>,
)
    requires
        well_nested(e),
        bd == 0 || bd == 1,
        ad == 0 || ad == 1,
        dd.len() <= 1,
        dd.len() == 1 ==> dd[0] is Text,
        dot.len() == 1,
        dot[0] is Text,
        nm.len() == 1,
        nm[0] is Text,
    ensures
        well_nested(e + lines_doc(bd) + break_indent_doc(bd) + dd + dot + lines_doc(ad) + break_indent_doc(ad)
            + nm + break_dedent_doc(ad) + break_dedent_doc(bd)),
{
    lemma_piece_nesting();
    lemma_flat_well_nested(nm);
    lemma_flat_well_nested(dd);
    lemma_flat_well_nested(dot);
    lemma_kept_indent_well_nested(ad, nm);
    let w2 = lines_doc(ad) + break_indent_doc(ad) + nm + break_dedent_doc(ad);
    lemma_nesting_concat(dd, dot);
    lemma_nesting_concat(dd + dot, w2);
    let x = dd + dot + w2;
    lemma_kept_indent_well_nested(bd, x);
    let w1 = lines_doc(bd) + break_indent_doc(bd) + x + break_dedent_doc(bd);
    lemma_nesting_concat(e, w1);
    assert(e + lines_doc(bd) + break_indent_doc(bd) + dd + dot + lines_doc(ad) + break_indent_doc(ad) + nm
        + break_dedent_doc(ad) + break_dedent_doc(bd) =~= e + w1);
}

/// The document of a property access node is well nested.
#[verifier::spinoff_prover]
proof fn lemma_property_access_expression_well_nested(n: Node)
    requires
        n is PropertyAccessExpression,
    ensures
        forall|c: PrintContext, ie: bool| well_nested(#[trigger] doc_property_access_expression(c, n, ie)),
        forall|c: PrintContext, ie: bool| well_nested(#[trigger] doc_node(c, n, ie)),
    decreases n, 0int, 1int,
{
    match n {
        Node::PropertyAccessExpression { expression, .. } => {
            lemma_node_docs_well_nested(*expression);
        },
        _ => {},
    }
    assert forall|c: PrintContext, ie: bool| well_nested(#[trigger] doc_property_access_expression(c, n, ie)) by {
        lemma_piece_nesting();
        match n {
            Node::PropertyAccessExpression {
                expression,
                name,
                question_dot,
                optional_chain,
                line_break_before_dot,
                line_break_after_dot,
            } => {
                let p = if is_new_without_arguments(*expression) {
                    OPERATOR_PRECEDENCE_PARENTHESES
                } else if optional_chain {
                    OPERATOR_PRECEDENCE_OPTIONAL_CHAIN
                } else {
                    OPERATOR_PRECEDENCE_MEMBER
                };
                let e = doc_expr(c, *expression, p, ie);
                assert(well_nested(e));
                let bd = kept_line_break(c, line_break_before_dot);
                lemma_dot_parts_well_nested(
                    e,
                    bd,
                    if !question_dot && needs_dot_dot(*expression) && bd == 0 {
                        t("."@)
                    } else {
                        Seq::empty()
                    },
                    if question_dot {
                        t("?."@)
                    } else {
                        t("."@)
                    },
                    kept_line_break(c, line_break_after_dot),
                    t(name@),
                );
            },
            _ => {},
        }
    }
    assert forall|c: PrintContext, ie: bool| well_nested(#[trigger] doc_node(c, n, ie)) by {
        assert(well_nested(doc_property_access_expression(c, n, ie)));
    }
}

/// The document of a element access expression node is well nested.
#[verifier::spinoff_prover]
proof fn lemma_element_access_expression_well_nested(n: Node)
    requires
        n is ElementAccessExpression,
    ensures
        forall|c: PrintContext, ie: bool| well_nested(#[trigger] doc_element_access_expression(c, n, ie)),
        forall|c: PrintContext, ie: bool| well_nested(#[trigger] doc_node(c, n, ie)),
    decreases n, 0int, 1int,
{
    match n {
        Node::ElementAccessExpression { expression, argument, .. } => {
            lemma_node_docs_well_nested(*expression);
            lemma_node_docs_well_nested(*argument);
        },
        _ => {},
    }
    assert forall|c: PrintContext, ie: bool| well_nested(#[trigger] doc_element_access_expression(c, n, ie)) by {
        lemma_piece_nesting();
        match n {
            Node::ElementAccessExpression { expression, argument, question_dot, optional_chain } => {
                assert(doc_element_access_expression(c, n, ie) == ({
                    let p = if optional_chain {
                        OPERATOR_PRECEDENCE_OPTIONAL_CHAIN
                    } else {
                        OPERATOR_PRECEDENCE_MEMBER
                    };
                    doc_expr(c, *expression, p, ie) + (if question_dot {
                        t("?."@)
                    } else {
                        Seq::empty()
                    }) + t("["@) + doc_expr(c, *argument, OPERATOR_PRECEDENCE_COMMA, ie) + t("]"@)
                }));
            },
            _ => {},
        }
    }
    assert forall|c: PrintContext, ie: bool| well_nested(#[trigger] doc_node(c, n, ie)) by {
        assert(well_nested(doc_element_access_expression(c, n, ie)));
    }
}

/// The document of a call expression node is well nested.
#[verifier::spinoff_prover]
proof fn lemma_call_expression_well_nested(n: Node)
    requires
        n is CallExpression,
    ensures
        forall|c: PrintContext, ie: bool| well_nested(#[trigger] doc_call_expression(c, n, ie)),
        forall|c: PrintContext, ie: bool| well_nested(#[trigger] doc_node(c, n, ie)),
        forall|c: PrintContext, ie: bool| well_nested(#[trigger] doc_iife(c, n, ie)),
    decreases n, 0int, 1int,
{
    match n {
        Node::CallExpression { expression, type_arguments, arguments, .. } => {
            lemma_node_docs_well_nested(*expression);
            lemma_nodes_docs_well_nested(type_arguments@);
            lemma_nodes_docs_well_nested(arguments@);
        },
        _ => {},
    }
    assert forall|c: PrintContext, ie: bool| well_nested(#[trigger] doc_call_expression(c, n, ie)) by {
        lemma_piece_nesting();
        match n {
            Node::CallExpression { expression, type_arguments, arguments, question_dot, optional_chain } => {
                assert(doc_call_expression(c, n, ie) == ({
                    let p = if is_new_without_arguments(*expression) {
                        OPERATOR_PRECEDENCE_PARENTHESES
                    } else if optional_chain {
                        OPERATOR_PRECEDENCE_OPTIONAL_CHAIN
                    } else {
                        OPERATOR_PRECEDENCE_MEMBER
                    };
                    doc_expr(c, *expression, p, ie) + (if question_dot {
                        t("?."@)
                    } else {
                        Seq::empty()
                    }) + doc_list(
                        c,
                        type_arguments@,
                        0,
                        type_arguments@.len() as int,
                        ListFormat(FORMAT_TYPE_ARGUMENTS),
                        false,
                        ChildMode::TypeOutsideExtends,
                        ie,
                    ) + doc_list(
                        c,
                        arguments@,
                        0,
                        arguments@.len() as int,
                        ListFormat(FORMAT_CALL_ARGUMENTS),
                        false,
                        ChildMode::Expression(OPERATOR_PRECEDENCE_SPREAD),
                        ie,
                    )
                }));
            },
            _ => {},
        }
    }
    assert forall|c: PrintContext, ie: bool| well_nested(#[trigger] doc_iife(c, n, ie)) by {
        lemma_piece_nesting();
        match n {
            Node::CallExpression { expression, type_arguments, arguments, question_dot, .. } => {
                assert(doc_iife(c, n, ie) == (t(
                    "("@,
                ) + doc_expr(c, *expression, OPERATOR_PRECEDENCE_LOWEST, ie) + t(")"@) + (if question_dot {
                    t("?."@)
                } else {
                    Seq::empty()
                }) + doc_list(
                    c,
                    type_arguments@,
                    0,
                    type_arguments@.len() as int,
                    ListFormat(FORMAT_TYPE_ARGUMENTS),
                    false,
                    ChildMode::TypeOutsideExtends,
                    ie,
                ) + doc_list(
                    c,
                    arguments@,
                    0,
                    arguments@.len() as int,
                    ListFormat(FORMAT_CALL_ARGUMENTS),
                    false,
                    ChildMode::Plain,
                    ie,
                )));
            },
            _ => {},
        }
    }
    assert forall|c: PrintContext, ie: bool| well_nested(#[trigger] doc_node(c, n, ie)) by {
        assert(well_nested(doc_call_expression(c, n, ie)));
    }
}

/// The document of a new expression node is well nested.
#[verifier::spinoff_prover]
proof fn lemma_new_expression_well_nested(n: Node)
    requires
        n is NewExpression,
    ensures
        forall|c: PrintContext, ie: bool| well_nested(#[trigger] doc_new_expression(c, n, ie)),
        forall|c: PrintContext, ie: bool| well_nested(#[trigger] doc_node(c, n, ie)),
    decreases n, 0int, 1int,
{
    match n {
        Node::NewExpression { expression, type_arguments, arguments, .. } => {
            lemma_node_docs_well_nested(*expression);
            lemma_nodes_docs_well_nested(type_arguments@);
            match arguments {
                Option::Some(x) => lemma_nodes_docs_well_nested(x@),
                Option::None => {},
            }
        },
        _ => {},
    }
    assert forall|c: PrintContext, ie: bool| well_nested(#[trigger] doc_new_expression(c, n, ie)) by {
        lemma_piece_nesting();
        match n {
            Node::NewExpression { expression, type_arguments, arguments } => {
                assert(doc_new_expression(c, n, ie) == ({
                    let p = if *expression is CallExpression {
                        OPERATOR_PRECEDENCE_PARENTHESES
                    } else {
                        OPERATOR_PRECEDENCE_MEMBER
                    };
                    t("new"@) + t(" "@) + doc_expr(c, *expression, p, ie) + doc_list(
                        c,
                        type_arguments@,
                        0,
                        type_arguments@.len() as int,
                        ListFormat(FORMAT_TYPE_ARGUMENTS),
                        false,
                        ChildMode::TypeOutsideExtends,
                        ie,
                    ) + match arguments {
                        Option::Some(a) => doc_list(
                            c,
                            a@,
                            0,
                            a@.len() as int,
                            ListFormat(FORMAT_NEW_ARGUMENTS),
                            false,
                            ChildMode::Expression(OPERATOR_PRECEDENCE_SPREAD),
                            ie,
                        ),
                        Option::None => Seq::empty(),
                    }
                }));
            },
            _ => {},
        }
    }
    assert forall|c: PrintContext, ie: bool| well_nested(#[trigger] doc_node(c, n, ie)) by {
        assert(well_nested(doc_new_expression(c, n, ie)));
    }
}

/// The document of a tagged template expression node is well nested.
#[verifier::spinoff_prover]
proof fn lemma_tagged_template_expression_well_nested(n: Node)
    requires
        n is TaggedTemplateExpression,
    ensures
        forall|c: PrintContext, ie: bool| well_nested(#[trigger] doc_tagged_template_expression(c, n, ie)),
        forall|c: PrintContext, ie: bool| well_nested(#[trigger] doc_node(c, n, ie)),
    decreases n, 0int, 1int,
{
    match n {
        Node::TaggedTemplateExpression { tag, type_arguments, template, .. } => {
            lemma_node_docs_well_nested(*tag);
            lemma_nodes_docs_well_nested(type_arguments@);
            lemma_node_docs_well_nested(*template);
        },
        _ => {},
    }
    assert forall|c: PrintContext, ie: bool| well_nested(#[trigger] doc_tagged_template_expression(c, n, ie)) by {
        lemma_piece_nesting();
        match n {
            Node::TaggedTemplateExpression { tag, type_arguments, template } => {
                assert(doc_tagged_template_expression(c, n, ie) == (doc_expr(
                    c,
                    *tag,
                    OPERATOR_PRECEDENCE_MEMBER,
                    ie,
                ) + doc_list(
                    c,
                    type_arguments@,
                    0,
                    type_arguments@.len() as int,
                    ListFormat(FORMAT_TYPE_ARGUMENTS),
                    false,
                    ChildMode::TypeOutsideExtends,
                    ie,
                ) + t(" "@) + doc_node(c, *template, ie)));
            },
            _ => {},
        }
    }
    assert forall|c: PrintContext, ie: bool| well_nested(#[trigger] doc_node(c, n, ie)) by {
        assert(well_nested(doc_tagged_template_expression(c, n, ie)));
    }
}

/// The type parameters, parameters and return type of a function-like node
/// are well nested.
#[verifier::spinoff_prover]
proof fn lemma_signature_like_well_nested(n: Node)
    requires
        n is FunctionDeclaration || n is FunctionExpression || n is MethodDeclaration
            || n is MethodSignature || n is ArrowFunction || n is CallSignature
            || n is ConstructSignature,
    ensures
        forall|c: PrintContext, ie: bool| well_nested(#[trigger] signature_like_doc(c, n, ie)),
    decreases n, 0int, 0int,
{
    match n {
        Node::FunctionDeclaration { type_parameters, parameters, type_node, .. } => {
            lemma_nodes_docs_well_nested(type_parameters@);
            lemma_nodes_docs_well_nested(parameters@);
            lemma_type_annotation_well_nested(type_node);
            assert forall|c: PrintContext, ie: bool| well_nested(#[trigger] signature_like_doc(c, n, ie)) by {
                assert(well_nested(type_parameters_doc(c, type_parameters@, ie))) by {
                    assert(well_nested(doc_list(
                        c,
                        type_parameters@,
                        0,
                        type_parameters@.len() as int,
                        ListFormat(FORMAT_TYPE_PARAMETERS),
                        false,
                        ChildMode::Plain,
                        ie,
                    )));
                }
                assert(well_nested(parameters_doc(c, parameters@, ie))) by {
                    assert(well_nested(doc_list(
                        c,
                        parameters@,
                        0,
                        parameters@.len() as int,
                        ListFormat(FORMAT_PARAMETERS),
                        false,
                        ChildMode::Plain,
                        ie,
                    )));
                }
                assert(well_nested(type_annotation_doc(c, type_node)));
            }
        },
        Node::FunctionExpression { type_parameters, parameters, type_node, .. } => {
            lemma_nodes_docs_well_nested(type_parameters@);
            lemma_nodes_docs_well_nested(parameters@);
            lemma_type_annotation_well_nested(type_node);
            assert forall|c: PrintContext, ie: bool| well_nested(#[trigger] signature_like_doc(c, n, ie)) by {
                assert(well_nested(type_parameters_doc(c, type_parameters@, ie))) by {
                    assert(well_nested(doc_list(
                        c,
                        type_parameters@,
                        0,
                        type_parameters@.len() as int,
                        ListFormat(FORMAT_TYPE_PARAMETERS),
                        false,
                        ChildMode::Plain,
                        ie,
                    )));
                }
                assert(well_nested(parameters_doc(c, parameters@, ie))) by {
                    assert(well_nested(doc_list(
                        c,
                        parameters@,
                        0,
                        parameters@.len() as int,
                        ListFormat(FORMAT_PARAMETERS),
                        false,
                        ChildMode::Plain,
                        ie,
                    )));
                }
                assert(well_nested(type_annotation_doc(c, type_node)));
            }
        },
        Node::MethodDeclaration { type_parameters, parameters, type_node, .. } => {
            lemma_nodes_docs_well_nested(type_parameters@);
            lemma_nodes_docs_well_nested(parameters@);
            lemma_type_annotation_well_nested(type_node);
            assert forall|c: PrintContext, ie: bool| well_nested(#[trigger] signature_like_doc(c, n, ie)) by {
                assert(well_nested(type_parameters_doc(c, type_parameters@, ie))) by {
                    assert(well_nested(doc_list(
                        c,
                        type_parameters@,
                        0,
                        type_parameters@.len() as int,
                        ListFormat(FORMAT_TYPE_PARAMETERS),
                        false,
                        ChildMode::Plain,
                        ie,
                    )));
                }
                assert(well_nested(parameters_doc(c, parameters@, ie))) by {
                    assert(well_nested(doc_list(
                        c,
                        parameters@,
                        0,
                        parameters@.len() as int,
                        ListFormat(FORMAT_PARAMETERS),
                        false,
                        ChildMode::Plain,
                        ie,
                    )));
                }
                assert(well_nested(type_annotation_doc(c, type_node)));
            }
        },
        Node::MethodSignature { type_parameters, parameters, type_node, .. } => {
            lemma_nodes_docs_well_nested(type_parameters@);
            lemma_nodes_docs_well_nested(parameters@);
            lemma_type_annotation_well_nested(type_node);
            assert forall|c: PrintContext, ie: bool| well_nested(#[trigger] signature_like_doc(c, n, ie)) by {
                assert(well_nested(type_parameters_doc(c, type_parameters@, ie))) by {
                    assert(well_nested(doc_list(
                        c,
                        type_parameters@,
                        0,
                        type_parameters@.len() as int,
                        ListFormat(FORMAT_TYPE_PARAMETERS),
                        false,
                        ChildMode::Plain,
                        ie,
                    )));
                }
                assert(well_nested(parameters_doc(c, parameters@, ie))) by {
                    assert(well_nested(doc_list(
                        c,
                        parameters@,
                        0,
                        parameters@.len() as int,
                        ListFormat(FORMAT_PARAMETERS),
                        false,
                        ChildMode::Plain,
                        ie,
                    )));
                }
                assert(well_nested(type_annotation_doc(c, type_node)));
            }
        },
        Node::CallSignature { type_parameters, parameters, type_node } => {
            lemma_nodes_docs_well_nested(type_parameters@);
            lemma_nodes_docs_well_nested(parameters@);
            lemma_type_annotation_well_nested(type_node);
            assert forall|c: PrintContext, ie: bool| well_nested(#[trigger] signature_like_doc(c, n, ie)) by {
                assert(well_nested(type_parameters_doc(c, type_parameters@, ie))) by {
                    assert(well_nested(doc_list(
                        c,
                        type_parameters@,
                        0,
                        type_parameters@.len() as int,
                        ListFormat(FORMAT_TYPE_PARAMETERS),
                        false,
                        ChildMode::Plain,
                        ie,
                    )));
                }
                assert(well_nested(parameters_doc(c, parameters@, ie))) by {
                    assert(well_nested(doc_list(
                        c,
                        parameters@,
                        0,
                        parameters@.len() as int,
                        ListFormat(FORMAT_PARAMETERS),
                        false,
                        ChildMode::Plain,
                        ie,
                    )));
                }
                assert(well_nested(type_annotation_doc(c, type_node)));
            }
        },
        Node::ConstructSignature { type_parameters, parameters, type_node } => {
            lemma_nodes_docs_well_nested(type_parameters@);
            lemma_nodes_docs_well_nested(parameters@);
            lemma_type_annotation_well_nested(type_node);
            assert forall|c: PrintContext, ie: bool| well_nested(#[trigger] signature_like_doc(c, n, ie)) by {
                assert(well_nested(type_parameters_doc(c, type_parameters@, ie))) by {
                    assert(well_nested(doc_list(
                        c,
                        type_parameters@,
                        0,
                        type_parameters@.len() as int,
                        ListFormat(FORMAT_TYPE_PARAMETERS),
                        false,
                        ChildMode::Plain,
                        ie,
                    )));
                }
                assert(well_nested(parameters_doc(c, parameters@, ie))) by {
                    assert(well_nested(doc_list(
                        c,
                        parameters@,
                        0,
                        parameters@.len() as int,
                        ListFormat(FORMAT_PARAMETERS),
                        false,
                        ChildMode::Plain,
                        ie,
                    )));
                }
                assert(well_nested(type_annotation_doc(c, type_node)));
            }
        },
        Node::ArrowFunction { type_parameters, parameters, type_node, .. } => {
            lemma_nodes_docs_well_nested(type_parameters@);
            lemma_nodes_docs_well_nested(parameters@);
            lemma_type_annotation_well_nested(type_node);
            assert forall|c: PrintContext, ie: bool| well_nested(#[trigger] signature_like_doc(c, n, ie)) by {
                assert(well_nested(type_parameters_doc(c, type_parameters@, ie))) by {
                    assert(well_nested(doc_list(
                        c,
                        type_parameters@,
                        0,
                        type_parameters@.len() as int,
                        ListFormat(FORMAT_TYPE_PARAMETERS),
                        false,
                        ChildMode::Plain,
                        ie,
                    )));
                }
                assert(well_nested(parameters_doc(c, parameters@, ie))) by {
                    assert(well_nested(doc_list(
                        c,
                        parameters@,
                        0,
                        parameters@.len() as int,
                        ListFormat(FORMAT_PARAMETERS),
                        false,
                        ChildMode::Plain,
                        ie,
                    )));
                }
                assert(well_nested(doc_list(
                    c,
                    parameters@,
                    0,
                    parameters@.len() as int,
                    ListFormat(FORMAT_SINGLE_ARROW_PARAMETER),
                    false,
                    ChildMode::Plain,
                    ie,
                )));
                assert(well_nested(type_annotation_doc(c, type_node)));
            }
        },
        _ => {},
    }
}

/// The document of an arrow function is well nested.
#[verifier::spinoff_prover]
proof fn lemma_arrow_function_well_nested(n: Node)
    requires
        n is ArrowFunction,
    ensures
        forall|c: PrintContext, ie: bool| well_nested(#[trigger] doc_arrow_function(c, n, ie)),
        forall|c: PrintContext, ie: bool| well_nested(#[trigger] doc_node(c, n, ie)),
    decreases n, 0int, 1int,
{
    lemma_signature_like_well_nested(n);
    match n {
        Node::ArrowFunction { modifiers, body, .. } => {
            lemma_nodes_docs_well_nested(modifiers@);
            lemma_node_docs_well_nested(*body);
            assert forall|c: PrintContext, ie: bool| well_nested(#[trigger] doc_arrow_function(c, n, ie)) by {
                lemma_piece_nesting();
                assert(well_nested(signature_like_doc(c, n, ie)));
                assert(doc_arrow_function(c, n, ie) == doc_modifiers(c, modifiers@, 0, false, ie)
                    + signature_like_doc(c, n, ie) + t(" "@) + t("=>"@) + t(" "@) + doc_concise_body(c, *body, ie));
            }
        },
        _ => {},
    }
    assert forall|c: PrintContext, ie: bool| well_nested(#[trigger] doc_node(c, n, ie)) by {
        assert(well_nested(doc_arrow_function(c, n, ie)));
    }
}

/// The document of a function expression is well nested.
#[verifier::spinoff_prover]
proof fn lemma_function_expression_well_nested(n: Node)
    requires
        n is FunctionExpression,
    ensures
        forall|c: PrintContext, ie: bool| well_nested(#[trigger] doc_function_expression(c, n, ie)),
        forall|c: PrintContext, ie: bool| well_nested(#[trigger] doc_node(c, n, ie)),
    decreases n, 0int, 1int,
{
    lemma_signature_like_well_nested(n);
    match n {
        Node::FunctionExpression { modifiers, asterisk, name, body, .. } => {
            lemma_nodes_docs_well_nested(modifiers@);
            lemma_node_docs_well_nested(*body);
            assert forall|c: PrintContext, ie: bool| well_nested(#[trigger] doc_function_expression(c, n, ie)) by {
                lemma_piece_nesting();
                assert(well_nested(signature_like_doc(c, n, ie)));
                assert(doc_function_expression(c, n, ie) == doc_modifiers(c, modifiers@, 0, false, ie) + t(
                    "function"@,
                ) + (if asterisk {
                    t("*"@)
                } else {
                    Seq::empty()
                }) + match name {
                    Option::Some(s) => t(" "@) + t(s@),
                    Option::None => t(" "@),
                } + signature_like_doc(c, n, ie) + t(" "@) + doc_function_body(c, *body, ie));
            }
        },
        _ => {},
    }
    assert forall|c: PrintContext, ie: bool| well_nested(#[trigger] doc_node(c, n, ie)) by {
        assert(well_nested(doc_function_expression(c, n, ie)));
    }
}

/// The head of a class is well nested.
#[verifier::spinoff_prover]
proof fn lemma_class_head_well_nested(n: Node)
    requires
        n is ClassExpression || n is ClassDeclaration,
    ensures
        forall|c: PrintContext, ie: bool| well_nested(#[trigger] class_head_doc(c, n, ie)),
    decreases n, 0int, 0int,
{
    match n {
        Node::ClassExpression { modifiers, name, type_parameters, heritage_clauses, .. }
        | Node::ClassDeclaration { modifiers, name, type_parameters, heritage_clauses, .. } => {
            lemma_nodes_docs_well_nested(modifiers@);
            lemma_nodes_docs_well_nested(type_parameters@);
            lemma_nodes_docs_well_nested(heritage_clauses@);
            assert forall|c: PrintContext, ie: bool| well_nested(#[trigger] class_head_doc(c, n, ie)) by {
                lemma_piece_nesting();
                let f = ListFormat(FORMAT_CLASS_HERITAGE_CLAUSES);
                assert(well_nested(heritage_clauses_doc(c, heritage_clauses@, f, ie))) by {
                    assert(well_nested(doc_list(
                        c,
                        heritage_clauses@,
                        0,
                        heritage_clauses@.len() as int,
                        f,
                        false,
                        ChildMode::Plain,
                        ie,
                    )));
                }
                assert(well_nested(class_name_doc(name)));
                assert(well_nested(type_parameters_doc(c, type_parameters@, ie))) by {
                    assert(well_nested(doc_list(
                        c,
                        type_parameters@,
                        0,
                        type_parameters@.len() as int,
                        ListFormat(FORMAT_TYPE_PARAMETERS),
                        false,
                        ChildMode::Plain,
                        ie,
                    )));
                }
                assert(class_head_doc(c, n, ie) == doc_modifiers(c, modifiers@, 0, true, ie) + t("class"@)
                    + class_name_doc(name) + type_parameters_doc(c, type_parameters@, ie)
                    + heritage_clauses_doc(c, heritage_clauses@, f, ie));
            }
        },
        _ => {},
    }
}

/// The body of a class is well nested.
#[verifier::spinoff_prover]
proof fn lemma_class_body_well_nested(n: Node)
    requires
        n is ClassExpression || n is ClassDeclaration,
    ensures
        forall|c: PrintContext, ie: bool| well_nested(#[trigger] class_body_doc(c, n, ie)),
    decreases n, 0int, 0int,
{
    match n {
        Node::ClassExpression { members, .. } | Node::ClassDeclaration { members, .. } => {
            lemma_nodes_docs_well_nested(members@);
            assert forall|c: PrintContext, ie: bool| well_nested(#[trigger] class_body_doc(c, n, ie)) by {
                lemma_piece_nesting();
                assert(class_body_doc(c, n, ie) == t(" "@) + t("{"@) + doc_list(
                    c,
                    members@,
                    0,
                    members@.len() as int,
                    ListFormat(FORMAT_CLASS_MEMBERS),
                    false,
                    ChildMode::Plain,
                    ie,
                ) + t("}"@));
            }
        },
        _ => {},
    }
}

/// The document of a class expression or declaration is well nested.
#[verifier::spinoff_prover]
proof fn lemma_class_well_nested(n: Node)
    requires
        n is ClassExpression || n is ClassDeclaration,
    ensures
        forall|c: PrintContext, ie: bool| well_nested(#[trigger] doc_class(c, n, ie)),
        forall|c: PrintContext, ie: bool| well_nested(#[trigger] doc_node(c, n, ie)),
    decreases n, 0int, 1int,
{
    lemma_class_head_well_nested(n);
    lemma_class_body_well_nested(n);
    assert forall|c: PrintContext, ie: bool| well_nested(#[trigger] doc_class(c, n, ie)) by {
        assert(doc_class(c, n, ie) == class_head_doc(c, n, ie) + class_body_doc(c, n, ie));
        assert(well_nested(class_head_doc(c, n, ie)));
        assert(well_nested(class_body_doc(c, n, ie)));
    }
    assert forall|c: PrintContext, ie: bool| well_nested(#[trigger] doc_node(c, n, ie)) by {
        assert(well_nested(doc_class(c, n, ie)));
        if n is ClassExpression {
            assert(doc_node(c, n, ie) == doc_class(c, n, ie));
        } else {
            assert(doc_node(c, n, ie) == doc_class(c, n, ie));
        }
    }
}

/// The document of a object literal expression node is well nested.
#[verifier::spinoff_prover]
proof fn lemma_object_literal_expression_well_nested(n: Node)
    requires
        n is ObjectLiteralExpression,
    ensures
        forall|c: PrintContext, ie: bool| well_nested(#[trigger] doc_object_literal_expression(c, n, ie)),
        forall|c: PrintContext, ie: bool| well_nested(#[trigger] doc_node(c, n, ie)),
    decreases n, 0int, 1int,
{
    match n {
        Node::ObjectLiteralExpression { properties, .. } => {
            lemma_nodes_docs_well_nested(properties@);
        },
        _ => {},
    }
    assert forall|c: PrintContext, ie: bool| well_nested(#[trigger] doc_object_literal_expression(c, n, ie)) by {
        lemma_piece_nesting();
        match n {
            Node::ObjectLiteralExpression { properties, multi_line, has_trailing_comma } => {
                assert(doc_object_literal_expression(c, n, ie) == (doc_list(
                    c,
                    properties@,
                    0,
                    properties@.len() as int,
                    object_literal_format(c, multi_line),
                    has_trailing_comma,
                    ChildMode::Plain,
                    ie,
                )));
            },
            _ => {},
        }
    }
    assert forall|c: PrintContext, ie: bool| well_nested(#[trigger] doc_node(c, n, ie)) by {
        assert(well_nested(doc_object_literal_expression(c, n, ie)));
    }
}

/// The document of a array literal expression node is well nested.
#[verifier::spinoff_prover]
proof fn lemma_array_literal_expression_well_nested(n: Node)
    requires
        n is ArrayLiteralExpression,
    ensures
        forall|c: PrintContext, ie: bool| well_nested(#[trigger] doc_array_literal_expression(c, n, ie)),
        forall|c: PrintContext, ie: bool| well_nested(#[trigger] doc_node(c, n, ie)),
    decreases n, 0int, 1int,
{
    match n {
        Node::ArrayLiteralExpression { elements, .. } => {
            lemma_nodes_docs_well_nested(elements@);
        },
        _ => {},
    }
    assert forall|c: PrintContext, ie: bool| well_nested(#[trigger] doc_array_literal_expression(c, n, ie)) by {
        lemma_piece_nesting();
        match n {
            Node::ArrayLiteralExpression { elements, multi_line, has_trailing_comma } => {
                assert(doc_array_literal_expression(c, n, ie) == (doc_list(
                    c,
                    elements@,
                    0,
                    elements@.len() as int,
                    array_literal_format(multi_line),
                    has_trailing_comma || (elements@.len() > 0 && elements@.last() is OmittedExpression),
                    ChildMode::Expression(OPERATOR_PRECEDENCE_SPREAD),
                    ie,
                )));
            },
            _ => {},
        }
    }
    assert forall|c: PrintContext, ie: bool| well_nested(#[trigger] doc_node(c, n, ie)) by {
        assert(well_nested(doc_array_literal_expression(c, n, ie)));
    }
}

/// The document of a spread node is well nested.
#[verifier::spinoff_prover]
proof fn lemma_spread_well_nested(n: Node)
    requires
        n is SpreadElement || n is SpreadAssignment,
    ensures
        forall|c: PrintContext, ie: bool| well_nested(#[trigger] doc_spread(c, n, ie)),
        forall|c: PrintContext, ie: bool| well_nested(#[trigger] doc_node(c, n, ie)),
    decreases n, 0int, 1int,
{
    match n {
        Node::SpreadElement(f0) => {
            lemma_node_docs_well_nested(*f0);
        },
        Node::SpreadAssignment(f0) => {
            lemma_node_docs_well_nested(*f0);
        },
        _ => {},
    }
    assert forall|c: PrintContext, ie: bool| well_nested(#[trigger] doc_spread(c, n, ie)) by {
        lemma_piece_nesting();
        match n {
            Node::SpreadElement(e) => {
                assert(doc_spread(c, n, ie) == (t("..."@) + doc_expr(c, *e, OPERATOR_PRECEDENCE_DISALLOW_COMMA, ie)));
            },
            Node::SpreadAssignment(e) => {
                assert(doc_spread(c, n, ie) == (t("..."@) + doc_node(c, *e, ie)));
            },
            _ => {},
        }
    }
    assert forall|c: PrintContext, ie: bool| well_nested(#[trigger] doc_node(c, n, ie)) by {
        assert(well_nested(doc_spread(c, n, ie)));
    }
}

/// The document of a as or satisfies expression node is well nested.
#[verifier::spinoff_prover]
proof fn lemma_as_or_satisfies_expression_well_nested(n: Node)
    requires
        n is AsExpression || n is SatisfiesExpression,
    ensures
        forall|c: PrintContext, ie: bool| well_nested(#[trigger] doc_as_or_satisfies_expression(c, n, ie)),
        forall|c: PrintContext, ie: bool| well_nested(#[trigger] doc_node(c, n, ie)),
    decreases n, 0int, 1int,
{
    match n {
        Node::AsExpression { expression, type_node, .. } => {
            lemma_node_docs_well_nested(*expression);
            lemma_node_docs_well_nested(*type_node);
        },
        Node::SatisfiesExpression { expression, type_node, .. } => {
            lemma_node_docs_well_nested(*expression);
            lemma_node_docs_well_nested(*type_node);
        },
        _ => {},
    }
    assert forall|c: PrintContext, ie: bool| well_nested(#[trigger] doc_as_or_satisfies_expression(c, n, ie)) by {
        lemma_piece_nesting();
        match n {
            Node::AsExpression { expression, type_node } => {
                assert(doc_as_or_satisfies_expression(c, n, ie) == (doc_expr(
                    c,
                    *expression,
                    OPERATOR_PRECEDENCE_RELATIONAL,
                    ie,
                ) + t(" "@) + t("as"@) + t(" "@) + doc_node(c, *type_node, ie)));
            },
            Node::SatisfiesExpression { expression, type_node } => {
                assert(doc_as_or_satisfies_expression(c, n, ie) == (doc_expr(
                    c,
                    *expression,
                    OPERATOR_PRECEDENCE_RELATIONAL,
                    ie,
                ) + t(" "@) + t("satisfies"@) + t(" "@) + doc_node(c, *type_node, ie)));
            },
            _ => {},
        }
    }
    assert forall|c: PrintContext, ie: bool| well_nested(#[trigger] doc_node(c, n, ie)) by {
        assert(well_nested(doc_as_or_satisfies_expression(c, n, ie)));
    }
}

/// The document of a non null or type assertion node is well nested.
#[verifier::spinoff_prover]
proof fn lemma_non_null_or_type_assertion_well_nested(n: Node)
    requires
        n is NonNullExpression || n is TypeAssertionExpression,
    ensures
        forall|c: PrintContext, ie: bool| well_nested(#[trigger] doc_non_null_or_type_assertion(c, n, ie)),
        forall|c: PrintContext, ie: bool| well_nested(#[trigger] doc_node(c, n, ie)),
    decreases n, 0int, 1int,
{
    match n {
        Node::NonNullExpression(f0) => {
            lemma_node_docs_well_nested(*f0);
        },
        Node::TypeAssertionExpression { type_node, expression, .. } => {
            lemma_node_docs_well_nested(*type_node);
            lemma_node_docs_well_nested(*expression);
        },
        _ => {},
    }
    assert forall|c: PrintContext, ie: bool| well_nested(#[trigger] doc_non_null_or_type_assertion(c, n, ie)) by {
        lemma_piece_nesting();
        match n {
            Node::NonNullExpression(e) => {
                assert(doc_non_null_or_type_assertion(c, n, ie) == (doc_expr(c, *e, OPERATOR_PRECEDENCE_MEMBER, ie) + t("!"@)));
            },
            Node::TypeAssertionExpression { type_node, expression } => {
                assert(doc_non_null_or_type_assertion(c, n, ie) == (t("<"@) + doc_node(
                    c,
                    *type_node,
                    ie,
                ) + t(">"@) + doc_expr(c, *expression, OPERATOR_PRECEDENCE_UPDATE, ie)));
            },
            _ => {},
        }
    }
    assert forall|c: PrintContext, ie: bool| well_nested(#[trigger] doc_node(c, n, ie)) by {
        assert(well_nested(doc_non_null_or_type_assertion(c, n, ie)));
    }
}

/// The document of a expression with type arguments node is well nested.
#[verifier::spinoff_prover]
proof fn lemma_expression_with_type_arguments_well_nested(n: Node)
    requires
        n is ExpressionWithTypeArguments,
    ensures
        forall|c: PrintContext, ie: bool| well_nested(#[trigger] doc_expression_with_type_arguments(c, n, ie)),
        forall|c: PrintContext, ie: bool| well_nested(#[trigger] doc_node(c, n, ie)),
    decreases n, 0int, 1int,
{
    match n {
        Node::ExpressionWithTypeArguments { expression, type_arguments, .. } => {
            lemma_node_docs_well_nested(*expression);
            lemma_nodes_docs_well_nested(type_arguments@);
        },
        _ => {},
    }
    assert forall|c: PrintContext, ie: bool| well_nested(#[trigger] doc_expression_with_type_arguments(c, n, ie)) by {
        lemma_piece_nesting();
        match n {
            Node::ExpressionWithTypeArguments { expression, type_arguments } => {
                assert(doc_expression_with_type_arguments(c, n, ie) == (doc_expr(
                    c,
                    *expression,
                    OPERATOR_PRECEDENCE_MEMBER,
                    ie,
                ) + doc_list(
                    c,
                    type_arguments@,
                    0,
                    type_arguments@.len() as int,
                    ListFormat(FORMAT_TYPE_ARGUMENTS),
                    false,
                    ChildMode::TypeOutsideExtends,
                    ie,
                )));
            },
            _ => {},
        }
    }
    assert forall|c: PrintContext, ie: bool| well_nested(#[trigger] doc_node(c, n, ie)) by {
        assert(well_nested(doc_expression_with_type_arguments(c, n, ie)));
    }
}

/// The document of a property names node is well nested.
#[verifier::spinoff_prover]
proof fn lemma_property_names_well_nested(n: Node)
    requires
        n is PropertyAssignment || n is ComputedPropertyName,
    ensures
        forall|c: PrintContext, ie: bool| well_nested(#[trigger] doc_property_names(c, n, ie)),
        forall|c: PrintContext, ie: bool| well_nested(#[trigger] doc_node(c, n, ie)),
    decreases n, 0int, 1int,
{
    match n {
        Node::PropertyAssignment { name, initializer, .. } => {
            lemma_node_docs_well_nested(*name);
            lemma_node_docs_well_nested(*initializer);
        },
        Node::ComputedPropertyName(f0) => {
            lemma_node_docs_well_nested(*f0);
        },
        _ => {},
    }
    assert forall|c: PrintContext, ie: bool| well_nested(#[trigger] doc_property_names(c, n, ie)) by {
        lemma_piece_nesting();
        match n {
            Node::PropertyAssignment { name, initializer } => {
                assert(doc_property_names(c, n, ie) == (doc_node(c, *name, ie) + t(":"@) + t(
                    " "@,
                ) + doc_expr(c, *initializer, OPERATOR_PRECEDENCE_DISALLOW_COMMA, ie)));
            },
            Node::ComputedPropertyName(e) => {
                assert(doc_property_names(c, n, ie) == (t("["@) + doc_expr(
                    c,
                    *e,
                    OPERATOR_PRECEDENCE_DISALLOW_COMMA,
                    ie,
                ) + t("]"@)));
            },
            _ => {},
        }
    }
    assert forall|c: PrintContext, ie: bool| well_nested(#[trigger] doc_node(c, n, ie)) by {
        assert(well_nested(doc_property_names(c, n, ie)));
    }
}

/// The document of a parameter is well nested.
#[verifier::spinoff_prover]
proof fn lemma_parameter_well_nested(n: Node)
    requires
        n is Parameter,
    ensures
        forall|c: PrintContext, ie: bool| well_nested(#[trigger] doc_parameter(c, n, ie)),
        forall|c: PrintContext, ie: bool| well_nested(#[trigger] doc_node(c, n, ie)),
    decreases n, 0int, 1int,
{
    match n {
        Node::Parameter { modifiers, name, type_node, initializer, .. } => {
            lemma_nodes_docs_well_nested(modifiers@);
            lemma_node_docs_well_nested(*name);
            match type_node {
                Option::Some(x) => lemma_node_docs_well_nested(*x),
                Option::None => {},
            }
            match initializer {
                Option::Some(x) => lemma_node_docs_well_nested(*x),
                Option::None => {},
            }
        },
        _ => {},
    }
    assert forall|c: PrintContext, ie: bool| well_nested(#[trigger] doc_parameter(c, n, ie)) by {
        lemma_piece_nesting();
        match n {
            Node::Parameter { modifiers, dot_dot_dot, name, question, type_node, initializer } => {
                assert(doc_parameter(c, n, ie) == (doc_modifiers(
                    c,
                    modifiers@,
                    0,
                    true,
                    ie,
                ) + (if dot_dot_dot {
                    t("..."@)
                } else {
                    Seq::empty()
                }) + doc_node(c, *name, ie) + (if question {
                    t("?"@)
                } else {
                    Seq::empty()
                }) + match type_node {
                    Option::Some(ty) => t(":"@) + t(" "@) + doc_type(c, *ty, TYPE_PRECEDENCE_LOWEST, false),
                    Option::None => Seq::empty(),
                } + match initializer {
                    Option::Some(e) => t(" "@) + t("="@) + t(" "@) + doc_node(c, *e, ie),
                    Option::None => Seq::empty(),
                }));
            },
            _ => {},
        }
    }
    assert forall|c: PrintContext, ie: bool| well_nested(#[trigger] doc_node(c, n, ie)) by {
        assert(well_nested(doc_parameter(c, n, ie)));
    }
}

/// The document of a property declaration node is well nested.
#[verifier::spinoff_prover]
proof fn lemma_property_declaration_well_nested(n: Node)
    requires
        n is PropertyDeclaration,
    ensures
        forall|c: PrintContext, ie: bool| well_nested(#[trigger] doc_property_declaration(c, n, ie)),
        forall|c: PrintContext, ie: bool| well_nested(#[trigger] doc_node(c, n, ie)),
    decreases n, 0int, 1int,
{
    match n {
        Node::PropertyDeclaration { modifiers, name, type_node, initializer, .. } => {
            lemma_nodes_docs_well_nested(modifiers@);
            lemma_node_docs_well_nested(*name);
            match type_node {
                Option::Some(x) => lemma_node_docs_well_nested(*x),
                Option::None => {},
            }
            match initializer {
                Option::Some(x) => lemma_node_docs_well_nested(*x),
                Option::None => {},
            }
        },
        _ => {},
    }
    assert forall|c: PrintContext, ie: bool| well_nested(#[trigger] doc_property_declaration(c, n, ie)) by {
        lemma_piece_nesting();
        match n {
            Node::PropertyDeclaration { modifiers, name, question, exclamation, type_node, initializer } => {
                assert(doc_property_declaration(c, n, ie) == (            doc_modifiers(c, modifiers@, 0, true, ie) + doc_node(c, *name, ie) + (if question {
                    t("?"@)
                } else if exclamation {
                    t("!"@)
                } else {
                    Seq::empty()
                }) + match type_node {
                    Option::Some(ty) => t(":"@) + t(" "@) + doc_node(c, *ty, ie),
                    Option::None => Seq::empty(),
                } + match initializer {
                    Option::Some(e) => t(" "@) + t("="@) + t(" "@) + doc_node(c, *e, ie),
                    Option::None => Seq::empty(),
                } + t(";"@)));
            },
            _ => {},
        }
    }
    assert forall|c: PrintContext, ie: bool| well_nested(#[trigger] doc_node(c, n, ie)) by {
        assert(well_nested(doc_property_declaration(c, n, ie)));
    }
}

/// The document of a decorator node is well nested.
#[verifier::spinoff_prover]
proof fn lemma_decorator_well_nested(n: Node)
    requires
        n is Decorator,
    ensures
        forall|c: PrintContext, ie: bool| well_nested(#[trigger] doc_decorator(c, n, ie)),
        forall|c: PrintContext, ie: bool| well_nested(#[trigger] doc_node(c, n, ie)),
    decreases n, 0int, 1int,
{
    match n {
        Node::Decorator(f0) => {
            lemma_node_docs_well_nested(*f0);
        },
        _ => {},
    }
    assert forall|c: PrintContext, ie: bool| well_nested(#[trigger] doc_decorator(c, n, ie)) by {
        lemma_piece_nesting();
        match n {
            Node::Decorator(e) => {
                assert(doc_decorator(c, n, ie) == (t("@"@) + doc_expr(c, *e, OPERATOR_PRECEDENCE_LEFT_HAND_SIDE, ie)));
            },
            _ => {},
        }
    }
    assert forall|c: PrintContext, ie: bool| well_nested(#[trigger] doc_node(c, n, ie)) by {
        assert(well_nested(doc_decorator(c, n, ie)));
    }
}

/// The document of a type reference or type query node is well nested.
#[verifier::spinoff_prover]
proof fn lemma_type_reference_well_nested(n: Node)
    requires
        n is TypeReference || n is TypeQuery,
    ensures
        forall|c: PrintContext, ie: bool| well_nested(#[trigger] doc_type_reference(c, n, ie)),
        forall|c: PrintContext, ie: bool| well_nested(#[trigger] doc_node(c, n, ie)),
    decreases n, 0int, 1int,
{
    match n {
        Node::TypeReference { type_arguments, .. } => {
            lemma_nodes_docs_well_nested(type_arguments@);
        },
        Node::TypeQuery { type_arguments, .. } => {
            lemma_nodes_docs_well_nested(type_arguments@);
        },
        _ => {},
    }
    assert forall|c: PrintContext, ie: bool| well_nested(#[trigger] doc_type_reference(c, n, ie)) by {
        lemma_piece_nesting();
        match n {
            Node::TypeReference { name, type_arguments } => {
                assert(doc_type_reference(c, n, ie) == (t(name@) + doc_list(
                    c,
                    type_arguments@,
                    0,
                    type_arguments@.len() as int,
                    ListFormat(FORMAT_TYPE_ARGUMENTS),
                    false,
                    ChildMode::TypeOutsideExtends,
                    ie,
                )));
            },
            Node::TypeQuery { name, type_arguments } => {
                assert(doc_type_reference(c, n, ie) == (t("typeof"@) + t(" "@) + t(name@) + doc_list(
                    c,
                    type_arguments@,
                    0,
                    type_arguments@.len() as int,
                    ListFormat(FORMAT_TYPE_ARGUMENTS),
                    false,
                    ChildMode::TypeOutsideExtends,
                    ie,
                )));
            },
            _ => {},
        }
    }
    assert forall|c: PrintContext, ie: bool| well_nested(#[trigger] doc_node(c, n, ie)) by {
        assert(well_nested(doc_type_reference(c, n, ie)));
    }
}

/// The document of a union or intersection type node is well nested.
#[verifier::spinoff_prover]
proof fn lemma_union_or_intersection_type_well_nested(n: Node)
    requires
        n is UnionType || n is IntersectionType,
    ensures
        forall|c: PrintContext, ie: bool| well_nested(#[trigger] doc_union_or_intersection_type(c, n, ie)),
        forall|c: PrintContext, ie: bool| well_nested(#[trigger] doc_node(c, n, ie)),
    decreases n, 0int, 1int,
{
    match n {
        Node::UnionType(f0) => {
            lemma_nodes_docs_well_nested(f0@);
        },
        Node::IntersectionType(f0) => {
            lemma_nodes_docs_well_nested(f0@);
        },
        _ => {},
    }
    assert forall|c: PrintContext, ie: bool| well_nested(#[trigger] doc_union_or_intersection_type(c, n, ie)) by {
        lemma_piece_nesting();
        match n {
            Node::UnionType(types) => {
                assert(doc_union_or_intersection_type(c, n, ie) == (doc_items(
                    c,
                    types@,
                    0,
                    types@.len() as int,
                    ListFormat(FORMAT_UNION_TYPE_CONSTITUENTS),
                    false,
                    ChildMode::Type(TYPE_PRECEDENCE_TYPE_OPERATOR),
                    ie,
                )));
            },
            Node::IntersectionType(types) => {
                assert(doc_union_or_intersection_type(c, n, ie) == (doc_items(
                    c,
                    types@,
                    0,
                    types@.len() as int,
                    ListFormat(FORMAT_INTERSECTION_TYPE_CONSTITUENTS),
                    false,
                    ChildMode::Type(TYPE_PRECEDENCE_TYPE_OPERATOR),
                    ie,
                )));
            },
            _ => {},
        }
    }
    assert forall|c: PrintContext, ie: bool| well_nested(#[trigger] doc_node(c, n, ie)) by {
        assert(well_nested(doc_union_or_intersection_type(c, n, ie)));
    }
}

/// The document of a postfix type node is well nested.
#[verifier::spinoff_prover]
proof fn lemma_postfix_type_well_nested(n: Node)
    requires
        n is ArrayType || n is OptionalType || n is RestType,
    ensures
        forall|c: PrintContext, ie: bool| well_nested(#[trigger] doc_postfix_type(c, n, ie)),
        forall|c: PrintContext, ie: bool| well_nested(#[trigger] doc_node(c, n, ie)),
    decreases n, 0int, 1int,
{
    match n {
        Node::ArrayType(f0) => {
            lemma_node_docs_well_nested(*f0);
        },
        Node::OptionalType(f0) => {
            lemma_node_docs_well_nested(*f0);
        },
        Node::RestType(f0) => {
            lemma_node_docs_well_nested(*f0);
        },
        _ => {},
    }
    assert forall|c: PrintContext, ie: bool| well_nested(#[trigger] doc_postfix_type(c, n, ie)) by {
        lemma_piece_nesting();
        match n {
            Node::ArrayType(e) => {
                assert(doc_postfix_type(c, n, ie) == (doc_type(c, *e, TYPE_PRECEDENCE_POSTFIX, ie) + t("["@) + t("]"@)));
            },
            Node::OptionalType(e) => {
                assert(doc_postfix_type(c, n, ie) == (doc_type(c, *e, TYPE_PRECEDENCE_POSTFIX, ie) + t("?"@)));
            },
            Node::RestType(e) => {
                assert(doc_postfix_type(c, n, ie) == (t("..."@) + doc_type(c, *e, TYPE_PRECEDENCE_LOWEST, false)));
            },
            _ => {},
        }
    }
    assert forall|c: PrintContext, ie: bool| well_nested(#[trigger] doc_node(c, n, ie)) by {
        assert(well_nested(doc_postfix_type(c, n, ie)));
    }
}

/// The document of a tuple type node is well nested.
#[verifier::spinoff_prover]
proof fn lemma_tuple_type_well_nested(n: Node)
    requires
        n is TupleType,
    ensures
        forall|c: PrintContext, ie: bool| well_nested(#[trigger] doc_tuple_type(c, n, ie)),
        forall|c: PrintContext, ie: bool| well_nested(#[trigger] doc_node(c, n, ie)),
    decreases n, 0int, 1int,
{
    match n {
        Node::TupleType { elements, .. } => {
            lemma_nodes_docs_well_nested(elements@);
        },
        _ => {},
    }
    assert forall|c: PrintContext, ie: bool| well_nested(#[trigger] doc_tuple_type(c, n, ie)) by {
        lemma_piece_nesting();
        match n {
            Node::TupleType { elements, single_line } => {
                assert(doc_tuple_type(c, n, ie) == (t("["@) + doc_list(
                    c,
                    elements@,
                    0,
                    elements@.len() as int,
                    tuple_format(single_line),
                    false,
                    ChildMode::TypeOutsideExtends,
                    ie,
                ) + t("]"@)));
            },
            _ => {},
        }
    }
    assert forall|c: PrintContext, ie: bool| well_nested(#[trigger] doc_node(c, n, ie)) by {
        assert(well_nested(doc_tuple_type(c, n, ie)));
    }
}

/// The document of a function type node is well nested.
#[verifier::spinoff_prover]
proof fn lemma_function_type_well_nested(n: Node)
    requires
        n is FunctionType,
    ensures
        forall|c: PrintContext, ie: bool| well_nested(#[trigger] doc_function_type(c, n, ie)),
        forall|c: PrintContext, ie: bool| well_nested(#[trigger] doc_node(c, n, ie)),
    decreases n, 0int, 1int,
{
    match n {
        Node::FunctionType { type_parameters, parameters, return_type } => {
            lemma_nodes_docs_well_nested(type_parameters@);
            lemma_nodes_docs_well_nested(parameters@);
            lemma_node_docs_well_nested(*return_type);
        },
        _ => {},
    }
    assert forall|c: PrintContext, ie: bool| well_nested(#[trigger] doc_function_type(c, n, ie)) by {
        lemma_piece_nesting();
        match n {
            Node::FunctionType { type_parameters, parameters, return_type } => {
                assert(well_nested(type_parameters_doc(c, type_parameters@, ie))) by {
                    assert(well_nested(doc_list(
                        c,
                        type_parameters@,
                        0,
                        type_parameters@.len() as int,
                        ListFormat(FORMAT_TYPE_PARAMETERS),
                        false,
                        ChildMode::Plain,
                        ie,
                    )));
                }
                assert(well_nested(parameters_doc(c, parameters@, ie))) by {
                    assert(well_nested(doc_list(
                        c,
                        parameters@,
                        0,
                        parameters@.len() as int,
                        ListFormat(FORMAT_PARAMETERS),
                        false,
                        ChildMode::Plain,
                        ie,
                    )));
                }
                assert(doc_function_type(c, n, ie) == (type_parameters_doc(c, type_parameters@, ie)
                    + parameters_doc(c, parameters@, ie) + t(" "@) + t("=>"@) + t(" "@) + (if ie && (*return_type matches Node::InferType { constraint, .. } && constraint is Some) {
                    doc_type(c, *return_type, TYPE_PRECEDENCE_HIGHEST, ie)
                } else {
                    doc_type(c, *return_type, TYPE_PRECEDENCE_LOWEST, ie)
                })));
            },
            _ => {},
        }
    }
    assert forall|c: PrintContext, ie: bool| well_nested(#[trigger] doc_node(c, n, ie)) by {
        assert(well_nested(doc_function_type(c, n, ie)));
    }
}

/// The document of a infer type node is well nested.
#[verifier::spinoff_prover]
proof fn lemma_infer_type_well_nested(n: Node)
    requires
        n is InferType,
    ensures
        forall|c: PrintContext, ie: bool| well_nested(#[trigger] doc_infer_type(c, n, ie)),
        forall|c: PrintContext, ie: bool| well_nested(#[trigger] doc_node(c, n, ie)),
    decreases n, 0int, 1int,
{
    match n {
        Node::InferType { constraint, .. } => {
            match constraint {
                Option::Some(x) => lemma_node_docs_well_nested(*x),
                Option::None => {},
            }
        },
        _ => {},
    }
    assert forall|c: PrintContext, ie: bool| well_nested(#[trigger] doc_infer_type(c, n, ie)) by {
        lemma_piece_nesting();
        match n {
            Node::InferType { name, constraint } => {
                assert(doc_infer_type(c, n, ie) == (t("infer"@) + t(" "@) + t(name@) + match constraint {
                    Option::Some(ct) => t(" "@) + t("extends"@) + t(" "@) + doc_type(
                        c,
                        *ct,
                        TYPE_PRECEDENCE_LOWEST,
                        true,
                    ),
                    Option::None => Seq::empty(),
                }));
            },
            _ => {},
        }
    }
    assert forall|c: PrintContext, ie: bool| well_nested(#[trigger] doc_node(c, n, ie)) by {
        assert(well_nested(doc_infer_type(c, n, ie)));
    }
}

/// The document of a type operator node is well nested.
#[verifier::spinoff_prover]
proof fn lemma_type_operator_well_nested(n: Node)
    requires
        n is TypeOperator,
    ensures
        forall|c: PrintContext, ie: bool| well_nested(#[trigger] doc_type_operator(c, n, ie)),
        forall|c: PrintContext, ie: bool| well_nested(#[trigger] doc_node(c, n, ie)),
    decreases n, 0int, 1int,
{
    match n {
        Node::TypeOperator { type_node, .. } => {
            lemma_node_docs_well_nested(*type_node);
        },
        _ => {},
    }
    assert forall|c: PrintContext, ie: bool| well_nested(#[trigger] doc_type_operator(c, n, ie)) by {
        lemma_piece_nesting();
        match n {
            Node::TypeOperator { operator, type_node } => {
                assert(doc_type_operator(c, n, ie) == (t(type_operator_text(operator)) + t(" "@)
                    + doc_type(
                    c,
                    *type_node,
                    if operator == crate::ast::TypeOperatorKind::Readonly {
                        TYPE_PRECEDENCE_POSTFIX
                    } else {
                        TYPE_PRECEDENCE_TYPE_OPERATOR
                    },
                    ie,
                )));
            },
            _ => {},
        }
    }
    assert forall|c: PrintContext, ie: bool| well_nested(#[trigger] doc_node(c, n, ie)) by {
        assert(well_nested(doc_type_operator(c, n, ie)));
    }
}

/// The document of a indexed access type node is well nested.
#[verifier::spinoff_prover]
proof fn lemma_indexed_access_type_well_nested(n: Node)
    requires
        n is IndexedAccessType,
    ensures
        forall|c: PrintContext, ie: bool| well_nested(#[trigger] doc_indexed_access_type(c, n, ie)),
        forall|c: PrintContext, ie: bool| well_nested(#[trigger] doc_node(c, n, ie)),
    decreases n, 0int, 1int,
{
    match n {
        Node::IndexedAccessType { object_type, index_type, .. } => {
            lemma_node_docs_well_nested(*object_type);
            lemma_node_docs_well_nested(*index_type);
        },
        _ => {},
    }
    assert forall|c: PrintContext, ie: bool| well_nested(#[trigger] doc_indexed_access_type(c, n, ie)) by {
        lemma_piece_nesting();
        match n {
            Node::IndexedAccessType { object_type, index_type } => {
                assert(doc_indexed_access_type(c, n, ie) == (doc_type(
                    c,
                    *object_type,
                    TYPE_PRECEDENCE_POSTFIX,
                    ie,
                ) + t("["@) + doc_type(c, *index_type, TYPE_PRECEDENCE_LOWEST, false) + t("]"@)));
            },
            _ => {},
        }
    }
    assert forall|c: PrintContext, ie: bool| well_nested(#[trigger] doc_node(c, n, ie)) by {
        assert(well_nested(doc_indexed_access_type(c, n, ie)));
    }
}

/// The document of a conditional type node is well nested.
#[verifier::spinoff_prover]
proof fn lemma_conditional_type_well_nested(n: Node)
    requires
        n is ConditionalType,
    ensures
        forall|c: PrintContext, ie: bool| well_nested(#[trigger] doc_conditional_type(c, n, ie)),
        forall|c: PrintContext, ie: bool| well_nested(#[trigger] doc_node(c, n, ie)),
    decreases n, 0int, 1int,
{
    match n {
        Node::ConditionalType { check_type, extends_type, true_type, false_type, .. } => {
            lemma_node_docs_well_nested(*check_type);
            lemma_node_docs_well_nested(*extends_type);
            lemma_node_docs_well_nested(*true_type);
            lemma_node_docs_well_nested(*false_type);
        },
        _ => {},
    }
    assert forall|c: PrintContext, ie: bool| well_nested(#[trigger] doc_conditional_type(c, n, ie)) by {
        lemma_piece_nesting();
        match n {
            Node::ConditionalType { check_type, extends_type, true_type, false_type } => {
                assert(doc_conditional_type(c, n, ie) == (doc_type(
                    c,
                    *check_type,
                    TYPE_PRECEDENCE_UNION,
                    ie,
                ) + t(" "@) + t("extends"@) + t(" "@) + doc_type(
                    c,
                    *extends_type,
                    TYPE_PRECEDENCE_LOWEST,
                    true,
                ) + t(" "@) + t("?"@) + t(" "@) + doc_type(c, *true_type, TYPE_PRECEDENCE_LOWEST, false)
                    + t(" "@) + t(":"@) + t(" "@) + doc_type(
                    c,
                    *false_type,
                    TYPE_PRECEDENCE_LOWEST,
                    false,
                )));
            },
            _ => {},
        }
    }
    assert forall|c: PrintContext, ie: bool| well_nested(#[trigger] doc_node(c, n, ie)) by {
        assert(well_nested(doc_conditional_type(c, n, ie)));
    }
}

/// The document of a parenthesized node is well nested.
#[verifier::spinoff_prover]
proof fn lemma_parenthesized_well_nested(n: Node)
    requires
        n is ParenthesizedExpression || n is ParenthesizedType,
    ensures
        forall|c: PrintContext, ie: bool| well_nested(#[trigger] doc_parenthesized(c, n, ie)),
        forall|c: PrintContext, ie: bool| well_nested(#[trigger] doc_node(c, n, ie)),
    decreases n, 0int, 1int,
{
    match n {
        Node::ParenthesizedExpression(f0) => {
            lemma_node_docs_well_nested(*f0);
        },
        Node::ParenthesizedType(f0) => {
            lemma_node_docs_well_nested(*f0);
        },
        _ => {},
    }
    assert forall|c: PrintContext, ie: bool| well_nested(#[trigger] doc_parenthesized(c, n, ie)) by {
        lemma_piece_nesting();
        match n {
            Node::ParenthesizedExpression(e) => {
                assert(doc_parenthesized(c, n, ie) == (t("("@) + doc_node(c, *e, ie) + t(")"@)));
            },
            Node::ParenthesizedType(e) => {
                assert(doc_parenthesized(c, n, ie) == (t("("@) + doc_type(c, *e, TYPE_PRECEDENCE_LOWEST, false) + t(
                    ")"@,
                )));
            },
            _ => {},
        }
    }
    assert forall|c: PrintContext, ie: bool| well_nested(#[trigger] doc_node(c, n, ie)) by {
        assert(well_nested(doc_parenthesized(c, n, ie)));
    }
}

/// The document of a expression statement node is well nested.
#[verifier::spinoff_prover]
proof fn lemma_expression_statement_well_nested(n: Node)
    requires
        n is ExpressionStatement,
    ensures
        forall|c: PrintContext, ie: bool| well_nested(#[trigger] doc_expression_statement(c, n, ie)),
        forall|c: PrintContext, ie: bool| well_nested(#[trigger] doc_node(c, n, ie)),
    decreases n, 0int, 1int,
{
    match n {
        Node::ExpressionStatement(f0) => {
            lemma_node_docs_well_nested(*f0);
        },
        _ => {},
    }
    assert forall|c: PrintContext, ie: bool| well_nested(#[trigger] doc_expression_statement(c, n, ie)) by {
        lemma_piece_nesting();
        match n {
            Node::ExpressionStatement(e) => {
                assert(doc_expression_statement(c, n, ie) == ((if is_immediately_invoked_function(*e) {
                    doc_iife(c, *e, ie)
                } else if leftmost_is_function_or_object_literal(*e) {
                    doc_expr(c, *e, OPERATOR_PRECEDENCE_PARENTHESES, ie)
                } else {
                    doc_expr(c, *e, OPERATOR_PRECEDENCE_COMMA, ie)
                }) + t(";"@)));
            },
            _ => {},
        }
    }
    assert forall|c: PrintContext, ie: bool| well_nested(#[trigger] doc_node(c, n, ie)) by {
        assert(well_nested(doc_expression_statement(c, n, ie)));
    }
}

/// The document of a export assignment node is well nested.
#[verifier::spinoff_prover]
proof fn lemma_export_assignment_well_nested(n: Node)
    requires
        n is ExportAssignment,
    ensures
        forall|c: PrintContext, ie: bool| well_nested(#[trigger] doc_export_assignment(c, n, ie)),
        forall|c: PrintContext, ie: bool| well_nested(#[trigger] doc_node(c, n, ie)),
    decreases n, 0int, 1int,
{
    match n {
        Node::ExportAssignment { expression, .. } => {
            lemma_node_docs_well_nested(*expression);
        },
        _ => {},
    }
    assert forall|c: PrintContext, ie: bool| well_nested(#[trigger] doc_export_assignment(c, n, ie)) by {
        lemma_piece_nesting();
        match n {
            Node::ExportAssignment { is_export_equals, expression } => {
                assert(doc_export_assignment(c, n, ie) == (t("export"@) + t(" "@) + (
                if is_export_equals {
                    t("="@)
                } else {
                    t("default"@)
                }) + t(" "@) + (if !is_export_equals && leftmost_is_class_or_function(*expression) {
                    doc_expr(c, *expression, OPERATOR_PRECEDENCE_PARENTHESES, ie)
                } else {
                    doc_expr(c, *expression, OPERATOR_PRECEDENCE_ASSIGNMENT, ie)
                }) + t(";"@)));
            },
            _ => {},
        }
    }
    assert forall|c: PrintContext, ie: bool| well_nested(#[trigger] doc_node(c, n, ie)) by {
        assert(well_nested(doc_export_assignment(c, n, ie)));
    }
}

/// The document of a type alias declaration is well nested.
#[verifier::spinoff_prover]
proof fn lemma_type_alias_declaration_well_nested(n: Node)
    requires
        n is TypeAliasDeclaration,
    ensures
        forall|c: PrintContext, ie: bool| well_nested(#[trigger] doc_type_alias_declaration(c, n, ie)),
        forall|c: PrintContext, ie: bool| well_nested(#[trigger] doc_node(c, n, ie)),
    decreases n, 0int, 1int,
{
    match n {
        Node::TypeAliasDeclaration { modifiers, type_parameters, type_node, .. } => {
            lemma_nodes_docs_well_nested(modifiers@);
            lemma_nodes_docs_well_nested(type_parameters@);
            lemma_node_docs_well_nested(*type_node);
        },
        _ => {},
    }
    assert forall|c: PrintContext, ie: bool| well_nested(#[trigger] doc_type_alias_declaration(c, n, ie)) by {
        lemma_piece_nesting();
        match n {
            Node::TypeAliasDeclaration { modifiers, name, type_parameters, type_node } => {
                assert(doc_type_alias_declaration(c, n, ie) == (doc_modifiers(
                    c,
                    modifiers@,
                    0,
                    false,
                    ie,
                ) + t("type"@) + t(" "@) + t(name@) + doc_list(
                    c,
                    type_parameters@,
                    0,
                    type_parameters@.len() as int,
                    ListFormat(FORMAT_TYPE_PARAMETERS),
                    false,
                    ChildMode::Plain,
                    ie,
                ) + t(" "@) + t("="@) + t(" "@) + doc_node(c, *type_node, ie) + t(";"@)));
            },
            _ => {},
        }
    }
    assert forall|c: PrintContext, ie: bool| well_nested(#[trigger] doc_node(c, n, ie)) by {
        assert(well_nested(doc_type_alias_declaration(c, n, ie)));
    }
}

/// The document of a variable statement node is well nested.
#[verifier::spinoff_prover]
proof fn lemma_variable_statement_well_nested(n: Node)
    requires
        n is VariableStatement,
    ensures
        forall|c: PrintContext, ie: bool| well_nested(#[trigger] doc_variable_statement(c, n, ie)),
        forall|c: PrintContext, ie: bool| well_nested(#[trigger] doc_node(c, n, ie)),
    decreases n, 0int, 1int,
{
    match n {
        Node::VariableStatement { modifiers, declarations, .. } => {
            lemma_nodes_docs_well_nested(modifiers@);
            lemma_nodes_docs_well_nested(declarations@);
        },
        _ => {},
    }
    assert forall|c: PrintContext, ie: bool| well_nested(#[trigger] doc_variable_statement(c, n, ie)) by {
        lemma_piece_nesting();
        match n {
            Node::VariableStatement { modifiers, kind, declarations } => {
                assert(doc_variable_statement(c, n, ie) == (doc_modifiers(
                    c,
                    modifiers@,
                    0,
                    false,
                    ie,
                ) + variable_keyword_doc(kind) + t(" "@) + doc_items(
                    c,
                    declarations@,
                    0,
                    declarations@.len() as int,
                    ListFormat(FORMAT_VARIABLE_DECLARATION_LIST),
                    false,
                    ChildMode::Plain,
                    ie,
                ) + t(";"@)));
            },
            _ => {},
        }
    }
    assert forall|c: PrintContext, ie: bool| well_nested(#[trigger] doc_node(c, n, ie)) by {
        assert(well_nested(doc_variable_statement(c, n, ie)));
    }
}

/// The document of a variable declaration is well nested.
#[verifier::spinoff_prover]
proof fn lemma_variable_declaration_well_nested(n: Node)
    requires
        n is VariableDeclaration,
    ensures
        forall|c: PrintContext, ie: bool| well_nested(#[trigger] doc_variable_declaration(c, n, ie)),
        forall|c: PrintContext, ie: bool| well_nested(#[trigger] doc_node(c, n, ie)),
    decreases n, 0int, 1int,
{
    match n {
        Node::VariableDeclaration { name, type_node, initializer } => {
            lemma_node_docs_well_nested(*name);
            match type_node {
                Option::Some(x) => lemma_node_docs_well_nested(*x),
                Option::None => {},
            }
            match initializer {
                Option::Some(x) => lemma_node_docs_well_nested(*x),
                Option::None => {},
            }
        },
        _ => {},
    }
    assert forall|c: PrintContext, ie: bool| well_nested(#[trigger] doc_variable_declaration(c, n, ie)) by {
        lemma_piece_nesting();
        match n {
            Node::VariableDeclaration { name, type_node, initializer } => {
                assert(doc_variable_declaration(c, n, ie) == (doc_node(c, *name, ie) + match type_node {
                    Option::Some(ty) => t(":"@) + t(" "@) + doc_node(c, *ty, ie),
                    Option::None => Seq::empty(),
                } + match initializer {
                    Option::Some(e) => t(" "@) + t("="@) + t(" "@) + doc_expr(
                        c,
                        *e,
                        OPERATOR_PRECEDENCE_DISALLOW_COMMA,
                        ie,
                    ),
                    Option::None => Seq::empty(),
                }));
            },
            _ => {},
        }
    }
    assert forall|c: PrintContext, ie: bool| well_nested(#[trigger] doc_node(c, n, ie)) by {
        assert(well_nested(doc_variable_declaration(c, n, ie)));
    }
}

/// The document of a return statement node is well nested.
#[verifier::spinoff_prover]
proof fn lemma_return_statement_well_nested(n: Node)
    requires
        n is ReturnStatement,
    ensures
        forall|c: PrintContext, ie: bool| well_nested(#[trigger] doc_return_statement(c, n, ie)),
        forall|c: PrintContext, ie: bool| well_nested(#[trigger] doc_node(c, n, ie)),
    decreases n, 0int, 1int,
{
    match n {
        Node::ReturnStatement(f0) => {
            match f0 {
                Option::Some(x) => lemma_node_docs_well_nested(*x),
                Option::None => {},
            }
        },
        _ => {},
    }
    assert forall|c: PrintContext, ie: bool| well_nested(#[trigger] doc_return_statement(c, n, ie)) by {
        lemma_piece_nesting();
        match n {
            Node::ReturnStatement(e) => {
                assert(doc_return_statement(c, n, ie) == (t("return"@) + match e {
                    Option::Some(e) => t(" "@) + doc_expr(c, *e, OPERATOR_PRECEDENCE_LOWEST, ie),
                    Option::None => Seq::empty(),
                } + t(";"@)));
            },
            _ => {},
        }
    }
    assert forall|c: PrintContext, ie: bool| well_nested(#[trigger] doc_node(c, n, ie)) by {
        assert(well_nested(doc_return_statement(c, n, ie)));
    }
}

/// The document of a if statement node is well nested.
#[verifier::spinoff_prover]
proof fn lemma_if_statement_well_nested(n: Node)
    requires
        n is IfStatement,
    ensures
        forall|c: PrintContext, ie: bool| well_nested(#[trigger] doc_if_statement(c, n, ie)),
        forall|c: PrintContext, ie: bool| well_nested(#[trigger] doc_node(c, n, ie)),
    decreases n, 0int, 1int,
{
    match n {
        Node::IfStatement { expression, then_statement, else_statement, .. } => {
            lemma_node_docs_well_nested(*expression);
            lemma_node_docs_well_nested(*then_statement);
            match else_statement {
                Option::Some(x) => lemma_node_docs_well_nested(*x),
                Option::None => {},
            }
        },
        _ => {},
    }
    assert forall|c: PrintContext, ie: bool| well_nested(#[trigger] doc_if_statement(c, n, ie)) by {
        lemma_piece_nesting();
        match n {
            Node::IfStatement { expression, then_statement, else_statement } => {
                assert(doc_if_statement(c, n, ie) == (t("if"@) + t(" "@) + t(
                    "("@,
                ) + doc_node(c, *expression, ie) + t(")"@) + doc_embedded(c, *then_statement, ie)
                    + match else_statement {
                    Option::Some(s) => (if c.preserve_source_newlines {
                        t(" "@)
                    } else {
                        seq![Piece::Line]
                    }) + t("else"@) + (if *s is IfStatement {
                        t(" "@) + doc_node(c, *s, ie)
                    } else {
                        doc_embedded(c, *s, ie)
                    }),
                    Option::None => Seq::empty(),
                }));
            },
            _ => {},
        }
    }
    assert forall|c: PrintContext, ie: bool| well_nested(#[trigger] doc_node(c, n, ie)) by {
        assert(well_nested(doc_if_statement(c, n, ie)));
    }
}

/// The document of a block node is well nested.
#[verifier::spinoff_prover]
proof fn lemma_block_well_nested(n: Node)
    requires
        n is Block,
    ensures
        forall|c: PrintContext, ie: bool| well_nested(#[trigger] doc_block(c, n, ie)),
        forall|c: PrintContext, ie: bool| well_nested(#[trigger] doc_node(c, n, ie)),
        forall|c: PrintContext, ie: bool| well_nested(#[trigger] doc_function_body(c, n, ie)),
    decreases n, 0int, 1int,
{
    match n {
        Node::Block { statements, .. } => {
            lemma_nodes_docs_well_nested(statements@);
        },
        _ => {},
    }
    assert forall|c: PrintContext, ie: bool| well_nested(#[trigger] doc_block(c, n, ie)) by {
        lemma_piece_nesting();
        match n {
            Node::Block { statements, multi_line } => {
                assert(doc_block(c, n, ie) == (t("{"@) + doc_list(
                    c,
                    statements@,
                    0,
                    statements@.len() as int,
                    block_format(statements@.len(), multi_line),
                    false,
                    ChildMode::Plain,
                    ie,
                ) + t("}"@)));
            },
            _ => {},
        }
    }
    assert forall|c: PrintContext, ie: bool| well_nested(#[trigger] doc_function_body(c, n, ie)) by {
        lemma_piece_nesting();
        match n {
            Node::Block { statements, multi_line } => {
                assert(doc_function_body(c, n, ie) == ({
                    let n = statements@.len() as int;
                    t("{"@) + seq![Piece::Indent] + (if function_body_on_single_line(
                        c,
                        statements@.len(),
                        multi_line,
                    ) {
                        seq![Piece::Dedent] + doc_items(
                            c,
                            statements@,
                            0,
                            n,
                            ListFormat(FORMAT_SINGLE_LINE_FUNCTION_BODY_STATEMENTS),
                            false,
                            ChildMode::Plain,
                            ie,
                        ) + seq![Piece::Indent]
                    } else {
                        doc_items(
                            c,
                            statements@,
                            0,
                            n,
                            ListFormat(FORMAT_MULTI_LINE_FUNCTION_BODY_STATEMENTS),
                            false,
                            ChildMode::Plain,
                            ie,
                        )
                    }) + seq![Piece::Dedent] + t("}"@)
                }));
                lemma_function_body_frame(
                    doc_items(
                        c,
                        statements@,
                        0,
                        statements@.len() as int,
                        ListFormat(FORMAT_SINGLE_LINE_FUNCTION_BODY_STATEMENTS),
                        false,
                        ChildMode::Plain,
                        ie,
                    ),
                    doc_items(
                        c,
                        statements@,
                        0,
                        statements@.len() as int,
                        ListFormat(FORMAT_MULTI_LINE_FUNCTION_BODY_STATEMENTS),
                        false,
                        ChildMode::Plain,
                        ie,
                    ),
                    function_body_on_single_line(c, statements@.len(), multi_line),
                );
            },
            _ => {},
        }
    }
    assert forall|c: PrintContext, ie: bool| well_nested(#[trigger] doc_node(c, n, ie)) by {
        assert(well_nested(doc_block(c, n, ie)));
    }
}

/// The document of a function declaration is well nested.
#[verifier::spinoff_prover]
proof fn lemma_function_declaration_well_nested(n: Node)
    requires
        n is FunctionDeclaration,
    ensures
        forall|c: PrintContext, ie: bool| well_nested(#[trigger] doc_function_declaration(c, n, ie)),
        forall|c: PrintContext, ie: bool| well_nested(#[trigger] doc_node(c, n, ie)),
    decreases n, 0int, 1int,
{
    match n {
        Node::FunctionDeclaration { modifiers, body, .. } => {
            lemma_nodes_docs_well_nested(modifiers@);
            lemma_signature_like_well_nested(n);
            lemma_optional_body_well_nested(body);
        },
        _ => {},
    }
    assert forall|c: PrintContext, ie: bool| well_nested(#[trigger] doc_function_declaration(c, n, ie)) by {
        lemma_piece_nesting();
        match n {
            Node::FunctionDeclaration { modifiers, asterisk, name, body, .. } => {
                assert(well_nested(signature_like_doc(c, n, ie)));
                assert(well_nested(optional_body_doc(c, body, ie)));
                assert(doc_function_declaration(c, n, ie) == (doc_modifiers(
                    c,
                    modifiers@,
                    0,
                    false,
                    ie,
                ) + t("function"@) + (if asterisk {
                    t("*"@)
                } else {
                    Seq::empty()
                }) + t(" "@) + optional_text(name) + signature_like_doc(c, n, ie) + optional_body_doc(c, body, ie)));
            },
            _ => {},
        }
    }
    assert forall|c: PrintContext, ie: bool| well_nested(#[trigger] doc_node(c, n, ie)) by {
        assert(well_nested(doc_function_declaration(c, n, ie)));
    }
}

/// The document of a source file node node is well nested.
#[verifier::spinoff_prover]
proof fn lemma_source_file_node_well_nested(n: Node)
    requires
        n is SourceFile,
    ensures
        forall|c: PrintContext, ie: bool| well_nested(#[trigger] doc_source_file_node(c, n, ie)),
        forall|c: PrintContext, ie: bool| well_nested(#[trigger] doc_node(c, n, ie)),
    decreases n, 0int, 1int,
{
    match n {
        Node::SourceFile { statements, .. } => {
            lemma_nodes_docs_well_nested(statements@);
        },
        _ => {},
    }
    assert forall|c: PrintContext, ie: bool| well_nested(#[trigger] doc_source_file_node(c, n, ie)) by {
        lemma_piece_nesting();
        match n {
            Node::SourceFile { statements } => {
                assert(doc_source_file_node(c, n, ie) == (seq![Piece::Line] + (if statements@.len() == 0 {
                    Seq::empty()
                } else {
                    doc_items(
                        c,
                        statements@,
                        0,
                        statements@.len() as int,
                        ListFormat(FORMAT_SOURCE_FILE_STATEMENTS),
                        false,
                        ChildMode::Plain,
                        ie,
                    )
                })));
            },
            _ => {},
        }
    }
    assert forall|c: PrintContext, ie: bool| well_nested(#[trigger] doc_node(c, n, ie)) by {
        assert(well_nested(doc_source_file_node(c, n, ie)));
    }
}

/// The document of a `do` or `while` statement is well nested.
#[verifier::spinoff_prover]
proof fn lemma_loop_statement_well_nested(n: Node)
    requires
        n is DoStatement || n is WhileStatement,
    ensures
        forall|c: PrintContext, ie: bool| well_nested(#[trigger] doc_loop_statement(c, n, ie)),
        forall|c: PrintContext, ie: bool| well_nested(#[trigger] doc_node(c, n, ie)),
    decreases n, 0int, 1int,
{
    match n {
        Node::DoStatement { statement, expression } => {
            lemma_node_docs_well_nested(*statement);
            lemma_node_docs_well_nested(*expression);
        },
        Node::WhileStatement { expression, statement } => {
            lemma_node_docs_well_nested(*expression);
            lemma_node_docs_well_nested(*statement);
        },
        _ => {},
    }
    assert forall|c: PrintContext, ie: bool| well_nested(#[trigger] doc_loop_statement(c, n, ie)) by {
        lemma_piece_nesting();
        match n {
            Node::DoStatement { statement, expression } => {
                assert(doc_loop_statement(c, n, ie) == (t("do"@) + doc_embedded(c, *statement, ie) + (
                if c.preserve_source_newlines || *statement is Block {
                    t(" "@)
                } else {
                    seq![Piece::Line]
                }) + t("while"@) + t(" "@) + t("("@) + doc_node(c, *expression, ie) + t(")"@) + t(";"@)));
            },
            Node::WhileStatement { expression, statement } => {
                assert(doc_loop_statement(c, n, ie) == (t("while"@) + t(" "@) + t("("@) + doc_node(
                    c,
                    *expression,
                    ie,
                ) + t(")"@) + doc_embedded(c, *statement, ie)));
            },
            _ => {},
        }
    }
    assert forall|c: PrintContext, ie: bool| well_nested(#[trigger] doc_node(c, n, ie)) by {
        assert(well_nested(doc_loop_statement(c, n, ie)));
    }
}

/// The document of a `for` statement is well nested.
#[verifier::spinoff_prover]
proof fn lemma_for_statement_well_nested(n: Node)
    requires
        n is ForStatement,
    ensures
        forall|c: PrintContext, ie: bool| well_nested(#[trigger] doc_for_statement(c, n, ie)),
        forall|c: PrintContext, ie: bool| well_nested(#[trigger] doc_node(c, n, ie)),
    decreases n, 0int, 1int,
{
    match n {
        Node::ForStatement { initializer, condition, incrementor, statement } => {
            match initializer {
                Option::Some(x) => lemma_node_docs_well_nested(*x),
                Option::None => {},
            }
            match condition {
                Option::Some(x) => lemma_node_docs_well_nested(*x),
                Option::None => {},
            }
            match incrementor {
                Option::Some(x) => lemma_node_docs_well_nested(*x),
                Option::None => {},
            }
            lemma_node_docs_well_nested(*statement);
        },
        _ => {},
    }
    assert forall|c: PrintContext, ie: bool| well_nested(#[trigger] doc_for_statement(c, n, ie)) by {
        lemma_piece_nesting();
        match n {
            Node::ForStatement { initializer, condition, incrementor, statement } => {
                assert(doc_for_statement(c, n, ie) == (t("for"@) + t(" "@)
                    + t("("@) + match initializer {
                    Option::Some(i) => doc_node(c, *i, ie),
                    Option::None => Seq::empty(),
                } + t(";"@) + match condition {
                    Option::Some(e) => t(" "@) + doc_node(c, *e, ie),
                    Option::None => Seq::empty(),
                } + t(";"@) + match incrementor {
                    Option::Some(e) => t(" "@) + doc_node(c, *e, ie),
                    Option::None => Seq::empty(),
                } + t(")"@) + doc_embedded(c, *statement, ie)));
            },
            _ => {},
        }
    }
    assert forall|c: PrintContext, ie: bool| well_nested(#[trigger] doc_node(c, n, ie)) by {
        assert(well_nested(doc_for_statement(c, n, ie)));
    }
}

/// The document of a `for`-`in` or `for`-`of` statement is well nested.
#[verifier::spinoff_prover]
proof fn lemma_for_in_or_of_statement_well_nested(n: Node)
    requires
        n is ForInStatement || n is ForOfStatement,
    ensures
        forall|c: PrintContext, ie: bool| well_nested(#[trigger] doc_for_in_or_of_statement(c, n, ie)),
        forall|c: PrintContext, ie: bool| well_nested(#[trigger] doc_node(c, n, ie)),
    decreases n, 0int, 1int,
{
    match n {
        Node::ForInStatement { initializer, expression, statement } => {
            lemma_node_docs_well_nested(*initializer);
            lemma_node_docs_well_nested(*expression);
            lemma_node_docs_well_nested(*statement);
        },
        Node::ForOfStatement { initializer, expression, statement, .. } => {
            lemma_node_docs_well_nested(*initializer);
            lemma_node_docs_well_nested(*expression);
            lemma_node_docs_well_nested(*statement);
        },
        _ => {},
    }
    assert forall|c: PrintContext, ie: bool| well_nested(#[trigger] doc_for_in_or_of_statement(c, n, ie)) by {
        lemma_piece_nesting();
        match n {
            Node::ForInStatement { initializer, expression, statement } => {
                assert(doc_for_in_or_of_statement(c, n, ie) == (t("for"@) + t(" "@) + t("("@)
                    + doc_node(c, *initializer, ie) + t(" "@) + t("in"@) + t(" "@) + doc_node(
                    c,
                    *expression,
                    ie,
                ) + t(")"@) + doc_embedded(c, *statement, ie)));
            },
            Node::ForOfStatement { is_await, initializer, expression, statement } => {
                assert(doc_for_in_or_of_statement(c, n, ie) == (t("for"@) + t(" "@)
                    + (if is_await {
                    t("await"@) + t(" "@)
                } else {
                    Seq::empty()
                }) + t("("@) + doc_node(c, *initializer, ie) + t(" "@) + t("of"@) + t(" "@) + doc_node(
                    c,
                    *expression,
                    ie,
                ) + t(")"@) + doc_embedded(c, *statement, ie)));
            },
            _ => {},
        }
    }
    assert forall|c: PrintContext, ie: bool| well_nested(#[trigger] doc_node(c, n, ie)) by {
        assert(well_nested(doc_for_in_or_of_statement(c, n, ie)));
    }
}

/// The document of a `continue`, `break` or `throw` statement is well nested.
#[verifier::spinoff_prover]
proof fn lemma_jump_statement_well_nested(n: Node)
    requires
        n is ContinueStatement || n is BreakStatement || n is ThrowStatement,
    ensures
        forall|c: PrintContext, ie: bool| well_nested(#[trigger] doc_jump_statement(c, n, ie)),
        forall|c: PrintContext, ie: bool| well_nested(#[trigger] doc_node(c, n, ie)),
    decreases n, 0int, 1int,
{
    match n {
        Node::ThrowStatement(e) => {
            match e {
                Option::Some(x) => lemma_node_docs_well_nested(*x),
                Option::None => {},
            }
        },
        _ => {},
    }
    assert forall|c: PrintContext, ie: bool| well_nested(#[trigger] doc_jump_statement(c, n, ie)) by {
        lemma_piece_nesting();
        match n {
            Node::ContinueStatement(label) => {
                assert(doc_jump_statement(c, n, ie) == (t("continue"@) + optional_label(label) + t(";"@)));
            },
            Node::BreakStatement(label) => {
                assert(doc_jump_statement(c, n, ie) == (t("break"@) + optional_label(label) + t(";"@)));
            },
            Node::ThrowStatement(e) => {
                assert(doc_jump_statement(c, n, ie) == (t("throw"@) + match e {
                    Option::Some(e) => t(" "@) + doc_expr(c, *e, OPERATOR_PRECEDENCE_LOWEST, ie),
                    Option::None => Seq::empty(),
                } + t(";"@)));
            },
            _ => {},
        }
    }
    assert forall|c: PrintContext, ie: bool| well_nested(#[trigger] doc_node(c, n, ie)) by {
        assert(well_nested(doc_jump_statement(c, n, ie)));
    }
}

/// The document of a `try` statement is well nested.
#[verifier::spinoff_prover]
proof fn lemma_try_statement_well_nested(n: Node)
    requires
        n is TryStatement,
    ensures
        forall|c: PrintContext, ie: bool| well_nested(#[trigger] doc_try_statement(c, n, ie)),
        forall|c: PrintContext, ie: bool| well_nested(#[trigger] doc_node(c, n, ie)),
    decreases n, 0int, 1int,
{
    match n {
        Node::TryStatement { try_block, catch_clause, finally_block } => {
            lemma_node_docs_well_nested(*try_block);
            match catch_clause {
                Option::Some(x) => lemma_node_docs_well_nested(*x),
                Option::None => {},
            }
            match finally_block {
                Option::Some(x) => lemma_node_docs_well_nested(*x),
                Option::None => {},
            }
        },
        _ => {},
    }
    assert forall|c: PrintContext, ie: bool| well_nested(#[trigger] doc_try_statement(c, n, ie)) by {
        lemma_piece_nesting();
        match n {
            Node::TryStatement { try_block, catch_clause, finally_block } => {
                assert(doc_try_statement(c, n, ie) == (t("try"@) + t(" "@)
                    + doc_node(c, *try_block, ie) + match catch_clause {
                    Option::Some(cc) => line_or_space(c) + doc_node(c, *cc, ie),
                    Option::None => Seq::empty(),
                } + match finally_block {
                    Option::Some(f) => line_or_space(c) + t("finally"@) + t(" "@) + doc_node(c, *f, ie),
                    Option::None => Seq::empty(),
                }));
            },
            _ => {},
        }
    }
    assert forall|c: PrintContext, ie: bool| well_nested(#[trigger] doc_node(c, n, ie)) by {
        assert(well_nested(doc_try_statement(c, n, ie)));
    }
}

/// The document of a `catch` clause is well nested.
#[verifier::spinoff_prover]
proof fn lemma_catch_clause_well_nested(n: Node)
    requires
        n is CatchClause,
    ensures
        forall|c: PrintContext, ie: bool| well_nested(#[trigger] doc_catch_clause(c, n, ie)),
        forall|c: PrintContext, ie: bool| well_nested(#[trigger] doc_node(c, n, ie)),
    decreases n, 0int, 1int,
{
    match n {
        Node::CatchClause { variable_declaration, block } => {
            match variable_declaration {
                Option::Some(x) => lemma_node_docs_well_nested(*x),
                Option::None => {},
            }
            lemma_node_docs_well_nested(*block);
        },
        _ => {},
    }
    assert forall|c: PrintContext, ie: bool| well_nested(#[trigger] doc_catch_clause(c, n, ie)) by {
        lemma_piece_nesting();
        match n {
            Node::CatchClause { variable_declaration, block } => {
                assert(doc_catch_clause(c, n, ie) == (t("catch"@) + match variable_declaration {
                    Option::Some(v) => t(" "@) + t("("@) + doc_node(c, *v, ie) + t(")"@),
                    Option::None => Seq::empty(),
                } + t(" "@) + doc_node(c, *block, ie)));
            },
            _ => {},
        }
    }
    assert forall|c: PrintContext, ie: bool| well_nested(#[trigger] doc_node(c, n, ie)) by {
        assert(well_nested(doc_catch_clause(c, n, ie)));
    }
}

/// The document of a `switch` statement is well nested.
#[verifier::spinoff_prover]
proof fn lemma_switch_statement_well_nested(n: Node)
    requires
        n is SwitchStatement,
    ensures
        forall|c: PrintContext, ie: bool| well_nested(#[trigger] doc_switch_statement(c, n, ie)),
        forall|c: PrintContext, ie: bool| well_nested(#[trigger] doc_node(c, n, ie)),
    decreases n, 0int, 1int,
{
    match n {
        Node::SwitchStatement { expression, clauses } => {
            lemma_node_docs_well_nested(*expression);
            lemma_nodes_docs_well_nested(clauses@);
        },
        _ => {},
    }
    assert forall|c: PrintContext, ie: bool| well_nested(#[trigger] doc_switch_statement(c, n, ie)) by {
        lemma_piece_nesting();
        match n {
            Node::SwitchStatement { expression, clauses } => {
                assert(doc_switch_statement(c, n, ie) == (t("switch"@) + t(" "@) + t("("@) + doc_node(
                    c,
                    *expression,
                    ie,
                ) + t(")"@) + t(" "@) + t("{"@) + doc_items(
                    c,
                    clauses@,
                    0,
                    clauses@.len() as int,
                    ListFormat(FORMAT_CASE_BLOCK_CLAUSES),
                    false,
                    ChildMode::Plain,
                    ie,
                ) + t("}"@)));
            },
            _ => {},
        }
    }
    assert forall|c: PrintContext, ie: bool| well_nested(#[trigger] doc_node(c, n, ie)) by {
        assert(well_nested(doc_switch_statement(c, n, ie)));
    }
}

/// The document of a `case` or `default` clause is well nested.
#[verifier::spinoff_prover]
proof fn lemma_case_or_default_clause_well_nested(n: Node)
    requires
        n is CaseClause || n is DefaultClause,
    ensures
        forall|c: PrintContext, ie: bool| well_nested(#[trigger] doc_case_or_default_clause(c, n, ie)),
        forall|c: PrintContext, ie: bool| well_nested(#[trigger] doc_node(c, n, ie)),
    decreases n, 0int, 1int,
{
    match n {
        Node::CaseClause { expression, statements, .. } => {
            lemma_node_docs_well_nested(*expression);
            lemma_nodes_docs_well_nested(statements@);
        },
        Node::DefaultClause { statements, .. } => {
            lemma_nodes_docs_well_nested(statements@);
        },
        _ => {},
    }
    assert forall|c: PrintContext, ie: bool| well_nested(#[trigger] doc_case_or_default_clause(c, n, ie)) by {
        lemma_piece_nesting();
        match n {
            Node::CaseClause { expression, statements, statement_on_next_line } => {
                assert(well_nested(clause_statements_doc(c, statements@, statement_on_next_line, ie))) by {
                    assert(well_nested(doc_items(c, statements@, 0, 1, ListFormat(FORMAT_SINGLE_CLAUSE_STATEMENT), false, ChildMode::Plain, ie)));
                    assert(well_nested(doc_items(c, statements@, 0, statements@.len() as int, ListFormat(FORMAT_CASE_OR_DEFAULT_CLAUSE_STATEMENTS), false, ChildMode::Plain, ie)));
                }
                assert(doc_case_or_default_clause(c, n, ie) == (t("case"@) + t(" "@) + doc_node(
                    c,
                    *expression,
                    ie,
                ) + t(":"@) + clause_statements_doc(c, statements@, statement_on_next_line, ie)));
            },
            Node::DefaultClause { statements, statement_on_next_line } => {
                assert(well_nested(clause_statements_doc(c, statements@, statement_on_next_line, ie))) by {
                    assert(well_nested(doc_items(c, statements@, 0, 1, ListFormat(FORMAT_SINGLE_CLAUSE_STATEMENT), false, ChildMode::Plain, ie)));
                    assert(well_nested(doc_items(c, statements@, 0, statements@.len() as int, ListFormat(FORMAT_CASE_OR_DEFAULT_CLAUSE_STATEMENTS), false, ChildMode::Plain, ie)));
                }
                assert(doc_case_or_default_clause(c, n, ie) == (t("default"@) + t(":"@) + clause_statements_doc(
                    c,
                    statements@,
                    statement_on_next_line,
                    ie,
                )));
            },
            _ => {},
        }
    }
    assert forall|c: PrintContext, ie: bool| well_nested(#[trigger] doc_node(c, n, ie)) by {
        assert(well_nested(doc_case_or_default_clause(c, n, ie)));
    }
}

/// The document of a labeled statement or a `with` statement is well nested.
#[verifier::spinoff_prover]
proof fn lemma_labeled_or_with_statement_well_nested(n: Node)
    requires
        n is LabeledStatement || n is WithStatement,
    ensures
        forall|c: PrintContext, ie: bool| well_nested(#[trigger] doc_labeled_or_with_statement(c, n, ie)),
        forall|c: PrintContext, ie: bool| well_nested(#[trigger] doc_node(c, n, ie)),
    decreases n, 0int, 1int,
{
    match n {
        Node::LabeledStatement { statement, .. } => {
            lemma_node_docs_well_nested(*statement);
        },
        Node::WithStatement { expression, statement } => {
            lemma_node_docs_well_nested(*expression);
            lemma_node_docs_well_nested(*statement);
        },
        _ => {},
    }
    assert forall|c: PrintContext, ie: bool| well_nested(#[trigger] doc_labeled_or_with_statement(c, n, ie)) by {
        lemma_piece_nesting();
        match n {
            Node::LabeledStatement { label, statement } => {
                assert(doc_labeled_or_with_statement(c, n, ie) == (t(label@) + t(":"@) + t(" "@) + doc_node(
                    c,
                    *statement,
                    ie,
                )));
            },
            Node::WithStatement { expression, statement } => {
                assert(doc_labeled_or_with_statement(c, n, ie) == (t("with"@) + t(" "@) + t("("@) + doc_node(
                    c,
                    *expression,
                    ie,
                ) + t(")"@) + doc_embedded(c, *statement, ie)));
            },
            _ => {},
        }
    }
    assert forall|c: PrintContext, ie: bool| well_nested(#[trigger] doc_node(c, n, ie)) by {
        assert(well_nested(doc_labeled_or_with_statement(c, n, ie)));
    }
}

/// The document of the declarations of a `for` statement's initializer is well nested.
#[verifier::spinoff_prover]
proof fn lemma_variable_declaration_list_well_nested(n: Node)
    requires
        n is VariableDeclarationList,
    ensures
        forall|c: PrintContext, ie: bool| well_nested(#[trigger] doc_variable_declaration_list(c, n, ie)),
        forall|c: PrintContext, ie: bool| well_nested(#[trigger] doc_node(c, n, ie)),
    decreases n, 0int, 1int,
{
    match n {
        Node::VariableDeclarationList { declarations, .. } => {
            lemma_nodes_docs_well_nested(declarations@);
        },
        _ => {},
    }
    assert forall|c: PrintContext, ie: bool| well_nested(#[trigger] doc_variable_declaration_list(c, n, ie)) by {
        lemma_piece_nesting();
        match n {
            Node::VariableDeclarationList { kind, declarations } => {
                assert(doc_variable_declaration_list(c, n, ie) == (variable_keyword_doc(kind) + t(" "@)
                    + doc_items(
                    c,
                    declarations@,
                    0,
                    declarations@.len() as int,
                    ListFormat(FORMAT_VARIABLE_DECLARATION_LIST),
                    false,
                    ChildMode::Plain,
                    ie,
                )));
            },
            _ => {},
        }
    }
    assert forall|c: PrintContext, ie: bool| well_nested(#[trigger] doc_node(c, n, ie)) by {
        assert(well_nested(doc_variable_declaration_list(c, n, ie)));
    }
}

/// The document of a type parameter is well nested.
#[verifier::spinoff_prover]
proof fn lemma_type_parameter_well_nested(n: Node)
    requires
        n is TypeParameter,
    ensures
        forall|c: PrintContext, ie: bool| well_nested(#[trigger] doc_type_parameter(c, n, ie)),
        forall|c: PrintContext, ie: bool| well_nested(#[trigger] doc_node(c, n, ie)),
    decreases n, 0int, 1int,
{
    match n {
        Node::TypeParameter { modifiers, constraint, default_type, .. } => {
            lemma_nodes_docs_well_nested(modifiers@);
            match constraint {
                Option::Some(x) => lemma_node_docs_well_nested(*x),
                Option::None => {},
            }
            match default_type {
                Option::Some(x) => lemma_node_docs_well_nested(*x),
                Option::None => {},
            }
        },
        _ => {},
    }
    assert forall|c: PrintContext, ie: bool| well_nested(#[trigger] doc_type_parameter(c, n, ie)) by {
        lemma_piece_nesting();
        match n {
            Node::TypeParameter { modifiers, name, constraint, default_type } => {
                assert(doc_type_parameter(c, n, ie) == (doc_modifiers(
                    c,
                    modifiers@,
                    0,
                    false,
                    ie,
                ) + t(name@) + match constraint {
                    Option::Some(ct) => t(" "@) + t("extends"@) + t(" "@) + doc_type(c, *ct, TYPE_PRECEDENCE_LOWEST, false),
                    Option::None => Seq::empty(),
                } + match default_type {
                    Option::Some(d) => t(" "@) + t("="@) + t(" "@) + doc_type(c, *d, TYPE_PRECEDENCE_LOWEST, false),
                    Option::None => Seq::empty(),
                }));
            },
            _ => {},
        }
    }
    assert forall|c: PrintContext, ie: bool| well_nested(#[trigger] doc_node(c, n, ie)) by {
        assert(well_nested(doc_type_parameter(c, n, ie)));
    }
}

/// The document of a heritage clause is well nested.
#[verifier::spinoff_prover]
proof fn lemma_heritage_clause_well_nested(n: Node)
    requires
        n is HeritageClause,
    ensures
        forall|c: PrintContext, ie: bool| well_nested(#[trigger] doc_heritage_clause(c, n, ie)),
        forall|c: PrintContext, ie: bool| well_nested(#[trigger] doc_node(c, n, ie)),
    decreases n, 0int, 1int,
{
    match n {
        Node::HeritageClause { types, .. } => {
            lemma_nodes_docs_well_nested(types@);
        },
        _ => {},
    }
    assert forall|c: PrintContext, ie: bool| well_nested(#[trigger] doc_heritage_clause(c, n, ie)) by {
        lemma_piece_nesting();
        match n {
            Node::HeritageClause { is_implements, types } => {
                assert(doc_heritage_clause(c, n, ie) == (t(" "@) + (if is_implements {
                    t("implements"@)
                } else {
                    t("extends"@)
                }) + t(" "@) + doc_items(
                    c,
                    types@,
                    0,
                    types@.len() as int,
                    ListFormat(FORMAT_HERITAGE_CLAUSE_TYPES),
                    false,
                    ChildMode::Plain,
                    ie,
                )));
            },
            _ => {},
        }
    }
    assert forall|c: PrintContext, ie: bool| well_nested(#[trigger] doc_node(c, n, ie)) by {
        assert(well_nested(doc_heritage_clause(c, n, ie)));
    }
}

/// The document of a type literal is well nested.
#[verifier::spinoff_prover]
proof fn lemma_type_literal_well_nested(n: Node)
    requires
        n is TypeLiteral,
    ensures
        forall|c: PrintContext, ie: bool| well_nested(#[trigger] doc_type_literal(c, n, ie)),
        forall|c: PrintContext, ie: bool| well_nested(#[trigger] doc_node(c, n, ie)),
    decreases n, 0int, 1int,
{
    match n {
        Node::TypeLiteral { members, .. } => {
            lemma_nodes_docs_well_nested(members@);
        },
        _ => {},
    }
    assert forall|c: PrintContext, ie: bool| well_nested(#[trigger] doc_type_literal(c, n, ie)) by {
        lemma_piece_nesting();
        match n {
            Node::TypeLiteral { members, single_line } => {
                assert(doc_type_literal(c, n, ie) == (t("{"@) + doc_list(
                    c,
                    members@,
                    0,
                    members@.len() as int,
                    type_literal_format(single_line),
                    false,
                    ChildMode::Plain,
                    ie,
                ) + t("}"@)));
            },
            _ => {},
        }
    }
    assert forall|c: PrintContext, ie: bool| well_nested(#[trigger] doc_node(c, n, ie)) by {
        assert(well_nested(doc_type_literal(c, n, ie)));
    }
}

/// The document of a property or method signature is well nested.
#[verifier::spinoff_prover]
proof fn lemma_signature_well_nested(n: Node)
    requires
        n is PropertySignature || n is MethodSignature,
    ensures
        forall|c: PrintContext, ie: bool| well_nested(#[trigger] doc_signature(c, n, ie)),
        forall|c: PrintContext, ie: bool| well_nested(#[trigger] doc_node(c, n, ie)),
    decreases n, 0int, 1int,
{
    match n {
        Node::PropertySignature { modifiers, name, type_node, .. } => {
            lemma_nodes_docs_well_nested(modifiers@);
            lemma_node_docs_well_nested(*name);
            lemma_type_annotation_well_nested(type_node);
        },
        Node::MethodSignature { modifiers, name, .. } => {
            lemma_nodes_docs_well_nested(modifiers@);
            lemma_node_docs_well_nested(*name);
            lemma_signature_like_well_nested(n);
        },
        _ => {},
    }
    assert forall|c: PrintContext, ie: bool| well_nested(#[trigger] doc_signature(c, n, ie)) by {
        lemma_piece_nesting();
        match n {
            Node::PropertySignature { modifiers, name, question, type_node } => {
                assert(well_nested(type_annotation_doc(c, type_node)));
                assert(doc_signature(c, n, ie) == (doc_modifiers(
                    c,
                    modifiers@,
                    0,
                    false,
                    ie,
                ) + doc_node(c, *name, ie) + (if question {
                    t("?"@)
                } else {
                    Seq::empty()
                }) + type_annotation_doc(c, type_node) + t(";"@)));
            },
            Node::MethodSignature { modifiers, name, question, .. } => {
                assert(well_nested(signature_like_doc(c, n, ie)));
                assert(doc_signature(c, n, ie) == (doc_modifiers(
                    c,
                    modifiers@,
                    0,
                    false,
                    ie,
                ) + doc_node(c, *name, ie) + (if question {
                    t("?"@)
                } else {
                    Seq::empty()
                }) + signature_like_doc(c, n, ie) + t(";"@)));
            },
            _ => {},
        }
    }
    assert forall|c: PrintContext, ie: bool| well_nested(#[trigger] doc_node(c, n, ie)) by {
        assert(well_nested(doc_signature(c, n, ie)));
    }
}

/// The document of a method, a constructor or an accessor is well nested.
#[verifier::spinoff_prover]
#[verifier::rlimit(30)]
proof fn lemma_method_like_well_nested(n: Node)
    requires
        n is MethodDeclaration || n is Constructor || n is GetAccessor || n is SetAccessor,
    ensures
        forall|c: PrintContext, ie: bool| well_nested(#[trigger] doc_method_like(c, n, ie)),
        forall|c: PrintContext, ie: bool| well_nested(#[trigger] doc_node(c, n, ie)),
    decreases n, 0int, 1int,
{
    match n {
        Node::MethodDeclaration { modifiers, name, body, .. } => {
            lemma_nodes_docs_well_nested(modifiers@);
            lemma_node_docs_well_nested(*name);
            lemma_signature_like_well_nested(n);
            lemma_optional_body_well_nested(body);
        },
        Node::Constructor { modifiers, parameters, type_node, body } => {
            lemma_nodes_docs_well_nested(modifiers@);
            lemma_nodes_docs_well_nested(parameters@);
            lemma_constructor_annotation_well_nested(type_node);
            lemma_optional_body_well_nested(body);
        },
        Node::GetAccessor { modifiers, name, parameters, type_node, body } => {
            lemma_nodes_docs_well_nested(modifiers@);
            lemma_node_docs_well_nested(*name);
            lemma_nodes_docs_well_nested(parameters@);
            lemma_type_annotation_well_nested(type_node);
            lemma_optional_body_well_nested(body);
        },
        Node::SetAccessor { modifiers, name, parameters, type_node, body } => {
            lemma_nodes_docs_well_nested(modifiers@);
            lemma_node_docs_well_nested(*name);
            lemma_nodes_docs_well_nested(parameters@);
            lemma_type_annotation_well_nested(type_node);
            lemma_optional_body_well_nested(body);
        },
        _ => {},
    }
    assert forall|c: PrintContext, ie: bool| well_nested(#[trigger] doc_method_like(c, n, ie)) by {
        lemma_piece_nesting();
        match n {
            Node::MethodDeclaration { modifiers, asterisk, name, question, body, .. } => {
                assert(well_nested(signature_like_doc(c, n, ie)));
                assert(well_nested(optional_body_doc(c, body, ie)));
                assert(doc_method_like(c, n, ie) == (doc_modifiers(
                    c,
                    modifiers@,
                    0,
                    true,
                    ie,
                ) + (if asterisk {
                    t("*"@)
                } else {
                    Seq::empty()
                }) + doc_node(c, *name, ie) + (if question {
                    t("?"@)
                } else {
                    Seq::empty()
                }) + signature_like_doc(c, n, ie) + optional_body_doc(c, body, ie)));
            },
            Node::Constructor { modifiers, parameters, type_node, body } => {
                assert(well_nested(constructor_annotation_doc(c, type_node, ie)));
                assert(well_nested(optional_body_doc(c, body, ie)));
                assert(doc_method_like(c, n, ie) == (doc_modifiers(
                    c,
                    modifiers@,
                    0,
                    false,
                    ie,
                ) + t("constructor"@) + doc_list(
                    c,
                    parameters@,
                    0,
                    parameters@.len() as int,
                    ListFormat(FORMAT_PARAMETERS),
                    false,
                    ChildMode::Plain,
                    ie,
                ) + constructor_annotation_doc(c, type_node, ie) + optional_body_doc(c, body, ie)));
            },
            Node::GetAccessor { modifiers, name, parameters, type_node, body } => {
                assert(well_nested(type_annotation_doc(c, type_node)));
                assert(well_nested(optional_body_doc(c, body, ie)));
                assert(doc_method_like(c, n, ie) == (doc_modifiers(
                    c,
                    modifiers@,
                    0,
                    true,
                    ie,
                ) + t("get"@) + t(" "@) + doc_node(c, *name, ie) + doc_list(
                    c,
                    parameters@,
                    0,
                    parameters@.len() as int,
                    ListFormat(FORMAT_PARAMETERS),
                    false,
                    ChildMode::Plain,
                    ie,
                ) + type_annotation_doc(c, type_node) + optional_body_doc(c, body, ie)));
            },
            Node::SetAccessor { modifiers, name, parameters, type_node, body } => {
                assert(well_nested(type_annotation_doc(c, type_node)));
                assert(well_nested(optional_body_doc(c, body, ie)));
                assert(doc_method_like(c, n, ie) == (doc_modifiers(
                    c,
                    modifiers@,
                    0,
                    true,
                    ie,
                ) + t("set"@) + t(" "@) + doc_node(c, *name, ie) + doc_list(
                    c,
                    parameters@,
                    0,
                    parameters@.len() as int,
                    ListFormat(FORMAT_PARAMETERS),
                    false,
                    ChildMode::Plain,
                    ie,
                ) + type_annotation_doc(c, type_node) + optional_body_doc(c, body, ie)));
            },
            _ => {},
        }
    }
    assert forall|c: PrintContext, ie: bool| well_nested(#[trigger] doc_node(c, n, ie)) by {
        assert(well_nested(doc_method_like(c, n, ie)));
    }
}

/// The document of an enum declaration or member is well nested.
#[verifier::spinoff_prover]
proof fn lemma_enum_well_nested(n: Node)
    requires
        n is EnumDeclaration || n is EnumMember,
    ensures
        forall|c: PrintContext, ie: bool| well_nested(#[trigger] doc_enum(c, n, ie)),
        forall|c: PrintContext, ie: bool| well_nested(#[trigger] doc_node(c, n, ie)),
    decreases n, 0int, 1int,
{
    match n {
        Node::EnumDeclaration { modifiers, members, .. } => {
            lemma_nodes_docs_well_nested(modifiers@);
            lemma_nodes_docs_well_nested(members@);
        },
        Node::EnumMember { name, initializer } => {
            lemma_node_docs_well_nested(*name);
            match initializer {
                Option::Some(x) => lemma_node_docs_well_nested(*x),
                Option::None => {},
            }
        },
        _ => {},
    }
    assert forall|c: PrintContext, ie: bool| well_nested(#[trigger] doc_enum(c, n, ie)) by {
        lemma_piece_nesting();
        match n {
            Node::EnumDeclaration { modifiers, name, members } => {
                assert(doc_enum(c, n, ie) == (doc_modifiers(
                    c,
                    modifiers@,
                    0,
                    false,
                    ie,
                ) + t("enum"@) + t(" "@) + t(name@) + t(" "@) + t("{"@) + doc_list(
                    c,
                    members@,
                    0,
                    members@.len() as int,
                    ListFormat(FORMAT_ENUM_MEMBERS),
                    false,
                    ChildMode::Plain,
                    ie,
                ) + t("}"@)));
            },
            Node::EnumMember { name, initializer } => {
                assert(doc_enum(c, n, ie) == (doc_node(c, *name, ie) + match initializer {
                    Option::Some(e) => t(" "@) + t("="@) + t(" "@) + doc_node(c, *e, ie),
                    Option::None => Seq::empty(),
                }));
            },
            _ => {},
        }
    }
    assert forall|c: PrintContext, ie: bool| well_nested(#[trigger] doc_node(c, n, ie)) by {
        assert(well_nested(doc_enum(c, n, ie)));
    }
}

/// A type annotation is well nested when its type's documents are.
proof fn lemma_type_annotation_well_nested(type_node: Option<Box<Node>>)
    ensures
        forall|c: PrintContext| well_nested(#[trigger] type_annotation_doc(c, type_node)),
    decreases type_node, 0int, 0int,
{
    lemma_piece_nesting();
    match type_node {
        Option::Some(ty) => {
            lemma_node_docs_well_nested(*ty);
            assert forall|c: PrintContext| well_nested(#[trigger] type_annotation_doc(c, type_node)) by {
                assert(type_annotation_doc(c, type_node) == t(":"@) + t(" "@) + doc_type(
                    c,
                    *ty,
                    TYPE_PRECEDENCE_LOWEST,
                    false,
                ));
            }
        },
        Option::None => {},
    }
}

/// The type after a constructor's parameters is well nested when its
/// documents are.
proof fn lemma_constructor_annotation_well_nested(type_node: Option<Box<Node>>)
    ensures
        forall|c: PrintContext, ie: bool| well_nested(#[trigger] constructor_annotation_doc(c, type_node, ie)),
    decreases type_node, 0int, 0int,
{
    lemma_piece_nesting();
    match type_node {
        Option::Some(ty) => {
            lemma_node_docs_well_nested(*ty);
            assert forall|c: PrintContext, ie: bool| well_nested(#[trigger] constructor_annotation_doc(c, type_node, ie)) by {
                assert(constructor_annotation_doc(c, type_node, ie) == t(":"@) + t(" "@) + doc_node(c, *ty, ie));
            }
        },
        Option::None => {},
    }
}

/// A function body, or the `;` in its place, is well nested when the body's
/// documents are.
proof fn lemma_optional_body_well_nested(body: Option<Box<Node>>)
    ensures
        forall|c: PrintContext, ie: bool| well_nested(#[trigger] optional_body_doc(c, body, ie)),
    decreases body, 0int, 0int,
{
    lemma_piece_nesting();
    match body {
        Option::Some(b) => {
            lemma_node_docs_well_nested(*b);
            assert forall|c: PrintContext, ie: bool| well_nested(#[trigger] optional_body_doc(c, body, ie)) by {
                assert(optional_body_doc(c, body, ie) == t(" "@) + doc_function_body(c, *b, ie));
            }
        },
        Option::None => {},
    }
}

/// The sign before `readonly` or `?` in a mapped type is well nested.
proof fn lemma_mapped_modifier_well_nested(m: MappedTypeModifier)
    ensures
        well_nested(mapped_modifier_doc(m)),
{
    lemma_piece_nesting();
}

/// A mapped type's braces, with its key and value one step in on a line of
/// their own unless it stays on one line, are well nested.
proof fn lemma_mapped_type_frame(single_line: bool, key: Seq<Piece>, value: Seq<Piece>)
    requires
        well_nested(key),
        well_nested(value),
    ensures
        well_nested(t("{"@) + mapped_type_open(single_line) + key + value + mapped_type_close(single_line) + t("}"@)),
{
    lemma_piece_nesting();
    let open = t("{"@);
    let o = mapped_type_open(single_line);
    let cl = mapped_type_close(single_line);
    if single_line {
        assert(well_nested(o));
        assert(well_nested(cl));
    } else {
        crate::text_writer::lemma_nesting_concat(seq![Piece::Line], seq![Piece::Indent]);
        crate::text_writer::lemma_nesting_concat(seq![Piece::Line], seq![Piece::Dedent]);
        assert(seq![Piece::Line] + seq![Piece::Indent] =~= o);
        assert(seq![Piece::Line] + seq![Piece::Dedent] =~= cl);
        assert(nesting(o) == 1 && lowest_nesting(o) == 0);
        assert(nesting(cl) == -1 && lowest_nesting(cl) == -1);
    }
    crate::text_writer::lemma_nesting_concat(open, o);
    crate::text_writer::lemma_nesting_concat(open + o, key);
    crate::text_writer::lemma_nesting_concat(open + o + key, value);
    crate::text_writer::lemma_nesting_concat(open + o + key + value, cl);
    crate::text_writer::lemma_nesting_concat(open + o + key + value + cl, t("}"@));
}

/// The head of an interface declaration is well nested.
#[verifier::spinoff_prover]
proof fn lemma_interface_head_well_nested(n: Node)
    requires
        n is InterfaceDeclaration,
    ensures
        forall|c: PrintContext, ie: bool| well_nested(#[trigger] interface_head_doc(c, n, ie)),
    decreases n, 0int, 0int,
{
    match n {
        Node::InterfaceDeclaration { modifiers, name, type_parameters, heritage_clauses, .. } => {
            lemma_nodes_docs_well_nested(modifiers@);
            lemma_nodes_docs_well_nested(type_parameters@);
            lemma_nodes_docs_well_nested(heritage_clauses@);
            assert forall|c: PrintContext, ie: bool| well_nested(#[trigger] interface_head_doc(c, n, ie)) by {
                lemma_piece_nesting();
                assert(well_nested(heritage_clauses_doc(c, heritage_clauses@, ListFormat(FORMAT_HERITAGE_CLAUSES), ie))) by {
                    assert(well_nested(doc_list(
                        c,
                        heritage_clauses@,
                        0,
                        heritage_clauses@.len() as int,
                        ListFormat(FORMAT_HERITAGE_CLAUSES),
                        false,
                        ChildMode::Plain,
                        ie,
                    )));
                }
                assert(interface_head_doc(c, n, ie) == doc_modifiers(c, modifiers@, 0, false, ie) + t(
                    "interface"@,
                ) + t(" "@) + t(name@) + doc_list(
                    c,
                    type_parameters@,
                    0,
                    type_parameters@.len() as int,
                    ListFormat(FORMAT_TYPE_PARAMETERS),
                    false,
                    ChildMode::Plain,
                    ie,
                ) + heritage_clauses_doc(c, heritage_clauses@, ListFormat(FORMAT_HERITAGE_CLAUSES), ie));
            }
        },
        _ => {},
    }
}

/// The body of an interface declaration is well nested.
#[verifier::spinoff_prover]
proof fn lemma_interface_body_well_nested(n: Node)
    requires
        n is InterfaceDeclaration,
    ensures
        forall|c: PrintContext, ie: bool| well_nested(#[trigger] interface_body_doc(c, n, ie)),
    decreases n, 0int, 0int,
{
    match n {
        Node::InterfaceDeclaration { members, .. } => {
            lemma_nodes_docs_well_nested(members@);
            assert forall|c: PrintContext, ie: bool| well_nested(#[trigger] interface_body_doc(c, n, ie)) by {
                lemma_piece_nesting();
                assert(interface_body_doc(c, n, ie) == t(" "@) + t("{"@) + doc_list(
                    c,
                    members@,
                    0,
                    members@.len() as int,
                    ListFormat(FORMAT_INTERFACE_MEMBERS),
                    false,
                    ChildMode::Plain,
                    ie,
                ) + t("}"@));
            }
        },
        _ => {},
    }
}

/// The document of an interface declaration is well nested.
#[verifier::spinoff_prover]
proof fn lemma_interface_declaration_well_nested(n: Node)
    requires
        n is InterfaceDeclaration,
    ensures
        forall|c: PrintContext, ie: bool| well_nested(#[trigger] doc_interface_declaration(c, n, ie)),
        forall|c: PrintContext, ie: bool| well_nested(#[trigger] doc_node(c, n, ie)),
    decreases n, 0int, 1int,
{
    lemma_interface_head_well_nested(n);
    lemma_interface_body_well_nested(n);
    assert forall|c: PrintContext, ie: bool| well_nested(#[trigger] doc_interface_declaration(c, n, ie)) by {
        assert(doc_interface_declaration(c, n, ie) == interface_head_doc(c, n, ie) + interface_body_doc(c, n, ie));
        assert(well_nested(interface_head_doc(c, n, ie)));
        assert(well_nested(interface_body_doc(c, n, ie)));
    }
    assert forall|c: PrintContext, ie: bool| well_nested(#[trigger] doc_node(c, n, ie)) by {
        assert(well_nested(doc_interface_declaration(c, n, ie)));
    }
}

/// The key part of a mapped type is well nested.
#[verifier::spinoff_prover]
proof fn lemma_mapped_type_key_well_nested(n: Node)
    requires
        n is MappedType,
    ensures
        forall|c: PrintContext| well_nested(#[trigger] mapped_type_key(c, n)),
    decreases n, 0int, 0int,
{
    match n {
        Node::MappedType { readonly_token, parameter_name, constraint, name_type, question_token, .. } => {
            match constraint {
                Option::Some(x) => lemma_node_docs_well_nested(*x),
                Option::None => {},
            }
            match name_type {
                Option::Some(x) => lemma_node_docs_well_nested(*x),
                Option::None => {},
            }
            match readonly_token {
                Option::Some(m) => lemma_mapped_modifier_well_nested(m),
                Option::None => {},
            }
            match question_token {
                Option::Some(m) => lemma_mapped_modifier_well_nested(m),
                Option::None => {},
            }
            assert forall|c: PrintContext| well_nested(#[trigger] mapped_type_key(c, n)) by {
                lemma_piece_nesting();
                let readonly_part = match readonly_token {
                    Option::Some(m) => mapped_modifier_doc(m) + t("readonly"@) + t(" "@),
                    Option::None => Seq::empty(),
                };
                let question_part = match question_token {
                    Option::Some(m) => mapped_modifier_doc(m) + t("?"@),
                    Option::None => Seq::empty(),
                };
                let constraint_part = match constraint {
                    Option::Some(ct) => doc_type(c, *ct, TYPE_PRECEDENCE_LOWEST, false),
                    Option::None => Seq::empty(),
                };
                let name_type_part = match name_type {
                    Option::Some(nt) => t(" "@) + t("as"@) + t(" "@) + doc_type(c, *nt, TYPE_PRECEDENCE_LOWEST, false),
                    Option::None => Seq::empty(),
                };
                assert(well_nested(readonly_part));
                assert(well_nested(question_part));
                assert(well_nested(constraint_part));
                assert(well_nested(name_type_part));
                assert(mapped_type_key(c, n) == readonly_part + t("["@) + t(parameter_name@) + t(" "@) + t(
                    "in"@,
                ) + t(" "@) + constraint_part + name_type_part + t("]"@) + question_part);
            }
        },
        _ => {},
    }
}

/// The value part of a mapped type is well nested.
#[verifier::spinoff_prover]
proof fn lemma_mapped_type_value_well_nested(n: Node)
    requires
        n is MappedType,
    ensures
        forall|c: PrintContext, ie: bool| well_nested(#[trigger] mapped_type_value(c, n, ie)),
    decreases n, 0int, 0int,
{
    match n {
        Node::MappedType { single_line, type_node, members, .. } => {
            match type_node {
                Option::Some(x) => lemma_node_docs_well_nested(*x),
                Option::None => {},
            }
            lemma_nodes_docs_well_nested(members@);
            assert forall|c: PrintContext, ie: bool| well_nested(#[trigger] mapped_type_value(c, n, ie)) by {
                lemma_piece_nesting();
                let type_part = match type_node {
                    Option::Some(ty) => doc_type(c, *ty, TYPE_PRECEDENCE_LOWEST, false),
                    Option::None => Seq::empty(),
                };
                let members_part = if members@.len() > 0 {
                    (if single_line {
                        t(" "@)
                    } else {
                        seq![Piece::Line]
                    }) + doc_items(
                        c,
                        members@,
                        0,
                        members@.len() as int,
                        ListFormat(LF_PRESERVE_LINES),
                        false,
                        ChildMode::Plain,
                        ie,
                    )
                } else {
                    Seq::empty()
                };
                assert(well_nested(type_part));
                assert(well_nested(members_part));
                assert(mapped_type_value(c, n, ie) == t(":"@) + t(" "@) + type_part + t(";"@) + members_part);
            }
        },
        _ => {},
    }
}

/// The document of a mapped type is well nested.
#[verifier::spinoff_prover]
proof fn lemma_mapped_type_well_nested(n: Node)
    requires
        n is MappedType,
    ensures
        forall|c: PrintContext, ie: bool| well_nested(#[trigger] doc_mapped_type(c, n, ie)),
        forall|c: PrintContext, ie: bool| well_nested(#[trigger] doc_node(c, n, ie)),
    decreases n, 0int, 1int,
{
    lemma_mapped_type_key_well_nested(n);
    lemma_mapped_type_value_well_nested(n);
    assert forall|c: PrintContext, ie: bool| well_nested(#[trigger] doc_mapped_type(c, n, ie)) by {
        match n {
            Node::MappedType { single_line, .. } => {
                lemma_mapped_type_frame(single_line, mapped_type_key(c, n), mapped_type_value(c, n, ie));
                assert(doc_mapped_type(c, n, ie) == t("{"@) + mapped_type_open(single_line) + mapped_type_key(c, n)
                    + mapped_type_value(c, n, ie) + mapped_type_close(single_line) + t("}"@));
            },
            _ => {},
        }
    }
    assert forall|c: PrintContext, ie: bool| well_nested(#[trigger] doc_node(c, n, ie)) by {
        assert(well_nested(doc_mapped_type(c, n, ie)));
    }
}

/// The document of an import declaration is well nested.
#[verifier::spinoff_prover]
proof fn lemma_import_declaration_well_nested(n: Node)
    requires
        n is ImportDeclaration,
    ensures
        forall|c: PrintContext, ie: bool| well_nested(#[trigger] doc_import_declaration(c, n, ie)),
        forall|c: PrintContext, ie: bool| well_nested(#[trigger] doc_node(c, n, ie)),
    decreases n, 0int, 1int,
{
    match n {
        Node::ImportDeclaration { modifiers, import_clause, module_specifier, attributes } => {
            lemma_nodes_docs_well_nested(modifiers@);
            match import_clause {
                Option::Some(x) => lemma_node_docs_well_nested(*x),
                Option::None => {},
            }
            lemma_node_docs_well_nested(*module_specifier);
            match attributes {
                Option::Some(x) => lemma_node_docs_well_nested(*x),
                Option::None => {},
            }
        },
        _ => {},
    }
    assert forall|c: PrintContext, ie: bool| well_nested(#[trigger] doc_import_declaration(c, n, ie)) by {
        lemma_piece_nesting();
        match n {
            Node::ImportDeclaration { modifiers, import_clause, module_specifier, attributes } => {
                match attributes {
                    Option::Some(a) => {
                        assert(well_nested(doc_node(c, *a, ie)));
                        assert(attributes_clause_doc(c, attributes, ie) == t(" "@) + doc_node(c, *a, ie));
                    },
                    Option::None => {
                        assert(attributes_clause_doc(c, attributes, ie) == Seq::<Piece>::empty());
                    },
                }
                assert(well_nested(attributes_clause_doc(c, attributes, ie)));
                assert(doc_import_declaration(c, n, ie) == (doc_modifiers(
                    c,
                    modifiers@,
                    0,
                    false,
                    ie,
                ) + t("import"@) + t(" "@) + match import_clause {
                    Option::Some(ic) => doc_node(c, *ic, ie) + t(" "@) + t("from"@) + t(" "@),
                    Option::None => Seq::empty(),
                } + doc_node(c, *module_specifier, ie) + attributes_clause_doc(c, attributes, ie) + t(";"@)));
            },
            _ => {},
        }
    }
    assert forall|c: PrintContext, ie: bool| well_nested(#[trigger] doc_node(c, n, ie)) by {
        assert(well_nested(doc_import_declaration(c, n, ie)));
    }
}

/// The document of an import clause or one of its parts is well nested.
#[verifier::spinoff_prover]
proof fn lemma_import_part_well_nested(n: Node)
    requires
        n is ImportClause || n is NamespaceImport || n is NamedImports || n is ImportSpecifier,
    ensures
        forall|c: PrintContext, ie: bool| well_nested(#[trigger] doc_import_part(c, n, ie)),
        forall|c: PrintContext, ie: bool| well_nested(#[trigger] doc_node(c, n, ie)),
    decreases n, 0int, 1int,
{
    match n {
        Node::ImportClause { named_bindings, .. } => {
            match named_bindings {
                Option::Some(x) => lemma_node_docs_well_nested(*x),
                Option::None => {},
            }
        },
        Node::NamedImports { elements, .. } => {
            lemma_nodes_docs_well_nested(elements@);
        },
        Node::ImportSpecifier { property_name, .. } => {
            lemma_specifier_property_well_nested(property_name);
        },
        _ => {},
    }
    assert forall|c: PrintContext, ie: bool| well_nested(#[trigger] doc_import_part(c, n, ie)) by {
        lemma_piece_nesting();
        match n {
            Node::ImportClause { phase, name, named_bindings } => {
                match phase {
                    Option::Some(p) => {
                        assert(well_nested(import_phase_doc(p)));
                    },
                    Option::None => {},
                }
                assert(doc_import_part(c, n, ie) == ((match phase {
                    Option::Some(p) => import_phase_doc(p) + t(" "@),
                    Option::None => Seq::empty(),
                }) + match name {
                    Option::Some(s) => t(s@) + (if named_bindings is Some {
                        t(","@) + t(" "@)
                    } else {
                        Seq::empty()
                    }),
                    Option::None => Seq::empty(),
                } + match named_bindings {
                    Option::Some(b) => doc_node(c, *b, ie),
                    Option::None => Seq::empty(),
                }));
            },
            Node::NamespaceImport { name } => {
                assert(doc_import_part(c, n, ie) == (t("*"@) + t(" "@) + t("as"@) + t(" "@) + t(name@)));
            },
            Node::NamedImports { elements, has_trailing_comma } => {
                assert(doc_import_part(c, n, ie) == (t("{"@) + doc_items(
                    c,
                    elements@,
                    0,
                    elements@.len() as int,
                    ListFormat(FORMAT_NAMED_IMPORTS_OR_EXPORTS_ELEMENTS),
                    has_trailing_comma,
                    ChildMode::Plain,
                    ie,
                ) + t("}"@)));
            },
            Node::ImportSpecifier { is_type_only, property_name, name } => {
                assert(well_nested(specifier_property_doc(c, property_name, ie)));
                assert(doc_import_part(c, n, ie) == (type_only_doc(is_type_only)
                    + specifier_property_doc(c, property_name, ie) + t(name@)));
            },
            _ => {},
        }
    }
    assert forall|c: PrintContext, ie: bool| well_nested(#[trigger] doc_node(c, n, ie)) by {
        assert(well_nested(doc_import_part(c, n, ie)));
    }
}

/// The document of an export declaration is well nested.
#[verifier::spinoff_prover]
proof fn lemma_export_declaration_well_nested(n: Node)
    requires
        n is ExportDeclaration,
    ensures
        forall|c: PrintContext, ie: bool| well_nested(#[trigger] doc_export_declaration(c, n, ie)),
        forall|c: PrintContext, ie: bool| well_nested(#[trigger] doc_node(c, n, ie)),
    decreases n, 0int, 1int,
{
    match n {
        Node::ExportDeclaration { modifiers, export_clause, module_specifier, attributes, .. } => {
            lemma_nodes_docs_well_nested(modifiers@);
            match export_clause {
                Option::Some(x) => lemma_node_docs_well_nested(*x),
                Option::None => {},
            }
            match module_specifier {
                Option::Some(x) => lemma_node_docs_well_nested(*x),
                Option::None => {},
            }
            match attributes {
                Option::Some(x) => lemma_node_docs_well_nested(*x),
                Option::None => {},
            }
        },
        _ => {},
    }
    assert forall|c: PrintContext, ie: bool| well_nested(#[trigger] doc_export_declaration(c, n, ie)) by {
        lemma_piece_nesting();
        match n {
            Node::ExportDeclaration { modifiers, is_type_only, export_clause, module_specifier, attributes } => {
                assert(well_nested(type_only_doc(is_type_only)));
                match attributes {
                    Option::Some(a) => {
                        assert(well_nested(doc_node(c, *a, ie)));
                        assert(attributes_clause_doc(c, attributes, ie) == t(" "@) + doc_node(c, *a, ie));
                    },
                    Option::None => {
                        assert(attributes_clause_doc(c, attributes, ie) == Seq::<Piece>::empty());
                    },
                }
                assert(well_nested(attributes_clause_doc(c, attributes, ie)));
                assert(doc_export_declaration(c, n, ie) == (            doc_modifiers(c, modifiers@, 0, false, ie) + t("export"@) + t(" "@) + type_only_doc(
                    is_type_only,
                ) + match export_clause {
                    Option::Some(ec) => doc_node(c, *ec, ie),
                    Option::None => t("*"@),
                } + match module_specifier {
                    Option::Some(m) => t(" "@) + t("from"@) + t(" "@) + doc_node(c, *m, ie),
                    Option::None => Seq::empty(),
                } + attributes_clause_doc(c, attributes, ie) + t(";"@)));
            },
            _ => {},
        }
    }
    assert forall|c: PrintContext, ie: bool| well_nested(#[trigger] doc_node(c, n, ie)) by {
        assert(well_nested(doc_export_declaration(c, n, ie)));
    }
}

/// The document of the named exports, a namespace export or an export specifier is well nested.
#[verifier::spinoff_prover]
proof fn lemma_export_part_well_nested(n: Node)
    requires
        n is NamedExports || n is NamespaceExport || n is ExportSpecifier,
    ensures
        forall|c: PrintContext, ie: bool| well_nested(#[trigger] doc_export_part(c, n, ie)),
        forall|c: PrintContext, ie: bool| well_nested(#[trigger] doc_node(c, n, ie)),
    decreases n, 0int, 1int,
{
    match n {
        Node::NamedExports { elements, .. } => {
            lemma_nodes_docs_well_nested(elements@);
        },
        Node::NamespaceExport { name } => {
            lemma_node_docs_well_nested(*name);
        },
        Node::ExportSpecifier { property_name, name, .. } => {
            lemma_specifier_property_well_nested(property_name);
            lemma_node_docs_well_nested(*name);
        },
        _ => {},
    }
    assert forall|c: PrintContext, ie: bool| well_nested(#[trigger] doc_export_part(c, n, ie)) by {
        lemma_piece_nesting();
        match n {
            Node::NamedExports { elements, has_trailing_comma } => {
                assert(doc_export_part(c, n, ie) == (t("{"@) + doc_items(
                    c,
                    elements@,
                    0,
                    elements@.len() as int,
                    ListFormat(FORMAT_NAMED_IMPORTS_OR_EXPORTS_ELEMENTS),
                    has_trailing_comma,
                    ChildMode::Plain,
                    ie,
                ) + t("}"@)));
            },
            Node::NamespaceExport { name } => {
                assert(doc_export_part(c, n, ie) == (t("*"@) + t(" "@) + t("as"@) + t(" "@) + doc_node(c, *name, ie)));
            },
            Node::ExportSpecifier { is_type_only, property_name, name } => {
                assert(well_nested(specifier_property_doc(c, property_name, ie)));
                assert(well_nested(type_only_doc(is_type_only)));
                assert(doc_export_part(c, n, ie) == (type_only_doc(is_type_only)
                    + specifier_property_doc(c, property_name, ie) + doc_node(c, *name, ie)));
            },
            _ => {},
        }
    }
    assert forall|c: PrintContext, ie: bool| well_nested(#[trigger] doc_node(c, n, ie)) by {
        assert(well_nested(doc_export_part(c, n, ie)));
    }
}

/// The document of a module declaration or block is well nested.
#[verifier::spinoff_prover]
proof fn lemma_module_well_nested(n: Node)
    requires
        n is ModuleDeclaration || n is ModuleBlock,
    ensures
        forall|c: PrintContext, ie: bool| well_nested(#[trigger] doc_module(c, n, ie)),
        forall|c: PrintContext, ie: bool| well_nested(#[trigger] doc_node(c, n, ie)),
    decreases n, 0int, 1int,
{
    match n {
        Node::ModuleDeclaration { modifiers, name, body, .. } => {
            lemma_nodes_docs_well_nested(modifiers@);
            lemma_node_docs_well_nested(*name);
            lemma_module_body_well_nested(body);
        },
        Node::ModuleBlock { statements } => {
            lemma_nodes_docs_well_nested(statements@);
        },
        _ => {},
    }
    assert forall|c: PrintContext, ie: bool| well_nested(#[trigger] doc_module(c, n, ie)) by {
        lemma_piece_nesting();
        match n {
            Node::ModuleDeclaration { modifiers, keyword, name, body } => {
                assert(well_nested(module_body_doc(c, body, ie)));
                assert(well_nested(module_keyword_doc(keyword)));
                assert(doc_module(c, n, ie) == (doc_modifiers(
                    c,
                    modifiers@,
                    0,
                    false,
                    ie,
                ) + module_keyword_doc(keyword) + doc_node(c, *name, ie) + module_body_doc(c, body, ie)));
            },
            Node::ModuleBlock { statements } => {
                assert(doc_module(c, n, ie) == (t("{"@) + doc_items(
                    c,
                    statements@,
                    0,
                    statements@.len() as int,
                    ListFormat(
                        if statements@.len() == 0 {
                            FORMAT_SINGLE_LINE_BLOCK_STATEMENTS
                        } else {
                            FORMAT_MULTI_LINE_BLOCK_STATEMENTS
                        },
                    ),
                    false,
                    ChildMode::Plain,
                    ie,
                ) + t("}"@)));
            },
            _ => {},
        }
    }
    assert forall|c: PrintContext, ie: bool| well_nested(#[trigger] doc_node(c, n, ie)) by {
        assert(well_nested(doc_module(c, n, ie)));
    }
}

/// The property name of a specifier followed by `as` is well nested.
proof fn lemma_specifier_property_well_nested(property_name: Option<Box<Node>>)
    ensures
        forall|c: PrintContext, ie: bool| well_nested(#[trigger] specifier_property_doc(c, property_name, ie)),
    decreases property_name, 0int, 0int,
{
    lemma_piece_nesting();
    match property_name {
        Option::Some(p) => {
            lemma_node_docs_well_nested(*p);
            assert forall|c: PrintContext, ie: bool| well_nested(#[trigger] specifier_property_doc(c, property_name, ie)) by {
                assert(specifier_property_doc(c, property_name, ie) == doc_node(c, *p, ie) + t(" "@) + t("as"@) + t(" "@));
            }
        },
        Option::None => {},
    }
}

/// What follows the name of a module declaration is well nested.
proof fn lemma_module_body_well_nested(body: Option<Box<Node>>)
    ensures
        forall|c: PrintContext, ie: bool| well_nested(#[trigger] module_body_doc(c, body, ie)),
    decreases body, 0int, 0int,
{
    lemma_piece_nesting();
    match body {
        Option::Some(b) => {
            match *b {
                Node::ModuleDeclaration { name, body: inner, .. } => {
                    lemma_node_docs_well_nested(*name);
                    lemma_module_body_well_nested(inner);
                    assert forall|c: PrintContext, ie: bool| well_nested(#[trigger] module_body_doc(c, body, ie)) by {
                        assert(module_body_doc(c, body, ie) == t("."@) + doc_node(c, *name, ie) + module_body_doc(c, inner, ie));
                    }
                },
                _ => {
                    lemma_node_docs_well_nested(*b);
                    assert forall|c: PrintContext, ie: bool| well_nested(#[trigger] module_body_doc(c, body, ie)) by {
                        assert(module_body_doc(c, body, ie) == t(" "@) + doc_node(c, *b, ie));
                    }
                },
            }
        },
        Option::None => {},
    }
}

/// The document of an import, an export or a module, or of one of their
/// parts, is well nested.
#[verifier::spinoff_prover]
proof fn lemma_module_docs_well_nested(n: Node)
    requires
        dispatch_group(n) == 10,
    ensures
        forall|c: PrintContext, ie: bool| well_nested(#[trigger] doc_node(c, n, ie)),
        n is Block ==> forall|c: PrintContext, ie: bool| well_nested(#[trigger] doc_function_body(c, n, ie)),
        n is CallExpression ==> forall|c: PrintContext, ie: bool| well_nested(#[trigger] doc_iife(c, n, ie)),
    decreases n, 0int, 3int,
{
    match n {
        Node::ImportDeclaration { .. } => lemma_import_declaration_well_nested(n),
        Node::ImportClause { .. } => lemma_import_part_well_nested(n),
        Node::NamespaceImport { .. } => lemma_import_part_well_nested(n),
        Node::NamedImports { .. } => lemma_import_part_well_nested(n),
        Node::ImportSpecifier { .. } => lemma_import_part_well_nested(n),
        Node::ExportDeclaration { .. } => lemma_export_declaration_well_nested(n),
        Node::NamedExports { .. } => lemma_export_part_well_nested(n),
        Node::NamespaceExport { .. } => lemma_export_part_well_nested(n),
        Node::ExportSpecifier { .. } => lemma_export_part_well_nested(n),
        Node::ModuleDeclaration { .. } => lemma_module_well_nested(n),
        Node::ModuleBlock { .. } => lemma_module_well_nested(n),
        _ => {},
    }
}

/// The document of a literal type or a type predicate is well nested.
#[verifier::spinoff_prover]
proof fn lemma_literal_or_predicate_type_well_nested(n: Node)
    requires
        n is LiteralType || n is TypePredicate,
    ensures
        forall|c: PrintContext, ie: bool| well_nested(#[trigger] doc_literal_or_predicate_type(c, n, ie)),
        forall|c: PrintContext, ie: bool| well_nested(#[trigger] doc_node(c, n, ie)),
    decreases n, 0int, 1int,
{
    match n {
        Node::LiteralType(l) => {
            lemma_node_docs_well_nested(*l);
        },
        Node::TypePredicate { parameter_name, type_node, .. } => {
            lemma_node_docs_well_nested(*parameter_name);
            match type_node {
                Option::Some(x) => lemma_node_docs_well_nested(*x),
                Option::None => {},
            }
        },
        _ => {},
    }
    assert forall|c: PrintContext, ie: bool| well_nested(#[trigger] doc_literal_or_predicate_type(c, n, ie)) by {
        lemma_piece_nesting();
        match n {
            Node::LiteralType(l) => {
                assert(doc_literal_or_predicate_type(c, n, ie) == (doc_node(c, *l, ie)));
            },
            Node::TypePredicate { asserts, parameter_name, type_node } => {
                assert(doc_literal_or_predicate_type(c, n, ie) == ((if asserts {
                    t("asserts"@) + t(" "@)
                } else {
                    Seq::empty()
                }) + doc_node(c, *parameter_name, ie) + match type_node {
                    Option::Some(ty) => t(" "@) + t("is"@) + t(" "@) + doc_type(c, *ty, TYPE_PRECEDENCE_LOWEST, false),
                    Option::None => Seq::empty(),
                }));
            },
            _ => {},
        }
    }
    assert forall|c: PrintContext, ie: bool| well_nested(#[trigger] doc_node(c, n, ie)) by {
        assert(well_nested(doc_literal_or_predicate_type(c, n, ie)));
    }
}

/// The document of a constructor type is well nested.
#[verifier::spinoff_prover]
proof fn lemma_constructor_type_well_nested(n: Node)
    requires
        n is ConstructorType,
    ensures
        forall|c: PrintContext, ie: bool| well_nested(#[trigger] doc_constructor_type(c, n, ie)),
        forall|c: PrintContext, ie: bool| well_nested(#[trigger] doc_node(c, n, ie)),
    decreases n, 0int, 1int,
{
    match n {
        Node::ConstructorType { modifiers, type_parameters, parameters, return_type } => {
            lemma_nodes_docs_well_nested(modifiers@);
            lemma_nodes_docs_well_nested(type_parameters@);
            lemma_nodes_docs_well_nested(parameters@);
            lemma_node_docs_well_nested(*return_type);
        },
        _ => {},
    }
    assert forall|c: PrintContext, ie: bool| well_nested(#[trigger] doc_constructor_type(c, n, ie)) by {
        lemma_piece_nesting();
        match n {
            Node::ConstructorType { modifiers, type_parameters, parameters, return_type } => {
                assert(well_nested(type_parameters_doc(c, type_parameters@, ie))) by {
                    assert(well_nested(doc_list(
                        c,
                        type_parameters@,
                        0,
                        type_parameters@.len() as int,
                        ListFormat(FORMAT_TYPE_PARAMETERS),
                        false,
                        ChildMode::Plain,
                        ie,
                    )));
                }
                assert(well_nested(parameters_doc(c, parameters@, ie))) by {
                    assert(well_nested(doc_list(
                        c,
                        parameters@,
                        0,
                        parameters@.len() as int,
                        ListFormat(FORMAT_PARAMETERS),
                        false,
                        ChildMode::Plain,
                        ie,
                    )));
                }
                assert(doc_constructor_type(c, n, ie) == (doc_modifiers(
                    c,
                    modifiers@,
                    0,
                    false,
                    ie,
                ) + t("new"@) + t(" "@) + type_parameters_doc(c, type_parameters@, ie) + parameters_doc(
                    c,
                    parameters@,
                    ie,
                ) + t(" "@) + t("=>"@) + t(" "@) + (if ie && (*return_type matches Node::InferType { constraint, .. }
                    && constraint is Some) {
                    doc_type(c, *return_type, TYPE_PRECEDENCE_HIGHEST, ie)
                } else {
                    doc_type(c, *return_type, TYPE_PRECEDENCE_LOWEST, ie)
                })));
            },
            _ => {},
        }
    }
    assert forall|c: PrintContext, ie: bool| well_nested(#[trigger] doc_node(c, n, ie)) by {
        assert(well_nested(doc_constructor_type(c, n, ie)));
    }
}

/// The document of an index, call or construct signature is well nested.
#[verifier::spinoff_prover]
proof fn lemma_member_signature_well_nested(n: Node)
    requires
        n is IndexSignature || n is CallSignature || n is ConstructSignature,
    ensures
        forall|c: PrintContext, ie: bool| well_nested(#[trigger] doc_member_signature(c, n, ie)),
        forall|c: PrintContext, ie: bool| well_nested(#[trigger] doc_node(c, n, ie)),
    decreases n, 0int, 1int,
{
    match n {
        Node::IndexSignature { modifiers, parameters, type_node } => {
            lemma_nodes_docs_well_nested(modifiers@);
            lemma_nodes_docs_well_nested(parameters@);
            lemma_type_annotation_well_nested(type_node);
        },
        Node::CallSignature { .. } => {
            lemma_signature_like_well_nested(n);
        },
        Node::ConstructSignature { .. } => {
            lemma_signature_like_well_nested(n);
        },
        _ => {},
    }
    assert forall|c: PrintContext, ie: bool| well_nested(#[trigger] doc_member_signature(c, n, ie)) by {
        lemma_piece_nesting();
        match n {
            Node::IndexSignature { modifiers, parameters, type_node } => {
                assert(well_nested(type_annotation_doc(c, type_node)));
                assert(doc_member_signature(c, n, ie) == (doc_modifiers(
                    c,
                    modifiers@,
                    0,
                    false,
                    ie,
                ) + doc_list(
                    c,
                    parameters@,
                    0,
                    parameters@.len() as int,
                    ListFormat(FORMAT_INDEX_SIGNATURE_PARAMETERS),
                    false,
                    ChildMode::Plain,
                    ie,
                ) + type_annotation_doc(c, type_node) + t(";"@)));
            },
            Node::CallSignature { .. } => {
                assert(well_nested(signature_like_doc(c, n, ie)));
                assert(doc_member_signature(c, n, ie) == (signature_like_doc(c, n, ie) + t(";"@)));
            },
            Node::ConstructSignature { .. } => {
                assert(well_nested(signature_like_doc(c, n, ie)));
                assert(doc_member_signature(c, n, ie) == (t("new"@) + t(" "@) + signature_like_doc(c, n, ie) + t(";"@)));
            },
            _ => {},
        }
    }
    assert forall|c: PrintContext, ie: bool| well_nested(#[trigger] doc_node(c, n, ie)) by {
        assert(well_nested(doc_member_signature(c, n, ie)));
    }
}

/// The document of a named tuple member is well nested.
#[verifier::spinoff_prover]
proof fn lemma_named_tuple_member_well_nested(n: Node)
    requires
        n is NamedTupleMember,
    ensures
        forall|c: PrintContext, ie: bool| well_nested(#[trigger] doc_named_tuple_member(c, n, ie)),
        forall|c: PrintContext, ie: bool| well_nested(#[trigger] doc_node(c, n, ie)),
    decreases n, 0int, 1int,
{
    match n {
        Node::NamedTupleMember { type_node, .. } => {
            lemma_node_docs_well_nested(*type_node);
        },
        _ => {},
    }
    assert forall|c: PrintContext, ie: bool| well_nested(#[trigger] doc_named_tuple_member(c, n, ie)) by {
        lemma_piece_nesting();
        match n {
            Node::NamedTupleMember { dot_dot_dot, name, question, type_node } => {
                assert(doc_named_tuple_member(c, n, ie) == ((if dot_dot_dot {
                    t("..."@)
                } else {
                    Seq::empty()
                }) + t(name@) + (if question {
                    t("?"@)
                } else {
                    Seq::empty()
                }) + t(":"@) + t(" "@) + doc_type(c, *type_node, TYPE_PRECEDENCE_LOWEST, false)));
            },
            _ => {},
        }
    }
    assert forall|c: PrintContext, ie: bool| well_nested(#[trigger] doc_node(c, n, ie)) by {
        assert(well_nested(doc_named_tuple_member(c, n, ie)));
    }
}

/// The document of a template or one of its spans is well nested.
#[verifier::spinoff_prover]
proof fn lemma_template_well_nested(n: Node)
    requires
        n is TemplateExpression || n is TemplateSpan || n is TemplateLiteralType || n is TemplateLiteralTypeSpan,
    ensures
        forall|c: PrintContext, ie: bool| well_nested(#[trigger] doc_template(c, n, ie)),
        forall|c: PrintContext, ie: bool| well_nested(#[trigger] doc_node(c, n, ie)),
    decreases n, 0int, 1int,
{
    match n {
        Node::TemplateExpression { spans, .. } => {
            lemma_nodes_docs_well_nested(spans@);
        },
        Node::TemplateSpan { expression, .. } => {
            lemma_node_docs_well_nested(*expression);
        },
        Node::TemplateLiteralType { spans, .. } => {
            lemma_nodes_docs_well_nested(spans@);
        },
        Node::TemplateLiteralTypeSpan { type_node, .. } => {
            lemma_node_docs_well_nested(*type_node);
        },
        _ => {},
    }
    assert forall|c: PrintContext, ie: bool| well_nested(#[trigger] doc_template(c, n, ie)) by {
        lemma_piece_nesting();
        match n {
            Node::TemplateExpression { head, spans } => {
                assert(doc_template(c, n, ie) == (t(template_head_text(head@)) + doc_items(
                    c,
                    spans@,
                    0,
                    spans@.len() as int,
                    ListFormat(FORMAT_TEMPLATE_EXPRESSION_SPANS),
                    false,
                    ChildMode::Plain,
                    ie,
                )));
            },
            Node::TemplateSpan { expression, literal, is_tail } => {
                assert(doc_template(c, n, ie) == (doc_node(c, *expression, ie) + t(
                    template_continuation_text(literal@, is_tail),
                )));
            },
            Node::TemplateLiteralType { head, spans } => {
                assert(doc_template(c, n, ie) == (t(template_head_text(head@)) + doc_items(
                    c,
                    spans@,
                    0,
                    spans@.len() as int,
                    ListFormat(FORMAT_TEMPLATE_EXPRESSION_SPANS),
                    false,
                    ChildMode::Plain,
                    ie,
                )));
            },
            Node::TemplateLiteralTypeSpan { type_node, literal, is_tail } => {
                assert(doc_template(c, n, ie) == (doc_type(
                    c,
                    *type_node,
                    TYPE_PRECEDENCE_LOWEST,
                    false,
                ) + t(template_continuation_text(literal@, is_tail))));
            },
            _ => {},
        }
    }
    assert forall|c: PrintContext, ie: bool| well_nested(#[trigger] doc_node(c, n, ie)) by {
        assert(well_nested(doc_template(c, n, ie)));
    }
}

/// The document of a static block of a class is well nested.
#[verifier::spinoff_prover]
proof fn lemma_class_static_block_well_nested(n: Node)
    requires
        n is ClassStaticBlockDeclaration,
    ensures
        forall|c: PrintContext, ie: bool| well_nested(#[trigger] doc_class_static_block(c, n, ie)),
        forall|c: PrintContext, ie: bool| well_nested(#[trigger] doc_node(c, n, ie)),
    decreases n, 0int, 1int,
{
    match n {
        Node::ClassStaticBlockDeclaration { body } => {
            lemma_node_docs_well_nested(*body);
        },
        _ => {},
    }
    assert forall|c: PrintContext, ie: bool| well_nested(#[trigger] doc_class_static_block(c, n, ie)) by {
        lemma_piece_nesting();
        match n {
            Node::ClassStaticBlockDeclaration { body } => {
                assert(doc_class_static_block(c, n, ie) == (t("static"@) + t(" "@) + doc_function_body(c, *body, ie)));
            },
            _ => {},
        }
    }
    assert forall|c: PrintContext, ie: bool| well_nested(#[trigger] doc_node(c, n, ie)) by {
        assert(well_nested(doc_class_static_block(c, n, ie)));
    }
}

/// The document of a literal or constructor type, a type predicate, a
/// member signature or a named tuple member is well nested.
#[verifier::spinoff_prover]
proof fn lemma_type_signature_docs_well_nested(n: Node)
    requires
        dispatch_group(n) == 11,
    ensures
        forall|c: PrintContext, ie: bool| well_nested(#[trigger] doc_node(c, n, ie)),
        n is Block ==> forall|c: PrintContext, ie: bool| well_nested(#[trigger] doc_function_body(c, n, ie)),
        n is CallExpression ==> forall|c: PrintContext, ie: bool| well_nested(#[trigger] doc_iife(c, n, ie)),
    decreases n, 0int, 3int,
{
    match n {
        Node::LiteralType(..) => lemma_literal_or_predicate_type_well_nested(n),
        Node::TypePredicate { .. } => lemma_literal_or_predicate_type_well_nested(n),
        Node::ConstructorType { .. } => lemma_constructor_type_well_nested(n),
        Node::IndexSignature { .. } => lemma_member_signature_well_nested(n),
        Node::CallSignature { .. } => lemma_member_signature_well_nested(n),
        Node::ConstructSignature { .. } => lemma_member_signature_well_nested(n),
        Node::NamedTupleMember { .. } => lemma_named_tuple_member_well_nested(n),
        _ => {},
    }
}

/// The document of a template, one of its spans, or a static block is well
/// nested.
#[verifier::spinoff_prover]
proof fn lemma_template_docs_well_nested(n: Node)
    requires
        dispatch_group(n) == 12,
    ensures
        forall|c: PrintContext, ie: bool| well_nested(#[trigger] doc_node(c, n, ie)),
        n is Block ==> forall|c: PrintContext, ie: bool| well_nested(#[trigger] doc_function_body(c, n, ie)),
        n is CallExpression ==> forall|c: PrintContext, ie: bool| well_nested(#[trigger] doc_iife(c, n, ie)),
    decreases n, 0int, 3int,
{
    match n {
        Node::TemplateExpression { .. } => lemma_template_well_nested(n),
        Node::TemplateSpan { .. } => lemma_template_well_nested(n),
        Node::TemplateLiteralType { .. } => lemma_template_well_nested(n),
        Node::TemplateLiteralTypeSpan { .. } => lemma_template_well_nested(n),
        Node::ClassStaticBlockDeclaration { .. } => lemma_class_static_block_well_nested(n),
        _ => {},
    }
}

/// The document of a JSX element, fragment or tag is well nested.
#[verifier::spinoff_prover]
proof fn lemma_jsx_element_well_nested(n: Node)
    requires
        n is JsxElement || n is JsxSelfClosingElement || n is JsxOpeningElement || n is JsxClosingElement || n is JsxFragment,
    ensures
        forall|c: PrintContext, ie: bool| well_nested(#[trigger] doc_jsx_element(c, n, ie)),
        forall|c: PrintContext, ie: bool| well_nested(#[trigger] doc_node(c, n, ie)),
    decreases n, 0int, 1int,
{
    match n {
        Node::JsxElement { opening, children, closing } => {
            lemma_node_docs_well_nested(*opening);
            lemma_nodes_docs_well_nested(children@);
            lemma_node_docs_well_nested(*closing);
        },
        Node::JsxSelfClosingElement { tag_name, type_arguments, attributes } => {
            lemma_node_docs_well_nested(*tag_name);
            lemma_nodes_docs_well_nested(type_arguments@);
            lemma_node_docs_well_nested(*attributes);
        },
        Node::JsxOpeningElement { tag_name, type_arguments, attributes } => {
            lemma_node_docs_well_nested(*tag_name);
            lemma_nodes_docs_well_nested(type_arguments@);
            lemma_node_docs_well_nested(*attributes);
        },
        Node::JsxClosingElement { tag_name } => {
            lemma_node_docs_well_nested(*tag_name);
        },
        Node::JsxFragment { children } => {
            lemma_nodes_docs_well_nested(children@);
        },
        _ => {},
    }
    assert forall|c: PrintContext, ie: bool| well_nested(#[trigger] doc_jsx_element(c, n, ie)) by {
        lemma_piece_nesting();
        match n {
            Node::JsxElement { opening, children, closing } => {
                assert(doc_jsx_element(c, n, ie) == (doc_node(c, *opening, ie) + doc_items(
                    c,
                    children@,
                    0,
                    children@.len() as int,
                    ListFormat(FORMAT_JSX_ELEMENT_OR_FRAGMENT_CHILDREN),
                    false,
                    ChildMode::Plain,
                    ie,
                ) + doc_node(c, *closing, ie)));
            },
            Node::JsxSelfClosingElement { tag_name, type_arguments, attributes } => {
                assert(doc_jsx_element(c, n, ie) == (t("<"@) + doc_node(
                    c,
                    *tag_name,
                    ie,
                ) + doc_list(
                    c,
                    type_arguments@,
                    0,
                    type_arguments@.len() as int,
                    ListFormat(FORMAT_TYPE_ARGUMENTS),
                    false,
                    ChildMode::TypeOutsideExtends,
                    ie,
                ) + t(" "@) + doc_node(c, *attributes, ie) + t("/>"@)));
            },
            Node::JsxOpeningElement { tag_name, type_arguments, attributes } => {
                assert(doc_jsx_element(c, n, ie) == (t("<"@) + doc_node(
                    c,
                    *tag_name,
                    ie,
                ) + doc_list(
                    c,
                    type_arguments@,
                    0,
                    type_arguments@.len() as int,
                    ListFormat(FORMAT_TYPE_ARGUMENTS),
                    false,
                    ChildMode::TypeOutsideExtends,
                    ie,
                ) + (if has_jsx_attributes(*attributes) {
                    t(" "@)
                } else {
                    Seq::empty()
                }) + doc_node(c, *attributes, ie) + t(">"@)));
            },
            Node::JsxClosingElement { tag_name } => {
                assert(doc_jsx_element(c, n, ie) == (t("</"@) + doc_node(c, *tag_name, ie) + t(">"@)));
            },
            Node::JsxFragment { children } => {
                assert(doc_jsx_element(c, n, ie) == (t("<"@) + t(">"@) + doc_items(
                    c,
                    children@,
                    0,
                    children@.len() as int,
                    ListFormat(FORMAT_JSX_ELEMENT_OR_FRAGMENT_CHILDREN),
                    false,
                    ChildMode::Plain,
                    ie,
                ) + t("</"@) + t(">"@)));
            },
            _ => {},
        }
    }
    assert forall|c: PrintContext, ie: bool| well_nested(#[trigger] doc_node(c, n, ie)) by {
        assert(well_nested(doc_jsx_element(c, n, ie)));
    }
}

/// The document of a JSX expression, attribute or name is well nested.
#[verifier::spinoff_prover]
proof fn lemma_jsx_part_well_nested(n: Node)
    requires
        n is JsxExpression || n is JsxAttributes || n is JsxAttribute || n is JsxSpreadAttribute || n is JsxNamespacedName,
    ensures
        forall|c: PrintContext, ie: bool| well_nested(#[trigger] doc_jsx_part(c, n, ie)),
        forall|c: PrintContext, ie: bool| well_nested(#[trigger] doc_node(c, n, ie)),
    decreases n, 0int, 1int,
{
    match n {
        Node::JsxExpression { expression, .. } => {
            match expression {
                Option::Some(x) => lemma_node_docs_well_nested(*x),
                Option::None => {},
            }
        },
        Node::JsxAttributes { properties } => {
            lemma_nodes_docs_well_nested(properties@);
        },
        Node::JsxAttribute { name, initializer } => {
            lemma_node_docs_well_nested(*name);
            match initializer {
                Option::Some(x) => lemma_node_docs_well_nested(*x),
                Option::None => {},
            }
        },
        Node::JsxSpreadAttribute { expression } => {
            lemma_node_docs_well_nested(*expression);
        },
        _ => {},
    }
    assert forall|c: PrintContext, ie: bool| well_nested(#[trigger] doc_jsx_part(c, n, ie)) by {
        lemma_piece_nesting();
        match n {
            Node::JsxExpression { dot_dot_dot, expression } => {
                assert(doc_jsx_part(c, n, ie) == (match expression {
                    Option::Some(e) => t("{"@) + (if dot_dot_dot {
                        t("..."@)
                    } else {
                        Seq::empty()
                    }) + doc_expr(c, *e, OPERATOR_PRECEDENCE_DISALLOW_COMMA, ie) + t("}"@),
                    Option::None => Seq::empty(),
                }));
            },
            Node::JsxAttributes { properties } => {
                assert(doc_jsx_part(c, n, ie) == (doc_items(
                    c,
                    properties@,
                    0,
                    properties@.len() as int,
                    ListFormat(FORMAT_JSX_ELEMENT_ATTRIBUTES),
                    false,
                    ChildMode::Plain,
                    ie,
                )));
            },
            Node::JsxAttribute { name, initializer } => {
                assert(doc_jsx_part(c, n, ie) == (doc_node(c, *name, ie) + match initializer {
                    Option::Some(i) => t("="@) + doc_node(c, *i, ie),
                    Option::None => Seq::empty(),
                }));
            },
            Node::JsxSpreadAttribute { expression } => {
                assert(doc_jsx_part(c, n, ie) == (t("{..."@) + doc_node(c, *expression, ie) + t("}"@)));
            },
            Node::JsxNamespacedName { namespace, name } => {
                assert(doc_jsx_part(c, n, ie) == (t(namespace@) + t(":"@) + t(name@)));
            },
            _ => {},
        }
    }
    assert forall|c: PrintContext, ie: bool| well_nested(#[trigger] doc_node(c, n, ie)) by {
        assert(well_nested(doc_jsx_part(c, n, ie)));
    }
}

/// The document of a JSX element, fragment, tag, expression or attribute is
/// well nested.
#[verifier::spinoff_prover]
proof fn lemma_jsx_docs_well_nested(n: Node)
    requires
        dispatch_group(n) == 13,
    ensures
        forall|c: PrintContext, ie: bool| well_nested(#[trigger] doc_node(c, n, ie)),
        n is Block ==> forall|c: PrintContext, ie: bool| well_nested(#[trigger] doc_function_body(c, n, ie)),
        n is CallExpression ==> forall|c: PrintContext, ie: bool| well_nested(#[trigger] doc_iife(c, n, ie)),
    decreases n, 0int, 3int,
{
    if n is JsxElement || n is JsxSelfClosingElement || n is JsxOpeningElement || n is JsxClosingElement
        || n is JsxFragment {
        lemma_jsx_element_well_nested(n);
    } else {
        lemma_jsx_part_well_nested(n);
    }
}

/// The document of an import-equals or namespace-export declaration or a `require` reference is well nested.
#[verifier::spinoff_prover]
#[verifier::rlimit(30)]
proof fn lemma_import_equals_well_nested(n: Node)
    requires
        n is NamespaceExportDeclaration || n is ImportEqualsDeclaration || n is ExternalModuleReference,
    ensures
        forall|c: PrintContext, ie: bool| well_nested(#[trigger] doc_import_equals(c, n, ie)),
        forall|c: PrintContext, ie: bool| well_nested(#[trigger] doc_node(c, n, ie)),
    decreases n, 0int, 1int,
{
    match n {
        Node::NamespaceExportDeclaration { modifiers, .. } => {
            lemma_nodes_docs_well_nested(modifiers@);
        },
        Node::ImportEqualsDeclaration { modifiers, module_reference, .. } => {
            lemma_nodes_docs_well_nested(modifiers@);
            lemma_node_docs_well_nested(*module_reference);
        },
        Node::ExternalModuleReference(e) => {
            lemma_node_docs_well_nested(*e);
        },
        _ => {},
    }
    assert forall|c: PrintContext, ie: bool| well_nested(#[trigger] doc_import_equals(c, n, ie)) by {
        lemma_piece_nesting();
        match n {
            Node::NamespaceExportDeclaration { modifiers, name } => {
                assert(doc_import_equals(c, n, ie) == (doc_modifiers(c, modifiers@, 0, false, ie)
                    + t("export"@) + t(" "@) + t("as"@) + t(" "@) + t("namespace"@) + t(" "@) + t(name@) + t(";"@)));
            },
            Node::ImportEqualsDeclaration { modifiers, is_type_only, name, module_reference } => {
                assert(well_nested(type_only_doc(is_type_only)));
                assert(doc_import_equals(c, n, ie) == (doc_modifiers(
                    c,
                    modifiers@,
                    0,
                    false,
                    ie,
                ) + t("import"@) + t(" "@) + type_only_doc(is_type_only) + t(name@) + t(" "@) + t("="@) + t(" "@)
                    + doc_node(c, *module_reference, ie) + t(";"@)));
            },
            Node::ExternalModuleReference(e) => {
                assert(doc_import_equals(c, n, ie) == (t("require"@) + t("("@) + doc_node(c, *e, ie) + t(")"@)));
            },
            _ => {},
        }
    }
    assert forall|c: PrintContext, ie: bool| well_nested(#[trigger] doc_node(c, n, ie)) by {
        assert(well_nested(doc_import_equals(c, n, ie)));
    }
}

/// The document of an import type is well nested.
#[verifier::spinoff_prover]
proof fn lemma_import_type_well_nested(n: Node)
    requires
        n is ImportType,
    ensures
        forall|c: PrintContext, ie: bool| well_nested(#[trigger] doc_import_type(c, n, ie)),
        forall|c: PrintContext, ie: bool| well_nested(#[trigger] doc_node(c, n, ie)),
    decreases n, 0int, 1int,
{
    match n {
        Node::ImportType { argument, attributes, qualifier, type_arguments, .. } => {
            lemma_node_docs_well_nested(*argument);
            match attributes {
                Option::Some(a) => match *a {
                    Node::ImportAttributes { elements, .. } => lemma_nodes_docs_well_nested(elements@),
                    _ => {},
                },
                Option::None => {},
            }
            match qualifier {
                Option::Some(x) => lemma_node_docs_well_nested(*x),
                Option::None => {},
            }
            lemma_nodes_docs_well_nested(type_arguments@);
        },
        _ => {},
    }
    assert forall|c: PrintContext, ie: bool| well_nested(#[trigger] doc_import_type(c, n, ie)) by {
        lemma_piece_nesting();
        match n {
            Node::ImportType { is_type_of, argument, attributes, qualifier, type_arguments } => {
                assert(well_nested(import_type_attributes_doc(c, attributes, ie)));
                assert(doc_import_type(c, n, ie) == ((if is_type_of {
                    t("typeof"@) + t(" "@)
                } else {
                    Seq::empty()
                }) + t("import"@) + t("("@) + doc_node(c, *argument, ie) + import_type_attributes_doc(
                    c,
                    attributes,
                    ie,
                ) + t(")"@) + match qualifier {
                    Option::Some(q) => t("."@) + doc_node(c, *q, ie),
                    Option::None => Seq::empty(),
                } + doc_list(
                    c,
                    type_arguments@,
                    0,
                    type_arguments@.len() as int,
                    ListFormat(FORMAT_TYPE_ARGUMENTS),
                    false,
                    ChildMode::TypeOutsideExtends,
                    ie,
                )));
            },
            _ => {},
        }
    }
    assert forall|c: PrintContext, ie: bool| well_nested(#[trigger] doc_node(c, n, ie)) by {
        assert(well_nested(doc_import_type(c, n, ie)));
    }
}

/// The document of import attributes or one attribute is well nested.
#[verifier::spinoff_prover]
proof fn lemma_import_attributes_well_nested(n: Node)
    requires
        n is ImportAttributes || n is ImportAttribute,
    ensures
        forall|c: PrintContext, ie: bool| well_nested(#[trigger] doc_import_attributes(c, n, ie)),
        forall|c: PrintContext, ie: bool| well_nested(#[trigger] doc_node(c, n, ie)),
    decreases n, 0int, 1int,
{
    match n {
        Node::ImportAttributes { elements, .. } => {
            lemma_nodes_docs_well_nested(elements@);
        },
        Node::ImportAttribute { name, value } => {
            lemma_node_docs_well_nested(*name);
            lemma_node_docs_well_nested(*value);
        },
        _ => {},
    }
    assert forall|c: PrintContext, ie: bool| well_nested(#[trigger] doc_import_attributes(c, n, ie)) by {
        lemma_piece_nesting();
        match n {
            Node::ImportAttributes { assert_keyword, elements } => {
                assert(doc_import_attributes(c, n, ie) == ((if assert_keyword {
                    t("assert"@)
                } else {
                    t("with"@)
                }) + t(" "@) + doc_list(
                    c,
                    elements@,
                    0,
                    elements@.len() as int,
                    ListFormat(FORMAT_IMPORT_ATTRIBUTES),
                    false,
                    ChildMode::Plain,
                    ie,
                )));
            },
            Node::ImportAttribute { name, value } => {
                assert(doc_import_attributes(c, n, ie) == (doc_node(c, *name, ie) + t(":"@) + t(" "@) + doc_expr(
                    c,
                    *value,
                    OPERATOR_PRECEDENCE_DISALLOW_COMMA,
                    ie,
                )));
            },
            _ => {},
        }
    }
    assert forall|c: PrintContext, ie: bool| well_nested(#[trigger] doc_node(c, n, ie)) by {
        assert(well_nested(doc_import_attributes(c, n, ie)));
    }
}

/// The document of an import-equals or namespace-export declaration, a
/// `require` reference, an import type or import attributes is well nested.
#[verifier::spinoff_prover]
proof fn lemma_import_form_docs_well_nested(n: Node)
    requires
        dispatch_group(n) == 14,
    ensures
        forall|c: PrintContext, ie: bool| well_nested(#[trigger] doc_node(c, n, ie)),
        n is Block ==> forall|c: PrintContext, ie: bool| well_nested(#[trigger] doc_function_body(c, n, ie)),
        n is CallExpression ==> forall|c: PrintContext, ie: bool| well_nested(#[trigger] doc_iife(c, n, ie)),
    decreases n, 0int, 3int,
{
    if n is ImportType {
        lemma_import_type_well_nested(n);
    } else if n is ImportAttributes || n is ImportAttribute {
        lemma_import_attributes_well_nested(n);
    } else {
        lemma_import_equals_well_nested(n);
    }
}

/// The document of a binding pattern or one of its elements is well nested.
#[verifier::spinoff_prover]
proof fn lemma_binding_pattern_well_nested(n: Node)
    requires
        n is ObjectBindingPattern || n is ArrayBindingPattern || n is BindingElement,
    ensures
        forall|c: PrintContext, ie: bool| well_nested(#[trigger] doc_binding_pattern(c, n, ie)),
        forall|c: PrintContext, ie: bool| well_nested(#[trigger] doc_node(c, n, ie)),
    decreases n, 0int, 1int,
{
    match n {
        Node::ObjectBindingPattern { elements, .. } => {
            lemma_nodes_docs_well_nested(elements@);
        },
        Node::ArrayBindingPattern { elements, .. } => {
            lemma_nodes_docs_well_nested(elements@);
        },
        Node::BindingElement { property_name, name, initializer, .. } => {
            match property_name {
                Option::Some(x) => lemma_node_docs_well_nested(*x),
                Option::None => {},
            }
            lemma_node_docs_well_nested(*name);
            match initializer {
                Option::Some(x) => lemma_node_docs_well_nested(*x),
                Option::None => {},
            }
        },
        _ => {},
    }
    assert forall|c: PrintContext, ie: bool| well_nested(#[trigger] doc_binding_pattern(c, n, ie)) by {
        lemma_piece_nesting();
        match n {
            Node::ObjectBindingPattern { elements, has_trailing_comma } => {
                assert(doc_binding_pattern(c, n, ie) == (t("{"@) + doc_items(
                    c,
                    elements@,
                    0,
                    elements@.len() as int,
                    ListFormat(FORMAT_OBJECT_BINDING_PATTERN_ELEMENTS),
                    has_trailing_comma,
                    ChildMode::Plain,
                    ie,
                ) + t("}"@)));
            },
            Node::ArrayBindingPattern { elements, has_trailing_comma } => {
                assert(doc_binding_pattern(c, n, ie) == (t("["@) + doc_items(
                    c,
                    elements@,
                    0,
                    elements@.len() as int,
                    ListFormat(FORMAT_ARRAY_BINDING_PATTERN_ELEMENTS),
                    has_trailing_comma,
                    ChildMode::Plain,
                    ie,
                ) + t("]"@)));
            },
            Node::BindingElement { dot_dot_dot, property_name, name, initializer } => {
                assert(doc_binding_pattern(c, n, ie) == ((if dot_dot_dot {
                    t("..."@)
                } else {
                    Seq::empty()
                }) + match property_name {
                    Option::Some(p) => doc_node(c, *p, ie) + t(":"@) + t(" "@),
                    Option::None => Seq::empty(),
                } + doc_node(c, *name, ie) + match initializer {
                    Option::Some(e) => t(" "@) + t("="@) + t(" "@) + doc_expr(
                        c,
                        *e,
                        OPERATOR_PRECEDENCE_DISALLOW_COMMA,
                        ie,
                    ),
                    Option::None => Seq::empty(),
                }));
            },
            _ => {},
        }
    }
    assert forall|c: PrintContext, ie: bool| well_nested(#[trigger] doc_node(c, n, ie)) by {
        assert(well_nested(doc_binding_pattern(c, n, ie)));
    }
}

/// The document of a binding pattern or one of its elements is well nested.
#[verifier::spinoff_prover]
proof fn lemma_binding_docs_well_nested(n: Node)
    requires
        dispatch_group(n) == 15,
    ensures
        forall|c: PrintContext, ie: bool| well_nested(#[trigger] doc_node(c, n, ie)),
        n is Block ==> forall|c: PrintContext, ie: bool| well_nested(#[trigger] doc_function_body(c, n, ie)),
        n is CallExpression ==> forall|c: PrintContext, ie: bool| well_nested(#[trigger] doc_iife(c, n, ie)),
    decreases n, 0int, 3int,
{
    lemma_binding_pattern_well_nested(n);
}

/// Printing a node leaves a writer's indentation level where it found it, as
/// long as the level counter has room for every step in that the node makes.
pub proof fn lemma_printing_keeps_indentation(c: PrintContext, n: Node, ie: bool, ws: WriterState)
    requires
        ws.indent + doc_node(c, n, ie).len() <= usize::MAX,
    ensures
        apply(ws, doc_node(c, n, ie)).indent == ws.indent,
{
    lemma_node_docs_well_nested(n);
    lemma_highest_nesting_at_most_len(doc_node(c, n, ie));
    lemma_apply_indent(ws, doc_node(c, n, ie));
}

/// The text printed for a source file is empty or ends with a line break; for
/// a file with no statements it is empty.
pub proof fn lemma_source_file_text_ends_with_line_break(
    options: PrinterOptions,
    in_source_file: bool,
    n: Node,
)
    requires
        n is SourceFile,
    ensures
        ({
            let text = printed_text(options, in_source_file, n);
            let new_line = options.new_line.new_line_text();
            &&& (n matches Node::SourceFile { statements } && statements@.len() == 0) ==> text.len() == 0
            &&& text.len() == 0 || (text.len() >= new_line.len() && text.subrange(
                text.len() - new_line.len(),
                text.len() as int,
            ) == new_line)
        }),
{
    reveal(doc_items);
    let c = print_context(options, in_source_file);
    let new_line = options.new_line.new_line_text();
    match n {
        Node::SourceFile { statements } => if statements@.len() == 0 {
            let d = doc_node(c, n, false);
            assert(d =~= seq![Piece::Line]);
            let ws = initial_state(new_line);
            assert(d.drop_last() =~= Seq::<Piece>::empty());
            assert(apply(ws, d.drop_last()) == ws);
            assert(d.last() == Piece::Line);
            assert(step(ws, Piece::Line) == ws);
            assert(apply(ws, d) == ws);
        } else {
            let format = ListFormat(FORMAT_SOURCE_FILE_STATEMENTS);
            let len = statements@.len() as int;
            assert(FORMAT_SOURCE_FILE_STATEMENTS & LF_PREFER_NEW_LINE == 0) by (bit_vector);
            assert(FORMAT_SOURCE_FILE_STATEMENTS & LF_PRESERVE_LINES == 0) by (bit_vector);
            assert(FORMAT_SOURCE_FILE_STATEMENTS & LF_MULTI_LINE != 0) by (bit_vector);
            assert(FORMAT_SOURCE_FILE_STATEMENTS & LF_NO_TRAILING_NEW_LINE == 0) by (bit_vector);
            assert(closing_line_terminator_count(format, Option::Some(false), c) == 1);
            lemma_items_shape(c, statements@, 0, len, format, false, ChildMode::Plain, false);
            let items = doc_items(c, statements@, 0, len, format, false, ChildMode::Plain, false);
            let d = doc_node(c, n, false);
            assert(d == seq![Piece::Line] + items);
            assert(lines_doc(1) =~= seq![Piece::Line]);
            assert(items.last() is Line);
            assert(d.last() is Line);
            assert(line_start_after_line_break(initial_state(new_line)));
            lemma_apply_line_start(initial_state(new_line), d);
        },
        _ => {},
    }
}

/// An operand is printed in parentheses exactly when its precedence is lower
/// than its position asks for.
pub proof fn lemma_operand_parenthesized_iff_lower_precedence(
    c: PrintContext,
    n: Node,
    p: i8,
    ie: bool,
)
    ensures
        (doc_expr(c, n, p, ie) == parenthesized(doc_node(c, n, ie))) <==> expression_precedence(n) < p,
        expression_precedence(n) >= p ==> doc_expr(c, n, p, ie) == doc_node(c, n, ie),
{
    if expression_precedence(n) >= p {
        assert(parenthesized(doc_node(c, n, ie)).len() == doc_node(c, n, ie).len() + 2);
    }
}

/// A type in an operand position is written in parentheses exactly when it
/// binds less tightly than the position asks (inside the `extends` clause of a
/// conditional type, a position looser than a function type asks for a
/// function type); otherwise it is written as it is.
pub proof fn lemma_type_operand_parenthesized_iff_lower_precedence(
    c: PrintContext,
    n: Node,
    p: i8,
    ie: bool,
)
    ensures
        (doc_type(c, n, p, ie) == parenthesized(doc_node(c, n, ie))) <==> type_node_precedence(n)
            < effective_type_precedence(p, ie),
        type_node_precedence(n) >= effective_type_precedence(p, ie) ==> doc_type(c, n, p, ie)
            == doc_node(c, n, ie),
{
    if type_node_precedence(n) >= effective_type_precedence(p, ie) {
        assert(parenthesized(doc_node(c, n, ie)).len() == doc_node(c, n, ie).len() + 2);
    }
}

/// The element type of an array type is parenthesized exactly when it binds
/// less tightly than a postfix type, as a union, an intersection, a function
/// or conditional type and a type operator do.
pub proof fn lemma_array_element_type_parenthesized(c: PrintContext, element: Node, ie: bool)
    ensures
        doc_node(c, Node::ArrayType(Box::new(element)), ie) == (if type_node_precedence(element)
            < TYPE_PRECEDENCE_POSTFIX {
            parenthesized(doc_node(c, element, ie))
        } else {
            doc_node(c, element, ie)
        }) + t("["@) + t("]"@),
{
    let n = Node::ArrayType(Box::new(element));
    assert(doc_node(c, n, ie) == doc_postfix_type(c, n, ie));
    assert(doc_postfix_type(c, n, ie) == doc_type(c, element, TYPE_PRECEDENCE_POSTFIX, ie) + t("["@) + t("]"@));
    assert(effective_type_precedence(TYPE_PRECEDENCE_POSTFIX, ie) == TYPE_PRECEDENCE_POSTFIX);
}

/// Operators that group to the left (`||`, `&&`, equality, relational, shift,
/// additive and multiplicative operators): an operand of the operator's own
/// precedence is written bare on the left and in parentheses on the right,
/// except that `*` leaves a right `*` bare, as either grouping means the same.
pub proof fn lemma_left_grouping_operands(left: Node, op: BinaryOperator, right: Node)
    requires
        ({
            let p = binary_operator_precedence(op);
            p == OPERATOR_PRECEDENCE_LOGICAL_OR || p == OPERATOR_PRECEDENCE_LOGICAL_AND || p
                == OPERATOR_PRECEDENCE_EQUALITY || p == OPERATOR_PRECEDENCE_RELATIONAL || p
                == OPERATOR_PRECEDENCE_SHIFT || p == OPERATOR_PRECEDENCE_ADDITIVE || p
                == OPERATOR_PRECEDENCE_MULTIPLICATIVE
        }),
        !(left matches Node::BinaryExpression { operator, .. }
            && mixing_operators_requires_parentheses(op, operator)),
        !(right matches Node::BinaryExpression { operator, .. }
            && mixing_operators_requires_parentheses(op, operator)),
    ensures
        ({
            let (lp, rp) = binary_operand_precedences(left, op, right);
            let p = binary_operator_precedence(op);
            &&& (expression_precedence(left) < lp <==> expression_precedence(left) < p)
            &&& (expression_precedence(right) < rp <==> (expression_precedence(right) <= p && !(
            op == BinaryOperator::Asterisk && is_binary_with(right, BinaryOperator::Asterisk))))
        }),
{
}

/// The bitwise operators and `,` group either way: an operand of the
/// operator's own precedence is written bare on both sides.
pub proof fn lemma_associative_operands(left: Node, op: BinaryOperator, right: Node)
    requires
        ({
            let p = binary_operator_precedence(op);
            p == OPERATOR_PRECEDENCE_BITWISE_OR || p == OPERATOR_PRECEDENCE_BITWISE_XOR || p
                == OPERATOR_PRECEDENCE_BITWISE_AND || op == BinaryOperator::Comma
        }),
    ensures
        ({
            let (lp, rp) = binary_operand_precedences(left, op, right);
            let p = binary_operator_precedence(op);
            &&& (expression_precedence(left) < lp <==> expression_precedence(left) < p)
            &&& (expression_precedence(right) < rp <==> expression_precedence(right) < p)
        }),
{
}

/// `**` groups to the right: its right operand may be another `**` bare,
/// while its left operand must bind at least as tightly as an update
/// expression, so a binary expression there is parenthesized.
pub proof fn lemma_exponentiation_operands(left: Node, right: Node)
    ensures
        ({
            let (lp, rp) = binary_operand_precedences(left, BinaryOperator::AsteriskAsterisk, right);
            &&& lp == OPERATOR_PRECEDENCE_UPDATE
            &&& rp == OPERATOR_PRECEDENCE_EXPONENTIATION
            &&& (left is BinaryExpression ==> expression_precedence(left) < lp)
        }),
{
}

/// `??` is never mixed with `||` or `&&` bare: such an operand, on either
/// side, is parenthesized.
pub proof fn lemma_nullish_mixing_parenthesized(left: Node, op: BinaryOperator, right: Node)
    ensures
        ({
            let (lp, rp) = binary_operand_precedences(left, op, right);
            &&& (left matches Node::BinaryExpression { operator, .. }
                && mixing_operators_requires_parentheses(op, operator)) ==> expression_precedence(
                left,
            ) < lp
            &&& (right matches Node::BinaryExpression { operator, .. }
                && mixing_operators_requires_parentheses(op, operator)) ==> expression_precedence(
                right,
            ) < rp
        }),
{
}

/// What a list writes for its item `i`: what comes before it, the item, and
/// what comes after it.
pub open spec fn framed_item(
    c: PrintContext,
    children: Seq<Node>,
    lo: int,
    i: int,
    format: ListFormat,
    mode: ChildMode,
    ie: bool,
) -> Seq<Piece> {
    item_prefix(c, format, lo, i) + doc_child(c, children[i], mode, ie) + item_suffix(c, format, lo, i)
}

/// A list writes each of its items once, in order: the run of the items
/// `children[lo..hi]` is, from the first item to the last, what each item is
/// written as with what comes before and after it, and nothing else.
pub proof fn lemma_items_written_once_in_order(
    c: PrintContext,
    children: Seq<Node>,
    lo: int,
    hi: int,
    format: ListFormat,
    mode: ChildMode,
    ie: bool,
)
    requires
        0 <= lo <= hi <= children.len(),
    ensures
        doc_item_run(c, children, lo, hi, format, mode, ie) == Seq::new(
            (hi - lo) as nat,
            |j: int| framed_item(c, children, lo, lo + j, format, mode, ie),
        ).flatten(),
    decreases hi - lo,
{
    let framed = Seq::new(
        (hi - lo) as nat,
        |j: int| framed_item(c, children, lo, lo + j, format, mode, ie),
    );
    framed.lemma_flatten_and_flatten_alt_are_equivalent();
    if hi > lo {
        lemma_items_written_once_in_order(c, children, lo, hi - 1, format, mode, ie);
        let shorter = Seq::new(
            (hi - 1 - lo) as nat,
            |j: int| framed_item(c, children, lo, lo + j, format, mode, ie),
        );
        assert(framed.drop_last() =~= shorter);
        shorter.lemma_flatten_and_flatten_alt_are_equivalent();
        assert(framed.last() == framed_item(c, children, lo, hi - 1, format, mode, ie));
    } else {
        assert(framed =~= Seq::<Seq<Piece>>::empty());
    }
}

/// Printing a list leaves a writer's indentation level where it found it, as
/// long as the level counter has room for every step in that the list makes.
pub proof fn lemma_list_printing_keeps_indentation(
    c: PrintContext,
    children: Seq<Node>,
    lo: int,
    hi: int,
    format: ListFormat,
    has_trailing_comma: bool,
    mode: ChildMode,
    ie: bool,
    ws: WriterState,
)
    requires
        ws.indent + doc_list(c, children, lo, hi, format, has_trailing_comma, mode, ie).len()
            <= usize::MAX,
    ensures
        apply(ws, doc_list(c, children, lo, hi, format, has_trailing_comma, mode, ie)).indent
            == ws.indent,
{
    let d = doc_list(c, children, lo, hi, format, has_trailing_comma, mode, ie);
    lemma_nodes_docs_well_nested(children);
    assert(well_nested(d));
    lemma_highest_nesting_at_most_len(d);
    lemma_apply_indent(ws, d);
}

/// Printing the items of a list leaves a writer's indentation level where it
/// found it, as long as the level counter has room for every step in that the
/// items make.
pub proof fn lemma_items_printing_keeps_indentation(
    c: PrintContext,
    children: Seq<Node>,
    lo: int,
    hi: int,
    format: ListFormat,
    has_trailing_comma: bool,
    mode: ChildMode,
    ie: bool,
    ws: WriterState,
)
    requires
        ws.indent + doc_items(c, children, lo, hi, format, has_trailing_comma, mode, ie).len()
            <= usize::MAX,
    ensures
        apply(ws, doc_items(c, children, lo, hi, format, has_trailing_comma, mode, ie)).indent
            == ws.indent,
{
    let d = doc_items(c, children, lo, hi, format, has_trailing_comma, mode, ie);
    lemma_nodes_docs_well_nested(children);
    assert(well_nested(d));
    lemma_highest_nesting_at_most_len(d);
    lemma_apply_indent(ws, d);
}

/// The assignment operators: `=` and the compound assignments.
pub open spec fn is_assignment_operator(op: BinaryOperator) -> bool {
    ||| op is Equals
    ||| op is PlusEquals
    ||| op is MinusEquals
    ||| op is AsteriskEquals
    ||| op is AsteriskAsteriskEquals
    ||| op is SlashEquals
    ||| op is PercentEquals
    ||| op is LessThanLessThanEquals
    ||| op is GreaterThanGreaterThanEquals
    ||| op is GreaterThanGreaterThanGreaterThanEquals
    ||| op is AmpersandEquals
    ||| op is BarEquals
    ||| op is CaretEquals
    ||| op is AmpersandAmpersandEquals
    ||| op is BarBarEquals
    ||| op is QuestionQuestionEquals
}

/// The equality operators: `==`, `!=`, `===`, `!==`.
pub open spec fn is_equality_operator(op: BinaryOperator) -> bool {
    op is EqualsEquals || op is ExclamationEquals || op is EqualsEqualsEquals
        || op is ExclamationEqualsEquals
}

/// The relational operators: `<`, `>`, `<=`, `>=`, `instanceof`, `in`.
pub open spec fn is_relational_operator(op: BinaryOperator) -> bool {
    op is LessThan || op is GreaterThan || op is LessThanEquals || op is GreaterThanEquals
        || op is InstanceOf || op is In
}

/// The shift operators: `<<`, `>>`, `>>>`.
pub open spec fn is_shift_operator(op: BinaryOperator) -> bool {
    op is LessThanLessThan || op is GreaterThanGreaterThan || op is GreaterThanGreaterThanGreaterThan
}

/// The additive operators: `+`, `-`.
pub open spec fn is_additive_operator(op: BinaryOperator) -> bool {
    op is Plus || op is Minus
}

/// The multiplicative operators: `*`, `/`, `%`.
pub open spec fn is_multiplicative_operator(op: BinaryOperator) -> bool {
    op is Asterisk || op is Slash || op is Percent
}

/// Binary operators bind as the grammar of expressions orders them: the
/// operators of one production bind alike, and from the loosest to the
/// tightest the productions are the comma, assignment, `??`, `||`, `&&`, `|`,
/// `^`, `&`, equality, relational, shift, additive, multiplicative and `**`.
pub proof fn lemma_binary_operators_bind_as_the_grammar_orders_them(a: BinaryOperator, b: BinaryOperator)
    ensures
        is_assignment_operator(a) && is_assignment_operator(b) ==> binary_operator_precedence(a)
            == binary_operator_precedence(b),
        is_equality_operator(a) && is_equality_operator(b) ==> binary_operator_precedence(a)
            == binary_operator_precedence(b),
        is_relational_operator(a) && is_relational_operator(b) ==> binary_operator_precedence(a)
            == binary_operator_precedence(b),
        is_shift_operator(a) && is_shift_operator(b) ==> binary_operator_precedence(a)
            == binary_operator_precedence(b),
        is_additive_operator(a) && is_additive_operator(b) ==> binary_operator_precedence(a)
            == binary_operator_precedence(b),
        is_multiplicative_operator(a) && is_multiplicative_operator(b) ==> binary_operator_precedence(a)
            == binary_operator_precedence(b),
        a is Comma && is_assignment_operator(b) ==> binary_operator_precedence(a)
            < binary_operator_precedence(b),
        is_assignment_operator(a) && b is QuestionQuestion ==> binary_operator_precedence(a)
            < binary_operator_precedence(b),
        a is QuestionQuestion && b is BarBar ==> binary_operator_precedence(a)
            < binary_operator_precedence(b),
        a is BarBar && b is AmpersandAmpersand ==> binary_operator_precedence(a)
            < binary_operator_precedence(b),
        a is AmpersandAmpersand && b is Bar ==> binary_operator_precedence(a)
            < binary_operator_precedence(b),
        a is Bar && b is Caret ==> binary_operator_precedence(a) < binary_operator_precedence(b),
        a is Caret && b is Ampersand ==> binary_operator_precedence(a) < binary_operator_precedence(b),
        a is Ampersand && is_equality_operator(b) ==> binary_operator_precedence(a)
            < binary_operator_precedence(b),
        is_equality_operator(a) && is_relational_operator(b) ==> binary_operator_precedence(a)
            < binary_operator_precedence(b),
        is_relational_operator(a) && is_shift_operator(b) ==> binary_operator_precedence(a)
            < binary_operator_precedence(b),
        is_shift_operator(a) && is_additive_operator(b) ==> binary_operator_precedence(a)
            < binary_operator_precedence(b),
        is_additive_operator(a) && is_multiplicative_operator(b) ==> binary_operator_precedence(a)
            < binary_operator_precedence(b),
        is_multiplicative_operator(a) && b is AsteriskAsterisk ==> binary_operator_precedence(a)
            < binary_operator_precedence(b),
{
}

/// An operand that is a binary expression whose operator binds less tightly
/// than `op` is written in parentheses, on either side of `op`: so `(a >> b) +
/// c` keeps its parentheses, and so does `a + (b >> c)`.
pub proof fn lemma_looser_binary_operand_parenthesized(left: Node, op: BinaryOperator, right: Node)
    ensures
        ({
            let (lp, rp) = binary_operand_precedences(left, op, right);
            &&& (left is BinaryExpression && expression_precedence(left) < binary_operator_precedence(op))
                ==> expression_precedence(left) < lp
            &&& (right is BinaryExpression && expression_precedence(right) < binary_operator_precedence(op))
                ==> expression_precedence(right) < rp
        }),
{
}

/// Whether the expression statement `e;` is printed as `(e);`.
pub open spec fn statement_printed_in_parentheses(c: PrintContext, e: Node, ie: bool) -> bool {
    doc_node(c, Node::ExpressionStatement(Box::new(e)), ie) == parenthesized(doc_node(c, e, ie)) + t(";"@)
}

/// A binary expression binds less tightly than anything a statement may begin
/// with unwrapped.
proof fn lemma_binary_precedence_below_parentheses(op: BinaryOperator)
    ensures
        OPERATOR_PRECEDENCE_COMMA <= binary_operator_precedence(op) < OPERATOR_PRECEDENCE_PARENTHESES,
{
}

/// A statement whose expression is a binary expression with an object literal
/// or a function expression as its left operand is printed in parentheses, so
/// that it is not read as a block or a function declaration: `({ a } = b);`.
pub proof fn lemma_statement_led_by_literal_operand_parenthesized(
    c: PrintContext,
    left: Node,
    op: BinaryOperator,
    right: Node,
    line_break_before_operator: bool,
    line_break_after_operator: bool,
    ie: bool,
)
    requires
        left is ObjectLiteralExpression || left is FunctionExpression,
    ensures
        statement_printed_in_parentheses(
            c,
            Node::BinaryExpression {
                left: Box::new(left),
                operator: op,
                right: Box::new(right),
                line_break_before_operator,
                line_break_after_operator,
            },
            ie,
        ),
{
    lemma_binary_precedence_below_parentheses(op);
    let e = Node::BinaryExpression {
        left: Box::new(left),
        operator: op,
        right: Box::new(right),
        line_break_before_operator,
        line_break_after_operator,
    };
    let st = Node::ExpressionStatement(Box::new(e));
    assert(leftmost_expression(left) == left);
    assert(leftmost_is_function_or_object_literal(e));
    assert(!is_immediately_invoked_function(e));
    assert(expression_precedence(e) < OPERATOR_PRECEDENCE_PARENTHESES);
    assert(doc_expr(c, e, OPERATOR_PRECEDENCE_PARENTHESES, ie) == parenthesized(doc_node(c, e, ie)));
    assert(doc_expression_statement(c, st, ie) == parenthesized(doc_node(c, e, ie)) + t(";"@));
    assert(doc_node(c, st, ie) == doc_expression_statement(c, st, ie));
}

/// A statement that must be printed in parentheses stays so when its
/// expression becomes the left operand of a binary expression: `(x);` gives
/// `(x + y);`. (`x` is no immediately invoked function, which is printed
/// differently, and binds at least as tightly as the comma.)
pub proof fn lemma_statement_in_parentheses_kept_by_left_operand(
    c: PrintContext,
    x: Node,
    op: BinaryOperator,
    right: Node,
    line_break_before_operator: bool,
    line_break_after_operator: bool,
    ie: bool,
)
    requires
        statement_printed_in_parentheses(c, x, ie),
        !is_immediately_invoked_function(x),
        expression_precedence(x) >= OPERATOR_PRECEDENCE_COMMA,
    ensures
        statement_printed_in_parentheses(
            c,
            Node::BinaryExpression {
                left: Box::new(x),
                operator: op,
                right: Box::new(right),
                line_break_before_operator,
                line_break_after_operator,
            },
            ie,
        ),
{
    lemma_binary_precedence_below_parentheses(op);
    let d = doc_node(c, x, ie);
    let sx = Node::ExpressionStatement(Box::new(x));
    assert(doc_node(c, sx, ie) == doc_expression_statement(c, sx, ie));
    if !leftmost_is_function_or_object_literal(x) {
        assert(doc_expr(c, x, OPERATOR_PRECEDENCE_COMMA, ie) == d);
        assert(doc_expression_statement(c, sx, ie) == d + t(";"@));
        assert((d + t(";"@)).len() != (parenthesized(d) + t(";"@)).len());
    }
    let e = Node::BinaryExpression {
        left: Box::new(x),
        operator: op,
        right: Box::new(right),
        line_break_before_operator,
        line_break_after_operator,
    };
    let st = Node::ExpressionStatement(Box::new(e));
    assert(leftmost_expression(e) == leftmost_expression(x));
    assert(leftmost_is_function_or_object_literal(e));
    assert(!is_immediately_invoked_function(e));
    assert(expression_precedence(e) < OPERATOR_PRECEDENCE_PARENTHESES);
    assert(doc_expr(c, e, OPERATOR_PRECEDENCE_PARENTHESES, ie) == parenthesized(doc_node(c, e, ie)));
    assert(doc_expression_statement(c, st, ie) == parenthesized(doc_node(c, e, ie)) + t(";"@));
    assert(doc_node(c, st, ie) == doc_expression_statement(c, st, ie));
}

/// The unary forms: prefix operators, `delete`, `void`, `typeof` and `await`.
pub open spec fn is_unary_form(n: Node) -> bool {
    n is PrefixUnaryExpression || n is DeleteExpression || n is VoidExpression || n is TypeOfExpression
        || n is AwaitExpression
}

/// Member accesses and calls outside an optional chain, tagged templates, and
/// `new` with an argument list.
pub open spec fn is_member_form(n: Node) -> bool {
    ||| n matches Node::PropertyAccessExpression { optional_chain, .. } && !optional_chain
    ||| n matches Node::ElementAccessExpression { optional_chain, .. } && !optional_chain
    ||| n matches Node::CallExpression { optional_chain, .. } && !optional_chain
    ||| n is TaggedTemplateExpression
    ||| n matches Node::NewExpression { arguments, .. } && arguments is Some
}

/// Member accesses and calls inside an optional chain.
pub open spec fn is_optional_chain_form(n: Node) -> bool {
    ||| n matches Node::PropertyAccessExpression { optional_chain, .. } && optional_chain
    ||| n matches Node::ElementAccessExpression { optional_chain, .. } && optional_chain
    ||| n matches Node::CallExpression { optional_chain, .. } && optional_chain
}

/// Primary expressions: names, literals, templates, parenthesized expressions,
/// and function, class, object and array literals.
pub open spec fn is_primary_form(n: Node) -> bool {
    n is Identifier || n is NumericLiteral || n is StringLiteral || n is BigIntLiteral
        || n is KeywordExpression || n is TemplateExpression || n is ParenthesizedExpression
        || n is FunctionExpression || n is ClassExpression || n is ObjectLiteralExpression
        || n is ArrayLiteralExpression
}

/// Expression forms bind as the grammar of expressions orders them, from the
/// loosest: spread, `yield`, arrow functions and assignments, conditionals (with
/// `??`), the binary operators, the unary forms, postfix updates, `new` without
/// arguments, optional chains, member accesses and calls, and primary
/// expressions. `as` and `satisfies` bind as the relational operators.
pub proof fn lemma_expression_forms_bind_as_the_grammar_orders_them(x: Node, y: Node)
    ensures
        x is SpreadElement && y is YieldExpression ==> expression_precedence(x) < expression_precedence(y),
        x is YieldExpression && y is ArrowFunction ==> expression_precedence(x) < expression_precedence(y),
        x is ArrowFunction && (y matches Node::BinaryExpression { operator, .. } && is_assignment_operator(
            operator,
        )) ==> expression_precedence(x) == expression_precedence(y),
        x is ArrowFunction && y is ConditionalExpression ==> expression_precedence(x)
            < expression_precedence(y),
        x is ConditionalExpression && y is BinaryExpression && !(y matches Node::BinaryExpression {
            operator,
            ..
        } && (operator is Comma || is_assignment_operator(operator))) ==> expression_precedence(x)
            <= expression_precedence(y),
        x is BinaryExpression && is_unary_form(y) ==> expression_precedence(x) < expression_precedence(y),
        is_unary_form(x) && is_unary_form(y) ==> expression_precedence(x) == expression_precedence(y),
        is_unary_form(x) && y is PostfixUnaryExpression ==> expression_precedence(x)
            < expression_precedence(y),
        x is PostfixUnaryExpression && (y matches Node::NewExpression { arguments, .. } && arguments is None)
            ==> expression_precedence(x) < expression_precedence(y),
        (x matches Node::NewExpression { arguments, .. } && arguments is None) && is_optional_chain_form(y)
            ==> expression_precedence(x) < expression_precedence(y),
        is_optional_chain_form(x) && is_member_form(y) ==> expression_precedence(x)
            < expression_precedence(y),
        is_member_form(x) && is_member_form(y) ==> expression_precedence(x) == expression_precedence(y),
        is_member_form(x) && is_primary_form(y) ==> expression_precedence(x) < expression_precedence(y),
        is_primary_form(x) && is_primary_form(y) ==> expression_precedence(x) == expression_precedence(y),
        (x is AsExpression || x is SatisfiesExpression) && (y matches Node::BinaryExpression {
            operator,
            ..
        } && is_relational_operator(operator)) ==> expression_precedence(x) == expression_precedence(y),
{
}

/// Type forms bind as the grammar of types orders them, from the loosest:
/// conditional types; function types and `infer` with a constraint; unions;
/// intersections; type operators, type queries and `infer` without a
/// constraint; array, indexed access, optional and rest types; and the rest
/// (references, keywords, tuples, literals, parenthesized types).
pub proof fn lemma_type_forms_bind_as_the_grammar_orders_them(x: Node, y: Node)
    ensures
        x is ConditionalType && y is FunctionType ==> type_node_precedence(x) < type_node_precedence(y),
        x is FunctionType && (y matches Node::InferType { constraint, .. } && constraint is Some)
            ==> type_node_precedence(x) == type_node_precedence(y),
        x is FunctionType && y is UnionType ==> type_node_precedence(x) < type_node_precedence(y),
        x is UnionType && y is IntersectionType ==> type_node_precedence(x) < type_node_precedence(y),
        x is IntersectionType && y is TypeOperator ==> type_node_precedence(x) < type_node_precedence(y),
        x is TypeOperator && (y is TypeQuery || (y matches Node::InferType { constraint, .. }
            && constraint is None)) ==> type_node_precedence(x) == type_node_precedence(y),
        x is TypeOperator && y is ArrayType ==> type_node_precedence(x) < type_node_precedence(y),
        x is ArrayType && (y is IndexedAccessType || y is OptionalType || y is RestType)
            ==> type_node_precedence(x) == type_node_precedence(y),
        x is ArrayType && y is TypeReference ==> type_node_precedence(x) < type_node_precedence(y),
        x is TypeReference && (y is KeywordType || y is TupleType || y is LiteralType
            || y is ParenthesizedType) ==> type_node_precedence(x) == type_node_precedence(y),
{
}

/// A statement that must be printed in parentheses stays so when its
/// expression becomes the part at the left end of a larger expression: the
/// left operand of a binary or conditional expression, the operand of a
/// postfix update, the object of a member access or call, the tag of a tagged
/// template, or the expression of `as`, `satisfies` or `!`. (Neither is an
/// immediately invoked function, which is printed differently, and `x` binds
/// at least as tightly as the comma.)
pub proof fn lemma_statement_in_parentheses_kept_at_left_end(c: PrintContext, x: Node, y: Node, ie: bool)
    requires
        statement_printed_in_parentheses(c, x, ie),
        !is_immediately_invoked_function(x),
        !is_immediately_invoked_function(y),
        expression_precedence(x) >= OPERATOR_PRECEDENCE_COMMA,
        ({
            ||| y matches Node::BinaryExpression { left, .. } && *left == x
            ||| y matches Node::ConditionalExpression { condition, .. } && *condition == x
            ||| y matches Node::PostfixUnaryExpression { operand, .. } && *operand == x
            ||| y matches Node::PropertyAccessExpression { expression, .. } && *expression == x
            ||| y matches Node::ElementAccessExpression { expression, .. } && *expression == x
            ||| y matches Node::CallExpression { expression, .. } && *expression == x
            ||| y matches Node::TaggedTemplateExpression { tag, .. } && *tag == x
            ||| y matches Node::AsExpression { expression, .. } && *expression == x
            ||| y matches Node::SatisfiesExpression { expression, .. } && *expression == x
            ||| y matches Node::NonNullExpression(expression) && *expression == x
        }),
    ensures
        statement_printed_in_parentheses(c, y, ie),
{
    let d = doc_node(c, x, ie);
    let sx = Node::ExpressionStatement(Box::new(x));
    assert(doc_node(c, sx, ie) == doc_expression_statement(c, sx, ie));
    if !leftmost_is_function_or_object_literal(x) {
        assert(doc_expr(c, x, OPERATOR_PRECEDENCE_COMMA, ie) == d);
        assert(doc_expression_statement(c, sx, ie) == d + t(";"@));
        assert((d + t(";"@)).len() != (parenthesized(d) + t(";"@)).len());
    }
    match y {
        Node::BinaryExpression { operator, .. } => lemma_binary_precedence_below_parentheses(operator),
        _ => {},
    }
    let st = Node::ExpressionStatement(Box::new(y));
    assert(leftmost_expression(y) == leftmost_expression(x));
    assert(leftmost_is_function_or_object_literal(y));
    assert(expression_precedence(y) < OPERATOR_PRECEDENCE_PARENTHESES);
    assert(doc_expr(c, y, OPERATOR_PRECEDENCE_PARENTHESES, ie) == parenthesized(doc_node(c, y, ie)));
    assert(doc_expression_statement(c, st, ie) == parenthesized(doc_node(c, y, ie)) + t(";"@));
    assert(doc_node(c, st, ie) == doc_expression_statement(c, st, ie));
}

/// A statement that is an object literal or a function expression is printed
/// in parentheses, so that it is not read as a block or a function declaration.
pub proof fn lemma_literal_statement_parenthesized(c: PrintContext, x: Node, ie: bool)
    requires
        x is ObjectLiteralExpression || x is FunctionExpression,
    ensures
        statement_printed_in_parentheses(c, x, ie),
{
    let st = Node::ExpressionStatement(Box::new(x));
    assert(leftmost_expression(x) == x);
    assert(!is_immediately_invoked_function(x));
    assert(doc_expr(c, x, OPERATOR_PRECEDENCE_PARENTHESES, ie) == parenthesized(doc_node(c, x, ie)));
    assert(doc_expression_statement(c, st, ie) == parenthesized(doc_node(c, x, ie)) + t(";"@));
    assert(doc_node(c, st, ie) == doc_expression_statement(c, st, ie));
}

/// Whether `export default e;` is printed with `e` in parentheses.
pub open spec fn export_default_printed_in_parentheses(c: PrintContext, e: Node, ie: bool) -> bool {
    doc_node(c, Node::ExportAssignment { is_export_equals: false, expression: Box::new(e) }, ie) == t(
        "export"@,
    ) + t(" "@) + t("default"@) + t(" "@) + parenthesized(doc_node(c, e, ie)) + t(";"@)
}

/// `export default` of a class or function expression writes it in
/// parentheses, so that it is not read as a class or function declaration.
pub proof fn lemma_export_default_of_class_or_function_parenthesized(c: PrintContext, x: Node, ie: bool)
    requires
        x is ClassExpression || x is FunctionExpression,
    ensures
        export_default_printed_in_parentheses(c, x, ie),
{
    let st = Node::ExportAssignment { is_export_equals: false, expression: Box::new(x) };
    assert(leftmost_expression(x) == x);
    assert(doc_expr(c, x, OPERATOR_PRECEDENCE_PARENTHESES, ie) == parenthesized(doc_node(c, x, ie)));
    assert(doc_node(c, st, ie) == doc_export_assignment(c, st, ie));
}

/// `export default` keeps its parentheses when the exported expression
/// becomes the part at the left end of a larger expression (see
/// `lemma_statement_in_parentheses_kept_at_left_end`), as long as it binds at
/// least as tightly as an assignment.
pub proof fn lemma_export_default_in_parentheses_kept_at_left_end(c: PrintContext, x: Node, y: Node, ie: bool)
    requires
        export_default_printed_in_parentheses(c, x, ie),
        expression_precedence(x) >= OPERATOR_PRECEDENCE_ASSIGNMENT,
        ({
            ||| y matches Node::BinaryExpression { left, .. } && *left == x
            ||| y matches Node::ConditionalExpression { condition, .. } && *condition == x
            ||| y matches Node::PostfixUnaryExpression { operand, .. } && *operand == x
            ||| y matches Node::PropertyAccessExpression { expression, .. } && *expression == x
            ||| y matches Node::ElementAccessExpression { expression, .. } && *expression == x
            ||| y matches Node::CallExpression { expression, .. } && *expression == x
            ||| y matches Node::TaggedTemplateExpression { tag, .. } && *tag == x
            ||| y matches Node::AsExpression { expression, .. } && *expression == x
            ||| y matches Node::SatisfiesExpression { expression, .. } && *expression == x
            ||| y matches Node::NonNullExpression(expression) && *expression == x
        }),
    ensures
        export_default_printed_in_parentheses(c, y, ie),
{
    let d = doc_node(c, x, ie);
    let sx = Node::ExportAssignment { is_export_equals: false, expression: Box::new(x) };
    assert(doc_node(c, sx, ie) == doc_export_assignment(c, sx, ie));
    let head = t("export"@) + t(" "@) + t("default"@) + t(" "@);
    if !leftmost_is_class_or_function(x) {
        assert(doc_expr(c, x, OPERATOR_PRECEDENCE_ASSIGNMENT, ie) == d);
        assert(doc_export_assignment(c, sx, ie) == head + d + t(";"@));
        assert((head + d + t(";"@)).len() != (head + parenthesized(d) + t(";"@)).len());
    }
    match y {
        Node::BinaryExpression { operator, .. } => lemma_binary_precedence_below_parentheses(operator),
        _ => {},
    }
    let st = Node::ExportAssignment { is_export_equals: false, expression: Box::new(y) };
    assert(leftmost_expression(y) == leftmost_expression(x));
    assert(leftmost_is_class_or_function(y));
    assert(expression_precedence(y) < OPERATOR_PRECEDENCE_PARENTHESES);
    assert(doc_expr(c, y, OPERATOR_PRECEDENCE_PARENTHESES, ie) == parenthesized(doc_node(c, y, ie)));
    assert(doc_node(c, st, ie) == doc_export_assignment(c, st, ie));
}

/// `??` is not mixed bare with `||` or `&&`: an operand of one of them that is
/// a binary expression with the other is written in parentheses, on either
/// side.
pub proof fn lemma_nullish_and_logical_operands_parenthesized(left: Node, op: BinaryOperator, right: Node)
    ensures
        ({
            let (lp, rp) = binary_operand_precedences(left, op, right);
            let logical = |o: BinaryOperator| o is BarBar || o is AmpersandAmpersand;
            &&& (op is QuestionQuestion && (left matches Node::BinaryExpression { operator, .. }
                && logical(operator))) ==> expression_precedence(left) < lp
            &&& (op is QuestionQuestion && (right matches Node::BinaryExpression { operator, .. }
                && logical(operator))) ==> expression_precedence(right) < rp
            &&& (logical(op) && is_binary_with(left, BinaryOperator::QuestionQuestion))
                ==> expression_precedence(left) < lp
            &&& (logical(op) && is_binary_with(right, BinaryOperator::QuestionQuestion))
                ==> expression_precedence(right) < rp
        }),
{
}

/// The operands of an assignment: on the right, assignments, arrow functions,
/// conditionals and `yield` stand bare and a comma expression is wrapped; on
/// the left, a conditional stands bare and an assignment or a comma
/// expression is wrapped.
pub proof fn lemma_assignment_operands(left: Node, op: BinaryOperator, right: Node)
    requires
        is_assignment_operator(op),
    ensures
        ({
            let (lp, rp) = binary_operand_precedences(left, op, right);
            &&& ((right matches Node::BinaryExpression { operator, .. } && is_assignment_operator(
                operator,
            )) || right is ArrowFunction || right is ConditionalExpression || right is YieldExpression)
                ==> !(expression_precedence(right) < rp)
            &&& is_binary_with(right, BinaryOperator::Comma) ==> expression_precedence(right) < rp
            &&& left is ConditionalExpression ==> !(expression_precedence(left) < lp)
            &&& ((left matches Node::BinaryExpression { operator, .. } && is_assignment_operator(
                operator,
            )) || is_binary_with(left, BinaryOperator::Comma)) ==> expression_precedence(left) < lp
        }),
{
}

} // verus!
