use ts_printer::ast::{
    BinaryOperator, ExpressionKeyword, ModifierKind, Node, PostfixOperator, PrefixOperator,
    TypeKeyword, TypeOperatorKind, VariableKind,
};
use ts_printer::layout::{
    get_closing_line_terminator_count, get_leading_line_terminator_count,
    get_separating_line_terminator_count, PrintContext,
};
use ts_printer::list_format::{
    ListFormat, TokenEmitFlags, WriteKind, LF_ANGLE_BRACKETS, LF_BRACES, LF_COMMA_DELIMITED,
    LF_MULTI_LINE, LF_PARENTHESIS, LF_PREFER_NEW_LINE, LF_PRESERVE_LINES, LF_SQUARE_BRACKETS,
    TOKEN_EMIT_INDENT_LEADING_COMMENTS, TOKEN_EMIT_NO_COMMENTS, TOKEN_EMIT_NO_SOURCE_MAPS,
};
use ts_printer::positions::{
    compute_line_of_position, get_lines_between_positions, get_start_position_of_range,
    greatest_end, positions_are_on_same_line, range_is_on_single_line, skip_trivia, SourceFile,
    TextRange,
};
use ts_printer::precedence::{
    get_binary_expression_precedence, get_binary_operand_precedences,
    get_binary_operator_precedence, get_expression_precedence, get_leftmost_expression,
    get_type_node_precedence, mixing_binary_operators_requires_parentheses,
    OPERATOR_PRECEDENCE_ADDITIVE, OPERATOR_PRECEDENCE_ASSIGNMENT, OPERATOR_PRECEDENCE_COMMA,
    OPERATOR_PRECEDENCE_CONDITIONAL, OPERATOR_PRECEDENCE_EXPONENTIATION,
    OPERATOR_PRECEDENCE_HIGHEST, OPERATOR_PRECEDENCE_MULTIPLICATIVE, OPERATOR_PRECEDENCE_PRIMARY,
    OPERATOR_PRECEDENCE_UPDATE, OPERATOR_PRECEDENCE_YIELD, TYPE_PRECEDENCE_CONDITIONAL,
    TYPE_PRECEDENCE_UNION,
};
use ts_printer::printer::{
    new_printer, trim_emit_final_newline, NewLineKind, PrinterOptions,
};
use ts_printer::text_writer::{write_lines_and_indent_to_writer, TextWriter};
use ts_printer::tokens::{
    get_binary_operator_text, get_expression_keyword_text, get_modifier_text,
    get_postfix_operator_text, get_prefix_operator_text, get_type_keyword_text,
    get_type_operator_text,
};

fn ident(name: &str) -> Node {
    Node::Identifier(name.to_string())
}

fn boxed(n: Node) -> Box<Node> {
    Box::new(n)
}

fn statement(expression: Node) -> Node {
    Node::ExpressionStatement(boxed(expression))
}

fn source_file(statements: Vec<Node>) -> Node {
    Node::SourceFile { statements }
}

fn print(file: Node) -> String {
    let mut printer = new_printer(PrinterOptions::default());
    printer.emit_source_file(&file)
}

fn chars(text: &str) -> Vec<char> {
    text.chars().collect()
}

#[test]
fn text_writer_indents_lines_that_hold_text() {
    let mut writer = TextWriter::new("\n");
    writer.write_keyword("if");
    writer.increase_indent();
    writer.write_line();
    writer.write_line();
    writer.write_punctuation(";");
    writer.decrease_indent();
    writer.write_line();
    writer.write("");
    writer.write_punctuation("}");
    assert_eq!(writer.string(), "if\n    ;\n}");
    assert_eq!(writer.get_indent(), 0);
    assert!(!writer.is_at_start_of_line());
    writer.clear();
    assert_eq!(writer.string(), "");
    assert!(writer.is_at_start_of_line());
}

#[test]
fn text_writer_dedent_stops_at_zero() {
    let mut writer = TextWriter::new("\r\n");
    writer.decrease_indent();
    assert_eq!(writer.get_indent(), 0);
    writer.increase_indent();
    writer.increase_indent();
    writer.write_symbol("a");
    writer.write_line();
    writer.decrease_indent();
    writer.write_symbol("b");
    assert_eq!(writer.string(), "        a\r\n    b");
}

#[test]
fn write_lines_and_indent_to_writer_breaks_or_spaces() {
    let mut writer = TextWriter::new("\n");
    writer.write_symbol("a");
    write_lines_and_indent_to_writer(&mut writer, 2, true);
    writer.write_symbol("b");
    assert_eq!(writer.string(), "a\n    b");
    assert_eq!(writer.get_indent(), 1);

    let mut writer = TextWriter::new("\n");
    writer.write_symbol("a");
    write_lines_and_indent_to_writer(&mut writer, 0, true);
    writer.write_symbol("b");
    assert_eq!(writer.string(), "a b");

    let mut writer = TextWriter::new("\n");
    writer.write_symbol("a");
    write_lines_and_indent_to_writer(&mut writer, -1, false);
    writer.write_symbol("b");
    assert_eq!(writer.string(), "ab");
}

#[test]
fn list_format_flags_and_brackets() {
    let format = ListFormat(LF_COMMA_DELIMITED | LF_PARENTHESIS);
    assert!(format.contains(ListFormat(LF_COMMA_DELIMITED)));
    assert!(!format.contains(ListFormat(LF_MULTI_LINE)));
    assert!(format.intersects(ListFormat(LF_MULTI_LINE | LF_PARENTHESIS)));
    assert!(format.mask_eq(ListFormat(LF_PARENTHESIS | LF_BRACES), ListFormat(LF_PARENTHESIS)));
    assert_eq!(format.opening_bracket(), "(");
    assert_eq!(format.closing_bracket(), ")");
    assert_eq!(ListFormat(LF_BRACES).opening_bracket(), "{");
    assert_eq!(ListFormat(LF_BRACES).closing_bracket(), "}");
    assert_eq!(ListFormat(LF_ANGLE_BRACKETS).opening_bracket(), "<");
    assert_eq!(ListFormat(LF_ANGLE_BRACKETS).closing_bracket(), ">");
    assert_eq!(ListFormat(LF_SQUARE_BRACKETS).opening_bracket(), "[");
    assert_eq!(ListFormat(LF_SQUARE_BRACKETS).closing_bracket(), "]");
    assert_eq!(format.union(ListFormat(LF_MULTI_LINE)).0, LF_COMMA_DELIMITED | LF_PARENTHESIS | LF_MULTI_LINE);
    assert_eq!(format.intersection(ListFormat(LF_PARENTHESIS)).0, LF_PARENTHESIS);
    assert_eq!(format.complement().0, !(LF_COMMA_DELIMITED | LF_PARENTHESIS));
}

#[test]
fn token_emit_flags_contains() {
    let flags = TokenEmitFlags(TOKEN_EMIT_NO_COMMENTS | TOKEN_EMIT_NO_SOURCE_MAPS);
    assert!(flags.contains(TokenEmitFlags(TOKEN_EMIT_NO_COMMENTS)));
    assert!(!flags.contains(TokenEmitFlags(TOKEN_EMIT_INDENT_LEADING_COMMENTS)));
    assert_eq!(WriteKind::Keyword, WriteKind::Keyword);
    assert_ne!(WriteKind::Plain, WriteKind::Comment);
}

#[test]
fn line_terminator_counts() {
    let plain = PrintContext { in_source_file: false, preserve_source_newlines: false, numeric_separators: false };
    let in_file = PrintContext { in_source_file: true, preserve_source_newlines: false, numeric_separators: false };
    let multi = ListFormat(LF_MULTI_LINE);
    let preserve = ListFormat(LF_PRESERVE_LINES);
    assert_eq!(get_leading_line_terminator_count(multi, Some(false), plain), 1);
    assert_eq!(get_leading_line_terminator_count(ListFormat(0), Some(false), plain), 0);
    assert_eq!(get_leading_line_terminator_count(preserve, None, plain), 1);
    assert_eq!(get_leading_line_terminator_count(preserve, None, in_file), 0);
    assert_eq!(get_leading_line_terminator_count(preserve, Some(true), in_file), 1);
    assert_eq!(
        get_leading_line_terminator_count(ListFormat(LF_PRESERVE_LINES | LF_PREFER_NEW_LINE), Some(false), in_file),
        1
    );
    assert_eq!(get_separating_line_terminator_count(preserve, None, Some(false), plain), 0);
    assert_eq!(get_separating_line_terminator_count(preserve, Some(true), Some(false), plain), 1);
    assert_eq!(get_separating_line_terminator_count(preserve, Some(true), Some(false), in_file), 0);
    assert_eq!(get_separating_line_terminator_count(ListFormat(0), Some(false), Some(true), plain), 1);
    assert_eq!(get_separating_line_terminator_count(multi, Some(false), Some(false), plain), 1);
    assert_eq!(get_closing_line_terminator_count(multi, Some(false), plain), 1);
    assert_eq!(
        get_closing_line_terminator_count(ListFormat(LF_MULTI_LINE | 0x20000), Some(false), plain),
        0
    );
    assert_eq!(get_closing_line_terminator_count(preserve, None, plain), 1);
}

#[test]
fn operator_precedences() {
    assert_eq!(get_binary_operator_precedence(BinaryOperator::Comma), OPERATOR_PRECEDENCE_COMMA);
    assert_eq!(get_binary_operator_precedence(BinaryOperator::PlusEquals), OPERATOR_PRECEDENCE_ASSIGNMENT);
    assert_eq!(get_binary_operator_precedence(BinaryOperator::Minus), OPERATOR_PRECEDENCE_ADDITIVE);
    assert_eq!(get_binary_operator_precedence(BinaryOperator::Percent), OPERATOR_PRECEDENCE_MULTIPLICATIVE);
    assert_eq!(
        get_binary_operator_precedence(BinaryOperator::AsteriskAsterisk),
        OPERATOR_PRECEDENCE_EXPONENTIATION
    );
    assert_eq!(
        get_binary_expression_precedence(BinaryOperator::Equals, &ident("x")),
        (OPERATOR_PRECEDENCE_CONDITIONAL, OPERATOR_PRECEDENCE_YIELD)
    );
    assert_eq!(
        get_binary_expression_precedence(BinaryOperator::AsteriskAsterisk, &ident("x")),
        (OPERATOR_PRECEDENCE_UPDATE, OPERATOR_PRECEDENCE_EXPONENTIATION)
    );
    let product = Node::BinaryExpression {
        left: boxed(ident("a")),
        operator: BinaryOperator::Asterisk,
        right: boxed(ident("b")),
        line_break_before_operator: false,
        line_break_after_operator: false,
    };
    assert_eq!(
        get_binary_expression_precedence(BinaryOperator::Asterisk, &product),
        (OPERATOR_PRECEDENCE_MULTIPLICATIVE, OPERATOR_PRECEDENCE_MULTIPLICATIVE)
    );
    assert_eq!(
        get_binary_expression_precedence(BinaryOperator::Slash, &product),
        (OPERATOR_PRECEDENCE_MULTIPLICATIVE, OPERATOR_PRECEDENCE_EXPONENTIATION)
    );
    let nullish = Node::BinaryExpression {
        left: boxed(ident("a")),
        operator: BinaryOperator::QuestionQuestion,
        right: boxed(ident("b")),
        line_break_before_operator: false,
        line_break_after_operator: false,
    };
    assert_eq!(
        get_binary_operand_precedences(&nullish, BinaryOperator::BarBar, &ident("c")).0,
        OPERATOR_PRECEDENCE_HIGHEST
    );
    assert!(mixing_binary_operators_requires_parentheses(BinaryOperator::QuestionQuestion, BinaryOperator::AmpersandAmpersand));
    assert!(!mixing_binary_operators_requires_parentheses(BinaryOperator::Plus, BinaryOperator::BarBar));
    assert_eq!(get_expression_precedence(&ident("a")), OPERATOR_PRECEDENCE_PRIMARY);
    assert_eq!(get_expression_precedence(&Node::EmptyStatement), -1);
    let conditional = Node::ConditionalType {
        check_type: boxed(Node::KeywordType(TypeKeyword::Any)),
        extends_type: boxed(Node::KeywordType(TypeKeyword::Any)),
        true_type: boxed(Node::KeywordType(TypeKeyword::Any)),
        false_type: boxed(Node::KeywordType(TypeKeyword::Any)),
    };
    assert_eq!(get_type_node_precedence(&conditional), TYPE_PRECEDENCE_CONDITIONAL);
    assert_eq!(get_type_node_precedence(&Node::UnionType(vec![])), TYPE_PRECEDENCE_UNION);
    let call = Node::CallExpression {
        expression: boxed(Node::PropertyAccessExpression {
            expression: boxed(ident("o")),
            name: "m".to_string(),
            question_dot: false,
            optional_chain: false,
            line_break_before_dot: false,
            line_break_after_dot: false,
        }),
        type_arguments: vec![],
        arguments: vec![],
        question_dot: false,
        optional_chain: false,
    };
    assert!(matches!(get_leftmost_expression(&call), Node::Identifier(name) if name == "o"));
}

#[test]
fn token_texts() {
    assert_eq!(get_binary_operator_text(BinaryOperator::GreaterThanGreaterThanGreaterThanEquals), ">>>=");
    assert_eq!(get_binary_operator_text(BinaryOperator::InstanceOf), "instanceof");
    assert_eq!(get_prefix_operator_text(PrefixOperator::Exclamation), "!");
    assert_eq!(get_postfix_operator_text(PostfixOperator::MinusMinus), "--");
    assert_eq!(get_expression_keyword_text(ExpressionKeyword::Null), "null");
    assert_eq!(get_type_keyword_text(TypeKeyword::Undefined), "undefined");
    assert_eq!(get_type_operator_text(TypeOperatorKind::Unique), "unique");
    assert_eq!(get_modifier_text(ModifierKind::Protected), "protected");
}

#[test]
fn source_positions_and_lines() {
    let file = SourceFile::new("/a.ts", chars("a\nbc\r\nd"));
    assert_eq!(file.file_name(), "/a.ts");
    assert_eq!(file.ecma_line_map(), &vec![0usize, 2, 6]);
    assert_eq!(compute_line_of_position(file.ecma_line_map(), 0), 0);
    assert_eq!(compute_line_of_position(file.ecma_line_map(), 3), 1);
    assert_eq!(compute_line_of_position(file.ecma_line_map(), 7), 2);
    assert_eq!(get_lines_between_positions(&file, 0, 6), 2);
    assert_eq!(get_lines_between_positions(&file, 6, 0), -2);
    assert!(positions_are_on_same_line(2, 3, &file));
    assert!(!positions_are_on_same_line(1, 2, &file));
    assert!(range_is_on_single_line(TextRange::new(2, 4), &file));
    assert!(!range_is_on_single_line(TextRange::new(0, 3), &file));
}

#[test]
fn skip_trivia_passes_space_and_comments() {
    let text = chars("  // note\n /* more */ x");
    assert_eq!(skip_trivia(&text, 0, false, false), 22);
    assert_eq!(skip_trivia(&text, 0, false, true), 2);
    assert_eq!(skip_trivia(&text, 0, true, false), 10);
    let file = SourceFile::new("/b.ts", text);
    assert_eq!(get_start_position_of_range(TextRange::new(0, 23), &file, false), 22);
    assert_eq!(get_start_position_of_range(TextRange::new(-1, -1), &file, false), -1);
    assert_eq!(greatest_end(3, &vec![TextRange::new(0, 5), TextRange::new(1, 2)]), 5);
    assert_eq!(greatest_end(9, &vec![]), 9);
}

#[test]
fn printer_uses_the_line_ending_of_its_options() {
    let options = PrinterOptions {
        remove_comments: false,
        new_line: NewLineKind::CarriageReturnLineFeed,
        preserve_source_newlines: false,
        numeric_separators: false,
    };
    let mut printer = new_printer(options);
    let file = source_file(vec![statement(ident("a")), statement(ident("b"))]);
    assert_eq!(printer.emit_source_file(&file), "a;\r\nb;\r\n");
    assert_eq!(NewLineKind::LineFeed.get_new_line_character(), "\n");
    assert_eq!(NewLineKind::Unspecified.get_new_line_character(), "\n");
}

#[test]
fn printer_emit_outside_a_source_file() {
    let mut printer = new_printer(PrinterOptions::default());
    let object = Node::ObjectLiteralExpression {
        properties: vec![Node::ShorthandPropertyAssignment("a".to_string())],
        multi_line: true,
        has_trailing_comma: false,
    };
    assert_eq!(printer.emit(&object, None), "{\n    a\n}");
    let array = Node::ArrayLiteralExpression {
        elements: vec![ident("a"), Node::OmittedExpression],
        multi_line: false,
        has_trailing_comma: false,
    };
    assert_eq!(printer.emit(&array, None), "[a, ,]");
}

#[test]
fn write_node_clears_the_writer_and_writes_nothing_for_no_node() {
    let mut printer = new_printer(PrinterOptions::default());
    let mut writer = TextWriter::new("\n");
    writer.write_symbol("old");
    printer.write_node(None, None, &mut writer);
    assert_eq!(writer.string(), "");
    printer.write_node(Some(&ident("x")), None, &mut writer);
    assert_eq!(writer.string(), "x");
}

#[test]
fn embedded_empty_statement_is_indented_on_its_own_line() {
    let file = source_file(vec![Node::IfStatement {
        expression: boxed(ident("a")),
        then_statement: boxed(Node::EmptyStatement),
        else_statement: None,
    }]);
    let mut printer = new_printer(PrinterOptions::default());
    let mut writer = TextWriter::new("\n");
    let text_file = SourceFile::new("/file.ts", chars("if (a)\n;"));
    printer.write_node(Some(&file), Some(&text_file), &mut writer);
    assert_eq!("if (a)\n    ;\n", writer.string());
}

#[test]
fn if_else_chains_keep_else_if_on_one_line() {
    let file = source_file(vec![Node::IfStatement {
        expression: boxed(ident("a")),
        then_statement: boxed(Node::Block { statements: vec![statement(ident("b"))], multi_line: true }),
        else_statement: Some(boxed(Node::IfStatement {
            expression: boxed(ident("c")),
            then_statement: boxed(statement(ident("d"))),
            else_statement: Some(boxed(Node::Block { statements: vec![], multi_line: false })),
        })),
    }]);
    assert_eq!(
        trim_emit_final_newline(&print(file)),
        "if (a) {\n    b;\n}\nelse if (c)\n    d;\nelse { }"
    );
}

#[test]
fn whole_number_literal_gets_a_second_dot() {
    let access = |literal: &str| Node::PropertyAccessExpression {
        expression: boxed(Node::NumericLiteral(literal.to_string())),
        name: "toString".to_string(),
        question_dot: false,
        optional_chain: false,
        line_break_before_dot: false,
        line_break_after_dot: false,
    };
    assert_eq!(trim_emit_final_newline(&print(source_file(vec![statement(access("1"))]))), "1..toString;");
    assert_eq!(trim_emit_final_newline(&print(source_file(vec![statement(access("1.5"))]))), "1.5.toString;");
    assert_eq!(trim_emit_final_newline(&print(source_file(vec![statement(access("1e3"))]))), "1e3.toString;");
}

#[test]
fn immediately_invoked_function_is_parenthesized() {
    let call = Node::CallExpression {
        expression: boxed(Node::FunctionExpression {
            modifiers: vec![],
            asterisk: false,
            name: None,
            type_parameters: vec![],
            parameters: vec![],
            type_node: None,
            body: boxed(Node::Block { statements: vec![], multi_line: false }),
        }),
        type_arguments: vec![],
        arguments: vec![ident("x")],
        question_dot: false,
        optional_chain: false,
    };
    assert_eq!(
        trim_emit_final_newline(&print(source_file(vec![statement(call)]))),
        "(function () { })(x);"
    );
}

#[test]
fn declarations_with_modifiers_and_decorators() {
    let function = Node::FunctionDeclaration {
        modifiers: vec![Node::Modifier(ModifierKind::Export), Node::Modifier(ModifierKind::Async)],
        asterisk: false,
        name: Some("f".to_string()),
        type_parameters: vec![],
        type_node: None,
        parameters: vec![
            Node::Parameter {
                modifiers: vec![],
                dot_dot_dot: false,
                name: Box::new(Node::Identifier("a".to_string())),
                question: true,
                type_node: Some(boxed(Node::KeywordType(TypeKeyword::Number))),
                initializer: None,
            },
            Node::Parameter {
                modifiers: vec![],
                dot_dot_dot: true,
                name: Box::new(Node::Identifier("rest".to_string())),
                question: false,
                type_node: None,
                initializer: None,
            },
        ],
        body: Some(boxed(Node::Block {
            statements: vec![Node::ReturnStatement(Some(boxed(ident("a"))))],
            multi_line: false,
        })),
    };
    let variables = Node::VariableStatement {
        modifiers: vec![],
        kind: VariableKind::Const,
        declarations: vec![
            Node::VariableDeclaration {
                name: Box::new(Node::Identifier("x".to_string())),
                type_node: None,
                initializer: Some(boxed(Node::NumericLiteral("1".to_string()))),
            },
            Node::VariableDeclaration { name: Box::new(Node::Identifier("y".to_string())), type_node: None, initializer: None },
        ],
    };
    let class = Node::ClassDeclaration {
        type_parameters: vec![],
        heritage_clauses: vec![],
        modifiers: vec![
            Node::Decorator(boxed(ident("d"))),
            Node::Modifier(ModifierKind::Export),
        ],
        name: Some("C".to_string()),
        members: vec![Node::PropertyDeclaration {
            modifiers: vec![Node::Modifier(ModifierKind::Static)],
            name: boxed(ident("p")),
            question: false,
            type_node: Some(boxed(Node::KeywordType(TypeKeyword::String))),
            initializer: None,
            exclamation: false,
        }],
    };
    assert_eq!(
        trim_emit_final_newline(&print(source_file(vec![function, variables, class]))),
        "export async function f(a?: number, ...rest) { return a; }\nconst x = 1, y;\n@d\nexport class C {\n    static p: string;\n}"
    );
}

#[test]
fn get_text_of_node_and_literals() {
    let printer = new_printer(PrinterOptions::default());
    assert_eq!(printer.get_text_of_node(&ident("name"), false), "name");
    assert_eq!(printer.get_text_of_node(&Node::NumericLiteral("0x1F".to_string()), false), "0x1F");
    assert_eq!(
        printer.get_literal_text_of_node(&Node::NoSubstitutionTemplateLiteral("a b".to_string()), None),
        "`a b`"
    );
}

#[test]
fn trim_emit_final_newline_removes_one_line_feed() {
    assert_eq!(trim_emit_final_newline("a;\n"), "a;");
    assert_eq!(trim_emit_final_newline("a;\n\n"), "a;\n");
    assert_eq!(trim_emit_final_newline("a;"), "a;");
    assert_eq!(trim_emit_final_newline(""), "");
}

#[test]
fn printing_keeps_indentation_balanced() {
    let mut writer = TextWriter::new("\n");
    let mut printer = new_printer(PrinterOptions::default());
    let body = Node::Block {
        statements: vec![statement(ident("a")), statement(ident("b"))],
        multi_line: true,
    };
    let function = Node::FunctionDeclaration {
        modifiers: vec![],
        asterisk: false,
        name: Some("f".to_string()),
        type_parameters: vec![],
        parameters: vec![],
        type_node: None,
        body: Some(boxed(body)),
    };
    printer.write_node(Some(&source_file(vec![function])), None, &mut writer);
    assert_eq!(writer.get_indent(), 0);
    assert_eq!(writer.string(), "function f() {\n    a;\n    b;\n}\n");
    assert!(writer.is_at_start_of_line());
}

#[test]
fn expression_statement_precedence_examples() {
    let assignment = Node::BinaryExpression {
        left: boxed(ident("a")),
        operator: BinaryOperator::Equals,
        right: boxed(Node::BinaryExpression {
            left: boxed(ident("b")),
            operator: BinaryOperator::Equals,
            right: boxed(ident("c")),
            line_break_before_operator: false,
            line_break_after_operator: false,
        }),
        line_break_before_operator: false,
        line_break_after_operator: false,
    };
    let exponent = Node::BinaryExpression {
        left: boxed(ident("a")),
        operator: BinaryOperator::AsteriskAsterisk,
        right: boxed(Node::BinaryExpression {
            left: boxed(ident("b")),
            operator: BinaryOperator::AsteriskAsterisk,
            right: boxed(ident("c")),
            line_break_before_operator: false,
            line_break_after_operator: false,
        }),
        line_break_before_operator: false,
        line_break_after_operator: false,
    };
    let minus = Node::BinaryExpression {
        left: boxed(ident("a")),
        operator: BinaryOperator::Minus,
        right: boxed(Node::BinaryExpression {
            left: boxed(ident("b")),
            operator: BinaryOperator::Minus,
            right: boxed(ident("c")),
            line_break_before_operator: false,
            line_break_after_operator: false,
        }),
        line_break_before_operator: false,
        line_break_after_operator: false,
    };
    let negate = Node::PrefixUnaryExpression {
        operator: PrefixOperator::Minus,
        operand: boxed(Node::PrefixUnaryExpression {
            operator: PrefixOperator::MinusMinus,
            operand: boxed(ident("x")),
        }),
    };
    let text = print(source_file(vec![
        statement(assignment),
        statement(exponent),
        statement(minus),
        statement(negate),
    ]));
    assert_eq!(trim_emit_final_newline(&text), "a = b = c;\na ** b ** c;\na - (b - c);\n- --x;");
}

#[test]
fn emit_cases_table() {
    let cases = ts_printer::emit_cases::emit_cases_from_go_source();
    assert_eq!(cases.len(), ts_printer::emit_cases::EMIT_CASE_COUNT);
    assert_eq!(cases.len(), 554);
    assert_eq!(cases[0].title, "StringLiteral#1");
    assert_eq!(cases[2].input, "0");
    assert_eq!(cases[2].output, "0;");
    assert!(!cases[2].jsx);
}
