use ts_printer::ast::{BinaryOperator, Node, PostfixOperator, VariableKind};
use ts_printer::printer::{new_printer, trim_emit_final_newline, PrinterOptions};

fn ident(name: &str) -> Node {
    Node::Identifier(name.to_string())
}

fn boxed(n: Node) -> Box<Node> {
    Box::new(n)
}

fn statement(expression: Node) -> Node {
    Node::ExpressionStatement(boxed(expression))
}

fn block(statements: Vec<Node>, multi_line: bool) -> Node {
    Node::Block { statements, multi_line }
}

fn declaration_list(kind: VariableKind, name: &str, initializer: Option<Node>) -> Node {
    Node::VariableDeclarationList {
        kind,
        declarations: vec![Node::VariableDeclaration {
            name: Box::new(Node::Identifier(name.to_string())),
            type_node: None,
            initializer: initializer.map(boxed),
        }],
    }
}

fn print(statements: Vec<Node>) -> String {
    let mut printer = new_printer(PrinterOptions::default());
    let text = printer.emit_source_file(&Node::SourceFile { statements });
    trim_emit_final_newline(&text).to_string()
}

#[test]
fn while_statement_indents_a_statement_that_is_no_block() {
    let node = Node::WhileStatement {
        expression: boxed(ident("a")),
        statement: boxed(statement(ident("b"))),
    };
    assert_eq!(print(vec![node]), "while (a)\n    b;");
}

#[test]
fn do_statement_keeps_while_after_a_block() {
    let with_block = Node::DoStatement {
        statement: boxed(block(vec![statement(ident("b"))], true)),
        expression: boxed(ident("a")),
    };
    let without_block = Node::DoStatement {
        statement: boxed(statement(ident("b"))),
        expression: boxed(ident("a")),
    };
    assert_eq!(
        print(vec![with_block, without_block]),
        "do {\n    b;\n} while (a);\ndo\n    b;\nwhile (a);"
    );
}

#[test]
fn for_statement_writes_each_part_and_its_semicolons() {
    let full = Node::ForStatement {
        initializer: Some(boxed(declaration_list(
            VariableKind::Let,
            "i",
            Some(Node::NumericLiteral("0".to_string())),
        ))),
        condition: Some(boxed(Node::BinaryExpression {
            left: boxed(ident("i")),
            operator: BinaryOperator::LessThan,
            right: boxed(ident("n")),
            line_break_before_operator: false,
            line_break_after_operator: false,
        })),
        incrementor: Some(boxed(Node::PostfixUnaryExpression {
            operand: boxed(ident("i")),
            operator: PostfixOperator::PlusPlus,
        })),
        statement: boxed(block(vec![], false)),
    };
    let empty = Node::ForStatement {
        initializer: None,
        condition: None,
        incrementor: None,
        statement: boxed(Node::EmptyStatement),
    };
    assert_eq!(
        print(vec![full, empty]),
        "for (let i = 0; i < n; i++) { }\nfor (;;)\n    ;"
    );
}

#[test]
fn for_in_and_for_await_of_statements() {
    let for_in = Node::ForInStatement {
        initializer: boxed(declaration_list(VariableKind::Const, "k", None)),
        expression: boxed(ident("o")),
        statement: boxed(block(vec![], false)),
    };
    let for_of = Node::ForOfStatement {
        is_await: true,
        initializer: boxed(declaration_list(VariableKind::Const, "x", None)),
        expression: boxed(ident("xs")),
        statement: boxed(statement(ident("x"))),
    };
    assert_eq!(
        print(vec![for_in, for_of]),
        "for (const k in o) { }\nfor await (const x of xs)\n    x;"
    );
}

#[test]
fn jump_statements_with_and_without_operands() {
    let statements = vec![
        Node::ContinueStatement(None),
        Node::BreakStatement(Some("outer".to_string())),
        Node::ThrowStatement(Some(boxed(ident("e")))),
        Node::ThrowStatement(None),
        Node::DebuggerStatement,
    ];
    assert_eq!(print(statements), "continue;\nbreak outer;\nthrow e;\nthrow;\ndebugger;");
}

#[test]
fn throw_parenthesizes_nothing_at_the_lowest_precedence() {
    let node = Node::ThrowStatement(Some(boxed(Node::BinaryExpression {
        left: boxed(ident("a")),
        operator: BinaryOperator::Comma,
        right: boxed(ident("b")),
        line_break_before_operator: false,
        line_break_after_operator: false,
    })));
    assert_eq!(print(vec![node]), "throw a, b;");
}

#[test]
fn try_catch_finally_each_start_a_line() {
    let node = Node::TryStatement {
        try_block: boxed(block(vec![statement(ident("a"))], true)),
        catch_clause: Some(boxed(Node::CatchClause {
            variable_declaration: Some(boxed(Node::VariableDeclaration {
                name: Box::new(Node::Identifier("e".to_string())),
                type_node: None,
                initializer: None,
            })),
            block: boxed(block(vec![statement(ident("b"))], true)),
        })),
        finally_block: Some(boxed(block(vec![statement(ident("c"))], true))),
    };
    assert_eq!(
        print(vec![node]),
        "try {\n    a;\n}\ncatch (e) {\n    b;\n}\nfinally {\n    c;\n}"
    );
}

#[test]
fn try_keeps_its_parts_on_one_line_where_source_lines_are_kept() {
    let node = Node::TryStatement {
        try_block: boxed(block(vec![], false)),
        catch_clause: Some(boxed(Node::CatchClause {
            variable_declaration: None,
            block: boxed(block(vec![], false)),
        })),
        finally_block: None,
    };
    let mut options = PrinterOptions::default();
    options.preserve_source_newlines = true;
    let mut printer = new_printer(options);
    let text = printer.emit_source_file(&Node::SourceFile { statements: vec![node] });
    assert_eq!(trim_emit_final_newline(&text), "try { } catch { }");
}

#[test]
fn switch_clauses_are_indented_and_a_lone_statement_follows_its_colon() {
    let node = Node::SwitchStatement {
        expression: boxed(ident("x")),
        clauses: vec![
            Node::CaseClause {
                expression: boxed(Node::NumericLiteral("1".to_string())),
                statements: vec![statement(ident("a")), statement(ident("b"))],
                statement_on_next_line: false,
            },
            Node::CaseClause {
                expression: boxed(Node::NumericLiteral("2".to_string())),
                statements: vec![statement(ident("c"))],
                statement_on_next_line: false,
            },
            Node::DefaultClause { statements: vec![], statement_on_next_line: false },
        ],
    };
    assert_eq!(
        print(vec![node]),
        "switch (x) {\n    case 1:\n        a;\n        b;\n    case 2: c;\n    default:\n}"
    );
}

#[test]
fn labeled_and_with_statements() {
    let labeled = Node::LabeledStatement {
        label: "outer".to_string(),
        statement: boxed(Node::WhileStatement {
            expression: boxed(ident("a")),
            statement: boxed(Node::BreakStatement(Some("outer".to_string()))),
        }),
    };
    let with = Node::WithStatement {
        expression: boxed(ident("o")),
        statement: boxed(block(vec![], false)),
    };
    assert_eq!(
        print(vec![labeled, with]),
        "outer: while (a)\n    break outer;\nwith (o) { }"
    );
}

#[test]
fn a_source_file_with_no_statements_prints_nothing() {
    let mut printer = new_printer(PrinterOptions::default());
    assert_eq!(printer.emit_source_file(&Node::SourceFile { statements: vec![] }), "");
}

#[test]
fn a_printed_source_file_ends_with_a_line_break() {
    let mut printer = new_printer(PrinterOptions::default());
    let text = printer.emit_source_file(&Node::SourceFile { statements: vec![statement(ident("a"))] });
    assert_eq!(text, "a;\n");
}

#[test]
fn list_items_are_printed_once_each_in_order() {
    let list = Node::ArrayLiteralExpression {
        elements: vec![ident("a"), ident("b"), ident("c")],
        multi_line: false,
        has_trailing_comma: false,
    };
    assert_eq!(print(vec![statement(list)]), "[a, b, c];");
}

#[test]
fn printing_a_nested_list_leaves_the_indentation_as_it_found_it() {
    let inner = block(vec![statement(ident("b"))], true);
    let outer = block(vec![statement(ident("a")), inner, statement(ident("c"))], true);
    assert_eq!(print(vec![outer, statement(ident("d"))]), "{\n    a;\n    {\n        b;\n    }\n    c;\n}\nd;");
}

#[test]
fn a_lone_clause_statement_the_source_put_on_the_next_line_stays_there_in_a_source_file() {
    let clause = || Node::CaseClause {
        expression: boxed(Node::NumericLiteral("1".to_string())),
        statements: vec![statement(ident("a"))],
        statement_on_next_line: true,
    };
    let node = Node::SwitchStatement { expression: boxed(ident("x")), clauses: vec![clause()] };
    assert_eq!(print(vec![node]), "switch (x) {\n    case 1:\n        a;\n}");
    let mut printer = new_printer(PrinterOptions::default());
    assert_eq!(printer.emit(&clause(), None), "case 1: a;");
}
