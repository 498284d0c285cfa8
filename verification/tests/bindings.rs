use ts_printer::ast::{ModifierKind, Node, TypeKeyword, VariableKind};
use ts_printer::printer::{new_printer, trim_emit_final_newline, PrinterOptions};

fn ident(name: &str) -> Node {
    Node::Identifier(name.to_string())
}

fn boxed(n: Node) -> Box<Node> {
    Box::new(n)
}

fn element(dot_dot_dot: bool, property_name: Option<&str>, name: Node, initializer: Option<Node>) -> Node {
    Node::BindingElement {
        dot_dot_dot,
        property_name: property_name.map(|p| boxed(ident(p))),
        name: boxed(name),
        initializer: initializer.map(boxed),
    }
}

fn declare(kind: VariableKind, name: Node, initializer: Node) -> Node {
    Node::VariableStatement {
        modifiers: vec![],
        kind,
        declarations: vec![Node::VariableDeclaration {
            name: boxed(name),
            type_node: None,
            initializer: Some(boxed(initializer)),
        }],
    }
}

fn print(statements: Vec<Node>) -> String {
    let mut printer = new_printer(PrinterOptions::default());
    let text = printer.emit_source_file(&Node::SourceFile { statements });
    trim_emit_final_newline(&text).to_string()
}

#[test]
fn object_binding_pattern_with_renames_defaults_and_rest() {
    let pattern = Node::ObjectBindingPattern {
        elements: vec![
            element(false, None, ident("a"), None),
            element(false, Some("b"), ident("c"), Some(Node::NumericLiteral("1".to_string()))),
            element(true, None, ident("d"), None),
        ],
        has_trailing_comma: false,
    };
    assert_eq!(print(vec![declare(VariableKind::Const, pattern, ident("x"))]), "const { a, b: c = 1, ...d } = x;");
}

#[test]
fn array_binding_pattern_with_a_hole_and_nested_pattern() {
    let pattern = Node::ArrayBindingPattern {
        elements: vec![
            element(false, None, ident("e"), None),
            Node::OmittedExpression,
            element(false, None, Node::ObjectBindingPattern { elements: vec![element(false, None, ident("g"), None)], has_trailing_comma: false }, None),
            element(true, None, ident("f"), None),
        ],
        has_trailing_comma: false,
    };
    assert_eq!(print(vec![declare(VariableKind::Let, pattern, ident("y"))]), "let [e, , { g }, ...f] = y;");
}

#[test]
fn empty_binding_patterns_have_no_inner_space() {
    let object = declare(VariableKind::Const, Node::ObjectBindingPattern { elements: vec![], has_trailing_comma: false }, ident("z"));
    let array = declare(VariableKind::Const, Node::ArrayBindingPattern { elements: vec![], has_trailing_comma: false }, ident("z"));
    assert_eq!(print(vec![object, array]), "const {} = z;\nconst [] = z;");
}

#[test]
fn binding_element_default_keeps_a_comma_expression_parenthesized() {
    let comma = Node::BinaryExpression {
        left: boxed(ident("p")),
        operator: ts_printer::ast::BinaryOperator::Comma,
        right: boxed(ident("q")),
        line_break_before_operator: false,
        line_break_after_operator: false,
    };
    let pattern = Node::ArrayBindingPattern { elements: vec![element(false, None, ident("a"), Some(comma))], has_trailing_comma: false };
    assert_eq!(print(vec![declare(VariableKind::Var, pattern, ident("w"))]), "var [a = (p, q)] = w;");
}

#[test]
fn arrow_function_with_a_pattern_parameter_keeps_parentheses() {
    let arrow = Node::ArrowFunction {
        modifiers: vec![],
        type_parameters: vec![],
        parameters: vec![Node::Parameter {
            modifiers: vec![],
            dot_dot_dot: false,
            name: boxed(Node::ObjectBindingPattern { elements: vec![element(false, None, ident("a"), None)], has_trailing_comma: false }),
            question: false,
            type_node: None,
            initializer: None,
        }],
        type_node: None,
        body: boxed(ident("a")),
        parameter_in_parentheses: false,
    };
    assert_eq!(print(vec![Node::ExpressionStatement(boxed(arrow))]), "({ a }) => a;");
}

#[test]
fn constructor_parameter_properties_keep_their_modifiers() {
    let class = Node::ClassDeclaration {
        modifiers: vec![],
        name: Some("C".to_string()),
        type_parameters: vec![],
        heritage_clauses: vec![],
        members: vec![Node::Constructor {
            modifiers: vec![],
            parameters: vec![Node::Parameter {
                modifiers: vec![Node::Modifier(ModifierKind::Private), Node::Modifier(ModifierKind::Readonly)],
                dot_dot_dot: false,
                name: boxed(ident("x")),
                question: false,
                type_node: Some(boxed(Node::KeywordType(TypeKeyword::Number))),
                initializer: None,
            }],
            type_node: None,
            body: Some(boxed(Node::Block { statements: vec![], multi_line: false })),
        }],
    };
    assert_eq!(print(vec![class]), "class C {\n    constructor(private readonly x: number) { }\n}");
}
