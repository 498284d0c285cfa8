use ts_printer::ast::Node;
use ts_printer::printer::{new_printer, trim_emit_final_newline, PrinterOptions};

fn ident(name: &str) -> Node {
    Node::Identifier(name.to_string())
}

fn boxed(n: Node) -> Box<Node> {
    Box::new(n)
}

fn print(statements: Vec<Node>) -> String {
    let mut printer = new_printer(PrinterOptions::default());
    let text = printer.emit_source_file(&Node::SourceFile { statements });
    trim_emit_final_newline(&text).to_string()
}

fn print_expression(expression: Node) -> String {
    print(vec![Node::ExpressionStatement(boxed(expression))])
}

fn attributes(properties: Vec<Node>) -> Node {
    Node::JsxAttributes { properties }
}

fn element(tag: &str, properties: Vec<Node>, children: Vec<Node>) -> Node {
    Node::JsxElement {
        opening: boxed(Node::JsxOpeningElement {
            tag_name: boxed(ident(tag)),
            type_arguments: vec![],
            attributes: boxed(attributes(properties)),
        }),
        children,
        closing: boxed(Node::JsxClosingElement { tag_name: boxed(ident(tag)) }),
    }
}

#[test]
fn jsx_element_with_attributes_text_and_expression() {
    let node = element(
        "div",
        vec![
            Node::JsxAttribute {
                name: boxed(ident("a")),
                initializer: Some(boxed(Node::StringLiteral { text: "x".to_string(), single_quote: false })),
            },
            Node::JsxSpreadAttribute { expression: boxed(ident("p")) },
        ],
        vec![
            Node::JsxText("text".to_string()),
            Node::JsxExpression { dot_dot_dot: false, expression: Some(boxed(ident("y"))) },
        ],
    );
    assert_eq!(print_expression(node), "<div a=\"x\" {...p}>text{y}</div>;");
}

#[test]
fn jsx_opening_element_without_attributes_has_no_space() {
    let node = element("span", vec![], vec![]);
    assert_eq!(print_expression(node), "<span></span>;");
}

#[test]
fn jsx_self_closing_element_keeps_the_space() {
    let node = Node::JsxSelfClosingElement {
        tag_name: boxed(ident("br")),
        type_arguments: vec![],
        attributes: boxed(attributes(vec![])),
    };
    assert_eq!(print_expression(node), "<br />;");
}

#[test]
fn jsx_fragment_and_nested_children() {
    let node = Node::JsxFragment {
        children: vec![
            element("b", vec![], vec![Node::JsxText("bold".to_string())]),
            Node::JsxExpression { dot_dot_dot: true, expression: Some(boxed(ident("rest"))) },
        ],
    };
    assert_eq!(print_expression(node), "<><b>bold</b>{...rest}</>;");
}

#[test]
fn jsx_namespaced_names_and_valueless_attribute() {
    let node = Node::JsxSelfClosingElement {
        tag_name: boxed(Node::JsxNamespacedName { namespace: "svg".to_string(), name: "rect".to_string() }),
        type_arguments: vec![],
        attributes: boxed(attributes(vec![
            Node::JsxAttribute {
                name: boxed(Node::JsxNamespacedName { namespace: "xml".to_string(), name: "lang".to_string() }),
                initializer: Some(boxed(Node::JsxExpression {
                    dot_dot_dot: false,
                    expression: Some(boxed(ident("lang"))),
                })),
            },
            Node::JsxAttribute { name: boxed(ident("hidden")), initializer: None },
        ])),
    };
    assert_eq!(print_expression(node), "<svg:rect xml:lang={lang} hidden/>;");
}

#[test]
fn jsx_empty_expression_writes_nothing() {
    let node = element(
        "p",
        vec![],
        vec![Node::JsxExpression { dot_dot_dot: false, expression: None }],
    );
    assert_eq!(print_expression(node), "<p></p>;");
}

#[test]
fn jsx_expression_child_keeps_comma_parenthesized() {
    let comma = Node::BinaryExpression {
        left: boxed(ident("a")),
        operator: ts_printer::ast::BinaryOperator::Comma,
        right: boxed(ident("b")),
        line_break_before_operator: false,
        line_break_after_operator: false,
    };
    let node = element(
        "i",
        vec![],
        vec![Node::JsxExpression { dot_dot_dot: false, expression: Some(boxed(comma)) }],
    );
    assert_eq!(print_expression(node), "<i>{(a, b)}</i>;");
}

#[test]
fn jsx_namespaced_name_text_joins_with_a_colon() {
    let printer = new_printer(PrinterOptions::default());
    let name = Node::JsxNamespacedName { namespace: "xlink".to_string(), name: "href".to_string() };
    assert_eq!(printer.get_text_of_node(&name, false), "xlink:href");
}
