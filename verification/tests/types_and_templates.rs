use ts_printer::ast::{MetaPropertyKeyword, ModifierKind, Node, TypeKeyword};
use ts_printer::printer::{new_printer, trim_emit_final_newline, PrinterOptions};

fn ident(name: &str) -> Node {
    Node::Identifier(name.to_string())
}

fn boxed(n: Node) -> Box<Node> {
    Box::new(n)
}

fn statement(expression: Node) -> Node {
    Node::ExpressionStatement(boxed(expression))
}

fn type_reference(name: &str) -> Node {
    Node::TypeReference { name: name.to_string(), type_arguments: vec![] }
}

fn parameter(name: &str, type_node: Option<Node>) -> Node {
    Node::Parameter {
        modifiers: vec![],
        dot_dot_dot: false,
        name: Box::new(Node::Identifier(name.to_string())),
        question: false,
        type_node: type_node.map(boxed),
        initializer: None,
    }
}

fn type_parameter(name: &str) -> Node {
    Node::TypeParameter { modifiers: vec![], name: name.to_string(), constraint: None, default_type: None }
}

fn type_alias(name: &str, type_node: Node) -> Node {
    Node::TypeAliasDeclaration {
        modifiers: vec![],
        name: name.to_string(),
        type_parameters: vec![],
        type_node: boxed(type_node),
    }
}

fn print(statements: Vec<Node>) -> String {
    let mut printer = new_printer(PrinterOptions::default());
    let text = printer.emit_source_file(&Node::SourceFile { statements });
    trim_emit_final_newline(&text).to_string()
}

#[test]
fn literal_leaves_and_meta_properties() {
    let statements = vec![
        statement(Node::BigIntLiteral("123n".to_string())),
        statement(Node::RegularExpressionLiteral("/ab+c/gi".to_string())),
        statement(Node::PropertyAccessExpression {
            expression: boxed(Node::KeywordExpression(ts_printer::ast::ExpressionKeyword::This)),
            name: "#x".to_string(),
            question_dot: false,
            optional_chain: false,
            line_break_before_dot: false,
            line_break_after_dot: false,
        }),
        statement(Node::MetaProperty { keyword: MetaPropertyKeyword::New, name: "target".to_string() }),
        statement(Node::MetaProperty { keyword: MetaPropertyKeyword::Import, name: "meta".to_string() }),
    ];
    assert_eq!(print(statements), "123n;\n/ab+c/gi;\nthis.#x;\nnew.target;\nimport.meta;");
    let printer = new_printer(PrinterOptions::default());
    assert_eq!(printer.get_text_of_node(&Node::PrivateIdentifier("#p".to_string()), false), "#p");
    assert_eq!(printer.get_literal_text_of_node(&Node::BigIntLiteral("1n".to_string()), None), "1n");
}

#[test]
fn literal_types_predicates_and_constructor_types() {
    let literal = type_alias("A", Node::LiteralType(boxed(Node::StringLiteral { text: "x".to_string(), single_quote: false })));
    let asserts = Node::FunctionDeclaration {
        modifiers: vec![Node::Modifier(ModifierKind::Declare)],
        asterisk: false,
        name: Some("f".to_string()),
        type_parameters: vec![],
        parameters: vec![parameter("x", None)],
        type_node: Some(boxed(Node::TypePredicate {
            asserts: true,
            parameter_name: boxed(ident("x")),
            type_node: Some(boxed(Node::KeywordType(TypeKeyword::String))),
        })),
        body: None,
    };
    let constructor = type_alias(
        "C",
        Node::ConstructorType {
            modifiers: vec![],
            type_parameters: vec![type_parameter("T")],
            parameters: vec![parameter("a", None)],
            return_type: boxed(type_reference("T")),
        },
    );
    let abstract_constructor = type_alias(
        "D",
        Node::ConstructorType {
            modifiers: vec![Node::Modifier(ModifierKind::Abstract)],
            type_parameters: vec![],
            parameters: vec![],
            return_type: boxed(Node::KeywordType(TypeKeyword::Void)),
        },
    );
    assert_eq!(
        print(vec![literal, asserts, constructor, abstract_constructor]),
        "type A = \"x\";\ndeclare function f(x): asserts x is string;\ntype C = new <T>(a) => T;\ntype D = abstract new () => void;"
    );
}

#[test]
fn index_call_and_construct_signatures() {
    let interface = Node::InterfaceDeclaration {
        modifiers: vec![],
        name: "I".to_string(),
        type_parameters: vec![],
        heritage_clauses: vec![],
        members: vec![
            Node::IndexSignature {
                modifiers: vec![],
                parameters: vec![parameter("key", Some(Node::KeywordType(TypeKeyword::String)))],
                type_node: Some(boxed(Node::KeywordType(TypeKeyword::Number))),
            },
            Node::CallSignature {
                type_parameters: vec![type_parameter("T")],
                parameters: vec![parameter("x", Some(type_reference("T")))],
                type_node: Some(boxed(type_reference("T"))),
            },
            Node::ConstructSignature {
                type_parameters: vec![],
                parameters: vec![],
                type_node: Some(boxed(type_reference("I"))),
            },
        ],
    };
    assert_eq!(
        print(vec![interface]),
        "interface I {\n    [key: string]: number;\n    <T>(x: T): T;\n    new (): I;\n}"
    );
}

#[test]
fn named_tuple_members() {
    let tuple = type_alias(
        "T",
        Node::TupleType {
            elements: vec![
                Node::NamedTupleMember {
                    dot_dot_dot: false,
                    name: "a".to_string(),
                    question: false,
                    type_node: boxed(Node::KeywordType(TypeKeyword::String)),
                },
                Node::NamedTupleMember {
                    dot_dot_dot: true,
                    name: "rest".to_string(),
                    question: true,
                    type_node: boxed(Node::ArrayType(boxed(Node::KeywordType(TypeKeyword::Number)))),
                },
            ],
            single_line: true,
        },
    );
    assert_eq!(print(vec![tuple]), "type T = [a: string, ...rest?: number[]];");
}

#[test]
fn templates_with_substitutions() {
    let expression = statement(Node::TemplateExpression {
        head: "a".to_string(),
        spans: vec![
            Node::TemplateSpan { expression: boxed(ident("x")), literal: "b".to_string(), is_tail: false },
            Node::TemplateSpan { expression: boxed(ident("y")), literal: "c".to_string(), is_tail: true },
        ],
    });
    let literal_type = type_alias(
        "U",
        Node::TemplateLiteralType {
            head: "p".to_string(),
            spans: vec![Node::TemplateLiteralTypeSpan {
                type_node: boxed(type_reference("T")),
                literal: "".to_string(),
                is_tail: true,
            }],
        },
    );
    assert_eq!(print(vec![expression, literal_type]), "`a${x}b${y}c`;\ntype U = `p${T}`;");
}

#[test]
fn class_static_blocks_and_semicolon_members() {
    let class = Node::ClassDeclaration {
        modifiers: vec![],
        name: Some("C".to_string()),
        type_parameters: vec![],
        heritage_clauses: vec![],
        members: vec![
            Node::ClassStaticBlockDeclaration {
                body: boxed(Node::Block { statements: vec![statement(ident("a"))], multi_line: true }),
            },
            Node::SemicolonClassElement,
        ],
    };
    assert_eq!(print(vec![class]), "class C {\n    static {\n        a;\n    }\n    ;\n}");
}

#[test]
fn array_element_types_are_parenthesized_below_postfix_precedence() {
    let intersection = Node::ArrayType(boxed(Node::IntersectionType(vec![type_reference("A"), type_reference("B")])));
    let function = Node::ArrayType(boxed(Node::FunctionType { type_parameters: vec![], parameters: vec![], return_type: boxed(type_reference("A")) }));
    let nested = Node::ArrayType(boxed(Node::ArrayType(boxed(type_reference("A")))));
    let this_array = Node::ArrayType(boxed(Node::ThisType));
    assert_eq!(
        print(vec![
            type_alias("I", intersection),
            type_alias("F", function),
            type_alias("N", nested),
            type_alias("T", this_array),
        ]),
        "type I = (A & B)[];\ntype F = (() => A)[];\ntype N = A[][];\ntype T = this[];"
    );
}
