use ts_printer::ast::{MappedTypeModifier, ModifierKind, Node, TypeKeyword, TypeOperatorKind};
use ts_printer::printer::{new_printer, trim_emit_final_newline, PrinterOptions};

fn ident(name: &str) -> Node {
    Node::Identifier(name.to_string())
}

fn boxed(n: Node) -> Box<Node> {
    Box::new(n)
}

fn keyword_type(k: TypeKeyword) -> Node {
    Node::KeywordType(k)
}

fn type_reference(name: &str) -> Node {
    Node::TypeReference { name: name.to_string(), type_arguments: vec![] }
}

fn parameter(name: &str, type_node: Option<Node>) -> Node {
    Node::Parameter {
        modifiers: vec![],
        dot_dot_dot: false,
        name: Box::new(Node::Identifier(name.to_string())),
        question: false,
        type_node: type_node.map(boxed),
        initializer: None,
    }
}

fn type_parameter(name: &str, constraint: Option<Node>, default_type: Option<Node>) -> Node {
    Node::TypeParameter {
        modifiers: vec![],
        name: name.to_string(),
        constraint: constraint.map(boxed),
        default_type: default_type.map(boxed),
    }
}

fn type_alias(name: &str, type_node: Node) -> Node {
    Node::TypeAliasDeclaration {
        modifiers: vec![],
        name: name.to_string(),
        type_parameters: vec![],
        type_node: boxed(type_node),
    }
}

fn print(statements: Vec<Node>) -> String {
    let mut printer = new_printer(PrinterOptions::default());
    let text = printer.emit_source_file(&Node::SourceFile { statements });
    trim_emit_final_newline(&text).to_string()
}

#[test]
fn interface_with_type_parameters_heritage_and_signatures() {
    let interface = Node::InterfaceDeclaration {
        modifiers: vec![Node::Modifier(ModifierKind::Export)],
        name: "I".to_string(),
        type_parameters: vec![type_parameter(
            "T",
            Some(keyword_type(TypeKeyword::Object)),
            Some(Node::TypeLiteral { members: vec![], single_line: false }),
        )],
        heritage_clauses: vec![Node::HeritageClause {
            is_implements: false,
            types: vec![
                Node::ExpressionWithTypeArguments { expression: boxed(ident("A")), type_arguments: vec![] },
                Node::ExpressionWithTypeArguments { expression: boxed(ident("B")), type_arguments: vec![] },
            ],
        }],
        members: vec![
            Node::PropertySignature {
                modifiers: vec![Node::Modifier(ModifierKind::Readonly)],
                name: boxed(ident("p")),
                question: true,
                type_node: Some(boxed(keyword_type(TypeKeyword::Number))),
            },
            Node::MethodSignature {
                modifiers: vec![],
                name: boxed(ident("m")),
                question: false,
                type_parameters: vec![type_parameter("U", None, None)],
                parameters: vec![parameter("x", Some(type_reference("U")))],
                type_node: Some(boxed(type_reference("T"))),
            },
        ],
    };
    assert_eq!(
        print(vec![interface]),
        "export interface I<T extends object = {}> extends A, B {\n    readonly p?: number;\n    m<U>(x: U): T;\n}"
    );
}

#[test]
fn empty_interface_closes_on_the_next_line() {
    let interface = Node::InterfaceDeclaration {
        modifiers: vec![],
        name: "E".to_string(),
        type_parameters: vec![],
        heritage_clauses: vec![],
        members: vec![],
    };
    assert_eq!(print(vec![interface]), "interface E {\n}");
}

#[test]
fn type_literals_on_several_lines_or_one() {
    let member = || Node::PropertySignature {
        modifiers: vec![],
        name: boxed(ident("a")),
        question: false,
        type_node: Some(boxed(keyword_type(TypeKeyword::String))),
    };
    let multi = type_alias("P", Node::TypeLiteral { members: vec![member()], single_line: false });
    let single = type_alias("Q", Node::TypeLiteral { members: vec![member()], single_line: true });
    let empty = type_alias("R", Node::TypeLiteral { members: vec![], single_line: true });
    assert_eq!(
        print(vec![multi, single, empty]),
        "type P = {\n    a: string;\n};\ntype Q = { a: string; };\ntype R = {};"
    );
}

#[test]
fn mapped_types_with_modifier_tokens() {
    let keyof_t = || Node::TypeOperator {
        operator: TypeOperatorKind::KeyOf,
        type_node: boxed(type_reference("T")),
    };
    let t_of_k = || Node::IndexedAccessType {
        object_type: boxed(type_reference("T")),
        index_type: boxed(type_reference("K")),
    };
    let multi = type_alias(
        "M",
        Node::MappedType {
            single_line: false,
            readonly_token: Some(MappedTypeModifier::Bare),
            parameter_name: "K".to_string(),
            constraint: Some(boxed(keyof_t())),
            name_type: None,
            question_token: Some(MappedTypeModifier::Minus),
            type_node: Some(boxed(t_of_k())),
            members: vec![],
        },
    );
    let single = type_alias(
        "N",
        Node::MappedType {
            single_line: true,
            readonly_token: Some(MappedTypeModifier::Plus),
            parameter_name: "K".to_string(),
            constraint: Some(boxed(keyof_t())),
            name_type: Some(boxed(type_reference("X"))),
            question_token: Some(MappedTypeModifier::Plus),
            type_node: Some(boxed(t_of_k())),
            members: vec![],
        },
    );
    let bare = type_alias(
        "O",
        Node::MappedType {
            single_line: true,
            readonly_token: Some(MappedTypeModifier::Minus),
            parameter_name: "K".to_string(),
            constraint: Some(boxed(type_reference("U"))),
            name_type: None,
            question_token: Some(MappedTypeModifier::Bare),
            type_node: None,
            members: vec![],
        },
    );
    assert_eq!(
        print(vec![multi, single, bare]),
        "type M = {\n    readonly [K in keyof T]-?: T[K];\n};\ntype N = { +readonly [K in keyof T as X]+?: T[K]; };\ntype O = { -readonly [K in U]?: ; };"
    );
}

#[test]
fn enum_members_are_separated_by_commas_on_lines_of_their_own() {
    let declaration = Node::EnumDeclaration {
        modifiers: vec![Node::Modifier(ModifierKind::Const)],
        name: "Color".to_string(),
        members: vec![
            Node::EnumMember {
                name: boxed(ident("Red")),
                initializer: Some(boxed(Node::NumericLiteral("1".to_string()))),
            },
            Node::EnumMember { name: boxed(ident("Green")), initializer: None },
        ],
    };
    assert_eq!(print(vec![declaration]), "const enum Color {\n    Red = 1,\n    Green\n}");
}

#[test]
fn class_methods_constructors_and_accessors() {
    let class = Node::ClassDeclaration {
        modifiers: vec![],
        name: Some("C".to_string()),
        type_parameters: vec![],
        heritage_clauses: vec![],
        members: vec![
            Node::Constructor {
                modifiers: vec![],
                parameters: vec![parameter("x", None)],
                type_node: None,
                body: Some(boxed(Node::Block { statements: vec![], multi_line: false })),
            },
            Node::MethodDeclaration {
                modifiers: vec![Node::Modifier(ModifierKind::Static), Node::Modifier(ModifierKind::Async)],
                asterisk: true,
                name: boxed(ident("m")),
                question: false,
                type_parameters: vec![type_parameter("T", None, None)],
                parameters: vec![],
                type_node: Some(boxed(keyword_type(TypeKeyword::Void))),
                body: Some(boxed(Node::Block {
                    statements: vec![Node::ReturnStatement(None)],
                    multi_line: true,
                })),
            },
            Node::MethodDeclaration {
                modifiers: vec![],
                asterisk: false,
                name: boxed(ident("n")),
                question: true,
                type_parameters: vec![],
                parameters: vec![],
                type_node: None,
                body: None,
            },
            Node::GetAccessor {
                modifiers: vec![],
                name: boxed(ident("v")),
                parameters: vec![],
                type_node: Some(boxed(keyword_type(TypeKeyword::Number))),
                body: Some(boxed(Node::Block {
                    statements: vec![Node::ReturnStatement(Some(boxed(Node::NumericLiteral("1".to_string()))))],
                    multi_line: false,
                })),
            },
            Node::SetAccessor {
                modifiers: vec![],
                name: boxed(ident("v")),
                parameters: vec![parameter("value", None)],
                type_node: None,
                body: None,
            },
        ],
    };
    assert_eq!(
        print(vec![class]),
        "class C {\n    constructor(x) { }\n    static async *m<T>(): void {\n        return;\n    }\n    n?();\n    get v(): number { return 1; }\n    set v(value);\n}"
    );
}

#[test]
fn generic_functions_with_return_types_and_generators() {
    let function = Node::FunctionDeclaration {
        modifiers: vec![],
        asterisk: true,
        name: Some("g".to_string()),
        type_parameters: vec![type_parameter("T", None, None)],
        parameters: vec![parameter("x", Some(type_reference("T")))],
        type_node: Some(boxed(type_reference("Iterable"))),
        body: None,
    };
    let expression = Node::ExpressionStatement(boxed(Node::FunctionExpression {
        modifiers: vec![Node::Modifier(ModifierKind::Async)],
        asterisk: true,
        name: None,
        type_parameters: vec![],
        parameters: vec![],
        type_node: None,
        body: boxed(Node::Block { statements: vec![], multi_line: false }),
    }));
    assert_eq!(
        print(vec![function, expression]),
        "function* g<T>(x: T): Iterable;\n(async function* () { });"
    );
}

#[test]
fn arrow_function_heads_with_and_without_parentheses() {
    let arrow = |type_parameters: Vec<Node>, type_node: Option<Node>, modifiers: Vec<Node>| {
        Node::ExpressionStatement(boxed(Node::BinaryExpression {
            left: boxed(ident("f")),
            operator: ts_printer::ast::BinaryOperator::Equals,
            right: boxed(Node::ArrowFunction {
                modifiers,
                type_parameters,
                parameters: vec![parameter("x", None)],
                type_node: type_node.map(boxed),
                body: boxed(ident("x")),
                parameter_in_parentheses: false,
            }),
            line_break_before_operator: false,
            line_break_after_operator: false,
        }))
    };
    assert_eq!(
        print(vec![
            arrow(vec![], None, vec![]),
            arrow(vec![type_parameter("T", None, None)], None, vec![]),
            arrow(vec![], Some(keyword_type(TypeKeyword::Number)), vec![]),
            arrow(vec![], None, vec![Node::Modifier(ModifierKind::Async)]),
        ]),
        "f = x => x;\nf = <T>(x) => x;\nf = (x): number => x;\nf = async (x) => x;"
    );
}

#[test]
fn classes_with_type_parameters_and_heritage_clauses() {
    let heritage = |is_implements: bool, name: &str| Node::HeritageClause {
        is_implements,
        types: vec![Node::ExpressionWithTypeArguments {
            expression: boxed(ident(name)),
            type_arguments: vec![],
        }],
    };
    let class = Node::ClassDeclaration {
        modifiers: vec![],
        name: Some("C".to_string()),
        type_parameters: vec![type_parameter("T", Some(type_reference("U")), None)],
        heritage_clauses: vec![heritage(false, "B"), heritage(true, "I")],
        members: vec![],
    };
    let alias = Node::TypeAliasDeclaration {
        modifiers: vec![],
        name: "Box".to_string(),
        type_parameters: vec![type_parameter("T", None, Some(keyword_type(TypeKeyword::Unknown)))],
        type_node: boxed(type_reference("T")),
    };
    assert_eq!(
        print(vec![class, alias]),
        "class C<T extends U> extends B implements I {\n}\ntype Box<T = unknown> = T;"
    );
}

#[test]
fn test_emit_mapped_type_keyof_constraint() {
    // type T<U> = { -readonly [P in keyof U]: U[P]; };
    let mapped = Node::MappedType {
        single_line: false,
        readonly_token: Some(MappedTypeModifier::Minus),
        parameter_name: "P".to_string(),
        constraint: Some(boxed(Node::TypeOperator {
            operator: TypeOperatorKind::KeyOf,
            type_node: boxed(type_reference("U")),
        })),
        name_type: None,
        question_token: None,
        type_node: Some(boxed(Node::IndexedAccessType {
            object_type: boxed(type_reference("U")),
            index_type: boxed(type_reference("P")),
        })),
        members: vec![],
    };
    let alias = Node::TypeAliasDeclaration {
        modifiers: vec![],
        name: "T".to_string(),
        type_parameters: vec![type_parameter("U", None, None)],
        type_node: boxed(mapped),
    };
    assert_eq!(print(vec![alias]), "type T<U> = {\n    -readonly [P in keyof U]: U[P];\n};");
}
