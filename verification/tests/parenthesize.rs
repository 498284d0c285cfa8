use ts_printer::ast::{BinaryOperator, Node, TypeOperatorKind};
use ts_printer::printer::{new_printer, trim_emit_final_newline, PrinterOptions};

fn ident(name: &str) -> Node {
    Node::Identifier(name.to_string())
}

fn boxed(n: Node) -> Box<Node> {
    Box::new(n)
}

fn binary(left: &str, operator: BinaryOperator, right: &str) -> Node {
    Node::BinaryExpression { left: boxed(ident(left)), operator, right: boxed(ident(right)), line_break_before_operator: false, line_break_after_operator: false }
}

fn binary_nodes(left: Node, operator: BinaryOperator, right: Node) -> Node {
    Node::BinaryExpression { left: boxed(left), operator, right: boxed(right), line_break_before_operator: false, line_break_after_operator: false }
}

fn property_access(expression: Node, name: &str) -> Node {
    Node::PropertyAccessExpression {
        expression: boxed(expression),
        name: name.to_string(),
        question_dot: false,
        optional_chain: false,
        line_break_before_dot: false,
        line_break_after_dot: false,
    }
}

fn optional_property_access(expression: Node, name: &str) -> Node {
    Node::PropertyAccessExpression {
        expression: boxed(expression),
        name: name.to_string(),
        question_dot: true,
        optional_chain: true,
        line_break_before_dot: false,
        line_break_after_dot: false,
    }
}

fn element_access(expression: Node, argument: Node) -> Node {
    Node::ElementAccessExpression {
        expression: boxed(expression),
        argument: boxed(argument),
        question_dot: false,
        optional_chain: false,
    }
}

fn call(expression: Node, arguments: Vec<Node>) -> Node {
    Node::CallExpression {
        expression: boxed(expression),
        type_arguments: vec![],
        arguments,
        question_dot: false,
        optional_chain: false,
    }
}

fn new_expression(expression: Node, arguments: Option<Vec<Node>>) -> Node {
    Node::NewExpression { expression: boxed(expression), type_arguments: vec![], arguments }
}

fn empty_template() -> Node {
    Node::NoSubstitutionTemplateLiteral(String::new())
}

fn tagged_template(tag: Node) -> Node {
    Node::TaggedTemplateExpression {
        tag: boxed(tag),
        type_arguments: vec![],
        template: boxed(empty_template()),
    }
}

fn type_ref(name: &str) -> Node {
    Node::TypeReference { name: name.to_string(), type_arguments: vec![] }
}

fn empty_block() -> Node {
    Node::Block { statements: vec![], multi_line: false }
}

fn empty_arrow_function() -> Node {
    Node::ArrowFunction {
        modifiers: vec![],
        type_parameters: vec![],
        parameters: vec![],
        type_node: None,
        body: boxed(empty_block()),
        parameter_in_parentheses: false,
    }
}

fn empty_function_expression() -> Node {
    Node::FunctionExpression {
        modifiers: vec![],
        asterisk: false,
        name: None,
        type_parameters: vec![],
        parameters: vec![],
        type_node: None,
        body: boxed(empty_block()),
    }
}

fn empty_class_expression() -> Node {
    Node::ClassExpression {
        modifiers: vec![],
        name: None,
        type_parameters: vec![],
        heritage_clauses: vec![],
        members: vec![],
    }
}

fn empty_object_literal() -> Node {
    Node::ObjectLiteralExpression { properties: vec![], multi_line: false, has_trailing_comma: false }
}

fn source_file_from_statements(statements: Vec<Node>) -> Node {
    Node::SourceFile { statements }
}

fn source_file_from_expression(expression: Node) -> Node {
    source_file_from_statements(vec![Node::ExpressionStatement(boxed(expression))])
}

fn type_alias_file(type_node: Node) -> Node {
    source_file_from_statements(vec![Node::TypeAliasDeclaration {
        modifiers: vec![],
        name: "_".to_string(),
        type_parameters: vec![],
        type_node: boxed(type_node),
    }])
}

fn named_union_type(names: &[&str]) -> Node {
    Node::UnionType(names.iter().map(|name| type_ref(name)).collect())
}

fn function_type(return_type: Node) -> Node {
    Node::FunctionType { type_parameters: vec![], parameters: vec![], return_type: boxed(return_type) }
}

fn constrained_infer_type(name: &str, constraint: &str) -> Node {
    Node::InferType { name: name.to_string(), constraint: Some(boxed(type_ref(constraint))) }
}

fn conditional_type(check: Node, extends: Node, when_true: Node, when_false: Node) -> Node {
    Node::ConditionalType {
        check_type: boxed(check),
        extends_type: boxed(extends),
        true_type: boxed(when_true),
        false_type: boxed(when_false),
    }
}

fn check_emit(file: Node, expected: &str) {
    let mut printer = new_printer(PrinterOptions::default());
    let actual = printer.emit_source_file(&file);
    assert_eq!(expected, trim_emit_final_newline(&actual));
}

#[test]
fn test_parenthesize_decorator() {
    let expression = binary("a", BinaryOperator::Plus, "b");
    let decorator = Node::Decorator(boxed(expression));
    let class = Node::ClassDeclaration {
        modifiers: vec![decorator],
        name: Some("C".to_string()),
        type_parameters: vec![],
        heritage_clauses: vec![],
        members: vec![],
    };
    let file = source_file_from_statements(vec![class]);

    check_emit(file, "@(a + b)\nclass C {\n}");
}

#[test]
fn test_parenthesize_computed_property_name() {
    let comma = binary("a", BinaryOperator::Comma, "b");
    let name = Node::ComputedPropertyName(boxed(comma));
    let property = Node::PropertyDeclaration {
        modifiers: vec![],
        name: boxed(name),
        question: false,
        type_node: None,
        initializer: None,
        exclamation: false,
    };
    let class = Node::ClassDeclaration {
        modifiers: vec![],
        name: Some("C".to_string()),
        type_parameters: vec![],
        heritage_clauses: vec![],
        members: vec![property],
    };
    let file = source_file_from_statements(vec![class]);

    check_emit(file, "class C {\n    [(a, b)];\n}");
}

#[test]
fn test_parenthesize_array_literal() {
    let comma = binary("a", BinaryOperator::Comma, "b");
    let array = Node::ArrayLiteralExpression { elements: vec![comma], multi_line: false, has_trailing_comma: false };
    let file = source_file_from_expression(array);

    check_emit(file, "[(a, b)];");
}

#[test]
fn test_parenthesize_property_access() {
    let cases: [(&str, fn() -> Node); 3] = [
        ("(a, b).c;", || property_access(binary("a", BinaryOperator::Comma, "b"), "c")),
        ("(a?.b).c;", || property_access(optional_property_access(ident("a"), "b"), "c")),
        ("(new a).b;", || property_access(new_expression(ident("a"), None), "b")),
    ];

    for (expected, build) in cases {
        check_emit(source_file_from_expression(build()), expected);
    }
}

#[test]
fn test_parenthesize_element_access() {
    let cases: [(&str, fn() -> Node); 3] = [
        ("(a, b)[c];", || element_access(binary("a", BinaryOperator::Comma, "b"), ident("c"))),
        ("(a?.b)[c];", || element_access(optional_property_access(ident("a"), "b"), ident("c"))),
        ("(new a)[b];", || element_access(new_expression(ident("a"), None), ident("b"))),
    ];

    for (expected, build) in cases {
        check_emit(source_file_from_expression(build()), expected);
    }
}

#[test]
fn test_parenthesize_call_expression() {
    let cases: [(&str, fn() -> Node); 4] = [
        ("(a, b)();", || call(binary("a", BinaryOperator::Comma, "b"), vec![])),
        ("(a?.b)();", || call(optional_property_access(ident("a"), "b"), vec![])),
        ("(new C)();", || call(new_expression(ident("C"), None), vec![])),
        ("a((b, c));", || call(ident("a"), vec![binary("b", BinaryOperator::Comma, "c")])),
    ];

    for (expected, build) in cases {
        check_emit(source_file_from_expression(build()), expected);
    }
}

#[test]
fn test_parenthesize_new_expression() {
    let cases: [(&str, fn() -> Node); 3] = [
        ("new (a, b)();", || new_expression(binary("a", BinaryOperator::Comma, "b"), Some(vec![]))),
        ("new (C());", || new_expression(call(ident("C"), vec![]), None)),
        ("new C((a, b));", || {
            new_expression(ident("C"), Some(vec![binary("a", BinaryOperator::Comma, "b")]))
        }),
    ];

    for (expected, build) in cases {
        check_emit(source_file_from_expression(build()), expected);
    }
}

#[test]
fn test_parenthesize_tagged_template() {
    let cases: [(&str, fn() -> Node); 2] = [
        ("(a, b) ``;", || tagged_template(binary("a", BinaryOperator::Comma, "b"))),
        ("(a?.b) ``;", || tagged_template(optional_property_access(ident("a"), "b"))),
    ];

    for (expected, build) in cases {
        check_emit(source_file_from_expression(build()), expected);
    }
}

#[test]
fn test_parenthesize_type_assertion_and_unary_like_expressions() {
    let cases: [(&str, fn() -> Node); 5] = [
        ("<T>(a + b);", || Node::TypeAssertionExpression {
            type_node: boxed(type_ref("T")),
            expression: boxed(binary("a", BinaryOperator::Plus, "b")),
        }),
        ("delete (a + b);", || Node::DeleteExpression(boxed(binary("a", BinaryOperator::Plus, "b")))),
        ("void (a + b);", || Node::VoidExpression(boxed(binary("a", BinaryOperator::Plus, "b")))),
        ("typeof (a + b);", || Node::TypeOfExpression(boxed(binary("a", BinaryOperator::Plus, "b")))),
        ("await (a + b);", || Node::AwaitExpression(boxed(binary("a", BinaryOperator::Plus, "b")))),
    ];

    for (expected, build) in cases {
        check_emit(source_file_from_expression(build()), expected);
    }
}

#[test]
fn test_parenthesize_arrow_function_body() {
    let cases: [(&str, fn() -> Node); 2] = [
        ("() => ({});", || Node::ArrowFunction {
            modifiers: vec![],
            type_parameters: vec![],
            parameters: vec![],
            type_node: None,
            body: boxed(empty_object_literal()),
            parameter_in_parentheses: false,
        }),
        ("() => ({}.a);", || Node::ArrowFunction {
            modifiers: vec![],
            type_parameters: vec![],
            parameters: vec![],
            type_node: None,
            body: boxed(property_access(empty_object_literal(), "a")),
            parameter_in_parentheses: false,
        }),
    ];

    for (expected, build) in cases {
        check_emit(source_file_from_expression(build()), expected);
    }
}

#[derive(Clone, Copy)]
enum Side {
    Name,
    Binary(BinaryOperator),
    Arrow,
}

fn binary_side(label: &str, side: Side) -> Node {
    match side {
        Side::Name => ident(label),
        Side::Arrow => empty_arrow_function(),
        Side::Binary(operator) => {
            binary(&format!("{label}l"), operator, &format!("{label}r"))
        },
    }
}

#[test]
fn test_parenthesize_binary() {
    let cases = [
        (Side::Name, BinaryOperator::Comma, Side::Name, "l, r"),
        (Side::Binary(BinaryOperator::Plus), BinaryOperator::Comma, Side::Name, "ll + lr, r"),
        (Side::Binary(BinaryOperator::Plus), BinaryOperator::Asterisk, Side::Name, "(ll + lr) * r"),
        (Side::Name, BinaryOperator::Asterisk, Side::Binary(BinaryOperator::Plus), "l * (rl + rr)"),
        (Side::Binary(BinaryOperator::Asterisk), BinaryOperator::Plus, Side::Name, "ll * lr + r"),
        (Side::Name, BinaryOperator::Plus, Side::Binary(BinaryOperator::Asterisk), "l + rl * rr"),
        (Side::Binary(BinaryOperator::Asterisk), BinaryOperator::Slash, Side::Name, "ll * lr / r"),
        (Side::Binary(BinaryOperator::AsteriskAsterisk), BinaryOperator::Slash, Side::Name, "ll ** lr / r"),
        (Side::Binary(BinaryOperator::Asterisk), BinaryOperator::AsteriskAsterisk, Side::Name, "(ll * lr) ** r"),
        (Side::Binary(BinaryOperator::AsteriskAsterisk), BinaryOperator::AsteriskAsterisk, Side::Name, "(ll ** lr) ** r"),
        (Side::Name, BinaryOperator::Asterisk, Side::Binary(BinaryOperator::Asterisk), "l * rl * rr"),
        (Side::Name, BinaryOperator::Bar, Side::Binary(BinaryOperator::Bar), "l | rl | rr"),
        (Side::Name, BinaryOperator::Ampersand, Side::Binary(BinaryOperator::Ampersand), "l & rl & rr"),
        (Side::Name, BinaryOperator::Caret, Side::Binary(BinaryOperator::Caret), "l ^ rl ^ rr"),
        (Side::Name, BinaryOperator::AmpersandAmpersand, Side::Arrow, "l && (() => { })"),
    ];

    for (left_side, operator, right_side, expected) in cases {
        let expression =
            binary_nodes(binary_side("l", left_side), operator, binary_side("r", right_side));
        check_emit(source_file_from_expression(expression), &format!("{expected};"));
    }
}

#[test]
fn test_parenthesize_conditional_expression() {
    fn conditional(condition: Node, when_true: Node, when_false: Node) -> Node {
        Node::ConditionalExpression {
            condition: boxed(condition),
            when_true: boxed(when_true),
            when_false: boxed(when_false),
            line_break_before_question: false,
            line_break_after_question: false,
            line_break_before_colon: false,
            line_break_after_colon: false,
        }
    }
    let cases: [(&str, fn() -> Node); 6] = [
        ("(a, b) ? c : d;", || conditional(binary("a", BinaryOperator::Comma, "b"), ident("c"), ident("d"))),
        ("(a = b) ? c : d;", || conditional(binary("a", BinaryOperator::Equals, "b"), ident("c"), ident("d"))),
        ("(() => { }) ? a : b;", || conditional(empty_arrow_function(), ident("a"), ident("b"))),
        ("(yield) ? a : b;", || {
            conditional(Node::YieldExpression { asterisk: false, expression: None }, ident("a"), ident("b"))
        }),
        ("a ? (b, c) : d;", || conditional(ident("a"), binary("b", BinaryOperator::Comma, "c"), ident("d"))),
        ("a ? b : (c, d);", || conditional(ident("a"), ident("b"), binary("c", BinaryOperator::Comma, "d"))),
    ];

    for (expected, build) in cases {
        check_emit(source_file_from_expression(build()), expected);
    }
}

#[test]
fn test_parenthesize_yield_and_spread() {
    let cases: [(&str, fn() -> Node); 4] = [
        ("yield (a, b);", || Node::YieldExpression {
            asterisk: false,
            expression: Some(boxed(binary("a", BinaryOperator::Comma, "b"))),
        }),
        ("[...(a, b)];", || Node::ArrayLiteralExpression {
            elements: vec![Node::SpreadElement(boxed(binary("a", BinaryOperator::Comma, "b")))],
            multi_line: false,
            has_trailing_comma: false,
        }),
        ("a(...(b, c));", || {
            call(ident("a"), vec![Node::SpreadElement(boxed(binary("b", BinaryOperator::Comma, "c")))])
        }),
        ("new a(...(b, c));", || {
            new_expression(
                ident("a"),
                Some(vec![Node::SpreadElement(boxed(binary("b", BinaryOperator::Comma, "c")))]),
            )
        }),
    ];

    for (expected, build) in cases {
        check_emit(source_file_from_expression(build()), expected);
    }
}

#[test]
fn test_parenthesize_assertion_like_and_non_null_expressions() {
    let cases: [(&str, fn() -> Node); 4] = [
        ("(a, b)<c>;", || Node::ExpressionWithTypeArguments {
            expression: boxed(binary("a", BinaryOperator::Comma, "b")),
            type_arguments: vec![type_ref("c")],
        }),
        ("(a, b) as c;", || Node::AsExpression {
            expression: boxed(binary("a", BinaryOperator::Comma, "b")),
            type_node: boxed(type_ref("c")),
        }),
        ("(a, b) satisfies c;", || Node::SatisfiesExpression {
            expression: boxed(binary("a", BinaryOperator::Comma, "b")),
            type_node: boxed(type_ref("c")),
        }),
        ("(a, b)!;", || Node::NonNullExpression(boxed(binary("a", BinaryOperator::Comma, "b")))),
    ];

    for (expected, build) in cases {
        check_emit(source_file_from_expression(build()), expected);
    }
}

#[test]
fn test_parenthesize_expression_statement() {
    let cases: [(&str, fn() -> Node); 3] = [
        ("({});", empty_object_literal),
        ("(function () { });", empty_function_expression),
        ("class {\n};", empty_class_expression),
    ];

    for (expected, build) in cases {
        check_emit(source_file_from_expression(build()), expected);
    }
}

#[test]
fn test_parenthesize_export_default_expression() {
    let cases: [(&str, fn() -> Node); 3] = [
        ("export default (class {\n});", empty_class_expression),
        ("export default (function () { });", empty_function_expression),
        ("export default (a, b);", || binary("a", BinaryOperator::Comma, "b")),
    ];

    for (expected, build) in cases {
        let export = Node::ExportAssignment { is_export_equals: false, expression: boxed(build()) };
        check_emit(source_file_from_statements(vec![export]), expected);
    }
}

#[test]
fn test_parenthesize_type_postfix_and_operator_nodes() {
    let cases: [(&str, fn() -> Node); 10] = [
        ("type _ = (a | b)[];", || Node::ArrayType(boxed(named_union_type(&["a", "b"])))),
        ("type _ = [\n    (a | b)?\n];", || Node::TupleType {
            elements: vec![Node::OptionalType(boxed(named_union_type(&["a", "b"])))],
            single_line: false,
        }),
        ("type _ = a | (() => b);", || {
            Node::UnionType(vec![type_ref("a"), function_type(type_ref("b"))])
        }),
        ("type _ = (infer a extends b) | c;", || {
            Node::UnionType(vec![constrained_infer_type("a", "b"), type_ref("c")])
        }),
        ("type _ = a & (b | c);", || {
            Node::IntersectionType(vec![type_ref("a"), named_union_type(&["b", "c"])])
        }),
        ("type _ = readonly (a | b);", || Node::TypeOperator {
            operator: TypeOperatorKind::Readonly,
            type_node: boxed(named_union_type(&["a", "b"])),
        }),
        ("type _ = readonly (keyof a);", || Node::TypeOperator {
            operator: TypeOperatorKind::Readonly,
            type_node: boxed(Node::TypeOperator {
                operator: TypeOperatorKind::KeyOf,
                type_node: boxed(type_ref("a")),
            }),
        }),
        ("type _ = keyof (a | b);", || Node::TypeOperator {
            operator: TypeOperatorKind::KeyOf,
            type_node: boxed(named_union_type(&["a", "b"])),
        }),
        ("type _ = (a | b)[c];", || Node::IndexedAccessType {
            object_type: boxed(named_union_type(&["a", "b"])),
            index_type: boxed(type_ref("c")),
        }),
        ("type _ = (typeof a)[b];", || Node::IndexedAccessType {
            object_type: boxed(Node::TypeQuery { name: "a".to_string(), type_arguments: vec![] }),
            index_type: boxed(type_ref("b")),
        }),
    ];

    for (expected, build) in cases {
        check_emit(type_alias_file(build()), expected);
    }
}

#[test]
fn test_parenthesize_conditional_type() {
    let cases: [(&str, fn() -> Node); 4] = [
        ("type _ = (() => a) extends b ? c : d;", || {
            conditional_type(function_type(type_ref("a")), type_ref("b"), type_ref("c"), type_ref("d"))
        }),
        ("type _ = a extends (b extends c ? d : e) ? f : g;", || {
            let extends =
                conditional_type(type_ref("b"), type_ref("c"), type_ref("d"), type_ref("e"));
            conditional_type(type_ref("a"), extends, type_ref("f"), type_ref("g"))
        }),
        ("type _ = a extends () => (infer b extends c) ? d : e;", || {
            let extends = function_type(constrained_infer_type("b", "c"));
            conditional_type(type_ref("a"), extends, type_ref("d"), type_ref("e"))
        }),
        ("type _ = a extends () => (infer b extends c) | d ? e : f;", || {
            let union = Node::UnionType(vec![constrained_infer_type("b", "c"), type_ref("d")]);
            conditional_type(type_ref("a"), function_type(union), type_ref("e"), type_ref("f"))
        }),
    ];

    for (expected, build) in cases {
        check_emit(type_alias_file(build()), expected);
    }
}

#[test]
fn test_parenthesize_binary_expression_mixing_nullish_coalescing() {
    let cases = [
        ("BarBarWithLeftQuestionQuestion", BinaryOperator::QuestionQuestion, BinaryOperator::BarBar, "left", "(a ?? b) || c;"),
        (
            "AmpersandAmpersandWithLeftQuestionQuestion",
            BinaryOperator::QuestionQuestion,
            BinaryOperator::AmpersandAmpersand,
            "left",
            "(a ?? b) && c;",
        ),
        ("BarBarWithRightQuestionQuestion", BinaryOperator::QuestionQuestion, BinaryOperator::BarBar, "right", "a || (b ?? c);"),
        (
            "AmpersandAmpersandWithRightQuestionQuestion",
            BinaryOperator::QuestionQuestion,
            BinaryOperator::AmpersandAmpersand,
            "right",
            "a && (b ?? c);",
        ),
        ("QuestionQuestionWithLeftBarBar", BinaryOperator::BarBar, BinaryOperator::QuestionQuestion, "left", "(a || b) ?? c;"),
        (
            "QuestionQuestionWithLeftAmpersandAmpersand",
            BinaryOperator::AmpersandAmpersand,
            BinaryOperator::QuestionQuestion,
            "left",
            "(a && b) ?? c;",
        ),
        ("QuestionQuestionWithRightBarBar", BinaryOperator::BarBar, BinaryOperator::QuestionQuestion, "right", "a ?? (b || c);"),
        (
            "QuestionQuestionWithRightAmpersandAmpersand",
            BinaryOperator::AmpersandAmpersand,
            BinaryOperator::QuestionQuestion,
            "right",
            "a ?? (b && c);",
        ),
    ];

    for (title, inner_op, outer_op, side, expected) in cases {
        let (inner_left, inner_right, outer_left, outer_right) = if side == "left" {
            ("a", "b", None, Some("c"))
        } else {
            ("b", "c", Some("a"), None)
        };
        let inner = binary(inner_left, inner_op, inner_right);
        let outer = if let Some(left_text) = outer_left {
            binary_nodes(ident(left_text), outer_op, inner)
        } else {
            binary_nodes(inner, outer_op, ident(outer_right.expect("right operand")))
        };
        let file = source_file_from_expression(outer);
        let mut printer = new_printer(PrinterOptions::default());
        let actual = printer.emit_source_file(&file);
        assert_eq!(expected, trim_emit_final_newline(&actual), "{title}");
    }
}
