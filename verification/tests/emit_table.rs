use ts_printer::ast::{
    BinaryOperator, ExpressionKeyword, ImportPhase, MappedTypeModifier, MetaPropertyKeyword,
    ModifierKind, ModuleKeyword, Node, PostfixOperator, PrefixOperator, TypeKeyword,
    TypeOperatorKind, VariableKind,
};
use ts_printer::emit_cases::emit_cases_from_go_source;
use ts_printer::printer::{new_printer, trim_emit_final_newline, PrinterOptions};

fn ident(name: &str) -> Node {
    Node::Identifier(name.to_string())
}

fn b(n: Node) -> Box<Node> {
    Box::new(n)
}

fn num(text: &str) -> Node {
    Node::NumericLiteral(text.to_string())
}

fn tref(name: &str) -> Node {
    Node::TypeReference { name: name.to_string(), type_arguments: vec![] }
}

fn kw(k: ExpressionKeyword) -> Node {
    Node::KeywordExpression(k)
}

fn stmt(n: Node) -> Node {
    Node::ExpressionStatement(b(n))
}

fn prop(expression: Node, name: &str, question_dot: bool, optional_chain: bool) -> Node {
    Node::PropertyAccessExpression { expression: b(expression), name: name.to_string(), question_dot, optional_chain, line_break_before_dot: false, line_break_after_dot: false }
}

fn elem(expression: Node, argument: Node, question_dot: bool, optional_chain: bool) -> Node {
    Node::ElementAccessExpression { expression: b(expression), argument: b(argument), question_dot, optional_chain }
}

fn call(expression: Node, type_arguments: Vec<Node>, arguments: Vec<Node>, question_dot: bool, optional_chain: bool) -> Node {
    Node::CallExpression { expression: b(expression), type_arguments, arguments, question_dot, optional_chain }
}

fn new_expr(expression: Node, type_arguments: Vec<Node>, arguments: Option<Vec<Node>>) -> Node {
    Node::NewExpression { expression: b(expression), type_arguments, arguments }
}

fn param(name: &str) -> Node {
    Node::Parameter {
        modifiers: vec![],
        dot_dot_dot: false,
        name: b(ident(name)),
        question: false,
        type_node: None,
        initializer: None,
    }
}

fn type_param(name: &str) -> Node {
    Node::TypeParameter { modifiers: vec![], name: name.to_string(), constraint: None, default_type: None }
}

fn empty_block() -> Node {
    Node::Block { statements: vec![], multi_line: false }
}

fn function_expression(
    modifiers: Vec<Node>,
    asterisk: bool,
    name: Option<&str>,
    type_parameters: Vec<Node>,
    parameters: Vec<Node>,
    type_node: Option<Node>,
    body: Node,
) -> Node {
    Node::ParenthesizedExpression(b(Node::FunctionExpression {
        modifiers,
        asterisk,
        name: name.map(|s| s.to_string()),
        type_parameters,
        parameters,
        type_node: type_node.map(b),
        body: b(body),
    }))
}

fn arrow(modifiers: Vec<Node>, type_parameters: Vec<Node>, parameters: Vec<Node>, type_node: Option<Node>, body: Node) -> Node {
    Node::ArrowFunction { modifiers, type_parameters, parameters, type_node: type_node.map(b), body: b(body), parameter_in_parentheses: false }
}

fn class_expression(name: Option<&str>, type_parameters: Vec<Node>, heritage_clauses: Vec<Node>) -> Node {
    Node::ParenthesizedExpression(b(Node::ClassExpression {
        modifiers: vec![],
        name: name.map(|s| s.to_string()),
        type_parameters,
        heritage_clauses,
        members: vec![],
    }))
}

fn heritage(is_implements: bool, names: &[&str]) -> Node {
    Node::HeritageClause {
        is_implements,
        types: names
            .iter()
            .map(|n| Node::ExpressionWithTypeArguments { expression: b(ident(n)), type_arguments: vec![] })
            .collect(),
    }
}

fn binary(left: Node, operator: BinaryOperator, right: Node) -> Node {
    Node::BinaryExpression { left: b(left), operator, right: b(right), line_break_before_operator: false, line_break_after_operator: false }
}

fn prefix(operator: PrefixOperator, operand: Node) -> Node {
    Node::PrefixUnaryExpression { operator, operand: b(operand) }
}

fn array(elements: Vec<Node>) -> Node {
    Node::ArrayLiteralExpression { elements, multi_line: false, has_trailing_comma: false }
}

fn object(properties: Vec<Node>) -> Node {
    Node::ObjectLiteralExpression { properties, multi_line: false, has_trailing_comma: false }
}

fn variable(kind: VariableKind, name: &str, initializer: Option<Node>) -> Node {
    Node::VariableStatement {
        modifiers: vec![],
        kind,
        declarations: vec![Node::VariableDeclaration { name: b(ident(name)), type_node: None, initializer: initializer.map(b) }],
    }
}

fn template(head: &str, spans: Vec<(Node, &str, bool)>) -> Node {
    Node::TemplateExpression {
        head: head.to_string(),
        spans: spans
            .into_iter()
            .map(|(e, literal, is_tail)| Node::TemplateSpan { expression: b(e), literal: literal.to_string(), is_tail })
            .collect(),
    }
}

fn generator_with(statement: Node) -> Node {
    function_expression(vec![], true, None, vec![], vec![], None, Node::Block { statements: vec![statement], multi_line: false })
}

fn print(statements: Vec<Node>) -> String {
    let mut printer = new_printer(PrinterOptions::default());
    let text = printer.emit_source_file(&Node::SourceFile { statements });
    trim_emit_final_newline(&text).to_string()
}

/// Cases of the table, each with the statements its source parses to:
/// literals and expressions.
fn buildable_cases() -> Vec<(&'static str, Vec<Node>)> {
    let a = || ident("a");
    let t = || tref("T");
    vec![
        ("StringLiteral#1", vec![Node::EmptyStatement, stmt(Node::StringLiteral { text: "test".to_string(), single_quote: false })]),
        ("StringLiteral#2", vec![Node::EmptyStatement, stmt(Node::StringLiteral { text: "test".to_string(), single_quote: true })]),
        ("NumericLiteral#1", vec![stmt(num("0"))]),
        ("NumericLiteral#2", vec![stmt(num("10_000"))]),
        ("BigIntLiteral#1", vec![stmt(Node::BigIntLiteral("0n".to_string()))]),
        ("BigIntLiteral#2", vec![stmt(Node::BigIntLiteral("10_000n".to_string()))]),
        ("BooleanLiteral#1", vec![stmt(kw(ExpressionKeyword::True))]),
        ("BooleanLiteral#2", vec![stmt(kw(ExpressionKeyword::False))]),
        ("NoSubstitutionTemplateLiteral", vec![stmt(Node::NoSubstitutionTemplateLiteral(String::new()))]),
        ("RegularExpressionLiteral#1", vec![stmt(Node::RegularExpressionLiteral("/a/".to_string()))]),
        ("RegularExpressionLiteral#2", vec![stmt(Node::RegularExpressionLiteral("/a/g".to_string()))]),
        ("NullLiteral", vec![stmt(kw(ExpressionKeyword::Null))]),
        ("ThisExpression", vec![stmt(kw(ExpressionKeyword::This))]),
        ("SuperExpression", vec![stmt(call(kw(ExpressionKeyword::Super), vec![], vec![], false, false))]),
        ("ImportExpression", vec![stmt(call(kw(ExpressionKeyword::Import), vec![], vec![], false, false))]),
        ("PropertyAccess#1", vec![stmt(prop(a(), "b", false, false))]),
        ("PropertyAccess#2", vec![stmt(prop(a(), "#b", false, false))]),
        ("PropertyAccess#3", vec![stmt(prop(a(), "b", true, true))]),
        ("PropertyAccess#4", vec![stmt(prop(prop(a(), "b", true, true), "c", false, true))]),
        ("PropertyAccess#5", vec![stmt(prop(num("1"), "b", false, false))]),
        ("PropertyAccess#6", vec![stmt(prop(num("1.0"), "b", false, false))]),
        ("PropertyAccess#7", vec![stmt(prop(num("0x1"), "b", false, false))]),
        ("PropertyAccess#8", vec![stmt(prop(num("0b1"), "b", false, false))]),
        ("PropertyAccess#9", vec![stmt(prop(num("0o1"), "b", false, false))]),
        ("PropertyAccess#10", vec![stmt(prop(num("10e1"), "b", false, false))]),
        ("PropertyAccess#11", vec![stmt(prop(num("10E1"), "b", false, false))]),
        ("PropertyAccess#12", vec![stmt(prop(prop(a(), "b", false, false), "c", true, true))]),
        ("ElementAccess#1", vec![stmt(elem(a(), ident("b"), false, false))]),
        ("ElementAccess#2", vec![stmt(elem(a(), ident("b"), true, true))]),
        ("ElementAccess#3", vec![stmt(prop(elem(a(), ident("b"), true, true), "c", false, true))]),
        ("CallExpression#1", vec![stmt(call(a(), vec![], vec![], false, false))]),
        ("CallExpression#2", vec![stmt(call(a(), vec![t()], vec![], false, false))]),
        ("CallExpression#3", vec![stmt(call(a(), vec![], vec![ident("b")], false, false))]),
        ("CallExpression#4", vec![stmt(call(a(), vec![t()], vec![ident("b")], false, false))]),
        ("CallExpression#5", vec![stmt(prop(call(a(), vec![], vec![ident("b")], false, false), "c", false, false))]),
        ("CallExpression#6", vec![stmt(prop(call(a(), vec![t()], vec![ident("b")], false, false), "c", false, false))]),
        ("CallExpression#7", vec![stmt(call(a(), vec![], vec![ident("b")], true, true))]),
        ("CallExpression#8", vec![stmt(call(a(), vec![t()], vec![ident("b")], true, true))]),
        ("CallExpression#9", vec![stmt(prop(call(a(), vec![], vec![ident("b")], true, true), "c", false, true))]),
        ("CallExpression#10", vec![stmt(prop(call(a(), vec![t()], vec![ident("b")], true, true), "c", false, true))]),
        ("CallExpression#11", vec![stmt(call(a(), vec![t(), tref("U")], vec![], false, false))]),
        ("CallExpression#13", vec![stmt(call(prop(a(), "b", true, true), vec![], vec![], false, true))]),
        ("NewExpression#1", vec![stmt(new_expr(a(), vec![], None))]),
        ("NewExpression#2", vec![stmt(new_expr(prop(a(), "b", false, false), vec![], None))]),
        ("NewExpression#3", vec![stmt(new_expr(a(), vec![], Some(vec![])))]),
        ("NewExpression#4", vec![stmt(new_expr(prop(a(), "b", false, false), vec![], Some(vec![])))]),
        ("NewExpression#5", vec![stmt(new_expr(a(), vec![t()], Some(vec![])))]),
        ("NewExpression#6", vec![stmt(new_expr(prop(a(), "b", false, false), vec![t()], Some(vec![])))]),
        ("NewExpression#7", vec![stmt(new_expr(a(), vec![], Some(vec![ident("b")])))]),
        ("NewExpression#8", vec![stmt(new_expr(prop(a(), "b", false, false), vec![], Some(vec![ident("c")])))]),
        ("NewExpression#9", vec![stmt(new_expr(a(), vec![t()], Some(vec![ident("b")])))]),
        ("NewExpression#10", vec![stmt(new_expr(prop(a(), "b", false, false), vec![t()], Some(vec![ident("c")])))]),
        ("NewExpression#11", vec![stmt(prop(new_expr(a(), vec![], Some(vec![ident("b")])), "c", false, false))]),
        ("NewExpression#12", vec![stmt(prop(new_expr(a(), vec![t()], Some(vec![ident("b")])), "c", false, false))]),
        (
            "TaggedTemplateExpression#1",
            vec![stmt(Node::TaggedTemplateExpression {
                tag: b(ident("tag")),
                type_arguments: vec![],
                template: b(Node::NoSubstitutionTemplateLiteral(String::new())),
            })],
        ),
        (
            "TaggedTemplateExpression#2",
            vec![stmt(Node::TaggedTemplateExpression {
                tag: b(ident("tag")),
                type_arguments: vec![t()],
                template: b(Node::NoSubstitutionTemplateLiteral(String::new())),
            })],
        ),
        ("TypeAssertionExpression#1", vec![stmt(Node::TypeAssertionExpression { type_node: b(t()), expression: b(a()) })]),
        ("FunctionExpression#1", vec![stmt(function_expression(vec![], false, None, vec![], vec![], None, empty_block()))]),
        ("FunctionExpression#2", vec![stmt(function_expression(vec![], false, Some("f"), vec![], vec![], None, empty_block()))]),
        ("FunctionExpression#3", vec![stmt(function_expression(vec![], true, Some("f"), vec![], vec![], None, empty_block()))]),
        (
            "FunctionExpression#4",
            vec![stmt(function_expression(vec![Node::Modifier(ModifierKind::Async)], false, Some("f"), vec![], vec![], None, empty_block()))],
        ),
        (
            "FunctionExpression#5",
            vec![stmt(function_expression(vec![Node::Modifier(ModifierKind::Async)], true, Some("f"), vec![], vec![], None, empty_block()))],
        ),
        ("FunctionExpression#6", vec![stmt(function_expression(vec![], false, None, vec![type_param("T")], vec![], None, empty_block()))]),
        ("FunctionExpression#7", vec![stmt(function_expression(vec![], false, None, vec![], vec![param("a")], None, empty_block()))]),
        ("FunctionExpression#8", vec![stmt(function_expression(vec![], false, None, vec![], vec![], Some(t()), empty_block()))]),
        ("ArrowFunction#1", vec![stmt(arrow(vec![], vec![], vec![param("a")], None, empty_block()))]),
        ("ArrowFunction#2", vec![stmt(arrow(vec![], vec![], vec![], None, empty_block()))]),
        (
            "ArrowFunction#3",
            vec![stmt(Node::ArrowFunction {
                modifiers: vec![],
                type_parameters: vec![],
                parameters: vec![param("a")],
                parameter_in_parentheses: true,
                type_node: None,
                body: b(empty_block()),
            })],
        ),
        ("ArrowFunction#4", vec![stmt(arrow(vec![], vec![type_param("T")], vec![param("a")], None, empty_block()))]),
        ("ArrowFunction#5", vec![stmt(arrow(vec![Node::Modifier(ModifierKind::Async)], vec![], vec![param("a")], None, empty_block()))]),
        ("ArrowFunction#6", vec![stmt(arrow(vec![Node::Modifier(ModifierKind::Async)], vec![], vec![], None, empty_block()))]),
        (
            "ArrowFunction#7",
            vec![stmt(arrow(vec![Node::Modifier(ModifierKind::Async)], vec![type_param("T")], vec![], None, empty_block()))],
        ),
        ("ArrowFunction#8", vec![stmt(arrow(vec![], vec![], vec![], Some(t()), empty_block()))]),
        ("ArrowFunction#9", vec![stmt(arrow(vec![], vec![], vec![], None, a()))]),
        ("DeleteExpression", vec![stmt(Node::DeleteExpression(b(a())))]),
        ("TypeOfExpression", vec![stmt(Node::TypeOfExpression(b(a())))]),
        ("VoidExpression", vec![stmt(Node::VoidExpression(b(a())))]),
        ("AwaitExpression", vec![stmt(Node::AwaitExpression(b(a())))]),
        ("PrefixUnaryExpression#1", vec![stmt(prefix(PrefixOperator::Plus, a()))]),
        ("PrefixUnaryExpression#2", vec![stmt(prefix(PrefixOperator::PlusPlus, a()))]),
        ("PrefixUnaryExpression#3", vec![stmt(prefix(PrefixOperator::Plus, prefix(PrefixOperator::Plus, a())))]),
        ("PrefixUnaryExpression#4", vec![stmt(prefix(PrefixOperator::Plus, prefix(PrefixOperator::PlusPlus, a())))]),
        ("PrefixUnaryExpression#5", vec![stmt(prefix(PrefixOperator::Minus, a()))]),
        ("PrefixUnaryExpression#6", vec![stmt(prefix(PrefixOperator::MinusMinus, a()))]),
        ("PrefixUnaryExpression#7", vec![stmt(prefix(PrefixOperator::Minus, prefix(PrefixOperator::Minus, a())))]),
        ("PrefixUnaryExpression#8", vec![stmt(prefix(PrefixOperator::Minus, prefix(PrefixOperator::MinusMinus, a())))]),
        ("PrefixUnaryExpression#9", vec![stmt(prefix(PrefixOperator::Plus, prefix(PrefixOperator::Minus, a())))]),
        ("PrefixUnaryExpression#10", vec![stmt(prefix(PrefixOperator::Plus, prefix(PrefixOperator::MinusMinus, a())))]),
        ("PrefixUnaryExpression#11", vec![stmt(prefix(PrefixOperator::Minus, prefix(PrefixOperator::Plus, a())))]),
        ("PrefixUnaryExpression#12", vec![stmt(prefix(PrefixOperator::Minus, prefix(PrefixOperator::PlusPlus, a())))]),
        ("PrefixUnaryExpression#13", vec![stmt(prefix(PrefixOperator::Tilde, a()))]),
        ("PrefixUnaryExpression#14", vec![stmt(prefix(PrefixOperator::Exclamation, a()))]),
        ("PostfixUnaryExpression#1", vec![stmt(Node::PostfixUnaryExpression { operand: b(a()), operator: PostfixOperator::PlusPlus })]),
        ("PostfixUnaryExpression#2", vec![stmt(Node::PostfixUnaryExpression { operand: b(a()), operator: PostfixOperator::MinusMinus })]),
        ("BinaryExpression#1", vec![stmt(binary(a(), BinaryOperator::Comma, ident("b")))]),
        ("BinaryExpression#2", vec![stmt(binary(a(), BinaryOperator::Plus, ident("b")))]),
        ("BinaryExpression#3", vec![stmt(binary(a(), BinaryOperator::AsteriskAsterisk, ident("b")))]),
        ("BinaryExpression#4", vec![stmt(binary(a(), BinaryOperator::InstanceOf, ident("b")))]),
        ("BinaryExpression#5", vec![stmt(binary(a(), BinaryOperator::In, ident("b")))]),
        (
            "BinaryExpression#6",
            vec![stmt(Node::BinaryExpression {
                left: b(a()),
                operator: BinaryOperator::AmpersandAmpersand,
                right: b(ident("b")),
                line_break_before_operator: true,
                line_break_after_operator: false,
            })],
        ),
        (
            "BinaryExpression#7",
            vec![stmt(Node::BinaryExpression {
                left: b(a()),
                operator: BinaryOperator::AmpersandAmpersand,
                right: b(ident("b")),
                line_break_before_operator: false,
                line_break_after_operator: true,
            })],
        ),
        (
            "ConditionalExpression#1",
            vec![stmt(Node::ConditionalExpression { condition: b(a()), when_true: b(ident("b")), when_false: b(ident("c")), line_break_before_question: false, line_break_after_question: false, line_break_before_colon: false, line_break_after_colon: false })],
        ),
        (
            "ConditionalExpression#2",
            vec![stmt(Node::ConditionalExpression {
                condition: b(a()),
                when_true: b(ident("b")),
                when_false: b(ident("c")),
                line_break_before_question: true,
                line_break_after_question: false,
                line_break_before_colon: false,
                line_break_after_colon: false,
            })],
        ),
        (
            "ConditionalExpression#3",
            vec![stmt(Node::ConditionalExpression {
                condition: b(a()),
                when_true: b(ident("b")),
                when_false: b(ident("c")),
                line_break_before_question: false,
                line_break_after_question: true,
                line_break_before_colon: false,
                line_break_after_colon: false,
            })],
        ),
        (
            "ConditionalExpression#4",
            vec![stmt(Node::ConditionalExpression {
                condition: b(a()),
                when_true: b(ident("b")),
                when_false: b(ident("c")),
                line_break_before_question: false,
                line_break_after_question: false,
                line_break_before_colon: true,
                line_break_after_colon: false,
            })],
        ),
        (
            "ConditionalExpression#5",
            vec![stmt(Node::ConditionalExpression {
                condition: b(a()),
                when_true: b(ident("b")),
                when_false: b(ident("c")),
                line_break_before_question: false,
                line_break_after_question: false,
                line_break_before_colon: false,
                line_break_after_colon: true,
            })],
        ),
        (
            "PropertyAccess#13",
            vec![stmt(Node::PropertyAccessExpression {
                expression: b(a()),
                name: "b".to_string(),
                question_dot: false,
                optional_chain: false,
                line_break_before_dot: true,
                line_break_after_dot: false,
            })],
        ),
        (
            "PropertyAccess#14",
            vec![stmt(Node::PropertyAccessExpression {
                expression: b(a()),
                name: "b".to_string(),
                question_dot: false,
                optional_chain: false,
                line_break_before_dot: false,
                line_break_after_dot: true,
            })],
        ),
        ("TemplateExpression#1", vec![stmt(template("a", vec![(ident("b"), "c", true)]))]),
        ("TemplateExpression#2", vec![stmt(template("a", vec![(ident("b"), "c", false), (ident("d"), "e", true)]))]),
        ("YieldExpression#1", vec![stmt(generator_with(stmt(Node::YieldExpression { asterisk: false, expression: None })))]),
        ("YieldExpression#2", vec![stmt(generator_with(stmt(Node::YieldExpression { asterisk: false, expression: Some(b(a())) })))]),
        ("YieldExpression#3", vec![stmt(generator_with(stmt(Node::YieldExpression { asterisk: true, expression: Some(b(a())) })))]),
        ("SpreadElement", vec![stmt(array(vec![Node::SpreadElement(b(a()))]))]),
        ("ClassExpression#1", vec![stmt(class_expression(None, vec![], vec![]))]),
        ("ClassExpression#2", vec![stmt(class_expression(Some("a"), vec![], vec![]))]),
        ("ClassExpression#3", vec![stmt(class_expression(None, vec![type_param("T")], vec![]))]),
        ("ClassExpression#4", vec![stmt(class_expression(Some("a"), vec![type_param("T")], vec![]))]),
        ("ClassExpression#5", vec![stmt(class_expression(None, vec![], vec![heritage(false, &["b"])]))]),
        ("ClassExpression#6", vec![stmt(class_expression(Some("a"), vec![], vec![heritage(false, &["b"])]))]),
        ("ClassExpression#7", vec![stmt(class_expression(None, vec![], vec![heritage(true, &["b"])]))]),
        ("ClassExpression#8", vec![stmt(class_expression(Some("a"), vec![], vec![heritage(true, &["b"])]))]),
        ("ClassExpression#9", vec![stmt(class_expression(None, vec![], vec![heritage(true, &["b", "c"])]))]),
        ("ClassExpression#10", vec![stmt(class_expression(Some("a"), vec![], vec![heritage(true, &["b", "c"])]))]),
        (
            "ClassExpression#11",
            vec![stmt(class_expression(None, vec![], vec![heritage(false, &["b"]), heritage(true, &["c", "d"])]))],
        ),
        (
            "ClassExpression#12",
            vec![stmt(class_expression(Some("a"), vec![], vec![heritage(false, &["b"]), heritage(true, &["c", "d"])]))],
        ),
        ("OmittedExpression", vec![stmt(array(vec![Node::OmittedExpression]))]),
        ("ExpressionWithTypeArguments", vec![stmt(Node::ExpressionWithTypeArguments { expression: b(a()), type_arguments: vec![t()] })]),
        ("AsExpression", vec![stmt(Node::AsExpression { expression: b(a()), type_node: b(t()) })]),
        ("SatisfiesExpression", vec![stmt(Node::SatisfiesExpression { expression: b(a()), type_node: b(t()) })]),
        ("NonNullExpression", vec![stmt(Node::NonNullExpression(b(a())))]),
        ("MetaProperty#1", vec![stmt(Node::MetaProperty { keyword: MetaPropertyKeyword::New, name: "target".to_string() })]),
        ("MetaProperty#2", vec![stmt(Node::MetaProperty { keyword: MetaPropertyKeyword::Import, name: "meta".to_string() })]),
        ("ArrayLiteralExpression#1", vec![stmt(array(vec![]))]),
        ("ArrayLiteralExpression#2", vec![stmt(array(vec![a()]))]),
        (
            "ArrayLiteralExpression#3",
            vec![stmt(Node::ArrayLiteralExpression { elements: vec![a()], multi_line: false, has_trailing_comma: true })],
        ),
        ("ArrayLiteralExpression#4", vec![stmt(array(vec![Node::OmittedExpression, a()]))]),
        ("ArrayLiteralExpression#5", vec![stmt(array(vec![Node::SpreadElement(b(a()))]))]),
        ("ObjectLiteralExpression#1", vec![stmt(object(vec![]))]),
        (
            "ObjectLiteralExpression#2",
            vec![stmt(Node::ObjectLiteralExpression {
                properties: vec![Node::ShorthandPropertyAssignment("a".to_string())],
                multi_line: false,
                has_trailing_comma: true,
            })],
        ),
        ("ShorthandPropertyAssignment", vec![stmt(object(vec![Node::ShorthandPropertyAssignment("a".to_string())]))]),
        ("PropertyAssignment", vec![stmt(object(vec![Node::PropertyAssignment { name: b(a()), initializer: b(ident("b")) }]))]),
        ("SpreadAssignment", vec![stmt(object(vec![Node::SpreadAssignment(b(a()))]))]),
        ("Block", vec![empty_block()]),
        ("VariableStatement#1", vec![variable(VariableKind::Var, "a", None)]),
        ("VariableStatement#2", vec![variable(VariableKind::Let, "a", None)]),
        ("VariableStatement#3", vec![variable(VariableKind::Const, "a", Some(ident("b")))]),
    ]
}

fn declaration_list(kind: VariableKind, name: &str) -> Node {
    Node::VariableDeclarationList {
        kind,
        declarations: vec![Node::VariableDeclaration { name: b(ident(name)), type_node: None, initializer: None }],
    }
}

fn if_statement(then_statement: Node, else_statement: Option<Node>) -> Node {
    Node::IfStatement { expression: b(ident("a")), then_statement: b(then_statement), else_statement: else_statement.map(b) }
}

fn function_declaration(
    modifiers: Vec<Node>,
    asterisk: bool,
    type_parameters: Vec<Node>,
    parameters: Vec<Node>,
    type_node: Option<Node>,
    body: Option<Node>,
) -> Node {
    Node::FunctionDeclaration {
        modifiers,
        asterisk,
        name: Some("f".to_string()),
        type_parameters,
        parameters,
        type_node: type_node.map(b),
        body: body.map(b),
    }
}

fn class_declaration(modifiers: Vec<Node>, name: Option<&str>, type_parameters: Vec<Node>, heritage_clauses: Vec<Node>) -> Node {
    Node::ClassDeclaration { modifiers, name: name.map(|s| s.to_string()), type_parameters, heritage_clauses, members: vec![] }
}

fn keyword_type_alias(k: TypeKeyword) -> Node {
    Node::TypeAliasDeclaration { modifiers: vec![], name: "T".to_string(), type_parameters: vec![], type_node: b(Node::KeywordType(k)) }
}

/// More cases of the table: statements, declarations and types.
fn buildable_statement_cases() -> Vec<(&'static str, Vec<Node>)> {
    let a = || ident("a");
    let e = || Node::EmptyStatement;
    let blk = || empty_block();
    let export_default = || vec![Node::Modifier(ModifierKind::Export), Node::Modifier(ModifierKind::Default)];
    vec![
        ("EmptyStatement", vec![e()]),
        ("IfStatement#1", vec![if_statement(e(), None)]),
        ("IfStatement#2", vec![if_statement(e(), Some(e()))]),
        ("IfStatement#3", vec![if_statement(e(), Some(blk()))]),
        ("IfStatement#6", vec![if_statement(blk(), None)]),
        ("IfStatement#7", vec![if_statement(blk(), Some(e()))]),
        ("IfStatement#8", vec![if_statement(blk(), Some(blk()))]),
        ("DoStatement#1", vec![Node::DoStatement { statement: b(e()), expression: b(a()) }]),
        ("DoStatement#2", vec![Node::DoStatement { statement: b(blk()), expression: b(a()) }]),
        ("WhileStatement#1", vec![Node::WhileStatement { expression: b(a()), statement: b(e()) }]),
        ("WhileStatement#2", vec![Node::WhileStatement { expression: b(a()), statement: b(blk()) }]),
        ("ForStatement#1", vec![Node::ForStatement { initializer: None, condition: None, incrementor: None, statement: b(e()) }]),
        ("ForStatement#2", vec![Node::ForStatement { initializer: Some(b(a())), condition: None, incrementor: None, statement: b(e()) }]),
        (
            "ForStatement#3",
            vec![Node::ForStatement {
                initializer: Some(b(declaration_list(VariableKind::Var, "a"))),
                condition: None,
                incrementor: None,
                statement: b(e()),
            }],
        ),
        ("ForStatement#4", vec![Node::ForStatement { initializer: None, condition: Some(b(a())), incrementor: None, statement: b(e()) }]),
        ("ForStatement#5", vec![Node::ForStatement { initializer: None, condition: None, incrementor: Some(b(a())), statement: b(e()) }]),
        ("ForStatement#6", vec![Node::ForStatement { initializer: None, condition: None, incrementor: None, statement: b(blk()) }]),
        ("ForInStatement#1", vec![Node::ForInStatement { initializer: b(a()), expression: b(ident("b")), statement: b(e()) }]),
        (
            "ForInStatement#2",
            vec![Node::ForInStatement { initializer: b(declaration_list(VariableKind::Var, "a")), expression: b(ident("b")), statement: b(e()) }],
        ),
        ("ForOfStatement#1", vec![Node::ForOfStatement { is_await: false, initializer: b(a()), expression: b(ident("b")), statement: b(e()) }]),
        ("ForOfStatement#4", vec![Node::ForOfStatement { is_await: true, initializer: b(a()), expression: b(ident("b")), statement: b(e()) }]),
        ("ForOfStatement#6", vec![Node::ForOfStatement { is_await: true, initializer: b(a()), expression: b(ident("b")), statement: b(blk()) }]),
        ("ContinueStatement#1", vec![Node::ContinueStatement(None)]),
        ("ContinueStatement#2", vec![Node::ContinueStatement(Some("a".to_string()))]),
        ("BreakStatement#1", vec![Node::BreakStatement(None)]),
        ("BreakStatement#2", vec![Node::BreakStatement(Some("a".to_string()))]),
        ("ReturnStatement#1", vec![Node::ReturnStatement(None)]),
        ("ReturnStatement#2", vec![Node::ReturnStatement(Some(b(a())))]),
        ("WithStatement#1", vec![Node::WithStatement { expression: b(a()), statement: b(e()) }]),
        ("WithStatement#2", vec![Node::WithStatement { expression: b(a()), statement: b(blk()) }]),
        ("SwitchStatement", vec![Node::SwitchStatement { expression: b(a()), clauses: vec![] }]),
        (
            "CaseClause#1",
            vec![Node::SwitchStatement { expression: b(a()), clauses: vec![Node::CaseClause { expression: b(ident("b")), statements: vec![], statement_on_next_line: false }] }],
        ),
        (
            "CaseClause#2",
            vec![Node::SwitchStatement { expression: b(a()), clauses: vec![Node::CaseClause { expression: b(ident("b")), statements: vec![e()], statement_on_next_line: false }] }],
        ),
        ("DefaultClause#1", vec![Node::SwitchStatement { expression: b(a()), clauses: vec![Node::DefaultClause { statements: vec![], statement_on_next_line: false }] }]),
        ("DefaultClause#2", vec![Node::SwitchStatement { expression: b(a()), clauses: vec![Node::DefaultClause { statements: vec![e()], statement_on_next_line: false }] }]),
        ("LabeledStatement", vec![Node::LabeledStatement { label: "a".to_string(), statement: b(e()) }]),
        ("ThrowStatement", vec![Node::ThrowStatement(Some(b(a())))]),
        (
            "TryStatement#1",
            vec![Node::TryStatement {
                try_block: b(blk()),
                catch_clause: Some(b(Node::CatchClause { variable_declaration: None, block: b(blk()) })),
                finally_block: None,
            }],
        ),
        ("TryStatement#2", vec![Node::TryStatement { try_block: b(blk()), catch_clause: None, finally_block: Some(b(blk())) }]),
        (
            "TryStatement#3",
            vec![Node::TryStatement {
                try_block: b(blk()),
                catch_clause: Some(b(Node::CatchClause { variable_declaration: None, block: b(blk()) })),
                finally_block: Some(b(blk())),
            }],
        ),
        ("DebuggerStatement", vec![Node::DebuggerStatement]),
        (
            "FunctionDeclaration#1",
            vec![Node::FunctionDeclaration {
                modifiers: export_default(),
                asterisk: false,
                name: None,
                type_parameters: vec![],
                parameters: vec![],
                type_node: None,
                body: Some(b(blk())),
            }],
        ),
        ("FunctionDeclaration#2", vec![function_declaration(vec![], false, vec![], vec![], None, Some(blk()))]),
        ("FunctionDeclaration#3", vec![function_declaration(vec![], true, vec![], vec![], None, Some(blk()))]),
        ("FunctionDeclaration#4", vec![function_declaration(vec![Node::Modifier(ModifierKind::Async)], false, vec![], vec![], None, Some(blk()))]),
        ("FunctionDeclaration#5", vec![function_declaration(vec![Node::Modifier(ModifierKind::Async)], true, vec![], vec![], None, Some(blk()))]),
        ("FunctionDeclaration#6", vec![function_declaration(vec![], false, vec![type_param("T")], vec![], None, Some(blk()))]),
        ("FunctionDeclaration#7", vec![function_declaration(vec![], false, vec![], vec![param("a")], None, Some(blk()))]),
        ("FunctionDeclaration#8", vec![function_declaration(vec![], false, vec![], vec![], Some(tref("T")), Some(blk()))]),
        ("FunctionDeclaration#9", vec![function_declaration(vec![], false, vec![], vec![], None, None)]),
        ("ClassDeclaration#1", vec![class_declaration(vec![], Some("a"), vec![], vec![])]),
        ("ClassDeclaration#2", vec![class_declaration(vec![], Some("a"), vec![type_param("T")], vec![])]),
        ("ClassDeclaration#3", vec![class_declaration(vec![], Some("a"), vec![], vec![heritage(false, &["b"])])]),
        ("ClassDeclaration#4", vec![class_declaration(vec![], Some("a"), vec![], vec![heritage(true, &["b"])])]),
        ("ClassDeclaration#5", vec![class_declaration(vec![], Some("a"), vec![], vec![heritage(true, &["b", "c"])])]),
        ("ClassDeclaration#7", vec![class_declaration(export_default(), None, vec![], vec![])]),
        ("ClassDeclaration#8", vec![class_declaration(export_default(), None, vec![type_param("T")], vec![])]),
        ("ClassDeclaration#9", vec![class_declaration(export_default(), None, vec![], vec![heritage(false, &["b"])])]),
        (
            "InterfaceDeclaration#1",
            vec![Node::InterfaceDeclaration { modifiers: vec![], name: "a".to_string(), type_parameters: vec![], heritage_clauses: vec![], members: vec![] }],
        ),
        (
            "InterfaceDeclaration#2",
            vec![Node::InterfaceDeclaration {
                modifiers: vec![],
                name: "a".to_string(),
                type_parameters: vec![type_param("T")],
                heritage_clauses: vec![],
                members: vec![],
            }],
        ),
        (
            "InterfaceDeclaration#4",
            vec![Node::InterfaceDeclaration {
                modifiers: vec![],
                name: "a".to_string(),
                type_parameters: vec![],
                heritage_clauses: vec![heritage(false, &["b", "c"])],
                members: vec![],
            }],
        ),
        (
            "TypeAliasDeclaration#1",
            vec![Node::TypeAliasDeclaration { modifiers: vec![], name: "a".to_string(), type_parameters: vec![], type_node: b(tref("b")) }],
        ),
        (
            "TypeAliasDeclaration#2",
            vec![Node::TypeAliasDeclaration {
                modifiers: vec![],
                name: "a".to_string(),
                type_parameters: vec![type_param("T")],
                type_node: b(tref("b")),
            }],
        ),
        ("EnumDeclaration#1", vec![Node::EnumDeclaration { modifiers: vec![], name: "a".to_string(), members: vec![] }]),
        (
            "EnumDeclaration#2",
            vec![Node::EnumDeclaration {
                modifiers: vec![],
                name: "a".to_string(),
                members: vec![Node::EnumMember { name: b(ident("b")), initializer: None }],
            }],
        ),
        (
            "EnumDeclaration#3",
            vec![Node::EnumDeclaration {
                modifiers: vec![],
                name: "a".to_string(),
                members: vec![Node::EnumMember { name: b(ident("b")), initializer: Some(b(ident("c"))) }],
            }],
        ),
        (
            "ImportEqualsDeclaration#1",
            vec![Node::ImportEqualsDeclaration { modifiers: vec![], is_type_only: false, name: "a".to_string(), module_reference: b(ident("b")) }],
        ),
        (
            "ImportEqualsDeclaration#8",
            vec![Node::ImportEqualsDeclaration {
                modifiers: vec![],
                is_type_only: true,
                name: "a".to_string(),
                module_reference: b(Node::ExternalModuleReference(b(Node::StringLiteral { text: "b".to_string(), single_quote: false }))),
            }],
        ),
        ("ExportAssignment#1", vec![Node::ExportAssignment { is_export_equals: true, expression: b(a()) }]),
        ("ExportAssignment#2", vec![Node::ExportAssignment { is_export_equals: false, expression: b(a()) }]),
        ("NamespaceExportDeclaration", vec![Node::NamespaceExportDeclaration { modifiers: vec![], name: "a".to_string() }]),
        ("KeywordTypeNode#1", vec![keyword_type_alias(TypeKeyword::Any)]),
        ("KeywordTypeNode#2", vec![keyword_type_alias(TypeKeyword::Unknown)]),
        ("KeywordTypeNode#3", vec![keyword_type_alias(TypeKeyword::Never)]),
        ("KeywordTypeNode#4", vec![keyword_type_alias(TypeKeyword::Void)]),
        ("KeywordTypeNode#5", vec![keyword_type_alias(TypeKeyword::Undefined)]),
        ("KeywordTypeNode#7", vec![keyword_type_alias(TypeKeyword::Object)]),
        ("KeywordTypeNode#8", vec![keyword_type_alias(TypeKeyword::String)]),
        ("KeywordTypeNode#9", vec![keyword_type_alias(TypeKeyword::Symbol)]),
        ("KeywordTypeNode#10", vec![keyword_type_alias(TypeKeyword::Number)]),
        ("KeywordTypeNode#11", vec![keyword_type_alias(TypeKeyword::BigInt)]),
        ("KeywordTypeNode#12", vec![keyword_type_alias(TypeKeyword::Boolean)]),
        ("KeywordTypeNode#13", vec![keyword_type_alias(TypeKeyword::Intrinsic)]),
        (
            "TypeReferenceNode#3",
            vec![Node::TypeAliasDeclaration {
                modifiers: vec![],
                name: "T".to_string(),
                type_parameters: vec![],
                type_node: b(Node::TypeReference { name: "a".to_string(), type_arguments: vec![tref("U")] }),
            }],
        ),
    ]
}

fn st(text: &str) -> Node {
    Node::StringLiteral { text: text.to_string(), single_quote: false }
}

fn sq(text: &str) -> Node {
    Node::StringLiteral { text: text.to_string(), single_quote: true }
}

fn m(k: ModifierKind) -> Node {
    Node::Modifier(k)
}

fn alias(type_node: Node) -> Node {
    Node::TypeAliasDeclaration { modifiers: vec![], name: "T".to_string(), type_parameters: vec![], type_node: b(type_node) }
}

fn tref_args(name: &str, type_arguments: Vec<Node>) -> Node {
    Node::TypeReference { name: name.to_string(), type_arguments }
}

fn full_param(name: Node, dot_dot_dot: bool, question: bool, type_node: Option<Node>, initializer: Option<Node>) -> Node {
    Node::Parameter { modifiers: vec![], dot_dot_dot, name: b(name), question, type_node: type_node.map(b), initializer: initializer.map(b) }
}

fn function_signature(type_parameters: Vec<Node>, parameters: Vec<Node>, type_node: Option<Node>) -> Node {
    Node::FunctionDeclaration {
        modifiers: vec![],
        asterisk: false,
        name: Some("f".to_string()),
        type_parameters,
        parameters,
        type_node: type_node.map(b),
        body: None,
    }
}

fn interface(members: Vec<Node>) -> Node {
    Node::InterfaceDeclaration { modifiers: vec![], name: "I".to_string(), type_parameters: vec![], heritage_clauses: vec![], members }
}

fn class_c(members: Vec<Node>) -> Node {
    Node::ClassDeclaration { modifiers: vec![], name: Some("C".to_string()), type_parameters: vec![], heritage_clauses: vec![], members }
}

fn property_signature(modifiers: Vec<Node>, name: Node, question: bool, type_node: Option<Node>) -> Node {
    Node::PropertySignature { modifiers, name: b(name), question, type_node: type_node.map(b) }
}

fn method_signature(name: Node, question: bool, type_parameters: Vec<Node>, parameters: Vec<Node>, type_node: Option<Node>) -> Node {
    Node::MethodSignature { modifiers: vec![], name: b(name), question, type_parameters, parameters, type_node: type_node.map(b) }
}

fn property_declaration(modifiers: Vec<Node>, name: Node, question: bool, type_node: Option<Node>, initializer: Option<Node>) -> Node {
    Node::PropertyDeclaration { modifiers, name: b(name), question, type_node: type_node.map(b), initializer: initializer.map(b), exclamation: false }
}

fn method(
    modifiers: Vec<Node>,
    name: Node,
    question: bool,
    type_parameters: Vec<Node>,
    parameters: Vec<Node>,
    type_node: Option<Node>,
    body: Option<Node>,
) -> Node {
    Node::MethodDeclaration {
        modifiers,
        asterisk: false,
        name: b(name),
        question,
        type_parameters,
        parameters,
        type_node: type_node.map(b),
        body: body.map(b),
    }
}

fn get_accessor(modifiers: Vec<Node>, name: Node, parameters: Vec<Node>, type_node: Option<Node>, body: Option<Node>) -> Node {
    Node::GetAccessor { modifiers, name: b(name), parameters, type_node: type_node.map(b), body: body.map(b) }
}

fn set_accessor(modifiers: Vec<Node>, name: Node, parameters: Vec<Node>, type_node: Option<Node>, body: Option<Node>) -> Node {
    Node::SetAccessor { modifiers, name: b(name), parameters, type_node: type_node.map(b), body: body.map(b) }
}

fn constructor(modifiers: Vec<Node>, parameters: Vec<Node>, type_node: Option<Node>, body: Option<Node>) -> Node {
    Node::Constructor { modifiers, parameters, type_node: type_node.map(b), body: body.map(b) }
}

fn computed(name: &str) -> Node {
    Node::ComputedPropertyName(b(ident(name)))
}

fn decorator(name: &str) -> Node {
    Node::Decorator(b(ident(name)))
}

fn import_declaration(clause: Option<Node>, specifier: &str, attributes: Option<Node>) -> Node {
    Node::ImportDeclaration { modifiers: vec![], import_clause: clause.map(b), module_specifier: b(st(specifier)), attributes: attributes.map(b) }
}

fn import_clause(phase: Option<ImportPhase>, name: Option<&str>, named_bindings: Option<Node>) -> Node {
    Node::ImportClause { phase, name: name.map(|s| s.to_string()), named_bindings: named_bindings.map(b) }
}

fn named_imports(elements: Vec<Node>) -> Node {
    Node::NamedImports { elements, has_trailing_comma: false }
}

fn import_specifier(property_name: Option<Node>, name: &str) -> Node {
    Node::ImportSpecifier { is_type_only: false, property_name: property_name.map(b), name: name.to_string() }
}

fn export_declaration(is_type_only: bool, clause: Option<Node>, specifier: Option<&str>, attributes: Option<Node>) -> Node {
    Node::ExportDeclaration {
        modifiers: vec![],
        is_type_only,
        export_clause: clause.map(b),
        module_specifier: specifier.map(|s| b(st(s))),
        attributes: attributes.map(b),
    }
}

fn named_exports(elements: Vec<Node>) -> Node {
    Node::NamedExports { elements, has_trailing_comma: false }
}

fn export_specifier(is_type_only: bool, property_name: Option<Node>, name: Node) -> Node {
    Node::ExportSpecifier { is_type_only, property_name: property_name.map(b), name: b(name) }
}

fn attributes(elements: Vec<Node>) -> Node {
    Node::ImportAttributes { assert_keyword: false, elements }
}

fn attribute(name: Node, value: &str) -> Node {
    Node::ImportAttribute { name: b(name), value: b(st(value)) }
}

fn module(keyword: ModuleKeyword, name: Node, body: Option<Node>) -> Node {
    Node::ModuleDeclaration { modifiers: vec![], keyword, name: b(name), body: body.map(b) }
}

fn module_block() -> Node {
    Node::ModuleBlock { statements: vec![] }
}

fn mapped(readonly_token: Option<MappedTypeModifier>, name_type: Option<Node>, question_token: Option<MappedTypeModifier>, members: Vec<Node>) -> Node {
    let value = if name_type.is_some() { "d" } else { "c" };
    alias(Node::MappedType {
        single_line: false,
        readonly_token,
        parameter_name: "a".to_string(),
        constraint: Some(b(tref("b"))),
        name_type: name_type.map(b),
        question_token,
        type_node: Some(b(tref(value))),
        members,
    })
}

fn binding(dot_dot_dot: bool, property_name: Option<Node>, name: Node, initializer: Option<Node>) -> Node {
    Node::BindingElement { dot_dot_dot, property_name: property_name.map(b), name: b(name), initializer: initializer.map(b) }
}

fn object_pattern(elements: Vec<Node>) -> Node {
    Node::ObjectBindingPattern { elements, has_trailing_comma: false }
}

fn array_pattern(elements: Vec<Node>) -> Node {
    Node::ArrayBindingPattern { elements, has_trailing_comma: false }
}

fn pattern_function(pattern: Node) -> Node {
    function_signature(vec![], vec![full_param(pattern, false, false, None, None)], None)
}

fn jsx_attributes(properties: Vec<Node>) -> Node {
    Node::JsxAttributes { properties }
}

fn jsx_element(tag: fn() -> Node, type_arguments: Vec<Node>, properties: Vec<Node>, children: Vec<Node>) -> Node {
    Node::JsxElement {
        opening: b(Node::JsxOpeningElement { tag_name: b(tag()), type_arguments, attributes: b(jsx_attributes(properties)) }),
        children,
        closing: b(Node::JsxClosingElement { tag_name: b(tag()) }),
    }
}

fn jsx_self_closing(tag: Node, type_arguments: Vec<Node>, properties: Vec<Node>) -> Node {
    Node::JsxSelfClosingElement { tag_name: b(tag), type_arguments, attributes: b(jsx_attributes(properties)) }
}

fn jsx_expression(e: Node) -> Node {
    Node::JsxExpression { dot_dot_dot: false, expression: Some(b(e)) }
}

fn jsx_attribute(name: Node, initializer: Option<Node>) -> Node {
    Node::JsxAttribute { name: b(name), initializer: initializer.map(b) }
}

fn jsx_name(namespace: &str, name: &str) -> Node {
    Node::JsxNamespacedName { namespace: namespace.to_string(), name: name.to_string() }
}

fn type_parameter_full(name: &str, constraint: Option<Node>, default_type: Option<Node>) -> Node {
    Node::TypeParameter { modifiers: vec![], name: name.to_string(), constraint: constraint.map(b), default_type: default_type.map(b) }
}

fn ta() -> Node {
    ident("a")
}

fn tag_a() -> Node {
    ident("a")
}

fn tag_b() -> Node {
    ident("b")
}

fn tag_c() -> Node {
    ident("c")
}

fn tag_this() -> Node {
    kw(ExpressionKeyword::This)
}

fn tag_ab_name() -> Node {
    jsx_name("a", "b")
}

fn tag_a_dot_b() -> Node {
    prop(ident("a"), "b", false, false)
}

/// The rest of the table: declarations, imports and exports, types, class
/// and interface members, parameters, binding patterns and JSX.
fn buildable_declaration_cases() -> Vec<(&'static str, Vec<Node>)> {
    let a = || ident("a");
    let e = || Node::EmptyStatement;
    let blk = || empty_block();
    let export_default = || vec![m(ModifierKind::Export), m(ModifierKind::Default)];
    let heritage_bcd = || vec![heritage(false, &["b"]), heritage(true, &["c", "d"])];
    let else_if = |then_statement: Node, inner_then: Node| {
        if_statement(then_statement, Some(Node::IfStatement { expression: b(ident("b")), then_statement: b(inner_then), else_statement: None }))
    };
    let tb = || tref("b");
    let tc = || tref("c");
    let pa = || param("a");
    let pb = || param("b");
    vec![
        ("NoSubstitutionTemplateLiteral#2", vec![stmt(Node::NoSubstitutionTemplateLiteral("\n".to_string()))]),
        (
            "ClassExpression#13",
            vec![stmt(Node::ParenthesizedExpression(b(Node::ClassExpression {
                modifiers: vec![decorator("a")],
                name: None,
                type_parameters: vec![],
                heritage_clauses: vec![],
                members: vec![],
            })))],
        ),
        ("VariableStatement#4", vec![variable(VariableKind::Using, "a", Some(ident("b")))]),
        ("VariableStatement#5", vec![variable(VariableKind::AwaitUsing, "a", Some(ident("b")))]),
        ("IfStatement#4", vec![else_if(e(), e())]),
        ("IfStatement#5", vec![else_if(e(), blk())]),
        ("IfStatement#9", vec![else_if(blk(), e())]),
        ("IfStatement#10", vec![else_if(blk(), blk())]),
        ("ForInStatement#3", vec![Node::ForInStatement { initializer: b(a()), expression: b(ident("b")), statement: b(blk()) }]),
        (
            "ForOfStatement#2",
            vec![Node::ForOfStatement {
                is_await: false,
                initializer: b(declaration_list(VariableKind::Var, "a")),
                expression: b(ident("b")),
                statement: b(e()),
            }],
        ),
        ("ForOfStatement#3", vec![Node::ForOfStatement { is_await: false, initializer: b(a()), expression: b(ident("b")), statement: b(blk()) }]),
        (
            "ForOfStatement#5",
            vec![Node::ForOfStatement {
                is_await: true,
                initializer: b(declaration_list(VariableKind::Var, "a")),
                expression: b(ident("b")),
                statement: b(e()),
            }],
        ),
        ("ClassDeclaration#6", vec![class_declaration(vec![], Some("a"), vec![], heritage_bcd())]),
        ("ClassDeclaration#10", vec![class_declaration(export_default(), None, vec![], vec![heritage(true, &["b"])])]),
        ("ClassDeclaration#11", vec![class_declaration(export_default(), None, vec![], vec![heritage(true, &["b", "c"])])]),
        ("ClassDeclaration#12", vec![class_declaration(export_default(), None, vec![], heritage_bcd())]),
        ("ClassDeclaration#13", vec![class_declaration(vec![decorator("a")], Some("b"), vec![], vec![])]),
        ("ClassDeclaration#14", vec![class_declaration(vec![decorator("a"), m(ModifierKind::Export)], Some("b"), vec![], vec![])]),
        ("ClassDeclaration#15", vec![class_declaration(vec![m(ModifierKind::Export), decorator("a")], Some("b"), vec![], vec![])]),
        (
            "InterfaceDeclaration#3",
            vec![Node::InterfaceDeclaration {
                modifiers: vec![],
                name: "a".to_string(),
                type_parameters: vec![],
                heritage_clauses: vec![heritage(false, &["b"])],
                members: vec![],
            }],
        ),
        ("ModuleDeclaration#1", vec![module(ModuleKeyword::Module, a(), Some(module_block()))]),
        ("ModuleDeclaration#2", vec![module(ModuleKeyword::Module, a(), Some(module(ModuleKeyword::Module, ident("b"), Some(module_block()))))]),
        ("ModuleDeclaration#3", vec![module(ModuleKeyword::Module, st("a"), None)]),
        ("ModuleDeclaration#4", vec![module(ModuleKeyword::Module, st("a"), Some(module_block()))]),
        ("ModuleDeclaration#5", vec![module(ModuleKeyword::Namespace, a(), Some(module_block()))]),
        (
            "ModuleDeclaration#6",
            vec![module(ModuleKeyword::Namespace, a(), Some(module(ModuleKeyword::Namespace, ident("b"), Some(module_block()))))],
        ),
        ("ModuleDeclaration#7", vec![module(ModuleKeyword::Global, ident("global"), None)]),
        ("ModuleDeclaration#8", vec![module(ModuleKeyword::Global, ident("global"), Some(module_block()))]),
        (
            "ImportEqualsDeclaration#2",
            vec![Node::ImportEqualsDeclaration {
                modifiers: vec![],
                is_type_only: false,
                name: "a".to_string(),
                module_reference: b(prop(ident("b"), "c", false, false)),
            }],
        ),
        (
            "ImportEqualsDeclaration#3",
            vec![Node::ImportEqualsDeclaration {
                modifiers: vec![],
                is_type_only: false,
                name: "a".to_string(),
                module_reference: b(Node::ExternalModuleReference(b(st("b")))),
            }],
        ),
        (
            "ImportEqualsDeclaration#4",
            vec![Node::ImportEqualsDeclaration {
                modifiers: vec![m(ModifierKind::Export)],
                is_type_only: false,
                name: "a".to_string(),
                module_reference: b(ident("b")),
            }],
        ),
        (
            "ImportEqualsDeclaration#5",
            vec![Node::ImportEqualsDeclaration {
                modifiers: vec![m(ModifierKind::Export)],
                is_type_only: false,
                name: "a".to_string(),
                module_reference: b(Node::ExternalModuleReference(b(st("b")))),
            }],
        ),
        (
            "ImportEqualsDeclaration#6",
            vec![Node::ImportEqualsDeclaration { modifiers: vec![], is_type_only: true, name: "a".to_string(), module_reference: b(ident("b")) }],
        ),
        (
            "ImportEqualsDeclaration#7",
            vec![Node::ImportEqualsDeclaration {
                modifiers: vec![],
                is_type_only: true,
                name: "a".to_string(),
                module_reference: b(prop(ident("b"), "c", false, false)),
            }],
        ),
        ("ImportDeclaration#1", vec![import_declaration(None, "a", None)]),
        ("ImportDeclaration#2", vec![import_declaration(Some(import_clause(None, Some("a"), None)), "b", None)]),
        ("ImportDeclaration#3", vec![import_declaration(Some(import_clause(Some(ImportPhase::Type), Some("a"), None)), "b", None)]),
        (
            "ImportDeclaration#4",
            vec![import_declaration(Some(import_clause(None, None, Some(Node::NamespaceImport { name: "a".to_string() }))), "b", None)],
        ),
        (
            "ImportDeclaration#5",
            vec![import_declaration(
                Some(import_clause(Some(ImportPhase::Type), None, Some(Node::NamespaceImport { name: "a".to_string() }))),
                "b",
                None,
            )],
        ),
        ("ImportDeclaration#6", vec![import_declaration(Some(import_clause(None, None, Some(named_imports(vec![])))), "b", None)]),
        (
            "ImportDeclaration#7",
            vec![import_declaration(Some(import_clause(Some(ImportPhase::Type), None, Some(named_imports(vec![])))), "b", None)],
        ),
        (
            "ImportDeclaration#8",
            vec![import_declaration(Some(import_clause(None, None, Some(named_imports(vec![import_specifier(None, "a")])))), "b", None)],
        ),
        (
            "ImportDeclaration#9",
            vec![import_declaration(
                Some(import_clause(Some(ImportPhase::Type), None, Some(named_imports(vec![import_specifier(None, "a")])))),
                "b",
                None,
            )],
        ),
        (
            "ImportDeclaration#8",
            vec![import_declaration(
                Some(import_clause(None, None, Some(named_imports(vec![import_specifier(Some(a()), "b")])))),
                "c",
                None,
            )],
        ),
        (
            "ImportDeclaration#9",
            vec![import_declaration(
                Some(import_clause(Some(ImportPhase::Type), None, Some(named_imports(vec![import_specifier(Some(a()), "b")])))),
                "c",
                None,
            )],
        ),
        (
            "ImportDeclaration#10",
            vec![import_declaration(
                Some(import_clause(None, None, Some(named_imports(vec![import_specifier(Some(st("a")), "b")])))),
                "c",
                None,
            )],
        ),
        (
            "ImportDeclaration#11",
            vec![import_declaration(
                Some(import_clause(Some(ImportPhase::Type), None, Some(named_imports(vec![import_specifier(Some(st("a")), "b")])))),
                "c",
                None,
            )],
        ),
        ("ImportDeclaration#12", vec![import_declaration(Some(import_clause(None, Some("a"), Some(named_imports(vec![])))), "b", None)]),
        (
            "ImportDeclaration#13",
            vec![import_declaration(Some(import_clause(None, Some("a"), Some(Node::NamespaceImport { name: "b".to_string() }))), "c", None)],
        ),
        (
            "ImportDeclaration#14",
            vec![import_declaration(Some(import_clause(None, None, Some(named_imports(vec![])))), "a", Some(attributes(vec![])))],
        ),
        (
            "ImportDeclaration#15",
            vec![import_declaration(
                Some(import_clause(None, None, Some(named_imports(vec![])))),
                "a",
                Some(attributes(vec![attribute(ident("b"), "c")])),
            )],
        ),
        (
            "ImportDeclaration#16",
            vec![import_declaration(
                Some(import_clause(None, None, Some(named_imports(vec![])))),
                "a",
                Some(attributes(vec![attribute(st("b"), "c")])),
            )],
        ),
        ("ExportDeclaration#1", vec![export_declaration(false, None, Some("a"), None)]),
        ("ExportDeclaration#2", vec![export_declaration(true, None, Some("a"), None)]),
        ("ExportDeclaration#3", vec![export_declaration(false, Some(Node::NamespaceExport { name: b(a()) }), Some("b"), None)]),
        ("ExportDeclaration#4", vec![export_declaration(true, Some(Node::NamespaceExport { name: b(a()) }), Some("b"), None)]),
        ("ExportDeclaration#5", vec![export_declaration(false, Some(named_exports(vec![])), Some("a"), None)]),
        ("ExportDeclaration#6", vec![export_declaration(true, Some(named_exports(vec![])), Some("a"), None)]),
        ("ExportDeclaration#7", vec![export_declaration(false, Some(named_exports(vec![export_specifier(false, None, a())])), Some("b"), None)]),
        ("ExportDeclaration#8", vec![export_declaration(false, Some(named_exports(vec![export_specifier(true, None, a())])), Some("b"), None)]),
        ("ExportDeclaration#9", vec![export_declaration(true, Some(named_exports(vec![export_specifier(false, None, a())])), Some("b"), None)]),
        (
            "ExportDeclaration#10",
            vec![export_declaration(false, Some(named_exports(vec![export_specifier(false, Some(a()), ident("b"))])), Some("c"), None)],
        ),
        (
            "ExportDeclaration#11",
            vec![export_declaration(false, Some(named_exports(vec![export_specifier(true, Some(a()), ident("b"))])), Some("c"), None)],
        ),
        (
            "ExportDeclaration#12",
            vec![export_declaration(true, Some(named_exports(vec![export_specifier(false, Some(a()), ident("b"))])), Some("c"), None)],
        ),
        (
            "ExportDeclaration#13",
            vec![export_declaration(false, Some(named_exports(vec![export_specifier(false, Some(a()), st("b"))])), Some("c"), None)],
        ),
        (
            "ExportDeclaration#14",
            vec![export_declaration(false, Some(named_exports(vec![export_specifier(true, Some(a()), st("b"))])), Some("c"), None)],
        ),
        (
            "ExportDeclaration#15",
            vec![export_declaration(true, Some(named_exports(vec![export_specifier(false, Some(a()), st("b"))])), Some("c"), None)],
        ),
        ("ExportDeclaration#16", vec![export_declaration(false, Some(named_exports(vec![export_specifier(false, None, st("a"))])), Some("b"), None)]),
        ("ExportDeclaration#17", vec![export_declaration(false, Some(named_exports(vec![export_specifier(true, None, st("a"))])), Some("b"), None)]),
        ("ExportDeclaration#18", vec![export_declaration(true, Some(named_exports(vec![export_specifier(false, None, st("a"))])), Some("b"), None)]),
        (
            "ExportDeclaration#19",
            vec![export_declaration(false, Some(named_exports(vec![export_specifier(false, Some(st("a")), ident("b"))])), Some("c"), None)],
        ),
        (
            "ExportDeclaration#20",
            vec![export_declaration(false, Some(named_exports(vec![export_specifier(true, Some(st("a")), ident("b"))])), Some("c"), None)],
        ),
        (
            "ExportDeclaration#21",
            vec![export_declaration(true, Some(named_exports(vec![export_specifier(false, Some(st("a")), ident("b"))])), Some("c"), None)],
        ),
        (
            "ExportDeclaration#22",
            vec![export_declaration(false, Some(named_exports(vec![export_specifier(false, Some(st("a")), st("b"))])), Some("c"), None)],
        ),
        (
            "ExportDeclaration#23",
            vec![export_declaration(false, Some(named_exports(vec![export_specifier(true, Some(st("a")), st("b"))])), Some("c"), None)],
        ),
        (
            "ExportDeclaration#24",
            vec![export_declaration(true, Some(named_exports(vec![export_specifier(false, Some(st("a")), st("b"))])), Some("c"), None)],
        ),
        ("ExportDeclaration#25", vec![export_declaration(false, Some(named_exports(vec![])), None, None)]),
        ("ExportDeclaration#26", vec![export_declaration(true, Some(named_exports(vec![])), None, None)]),
        ("ExportDeclaration#27", vec![export_declaration(false, Some(named_exports(vec![export_specifier(false, None, a())])), None, None)]),
        ("ExportDeclaration#28", vec![export_declaration(false, Some(named_exports(vec![export_specifier(true, None, a())])), None, None)]),
        ("ExportDeclaration#29", vec![export_declaration(true, Some(named_exports(vec![export_specifier(false, None, a())])), None, None)]),
        ("ExportDeclaration#30", vec![export_declaration(false, Some(named_exports(vec![export_specifier(false, Some(a()), ident("b"))])), None, None)]),
        ("ExportDeclaration#31", vec![export_declaration(false, Some(named_exports(vec![export_specifier(true, Some(a()), ident("b"))])), None, None)]),
        ("ExportDeclaration#32", vec![export_declaration(true, Some(named_exports(vec![export_specifier(false, Some(a()), ident("b"))])), None, None)]),
        ("ExportDeclaration#33", vec![export_declaration(false, Some(named_exports(vec![export_specifier(false, Some(a()), st("b"))])), None, None)]),
        ("ExportDeclaration#34", vec![export_declaration(false, Some(named_exports(vec![export_specifier(true, Some(a()), st("b"))])), None, None)]),
        ("ExportDeclaration#35", vec![export_declaration(true, Some(named_exports(vec![export_specifier(false, Some(a()), st("b"))])), None, None)]),
        ("ExportDeclaration#36", vec![export_declaration(false, Some(named_exports(vec![])), Some("a"), Some(attributes(vec![])))]),
        (
            "ExportDeclaration#37",
            vec![export_declaration(false, Some(named_exports(vec![])), Some("a"), Some(attributes(vec![attribute(ident("b"), "c")])))],
        ),
        (
            "ExportDeclaration#38",
            vec![export_declaration(false, Some(named_exports(vec![])), Some("a"), Some(attributes(vec![attribute(st("b"), "c")])))],
        ),
        ("KeywordTypeNode#6", vec![alias(Node::LiteralType(b(kw(ExpressionKeyword::Null))))]),
        (
            "TypePredicateNode#1",
            vec![function_signature(vec![], vec![], Some(Node::TypePredicate { asserts: true, parameter_name: b(a()), type_node: None }))],
        ),
        (
            "TypePredicateNode#2",
            vec![function_signature(vec![], vec![], Some(Node::TypePredicate { asserts: true, parameter_name: b(a()), type_node: Some(b(tb())) }))],
        ),
        (
            "TypePredicateNode#3",
            vec![function_signature(vec![], vec![], Some(Node::TypePredicate { asserts: true, parameter_name: b(Node::ThisType), type_node: None }))],
        ),
        (
            "TypePredicateNode#4",
            vec![function_signature(
                vec![],
                vec![],
                Some(Node::TypePredicate { asserts: true, parameter_name: b(Node::ThisType), type_node: Some(b(tb())) }),
            )],
        ),
        ("TypeReferenceNode#1", vec![alias(tref("a"))]),
        ("TypeReferenceNode#2", vec![alias(tref("a.b"))]),
        ("TypeReferenceNode#4", vec![alias(tref_args("a.b", vec![tref("U")]))]),
        ("FunctionTypeNode#1", vec![alias(Node::FunctionType { type_parameters: vec![], parameters: vec![], return_type: b(tref("a")) })]),
        (
            "FunctionTypeNode#2",
            vec![alias(Node::FunctionType { type_parameters: vec![type_param("T")], parameters: vec![], return_type: b(tref("a")) })],
        ),
        ("FunctionTypeNode#3", vec![alias(Node::FunctionType { type_parameters: vec![], parameters: vec![pa()], return_type: b(tb()) })]),
        (
            "ConstructorTypeNode#1",
            vec![alias(Node::ConstructorType { modifiers: vec![], type_parameters: vec![], parameters: vec![], return_type: b(tref("a")) })],
        ),
        (
            "ConstructorTypeNode#2",
            vec![alias(Node::ConstructorType { modifiers: vec![], type_parameters: vec![type_param("T")], parameters: vec![], return_type: b(tref("a")) })],
        ),
        (
            "ConstructorTypeNode#3",
            vec![alias(Node::ConstructorType { modifiers: vec![], type_parameters: vec![], parameters: vec![pa()], return_type: b(tb()) })],
        ),
        (
            "ConstructorTypeNode#4",
            vec![alias(Node::ConstructorType {
                modifiers: vec![m(ModifierKind::Abstract)],
                type_parameters: vec![],
                parameters: vec![],
                return_type: b(tref("a")),
            })],
        ),
        ("TypeQueryNode#1", vec![alias(Node::TypeQuery { name: "a".to_string(), type_arguments: vec![] })]),
        ("TypeQueryNode#2", vec![alias(Node::TypeQuery { name: "a.b".to_string(), type_arguments: vec![] })]),
        ("TypeQueryNode#3", vec![alias(Node::TypeQuery { name: "a".to_string(), type_arguments: vec![tref("U")] })]),
        ("TypeLiteralNode#1", vec![alias(Node::TypeLiteral { members: vec![], single_line: false })]),
        (
            "TypeLiteralNode#2",
            vec![alias(Node::TypeLiteral { members: vec![property_signature(vec![], a(), false, None)], single_line: false })],
        ),
        ("ArrayTypeNode", vec![alias(Node::ArrayType(b(tref("a"))))]),
        ("TupleTypeNode#1", vec![alias(Node::TupleType { elements: vec![], single_line: false })]),
        ("TupleTypeNode#2", vec![alias(Node::TupleType { elements: vec![tref("a")], single_line: false })]),
        ("TupleTypeNode#3", vec![alias(Node::TupleType { elements: vec![tref("a")], single_line: false })]),
        ("RestTypeNode", vec![alias(Node::TupleType { elements: vec![Node::RestType(b(tref("a")))], single_line: false })]),
        ("OptionalTypeNode", vec![alias(Node::TupleType { elements: vec![Node::OptionalType(b(tref("a")))], single_line: false })]),
        (
            "NamedTupleMember#1",
            vec![alias(Node::TupleType {
                elements: vec![Node::NamedTupleMember { dot_dot_dot: false, name: "a".to_string(), question: false, type_node: b(tb()) }],
                single_line: false,
            })],
        ),
        (
            "NamedTupleMember#2",
            vec![alias(Node::TupleType {
                elements: vec![Node::NamedTupleMember { dot_dot_dot: false, name: "a".to_string(), question: true, type_node: b(tb()) }],
                single_line: false,
            })],
        ),
        (
            "NamedTupleMember#3",
            vec![alias(Node::TupleType {
                elements: vec![Node::NamedTupleMember { dot_dot_dot: true, name: "a".to_string(), question: false, type_node: b(tb()) }],
                single_line: false,
            })],
        ),
        ("UnionTypeNode#1", vec![alias(Node::UnionType(vec![tref("a"), tb()]))]),
        ("UnionTypeNode#2", vec![alias(Node::UnionType(vec![tref("a"), tb(), tc()]))]),
        ("UnionTypeNode#3", vec![alias(Node::UnionType(vec![tref("a"), tb()]))]),
        ("IntersectionTypeNode#1", vec![alias(Node::IntersectionType(vec![tref("a"), tb()]))]),
        ("IntersectionTypeNode#2", vec![alias(Node::IntersectionType(vec![tref("a"), tb(), tc()]))]),
        ("IntersectionTypeNode#3", vec![alias(Node::IntersectionType(vec![tref("a"), tb()]))]),
        (
            "ConditionalTypeNode",
            vec![alias(Node::ConditionalType { check_type: b(tref("a")), extends_type: b(tb()), true_type: b(tc()), false_type: b(tref("d")) })],
        ),
        (
            "InferTypeNode#1",
            vec![alias(Node::ConditionalType {
                check_type: b(tref("a")),
                extends_type: b(Node::InferType { name: "b".to_string(), constraint: None }),
                true_type: b(tc()),
                false_type: b(tref("d")),
            })],
        ),
        (
            "InferTypeNode#2",
            vec![alias(Node::ConditionalType {
                check_type: b(tref("a")),
                extends_type: b(Node::InferType { name: "b".to_string(), constraint: Some(b(tc())) }),
                true_type: b(tref("d")),
                false_type: b(tref("e")),
            })],
        ),
        ("ParenthesizedTypeNode", vec![alias(Node::ParenthesizedType(b(tref("U"))))]),
        ("ThisTypeNode", vec![alias(Node::ThisType)]),
        ("TypeOperatorNode#1", vec![alias(Node::TypeOperator { operator: TypeOperatorKind::KeyOf, type_node: b(tref("U")) })]),
        (
            "TypeOperatorNode#2",
            vec![alias(Node::TypeOperator { operator: TypeOperatorKind::Readonly, type_node: b(Node::ArrayType(b(tref("U")))) })],
        ),
        (
            "TypeOperatorNode#3",
            vec![alias(Node::TypeOperator { operator: TypeOperatorKind::Unique, type_node: b(Node::KeywordType(TypeKeyword::Symbol)) })],
        ),
        ("IndexedAccessTypeNode", vec![alias(Node::IndexedAccessType { object_type: b(tref("a")), index_type: b(tb()) })]),
        (
            "IndexedAccessTypeNode with TypeQueryNode",
            vec![alias(Node::IndexedAccessType {
                object_type: b(Node::TypeQuery { name: "a".to_string(), type_arguments: vec![] }),
                index_type: b(Node::LiteralType(b(sq("b")))),
            })],
        ),
        ("MappedTypeNode#1", vec![mapped(None, None, None, vec![])]),
        ("MappedTypeNode#2", vec![mapped(None, Some(tc()), None, vec![])]),
        ("MappedTypeNode#3", vec![mapped(Some(MappedTypeModifier::Bare), None, None, vec![])]),
        ("MappedTypeNode#4", vec![mapped(Some(MappedTypeModifier::Plus), None, None, vec![])]),
        ("MappedTypeNode#5", vec![mapped(Some(MappedTypeModifier::Minus), None, None, vec![])]),
        ("MappedTypeNode#6", vec![mapped(None, None, Some(MappedTypeModifier::Bare), vec![])]),
        ("MappedTypeNode#7", vec![mapped(None, None, Some(MappedTypeModifier::Plus), vec![])]),
        ("MappedTypeNode#8", vec![mapped(None, None, Some(MappedTypeModifier::Minus), vec![])]),
        ("MappedTypeNode#9", vec![mapped(None, None, None, vec![property_signature(vec![], ident("d"), false, None)])]),
        ("LiteralTypeNode#1", vec![alias(Node::LiteralType(b(kw(ExpressionKeyword::Null))))]),
        ("LiteralTypeNode#2", vec![alias(Node::LiteralType(b(kw(ExpressionKeyword::True))))]),
        ("LiteralTypeNode#3", vec![alias(Node::LiteralType(b(kw(ExpressionKeyword::False))))]),
        ("LiteralTypeNode#4", vec![alias(Node::LiteralType(b(st(""))))]),
        ("LiteralTypeNode#5", vec![alias(Node::LiteralType(b(sq(""))))]),
        ("LiteralTypeNode#6", vec![alias(Node::LiteralType(b(Node::NoSubstitutionTemplateLiteral(String::new()))))]),
        ("LiteralTypeNode#7", vec![alias(Node::LiteralType(b(num("0"))))]),
        ("LiteralTypeNode#8", vec![alias(Node::LiteralType(b(Node::BigIntLiteral("0n".to_string()))))]),
        ("LiteralTypeNode#9", vec![alias(Node::LiteralType(b(prefix(PrefixOperator::Minus, num("0")))))]),
        ("LiteralTypeNode#10", vec![alias(Node::LiteralType(b(prefix(PrefixOperator::Minus, Node::BigIntLiteral("0n".to_string())))))]),
        (
            "TemplateTypeNode#1",
            vec![alias(Node::TemplateLiteralType {
                head: "a".to_string(),
                spans: vec![Node::TemplateLiteralTypeSpan { type_node: b(tb()), literal: "c".to_string(), is_tail: true }],
            })],
        ),
        (
            "TemplateTypeNode#2",
            vec![alias(Node::TemplateLiteralType {
                head: "a".to_string(),
                spans: vec![
                    Node::TemplateLiteralTypeSpan { type_node: b(tb()), literal: "c".to_string(), is_tail: false },
                    Node::TemplateLiteralTypeSpan { type_node: b(tref("d")), literal: "e".to_string(), is_tail: true },
                ],
            })],
        ),
        ("ImportTypeNode#1", vec![alias(Node::ImportType { is_type_of: false, argument: b(tref("a")), qualifier: None, type_arguments: vec![], attributes: None })]),
        (
            "ImportTypeNode#2",
            vec![alias(Node::ImportType { is_type_of: false, argument: b(tref("a")), qualifier: Some(b(ident("b"))), type_arguments: vec![], attributes: None })],
        ),
        (
            "ImportTypeNode#3",
            vec![alias(Node::ImportType {
                is_type_of: false,
                argument: b(tref("a")),
                qualifier: Some(b(ident("b"))),
                type_arguments: vec![tref("U")],
                attributes: None,
            })],
        ),
        ("ImportTypeNode#4", vec![alias(Node::ImportType { is_type_of: true, argument: b(tref("a")), qualifier: None, type_arguments: vec![], attributes: None })]),
        (
            "ImportTypeNode#5",
            vec![alias(Node::ImportType { is_type_of: true, argument: b(tref("a")), qualifier: Some(b(ident("b"))), type_arguments: vec![], attributes: None })],
        ),
        (
            "ImportTypeNode#6",
            vec![alias(Node::ImportType {
                is_type_of: false,
                argument: b(tref("a")),
                attributes: Some(b(attributes(vec![]))),
                qualifier: None,
                type_arguments: vec![],
            })],
        ),
        (
            "ImportTypeNode#6",
            vec![alias(Node::ImportType {
                is_type_of: false,
                argument: b(tref("a")),
                attributes: Some(b(attributes(vec![attribute(ident("b"), "c")]))),
                qualifier: None,
                type_arguments: vec![],
            })],
        ),
        (
            "ImportTypeNode#7",
            vec![alias(Node::ImportType {
                is_type_of: false,
                argument: b(tref("a")),
                attributes: Some(b(attributes(vec![attribute(st("b"), "c")]))),
                qualifier: None,
                type_arguments: vec![],
            })],
        ),
        ("PropertySignature#1", vec![interface(vec![property_signature(vec![], a(), false, None)])]),
        ("PropertySignature#2", vec![interface(vec![property_signature(vec![m(ModifierKind::Readonly)], a(), false, None)])]),
        ("PropertySignature#3", vec![interface(vec![property_signature(vec![], st("a"), false, None)])]),
        ("PropertySignature#4", vec![interface(vec![property_signature(vec![], sq("a"), false, None)])]),
        ("PropertySignature#5", vec![interface(vec![property_signature(vec![], num("0"), false, None)])]),
        ("PropertySignature#6", vec![interface(vec![property_signature(vec![], Node::BigIntLiteral("0n".to_string()), false, None)])]),
        ("PropertySignature#7", vec![interface(vec![property_signature(vec![], computed("a"), false, None)])]),
        ("PropertySignature#8", vec![interface(vec![property_signature(vec![], a(), true, None)])]),
        ("PropertySignature#9", vec![interface(vec![property_signature(vec![], a(), false, Some(tb()))])]),
        ("MethodSignature#1", vec![interface(vec![method_signature(a(), false, vec![], vec![], None)])]),
        ("MethodSignature#2", vec![interface(vec![method_signature(st("a"), false, vec![], vec![], None)])]),
        ("MethodSignature#3", vec![interface(vec![method_signature(sq("a"), false, vec![], vec![], None)])]),
        ("MethodSignature#4", vec![interface(vec![method_signature(num("0"), false, vec![], vec![], None)])]),
        ("MethodSignature#5", vec![interface(vec![method_signature(Node::BigIntLiteral("0n".to_string()), false, vec![], vec![], None)])]),
        ("MethodSignature#6", vec![interface(vec![method_signature(computed("a"), false, vec![], vec![], None)])]),
        ("MethodSignature#7", vec![interface(vec![method_signature(a(), true, vec![], vec![], None)])]),
        ("MethodSignature#8", vec![interface(vec![method_signature(a(), false, vec![type_param("T")], vec![], None)])]),
        ("MethodSignature#9", vec![interface(vec![method_signature(a(), false, vec![], vec![], Some(tb()))])]),
        ("MethodSignature#10", vec![interface(vec![method_signature(a(), false, vec![], vec![pb()], Some(tc()))])]),
        ("CallSignature#1", vec![interface(vec![Node::CallSignature { type_parameters: vec![], parameters: vec![], type_node: None }])]),
        ("CallSignature#2", vec![interface(vec![Node::CallSignature { type_parameters: vec![], parameters: vec![], type_node: Some(b(tref("a"))) }])]),
        ("CallSignature#3", vec![interface(vec![Node::CallSignature { type_parameters: vec![], parameters: vec![param("p")], type_node: None }])]),
        ("CallSignature#4", vec![interface(vec![Node::CallSignature { type_parameters: vec![type_param("T")], parameters: vec![], type_node: None }])]),
        ("ConstructSignature#1", vec![interface(vec![Node::ConstructSignature { type_parameters: vec![], parameters: vec![], type_node: None }])]),
        (
            "ConstructSignature#2",
            vec![interface(vec![Node::ConstructSignature { type_parameters: vec![], parameters: vec![], type_node: Some(b(tref("a"))) }])],
        ),
        ("ConstructSignature#3", vec![interface(vec![Node::ConstructSignature { type_parameters: vec![], parameters: vec![param("p")], type_node: None }])]),
        (
            "ConstructSignature#4",
            vec![interface(vec![Node::ConstructSignature { type_parameters: vec![type_param("T")], parameters: vec![], type_node: None }])],
        ),
        ("IndexSignatureDeclaration#1", vec![interface(vec![property_signature(vec![], computed("a"), false, None)])]),
        (
            "IndexSignatureDeclaration#2",
            vec![interface(vec![Node::IndexSignature { modifiers: vec![], parameters: vec![full_param(a(), false, false, Some(tb()), None)], type_node: None }])],
        ),
        (
            "IndexSignatureDeclaration#3",
            vec![interface(vec![Node::IndexSignature {
                modifiers: vec![],
                parameters: vec![full_param(a(), false, false, Some(tb()), None)],
                type_node: Some(b(tc())),
            }])],
        ),
        ("PropertyDeclaration#1", vec![class_c(vec![property_declaration(vec![], a(), false, None, None)])]),
        ("PropertyDeclaration#2", vec![class_c(vec![property_declaration(vec![m(ModifierKind::Readonly)], a(), false, None, None)])]),
        ("PropertyDeclaration#3", vec![class_c(vec![property_declaration(vec![m(ModifierKind::Static)], a(), false, None, None)])]),
        ("PropertyDeclaration#4", vec![class_c(vec![property_declaration(vec![m(ModifierKind::Accessor)], a(), false, None, None)])]),
        ("PropertyDeclaration#5", vec![class_c(vec![property_declaration(vec![], st("a"), false, None, None)])]),
        ("PropertyDeclaration#6", vec![class_c(vec![property_declaration(vec![], sq("a"), false, None, None)])]),
        ("PropertyDeclaration#7", vec![class_c(vec![property_declaration(vec![], num("0"), false, None, None)])]),
        ("PropertyDeclaration#8", vec![class_c(vec![property_declaration(vec![], Node::BigIntLiteral("0n".to_string()), false, None, None)])]),
        ("PropertyDeclaration#9", vec![class_c(vec![property_declaration(vec![], computed("a"), false, None, None)])]),
        ("PropertyDeclaration#10", vec![class_c(vec![property_declaration(vec![], Node::PrivateIdentifier("#a".to_string()), false, None, None)])]),
        ("PropertyDeclaration#11", vec![class_c(vec![property_declaration(vec![], a(), true, None, None)])]),
        (
            "PropertyDeclaration#12",
            vec![class_c(vec![Node::PropertyDeclaration {
                modifiers: vec![],
                name: b(a()),
                question: false,
                exclamation: true,
                type_node: None,
                initializer: None,
            }])],
        ),
        ("PropertyDeclaration#13", vec![class_c(vec![property_declaration(vec![], a(), false, Some(tb()), None)])]),
        ("PropertyDeclaration#14", vec![class_c(vec![property_declaration(vec![], a(), false, None, Some(ident("b")))])]),
        ("PropertyDeclaration#15", vec![class_c(vec![property_declaration(vec![decorator("a")], ident("b"), false, None, None)])]),
        ("MethodDeclaration#1", vec![class_c(vec![method(vec![], a(), false, vec![], vec![], None, None)])]),
        ("MethodDeclaration#2", vec![class_c(vec![method(vec![], st("a"), false, vec![], vec![], None, None)])]),
        ("MethodDeclaration#3", vec![class_c(vec![method(vec![], sq("a"), false, vec![], vec![], None, None)])]),
        ("MethodDeclaration#4", vec![class_c(vec![method(vec![], num("0"), false, vec![], vec![], None, None)])]),
        ("MethodDeclaration#5", vec![class_c(vec![method(vec![], Node::BigIntLiteral("0n".to_string()), false, vec![], vec![], None, None)])]),
        ("MethodDeclaration#6", vec![class_c(vec![method(vec![], computed("a"), false, vec![], vec![], None, None)])]),
        ("MethodDeclaration#7", vec![class_c(vec![method(vec![], Node::PrivateIdentifier("#a".to_string()), false, vec![], vec![], None, None)])]),
        ("MethodDeclaration#8", vec![class_c(vec![method(vec![], a(), true, vec![], vec![], None, None)])]),
        ("MethodDeclaration#9", vec![class_c(vec![method(vec![], a(), false, vec![type_param("T")], vec![], None, None)])]),
        ("MethodDeclaration#10", vec![class_c(vec![method(vec![], a(), false, vec![], vec![], Some(tb()), None)])]),
        ("MethodDeclaration#11", vec![class_c(vec![method(vec![], a(), false, vec![], vec![pb()], Some(tc()), None)])]),
        ("MethodDeclaration#12", vec![class_c(vec![method(vec![], a(), false, vec![], vec![], None, Some(blk()))])]),
        ("MethodDeclaration#13", vec![class_c(vec![method(vec![decorator("a")], ident("b"), false, vec![], vec![], None, Some(blk()))])]),
        ("MethodDeclaration#14", vec![class_c(vec![method(vec![m(ModifierKind::Static)], a(), false, vec![], vec![], None, Some(blk()))])]),
        ("MethodDeclaration#15", vec![class_c(vec![method(vec![m(ModifierKind::Async)], a(), false, vec![], vec![], None, Some(blk()))])]),
        ("GetAccessorDeclaration#1", vec![class_c(vec![get_accessor(vec![], a(), vec![], None, None)])]),
        ("GetAccessorDeclaration#2", vec![class_c(vec![get_accessor(vec![], st("a"), vec![], None, None)])]),
        ("GetAccessorDeclaration#3", vec![class_c(vec![get_accessor(vec![], sq("a"), vec![], None, None)])]),
        ("GetAccessorDeclaration#4", vec![class_c(vec![get_accessor(vec![], num("0"), vec![], None, None)])]),
        ("GetAccessorDeclaration#5", vec![class_c(vec![get_accessor(vec![], Node::BigIntLiteral("0n".to_string()), vec![], None, None)])]),
        ("GetAccessorDeclaration#6", vec![class_c(vec![get_accessor(vec![], computed("a"), vec![], None, None)])]),
        ("GetAccessorDeclaration#7", vec![class_c(vec![get_accessor(vec![], Node::PrivateIdentifier("#a".to_string()), vec![], None, None)])]),
        ("GetAccessorDeclaration#8", vec![class_c(vec![get_accessor(vec![], a(), vec![], Some(tb()), None)])]),
        ("GetAccessorDeclaration#9", vec![class_c(vec![get_accessor(vec![], a(), vec![pb()], Some(tc()), None)])]),
        ("GetAccessorDeclaration#10", vec![class_c(vec![get_accessor(vec![], a(), vec![], None, Some(blk()))])]),
        ("GetAccessorDeclaration#11", vec![class_c(vec![get_accessor(vec![decorator("a")], ident("b"), vec![], None, Some(blk()))])]),
        ("GetAccessorDeclaration#12", vec![class_c(vec![get_accessor(vec![m(ModifierKind::Static)], a(), vec![], None, Some(blk()))])]),
        ("SetAccessorDeclaration#1", vec![class_c(vec![set_accessor(vec![], a(), vec![], None, None)])]),
        ("SetAccessorDeclaration#2", vec![class_c(vec![set_accessor(vec![], st("a"), vec![], None, None)])]),
        ("SetAccessorDeclaration#3", vec![class_c(vec![set_accessor(vec![], sq("a"), vec![], None, None)])]),
        ("SetAccessorDeclaration#4", vec![class_c(vec![set_accessor(vec![], num("0"), vec![], None, None)])]),
        ("SetAccessorDeclaration#5", vec![class_c(vec![set_accessor(vec![], Node::BigIntLiteral("0n".to_string()), vec![], None, None)])]),
        ("SetAccessorDeclaration#6", vec![class_c(vec![set_accessor(vec![], computed("a"), vec![], None, None)])]),
        ("SetAccessorDeclaration#7", vec![class_c(vec![set_accessor(vec![], Node::PrivateIdentifier("#a".to_string()), vec![], None, None)])]),
        ("SetAccessorDeclaration#8", vec![class_c(vec![set_accessor(vec![], a(), vec![], Some(tb()), None)])]),
        ("SetAccessorDeclaration#9", vec![class_c(vec![set_accessor(vec![], a(), vec![pb()], Some(tc()), None)])]),
        ("SetAccessorDeclaration#10", vec![class_c(vec![set_accessor(vec![], a(), vec![], None, Some(blk()))])]),
        ("SetAccessorDeclaration#11", vec![class_c(vec![set_accessor(vec![decorator("a")], ident("b"), vec![], None, Some(blk()))])]),
        ("SetAccessorDeclaration#12", vec![class_c(vec![set_accessor(vec![m(ModifierKind::Static)], a(), vec![], None, Some(blk()))])]),
        ("ConstructorDeclaration#1", vec![class_c(vec![constructor(vec![], vec![], None, None)])]),
        ("ConstructorDeclaration#2", vec![class_c(vec![constructor(vec![], vec![], Some(tb()), None)])]),
        ("ConstructorDeclaration#3", vec![class_c(vec![constructor(vec![], vec![pb()], Some(tc()), None)])]),
        ("ConstructorDeclaration#4", vec![class_c(vec![constructor(vec![], vec![], None, Some(blk()))])]),
        ("ConstructorDeclaration#5", vec![class_c(vec![constructor(vec![decorator("a")], vec![], None, Some(blk()))])]),
        ("ConstructorDeclaration#6", vec![class_c(vec![constructor(vec![m(ModifierKind::Private)], vec![], None, Some(blk()))])]),
        ("ClassStaticBlockDeclaration", vec![class_c(vec![Node::ClassStaticBlockDeclaration { body: b(blk()) }])]),
        ("SemicolonClassElement#1", vec![class_c(vec![Node::SemicolonClassElement])]),
        ("ParameterDeclaration#1", vec![function_signature(vec![], vec![pa()], None)]),
        ("ParameterDeclaration#2", vec![function_signature(vec![], vec![full_param(a(), false, false, Some(tb()), None)], None)]),
        ("ParameterDeclaration#3", vec![function_signature(vec![], vec![full_param(a(), false, false, None, Some(ident("b")))], None)]),
        ("ParameterDeclaration#4", vec![function_signature(vec![], vec![full_param(a(), false, true, None, None)], None)]),
        ("ParameterDeclaration#5", vec![function_signature(vec![], vec![full_param(a(), true, false, None, None)], None)]),
        ("ParameterDeclaration#6", vec![function_signature(vec![], vec![param("this")], None)]),
        ("ObjectBindingPattern#1", vec![pattern_function(object_pattern(vec![]))]),
        ("ObjectBindingPattern#2", vec![pattern_function(object_pattern(vec![binding(false, None, a(), None)]))]),
        ("ObjectBindingPattern#3", vec![pattern_function(object_pattern(vec![binding(false, None, a(), Some(ident("b")))]))]),
        ("ObjectBindingPattern#4", vec![pattern_function(object_pattern(vec![binding(false, Some(a()), ident("b"), None)]))]),
        ("ObjectBindingPattern#5", vec![pattern_function(object_pattern(vec![binding(false, Some(a()), ident("b"), Some(ident("c")))]))]),
        ("ObjectBindingPattern#6", vec![pattern_function(object_pattern(vec![binding(false, Some(st("a")), ident("b"), None)]))]),
        ("ObjectBindingPattern#7", vec![pattern_function(object_pattern(vec![binding(false, Some(sq("a")), ident("b"), None)]))]),
        ("ObjectBindingPattern#8", vec![pattern_function(object_pattern(vec![binding(false, Some(num("0")), ident("b"), None)]))]),
        ("ObjectBindingPattern#9", vec![pattern_function(object_pattern(vec![binding(false, Some(computed("a")), ident("b"), None)]))]),
        ("ObjectBindingPattern#10", vec![pattern_function(object_pattern(vec![binding(true, None, a(), None)]))]),
        ("ObjectBindingPattern#11", vec![pattern_function(object_pattern(vec![binding(false, Some(a()), object_pattern(vec![]), None)]))]),
        ("ObjectBindingPattern#12", vec![pattern_function(object_pattern(vec![binding(false, Some(a()), array_pattern(vec![]), None)]))]),
        ("ArrayBindingPattern#1", vec![pattern_function(array_pattern(vec![]))]),
        (
            "ArrayBindingPattern#2",
            vec![pattern_function(Node::ArrayBindingPattern { elements: vec![Node::OmittedExpression], has_trailing_comma: true })],
        ),
        ("ArrayBindingPattern#3", vec![pattern_function(array_pattern(vec![binding(false, None, a(), None)]))]),
        ("ArrayBindingPattern#4", vec![pattern_function(array_pattern(vec![binding(false, None, a(), None), binding(false, None, ident("b"), None)]))]),
        (
            "ArrayBindingPattern#5",
            vec![pattern_function(array_pattern(vec![
                binding(false, None, a(), None),
                Node::OmittedExpression,
                binding(false, None, ident("b"), None),
            ]))],
        ),
        ("ArrayBindingPattern#6", vec![pattern_function(array_pattern(vec![binding(false, None, a(), Some(ident("b")))]))]),
        ("ArrayBindingPattern#7", vec![pattern_function(array_pattern(vec![binding(true, None, a(), None)]))]),
        ("ArrayBindingPattern#8", vec![pattern_function(array_pattern(vec![binding(false, None, object_pattern(vec![]), None)]))]),
        ("ArrayBindingPattern#9", vec![pattern_function(array_pattern(vec![binding(false, None, array_pattern(vec![]), None)]))]),
        ("TypeParameterDeclaration#1", vec![function_signature(vec![type_param("T")], vec![], None)]),
        (
            "TypeParameterDeclaration#2",
            vec![function_signature(
                vec![Node::TypeParameter {
                    modifiers: vec![Node::Modifier(ModifierKind::In)],
                    name: "T".to_string(),
                    constraint: None,
                    default_type: None,
                }],
                vec![],
                None,
            )],
        ),
        ("TypeParameterDeclaration#3", vec![function_signature(vec![type_parameter_full("T", Some(tref("U")), None)], vec![], None)]),
        ("TypeParameterDeclaration#4", vec![function_signature(vec![type_parameter_full("T", None, Some(tref("U")))], vec![], None)]),
        ("TypeParameterDeclaration#5", vec![function_signature(vec![type_parameter_full("T", Some(tref("U")), Some(tref("V")))], vec![], None)]),
        ("TypeParameterDeclaration#6", vec![function_signature(vec![type_param("T"), type_param("U")], vec![], None)]),
        ("JsxElement1", vec![stmt(jsx_element(tag_a, vec![], vec![], vec![]))]),
        ("JsxElement2", vec![stmt(jsx_element(tag_this, vec![], vec![], vec![]))]),
        ("JsxElement3", vec![stmt(jsx_element(tag_ab_name, vec![], vec![], vec![]))]),
        ("JsxElement4", vec![stmt(jsx_element(tag_a_dot_b, vec![], vec![], vec![]))]),
        ("JsxElement5", vec![stmt(jsx_element(tag_a, vec![tb()], vec![], vec![]))]),
        ("JsxElement6", vec![stmt(jsx_element(tag_a, vec![], vec![jsx_attribute(ident("b"), None)], vec![]))]),
        ("JsxElement7", vec![stmt(jsx_element(tag_a, vec![], vec![], vec![Node::JsxText("b".to_string())]))]),
        ("JsxElement8", vec![stmt(jsx_element(tag_a, vec![], vec![], vec![jsx_expression(ident("b"))]))]),
        ("JsxElement9", vec![stmt(jsx_element(tag_a, vec![], vec![], vec![jsx_element(tag_b, vec![], vec![], vec![])]))]),
        ("JsxElement10", vec![stmt(jsx_element(tag_a, vec![], vec![], vec![jsx_self_closing(ident("b"), vec![], vec![])]))]),
        ("JsxElement11", vec![stmt(jsx_element(tag_a, vec![], vec![], vec![Node::JsxFragment { children: vec![] }]))]),
        ("JsxSelfClosingElement1", vec![stmt(jsx_self_closing(a(), vec![], vec![]))]),
        ("JsxSelfClosingElement2", vec![stmt(jsx_self_closing(kw(ExpressionKeyword::This), vec![], vec![]))]),
        ("JsxSelfClosingElement3", vec![stmt(jsx_self_closing(jsx_name("a", "b"), vec![], vec![]))]),
        ("JsxSelfClosingElement4", vec![stmt(jsx_self_closing(prop(a(), "b", false, false), vec![], vec![]))]),
        ("JsxSelfClosingElement5", vec![stmt(jsx_self_closing(a(), vec![tb()], vec![]))]),
        ("JsxSelfClosingElement6", vec![stmt(jsx_self_closing(a(), vec![], vec![jsx_attribute(ident("b"), None)]))]),
        ("JsxFragment1", vec![stmt(Node::JsxFragment { children: vec![] })]),
        ("JsxFragment2", vec![stmt(Node::JsxFragment { children: vec![Node::JsxText("b".to_string())] })]),
        ("JsxFragment3", vec![stmt(Node::JsxFragment { children: vec![jsx_expression(ident("b"))] })]),
        ("JsxFragment4", vec![stmt(Node::JsxFragment { children: vec![jsx_element(tag_b, vec![], vec![], vec![])] })]),
        ("JsxFragment5", vec![stmt(Node::JsxFragment { children: vec![jsx_self_closing(ident("b"), vec![], vec![])] })]),
        ("JsxFragment6", vec![stmt(Node::JsxFragment { children: vec![Node::JsxFragment { children: vec![] }] })]),
        ("JsxAttribute1", vec![stmt(jsx_self_closing(a(), vec![], vec![jsx_attribute(ident("b"), None)]))]),
        ("JsxAttribute2", vec![stmt(jsx_self_closing(a(), vec![], vec![jsx_attribute(jsx_name("b", "c"), None)]))]),
        ("JsxAttribute3", vec![stmt(jsx_self_closing(a(), vec![], vec![jsx_attribute(ident("b"), Some(st("c")))]))]),
        ("JsxAttribute4", vec![stmt(jsx_self_closing(a(), vec![], vec![jsx_attribute(ident("b"), Some(sq("c")))]))]),
        ("JsxAttribute5", vec![stmt(jsx_self_closing(a(), vec![], vec![jsx_attribute(ident("b"), Some(jsx_expression(ident("c"))))]))]),
        (
            "JsxAttribute6",
            vec![stmt(jsx_self_closing(a(), vec![], vec![jsx_attribute(ident("b"), Some(jsx_element(tag_c, vec![], vec![], vec![])))]))],
        ),
        (
            "JsxAttribute7",
            vec![stmt(jsx_self_closing(a(), vec![], vec![jsx_attribute(ident("b"), Some(jsx_self_closing(ident("c"), vec![], vec![])))]))],
        ),
        (
            "JsxAttribute8",
            vec![stmt(jsx_self_closing(a(), vec![], vec![jsx_attribute(ident("b"), Some(Node::JsxFragment { children: vec![] }))]))],
        ),
        ("JsxSpreadAttribute", vec![stmt(jsx_self_closing(a(), vec![], vec![Node::JsxSpreadAttribute { expression: b(ident("b")) }]))]),
    ]
}

/// The cases of the table the library's syntax tree cannot hold, each with the
/// reason: `ArrayLiteralExpression#6` and `JsxElement12` print comments, and
/// the tree holds no comments.
const CASES_LEFT_OUT: [&str; 2] = ["ArrayLiteralExpression#6", "JsxElement12"];

#[test]
fn test_emit() {
    let table = emit_cases_from_go_source();
    let built: Vec<(&str, Vec<Node>)> = buildable_cases()
        .into_iter()
        .chain(buildable_statement_cases())
        .chain(buildable_declaration_cases())
        .collect();
    let mut failures: Vec<String> = Vec::new();
    let mut used = vec![false; table.len()];
    for (title, statements) in built {
        // Titles repeat in the table; each built tree takes the next case of its title.
        let index = (0..table.len())
            .find(|&i| !used[i] && table[i].title == title)
            .expect("the table holds every case built here");
        used[index] = true;
        let printed = print(statements);
        if printed != table[index].output {
            failures.push(format!("{}: expected {:?}, printed {:?}", title, table[index].output, printed));
        }
    }
    assert!(failures.is_empty(), "{}", failures.join("\n"));
    let left: Vec<&str> = (0..table.len()).filter(|&i| !used[i]).map(|i| table[i].title.as_str()).collect();
    let mut expected_left: Vec<&str> = CASES_LEFT_OUT.to_vec();
    let mut left_sorted = left.clone();
    left_sorted.sort();
    expected_left.sort();
    assert_eq!(left_sorted, expected_left, "every case but those named in CASES_LEFT_OUT is built");
}

#[test]
fn source_line_breaks_are_kept_only_when_printing_a_source_file() {
    let node = Node::BinaryExpression {
        left: b(ident("a")),
        operator: BinaryOperator::AmpersandAmpersand,
        right: b(ident("b")),
        line_break_before_operator: true,
        line_break_after_operator: false,
    };
    let mut printer = new_printer(PrinterOptions::default());
    assert_eq!(printer.emit(&node, None), "a && b");
    assert_eq!(print(vec![stmt(node)]), "a\n    && b;");
}

#[test]
fn numeric_separators_are_kept_only_when_the_options_allow_them() {
    let mut options = PrinterOptions::default();
    options.numeric_separators = true;
    let mut printer = new_printer(options);
    let file = Node::SourceFile { statements: vec![stmt(num("10_000")), stmt(Node::BigIntLiteral("1_0n".to_string()))] };
    assert_eq!(printer.emit_source_file(&file), "10_000;\n1_0n;\n");
    assert_eq!(print(vec![stmt(prop(num("1_0"), "b", false, false))]), "10..b;");
}

#[test]
fn object_literal_trailing_comma_is_kept_only_in_a_source_file() {
    let node = Node::ObjectLiteralExpression {
        properties: vec![Node::ShorthandPropertyAssignment("a".to_string())],
        multi_line: false,
        has_trailing_comma: true,
    };
    let mut printer = new_printer(PrinterOptions::default());
    assert_eq!(printer.emit(&node, None), "{ a }");
    assert_eq!(print(vec![stmt(node)]), "({ a, });");
}
