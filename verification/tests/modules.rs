use ts_printer::ast::{ImportPhase, ModifierKind, ModuleKeyword, Node, VariableKind};
use ts_printer::printer::{new_printer, trim_emit_final_newline, PrinterOptions};

fn ident(name: &str) -> Node {
    Node::Identifier(name.to_string())
}

fn boxed(n: Node) -> Box<Node> {
    Box::new(n)
}

fn string(text: &str) -> Node {
    Node::StringLiteral { text: text.to_string(), single_quote: false }
}

fn import_specifier(property_name: Option<&str>, name: &str) -> Node {
    Node::ImportSpecifier {
        is_type_only: false,
        property_name: property_name.map(|p| boxed(ident(p))),
        name: name.to_string(),
    }
}

fn print(statements: Vec<Node>) -> String {
    let mut printer = new_printer(PrinterOptions::default());
    let text = printer.emit_source_file(&Node::SourceFile { statements });
    trim_emit_final_newline(&text).to_string()
}

#[test]
fn import_declarations_with_each_kind_of_clause() {
    let named = Node::ImportDeclaration {
        modifiers: vec![],
        import_clause: Some(boxed(Node::ImportClause {
            phase: Some(ImportPhase::Type),
            name: None,
            named_bindings: Some(boxed(Node::NamedImports {
                elements: vec![import_specifier(None, "a"), import_specifier(Some("b"), "c")],
                has_trailing_comma: false,
            })),
        })),
        module_specifier: boxed(string("m")),
        attributes: None,
    };
    let namespace = Node::ImportDeclaration {
        modifiers: vec![],
        import_clause: Some(boxed(Node::ImportClause {
            phase: None,
            name: Some("d".to_string()),
            named_bindings: Some(boxed(Node::NamespaceImport { name: "ns".to_string() })),
        })),
        module_specifier: boxed(string("m")),
        attributes: None,
    };
    let side_effect = Node::ImportDeclaration {
        modifiers: vec![],
        import_clause: None,
        module_specifier: boxed(string("side")),
        attributes: None,
    };
    let empty = Node::ImportDeclaration {
        modifiers: vec![],
        import_clause: Some(boxed(Node::ImportClause {
            phase: Some(ImportPhase::Defer),
            name: None,
            named_bindings: Some(boxed(Node::NamedImports { elements: vec![], has_trailing_comma: false })),
        })),
        module_specifier: boxed(string("m")),
        attributes: None,
    };
    assert_eq!(
        print(vec![named, namespace, side_effect, empty]),
        "import type { a, b as c } from \"m\";\nimport d, * as ns from \"m\";\nimport \"side\";\nimport defer {} from \"m\";"
    );
}

#[test]
fn export_declarations_with_and_without_clauses() {
    let all = Node::ExportDeclaration {
        modifiers: vec![],
        is_type_only: false,
        export_clause: None,
        module_specifier: Some(boxed(string("m"))),
        attributes: None,
    };
    let named = Node::ExportDeclaration {
        modifiers: vec![],
        is_type_only: true,
        export_clause: Some(boxed(Node::NamedExports {
            elements: vec![Node::ExportSpecifier {
                is_type_only: false,
                property_name: Some(boxed(ident("x"))),
                name: boxed(ident("y")),
            }],
            has_trailing_comma: false,
        })),
        module_specifier: None,
        attributes: None,
    };
    let namespace = Node::ExportDeclaration {
        modifiers: vec![],
        is_type_only: false,
        export_clause: Some(boxed(Node::NamespaceExport { name: boxed(ident("ns")) })),
        module_specifier: Some(boxed(string("m"))),
        attributes: None,
    };
    let type_only_specifier = Node::ExportDeclaration {
        modifiers: vec![],
        is_type_only: false,
        export_clause: Some(boxed(Node::NamedExports {
            elements: vec![Node::ExportSpecifier {
                is_type_only: true,
                property_name: None,
                name: boxed(ident("a")),
            }],
            has_trailing_comma: false,
        })),
        module_specifier: None,
        attributes: None,
    };
    assert_eq!(
        print(vec![all, named, namespace, type_only_specifier]),
        "export * from \"m\";\nexport type { x as y };\nexport * as ns from \"m\";\nexport { type a };"
    );
}

#[test]
fn nested_namespaces_are_written_with_dotted_names() {
    let inner_block = Node::ModuleBlock {
        statements: vec![Node::VariableStatement {
            modifiers: vec![Node::Modifier(ModifierKind::Export)],
            kind: VariableKind::Const,
            declarations: vec![Node::VariableDeclaration {
                name: Box::new(Node::Identifier("x".to_string())),
                type_node: None,
                initializer: Some(boxed(Node::NumericLiteral("1".to_string()))),
            }],
        }],
    };
    let nested = |name: &str, body: Node| Node::ModuleDeclaration {
        modifiers: vec![],
        keyword: ModuleKeyword::Namespace,
        name: boxed(ident(name)),
        body: Some(boxed(body)),
    };
    let namespace = Node::ModuleDeclaration {
        modifiers: vec![Node::Modifier(ModifierKind::Declare)],
        keyword: ModuleKeyword::Namespace,
        name: boxed(ident("A")),
        body: Some(boxed(nested("B", nested("C", inner_block)))),
    };
    let module = Node::ModuleDeclaration {
        modifiers: vec![],
        keyword: ModuleKeyword::Module,
        name: boxed(string("m")),
        body: Some(boxed(Node::ModuleBlock { statements: vec![] })),
    };
    let global = Node::ModuleDeclaration {
        modifiers: vec![Node::Modifier(ModifierKind::Declare)],
        keyword: ModuleKeyword::Global,
        name: boxed(ident("global")),
        body: Some(boxed(Node::ModuleBlock { statements: vec![] })),
    };
    let ambient = Node::ModuleDeclaration {
        modifiers: vec![Node::Modifier(ModifierKind::Declare)],
        keyword: ModuleKeyword::Module,
        name: boxed(string("n")),
        body: None,
    };
    assert_eq!(
        print(vec![namespace, module, global, ambient]),
        "declare namespace A.B.C {\n    export const x = 1;\n}\nmodule \"m\" { }\ndeclare global { }\ndeclare module \"n\";"
    );
}

#[test]
fn string_literals_are_written_between_double_quotes() {
    let printer = new_printer(PrinterOptions::default());
    assert_eq!(printer.get_text_of_node(&string("abc"), false), "\"abc\"");
    assert_eq!(printer.get_literal_text_of_node(&string(""), None), "\"\"");
    let statement = Node::ExpressionStatement(boxed(string("x")));
    assert_eq!(print(vec![statement]), "\"x\";");
}

fn type_alias(name: &str, type_node: Node) -> Node {
    Node::TypeAliasDeclaration {
        modifiers: vec![],
        name: name.to_string(),
        type_parameters: vec![],
        type_node: boxed(type_node),
    }
}

#[test]
fn import_equals_and_namespace_export_declarations() {
    let require = Node::ImportEqualsDeclaration {
        modifiers: vec![Node::Modifier(ModifierKind::Export)],
        is_type_only: false,
        name: "fs".to_string(),
        module_reference: boxed(Node::ExternalModuleReference(boxed(string("fs")))),
    };
    let entity = Node::ImportEqualsDeclaration {
        modifiers: vec![],
        is_type_only: true,
        name: "T".to_string(),
        module_reference: boxed(Node::PropertyAccessExpression {
            expression: boxed(ident("A")),
            name: "B".to_string(),
            question_dot: false,
            optional_chain: false,
            line_break_before_dot: false,
            line_break_after_dot: false,
        }),
    };
    let namespace_export = Node::NamespaceExportDeclaration { modifiers: vec![], name: "Lib".to_string() };
    assert_eq!(
        print(vec![require, entity, namespace_export]),
        "export import fs = require(\"fs\");\nimport type T = A.B;\nexport as namespace Lib;"
    );
}

#[test]
fn import_types_with_qualifiers_type_arguments_and_typeof() {
    let qualified = type_alias(
        "A",
        Node::ImportType {
            is_type_of: false,
            argument: boxed(Node::LiteralType(boxed(string("m")))),
            qualifier: Some(boxed(ident("Box"))),
            type_arguments: vec![Node::TypeReference { name: "T".to_string(), type_arguments: vec![] }],
            attributes: None,
        },
    );
    let value = type_alias(
        "B",
        Node::ImportType {
            is_type_of: true,
            argument: boxed(Node::LiteralType(boxed(string("m")))),
            qualifier: None,
            type_arguments: vec![],
            attributes: None,
        },
    );
    let this_type = type_alias("C", Node::ThisType);
    assert_eq!(
        print(vec![qualified, value, this_type]),
        "type A = import(\"m\").Box<T>;\ntype B = typeof import(\"m\");\ntype C = this;"
    );
}

fn attribute(name: &str, value: &str) -> Node {
    Node::ImportAttribute { name: boxed(ident(name)), value: boxed(string(value)) }
}

#[test]
fn import_and_export_declarations_with_attributes() {
    let import = Node::ImportDeclaration {
        modifiers: vec![],
        import_clause: Some(boxed(Node::ImportClause {
            phase: None,
            name: Some("data".to_string()),
            named_bindings: None,
        })),
        module_specifier: boxed(string("./data.json")),
        attributes: Some(boxed(Node::ImportAttributes {
            assert_keyword: false,
            elements: vec![attribute("type", "json")],
        })),
    };
    let export = Node::ExportDeclaration {
        modifiers: vec![],
        is_type_only: false,
        export_clause: None,
        module_specifier: Some(boxed(string("m"))),
        attributes: Some(boxed(Node::ImportAttributes {
            assert_keyword: true,
            elements: vec![attribute("type", "json"), attribute("mode", "x")],
        })),
    };
    let empty = Node::ImportDeclaration {
        modifiers: vec![],
        import_clause: None,
        module_specifier: boxed(string("m")),
        attributes: Some(boxed(Node::ImportAttributes { assert_keyword: false, elements: vec![] })),
    };
    assert_eq!(
        print(vec![import, export, empty]),
        "import data from \"./data.json\" with { type: \"json\" };\nexport * from \"m\" assert { type: \"json\", mode: \"x\" };\nimport \"m\" with {};"
    );
}
