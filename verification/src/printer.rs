use vstd::prelude::*;
use crate::ast::{Node};
use crate::doc::{doc_node, literal_digits, string_literal_text, template_text};
use crate::layout::{PrintContext};
use crate::positions::{SourceFile};
use crate::text_writer::{Piece, TextWriter, appends, apply, initial_state};

verus! {

/// Which line ending the printer writes.
#[derive(Clone, Copy, Debug, PartialEq, Eq)]
pub enum NewLineKind {
    Unspecified,
    CarriageReturnLineFeed,
    LineFeed,
}

impl NewLineKind {
    /// The text of a line ending of this kind: `"\r\n"` for
    /// `CarriageReturnLineFeed`, `"\n"` otherwise.
    pub open spec fn new_line_text(self) -> Seq<char> {
        match self {
            NewLineKind::CarriageReturnLineFeed => seq!['\r', '\n'],
            _ => seq!['\n'],
        }
    }

    /// The text of a line ending of this kind, as `new_line_text` states.
    pub fn get_new_line_character(self) -> (r: &'static str)
        ensures
            r@ == self.new_line_text(),
    {
        match self {
            NewLineKind::CarriageReturnLineFeed => {
                proof {
                    reveal_strlit("\r\n");
                }
                "\r\n"
            },
            _ => {
                proof {
                    reveal_strlit("\n");
                }
                "\n"
            },
        }
    }
}

/// The options a printer is made with.
#[derive(Clone, Copy, Debug, PartialEq, Eq)]
pub struct PrinterOptions {
    /// Whether comments are left out; a printed tree carries none.
    pub remove_comments: bool,
    /// The line ending written.
    pub new_line: NewLineKind,
    /// Whether lists keep the line breaks of the source.
    pub preserve_source_newlines: bool,
    /// Whether the output targets a language version with numeric separators
    /// (ES2021 or later). Below it, the `_` separators in the text of numeric
    /// and bigint literals are left out.
    pub numeric_separators: bool,
}

impl Default for PrinterOptions {
    fn default() -> (r: PrinterOptions)
        ensures
            r == (PrinterOptions {
                remove_comments: false,
                new_line: NewLineKind::Unspecified,
                preserve_source_newlines: false,
                numeric_separators: false,
            }),
    {
        PrinterOptions {
            remove_comments: false,
            new_line: NewLineKind::Unspecified,
            preserve_source_newlines: false,
            numeric_separators: false,
        }
    }
}

/// What a printer made with `options` knows while it prints a tree, inside a
/// source file or not.
pub open spec fn print_context(options: PrinterOptions, in_source_file: bool) -> PrintContext {
    PrintContext {
        in_source_file,
        preserve_source_newlines: options.preserve_source_newlines,
        numeric_separators: options.numeric_separators,
    }
}

/// The text a printer made with `options` prints for the tree `n` on a fresh
/// writer.
pub open spec fn printed_text(options: PrinterOptions, in_source_file: bool, n: Node) -> Seq<char> {
    apply(
        initial_state(options.new_line.new_line_text()),
        doc_node(print_context(options, in_source_file), n, false),
    ).text
}

/// `text` without the one line feed that ends it, if it ends with one.
pub open spec fn without_final_newline(text: Seq<char>) -> Seq<char> {
    if text.len() > 0 && text.last() == '\n' {
        text.drop_last()
    } else {
        text
    }
}

/// Strips the one line feed that ends printed text, if there is one.
pub fn trim_emit_final_newline(text: &str) -> (r: &str)
    ensures
        r@ == without_final_newline(text@),
{
    let n = text.unicode_len();
    if n > 0 && text.get_char(n - 1) == '\n' {
        let r = text.substring_char(0, n - 1);
        proof {
            assert(r@ =~= text@.drop_last());
        }
        r
    } else {
        text
    }
}

/// Prints syntax trees as TypeScript text.
pub struct Printer {
    pub options: PrinterOptions,
    in_source_file: bool,
}

/// The text of a numeric literal without its `_` separators, as
/// `literal_digits` states.
fn without_separators(s: &str) -> (r: String)
    ensures
        r@ == literal_digits(s@, false),
{
    let n = s.unicode_len();
    let mut r = String::new();
    let mut i: usize = 0;
    while i < n
        invariant
            i <= n,
            n == s@.len(),
            r@ == literal_digits(s@.take(i as int), false),
        decreases n - i,
    {
        let ch = s.get_char(i);
        proof {
            assert(s@.take(i as int + 1).drop_last() =~= s@.take(i as int));
        }
        if ch != '_' {
            let one = s.substring_char(i, i + 1);
            proof {
                assert(one@ =~= seq![ch]);
            }
            r.append(one);
        }
        i += 1;
    }
    proof {
        assert(s@.take(n as int) =~= s@);
    }
    r
}

/// Makes a printer with the given options.
pub fn new_printer(options: PrinterOptions) -> (p: Printer)
    ensures
        p.printer_options() == options,
        p.context() == print_context(options, false),
{
    Printer { options, in_source_file: false }
}

/// The text of a name or literal node: the name of an identifier, a JSX
/// namespace and name joined by a colon, the text of a numeric or bigint
/// literal (without its separators unless `numeric_separators` holds), a
/// template literal between backquotes, a string literal between its quotes.
/// The text a literal node holds is already escaped for the quotes it is
/// written between.
pub open spec fn node_text(n: Node, numeric_separators: bool) -> Seq<char> {
    match n {
        Node::Identifier(s) => s@,
        Node::NumericLiteral(s) => literal_digits(s@, numeric_separators),
        Node::NoSubstitutionTemplateLiteral(s) => template_text(s@),
        Node::StringLiteral { text, single_quote } => string_literal_text(text@, single_quote),
        Node::BigIntLiteral(s) => literal_digits(s@, numeric_separators),
        Node::RegularExpressionLiteral(s) => s@,
        Node::PrivateIdentifier(s) => s@,
        Node::JsxNamespacedName { namespace, name } => namespace@ + ":"@ + name@,
        _ => Seq::empty(),
    }
}

/// Which part of the printer's dispatch writes a node: 0 for nodes without a
/// child, 1 and 2 for expressions, 3 for members, parameters and decorators, 4
/// for statements and declarations, 5 for types, 6 for loops and the other
/// statements that steer control, 7 for clauses and declaration lists, 8 for
/// signatures and the parts of declarations, 9 for class members and the
/// declarations and types that hold members, 10 for imports, exports and
/// modules, 11 for literal and constructor types and member signatures, 12
/// for templates and static blocks, 13 for JSX, 14 for import-equals and
/// namespace-export declarations, import types and import attributes, 15 for
/// binding patterns.
pub open spec fn dispatch_group(n: Node) -> int {
    match n {
        Node::Identifier(..)
        | Node::NumericLiteral(..)
        | Node::KeywordExpression(..)
        | Node::OmittedExpression
        | Node::ShorthandPropertyAssignment(..)
        | Node::Modifier(..)
        | Node::KeywordType(..)
        | Node::EmptyStatement
        | Node::DebuggerStatement
        | Node::NoSubstitutionTemplateLiteral(..)
        | Node::StringLiteral { .. }
        | Node::BigIntLiteral(..)
        | Node::RegularExpressionLiteral(..)
        | Node::PrivateIdentifier(..)
        | Node::MetaProperty { .. }
        | Node::SemicolonClassElement
        | Node::JsxText(..)
        | Node::ThisType => 0,
        Node::ObjectBindingPattern { .. }
        | Node::ArrayBindingPattern { .. }
        | Node::BindingElement { .. } => 15,
        Node::BinaryExpression { .. }
        | Node::ConditionalExpression { .. }
        | Node::PrefixUnaryExpression { .. }
        | Node::PostfixUnaryExpression { .. }
        | Node::DeleteExpression(..)
        | Node::VoidExpression(..)
        | Node::TypeOfExpression(..)
        | Node::AwaitExpression(..)
        | Node::YieldExpression { .. }
        | Node::PropertyAccessExpression { .. }
        | Node::ElementAccessExpression { .. }
        | Node::CallExpression { .. }
        | Node::NewExpression { .. } => 1,
        Node::TaggedTemplateExpression { .. }
        | Node::ParenthesizedExpression(..)
        | Node::ArrowFunction { .. }
        | Node::FunctionExpression { .. }
        | Node::ClassExpression { .. }
        | Node::ObjectLiteralExpression { .. }
        | Node::ArrayLiteralExpression { .. }
        | Node::SpreadElement(..)
        | Node::AsExpression { .. }
        | Node::SatisfiesExpression { .. }
        | Node::NonNullExpression(..)
        | Node::TypeAssertionExpression { .. }
        | Node::ExpressionWithTypeArguments { .. } => 2,
        Node::PropertyAssignment { .. }
        | Node::SpreadAssignment(..)
        | Node::ComputedPropertyName(..)
        | Node::Parameter { .. }
        | Node::PropertyDeclaration { .. }
        | Node::Decorator(..) => 3,
        Node::ExpressionStatement(..)
        | Node::ExportAssignment { .. }
        | Node::TypeAliasDeclaration { .. }
        | Node::VariableStatement { .. }
        | Node::VariableDeclaration { .. }
        | Node::ReturnStatement(..)
        | Node::IfStatement { .. }
        | Node::Block { .. }
        | Node::FunctionDeclaration { .. }
        | Node::ClassDeclaration { .. }
        | Node::SourceFile { .. } => 4,
        Node::TypeReference { .. }
        | Node::TypeQuery { .. }
        | Node::UnionType(..)
        | Node::IntersectionType(..)
        | Node::ArrayType(..)
        | Node::TupleType { .. }
        | Node::OptionalType(..)
        | Node::RestType(..)
        | Node::FunctionType { .. }
        | Node::InferType { .. }
        | Node::TypeOperator { .. }
        | Node::IndexedAccessType { .. }
        | Node::ConditionalType { .. }
        | Node::ParenthesizedType(..) => 5,
        Node::DoStatement { .. }
        | Node::WhileStatement { .. }
        | Node::ForStatement { .. }
        | Node::ForInStatement { .. }
        | Node::ForOfStatement { .. }
        | Node::ContinueStatement(..)
        | Node::BreakStatement(..)
        | Node::ThrowStatement(..)
        | Node::TryStatement { .. }
        | Node::LabeledStatement { .. }
        | Node::WithStatement { .. } => 6,
        Node::CatchClause { .. }
        | Node::SwitchStatement { .. }
        | Node::CaseClause { .. }
        | Node::DefaultClause { .. }
        | Node::VariableDeclarationList { .. } => 7,
        Node::TypeParameter { .. }
        | Node::HeritageClause { .. }
        | Node::PropertySignature { .. }
        | Node::MethodSignature { .. }
        | Node::EnumMember { .. } => 8,
        Node::MethodDeclaration { .. }
        | Node::Constructor { .. }
        | Node::GetAccessor { .. }
        | Node::SetAccessor { .. }
        | Node::InterfaceDeclaration { .. }
        | Node::TypeLiteral { .. }
        | Node::EnumDeclaration { .. }
        | Node::MappedType { .. } => 9,
        Node::ImportDeclaration { .. }
        | Node::ImportClause { .. }
        | Node::NamespaceImport { .. }
        | Node::NamedImports { .. }
        | Node::ImportSpecifier { .. }
        | Node::ExportDeclaration { .. }
        | Node::NamedExports { .. }
        | Node::NamespaceExport { .. }
        | Node::ExportSpecifier { .. }
        | Node::ModuleDeclaration { .. }
        | Node::ModuleBlock { .. } => 10,
        Node::LiteralType(..)
        | Node::TypePredicate { .. }
        | Node::ConstructorType { .. }
        | Node::IndexSignature { .. }
        | Node::CallSignature { .. }
        | Node::ConstructSignature { .. }
        | Node::NamedTupleMember { .. } => 11,
        Node::TemplateExpression { .. }
        | Node::TemplateSpan { .. }
        | Node::TemplateLiteralType { .. }
        | Node::TemplateLiteralTypeSpan { .. }
        | Node::ClassStaticBlockDeclaration { .. } => 12,
        Node::JsxElement { .. }
        | Node::JsxSelfClosingElement { .. }
        | Node::JsxOpeningElement { .. }
        | Node::JsxClosingElement { .. }
        | Node::JsxFragment { .. }
        | Node::JsxExpression { .. }
        | Node::JsxAttributes { .. }
        | Node::JsxAttribute { .. }
        | Node::JsxSpreadAttribute { .. }
        | Node::JsxNamespacedName { .. } => 13,
        Node::NamespaceExportDeclaration { .. }
        | Node::ImportEqualsDeclaration { .. }
        | Node::ExternalModuleReference(..)
        | Node::ImportType { .. }
        | Node::ImportAttributes { .. }
        | Node::ImportAttribute { .. } => 14,
    }
}

impl Printer {
    /// The options the printer was made with.
    pub closed spec fn printer_options(&self) -> PrinterOptions {
        self.options
    }

    /// What the printer knows of its surroundings while it prints.
    pub closed spec fn context(&self) -> PrintContext {
        print_context(self.options, self.in_source_file)
    }

    /// The context takes its separator setting from the options.
    pub proof fn lemma_context_numeric_separators(&self)
        ensures
            self.context().numeric_separators == self.printer_options().numeric_separators,
    {
    }

    pub(crate) fn get_context(&self) -> (c: PrintContext)
        ensures
            c == self.context(),
    {
        PrintContext {
            in_source_file: self.in_source_file,
            preserve_source_newlines: self.options.preserve_source_newlines,
            numeric_separators: self.options.numeric_separators,
        }
    }

    /// The text of a name or literal node, as `node_text` states.
    pub fn get_text_of_node(&self, node: &Node, include_trivia: bool) -> (r: String)
        requires
            *node is Identifier || *node is PrivateIdentifier || *node is JsxNamespacedName
                || *node is NumericLiteral || *node is BigIntLiteral
                || *node is NoSubstitutionTemplateLiteral || *node is StringLiteral,
        ensures
            r@ == node_text(*node, self.printer_options().numeric_separators),
    {
        match node {
            Node::Identifier(s) | Node::PrivateIdentifier(s) => s.clone(),
            Node::JsxNamespacedName { namespace, name } => {
                let mut text = namespace.clone();
                text.append(":");
                text.append(name.as_str());
                proof {
                    reveal_strlit(":");
                }
                text
            },
            _ => self.get_literal_text_of_node(node, Option::None),
        }
    }

    /// The text of a literal node, as `node_text` states.
    pub fn get_literal_text_of_node(&self, node: &Node, source_file: Option<&SourceFile>) -> (r: String)
        requires
            *node is NumericLiteral || *node is BigIntLiteral || *node is RegularExpressionLiteral
                || *node is NoSubstitutionTemplateLiteral || *node is StringLiteral,
        ensures
            r@ == node_text(*node, self.printer_options().numeric_separators),
    {
        match node {
            Node::NumericLiteral(s) | Node::BigIntLiteral(s) => {
                if self.options.numeric_separators {
                    s.clone()
                } else {
                    without_separators(s.as_str())
                }
            },
            Node::RegularExpressionLiteral(s) => s.clone(),
            Node::NoSubstitutionTemplateLiteral(s) => {
                let mut text = String::from_str("`");
                text.append(s.as_str());
                text.append("`");
                proof {
                    reveal_strlit("`");
                }
                text
            },
            Node::StringLiteral { text: s, single_quote } => {
                let q = if *single_quote {
                    "'"
                } else {
                    "\""
                };
                let mut text = String::from_str(q);
                text.append(s.as_str());
                text.append(q);
                proof {
                    reveal_strlit("'");
                    reveal_strlit("\"");
                }
                text
            },
            _ => String::new(),
        }
    }

    /// Writes `node` on `writer`, which is cleared first; `source_file` is the
    /// file the node belongs to, if any. The printer is left as it was.
    pub fn write_node(
        &mut self,
        node: Option<&Node>,
        source_file: Option<&SourceFile>,
        writer: &mut TextWriter,
    )
        requires
            old(writer).wf(),
        ensures
            *final(self) == *old(self),
            final(writer).wf(),
            final(writer).start() == initial_state(old(writer)@.new_line),
            final(writer).trace() == match node {
                Option::Some(n) => doc_node(
                    print_context(old(self).printer_options(), source_file is Some),
                    *n,
                    false,
                ),
                Option::None => Seq::<Piece>::empty(),
            },
            final(writer)@ == apply(initial_state(old(writer)@.new_line), final(writer).trace()),
    {
        self.write_node_in(node, source_file.is_some(), writer);
    }

    fn write_node_in(&mut self, node: Option<&Node>, in_source_file: bool, writer: &mut TextWriter)
        requires
            old(writer).wf(),
        ensures
            *final(self) == *old(self),
            final(writer).wf(),
            final(writer).start() == initial_state(old(writer)@.new_line),
            final(writer).trace() == match node {
                Option::Some(n) => doc_node(
                    print_context(old(self).printer_options(), in_source_file),
                    *n,
                    false,
                ),
                Option::None => Seq::<Piece>::empty(),
            },
            final(writer)@ == apply(initial_state(old(writer)@.new_line), final(writer).trace()),
    {
        let saved_in_source_file = self.in_source_file;
        self.in_source_file = in_source_file;
        writer.clear();
        match node {
            Option::Some(n) => self.write_node_worker(n, writer, false),
            Option::None => {},
        }
        self.in_source_file = saved_in_source_file;
        proof {
            writer.lemma_state();
        }
    }

    /// Prints `node` and returns its text; `source_file` is the file the node
    /// belongs to, if any. The printer is left as it was.
    pub fn emit(&mut self, node: &Node, source_file: Option<&SourceFile>) -> (r: String)
        ensures
            *final(self) == *old(self),
            r@ == printed_text(old(self).printer_options(), source_file is Some, *node),
    {
        self.emit_in(node, source_file.is_some())
    }

    fn emit_in(&mut self, node: &Node, in_source_file: bool) -> (r: String)
        ensures
            *final(self) == *old(self),
            r@ == printed_text(old(self).printer_options(), in_source_file, *node),
    {
        let mut writer = TextWriter::new(self.options.new_line.get_new_line_character());
        self.write_node_in(Option::Some(node), in_source_file, &mut writer);
        let text = writer.string();
        writer.clear();
        text
    }

    /// Prints a source file and returns its text.
    pub fn emit_source_file(&mut self, source_file: &Node) -> (r: String)
        requires
            *source_file is SourceFile,
        ensures
            *final(self) == *old(self),
            r@ == printed_text(old(self).printer_options(), true, *source_file),
    {
        self.emit_in(source_file, true)
    }

    /// Writes a node: the printer's dispatch on the kind of a node.
    #[verifier::spinoff_prover]
    pub(crate) fn write_node_worker(&self, n: &Node, w: &mut TextWriter, in_extends: bool)
        requires
            old(w).wf(),
        ensures
            final(w).wf(),
            final(w).start() == old(w).start(),
            appends(old(w).trace(), final(w).trace(), doc_node(self.context(), *n, in_extends)),
        decreases n, 2int, 0int,
    {
        let g: u8 = node_group(n);
        if g < 8 {
            self.write_node_in_group(n, g, w, in_extends)
        } else {
            self.write_node_in_later_group(n, g, w, in_extends)
        }
    }

    /// Writes a node of one of the dispatch groups before 8.
    #[verifier::spinoff_prover]
    fn write_node_in_group(&self, n: &Node, g: u8, w: &mut TextWriter, in_extends: bool)
        requires
            old(w).wf(),
            g == dispatch_group(*n),
            g < 8,
        ensures
            final(w).wf(),
            final(w).start() == old(w).start(),
            appends(old(w).trace(), final(w).trace(), doc_node(self.context(), *n, in_extends)),
        decreases n, 1int, 2int,
    {
        if g == 0 {
            self.emit_leaf_node(n, w, in_extends)
        } else if g == 1 {
            self.write_operator_expression_node(n, w, in_extends)
        } else if g == 2 {
            self.write_primary_expression_node(n, w, in_extends)
        } else if g == 3 {
            self.write_member_node(n, w, in_extends)
        } else if g == 4 {
            self.write_statement_node(n, w, in_extends)
        } else if g == 5 {
            self.write_type_node(n, w, in_extends)
        } else if g == 6 {
            self.write_control_statement_node(n, w, in_extends)
        } else {
            self.write_clause_node(n, w, in_extends)
        }
    }

    /// Writes a node of one of the dispatch groups from 8 on.
    #[verifier::spinoff_prover]
    fn write_node_in_later_group(&self, n: &Node, g: u8, w: &mut TextWriter, in_extends: bool)
        requires
            old(w).wf(),
            g == dispatch_group(*n),
            g >= 8,
        ensures
            final(w).wf(),
            final(w).start() == old(w).start(),
            appends(old(w).trace(), final(w).trace(), doc_node(self.context(), *n, in_extends)),
        decreases n, 1int, 2int,
    {
        if g == 8 {
            self.write_signature_node(n, w, in_extends)
        } else if g == 9 {
            self.write_member_holder_node(n, w, in_extends)
        } else if g == 10 {
            self.write_module_node(n, w, in_extends)
        } else if g == 11 {
            self.write_type_signature_node(n, w, in_extends)
        } else if g == 12 {
            self.write_template_node(n, w, in_extends)
        } else if g == 13 {
            self.write_jsx_node(n, w, in_extends)
        } else if g == 14 {
            self.write_import_form_node(n, w, in_extends)
        } else {
            self.emit_binding_pattern(n, w, in_extends)
        }
    }

    /// Writes an expression built around an operator, a member access, a call or `new`.
    #[verifier::spinoff_prover]
    fn write_operator_expression_node(&self, n: &Node, w: &mut TextWriter, in_extends: bool)
        requires
            old(w).wf(),
            dispatch_group(*n) == 1,
        ensures
            final(w).wf(),
            final(w).start() == old(w).start(),
            appends(old(w).trace(), final(w).trace(), doc_node(self.context(), *n, in_extends)),
        decreases n, 1int, 1int,
    {
        match n {
            Node::BinaryExpression { .. } => self.emit_binary_expression(n, w, in_extends),
            Node::ConditionalExpression { .. } => self.emit_conditional_expression(n, w, in_extends),
            Node::PrefixUnaryExpression { .. } => self.emit_prefix_unary_expression(n, w, in_extends),
            Node::PostfixUnaryExpression { .. } => self.emit_postfix_unary_expression(n, w, in_extends),
            Node::DeleteExpression(..) => self.emit_keyword_operator_expression(n, w, in_extends),
            Node::VoidExpression(..) => self.emit_keyword_operator_expression(n, w, in_extends),
            Node::TypeOfExpression(..) => self.emit_keyword_operator_expression(n, w, in_extends),
            Node::AwaitExpression(..) => self.emit_keyword_operator_expression(n, w, in_extends),
            Node::YieldExpression { .. } => self.emit_yield_expression(n, w, in_extends),
            Node::PropertyAccessExpression { .. } => self.emit_property_access_expression(n, w, in_extends),
            Node::ElementAccessExpression { .. } => self.emit_element_access_expression(n, w, in_extends),
            Node::CallExpression { .. } => self.emit_call_expression(n, w, in_extends),
            Node::NewExpression { .. } => self.emit_new_expression(n, w, in_extends),
            _ => {},
        }
    }

    /// Writes the other expressions.
    #[verifier::spinoff_prover]
    fn write_primary_expression_node(&self, n: &Node, w: &mut TextWriter, in_extends: bool)
        requires
            old(w).wf(),
            dispatch_group(*n) == 2,
        ensures
            final(w).wf(),
            final(w).start() == old(w).start(),
            appends(old(w).trace(), final(w).trace(), doc_node(self.context(), *n, in_extends)),
        decreases n, 1int, 1int,
    {
        match n {
            Node::TaggedTemplateExpression { .. } => self.emit_tagged_template_expression(n, w, in_extends),
            Node::ParenthesizedExpression(..) => self.emit_parenthesized(n, w, in_extends),
            Node::ArrowFunction { .. } => self.emit_arrow_function(n, w, in_extends),
            Node::FunctionExpression { .. } => self.emit_function_expression(n, w, in_extends),
            Node::ClassExpression { .. } => self.emit_class(n, w, in_extends),
            Node::ObjectLiteralExpression { .. } => self.emit_object_literal_expression(n, w, in_extends),
            Node::ArrayLiteralExpression { .. } => self.emit_array_literal_expression(n, w, in_extends),
            Node::SpreadElement(..) => self.emit_spread(n, w, in_extends),
            Node::AsExpression { .. } => self.emit_as_or_satisfies_expression(n, w, in_extends),
            Node::SatisfiesExpression { .. } => self.emit_as_or_satisfies_expression(n, w, in_extends),
            Node::NonNullExpression(..) => self.emit_non_null_or_type_assertion(n, w, in_extends),
            Node::TypeAssertionExpression { .. } => self.emit_non_null_or_type_assertion(n, w, in_extends),
            Node::ExpressionWithTypeArguments { .. } => self.emit_expression_with_type_arguments(n, w, in_extends),
            _ => {},
        }
    }

    /// Writes a member of an object or class, a parameter or a decorator.
    #[verifier::spinoff_prover]
    fn write_member_node(&self, n: &Node, w: &mut TextWriter, in_extends: bool)
        requires
            old(w).wf(),
            dispatch_group(*n) == 3,
        ensures
            final(w).wf(),
            final(w).start() == old(w).start(),
            appends(old(w).trace(), final(w).trace(), doc_node(self.context(), *n, in_extends)),
        decreases n, 1int, 1int,
    {
        match n {
            Node::PropertyAssignment { .. } => self.emit_property_names(n, w, in_extends),
            Node::SpreadAssignment(..) => self.emit_spread(n, w, in_extends),
            Node::ComputedPropertyName(..) => self.emit_property_names(n, w, in_extends),
            Node::Parameter { .. } => self.emit_parameter(n, w, in_extends),
            Node::PropertyDeclaration { .. } => self.emit_property_declaration(n, w, in_extends),
            Node::Decorator(..) => self.emit_decorator(n, w, in_extends),
            _ => {},
        }
    }
    /// Writes a type.
    #[verifier::spinoff_prover]
    fn write_type_node(&self, n: &Node, w: &mut TextWriter, in_extends: bool)
        requires
            old(w).wf(),
            dispatch_group(*n) == 5,
        ensures
            final(w).wf(),
            final(w).start() == old(w).start(),
            appends(old(w).trace(), final(w).trace(), doc_node(self.context(), *n, in_extends)),
        decreases n, 1int, 1int,
    {
        match n {
            Node::TypeReference { .. } => self.emit_type_reference(n, w, in_extends),
            Node::TypeQuery { .. } => self.emit_type_reference(n, w, in_extends),
            Node::UnionType(..) => self.emit_union_or_intersection_type(n, w, in_extends),
            Node::IntersectionType(..) => self.emit_union_or_intersection_type(n, w, in_extends),
            Node::ArrayType(..) => self.emit_postfix_type(n, w, in_extends),
            Node::TupleType { .. } => self.emit_tuple_type(n, w, in_extends),
            Node::OptionalType(..) => self.emit_postfix_type(n, w, in_extends),
            Node::RestType(..) => self.emit_postfix_type(n, w, in_extends),
            Node::FunctionType { .. } => self.emit_function_type(n, w, in_extends),
            Node::InferType { .. } => self.emit_infer_type(n, w, in_extends),
            Node::TypeOperator { .. } => self.emit_type_operator(n, w, in_extends),
            Node::IndexedAccessType { .. } => self.emit_indexed_access_type(n, w, in_extends),
            Node::ConditionalType { .. } => self.emit_conditional_type(n, w, in_extends),
            Node::ParenthesizedType(..) => self.emit_parenthesized(n, w, in_extends),
            _ => {},
        }
    }

    /// Writes a statement, a declaration or a source file.
    #[verifier::spinoff_prover]
    fn write_statement_node(&self, n: &Node, w: &mut TextWriter, in_extends: bool)
        requires
            old(w).wf(),
            dispatch_group(*n) == 4,
        ensures
            final(w).wf(),
            final(w).start() == old(w).start(),
            appends(old(w).trace(), final(w).trace(), doc_node(self.context(), *n, in_extends)),
        decreases n, 1int, 1int,
    {
        match n {
            Node::ExpressionStatement(..) => self.emit_expression_statement(n, w, in_extends),
            Node::ExportAssignment { .. } => self.emit_export_assignment(n, w, in_extends),
            Node::TypeAliasDeclaration { .. } => self.emit_type_alias_declaration(n, w, in_extends),
            Node::VariableStatement { .. } => self.emit_variable_statement(n, w, in_extends),
            Node::VariableDeclaration { .. } => self.emit_variable_declaration(n, w, in_extends),
            Node::ReturnStatement(..) => self.emit_return_statement(n, w, in_extends),
            Node::IfStatement { .. } => self.emit_if_statement(n, w, in_extends),
            Node::Block { .. } => self.emit_block(n, w, in_extends),
            Node::FunctionDeclaration { .. } => self.emit_function_declaration(n, w, in_extends),
            Node::ClassDeclaration { .. } => self.emit_class(n, w, in_extends),
            Node::SourceFile { .. } => self.emit_source_file_node(n, w, in_extends),

            _ => {},
        }
    }
    /// Writes a loop or another statement that steers control.
    #[verifier::spinoff_prover]
    fn write_control_statement_node(&self, n: &Node, w: &mut TextWriter, in_extends: bool)
        requires
            old(w).wf(),
            dispatch_group(*n) == 6,
        ensures
            final(w).wf(),
            final(w).start() == old(w).start(),
            appends(old(w).trace(), final(w).trace(), doc_node(self.context(), *n, in_extends)),
        decreases n, 1int, 1int,
    {
        match n {
            Node::DoStatement { .. } => self.emit_loop_statement(n, w, in_extends),
            Node::WhileStatement { .. } => self.emit_loop_statement(n, w, in_extends),
            Node::ForStatement { .. } => self.emit_for_statement(n, w, in_extends),
            Node::ForInStatement { .. } => self.emit_for_in_or_of_statement(n, w, in_extends),
            Node::ForOfStatement { .. } => self.emit_for_in_or_of_statement(n, w, in_extends),
            Node::ContinueStatement(..) => self.emit_jump_statement(n, w, in_extends),
            Node::BreakStatement(..) => self.emit_jump_statement(n, w, in_extends),
            Node::ThrowStatement(..) => self.emit_jump_statement(n, w, in_extends),
            Node::TryStatement { .. } => self.emit_try_statement(n, w, in_extends),
            Node::LabeledStatement { .. } => self.emit_labeled_or_with_statement(n, w, in_extends),
            Node::WithStatement { .. } => self.emit_labeled_or_with_statement(n, w, in_extends),
            _ => {},
        }
    }

    /// Writes a `catch`, `case` or `default` clause, a `switch` statement or
    /// the declarations of a `for` statement's initializer.
    #[verifier::spinoff_prover]
    fn write_clause_node(&self, n: &Node, w: &mut TextWriter, in_extends: bool)
        requires
            old(w).wf(),
            dispatch_group(*n) == 7,
        ensures
            final(w).wf(),
            final(w).start() == old(w).start(),
            appends(old(w).trace(), final(w).trace(), doc_node(self.context(), *n, in_extends)),
        decreases n, 1int, 1int,
    {
        match n {
            Node::CatchClause { .. } => self.emit_catch_clause(n, w, in_extends),
            Node::SwitchStatement { .. } => self.emit_switch_statement(n, w, in_extends),
            Node::CaseClause { .. } => self.emit_case_or_default_clause(n, w, in_extends),
            Node::DefaultClause { .. } => self.emit_case_or_default_clause(n, w, in_extends),
            Node::VariableDeclarationList { .. } => self.emit_variable_declaration_list(n, w, in_extends),
            _ => {},
        }
    }
    /// Writes a signature or a part of a declaration: a type parameter, a
    /// heritage clause, a property or method signature or an enum member.
    #[verifier::spinoff_prover]
    fn write_signature_node(&self, n: &Node, w: &mut TextWriter, in_extends: bool)
        requires
            old(w).wf(),
            dispatch_group(*n) == 8,
        ensures
            final(w).wf(),
            final(w).start() == old(w).start(),
            appends(old(w).trace(), final(w).trace(), doc_node(self.context(), *n, in_extends)),
        decreases n, 1int, 1int,
    {
        match n {
            Node::TypeParameter { .. } => self.emit_type_parameter(n, w, in_extends),
            Node::HeritageClause { .. } => self.emit_heritage_clause(n, w, in_extends),
            Node::PropertySignature { .. } => self.emit_property_signature(n, w, in_extends),
            Node::MethodSignature { .. } => self.emit_method_signature(n, w, in_extends),
            Node::EnumMember { .. } => self.emit_enum(n, w, in_extends),
            _ => {},
        }
    }

    /// Writes a class member, or a declaration or type that holds members.
    #[verifier::spinoff_prover]
    fn write_member_holder_node(&self, n: &Node, w: &mut TextWriter, in_extends: bool)
        requires
            old(w).wf(),
            dispatch_group(*n) == 9,
        ensures
            final(w).wf(),
            final(w).start() == old(w).start(),
            appends(old(w).trace(), final(w).trace(), doc_node(self.context(), *n, in_extends)),
        decreases n, 1int, 1int,
    {
        match n {
            Node::MethodDeclaration { .. } => self.emit_method_declaration(n, w, in_extends),
            Node::Constructor { .. } => self.emit_constructor(n, w, in_extends),
            Node::GetAccessor { .. } => self.emit_get_accessor(n, w, in_extends),
            Node::SetAccessor { .. } => self.emit_set_accessor(n, w, in_extends),
            Node::InterfaceDeclaration { .. } => self.emit_interface_declaration(n, w, in_extends),
            Node::TypeLiteral { .. } => self.emit_type_literal(n, w, in_extends),
            Node::EnumDeclaration { .. } => self.emit_enum(n, w, in_extends),
            Node::MappedType { .. } => self.emit_mapped_type(n, w, in_extends),
            _ => {},
        }
    }
    /// Writes an import, an export or a module, or one of their parts.
    #[verifier::spinoff_prover]
    fn write_module_node(&self, n: &Node, w: &mut TextWriter, in_extends: bool)
        requires
            old(w).wf(),
            dispatch_group(*n) == 10,
        ensures
            final(w).wf(),
            final(w).start() == old(w).start(),
            appends(old(w).trace(), final(w).trace(), doc_node(self.context(), *n, in_extends)),
        decreases n, 1int, 1int,
    {
        match n {
            Node::ImportDeclaration { .. } => self.emit_import_declaration(n, w, in_extends),
            Node::ImportClause { .. } => self.emit_import_clause(n, w, in_extends),
            Node::NamespaceImport { .. } => self.emit_import_part(n, w, in_extends),
            Node::NamedImports { .. } => self.emit_import_part(n, w, in_extends),
            Node::ImportSpecifier { .. } => self.emit_import_part(n, w, in_extends),
            Node::ExportDeclaration { .. } => self.emit_export_declaration(n, w, in_extends),
            Node::NamedExports { .. } => self.emit_export_part(n, w, in_extends),
            Node::NamespaceExport { .. } => self.emit_export_part(n, w, in_extends),
            Node::ExportSpecifier { .. } => self.emit_export_part(n, w, in_extends),
            Node::ModuleDeclaration { .. } => self.emit_module_declaration(n, w, in_extends),
            Node::ModuleBlock { .. } => self.emit_module_block(n, w, in_extends),
            _ => {},
        }
    }
    /// Writes a literal or constructor type, a type predicate, a member
    /// signature or a named tuple member.
    #[verifier::spinoff_prover]
    fn write_type_signature_node(&self, n: &Node, w: &mut TextWriter, in_extends: bool)
        requires
            old(w).wf(),
            dispatch_group(*n) == 11,
        ensures
            final(w).wf(),
            final(w).start() == old(w).start(),
            appends(old(w).trace(), final(w).trace(), doc_node(self.context(), *n, in_extends)),
        decreases n, 1int, 1int,
    {
        match n {
            Node::LiteralType(..) => self.emit_literal_or_predicate_type(n, w, in_extends),
            Node::TypePredicate { .. } => self.emit_literal_or_predicate_type(n, w, in_extends),
            Node::ConstructorType { .. } => self.emit_constructor_type(n, w, in_extends),
            Node::IndexSignature { .. } => self.emit_index_signature(n, w, in_extends),
            Node::CallSignature { .. } => self.emit_call_or_construct_signature(n, w, in_extends),
            Node::ConstructSignature { .. } => self.emit_call_or_construct_signature(n, w, in_extends),
            Node::NamedTupleMember { .. } => self.emit_named_tuple_member(n, w, in_extends),
            _ => {},
        }
    }

    /// Writes a template, one of its spans, or a static block of a class.
    #[verifier::spinoff_prover]
    fn write_template_node(&self, n: &Node, w: &mut TextWriter, in_extends: bool)
        requires
            old(w).wf(),
            dispatch_group(*n) == 12,
        ensures
            final(w).wf(),
            final(w).start() == old(w).start(),
            appends(old(w).trace(), final(w).trace(), doc_node(self.context(), *n, in_extends)),
        decreases n, 1int, 1int,
    {
        match n {
            Node::TemplateExpression { .. } => self.emit_template(n, w, in_extends),
            Node::TemplateSpan { .. } => self.emit_template(n, w, in_extends),
            Node::TemplateLiteralType { .. } => self.emit_template(n, w, in_extends),
            Node::TemplateLiteralTypeSpan { .. } => self.emit_template(n, w, in_extends),
            Node::ClassStaticBlockDeclaration { .. } => self.emit_class_static_block(n, w, in_extends),
            _ => {},
        }
    }
    /// Writes a JSX element, fragment, tag, expression or attribute.
    #[verifier::spinoff_prover]
    fn write_jsx_node(&self, n: &Node, w: &mut TextWriter, in_extends: bool)
        requires
            old(w).wf(),
            dispatch_group(*n) == 13,
        ensures
            final(w).wf(),
            final(w).start() == old(w).start(),
            appends(old(w).trace(), final(w).trace(), doc_node(self.context(), *n, in_extends)),
        decreases n, 1int, 1int,
    {
        match n {
            Node::JsxElement { .. } => self.emit_jsx_element(n, w, in_extends),
            Node::JsxSelfClosingElement { .. } => self.emit_jsx_tag(n, w, in_extends),
            Node::JsxOpeningElement { .. } => self.emit_jsx_tag(n, w, in_extends),
            Node::JsxClosingElement { .. } => self.emit_jsx_element(n, w, in_extends),
            Node::JsxFragment { .. } => self.emit_jsx_element(n, w, in_extends),
            Node::JsxExpression { .. } => self.emit_jsx_part(n, w, in_extends),
            Node::JsxAttributes { .. } => self.emit_jsx_part(n, w, in_extends),
            Node::JsxAttribute { .. } => self.emit_jsx_part(n, w, in_extends),
            Node::JsxSpreadAttribute { .. } => self.emit_jsx_part(n, w, in_extends),
            Node::JsxNamespacedName { .. } => self.emit_jsx_part(n, w, in_extends),
            _ => {},
        }
    }

    /// Writes an import-equals or namespace-export declaration, a `require`
    /// reference, or an import type.
    #[verifier::spinoff_prover]
    fn write_import_form_node(&self, n: &Node, w: &mut TextWriter, in_extends: bool)
        requires
            old(w).wf(),
            dispatch_group(*n) == 14,
        ensures
            final(w).wf(),
            final(w).start() == old(w).start(),
            appends(old(w).trace(), final(w).trace(), doc_node(self.context(), *n, in_extends)),
        decreases n, 1int, 1int,
    {
        match n {
            Node::NamespaceExportDeclaration { .. } => self.emit_import_equals(n, w, in_extends),
            Node::ImportEqualsDeclaration { .. } => self.emit_import_equals(n, w, in_extends),
            Node::ExternalModuleReference(..) => self.emit_import_equals(n, w, in_extends),
            Node::ImportType { .. } => self.emit_import_type(n, w, in_extends),
            Node::ImportAttributes { .. } => self.emit_import_attributes(n, w, in_extends),
            Node::ImportAttribute { .. } => self.emit_import_attributes(n, w, in_extends),
            _ => {},
        }
    }
}

/// The dispatch group of a node, as `dispatch_group` gives it.
fn node_group(n: &Node) -> (g: u8)
    ensures
        g == dispatch_group(*n),
{
    match n {
        Node::Identifier(..)
        | Node::NumericLiteral(..)
        | Node::KeywordExpression(..)
        | Node::OmittedExpression
        | Node::ShorthandPropertyAssignment(..)
        | Node::Modifier(..)
        | Node::KeywordType(..)
        | Node::EmptyStatement
        | Node::DebuggerStatement
        | Node::NoSubstitutionTemplateLiteral(..)
        | Node::StringLiteral { .. }
        | Node::BigIntLiteral(..)
        | Node::RegularExpressionLiteral(..)
        | Node::PrivateIdentifier(..)
        | Node::MetaProperty { .. }
        | Node::SemicolonClassElement
        | Node::JsxText(..)
        | Node::ThisType => 0,
        Node::ObjectBindingPattern { .. }
        | Node::ArrayBindingPattern { .. }
        | Node::BindingElement { .. } => 15,
        Node::BinaryExpression { .. }
        | Node::ConditionalExpression { .. }
        | Node::PrefixUnaryExpression { .. }
        | Node::PostfixUnaryExpression { .. }
        | Node::DeleteExpression(..)
        | Node::VoidExpression(..)
        | Node::TypeOfExpression(..)
        | Node::AwaitExpression(..)
        | Node::YieldExpression { .. }
        | Node::PropertyAccessExpression { .. }
        | Node::ElementAccessExpression { .. }
        | Node::CallExpression { .. }
        | Node::NewExpression { .. } => 1,
        Node::TaggedTemplateExpression { .. }
        | Node::ParenthesizedExpression(..)
        | Node::ArrowFunction { .. }
        | Node::FunctionExpression { .. }
        | Node::ClassExpression { .. }
        | Node::ObjectLiteralExpression { .. }
        | Node::ArrayLiteralExpression { .. }
        | Node::SpreadElement(..)
        | Node::AsExpression { .. }
        | Node::SatisfiesExpression { .. }
        | Node::NonNullExpression(..)
        | Node::TypeAssertionExpression { .. }
        | Node::ExpressionWithTypeArguments { .. } => 2,
        Node::PropertyAssignment { .. }
        | Node::SpreadAssignment(..)
        | Node::ComputedPropertyName(..)
        | Node::Parameter { .. }
        | Node::PropertyDeclaration { .. }
        | Node::Decorator(..) => 3,
        Node::TypeReference { .. }
        | Node::TypeQuery { .. }
        | Node::UnionType(..)
        | Node::IntersectionType(..)
        | Node::ArrayType(..)
        | Node::TupleType { .. }
        | Node::OptionalType(..)
        | Node::RestType(..)
        | Node::FunctionType { .. }
        | Node::InferType { .. }
        | Node::TypeOperator { .. }
        | Node::IndexedAccessType { .. }
        | Node::ConditionalType { .. }
        | Node::ParenthesizedType(..) => 5,
        Node::ExpressionStatement(..)
        | Node::ExportAssignment { .. }
        | Node::TypeAliasDeclaration { .. }
        | Node::VariableStatement { .. }
        | Node::VariableDeclaration { .. }
        | Node::ReturnStatement(..)
        | Node::IfStatement { .. }
        | Node::Block { .. }
        | Node::FunctionDeclaration { .. }
        | Node::ClassDeclaration { .. }
        | Node::SourceFile { .. } => 4,
        Node::DoStatement { .. }
        | Node::WhileStatement { .. }
        | Node::ForStatement { .. }
        | Node::ForInStatement { .. }
        | Node::ForOfStatement { .. }
        | Node::ContinueStatement(..)
        | Node::BreakStatement(..)
        | Node::ThrowStatement(..)
        | Node::TryStatement { .. }
        | Node::LabeledStatement { .. }
        | Node::WithStatement { .. } => 6,
        Node::CatchClause { .. }
        | Node::SwitchStatement { .. }
        | Node::CaseClause { .. }
        | Node::DefaultClause { .. }
        | Node::VariableDeclarationList { .. } => 7,
        Node::TypeParameter { .. }
        | Node::HeritageClause { .. }
        | Node::PropertySignature { .. }
        | Node::MethodSignature { .. }
        | Node::EnumMember { .. } => 8,
        Node::MethodDeclaration { .. }
        | Node::Constructor { .. }
        | Node::GetAccessor { .. }
        | Node::SetAccessor { .. }
        | Node::InterfaceDeclaration { .. }
        | Node::TypeLiteral { .. }
        | Node::EnumDeclaration { .. }
        | Node::MappedType { .. } => 9,
        Node::ImportDeclaration { .. }
        | Node::ImportClause { .. }
        | Node::NamespaceImport { .. }
        | Node::NamedImports { .. }
        | Node::ImportSpecifier { .. }
        | Node::ExportDeclaration { .. }
        | Node::NamedExports { .. }
        | Node::NamespaceExport { .. }
        | Node::ExportSpecifier { .. }
        | Node::ModuleDeclaration { .. }
        | Node::ModuleBlock { .. } => 10,
        Node::LiteralType(..)
        | Node::TypePredicate { .. }
        | Node::ConstructorType { .. }
        | Node::IndexSignature { .. }
        | Node::CallSignature { .. }
        | Node::ConstructSignature { .. }
        | Node::NamedTupleMember { .. } => 11,
        Node::TemplateExpression { .. }
        | Node::TemplateSpan { .. }
        | Node::TemplateLiteralType { .. }
        | Node::TemplateLiteralTypeSpan { .. }
        | Node::ClassStaticBlockDeclaration { .. } => 12,
        Node::JsxElement { .. }
        | Node::JsxSelfClosingElement { .. }
        | Node::JsxOpeningElement { .. }
        | Node::JsxClosingElement { .. }
        | Node::JsxFragment { .. }
        | Node::JsxExpression { .. }
        | Node::JsxAttributes { .. }
        | Node::JsxAttribute { .. }
        | Node::JsxSpreadAttribute { .. }
        | Node::JsxNamespacedName { .. } => 13,
        Node::NamespaceExportDeclaration { .. }
        | Node::ImportEqualsDeclaration { .. }
        | Node::ExternalModuleReference(..)
        | Node::ImportType { .. }
        | Node::ImportAttributes { .. }
        | Node::ImportAttribute { .. } => 14,
    }
}

} // verus!
