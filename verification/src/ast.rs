use vstd::prelude::*;

verus! {

/// The operators of binary expressions.
#[derive(Clone, Copy, Debug, PartialEq, Eq, Structural)]
pub enum BinaryOperator {
    Comma,
    Equals,
    PlusEquals,
    MinusEquals,
    AsteriskEquals,
    AsteriskAsteriskEquals,
    SlashEquals,
    PercentEquals,
    LessThanLessThanEquals,
    GreaterThanGreaterThanEquals,
    GreaterThanGreaterThanGreaterThanEquals,
    AmpersandEquals,
    BarEquals,
    CaretEquals,
    AmpersandAmpersandEquals,
    BarBarEquals,
    QuestionQuestionEquals,
    QuestionQuestion,
    BarBar,
    AmpersandAmpersand,
    Bar,
    Caret,
    Ampersand,
    EqualsEquals,
    ExclamationEquals,
    EqualsEqualsEquals,
    ExclamationEqualsEquals,
    LessThan,
    GreaterThan,
    LessThanEquals,
    GreaterThanEquals,
    InstanceOf,
    In,
    LessThanLessThan,
    GreaterThanGreaterThan,
    GreaterThanGreaterThanGreaterThan,
    Plus,
    Minus,
    Asterisk,
    Slash,
    Percent,
    AsteriskAsterisk,
}

/// The operators of prefix unary expressions.
#[derive(Clone, Copy, Debug, PartialEq, Eq, Structural)]
pub enum PrefixOperator {
    Plus,
    Minus,
    Tilde,
    Exclamation,
    PlusPlus,
    MinusMinus,
}

/// The operators of postfix unary expressions.
#[derive(Clone, Copy, Debug, PartialEq, Eq, Structural)]
pub enum PostfixOperator {
    PlusPlus,
    MinusMinus,
}

/// Keywords that stand alone as expressions.
#[derive(Clone, Copy, Debug, PartialEq, Eq, Structural)]
pub enum ExpressionKeyword {
    This,
    Super,
    Null,
    True,
    False,
    Import,
}

/// Keywords that stand alone as types.
#[derive(Clone, Copy, Debug, PartialEq, Eq, Structural)]
pub enum TypeKeyword {
    Any,
    Unknown,
    Number,
    BigInt,
    Object,
    Boolean,
    String,
    Symbol,
    Void,
    Undefined,
    Never,
    This,
    Intrinsic,
}

/// The operators of type operator nodes.
#[derive(Clone, Copy, Debug, PartialEq, Eq, Structural)]
pub enum TypeOperatorKind {
    KeyOf,
    Unique,
    Readonly,
}

/// Modifier keywords.
#[derive(Clone, Copy, Debug, PartialEq, Eq, Structural)]
pub enum ModifierKind {
    Export,
    Default,
    Declare,
    Abstract,
    Public,
    Private,
    Protected,
    Static,
    Readonly,
    Override,
    Async,
    Const,
    Accessor,
    In,
    Out,
}

/// How a variable declaration list declares its names.
#[derive(Clone, Copy, Debug, PartialEq, Eq, Structural)]
pub enum VariableKind {
    Var,
    Let,
    Const,
    Using,
    AwaitUsing,
}

/// The token before `readonly` or `?` in a mapped type: none, `+` or `-`.
#[derive(Clone, Copy, Debug, PartialEq, Eq, Structural)]
pub enum MappedTypeModifier {
    Bare,
    Plus,
    Minus,
}

/// The keyword of a module declaration.
#[derive(Clone, Copy, Debug, PartialEq, Eq, Structural)]
pub enum ModuleKeyword {
    Module,
    Namespace,
    Global,
}

/// The phase keyword of an import clause.
#[derive(Clone, Copy, Debug, PartialEq, Eq, Structural)]
pub enum ImportPhase {
    Type,
    Defer,
}

/// The keyword before the dot of a meta-property.
#[derive(Clone, Copy, Debug, PartialEq, Eq, Structural)]
pub enum MetaPropertyKeyword {
    New,
    Import,
}

/// A syntax tree node built by a program rather than read from source text.
pub enum Node {
    Identifier(String),
    NumericLiteral(String),
    KeywordExpression(ExpressionKeyword),
    /// A template literal with no substitutions; its text, already escaped as
    /// it is to appear between backquotes, is written verbatim between them.
    NoSubstitutionTemplateLiteral(String),
    /// A string literal; its text, already escaped for its quotes, is written
    /// verbatim between single quotes when `single_quote` is set and between
    /// double quotes otherwise.
    StringLiteral { text: String, single_quote: bool },
    /// A bigint literal, written as its text.
    BigIntLiteral(String),
    /// A regular expression literal, written as its text.
    RegularExpressionLiteral(String),
    /// A private name such as `#x`, written as its text.
    PrivateIdentifier(String),
    /// `new.target` or `import.meta`.
    MetaProperty { keyword: MetaPropertyKeyword, name: String },
    OmittedExpression,
    /// A binary expression; the two flags say whether the source breaks the
    /// line before and after the operator.
    BinaryExpression {
        left: Box<Node>,
        operator: BinaryOperator,
        right: Box<Node>,
        line_break_before_operator: bool,
        line_break_after_operator: bool,
    },
    /// A conditional expression; the flags say whether the source breaks the
    /// line before and after `?` and before and after `:`.
    ConditionalExpression {
        condition: Box<Node>,
        when_true: Box<Node>,
        when_false: Box<Node>,
        line_break_before_question: bool,
        line_break_after_question: bool,
        line_break_before_colon: bool,
        line_break_after_colon: bool,
    },
    PrefixUnaryExpression { operator: PrefixOperator, operand: Box<Node> },
    PostfixUnaryExpression { operand: Box<Node>, operator: PostfixOperator },
    DeleteExpression(Box<Node>),
    VoidExpression(Box<Node>),
    TypeOfExpression(Box<Node>),
    AwaitExpression(Box<Node>),
    YieldExpression { asterisk: bool, expression: Option<Box<Node>> },
    /// A property access; the flags say whether the source breaks the line
    /// before and after the dot.
    PropertyAccessExpression {
        expression: Box<Node>,
        name: String,
        question_dot: bool,
        optional_chain: bool,
        line_break_before_dot: bool,
        line_break_after_dot: bool,
    },
    ElementAccessExpression {
        expression: Box<Node>,
        argument: Box<Node>,
        question_dot: bool,
        optional_chain: bool,
    },
    CallExpression {
        expression: Box<Node>,
        type_arguments: Vec<Node>,
        arguments: Vec<Node>,
        question_dot: bool,
        optional_chain: bool,
    },
    NewExpression { expression: Box<Node>, type_arguments: Vec<Node>, arguments: Option<Vec<Node>> },
    TaggedTemplateExpression { tag: Box<Node>, type_arguments: Vec<Node>, template: Box<Node> },
    ParenthesizedExpression(Box<Node>),
    ArrowFunction {
        modifiers: Vec<Node>,
        type_parameters: Vec<Node>,
        parameters: Vec<Node>,
        /// Whether the source wrote a lone parameter between parentheses, as
        /// in `(a) => a`; a node built by a program has it false.
        parameter_in_parentheses: bool,
        type_node: Option<Box<Node>>,
        body: Box<Node>,
    },
    FunctionExpression {
        modifiers: Vec<Node>,
        asterisk: bool,
        name: Option<String>,
        type_parameters: Vec<Node>,
        parameters: Vec<Node>,
        type_node: Option<Box<Node>>,
        body: Box<Node>,
    },
    ClassExpression {
        modifiers: Vec<Node>,
        name: Option<String>,
        type_parameters: Vec<Node>,
        heritage_clauses: Vec<Node>,
        members: Vec<Node>,
    },
    /// An object literal; `has_trailing_comma` says whether the source list of
    /// properties ends with a comma.
    ObjectLiteralExpression { properties: Vec<Node>, multi_line: bool, has_trailing_comma: bool },
    /// An array literal; `has_trailing_comma` says whether the source list of
    /// elements ends with a comma.
    ArrayLiteralExpression { elements: Vec<Node>, multi_line: bool, has_trailing_comma: bool },
    SpreadElement(Box<Node>),
    AsExpression { expression: Box<Node>, type_node: Box<Node> },
    SatisfiesExpression { expression: Box<Node>, type_node: Box<Node> },
    NonNullExpression(Box<Node>),
    TypeAssertionExpression { type_node: Box<Node>, expression: Box<Node> },
    ExpressionWithTypeArguments { expression: Box<Node>, type_arguments: Vec<Node> },
    PropertyAssignment { name: Box<Node>, initializer: Box<Node> },
    ShorthandPropertyAssignment(String),
    SpreadAssignment(Box<Node>),
    ComputedPropertyName(Box<Node>),
    /// A parameter; its name is an identifier or a binding pattern.
    Parameter {
        modifiers: Vec<Node>,
        dot_dot_dot: bool,
        name: Box<Node>,
        question: bool,
        type_node: Option<Box<Node>>,
        initializer: Option<Box<Node>>,
    },
    PropertyDeclaration {
        modifiers: Vec<Node>,
        name: Box<Node>,
        question: bool,
        /// `!` after the name, where there is no `?`.
        exclamation: bool,
        type_node: Option<Box<Node>>,
        initializer: Option<Box<Node>>,
    },
    Modifier(ModifierKind),
    Decorator(Box<Node>),
    TypeReference { name: String, type_arguments: Vec<Node> },
    KeywordType(TypeKeyword),
    UnionType(Vec<Node>),
    IntersectionType(Vec<Node>),
    ArrayType(Box<Node>),
    TupleType { elements: Vec<Node>, single_line: bool },
    OptionalType(Box<Node>),
    RestType(Box<Node>),
    FunctionType { type_parameters: Vec<Node>, parameters: Vec<Node>, return_type: Box<Node> },
    InferType { name: String, constraint: Option<Box<Node>> },
    TypeOperator { operator: TypeOperatorKind, type_node: Box<Node> },
    IndexedAccessType { object_type: Box<Node>, index_type: Box<Node> },
    TypeQuery { name: String, type_arguments: Vec<Node> },
    ConditionalType {
        check_type: Box<Node>,
        extends_type: Box<Node>,
        true_type: Box<Node>,
        false_type: Box<Node>,
    },
    ParenthesizedType(Box<Node>),
    ExpressionStatement(Box<Node>),
    ExportAssignment { is_export_equals: bool, expression: Box<Node> },
    TypeAliasDeclaration {
        modifiers: Vec<Node>,
        name: String,
        type_parameters: Vec<Node>,
        type_node: Box<Node>,
    },
    VariableStatement { modifiers: Vec<Node>, kind: VariableKind, declarations: Vec<Node> },
    /// A variable declaration; its name is an identifier or a binding pattern.
    VariableDeclaration {
        name: Box<Node>,
        type_node: Option<Box<Node>>,
        initializer: Option<Box<Node>>,
    },
    ReturnStatement(Option<Box<Node>>),
    IfStatement {
        expression: Box<Node>,
        then_statement: Box<Node>,
        else_statement: Option<Box<Node>>,
    },
    Block { statements: Vec<Node>, multi_line: bool },
    EmptyStatement,
    FunctionDeclaration {
        modifiers: Vec<Node>,
        asterisk: bool,
        name: Option<String>,
        type_parameters: Vec<Node>,
        parameters: Vec<Node>,
        type_node: Option<Box<Node>>,
        body: Option<Box<Node>>,
    },
    ClassDeclaration {
        modifiers: Vec<Node>,
        name: Option<String>,
        type_parameters: Vec<Node>,
        heritage_clauses: Vec<Node>,
        members: Vec<Node>,
    },
    SourceFile { statements: Vec<Node> },
    DoStatement { statement: Box<Node>, expression: Box<Node> },
    WhileStatement { expression: Box<Node>, statement: Box<Node> },
    ForStatement {
        initializer: Option<Box<Node>>,
        condition: Option<Box<Node>>,
        incrementor: Option<Box<Node>>,
        statement: Box<Node>,
    },
    ForInStatement { initializer: Box<Node>, expression: Box<Node>, statement: Box<Node> },
    ForOfStatement {
        is_await: bool,
        initializer: Box<Node>,
        expression: Box<Node>,
        statement: Box<Node>,
    },
    ContinueStatement(Option<String>),
    BreakStatement(Option<String>),
    ThrowStatement(Option<Box<Node>>),
    TryStatement {
        try_block: Box<Node>,
        catch_clause: Option<Box<Node>>,
        finally_block: Option<Box<Node>>,
    },
    CatchClause { variable_declaration: Option<Box<Node>>, block: Box<Node> },
    SwitchStatement { expression: Box<Node>, clauses: Vec<Node> },
    /// `statement_on_next_line`: whether the source wrote a lone statement on
    /// a line after the clause's own; a node built by a program has it false.
    CaseClause { expression: Box<Node>, statements: Vec<Node>, statement_on_next_line: bool },
    DefaultClause { statements: Vec<Node>, statement_on_next_line: bool },
    LabeledStatement { label: String, statement: Box<Node> },
    DebuggerStatement,
    WithStatement { expression: Box<Node>, statement: Box<Node> },
    /// The declarations of a `for` statement's initializer.
    VariableDeclarationList { kind: VariableKind, declarations: Vec<Node> },
    TypeParameter {
        modifiers: Vec<Node>,
        name: String,
        constraint: Option<Box<Node>>,
        default_type: Option<Box<Node>>,
    },
    /// An `extends` or `implements` clause.
    HeritageClause { is_implements: bool, types: Vec<Node> },
    InterfaceDeclaration {
        modifiers: Vec<Node>,
        name: String,
        type_parameters: Vec<Node>,
        heritage_clauses: Vec<Node>,
        members: Vec<Node>,
    },
    TypeLiteral { members: Vec<Node>, single_line: bool },
    PropertySignature {
        modifiers: Vec<Node>,
        name: Box<Node>,
        question: bool,
        type_node: Option<Box<Node>>,
    },
    MethodSignature {
        modifiers: Vec<Node>,
        name: Box<Node>,
        question: bool,
        type_parameters: Vec<Node>,
        parameters: Vec<Node>,
        type_node: Option<Box<Node>>,
    },
    MethodDeclaration {
        modifiers: Vec<Node>,
        asterisk: bool,
        name: Box<Node>,
        question: bool,
        type_parameters: Vec<Node>,
        parameters: Vec<Node>,
        type_node: Option<Box<Node>>,
        body: Option<Box<Node>>,
    },
    Constructor {
        modifiers: Vec<Node>,
        parameters: Vec<Node>,
        type_node: Option<Box<Node>>,
        body: Option<Box<Node>>,
    },
    GetAccessor {
        modifiers: Vec<Node>,
        name: Box<Node>,
        parameters: Vec<Node>,
        type_node: Option<Box<Node>>,
        body: Option<Box<Node>>,
    },
    SetAccessor {
        modifiers: Vec<Node>,
        name: Box<Node>,
        parameters: Vec<Node>,
        type_node: Option<Box<Node>>,
        body: Option<Box<Node>>,
    },
    EnumDeclaration { modifiers: Vec<Node>, name: String, members: Vec<Node> },
    EnumMember { name: Box<Node>, initializer: Option<Box<Node>> },
    /// A mapped type `{ [K in C as N]: T; }`, with the tokens that add or
    /// remove `readonly` and `?`.
    MappedType {
        single_line: bool,
        readonly_token: Option<MappedTypeModifier>,
        parameter_name: String,
        constraint: Option<Box<Node>>,
        name_type: Option<Box<Node>>,
        question_token: Option<MappedTypeModifier>,
        type_node: Option<Box<Node>>,
        members: Vec<Node>,
    },
    ImportDeclaration {
        modifiers: Vec<Node>,
        import_clause: Option<Box<Node>>,
        module_specifier: Box<Node>,
        attributes: Option<Box<Node>>,
    },
    ImportClause {
        phase: Option<ImportPhase>,
        name: Option<String>,
        named_bindings: Option<Box<Node>>,
    },
    /// `* as name` in an import clause.
    NamespaceImport { name: String },
    NamedImports { elements: Vec<Node>, has_trailing_comma: bool },
    ImportSpecifier { is_type_only: bool, property_name: Option<Box<Node>>, name: String },
    ExportDeclaration {
        modifiers: Vec<Node>,
        is_type_only: bool,
        export_clause: Option<Box<Node>>,
        module_specifier: Option<Box<Node>>,
        attributes: Option<Box<Node>>,
    },
    NamedExports { elements: Vec<Node>, has_trailing_comma: bool },
    /// `* as name` in an export declaration.
    NamespaceExport { name: Box<Node> },
    ExportSpecifier { is_type_only: bool, property_name: Option<Box<Node>>, name: Box<Node> },
    ModuleDeclaration {
        modifiers: Vec<Node>,
        keyword: ModuleKeyword,
        name: Box<Node>,
        body: Option<Box<Node>>,
    },
    ModuleBlock { statements: Vec<Node> },
    /// `export as namespace name;`
    NamespaceExportDeclaration { modifiers: Vec<Node>, name: String },
    /// `import name = reference;`, where the reference is a name or a
    /// `require` call.
    ImportEqualsDeclaration {
        modifiers: Vec<Node>,
        is_type_only: bool,
        name: String,
        module_reference: Box<Node>,
    },
    /// `require(...)` as the reference of an import-equals declaration.
    ExternalModuleReference(Box<Node>),
    /// `import("m").A<T>` in a type position, with `typeof` before it when it
    /// names a value.
    ImportType {
        is_type_of: bool,
        argument: Box<Node>,
        /// Import attributes after the argument: an `ImportAttributes` node.
        attributes: Option<Box<Node>>,
        qualifier: Option<Box<Node>>,
        type_arguments: Vec<Node>,
    },
    /// `this` in a type position.
    ThisType,
    /// `with { type: "json" }` after a module specifier, or the older form
    /// with `assert`.
    ImportAttributes { assert_keyword: bool, elements: Vec<Node> },
    /// `name: value` in import attributes.
    ImportAttribute { name: Box<Node>, value: Box<Node> },
    /// `{ a, b: c = d, ...e }` as a name being bound; `has_trailing_comma` says
    /// whether the source list of elements ends with a comma, here and in the
    /// array pattern and the named imports and exports.
    ObjectBindingPattern { elements: Vec<Node>, has_trailing_comma: bool },
    /// `[a, , ...b]` as a name being bound; a hole is an omitted expression.
    ArrayBindingPattern { elements: Vec<Node>, has_trailing_comma: bool },
    /// An element of a binding pattern.
    BindingElement {
        dot_dot_dot: bool,
        property_name: Option<Box<Node>>,
        name: Box<Node>,
        initializer: Option<Box<Node>>,
    },
    LiteralType(Box<Node>),
    TypePredicate { asserts: bool, parameter_name: Box<Node>, type_node: Option<Box<Node>> },
    ConstructorType {
        modifiers: Vec<Node>,
        type_parameters: Vec<Node>,
        parameters: Vec<Node>,
        return_type: Box<Node>,
    },
    IndexSignature { modifiers: Vec<Node>, parameters: Vec<Node>, type_node: Option<Box<Node>> },
    CallSignature { type_parameters: Vec<Node>, parameters: Vec<Node>, type_node: Option<Box<Node>> },
    ConstructSignature {
        type_parameters: Vec<Node>,
        parameters: Vec<Node>,
        type_node: Option<Box<Node>>,
    },
    NamedTupleMember { dot_dot_dot: bool, name: String, question: bool, type_node: Box<Node> },
    /// A template with substitutions: its head text, then its spans. Texts
    /// are written verbatim.
    TemplateExpression { head: String, spans: Vec<Node> },
    /// A substitution of a template and the text after it, up to the next
    /// substitution or, in the last span, to the closing backquote.
    TemplateSpan { expression: Box<Node>, literal: String, is_tail: bool },
    TemplateLiteralType { head: String, spans: Vec<Node> },
    TemplateLiteralTypeSpan { type_node: Box<Node>, literal: String, is_tail: bool },
    ClassStaticBlockDeclaration { body: Box<Node> },
    SemicolonClassElement,
    JsxElement { opening: Box<Node>, children: Vec<Node>, closing: Box<Node> },
    JsxSelfClosingElement { tag_name: Box<Node>, type_arguments: Vec<Node>, attributes: Box<Node> },
    JsxOpeningElement { tag_name: Box<Node>, type_arguments: Vec<Node>, attributes: Box<Node> },
    JsxClosingElement { tag_name: Box<Node> },
    /// A fragment `<>...</>` with its children.
    JsxFragment { children: Vec<Node> },
    /// Text between JSX tags, written verbatim.
    JsxText(String),
    /// An expression between braces among JSX children or as an attribute
    /// value; one without an expression writes nothing.
    JsxExpression { dot_dot_dot: bool, expression: Option<Box<Node>> },
    JsxAttributes { properties: Vec<Node> },
    JsxAttribute { name: Box<Node>, initializer: Option<Box<Node>> },
    JsxSpreadAttribute { expression: Box<Node> },
    JsxNamespacedName { namespace: String, name: String },
}

} // verus!
