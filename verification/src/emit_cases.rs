use vstd::prelude::*;

verus! {

/// A source text, the text the printer is expected to print for it once it is
/// parsed, and whether it is read as TSX.
pub struct EmitCase {
    pub title: String,
    pub input: String,
    pub output: String,
    pub jsx: bool,
}

impl View for EmitCase {
    type V = (Seq<char>, Seq<char>, Seq<char>, bool);

    /// The title, input, output and TSX flag of a case.
    open spec fn view(&self) -> (Seq<char>, Seq<char>, Seq<char>, bool) {
        (self.title@, self.input@, self.output@, self.jsx)
    }
}

/// The cases of a list, each as its title, input, output and TSX flag.
pub open spec fn case_views(cases: Seq<EmitCase>) -> Seq<(Seq<char>, Seq<char>, Seq<char>, bool)> {
    cases.map_values(|c: EmitCase| c@)
}

/// The number of cases in `emit_cases_from_go_source`.
pub const EMIT_CASE_COUNT: usize = 554;

/// The table of cases, each as its title, input, output and TSX flag.
pub open spec fn emit_case_table() -> Seq<(Seq<char>, Seq<char>, Seq<char>, bool)> {
    emit_case_table_1()
        + emit_case_table_2()
        + emit_case_table_3()
        + emit_case_table_4()
        + emit_case_table_5()
        + emit_case_table_6()
        + emit_case_table_7()
        + emit_case_table_8()
        + emit_case_table_9()
        + emit_case_table_10()
        + emit_case_table_11()
        + emit_case_table_12()
        + emit_case_table_13()
        + emit_case_table_14()
        + emit_case_table_15()
        + emit_case_table_16()
        + emit_case_table_17()
        + emit_case_table_18()
        + emit_case_table_19()
        + emit_case_table_20()
        + emit_case_table_21()
        + emit_case_table_22()
        + emit_case_table_23()
        + emit_case_table_24()
        + emit_case_table_25()
        + emit_case_table_26()
        + emit_case_table_27()
        + emit_case_table_28()
}

/// Cases of source text and the text printed for it, one per construct of the
/// language the printer lays out.
pub fn emit_cases_from_go_source() -> (cases: Vec<EmitCase>)
    ensures
        cases.len() == EMIT_CASE_COUNT,
        case_views(cases@) == emit_case_table(),
{
    let mut cases: Vec<EmitCase> = Vec::new();
    let ghost s0 = case_views(cases@);
    push_cases_1(&mut cases);
    push_cases_2(&mut cases);
    push_cases_3(&mut cases);
    push_cases_4(&mut cases);
    push_cases_5(&mut cases);
    push_cases_6(&mut cases);
    push_cases_7(&mut cases);
    push_cases_8(&mut cases);
    push_cases_9(&mut cases);
    push_cases_10(&mut cases);
    push_cases_11(&mut cases);
    push_cases_12(&mut cases);
    push_cases_13(&mut cases);
    push_cases_14(&mut cases);
    push_cases_15(&mut cases);
    push_cases_16(&mut cases);
    push_cases_17(&mut cases);
    push_cases_18(&mut cases);
    push_cases_19(&mut cases);
    push_cases_20(&mut cases);
    push_cases_21(&mut cases);
    push_cases_22(&mut cases);
    push_cases_23(&mut cases);
    push_cases_24(&mut cases);
    push_cases_25(&mut cases);
    push_cases_26(&mut cases);
    push_cases_27(&mut cases);
    push_cases_28(&mut cases);
    proof {
        assert(s0 =~= Seq::<(Seq<char>, Seq<char>, Seq<char>, bool)>::empty());
        assert(case_views(cases@) =~= emit_case_table());
    }
    cases
}

/// Appends one case.
fn push_case(cases: &mut Vec<EmitCase>, title: &str, input: &str, output: &str, jsx: bool)
    ensures
        case_views(final(cases)@) == case_views(old(cases)@).push((title@, input@, output@, jsx)),
{
    cases.push(EmitCase {
        title: String::from_str(title),
        input: String::from_str(input),
        output: String::from_str(output),
        jsx,
    });
    proof {
        assert(case_views(cases@) =~= case_views(old(cases)@).push((title@, input@, output@, jsx)));
    }
}

/// Cases 1 to 20 of the table.
pub open spec fn emit_case_table_1() -> Seq<(Seq<char>, Seq<char>, Seq<char>, bool)> {
    seq![
        ("StringLiteral#1"@, ";\"test\""@, ";\n\"test\";"@, false),
        ("StringLiteral#2"@, ";'test'"@, ";\n'test';"@, false),
        ("NumericLiteral#1"@, "0"@, "0;"@, false),
        ("NumericLiteral#2"@, "10_000"@, "10000;"@, false),
        ("BigIntLiteral#1"@, "0n"@, "0n;"@, false),
        ("BigIntLiteral#2"@, "10_000n"@, "10000n;"@, false),
        ("BooleanLiteral#1"@, "true"@, "true;"@, false),
        ("BooleanLiteral#2"@, "false"@, "false;"@, false),
        ("NoSubstitutionTemplateLiteral"@, "``"@, "``;"@, false),
        ("NoSubstitutionTemplateLiteral#2"@, "`\n`"@, "`\n`;"@, false),
        ("RegularExpressionLiteral#1"@, "/a/"@, "/a/;"@, false),
        ("RegularExpressionLiteral#2"@, "/a/g"@, "/a/g;"@, false),
        ("NullLiteral"@, "null"@, "null;"@, false),
        ("ThisExpression"@, "this"@, "this;"@, false),
        ("SuperExpression"@, "super()"@, "super();"@, false),
        ("ImportExpression"@, "import()"@, "import();"@, false),
        ("PropertyAccess#1"@, "a.b"@, "a.b;"@, false),
        ("PropertyAccess#2"@, "a.#b"@, "a.#b;"@, false),
        ("PropertyAccess#3"@, "a?.b"@, "a?.b;"@, false),
        ("PropertyAccess#4"@, "a?.b.c"@, "a?.b.c;"@, false),
    ]
}

/// Appends cases 1 to 20 of the table.
#[verifier::spinoff_prover]
fn push_cases_1(cases: &mut Vec<EmitCase>)
    ensures
        case_views(final(cases)@) == case_views(old(cases)@) + emit_case_table_1(),
{
    let ghost s0 = case_views(cases@);
    push_case(cases, "StringLiteral#1", ";\"test\"", ";\n\"test\";", false);
    push_case(cases, "StringLiteral#2", ";'test'", ";\n'test';", false);
    push_case(cases, "NumericLiteral#1", "0", "0;", false);
    push_case(cases, "NumericLiteral#2", "10_000", "10000;", false);
    push_case(cases, "BigIntLiteral#1", "0n", "0n;", false);
    push_case(cases, "BigIntLiteral#2", "10_000n", "10000n;", false);
    push_case(cases, "BooleanLiteral#1", "true", "true;", false);
    push_case(cases, "BooleanLiteral#2", "false", "false;", false);
    push_case(cases, "NoSubstitutionTemplateLiteral", "``", "``;", false);
    push_case(cases, "NoSubstitutionTemplateLiteral#2", "`\n`", "`\n`;", false);
    push_case(cases, "RegularExpressionLiteral#1", "/a/", "/a/;", false);
    push_case(cases, "RegularExpressionLiteral#2", "/a/g", "/a/g;", false);
    push_case(cases, "NullLiteral", "null", "null;", false);
    push_case(cases, "ThisExpression", "this", "this;", false);
    push_case(cases, "SuperExpression", "super()", "super();", false);
    push_case(cases, "ImportExpression", "import()", "import();", false);
    push_case(cases, "PropertyAccess#1", "a.b", "a.b;", false);
    push_case(cases, "PropertyAccess#2", "a.#b", "a.#b;", false);
    push_case(cases, "PropertyAccess#3", "a?.b", "a?.b;", false);
    push_case(cases, "PropertyAccess#4", "a?.b.c", "a?.b.c;", false);
    proof {
        assert(case_views(cases@) =~= s0 + emit_case_table_1());
    }
}

/// Cases 21 to 40 of the table.
pub open spec fn emit_case_table_2() -> Seq<(Seq<char>, Seq<char>, Seq<char>, bool)> {
    seq![
        ("PropertyAccess#5"@, "1..b"@, "1..b;"@, false),
        ("PropertyAccess#6"@, "1.0.b"@, "1.0.b;"@, false),
        ("PropertyAccess#7"@, "0x1.b"@, "0x1.b;"@, false),
        ("PropertyAccess#8"@, "0b1.b"@, "0b1.b;"@, false),
        ("PropertyAccess#9"@, "0o1.b"@, "0o1.b;"@, false),
        ("PropertyAccess#10"@, "10e1.b"@, "10e1.b;"@, false),
        ("PropertyAccess#11"@, "10E1.b"@, "10E1.b;"@, false),
        ("PropertyAccess#12"@, "a.b?.c"@, "a.b?.c;"@, false),
        ("PropertyAccess#13"@, "a\n.b"@, "a\n    .b;"@, false),
        ("PropertyAccess#14"@, "a.\nb"@, "a.\n    b;"@, false),
        ("ElementAccess#1"@, "a[b]"@, "a[b];"@, false),
        ("ElementAccess#2"@, "a?.[b]"@, "a?.[b];"@, false),
        ("ElementAccess#3"@, "a?.[b].c"@, "a?.[b].c;"@, false),
        ("CallExpression#1"@, "a()"@, "a();"@, false),
        ("CallExpression#2"@, "a<T>()"@, "a<T>();"@, false),
        ("CallExpression#3"@, "a(b)"@, "a(b);"@, false),
        ("CallExpression#4"@, "a<T>(b)"@, "a<T>(b);"@, false),
        ("CallExpression#5"@, "a(b).c"@, "a(b).c;"@, false),
        ("CallExpression#6"@, "a<T>(b).c"@, "a<T>(b).c;"@, false),
        ("CallExpression#7"@, "a?.(b)"@, "a?.(b);"@, false),
    ]
}

/// Appends cases 21 to 40 of the table.
#[verifier::spinoff_prover]
fn push_cases_2(cases: &mut Vec<EmitCase>)
    ensures
        case_views(final(cases)@) == case_views(old(cases)@) + emit_case_table_2(),
{
    let ghost s0 = case_views(cases@);
    push_case(cases, "PropertyAccess#5", "1..b", "1..b;", false);
    push_case(cases, "PropertyAccess#6", "1.0.b", "1.0.b;", false);
    push_case(cases, "PropertyAccess#7", "0x1.b", "0x1.b;", false);
    push_case(cases, "PropertyAccess#8", "0b1.b", "0b1.b;", false);
    push_case(cases, "PropertyAccess#9", "0o1.b", "0o1.b;", false);
    push_case(cases, "PropertyAccess#10", "10e1.b", "10e1.b;", false);
    push_case(cases, "PropertyAccess#11", "10E1.b", "10E1.b;", false);
    push_case(cases, "PropertyAccess#12", "a.b?.c", "a.b?.c;", false);
    push_case(cases, "PropertyAccess#13", "a\n.b", "a\n    .b;", false);
    push_case(cases, "PropertyAccess#14", "a.\nb", "a.\n    b;", false);
    push_case(cases, "ElementAccess#1", "a[b]", "a[b];", false);
    push_case(cases, "ElementAccess#2", "a?.[b]", "a?.[b];", false);
    push_case(cases, "ElementAccess#3", "a?.[b].c", "a?.[b].c;", false);
    push_case(cases, "CallExpression#1", "a()", "a();", false);
    push_case(cases, "CallExpression#2", "a<T>()", "a<T>();", false);
    push_case(cases, "CallExpression#3", "a(b)", "a(b);", false);
    push_case(cases, "CallExpression#4", "a<T>(b)", "a<T>(b);", false);
    push_case(cases, "CallExpression#5", "a(b).c", "a(b).c;", false);
    push_case(cases, "CallExpression#6", "a<T>(b).c", "a<T>(b).c;", false);
    push_case(cases, "CallExpression#7", "a?.(b)", "a?.(b);", false);
    proof {
        assert(case_views(cases@) =~= s0 + emit_case_table_2());
    }
}

/// Cases 41 to 60 of the table.
pub open spec fn emit_case_table_3() -> Seq<(Seq<char>, Seq<char>, Seq<char>, bool)> {
    seq![
        ("CallExpression#8"@, "a?.<T>(b)"@, "a?.<T>(b);"@, false),
        ("CallExpression#9"@, "a?.(b).c"@, "a?.(b).c;"@, false),
        ("CallExpression#10"@, "a?.<T>(b).c"@, "a?.<T>(b).c;"@, false),
        ("CallExpression#11"@, "a<T, U>()"@, "a<T, U>();"@, false),
        ("CallExpression#13"@, "a?.b()"@, "a?.b();"@, false),
        ("NewExpression#1"@, "new a"@, "new a;"@, false),
        ("NewExpression#2"@, "new a.b"@, "new a.b;"@, false),
        ("NewExpression#3"@, "new a()"@, "new a();"@, false),
        ("NewExpression#4"@, "new a.b()"@, "new a.b();"@, false),
        ("NewExpression#5"@, "new a<T>()"@, "new a<T>();"@, false),
        ("NewExpression#6"@, "new a.b<T>()"@, "new a.b<T>();"@, false),
        ("NewExpression#7"@, "new a(b)"@, "new a(b);"@, false),
        ("NewExpression#8"@, "new a.b(c)"@, "new a.b(c);"@, false),
        ("NewExpression#9"@, "new a<T>(b)"@, "new a<T>(b);"@, false),
        ("NewExpression#10"@, "new a.b<T>(c)"@, "new a.b<T>(c);"@, false),
        ("NewExpression#11"@, "new a(b).c"@, "new a(b).c;"@, false),
        ("NewExpression#12"@, "new a<T>(b).c"@, "new a<T>(b).c;"@, false),
        ("TaggedTemplateExpression#1"@, "tag``"@, "tag ``;"@, false),
        ("TaggedTemplateExpression#2"@, "tag<T>``"@, "tag<T> ``;"@, false),
        ("TypeAssertionExpression#1"@, "<T>a"@, "<T>a;"@, false),
    ]
}

/// Appends cases 41 to 60 of the table.
#[verifier::spinoff_prover]
fn push_cases_3(cases: &mut Vec<EmitCase>)
    ensures
        case_views(final(cases)@) == case_views(old(cases)@) + emit_case_table_3(),
{
    let ghost s0 = case_views(cases@);
    push_case(cases, "CallExpression#8", "a?.<T>(b)", "a?.<T>(b);", false);
    push_case(cases, "CallExpression#9", "a?.(b).c", "a?.(b).c;", false);
    push_case(cases, "CallExpression#10", "a?.<T>(b).c", "a?.<T>(b).c;", false);
    push_case(cases, "CallExpression#11", "a<T, U>()", "a<T, U>();", false);
    push_case(cases, "CallExpression#13", "a?.b()", "a?.b();", false);
    push_case(cases, "NewExpression#1", "new a", "new a;", false);
    push_case(cases, "NewExpression#2", "new a.b", "new a.b;", false);
    push_case(cases, "NewExpression#3", "new a()", "new a();", false);
    push_case(cases, "NewExpression#4", "new a.b()", "new a.b();", false);
    push_case(cases, "NewExpression#5", "new a<T>()", "new a<T>();", false);
    push_case(cases, "NewExpression#6", "new a.b<T>()", "new a.b<T>();", false);
    push_case(cases, "NewExpression#7", "new a(b)", "new a(b);", false);
    push_case(cases, "NewExpression#8", "new a.b(c)", "new a.b(c);", false);
    push_case(cases, "NewExpression#9", "new a<T>(b)", "new a<T>(b);", false);
    push_case(cases, "NewExpression#10", "new a.b<T>(c)", "new a.b<T>(c);", false);
    push_case(cases, "NewExpression#11", "new a(b).c", "new a(b).c;", false);
    push_case(cases, "NewExpression#12", "new a<T>(b).c", "new a<T>(b).c;", false);
    push_case(cases, "TaggedTemplateExpression#1", "tag``", "tag ``;", false);
    push_case(cases, "TaggedTemplateExpression#2", "tag<T>``", "tag<T> ``;", false);
    push_case(cases, "TypeAssertionExpression#1", "<T>a", "<T>a;", false);
    proof {
        assert(case_views(cases@) =~= s0 + emit_case_table_3());
    }
}

/// Cases 61 to 80 of the table.
pub open spec fn emit_case_table_4() -> Seq<(Seq<char>, Seq<char>, Seq<char>, bool)> {
    seq![
        ("FunctionExpression#1"@, "(function(){})"@, "(function () { });"@, false),
        ("FunctionExpression#2"@, "(function f(){})"@, "(function f() { });"@, false),
        ("FunctionExpression#3"@, "(function*f(){})"@, "(function* f() { });"@, false),
        ("FunctionExpression#4"@, "(async function f(){})"@, "(async function f() { });"@, false),
        ("FunctionExpression#5"@, "(async function*f(){})"@, "(async function* f() { });"@, false),
        ("FunctionExpression#6"@, "(function<T>(){})"@, "(function <T>() { });"@, false),
        ("FunctionExpression#7"@, "(function(a){})"@, "(function (a) { });"@, false),
        ("FunctionExpression#8"@, "(function():T{})"@, "(function (): T { });"@, false),
        ("ArrowFunction#1"@, "a=>{}"@, "a => { };"@, false),
        ("ArrowFunction#2"@, "()=>{}"@, "() => { };"@, false),
        ("ArrowFunction#3"@, "(a)=>{}"@, "(a) => { };"@, false),
        ("ArrowFunction#4"@, "<T>(a)=>{}"@, "<T>(a) => { };"@, false),
        ("ArrowFunction#5"@, "async a=>{}"@, "async (a) => { };"@, false),
        ("ArrowFunction#6"@, "async()=>{}"@, "async () => { };"@, false),
        ("ArrowFunction#7"@, "async<T>()=>{}"@, "async <T>() => { };"@, false),
        ("ArrowFunction#8"@, "():T=>{}"@, "(): T => { };"@, false),
        ("ArrowFunction#9"@, "()=>a"@, "() => a;"@, false),
        ("DeleteExpression"@, "delete a"@, "delete a;"@, false),
        ("TypeOfExpression"@, "typeof a"@, "typeof a;"@, false),
        ("VoidExpression"@, "void a"@, "void a;"@, false),
    ]
}

/// Appends cases 61 to 80 of the table.
#[verifier::spinoff_prover]
fn push_cases_4(cases: &mut Vec<EmitCase>)
    ensures
        case_views(final(cases)@) == case_views(old(cases)@) + emit_case_table_4(),
{
    let ghost s0 = case_views(cases@);
    push_case(cases, "FunctionExpression#1", "(function(){})", "(function () { });", false);
    push_case(cases, "FunctionExpression#2", "(function f(){})", "(function f() { });", false);
    push_case(cases, "FunctionExpression#3", "(function*f(){})", "(function* f() { });", false);
    push_case(cases, "FunctionExpression#4", "(async function f(){})", "(async function f() { });", false);
    push_case(cases, "FunctionExpression#5", "(async function*f(){})", "(async function* f() { });", false);
    push_case(cases, "FunctionExpression#6", "(function<T>(){})", "(function <T>() { });", false);
    push_case(cases, "FunctionExpression#7", "(function(a){})", "(function (a) { });", false);
    push_case(cases, "FunctionExpression#8", "(function():T{})", "(function (): T { });", false);
    push_case(cases, "ArrowFunction#1", "a=>{}", "a => { };", false);
    push_case(cases, "ArrowFunction#2", "()=>{}", "() => { };", false);
    push_case(cases, "ArrowFunction#3", "(a)=>{}", "(a) => { };", false);
    push_case(cases, "ArrowFunction#4", "<T>(a)=>{}", "<T>(a) => { };", false);
    push_case(cases, "ArrowFunction#5", "async a=>{}", "async (a) => { };", false);
    push_case(cases, "ArrowFunction#6", "async()=>{}", "async () => { };", false);
    push_case(cases, "ArrowFunction#7", "async<T>()=>{}", "async <T>() => { };", false);
    push_case(cases, "ArrowFunction#8", "():T=>{}", "(): T => { };", false);
    push_case(cases, "ArrowFunction#9", "()=>a", "() => a;", false);
    push_case(cases, "DeleteExpression", "delete a", "delete a;", false);
    push_case(cases, "TypeOfExpression", "typeof a", "typeof a;", false);
    push_case(cases, "VoidExpression", "void a", "void a;", false);
    proof {
        assert(case_views(cases@) =~= s0 + emit_case_table_4());
    }
}

/// Cases 81 to 100 of the table.
pub open spec fn emit_case_table_5() -> Seq<(Seq<char>, Seq<char>, Seq<char>, bool)> {
    seq![
        ("AwaitExpression"@, "await a"@, "await a;"@, false),
        ("PrefixUnaryExpression#1"@, "+a"@, "+a;"@, false),
        ("PrefixUnaryExpression#2"@, "++a"@, "++a;"@, false),
        ("PrefixUnaryExpression#3"@, "+ +a"@, "+ +a;"@, false),
        ("PrefixUnaryExpression#4"@, "+ ++a"@, "+ ++a;"@, false),
        ("PrefixUnaryExpression#5"@, "-a"@, "-a;"@, false),
        ("PrefixUnaryExpression#6"@, "--a"@, "--a;"@, false),
        ("PrefixUnaryExpression#7"@, "- -a"@, "- -a;"@, false),
        ("PrefixUnaryExpression#8"@, "- --a"@, "- --a;"@, false),
        ("PrefixUnaryExpression#9"@, "+-a"@, "+-a;"@, false),
        ("PrefixUnaryExpression#10"@, "+--a"@, "+--a;"@, false),
        ("PrefixUnaryExpression#11"@, "-+a"@, "-+a;"@, false),
        ("PrefixUnaryExpression#12"@, "-++a"@, "-++a;"@, false),
        ("PrefixUnaryExpression#13"@, "~a"@, "~a;"@, false),
        ("PrefixUnaryExpression#14"@, "!a"@, "!a;"@, false),
        ("PostfixUnaryExpression#1"@, "a++"@, "a++;"@, false),
        ("PostfixUnaryExpression#2"@, "a--"@, "a--;"@, false),
        ("BinaryExpression#1"@, "a,b"@, "a, b;"@, false),
        ("BinaryExpression#2"@, "a+b"@, "a + b;"@, false),
        ("BinaryExpression#3"@, "a**b"@, "a ** b;"@, false),
    ]
}

/// Appends cases 81 to 100 of the table.
#[verifier::spinoff_prover]
fn push_cases_5(cases: &mut Vec<EmitCase>)
    ensures
        case_views(final(cases)@) == case_views(old(cases)@) + emit_case_table_5(),
{
    let ghost s0 = case_views(cases@);
    push_case(cases, "AwaitExpression", "await a", "await a;", false);
    push_case(cases, "PrefixUnaryExpression#1", "+a", "+a;", false);
    push_case(cases, "PrefixUnaryExpression#2", "++a", "++a;", false);
    push_case(cases, "PrefixUnaryExpression#3", "+ +a", "+ +a;", false);
    push_case(cases, "PrefixUnaryExpression#4", "+ ++a", "+ ++a;", false);
    push_case(cases, "PrefixUnaryExpression#5", "-a", "-a;", false);
    push_case(cases, "PrefixUnaryExpression#6", "--a", "--a;", false);
    push_case(cases, "PrefixUnaryExpression#7", "- -a", "- -a;", false);
    push_case(cases, "PrefixUnaryExpression#8", "- --a", "- --a;", false);
    push_case(cases, "PrefixUnaryExpression#9", "+-a", "+-a;", false);
    push_case(cases, "PrefixUnaryExpression#10", "+--a", "+--a;", false);
    push_case(cases, "PrefixUnaryExpression#11", "-+a", "-+a;", false);
    push_case(cases, "PrefixUnaryExpression#12", "-++a", "-++a;", false);
    push_case(cases, "PrefixUnaryExpression#13", "~a", "~a;", false);
    push_case(cases, "PrefixUnaryExpression#14", "!a", "!a;", false);
    push_case(cases, "PostfixUnaryExpression#1", "a++", "a++;", false);
    push_case(cases, "PostfixUnaryExpression#2", "a--", "a--;", false);
    push_case(cases, "BinaryExpression#1", "a,b", "a, b;", false);
    push_case(cases, "BinaryExpression#2", "a+b", "a + b;", false);
    push_case(cases, "BinaryExpression#3", "a**b", "a ** b;", false);
    proof {
        assert(case_views(cases@) =~= s0 + emit_case_table_5());
    }
}

/// Cases 101 to 120 of the table.
pub open spec fn emit_case_table_6() -> Seq<(Seq<char>, Seq<char>, Seq<char>, bool)> {
    seq![
        ("BinaryExpression#4"@, "a instanceof b"@, "a instanceof b;"@, false),
        ("BinaryExpression#5"@, "a in b"@, "a in b;"@, false),
        ("BinaryExpression#6"@, "a\n&& b"@, "a\n    && b;"@, false),
        ("BinaryExpression#7"@, "a &&\nb"@, "a &&\n    b;"@, false),
        ("ConditionalExpression#1"@, "a?b:c"@, "a ? b : c;"@, false),
        ("ConditionalExpression#2"@, "a\n?b:c"@, "a\n    ? b : c;"@, false),
        ("ConditionalExpression#3"@, "a?\nb:c"@, "a ?\n    b : c;"@, false),
        ("ConditionalExpression#4"@, "a?b\n:c"@, "a ? b\n    : c;"@, false),
        ("ConditionalExpression#5"@, "a?b:\nc"@, "a ? b :\n    c;"@, false),
        ("TemplateExpression#1"@, "`a${b}c`"@, "`a${b}c`;"@, false),
        ("TemplateExpression#2"@, "`a${b}c${d}e`"@, "`a${b}c${d}e`;"@, false),
        ("YieldExpression#1"@, "(function*() { yield })"@, "(function* () { yield; });"@, false),
        ("YieldExpression#2"@, "(function*() { yield a })"@, "(function* () { yield a; });"@, false),
        ("YieldExpression#3"@, "(function*() { yield*a })"@, "(function* () { yield* a; });"@, false),
        ("SpreadElement"@, "[...a]"@, "[...a];"@, false),
        ("ClassExpression#1"@, "(class {})"@, "(class {\n});"@, false),
        ("ClassExpression#2"@, "(class a {})"@, "(class a {\n});"@, false),
        ("ClassExpression#3"@, "(class<T>{})"@, "(class<T> {\n});"@, false),
        ("ClassExpression#4"@, "(class a<T>{})"@, "(class a<T> {\n});"@, false),
        ("ClassExpression#5"@, "(class extends b {})"@, "(class extends b {\n});"@, false),
    ]
}

/// Appends cases 101 to 120 of the table.
#[verifier::spinoff_prover]
fn push_cases_6(cases: &mut Vec<EmitCase>)
    ensures
        case_views(final(cases)@) == case_views(old(cases)@) + emit_case_table_6(),
{
    let ghost s0 = case_views(cases@);
    push_case(cases, "BinaryExpression#4", "a instanceof b", "a instanceof b;", false);
    push_case(cases, "BinaryExpression#5", "a in b", "a in b;", false);
    push_case(cases, "BinaryExpression#6", "a\n&& b", "a\n    && b;", false);
    push_case(cases, "BinaryExpression#7", "a &&\nb", "a &&\n    b;", false);
    push_case(cases, "ConditionalExpression#1", "a?b:c", "a ? b : c;", false);
    push_case(cases, "ConditionalExpression#2", "a\n?b:c", "a\n    ? b : c;", false);
    push_case(cases, "ConditionalExpression#3", "a?\nb:c", "a ?\n    b : c;", false);
    push_case(cases, "ConditionalExpression#4", "a?b\n:c", "a ? b\n    : c;", false);
    push_case(cases, "ConditionalExpression#5", "a?b:\nc", "a ? b :\n    c;", false);
    push_case(cases, "TemplateExpression#1", "`a${b}c`", "`a${b}c`;", false);
    push_case(cases, "TemplateExpression#2", "`a${b}c${d}e`", "`a${b}c${d}e`;", false);
    push_case(cases, "YieldExpression#1", "(function*() { yield })", "(function* () { yield; });", false);
    push_case(cases, "YieldExpression#2", "(function*() { yield a })", "(function* () { yield a; });", false);
    push_case(cases, "YieldExpression#3", "(function*() { yield*a })", "(function* () { yield* a; });", false);
    push_case(cases, "SpreadElement", "[...a]", "[...a];", false);
    push_case(cases, "ClassExpression#1", "(class {})", "(class {\n});", false);
    push_case(cases, "ClassExpression#2", "(class a {})", "(class a {\n});", false);
    push_case(cases, "ClassExpression#3", "(class<T>{})", "(class<T> {\n});", false);
    push_case(cases, "ClassExpression#4", "(class a<T>{})", "(class a<T> {\n});", false);
    push_case(cases, "ClassExpression#5", "(class extends b {})", "(class extends b {\n});", false);
    proof {
        assert(case_views(cases@) =~= s0 + emit_case_table_6());
    }
}

/// Cases 121 to 140 of the table.
pub open spec fn emit_case_table_7() -> Seq<(Seq<char>, Seq<char>, Seq<char>, bool)> {
    seq![
        ("ClassExpression#6"@, "(class a extends b {})"@, "(class a extends b {\n});"@, false),
        ("ClassExpression#7"@, "(class implements b {})"@, "(class implements b {\n});"@, false),
        ("ClassExpression#8"@, "(class a implements b {})"@, "(class a implements b {\n});"@, false),
        ("ClassExpression#9"@, "(class implements b, c {})"@, "(class implements b, c {\n});"@, false),
        ("ClassExpression#10"@, "(class a implements b, c {})"@, "(class a implements b, c {\n});"@, false),
        ("ClassExpression#11"@, "(class extends b implements c, d {})"@, "(class extends b implements c, d {\n});"@, false),
        ("ClassExpression#12"@, "(class a extends b implements c, d {})"@, "(class a extends b implements c, d {\n});"@, false),
        ("ClassExpression#13"@, "(@a class {})"@, "(\n@a\nclass {\n});"@, false),
        ("OmittedExpression"@, "[,]"@, "[,];"@, false),
        ("ExpressionWithTypeArguments"@, "a<T>"@, "a<T>;"@, false),
        ("AsExpression"@, "a as T"@, "a as T;"@, false),
        ("SatisfiesExpression"@, "a satisfies T"@, "a satisfies T;"@, false),
        ("NonNullExpression"@, "a!"@, "a!;"@, false),
        ("MetaProperty#1"@, "new.target"@, "new.target;"@, false),
        ("MetaProperty#2"@, "import.meta"@, "import.meta;"@, false),
        ("ArrayLiteralExpression#1"@, "[]"@, "[];"@, false),
        ("ArrayLiteralExpression#2"@, "[a]"@, "[a];"@, false),
        ("ArrayLiteralExpression#3"@, "[a,]"@, "[a,];"@, false),
        ("ArrayLiteralExpression#4"@, "[,a]"@, "[, a];"@, false),
        ("ArrayLiteralExpression#5"@, "[...a]"@, "[...a];"@, false),
    ]
}

/// Appends cases 121 to 140 of the table.
#[verifier::spinoff_prover]
fn push_cases_7(cases: &mut Vec<EmitCase>)
    ensures
        case_views(final(cases)@) == case_views(old(cases)@) + emit_case_table_7(),
{
    let ghost s0 = case_views(cases@);
    push_case(cases, "ClassExpression#6", "(class a extends b {})", "(class a extends b {\n});", false);
    push_case(cases, "ClassExpression#7", "(class implements b {})", "(class implements b {\n});", false);
    push_case(cases, "ClassExpression#8", "(class a implements b {})", "(class a implements b {\n});", false);
    push_case(cases, "ClassExpression#9", "(class implements b, c {})", "(class implements b, c {\n});", false);
    push_case(cases, "ClassExpression#10", "(class a implements b, c {})", "(class a implements b, c {\n});", false);
    push_case(cases, "ClassExpression#11", "(class extends b implements c, d {})", "(class extends b implements c, d {\n});", false);
    push_case(cases, "ClassExpression#12", "(class a extends b implements c, d {})", "(class a extends b implements c, d {\n});", false);
    push_case(cases, "ClassExpression#13", "(@a class {})", "(\n@a\nclass {\n});", false);
    push_case(cases, "OmittedExpression", "[,]", "[,];", false);
    push_case(cases, "ExpressionWithTypeArguments", "a<T>", "a<T>;", false);
    push_case(cases, "AsExpression", "a as T", "a as T;", false);
    push_case(cases, "SatisfiesExpression", "a satisfies T", "a satisfies T;", false);
    push_case(cases, "NonNullExpression", "a!", "a!;", false);
    push_case(cases, "MetaProperty#1", "new.target", "new.target;", false);
    push_case(cases, "MetaProperty#2", "import.meta", "import.meta;", false);
    push_case(cases, "ArrayLiteralExpression#1", "[]", "[];", false);
    push_case(cases, "ArrayLiteralExpression#2", "[a]", "[a];", false);
    push_case(cases, "ArrayLiteralExpression#3", "[a,]", "[a,];", false);
    push_case(cases, "ArrayLiteralExpression#4", "[,a]", "[, a];", false);
    push_case(cases, "ArrayLiteralExpression#5", "[...a]", "[...a];", false);
    proof {
        assert(case_views(cases@) =~= s0 + emit_case_table_7());
    }
}

/// Cases 141 to 160 of the table.
pub open spec fn emit_case_table_8() -> Seq<(Seq<char>, Seq<char>, Seq<char>, bool)> {
    seq![
        ("ArrayLiteralExpression#6"@, "const array = [/* comment */];"@, "const array = [ /* comment */];"@, false),
        ("ObjectLiteralExpression#1"@, "({})"@, "({});"@, false),
        ("ObjectLiteralExpression#2"@, "({a,})"@, "({ a, });"@, false),
        ("ShorthandPropertyAssignment"@, "({a})"@, "({ a });"@, false),
        ("PropertyAssignment"@, "({a:b})"@, "({ a: b });"@, false),
        ("SpreadAssignment"@, "({...a})"@, "({ ...a });"@, false),
        ("Block"@, "{}"@, "{ }"@, false),
        ("VariableStatement#1"@, "var a"@, "var a;"@, false),
        ("VariableStatement#2"@, "let a"@, "let a;"@, false),
        ("VariableStatement#3"@, "const a = b"@, "const a = b;"@, false),
        ("VariableStatement#4"@, "using a = b"@, "using a = b;"@, false),
        ("VariableStatement#5"@, "await using a = b"@, "await using a = b;"@, false),
        ("EmptyStatement"@, ";"@, ";"@, false),
        ("IfStatement#1"@, "if(a);"@, "if (a)\n    ;"@, false),
        ("IfStatement#2"@, "if(a);else;"@, "if (a)\n    ;\nelse\n    ;"@, false),
        ("IfStatement#3"@, "if(a);else{}"@, "if (a)\n    ;\nelse { }"@, false),
        ("IfStatement#4"@, "if(a);else if(b);"@, "if (a)\n    ;\nelse if (b)\n    ;"@, false),
        ("IfStatement#5"@, "if(a);else if(b) {}"@, "if (a)\n    ;\nelse if (b) { }"@, false),
        ("IfStatement#6"@, "if(a) {}"@, "if (a) { }"@, false),
        ("IfStatement#7"@, "if(a) {} else;"@, "if (a) { }\nelse\n    ;"@, false),
    ]
}

/// Appends cases 141 to 160 of the table.
#[verifier::spinoff_prover]
fn push_cases_8(cases: &mut Vec<EmitCase>)
    ensures
        case_views(final(cases)@) == case_views(old(cases)@) + emit_case_table_8(),
{
    let ghost s0 = case_views(cases@);
    push_case(cases, "ArrayLiteralExpression#6", "const array = [/* comment */];", "const array = [ /* comment */];", false);
    push_case(cases, "ObjectLiteralExpression#1", "({})", "({});", false);
    push_case(cases, "ObjectLiteralExpression#2", "({a,})", "({ a, });", false);
    push_case(cases, "ShorthandPropertyAssignment", "({a})", "({ a });", false);
    push_case(cases, "PropertyAssignment", "({a:b})", "({ a: b });", false);
    push_case(cases, "SpreadAssignment", "({...a})", "({ ...a });", false);
    push_case(cases, "Block", "{}", "{ }", false);
    push_case(cases, "VariableStatement#1", "var a", "var a;", false);
    push_case(cases, "VariableStatement#2", "let a", "let a;", false);
    push_case(cases, "VariableStatement#3", "const a = b", "const a = b;", false);
    push_case(cases, "VariableStatement#4", "using a = b", "using a = b;", false);
    push_case(cases, "VariableStatement#5", "await using a = b", "await using a = b;", false);
    push_case(cases, "EmptyStatement", ";", ";", false);
    push_case(cases, "IfStatement#1", "if(a);", "if (a)\n    ;", false);
    push_case(cases, "IfStatement#2", "if(a);else;", "if (a)\n    ;\nelse\n    ;", false);
    push_case(cases, "IfStatement#3", "if(a);else{}", "if (a)\n    ;\nelse { }", false);
    push_case(cases, "IfStatement#4", "if(a);else if(b);", "if (a)\n    ;\nelse if (b)\n    ;", false);
    push_case(cases, "IfStatement#5", "if(a);else if(b) {}", "if (a)\n    ;\nelse if (b) { }", false);
    push_case(cases, "IfStatement#6", "if(a) {}", "if (a) { }", false);
    push_case(cases, "IfStatement#7", "if(a) {} else;", "if (a) { }\nelse\n    ;", false);
    proof {
        assert(case_views(cases@) =~= s0 + emit_case_table_8());
    }
}

/// Cases 161 to 180 of the table.
pub open spec fn emit_case_table_9() -> Seq<(Seq<char>, Seq<char>, Seq<char>, bool)> {
    seq![
        ("IfStatement#8"@, "if(a) {} else {}"@, "if (a) { }\nelse { }"@, false),
        ("IfStatement#9"@, "if(a) {} else if(b);"@, "if (a) { }\nelse if (b)\n    ;"@, false),
        ("IfStatement#10"@, "if(a) {} else if(b){}"@, "if (a) { }\nelse if (b) { }"@, false),
        ("DoStatement#1"@, "do;while(a);"@, "do\n    ;\nwhile (a);"@, false),
        ("DoStatement#2"@, "do {} while(a);"@, "do { } while (a);"@, false),
        ("WhileStatement#1"@, "while(a);"@, "while (a)\n    ;"@, false),
        ("WhileStatement#2"@, "while(a) {}"@, "while (a) { }"@, false),
        ("ForStatement#1"@, "for(;;);"@, "for (;;)\n    ;"@, false),
        ("ForStatement#2"@, "for(a;;);"@, "for (a;;)\n    ;"@, false),
        ("ForStatement#3"@, "for(var a;;);"@, "for (var a;;)\n    ;"@, false),
        ("ForStatement#4"@, "for(;a;);"@, "for (; a;)\n    ;"@, false),
        ("ForStatement#5"@, "for(;;a);"@, "for (;; a)\n    ;"@, false),
        ("ForStatement#6"@, "for(;;){}"@, "for (;;) { }"@, false),
        ("ForInStatement#1"@, "for(a in b);"@, "for (a in b)\n    ;"@, false),
        ("ForInStatement#2"@, "for(var a in b);"@, "for (var a in b)\n    ;"@, false),
        ("ForInStatement#3"@, "for(a in b){}"@, "for (a in b) { }"@, false),
        ("ForOfStatement#1"@, "for(a of b);"@, "for (a of b)\n    ;"@, false),
        ("ForOfStatement#2"@, "for(var a of b);"@, "for (var a of b)\n    ;"@, false),
        ("ForOfStatement#3"@, "for(a of b){}"@, "for (a of b) { }"@, false),
        ("ForOfStatement#4"@, "for await(a of b);"@, "for await (a of b)\n    ;"@, false),
    ]
}

/// Appends cases 161 to 180 of the table.
#[verifier::spinoff_prover]
fn push_cases_9(cases: &mut Vec<EmitCase>)
    ensures
        case_views(final(cases)@) == case_views(old(cases)@) + emit_case_table_9(),
{
    let ghost s0 = case_views(cases@);
    push_case(cases, "IfStatement#8", "if(a) {} else {}", "if (a) { }\nelse { }", false);
    push_case(cases, "IfStatement#9", "if(a) {} else if(b);", "if (a) { }\nelse if (b)\n    ;", false);
    push_case(cases, "IfStatement#10", "if(a) {} else if(b){}", "if (a) { }\nelse if (b) { }", false);
    push_case(cases, "DoStatement#1", "do;while(a);", "do\n    ;\nwhile (a);", false);
    push_case(cases, "DoStatement#2", "do {} while(a);", "do { } while (a);", false);
    push_case(cases, "WhileStatement#1", "while(a);", "while (a)\n    ;", false);
    push_case(cases, "WhileStatement#2", "while(a) {}", "while (a) { }", false);
    push_case(cases, "ForStatement#1", "for(;;);", "for (;;)\n    ;", false);
    push_case(cases, "ForStatement#2", "for(a;;);", "for (a;;)\n    ;", false);
    push_case(cases, "ForStatement#3", "for(var a;;);", "for (var a;;)\n    ;", false);
    push_case(cases, "ForStatement#4", "for(;a;);", "for (; a;)\n    ;", false);
    push_case(cases, "ForStatement#5", "for(;;a);", "for (;; a)\n    ;", false);
    push_case(cases, "ForStatement#6", "for(;;){}", "for (;;) { }", false);
    push_case(cases, "ForInStatement#1", "for(a in b);", "for (a in b)\n    ;", false);
    push_case(cases, "ForInStatement#2", "for(var a in b);", "for (var a in b)\n    ;", false);
    push_case(cases, "ForInStatement#3", "for(a in b){}", "for (a in b) { }", false);
    push_case(cases, "ForOfStatement#1", "for(a of b);", "for (a of b)\n    ;", false);
    push_case(cases, "ForOfStatement#2", "for(var a of b);", "for (var a of b)\n    ;", false);
    push_case(cases, "ForOfStatement#3", "for(a of b){}", "for (a of b) { }", false);
    push_case(cases, "ForOfStatement#4", "for await(a of b);", "for await (a of b)\n    ;", false);
    proof {
        assert(case_views(cases@) =~= s0 + emit_case_table_9());
    }
}

/// Cases 181 to 200 of the table.
pub open spec fn emit_case_table_10() -> Seq<(Seq<char>, Seq<char>, Seq<char>, bool)> {
    seq![
        ("ForOfStatement#5"@, "for await(var a of b);"@, "for await (var a of b)\n    ;"@, false),
        ("ForOfStatement#6"@, "for await(a of b){}"@, "for await (a of b) { }"@, false),
        ("ContinueStatement#1"@, "continue"@, "continue;"@, false),
        ("ContinueStatement#2"@, "continue a"@, "continue a;"@, false),
        ("BreakStatement#1"@, "break"@, "break;"@, false),
        ("BreakStatement#2"@, "break a"@, "break a;"@, false),
        ("ReturnStatement#1"@, "return"@, "return;"@, false),
        ("ReturnStatement#2"@, "return a"@, "return a;"@, false),
        ("WithStatement#1"@, "with(a);"@, "with (a)\n    ;"@, false),
        ("WithStatement#2"@, "with(a){}"@, "with (a) { }"@, false),
        ("SwitchStatement"@, "switch (a) {}"@, "switch (a) {\n}"@, false),
        ("CaseClause#1"@, "switch (a) {case b:}"@, "switch (a) {\n    case b:\n}"@, false),
        ("CaseClause#2"@, "switch (a) {case b:;}"@, "switch (a) {\n    case b: ;\n}"@, false),
        ("DefaultClause#1"@, "switch (a) {default:}"@, "switch (a) {\n    default:\n}"@, false),
        ("DefaultClause#2"@, "switch (a) {default:;}"@, "switch (a) {\n    default: ;\n}"@, false),
        ("LabeledStatement"@, "a:;"@, "a: ;"@, false),
        ("ThrowStatement"@, "throw a"@, "throw a;"@, false),
        ("TryStatement#1"@, "try {} catch {}"@, "try { }\ncatch { }"@, false),
        ("TryStatement#2"@, "try {} finally {}"@, "try { }\nfinally { }"@, false),
        ("TryStatement#3"@, "try {} catch {} finally {}"@, "try { }\ncatch { }\nfinally { }"@, false),
    ]
}

/// Appends cases 181 to 200 of the table.
#[verifier::spinoff_prover]
fn push_cases_10(cases: &mut Vec<EmitCase>)
    ensures
        case_views(final(cases)@) == case_views(old(cases)@) + emit_case_table_10(),
{
    let ghost s0 = case_views(cases@);
    push_case(cases, "ForOfStatement#5", "for await(var a of b);", "for await (var a of b)\n    ;", false);
    push_case(cases, "ForOfStatement#6", "for await(a of b){}", "for await (a of b) { }", false);
    push_case(cases, "ContinueStatement#1", "continue", "continue;", false);
    push_case(cases, "ContinueStatement#2", "continue a", "continue a;", false);
    push_case(cases, "BreakStatement#1", "break", "break;", false);
    push_case(cases, "BreakStatement#2", "break a", "break a;", false);
    push_case(cases, "ReturnStatement#1", "return", "return;", false);
    push_case(cases, "ReturnStatement#2", "return a", "return a;", false);
    push_case(cases, "WithStatement#1", "with(a);", "with (a)\n    ;", false);
    push_case(cases, "WithStatement#2", "with(a){}", "with (a) { }", false);
    push_case(cases, "SwitchStatement", "switch (a) {}", "switch (a) {\n}", false);
    push_case(cases, "CaseClause#1", "switch (a) {case b:}", "switch (a) {\n    case b:\n}", false);
    push_case(cases, "CaseClause#2", "switch (a) {case b:;}", "switch (a) {\n    case b: ;\n}", false);
    push_case(cases, "DefaultClause#1", "switch (a) {default:}", "switch (a) {\n    default:\n}", false);
    push_case(cases, "DefaultClause#2", "switch (a) {default:;}", "switch (a) {\n    default: ;\n}", false);
    push_case(cases, "LabeledStatement", "a:;", "a: ;", false);
    push_case(cases, "ThrowStatement", "throw a", "throw a;", false);
    push_case(cases, "TryStatement#1", "try {} catch {}", "try { }\ncatch { }", false);
    push_case(cases, "TryStatement#2", "try {} finally {}", "try { }\nfinally { }", false);
    push_case(cases, "TryStatement#3", "try {} catch {} finally {}", "try { }\ncatch { }\nfinally { }", false);
    proof {
        assert(case_views(cases@) =~= s0 + emit_case_table_10());
    }
}

/// Cases 201 to 220 of the table.
pub open spec fn emit_case_table_11() -> Seq<(Seq<char>, Seq<char>, Seq<char>, bool)> {
    seq![
        ("DebuggerStatement"@, "debugger"@, "debugger;"@, false),
        ("FunctionDeclaration#1"@, "export default function(){}"@, "export default function () { }"@, false),
        ("FunctionDeclaration#2"@, "function f(){}"@, "function f() { }"@, false),
        ("FunctionDeclaration#3"@, "function*f(){}"@, "function* f() { }"@, false),
        ("FunctionDeclaration#4"@, "async function f(){}"@, "async function f() { }"@, false),
        ("FunctionDeclaration#5"@, "async function*f(){}"@, "async function* f() { }"@, false),
        ("FunctionDeclaration#6"@, "function f<T>(){}"@, "function f<T>() { }"@, false),
        ("FunctionDeclaration#7"@, "function f(a){}"@, "function f(a) { }"@, false),
        ("FunctionDeclaration#8"@, "function f():T{}"@, "function f(): T { }"@, false),
        ("FunctionDeclaration#9"@, "function f();"@, "function f();"@, false),
        ("ClassDeclaration#1"@, "class a {}"@, "class a {\n}"@, false),
        ("ClassDeclaration#2"@, "class a<T>{}"@, "class a<T> {\n}"@, false),
        ("ClassDeclaration#3"@, "class a extends b {}"@, "class a extends b {\n}"@, false),
        ("ClassDeclaration#4"@, "class a implements b {}"@, "class a implements b {\n}"@, false),
        ("ClassDeclaration#5"@, "class a implements b, c {}"@, "class a implements b, c {\n}"@, false),
        ("ClassDeclaration#6"@, "class a extends b implements c, d {}"@, "class a extends b implements c, d {\n}"@, false),
        ("ClassDeclaration#7"@, "export default class {}"@, "export default class {\n}"@, false),
        ("ClassDeclaration#8"@, "export default class<T>{}"@, "export default class<T> {\n}"@, false),
        ("ClassDeclaration#9"@, "export default class extends b {}"@, "export default class extends b {\n}"@, false),
        ("ClassDeclaration#10"@, "export default class implements b {}"@, "export default class implements b {\n}"@, false),
    ]
}

/// Appends cases 201 to 220 of the table.
#[verifier::spinoff_prover]
fn push_cases_11(cases: &mut Vec<EmitCase>)
    ensures
        case_views(final(cases)@) == case_views(old(cases)@) + emit_case_table_11(),
{
    let ghost s0 = case_views(cases@);
    push_case(cases, "DebuggerStatement", "debugger", "debugger;", false);
    push_case(cases, "FunctionDeclaration#1", "export default function(){}", "export default function () { }", false);
    push_case(cases, "FunctionDeclaration#2", "function f(){}", "function f() { }", false);
    push_case(cases, "FunctionDeclaration#3", "function*f(){}", "function* f() { }", false);
    push_case(cases, "FunctionDeclaration#4", "async function f(){}", "async function f() { }", false);
    push_case(cases, "FunctionDeclaration#5", "async function*f(){}", "async function* f() { }", false);
    push_case(cases, "FunctionDeclaration#6", "function f<T>(){}", "function f<T>() { }", false);
    push_case(cases, "FunctionDeclaration#7", "function f(a){}", "function f(a) { }", false);
    push_case(cases, "FunctionDeclaration#8", "function f():T{}", "function f(): T { }", false);
    push_case(cases, "FunctionDeclaration#9", "function f();", "function f();", false);
    push_case(cases, "ClassDeclaration#1", "class a {}", "class a {\n}", false);
    push_case(cases, "ClassDeclaration#2", "class a<T>{}", "class a<T> {\n}", false);
    push_case(cases, "ClassDeclaration#3", "class a extends b {}", "class a extends b {\n}", false);
    push_case(cases, "ClassDeclaration#4", "class a implements b {}", "class a implements b {\n}", false);
    push_case(cases, "ClassDeclaration#5", "class a implements b, c {}", "class a implements b, c {\n}", false);
    push_case(cases, "ClassDeclaration#6", "class a extends b implements c, d {}", "class a extends b implements c, d {\n}", false);
    push_case(cases, "ClassDeclaration#7", "export default class {}", "export default class {\n}", false);
    push_case(cases, "ClassDeclaration#8", "export default class<T>{}", "export default class<T> {\n}", false);
    push_case(cases, "ClassDeclaration#9", "export default class extends b {}", "export default class extends b {\n}", false);
    push_case(cases, "ClassDeclaration#10", "export default class implements b {}", "export default class implements b {\n}", false);
    proof {
        assert(case_views(cases@) =~= s0 + emit_case_table_11());
    }
}

/// Cases 221 to 240 of the table.
pub open spec fn emit_case_table_12() -> Seq<(Seq<char>, Seq<char>, Seq<char>, bool)> {
    seq![
        ("ClassDeclaration#11"@, "export default class implements b, c {}"@, "export default class implements b, c {\n}"@, false),
        ("ClassDeclaration#12"@, "export default class extends b implements c, d {}"@, "export default class extends b implements c, d {\n}"@, false),
        ("ClassDeclaration#13"@, "@a class b {}"@, "@a\nclass b {\n}"@, false),
        ("ClassDeclaration#14"@, "@a export class b {}"@, "@a\nexport class b {\n}"@, false),
        ("ClassDeclaration#15"@, "export @a class b {}"@, "export \n@a\nclass b {\n}"@, false),
        ("InterfaceDeclaration#1"@, "interface a {}"@, "interface a {\n}"@, false),
        ("InterfaceDeclaration#2"@, "interface a<T>{}"@, "interface a<T> {\n}"@, false),
        ("InterfaceDeclaration#3"@, "interface a extends b {}"@, "interface a extends b {\n}"@, false),
        ("InterfaceDeclaration#4"@, "interface a extends b, c {}"@, "interface a extends b, c {\n}"@, false),
        ("TypeAliasDeclaration#1"@, "type a = b"@, "type a = b;"@, false),
        ("TypeAliasDeclaration#2"@, "type a<T> = b"@, "type a<T> = b;"@, false),
        ("EnumDeclaration#1"@, "enum a{}"@, "enum a {\n}"@, false),
        ("EnumDeclaration#2"@, "enum a{b}"@, "enum a {\n    b\n}"@, false),
        ("EnumDeclaration#3"@, "enum a{b=c}"@, "enum a {\n    b = c\n}"@, false),
        ("ModuleDeclaration#1"@, "module a{}"@, "module a { }"@, false),
        ("ModuleDeclaration#2"@, "module a.b{}"@, "module a.b { }"@, false),
        ("ModuleDeclaration#3"@, "module \"a\";"@, "module \"a\";"@, false),
        ("ModuleDeclaration#4"@, "module \"a\"{}"@, "module \"a\" { }"@, false),
        ("ModuleDeclaration#5"@, "namespace a{}"@, "namespace a { }"@, false),
        ("ModuleDeclaration#6"@, "namespace a.b{}"@, "namespace a.b { }"@, false),
    ]
}

/// Appends cases 221 to 240 of the table.
#[verifier::spinoff_prover]
fn push_cases_12(cases: &mut Vec<EmitCase>)
    ensures
        case_views(final(cases)@) == case_views(old(cases)@) + emit_case_table_12(),
{
    let ghost s0 = case_views(cases@);
    push_case(cases, "ClassDeclaration#11", "export default class implements b, c {}", "export default class implements b, c {\n}", false);
    push_case(cases, "ClassDeclaration#12", "export default class extends b implements c, d {}", "export default class extends b implements c, d {\n}", false);
    push_case(cases, "ClassDeclaration#13", "@a class b {}", "@a\nclass b {\n}", false);
    push_case(cases, "ClassDeclaration#14", "@a export class b {}", "@a\nexport class b {\n}", false);
    push_case(cases, "ClassDeclaration#15", "export @a class b {}", "export \n@a\nclass b {\n}", false);
    push_case(cases, "InterfaceDeclaration#1", "interface a {}", "interface a {\n}", false);
    push_case(cases, "InterfaceDeclaration#2", "interface a<T>{}", "interface a<T> {\n}", false);
    push_case(cases, "InterfaceDeclaration#3", "interface a extends b {}", "interface a extends b {\n}", false);
    push_case(cases, "InterfaceDeclaration#4", "interface a extends b, c {}", "interface a extends b, c {\n}", false);
    push_case(cases, "TypeAliasDeclaration#1", "type a = b", "type a = b;", false);
    push_case(cases, "TypeAliasDeclaration#2", "type a<T> = b", "type a<T> = b;", false);
    push_case(cases, "EnumDeclaration#1", "enum a{}", "enum a {\n}", false);
    push_case(cases, "EnumDeclaration#2", "enum a{b}", "enum a {\n    b\n}", false);
    push_case(cases, "EnumDeclaration#3", "enum a{b=c}", "enum a {\n    b = c\n}", false);
    push_case(cases, "ModuleDeclaration#1", "module a{}", "module a { }", false);
    push_case(cases, "ModuleDeclaration#2", "module a.b{}", "module a.b { }", false);
    push_case(cases, "ModuleDeclaration#3", "module \"a\";", "module \"a\";", false);
    push_case(cases, "ModuleDeclaration#4", "module \"a\"{}", "module \"a\" { }", false);
    push_case(cases, "ModuleDeclaration#5", "namespace a{}", "namespace a { }", false);
    push_case(cases, "ModuleDeclaration#6", "namespace a.b{}", "namespace a.b { }", false);
    proof {
        assert(case_views(cases@) =~= s0 + emit_case_table_12());
    }
}

/// Cases 241 to 260 of the table.
pub open spec fn emit_case_table_13() -> Seq<(Seq<char>, Seq<char>, Seq<char>, bool)> {
    seq![
        ("ModuleDeclaration#7"@, "global;"@, "global;"@, false),
        ("ModuleDeclaration#8"@, "global{}"@, "global { }"@, false),
        ("ImportEqualsDeclaration#1"@, "import a = b"@, "import a = b;"@, false),
        ("ImportEqualsDeclaration#2"@, "import a = b.c"@, "import a = b.c;"@, false),
        ("ImportEqualsDeclaration#3"@, "import a = require(\"b\")"@, "import a = require(\"b\");"@, false),
        ("ImportEqualsDeclaration#4"@, "export import a = b"@, "export import a = b;"@, false),
        ("ImportEqualsDeclaration#5"@, "export import a = require(\"b\")"@, "export import a = require(\"b\");"@, false),
        ("ImportEqualsDeclaration#6"@, "import type a = b"@, "import type a = b;"@, false),
        ("ImportEqualsDeclaration#7"@, "import type a = b.c"@, "import type a = b.c;"@, false),
        ("ImportEqualsDeclaration#8"@, "import type a = require(\"b\")"@, "import type a = require(\"b\");"@, false),
        ("ImportDeclaration#1"@, "import \"a\""@, "import \"a\";"@, false),
        ("ImportDeclaration#2"@, "import a from \"b\""@, "import a from \"b\";"@, false),
        ("ImportDeclaration#3"@, "import type a from \"b\""@, "import type a from \"b\";"@, false),
        ("ImportDeclaration#4"@, "import * as a from \"b\""@, "import * as a from \"b\";"@, false),
        ("ImportDeclaration#5"@, "import type * as a from \"b\""@, "import type * as a from \"b\";"@, false),
        ("ImportDeclaration#6"@, "import {} from \"b\""@, "import {} from \"b\";"@, false),
        ("ImportDeclaration#7"@, "import type {} from \"b\""@, "import type {} from \"b\";"@, false),
        ("ImportDeclaration#8"@, "import { a } from \"b\""@, "import { a } from \"b\";"@, false),
        ("ImportDeclaration#9"@, "import type { a } from \"b\""@, "import type { a } from \"b\";"@, false),
        ("ImportDeclaration#8"@, "import { a as b } from \"c\""@, "import { a as b } from \"c\";"@, false),
    ]
}

/// Appends cases 241 to 260 of the table.
#[verifier::spinoff_prover]
fn push_cases_13(cases: &mut Vec<EmitCase>)
    ensures
        case_views(final(cases)@) == case_views(old(cases)@) + emit_case_table_13(),
{
    let ghost s0 = case_views(cases@);
    push_case(cases, "ModuleDeclaration#7", "global;", "global;", false);
    push_case(cases, "ModuleDeclaration#8", "global{}", "global { }", false);
    push_case(cases, "ImportEqualsDeclaration#1", "import a = b", "import a = b;", false);
    push_case(cases, "ImportEqualsDeclaration#2", "import a = b.c", "import a = b.c;", false);
    push_case(cases, "ImportEqualsDeclaration#3", "import a = require(\"b\")", "import a = require(\"b\");", false);
    push_case(cases, "ImportEqualsDeclaration#4", "export import a = b", "export import a = b;", false);
    push_case(cases, "ImportEqualsDeclaration#5", "export import a = require(\"b\")", "export import a = require(\"b\");", false);
    push_case(cases, "ImportEqualsDeclaration#6", "import type a = b", "import type a = b;", false);
    push_case(cases, "ImportEqualsDeclaration#7", "import type a = b.c", "import type a = b.c;", false);
    push_case(cases, "ImportEqualsDeclaration#8", "import type a = require(\"b\")", "import type a = require(\"b\");", false);
    push_case(cases, "ImportDeclaration#1", "import \"a\"", "import \"a\";", false);
    push_case(cases, "ImportDeclaration#2", "import a from \"b\"", "import a from \"b\";", false);
    push_case(cases, "ImportDeclaration#3", "import type a from \"b\"", "import type a from \"b\";", false);
    push_case(cases, "ImportDeclaration#4", "import * as a from \"b\"", "import * as a from \"b\";", false);
    push_case(cases, "ImportDeclaration#5", "import type * as a from \"b\"", "import type * as a from \"b\";", false);
    push_case(cases, "ImportDeclaration#6", "import {} from \"b\"", "import {} from \"b\";", false);
    push_case(cases, "ImportDeclaration#7", "import type {} from \"b\"", "import type {} from \"b\";", false);
    push_case(cases, "ImportDeclaration#8", "import { a } from \"b\"", "import { a } from \"b\";", false);
    push_case(cases, "ImportDeclaration#9", "import type { a } from \"b\"", "import type { a } from \"b\";", false);
    push_case(cases, "ImportDeclaration#8", "import { a as b } from \"c\"", "import { a as b } from \"c\";", false);
    proof {
        assert(case_views(cases@) =~= s0 + emit_case_table_13());
    }
}

/// Cases 261 to 280 of the table.
pub open spec fn emit_case_table_14() -> Seq<(Seq<char>, Seq<char>, Seq<char>, bool)> {
    seq![
        ("ImportDeclaration#9"@, "import type { a as b } from \"c\""@, "import type { a as b } from \"c\";"@, false),
        ("ImportDeclaration#10"@, "import { \"a\" as b } from \"c\""@, "import { \"a\" as b } from \"c\";"@, false),
        ("ImportDeclaration#11"@, "import type { \"a\" as b } from \"c\""@, "import type { \"a\" as b } from \"c\";"@, false),
        ("ImportDeclaration#12"@, "import a, {} from \"b\""@, "import a, {} from \"b\";"@, false),
        ("ImportDeclaration#13"@, "import a, * as b from \"c\""@, "import a, * as b from \"c\";"@, false),
        ("ImportDeclaration#14"@, "import {} from \"a\" with {}"@, "import {} from \"a\" with {};"@, false),
        ("ImportDeclaration#15"@, "import {} from \"a\" with { b: \"c\" }"@, "import {} from \"a\" with { b: \"c\" };"@, false),
        ("ImportDeclaration#16"@, "import {} from \"a\" with { \"b\": \"c\" }"@, "import {} from \"a\" with { \"b\": \"c\" };"@, false),
        ("ExportAssignment#1"@, "export = a"@, "export = a;"@, false),
        ("ExportAssignment#2"@, "export default a"@, "export default a;"@, false),
        ("NamespaceExportDeclaration"@, "export as namespace a"@, "export as namespace a;"@, false),
        ("ExportDeclaration#1"@, "export * from \"a\""@, "export * from \"a\";"@, false),
        ("ExportDeclaration#2"@, "export type * from \"a\""@, "export type * from \"a\";"@, false),
        ("ExportDeclaration#3"@, "export * as a from \"b\""@, "export * as a from \"b\";"@, false),
        ("ExportDeclaration#4"@, "export type * as a from \"b\""@, "export type * as a from \"b\";"@, false),
        ("ExportDeclaration#5"@, "export { } from \"a\""@, "export {} from \"a\";"@, false),
        ("ExportDeclaration#6"@, "export type { } from \"a\""@, "export type {} from \"a\";"@, false),
        ("ExportDeclaration#7"@, "export { a } from \"b\""@, "export { a } from \"b\";"@, false),
        ("ExportDeclaration#8"@, "export { type a } from \"b\""@, "export { type a } from \"b\";"@, false),
        ("ExportDeclaration#9"@, "export type { a } from \"b\""@, "export type { a } from \"b\";"@, false),
    ]
}

/// Appends cases 261 to 280 of the table.
#[verifier::spinoff_prover]
fn push_cases_14(cases: &mut Vec<EmitCase>)
    ensures
        case_views(final(cases)@) == case_views(old(cases)@) + emit_case_table_14(),
{
    let ghost s0 = case_views(cases@);
    push_case(cases, "ImportDeclaration#9", "import type { a as b } from \"c\"", "import type { a as b } from \"c\";", false);
    push_case(cases, "ImportDeclaration#10", "import { \"a\" as b } from \"c\"", "import { \"a\" as b } from \"c\";", false);
    push_case(cases, "ImportDeclaration#11", "import type { \"a\" as b } from \"c\"", "import type { \"a\" as b } from \"c\";", false);
    push_case(cases, "ImportDeclaration#12", "import a, {} from \"b\"", "import a, {} from \"b\";", false);
    push_case(cases, "ImportDeclaration#13", "import a, * as b from \"c\"", "import a, * as b from \"c\";", false);
    push_case(cases, "ImportDeclaration#14", "import {} from \"a\" with {}", "import {} from \"a\" with {};", false);
    push_case(cases, "ImportDeclaration#15", "import {} from \"a\" with { b: \"c\" }", "import {} from \"a\" with { b: \"c\" };", false);
    push_case(cases, "ImportDeclaration#16", "import {} from \"a\" with { \"b\": \"c\" }", "import {} from \"a\" with { \"b\": \"c\" };", false);
    push_case(cases, "ExportAssignment#1", "export = a", "export = a;", false);
    push_case(cases, "ExportAssignment#2", "export default a", "export default a;", false);
    push_case(cases, "NamespaceExportDeclaration", "export as namespace a", "export as namespace a;", false);
    push_case(cases, "ExportDeclaration#1", "export * from \"a\"", "export * from \"a\";", false);
    push_case(cases, "ExportDeclaration#2", "export type * from \"a\"", "export type * from \"a\";", false);
    push_case(cases, "ExportDeclaration#3", "export * as a from \"b\"", "export * as a from \"b\";", false);
    push_case(cases, "ExportDeclaration#4", "export type * as a from \"b\"", "export type * as a from \"b\";", false);
    push_case(cases, "ExportDeclaration#5", "export { } from \"a\"", "export {} from \"a\";", false);
    push_case(cases, "ExportDeclaration#6", "export type { } from \"a\"", "export type {} from \"a\";", false);
    push_case(cases, "ExportDeclaration#7", "export { a } from \"b\"", "export { a } from \"b\";", false);
    push_case(cases, "ExportDeclaration#8", "export { type a } from \"b\"", "export { type a } from \"b\";", false);
    push_case(cases, "ExportDeclaration#9", "export type { a } from \"b\"", "export type { a } from \"b\";", false);
    proof {
        assert(case_views(cases@) =~= s0 + emit_case_table_14());
    }
}

/// Cases 281 to 300 of the table.
pub open spec fn emit_case_table_15() -> Seq<(Seq<char>, Seq<char>, Seq<char>, bool)> {
    seq![
        ("ExportDeclaration#10"@, "export { a as b } from \"c\""@, "export { a as b } from \"c\";"@, false),
        ("ExportDeclaration#11"@, "export { type a as b } from \"c\""@, "export { type a as b } from \"c\";"@, false),
        ("ExportDeclaration#12"@, "export type { a as b } from \"c\""@, "export type { a as b } from \"c\";"@, false),
        ("ExportDeclaration#13"@, "export { a as \"b\" } from \"c\""@, "export { a as \"b\" } from \"c\";"@, false),
        ("ExportDeclaration#14"@, "export { type a as \"b\" } from \"c\""@, "export { type a as \"b\" } from \"c\";"@, false),
        ("ExportDeclaration#15"@, "export type { a as \"b\" } from \"c\""@, "export type { a as \"b\" } from \"c\";"@, false),
        ("ExportDeclaration#16"@, "export { \"a\" } from \"b\""@, "export { \"a\" } from \"b\";"@, false),
        ("ExportDeclaration#17"@, "export { type \"a\" } from \"b\""@, "export { type \"a\" } from \"b\";"@, false),
        ("ExportDeclaration#18"@, "export type { \"a\" } from \"b\""@, "export type { \"a\" } from \"b\";"@, false),
        ("ExportDeclaration#19"@, "export { \"a\" as b } from \"c\""@, "export { \"a\" as b } from \"c\";"@, false),
        ("ExportDeclaration#20"@, "export { type \"a\" as b } from \"c\""@, "export { type \"a\" as b } from \"c\";"@, false),
        ("ExportDeclaration#21"@, "export type { \"a\" as b } from \"c\""@, "export type { \"a\" as b } from \"c\";"@, false),
        ("ExportDeclaration#22"@, "export { \"a\" as \"b\" } from \"c\""@, "export { \"a\" as \"b\" } from \"c\";"@, false),
        ("ExportDeclaration#23"@, "export { type \"a\" as \"b\" } from \"c\""@, "export { type \"a\" as \"b\" } from \"c\";"@, false),
        ("ExportDeclaration#24"@, "export type { \"a\" as \"b\" } from \"c\""@, "export type { \"a\" as \"b\" } from \"c\";"@, false),
        ("ExportDeclaration#25"@, "export { }"@, "export {};"@, false),
        ("ExportDeclaration#26"@, "export type { }"@, "export type {};"@, false),
        ("ExportDeclaration#27"@, "export { a }"@, "export { a };"@, false),
        ("ExportDeclaration#28"@, "export { type a }"@, "export { type a };"@, false),
        ("ExportDeclaration#29"@, "export type { a }"@, "export type { a };"@, false),
    ]
}

/// Appends cases 281 to 300 of the table.
#[verifier::spinoff_prover]
fn push_cases_15(cases: &mut Vec<EmitCase>)
    ensures
        case_views(final(cases)@) == case_views(old(cases)@) + emit_case_table_15(),
{
    let ghost s0 = case_views(cases@);
    push_case(cases, "ExportDeclaration#10", "export { a as b } from \"c\"", "export { a as b } from \"c\";", false);
    push_case(cases, "ExportDeclaration#11", "export { type a as b } from \"c\"", "export { type a as b } from \"c\";", false);
    push_case(cases, "ExportDeclaration#12", "export type { a as b } from \"c\"", "export type { a as b } from \"c\";", false);
    push_case(cases, "ExportDeclaration#13", "export { a as \"b\" } from \"c\"", "export { a as \"b\" } from \"c\";", false);
    push_case(cases, "ExportDeclaration#14", "export { type a as \"b\" } from \"c\"", "export { type a as \"b\" } from \"c\";", false);
    push_case(cases, "ExportDeclaration#15", "export type { a as \"b\" } from \"c\"", "export type { a as \"b\" } from \"c\";", false);
    push_case(cases, "ExportDeclaration#16", "export { \"a\" } from \"b\"", "export { \"a\" } from \"b\";", false);
    push_case(cases, "ExportDeclaration#17", "export { type \"a\" } from \"b\"", "export { type \"a\" } from \"b\";", false);
    push_case(cases, "ExportDeclaration#18", "export type { \"a\" } from \"b\"", "export type { \"a\" } from \"b\";", false);
    push_case(cases, "ExportDeclaration#19", "export { \"a\" as b } from \"c\"", "export { \"a\" as b } from \"c\";", false);
    push_case(cases, "ExportDeclaration#20", "export { type \"a\" as b } from \"c\"", "export { type \"a\" as b } from \"c\";", false);
    push_case(cases, "ExportDeclaration#21", "export type { \"a\" as b } from \"c\"", "export type { \"a\" as b } from \"c\";", false);
    push_case(cases, "ExportDeclaration#22", "export { \"a\" as \"b\" } from \"c\"", "export { \"a\" as \"b\" } from \"c\";", false);
    push_case(cases, "ExportDeclaration#23", "export { type \"a\" as \"b\" } from \"c\"", "export { type \"a\" as \"b\" } from \"c\";", false);
    push_case(cases, "ExportDeclaration#24", "export type { \"a\" as \"b\" } from \"c\"", "export type { \"a\" as \"b\" } from \"c\";", false);
    push_case(cases, "ExportDeclaration#25", "export { }", "export {};", false);
    push_case(cases, "ExportDeclaration#26", "export type { }", "export type {};", false);
    push_case(cases, "ExportDeclaration#27", "export { a }", "export { a };", false);
    push_case(cases, "ExportDeclaration#28", "export { type a }", "export { type a };", false);
    push_case(cases, "ExportDeclaration#29", "export type { a }", "export type { a };", false);
    proof {
        assert(case_views(cases@) =~= s0 + emit_case_table_15());
    }
}

/// Cases 301 to 320 of the table.
pub open spec fn emit_case_table_16() -> Seq<(Seq<char>, Seq<char>, Seq<char>, bool)> {
    seq![
        ("ExportDeclaration#30"@, "export { a as b }"@, "export { a as b };"@, false),
        ("ExportDeclaration#31"@, "export { type a as b }"@, "export { type a as b };"@, false),
        ("ExportDeclaration#32"@, "export type { a as b }"@, "export type { a as b };"@, false),
        ("ExportDeclaration#33"@, "export { a as \"b\" }"@, "export { a as \"b\" };"@, false),
        ("ExportDeclaration#34"@, "export { type a as \"b\" }"@, "export { type a as \"b\" };"@, false),
        ("ExportDeclaration#35"@, "export type { a as \"b\" }"@, "export type { a as \"b\" };"@, false),
        ("ExportDeclaration#36"@, "export {} from \"a\" with {}"@, "export {} from \"a\" with {};"@, false),
        ("ExportDeclaration#37"@, "export {} from \"a\" with { b: \"c\" }"@, "export {} from \"a\" with { b: \"c\" };"@, false),
        ("ExportDeclaration#38"@, "export {} from \"a\" with { \"b\": \"c\" }"@, "export {} from \"a\" with { \"b\": \"c\" };"@, false),
        ("KeywordTypeNode#1"@, "type T = any"@, "type T = any;"@, false),
        ("KeywordTypeNode#2"@, "type T = unknown"@, "type T = unknown;"@, false),
        ("KeywordTypeNode#3"@, "type T = never"@, "type T = never;"@, false),
        ("KeywordTypeNode#4"@, "type T = void"@, "type T = void;"@, false),
        ("KeywordTypeNode#5"@, "type T = undefined"@, "type T = undefined;"@, false),
        ("KeywordTypeNode#6"@, "type T = null"@, "type T = null;"@, false),
        ("KeywordTypeNode#7"@, "type T = object"@, "type T = object;"@, false),
        ("KeywordTypeNode#8"@, "type T = string"@, "type T = string;"@, false),
        ("KeywordTypeNode#9"@, "type T = symbol"@, "type T = symbol;"@, false),
        ("KeywordTypeNode#10"@, "type T = number"@, "type T = number;"@, false),
        ("KeywordTypeNode#11"@, "type T = bigint"@, "type T = bigint;"@, false),
    ]
}

/// Appends cases 301 to 320 of the table.
#[verifier::spinoff_prover]
fn push_cases_16(cases: &mut Vec<EmitCase>)
    ensures
        case_views(final(cases)@) == case_views(old(cases)@) + emit_case_table_16(),
{
    let ghost s0 = case_views(cases@);
    push_case(cases, "ExportDeclaration#30", "export { a as b }", "export { a as b };", false);
    push_case(cases, "ExportDeclaration#31", "export { type a as b }", "export { type a as b };", false);
    push_case(cases, "ExportDeclaration#32", "export type { a as b }", "export type { a as b };", false);
    push_case(cases, "ExportDeclaration#33", "export { a as \"b\" }", "export { a as \"b\" };", false);
    push_case(cases, "ExportDeclaration#34", "export { type a as \"b\" }", "export { type a as \"b\" };", false);
    push_case(cases, "ExportDeclaration#35", "export type { a as \"b\" }", "export type { a as \"b\" };", false);
    push_case(cases, "ExportDeclaration#36", "export {} from \"a\" with {}", "export {} from \"a\" with {};", false);
    push_case(cases, "ExportDeclaration#37", "export {} from \"a\" with { b: \"c\" }", "export {} from \"a\" with { b: \"c\" };", false);
    push_case(cases, "ExportDeclaration#38", "export {} from \"a\" with { \"b\": \"c\" }", "export {} from \"a\" with { \"b\": \"c\" };", false);
    push_case(cases, "KeywordTypeNode#1", "type T = any", "type T = any;", false);
    push_case(cases, "KeywordTypeNode#2", "type T = unknown", "type T = unknown;", false);
    push_case(cases, "KeywordTypeNode#3", "type T = never", "type T = never;", false);
    push_case(cases, "KeywordTypeNode#4", "type T = void", "type T = void;", false);
    push_case(cases, "KeywordTypeNode#5", "type T = undefined", "type T = undefined;", false);
    push_case(cases, "KeywordTypeNode#6", "type T = null", "type T = null;", false);
    push_case(cases, "KeywordTypeNode#7", "type T = object", "type T = object;", false);
    push_case(cases, "KeywordTypeNode#8", "type T = string", "type T = string;", false);
    push_case(cases, "KeywordTypeNode#9", "type T = symbol", "type T = symbol;", false);
    push_case(cases, "KeywordTypeNode#10", "type T = number", "type T = number;", false);
    push_case(cases, "KeywordTypeNode#11", "type T = bigint", "type T = bigint;", false);
    proof {
        assert(case_views(cases@) =~= s0 + emit_case_table_16());
    }
}

/// Cases 321 to 340 of the table.
pub open spec fn emit_case_table_17() -> Seq<(Seq<char>, Seq<char>, Seq<char>, bool)> {
    seq![
        ("KeywordTypeNode#12"@, "type T = boolean"@, "type T = boolean;"@, false),
        ("KeywordTypeNode#13"@, "type T = intrinsic"@, "type T = intrinsic;"@, false),
        ("TypePredicateNode#1"@, "function f(): asserts a"@, "function f(): asserts a;"@, false),
        ("TypePredicateNode#2"@, "function f(): asserts a is b"@, "function f(): asserts a is b;"@, false),
        ("TypePredicateNode#3"@, "function f(): asserts this"@, "function f(): asserts this;"@, false),
        ("TypePredicateNode#4"@, "function f(): asserts this is b"@, "function f(): asserts this is b;"@, false),
        ("TypeReferenceNode#1"@, "type T = a"@, "type T = a;"@, false),
        ("TypeReferenceNode#2"@, "type T = a.b"@, "type T = a.b;"@, false),
        ("TypeReferenceNode#3"@, "type T = a<U>"@, "type T = a<U>;"@, false),
        ("TypeReferenceNode#4"@, "type T = a.b<U>"@, "type T = a.b<U>;"@, false),
        ("FunctionTypeNode#1"@, "type T = () => a"@, "type T = () => a;"@, false),
        ("FunctionTypeNode#2"@, "type T = <T>() => a"@, "type T = <T>() => a;"@, false),
        ("FunctionTypeNode#3"@, "type T = (a) => b"@, "type T = (a) => b;"@, false),
        ("ConstructorTypeNode#1"@, "type T = new () => a"@, "type T = new () => a;"@, false),
        ("ConstructorTypeNode#2"@, "type T = new <T>() => a"@, "type T = new <T>() => a;"@, false),
        ("ConstructorTypeNode#3"@, "type T = new (a) => b"@, "type T = new (a) => b;"@, false),
        ("ConstructorTypeNode#4"@, "type T = abstract new () => a"@, "type T = abstract new () => a;"@, false),
        ("TypeQueryNode#1"@, "type T = typeof a"@, "type T = typeof a;"@, false),
        ("TypeQueryNode#2"@, "type T = typeof a.b"@, "type T = typeof a.b;"@, false),
        ("TypeQueryNode#3"@, "type T = typeof a<U>"@, "type T = typeof a<U>;"@, false),
    ]
}

/// Appends cases 321 to 340 of the table.
#[verifier::spinoff_prover]
fn push_cases_17(cases: &mut Vec<EmitCase>)
    ensures
        case_views(final(cases)@) == case_views(old(cases)@) + emit_case_table_17(),
{
    let ghost s0 = case_views(cases@);
    push_case(cases, "KeywordTypeNode#12", "type T = boolean", "type T = boolean;", false);
    push_case(cases, "KeywordTypeNode#13", "type T = intrinsic", "type T = intrinsic;", false);
    push_case(cases, "TypePredicateNode#1", "function f(): asserts a", "function f(): asserts a;", false);
    push_case(cases, "TypePredicateNode#2", "function f(): asserts a is b", "function f(): asserts a is b;", false);
    push_case(cases, "TypePredicateNode#3", "function f(): asserts this", "function f(): asserts this;", false);
    push_case(cases, "TypePredicateNode#4", "function f(): asserts this is b", "function f(): asserts this is b;", false);
    push_case(cases, "TypeReferenceNode#1", "type T = a", "type T = a;", false);
    push_case(cases, "TypeReferenceNode#2", "type T = a.b", "type T = a.b;", false);
    push_case(cases, "TypeReferenceNode#3", "type T = a<U>", "type T = a<U>;", false);
    push_case(cases, "TypeReferenceNode#4", "type T = a.b<U>", "type T = a.b<U>;", false);
    push_case(cases, "FunctionTypeNode#1", "type T = () => a", "type T = () => a;", false);
    push_case(cases, "FunctionTypeNode#2", "type T = <T>() => a", "type T = <T>() => a;", false);
    push_case(cases, "FunctionTypeNode#3", "type T = (a) => b", "type T = (a) => b;", false);
    push_case(cases, "ConstructorTypeNode#1", "type T = new () => a", "type T = new () => a;", false);
    push_case(cases, "ConstructorTypeNode#2", "type T = new <T>() => a", "type T = new <T>() => a;", false);
    push_case(cases, "ConstructorTypeNode#3", "type T = new (a) => b", "type T = new (a) => b;", false);
    push_case(cases, "ConstructorTypeNode#4", "type T = abstract new () => a", "type T = abstract new () => a;", false);
    push_case(cases, "TypeQueryNode#1", "type T = typeof a", "type T = typeof a;", false);
    push_case(cases, "TypeQueryNode#2", "type T = typeof a.b", "type T = typeof a.b;", false);
    push_case(cases, "TypeQueryNode#3", "type T = typeof a<U>", "type T = typeof a<U>;", false);
    proof {
        assert(case_views(cases@) =~= s0 + emit_case_table_17());
    }
}

/// Cases 341 to 360 of the table.
pub open spec fn emit_case_table_18() -> Seq<(Seq<char>, Seq<char>, Seq<char>, bool)> {
    seq![
        ("TypeLiteralNode#1"@, "type T = {}"@, "type T = {};"@, false),
        ("TypeLiteralNode#2"@, "type T = {a}"@, "type T = {\n    a;\n};"@, false),
        ("ArrayTypeNode"@, "type T = a[]"@, "type T = a[];"@, false),
        ("TupleTypeNode#1"@, "type T = []"@, "type T = [\n];"@, false),
        ("TupleTypeNode#2"@, "type T = [a]"@, "type T = [\n    a\n];"@, false),
        ("TupleTypeNode#3"@, "type T = [a,]"@, "type T = [\n    a\n];"@, false),
        ("RestTypeNode"@, "type T = [...a]"@, "type T = [\n    ...a\n];"@, false),
        ("OptionalTypeNode"@, "type T = [a?]"@, "type T = [\n    a?\n];"@, false),
        ("NamedTupleMember#1"@, "type T = [a: b]"@, "type T = [\n    a: b\n];"@, false),
        ("NamedTupleMember#2"@, "type T = [a?: b]"@, "type T = [\n    a?: b\n];"@, false),
        ("NamedTupleMember#3"@, "type T = [...a: b]"@, "type T = [\n    ...a: b\n];"@, false),
        ("UnionTypeNode#1"@, "type T = a | b"@, "type T = a | b;"@, false),
        ("UnionTypeNode#2"@, "type T = a | b | c"@, "type T = a | b | c;"@, false),
        ("UnionTypeNode#3"@, "type T = | a | b"@, "type T = a | b;"@, false),
        ("IntersectionTypeNode#1"@, "type T = a & b"@, "type T = a & b;"@, false),
        ("IntersectionTypeNode#2"@, "type T = a & b & c"@, "type T = a & b & c;"@, false),
        ("IntersectionTypeNode#3"@, "type T = & a & b"@, "type T = a & b;"@, false),
        ("ConditionalTypeNode"@, "type T = a extends b ? c : d"@, "type T = a extends b ? c : d;"@, false),
        ("InferTypeNode#1"@, "type T = a extends infer b ? c : d"@, "type T = a extends infer b ? c : d;"@, false),
        ("InferTypeNode#2"@, "type T = a extends infer b extends c ? d : e"@, "type T = a extends infer b extends c ? d : e;"@, false),
    ]
}

/// Appends cases 341 to 360 of the table.
#[verifier::spinoff_prover]
fn push_cases_18(cases: &mut Vec<EmitCase>)
    ensures
        case_views(final(cases)@) == case_views(old(cases)@) + emit_case_table_18(),
{
    let ghost s0 = case_views(cases@);
    push_case(cases, "TypeLiteralNode#1", "type T = {}", "type T = {};", false);
    push_case(cases, "TypeLiteralNode#2", "type T = {a}", "type T = {\n    a;\n};", false);
    push_case(cases, "ArrayTypeNode", "type T = a[]", "type T = a[];", false);
    push_case(cases, "TupleTypeNode#1", "type T = []", "type T = [\n];", false);
    push_case(cases, "TupleTypeNode#2", "type T = [a]", "type T = [\n    a\n];", false);
    push_case(cases, "TupleTypeNode#3", "type T = [a,]", "type T = [\n    a\n];", false);
    push_case(cases, "RestTypeNode", "type T = [...a]", "type T = [\n    ...a\n];", false);
    push_case(cases, "OptionalTypeNode", "type T = [a?]", "type T = [\n    a?\n];", false);
    push_case(cases, "NamedTupleMember#1", "type T = [a: b]", "type T = [\n    a: b\n];", false);
    push_case(cases, "NamedTupleMember#2", "type T = [a?: b]", "type T = [\n    a?: b\n];", false);
    push_case(cases, "NamedTupleMember#3", "type T = [...a: b]", "type T = [\n    ...a: b\n];", false);
    push_case(cases, "UnionTypeNode#1", "type T = a | b", "type T = a | b;", false);
    push_case(cases, "UnionTypeNode#2", "type T = a | b | c", "type T = a | b | c;", false);
    push_case(cases, "UnionTypeNode#3", "type T = | a | b", "type T = a | b;", false);
    push_case(cases, "IntersectionTypeNode#1", "type T = a & b", "type T = a & b;", false);
    push_case(cases, "IntersectionTypeNode#2", "type T = a & b & c", "type T = a & b & c;", false);
    push_case(cases, "IntersectionTypeNode#3", "type T = & a & b", "type T = a & b;", false);
    push_case(cases, "ConditionalTypeNode", "type T = a extends b ? c : d", "type T = a extends b ? c : d;", false);
    push_case(cases, "InferTypeNode#1", "type T = a extends infer b ? c : d", "type T = a extends infer b ? c : d;", false);
    push_case(cases, "InferTypeNode#2", "type T = a extends infer b extends c ? d : e", "type T = a extends infer b extends c ? d : e;", false);
    proof {
        assert(case_views(cases@) =~= s0 + emit_case_table_18());
    }
}

/// Cases 361 to 380 of the table.
pub open spec fn emit_case_table_19() -> Seq<(Seq<char>, Seq<char>, Seq<char>, bool)> {
    seq![
        ("ParenthesizedTypeNode"@, "type T = (U)"@, "type T = (U);"@, false),
        ("ThisTypeNode"@, "type T = this"@, "type T = this;"@, false),
        ("TypeOperatorNode#1"@, "type T = keyof U"@, "type T = keyof U;"@, false),
        ("TypeOperatorNode#2"@, "type T = readonly U[]"@, "type T = readonly U[];"@, false),
        ("TypeOperatorNode#3"@, "type T = unique symbol"@, "type T = unique symbol;"@, false),
        ("IndexedAccessTypeNode"@, "type T = a[b]"@, "type T = a[b];"@, false),
        ("IndexedAccessTypeNode with TypeQueryNode"@, "type T = typeof a['b']"@, "type T = (typeof a)['b'];"@, false),
        ("MappedTypeNode#1"@, "type T = { [a in b]: c }"@, "type T = {\n    [a in b]: c;\n};"@, false),
        ("MappedTypeNode#2"@, "type T = { [a in b as c]: d }"@, "type T = {\n    [a in b as c]: d;\n};"@, false),
        ("MappedTypeNode#3"@, "type T = { readonly [a in b]: c }"@, "type T = {\n    readonly [a in b]: c;\n};"@, false),
        ("MappedTypeNode#4"@, "type T = { +readonly [a in b]: c }"@, "type T = {\n    +readonly [a in b]: c;\n};"@, false),
        ("MappedTypeNode#5"@, "type T = { -readonly [a in b]: c }"@, "type T = {\n    -readonly [a in b]: c;\n};"@, false),
        ("MappedTypeNode#6"@, "type T = { [a in b]?: c }"@, "type T = {\n    [a in b]?: c;\n};"@, false),
        ("MappedTypeNode#7"@, "type T = { [a in b]+?: c }"@, "type T = {\n    [a in b]+?: c;\n};"@, false),
        ("MappedTypeNode#8"@, "type T = { [a in b]-?: c }"@, "type T = {\n    [a in b]-?: c;\n};"@, false),
        ("MappedTypeNode#9"@, "type T = { [a in b]: c; d }"@, "type T = {\n    [a in b]: c;\n    d;\n};"@, false),
        ("LiteralTypeNode#1"@, "type T = null"@, "type T = null;"@, false),
        ("LiteralTypeNode#2"@, "type T = true"@, "type T = true;"@, false),
        ("LiteralTypeNode#3"@, "type T = false"@, "type T = false;"@, false),
        ("LiteralTypeNode#4"@, "type T = \"\""@, "type T = \"\";"@, false),
    ]
}

/// Appends cases 361 to 380 of the table.
#[verifier::spinoff_prover]
fn push_cases_19(cases: &mut Vec<EmitCase>)
    ensures
        case_views(final(cases)@) == case_views(old(cases)@) + emit_case_table_19(),
{
    let ghost s0 = case_views(cases@);
    push_case(cases, "ParenthesizedTypeNode", "type T = (U)", "type T = (U);", false);
    push_case(cases, "ThisTypeNode", "type T = this", "type T = this;", false);
    push_case(cases, "TypeOperatorNode#1", "type T = keyof U", "type T = keyof U;", false);
    push_case(cases, "TypeOperatorNode#2", "type T = readonly U[]", "type T = readonly U[];", false);
    push_case(cases, "TypeOperatorNode#3", "type T = unique symbol", "type T = unique symbol;", false);
    push_case(cases, "IndexedAccessTypeNode", "type T = a[b]", "type T = a[b];", false);
    push_case(cases, "IndexedAccessTypeNode with TypeQueryNode", "type T = typeof a['b']", "type T = (typeof a)['b'];", false);
    push_case(cases, "MappedTypeNode#1", "type T = { [a in b]: c }", "type T = {\n    [a in b]: c;\n};", false);
    push_case(cases, "MappedTypeNode#2", "type T = { [a in b as c]: d }", "type T = {\n    [a in b as c]: d;\n};", false);
    push_case(cases, "MappedTypeNode#3", "type T = { readonly [a in b]: c }", "type T = {\n    readonly [a in b]: c;\n};", false);
    push_case(cases, "MappedTypeNode#4", "type T = { +readonly [a in b]: c }", "type T = {\n    +readonly [a in b]: c;\n};", false);
    push_case(cases, "MappedTypeNode#5", "type T = { -readonly [a in b]: c }", "type T = {\n    -readonly [a in b]: c;\n};", false);
    push_case(cases, "MappedTypeNode#6", "type T = { [a in b]?: c }", "type T = {\n    [a in b]?: c;\n};", false);
    push_case(cases, "MappedTypeNode#7", "type T = { [a in b]+?: c }", "type T = {\n    [a in b]+?: c;\n};", false);
    push_case(cases, "MappedTypeNode#8", "type T = { [a in b]-?: c }", "type T = {\n    [a in b]-?: c;\n};", false);
    push_case(cases, "MappedTypeNode#9", "type T = { [a in b]: c; d }", "type T = {\n    [a in b]: c;\n    d;\n};", false);
    push_case(cases, "LiteralTypeNode#1", "type T = null", "type T = null;", false);
    push_case(cases, "LiteralTypeNode#2", "type T = true", "type T = true;", false);
    push_case(cases, "LiteralTypeNode#3", "type T = false", "type T = false;", false);
    push_case(cases, "LiteralTypeNode#4", "type T = \"\"", "type T = \"\";", false);
    proof {
        assert(case_views(cases@) =~= s0 + emit_case_table_19());
    }
}

/// Cases 381 to 400 of the table.
pub open spec fn emit_case_table_20() -> Seq<(Seq<char>, Seq<char>, Seq<char>, bool)> {
    seq![
        ("LiteralTypeNode#5"@, "type T = ''"@, "type T = '';"@, false),
        ("LiteralTypeNode#6"@, "type T = ``"@, "type T = ``;"@, false),
        ("LiteralTypeNode#7"@, "type T = 0"@, "type T = 0;"@, false),
        ("LiteralTypeNode#8"@, "type T = 0n"@, "type T = 0n;"@, false),
        ("LiteralTypeNode#9"@, "type T = -0"@, "type T = -0;"@, false),
        ("LiteralTypeNode#10"@, "type T = -0n"@, "type T = -0n;"@, false),
        ("TemplateTypeNode#1"@, "type T = `a${b}c`"@, "type T = `a${b}c`;"@, false),
        ("TemplateTypeNode#2"@, "type T = `a${b}c${d}e`"@, "type T = `a${b}c${d}e`;"@, false),
        ("ImportTypeNode#1"@, "type T = import(a)"@, "type T = import(a);"@, false),
        ("ImportTypeNode#2"@, "type T = import(a).b"@, "type T = import(a).b;"@, false),
        ("ImportTypeNode#3"@, "type T = import(a).b<U>"@, "type T = import(a).b<U>;"@, false),
        ("ImportTypeNode#4"@, "type T = typeof import(a)"@, "type T = typeof import(a);"@, false),
        ("ImportTypeNode#5"@, "type T = typeof import(a).b"@, "type T = typeof import(a).b;"@, false),
        ("ImportTypeNode#6"@, "type T = import(a, { with: { } })"@, "type T = import(a, { with: {} });"@, false),
        ("ImportTypeNode#6"@, "type T = import(a, { with: { b: \"c\" } })"@, "type T = import(a, { with: { b: \"c\" } });"@, false),
        ("ImportTypeNode#7"@, "type T = import(a, { with: { \"b\": \"c\" } })"@, "type T = import(a, { with: { \"b\": \"c\" } });"@, false),
        ("PropertySignature#1"@, "interface I {a}"@, "interface I {\n    a;\n}"@, false),
        ("PropertySignature#2"@, "interface I {readonly a}"@, "interface I {\n    readonly a;\n}"@, false),
        ("PropertySignature#3"@, "interface I {\"a\"}"@, "interface I {\n    \"a\";\n}"@, false),
        ("PropertySignature#4"@, "interface I {'a'}"@, "interface I {\n    'a';\n}"@, false),
    ]
}

/// Appends cases 381 to 400 of the table.
#[verifier::spinoff_prover]
fn push_cases_20(cases: &mut Vec<EmitCase>)
    ensures
        case_views(final(cases)@) == case_views(old(cases)@) + emit_case_table_20(),
{
    let ghost s0 = case_views(cases@);
    push_case(cases, "LiteralTypeNode#5", "type T = ''", "type T = '';", false);
    push_case(cases, "LiteralTypeNode#6", "type T = ``", "type T = ``;", false);
    push_case(cases, "LiteralTypeNode#7", "type T = 0", "type T = 0;", false);
    push_case(cases, "LiteralTypeNode#8", "type T = 0n", "type T = 0n;", false);
    push_case(cases, "LiteralTypeNode#9", "type T = -0", "type T = -0;", false);
    push_case(cases, "LiteralTypeNode#10", "type T = -0n", "type T = -0n;", false);
    push_case(cases, "TemplateTypeNode#1", "type T = `a${b}c`", "type T = `a${b}c`;", false);
    push_case(cases, "TemplateTypeNode#2", "type T = `a${b}c${d}e`", "type T = `a${b}c${d}e`;", false);
    push_case(cases, "ImportTypeNode#1", "type T = import(a)", "type T = import(a);", false);
    push_case(cases, "ImportTypeNode#2", "type T = import(a).b", "type T = import(a).b;", false);
    push_case(cases, "ImportTypeNode#3", "type T = import(a).b<U>", "type T = import(a).b<U>;", false);
    push_case(cases, "ImportTypeNode#4", "type T = typeof import(a)", "type T = typeof import(a);", false);
    push_case(cases, "ImportTypeNode#5", "type T = typeof import(a).b", "type T = typeof import(a).b;", false);
    push_case(cases, "ImportTypeNode#6", "type T = import(a, { with: { } })", "type T = import(a, { with: {} });", false);
    push_case(cases, "ImportTypeNode#6", "type T = import(a, { with: { b: \"c\" } })", "type T = import(a, { with: { b: \"c\" } });", false);
    push_case(cases, "ImportTypeNode#7", "type T = import(a, { with: { \"b\": \"c\" } })", "type T = import(a, { with: { \"b\": \"c\" } });", false);
    push_case(cases, "PropertySignature#1", "interface I {a}", "interface I {\n    a;\n}", false);
    push_case(cases, "PropertySignature#2", "interface I {readonly a}", "interface I {\n    readonly a;\n}", false);
    push_case(cases, "PropertySignature#3", "interface I {\"a\"}", "interface I {\n    \"a\";\n}", false);
    push_case(cases, "PropertySignature#4", "interface I {'a'}", "interface I {\n    'a';\n}", false);
    proof {
        assert(case_views(cases@) =~= s0 + emit_case_table_20());
    }
}

/// Cases 401 to 420 of the table.
pub open spec fn emit_case_table_21() -> Seq<(Seq<char>, Seq<char>, Seq<char>, bool)> {
    seq![
        ("PropertySignature#5"@, "interface I {0}"@, "interface I {\n    0;\n}"@, false),
        ("PropertySignature#6"@, "interface I {0n}"@, "interface I {\n    0n;\n}"@, false),
        ("PropertySignature#7"@, "interface I {[a]}"@, "interface I {\n    [a];\n}"@, false),
        ("PropertySignature#8"@, "interface I {a?}"@, "interface I {\n    a?;\n}"@, false),
        ("PropertySignature#9"@, "interface I {a: b}"@, "interface I {\n    a: b;\n}"@, false),
        ("MethodSignature#1"@, "interface I {a()}"@, "interface I {\n    a();\n}"@, false),
        ("MethodSignature#2"@, "interface I {\"a\"()}"@, "interface I {\n    \"a\"();\n}"@, false),
        ("MethodSignature#3"@, "interface I {'a'()}"@, "interface I {\n    'a'();\n}"@, false),
        ("MethodSignature#4"@, "interface I {0()}"@, "interface I {\n    0();\n}"@, false),
        ("MethodSignature#5"@, "interface I {0n()}"@, "interface I {\n    0n();\n}"@, false),
        ("MethodSignature#6"@, "interface I {[a]()}"@, "interface I {\n    [a]();\n}"@, false),
        ("MethodSignature#7"@, "interface I {a?()}"@, "interface I {\n    a?();\n}"@, false),
        ("MethodSignature#8"@, "interface I {a<T>()}"@, "interface I {\n    a<T>();\n}"@, false),
        ("MethodSignature#9"@, "interface I {a(): b}"@, "interface I {\n    a(): b;\n}"@, false),
        ("MethodSignature#10"@, "interface I {a(b): c}"@, "interface I {\n    a(b): c;\n}"@, false),
        ("CallSignature#1"@, "interface I {()}"@, "interface I {\n    ();\n}"@, false),
        ("CallSignature#2"@, "interface I {():a}"@, "interface I {\n    (): a;\n}"@, false),
        ("CallSignature#3"@, "interface I {(p)}"@, "interface I {\n    (p);\n}"@, false),
        ("CallSignature#4"@, "interface I {<T>()}"@, "interface I {\n    <T>();\n}"@, false),
        ("ConstructSignature#1"@, "interface I {new ()}"@, "interface I {\n    new ();\n}"@, false),
    ]
}

/// Appends cases 401 to 420 of the table.
#[verifier::spinoff_prover]
fn push_cases_21(cases: &mut Vec<EmitCase>)
    ensures
        case_views(final(cases)@) == case_views(old(cases)@) + emit_case_table_21(),
{
    let ghost s0 = case_views(cases@);
    push_case(cases, "PropertySignature#5", "interface I {0}", "interface I {\n    0;\n}", false);
    push_case(cases, "PropertySignature#6", "interface I {0n}", "interface I {\n    0n;\n}", false);
    push_case(cases, "PropertySignature#7", "interface I {[a]}", "interface I {\n    [a];\n}", false);
    push_case(cases, "PropertySignature#8", "interface I {a?}", "interface I {\n    a?;\n}", false);
    push_case(cases, "PropertySignature#9", "interface I {a: b}", "interface I {\n    a: b;\n}", false);
    push_case(cases, "MethodSignature#1", "interface I {a()}", "interface I {\n    a();\n}", false);
    push_case(cases, "MethodSignature#2", "interface I {\"a\"()}", "interface I {\n    \"a\"();\n}", false);
    push_case(cases, "MethodSignature#3", "interface I {'a'()}", "interface I {\n    'a'();\n}", false);
    push_case(cases, "MethodSignature#4", "interface I {0()}", "interface I {\n    0();\n}", false);
    push_case(cases, "MethodSignature#5", "interface I {0n()}", "interface I {\n    0n();\n}", false);
    push_case(cases, "MethodSignature#6", "interface I {[a]()}", "interface I {\n    [a]();\n}", false);
    push_case(cases, "MethodSignature#7", "interface I {a?()}", "interface I {\n    a?();\n}", false);
    push_case(cases, "MethodSignature#8", "interface I {a<T>()}", "interface I {\n    a<T>();\n}", false);
    push_case(cases, "MethodSignature#9", "interface I {a(): b}", "interface I {\n    a(): b;\n}", false);
    push_case(cases, "MethodSignature#10", "interface I {a(b): c}", "interface I {\n    a(b): c;\n}", false);
    push_case(cases, "CallSignature#1", "interface I {()}", "interface I {\n    ();\n}", false);
    push_case(cases, "CallSignature#2", "interface I {():a}", "interface I {\n    (): a;\n}", false);
    push_case(cases, "CallSignature#3", "interface I {(p)}", "interface I {\n    (p);\n}", false);
    push_case(cases, "CallSignature#4", "interface I {<T>()}", "interface I {\n    <T>();\n}", false);
    push_case(cases, "ConstructSignature#1", "interface I {new ()}", "interface I {\n    new ();\n}", false);
    proof {
        assert(case_views(cases@) =~= s0 + emit_case_table_21());
    }
}

/// Cases 421 to 440 of the table.
pub open spec fn emit_case_table_22() -> Seq<(Seq<char>, Seq<char>, Seq<char>, bool)> {
    seq![
        ("ConstructSignature#2"@, "interface I {new ():a}"@, "interface I {\n    new (): a;\n}"@, false),
        ("ConstructSignature#3"@, "interface I {new (p)}"@, "interface I {\n    new (p);\n}"@, false),
        ("ConstructSignature#4"@, "interface I {new <T>()}"@, "interface I {\n    new <T>();\n}"@, false),
        ("IndexSignatureDeclaration#1"@, "interface I {[a]}"@, "interface I {\n    [a];\n}"@, false),
        ("IndexSignatureDeclaration#2"@, "interface I {[a: b]}"@, "interface I {\n    [a: b];\n}"@, false),
        ("IndexSignatureDeclaration#3"@, "interface I {[a: b]: c}"@, "interface I {\n    [a: b]: c;\n}"@, false),
        ("PropertyDeclaration#1"@, "class C {a}"@, "class C {\n    a;\n}"@, false),
        ("PropertyDeclaration#2"@, "class C {readonly a}"@, "class C {\n    readonly a;\n}"@, false),
        ("PropertyDeclaration#3"@, "class C {static a}"@, "class C {\n    static a;\n}"@, false),
        ("PropertyDeclaration#4"@, "class C {accessor a}"@, "class C {\n    accessor a;\n}"@, false),
        ("PropertyDeclaration#5"@, "class C {\"a\"}"@, "class C {\n    \"a\";\n}"@, false),
        ("PropertyDeclaration#6"@, "class C {'a'}"@, "class C {\n    'a';\n}"@, false),
        ("PropertyDeclaration#7"@, "class C {0}"@, "class C {\n    0;\n}"@, false),
        ("PropertyDeclaration#8"@, "class C {0n}"@, "class C {\n    0n;\n}"@, false),
        ("PropertyDeclaration#9"@, "class C {[a]}"@, "class C {\n    [a];\n}"@, false),
        ("PropertyDeclaration#10"@, "class C {#a}"@, "class C {\n    #a;\n}"@, false),
        ("PropertyDeclaration#11"@, "class C {a?}"@, "class C {\n    a?;\n}"@, false),
        ("PropertyDeclaration#12"@, "class C {a!}"@, "class C {\n    a!;\n}"@, false),
        ("PropertyDeclaration#13"@, "class C {a: b}"@, "class C {\n    a: b;\n}"@, false),
        ("PropertyDeclaration#14"@, "class C {a = b}"@, "class C {\n    a = b;\n}"@, false),
    ]
}

/// Appends cases 421 to 440 of the table.
#[verifier::spinoff_prover]
fn push_cases_22(cases: &mut Vec<EmitCase>)
    ensures
        case_views(final(cases)@) == case_views(old(cases)@) + emit_case_table_22(),
{
    let ghost s0 = case_views(cases@);
    push_case(cases, "ConstructSignature#2", "interface I {new ():a}", "interface I {\n    new (): a;\n}", false);
    push_case(cases, "ConstructSignature#3", "interface I {new (p)}", "interface I {\n    new (p);\n}", false);
    push_case(cases, "ConstructSignature#4", "interface I {new <T>()}", "interface I {\n    new <T>();\n}", false);
    push_case(cases, "IndexSignatureDeclaration#1", "interface I {[a]}", "interface I {\n    [a];\n}", false);
    push_case(cases, "IndexSignatureDeclaration#2", "interface I {[a: b]}", "interface I {\n    [a: b];\n}", false);
    push_case(cases, "IndexSignatureDeclaration#3", "interface I {[a: b]: c}", "interface I {\n    [a: b]: c;\n}", false);
    push_case(cases, "PropertyDeclaration#1", "class C {a}", "class C {\n    a;\n}", false);
    push_case(cases, "PropertyDeclaration#2", "class C {readonly a}", "class C {\n    readonly a;\n}", false);
    push_case(cases, "PropertyDeclaration#3", "class C {static a}", "class C {\n    static a;\n}", false);
    push_case(cases, "PropertyDeclaration#4", "class C {accessor a}", "class C {\n    accessor a;\n}", false);
    push_case(cases, "PropertyDeclaration#5", "class C {\"a\"}", "class C {\n    \"a\";\n}", false);
    push_case(cases, "PropertyDeclaration#6", "class C {'a'}", "class C {\n    'a';\n}", false);
    push_case(cases, "PropertyDeclaration#7", "class C {0}", "class C {\n    0;\n}", false);
    push_case(cases, "PropertyDeclaration#8", "class C {0n}", "class C {\n    0n;\n}", false);
    push_case(cases, "PropertyDeclaration#9", "class C {[a]}", "class C {\n    [a];\n}", false);
    push_case(cases, "PropertyDeclaration#10", "class C {#a}", "class C {\n    #a;\n}", false);
    push_case(cases, "PropertyDeclaration#11", "class C {a?}", "class C {\n    a?;\n}", false);
    push_case(cases, "PropertyDeclaration#12", "class C {a!}", "class C {\n    a!;\n}", false);
    push_case(cases, "PropertyDeclaration#13", "class C {a: b}", "class C {\n    a: b;\n}", false);
    push_case(cases, "PropertyDeclaration#14", "class C {a = b}", "class C {\n    a = b;\n}", false);
    proof {
        assert(case_views(cases@) =~= s0 + emit_case_table_22());
    }
}

/// Cases 441 to 460 of the table.
pub open spec fn emit_case_table_23() -> Seq<(Seq<char>, Seq<char>, Seq<char>, bool)> {
    seq![
        ("PropertyDeclaration#15"@, "class C {@a b}"@, "class C {\n    @a\n    b;\n}"@, false),
        ("MethodDeclaration#1"@, "class C {a()}"@, "class C {\n    a();\n}"@, false),
        ("MethodDeclaration#2"@, "class C {\"a\"()}"@, "class C {\n    \"a\"();\n}"@, false),
        ("MethodDeclaration#3"@, "class C {'a'()}"@, "class C {\n    'a'();\n}"@, false),
        ("MethodDeclaration#4"@, "class C {0()}"@, "class C {\n    0();\n}"@, false),
        ("MethodDeclaration#5"@, "class C {0n()}"@, "class C {\n    0n();\n}"@, false),
        ("MethodDeclaration#6"@, "class C {[a]()}"@, "class C {\n    [a]();\n}"@, false),
        ("MethodDeclaration#7"@, "class C {#a()}"@, "class C {\n    #a();\n}"@, false),
        ("MethodDeclaration#8"@, "class C {a?()}"@, "class C {\n    a?();\n}"@, false),
        ("MethodDeclaration#9"@, "class C {a<T>()}"@, "class C {\n    a<T>();\n}"@, false),
        ("MethodDeclaration#10"@, "class C {a(): b}"@, "class C {\n    a(): b;\n}"@, false),
        ("MethodDeclaration#11"@, "class C {a(b): c}"@, "class C {\n    a(b): c;\n}"@, false),
        ("MethodDeclaration#12"@, "class C {a() {} }"@, "class C {\n    a() { }\n}"@, false),
        ("MethodDeclaration#13"@, "class C {@a b() {} }"@, "class C {\n    @a\n    b() { }\n}"@, false),
        ("MethodDeclaration#14"@, "class C {static a() {} }"@, "class C {\n    static a() { }\n}"@, false),
        ("MethodDeclaration#15"@, "class C {async a() {} }"@, "class C {\n    async a() { }\n}"@, false),
        ("GetAccessorDeclaration#1"@, "class C {get a()}"@, "class C {\n    get a();\n}"@, false),
        ("GetAccessorDeclaration#2"@, "class C {get \"a\"()}"@, "class C {\n    get \"a\"();\n}"@, false),
        ("GetAccessorDeclaration#3"@, "class C {get 'a'()}"@, "class C {\n    get 'a'();\n}"@, false),
        ("GetAccessorDeclaration#4"@, "class C {get 0()}"@, "class C {\n    get 0();\n}"@, false),
    ]
}

/// Appends cases 441 to 460 of the table.
#[verifier::spinoff_prover]
fn push_cases_23(cases: &mut Vec<EmitCase>)
    ensures
        case_views(final(cases)@) == case_views(old(cases)@) + emit_case_table_23(),
{
    let ghost s0 = case_views(cases@);
    push_case(cases, "PropertyDeclaration#15", "class C {@a b}", "class C {\n    @a\n    b;\n}", false);
    push_case(cases, "MethodDeclaration#1", "class C {a()}", "class C {\n    a();\n}", false);
    push_case(cases, "MethodDeclaration#2", "class C {\"a\"()}", "class C {\n    \"a\"();\n}", false);
    push_case(cases, "MethodDeclaration#3", "class C {'a'()}", "class C {\n    'a'();\n}", false);
    push_case(cases, "MethodDeclaration#4", "class C {0()}", "class C {\n    0();\n}", false);
    push_case(cases, "MethodDeclaration#5", "class C {0n()}", "class C {\n    0n();\n}", false);
    push_case(cases, "MethodDeclaration#6", "class C {[a]()}", "class C {\n    [a]();\n}", false);
    push_case(cases, "MethodDeclaration#7", "class C {#a()}", "class C {\n    #a();\n}", false);
    push_case(cases, "MethodDeclaration#8", "class C {a?()}", "class C {\n    a?();\n}", false);
    push_case(cases, "MethodDeclaration#9", "class C {a<T>()}", "class C {\n    a<T>();\n}", false);
    push_case(cases, "MethodDeclaration#10", "class C {a(): b}", "class C {\n    a(): b;\n}", false);
    push_case(cases, "MethodDeclaration#11", "class C {a(b): c}", "class C {\n    a(b): c;\n}", false);
    push_case(cases, "MethodDeclaration#12", "class C {a() {} }", "class C {\n    a() { }\n}", false);
    push_case(cases, "MethodDeclaration#13", "class C {@a b() {} }", "class C {\n    @a\n    b() { }\n}", false);
    push_case(cases, "MethodDeclaration#14", "class C {static a() {} }", "class C {\n    static a() { }\n}", false);
    push_case(cases, "MethodDeclaration#15", "class C {async a() {} }", "class C {\n    async a() { }\n}", false);
    push_case(cases, "GetAccessorDeclaration#1", "class C {get a()}", "class C {\n    get a();\n}", false);
    push_case(cases, "GetAccessorDeclaration#2", "class C {get \"a\"()}", "class C {\n    get \"a\"();\n}", false);
    push_case(cases, "GetAccessorDeclaration#3", "class C {get 'a'()}", "class C {\n    get 'a'();\n}", false);
    push_case(cases, "GetAccessorDeclaration#4", "class C {get 0()}", "class C {\n    get 0();\n}", false);
    proof {
        assert(case_views(cases@) =~= s0 + emit_case_table_23());
    }
}

/// Cases 461 to 480 of the table.
pub open spec fn emit_case_table_24() -> Seq<(Seq<char>, Seq<char>, Seq<char>, bool)> {
    seq![
        ("GetAccessorDeclaration#5"@, "class C {get 0n()}"@, "class C {\n    get 0n();\n}"@, false),
        ("GetAccessorDeclaration#6"@, "class C {get [a]()}"@, "class C {\n    get [a]();\n}"@, false),
        ("GetAccessorDeclaration#7"@, "class C {get #a()}"@, "class C {\n    get #a();\n}"@, false),
        ("GetAccessorDeclaration#8"@, "class C {get a(): b}"@, "class C {\n    get a(): b;\n}"@, false),
        ("GetAccessorDeclaration#9"@, "class C {get a(b): c}"@, "class C {\n    get a(b): c;\n}"@, false),
        ("GetAccessorDeclaration#10"@, "class C {get a() {} }"@, "class C {\n    get a() { }\n}"@, false),
        ("GetAccessorDeclaration#11"@, "class C {@a get b() {} }"@, "class C {\n    @a\n    get b() { }\n}"@, false),
        ("GetAccessorDeclaration#12"@, "class C {static get a() {} }"@, "class C {\n    static get a() { }\n}"@, false),
        ("SetAccessorDeclaration#1"@, "class C {set a()}"@, "class C {\n    set a();\n}"@, false),
        ("SetAccessorDeclaration#2"@, "class C {set \"a\"()}"@, "class C {\n    set \"a\"();\n}"@, false),
        ("SetAccessorDeclaration#3"@, "class C {set 'a'()}"@, "class C {\n    set 'a'();\n}"@, false),
        ("SetAccessorDeclaration#4"@, "class C {set 0()}"@, "class C {\n    set 0();\n}"@, false),
        ("SetAccessorDeclaration#5"@, "class C {set 0n()}"@, "class C {\n    set 0n();\n}"@, false),
        ("SetAccessorDeclaration#6"@, "class C {set [a]()}"@, "class C {\n    set [a]();\n}"@, false),
        ("SetAccessorDeclaration#7"@, "class C {set #a()}"@, "class C {\n    set #a();\n}"@, false),
        ("SetAccessorDeclaration#8"@, "class C {set a(): b}"@, "class C {\n    set a(): b;\n}"@, false),
        ("SetAccessorDeclaration#9"@, "class C {set a(b): c}"@, "class C {\n    set a(b): c;\n}"@, false),
        ("SetAccessorDeclaration#10"@, "class C {set a() {} }"@, "class C {\n    set a() { }\n}"@, false),
        ("SetAccessorDeclaration#11"@, "class C {@a set b() {} }"@, "class C {\n    @a\n    set b() { }\n}"@, false),
        ("SetAccessorDeclaration#12"@, "class C {static set a() {} }"@, "class C {\n    static set a() { }\n}"@, false),
    ]
}

/// Appends cases 461 to 480 of the table.
#[verifier::spinoff_prover]
fn push_cases_24(cases: &mut Vec<EmitCase>)
    ensures
        case_views(final(cases)@) == case_views(old(cases)@) + emit_case_table_24(),
{
    let ghost s0 = case_views(cases@);
    push_case(cases, "GetAccessorDeclaration#5", "class C {get 0n()}", "class C {\n    get 0n();\n}", false);
    push_case(cases, "GetAccessorDeclaration#6", "class C {get [a]()}", "class C {\n    get [a]();\n}", false);
    push_case(cases, "GetAccessorDeclaration#7", "class C {get #a()}", "class C {\n    get #a();\n}", false);
    push_case(cases, "GetAccessorDeclaration#8", "class C {get a(): b}", "class C {\n    get a(): b;\n}", false);
    push_case(cases, "GetAccessorDeclaration#9", "class C {get a(b): c}", "class C {\n    get a(b): c;\n}", false);
    push_case(cases, "GetAccessorDeclaration#10", "class C {get a() {} }", "class C {\n    get a() { }\n}", false);
    push_case(cases, "GetAccessorDeclaration#11", "class C {@a get b() {} }", "class C {\n    @a\n    get b() { }\n}", false);
    push_case(cases, "GetAccessorDeclaration#12", "class C {static get a() {} }", "class C {\n    static get a() { }\n}", false);
    push_case(cases, "SetAccessorDeclaration#1", "class C {set a()}", "class C {\n    set a();\n}", false);
    push_case(cases, "SetAccessorDeclaration#2", "class C {set \"a\"()}", "class C {\n    set \"a\"();\n}", false);
    push_case(cases, "SetAccessorDeclaration#3", "class C {set 'a'()}", "class C {\n    set 'a'();\n}", false);
    push_case(cases, "SetAccessorDeclaration#4", "class C {set 0()}", "class C {\n    set 0();\n}", false);
    push_case(cases, "SetAccessorDeclaration#5", "class C {set 0n()}", "class C {\n    set 0n();\n}", false);
    push_case(cases, "SetAccessorDeclaration#6", "class C {set [a]()}", "class C {\n    set [a]();\n}", false);
    push_case(cases, "SetAccessorDeclaration#7", "class C {set #a()}", "class C {\n    set #a();\n}", false);
    push_case(cases, "SetAccessorDeclaration#8", "class C {set a(): b}", "class C {\n    set a(): b;\n}", false);
    push_case(cases, "SetAccessorDeclaration#9", "class C {set a(b): c}", "class C {\n    set a(b): c;\n}", false);
    push_case(cases, "SetAccessorDeclaration#10", "class C {set a() {} }", "class C {\n    set a() { }\n}", false);
    push_case(cases, "SetAccessorDeclaration#11", "class C {@a set b() {} }", "class C {\n    @a\n    set b() { }\n}", false);
    push_case(cases, "SetAccessorDeclaration#12", "class C {static set a() {} }", "class C {\n    static set a() { }\n}", false);
    proof {
        assert(case_views(cases@) =~= s0 + emit_case_table_24());
    }
}

/// Cases 481 to 500 of the table.
pub open spec fn emit_case_table_25() -> Seq<(Seq<char>, Seq<char>, Seq<char>, bool)> {
    seq![
        ("ConstructorDeclaration#1"@, "class C {constructor()}"@, "class C {\n    constructor();\n}"@, false),
        ("ConstructorDeclaration#2"@, "class C {constructor(): b}"@, "class C {\n    constructor(): b;\n}"@, false),
        ("ConstructorDeclaration#3"@, "class C {constructor(b): c}"@, "class C {\n    constructor(b): c;\n}"@, false),
        ("ConstructorDeclaration#4"@, "class C {constructor() {} }"@, "class C {\n    constructor() { }\n}"@, false),
        ("ConstructorDeclaration#5"@, "class C {@a constructor() {} }"@, "class C {\n    constructor() { }\n}"@, false),
        ("ConstructorDeclaration#6"@, "class C {private constructor() {} }"@, "class C {\n    private constructor() { }\n}"@, false),
        ("ClassStaticBlockDeclaration"@, "class C {static { }}"@, "class C {\n    static { }\n}"@, false),
        ("SemicolonClassElement#1"@, "class C {;}"@, "class C {\n    ;\n}"@, false),
        ("ParameterDeclaration#1"@, "function f(a)"@, "function f(a);"@, false),
        ("ParameterDeclaration#2"@, "function f(a: b)"@, "function f(a: b);"@, false),
        ("ParameterDeclaration#3"@, "function f(a = b)"@, "function f(a = b);"@, false),
        ("ParameterDeclaration#4"@, "function f(a?)"@, "function f(a?);"@, false),
        ("ParameterDeclaration#5"@, "function f(...a)"@, "function f(...a);"@, false),
        ("ParameterDeclaration#6"@, "function f(this)"@, "function f(this);"@, false),
        ("ObjectBindingPattern#1"@, "function f({})"@, "function f({});"@, false),
        ("ObjectBindingPattern#2"@, "function f({a})"@, "function f({ a });"@, false),
        ("ObjectBindingPattern#3"@, "function f({a = b})"@, "function f({ a = b });"@, false),
        ("ObjectBindingPattern#4"@, "function f({a: b})"@, "function f({ a: b });"@, false),
        ("ObjectBindingPattern#5"@, "function f({a: b = c})"@, "function f({ a: b = c });"@, false),
        ("ObjectBindingPattern#6"@, "function f({\"a\": b})"@, "function f({ \"a\": b });"@, false),
    ]
}

/// Appends cases 481 to 500 of the table.
#[verifier::spinoff_prover]
fn push_cases_25(cases: &mut Vec<EmitCase>)
    ensures
        case_views(final(cases)@) == case_views(old(cases)@) + emit_case_table_25(),
{
    let ghost s0 = case_views(cases@);
    push_case(cases, "ConstructorDeclaration#1", "class C {constructor()}", "class C {\n    constructor();\n}", false);
    push_case(cases, "ConstructorDeclaration#2", "class C {constructor(): b}", "class C {\n    constructor(): b;\n}", false);
    push_case(cases, "ConstructorDeclaration#3", "class C {constructor(b): c}", "class C {\n    constructor(b): c;\n}", false);
    push_case(cases, "ConstructorDeclaration#4", "class C {constructor() {} }", "class C {\n    constructor() { }\n}", false);
    push_case(cases, "ConstructorDeclaration#5", "class C {@a constructor() {} }", "class C {\n    constructor() { }\n}", false);
    push_case(cases, "ConstructorDeclaration#6", "class C {private constructor() {} }", "class C {\n    private constructor() { }\n}", false);
    push_case(cases, "ClassStaticBlockDeclaration", "class C {static { }}", "class C {\n    static { }\n}", false);
    push_case(cases, "SemicolonClassElement#1", "class C {;}", "class C {\n    ;\n}", false);
    push_case(cases, "ParameterDeclaration#1", "function f(a)", "function f(a);", false);
    push_case(cases, "ParameterDeclaration#2", "function f(a: b)", "function f(a: b);", false);
    push_case(cases, "ParameterDeclaration#3", "function f(a = b)", "function f(a = b);", false);
    push_case(cases, "ParameterDeclaration#4", "function f(a?)", "function f(a?);", false);
    push_case(cases, "ParameterDeclaration#5", "function f(...a)", "function f(...a);", false);
    push_case(cases, "ParameterDeclaration#6", "function f(this)", "function f(this);", false);
    push_case(cases, "ObjectBindingPattern#1", "function f({})", "function f({});", false);
    push_case(cases, "ObjectBindingPattern#2", "function f({a})", "function f({ a });", false);
    push_case(cases, "ObjectBindingPattern#3", "function f({a = b})", "function f({ a = b });", false);
    push_case(cases, "ObjectBindingPattern#4", "function f({a: b})", "function f({ a: b });", false);
    push_case(cases, "ObjectBindingPattern#5", "function f({a: b = c})", "function f({ a: b = c });", false);
    push_case(cases, "ObjectBindingPattern#6", "function f({\"a\": b})", "function f({ \"a\": b });", false);
    proof {
        assert(case_views(cases@) =~= s0 + emit_case_table_25());
    }
}

/// Cases 501 to 520 of the table.
pub open spec fn emit_case_table_26() -> Seq<(Seq<char>, Seq<char>, Seq<char>, bool)> {
    seq![
        ("ObjectBindingPattern#7"@, "function f({'a': b})"@, "function f({ 'a': b });"@, false),
        ("ObjectBindingPattern#8"@, "function f({0: b})"@, "function f({ 0: b });"@, false),
        ("ObjectBindingPattern#9"@, "function f({[a]: b})"@, "function f({ [a]: b });"@, false),
        ("ObjectBindingPattern#10"@, "function f({...a})"@, "function f({ ...a });"@, false),
        ("ObjectBindingPattern#11"@, "function f({a: {}})"@, "function f({ a: {} });"@, false),
        ("ObjectBindingPattern#12"@, "function f({a: []})"@, "function f({ a: [] });"@, false),
        ("ArrayBindingPattern#1"@, "function f([])"@, "function f([]);"@, false),
        ("ArrayBindingPattern#2"@, "function f([,])"@, "function f([,]);"@, false),
        ("ArrayBindingPattern#3"@, "function f([a])"@, "function f([a]);"@, false),
        ("ArrayBindingPattern#4"@, "function f([a, b])"@, "function f([a, b]);"@, false),
        ("ArrayBindingPattern#5"@, "function f([a, , b])"@, "function f([a, , b]);"@, false),
        ("ArrayBindingPattern#6"@, "function f([a = b])"@, "function f([a = b]);"@, false),
        ("ArrayBindingPattern#7"@, "function f([...a])"@, "function f([...a]);"@, false),
        ("ArrayBindingPattern#8"@, "function f([{}])"@, "function f([{}]);"@, false),
        ("ArrayBindingPattern#9"@, "function f([[]])"@, "function f([[]]);"@, false),
        ("TypeParameterDeclaration#1"@, "function f<T>();"@, "function f<T>();"@, false),
        ("TypeParameterDeclaration#2"@, "function f<in T>();"@, "function f<in T>();"@, false),
        ("TypeParameterDeclaration#3"@, "function f<T extends U>();"@, "function f<T extends U>();"@, false),
        ("TypeParameterDeclaration#4"@, "function f<T = U>();"@, "function f<T = U>();"@, false),
        ("TypeParameterDeclaration#5"@, "function f<T extends U = V>();"@, "function f<T extends U = V>();"@, false),
    ]
}

/// Appends cases 501 to 520 of the table.
#[verifier::spinoff_prover]
fn push_cases_26(cases: &mut Vec<EmitCase>)
    ensures
        case_views(final(cases)@) == case_views(old(cases)@) + emit_case_table_26(),
{
    let ghost s0 = case_views(cases@);
    push_case(cases, "ObjectBindingPattern#7", "function f({'a': b})", "function f({ 'a': b });", false);
    push_case(cases, "ObjectBindingPattern#8", "function f({0: b})", "function f({ 0: b });", false);
    push_case(cases, "ObjectBindingPattern#9", "function f({[a]: b})", "function f({ [a]: b });", false);
    push_case(cases, "ObjectBindingPattern#10", "function f({...a})", "function f({ ...a });", false);
    push_case(cases, "ObjectBindingPattern#11", "function f({a: {}})", "function f({ a: {} });", false);
    push_case(cases, "ObjectBindingPattern#12", "function f({a: []})", "function f({ a: [] });", false);
    push_case(cases, "ArrayBindingPattern#1", "function f([])", "function f([]);", false);
    push_case(cases, "ArrayBindingPattern#2", "function f([,])", "function f([,]);", false);
    push_case(cases, "ArrayBindingPattern#3", "function f([a])", "function f([a]);", false);
    push_case(cases, "ArrayBindingPattern#4", "function f([a, b])", "function f([a, b]);", false);
    push_case(cases, "ArrayBindingPattern#5", "function f([a, , b])", "function f([a, , b]);", false);
    push_case(cases, "ArrayBindingPattern#6", "function f([a = b])", "function f([a = b]);", false);
    push_case(cases, "ArrayBindingPattern#7", "function f([...a])", "function f([...a]);", false);
    push_case(cases, "ArrayBindingPattern#8", "function f([{}])", "function f([{}]);", false);
    push_case(cases, "ArrayBindingPattern#9", "function f([[]])", "function f([[]]);", false);
    push_case(cases, "TypeParameterDeclaration#1", "function f<T>();", "function f<T>();", false);
    push_case(cases, "TypeParameterDeclaration#2", "function f<in T>();", "function f<in T>();", false);
    push_case(cases, "TypeParameterDeclaration#3", "function f<T extends U>();", "function f<T extends U>();", false);
    push_case(cases, "TypeParameterDeclaration#4", "function f<T = U>();", "function f<T = U>();", false);
    push_case(cases, "TypeParameterDeclaration#5", "function f<T extends U = V>();", "function f<T extends U = V>();", false);
    proof {
        assert(case_views(cases@) =~= s0 + emit_case_table_26());
    }
}

/// Cases 521 to 540 of the table.
pub open spec fn emit_case_table_27() -> Seq<(Seq<char>, Seq<char>, Seq<char>, bool)> {
    seq![
        ("TypeParameterDeclaration#6"@, "function f<T, U>();"@, "function f<T, U>();"@, false),
        ("JsxElement1"@, "<a></a>"@, "<a></a>;"@, true),
        ("JsxElement2"@, "<this></this>"@, "<this></this>;"@, true),
        ("JsxElement3"@, "<a:b></a:b>"@, "<a:b></a:b>;"@, true),
        ("JsxElement4"@, "<a.b></a.b>"@, "<a.b></a.b>;"@, true),
        ("JsxElement5"@, "<a<b>></a>"@, "<a<b>></a>;"@, true),
        ("JsxElement6"@, "<a b></a>"@, "<a b></a>;"@, true),
        ("JsxElement7"@, "<a>b</a>"@, "<a>b</a>;"@, true),
        ("JsxElement8"@, "<a>{b}</a>"@, "<a>{b}</a>;"@, true),
        ("JsxElement9"@, "<a><b></b></a>"@, "<a><b></b></a>;"@, true),
        ("JsxElement10"@, "<a><b /></a>"@, "<a><b /></a>;"@, true),
        ("JsxElement11"@, "<a><></></a>"@, "<a><></></a>;"@, true),
        ("JsxElement12"@, "<a>\n    {/* missing */}\n    {\n        // foo\n    }\n</a>"@, "<a>\n    {/* missing */}\n    {\n    // foo\n    }\n</a>;"@, true),
        ("JsxSelfClosingElement1"@, "<a />"@, "<a />;"@, true),
        ("JsxSelfClosingElement2"@, "<this />"@, "<this />;"@, true),
        ("JsxSelfClosingElement3"@, "<a:b />"@, "<a:b />;"@, true),
        ("JsxSelfClosingElement4"@, "<a.b />"@, "<a.b />;"@, true),
        ("JsxSelfClosingElement5"@, "<a<b> />"@, "<a<b> />;"@, true),
        ("JsxSelfClosingElement6"@, "<a b/>"@, "<a b/>;"@, true),
        ("JsxFragment1"@, "<></>"@, "<></>;"@, true),
    ]
}

/// Appends cases 521 to 540 of the table.
#[verifier::spinoff_prover]
fn push_cases_27(cases: &mut Vec<EmitCase>)
    ensures
        case_views(final(cases)@) == case_views(old(cases)@) + emit_case_table_27(),
{
    let ghost s0 = case_views(cases@);
    push_case(cases, "TypeParameterDeclaration#6", "function f<T, U>();", "function f<T, U>();", false);
    push_case(cases, "JsxElement1", "<a></a>", "<a></a>;", true);
    push_case(cases, "JsxElement2", "<this></this>", "<this></this>;", true);
    push_case(cases, "JsxElement3", "<a:b></a:b>", "<a:b></a:b>;", true);
    push_case(cases, "JsxElement4", "<a.b></a.b>", "<a.b></a.b>;", true);
    push_case(cases, "JsxElement5", "<a<b>></a>", "<a<b>></a>;", true);
    push_case(cases, "JsxElement6", "<a b></a>", "<a b></a>;", true);
    push_case(cases, "JsxElement7", "<a>b</a>", "<a>b</a>;", true);
    push_case(cases, "JsxElement8", "<a>{b}</a>", "<a>{b}</a>;", true);
    push_case(cases, "JsxElement9", "<a><b></b></a>", "<a><b></b></a>;", true);
    push_case(cases, "JsxElement10", "<a><b /></a>", "<a><b /></a>;", true);
    push_case(cases, "JsxElement11", "<a><></></a>", "<a><></></a>;", true);
    push_case(cases, "JsxElement12", "<a>\n    {/* missing */}\n    {\n        // foo\n    }\n</a>", "<a>\n    {/* missing */}\n    {\n    // foo\n    }\n</a>;", true);
    push_case(cases, "JsxSelfClosingElement1", "<a />", "<a />;", true);
    push_case(cases, "JsxSelfClosingElement2", "<this />", "<this />;", true);
    push_case(cases, "JsxSelfClosingElement3", "<a:b />", "<a:b />;", true);
    push_case(cases, "JsxSelfClosingElement4", "<a.b />", "<a.b />;", true);
    push_case(cases, "JsxSelfClosingElement5", "<a<b> />", "<a<b> />;", true);
    push_case(cases, "JsxSelfClosingElement6", "<a b/>", "<a b/>;", true);
    push_case(cases, "JsxFragment1", "<></>", "<></>;", true);
    proof {
        assert(case_views(cases@) =~= s0 + emit_case_table_27());
    }
}

/// Cases 541 to 554 of the table.
pub open spec fn emit_case_table_28() -> Seq<(Seq<char>, Seq<char>, Seq<char>, bool)> {
    seq![
        ("JsxFragment2"@, "<>b</>"@, "<>b</>;"@, true),
        ("JsxFragment3"@, "<>{b}</>"@, "<>{b}</>;"@, true),
        ("JsxFragment4"@, "<><b></b></>"@, "<><b></b></>;"@, true),
        ("JsxFragment5"@, "<><b /></>"@, "<><b /></>;"@, true),
        ("JsxFragment6"@, "<><></></>"@, "<><></></>;"@, true),
        ("JsxAttribute1"@, "<a b/>"@, "<a b/>;"@, true),
        ("JsxAttribute2"@, "<a b:c/>"@, "<a b:c/>;"@, true),
        ("JsxAttribute3"@, "<a b=\"c\"/>"@, "<a b=\"c\"/>;"@, true),
        ("JsxAttribute4"@, "<a b='c'/>"@, "<a b='c'/>;"@, true),
        ("JsxAttribute5"@, "<a b={c}/>"@, "<a b={c}/>;"@, true),
        ("JsxAttribute6"@, "<a b=<c></c>/>"@, "<a b=<c></c>/>;"@, true),
        ("JsxAttribute7"@, "<a b=<c />/>"@, "<a b=<c />/>;"@, true),
        ("JsxAttribute8"@, "<a b=<></>/>"@, "<a b=<></>/>;"@, true),
        ("JsxSpreadAttribute"@, "<a {...b}/>"@, "<a {...b}/>;"@, true),
    ]
}

/// Appends cases 541 to 554 of the table.
#[verifier::spinoff_prover]
fn push_cases_28(cases: &mut Vec<EmitCase>)
    ensures
        case_views(final(cases)@) == case_views(old(cases)@) + emit_case_table_28(),
{
    let ghost s0 = case_views(cases@);
    push_case(cases, "JsxFragment2", "<>b</>", "<>b</>;", true);
    push_case(cases, "JsxFragment3", "<>{b}</>", "<>{b}</>;", true);
    push_case(cases, "JsxFragment4", "<><b></b></>", "<><b></b></>;", true);
    push_case(cases, "JsxFragment5", "<><b /></>", "<><b /></>;", true);
    push_case(cases, "JsxFragment6", "<><></></>", "<><></></>;", true);
    push_case(cases, "JsxAttribute1", "<a b/>", "<a b/>;", true);
    push_case(cases, "JsxAttribute2", "<a b:c/>", "<a b:c/>;", true);
    push_case(cases, "JsxAttribute3", "<a b=\"c\"/>", "<a b=\"c\"/>;", true);
    push_case(cases, "JsxAttribute4", "<a b='c'/>", "<a b='c'/>;", true);
    push_case(cases, "JsxAttribute5", "<a b={c}/>", "<a b={c}/>;", true);
    push_case(cases, "JsxAttribute6", "<a b=<c></c>/>", "<a b=<c></c>/>;", true);
    push_case(cases, "JsxAttribute7", "<a b=<c />/>", "<a b=<c />/>;", true);
    push_case(cases, "JsxAttribute8", "<a b=<></>/>", "<a b=<></>/>;", true);
    push_case(cases, "JsxSpreadAttribute", "<a {...b}/>", "<a {...b}/>;", true);
    proof {
        assert(case_views(cases@) =~= s0 + emit_case_table_28());
    }
}

} // verus!
