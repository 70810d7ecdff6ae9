use cargo_fl::ast::{Arm, BinOp, Expr, FnItem, ImportedName, Item, LitKind, Pat, Span, Stmt,
    SyntaxTree, TypeItem, UseImport};
use cargo_fl::issues::Severity;
use cargo_fl::rules::anti_patterns::AntiPatternsRule;
use cargo_fl::rules::complexity::{calculate_cognitive_complexity, calculate_cyclomatic_complexity,
    CognitiveComplexityRule, CyclomaticComplexityRule};
use cargo_fl::rules::docs::MissingDocsRule;
use cargo_fl::rules::imports::{ImportOrderRule, UnusedImportRule};
use cargo_fl::rules::must_use::MustUseRule;
use cargo_fl::rules::style::{LineLengthRule, NamingConventionRule};
use cargo_fl::rules::syntax::UnmatchedDelimitersRule;
use cargo_fl::rules::todo_macros::TodoMacroRule;
use cargo_fl::rules::unsafe_code::UnsafeBlockRule;
use cargo_fl::rules::unwrap_usage::UnwrapUsageRule;
use cargo_fl::rules::RuleContext;

fn sp(line: usize, col: usize) -> Span {
    Span { line, col }
}

fn fn_item(name: &str, body: Vec<Stmt>) -> Item {
    Item::Fn(FnItem {
        name: name.to_string(),
        span: sp(1, 1),
        is_pub: false,
        has_doc: false,
        is_unsafe: false,
        has_must_use: false,
        body,
        idents: Vec::new(),
    })
}

fn path_expr(name: &str, line: usize, col: usize) -> Expr {
    Expr::PathExpr { last: Some(name.to_string()), span: sp(line, col) }
}

fn method_call(receiver: Expr, method: &str, args: Vec<Expr>, line: usize, col: usize) -> Expr {
    Expr::MethodCall {
        receiver: Box::new(receiver),
        method: method.to_string(),
        args,
        span: sp(line, col),
    }
}

fn ctx_for(items: Vec<Item>, content: &str) -> RuleContext {
    RuleContext::new(
        "test.rs".to_string(),
        content.to_string(),
        SyntaxTree { items },
    )
}

fn simple_if() -> Stmt {
    Stmt::ExprStmt(Expr::If {
        cond: Box::new(path_expr("flag", 1, 1)),
        then_body: Vec::new(),
        else_body: None,
    })
}

#[test]
fn bare_unwrap_statement_yields_unwrap_usage_warning() {
    let get_call = method_call(
        path_expr("map", 1, 1),
        "get",
        vec![Expr::Lit { kind: LitKind::StrLit }],
        1,
        5,
    );
    let unwrap_call = method_call(get_call, "unwrap", Vec::new(), 1, 16);
    let items = vec![fn_item("f", vec![Stmt::ExprStmt(unwrap_call)])];
    let mut ctx = ctx_for(items, "fn f() { map.get(\"key\").unwrap(); }");
    UnwrapUsageRule.check(&mut ctx);
    assert_eq!(ctx.issues.len(), 1);
    assert_eq!(ctx.issues[0].rule, "unwrap_usage");
    assert!(matches!(ctx.issues[0].severity, Severity::Warning));
    assert!(ctx.issues[0].message.contains("`unwrap()`"));
    assert_eq!(ctx.issues[0].location.line, 1);
    assert_eq!(ctx.issues[0].location.column, 16);
}

#[test]
fn bare_lazy_map_statement_yields_must_use_violation() {
    let vec_macro = Expr::MacroCall {
        name: "vec".to_string(),
        tokens: "1,2,3".to_string(),
        span: sp(1, 1),
    };
    let iter_call = method_call(vec_macro, "iter", Vec::new(), 1, 11);
    let map_call = method_call(
        iter_call,
        "map",
        vec![Expr::Other { children: Vec::new() }],
        1,
        18,
    );
    let items = vec![fn_item("f", vec![Stmt::ExprStmt(map_call)])];
    let mut ctx = ctx_for(items, "fn f() { vec![1,2,3].iter().map(|x| x*2); }");
    MustUseRule.check(&mut ctx);
    assert_eq!(ctx.issues.len(), 1);
    assert_eq!(ctx.issues[0].rule, "must_use_violations");
    assert!(matches!(ctx.issues[0].severity, Severity::Warning));
    assert!(ctx.issues[0].message.contains("lazy iterator"));
    assert!(ctx.issues[0].message.contains("`map()`"));
}

#[test]
fn pascal_case_function_gets_snake_case_fix() {
    let items = vec![fn_item("DoThing", Vec::new())];
    let mut ctx = ctx_for(items, "fn DoThing() {}");
    NamingConventionRule.check(&mut ctx);
    assert_eq!(ctx.issues.len(), 1);
    assert_eq!(ctx.issues[0].rule, "naming-convention");
    assert_eq!(ctx.issues[0].message, "Function 'DoThing' should be snake_case");
    let fix = ctx.issues[0].fix.as_ref().unwrap();
    assert_eq!(fix.replacements[0].text, "do_thing");
}

#[test]
fn five_independent_ifs_give_cyclomatic_six() {
    let body = vec![simple_if(), simple_if(), simple_if(), simple_if(), simple_if()];
    assert_eq!(calculate_cyclomatic_complexity(&body), 6);
}

#[test]
fn nested_if_costs_more_cognitively() {
    let inner = simple_if();
    let outer = Stmt::ExprStmt(Expr::If {
        cond: Box::new(path_expr("flag", 1, 1)),
        then_body: vec![inner],
        else_body: None,
    });
    // the outer decision costs 1, the nested one 1 + 1
    assert_eq!(calculate_cognitive_complexity(&vec![outer]), 3);
    // the same decision unwrapped costs only 1
    assert_eq!(calculate_cognitive_complexity(&vec![simple_if()]), 1);
}

#[test]
fn complexity_rule_reports_excess_with_measured_value() {
    let body = vec![simple_if(), simple_if(), simple_if()];
    let items = vec![fn_item("busy", body)];
    let mut ctx = ctx_for(items, "");
    CyclomaticComplexityRule::new(2).check(&mut ctx);
    assert_eq!(ctx.issues.len(), 1);
    assert_eq!(ctx.issues[0].rule, "cyclomatic-complexity");
    assert_eq!(
        ctx.issues[0].message,
        "Function 'busy' has cyclomatic complexity of 4 (max: 2)",
    );
    let mut ctx2 = ctx_for(vec![fn_item("calm", vec![simple_if()])], "");
    CognitiveComplexityRule::new(10).check(&mut ctx2);
    assert_eq!(ctx2.issues.len(), 0);
}

#[test]
fn long_lines_are_reported_with_lengths() {
    let mut ctx = ctx_for(Vec::new(), "short\nthis line is long\nok");
    LineLengthRule::new(10).check(&mut ctx);
    assert_eq!(ctx.issues.len(), 1);
    assert_eq!(ctx.issues[0].rule, "line-too-long");
    assert_eq!(ctx.issues[0].message, "Line exceeds 10 characters (17)");
    assert_eq!(ctx.issues[0].location.line, 2);
    assert_eq!(ctx.issues[0].location.column, 11);
}

#[test]
fn unmatched_closing_brace_is_reported() {
    let mut ctx = ctx_for(Vec::new(), "fn f() { }\n}\n");
    UnmatchedDelimitersRule.check(&mut ctx);
    assert_eq!(ctx.issues.len(), 1);
    assert_eq!(ctx.issues[0].rule, "unmatched-delimiters");
    assert_eq!(ctx.issues[0].message, "Unmatched closing brace");
    assert_eq!(ctx.issues[0].location.line, 2);
    assert_eq!(ctx.issues[0].location.column, 1);
}

#[test]
fn braces_inside_strings_and_comments_are_ignored() {
    let mut ctx = ctx_for(Vec::new(), "let s = \"}}}\";\n// }}}\n/* }}} */\nlet c = '}';\n");
    UnmatchedDelimitersRule.check(&mut ctx);
    assert_eq!(ctx.issues.len(), 0);
}

#[test]
fn panic_macro_is_an_error_with_extracted_message() {
    let items = vec![fn_item(
        "f",
        vec![Stmt::ExprStmt(Expr::MacroCall {
            name: "panic".to_string(),
            tokens: "\"boom\"".to_string(),
            span: sp(3, 5),
        })],
    )];
    let mut ctx = ctx_for(items, "");
    TodoMacroRule.check(&mut ctx);
    assert_eq!(ctx.issues.len(), 1);
    assert!(matches!(ctx.issues[0].severity, Severity::Error));
    assert_eq!(
        ctx.issues[0].message,
        "panic!() - Panic macro found - consider returning Result or using expect() with context: boom",
    );
}

#[test]
fn unreachable_macro_is_informational() {
    let items = vec![fn_item(
        "f",
        vec![Stmt::ExprStmt(Expr::MacroCall {
            name: "unreachable".to_string(),
            tokens: String::new(),
            span: sp(1, 1),
        })],
    )];
    let mut ctx = ctx_for(items, "");
    TodoMacroRule.check(&mut ctx);
    assert_eq!(ctx.issues.len(), 1);
    assert!(matches!(ctx.issues[0].severity, Severity::Info));
}

#[test]
fn get_zero_is_flagged_as_anti_pattern() {
    let call = method_call(
        path_expr("items", 1, 1),
        "get",
        vec![Expr::Lit { kind: LitKind::IntLit("0".to_string()) }],
        1,
        7,
    );
    let items = vec![fn_item("f", vec![Stmt::LocalStmt(Some(call))])];
    let mut ctx = ctx_for(items, "");
    AntiPatternsRule.check(&mut ctx);
    assert_eq!(ctx.issues.len(), 1);
    assert_eq!(ctx.issues[0].rule, "anti_patterns");
    assert_eq!(ctx.issues[0].message, "Use `.first()` instead of `.get(0)` for better semantics");
}

#[test]
fn two_armed_option_match_suggests_combinators() {
    let m = Expr::Match {
        scrutinee: Box::new(path_expr("value", 1, 1)),
        arms: vec![
            Arm { pat: Pat::PathPat(Some("None".to_string())), body: path_expr("a", 1, 1) },
            Arm { pat: Pat::OtherPat, body: path_expr("b", 1, 1) },
        ],
        span: sp(4, 9),
    };
    let items = vec![fn_item("f", vec![Stmt::ExprStmt(m)])];
    let mut ctx = ctx_for(items, "");
    AntiPatternsRule.check(&mut ctx);
    assert_eq!(ctx.issues.len(), 1);
    assert!(ctx.issues[0].message.contains("combinators"));
    assert_eq!(ctx.issues[0].location.line, 4);
}

#[test]
fn undocumented_public_items_are_flagged() {
    let items = vec![
        Item::Fn(FnItem {
            name: "visible".to_string(),
            span: sp(1, 1),
            is_pub: true,
            has_doc: false,
            is_unsafe: false,
            has_must_use: false,
            body: Vec::new(),
            idents: Vec::new(),
        }),
        Item::Struct(TypeItem {
            name: "Documented".to_string(),
            span: sp(5, 1),
            is_pub: true,
            has_doc: true,
            idents: Vec::new(),
        }),
    ];
    let mut ctx = ctx_for(items, "");
    MissingDocsRule.check(&mut ctx);
    assert_eq!(ctx.issues.len(), 1);
    assert_eq!(ctx.issues[0].message, "Missing documentation for public function 'visible'");
}

#[test]
fn undocumented_unsafe_function_is_an_error() {
    let items = vec![Item::Fn(FnItem {
        name: "danger".to_string(),
        span: sp(2, 1),
        is_pub: false,
        has_doc: false,
        is_unsafe: true,
        has_must_use: false,
        body: Vec::new(),
        idents: Vec::new(),
    })];
    let mut ctx = ctx_for(items, "");
    UnsafeBlockRule.check(&mut ctx);
    assert_eq!(ctx.issues.len(), 1);
    assert_eq!(ctx.issues[0].rule, "unsafe-block");
    assert!(matches!(ctx.issues[0].severity, Severity::Error));
}

fn use_item(path: &str, rendered: &str, names: Vec<&str>, line: usize) -> Item {
    Item::Use(UseImport {
        path: path.to_string(),
        rendered: rendered.to_string(),
        names: names
            .into_iter()
            .map(|n| ImportedName { name: n.to_string(), span: Span { line, col: 5 } })
            .collect(),
        span: Span { line, col: 1 },
    })
}

#[test]
fn external_import_above_std_is_reported() {
    let items = vec![
        use_item("serde::Serialize", "use serde::Serialize;", vec!["Serialize"], 1),
        use_item("std::fs", "use std::fs;", vec!["fs"], 2),
    ];
    let mut ctx = ctx_for(items, "");
    ImportOrderRule.check(&mut ctx);
    assert_eq!(ctx.issues.len(), 1);
    assert_eq!(ctx.issues[0].rule, "import-order");
    assert_eq!(
        ctx.issues[0].message,
        "External imports should come after standard library imports",
    );
    assert_eq!(ctx.issues[0].location.line, 1);
}

#[test]
fn unused_import_is_reported_once() {
    let mut used = Item::Other(cargo_fl::ast::OtherItem { stmts: Vec::new(), idents: Vec::new() });
    if let Item::Other(o) = &mut used {
        o.idents.push("Serialize".to_string());
    }
    let items = vec![
        use_item("serde::Serialize", "use serde::Serialize;", vec!["Serialize"], 1),
        use_item("std::fs", "use std::fs;", vec!["fs"], 2),
        used,
    ];
    let mut ctx = ctx_for(items, "");
    UnusedImportRule.check(&mut ctx);
    assert_eq!(ctx.issues.len(), 1);
    assert_eq!(ctx.issues[0].message, "Unused import: fs");
    assert_eq!(ctx.issues[0].location.line, 2);
}

#[test]
fn binary_short_circuit_counts_one_decision() {
    let cond = Expr::Binary {
        op: BinOp::And,
        left: Box::new(path_expr("a", 1, 1)),
        right: Box::new(path_expr("b", 1, 1)),
    };
    let body = vec![Stmt::ExprStmt(Expr::If {
        cond: Box::new(cond),
        then_body: Vec::new(),
        else_body: None,
    })];
    assert_eq!(calculate_cyclomatic_complexity(&body), 3);
}
