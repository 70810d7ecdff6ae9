use cargo_fl::analyzer::Analyzer;
use cargo_fl::ast::{Expr, FnItem, Item, Span, Stmt, SyntaxTree};
use cargo_fl::config::Config;
use cargo_fl::diagnostics::{to_diagnostic, to_text_edit};
use cargo_fl::issues::{Fix, Issue, Location, Replacement, Severity};
use cargo_fl::naming::{is_pascal_case, is_snake_case, to_snake_case};

fn bad_name_tree() -> SyntaxTree {
    SyntaxTree {
        items: vec![Item::Fn(FnItem {
            name: "DoThing".to_string(),
            span: Span { line: 1, col: 4 },
            is_pub: false,
            has_doc: false,
            is_unsafe: false,
            has_must_use: false,
            body: Vec::new(),
            idents: Vec::new(),
        })],
    }
}

#[test]
fn analyze_file_collects_issues_and_stats() {
    let analyzer = Analyzer::new(Config::default());
    let results = analyzer.analyze_file(
        "demo.rs".to_string(),
        "fn DoThing() {}".to_string(),
        bad_name_tree(),
    );
    assert_eq!(results.file_count(), 1);
    assert_eq!(results.files_with_issues(), 1);
    assert_eq!(results.total_issues(), 1);
    assert_eq!(results.stats.warnings, 1);
    assert_eq!(results.stats.errors, 0);
    assert_eq!(results.fixable_count(), 1);
    assert_eq!(results.file_issues[0].path, "demo.rs");
    assert_eq!(results.file_issues[0].issues[0].rule, "naming-convention");
    assert!(!results.has_fixes());
    assert_eq!(results.cache_hit_rate(), 0);
    assert_eq!(results.analysis_time_ms(), 0);
    assert_eq!(results.fixes_applied(), 0);
}

#[test]
fn clean_file_yields_no_file_entries() {
    let analyzer = Analyzer::new(Config::default());
    let tree = SyntaxTree {
        items: vec![Item::Fn(FnItem {
            name: "fine".to_string(),
            span: Span { line: 1, col: 4 },
            is_pub: false,
            has_doc: true,
            is_unsafe: false,
            has_must_use: false,
            body: vec![Stmt::ExprStmt(Expr::PathExpr {
                last: Some("x".to_string()),
                span: Span { line: 1, col: 12 },
            })],
            idents: Vec::new(),
        })],
    };
    let results = analyzer.analyze_file("ok.rs".to_string(), "fn fine() {}".to_string(), tree);
    assert_eq!(results.total_issues(), 0);
    assert_eq!(results.files_with_issues(), 0);
    assert_eq!(results.file_issues.len(), 0);
}

#[test]
fn analysis_is_repeatable_for_identical_input() {
    let analyzer = Analyzer::new(Config::default());
    let run = |t: SyntaxTree| {
        analyzer.analyze_file("demo.rs".to_string(), "fn DoThing() {}".to_string(), t)
    };
    let a = run(bad_name_tree());
    let b = run(bad_name_tree());
    assert_eq!(a.total_issues(), b.total_issues());
    assert_eq!(a.file_issues[0].issues[0].rule, b.file_issues[0].issues[0].rule);
    assert_eq!(a.file_issues[0].issues[0].message, b.file_issues[0].issues[0].message);
    assert_eq!(
        a.file_issues[0].issues[0].location.line,
        b.file_issues[0].issues[0].location.line,
    );
}

#[test]
fn issue_display_lays_out_all_parts() {
    let issue = Issue {
        rule: "naming-convention".to_string(),
        severity: Severity::Warning,
        message: "Function 'DoThing' should be snake_case".to_string(),
        location: Location { line: 3, column: 7, end_line: None, end_column: None },
        fix: None,
    };
    assert_eq!(
        issue.display(),
        "  3:7 warning [naming-convention] Function 'DoThing' should be snake_case",
    );
}

#[test]
fn github_levels_match_severities() {
    assert_eq!(Severity::Error.github_level(), "error");
    assert_eq!(Severity::Warning.github_level(), "warning");
    assert_eq!(Severity::Info.github_level(), "notice");
    assert_eq!(Severity::Error.text(), "error");
    assert_eq!(Severity::Info.text(), "info");
}

#[test]
fn diagnostics_are_zero_based_with_stable_codes() {
    let issue = Issue {
        rule: "unwrap_usage".to_string(),
        severity: Severity::Warning,
        message: "m".to_string(),
        location: Location { line: 3, column: 7, end_line: Some(3), end_column: Some(13) },
        fix: Some(Fix {
            description: "swap it".to_string(),
            replacements: vec![Replacement { start: 0, end: 0, text: "t".to_string() }],
        }),
    };
    let d = to_diagnostic(&issue);
    assert_eq!(d.range.start.line, 2);
    assert_eq!(d.range.start.character, 6);
    assert_eq!(d.range.end.character, 12);
    assert_eq!(d.severity, 2);
    assert_eq!(d.code, "unwrap_usage");
    assert_eq!(d.source, "cargo-fl");
    let edit = to_text_edit(&issue).unwrap();
    assert_eq!(edit.range.start.line, 2);
    assert_eq!(edit.new_text, "swap it");
}

#[test]
fn default_config_enables_the_catalog() {
    let config = Config::default();
    assert!(config.rules.check_naming);
    assert!(config.rules.check_complexity);
    assert_eq!(config.style.max_line_length, 100);
    assert_eq!(config.complexity.max_cyclomatic, 10);
    assert_eq!(config.complexity.max_cognitive, 15);
    assert!(config.cache.enabled);
    assert!(config.performance.parallel_analysis);
    assert_eq!(config.ignore.len(), 3);
    assert_eq!(config.ignore[0], "target/**");
}

#[test]
fn case_predicates_follow_their_definitions() {
    assert!(is_snake_case("good_name_2"));
    assert!(!is_snake_case("BadName"));
    assert!(is_pascal_case("GoodType"));
    assert!(!is_pascal_case("bad_type"));
    assert!(!is_pascal_case(""));
    assert_eq!(to_snake_case("DoThing"), "do_thing");
}
