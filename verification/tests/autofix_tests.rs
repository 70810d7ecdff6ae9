use cargo_fl::ast::{FnItem, ImportedName, Item, Span, SyntaxTree, UseImport};
use cargo_fl::autofix::{AutoFixEngine, ImportOrganizer};
use cargo_fl::issues::{Fix, Issue, Location, Replacement, Severity};

fn issue_with_fix(line: usize, start: usize, end: usize, text: &str) -> Issue {
    Issue {
        rule: "naming-convention".to_string(),
        severity: Severity::Warning,
        message: "msg".to_string(),
        location: Location { line, column: 1, end_line: None, end_column: None },
        fix: Some(Fix {
            description: "fix".to_string(),
            replacements: vec![Replacement { start, end, text: text.to_string() }],
        }),
    }
}

fn issue_without_fix(line: usize) -> Issue {
    Issue {
        rule: "line-too-long".to_string(),
        severity: Severity::Info,
        message: "msg".to_string(),
        location: Location { line, column: 1, end_line: None, end_column: None },
        fix: None,
    }
}

#[test]
fn single_replacement_is_spliced_in() {
    let mut engine = AutoFixEngine::new();
    let issues = vec![issue_with_fix(1, 0, 5, "howdy")];
    let fixed = engine.apply_fixes("hello world", &issues);
    assert_eq!(fixed, "howdy world");
    assert_eq!(engine.fixes_applied, 1);
}

#[test]
fn zero_fix_pass_returns_content_unchanged() {
    let mut engine = AutoFixEngine::new();
    let issues = vec![issue_without_fix(1), issue_without_fix(2)];
    let fixed = engine.apply_fixes("keep me intact", &issues);
    assert_eq!(fixed, "keep me intact");
    assert_eq!(engine.fixes_applied, 0);
}

#[test]
fn later_lines_are_fixed_first_so_offsets_stay_valid() {
    let mut engine = AutoFixEngine::new();
    // replace "aaa" at offsets 0..3 and "bbb" at offsets 4..7;
    // the line-2 fix runs first, so the line-1 positions stay valid
    let issues = vec![
        issue_with_fix(1, 0, 3, "xxxxx"),
        issue_with_fix(2, 4, 7, "yyy"),
    ];
    let fixed = engine.apply_fixes("aaa\nbbb\n", &issues);
    assert_eq!(fixed, "xxxxx\nyyy\n");
    assert_eq!(engine.fixes_applied, 2);
}

#[test]
fn out_of_range_replacement_is_skipped_not_fatal() {
    let mut engine = AutoFixEngine::new();
    let issues = vec![issue_with_fix(1, 90, 95, "nope"), issue_with_fix(1, 0, 1, "H")];
    let fixed = engine.apply_fixes("hello", &issues);
    assert_eq!(fixed, "Hello");
    assert_eq!(engine.fixes_applied, 1);
}

#[test]
fn inverted_range_is_skipped() {
    let mut engine = AutoFixEngine::new();
    let issues = vec![issue_with_fix(1, 3, 1, "bad")];
    let fixed = engine.apply_fixes("hello", &issues);
    assert_eq!(fixed, "hello");
    assert_eq!(engine.fixes_applied, 0);
}

fn use_item(path: &str, rendered: &str, name: &str, line: usize) -> Item {
    Item::Use(UseImport {
        path: path.to_string(),
        rendered: rendered.to_string(),
        names: vec![ImportedName { name: name.to_string(), span: Span { line, col: 5 } }],
        span: Span { line, col: 1 },
    })
}

fn main_item() -> Item {
    Item::Fn(FnItem {
        name: "main".to_string(),
        span: Span { line: 7, col: 1 },
        is_pub: false,
        has_doc: false,
        is_unsafe: false,
        has_must_use: false,
        body: Vec::new(),
        idents: Vec::new(),
    })
}

#[test]
fn test_import_organizer() {
    let organizer = ImportOrganizer::new();
    let content = "\nuse std::collections::HashMap;\nuse serde::Serialize;\nuse crate::local_module;\nuse std::fs;\n\nfn main() {}\n";
    let tree = SyntaxTree {
        items: vec![
            use_item(
                "std::collections::HashMap",
                "use std::collections::HashMap;",
                "HashMap",
                2,
            ),
            use_item("serde::Serialize", "use serde::Serialize;", "Serialize", 3),
            use_item("crate::local_module", "use crate::local_module;", "local_module", 4),
            use_item("std::fs", "use std::fs;", "fs", 5),
            main_item(),
        ],
    };

    let organized = organizer.organize_imports(content, &tree);
    assert!(organized.contains("use std::"));
    assert!(organized.contains("use serde::"));
    assert!(organized.contains("use crate::"));
}

#[test]
fn organizer_groups_and_sorts_imports() {
    let organizer = ImportOrganizer::new();
    let content = "use serde::Serialize;\nuse std::fs;\nuse std::collections::HashMap;\n\nfn main() {}";
    let tree = SyntaxTree {
        items: vec![
            use_item("serde::Serialize", "use serde::Serialize;", "Serialize", 1),
            use_item("std::fs", "use std::fs;", "fs", 2),
            use_item(
                "std::collections::HashMap",
                "use std::collections::HashMap;",
                "HashMap",
                3,
            ),
            main_item(),
        ],
    };
    let organized = organizer.organize_imports(content, &tree);
    assert_eq!(
        organized,
        "use std::collections::HashMap;\nuse std::fs;\n\nuse serde::Serialize;\n\nfn main() {}",
    );
}

#[test]
fn organizer_leaves_importless_content_alone() {
    let organizer = ImportOrganizer::new();
    let content = "fn main() {}\n";
    let tree = SyntaxTree { items: vec![main_item()] };
    assert_eq!(organizer.organize_imports(content, &tree), content);
    assert!(organizer.create_import_fix(content, &tree).is_none());
}

#[test]
fn import_fix_replaces_whole_content() {
    let organizer = ImportOrganizer::new();
    let content = "use serde::Serialize;\nuse std::fs;\nfn main() {}";
    let tree = SyntaxTree {
        items: vec![
            use_item("serde::Serialize", "use serde::Serialize;", "Serialize", 1),
            use_item("std::fs", "use std::fs;", "fs", 2),
            main_item(),
        ],
    };
    let fix = organizer.create_import_fix(content, &tree).unwrap();
    assert_eq!(fix.description, "Reorganize imports");
    assert_eq!(fix.replacements.len(), 1);
    assert_eq!(fix.replacements[0].start, 0);
    assert_eq!(fix.replacements[0].end, content.chars().count());
    assert!(fix.replacements[0].text.starts_with("use std::fs;"));
}
