use cargo_fl::ast::{Expr, FnItem, Item, Span, Stmt, SyntaxTree};
use cargo_fl::cache::{fingerprint, AnalysisCache, FileMetadata, PathProbe, ProbeState};
use cargo_fl::config::Config;
use cargo_fl::incremental::{compute_stats, AnalyzedFile, IncrementalAnalyzer};
use cargo_fl::issues::{Issue, Location, Severity};

fn metadata_for(path: &str, size: u64, modified: u64) -> FileMetadata {
    FileMetadata { path: path.to_string(), size, modified, hash: fingerprint(path, size, modified) }
}

fn probe(m: &FileMetadata) -> PathProbe {
    PathProbe { path: m.path.clone(), state: ProbeState::Meta(m.clone()) }
}

fn hello_tree() -> SyntaxTree {
    SyntaxTree {
        items: vec![Item::Fn(FnItem {
            name: "test".to_string(),
            span: Span { line: 1, col: 4 },
            is_pub: false,
            has_doc: false,
            is_unsafe: false,
            has_must_use: false,
            body: vec![Stmt::ExprStmt(Expr::MacroCall {
                name: "println".to_string(),
                tokens: "\"hello\"".to_string(),
                span: Span { line: 1, col: 13 },
            })],
            idents: Vec::new(),
        })],
    }
}

#[test]
fn unchanged_file_is_served_from_cache_on_second_run() {
    let config = Config::default();
    let mut analyzer = IncrementalAnalyzer::new(config);
    let content = "fn test() { println!(\"hello\"); }";
    let m = metadata_for("test.rs", content.len() as u64, 1000);

    // first run: the file is not cached, so it is analyzed
    let probes = vec![probe(&m)];
    let plan1 = analyzer.plan_files(&probes);
    assert_eq!(plan1.to_analyze.len(), 1);
    assert_eq!(plan1.cached.len(), 0);
    assert_eq!(plan1.skipped, 0);
    let issues = analyzer.analyze_single_file(
        "test.rs".to_string(),
        content.to_string(),
        hello_tree(),
    );
    let fresh_count = issues.len();
    analyzer.record_results(vec![AnalyzedFile { metadata: m.clone(), issues }]);
    let stats1 = compute_stats(plan1.to_analyze.len(), plan1.cached.len(), plan1.skipped);
    assert_eq!(stats1.files_analyzed, 1);
    assert_eq!(stats1.files_from_cache, 0);

    // second run, nothing modified: the cached issues are served verbatim
    let plan2 = analyzer.plan_files(&probes);
    assert_eq!(plan2.to_analyze.len(), 0);
    assert_eq!(plan2.cached.len(), 1);
    assert_eq!(plan2.cached[0].path, "test.rs");
    assert_eq!(plan2.cached[0].issues.len(), fresh_count);
    let stats2 = compute_stats(plan2.to_analyze.len(), plan2.cached.len(), plan2.skipped);
    assert_eq!(stats2.files_analyzed, 0);
    assert_eq!(stats2.files_from_cache, 1);
    assert_eq!(stats2.cache_hit_rate, 100);

    // third run after a modification: the file is analyzed afresh
    let m2 = metadata_for("test.rs", content.len() as u64 + 1, 2000);
    let plan3 = analyzer.plan_files(&vec![probe(&m2)]);
    assert_eq!(plan3.to_analyze.len(), 1);
    assert_eq!(plan3.cached.len(), 0);
}

#[test]
fn unreadable_and_missing_files_are_skipped() {
    let analyzer = IncrementalAnalyzer::new(Config::default());
    let probes = vec![
        PathProbe { path: "gone.rs".to_string(), state: ProbeState::Missing },
        PathProbe { path: "locked.rs".to_string(), state: ProbeState::Unreadable },
    ];
    let plan = analyzer.plan_files(&probes);
    assert_eq!(plan.to_analyze.len(), 0);
    assert_eq!(plan.cached.len(), 0);
    assert_eq!(plan.skipped, 2);
}

fn dummy_issue(msg: &str) -> Issue {
    Issue {
        rule: "line-too-long".to_string(),
        severity: Severity::Info,
        message: msg.to_string(),
        location: Location { line: 1, column: 1, end_line: None, end_column: None },
        fix: None,
    }
}

#[test]
fn store_then_lookup_returns_latest_issues() {
    let mut cache = AnalysisCache::new();
    let m = metadata_for("a.rs", 10, 1);
    cache.store_analysis(m.clone(), vec![dummy_issue("first")], None);
    assert!(cache.dirty);
    let m2 = metadata_for("a.rs", 12, 2);
    cache.store_analysis(m2, vec![dummy_issue("second"), dummy_issue("third")], None);
    let entry = cache.get_cached_analysis("a.rs").unwrap();
    assert_eq!(entry.issues.len(), 2);
    assert_eq!(entry.issues[0].message, "second");
    assert_eq!(cache.entries.len(), 1);
}

#[test]
fn is_file_changed_compares_fingerprints() {
    let mut cache = AnalysisCache::new();
    let m = metadata_for("a.rs", 10, 1);
    assert!(cache.is_file_changed("a.rs", m.hash));
    cache.store_analysis(m.clone(), Vec::new(), None);
    assert!(!cache.is_file_changed("a.rs", m.hash));
    assert!(cache.is_file_changed("a.rs", m.hash.wrapping_add(1)));
}

#[test]
fn remove_file_drops_only_that_entry() {
    let mut cache = AnalysisCache::new();
    cache.store_analysis(metadata_for("a.rs", 1, 1), Vec::new(), None);
    cache.store_analysis(metadata_for("b.rs", 2, 2), Vec::new(), None);
    cache.mark_saved();
    cache.remove_file("a.rs");
    assert!(cache.dirty);
    assert!(cache.get_cached_analysis("a.rs").is_none());
    assert!(cache.get_cached_analysis("b.rs").is_some());
}

#[test]
fn cleanup_drops_missing_and_stale_entries() {
    let mut cache = AnalysisCache::new();
    let keep = metadata_for("keep.rs", 1, 1);
    let stale = metadata_for("stale.rs", 2, 2);
    let gone = metadata_for("gone.rs", 3, 3);
    cache.store_analysis(keep.clone(), Vec::new(), None);
    cache.store_analysis(stale.clone(), Vec::new(), None);
    cache.store_analysis(gone, Vec::new(), None);
    let stale_now = metadata_for("stale.rs", 9, 9);
    let probes = vec![
        probe(&keep),
        probe(&stale_now),
        PathProbe { path: "gone.rs".to_string(), state: ProbeState::Missing },
    ];
    cache.cleanup_stale_entries(&probes);
    assert_eq!(cache.entries.len(), 1);
    assert_eq!(cache.entries[0].metadata.path, "keep.rs");
}

#[test]
fn cache_stats_count_entries_and_issues() {
    let mut cache = AnalysisCache::new();
    cache.store_analysis(metadata_for("a.rs", 1, 1), vec![dummy_issue("x")], None);
    cache.store_analysis(metadata_for("b.rs", 2, 2), vec![dummy_issue("y"), dummy_issue("z")], None);
    let stats = cache.cache_stats(512);
    assert_eq!(stats.total_files, 2);
    assert_eq!(stats.total_issues, 3);
    assert_eq!(stats.cache_size_bytes, 512);
}

#[test]
fn fingerprint_depends_on_every_component() {
    let base = fingerprint("a.rs", 10, 20);
    assert_eq!(fingerprint("a.rs", 10, 20), base);
    assert_ne!(fingerprint("b.rs", 10, 20), base);
    assert_ne!(fingerprint("a.rs", 11, 20), base);
    assert_ne!(fingerprint("a.rs", 10, 21), base);
}

#[test]
fn hit_rate_is_a_whole_percentage() {
    assert_eq!(compute_stats(0, 0, 0).cache_hit_rate, 0);
    assert_eq!(compute_stats(1, 1, 0).cache_hit_rate, 50);
    assert_eq!(compute_stats(0, 3, 2).cache_hit_rate, 100);
    assert_eq!(compute_stats(2, 1, 0).cache_hit_rate, 33);
}
