//! Configuration consumed at analyzer-construction time: per-rule enable
//! flags, style and complexity thresholds, cache, auto-fix and performance
//! settings. Loading it from disk is the caller's concern; the core only
//! reads the values.

use vstd::prelude::*;

verus! {

/// Which rule families are enabled.
#[derive(Clone, Debug)]
pub struct RuleConfig {
    pub check_syntax: bool,
    pub check_style: bool,
    pub check_naming: bool,
    pub check_imports: bool,
    pub check_unsafe: bool,
    pub check_complexity: bool,
    pub check_missing_docs: bool,
    pub check_line_length: bool,
    pub check_unwrap_usage: bool,
    pub check_todo_macros: bool,
    pub check_must_use: bool,
    pub check_anti_patterns: bool,
}

/// Style thresholds.
#[derive(Clone, Debug)]
pub struct StyleConfig {
    pub max_line_length: usize,
    pub indent_size: usize,
}

/// Complexity ceilings.
#[derive(Clone, Debug)]
pub struct ComplexityConfig {
    pub max_cyclomatic: usize,
    pub max_cognitive: usize,
    pub max_nesting: usize,
}

/// Cache settings; `cache_dir` is `None` for a system-chosen directory.
#[derive(Clone, Debug)]
pub struct CacheConfig {
    pub enabled: bool,
    pub cache_dir: Option<String>,
    pub ast_cache_enabled: bool,
    pub max_cache_size: usize,
    pub cache_ttl_hours: u64,
}

/// Auto-fix settings.
#[derive(Clone, Debug)]
pub struct AutoFixConfig {
    pub enabled: bool,
    pub organize_imports: bool,
    pub fix_naming_conventions: bool,
    pub add_missing_docs: bool,
    pub apply_safe_fixes_only: bool,
    pub max_fixes_per_file: usize,
}

/// Performance settings; `max_threads` is `None` to use every core.
#[derive(Clone, Debug)]
pub struct PerformanceConfig {
    pub incremental_analysis: bool,
    pub parallel_analysis: bool,
    pub memory_mapped_io: bool,
    pub large_file_threshold: usize,
    pub max_threads: Option<usize>,
}

/// The whole configuration bundle.
#[derive(Clone, Debug)]
pub struct Config {
    pub rules: RuleConfig,
    pub style: StyleConfig,
    pub complexity: ComplexityConfig,
    pub cache: CacheConfig,
    pub autofix: AutoFixConfig,
    pub performance: PerformanceConfig,
    pub ignore: Vec<String>,
}

/// The default configuration: every rule family enabled, lines capped at
/// 100 characters, cyclomatic ceiling 10 and cognitive ceiling 15, caching
/// and parallel analysis on, and build, version-control and package
/// directories ignored.
pub open spec fn spec_default_config(c: Config) -> bool {
    &&& c.rules == (RuleConfig {
        check_syntax: true,
        check_style: true,
        check_naming: true,
        check_imports: true,
        check_unsafe: true,
        check_complexity: true,
        check_missing_docs: true,
        check_line_length: true,
        check_unwrap_usage: true,
        check_todo_macros: true,
        check_must_use: true,
        check_anti_patterns: true,
    })
    &&& c.style == (StyleConfig { max_line_length: 100, indent_size: 4 })
    &&& c.complexity == (ComplexityConfig { max_cyclomatic: 10, max_cognitive: 15, max_nesting: 5 })
    &&& c.cache.enabled && c.cache.cache_dir is None && c.cache.ast_cache_enabled
    &&& c.cache.max_cache_size == 10000 && c.cache.cache_ttl_hours == 24
    &&& c.autofix.enabled && c.autofix.organize_imports && c.autofix.fix_naming_conventions
    &&& !c.autofix.add_missing_docs && c.autofix.apply_safe_fixes_only
    &&& c.autofix.max_fixes_per_file == 100
    &&& c.performance.incremental_analysis && c.performance.parallel_analysis
    &&& c.performance.memory_mapped_io && c.performance.large_file_threshold == 1048576
    &&& c.performance.max_threads is None
    &&& c.ignore.deep_view() == seq!["target/**"@, ".git/**"@, "node_modules/**"@]
}

impl Default for Config {
    /// Builds the default configuration described by `spec_default_config`.
    fn default() -> (r: Config)
        ensures
            spec_default_config(r),
    {
        let mut ignore: Vec<String> = Vec::new();
        ignore.push(String::from_str("target/**"));
        ignore.push(String::from_str(".git/**"));
        ignore.push(String::from_str("node_modules/**"));
        proof {
            assert(ignore.deep_view() =~= seq!["target/**"@, ".git/**"@, "node_modules/**"@]);
        }
        Config {
            rules: RuleConfig {
                check_syntax: true,
                check_style: true,
                check_naming: true,
                check_imports: true,
                check_unsafe: true,
                check_complexity: true,
                check_missing_docs: true,
                check_line_length: true,
                check_unwrap_usage: true,
                check_todo_macros: true,
                check_must_use: true,
                check_anti_patterns: true,
            },
            style: StyleConfig { max_line_length: 100, indent_size: 4 },
            complexity: ComplexityConfig { max_cyclomatic: 10, max_cognitive: 15, max_nesting: 5 },
            cache: CacheConfig {
                enabled: true,
                cache_dir: None,
                ast_cache_enabled: true,
                max_cache_size: 10000,
                cache_ttl_hours: 24,
            },
            autofix: AutoFixConfig {
                enabled: true,
                organize_imports: true,
                fix_naming_conventions: true,
                add_missing_docs: false,
                apply_safe_fixes_only: true,
                max_fixes_per_file: 100,
            },
            performance: PerformanceConfig {
                incremental_analysis: true,
                parallel_analysis: true,
                memory_mapped_io: true,
                large_file_threshold: 1048576,
                max_threads: None,
            },
            ignore,
        }
    }
}

/// Helper for working with configuration files; reading and writing them
/// is the caller's concern.
pub struct ConfigManager;

impl ConfigManager {
    pub fn new() -> (r: Self)
        ensures
            r == ConfigManager,
    {
        ConfigManager
    }
}

} // verus!
