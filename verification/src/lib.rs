//! A source linter core that works on parsed syntax trees without
//! compiling: a rule engine over a file's tree and raw text, a
//! staleness-aware analysis cache with an incremental planner, and an
//! auto-fix engine that applies overlapping text edits.

pub mod analyzer;
pub mod ast;
pub mod ast_cache;
pub mod autofix;
pub mod cache;
pub mod config;
pub mod diagnostics;
pub mod incremental;
pub mod issues;
pub mod naming;
pub mod rules;
pub mod text;

pub use analyzer::{AnalysisResults, Analyzer};
pub use autofix::{AutoFixEngine, DocTemplateGenerator, ImportOrganizer, NamingConventionFixer};
pub use cache::{AnalysisCache, CacheStats};
pub use config::{Config, ConfigManager};
pub use incremental::{IncrementalAnalyzer, IncrementalResults};
pub use rules::{Issue, Rule, Severity};
