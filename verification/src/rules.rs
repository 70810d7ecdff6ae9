//! The rule engine: the shared per-file context that rules append their
//! findings to, and the registry of enabled rules.

pub mod anti_patterns;
pub mod complexity;
pub mod imports;
pub mod docs;
pub mod must_use;
pub mod style;
pub mod syntax;
pub mod todo_macros;
pub mod unsafe_code;
pub mod unwrap_usage;
pub mod visit;

pub use crate::issues::{Fix, Issue, Location, Replacement, Severity};

use vstd::prelude::*;

use crate::ast::{Span, SyntaxTree};
use crate::issues::IssueV;

verus! {

/// The shared, mutable context one file's analysis runs in: the file's
/// path, its raw content, its parsed tree, and the append-only issue list.
pub struct RuleContext {
    pub file_path: String,
    pub content: String,
    pub syntax_tree: SyntaxTree,
    pub issues: Vec<Issue>,
}

/// Everything of the context but its issue list is unchanged.
pub open spec fn ctx_keeps(pre: RuleContext, post: RuleContext) -> bool {
    &&& post.file_path == pre.file_path
    &&& post.content == pre.content
    &&& post.syntax_tree == pre.syntax_tree
}

/// The context is unchanged but for exactly `new` appended to its issues.
pub open spec fn ctx_adds(pre: RuleContext, post: RuleContext, new: Seq<IssueV>) -> bool {
    &&& ctx_keeps(pre, post)
    &&& post.issues.deep_view() == pre.issues.deep_view() + new
}

impl RuleContext {
    /// A fresh context with an empty issue list.
    pub fn new(file_path: String, content: String, syntax_tree: SyntaxTree) -> (r: Self)
        ensures
            r.file_path == file_path,
            r.content == content,
            r.syntax_tree == syntax_tree,
            r.issues.deep_view() == Seq::<IssueV>::empty(),
    {
        let r = RuleContext { file_path, content, syntax_tree, issues: Vec::new() };
        proof {
            assert(r.issues.deep_view() =~= Seq::<IssueV>::empty());
        }
        r
    }

    /// Appends one finding to the context.
    pub fn report(&mut self, issue: Issue)
        ensures
            ctx_adds(*old(self), *final(self), seq![issue.deep_view()]),
    {
        let ghost pre = self.issues.deep_view();
        let ghost iv = issue.deep_view();
        self.issues.push(issue);
        proof {
            assert(self.issues.deep_view() =~= pre + seq![iv]);
        }
    }

    /// Appends every finding in `found` to the context, in order.
    pub fn report_all(&mut self, found: Vec<Issue>)
        ensures
            ctx_adds(*old(self), *final(self), found.deep_view()),
    {
        let ghost pre = self.issues.deep_view();
        let ghost fv = found.deep_view();
        let mut found = found;
        self.issues.append(&mut found);
        proof {
            assert(self.issues.deep_view() =~= pre + fv);
        }
    }

    /// Resolves a node's span to its 1-based line and column.
    pub fn line_col(&self, span: Span) -> (r: (usize, usize))
        ensures
            r.0 == span.line,
            r.1 == span.col,
    {
        (span.line, span.col)
    }
}

} // verus!

verus! {

/// One enabled rule, with its parameters. The catalog is fixed, so rules
/// are a closed set of variants behind one check-and-report interface.
pub enum Rule {
    UnmatchedDelimiters(crate::rules::syntax::UnmatchedDelimitersRule),
    InvalidSyntax(crate::rules::syntax::InvalidSyntaxRule),
    Naming(crate::rules::style::NamingConventionRule),
    LineLength(crate::rules::style::LineLengthRule),
    ImportOrder(crate::rules::imports::ImportOrderRule),
    UnusedImport(crate::rules::imports::UnusedImportRule),
    UnsafeBlock(crate::rules::unsafe_code::UnsafeBlockRule),
    Cyclomatic(crate::rules::complexity::CyclomaticComplexityRule),
    Cognitive(crate::rules::complexity::CognitiveComplexityRule),
    MissingDocs(crate::rules::docs::MissingDocsRule),
    UnwrapUsage(crate::rules::unwrap_usage::UnwrapUsageRule),
    TodoMacros(crate::rules::todo_macros::TodoMacroRule),
    MustUse(crate::rules::must_use::MustUseRule),
    AntiPatterns(crate::rules::anti_patterns::AntiPatternsRule),
}

/// What one rule reports for a file with the given content and items.
pub open spec fn rule_issues(
    r: Rule,
    content: Seq<char>,
    items: Seq<crate::ast::Item>,
) -> Seq<IssueV> {
    match r {
        Rule::UnmatchedDelimiters(_) => crate::rules::syntax::delimiter_issues(content),
        Rule::InvalidSyntax(_) => Seq::empty(),
        Rule::Naming(_) => crate::rules::style::naming_issues(items),
        Rule::LineLength(lr) => crate::rules::style::line_length_issues(
            content,
            lr.max_length as nat,
        ),
        Rule::ImportOrder(_) => crate::rules::imports::import_order_issues(items),
        Rule::UnusedImport(_) => crate::rules::imports::unused_import_issues(items),
        Rule::UnsafeBlock(_) => crate::rules::unsafe_code::unsafe_issues(items),
        Rule::Cyclomatic(cr) => crate::rules::complexity::cyclomatic_issues(
            items,
            cr.max_complexity as nat,
        ),
        Rule::Cognitive(cr) => crate::rules::complexity::cognitive_issues(
            items,
            cr.max_complexity as nat,
        ),
        Rule::MissingDocs(_) => crate::rules::docs::docs_issues(items),
        Rule::UnwrapUsage(_) => crate::rules::visit::walk_items(
            crate::rules::visit::VisitorV::UnwrapUsage,
            items,
        ),
        Rule::TodoMacros(_) => crate::rules::visit::walk_items(
            crate::rules::visit::VisitorV::TodoMacros,
            items,
        ),
        Rule::MustUse(_) => crate::rules::must_use::must_use_issues(items),
        Rule::AntiPatterns(_) => crate::rules::visit::walk_items(
            crate::rules::visit::VisitorV::AntiPatterns,
            items,
        ),
    }
}

/// The stable identifier of one rule.
pub open spec fn spec_rule_name(r: Rule) -> Seq<char> {
    match r {
        Rule::UnmatchedDelimiters(_) => "unmatched-delimiters"@,
        Rule::InvalidSyntax(_) => "invalid-syntax"@,
        Rule::Naming(_) => "naming-convention"@,
        Rule::LineLength(_) => "line-too-long"@,
        Rule::ImportOrder(_) => "import-order"@,
        Rule::UnusedImport(_) => "unused-import"@,
        Rule::UnsafeBlock(_) => "unsafe-block"@,
        Rule::Cyclomatic(_) => "cyclomatic-complexity"@,
        Rule::Cognitive(_) => "cognitive-complexity"@,
        Rule::MissingDocs(_) => "missing-docs"@,
        Rule::UnwrapUsage(_) => "unwrap_usage"@,
        Rule::TodoMacros(_) => "todo_macros"@,
        Rule::MustUse(_) => "must_use_violations"@,
        Rule::AntiPatterns(_) => "anti_patterns"@,
    }
}

impl Rule {
    /// The rule's stable identifier.
    pub fn name(&self) -> (r: &'static str)
        ensures
            r@ == spec_rule_name(*self),
    {
        match self {
            Rule::UnmatchedDelimiters(inner) => inner.name(),
            Rule::InvalidSyntax(inner) => inner.name(),
            Rule::Naming(inner) => inner.name(),
            Rule::LineLength(inner) => inner.name(),
            Rule::ImportOrder(inner) => inner.name(),
            Rule::UnusedImport(inner) => inner.name(),
            Rule::UnsafeBlock(inner) => inner.name(),
            Rule::Cyclomatic(inner) => inner.name(),
            Rule::Cognitive(inner) => inner.name(),
            Rule::MissingDocs(inner) => inner.name(),
            Rule::UnwrapUsage(inner) => inner.name(),
            Rule::TodoMacros(inner) => inner.name(),
            Rule::MustUse(inner) => inner.name(),
            Rule::AntiPatterns(inner) => inner.name(),
        }
    }

    /// Runs the rule once over the context, appending exactly its
    /// findings.
    pub fn check(&self, ctx: &mut RuleContext)
        ensures
            ctx_adds(
                *old(ctx),
                *final(ctx),
                rule_issues(*self, old(ctx).content@, old(ctx).syntax_tree.items@),
            ),
    {
        match self {
            Rule::UnmatchedDelimiters(inner) => inner.check(ctx),
            Rule::InvalidSyntax(inner) => inner.check(ctx),
            Rule::Naming(inner) => inner.check(ctx),
            Rule::LineLength(inner) => inner.check(ctx),
            Rule::ImportOrder(inner) => inner.check(ctx),
            Rule::UnusedImport(inner) => inner.check(ctx),
            Rule::UnsafeBlock(inner) => inner.check(ctx),
            Rule::Cyclomatic(inner) => inner.check(ctx),
            Rule::Cognitive(inner) => inner.check(ctx),
            Rule::MissingDocs(inner) => inner.check(ctx),
            Rule::UnwrapUsage(inner) => inner.check(ctx),
            Rule::TodoMacros(inner) => inner.check(ctx),
            Rule::MustUse(inner) => inner.check(ctx),
            Rule::AntiPatterns(inner) => inner.check(ctx),
        }
    }
}

/// The rule list that a configuration enables, in registration order:
/// the syntax rules always, then naming, line length, import, safety,
/// complexity and documentation rules as their flags ask.
pub open spec fn spec_enabled_rules(c: crate::config::Config) -> Seq<Rule> {
    seq![
        Rule::UnmatchedDelimiters(crate::rules::syntax::UnmatchedDelimitersRule),
        Rule::InvalidSyntax(crate::rules::syntax::InvalidSyntaxRule),
    ] + (if c.rules.check_naming {
        seq![Rule::Naming(crate::rules::style::NamingConventionRule)]
    } else {
        Seq::empty()
    }) + (if c.rules.check_line_length {
        seq![
            Rule::LineLength(
                crate::rules::style::LineLengthRule { max_length: c.style.max_line_length },
            ),
        ]
    } else {
        Seq::empty()
    }) + (if c.rules.check_imports {
        seq![
            Rule::ImportOrder(crate::rules::imports::ImportOrderRule),
            Rule::UnusedImport(crate::rules::imports::UnusedImportRule),
        ]
    } else {
        Seq::empty()
    }) + (if c.rules.check_unsafe {
        seq![Rule::UnsafeBlock(crate::rules::unsafe_code::UnsafeBlockRule)]
    } else {
        Seq::empty()
    }) + (if c.rules.check_complexity {
        seq![
            Rule::Cyclomatic(
                crate::rules::complexity::CyclomaticComplexityRule {
                    max_complexity: c.complexity.max_cyclomatic,
                },
            ),
            Rule::Cognitive(
                crate::rules::complexity::CognitiveComplexityRule {
                    max_complexity: c.complexity.max_cognitive,
                },
            ),
        ]
    } else {
        Seq::empty()
    }) + (if c.rules.check_missing_docs {
        seq![Rule::MissingDocs(crate::rules::docs::MissingDocsRule)]
    } else {
        Seq::empty()
    })
}

/// Builds the rule list that the configuration enables.
#[verifier::rlimit(60)]
pub fn get_enabled_rules(config: &crate::config::Config) -> (r: Vec<Rule>)
    ensures
        r@ == spec_enabled_rules(*config),
{
    let mut rules: Vec<Rule> = Vec::new();
    rules.push(Rule::UnmatchedDelimiters(crate::rules::syntax::UnmatchedDelimitersRule));
    rules.push(Rule::InvalidSyntax(crate::rules::syntax::InvalidSyntaxRule));
    if config.rules.check_naming {
        rules.push(Rule::Naming(crate::rules::style::NamingConventionRule));
    }
    if config.rules.check_line_length {
        rules.push(
            Rule::LineLength(
                crate::rules::style::LineLengthRule::new(config.style.max_line_length),
            ),
        );
    }
    if config.rules.check_imports {
        rules.push(Rule::ImportOrder(crate::rules::imports::ImportOrderRule));
        rules.push(Rule::UnusedImport(crate::rules::imports::UnusedImportRule));
    }
    if config.rules.check_unsafe {
        rules.push(Rule::UnsafeBlock(crate::rules::unsafe_code::UnsafeBlockRule));
    }
    if config.rules.check_complexity {
        rules.push(
            Rule::Cyclomatic(
                crate::rules::complexity::CyclomaticComplexityRule::new(
                    config.complexity.max_cyclomatic,
                ),
            ),
        );
        rules.push(
            Rule::Cognitive(
                crate::rules::complexity::CognitiveComplexityRule::new(
                    config.complexity.max_cognitive,
                ),
            ),
        );
    }
    if config.rules.check_missing_docs {
        rules.push(Rule::MissingDocs(crate::rules::docs::MissingDocsRule));
    }
    proof {
        assert(rules@ =~= spec_enabled_rules(*config));
    }
    rules
}

} // verus!
