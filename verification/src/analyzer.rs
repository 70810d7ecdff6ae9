//! The analysis engine: runs every enabled rule over one file's context
//! and folds per-file issue lists into summary statistics.

use vstd::prelude::*;

use crate::config::Config;
use crate::ast::{Item, SyntaxTree};
use crate::issues::{Issue, IssueV, Severity};
use crate::rules::{ctx_keeps, get_enabled_rules, rule_issues, spec_enabled_rules, Rule,
    RuleContext};
use crate::text::sat_add_usize;

verus! {

/// What a list of rules reports for a file, each rule's findings in
/// registration order.
pub open spec fn all_rule_issues(rules: Seq<Rule>, content: Seq<char>, items: Seq<Item>) -> Seq<
    IssueV,
>
    decreases rules,
{
    if rules.len() == 0 {
        Seq::empty()
    } else {
        rule_issues(rules[0], content, items) + all_rule_issues(rules.drop_first(), content, items)
    }
}

/// Analysis is deterministic: for fixed file content, a fixed parsed tree
/// and a fixed enabled-rule list, two runs report identical issue lists,
/// whatever else (issue lists already gathered, paths, scheduling) may
/// differ between the two contexts.
pub proof fn lemma_analysis_deterministic(rules: Seq<Rule>, c1: RuleContext, c2: RuleContext)
    requires
        c1.content == c2.content,
        c1.syntax_tree == c2.syntax_tree,
    ensures
        all_rule_issues(rules, c1.content@, c1.syntax_tree.items@) == all_rule_issues(
            rules,
            c2.content@,
            c2.syntax_tree.items@,
        ),
{
}

/// Runs every rule over the context, in order, appending exactly each
/// rule's findings.
#[verifier::loop_isolation(false)]
pub fn run_rules(rules: &Vec<Rule>, ctx: &mut RuleContext)
    ensures
        ctx_keeps(*old(ctx), *final(ctx)),
        final(ctx).issues.deep_view() == old(ctx).issues.deep_view() + all_rule_issues(
            rules@,
            old(ctx).content@,
            old(ctx).syntax_tree.items@,
        ),
{
    let ghost content = ctx.content@;
    let ghost items = ctx.syntax_tree.items@;
    let ghost pre = ctx.issues.deep_view();
    let mut i: usize = 0;
    proof {
        assert(rules@.skip(0) =~= rules@);
        assert(pre + all_rule_issues(rules@, content, items) =~= ctx.issues.deep_view()
            + all_rule_issues(rules@.skip(0), content, items));
    }
    while i < rules.len()
        invariant
            i <= rules.len(),
            ctx_keeps(*old(ctx), *ctx),
            pre + all_rule_issues(rules@, content, items) == ctx.issues.deep_view()
                + all_rule_issues(rules@.skip(i as int), content, items),
        decreases rules.len() - i,
    {
        proof {
            assert(rules@.skip(i as int).drop_first() =~= rules@.skip(i as int + 1));
            assert(rules@.skip(i as int)[0] == rules@[i as int]);
        }
        let ghost mid = ctx.issues.deep_view();
        rules[i].check(ctx);
        proof {
            assert(ctx.issues.deep_view() + all_rule_issues(rules@.skip(i as int + 1), content,
                items) =~= mid + (rule_issues(rules@[i as int], content, items) + all_rule_issues(
                rules@.skip(i as int + 1),
                content,
                items,
            )));
        }
        i = i + 1;
    }
    proof {
        assert(rules@.skip(rules@.len() as int) =~= Seq::<Rule>::empty());
        assert(final(ctx).issues.deep_view() =~= pre + all_rule_issues(rules@, content, items));
    }
}

/// One analyzed file's findings.
pub struct FileIssues {
    pub path: String,
    pub issues: Vec<Issue>,
}

/// A rewritten file's new content.
pub struct FixedFile {
    pub path: String,
    pub content: String,
}

/// Summary statistics over a run. Counters stop at the largest
/// representable value.
#[derive(Clone, Debug)]
pub struct AnalysisStats {
    pub total_files: usize,
    pub files_with_issues: usize,
    pub total_issues: usize,
    pub errors: usize,
    pub warnings: usize,
    pub infos: usize,
}

/// Observability numbers for a run; the cache hit rate is a whole
/// percentage.
#[derive(Clone, Debug)]
pub struct PerformanceStats {
    pub cache_hit_rate: u64,
    pub files_from_cache: usize,
    pub analysis_time_ms: u128,
    pub autofix_time_ms: Option<u128>,
    pub fixes_applied: usize,
}

/// The aggregate a run hands its consumers: issues keyed by file, summary
/// statistics, optional performance numbers, and rewritten contents when
/// fixes were applied.
pub struct AnalysisResults {
    pub file_issues: Vec<FileIssues>,
    pub stats: AnalysisStats,
    pub performance_stats: Option<PerformanceStats>,
    pub fixed_files: Option<Vec<FixedFile>>,
}

/// How many of the issues have the given severity.
pub open spec fn count_severity(issues: Seq<IssueV>, sev: Severity) -> nat
    decreases issues,
{
    if issues.len() == 0 {
        0
    } else {
        (if issues[0].severity == sev {
            1nat
        } else {
            0nat
        }) + count_severity(issues.drop_first(), sev)
    }
}

/// How many issues all the files report together.
pub open spec fn total_issue_count(fs: Seq<FileIssues>) -> nat
    decreases fs,
{
    if fs.len() == 0 {
        0
    } else {
        (fs[0].issues.len() + total_issue_count(fs.drop_first())) as nat
    }
}

/// How many issues of the given severity all the files report together.
pub open spec fn total_severity_count(fs: Seq<FileIssues>, sev: Severity) -> nat
    decreases fs,
{
    if fs.len() == 0 {
        0
    } else {
        count_severity(fs[0].issues.deep_view(), sev) + total_severity_count(
            fs.drop_first(),
            sev,
        )
    }
}

/// How many issues in all the files carry a fix.
pub open spec fn fixable_issue_count(fs: Seq<FileIssues>) -> nat
    decreases fs,
{
    if fs.len() == 0 {
        0
    } else {
        count_fixable(fs[0].issues.deep_view()) + fixable_issue_count(fs.drop_first())
    }
}

/// How many of the issues carry a fix.
pub open spec fn count_fixable(issues: Seq<IssueV>) -> nat
    decreases issues,
{
    if issues.len() == 0 {
        0
    } else {
        (if issues[0].fix is Some {
            1nat
        } else {
            0nat
        }) + count_fixable(issues.drop_first(), )
    }
}

/// The statistics that a list of per-file findings yields.
pub open spec fn spec_stats(fs: Seq<FileIssues>, total_files: usize) -> AnalysisStats {
    AnalysisStats {
        total_files,
        files_with_issues: fs.len() as usize,
        total_issues: crate::rules::complexity::sat_val(total_issue_count(fs)) as usize,
        errors: crate::rules::complexity::sat_val(
            total_severity_count(fs, Severity::Error),
        ) as usize,
        warnings: crate::rules::complexity::sat_val(
            total_severity_count(fs, Severity::Warning),
        ) as usize,
        infos: crate::rules::complexity::sat_val(
            total_severity_count(fs, Severity::Info),
        ) as usize,
    }
}

#[verifier::loop_isolation(false)]
fn exec_count_severity(issues: &Vec<Issue>, sev: Severity) -> (r: usize)
    ensures
        r as nat == crate::rules::complexity::sat_val(count_severity(issues.deep_view(), sev)),
{
    let ghost iv = issues.deep_view();
    let mut c: usize = 0;
    let ghost mut t: nat = 0nat;
    let mut i: usize = 0;
    proof {
        assert(iv.skip(0) =~= iv);
    }
    while i < issues.len()
        invariant
            i <= issues.len(),
            c as nat == crate::rules::complexity::sat_val(t),
            count_severity(iv, sev) == t + count_severity(iv.skip(i as int), sev),
        decreases issues.len() - i,
    {
        proof {
            assert(iv.skip(i as int).drop_first() =~= iv.skip(i as int + 1));
            assert(iv.skip(i as int)[0] == iv[i as int]);
        }
        let hit: usize = match (&issues[i].severity, &sev) {
            (Severity::Error, Severity::Error) => 1,
            (Severity::Warning, Severity::Warning) => 1,
            (Severity::Info, Severity::Info) => 1,
            _ => 0,
        };
        c = sat_add_usize(c, hit);
        proof {
            t = t + (if iv[i as int].severity == sev {
                1nat
            } else {
                0nat
            });
        }
        i = i + 1;
    }
    proof {
        assert(iv.skip(iv.len() as int) =~= Seq::<IssueV>::empty());
    }
    c
}

/// Folds per-file findings into summary statistics.
#[verifier::loop_isolation(false)]
pub fn aggregate_stats(fs: &Vec<FileIssues>, total_files: usize) -> (r: AnalysisStats)
    ensures
        r == spec_stats(fs@, total_files),
{
    let mut total: usize = 0;
    let mut errors: usize = 0;
    let mut warnings: usize = 0;
    let mut infos: usize = 0;
    let ghost mut tt: nat = 0nat;
    let ghost mut te: nat = 0nat;
    let ghost mut tw: nat = 0nat;
    let ghost mut ti: nat = 0nat;
    let mut i: usize = 0;
    proof {
        assert(fs@.skip(0) =~= fs@);
    }
    while i < fs.len()
        invariant
            i <= fs.len(),
            total as nat == crate::rules::complexity::sat_val(tt),
            errors as nat == crate::rules::complexity::sat_val(te),
            warnings as nat == crate::rules::complexity::sat_val(tw),
            infos as nat == crate::rules::complexity::sat_val(ti),
            total_issue_count(fs@) == tt + total_issue_count(fs@.skip(i as int)),
            total_severity_count(fs@, Severity::Error) == te + total_severity_count(
                fs@.skip(i as int),
                Severity::Error,
            ),
            total_severity_count(fs@, Severity::Warning) == tw + total_severity_count(
                fs@.skip(i as int),
                Severity::Warning,
            ),
            total_severity_count(fs@, Severity::Info) == ti + total_severity_count(
                fs@.skip(i as int),
                Severity::Info,
            ),
        decreases fs.len() - i,
    {
        proof {
            assert(fs@.skip(i as int).drop_first() =~= fs@.skip(i as int + 1));
            assert(fs@.skip(i as int)[0] == fs@[i as int]);
        }
        let f = &fs[i];
        total = sat_add_usize(total, f.issues.len());
        let e = exec_count_severity(&f.issues, Severity::Error);
        let w = exec_count_severity(&f.issues, Severity::Warning);
        let n = exec_count_severity(&f.issues, Severity::Info);
        errors = sat_add_usize(errors, e);
        warnings = sat_add_usize(warnings, w);
        infos = sat_add_usize(infos, n);
        proof {
            tt = (tt + fs@[i as int].issues.len()) as nat;
            te = te + count_severity(fs@[i as int].issues.deep_view(), Severity::Error);
            tw = tw + count_severity(fs@[i as int].issues.deep_view(), Severity::Warning);
            ti = ti + count_severity(fs@[i as int].issues.deep_view(), Severity::Info);
        }
        i = i + 1;
    }
    proof {
        assert(fs@.skip(fs@.len() as int) =~= Seq::<FileIssues>::empty());
    }
    AnalysisStats {
        total_files,
        files_with_issues: fs.len(),
        total_issues: total,
        errors,
        warnings,
        infos,
    }
}

/// The analyzer: a configuration and the rules it enables.
pub struct Analyzer {
    pub config: Config,
    pub rules: Vec<Rule>,
}

impl Analyzer {
    /// Builds an analyzer whose rule list is exactly what the
    /// configuration enables.
    pub fn new(config: Config) -> (r: Analyzer)
        ensures
            r.rules@ == spec_enabled_rules(config),
            r.config == config,
    {
        let rules = get_enabled_rules(&config);
        Analyzer { config, rules }
    }

    /// Analyzes one parsed file: every enabled rule runs once over a
    /// fresh context, and the results carry the file's findings exactly
    /// when there are any, with their statistics.
    pub fn analyze_file(&self, path: String, content: String, syntax_tree: SyntaxTree) -> (r:
        AnalysisResults)
        ensures
            ({
                let issues = all_rule_issues(self.rules@, content@, syntax_tree.items@);
                &&& (issues.len() == 0 ==> r.file_issues@.len() == 0)
                &&& (issues.len() > 0 ==> r.file_issues@.len() == 1 && r.file_issues@[0].path@
                    == path@ && r.file_issues@[0].issues.deep_view() == issues)
                &&& r.stats == spec_stats(r.file_issues@, 1)
                &&& r.performance_stats is None
                &&& r.fixed_files is None
            }),
    {
        let mut ctx = RuleContext::new(path, content, syntax_tree);
        run_rules(&self.rules, &mut ctx);
        let mut file_issues: Vec<FileIssues> = Vec::new();
        let has_issues = ctx.issues.len() > 0;
        if has_issues {
            let RuleContext { file_path, issues, .. } = ctx;
            file_issues.push(FileIssues { path: file_path, issues });
        }
        let stats = aggregate_stats(&file_issues, 1);
        AnalysisResults { file_issues, stats, performance_stats: None, fixed_files: None }
    }
}

impl AnalysisResults {
    /// Total number of issues across all files.
    pub fn total_issues(&self) -> (r: usize)
        ensures
            r == self.stats.total_issues,
    {
        self.stats.total_issues
    }

    /// Number of files the run covered.
    pub fn file_count(&self) -> (r: usize)
        ensures
            r == self.stats.total_files,
    {
        self.stats.total_files
    }

    /// Number of files with recorded findings.
    pub fn files_with_issues(&self) -> (r: usize)
        ensures
            r == self.stats.files_with_issues,
    {
        self.stats.files_with_issues
    }

    /// How many issues carry an automatic fix.
    #[verifier::loop_isolation(false)]
    pub fn fixable_count(&self) -> (r: usize)
        ensures
            r as nat == crate::rules::complexity::sat_val(fixable_issue_count(self.file_issues@)),
    {
        let fs = &self.file_issues;
        let mut c: usize = 0;
        let ghost mut t: nat = 0nat;
        let mut i: usize = 0;
        proof {
            assert(fs@.skip(0) =~= fs@);
        }
        while i < fs.len()
            invariant
                i <= fs.len(),
                c as nat == crate::rules::complexity::sat_val(t),
                fixable_issue_count(fs@) == t + fixable_issue_count(fs@.skip(i as int)),
            decreases fs.len() - i,
        {
            proof {
                assert(fs@.skip(i as int).drop_first() =~= fs@.skip(i as int + 1));
                assert(fs@.skip(i as int)[0] == fs@[i as int]);
            }
            let issues = &fs[i].issues;
            let ghost iv = issues.deep_view();
            let mut j: usize = 0;
            let ghost mut u: nat = 0nat;
            let mut cf: usize = 0;
            proof {
                assert(iv.skip(0) =~= iv);
            }
            while j < issues.len()
                invariant
                    j <= issues.len(),
                    cf as nat == crate::rules::complexity::sat_val(u),
                    count_fixable(iv) == u + count_fixable(iv.skip(j as int)),
                decreases issues.len() - j,
            {
                proof {
                    assert(iv.skip(j as int).drop_first() =~= iv.skip(j as int + 1));
                    assert(iv.skip(j as int)[0] == iv[j as int]);
                }
                let hit: usize = if issues[j].fix.is_some() {
                    1
                } else {
                    0
                };
                cf = sat_add_usize(cf, hit);
                proof {
                    u = u + (if iv[j as int].fix is Some {
                        1nat
                    } else {
                        0nat
                    });
                }
                j = j + 1;
            }
            proof {
                assert(iv.skip(iv.len() as int) =~= Seq::<IssueV>::empty());
            }
            c = sat_add_usize(c, cf);
            proof {
                t = t + count_fixable(fs@[i as int].issues.deep_view());
            }
            i = i + 1;
        }
        proof {
            assert(fs@.skip(fs@.len() as int) =~= Seq::<FileIssues>::empty());
        }
        c
    }

    /// The run's cache hit rate as a whole percentage; zero without
    /// performance numbers.
    pub fn cache_hit_rate(&self) -> (r: u64)
        ensures
            r == (match self.performance_stats {
                Some(p) => p.cache_hit_rate,
                None => 0u64,
            }),
    {
        match &self.performance_stats {
            Some(p) => p.cache_hit_rate,
            None => 0,
        }
    }

    /// Wall-clock analysis time; zero without performance numbers.
    pub fn analysis_time_ms(&self) -> (r: u128)
        ensures
            r == (match self.performance_stats {
                Some(p) => p.analysis_time_ms,
                None => 0u128,
            }),
    {
        match &self.performance_stats {
            Some(p) => p.analysis_time_ms,
            None => 0,
        }
    }

    /// How many fixes a fixing run applied; zero without performance
    /// numbers.
    pub fn fixes_applied(&self) -> (r: usize)
        ensures
            r == (match self.performance_stats {
                Some(p) => p.fixes_applied,
                None => 0usize,
            }),
    {
        match &self.performance_stats {
            Some(p) => p.fixes_applied,
            None => 0,
        }
    }

    /// Whether the run produced rewritten file contents.
    pub fn has_fixes(&self) -> (r: bool)
        ensures
            r == (self.fixed_files is Some),
    {
        self.fixed_files.is_some()
    }
}

} // verus!
