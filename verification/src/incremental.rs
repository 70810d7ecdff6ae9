//! The staleness-aware incremental layer: given probe results for the
//! candidate files, it decides which files are re-analyzed, which are
//! served from the cache, and which are skipped; freshly computed results
//! are written back to the cache.

use vstd::prelude::*;

use crate::analyzer::{all_rule_issues, FileIssues};
use crate::ast::SyntaxTree;
use crate::cache::{copy_issues, lemma_store_lookup, lookup, store_entry, AnalysisCache,
    CachedAnalysis, CacheStats, FileMetadata, PathProbe, ProbeState};
use crate::config::Config;
use crate::issues::{Issue, IssueV};
use crate::rules::{get_enabled_rules, spec_enabled_rules, Rule, RuleContext};
use crate::text::sat_add_usize;

verus! {

/// One freshly analyzed file: the fingerprint it was analyzed under and
/// the issues found.
pub struct AnalyzedFile {
    pub metadata: FileMetadata,
    pub issues: Vec<Issue>,
}

/// The cached entry a fresh analysis is stored as.
pub open spec fn mk_cached(a: AnalyzedFile) -> CachedAnalysis {
    CachedAnalysis { metadata: a.metadata, issues: a.issues, ast_hash: None }
}

/// The cache after every fresh result is stored, in order.
pub open spec fn store_all(entries: Seq<CachedAnalysis>, rs: Seq<AnalyzedFile>) -> Seq<
    CachedAnalysis,
>
    decreases rs,
{
    if rs.len() == 0 {
        entries
    } else {
        store_all(store_entry(entries, mk_cached(rs[0])), rs.drop_first())
    }
}

/// The paths the plan sends to fresh analysis: probed files whose current
/// fingerprint differs from the cached one, or that the cache does not
/// hold.
pub open spec fn plan_analyze(entries: Seq<CachedAnalysis>, probes: Seq<PathProbe>) -> Seq<
    Seq<char>,
>
    decreases probes,
{
    if probes.len() == 0 {
        Seq::empty()
    } else {
        (match probes[0].state {
            ProbeState::Meta(m) => match lookup(entries, probes[0].path@) {
                Some(e) => if e.metadata.hash != m.hash {
                    seq![probes[0].path@]
                } else {
                    Seq::empty()
                },
                None => seq![probes[0].path@],
            },
            _ => Seq::empty(),
        }) + plan_analyze(entries, probes.drop_first())
    }
}

/// The paths the plan serves from the cache: probed files whose current
/// fingerprint matches the cached one.
pub open spec fn plan_cached_paths(entries: Seq<CachedAnalysis>, probes: Seq<PathProbe>) -> Seq<
    Seq<char>,
>
    decreases probes,
{
    if probes.len() == 0 {
        Seq::empty()
    } else {
        (match probes[0].state {
            ProbeState::Meta(m) => match lookup(entries, probes[0].path@) {
                Some(e) => if e.metadata.hash == m.hash {
                    seq![probes[0].path@]
                } else {
                    Seq::empty()
                },
                None => Seq::empty(),
            },
            _ => Seq::empty(),
        }) + plan_cached_paths(entries, probes.drop_first())
    }
}

/// The issue lists served from the cache, aligned with
/// `plan_cached_paths`.
pub open spec fn plan_cached_issues(entries: Seq<CachedAnalysis>, probes: Seq<PathProbe>) -> Seq<
    Seq<IssueV>,
>
    decreases probes,
{
    if probes.len() == 0 {
        Seq::empty()
    } else {
        (match probes[0].state {
            ProbeState::Meta(m) => match lookup(entries, probes[0].path@) {
                Some(e) => if e.metadata.hash == m.hash {
                    seq![e.issues.deep_view()]
                } else {
                    Seq::empty()
                },
                None => Seq::empty(),
            },
            _ => Seq::empty(),
        }) + plan_cached_issues(entries, probes.drop_first())
    }
}

/// How many probed files the plan skips: those whose identity could not
/// be confirmed, because the path is gone or unreadable.
pub open spec fn plan_skipped(probes: Seq<PathProbe>) -> nat
    decreases probes,
{
    if probes.len() == 0 {
        0
    } else {
        (match probes[0].state {
            ProbeState::Missing => 1nat,
            ProbeState::Unreadable => 1nat,
            ProbeState::Meta(_) => 0nat,
        }) + plan_skipped(probes.drop_first())
    }
}

/// The paths of a per-file findings list, in order.
pub open spec fn paths_of(fs: Seq<FileIssues>) -> Seq<Seq<char>> {
    Seq::new(fs.len(), |k: int| fs[k].path@)
}

/// The issue lists of a per-file findings list, in order.
pub open spec fn issue_views_of(fs: Seq<FileIssues>) -> Seq<Seq<IssueV>> {
    Seq::new(fs.len(), |k: int| fs[k].issues.deep_view())
}

/// The plan for one run: what to analyze, what came from the cache, and
/// how many files were skipped.
pub struct AnalysisPlan {
    pub to_analyze: Vec<String>,
    pub cached: Vec<FileIssues>,
    pub skipped: usize,
}

/// Counters for one incremental run; the hit rate is a whole percentage.
#[derive(Clone, Debug)]
pub struct IncrementalStats {
    pub files_analyzed: usize,
    pub files_from_cache: usize,
    pub files_skipped: usize,
    pub cache_hit_rate: u64,
}

/// The outcome of one incremental run: fresh findings, cache-served
/// findings, and the counters.
pub struct IncrementalResults {
    pub new_issues: Vec<FileIssues>,
    pub cached_issues: Vec<FileIssues>,
    pub stats: IncrementalStats,
}

/// The hit rate as a whole percentage of files served from cache among
/// all files processed.
pub open spec fn spec_hit_rate(analyzed: nat, from_cache: nat) -> nat {
    if analyzed + from_cache == 0 {
        0
    } else {
        from_cache * 100 / (analyzed + from_cache)
    }
}

/// The incremental analyzer: the configuration, the rules it enables,
/// and the analysis cache.
pub struct IncrementalAnalyzer {
    pub config: Config,
    pub rules: Vec<Rule>,
    pub cache: AnalysisCache,
}

impl IncrementalAnalyzer {
    /// A fresh incremental analyzer with an empty cache and exactly the
    /// rules the configuration enables.
    pub fn new(config: Config) -> (r: Self)
        ensures
            r.rules@ == spec_enabled_rules(config),
            r.config == config,
            r.cache.entries@ =~= Seq::<CachedAnalysis>::empty(),
            !r.cache.dirty,
    {
        let rules = get_enabled_rules(&config);
        IncrementalAnalyzer { config, rules, cache: AnalysisCache::new() }
    }

    /// Decides, from the probe results, which files need fresh analysis,
    /// which are served verbatim from the cache, and which are skipped
    /// because their identity could not be confirmed.
    #[verifier::loop_isolation(false)]
    pub fn plan_files(&self, probes: &Vec<PathProbe>) -> (r: AnalysisPlan)
        ensures
            r.to_analyze.deep_view() == plan_analyze(self.cache.entries@, probes@),
            paths_of(r.cached@) == plan_cached_paths(self.cache.entries@, probes@),
            issue_views_of(r.cached@) == plan_cached_issues(self.cache.entries@, probes@),
            r.skipped as nat == crate::rules::complexity::sat_val(plan_skipped(probes@)),
    {
        let ghost entries = self.cache.entries@;
        let mut to_analyze: Vec<String> = Vec::new();
        let mut cached: Vec<FileIssues> = Vec::new();
        let mut skipped: usize = 0;
        let ghost mut t: nat = 0nat;
        let mut i: usize = 0;
        proof {
            assert(probes@.skip(0) =~= probes@);
            assert(to_analyze.deep_view() =~= Seq::<Seq<char>>::empty());
            assert(paths_of(cached@) =~= Seq::<Seq<char>>::empty());
            assert(issue_views_of(cached@) =~= Seq::<Seq<IssueV>>::empty());
        }
        while i < probes.len()
            invariant
                i <= probes.len(),
                skipped as nat == crate::rules::complexity::sat_val(t),
                plan_analyze(entries, probes@) == to_analyze.deep_view() + plan_analyze(
                    entries,
                    probes@.skip(i as int),
                ),
                plan_cached_paths(entries, probes@) == paths_of(cached@) + plan_cached_paths(
                    entries,
                    probes@.skip(i as int),
                ),
                plan_cached_issues(entries, probes@) == issue_views_of(cached@)
                    + plan_cached_issues(entries, probes@.skip(i as int)),
                plan_skipped(probes@) == t + plan_skipped(probes@.skip(i as int)),
            decreases probes.len() - i,
        {
            proof {
                assert(probes@.skip(i as int).drop_first() =~= probes@.skip(i as int + 1));
                assert(probes@.skip(i as int)[0] == probes@[i as int]);
            }
            let probe = &probes[i];
            match &probe.state {
                ProbeState::Meta(m) => {
                    match self.cache.get_cached_analysis(probe.path.as_str()) {
                        Some(e) => {
                            if e.metadata.hash != m.hash {
                                let ghost tav = to_analyze.deep_view();
                                let p = probe.path.clone();
                                to_analyze.push(p);
                                proof {
                                    assert(to_analyze.deep_view() =~= tav.push(
                                        probes@[i as int].path@,
                                    ));
                                }
                            } else {
                                let f = FileIssues {
                                    path: probe.path.clone(),
                                    issues: copy_issues(&e.issues),
                                };
                                cached.push(f);
                            }
                        }
                        None => {
                            let ghost tav = to_analyze.deep_view();
                            let p = probe.path.clone();
                            to_analyze.push(p);
                            proof {
                                assert(to_analyze.deep_view() =~= tav.push(
                                    probes@[i as int].path@,
                                ));
                            }
                        }
                    }
                }
                ProbeState::Missing => {
                    skipped = sat_add_usize(skipped, 1);
                    proof {
                        t = t + 1nat;
                    }
                }
                ProbeState::Unreadable => {
                    skipped = sat_add_usize(skipped, 1);
                    proof {
                        t = t + 1nat;
                    }
                }
            }
            proof {
                assert(plan_analyze(entries, probes@) =~= to_analyze.deep_view() + plan_analyze(
                    entries,
                    probes@.skip(i as int + 1),
                ));
                assert(plan_cached_paths(entries, probes@) =~= paths_of(cached@)
                    + plan_cached_paths(entries, probes@.skip(i as int + 1)));
                assert(plan_cached_issues(entries, probes@) =~= issue_views_of(cached@)
                    + plan_cached_issues(entries, probes@.skip(i as int + 1)));
            }
            i = i + 1;
        }
        proof {
            assert(probes@.skip(probes@.len() as int) =~= Seq::<PathProbe>::empty());
            assert(to_analyze.deep_view() =~= plan_analyze(entries, probes@));
            assert(paths_of(cached@) =~= plan_cached_paths(entries, probes@));
            assert(issue_views_of(cached@) =~= plan_cached_issues(entries, probes@));
        }
        AnalysisPlan { to_analyze, cached, skipped }
    }

    /// Analyzes one parsed file with the enabled rules, returning exactly
    /// their findings, in order.
    pub fn analyze_single_file(&self, path: String, content: String, syntax_tree: SyntaxTree) -> (r:
        Vec<Issue>)
        ensures
            r.deep_view() == all_rule_issues(self.rules@, content@, syntax_tree.items@),
    {
        let mut ctx = RuleContext::new(path, content, syntax_tree);
        crate::analyzer::run_rules(&self.rules, &mut ctx);
        proof {
            assert(ctx.issues.deep_view() =~= all_rule_issues(
                self.rules@,
                content@,
                syntax_tree.items@,
            ));
        }
        ctx.issues
    }

    /// Writes every fresh result back into the cache, in order,
    /// overwriting prior entries; the cache is dirty afterwards whenever
    /// anything was stored.
    #[verifier::loop_isolation(false)]
    pub fn record_results(&mut self, results: Vec<AnalyzedFile>)
        ensures
            final(self).cache.entries@ == store_all(old(self).cache.entries@, results@),
            final(self).config == old(self).config,
            final(self).rules == old(self).rules,
            results@.len() == 0 ==> final(self).cache == old(self).cache,
            results@.len() > 0 ==> final(self).cache.dirty,
    {
        let ghost all = results@;
        let ghost pre = self.cache.entries@;
        let mut results = results;
        while results.len() > 0
            invariant
                self.config == old(self).config,
                self.rules == old(self).rules,
                store_all(pre, all) == store_all(self.cache.entries@, results@),
                results@.len() == all.len() ==> self.cache == old(self).cache,
                results@.len() < all.len() ==> self.cache.dirty,
                results@.len() <= all.len(),
            decreases results@.len(),
        {
            let ghost rs = results@;
            let a = results.remove(0);
            proof {
                assert(rs.remove(0) =~= rs.drop_first());
                assert(a == rs[0]);
            }
            let AnalyzedFile { metadata, issues } = a;
            let ghost cur = self.cache.entries@;
            self.cache.store_analysis(metadata, issues, None);
            proof {
                assert((CachedAnalysis { metadata, issues, ast_hash: None }) == mk_cached(rs[0]));
                assert(store_all(cur, rs) == store_all(self.cache.entries@, results@));
            }
        }
        proof {
            assert(results@.len() == 0);
            assert(store_all(self.cache.entries@, results@) == self.cache.entries@);
        }
    }

    /// Drops a file's cache entry.
    pub fn invalidate_file(&mut self, path: &str)
        ensures
            final(self).config == old(self).config,
            final(self).rules == old(self).rules,
            ({
                let pre = old(self).cache.entries@;
                match lookup(pre, path@) {
                    Some(_) => final(self).cache.entries@ == pre.remove(
                        crate::cache::entry_idx(pre, path@) as int,
                    ) && final(self).cache.dirty,
                    None => final(self).cache.entries@ == pre && final(self).cache.dirty == old(
                        self,
                    ).cache.dirty,
                }
            }),
    {
        self.cache.remove_file(path);
    }

    /// Counts over the cache; the serialized size is supplied by the
    /// caller that measured it.
    pub fn get_cache_stats(&self, cache_size_bytes: u64) -> (r: CacheStats)
        ensures
            r.total_files == self.cache.entries@.len(),
            r.cache_size_bytes == cache_size_bytes,
    {
        self.cache.cache_stats(cache_size_bytes)
    }
}

/// Builds the run counters: how many files were freshly analyzed, served
/// from cache, and skipped, with the hit rate as a whole percentage.
pub fn compute_stats(analyzed: usize, from_cache: usize, skipped: usize) -> (r: IncrementalStats)
    ensures
        r.files_analyzed == analyzed,
        r.files_from_cache == from_cache,
        r.files_skipped == skipped,
        r.cache_hit_rate as nat == spec_hit_rate(analyzed as nat, from_cache as nat),
{
    let total: u128 = (analyzed as u128) + (from_cache as u128);
    let rate: u64 = if total == 0 {
        0
    } else {
        proof {
            assert((from_cache as int) * 100 / (total as int) <= 100) by (nonlinear_arith)
                requires
                    total as int > 0,
                    from_cache as int <= total as int,
            ;
        }
        (((from_cache as u128) * 100) / total) as u64
    };
    IncrementalStats {
        files_analyzed: analyzed,
        files_from_cache: from_cache,
        files_skipped: skipped,
        cache_hit_rate: rate,
    }
}

impl IncrementalResults {
    /// All findings of the run: the fresh ones, then the cache-served
    /// ones.
    pub fn all_issues(&self) -> (r: Vec<FileIssues>)
        ensures
            paths_of(r@) == paths_of(self.new_issues@) + paths_of(self.cached_issues@),
            issue_views_of(r@) == issue_views_of(self.new_issues@) + issue_views_of(
                self.cached_issues@,
            ),
    {
        let mut out: Vec<FileIssues> = Vec::new();
        copy_file_issues_into(&self.new_issues, &mut out);
        copy_file_issues_into(&self.cached_issues, &mut out);
        proof {
            assert(paths_of(out@) =~= paths_of(self.new_issues@) + paths_of(self.cached_issues@));
            assert(issue_views_of(out@) =~= issue_views_of(self.new_issues@) + issue_views_of(
                self.cached_issues@,
            ));
        }
        out
    }

    /// Total number of issues across fresh and cached findings.
    pub fn total_issues(&self) -> (r: usize)
        ensures
            r as nat == crate::rules::complexity::sat_val(
                crate::analyzer::total_issue_count(self.new_issues@)
                    + crate::analyzer::total_issue_count(self.cached_issues@),
            ),
    {
        let a = total_issues_of(&self.new_issues);
        let b = total_issues_of(&self.cached_issues);
        proof {
            crate::rules::complexity::lemma_sat(
                crate::analyzer::total_issue_count(self.new_issues@),
                crate::analyzer::total_issue_count(self.cached_issues@),
            );
        }
        sat_add_usize(a, b)
    }
}

#[verifier::loop_isolation(false)]
fn total_issues_of(fs: &Vec<FileIssues>) -> (r: usize)
    ensures
        r as nat == crate::rules::complexity::sat_val(crate::analyzer::total_issue_count(fs@)),
{
    let mut c: usize = 0;
    let ghost mut t: nat = 0nat;
    let mut i: usize = 0;
    proof {
        assert(fs@.skip(0) =~= fs@);
    }
    while i < fs.len()
        invariant
            i <= fs.len(),
            c as nat == crate::rules::complexity::sat_val(t),
            crate::analyzer::total_issue_count(fs@) == t + crate::analyzer::total_issue_count(
                fs@.skip(i as int),
            ),
        decreases fs.len() - i,
    {
        proof {
            assert(fs@.skip(i as int).drop_first() =~= fs@.skip(i as int + 1));
            assert(fs@.skip(i as int)[0] == fs@[i as int]);
        }
        c = sat_add_usize(c, fs[i].issues.len());
        proof {
            t = (t + fs@[i as int].issues.len()) as nat;
        }
        i = i + 1;
    }
    proof {
        assert(fs@.skip(fs@.len() as int) =~= Seq::<FileIssues>::empty());
    }
    c
}

#[verifier::loop_isolation(false)]
fn copy_file_issues_into(src: &Vec<FileIssues>, out: &mut Vec<FileIssues>)
    ensures
        paths_of(final(out)@) == paths_of(old(out)@) + paths_of(src@),
        issue_views_of(final(out)@) == issue_views_of(old(out)@) + issue_views_of(src@),
{
    let ghost p0 = paths_of(out@);
    let ghost v0 = issue_views_of(out@);
    let mut i: usize = 0;
    proof {
        assert(paths_of(out@) =~= p0 + paths_of(src@).take(0));
        assert(issue_views_of(out@) =~= v0 + issue_views_of(src@).take(0));
    }
    while i < src.len()
        invariant
            i <= src.len(),
            paths_of(out@) == p0 + paths_of(src@).take(i as int),
            issue_views_of(out@) == v0 + issue_views_of(src@).take(i as int),
        decreases src.len() - i,
    {
        let f = FileIssues { path: src[i].path.clone(), issues: copy_issues(&src[i].issues) };
        let ghost fv = f;
        let ghost before = out@;
        out.push(f);
        proof {
            assert(out@ =~= before.push(fv));
            assert(fv.path@ == src@[i as int].path@);
            assert(fv.issues.deep_view() == src@[i as int].issues.deep_view());
            assert(paths_of(before) == p0 + paths_of(src@).take(i as int));
            assert(paths_of(out@).len() == before.len() + 1);
            assert(paths_of(out@)[before.len() as int] == fv.path@);
            assert(forall|k: int|
                0 <= k < before.len() ==> #[trigger] paths_of(out@)[k] == paths_of(before)[k]);
            assert(paths_of(out@) =~~= p0 + paths_of(src@).take(i as int + 1));
            assert(issue_views_of(before) == v0 + issue_views_of(src@).take(i as int));
            assert(issue_views_of(out@).len() == before.len() + 1);
            assert(issue_views_of(out@)[before.len() as int] == fv.issues.deep_view());
            assert(forall|k: int|
                0 <= k < before.len() ==> #[trigger] issue_views_of(out@)[k] == issue_views_of(
                    before,
                )[k]);
            assert(issue_views_of(out@) =~~= v0 + issue_views_of(src@).take(i as int + 1));
        }
        i = i + 1;
    }
    proof {
        assert(paths_of(src@).take(src@.len() as int) =~= paths_of(src@));
        assert(issue_views_of(src@).take(src@.len() as int) =~= issue_views_of(src@));
    }
}

/// Cache equivalence: analyzing a file once and storing the result, then
/// planning a second run whose probe reports the same fingerprint, serves
/// that file from the cache with exactly the stored issues — nothing is
/// re-analyzed and nothing is skipped.
pub proof fn lemma_cache_equivalence(entries: Seq<CachedAnalysis>, a: AnalyzedFile)
    ensures
        ({
            let entries2 = store_entry(entries, mk_cached(a));
            let probes = seq![
                PathProbe { path: a.metadata.path, state: ProbeState::Meta(a.metadata) },
            ];
            &&& plan_analyze(entries2, probes) == Seq::<Seq<char>>::empty()
            &&& plan_cached_paths(entries2, probes) == seq![a.metadata.path@]
            &&& plan_cached_issues(entries2, probes) == seq![a.issues.deep_view()]
            &&& plan_skipped(probes) == 0
        }),
{
    let entries2 = store_entry(entries, mk_cached(a));
    let probes = seq![PathProbe { path: a.metadata.path, state: ProbeState::Meta(a.metadata) }];
    lemma_store_lookup(entries, mk_cached(a));
    assert(probes.drop_first() =~= Seq::<PathProbe>::empty());
    assert(plan_analyze(entries2, Seq::<PathProbe>::empty()) == Seq::<Seq<char>>::empty());
    assert(plan_cached_paths(entries2, Seq::<PathProbe>::empty()) == Seq::<Seq<char>>::empty());
    assert(plan_cached_issues(entries2, Seq::<PathProbe>::empty()) == Seq::<Seq<IssueV>>::empty());
    assert(plan_skipped(Seq::<PathProbe>::empty()) == 0);
    assert(probes[0] == (PathProbe { path: a.metadata.path, state: ProbeState::Meta(a.metadata) }));
    assert(plan_analyze(entries2, probes) =~= Seq::<Seq<char>>::empty());
    assert(plan_cached_paths(entries2, probes) =~= seq![a.metadata.path@]);
    assert(plan_cached_issues(entries2, probes) =~= seq![a.issues.deep_view()]);
}

/// Cache invalidation: when a probed file's current fingerprint differs
/// from the cached one — or the cache has no entry for it — the plan
/// routes the file to fresh analysis, never to the cache.
pub proof fn lemma_cache_invalidation(entries: Seq<CachedAnalysis>, probe: PathProbe)
    requires
        probe.state matches ProbeState::Meta(m) && (match lookup(entries, probe.path@) {
            Some(e) => e.metadata.hash != m.hash,
            None => true,
        }),
    ensures
        plan_analyze(entries, seq![probe]) == seq![probe.path@],
        plan_cached_paths(entries, seq![probe]) == Seq::<Seq<char>>::empty(),
        plan_cached_issues(entries, seq![probe]) == Seq::<Seq<IssueV>>::empty(),
        plan_skipped(seq![probe]) == 0,
{
    let probes = seq![probe];
    assert(probes.drop_first() =~= Seq::<PathProbe>::empty());
    assert(plan_analyze(entries, Seq::<PathProbe>::empty()) == Seq::<Seq<char>>::empty());
    assert(plan_cached_paths(entries, Seq::<PathProbe>::empty()) == Seq::<Seq<char>>::empty());
    assert(plan_cached_issues(entries, Seq::<PathProbe>::empty()) == Seq::<Seq<IssueV>>::empty());
    assert(plan_skipped(Seq::<PathProbe>::empty()) == 0);
    assert(probes[0] == probe);
    assert(plan_analyze(entries, probes) =~= seq![probe.path@]);
    assert(plan_cached_paths(entries, probes) =~= Seq::<Seq<char>>::empty());
    assert(plan_cached_issues(entries, probes) =~= Seq::<Seq<IssueV>>::empty());
}

} // verus!
