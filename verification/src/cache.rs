//! The analysis cache: per-path staleness fingerprints and the last
//! computed issue list, used to skip re-analysis of unchanged files.
//! Persistence of the map is the caller's concern; the core owns the
//! lookup, staleness and eviction logic.

use vstd::prelude::*;

use crate::issues::Issue;

verus! {

/// The staleness fingerprint of one file.
#[derive(Clone, Debug)]
pub struct FileMetadata {
    pub path: String,
    pub size: u64,
    pub modified: u64,
    pub hash: u64,
}

/// One cached analysis: the fingerprint it was computed under, the issues
/// found, and an optional hash of the parsed tree.
pub struct CachedAnalysis {
    pub metadata: FileMetadata,
    pub issues: Vec<Issue>,
    pub ast_hash: Option<u64>,
}

/// Counts over the cache.
#[derive(Clone, Debug)]
pub struct CacheStats {
    pub total_files: usize,
    pub total_issues: usize,
    pub cache_size_bytes: u64,
}

/// One step of the fingerprint mix: multiply and add, modulo the word.
pub open spec fn mix(h: u64, v: u64) -> u64 {
    (((h * 31) + v) % 0x10000000000000000) as u64
}

/// The mix folded over a string's characters.
pub open spec fn hash_chars(h: u64, s: Seq<char>) -> u64
    decreases s,
{
    if s.len() == 0 {
        h
    } else {
        hash_chars(mix(h, s[0] as u64), s.drop_first())
    }
}

/// The fingerprint hash of a path, size and modification time.
pub open spec fn spec_fingerprint(path: Seq<char>, size: u64, modified: u64) -> u64 {
    mix(mix(hash_chars(5381, path), size), modified)
}

fn exec_mix(h: u64, v: u64) -> (r: u64)
    ensures
        r == mix(h, v),
{
    let wide: u128 = (h as u128) * 31 + (v as u128);
    (wide % 0x10000000000000000u128) as u64
}

/// Computes the staleness fingerprint hash from a file's path, size and
/// modification time.
pub fn fingerprint(path: &str, size: u64, modified: u64) -> (r: u64)
    ensures
        r == spec_fingerprint(path@, size, modified),
{
    let len = path.unicode_len();
    let mut h: u64 = 5381;
    let mut i: usize = 0;
    proof {
        assert(path@.skip(0) =~= path@);
    }
    while i < len
        invariant
            i <= len,
            len == path@.len(),
            hash_chars(5381, path@) == hash_chars(h, path@.skip(i as int)),
        decreases len - i,
    {
        proof {
            assert(path@.skip(i as int).drop_first() =~= path@.skip(i as int + 1));
            assert(path@.skip(i as int)[0] == path@[i as int]);
        }
        let c = path.get_char(i);
        h = exec_mix(h, (c as u32) as u64);
        i = i + 1;
    }
    proof {
        assert(path@.skip(len as int) =~= Seq::<char>::empty());
    }
    exec_mix(exec_mix(h, size), modified)
}

/// The index of the entry for `path`, or the length when there is none.
pub open spec fn entry_idx(entries: Seq<CachedAnalysis>, path: Seq<char>) -> nat
    decreases entries,
{
    if entries.len() == 0 {
        0
    } else if entries[0].metadata.path@ == path {
        0
    } else {
        1 + entry_idx(entries.drop_first(), path)
    }
}

/// The cached analysis stored for `path`, if any.
pub open spec fn lookup(entries: Seq<CachedAnalysis>, path: Seq<char>) -> Option<CachedAnalysis> {
    if entry_idx(entries, path) < entries.len() {
        Some(entries[entry_idx(entries, path) as int])
    } else {
        None
    }
}

pub proof fn lemma_entry_idx(entries: Seq<CachedAnalysis>, path: Seq<char>)
    ensures
        entry_idx(entries, path) <= entries.len(),
        entry_idx(entries, path) < entries.len() ==> entries[entry_idx(
            entries,
            path,
        ) as int].metadata.path@ == path,
        forall|j: int| 0 <= j < entry_idx(entries, path) ==> entries[j].metadata.path@ != path,
    decreases entries,
{
    if entries.len() > 0 && entries[0].metadata.path@ != path {
        lemma_entry_idx(entries.drop_first(), path);
        assert forall|j: int| 0 <= j < entry_idx(entries, path) implies entries[j].metadata.path@
            != path by {
            if j > 0 {
                assert(entries.drop_first()[j - 1].metadata.path@ != path);
            }
        }
    }
}

pub proof fn lemma_entry_idx_unique(entries: Seq<CachedAnalysis>, path: Seq<char>, i: int)
    requires
        0 <= i <= entries.len(),
        forall|j: int| 0 <= j < i ==> entries[j].metadata.path@ != path,
        i < entries.len() ==> entries[i].metadata.path@ == path,
    ensures
        entry_idx(entries, path) == i,
    decreases entries,
{
    if entries.len() > 0 && entries[0].metadata.path@ != path {
        lemma_entry_idx_unique(entries.drop_first(), path, i - 1);
    }
}

/// The entries after storing `e`: the first entry with the same path is
/// replaced, or `e` is appended.
pub open spec fn store_entry(entries: Seq<CachedAnalysis>, e: CachedAnalysis) -> Seq<
    CachedAnalysis,
> {
    if entry_idx(entries, e.metadata.path@) < entries.len() {
        entries.update(entry_idx(entries, e.metadata.path@) as int, e)
    } else {
        entries.push(e)
    }
}

/// Looking a path up right after storing an entry under it yields that
/// entry.
pub proof fn lemma_store_lookup(entries: Seq<CachedAnalysis>, e: CachedAnalysis)
    ensures
        lookup(store_entry(entries, e), e.metadata.path@) == Some(e),
{
    let p = e.metadata.path@;
    let i = entry_idx(entries, p) as int;
    lemma_entry_idx(entries, p);
    let entries2 = store_entry(entries, e);
    assert forall|j: int| 0 <= j < i implies entries2[j].metadata.path@ != p by {
        assert(entries[j].metadata.path@ != p);
    }
    lemma_entry_idx_unique(entries2, p, i);
}

/// The persistent analysis cache: one entry per path, plus whether the
/// map changed since it was last persisted.
pub struct AnalysisCache {
    pub entries: Vec<CachedAnalysis>,
    pub dirty: bool,
}

/// What a caller's probe of the file system found for one path.
pub enum ProbeState {
    /// The path no longer exists.
    Missing,
    /// The path exists with this current fingerprint.
    Meta(FileMetadata),
    /// The path could not be examined.
    Unreadable,
}

/// One probed path with what the probe found.
pub struct PathProbe {
    pub path: String,
    pub state: ProbeState,
}

/// The probe recorded for `path`, if any.
pub open spec fn probe_idx(probes: Seq<PathProbe>, path: Seq<char>) -> nat
    decreases probes,
{
    if probes.len() == 0 {
        0
    } else if probes[0].path@ == path {
        0
    } else {
        1 + probe_idx(probes.drop_first(), path)
    }
}

pub open spec fn probe_for(probes: Seq<PathProbe>, path: Seq<char>) -> Option<ProbeState> {
    if probe_idx(probes, path) < probes.len() {
        Some(probes[probe_idx(probes, path) as int].state)
    } else {
        None
    }
}

pub proof fn lemma_probe_idx_unique(probes: Seq<PathProbe>, path: Seq<char>, i: int)
    requires
        0 <= i <= probes.len(),
        forall|j: int| 0 <= j < i ==> probes[j].path@ != path,
        i < probes.len() ==> probes[i].path@ == path,
    ensures
        probe_idx(probes, path) == i,
    decreases probes,
{
    if probes.len() > 0 && probes[0].path@ != path {
        lemma_probe_idx_unique(probes.drop_first(), path, i - 1);
    }
}

/// Whether an entry survives a sweep: it does unless its path was probed
/// and found missing, or found with a different fingerprint.
pub open spec fn entry_survives(e: CachedAnalysis, probes: Seq<PathProbe>) -> bool {
    match probe_for(probes, e.metadata.path@) {
        Some(ProbeState::Missing) => false,
        Some(ProbeState::Meta(m)) => m.hash == e.metadata.hash,
        Some(ProbeState::Unreadable) => true,
        None => true,
    }
}

/// The entries kept by a sweep, in order.
pub open spec fn sweep(entries: Seq<CachedAnalysis>, probes: Seq<PathProbe>) -> Seq<
    CachedAnalysis,
>
    decreases entries,
{
    if entries.len() == 0 {
        Seq::empty()
    } else {
        (if entry_survives(entries[0], probes) {
            seq![entries[0]]
        } else {
            Seq::empty()
        }) + sweep(entries.drop_first(), probes)
    }
}

/// Finds the probe recorded for a path.
#[verifier::loop_isolation(false)]
pub fn exec_probe_for<'a>(probes: &'a Vec<PathProbe>, path: &str) -> (r: Option<&'a ProbeState>)
    ensures
        match probe_for(probes@, path@) {
            Some(st) => r matches Some(p) && *p == st,
            None => r is None,
        },
{
    let mut i: usize = 0;
    while i < probes.len()
        invariant
            i <= probes.len(),
            forall|j: int| 0 <= j < i ==> probes@[j].path@ != path@,
        decreases probes.len() - i,
    {
        if crate::text::str_eq(probes[i].path.as_str(), path) {
            proof {
                lemma_probe_idx_unique(probes@, path@, i as int);
            }
            return Some(&probes[i].state);
        }
        i = i + 1;
    }
    proof {
        lemma_probe_idx_unique(probes@, path@, probes@.len() as int);
    }
    None
}

impl AnalysisCache {
    /// A fresh, empty, clean cache.
    pub fn new() -> (r: Self)
        ensures
            r.entries@ =~= Seq::<CachedAnalysis>::empty(),
            !r.dirty,
    {
        AnalysisCache { entries: Vec::new(), dirty: false }
    }

    /// Whether the file changed since it was cached: true when the cached
    /// fingerprint differs from the current one, and when the path is not
    /// cached at all.
    #[verifier::loop_isolation(false)]
    pub fn is_file_changed(&self, path: &str, current_hash: u64) -> (r: bool)
        ensures
            r == (match lookup(self.entries@, path@) {
                Some(e) => e.metadata.hash != current_hash,
                None => true,
            }),
    {
        match self.get_cached_analysis(path) {
            Some(e) => e.metadata.hash != current_hash,
            None => true,
        }
    }

    /// The cached analysis for a path, if any.
    #[verifier::loop_isolation(false)]
    pub fn get_cached_analysis<'a>(&'a self, path: &str) -> (r: Option<&'a CachedAnalysis>)
        ensures
            match lookup(self.entries@, path@) {
                Some(e) => r matches Some(x) && *x == e,
                None => r is None,
            },
    {
        let mut i: usize = 0;
        while i < self.entries.len()
            invariant
                i <= self.entries.len(),
                forall|j: int| 0 <= j < i ==> self.entries@[j].metadata.path@ != path@,
            decreases self.entries.len() - i,
        {
            if crate::text::str_eq(self.entries[i].metadata.path.as_str(), path) {
                proof {
                    lemma_entry_idx_unique(self.entries@, path@, i as int);
                }
                return Some(&self.entries[i]);
            }
            i = i + 1;
        }
        proof {
            lemma_entry_idx_unique(self.entries@, path@, self.entries@.len() as int);
        }
        None
    }

    /// Stores a freshly computed analysis for a path, overwriting any
    /// prior entry, and marks the cache dirty.
    #[verifier::loop_isolation(false)]
    pub fn store_analysis(
        &mut self,
        metadata: FileMetadata,
        issues: Vec<Issue>,
        ast_hash: Option<u64>,
    )
        ensures
            final(self).entries@ == store_entry(
                old(self).entries@,
                CachedAnalysis { metadata, issues, ast_hash },
            ),
            final(self).dirty,
    {
        let e = CachedAnalysis { metadata, issues, ast_hash };
        let ghost ev = e;
        let ghost pre = self.entries@;
        let path_holder = e.metadata.path.clone();
        let path = path_holder.as_str();
        let mut i: usize = 0;
        while i < self.entries.len()
            invariant
                i <= self.entries.len(),
                self.entries@ == pre,
                forall|j: int| 0 <= j < i ==> self.entries@[j].metadata.path@ != path@,
            decreases self.entries.len() - i,
        {
            if crate::text::str_eq(self.entries[i].metadata.path.as_str(), path) {
                proof {
                    lemma_entry_idx_unique(pre, path@, i as int);
                }
                self.entries.set(i, e);
                self.dirty = true;
                proof {
                    assert(path@ == ev.metadata.path@);
                    assert(final(self).entries@ =~= store_entry(pre, ev));
                }
                return ;
            }
            i = i + 1;
        }
        proof {
            lemma_entry_idx_unique(pre, path@, pre.len() as int);
        }
        self.entries.push(e);
        self.dirty = true;
        proof {
            assert(path@ == ev.metadata.path@);
            assert(final(self).entries@ =~= store_entry(pre, ev));
        }
    }

    /// Removes the entry for a path; the cache becomes dirty exactly when
    /// an entry was removed.
    #[verifier::loop_isolation(false)]
    pub fn remove_file(&mut self, path: &str)
        ensures
            ({
                let pre = old(self).entries@;
                match lookup(pre, path@) {
                    Some(_) => final(self).entries@ == pre.remove(entry_idx(pre, path@) as int)
                        && final(self).dirty,
                    None => final(self).entries@ == pre && final(self).dirty == old(self).dirty,
                }
            }),
    {
        let ghost pre = self.entries@;
        let mut i: usize = 0;
        while i < self.entries.len()
            invariant
                i <= self.entries.len(),
                self.entries@ == pre,
                self.dirty == old(self).dirty,
                forall|j: int| 0 <= j < i ==> self.entries@[j].metadata.path@ != path@,
            decreases self.entries.len() - i,
        {
            if crate::text::str_eq(self.entries[i].metadata.path.as_str(), path) {
                proof {
                    lemma_entry_idx_unique(pre, path@, i as int);
                }
                self.entries.remove(i);
                self.dirty = true;
                return ;
            }
            i = i + 1;
        }
        proof {
            lemma_entry_idx_unique(pre, path@, pre.len() as int);
        }
    }

    /// Sweeps the cache: entries whose path was probed and found missing
    /// or carrying a different fingerprint are dropped; the cache becomes
    /// dirty when anything was dropped.
    #[verifier::loop_isolation(false)]
    pub fn cleanup_stale_entries(&mut self, probes: &Vec<PathProbe>)
        ensures
            final(self).entries@ == sweep(old(self).entries@, probes@),
            final(self).dirty == (old(self).dirty || sweep(old(self).entries@, probes@).len()
                != old(self).entries@.len()),
    {
        let ghost pre = self.entries@;
        let n = self.entries.len();
        let mut i: usize = n;
        proof {
            assert(pre.skip(n as int) =~= Seq::<CachedAnalysis>::empty());
            assert(pre.take(n as int) =~= pre);
            assert(self.entries@ =~= pre.take(n as int) + sweep(pre.skip(n as int), probes@));
        }
        while i > 0
            invariant
                i <= n,
                self.dirty == old(self).dirty,
                self.entries@ == pre.take(i as int) + sweep(pre.skip(i as int), probes@),
            decreases i,
        {
            i = i - 1;
            proof {
                assert(pre.skip(i as int).drop_first() =~= pre.skip(i as int + 1));
                assert(pre.skip(i as int)[0] == pre[i as int]);
                assert(self.entries@[i as int] == pre[i as int]);
            }
            let e = &self.entries[i];
            let keep: bool = match exec_probe_for(probes, e.metadata.path.as_str()) {
                Some(st) => match st {
                    ProbeState::Missing => false,
                    ProbeState::Meta(m) => m.hash == e.metadata.hash,
                    ProbeState::Unreadable => true,
                },
                None => true,
            };
            if keep {
                proof {
                    assert(self.entries@ =~= pre.take(i as int) + sweep(
                        pre.skip(i as int),
                        probes@,
                    ));
                }
            } else {
                self.entries.remove(i);
                proof {
                    assert(self.entries@ =~= pre.take(i as int) + sweep(
                        pre.skip(i as int),
                        probes@,
                    ));
                }
            }
        }
        proof {
            assert(pre.take(0) =~= Seq::<CachedAnalysis>::empty());
            assert(self.entries@ =~= sweep(pre, probes@));
        }
        if self.entries.len() != n {
            self.dirty = true;
        }
    }

    /// Marks the cache clean, after the caller has persisted a snapshot.
    pub fn mark_saved(&mut self)
        ensures
            final(self).entries@ == old(self).entries@,
            !final(self).dirty,
    {
        self.dirty = false;
    }

    /// Counts over the cache; the serialized size is supplied by the
    /// caller that measured it.
    #[verifier::loop_isolation(false)]
    pub fn cache_stats(&self, cache_size_bytes: u64) -> (r: CacheStats)
        ensures
            r.total_files == self.entries@.len(),
            r.total_issues as nat == crate::rules::complexity::sat_val(
                total_cached_issues(self.entries@),
            ),
            r.cache_size_bytes == cache_size_bytes,
    {
        let mut total: usize = 0;
        let ghost mut t: nat = 0nat;
        let mut i: usize = 0;
        proof {
            assert(self.entries@.skip(0) =~= self.entries@);
        }
        while i < self.entries.len()
            invariant
                i <= self.entries.len(),
                total as nat == crate::rules::complexity::sat_val(t),
                total_cached_issues(self.entries@) == t + total_cached_issues(
                    self.entries@.skip(i as int),
                ),
            decreases self.entries.len() - i,
        {
            proof {
                assert(self.entries@.skip(i as int).drop_first() =~= self.entries@.skip(
                    i as int + 1,
                ));
                assert(self.entries@.skip(i as int)[0] == self.entries@[i as int]);
            }
            total = crate::text::sat_add_usize(total, self.entries[i].issues.len());
            proof {
                t = (t + self.entries@[i as int].issues.len()) as nat;
            }
            i = i + 1;
        }
        proof {
            assert(self.entries@.skip(self.entries@.len() as int) =~= Seq::<
                CachedAnalysis,
            >::empty());
        }
        CacheStats { total_files: self.entries.len(), total_issues: total, cache_size_bytes }
    }
}

/// How many issues the cache holds across its entries.
pub open spec fn total_cached_issues(entries: Seq<CachedAnalysis>) -> nat
    decreases entries,
{
    if entries.len() == 0 {
        0
    } else {
        (entries[0].issues.len() + total_cached_issues(entries.drop_first())) as nat
    }
}

/// Rebuilds a replacement, value for value.
fn copy_replacement(r: &crate::issues::Replacement) -> (c: crate::issues::Replacement)
    ensures
        c == *r,
{
    crate::issues::Replacement { start: r.start, end: r.end, text: r.text.clone() }
}

/// Rebuilds a fix, value for value.
#[verifier::loop_isolation(false)]
fn copy_fix(f: &crate::issues::Fix) -> (c: crate::issues::Fix)
    ensures
        c.description == f.description,
        c.replacements@ == f.replacements@,
{
    let mut reps: Vec<crate::issues::Replacement> = Vec::new();
    let mut i: usize = 0;
    proof {
        assert(reps@ =~= f.replacements@.take(0));
    }
    while i < f.replacements.len()
        invariant
            i <= f.replacements.len(),
            reps@ == f.replacements@.take(i as int),
        decreases f.replacements.len() - i,
    {
        let rep = copy_replacement(&f.replacements[i]);
        reps.push(rep);
        proof {
            assert(reps@ =~= f.replacements@.take(i as int + 1));
        }
        i = i + 1;
    }
    proof {
        assert(f.replacements@.take(f.replacements@.len() as int) =~= f.replacements@);
    }
    crate::issues::Fix { description: f.description.clone(), replacements: reps }
}

/// Rebuilds an issue with the same mathematical value.
pub fn copy_issue(i: &Issue) -> (c: Issue)
    ensures
        c.deep_view() == i.deep_view(),
{
    let fix: Option<crate::issues::Fix> = match &i.fix {
        Some(f) => Some(copy_fix(f)),
        None => None,
    };
    let c = Issue {
        rule: i.rule.clone(),
        severity: i.severity,
        message: i.message.clone(),
        location: i.location,
        fix,
    };
    proof {
        match &i.fix {
            Some(f) => {
                assert(c.deep_view().fix->0.replacements =~= i.deep_view().fix->0.replacements);
                assert(c.deep_view().fix->0 =~~= i.deep_view().fix->0);
            }
            None => {}
        }
        assert(c.deep_view() =~~= i.deep_view());
    }
    c
}

/// Rebuilds an issue list whose mathematical value is unchanged.
#[verifier::loop_isolation(false)]
pub fn copy_issues(v: &Vec<Issue>) -> (r: Vec<Issue>)
    ensures
        r.deep_view() == v.deep_view(),
{
    let mut out: Vec<Issue> = Vec::new();
    let mut i: usize = 0;
    proof {
        assert(out.deep_view() =~= v.deep_view().take(0));
    }
    while i < v.len()
        invariant
            i <= v.len(),
            out.deep_view() == v.deep_view().take(i as int),
        decreases v.len() - i,
    {
        let c = copy_issue(&v[i]);
        let ghost odv = out.deep_view();
        out.push(c);
        proof {
            assert(out.deep_view() =~= odv.push(v@[i as int].deep_view()));
            assert(out.deep_view() =~= v.deep_view().take(i as int + 1));
        }
        i = i + 1;
    }
    proof {
        assert(v.deep_view().take(v@.len() as int) =~= v.deep_view());
    }
    out
}

} // verus!
