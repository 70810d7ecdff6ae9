//! Bookkeeping for a cache of serialized parse results, keyed by path:
//! lookup, invalidation, size statistics, and eviction of the oldest
//! entry when the cache is full. Reading files and parsing them is the
//! caller's concern.

use vstd::prelude::*;

use crate::text::sat_add_usize;

verus! {

/// One cached parse: the content hash it was computed from, the
/// serialized tree, and when it was created.
pub struct CachedAST {
    pub file_hash: u64,
    pub ast_tokens: Vec<u8>,
    pub creation_time: u64,
}

/// One cache slot: the file's path and its cached parse.
pub struct ASTCacheEntry {
    pub path: String,
    pub ast: CachedAST,
}

/// Counts over the parse cache.
#[derive(Clone, Debug)]
pub struct ASTCacheStats {
    pub total_entries: usize,
    pub total_size_bytes: usize,
    pub avg_ast_size: usize,
    pub max_cache_size: usize,
}

/// The parse cache: one entry per path, capped at `max_cache_size`
/// entries.
pub struct ASTCache {
    pub entries: Vec<ASTCacheEntry>,
    pub max_cache_size: usize,
}

/// The index of the entry for `path`, or the length when there is none.
pub open spec fn ast_idx(entries: Seq<ASTCacheEntry>, path: Seq<char>) -> nat
    decreases entries,
{
    if entries.len() == 0 {
        0
    } else if entries[0].path@ == path {
        0
    } else {
        1 + ast_idx(entries.drop_first(), path)
    }
}

proof fn lemma_ast_idx_unique(entries: Seq<ASTCacheEntry>, path: Seq<char>, i: int)
    requires
        0 <= i <= entries.len(),
        forall|j: int| 0 <= j < i ==> entries[j].path@ != path,
        i < entries.len() ==> entries[i].path@ == path,
    ensures
        ast_idx(entries, path) == i,
    decreases entries,
{
    if entries.len() > 0 && entries[0].path@ != path {
        lemma_ast_idx_unique(entries.drop_first(), path, i - 1);
    }
}

/// Total byte size of the serialized trees.
pub open spec fn total_ast_bytes(entries: Seq<ASTCacheEntry>) -> nat
    decreases entries,
{
    if entries.len() == 0 {
        0
    } else {
        (entries[0].ast.ast_tokens.len() + total_ast_bytes(entries.drop_first())) as nat
    }
}

/// The smallest creation time among the entries, or the largest
/// representable time for an empty cache.
pub open spec fn oldest_time(entries: Seq<ASTCacheEntry>) -> u64
    decreases entries,
{
    if entries.len() == 0 {
        u64::MAX
    } else if entries[0].ast.creation_time <= oldest_time(entries.drop_first()) {
        entries[0].ast.creation_time
    } else {
        oldest_time(entries.drop_first())
    }
}

impl ASTCache {
    /// A fresh, empty parse cache with the given capacity.
    pub fn new(max_cache_size: usize) -> (r: Self)
        ensures
            r.entries@ =~= Seq::<ASTCacheEntry>::empty(),
            r.max_cache_size == max_cache_size,
    {
        ASTCache { entries: Vec::new(), max_cache_size }
    }

    /// Drops the entry for a path, if any.
    #[verifier::loop_isolation(false)]
    pub fn invalidate(&mut self, path: &str)
        ensures
            ({
                let pre = old(self).entries@;
                final(self).max_cache_size == old(self).max_cache_size && (if ast_idx(pre, path@)
                    < pre.len() {
                    final(self).entries@ == pre.remove(ast_idx(pre, path@) as int)
                } else {
                    final(self).entries@ == pre
                })
            }),
    {
        let ghost pre = self.entries@;
        let mut i: usize = 0;
        while i < self.entries.len()
            invariant
                i <= self.entries.len(),
                self.entries@ == pre,
                self.max_cache_size == old(self).max_cache_size,
                forall|j: int| 0 <= j < i ==> self.entries@[j].path@ != path@,
            decreases self.entries.len() - i,
        {
            if crate::text::str_eq(self.entries[i].path.as_str(), path) {
                proof {
                    lemma_ast_idx_unique(pre, path@, i as int);
                }
                self.entries.remove(i);
                return ;
            }
            i = i + 1;
        }
        proof {
            lemma_ast_idx_unique(pre, path@, pre.len() as int);
        }
    }

    /// Drops every entry.
    pub fn clear(&mut self)
        ensures
            final(self).entries@ =~= Seq::<ASTCacheEntry>::empty(),
            final(self).max_cache_size == old(self).max_cache_size,
    {
        self.entries.clear();
    }

    /// Removes one entry whose creation time is the smallest, leaving an
    /// empty cache alone.
    #[verifier::loop_isolation(false)]
    pub fn evict_oldest(&mut self)
        ensures
            final(self).max_cache_size == old(self).max_cache_size,
            old(self).entries@.len() == 0 ==> final(self).entries@ == old(self).entries@,
            old(self).entries@.len() > 0 ==> final(self).entries@.len() == old(self).entries@.len()
                - 1 && (exists|k: int|
                0 <= k < old(self).entries@.len()
                    && #[trigger] old(self).entries@[k].ast.creation_time == oldest_time(old(self).entries@)
                    && final(self).entries@ == old(self).entries@.remove(k)),
    {
        let ghost pre = self.entries@;
        if self.entries.len() == 0 {
            return ;
        }
        let mut best: usize = 0;
        let mut best_time: u64 = self.entries[0].ast.creation_time;
        let mut i: usize = 1;
        proof {
            lemma_oldest_take(pre, 1);
        }
        while i < self.entries.len()
            invariant
                1 <= i <= self.entries.len(),
                best < i,
                self.entries@ == pre,
                self.max_cache_size == old(self).max_cache_size,
                best_time == pre[best as int].ast.creation_time,
                best_time == oldest_time(pre.take(i as int)),
            decreases self.entries.len() - i,
        {
            if self.entries[i].ast.creation_time < best_time {
                best = i;
                best_time = self.entries[i].ast.creation_time;
            }
            proof {
                lemma_oldest_take_step(pre, i as int);
            }
            i = i + 1;
        }
        proof {
            assert(pre.take(pre.len() as int) =~= pre);
        }
        self.entries.remove(best);
    }

    /// Counts over the cache: entries, total serialized bytes, and the
    /// average size per entry.
    #[verifier::loop_isolation(false)]
    pub fn cache_stats(&self) -> (r: ASTCacheStats)
        ensures
            r.total_entries == self.entries@.len(),
            r.total_size_bytes as nat == crate::rules::complexity::sat_val(
                total_ast_bytes(self.entries@),
            ),
            self.entries@.len() > 0 ==> r.avg_ast_size as nat == crate::rules::complexity::sat_val(
                total_ast_bytes(self.entries@),
            ) / self.entries@.len(),
            self.entries@.len() == 0 ==> r.avg_ast_size == 0,
            r.max_cache_size == self.max_cache_size,
    {
        let mut total: usize = 0;
        let ghost mut t: nat = 0nat;
        let mut i: usize = 0;
        proof {
            assert(self.entries@.skip(0) =~= self.entries@);
        }
        while i < self.entries.len()
            invariant
                i <= self.entries.len(),
                total as nat == crate::rules::complexity::sat_val(t),
                total_ast_bytes(self.entries@) == t + total_ast_bytes(
                    self.entries@.skip(i as int),
                ),
            decreases self.entries.len() - i,
        {
            proof {
                assert(self.entries@.skip(i as int).drop_first() =~= self.entries@.skip(
                    i as int + 1,
                ));
                assert(self.entries@.skip(i as int)[0] == self.entries@[i as int]);
            }
            total = sat_add_usize(total, self.entries[i].ast.ast_tokens.len());
            proof {
                t = (t + self.entries@[i as int].ast.ast_tokens.len()) as nat;
            }
            i = i + 1;
        }
        proof {
            assert(self.entries@.skip(self.entries@.len() as int) =~= Seq::<
                ASTCacheEntry,
            >::empty());
        }
        let n = self.entries.len();
        let avg = if n > 0 {
            total / n
        } else {
            0
        };
        ASTCacheStats {
            total_entries: n,
            total_size_bytes: total,
            avg_ast_size: avg,
            max_cache_size: self.max_cache_size,
        }
    }
}

proof fn lemma_oldest_take(entries: Seq<ASTCacheEntry>, i: int)
    requires
        i == 1,
        entries.len() >= 1,
    ensures
        oldest_time(entries.take(1)) == entries[0].ast.creation_time,
{
    let t = entries.take(1);
    assert(t.drop_first() =~= Seq::<ASTCacheEntry>::empty());
    assert(oldest_time(Seq::<ASTCacheEntry>::empty()) == u64::MAX);
}

proof fn lemma_oldest_take_step(entries: Seq<ASTCacheEntry>, i: int)
    requires
        0 <= i < entries.len(),
    ensures
        oldest_time(entries.take(i + 1)) == (if entries[i].ast.creation_time < oldest_time(
            entries.take(i),
        ) {
            entries[i].ast.creation_time
        } else {
            oldest_time(entries.take(i))
        }),
    decreases i,
{
    if i == 0 {
        lemma_oldest_take(entries, 1);
        assert(entries.take(0) =~= Seq::<ASTCacheEntry>::empty());
    } else {
        lemma_oldest_take_step(entries.drop_first(), i - 1);
        assert(entries.take(i + 1).drop_first() =~= entries.drop_first().take(i));
        assert(entries.take(i).drop_first() =~= entries.drop_first().take(i - 1));
        assert(entries.drop_first()[i - 1] == entries[i]);
        assert(entries.take(i + 1)[0] == entries[0]);
        assert(entries.take(i)[0] == entries[0]);
    }
}

} // verus!
