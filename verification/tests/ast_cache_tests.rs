use cargo_fl::ast_cache::{ASTCache, ASTCacheEntry, CachedAST};

fn entry(path: &str, bytes: usize, time: u64) -> ASTCacheEntry {
    ASTCacheEntry {
        path: path.to_string(),
        ast: CachedAST { file_hash: 1, ast_tokens: vec![0u8; bytes], creation_time: time },
    }
}

#[test]
fn ast_cache_stats_count_entries_and_sizes() {
    let mut cache = ASTCache::new(100);
    cache.entries.push(entry("a.rs", 10, 5));
    cache.entries.push(entry("b.rs", 30, 6));
    let stats = cache.cache_stats();
    assert_eq!(stats.total_entries, 2);
    assert_eq!(stats.total_size_bytes, 40);
    assert_eq!(stats.avg_ast_size, 20);
    assert_eq!(stats.max_cache_size, 100);
}

#[test]
fn empty_ast_cache_has_zero_average() {
    let cache = ASTCache::new(10);
    let stats = cache.cache_stats();
    assert_eq!(stats.total_entries, 0);
    assert_eq!(stats.avg_ast_size, 0);
}

#[test]
fn evict_oldest_removes_the_earliest_entry() {
    let mut cache = ASTCache::new(100);
    cache.entries.push(entry("newer.rs", 1, 50));
    cache.entries.push(entry("oldest.rs", 1, 7));
    cache.entries.push(entry("middle.rs", 1, 20));
    cache.evict_oldest();
    assert_eq!(cache.entries.len(), 2);
    assert!(cache.entries.iter().all(|e| e.path != "oldest.rs"));
}

#[test]
fn invalidate_and_clear_drop_entries() {
    let mut cache = ASTCache::new(100);
    cache.entries.push(entry("a.rs", 1, 1));
    cache.entries.push(entry("b.rs", 1, 2));
    cache.invalidate("a.rs");
    assert_eq!(cache.entries.len(), 1);
    assert_eq!(cache.entries[0].path, "b.rs");
    cache.clear();
    assert_eq!(cache.entries.len(), 0);
}
