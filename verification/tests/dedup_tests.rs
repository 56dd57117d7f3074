use ln_tip_bot::dedup::TransactionIDCache;

#[test]
fn marked_id_is_processed() {
    let mut cache = TransactionIDCache::new(128);
    cache.mark_processed("txn-1".to_string());
    assert!(cache.is_processed("txn-1"));
}

#[test]
fn unknown_id_is_not_processed() {
    let cache = TransactionIDCache::new(128);
    assert!(!cache.is_processed("never-seen"));
}

#[test]
fn marking_again_keeps_membership() {
    let mut cache = TransactionIDCache::new(128);
    cache.mark_processed("txn-1".to_string());
    cache.mark_processed("txn-1".to_string());
    assert!(cache.is_processed("txn-1"));
}

#[test]
fn overflowing_the_history_evicts_the_oldest_block() {
    let n = 128;
    let mut cache = TransactionIDCache::new(n);
    for i in 0..(n + 1) {
        cache.mark_processed(format!("txn-{}", i));
    }
    // The oldest block (the first n/8 identifiers) was evicted when the
    // cursor wrapped around to an occupied slot.
    let mut evicted = 0;
    for i in 0..(n / 8) {
        if !cache.is_processed(&format!("txn-{}", i)) {
            evicted += 1;
        }
    }
    assert!(evicted >= 1);
    assert!(!cache.is_processed("txn-0"));
    // The most recent identifiers are still present.
    assert!(cache.is_processed(&format!("txn-{}", n)));
    assert!(cache.is_processed(&format!("txn-{}", n - 1)));
}

#[test]
fn small_cache_keeps_working() {
    let mut cache = TransactionIDCache::new(4);
    cache.mark_processed("a".to_string());
    cache.mark_processed("b".to_string());
    cache.mark_processed("c".to_string());
    cache.mark_processed("d".to_string());
    cache.mark_processed("e".to_string());
    assert!(cache.is_processed("e"));
}
