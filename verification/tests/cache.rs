use std::sync::Arc;
use tls_session::{CredentialCache, CREDENTIAL_CACHE_SIZE, CREDENTIAL_TTL};

fn names(cache: &CredentialCache<u32>) -> Vec<String> {
    cache.domains()
}

#[test]
fn constants_are_ten_entries_and_ten_minutes() {
    assert_eq!(CREDENTIAL_CACHE_SIZE, 10);
    assert_eq!(CREDENTIAL_TTL, 600);
}

#[test]
fn lookup_on_empty_cache_misses() {
    let mut cache: CredentialCache<u32> = CredentialCache::new();
    assert_eq!(cache.len(), 0);
    assert!(cache.lookup("example.org", 0).is_none());
    assert_eq!(cache.len(), 0);
}

#[test]
fn store_then_lookup_hands_out_the_same_credential() {
    let mut cache: CredentialCache<u32> = CredentialCache::new();
    let credential = Arc::new(7u32);
    cache.store("example.org", credential.clone(), 100);
    let found = cache.lookup("example.org", 101).unwrap();
    assert!(Arc::ptr_eq(&found, &credential));
    assert_eq!(*found, 7);
    assert_eq!(cache.len(), 1);
}

#[test]
fn lookup_of_another_domain_misses_and_changes_nothing() {
    let mut cache: CredentialCache<u32> = CredentialCache::new();
    cache.store("a.example", Arc::new(1), 0);
    cache.store("b.example", Arc::new(2), 0);
    assert!(cache.lookup("c.example", 1).is_none());
    assert_eq!(names(&cache), vec!["a.example".to_string(), "b.example".to_string()]);
}

#[test]
fn entry_is_fresh_one_second_before_expiry() {
    let mut cache: CredentialCache<u32> = CredentialCache::new();
    cache.store("example.org", Arc::new(1), 100);
    assert_eq!(cache.lookup("example.org", 699).map(|c| *c), Some(1));
}

#[test]
fn entry_at_its_expiry_is_not_returned_and_is_removed() {
    let mut cache: CredentialCache<u32> = CredentialCache::new();
    cache.store("example.org", Arc::new(1), 100);
    assert!(cache.lookup("example.org", 700).is_none());
    assert_eq!(cache.len(), 0);
    assert!(cache.lookup("example.org", 100).is_none());
}

#[test]
fn expired_entry_is_removed_and_others_stay() {
    let mut cache: CredentialCache<u32> = CredentialCache::new();
    cache.store("old.example", Arc::new(1), 0);
    cache.store("new.example", Arc::new(2), 500);
    assert!(cache.lookup("old.example", 1000).is_none());
    assert_eq!(names(&cache), vec!["new.example".to_string()]);
    assert_eq!(cache.lookup("new.example", 1000).map(|c| *c), Some(2));
}

#[test]
fn hit_refreshes_the_lifetime() {
    let mut cache: CredentialCache<u32> = CredentialCache::new();
    cache.store("example.org", Arc::new(1), 0);
    assert!(cache.lookup("example.org", 599).is_some());
    // refreshed at 599: expires at 1199
    assert!(cache.lookup("example.org", 1198).is_some());
    // refreshed at 1198: expires at 1798
    assert!(cache.lookup("example.org", 1798).is_none());
    assert_eq!(cache.len(), 0);
}

#[test]
fn hit_moves_the_entry_to_the_tail() {
    let mut cache: CredentialCache<u32> = CredentialCache::new();
    cache.store("a", Arc::new(1), 0);
    cache.store("b", Arc::new(2), 0);
    cache.store("c", Arc::new(3), 0);
    assert!(cache.lookup("a", 1).is_some());
    assert_eq!(names(&cache), vec!["b".to_string(), "c".to_string(), "a".to_string()]);
}

#[test]
fn store_under_a_present_domain_replaces_the_entry() {
    let mut cache: CredentialCache<u32> = CredentialCache::new();
    cache.store("a", Arc::new(1), 0);
    cache.store("b", Arc::new(2), 0);
    cache.store("a", Arc::new(3), 10);
    assert_eq!(cache.len(), 2);
    assert_eq!(names(&cache), vec!["b".to_string(), "a".to_string()]);
    assert_eq!(cache.lookup("a", 11).map(|c| *c), Some(3));
}

#[test]
fn store_under_a_present_domain_renews_the_lifetime() {
    let mut cache: CredentialCache<u32> = CredentialCache::new();
    cache.store("a", Arc::new(1), 0);
    cache.store("a", Arc::new(2), 500);
    assert_eq!(cache.lookup("a", 1099).map(|c| *c), Some(2));
}

#[test]
fn cache_holds_ten_distinct_domains() {
    let mut cache: CredentialCache<u32> = CredentialCache::new();
    for i in 0..10u32 {
        cache.store(&format!("host{}", i), Arc::new(i), 0);
    }
    assert_eq!(cache.len(), 10);
    assert_eq!(names(&cache)[0], "host0");
    assert_eq!(names(&cache)[9], "host9");
}

#[test]
fn eleventh_distinct_domain_evicts_the_oldest() {
    let mut cache: CredentialCache<u32> = CredentialCache::new();
    for i in 0..11u32 {
        cache.store(&format!("host{}", i), Arc::new(i), 0);
    }
    assert_eq!(cache.len(), 10);
    let expected: Vec<String> = (1..11u32).map(|i| format!("host{}", i)).collect();
    assert_eq!(names(&cache), expected);
    assert!(cache.lookup("host0", 1).is_none());
    assert_eq!(cache.lookup("host1", 1).map(|c| *c), Some(1));
}

#[test]
fn capacity_is_never_exceeded() {
    let mut cache: CredentialCache<u32> = CredentialCache::new();
    for i in 0..35u32 {
        cache.store(&format!("host{}", i), Arc::new(i), u64::from(i));
        assert!(cache.len() <= 10);
    }
    let expected: Vec<String> = (25..35u32).map(|i| format!("host{}", i)).collect();
    assert_eq!(names(&cache), expected);
}

#[test]
fn replacing_in_a_full_cache_evicts_nothing_else() {
    let mut cache: CredentialCache<u32> = CredentialCache::new();
    for i in 0..10u32 {
        cache.store(&format!("host{}", i), Arc::new(i), 0);
    }
    cache.store("host4", Arc::new(40), 1);
    assert_eq!(cache.len(), 10);
    let mut expected: Vec<String> =
        (0..10u32).filter(|i| *i != 4).map(|i| format!("host{}", i)).collect();
    expected.push("host4".to_string());
    assert_eq!(names(&cache), expected);
}

#[test]
fn refreshed_entry_outlives_older_ones_on_eviction() {
    let mut cache: CredentialCache<u32> = CredentialCache::new();
    for i in 0..10u32 {
        cache.store(&format!("host{}", i), Arc::new(i), 0);
    }
    assert!(cache.lookup("host0", 1).is_some());
    cache.store("late", Arc::new(99), 2);
    assert_eq!(names(&cache)[0], "host2");
    assert!(cache.lookup("host1", 3).is_none());
    assert_eq!(cache.lookup("host0", 3).map(|c| *c), Some(0));
}

#[test]
fn clock_that_runs_backwards_keeps_the_entry_fresh() {
    let mut cache: CredentialCache<u32> = CredentialCache::new();
    cache.store("example.org", Arc::new(1), 1_000_000);
    assert_eq!(cache.lookup("example.org", 5).map(|c| *c), Some(1));
    // refreshed at 5: expires at 605
    assert!(cache.lookup("example.org", 605).is_none());
}

#[test]
fn latest_timestamps_do_not_overflow() {
    let mut cache: CredentialCache<u32> = CredentialCache::new();
    cache.store("example.org", Arc::new(1), u64::MAX);
    assert_eq!(cache.lookup("example.org", u64::MAX).map(|c| *c), Some(1));
    cache.store("other.example", Arc::new(2), u64::MAX - 600);
    assert!(cache.lookup("other.example", u64::MAX).is_none());
    assert_eq!(cache.lookup("example.org", u64::MAX - 1).map(|c| *c), Some(1));
}

#[test]
fn domains_are_compared_exactly() {
    let mut cache: CredentialCache<u32> = CredentialCache::new();
    cache.store("Example.org", Arc::new(1), 0);
    assert!(cache.lookup("example.org", 1).is_none());
    assert!(cache.lookup("Example.org.", 1).is_none());
    assert!(cache.lookup("", 1).is_none());
    assert!(cache.lookup("Example.org", 1).is_some());
}

#[test]
fn empty_domain_is_a_domain_like_any_other() {
    let mut cache: CredentialCache<u32> = CredentialCache::new();
    cache.store("", Arc::new(5), 0);
    assert_eq!(cache.lookup("", 1).map(|c| *c), Some(5));
}
