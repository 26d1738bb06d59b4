use std::rc::Rc;

use cavea::cache::Cache;
use cavea::token::RawSyntaxTokenData;
use cavea::token::SyntaxTokenKind;

#[test]
fn test_cache_idempotence() {
    let mut cache: Cache<String, u64> = Cache::new();
    let first = cache.lookup(String::from("k"), 1);
    assert_eq!(first, 1);
    // A second lookup of the same key returns the first stored value, not
    // the replacement candidate.
    let second = cache.lookup(String::from("k"), 2);
    assert_eq!(second, 1);
    let third = cache.lookup(String::from("k"), 3);
    assert_eq!(third, 1);
}

#[test]
fn test_cache_distinct_keys() {
    let mut cache: Cache<String, u64> = Cache::new();
    assert_eq!(cache.lookup(String::from("a"), 10), 10);
    assert_eq!(cache.lookup(String::from("b"), 20), 20);
    // Neither key disturbs the other's binding.
    assert_eq!(cache.lookup(String::from("a"), 99), 10);
    assert_eq!(cache.lookup(String::from("b"), 99), 20);
}

#[test]
fn test_cache_shares_one_record() {
    let mut cache: Cache<String, Rc<RawSyntaxTokenData>> = Cache::new();
    let first = cache.lookup(
        String::from("1"),
        Rc::new(RawSyntaxTokenData::new(SyntaxTokenKind::Identifier, String::from("1"))),
    );
    let again = cache.lookup(
        String::from("1"),
        Rc::new(RawSyntaxTokenData::new(SyntaxTokenKind::Identifier, String::from("1"))),
    );
    // Same key: one canonical shared record, not a reconstruction.
    assert!(Rc::ptr_eq(&first, &again));

    let other = cache.lookup(
        String::from("2"),
        Rc::new(RawSyntaxTokenData::new(SyntaxTokenKind::Identifier, String::from("2"))),
    );
    // Distinct keys never alias one stored record.
    assert!(!Rc::ptr_eq(&first, &other));
}

#[test]
fn test_cache_empty_key() {
    let mut cache: Cache<String, u64> = Cache::new();
    assert_eq!(cache.lookup(String::new(), 7), 7);
    assert_eq!(cache.lookup(String::new(), 8), 7);
}
