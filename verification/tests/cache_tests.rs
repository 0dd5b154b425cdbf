use term_core::cache::{SudoCache, DEFAULT_TTL_MINUTES};

#[test]
fn new_cache_vouches_for_nothing() {
    let c = SudoCache::new();
    assert!(!c.is_valid(0));
    assert!(!c.is_valid(u64::MAX));
    assert_eq!(DEFAULT_TTL_MINUTES, 15);
}

#[test]
fn grant_is_valid_at_once_and_until_the_ttl_has_passed() {
    let mut c = SudoCache::new();
    c.record_success(1_000);
    assert!(c.is_valid(1_000));
    assert!(c.is_valid(1_000 + 15 * 60 - 1));
    assert!(!c.is_valid(1_000 + 15 * 60));
    assert!(!c.is_valid(u64::MAX));
}

#[test]
fn sweep_removes_only_what_has_expired() {
    let mut c = SudoCache::new();
    c.record_success(1_000);
    c.sweep(15, 1_000 + 15 * 60 - 1);
    assert!(c.is_valid(1_000));
    c.sweep(15, 1_000 + 15 * 60);
    assert!(!c.is_valid(1_000));
    assert!(!c.is_valid(1_000 + 1));
}

#[test]
fn sweep_goes_by_its_own_ttl() {
    let mut c = SudoCache::with_ttl(60);
    c.record_success(0);
    assert!(c.is_valid(3_599));
    c.sweep(15, 900);
    assert!(!c.is_valid(0));
    let mut c = SudoCache::with_ttl(1);
    c.record_success(0);
    c.sweep(60, 120);
    assert!(c.is_valid(59));
    assert!(!c.is_valid(60));
}

#[test]
fn refresh_starts_the_window_afresh() {
    let mut c = SudoCache::new();
    c.record_success(0);
    c.record_success(800);
    assert!(c.is_valid(900));
    assert!(c.is_valid(800 + 899));
    assert!(!c.is_valid(800 + 900));
}

#[test]
fn clear_forgets_the_grant() {
    let mut c = SudoCache::new();
    c.record_success(5);
    c.clear();
    assert!(!c.is_valid(5));
    c.sweep(15, 5);
    assert!(!c.is_valid(5));
}

#[test]
fn edges_of_the_window() {
    let mut c = SudoCache::with_ttl(0);
    c.record_success(10);
    assert!(!c.is_valid(10));
    let mut c = SudoCache::with_ttl(u64::MAX);
    c.record_success(0);
    assert!(c.is_valid(u64::MAX));
    // a clock that went back does not end the window
    let mut c = SudoCache::new();
    c.record_success(1_000);
    assert!(c.is_valid(999));
    c.sweep(15, 0);
    assert!(c.is_valid(1_000));
}
