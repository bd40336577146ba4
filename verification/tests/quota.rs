use webhooks_receiver::quota::{
    check_and_decrement, plan_quota_write, quota_eviction_keys, quota_key, set_if_absent,
    slug_quota_key, ttl_reading, user_quota_key, QuotaEntry, QuotaResult,
};

fn entry(remaining: Option<i64>, unlimited: bool) -> QuotaEntry {
    QuotaEntry {
        remaining,
        limit: 100,
        period_end: 1_800_000_000_000,
        is_unlimited: unlimited,
        user_id: "u1".to_string(),
        ttl_secs: 300,
    }
}

#[test]
fn check_codes_read_as_results() {
    assert_eq!(QuotaResult::from_code(Some(1)), QuotaResult::Allowed);
    assert_eq!(QuotaResult::from_code(Some(0)), QuotaResult::Exceeded);
    assert_eq!(QuotaResult::from_code(Some(-1)), QuotaResult::NotFound);
    assert_eq!(QuotaResult::from_code(Some(7)), QuotaResult::NotFound);
    assert_eq!(QuotaResult::from_code(None), QuotaResult::NotFound);
}

#[test]
fn missing_key_is_not_found() {
    let mut cell: Option<QuotaEntry> = None;
    assert_eq!(check_and_decrement(&mut cell), -1);
    assert!(cell.is_none());
}

#[test]
fn unlimited_quota_allows_without_counting() {
    let mut cell = Some(entry(Some(-1), true));
    for _ in 0..3 {
        assert_eq!(check_and_decrement(&mut cell), 1);
    }
    assert_eq!(cell.unwrap().remaining, Some(-1));
}

#[test]
fn missing_remaining_is_not_found() {
    let mut cell = Some(entry(None, false));
    assert_eq!(check_and_decrement(&mut cell), -1);
    assert_eq!(cell.unwrap().remaining, None);
}

#[test]
fn exhausted_quota_is_exceeded_and_unchanged() {
    let mut cell = Some(entry(Some(0), false));
    assert_eq!(check_and_decrement(&mut cell), 0);
    assert_eq!(cell.as_ref().unwrap().remaining, Some(0));
    let mut negative = Some(entry(Some(-5), false));
    assert_eq!(check_and_decrement(&mut negative), 0);
    assert_eq!(negative.unwrap().remaining, Some(-5));
}

#[test]
fn exactly_min_of_checks_and_remaining_are_allowed() {
    for (k, r) in [(5usize, 3i64), (3, 5), (4, 4), (1, 1), (10, 1)] {
        let mut cell = Some(entry(Some(r), false));
        let mut allowed = 0;
        let mut exceeded = 0;
        for i in 0..k {
            if i % 2 == 1 {
                assert_eq!(set_if_absent(&mut cell, entry(Some(1000), false)), 0);
            }
            match QuotaResult::from_code(Some(check_and_decrement(&mut cell))) {
                QuotaResult::Allowed => allowed += 1,
                QuotaResult::Exceeded => exceeded += 1,
                QuotaResult::NotFound => panic!("the key is there"),
            }
        }
        let expected = std::cmp::min(k as i64, r);
        assert_eq!(allowed, expected);
        assert_eq!(exceeded, k as i64 - expected);
        assert_eq!(cell.unwrap().remaining, Some(r - expected));
    }
}

#[test]
fn first_write_wins() {
    let mut cell: Option<QuotaEntry> = None;
    assert_eq!(set_if_absent(&mut cell, entry(Some(10), false)), 1);
    assert_eq!(check_and_decrement(&mut cell), 1);
    assert_eq!(set_if_absent(&mut cell, entry(Some(10), false)), 0);
    assert_eq!(cell.unwrap().remaining, Some(9));
}

#[test]
fn keys_are_per_user_where_a_user_is_known() {
    assert_eq!(slug_quota_key("abc"), "quota:abc");
    assert_eq!(user_quota_key("u1"), "quota:user:u1");
    assert_eq!(quota_key("abc", Some("u1")), "quota:user:u1");
    assert_eq!(quota_key("abc", Some("")), "quota:abc");
    assert_eq!(quota_key("abc", None), "quota:abc");
}

#[test]
fn write_of_a_user_quota_points_the_slug_to_the_user() {
    let w = plan_quota_write("abc", 10, 100, 1_800_000_000_000, false, "u1", 300);
    assert_eq!(w.key, "quota:user:u1");
    assert_eq!(w.pointer_key.as_deref(), Some("quota:abc"));
    assert_eq!(w.entry.remaining, Some(10));
    assert_eq!(w.entry.limit, 100);
    assert_eq!(w.entry.period_end, 1_800_000_000_000);
    assert!(!w.entry.is_unlimited);
    assert_eq!(w.entry.user_id, "u1");
    assert_eq!(w.entry.ttl_secs, 300);
}

#[test]
fn write_of_a_slug_quota_has_no_pointer() {
    let w = plan_quota_write("abc", -1, 0, 0, true, "", 60);
    assert_eq!(w.key, "quota:abc");
    assert!(w.pointer_key.is_none());
    assert!(w.entry.is_unlimited);
    assert_eq!(w.entry.user_id, "");
}

#[test]
fn eviction_names_the_slug_and_the_user_it_points_to() {
    assert_eq!(quota_eviction_keys("abc", None), vec!["quota:abc".to_string()]);
    assert_eq!(quota_eviction_keys("abc", Some("")), vec!["quota:abc".to_string()]);
    assert_eq!(
        quota_eviction_keys("abc", Some("u1")),
        vec!["quota:abc".to_string(), "quota:user:u1".to_string()]
    );
}

#[test]
fn negative_time_to_live_means_no_key() {
    assert_eq!(ttl_reading(Some(-2)), None);
    assert_eq!(ttl_reading(Some(-1)), None);
    assert_eq!(ttl_reading(Some(0)), Some(0));
    assert_eq!(ttl_reading(Some(299)), Some(299));
    assert_eq!(ttl_reading(None), None);
}
