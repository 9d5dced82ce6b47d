use azure_aitoolsconnect::auth::token_cache::{CachedTokenEntry, TokenCacheFile};
use azure_aitoolsconnect::time::Timestamp;
use chrono::Utc;

fn stamp(t: chrono::DateTime<Utc>) -> Timestamp {
    Timestamp::new(t.timestamp(), t.timestamp_subsec_nanos())
}

#[test]
fn test_cached_token_valid() {
    let entry = CachedTokenEntry {
        access_token: "test".to_string(),
        expires_at: stamp(Utc::now() + chrono::Duration::hours(1)),
        scope: "scope".to_string(),
        tenant_id: "tenant".to_string(),
    };
    assert!(entry.is_valid());
    assert!(entry.remaining_minutes() > 50);
}

#[test]
fn test_cached_token_expired() {
    let entry = CachedTokenEntry {
        access_token: "test".to_string(),
        expires_at: stamp(Utc::now() - chrono::Duration::hours(1)),
        scope: "scope".to_string(),
        tenant_id: "tenant".to_string(),
    };
    assert!(!entry.is_valid());
}

#[test]
fn test_cache_insert_and_lookup() {
    let mut cache = TokenCacheFile::default();
    let entry = CachedTokenEntry {
        access_token: "token1".to_string(),
        expires_at: stamp(Utc::now() + chrono::Duration::hours(1)),
        scope: "scope1".to_string(),
        tenant_id: "tenant1".to_string(),
    };
    cache.insert(entry);
    assert!(cache.get_valid_token("scope1", "tenant1").is_some());
    assert!(cache.get_valid_token("scope2", "tenant1").is_none());
}

#[test]
fn test_cache_insert_replaces_existing() {
    let mut cache = TokenCacheFile::default();
    let entry1 = CachedTokenEntry {
        access_token: "old-token".to_string(),
        expires_at: stamp(Utc::now() + chrono::Duration::hours(1)),
        scope: "scope".to_string(),
        tenant_id: "tenant".to_string(),
    };
    cache.insert(entry1);

    let entry2 = CachedTokenEntry {
        access_token: "new-token".to_string(),
        expires_at: stamp(Utc::now() + chrono::Duration::hours(1)),
        scope: "scope".to_string(),
        tenant_id: "tenant".to_string(),
    };
    cache.insert(entry2);

    assert_eq!(cache.tokens.len(), 1);
    assert_eq!(cache.get_valid_token("scope", "tenant").unwrap().access_token, "new-token");
}

#[test]
fn test_cache_prunes_expired_on_lookup() {
    let cache = TokenCacheFile {
        tokens: vec![CachedTokenEntry {
            access_token: "expired".to_string(),
            expires_at: stamp(Utc::now() - chrono::Duration::hours(1)),
            scope: "scope".to_string(),
            tenant_id: "tenant".to_string(),
        }],
    };
    assert!(cache.get_valid_token("scope", "tenant").is_none());
}

fn entry(token: &str, scope: &str, tenant: &str, expires: i64) -> CachedTokenEntry {
    CachedTokenEntry {
        access_token: token.to_string(),
        expires_at: Timestamp::new(expires, 0),
        scope: scope.to_string(),
        tenant_id: tenant.to_string(),
    }
}

#[test]
fn validity_at_the_boundary() {
    let now = Timestamp::new(1_000, 500);
    for buffer in [0u64, 1, 60, 3600] {
        let at = 1_000 + buffer as i64;
        // expires_at = now + B
        let on = CachedTokenEntry { expires_at: Timestamp::new(at, 500), ..entry("t", "s", "x", 0) };
        assert!(!on.is_valid_at(&now, buffer));
        // expires_at = now + B + 1s
        let after = CachedTokenEntry { expires_at: Timestamp::new(at + 1, 500), ..entry("t", "s", "x", 0) };
        assert!(after.is_valid_at(&now, buffer));
        // expires_at = now + B - 1s
        let before = CachedTokenEntry { expires_at: Timestamp::new(at - 1, 500), ..entry("t", "s", "x", 0) };
        assert!(!before.is_valid_at(&now, buffer));
        // one nanosecond decides
        let just = CachedTokenEntry { expires_at: Timestamp::new(at, 501), ..entry("t", "s", "x", 0) };
        assert!(just.is_valid_at(&now, buffer));
    }
}

#[test]
fn remaining_minutes_round_toward_zero() {
    let e = entry("t", "s", "x", 10_000);
    assert_eq!(e.remaining_minutes_at(&Timestamp::new(10_000, 0)), 0);
    assert_eq!(e.remaining_minutes_at(&Timestamp::new(9_941, 0)), 0);
    assert_eq!(e.remaining_minutes_at(&Timestamp::new(9_940, 0)), 1);
    assert_eq!(e.remaining_minutes_at(&Timestamp::new(9_939, 999_999_999)), 1);
    assert_eq!(e.remaining_minutes_at(&Timestamp::new(6_400, 0)), 60);
    assert_eq!(e.remaining_minutes_at(&Timestamp::new(10_059, 0)), 0);
    assert_eq!(e.remaining_minutes_at(&Timestamp::new(10_060, 0)), -1);
    assert_eq!(e.remaining_minutes_at(&Timestamp::new(10_119, 999_999_999)), -1);
    // The same arithmetic as the calendar library's.
    let a = chrono::DateTime::from_timestamp(10_000, 0).unwrap();
    let b = chrono::DateTime::from_timestamp(10_119, 999_999_999).unwrap();
    assert_eq!((a - b).num_minutes(), -1);
}

#[test]
fn insert_replaces_entry_with_same_key() {
    let mut cache = TokenCacheFile {
        tokens: vec![
            entry("a", "scope", "t1", 9_000),
            entry("b", "scope", "t2", 9_000),
            entry("c", "other", "t1", 9_000),
        ],
    };
    cache.insert(entry("a2", "scope", "t1", 9_500));
    let tokens: Vec<&str> = cache.tokens.iter().map(|t| t.access_token.as_str()).collect();
    assert_eq!(tokens, vec!["b", "c", "a2"]);
    let now = Timestamp::new(0, 0);
    assert_eq!(cache.get_valid_token_at("scope", "t1", &now).unwrap().access_token, "a2");
    assert_eq!(cache.get_valid_token_at("scope", "t2", &now).unwrap().access_token, "b");
    assert_eq!(cache.get_valid_token_at("other", "t1", &now).unwrap().access_token, "c");
    assert!(cache.get_valid_token_at("other", "t2", &now).is_none());
    // The latest value is the only one, even when it has expired.
    cache.insert(entry("a3", "scope", "t1", 10));
    assert_eq!(cache.tokens.len(), 3);
    assert!(cache.get_valid_token_at("scope", "t1", &now).is_none());
    // Duplicates that were there before all leave.
    let mut doubled = TokenCacheFile {
        tokens: vec![entry("x", "s", "t", 9_000), entry("y", "s", "t", 9_000)],
    };
    doubled.insert(entry("z", "s", "t", 9_000));
    assert_eq!(doubled.tokens.len(), 1);
    assert_eq!(doubled.tokens[0].access_token, "z");
}

#[test]
fn load_drops_expired_entries() {
    let now = Timestamp::new(1_000, 0);
    let cache = TokenCacheFile::load_at(
        vec![
            entry("gone", "s", "t1", 1_060),
            entry("kept", "s", "t2", 1_061),
            entry("old", "s", "t3", 0),
        ],
        &now,
    );
    assert_eq!(cache.tokens.len(), 1);
    assert_eq!(cache.tokens[0].access_token, "kept");

    let empty = TokenCacheFile::load_at(
        vec![entry("a", "s", "t1", 1_000), entry("b", "s", "t2", 999), entry("c", "s", "t1", 1_060)],
        &now,
    );
    assert!(empty.tokens.is_empty());
    for (scope, tenant) in [("s", "t1"), ("s", "t2"), ("x", "y")] {
        assert!(empty.get_valid_token_at(scope, tenant, &Timestamp::new(0, 0)).is_none());
        assert!(empty.get_valid_token(scope, tenant).is_none());
    }
    let long_ago = "{\"tokens\":[{\"access_token\":\"a\",\"expires_at\":\"1970-01-01T00:16:40Z\",\"scope\":\"s\",\"tenant_id\":\"t1\"}]}";
    let by_clock = TokenCacheFile::load(Some(long_ago)).unwrap();
    assert!(by_clock.tokens.is_empty());
    assert!(TokenCacheFile::load(None).unwrap().tokens.is_empty());
    assert!(TokenCacheFile::default().tokens.is_empty());
}

#[test]
fn issued_entry() {
    let now = Timestamp::new(100, 7);
    let e = CachedTokenEntry::issued("t".into(), "s".into(), "x".into(), &now, 3600).unwrap();
    assert_eq!(e.expires_at, Timestamp::new(3700, 7));
    assert_eq!(e.scope, "s");
    assert_eq!(e.tenant_id, "x");
    assert!(CachedTokenEntry::issued("t".into(), "s".into(), "x".into(), &now, u64::MAX).is_none());
    let late = Timestamp::new(i64::MAX, 0);
    assert!(CachedTokenEntry::issued("t".into(), "s".into(), "x".into(), &late, 1).is_none());
    assert!(CachedTokenEntry::issued("t".into(), "s".into(), "x".into(), &late, 0).is_none());
    // The last second of the year 9999 is the last expiry that is valid.
    let last = Timestamp::new(253_402_300_799, 999_999_999);
    assert!(last.is_valid());
    assert!(!Timestamp::new(253_402_300_800, 0).is_valid());
    assert!(Timestamp::new(-62_167_219_200, 0).is_valid());
    assert!(!Timestamp::new(-62_167_219_201, 0).is_valid());
    assert!(!Timestamp::new(0, 1_000_000_000).is_valid());
    let e = CachedTokenEntry::issued("t".into(), "s".into(), "x".into(), &now, 253_402_300_699)
        .unwrap();
    assert_eq!(e.expires_at.secs, 253_402_300_799);
    assert!(CachedTokenEntry::issued("t".into(), "s".into(), "x".into(), &now, 253_402_300_700)
        .is_none());
    assert!(CachedTokenEntry::issued(
        "t".into(),
        "s".into(),
        "x".into(),
        &Timestamp::new(0, 1_000_000_000),
        1
    )
    .is_none());
    // What is issued can be written, and what is written at the ends of
    // the calendar is read back.
    let ends = TokenCacheFile {
        tokens: vec![
            e,
            CachedTokenEntry {
                access_token: "a".into(),
                expires_at: Timestamp::new(-62_167_219_200, 0),
                scope: "s".into(),
                tenant_id: "y".into(),
            },
        ],
    };
    let text = ends.encode().unwrap();
    assert!(text.contains("\"9999-12-31T23:59:59.000000007Z\""));
    assert!(text.contains("\"0000-01-01T00:00:00Z\""));
    let back = TokenCacheFile::decode(&text).unwrap();
    assert_eq!(back[0].expires_at, Timestamp::new(253_402_300_799, 7));
    assert_eq!(back[1].expires_at, Timestamp::new(-62_167_219_200, 0));
}

#[test]
fn cache_location() {
    let unix = TokenCacheFile::cache_location(false);
    assert_eq!(unix.base_variable, "HOME");
    assert_eq!(unix.directories, vec![".cache", "azure-aitoolsconnect"]);
    assert_eq!(unix.file_name, "tokens.json");
    let windows = TokenCacheFile::cache_location(true);
    assert_eq!(windows.base_variable, "LOCALAPPDATA");
    assert_eq!(windows.directories, vec!["azure-aitoolsconnect"]);
    assert_eq!(windows.file_name, "tokens.json");
}
