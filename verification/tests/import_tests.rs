use gacha_stats::import::{
    classify_kind, select_new_pulls, utc_offset_seconds, ImportError, PullKind, RawPull,
};

fn raw(kind: &str, item: &str, time: &str) -> RawPull {
    RawPull { kind: kind.to_owned(), item: item.to_owned(), time: time.to_owned() }
}

#[test]
fn kind_tags_classify_exactly() {
    assert_eq!(classify_kind(&"character".to_owned()), Some(PullKind::Character));
    assert_eq!(classify_kind(&"weapon".to_owned()), Some(PullKind::Weapon));
    assert_eq!(classify_kind(&"Character".to_owned()), None);
    assert_eq!(classify_kind(&"".to_owned()), None);
}

#[test]
fn uid_first_digit_picks_server_offset() {
    assert_eq!(utc_offset_seconds(600000001), -18000);
    assert_eq!(utc_offset_seconds(700000001), 3600);
    assert_eq!(utc_offset_seconds(800000001), 28800);
    assert_eq!(utc_offset_seconds(123456789), 28800);
    assert_eq!(utc_offset_seconds(6), -18000);
    assert_eq!(utc_offset_seconds(0), 28800);
    assert_eq!(utc_offset_seconds(-600000001), 28800);
}

#[test]
fn times_parse_to_offset_adjusted_epochs() {
    // 2024-01-01 00:00:00 UTC is epoch 1704067200; the Asian servers
    // run at UTC+8, so the local reading is 28800 seconds ahead.
    let feed = vec![
        raw("character", "venti", "2024-01-01 00:00:00"),
        raw("weapon", "jade_cutter", "2023-12-31 23:59:59"),
    ];
    let rows = select_new_pulls(&feed, 800000001, None).expect("well-formed feed");
    assert_eq!(rows.len(), 2);
    assert_eq!(rows[0].index, 0);
    assert_eq!(rows[0].kind, PullKind::Character);
    assert_eq!(rows[0].item, "venti");
    assert_eq!(rows[0].timestamp, 1704067200 - 28800);
    assert_eq!(rows[1].index, 1);
    assert_eq!(rows[1].kind, PullKind::Weapon);
    assert_eq!(rows[1].item, "jade_cutter");
    assert_eq!(rows[1].timestamp, 1704067199 - 28800);
}

#[test]
fn american_server_offset_is_subtracted() {
    let feed = vec![raw("character", "venti", "2024-01-01 00:00:00")];
    let rows = select_new_pulls(&feed, 600000001, None).expect("well-formed feed");
    // UTC-5: the local reading lags UTC, so the epoch moves forward.
    assert_eq!(rows[0].timestamp, 1704067200 + 18000);
}

#[test]
fn cutoff_keeps_only_strictly_older_pulls() {
    let feed = vec![raw("character", "venti", "2024-01-01 00:00:00")];
    let ts = 1704067200 - 28800;
    // At the frontier exactly: not strictly older, nothing is new.
    let rows = select_new_pulls(&feed, 800000001, Some(ts)).expect("well-formed feed");
    assert!(rows.is_empty());
    // One second past the frontier: the pull is new.
    let rows = select_new_pulls(&feed, 800000001, Some(ts + 1)).expect("well-formed feed");
    assert_eq!(rows.len(), 1);
}

#[test]
fn selection_stops_at_first_non_older_pull() {
    // The feed is walked front to back and cut at the first pull that
    // is not strictly older than the frontier, even if older pulls
    // follow it.
    let feed = vec![
        raw("character", "a", "2023-01-01 00:00:00"),
        raw("character", "b", "2024-01-01 00:00:00"),
        raw("character", "c", "2022-01-01 00:00:00"),
    ];
    let cutoff = 1704067200 - 28800; // 2024-01-01 00:00:00 local, adjusted
    let rows = select_new_pulls(&feed, 800000001, Some(cutoff)).expect("well-formed feed");
    assert_eq!(rows.len(), 1);
    assert_eq!(rows[0].item, "a");
}

#[test]
fn unknown_kind_rejects_the_feed() {
    let feed = vec![
        raw("character", "venti", "2024-01-01 00:00:00"),
        raw("standard", "venti", "2024-01-01 00:00:00"),
    ];
    assert_eq!(select_new_pulls(&feed, 800000001, None), Err(ImportError::UnknownKind));
}

#[test]
fn malformed_time_rejects_the_feed() {
    let feed = vec![raw("weapon", "jade_cutter", "yesterday at noon")];
    assert_eq!(select_new_pulls(&feed, 800000001, None), Err(ImportError::BadTimestamp));
    let feed = vec![raw("weapon", "jade_cutter", "2024-13-40 00:00:00")];
    assert_eq!(select_new_pulls(&feed, 800000001, None), Err(ImportError::BadTimestamp));
}

#[test]
fn empty_feed_selects_nothing() {
    let feed: Vec<RawPull> = Vec::new();
    let rows = select_new_pulls(&feed, 800000001, Some(0)).expect("empty feed");
    assert!(rows.is_empty());
}
