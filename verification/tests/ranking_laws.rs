use meteor_history::browser::Browser;
use meteor_history::browser::HistoryEntry;
use meteor_history::ranking::RANK_LIMIT;
use meteor_history::ranking::age_days;
use meteor_history::ranking::calculate_frecency;
use meteor_history::ranking::rank;

const NOW: u64 = 1_700_000_000;
const DAY: u64 = 86_400;

fn entry(url: &str, visit_count: i64, typed_count: i64, last_visit_time: i64) -> HistoryEntry {
    HistoryEntry {
        browser: Browser::Chrome,
        id: String::from(url),
        url: String::from(url),
        title: String::new(),
        visit_count,
        typed_count,
        last_visit_time,
    }
}

#[test]
fn age_is_whole_days_truncated() {
    assert_eq!(age_days(NOW, NOW as i64), 0);
    assert_eq!(age_days(NOW, (NOW - 5 * DAY) as i64), 5);
    assert_eq!(age_days(NOW, (NOW - 6 * DAY + 1) as i64), 5);
}

#[test]
fn future_visits_have_age_zero() {
    assert_eq!(age_days(NOW, (NOW + 1) as i64), 0);
    assert_eq!(age_days(NOW, (NOW + 1000 * DAY) as i64), 0);
}

#[test]
fn ancient_negative_timestamps_age_without_panicking() {
    assert_eq!(age_days(NOW, -(DAY as i64)), (NOW / DAY + 1) as u64);
}

#[test]
fn score_scenario_typical_entry_included() {
    // visit_count=10, typed_count=2, five days old:
    // 10*0.8 + 2*0.1 - 5*0.1 = 7.7 points, i.e. 77 tenths.
    let e = entry("a", 10, 2, (NOW - 5 * DAY) as i64);
    assert_eq!(calculate_frecency(&e, NOW), 77);
    let out = rank(vec![e], NOW);
    assert_eq!(out.len(), 1);
}

#[test]
fn score_scenario_untyped_entry_excluded() {
    // visit_count=1 but typed_count=0: score is exactly 0 and the entry
    // is excluded, however recent it is.
    let e = entry("a", 1, 0, NOW as i64);
    assert_eq!(calculate_frecency(&e, NOW), 0);
    assert!(rank(vec![e], NOW).is_empty());
}

#[test]
fn score_scenario_stale_entry_clamped_to_zero() {
    // 1000 days old: 0.8 + 0.1 - 100 is negative, clamped to exactly 0,
    // hence excluded.
    let e = entry("a", 1, 1, (NOW - 1000 * DAY) as i64);
    assert_eq!(calculate_frecency(&e, NOW), 0);
    assert!(rank(vec![e], NOW).is_empty());
}

#[test]
fn nonpositive_counts_always_score_zero() {
    assert_eq!(calculate_frecency(&entry("a", 0, 5, NOW as i64), NOW), 0);
    assert_eq!(calculate_frecency(&entry("b", -3, 5, NOW as i64), NOW), 0);
    assert_eq!(calculate_frecency(&entry("c", 5, 0, NOW as i64), NOW), 0);
    assert_eq!(calculate_frecency(&entry("d", 5, -1, NOW as i64), NOW), 0);
}

#[test]
fn scoring_is_idempotent() {
    let e = entry("a", 42, 7, (NOW - 3 * DAY) as i64);
    let first = calculate_frecency(&e, NOW);
    let second = calculate_frecency(&e, NOW);
    assert_eq!(first, second);
}

#[test]
fn ranked_output_is_bounded() {
    // 20 qualifying entries, but at most RANK_LIMIT survive.
    let mut entries = Vec::new();
    for i in 0..20 {
        entries.push(entry(&format!("u{}", i), 10 + i, 2, (NOW - DAY) as i64));
    }
    let out = rank(entries, NOW);
    assert_eq!(out.len(), RANK_LIMIT);
    assert_eq!(RANK_LIMIT, 11);
}

#[test]
fn ranked_output_is_sorted_descending() {
    let entries = vec![
        entry("low", 2, 1, (NOW - DAY) as i64),
        entry("high", 100, 9, NOW as i64),
        entry("mid", 10, 3, (NOW - 2 * DAY) as i64),
        entry("gone", 0, 9, NOW as i64),
    ];
    let out = rank(entries, NOW);
    let urls: Vec<&str> = out.iter().map(|e| e.url.as_str()).collect();
    assert_eq!(urls, vec!["high", "mid", "low"]);
    for pair in out.windows(2) {
        assert!(calculate_frecency(&pair[0], NOW) >= calculate_frecency(&pair[1], NOW));
    }
}

#[test]
fn ranking_keeps_the_highest_scores() {
    let mut entries = Vec::new();
    for i in 0..15 {
        // Scores rise with i: the last 11 entries must be the survivors.
        entries.push(entry(&format!("u{}", i), 1 + i, 1, NOW as i64));
    }
    let out = rank(entries, NOW);
    assert_eq!(out.len(), 11);
    let urls: Vec<&str> = out.iter().map(|e| e.url.as_str()).collect();
    assert_eq!(
        urls,
        vec!["u14", "u13", "u12", "u11", "u10", "u9", "u8", "u7", "u6", "u5", "u4"]
    );
}

#[test]
fn ties_keep_collation_order() {
    let entries = vec![
        entry("first", 5, 2, NOW as i64),
        entry("second", 5, 2, NOW as i64),
        entry("third", 5, 2, NOW as i64),
    ];
    let out = rank(entries, NOW);
    let urls: Vec<&str> = out.iter().map(|e| e.url.as_str()).collect();
    assert_eq!(urls, vec!["first", "second", "third"]);
}

#[test]
fn ranking_empty_input_is_empty() {
    assert!(rank(Vec::new(), NOW).is_empty());
}
