use catalyst::listing::{
    anchor_from_row, choose_candidates, pick_candidates, collect_posts, contains_str, entry_from_row, explore_limit,
    legacy_listing_or_default, limit_posts, listable_anchor_dirs, listable_post_dirs, listing_limits,
    post_from_rows, post_not_found_message, recency_window_secs,
};
use catalyst::model::{LegacyPost, Post};

fn cells(v: &[Option<&str>]) -> Vec<Option<String>> {
    v.iter().map(|c| c.map(|s| s.to_string())).collect()
}

fn post(title: &str) -> Post {
    Post {
        title: title.to_string(),
        author: "a".to_string(),
        content: "c".to_string(),
        signature: "s".to_string(),
    }
}

#[test]
fn row_fields_read_with_stand_in_text() {
    let row = cells(&[Some("id1"), None, Some("t"), None, Some("c"), Some("s")]);
    let (id, p) = entry_from_row(&row);
    assert_eq!(id, "id1");
    assert_eq!(p.title, "t");
    assert_eq!(p.author, "INVALID CONTENT");
    assert_eq!(p.content, "c");
    assert_eq!(p.signature, "s");
}

#[test]
fn anchor_row_skips_validity() {
    let a = anchor_from_row(&cells(&[Some("l"), None, Some("p"), Some("r"), Some("q")]));
    assert_eq!((a.link_id, a.post_id, a.reference, a.referencing_post_id), (
        "l".to_string(),
        "p".to_string(),
        "r".to_string(),
        "q".to_string(),
    ));
}

#[test]
fn lookup_answers_with_first_row() {
    assert!(post_from_rows(&vec![]).is_none());
    let rows = vec![
        cells(&[Some("id"), None, Some("first"), Some("a"), Some("c"), Some("s")]),
        cells(&[Some("id"), None, Some("second"), Some("a"), Some("c"), Some("s")]),
    ];
    assert_eq!(post_from_rows(&rows).unwrap().title, "first");
    assert_eq!(post_not_found_message("xy"), "Post with ID xy not found");
}

#[test]
fn later_entries_replace_earlier_ones() {
    let r = collect_posts(vec![
        ("a".to_string(), post("1")),
        ("b".to_string(), post("2")),
        ("a".to_string(), post("3")),
    ]);
    assert_eq!(r.len(), 2);
    let a = r.iter().find(|e| e.0 == "a").unwrap();
    assert_eq!(a.1.title, "3");
    let b = r.iter().find(|e| e.0 == "b").unwrap();
    assert_eq!(b.1.title, "2");
}

#[test]
fn listing_is_limited() {
    let entries = || vec![
        ("a".to_string(), post("1")),
        ("b".to_string(), post("2")),
        ("c".to_string(), post("3")),
        ("a".to_string(), post("4")),
    ];
    assert_eq!(limit_posts(entries(), 2).len(), 2);
    assert_eq!(limit_posts(entries(), 10).len(), 3);
    assert_eq!(limit_posts(entries(), 0).len(), 0);
}

#[test]
fn listing_defaults() {
    assert_eq!(listing_limits(None, None), (10, 7));
    assert_eq!(listing_limits(Some(3), Some(30)), (3, 30));
}

#[test]
fn explore_limit_wraps_like_a_byte_cast() {
    assert_eq!(explore_limit(10), 10);
    assert_eq!(explore_limit(300), 44);
    assert_eq!(explore_limit(256), 0);
}

#[test]
fn recency_window_in_seconds() {
    assert_eq!(recency_window_secs(7), 604800);
    assert_eq!(recency_window_secs(u32::MAX), (u32::MAX as u64) * 86400);
}

#[test]
fn substring_search() {
    assert!(contains_str("my_unverified_x", "unverified_"));
    assert!(!contains_str("unverified", "unverified_"));
    assert!(contains_str("abc", ""));
}

#[test]
fn unsigned_and_old_post_dirs_are_not_listed() {
    let entries = vec![
        ("abc".to_string(), true),
        ("unverified_Unverified: x".to_string(), true),
        ("old".to_string(), false),
        ("xunverified_y".to_string(), true),
        ("def".to_string(), true),
    ];
    assert_eq!(listable_post_dirs(&entries), vec![0, 4]);
}

#[test]
fn unsigned_anchor_dirs_are_not_listed() {
    let entries = vec![
        ("l1".to_string(), true),
        ("unverified_l2".to_string(), true),
        ("xunverified_l3".to_string(), true),
        ("l4".to_string(), false),
    ];
    assert_eq!(listable_anchor_dirs(&entries), vec![0, 2]);
}

#[test]
fn random_choice_takes_distinct_candidates() {
    let candidates = vec![3, 5, 8, 13];
    let picked = choose_candidates(&candidates, 2);
    assert_eq!(picked.len(), 2);
    assert_ne!(picked[0], picked[1]);
    assert!(picked.iter().all(|p| candidates.contains(p)));
    let all = choose_candidates(&candidates, 10);
    let mut sorted = all.clone();
    sorted.sort();
    assert_eq!(sorted, candidates);
}

#[test]
fn empty_legacy_listing_gets_default_post() {
    let r = legacy_listing_or_default(vec![]);
    assert_eq!(r.len(), 1);
    assert_eq!(r[0].0, "default");
    assert_eq!(r[0].1.title, "Untitled");
    let one = vec![("x".to_string(), LegacyPost::default())];
    assert_eq!(legacy_listing_or_default(one).len(), 1);
}

#[test]
fn default_posts() {
    let p = Post::default();
    assert_eq!(p.title, "Untitled");
    assert_eq!(p.author, "No Author");
    assert_eq!(p.content, "There are no posts present, this is the default post text.");
    assert_eq!(p.signature, "");
    assert!(LegacyPost::default().signature.is_empty());
}

#[test]
fn picks_are_read_out_in_order() {
    let candidates = vec![10, 20, 30, 40];
    assert_eq!(pick_candidates(&candidates, &vec![3, 0, 2]), vec![40, 10, 30]);
    assert_eq!(pick_candidates(&candidates, &vec![]), Vec::<usize>::new());
}
