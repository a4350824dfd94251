use catalyst::anchors::{
    anchor_conflict_message, anchor_save_after_referenced, anchor_save_after_referencing,
    anchor_save_start, filter_current, legacy_anchor_check, legacy_anchor_dir_name,
    link_id_is_well_formed, stamp_is_current, AnchorRejection, AnchorStep, Lookup,
};
use catalyst::model::Anchor;

fn anchor(link_id: &str, post_id: &str, referencing: &str) -> Anchor {
    Anchor {
        link_id: link_id.to_string(),
        post_id: post_id.to_string(),
        reference: "1:2:3:4".to_string(),
        referencing_post_id: referencing.to_string(),
    }
}

#[test]
fn link_id_must_start_with_post_id() {
    assert!(link_id_is_well_formed(&anchor("post1abc", "post1", "p2")));
    assert!(link_id_is_well_formed(&anchor("post1", "post1", "p2")));
    assert!(!link_id_is_well_formed(&anchor("post", "post1", "p2")));
    assert!(!link_id_is_well_formed(&anchor("xpost1", "post1", "p2")));
}

#[test]
fn anchor_save_walks_through_lookups() {
    let a = anchor("post1abc", "post1", "p2");
    assert_eq!(anchor_save_start(&a), AnchorStep::LookUpReferenced);
    assert_eq!(anchor_save_after_referenced(Lookup::Found), AnchorStep::LookUpReferencing);
    assert_eq!(anchor_save_after_referencing(Lookup::Found), AnchorStep::Store);
}

#[test]
fn anchor_save_rejections() {
    let bad = anchor("x", "post1", "p2");
    assert_eq!(anchor_save_start(&bad), AnchorStep::Reject(AnchorRejection::InvalidLinkId));
    assert_eq!(anchor_save_after_referenced(Lookup::Missing), AnchorStep::Reject(AnchorRejection::ReferencedMissing));
    assert_eq!(anchor_save_after_referenced(Lookup::Failed), AnchorStep::Reject(AnchorRejection::LookupFailed));
    assert_eq!(anchor_save_after_referencing(Lookup::Missing), AnchorStep::Reject(AnchorRejection::ReferencingMissing));
    assert_eq!(anchor_save_after_referencing(Lookup::Failed), AnchorStep::Reject(AnchorRejection::LookupFailed));
}

#[test]
fn rejection_messages() {
    let a = anchor("post1abc", "post1", "p2");
    assert_eq!(AnchorRejection::InvalidLinkId.message(&a), "Invalid link_id format");
    assert_eq!(AnchorRejection::ReferencedMissing.message(&a), "Referenced post post1 not found");
    assert_eq!(AnchorRejection::ReferencingMissing.message(&a), "Referencing post p2 not found");
    assert_eq!(AnchorRejection::LookupFailed.message(&a), "");
    assert_eq!(anchor_conflict_message(&a), "Anchor post1abc already exists");
}

#[test]
fn legacy_checks_in_order() {
    let a = anchor("post1abc", "post1", "p2");
    assert_eq!(legacy_anchor_check(&a, true, true, false), Ok(()));
    assert_eq!(legacy_anchor_check(&a, false, false, false), Err(AnchorRejection::ReferencedMissing));
    assert_eq!(legacy_anchor_check(&a, true, false, false), Err(AnchorRejection::ReferencingMissing));
    assert_eq!(
        legacy_anchor_check(&anchor("zz", "post1", "p2"), false, false, false),
        Err(AnchorRejection::InvalidLinkId)
    );
}

#[test]
fn stored_anchor_is_never_overwritten() {
    let a = anchor("post1abc", "post1", "p2");
    assert_eq!(legacy_anchor_check(&a, true, true, true), Err(AnchorRejection::AlreadyExists));
    assert_eq!(AnchorRejection::AlreadyExists.message(&a), "Anchor post1abc already exists");
}

#[test]
fn legacy_anchor_dirs_mark_unsigned_quotes() {
    assert_eq!(legacy_anchor_dir_name(&anchor("post1abc", "post1", "p2")), "post1abc");
    assert_eq!(legacy_anchor_dir_name(&anchor("post1abc", "post1", "unverified_p2")), "unverified_post1abc");
}

#[test]
fn stamps_compare_as_unsigned() {
    assert!(stamp_is_current(5, 5));
    assert!(!stamp_is_current(6, 5));
    assert!(!stamp_is_current(-1, 1_000_000));
    assert!(stamp_is_current(-1, u128::MAX));
    assert!(!stamp_is_current(-1, u128::MAX - 1));
}

#[test]
fn only_current_items_are_kept() {
    let kept = filter_current(vec![("a", 1i64), ("b", 50), ("c", 3), ("d", -2)], 10);
    assert_eq!(kept, vec!["a", "c"]);
}
