use catalyst::anchors::{anchor_save_start, AnchorStep};
use catalyst::command::PostCommand;
use catalyst::model::{LegacyPost, Post};
use catalyst::submission::{
    decide_delete, decide_legacy_delete, decide_link, deleted_content_of, legacy_submission_first_step,
    plan_legacy_submission, plan_submission, post_digest, submission_first_step, trimmed,
    try_plan_submission, command_target, plan_command, CommandPlan, legacy_delete_step, CommandRefusal, DeleteRefusal, SubmitStep,
};

const AUTHOR: &str = "X2AfgJVuwDSrhauzkcXlxzSRs7s2Gimai9a2L16Sopg=";

fn post(title: &str, author: &str, content: &str, signature: &str) -> Post {
    Post {
        title: title.to_string(),
        author: author.to_string(),
        content: content.to_string(),
        signature: signature.to_string(),
    }
}

#[test]
fn digest_of_known_post() {
    assert_eq!(post_digest(&post("T", "A", "C", "")), "zpilV0Gq9zQyD80xDNRw7oBVL8YLsoYKxbZ3r5hh08U");
}

#[test]
fn signed_post_keeps_author_and_gets_digest_id() {
    let p = post(
        "Title",
        AUTHOR,
        "my post",
        "QAMOWxvcCfHVmwFfuM2Fi70HKHYP0R3hUFSPGyds/x+erYx6ral9OPNp08LxE2jH75mWB2E4R/TRSJZDi3BsCg==",
    );
    let s = plan_submission(&p);
    assert!(s.verified);
    assert_eq!(s.post_id, "4KYrmgP9pVPivD17d9IY35Bw4oL0XaowkRBsBpNcYHc");
    assert_eq!(s.stored.author, AUTHOR);
    assert!(s.command.is_none());
    assert_eq!(submission_first_step(&s), SubmitStep::StorePost);
}

#[test]
fn unsigned_post_is_marked() {
    let sig = "AQEBAQEBAQEBAQEBAQEBAQEBAQEBAQEBAQEBAQEBAQEBAQEBAQEBAQEBAQEBAQEBAQEBAQEBAQEBAQEBAQEBAQ==";
    let s = plan_submission(&post("Title", AUTHOR, "my post", sig));
    assert!(!s.verified);
    assert_eq!(s.post_id, "unverified_7EG3YuNDzj64SwMo_8dH9d9dgO5O-K-tGyK1CWVCd3s");
    assert_eq!(s.stored.author, format!("Unverified: {}", AUTHOR));
    assert_eq!(s.stored.content, "my post");
}

#[test]
fn commands_of_unsigned_posts_are_dropped() {
    let sig = "AQEBAQEBAQEBAQEBAQEBAQEBAQEBAQEBAQEBAQEBAQEBAQEBAQEBAQEBAQEBAQEBAQEBAQEBAQEBAQEBAQEBAQ==";
    let s = plan_submission(&post("Title", AUTHOR, "{{delete:abc}}", sig));
    assert!(!s.verified);
    assert!(s.command.is_none());
}

#[test]
fn signed_delete_command_reads_trimmed_target() {
    let p = post(
        "Title",
        AUTHOR,
        "{{delete: abc }}",
        "xeH/S1apR53q2CDH1RYUL/PgJhEV1u4j5OEBLPIbgR1wmaQCyGSACV87dWtzHArOe3L+sgMFnriudQisgmqNDg==",
    );
    let s = plan_submission(&p);
    assert!(s.verified);
    assert_eq!(s.post_id, "UAlI7vLyTAHKC7IYOusFgBDQ9zejySQGa8za4Yk35M4");
    assert_eq!(submission_first_step(&s), SubmitStep::FetchForDelete { id: "abc".to_string() });
}

#[test]
fn signed_link_command_reads_target() {
    let p = post(
        "Title",
        AUTHOR,
        "{{link:xyz}}",
        "e/lx2rfZQeaTd14bo+poYnCqZZF0qQ7TO1Fp9txK9kaNOBVK04jeR/47EeUOLBSV8mLFTGZt2A4Vl3ChRcasDQ==",
    );
    let s = plan_submission(&p);
    assert!(s.verified);
    assert_eq!(s.post_id, "AMO0pHEmcXKlTUr2xsYyZudtPeBznfXn0ZLRz3Z3bGg");
    match &s.command {
        Some(PostCommand::Link { target }) => assert_eq!(target, "xyz"),
        _ => panic!("expected a link command"),
    }
    assert_eq!(submission_first_step(&s), SubmitStep::FetchForLink { id: "xyz".to_string() });
}

#[test]
fn unprocessable_posts_are_refused() {
    // The signature is not base64.
    assert!(try_plan_submission(&post("T", AUTHOR, "c", "%%%")).is_none());
    let ok = try_plan_submission(&post(
        "Title",
        AUTHOR,
        "my post",
        "QAMOWxvcCfHVmwFfuM2Fi70HKHYP0R3hUFSPGyds/x+erYx6ral9OPNp08LxE2jH75mWB2E4R/TRSJZDi3BsCg==",
    ));
    assert!(ok.unwrap().verified);
}

#[test]
fn post_naming_no_key_is_stored_unverified() {
    let s = try_plan_submission(&post("t", "bob", "hi", "")).unwrap();
    assert!(!s.verified);
    assert_eq!(s.post_id, "unverified_fPOKh2jFeXkk9Q3rAc3clmXjDx8Rd9NZIYH5MZVaNyY");
    assert_eq!(s.stored.author, "Unverified: bob");
    assert_eq!(s.stored.title, "t");
    assert_eq!(s.stored.content, "hi");
}

#[test]
fn short_signature_under_a_real_key_is_unverified() {
    let s = try_plan_submission(&post("T", AUTHOR, "c", "AAAA")).unwrap();
    assert!(!s.verified);
    assert_eq!(s.stored.author, format!("Unverified: {}", AUTHOR));
    assert!(s.post_id.starts_with("unverified_"));
}

#[test]
fn same_post_gets_same_id() {
    let a = plan_submission(&post("t", "bob", "hi", ""));
    let b = plan_submission(&post("t", "bob", "hi", ""));
    assert_eq!(a.post_id, b.post_id);
}

#[test]
fn deleted_content_holds_hash_of_old_content() {
    assert_eq!(
        deleted_content_of("old content"),
        "{\"deleted\":true,\"hash\":\"NKeArVeLmX21WyYL62C1AfPgTTC6GlH89DzY3RJBeA0\"}"
    );
}

#[test]
fn only_the_author_may_delete() {
    let target = post("t", "me", "old content", "s");
    let stub = decide_delete(&"me".to_string(), &target).unwrap();
    assert_eq!(stub.title, "t");
    assert_eq!(stub.author, "me");
    assert_eq!(stub.signature, "s");
    assert_eq!(stub.content, deleted_content_of("old content"));
    let refused = decide_delete(&"you".to_string(), &target);
    assert_eq!(refused.as_ref().unwrap_err(), &DeleteRefusal::NotAuthor);
    assert_eq!(refused.unwrap_err().message(), "You are not authorized to delete this post");
}

#[test]
fn link_needs_same_author() {
    let referenced = post("t", "me", "c", "s");
    let a = decide_link(&"newid".to_string(), &"old".to_string(), &"me".to_string(), &referenced, &"abcd1234".to_string())
        .unwrap();
    assert_eq!(a.link_id, "old_abcd1234");
    assert_eq!(a.post_id, "old");
    assert_eq!(a.referencing_post_id, "newid");
    assert_eq!(a.reference, "");
    assert!(decide_link(&"newid".to_string(), &"old".to_string(), &"you".to_string(), &referenced, &"x".to_string()).is_none());
}

#[test]
fn link_anchor_passes_the_link_id_check() {
    let referenced = post("t", "me", "c", "s");
    let a = decide_link(&"newid".to_string(), &"old".to_string(), &"me".to_string(), &referenced, &"abcd1234".to_string())
        .unwrap();
    assert_eq!(anchor_save_start(&a), AnchorStep::LookUpReferenced);
}

fn row(cells: &[&str]) -> Vec<Option<String>> {
    cells.iter().map(|c| Some(c.to_string())).collect()
}

#[test]
fn command_target_missing_or_found() {
    let none: Vec<Vec<Option<String>>> = vec![];
    let missing = command_target(&none);
    assert_eq!(missing.as_ref().unwrap_err(), &CommandRefusal::TargetMissing);
    assert_eq!(missing.unwrap_err().message(), "Post not found");
    let rows = vec![row(&["id1", "v", "title", "me", "content", "sig"])];
    let (id, p) = command_target(&rows).unwrap();
    assert_eq!(id, "id1");
    assert_eq!(p.title, "title");
    assert_eq!(p.author, "me");
    assert_eq!(p.content, "content");
    assert_eq!(p.signature, "sig");
}

#[test]
fn command_refusal_messages() {
    assert_eq!(CommandRefusal::NotAuthor.message(), "You are not authorized to delete this post");
    assert_eq!(CommandRefusal::TargetMissing.message(), "Post not found");
}

#[test]
fn trimming_removes_unicode_whitespace() {
    assert_eq!(trimmed("\u{3000}\t a b \n\u{2028}"), "a b");
    assert_eq!(trimmed("   "), "");
    assert_eq!(trimmed("x"), "x");
}

fn legacy(title: &str, author: &str, content: &str, signature: &[u8]) -> LegacyPost {
    LegacyPost {
        title: title.to_string(),
        author: author.to_string(),
        content: content.to_string(),
        signature: signature.to_vec(),
    }
}

#[test]
fn legacy_signed_post_gets_digest_id() {
    let sig = "vPIHZ2udIEhzo3_VI5BUHH8jFf8ngXo2u-wt8_pcNLlHNRD1uo9FeSY-ZBL1QdorlPvUGglvB_OoWzP66S66Dw";
    let s = plan_legacy_submission(&legacy("T", "X2AfgJVuwDSrhauzkcXlxzSRs7s2Gimai9a2L16Sopg", "legacy post", sig.as_bytes()));
    assert!(s.verified);
    assert_eq!(s.post_id, "_eIjsqLcjAZbsNuHwGC1SrRuwIyroGHZRv-PLMlh7K8");
    assert_eq!(s.stored.author, "X2AfgJVuwDSrhauzkcXlxzSRs7s2Gimai9a2L16Sopg");
}

#[test]
fn legacy_unsigned_post_id_is_its_digest() {
    let s = plan_legacy_submission(&legacy("T", "Alice", "{{delete:x}}", b""));
    assert!(!s.verified);
    assert_eq!(s.stored.author, "Unverified: Alice");
    assert_eq!(s.post_id, "unverified_T8jTirfvb6pYoz7S8qfHKxVM_dMLiBivLge32rqmWIU");
    assert!(s.command.is_none());
    assert_eq!(legacy_submission_first_step(&s), SubmitStep::StorePost);
}

#[test]
fn legacy_unsigned_posts_of_one_author_do_not_collide() {
    let a = plan_legacy_submission(&legacy("T", "Alice", "{{delete:x}}", b""));
    let b = plan_legacy_submission(&legacy("T", "Alice", "second", b""));
    assert_eq!(b.post_id, "unverified_mAUFFEObzHr4c_dnXQMuGdsY_55E1glpZRtrdCovOhg");
    assert_ne!(a.post_id, b.post_id);
}

#[test]
fn legacy_delete_step_cases() {
    let target = legacy("t", "me", "old content", &[1, 2]);
    assert_eq!(legacy_delete_step(&"me".to_string(), None).unwrap_err(), CommandRefusal::TargetMissing);
    assert_eq!(
        legacy_delete_step(&"you".to_string(), Some(legacy("t", "me", "old content", &[1, 2]))).unwrap_err(),
        CommandRefusal::NotAuthor
    );
    let stub = legacy_delete_step(&"me".to_string(), Some(target)).unwrap();
    assert_eq!(stub.content, deleted_content_of("old content"));
    assert_eq!(stub.signature, vec![1, 2]);
}

#[test]
fn legacy_delete_keeps_signature_bytes() {
    let target = legacy("t", "me", "old content", &[1, 2]);
    let stub = decide_legacy_delete(&"me".to_string(), &target).unwrap();
    assert_eq!(stub.signature, vec![1, 2]);
    assert_eq!(stub.content, deleted_content_of("old content"));
    assert!(decide_legacy_delete(&"other".to_string(), &target).is_err());
}

#[test]
fn link_plan_stores_the_post_then_the_anchor() {
    let p = post(
        "Title",
        AUTHOR,
        "{{link:xyz}}",
        "e/lx2rfZQeaTd14bo+poYnCqZZF0qQ7TO1Fp9txK9kaNOBVK04jeR/47EeUOLBSV8mLFTGZt2A4Vl3ChRcasDQ==",
    );
    let s = plan_submission(&p);
    let target = post("old", AUTHOR, "c", "s");
    match plan_command(&s, Ok(("xyz".to_string(), target)), &"abcd1234".to_string()) {
        CommandPlan::StoreThenAnchor { anchor } => {
            assert_eq!(anchor.link_id, "xyz_abcd1234");
            assert_eq!(anchor.post_id, "xyz");
            assert_eq!(anchor.referencing_post_id, s.post_id);
            assert_eq!(anchor.reference, "");
        }
        other => panic!("expected an anchor after the post, got {:?}", other),
    }
    let stranger = post("old", "someone else", "c", "s");
    assert!(matches!(
        plan_command(&s, Ok(("xyz".to_string(), stranger)), &"abcd1234".to_string()),
        CommandPlan::Store
    ));
    assert!(matches!(
        plan_command(&s, Err(CommandRefusal::TargetMissing), &"abcd1234".to_string()),
        CommandPlan::Refuse(CommandRefusal::TargetMissing)
    ));
}

#[test]
fn delete_plan_replaces_the_target_then_stores() {
    let p = post(
        "Title",
        AUTHOR,
        "{{delete: abc }}",
        "xeH/S1apR53q2CDH1RYUL/PgJhEV1u4j5OEBLPIbgR1wmaQCyGSACV87dWtzHArOe3L+sgMFnriudQisgmqNDg==",
    );
    let s = plan_submission(&p);
    let target = post("old", AUTHOR, "old content", "s");
    match plan_command(&s, Ok(("abc".to_string(), target)), &"x".to_string()) {
        CommandPlan::ReplaceThenStore { id, replacement } => {
            assert_eq!(id, "abc");
            assert_eq!(replacement.content, deleted_content_of("old content"));
            assert_eq!(replacement.title, "old");
        }
        other => panic!("expected a replacement, got {:?}", other),
    }
    let stranger = post("old", "someone else", "c", "s");
    assert!(matches!(
        plan_command(&s, Ok(("abc".to_string(), stranger)), &"x".to_string()),
        CommandPlan::Refuse(CommandRefusal::NotAuthor)
    ));
}
