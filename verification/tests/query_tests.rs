use catalyst::db_wrapper::{initialize_outcome, ScriptRun};
use catalyst::db_wrapper::{
    create_anchor, create_post, get_ancestor_of_post, get_latest_post_per_author,
    get_most_diverse_posts, get_related_authors, get_related_posts_by_same_author,
    get_related_posts_excluding_same_author, initialize, remove_post_by_id, retrieve_anchor_by_id,
    retrieve_anchors_by_ids, retrieve_anchors_by_post_id, retrieve_post_by_id, retrieve_posts_by_ids,
    Anchor, Post, QueryParam, ANCESTORS_SCRIPT, ANCHORS_BY_IDS_SCRIPT, ANCHORS_BY_POST_ID_SCRIPT,
    ANCHOR_BY_ID_SCRIPT, CREATE_ANCHOR_SCRIPT, CREATE_POST_SCRIPT, INITIALIZE_SCRIPT,
    LATEST_PER_AUTHOR_SCRIPT, MOST_DIVERSE_SCRIPT, POSTS_BY_IDS_SCRIPT, POST_BY_ID_SCRIPT,
    RELATED_AUTHORS_SCRIPT, RELATED_OTHER_AUTHORS_SCRIPT, RELATED_SAME_AUTHOR_SCRIPT,
};

fn text(q: &(String, QueryParam)) -> (String, String) {
    match &q.1 {
        QueryParam::Text(s) => (q.0.clone(), s.clone()),
        _ => panic!("expected text"),
    }
}

#[test]
fn initialize_creates_relations() {
    let q = initialize();
    assert_eq!(q.script, INITIALIZE_SCRIPT);
    assert!(q.params.is_empty());
    assert!(q.script.contains(":create post"));
    assert!(q.script.contains(":create anchor"));
}

#[test]
fn create_post_binds_all_fields() {
    let p = Post {
        title: "t".to_string(),
        author: "a".to_string(),
        content: "c".to_string(),
        signature: "s".to_string(),
    };
    let q = create_post("id", &p);
    assert_eq!(q.script, CREATE_POST_SCRIPT);
    let names: Vec<(String, String)> = q.params.iter().map(text).collect();
    assert_eq!(names, vec![
        ("post_id".to_string(), "id".to_string()),
        ("title".to_string(), "t".to_string()),
        ("author".to_string(), "a".to_string()),
        ("content".to_string(), "c".to_string()),
        ("signature".to_string(), "s".to_string()),
    ]);
}

#[test]
fn create_anchor_binds_all_fields() {
    let a = Anchor {
        link_id: "l".to_string(),
        post_id: "p".to_string(),
        reference: "r".to_string(),
        referencing_post_id: "q".to_string(),
    };
    let q = create_anchor(&a);
    assert_eq!(q.script, CREATE_ANCHOR_SCRIPT);
    let names: Vec<(String, String)> = q.params.iter().map(text).collect();
    assert_eq!(names, vec![
        ("link_id".to_string(), "l".to_string()),
        ("post_id".to_string(), "p".to_string()),
        ("reference".to_string(), "r".to_string()),
        ("referencing_post_id".to_string(), "q".to_string()),
    ]);
}

#[test]
fn single_parameter_lookups() {
    let cases = vec![
        (retrieve_post_by_id("x"), POST_BY_ID_SCRIPT, "post_id"),
        (remove_post_by_id("x"), POST_BY_ID_SCRIPT, "post_id"),
        (retrieve_anchor_by_id("x"), ANCHOR_BY_ID_SCRIPT, "link_id"),
        (retrieve_anchors_by_post_id("x"), ANCHORS_BY_POST_ID_SCRIPT, "post_id"),
        (get_related_posts_by_same_author("x"), RELATED_SAME_AUTHOR_SCRIPT, "target_post_id"),
        (get_related_posts_excluding_same_author("x"), RELATED_OTHER_AUTHORS_SCRIPT, "target_post_id"),
        (get_related_authors("x"), RELATED_AUTHORS_SCRIPT, "given_author"),
        (get_ancestor_of_post("x"), ANCESTORS_SCRIPT, "post_id"),
    ];
    for (q, script, name) in cases {
        assert_eq!(q.script, script);
        assert_eq!(q.params.len(), 1);
        assert_eq!(text(&q.params[0]), (name.to_string(), "x".to_string()));
    }
}

#[test]
fn list_parameter_lookups() {
    let q = retrieve_posts_by_ids(vec!["a".to_string(), "b".to_string()]);
    assert_eq!(q.script, POSTS_BY_IDS_SCRIPT);
    match &q.params[0] {
        (n, QueryParam::TextList(v)) => {
            assert_eq!(n, "post_ids");
            assert_eq!(v, &vec!["a".to_string(), "b".to_string()]);
        }
        _ => panic!("expected a list"),
    }
    let q = retrieve_anchors_by_ids(vec!["l".to_string()]);
    assert_eq!(q.script, ANCHORS_BY_IDS_SCRIPT);
    assert_eq!(q.params[0].0, "link_ids");
}

#[test]
fn listing_queries() {
    let q = get_latest_post_per_author();
    assert_eq!(q.script, LATEST_PER_AUTHOR_SCRIPT);
    assert!(q.params.is_empty());
    let q = get_most_diverse_posts(12);
    assert_eq!(q.script, MOST_DIVERSE_SCRIPT);
    match &q.params[0] {
        (n, QueryParam::Int(i)) => {
            assert_eq!(n, "max_results");
            assert_eq!(*i, 12);
        }
        _ => panic!("expected a number"),
    }
}

#[test]
fn setting_up_twice_is_fine_and_other_errors_pass_on() {
    assert_eq!(initialize_outcome(ScriptRun::Done), Ok(()));
    assert_eq!(
        initialize_outcome(ScriptRun::Failed {
            code: Some("eval::stored_relation_conflict".to_string()),
            message: "Stored relation post conflicts with an existing one".to_string(),
        }),
        Ok(())
    );
    assert_eq!(
        initialize_outcome(ScriptRun::Failed {
            code: Some("parser::pest".to_string()),
            message: "bad script".to_string(),
        }),
        Err("bad script".to_string())
    );
    assert_eq!(
        initialize_outcome(ScriptRun::Failed { code: None, message: "io".to_string() }),
        Err("io".to_string())
    );
}
