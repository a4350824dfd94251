//! The queries that the database answers: each builder gives the CozoScript
//! text and the named parameters to run it with.

use vstd::prelude::*;
pub use crate::model::{Anchor, Post};

verus! {

/// A parameter value of a query.
#[derive(Debug)]
pub enum QueryParam {
    Text(String),
    TextList(Vec<String>),
    Int(i64),
}

pub enum SpecParam {
    Text(Seq<char>),
    TextList(Seq<Seq<char>>),
    Int(int),
}

impl View for QueryParam {
    type V = SpecParam;

    open spec fn view(&self) -> SpecParam {
        match self {
            QueryParam::Text(s) => SpecParam::Text(s@),
            QueryParam::TextList(v) => SpecParam::TextList(v@.map_values(|s: String| s@)),
            QueryParam::Int(i) => SpecParam::Int(*i as int),
        }
    }
}

/// A script and its named parameters, in the order they are given.
#[derive(Debug)]
pub struct Query {
    pub script: String,
    pub params: Vec<(String, QueryParam)>,
}

pub struct SpecQuery {
    pub script: Seq<char>,
    pub params: Seq<(Seq<char>, SpecParam)>,
}

impl View for Query {
    type V = SpecQuery;

    open spec fn view(&self) -> SpecQuery {
        SpecQuery {
            script: self.script@,
            params: self.params@.map_values(|p: (String, QueryParam)| (p.0@, p.1@)),
        }
    }
}

/// Creates the `post` and `anchor` relations.
pub const INITIALIZE_SCRIPT: &'static str = r#"
        {
            :create post {
                post_id: String,
                at: Validity,
                =>
                title: String,
                author: String,
                content: String,
                signature: Bytes
            }
        }
        {
            :create anchor {
                link_id: String,
                at: Validity,
                =>
                post_id: String, 
                reference: String, 
                referencing_post_id: String
            }
        }
        "#;

/// Asserts a post.
pub const CREATE_POST_SCRIPT: &'static str = r#"
    ?[post_id, at, title, author, content, signature] <- [[$post_id, 'ASSERT', $title, $author, $content, $signature]]
    :put post {post_id, at => title, author, content, signature}
    "#;

/// Asserts an anchor.
pub const CREATE_ANCHOR_SCRIPT: &'static str = r#"
    ?[link_id, at, post_id, reference, referencing_post_id]  <- [[$link_id, 'ASSERT', $post_id, $reference, $referencing_post_id]]
    :put anchor {link_id, at => post_id, reference, referencing_post_id}
    "#;

/// The post with id `$post_id`.
pub const POST_BY_ID_SCRIPT: &'static str = "?[post_id, at, title, author, content, signature] := *post[post_id, at, title, author, content, signature], post_id = $post_id";

/// The posts whose ids are in `$post_ids`.
pub const POSTS_BY_IDS_SCRIPT: &'static str = "?[post_id, at, title, author, content, signature] := *post[post_id, at, title, author, content, signature], post_id in $post_ids";

/// The anchor with link id `$link_id`.
pub const ANCHOR_BY_ID_SCRIPT: &'static str = "?[link_id, at, post_id, reference, referencing_post_id] := *anchor[link_id, at, post_id, reference, referencing_post_id], link_id = $link_id";

/// The anchors into the post `$post_id`.
pub const ANCHORS_BY_POST_ID_SCRIPT: &'static str = "?[link_id, at, post_id, reference, referencing_post_id] := *anchor[link_id, at, post_id, reference, referencing_post_id], post_id = $post_id";

/// The anchors whose link ids are in `$link_ids`.
pub const ANCHORS_BY_IDS_SCRIPT: &'static str = "?[link_id, at, post_id, reference, referencing_post_id] := *anchor[link_id, at, post_id, reference, referencing_post_id], link_id in $link_ids";

/// The posts quoting `$target_post_id` by that post's own author.
pub const RELATED_SAME_AUTHOR_SCRIPT: &'static str = r#"
        ?[related_post_id, at, title, author, content, signature] :=
        *post[target_post_id, _, _, target_author, _, _],
        *anchor[_, _, target_post_id, _, related_post_id],
        *post[related_post_id, at, title, author, content, signature],
        target_author = author,
        target_post_id = $target_post_id
    "#;

/// The posts linked with `$target_post_id` by other authors.
pub const RELATED_OTHER_AUTHORS_SCRIPT: &'static str = r#"
        ?[post_id, at, title, author, content, signature] := 
        *post[post_id, at, title, author, content, signature],
        *anchor[link_id, target_post_id, reference, post_id],
        *post[target_post_id, _, _, not_author, _, _],
        author != not_author,
        target_post_id = $target_post_id
        "#;

/// The other authors that `$given_author` quotes or is quoted by.
pub const RELATED_AUTHORS_SCRIPT: &'static str = r#"
        referencing[given_author, other_author] := *post[post_id, _, _, other_author, _, _],
            *anchor[_, _, target_post_id, _, post_id],
            *post[target_post_id, _, _, given_author, _, _]
        referenced[given_author, other_author] := *post[post_id, _, _, given_author, _, _],
            *anchor[_, _, target_post_id, _, post_id],
            *post[target_post_id, _, _, other_author, _, _]
        ?[other_author] :=
            referencing[given_author, other_author] or
            referenced[given_author, other_author],
            given_author = $given_author,
            other_author != given_author
        "#;

/// The posts that `$post_id` quotes, directly or through other posts.
pub const ANCESTORS_SCRIPT: &'static str = r#"
            ancestor[post_id, oldest_post_id] :=
                *post[post_id, _, _, _, _, _],
                *anchor[link_id, _, target_post_id, _, post_id],
                *post[target_post_id, _, _, _, _, _],
                oldest_post_id = target_post_id
            ancestor[post_id, oldest_post_id] :=
                *post[post_id, _, _, _, _, _],
                *anchor[link_id, _, target_post_id, _, post_id],
                *post[target_post_id, _, _, _, _, _],
                ancestor[target_post_id, older_post_id],
                oldest_post_id = older_post_id
            ?[given_post_id, oldest_ancestor] :=
                given_post_id = $post_id,
                ancestor[given_post_id, oldest_ancestor]
        "#;

/// The latest post of each author.
pub const LATEST_PER_AUTHOR_SCRIPT: &'static str = r#"
        {:create _temp_posts {post_id, at, title, author, content, signature}}
        {
            ?[author] := *post[_, _, _, author, _, _],
            :replace _temp_authors {author}
        }
        %loop
            %if { len_a[count(x)] := *_temp_authors[x]; ?[x] := len_a[z], x = z <= 0 }
                %then %return _temp_posts
            %end
            {
                ?[author] := *_temp_authors[author]
                :limit 1
                :replace unique_author {author}
            }
            {
                ?[post_id, at, title, author, content, signature] :=
                    *post[post_id, at, title, author, content, signature],
                    *unique_author[author],
                :sort -at
                :limit 1
                :put _temp_posts {post_id, at, title, author, content, signature}
            }
            {
                ?[author] := *unique_author[author],
                :rm _temp_authors {author}
            }
        %end"#;

/// The `$max_results` posts scored highest for the diversity of the authors
/// and times that link them.
pub const MOST_DIVERSE_SCRIPT: &'static str = r#"
        {
            author_diversity[post_id, count(author)] :=
                *post[post_id, at, title, author, _, _],
                *anchor[link_id, _, target_post_id, _, post_id],
                *post[target_post_id, _, _, not_author, _, _],
                author != not_author
            ?[post_id, diversity] := author_diversity[post_id, diversity]
            :replace _author_diversity {post_id, diversity}
        }
        {
            ?[post_id, diversity] :=
                *post[post_id, at, _, author, _, _],
                *anchor[link_id, _, target_post_id, _, post_id],
                *post[target_post_id, _, _, _, _, _],
                at_med_idx = to_int(length(list(at))/2),
                diversity = (max(to_int(at)) - to_int(get(list(at), at_med_idx))) / (to_int(now()) - max(to_int(at)))
            :replace _timescale_diversity {post_id, diversity}
        }
        {
            bridge_coefficient[post_id, count(orphaned_post_id)] :=
                *post[post_id, _, _, _, _, _],
                *post[not_post_id, _, _, _, _, _],
                *anchor[_, _, orphaned_post_id, _, post_id],
                *anchor[_, _, post_id, _, orphaned_post_id],
                not *anchor[_, _, not_post_id, _, orphaned_post_id],
                not *anchor[_, _, orphaned_post_id, _, not_post_id],
                post_id != not_post_id
            ?[post_id, coefficient] := bridge_coefficient[post_id, coefficient]
            :replace _bridge_coefficient {post_id, coefficient}
        }
        {
            def_score[post_id, default] := *post[post_id, _, _, _, _, _], default = rand_float()
            ?[post_id, final_score] :=
                *_author_diversity[post_id, author_div] or def_score[post_id, author_div],
                *_timescale_diversity[post_id, timescale_div] or def_score[post_id, timescale_div],
                *_bridge_coefficient[post_id, bridge_coeff] or def_score[post_id, bridge_coeff],
                epsilon = 1,
                final_score = (author_div + (bridge_coeff * author_div)) / (epsilon - timescale_div)
            :sort -final_score
            :replace latest_diversity_score {post_id, final_score}
            :limit $max_results
        }
        {
                ?[post_id, at, title, author, content, signature] :=
                *post[post_id, at, title, author, content, signature],
                *latest_diversity_score[post_id, final_score]
        }
        "#;

fn text_param(name: &str, value: &str) -> (p: (String, QueryParam))
    ensures
        p.0@ == name@,
        p.1@ == SpecParam::Text(value@),
{
    (String::from_str(name), QueryParam::Text(String::from_str(value)))
}

fn query(script: &str, params: Vec<(String, QueryParam)>) -> (q: Query)
    ensures
        q.script@ == script@,
        q.params@ == params@,
{
    Query { script: String::from_str(script), params }
}

/// Creates the relations. Running it again once they exist fails, and that
/// failure is ignored.
pub fn initialize() -> (q: Query)
    ensures
        q@ == (SpecQuery { script: INITIALIZE_SCRIPT@, params: seq![] }),
{
    let q = query(INITIALIZE_SCRIPT, Vec::new());
    assert(q@.params =~= seq![]);
    q
}

/// The diagnostic code with which the database refuses to create a
/// relation that exists already.
pub open spec fn relation_exists_code() -> Seq<char> {
    "eval::stored_relation_conflict"@
}

/// How running a script went: it ran, or it failed with the database's
/// diagnostic code (where the error has one) and its message.
#[derive(Debug)]
pub enum ScriptRun {
    Done,
    Failed { code: Option<String>, message: String },
}

/// What setting up the relations answers, given how running `initialize`'s
/// script went: `Ok` when it ran, or when it failed only because the
/// relations exist already; the failure's message otherwise. The script
/// only creates relations, so a second set-up changes nothing stored.
pub fn initialize_outcome(run: ScriptRun) -> (r: Result<(), String>)
    ensures
        match run {
            ScriptRun::Done => r is Ok,
            ScriptRun::Failed { code, message } => if code matches Some(c) && c@ == relation_exists_code() {
                r is Ok
            } else {
                r matches Err(m) && m@ == message@
            },
        },
{
    match run {
        ScriptRun::Done => Ok(()),
        ScriptRun::Failed { code, message } => {
            let exists_code = String::from_str("eval::stored_relation_conflict");
            match code {
                Some(c) => {
                    if c == exists_code {
                        Ok(())
                    } else {
                        Err(message)
                    }
                },
                None => Err(message),
            }
        },
    }
}

/// Stores `post` under `post_id`.
pub fn create_post(post_id: &str, post: &Post) -> (q: Query)
    ensures
        q@ == (SpecQuery {
            script: CREATE_POST_SCRIPT@,
            params: seq![
                ("post_id"@, SpecParam::Text(post_id@)),
                ("title"@, SpecParam::Text(post.title@)),
                ("author"@, SpecParam::Text(post.author@)),
                ("content"@, SpecParam::Text(post.content@)),
                ("signature"@, SpecParam::Text(post.signature@)),
            ],
        }),
{
    let mut params: Vec<(String, QueryParam)> = Vec::new();
    params.push(text_param("post_id", post_id));
    params.push(text_param("title", post.title.as_str()));
    params.push(text_param("author", post.author.as_str()));
    params.push(text_param("content", post.content.as_str()));
    params.push(text_param("signature", post.signature.as_str()));
    let q = query(CREATE_POST_SCRIPT, params);
    assert(q@.params =~= seq![
        ("post_id"@, SpecParam::Text(post_id@)),
        ("title"@, SpecParam::Text(post.title@)),
        ("author"@, SpecParam::Text(post.author@)),
        ("content"@, SpecParam::Text(post.content@)),
        ("signature"@, SpecParam::Text(post.signature@)),
    ]);
    q
}

/// Stores `anchor`.
pub fn create_anchor(anchor: &Anchor) -> (q: Query)
    ensures
        q@ == (SpecQuery {
            script: CREATE_ANCHOR_SCRIPT@,
            params: seq![
                ("link_id"@, SpecParam::Text(anchor.link_id@)),
                ("post_id"@, SpecParam::Text(anchor.post_id@)),
                ("reference"@, SpecParam::Text(anchor.reference@)),
                ("referencing_post_id"@, SpecParam::Text(anchor.referencing_post_id@)),
            ],
        }),
{
    let mut params: Vec<(String, QueryParam)> = Vec::new();
    params.push(text_param("link_id", anchor.link_id.as_str()));
    params.push(text_param("post_id", anchor.post_id.as_str()));
    params.push(text_param("reference", anchor.reference.as_str()));
    params.push(text_param("referencing_post_id", anchor.referencing_post_id.as_str()));
    let q = query(CREATE_ANCHOR_SCRIPT, params);
    assert(q@.params =~= seq![
        ("link_id"@, SpecParam::Text(anchor.link_id@)),
        ("post_id"@, SpecParam::Text(anchor.post_id@)),
        ("reference"@, SpecParam::Text(anchor.reference@)),
        ("referencing_post_id"@, SpecParam::Text(anchor.referencing_post_id@)),
    ]);
    q
}

/// A query with the script `script` and the one text parameter `name = value`.
pub open spec fn one_text_query(script: Seq<char>, name: Seq<char>, value: Seq<char>) -> SpecQuery {
    SpecQuery { script, params: seq![(name, SpecParam::Text(value))] }
}

fn single_text_query(script: &str, name: &str, value: &str) -> (q: Query)
    ensures
        q@ == one_text_query(script@, name@, value@),
{
    let mut params: Vec<(String, QueryParam)> = Vec::new();
    params.push(text_param(name, value));
    let q = query(script, params);
    assert(q@.params =~= seq![(name@, SpecParam::Text(value@))]);
    q
}

/// A query with the script `script` and the one list parameter `name = values`.
pub open spec fn one_list_query(script: Seq<char>, name: Seq<char>, values: Seq<String>) -> SpecQuery {
    SpecQuery { script, params: seq![(name, SpecParam::TextList(values.map_values(|s: String| s@)))] }
}

fn single_list_query(script: &str, name: &str, values: Vec<String>) -> (q: Query)
    ensures
        q@ == one_list_query(script@, name@, values@),
{
    let ghost vs = values@;
    let mut params: Vec<(String, QueryParam)> = Vec::new();
    params.push((String::from_str(name), QueryParam::TextList(values)));
    let q = query(script, params);
    assert(q@.params =~= seq![(name@, SpecParam::TextList(vs.map_values(|s: String| s@)))]);
    q
}

/// The post with id `post_id`.
pub fn retrieve_post_by_id(post_id: &str) -> (q: Query)
    ensures
        q@ == one_text_query(POST_BY_ID_SCRIPT@, "post_id"@, post_id@),
{
    single_text_query(POST_BY_ID_SCRIPT, "post_id", post_id)
}

/// Meant to remove a post; the script it runs reads the post with id
/// `post_id` and leaves the database as it is.
pub fn remove_post_by_id(post_id: &str) -> (q: Query)
    ensures
        q@ == one_text_query(POST_BY_ID_SCRIPT@, "post_id"@, post_id@),
{
    single_text_query(POST_BY_ID_SCRIPT, "post_id", post_id)
}

/// The posts whose ids are in `post_ids`.
pub fn retrieve_posts_by_ids(post_ids: Vec<String>) -> (q: Query)
    ensures
        q@ == one_list_query(POSTS_BY_IDS_SCRIPT@, "post_ids"@, post_ids@),
{
    single_list_query(POSTS_BY_IDS_SCRIPT, "post_ids", post_ids)
}

/// The anchor with link id `link_id`.
pub fn retrieve_anchor_by_id(link_id: &str) -> (q: Query)
    ensures
        q@ == one_text_query(ANCHOR_BY_ID_SCRIPT@, "link_id"@, link_id@),
{
    single_text_query(ANCHOR_BY_ID_SCRIPT, "link_id", link_id)
}

/// The anchors into the post whose id is given (named `link_id` here).
pub fn retrieve_anchors_by_post_id(link_id: &str) -> (q: Query)
    ensures
        q@ == one_text_query(ANCHORS_BY_POST_ID_SCRIPT@, "post_id"@, link_id@),
{
    single_text_query(ANCHORS_BY_POST_ID_SCRIPT, "post_id", link_id)
}

/// The anchors whose link ids are in `link_ids`.
pub fn retrieve_anchors_by_ids(link_ids: Vec<String>) -> (q: Query)
    ensures
        q@ == one_list_query(ANCHORS_BY_IDS_SCRIPT@, "link_ids"@, link_ids@),
{
    single_list_query(ANCHORS_BY_IDS_SCRIPT, "link_ids", link_ids)
}

/// The posts quoting `target_post_id` by its own author.
pub fn get_related_posts_by_same_author(target_post_id: &str) -> (q: Query)
    ensures
        q@ == one_text_query(RELATED_SAME_AUTHOR_SCRIPT@, "target_post_id"@, target_post_id@),
{
    single_text_query(RELATED_SAME_AUTHOR_SCRIPT, "target_post_id", target_post_id)
}

/// The posts linked with `target_post_id` by other authors.
pub fn get_related_posts_excluding_same_author(target_post_id: &str) -> (q: Query)
    ensures
        q@ == one_text_query(RELATED_OTHER_AUTHORS_SCRIPT@, "target_post_id"@, target_post_id@),
{
    single_text_query(RELATED_OTHER_AUTHORS_SCRIPT, "target_post_id", target_post_id)
}

/// The other authors that `author` quotes or is quoted by.
pub fn get_related_authors(author: &str) -> (q: Query)
    ensures
        q@ == one_text_query(RELATED_AUTHORS_SCRIPT@, "given_author"@, author@),
{
    single_text_query(RELATED_AUTHORS_SCRIPT, "given_author", author)
}

/// The posts that `post_id` quotes, directly or through other posts.
pub fn get_ancestor_of_post(post_id: &str) -> (q: Query)
    ensures
        q@ == one_text_query(ANCESTORS_SCRIPT@, "post_id"@, post_id@),
{
    single_text_query(ANCESTORS_SCRIPT, "post_id", post_id)
}

/// The latest post of each author.
pub fn get_latest_post_per_author() -> (q: Query)
    ensures
        q@ == (SpecQuery { script: LATEST_PER_AUTHOR_SCRIPT@, params: seq![] }),
{
    let q = query(LATEST_PER_AUTHOR_SCRIPT, Vec::new());
    assert(q@.params =~= seq![]);
    q
}

/// The `max_results` posts scored highest for diversity.
pub fn get_most_diverse_posts(max_results: u8) -> (q: Query)
    ensures
        q@ == (SpecQuery {
            script: MOST_DIVERSE_SCRIPT@,
            params: seq![("max_results"@, SpecParam::Int(max_results as int))],
        }),
{
    let mut params: Vec<(String, QueryParam)> = Vec::new();
    params.push((String::from_str("max_results"), QueryParam::Int(max_results as i64)));
    let q = query(MOST_DIVERSE_SCRIPT, params);
    assert(q@.params =~= seq![("max_results"@, SpecParam::Int(max_results as int))]);
    q
}

} // verus!
