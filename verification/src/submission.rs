//! What happens to a submitted post: its id, whether its signature verifies,
//! the command it carries, and the decisions that commands lead to.

use vstd::prelude::*;
use vstd::utf8::encode_utf8;
use crate::anchors::{link_id_well_formed, spec_anchor_save_start, AnchorStep};
use crate::command::{parse_command, spec_parse_command, PostCommand, SpecCommand};
use crate::keypair::Keypair;
use crate::listing::{entry_from_row, spec_row_post};
use crate::model::{cell_text, Anchor, LegacyPost, Post, SpecAnchor, SpecLegacyPost, SpecPost};
use crate::primitives::{
    base64_standard_decode, base64_standard_decoded, base64_url_nopad_decode,
    base64_url_nopad_decoded, base64_url_nopad_encode, base64_url_nopad_encoded,
    bytes_debug_text, debug_bytes, debug_str, ed25519_key_decodes, ed25519_verifies_under_key,
    json_string, json_string_text, ring_ed25519_accepts, ring_ed25519_verify, sha256,
    sha256_digest, str_debug_text,
};

verus! {

/// The bytes that `o` decoded to, or none.
pub open spec fn decoded_or_empty(o: Option<Seq<u8>>) -> Seq<u8> {
    match o {
        Some(b) => b,
        None => Seq::empty(),
    }
}

pub open spec fn command_view(c: Option<PostCommand>) -> Option<SpecCommand> {
    match c {
        Some(c) => Some(c.view()),
        None => None,
    }
}

/// The text hashed into a post's id: title, author and content, then the
/// signature as std's `Debug` writes a string.
pub open spec fn post_preimage(p: SpecPost) -> Seq<char> {
    p.title + p.author + p.content + str_debug_text(p.signature)
}

/// The URL-safe base64 of the SHA-256 of the post's preimage.
pub open spec fn post_digest_text(p: SpecPost) -> Seq<char> {
    base64_url_nopad_encoded(sha256(encode_utf8(post_preimage(p))))
}

/// The public key bytes a post claims: its author decoded as standard
/// base64, or nothing when the author is not base64.
pub open spec fn claimed_key(p: SpecPost) -> Seq<u8> {
    decoded_or_empty(base64_standard_decoded(encode_utf8(p.author)))
}

/// The signature bytes of a post: its signature decoded as standard base64.
pub open spec fn claimed_signature(p: SpecPost) -> Seq<u8> {
    base64_standard_decoded(encode_utf8(p.signature))->0
}

/// The posts that can be processed at all: those whose signature is
/// standard base64.
pub open spec fn submission_processable(p: SpecPost) -> bool {
    base64_standard_decoded(encode_utf8(p.signature)) is Some
}

/// Whether the post's signature verifies under the key its author names:
/// the author decodes to at least 32 bytes, which make an Ed25519 public
/// key, and the first 64 bytes of the signature are a valid signature of the
/// content under it. A post whose author names no key, or whose signature is
/// too short, is not signed.
pub open spec fn submission_verified(p: SpecPost) -> bool {
    let key = claimed_key(p);
    let sig = claimed_signature(p);
    &&& key.len() >= 32
    &&& sig.len() >= 64
    &&& ed25519_key_decodes(key.subrange(0, 32))
    &&& ed25519_verifies_under_key(key.subrange(0, 32), encode_utf8(p.content), sig.subrange(0, 64))
}

/// A post counts as signed exactly when the first 64 bytes of its
/// signature (standard base64, decoded) are a valid Ed25519 signature of its
/// whole content, taken as UTF-8 bytes, under the key made of the first 32
/// bytes its author decodes to (standard base64); a key or a signature too
/// short leaves it unsigned.
pub proof fn law_signed_exactly_when_signature_covers_whole_content(p: SpecPost)
    ensures
        ({
            let key = decoded_or_empty(base64_standard_decoded(encode_utf8(p.author)));
            let sig = base64_standard_decoded(encode_utf8(p.signature))->0;
            submission_verified(p) <==> (key.len() >= 32 && sig.len() >= 64 && ed25519_key_decodes(
                key.subrange(0, 32),
            ) && ed25519_verifies_under_key(key.subrange(0, 32), encode_utf8(p.content), sig.subrange(0, 64)))
        }),
{
}

/// Prefix of the id of a post whose signature does not verify.
pub open spec fn unverified_id_prefix() -> Seq<char> {
    "unverified_"@
}

/// Prefix put before the author of a post whose signature does not verify.
pub open spec fn unverified_author_prefix() -> Seq<char> {
    "Unverified: "@
}

/// The outcome of processing a submitted post: the id it is stored under,
/// whether it is signed, the post as stored, and the command it carries
/// (only a signed post's commands are carried out).
#[derive(Debug)]
pub struct Submission {
    pub post_id: String,
    pub verified: bool,
    pub stored: Post,
    pub command: Option<PostCommand>,
}

/// What processing `p` gives: a signed post keeps its author and gets the
/// digest as id; an unsigned one is stored under `unverified_` + digest
/// with its author marked.
pub open spec fn submission_matches(p: SpecPost, s: Submission) -> bool {
    &&& s.verified == submission_verified(p)
    &&& s.verified ==> {
        &&& s.post_id@ == post_digest_text(p)
        &&& s.stored@ == p
        &&& command_view(s.command) == spec_parse_command(p.content)
    }
    &&& !s.verified ==> {
        &&& s.post_id@ == unverified_id_prefix() + post_digest_text(p)
        &&& s.stored@ == SpecPost { author: unverified_author_prefix() + p.author, ..p }
        &&& s.command is None
    }
}

fn concat(a: &str, b: &str) -> (r: String)
    ensures
        r@ == a@ + b@,
{
    let mut r = String::from_str(a);
    r.append(b);
    r
}

/// The URL-safe base64 of the SHA-256 of the post's preimage.
pub fn post_digest(post: &Post) -> (d: String)
    ensures
        d@ == post_digest_text(post@),
{
    let mut pre = post.title.clone();
    pre.append(post.author.as_str());
    pre.append(post.content.as_str());
    let sig_text = debug_str(post.signature.as_str());
    pre.append(sig_text.as_str());
    let digest = sha256_digest(pre.as_str().as_bytes());
    base64_url_nopad_encode(digest.as_slice())
}

/// Processes a submitted post.
pub fn plan_submission(post: &Post) -> (s: Submission)
    requires
        submission_processable(post@),
    ensures
        submission_matches(post@, s),
{
    let key = match base64_standard_decode(post.author.as_str().as_bytes()) {
        Some(b) => b,
        None => Vec::new(),
    };
    let sig = match base64_standard_decode(post.signature.as_str().as_bytes()) {
        Some(b) => b,
        None => Vec::new(),
    };
    let digest = post_digest(post);
    let verified = key.len() >= 32 && sig.len() >= 64 && Keypair::verify_with_key(
        key.as_slice(),
        post.content.as_str().as_bytes(),
        sig.as_slice(),
    );
    if verified {
        Submission {
            post_id: digest,
            verified: true,
            stored: post.clone_post(),
            command: parse_command(post.content.as_str()),
        }
    } else {
        let author = concat("Unverified: ", post.author.as_str());
        let stored = Post {
            title: post.title.clone(),
            author,
            content: post.content.clone(),
            signature: post.signature.clone(),
        };
        Submission {
            post_id: concat("unverified_", digest.as_str()),
            verified: false,
            stored,
            command: None,
        }
    }
}

/// `plan_submission` where the post can be processed, `None` where it cannot.
pub fn try_plan_submission(post: &Post) -> (r: Option<Submission>)
    ensures
        r is Some <==> submission_processable(post@),
        r matches Some(s) ==> submission_matches(post@, s),
{
    match base64_standard_decode(post.signature.as_str().as_bytes()) {
        Some(_) => Some(plan_submission(post)),
        None => None,
    }
}

/// The content that replaces a deleted post's: a JSON object holding
/// `"deleted": true` and the URL-safe base64 SHA-256 of the old content.
pub open spec fn deleted_content(content: Seq<char>) -> Seq<char> {
    "{\"deleted\":true,\"hash\":"@ + json_string_text(
        base64_url_nopad_encoded(sha256(encode_utf8(content))),
    ) + "}"@
}

/// The stub that replaces a deleted post's content is the JSON object
/// `{"deleted":true,"hash":…}` whose hash is the URL-safe base64 of the
/// SHA-256 of the whole old content, taken as its UTF-8 bytes: removing the
/// stub's fixed opening and its closing brace leaves exactly the JSON string
/// of that hash. So two stubs are equal only when they hold the same hash of
/// the whole content.
pub proof fn law_deleted_stub_holds_hash_of_whole_content(c: Seq<char>, c2: Seq<char>)
    ensures
        ({
            let d = deleted_content(c);
            &&& d.len() >= 24
            &&& d.subrange(0, 23) == "{\"deleted\":true,\"hash\":"@
            &&& d.subrange(23, d.len() - 1) == json_string_text(base64_url_nopad_encoded(sha256(encode_utf8(c))))
            &&& d.last() == '}'
        }),
        deleted_content(c) == deleted_content(c2) ==> json_string_text(
            base64_url_nopad_encoded(sha256(encode_utf8(c))),
        ) == json_string_text(base64_url_nopad_encoded(sha256(encode_utf8(c2)))),
{
    reveal_strlit("{\"deleted\":true,\"hash\":");
    reveal_strlit("}");
    let pre = "{\"deleted\":true,\"hash\":"@;
    let j1 = json_string_text(base64_url_nopad_encoded(sha256(encode_utf8(c))));
    let j2 = json_string_text(base64_url_nopad_encoded(sha256(encode_utf8(c2))));
    let d1 = deleted_content(c);
    let d2 = deleted_content(c2);
    assert(d1 =~= pre + j1 + seq!['}']);
    assert(d2 =~= pre + j2 + seq!['}']);
    assert(d1.subrange(0, 23) =~= pre);
    assert(d1.subrange(23, d1.len() - 1) =~= j1);
    assert(d2.subrange(23, d2.len() - 1) =~= j2);
}

/// Why a delete command is refused.
#[derive(Debug, PartialEq, Eq)]
pub enum DeleteRefusal {
    /// The post to delete has another author.
    NotAuthor,
}

impl DeleteRefusal {
    pub fn message(&self) -> (s: String)
        ensures
            s@ == "You are not authorized to delete this post"@,
    {
        String::from_str("You are not authorized to delete this post")
    }
}

/// The stand-in for a deleted post's content.
pub fn deleted_content_of(content: &str) -> (c: String)
    ensures
        c@ == deleted_content(content@),
{
    let digest = sha256_digest(content.as_bytes());
    let hash = base64_url_nopad_encode(digest.as_slice());
    let quoted = json_string(hash.as_str());
    let mut c = String::from_str("{\"deleted\":true,\"hash\":");
    c.append(quoted.as_str());
    c.append("}");
    c
}

/// A delete command by `submitter_author` on `target`: allowed only to the
/// target's own author, and then the target keeps everything but its
/// content, which becomes the deletion stand-in.
pub fn decide_delete(submitter_author: &String, target: &Post) -> (r: Result<Post, DeleteRefusal>)
    ensures
        (r is Ok) <==> target.author@ == submitter_author@,
        r matches Ok(p) ==> p@ == (SpecPost { content: deleted_content(target.content@), ..target@ }),
        r matches Err(e) ==> e == DeleteRefusal::NotAuthor,
{
    if target.author == *submitter_author {
        Ok(Post {
            title: target.title.clone(),
            author: target.author.clone(),
            content: deleted_content_of(target.content.as_str()),
            signature: target.signature.clone(),
        })
    } else {
        Err(DeleteRefusal::NotAuthor)
    }
}

/// Why a command on another post is not carried out; the command's own
/// post is then not stored either.
#[derive(Debug, PartialEq, Eq)]
pub enum CommandRefusal {
    /// No post has the id the command names.
    TargetMissing,
    /// The post the command names has another author.
    NotAuthor,
}

impl CommandRefusal {
    /// The error text of the answer.
    pub fn message(&self) -> (s: String)
        ensures
            match *self {
                CommandRefusal::TargetMissing => s@ == "Post not found"@,
                CommandRefusal::NotAuthor => s@ == "You are not authorized to delete this post"@,
            },
    {
        match self {
            CommandRefusal::TargetMissing => String::from_str("Post not found"),
            CommandRefusal::NotAuthor => String::from_str("You are not authorized to delete this post"),
        }
    }
}

/// The post a command names, from the rows its lookup answered (id,
/// validity, title, author, content, signature): the first row's id and
/// post, or `TargetMissing` when the lookup found no row.
pub fn command_target(rows: &Vec<Vec<Option<String>>>) -> (r: Result<(String, Post), CommandRefusal>)
    requires
        rows.len() > 0 ==> rows@[0].len() >= 6,
    ensures
        (r is Err) <==> rows.len() == 0,
        r matches Err(e) ==> e == CommandRefusal::TargetMissing,
        r matches Ok(t) ==> t.0@ == cell_text(rows@[0]@[0]) && t.1@ == spec_row_post(rows@[0]@),
{
    if rows.len() == 0 {
        Err(CommandRefusal::TargetMissing)
    } else {
        Ok(entry_from_row(&rows[0]))
    }
}

/// The anchor that a link command creates from the post `target_id` it
/// names (read as `referenced`) to the new post `post_id`: only when both
/// posts have the same author. Its link id is the target's id, `_`, and a
/// random suffix, so it starts with the id of the post it points into, as
/// saving an anchor demands; its reference is empty.
pub fn decide_link(
    post_id: &String,
    target_id: &String,
    submitter_author: &String,
    referenced: &Post,
    suffix: &String,
) -> (r: Option<Anchor>)
    ensures
        r is Some <==> referenced.author@ == submitter_author@,
        r matches Some(a) ==> a@ == (SpecAnchor {
            link_id: target_id@ + "_"@ + suffix@,
            post_id: target_id@,
            reference: ""@,
            referencing_post_id: post_id@,
        }),
        r matches Some(a) ==> link_id_well_formed(a@)
            && spec_anchor_save_start(a@) == AnchorStep::LookUpReferenced,
{
    if *submitter_author == referenced.author {
        let mut link_id = target_id.clone();
        link_id.append("_");
        link_id.append(suffix.as_str());
        let a = Anchor {
            link_id,
            post_id: target_id.clone(),
            reference: String::from_str(""),
            referencing_post_id: post_id.clone(),
        };
        proof {
            assert(a@.link_id.subrange(0, a@.post_id.len() as int) =~= a@.post_id);
        }
        Some(a)
    } else {
        None
    }
}

// ---------------------------------------------------------------------------
// The file-backed server, whose posts carry raw signature bytes.

pub open spec fn legacy_preimage(p: SpecLegacyPost) -> Seq<char> {
    p.title + p.author + p.content + bytes_debug_text(p.signature)
}

pub open spec fn legacy_digest_text(p: SpecLegacyPost) -> Seq<char> {
    base64_url_nopad_encoded(sha256(encode_utf8(legacy_preimage(p))))
}

/// Whether `ring` accepts the post's signature (URL-safe base64, or nothing)
/// under the key its author names (URL-safe base64, or nothing).
pub open spec fn legacy_verified(p: SpecLegacyPost) -> bool {
    ring_ed25519_accepts(
        decoded_or_empty(base64_url_nopad_decoded(encode_utf8(p.author))),
        encode_utf8(p.content),
        decoded_or_empty(base64_url_nopad_decoded(p.signature)),
    )
}

#[derive(Debug)]
pub struct LegacySubmission {
    pub post_id: String,
    pub verified: bool,
    pub stored: LegacyPost,
    pub command: Option<PostCommand>,
}

/// A signed post keeps its author and gets the digest as id; an unsigned
/// one gets its author marked and is stored under `unverified_` + the
/// digest, so that each post has an id of its own.
pub open spec fn legacy_submission_matches(p: SpecLegacyPost, s: LegacySubmission) -> bool {
    &&& s.verified == legacy_verified(p)
    &&& s.verified ==> {
        &&& s.post_id@ == legacy_digest_text(p)
        &&& s.stored@ == p
        &&& command_view(s.command) == spec_parse_command(p.content)
    }
    &&& !s.verified ==> {
        &&& s.stored@ == SpecLegacyPost { author: unverified_author_prefix() + p.author, ..p }
        &&& s.post_id@ == unverified_id_prefix() + legacy_digest_text(p)
        &&& s.command is None
    }
}

fn copy_bytes(v: &Vec<u8>) -> (r: Vec<u8>)
    ensures
        r@ == v@,
{
    let mut r: Vec<u8> = Vec::new();
    let mut i: usize = 0;
    while i < v.len()
        invariant
            0 <= i <= v.len(),
            r@ == v@.subrange(0, i as int),
        decreases v.len() - i,
    {
        r.push(v[i]);
        assert(r@ =~= v@.subrange(0, i + 1));
        i = i + 1;
    }
    assert(v@.subrange(0, v@.len() as int) =~= v@);
    r
}

/// Processes a post submitted to the file-backed server.
pub fn plan_legacy_submission(post: &LegacyPost) -> (s: LegacySubmission)
    ensures
        legacy_submission_matches(post@, s),
{
    let key = match base64_url_nopad_decode(post.author.as_str().as_bytes()) {
        Some(b) => b,
        None => Vec::new(),
    };
    let sig = match base64_url_nopad_decode(post.signature.as_slice()) {
        Some(b) => b,
        None => Vec::new(),
    };
    let mut pre = post.title.clone();
    pre.append(post.author.as_str());
    pre.append(post.content.as_str());
    let sig_text = debug_bytes(post.signature.as_slice());
    pre.append(sig_text.as_str());
    let digest = sha256_digest(pre.as_str().as_bytes());
    let digest_text = base64_url_nopad_encode(digest.as_slice());
    if ring_ed25519_verify(key.as_slice(), post.content.as_str().as_bytes(), sig.as_slice()) {
        LegacySubmission {
            post_id: digest_text,
            verified: true,
            stored: LegacyPost {
                title: post.title.clone(),
                author: post.author.clone(),
                content: post.content.clone(),
                signature: copy_bytes(&post.signature),
            },
            command: parse_command(post.content.as_str()),
        }
    } else {
        let author = concat("Unverified: ", post.author.as_str());
        let post_id = concat("unverified_", digest_text.as_str());
        LegacySubmission {
            post_id,
            verified: false,
            stored: LegacyPost {
                title: post.title.clone(),
                author,
                content: post.content.clone(),
                signature: copy_bytes(&post.signature),
            },
            command: None,
        }
    }
}

/// A delete command on the file-backed server: as `decide_delete`.
pub fn decide_legacy_delete(submitter_author: &String, target: &LegacyPost) -> (r: Result<LegacyPost, DeleteRefusal>)
    ensures
        (r is Ok) <==> target.author@ == submitter_author@,
        r matches Ok(p) ==> p@ == (SpecLegacyPost { content: deleted_content(target.content@), ..target@ }),
        r matches Err(e) ==> e == DeleteRefusal::NotAuthor,
{
    if target.author == *submitter_author {
        Ok(LegacyPost {
            title: target.title.clone(),
            author: target.author.clone(),
            content: deleted_content_of(target.content.as_str()),
            signature: copy_bytes(&target.signature),
        })
    } else {
        Err(DeleteRefusal::NotAuthor)
    }
}


/// The id a post is stored under, the post as stored, and whether it counts
/// as signed depend on the submitted post alone: two processings of one
/// post agree, whatever else has happened in between.
pub proof fn law_submission_depends_on_post_alone(p: SpecPost, s1: Submission, s2: Submission)
    requires
        submission_matches(p, s1),
        submission_matches(p, s2),
    ensures
        s1.post_id@ == s2.post_id@,
        s1.stored@ == s2.stored@,
        s1.verified == s2.verified,
{
}

/// On the file-backed server too, a post's id depends on the post alone;
/// and two posts that both verify, or both do not, get different ids
/// whenever their digests differ, so one does not overwrite the other.
pub proof fn law_legacy_ids(p1: SpecLegacyPost, s1: LegacySubmission, p2: SpecLegacyPost, s2: LegacySubmission)
    requires
        legacy_submission_matches(p1, s1),
        legacy_submission_matches(p2, s2),
    ensures
        p1 == p2 ==> s1.post_id@ == s2.post_id@,
        s1.verified == s2.verified && legacy_digest_text(p1) != legacy_digest_text(p2)
            ==> s1.post_id@ != s2.post_id@,
{
    if s1.verified == s2.verified && !s1.verified && legacy_digest_text(p1) != legacy_digest_text(p2) {
        let pre = unverified_id_prefix();
        assert((pre + legacy_digest_text(p1)).subrange(pre.len() as int, (pre + legacy_digest_text(p1)).len() as int) =~= legacy_digest_text(p1));
        assert((pre + legacy_digest_text(p2)).subrange(pre.len() as int, (pre + legacy_digest_text(p2)).len() as int) =~= legacy_digest_text(p2));
    }
}

/// A delete command on the file-backed server, given the post it names if
/// that post's directory exists: `TargetMissing` when it does not, then as
/// `decide_legacy_delete`.
pub fn legacy_delete_step(submitter_author: &String, target: Option<LegacyPost>) -> (r: Result<LegacyPost, CommandRefusal>)
    ensures
        target is None ==> r == Err::<LegacyPost, CommandRefusal>(CommandRefusal::TargetMissing),
        target matches Some(t) ==> {
            &&& (r is Ok) <==> t.author@ == submitter_author@
            &&& r matches Ok(p) ==> p@ == (SpecLegacyPost { content: deleted_content(t.content@), ..t@ })
            &&& r matches Err(e) ==> e == CommandRefusal::NotAuthor
        },
{
    match target {
        None => Err(CommandRefusal::TargetMissing),
        Some(t) => match decide_legacy_delete(submitter_author, &t) {
            Ok(p) => Ok(p),
            Err(_) => Err(CommandRefusal::NotAuthor),
        },
    }
}

} // verus!

verus! {

/// `s` with leading and trailing whitespace removed.
pub fn trimmed(s: &str) -> (t: String)
    ensures
        t@ == crate::text::trim(s@),
{
    let v = crate::text::chars_of(s);
    let r = crate::text::trim_range(&v, 0, v.len());
    assert(v@.subrange(0, v@.len() as int) =~= v@);
    crate::text::string_from_chars(r.as_slice())
}

/// What to do for a processed submission before it is stored.
#[derive(Debug, PartialEq, Eq)]
pub enum SubmitStep {
    /// Read the post `id` that a delete command names.
    FetchForDelete { id: String },
    /// Read the post `id` that a link command names.
    FetchForLink { id: String },
    /// Store the submitted post.
    StorePost,
}

pub open spec fn spec_first_step(command: Option<SpecCommand>) -> (Option<Seq<char>>, Option<Seq<char>>) {
    match command {
        Some(SpecCommand::Delete(t)) => (Some(crate::text::trim(t)), None),
        Some(SpecCommand::Link(t)) => (None, Some(crate::text::trim(t))),
        None => (None, None),
    }
}

/// The first step after processing: the post a command names is read
/// first (its id trimmed); without a command the post is stored at once.
pub fn submission_first_step(s: &Submission) -> (step: SubmitStep)
    ensures
        match step {
            SubmitStep::FetchForDelete { id } => spec_first_step(command_view(s.command)) == (Some(id@), None::<Seq<char>>),
            SubmitStep::FetchForLink { id } => spec_first_step(command_view(s.command)) == (None::<Seq<char>>, Some(id@)),
            SubmitStep::StorePost => s.command is None,
        },
        match step {
            SubmitStep::FetchForDelete { id } => command_view(s.command) matches Some(SpecCommand::Delete(t))
                && id@ == crate::text::trim(t),
            SubmitStep::FetchForLink { id } => command_view(s.command) matches Some(SpecCommand::Link(t))
                && id@ == crate::text::trim(t),
            SubmitStep::StorePost => s.command is None,
        },
{
    match &s.command {
        Some(PostCommand::Delete { target }) => SubmitStep::FetchForDelete { id: trimmed(target.as_str()) },
        Some(PostCommand::Link { target }) => SubmitStep::FetchForLink { id: trimmed(target.as_str()) },
        None => SubmitStep::StorePost,
    }
}

/// What a signed post's command comes to once the post it names has been
/// read. The steps run in the order the variant names them.
#[derive(Debug)]
pub enum CommandPlan {
    /// Answer with the refusal and store nothing.
    Refuse(CommandRefusal),
    /// Store `replacement` under `id` in place of the deleted post, then the
    /// new post.
    ReplaceThenStore { id: String, replacement: Post },
    /// Store the new post first, then save `anchor`, which quotes it: saving
    /// an anchor checks that the quoting post exists, so the new post must be
    /// there before.
    StoreThenAnchor { anchor: Anchor },
    /// Store the new post; nothing else.
    Store,
}

/// The plan for the command of `s`, given the lookup of the post it names
/// (`command_target`'s answer) and the random suffix for a link's anchor:
/// a missing target refuses; a delete replaces the target by its stub when
/// the authors agree and is refused otherwise; a link stores the new post
/// and then the anchor from the target to it when the authors agree, and
/// stores only the new post otherwise.
pub fn plan_command(
    s: &Submission,
    found: Result<(String, Post), CommandRefusal>,
    suffix: &String,
) -> (p: CommandPlan)
    requires
        s.command is Some,
    ensures
        match found {
            Err(e) => p == CommandPlan::Refuse(e),
            Ok(t) => match command_view(s.command) {
                Some(SpecCommand::Delete(_)) => if t.1.author@ == s.stored.author@ {
                    p matches CommandPlan::ReplaceThenStore { id, replacement } && id@ == t.0@
                        && replacement@ == (SpecPost { content: deleted_content(t.1.content@), ..t.1@ })
                } else {
                    p == CommandPlan::Refuse(CommandRefusal::NotAuthor)
                },
                Some(SpecCommand::Link(name)) => if t.1.author@ == s.stored.author@ {
                    p matches CommandPlan::StoreThenAnchor { anchor } && anchor@ == (SpecAnchor {
                        link_id: crate::text::trim(name) + "_"@ + suffix@,
                        post_id: crate::text::trim(name),
                        reference: ""@,
                        referencing_post_id: s.post_id@,
                    }) && link_id_well_formed(anchor@)
                } else {
                    p is Store
                },
                None => false,
            },
        },
{
    match found {
        Err(e) => CommandPlan::Refuse(e),
        Ok((id, target)) => match &s.command {
            Some(PostCommand::Delete { target: _ }) => match decide_delete(&s.stored.author, &target) {
                Ok(replacement) => CommandPlan::ReplaceThenStore { id, replacement },
                Err(_) => CommandPlan::Refuse(CommandRefusal::NotAuthor),
            },
            Some(PostCommand::Link { target: name }) => {
                let target_id = trimmed(name.as_str());
                match decide_link(&s.post_id, &target_id, &s.stored.author, &target, suffix) {
                    Some(anchor) => CommandPlan::StoreThenAnchor { anchor },
                    None => CommandPlan::Store,
                }
            },
            None => CommandPlan::Store,
        },
    }
}

/// A link command's anchor is stored: saving it after the new post it
/// quotes has been stored, while the post it points into exists, passes
/// every step. So a signed link command by the target's author, carried out
/// as `plan_command` orders, ends with the anchor stored.
pub proof fn law_link_anchor_is_stored(target_id: Seq<char>, suffix: Seq<char>, new_id: Seq<char>)
    ensures
        ({
            let a = SpecAnchor {
                link_id: target_id + "_"@ + suffix,
                post_id: target_id,
                reference: ""@,
                referencing_post_id: new_id,
            };
            &&& spec_anchor_save_start(a) == AnchorStep::LookUpReferenced
            &&& crate::anchors::spec_after_referenced(crate::anchors::Lookup::Found) == AnchorStep::LookUpReferencing
            &&& crate::anchors::spec_after_referencing(crate::anchors::Lookup::Found) == AnchorStep::Store
        }),
{
    let a = SpecAnchor {
        link_id: target_id + "_"@ + suffix,
        post_id: target_id,
        reference: ""@,
        referencing_post_id: new_id,
    };
    assert(a.link_id.subrange(0, a.post_id.len() as int) =~= a.post_id);
}

/// A command's target is looked up by its name without the whitespace
/// around it: the id fetched for a delete or a link command is the trimmed
/// name, which starts and ends with no whitespace and stands inside the name
/// as written.
pub proof fn law_command_target_fetched_trimmed(t: Seq<char>)
    ensures
        spec_first_step(Some(SpecCommand::Delete(t))) == (Some(crate::text::trim(t)), None::<Seq<char>>),
        spec_first_step(Some(SpecCommand::Link(t))) == (None::<Seq<char>>, Some(crate::text::trim(t))),
        crate::text::trim(t).len() > 0 ==> !crate::text::is_unicode_whitespace(crate::text::trim(t)[0])
            && !crate::text::is_unicode_whitespace(crate::text::trim(t).last()),
        t.len() > 0 && !crate::text::is_unicode_whitespace(t[0]) && !crate::text::is_unicode_whitespace(t.last())
            ==> crate::text::trim(t) == t,
{
    lemma_trim_start_edges(t);
    lemma_trim_end_edges(crate::text::trim_start(t));
    if t.len() > 0 && !crate::text::is_unicode_whitespace(t[0]) && !crate::text::is_unicode_whitespace(t.last()) {
        assert(crate::text::trim_start(t) == t);
    }
}

proof fn lemma_trim_start_edges(s: Seq<char>)
    ensures
        crate::text::trim_start(s).len() <= s.len(),
        crate::text::trim_start(s).len() > 0 ==> !crate::text::is_unicode_whitespace(crate::text::trim_start(s)[0]),
        crate::text::trim_start(s) == s.subrange(s.len() - crate::text::trim_start(s).len(), s.len() as int),
    decreases s.len(),
{
    if s.len() > 0 && crate::text::is_unicode_whitespace(s[0]) {
        lemma_trim_start_edges(s.drop_first());
        let r = crate::text::trim_start(s.drop_first());
        assert(s.drop_first().subrange(s.drop_first().len() - r.len(), s.drop_first().len() as int)
            =~= s.subrange(s.len() - r.len(), s.len() as int));
    } else {
        assert(s.subrange(0, s.len() as int) =~= s);
    }
}

proof fn lemma_trim_end_edges(s: Seq<char>)
    ensures
        crate::text::trim_end(s).len() <= s.len(),
        crate::text::trim_end(s) == s.subrange(0, crate::text::trim_end(s).len() as int),
        crate::text::trim_end(s).len() > 0 ==> !crate::text::is_unicode_whitespace(crate::text::trim_end(s).last()),
        s.len() > 0 && !crate::text::is_unicode_whitespace(s[0]) && crate::text::trim_end(s).len() > 0
            ==> crate::text::trim_end(s)[0] == s[0],
    decreases s.len(),
{
    if s.len() > 0 && crate::text::is_unicode_whitespace(s.last()) {
        lemma_trim_end_edges(s.drop_last());
        let r = crate::text::trim_end(s.drop_last());
        assert(s.drop_last().subrange(0, r.len() as int) =~= s.subrange(0, r.len() as int));
    } else {
        assert(s.subrange(0, s.len() as int) =~= s);
    }
}

/// The first step of the file-backed server: a delete command's id is
/// trimmed, a link command's is used as written.
pub fn legacy_submission_first_step(s: &LegacySubmission) -> (step: SubmitStep)
    ensures
        match step {
            SubmitStep::FetchForDelete { id } => command_view(s.command) matches Some(SpecCommand::Delete(t)) && id@ == crate::text::trim(t),
            SubmitStep::FetchForLink { id } => command_view(s.command) == Some(SpecCommand::Link(id@)),
            SubmitStep::StorePost => s.command is None,
        },
{
    match &s.command {
        Some(PostCommand::Delete { target }) => SubmitStep::FetchForDelete { id: trimmed(target.as_str()) },
        Some(PostCommand::Link { target }) => SubmitStep::FetchForLink { id: target.clone() },
        None => SubmitStep::StorePost,
    }
}

} // verus!

verus! {

/// The random part of a link command's anchor id: eight ASCII letters or digits.
pub fn random_link_suffix() -> (s: String)
    ensures
        s@.len() == 8,
        forall|i: int| 0 <= i < 8 ==> crate::primitives::is_ascii_alphanumeric(#[trigger] s@[i]),
{
    crate::primitives::random_alphanumeric_8()
}

/// Whether a link command of the file-backed server records the new post
/// with the referenced one: only when both have the same author.
pub fn legacy_link_applies(submitter_author: &String, referenced: &LegacyPost) -> (b: bool)
    ensures
        b == (submitter_author@ == referenced.author@),
{
    *submitter_author == referenced.author
}

} // verus!
