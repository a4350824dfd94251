//! Whether an anchor may be stored, and which stored items are current.

use vstd::prelude::*;
use crate::model::{Anchor, SpecAnchor};
use crate::text::{has_prefix, starts_with};

verus! {

/// An anchor's link id must start with the id of the post it points into.
pub open spec fn link_id_well_formed(a: SpecAnchor) -> bool {
    has_prefix(a.link_id, a.post_id)
}

/// Whether the link id of `a` starts with its post id.
pub fn link_id_is_well_formed(a: &Anchor) -> (b: bool)
    ensures
        b == link_id_well_formed(a@),
        b == (a@.post_id.len() <= a@.link_id.len()
            && a@.link_id.subrange(0, a@.post_id.len() as int) == a@.post_id),
{
    starts_with(a.link_id.as_str(), a.post_id.as_str())
}

/// A link id is accepted exactly when the post id is a prefix of it: the
/// post id is no longer, and the link id's first characters, as many as the
/// post id has, are the post id.
pub proof fn law_link_id_accepted_exactly_with_post_id_prefix(a: SpecAnchor)
    ensures
        link_id_well_formed(a) <==> (a.post_id.len() <= a.link_id.len()
            && a.link_id.subrange(0, a.post_id.len() as int) == a.post_id),
        link_id_well_formed(SpecAnchor { link_id: a.post_id + a.link_id, ..a }),
{
    let b = SpecAnchor { link_id: a.post_id + a.link_id, ..a };
    assert(b.link_id.subrange(0, b.post_id.len() as int) =~= b.post_id);
}

/// A link id that differs from the post id at any position within the post
/// id's length, or that is shorter than the post id, is refused.
pub proof fn law_link_id_refused_on_mismatch(a: SpecAnchor, i: int)
    requires
        a.post_id.len() > a.link_id.len() || (0 <= i < a.post_id.len() && i < a.link_id.len()
            && a.link_id[i] != a.post_id[i]),
    ensures
        !link_id_well_formed(a),
{
    if a.post_id.len() <= a.link_id.len() && a.link_id.subrange(0, a.post_id.len() as int) == a.post_id {
        assert(a.link_id.subrange(0, a.post_id.len() as int)[i] == a.link_id[i]);
    }
}

/// Why an anchor is not stored.
#[derive(Debug, PartialEq, Eq)]
pub enum AnchorRejection {
    /// The link id does not start with the post id.
    InvalidLinkId,
    /// The post the anchor points into does not exist.
    ReferencedMissing,
    /// The post that quotes it does not exist.
    ReferencingMissing,
    /// The database could not be asked.
    LookupFailed,
    /// An anchor is already stored where this one would go.
    AlreadyExists,
}

impl AnchorRejection {
    /// The text of the response for this rejection of anchor `a` (empty for
    /// a failed lookup, which is answered without a body).
    pub fn message(&self, a: &Anchor) -> (s: String)
        ensures
            match *self {
                AnchorRejection::InvalidLinkId => s@ == "Invalid link_id format"@,
                AnchorRejection::ReferencedMissing => s@ == "Referenced post "@ + a.post_id@ + " not found"@,
                AnchorRejection::ReferencingMissing => s@ == "Referencing post "@ + a.referencing_post_id@ + " not found"@,
                AnchorRejection::LookupFailed => s@ == ""@,
                AnchorRejection::AlreadyExists => s@ == "Anchor "@ + a.link_id@ + " already exists"@,
            },
    {
        match self {
            AnchorRejection::InvalidLinkId => String::from_str("Invalid link_id format"),
            AnchorRejection::ReferencedMissing => {
                let mut s = String::from_str("Referenced post ");
                s.append(a.post_id.as_str());
                s.append(" not found");
                s
            },
            AnchorRejection::ReferencingMissing => {
                let mut s = String::from_str("Referencing post ");
                s.append(a.referencing_post_id.as_str());
                s.append(" not found");
                s
            },
            AnchorRejection::LookupFailed => String::from_str(""),
            AnchorRejection::AlreadyExists => anchor_conflict_message(a),
        }
    }
}

/// The outcome of looking a post up.
#[derive(Debug, PartialEq, Eq, Clone, Copy)]
pub enum Lookup {
    Found,
    Missing,
    Failed,
}

/// The next thing to do when saving an anchor.
#[derive(Debug, PartialEq, Eq)]
pub enum AnchorStep {
    /// Look up the post the anchor points into.
    LookUpReferenced,
    /// Look up the post that quotes it.
    LookUpReferencing,
    /// Store the anchor.
    Store,
    /// Answer with the rejection.
    Reject(AnchorRejection),
}

pub open spec fn spec_anchor_save_start(a: SpecAnchor) -> AnchorStep {
    if link_id_well_formed(a) {
        AnchorStep::LookUpReferenced
    } else {
        AnchorStep::Reject(AnchorRejection::InvalidLinkId)
    }
}

pub open spec fn spec_after_referenced(found: Lookup) -> AnchorStep {
    match found {
        Lookup::Found => AnchorStep::LookUpReferencing,
        Lookup::Missing => AnchorStep::Reject(AnchorRejection::ReferencedMissing),
        Lookup::Failed => AnchorStep::Reject(AnchorRejection::LookupFailed),
    }
}

pub open spec fn spec_after_referencing(found: Lookup) -> AnchorStep {
    match found {
        Lookup::Found => AnchorStep::Store,
        Lookup::Missing => AnchorStep::Reject(AnchorRejection::ReferencingMissing),
        Lookup::Failed => AnchorStep::Reject(AnchorRejection::LookupFailed),
    }
}

/// Saving an anchor starts by checking its link id.
pub fn anchor_save_start(a: &Anchor) -> (s: AnchorStep)
    ensures
        s == spec_anchor_save_start(a@),
{
    if link_id_is_well_formed(a) {
        AnchorStep::LookUpReferenced
    } else {
        AnchorStep::Reject(AnchorRejection::InvalidLinkId)
    }
}

/// After the referenced post has been looked up.
pub fn anchor_save_after_referenced(found: Lookup) -> (s: AnchorStep)
    ensures
        s == spec_after_referenced(found),
{
    match found {
        Lookup::Found => AnchorStep::LookUpReferencing,
        Lookup::Missing => AnchorStep::Reject(AnchorRejection::ReferencedMissing),
        Lookup::Failed => AnchorStep::Reject(AnchorRejection::LookupFailed),
    }
}

/// After the referencing post has been looked up.
pub fn anchor_save_after_referencing(found: Lookup) -> (s: AnchorStep)
    ensures
        s == spec_after_referencing(found),
{
    match found {
        Lookup::Found => AnchorStep::Store,
        Lookup::Missing => AnchorStep::Reject(AnchorRejection::ReferencingMissing),
        Lookup::Failed => AnchorStep::Reject(AnchorRejection::LookupFailed),
    }
}

/// The steps of saving an anchor, started on `a` and fed the lookups
/// `referenced` and `referencing` as far as they are asked for, end in
/// storing it exactly when its link id starts with its post id and both
/// posts were found; an anchor whose link id is malformed is never looked up.
pub proof fn law_anchor_stored_only_when_checked(a: SpecAnchor, referenced: Lookup, referencing: Lookup)
    ensures
        (spec_anchor_save_start(a) == AnchorStep::LookUpReferenced
            && spec_after_referenced(referenced) == AnchorStep::LookUpReferencing
            && spec_after_referencing(referencing) == AnchorStep::Store) <==> (link_id_well_formed(a)
            && referenced == Lookup::Found && referencing == Lookup::Found),
        !link_id_well_formed(a) ==> spec_anchor_save_start(a) == AnchorStep::Reject(AnchorRejection::InvalidLinkId),
{
}

/// The answer of the file-backed server's checks on anchor `a`, in its
/// order: link id, then the referenced post's directory, then the
/// referencing post's, then whether the anchor's directory is taken.
pub open spec fn spec_legacy_anchor_check(
    a: SpecAnchor,
    referenced_exists: bool,
    referencing_exists: bool,
    dir_taken: bool,
) -> Result<(), AnchorRejection> {
    if !link_id_well_formed(a) {
        Err(AnchorRejection::InvalidLinkId)
    } else if !referenced_exists {
        Err(AnchorRejection::ReferencedMissing)
    } else if !referencing_exists {
        Err(AnchorRejection::ReferencingMissing)
    } else if dir_taken {
        Err(AnchorRejection::AlreadyExists)
    } else {
        Ok(())
    }
}

/// The checks of the file-backed server. Only `Ok` lets the anchor be
/// written.
pub fn legacy_anchor_check(
    a: &Anchor,
    referenced_exists: bool,
    referencing_exists: bool,
    dir_taken: bool,
) -> (r: Result<(), AnchorRejection>)
    ensures
        r == spec_legacy_anchor_check(a@, referenced_exists, referencing_exists, dir_taken),
{
    if !link_id_is_well_formed(a) {
        Err(AnchorRejection::InvalidLinkId)
    } else if !referenced_exists {
        Err(AnchorRejection::ReferencedMissing)
    } else if !referencing_exists {
        Err(AnchorRejection::ReferencingMissing)
    } else if dir_taken {
        Err(AnchorRejection::AlreadyExists)
    } else {
        Ok(())
    }
}

/// The file-backed server's checks answer `Ok`, letting the anchor be
/// written, exactly when the post id is a prefix of the link id, both posts'
/// directories exist and the anchor's directory is free. With a well-formed
/// link id, a missing referenced post always gives `ReferencedMissing`,
/// whatever else holds, and a missing referencing post (with the referenced
/// one present) gives `ReferencingMissing`.
pub proof fn law_legacy_anchor_checks(
    a: SpecAnchor,
    referenced_exists: bool,
    referencing_exists: bool,
    dir_taken: bool,
)
    ensures
        spec_legacy_anchor_check(a, referenced_exists, referencing_exists, dir_taken) is Ok <==> (
            a.post_id.len() <= a.link_id.len()
            && a.link_id.subrange(0, a.post_id.len() as int) == a.post_id
            && referenced_exists && referencing_exists && !dir_taken),
        link_id_well_formed(a) && !referenced_exists ==> spec_legacy_anchor_check(
            a,
            referenced_exists,
            referencing_exists,
            dir_taken,
        ) == Err::<(), AnchorRejection>(AnchorRejection::ReferencedMissing),
        link_id_well_formed(a) && referenced_exists && !referencing_exists ==> spec_legacy_anchor_check(
            a,
            referenced_exists,
            referencing_exists,
            dir_taken,
        ) == Err::<(), AnchorRejection>(AnchorRejection::ReferencingMissing),
        !link_id_well_formed(a) ==> spec_legacy_anchor_check(a, referenced_exists, referencing_exists, dir_taken)
            == Err::<(), AnchorRejection>(AnchorRejection::InvalidLinkId),
{
    law_link_id_accepted_exactly_with_post_id_prefix(a);
}

/// A stored anchor is never overwritten: once an anchor's directory exists
/// (as it does after a call that succeeded), the checks never let it be
/// written again, and when every other check passes the answer is
/// `AlreadyExists`, whose text is "Anchor <link id> already exists".
pub proof fn law_stored_anchor_never_overwritten(a: SpecAnchor, referenced_exists: bool, referencing_exists: bool)
    ensures
        spec_legacy_anchor_check(a, referenced_exists, referencing_exists, true) is Err,
        spec_legacy_anchor_check(a, referenced_exists, referencing_exists, false) is Ok
            ==> spec_legacy_anchor_check(a, referenced_exists, referencing_exists, true)
            == Err::<(), AnchorRejection>(AnchorRejection::AlreadyExists),
{
}

/// The directory name under which the file-backed server keeps an anchor:
/// its link id, prefixed with `unverified_` when the quoting post is unsigned.
pub open spec fn legacy_anchor_dir(a: SpecAnchor) -> Seq<char> {
    if has_prefix(a.referencing_post_id, "unverified_"@) {
        "unverified_"@ + a.link_id
    } else {
        a.link_id
    }
}

pub fn legacy_anchor_dir_name(a: &Anchor) -> (d: String)
    ensures
        d@ == legacy_anchor_dir(a@),
{
    if starts_with(a.referencing_post_id.as_str(), "unverified_") {
        let mut d = String::from_str("unverified_");
        d.append(a.link_id.as_str());
        d
    } else {
        a.link_id.clone()
    }
}

/// The answer's text when an anchor directory is already taken.
pub fn anchor_conflict_message(a: &Anchor) -> (s: String)
    ensures
        s@ == "Anchor "@ + a.link_id@ + " already exists"@,
{
    let mut s = String::from_str("Anchor ");
    s.append(a.link_id.as_str());
    s.append(" already exists");
    s
}

/// A validity time stamp read as an unsigned 128-bit number, the way an
/// `as` cast reads it (negative stamps wrap around).
pub open spec fn stamp_as_u128(ts: i64) -> int {
    if ts >= 0 {
        ts as int
    } else {
        ts + 0x1_0000_0000_0000_0000_0000_0000_0000_0000int
    }
}

/// Whether an item stamped `ts` is current at `now`.
pub open spec fn is_current(ts: i64, now: u128) -> bool {
    stamp_as_u128(ts) <= now
}

pub fn stamp_is_current(ts: i64, now: u128) -> (b: bool)
    ensures
        b == is_current(ts, now),
{
    if ts >= 0 {
        (ts as u128) <= now
    } else {
        let m: u64 = (-(ts + 1)) as u64;
        let wrapped: u128 = u128::MAX - (m as u128);
        wrapped <= now
    }
}

/// The items of `items` (in order) whose stamps are current at `now`.
pub open spec fn keep_current<T>(items: Seq<(T, i64)>, now: u128) -> Seq<T>
    decreases items.len(),
{
    if items.len() == 0 {
        Seq::empty()
    } else {
        let rest = keep_current(items.drop_first(), now);
        if is_current(items[0].1, now) {
            seq![items[0].0].add(rest)
        } else {
            rest
        }
    }
}

/// Keeps, in order, the items whose stamps are current at `now`.
pub fn filter_current<T>(items: Vec<(T, i64)>, now: u128) -> (r: Vec<T>)
    ensures
        r@ == keep_current(items@, now),
{
    let ghost all = items@;
    let mut items = items;
    let mut kept: Vec<T> = Vec::new();
    while items.len() > 0
        invariant
            kept@ + keep_current(items@, now) == keep_current(all, now),
        decreases items.len(),
    {
        let ghost before = items@;
        let (x, ts) = items.remove(0);
        assert(items@ =~= before.drop_first());
        if stamp_is_current(ts, now) {
            kept.push(x);
            assert(kept@ + keep_current(items@, now) =~= (kept@.drop_last() + keep_current(before, now)));
        }
    }
    assert(kept@ =~= keep_current(all, now));
    kept
}

} // verus!
