//! Reading posts and anchors out of query rows, and choosing what to list.

use vstd::prelude::*;
use crate::model::{Anchor, LegacyPost, Post, SpecAnchor, SpecPost, cell_or_invalid, cell_text, post_from_cells, spec_post_from_cells};
use crate::primitives::choose_indices;
use crate::text::{chars_of, has_prefix, range_equals, starts_with};

verus! {

/// The post of a row holding id, validity, title, author, content and signature.
pub open spec fn spec_row_post(row: Seq<Option<String>>) -> SpecPost {
    spec_post_from_cells(row, 2)
}

/// The id and post of a row holding id, validity, title, author, content and signature.
pub fn entry_from_row(row: &Vec<Option<String>>) -> (e: (String, Post))
    requires
        row.len() >= 6,
    ensures
        e.0@ == cell_text(row@[0]),
        e.1@ == spec_row_post(row@),
{
    (cell_or_invalid(row, 0), post_from_cells(row, 2))
}

/// The anchor of a row holding link id, validity, post id, reference and
/// referencing post id.
pub fn anchor_from_row(row: &Vec<Option<String>>) -> (a: Anchor)
    requires
        row.len() >= 5,
    ensures
        a@ == (SpecAnchor {
            link_id: cell_text(row@[0]),
            post_id: cell_text(row@[2]),
            reference: cell_text(row@[3]),
            referencing_post_id: cell_text(row@[4]),
        }),
{
    Anchor {
        link_id: cell_or_invalid(row, 0),
        post_id: cell_or_invalid(row, 2),
        reference: cell_or_invalid(row, 3),
        referencing_post_id: cell_or_invalid(row, 4),
    }
}

/// The post a lookup by id answers with: the first row's, if there is a row.
pub fn post_from_rows(rows: &Vec<Vec<Option<String>>>) -> (r: Option<Post>)
    requires
        rows.len() > 0 ==> rows@[0].len() >= 6,
    ensures
        rows.len() == 0 ==> r is None,
        rows.len() > 0 ==> (r matches Some(p) && p@ == spec_row_post(rows@[0]@)),
{
    if rows.len() == 0 {
        None
    } else {
        Some(post_from_cells(&rows[0], 2))
    }
}

/// The answer's text when no post has the id.
pub fn post_not_found_message(post_id: &str) -> (s: String)
    ensures
        s@ == "Post with ID "@ + post_id@ + " not found"@,
{
    let mut s = String::from_str("Post with ID ");
    s.append(post_id);
    s.append(" not found");
    s
}

/// The posts of `entries` by id, where a later entry replaces an earlier
/// one with the same id.
pub open spec fn keyed_posts(entries: Seq<(String, Post)>) -> Map<Seq<char>, SpecPost>
    decreases entries.len(),
{
    if entries.len() == 0 {
        Map::empty()
    } else {
        keyed_posts(entries.drop_last()).insert(entries.last().0@, entries.last().1@)
    }
}

/// `r` lists a part of the posts by id of `entries`, each id once.
pub open spec fn lists_part_of(r: Seq<(String, Post)>, entries: Seq<(String, Post)>) -> bool {
    &&& forall|i: int, j: int| 0 <= i < j < r.len() ==> r[i].0@ != r[j].0@
    &&& forall|i: int| 0 <= i < r.len() ==> {
        &&& #[trigger] keyed_posts(entries).contains_key(r[i].0@)
        &&& keyed_posts(entries)[r[i].0@] == r[i].1@
    }
}

/// `r` lists all the posts by id of `entries`, each id once.
pub open spec fn lists_all_of(r: Seq<(String, Post)>, entries: Seq<(String, Post)>) -> bool {
    &&& lists_part_of(r, entries)
    &&& forall|k: Seq<char>| #[trigger] keyed_posts(entries).contains_key(k) ==> exists|i: int| 0 <= i < r.len() && r[i].0@ == k
}

pub open spec fn ids_of(r: Seq<(String, Post)>) -> Seq<Seq<char>> {
    r.map_values(|e: (String, Post)| e.0@)
}

proof fn lemma_listing_size(r: Seq<(String, Post)>, entries: Seq<(String, Post)>)
    requires
        lists_all_of(r, entries),
    ensures
        keyed_posts(entries).dom() == ids_of(r).to_set(),
        keyed_posts(entries).dom().len() == r.len(),
{
    let ids = ids_of(r);
    assert forall|k: Seq<char>| keyed_posts(entries).dom().contains(k) <==> ids.to_set().contains(k) by {
        if keyed_posts(entries).dom().contains(k) {
            let i = choose|i: int| 0 <= i < r.len() && r[i].0@ == k;
            assert(ids[i] == k);
        }
        if ids.to_set().contains(k) {
            assert(ids.contains(k));
            let i = choose|i: int| 0 <= i < ids.len() && ids[i] == k;
            assert(keyed_posts(entries).contains_key(r[i].0@));
        }
    }
    assert(keyed_posts(entries).dom() =~= ids.to_set());
    assert(ids.no_duplicates()) by {
        assert forall|i: int, j: int| 0 <= i < ids.len() && 0 <= j < ids.len() && i != j implies ids[i] != ids[j] by {
            if i < j {
                assert(r[i].0@ != r[j].0@);
            } else {
                assert(r[j].0@ != r[i].0@);
            }
        }
    }
    ids.unique_seq_to_set();
}

/// The position of the entry with id `id` in `r`, if there is one.
fn find_id(r: &Vec<(String, Post)>, id: &String) -> (o: Option<usize>)
    ensures
        match o {
            Some(j) => j < r@.len() && r@[j as int].0@ == id@,
            None => forall|k: int| 0 <= k < r@.len() ==> r@[k].0@ != id@,
        },
{
    let mut j: usize = 0;
    while j < r.len()
        invariant
            0 <= j <= r.len(),
            forall|k: int| 0 <= k < j ==> r@[k].0@ != id@,
        decreases r.len() - j,
    {
        if r[j].0 == *id {
            return Some(j);
        }
        j = j + 1;
    }
    None
}

/// The posts by id of `entries`, each id once (later entries win).
pub fn collect_posts(entries: Vec<(String, Post)>) -> (r: Vec<(String, Post)>)
    ensures
        lists_all_of(r@, entries@),
{
    let ghost all = entries@;
    let mut rest = entries;
    let mut r: Vec<(String, Post)> = Vec::new();
    let ghost mut done: int = 0;
    while rest.len() > 0
        invariant
            0 <= done <= all.len(),
            rest@ == all.subrange(done, all.len() as int),
            lists_all_of(r@, all.subrange(0, done)),
        decreases rest.len(),
    {
        let ghost before = rest@;
        let (id, post) = rest.remove(0);
        let ghost prefix = all.subrange(0, done + 1);
        let ghost old_keyed = keyed_posts(all.subrange(0, done));
        proof {
            assert(prefix.drop_last() =~= all.subrange(0, done));
            assert(before[0] == all[done]);
            assert(keyed_posts(prefix) == old_keyed.insert(id@, post@));
        }
        let ghost old_r = r@;
        let ghost new_id = id@;
        let ghost new_post = post@;
        match find_id(&r, &id) {
            Some(j) => {
                r.set(j, (id, post));
                proof {
                    assert forall|i: int, k: int| 0 <= i < k < r@.len() implies r@[i].0@ != r@[k].0@ by {
                        assert(old_r[i].0@ != old_r[k].0@);
                    }
                    assert forall|i: int| 0 <= i < r@.len() implies {
                        &&& #[trigger] keyed_posts(prefix).contains_key(r@[i].0@)
                        &&& keyed_posts(prefix)[r@[i].0@] == r@[i].1@
                    } by {
                        if i != j {
                            assert(old_keyed.contains_key(old_r[i].0@));
                        }
                    }
                    assert forall|key: Seq<char>| #[trigger] keyed_posts(prefix).contains_key(key) implies exists|i: int| 0 <= i < r@.len() && r@[i].0@ == key by {
                        if key == new_id {
                            assert(r@[j as int].0@ == key);
                        } else {
                            assert(old_keyed.contains_key(key));
                            let i = choose|i: int| 0 <= i < old_r.len() && old_r[i].0@ == key;
                            assert(r@[i].0@ == key);
                        }
                    }
                }
            },
            None => {
                r.push((id, post));
                proof {
                    assert forall|i: int, k: int| 0 <= i < k < r@.len() implies r@[i].0@ != r@[k].0@ by {
                        if k < old_r.len() {
                            assert(old_r[i].0@ != old_r[k].0@);
                        }
                    }
                    assert forall|i: int| 0 <= i < r@.len() implies {
                        &&& #[trigger] keyed_posts(prefix).contains_key(r@[i].0@)
                        &&& keyed_posts(prefix)[r@[i].0@] == r@[i].1@
                    } by {
                        if i < old_r.len() {
                            assert(old_keyed.contains_key(old_r[i].0@));
                            assert(old_r[i].0@ != new_id);
                        }
                    }
                    assert forall|key: Seq<char>| #[trigger] keyed_posts(prefix).contains_key(key) implies exists|i: int| 0 <= i < r@.len() && r@[i].0@ == key by {
                        if key == new_id {
                            assert(r@[old_r.len() as int].0@ == key);
                        } else {
                            assert(old_keyed.contains_key(key));
                            let i = choose|i: int| 0 <= i < old_r.len() && old_r[i].0@ == key;
                            assert(r@[i].0@ == key);
                        }
                    }
                }
            },
        }
        proof {
            done = done + 1;
            assert(rest@ =~= all.subrange(done, all.len() as int));
        }
    }
    assert(all.subrange(0, done) =~= all);
    r
}

/// At most `max_posts` of the posts by id of `entries`, each id once. The
/// answer holds `min(max_posts, number of ids)` posts.
pub fn limit_posts(entries: Vec<(String, Post)>, max_posts: usize) -> (r: Vec<(String, Post)>)
    ensures
        lists_part_of(r@, entries@),
        r@.len() == if max_posts < keyed_posts(entries@).dom().len() {
            max_posts as int
        } else {
            keyed_posts(entries@).dom().len() as int
        },
{
    let ghost all = entries@;
    let mut r = collect_posts(entries);
    proof { lemma_listing_size(r@, all); }
    let ghost full = r@;
    r.truncate(max_posts);
    assert forall|i: int| 0 <= i < r@.len() implies r@[i] == full[i] by {}
    r
}

/// The limits of a listing: at most `max_posts` (10 when not given) posts
/// from the last `recency_days` (7 when not given) days.
pub fn listing_limits(max_posts: Option<usize>, recency_days: Option<u32>) -> (l: (usize, u32))
    ensures
        l.0 == match max_posts { Some(m) => m, None => 10 },
        l.1 == match recency_days { Some(d) => d, None => 7 },
{
    let m = match max_posts {
        Some(m) => m,
        None => 10,
    };
    let d = match recency_days {
        Some(d) => d,
        None => 7,
    };
    (m, d)
}

/// The result limit handed to the most-diverse-posts query: the requested
/// number cut to a byte, as an `as u8` cast does.
pub fn explore_limit(max_posts: usize) -> (b: u8)
    ensures
        b == max_posts % 256,
{
    (max_posts % 256) as u8
}

/// The length of the recency window in seconds.
pub fn recency_window_secs(recency_days: u32) -> (s: u64)
    ensures
        s == recency_days * 86400,
{
    (recency_days as u64) * 86400
}

/// Whether `p` occurs in `s`.
pub open spec fn contains_seq(s: Seq<char>, p: Seq<char>) -> bool {
    exists|i: int| 0 <= i && i + p.len() <= s.len() && #[trigger] s.subrange(i, i + p.len()) == p
}

pub fn contains_str(s: &str, p: &str) -> (b: bool)
    ensures
        b == contains_seq(s@, p@),
{
    let sv = chars_of(s);
    let pv = chars_of(p);
    if pv.len() > sv.len() {
        return false;
    }
    if pv.len() == 0 {
        assert(s@.subrange(0int, 0int + p@.len()) =~= p@);
        return true;
    }
    let mut i: usize = 0;
    while i <= sv.len() - pv.len()
        invariant
            1 <= pv.len() <= sv.len(),
            i <= sv.len() - pv.len() + 1,
            sv@ == s@,
            pv@ == p@,
            forall|k: int| 0 <= k < i ==> #[trigger] sv@.subrange(k, k + pv@.len()) != pv@,
        decreases sv.len() - pv.len() + 1 - i,
    {
        if range_equals(&sv, i, i + pv.len(), &pv) {
            return true;
        }
        i = i + 1;
    }
    assert forall|k: int| 0 <= k && k + p@.len() <= s@.len() implies #[trigger] s@.subrange(k, k + p@.len()) != p@ by {
        assert(k < i);
    }
    false
}

/// A post directory of the file-backed server that may be listed: signed
/// (its name holds no `unverified_`) and recent.
pub open spec fn post_dir_listable(e: (String, bool)) -> bool {
    !contains_seq(e.0@, "unverified_"@) && e.1
}

/// An anchor directory of the file-backed server that may be listed: its
/// name does not start with `unverified_`, and it is recent.
pub open spec fn anchor_dir_listable(e: (String, bool)) -> bool {
    !has_prefix(e.0@, "unverified_"@) && e.1
}

/// `r` is the ascending list of the indices of `entries` that satisfy `keep`.
pub open spec fn selects(r: Seq<usize>, entries: Seq<(String, bool)>, keep: spec_fn((String, bool)) -> bool) -> bool {
    &&& forall|k: int| 0 <= k < r.len() ==> #[trigger] r[k] < entries.len() && keep(entries[r[k] as int])
    &&& forall|k: int, l: int| 0 <= k < l < r.len() ==> r[k] < r[l]
    &&& forall|i: int| 0 <= i < entries.len() && keep(#[trigger] entries[i]) ==> r.contains(i as usize)
}

/// The indices of the listable post directories among `entries` (name, recent).
pub fn listable_post_dirs(entries: &Vec<(String, bool)>) -> (r: Vec<usize>)
    ensures
        selects(r@, entries@, |e: (String, bool)| post_dir_listable(e)),
{
    let mut r: Vec<usize> = Vec::new();
    let mut i: usize = 0;
    while i < entries.len()
        invariant
            0 <= i <= entries.len(),
            forall|k: int| 0 <= k < r.len() ==> #[trigger] r@[k] < i && post_dir_listable(entries@[r@[k] as int]),
            forall|k: int, l: int| 0 <= k < l < r.len() ==> r@[k] < r@[l],
            forall|j: int| 0 <= j < i && post_dir_listable(#[trigger] entries@[j]) ==> r@.contains(j as usize),
        decreases entries.len() - i,
    {
        let keep = !contains_str(entries[i].0.as_str(), "unverified_") && entries[i].1;
        if keep {
            let ghost old_r = r@;
            r.push(i);
            assert forall|j: int| 0 <= j < i + 1 && post_dir_listable(#[trigger] entries@[j]) implies r@.contains(j as usize) by {
                if j < i {
                    let k = choose|k: int| 0 <= k < old_r.len() && old_r[k] == j as usize;
                    assert(r@[k] == j as usize);
                } else {
                    assert(r@[old_r.len() as int] == j as usize);
                }
            }
        }
        i = i + 1;
    }
    r
}

/// The indices of the listable anchor directories among `entries` (name, recent).
pub fn listable_anchor_dirs(entries: &Vec<(String, bool)>) -> (r: Vec<usize>)
    ensures
        selects(r@, entries@, |e: (String, bool)| anchor_dir_listable(e)),
{
    let mut r: Vec<usize> = Vec::new();
    let mut i: usize = 0;
    while i < entries.len()
        invariant
            0 <= i <= entries.len(),
            forall|k: int| 0 <= k < r.len() ==> #[trigger] r@[k] < i && anchor_dir_listable(entries@[r@[k] as int]),
            forall|k: int, l: int| 0 <= k < l < r.len() ==> r@[k] < r@[l],
            forall|j: int| 0 <= j < i && anchor_dir_listable(#[trigger] entries@[j]) ==> r@.contains(j as usize),
        decreases entries.len() - i,
    {
        let keep = !starts_with(entries[i].0.as_str(), "unverified_") && entries[i].1;
        if keep {
            let ghost old_r = r@;
            r.push(i);
            assert forall|j: int| 0 <= j < i + 1 && anchor_dir_listable(#[trigger] entries@[j]) implies r@.contains(j as usize) by {
                if j < i {
                    let k = choose|k: int| 0 <= k < old_r.len() && old_r[k] == j as usize;
                    assert(r@[k] == j as usize);
                } else {
                    assert(r@[old_r.len() as int] == j as usize);
                }
            }
        }
        i = i + 1;
    }
    r
}

/// The candidates at the positions `picks`, in the order of `picks`.
pub fn pick_candidates(candidates: &Vec<usize>, picks: &Vec<usize>) -> (r: Vec<usize>)
    requires
        forall|m: int| 0 <= m < picks@.len() ==> #[trigger] picks@[m] < candidates@.len(),
    ensures
        r@.len() == picks@.len(),
        forall|m: int| 0 <= m < picks@.len() ==> #[trigger] r@[m] == candidates@[picks@[m] as int],
{
    let mut r: Vec<usize> = Vec::new();
    let mut k: usize = 0;
    while k < picks.len()
        invariant
            0 <= k <= picks.len(),
            forall|m: int| 0 <= m < picks@.len() ==> #[trigger] picks@[m] < candidates@.len(),
            r@.len() == k,
            forall|m: int| 0 <= m < k ==> #[trigger] r@[m] == candidates@[picks@[m] as int],
        decreases picks.len() - k,
    {
        r.push(candidates[picks[k]]);
        k = k + 1;
    }
    r
}

/// A random choice of at most `amount` of the `candidates`, none twice:
/// `min(amount, candidates.len())` of them, in random order (the draw is
/// made by `choose_indices`, and `pick_candidates` reads them out).
pub fn choose_candidates(candidates: &Vec<usize>, amount: usize) -> (r: Vec<usize>)
    ensures
        r@.len() == if amount < candidates@.len() { amount as int } else { candidates@.len() as int },
        forall|k: int| 0 <= k < r@.len() ==> candidates@.contains(#[trigger] r@[k]),
        forall|k: int, l: int| 0 <= k < l < r@.len() && candidates@.no_duplicates() ==> r@[k] != r@[l],
{
    let picks = choose_indices(candidates.len(), amount);
    let r = pick_candidates(candidates, &picks);
    assert forall|m: int| 0 <= m < r@.len() implies candidates@.contains(#[trigger] r@[m]) by {
        assert(r@[m] == candidates@[picks@[m] as int]);
    }
    assert forall|k: int, l: int| 0 <= k < l < r@.len() && candidates@.no_duplicates() implies r@[k] != r@[l] by {
        assert(r@[k] == candidates@[picks@[k] as int]);
        assert(r@[l] == candidates@[picks@[l] as int]);
        assert(picks@[k] != picks@[l]);
    }
    r
}

/// The posts a file-backed listing answers with: those read, or the default
/// post under the id `default` when none could be read.
pub fn legacy_listing_or_default(posts: Vec<(String, LegacyPost)>) -> (r: Vec<(String, LegacyPost)>)
    ensures
        posts@.len() > 0 ==> r@ == posts@,
        posts@.len() == 0 ==> r@.len() == 1 && r@[0].0@ == "default"@ && r@[0].1.title@ == "Untitled"@
            && r@[0].1.author@ == "No Author"@
            && r@[0].1.content@ == "There are no posts present, this is the default post text."@
            && r@[0].1.signature@.len() == 0,
{
    if posts.len() > 0 {
        posts
    } else {
        let mut r: Vec<(String, LegacyPost)> = Vec::new();
        r.push((String::from_str("default"), LegacyPost::default()));
        r
    }
}

} // verus!
