//! Posts and anchors, and how they are read back from query rows.

use vstd::prelude::*;

verus! {

/// A post as stored in the database: every field is text.
#[derive(Debug)]
pub struct Post {
    pub title: String,
    pub author: String,
    pub content: String,
    pub signature: String,
}

/// A post as a mathematical value.
pub struct SpecPost {
    pub title: Seq<char>,
    pub author: Seq<char>,
    pub content: Seq<char>,
    pub signature: Seq<char>,
}

impl View for Post {
    type V = SpecPost;

    open spec fn view(&self) -> SpecPost {
        SpecPost {
            title: self.title@,
            author: self.author@,
            content: self.content@,
            signature: self.signature@,
        }
    }
}

impl Post {
    pub fn clone_post(&self) -> (r: Post)
        ensures
            r@ == self@,
    {
        Post {
            title: self.title.clone(),
            author: self.author.clone(),
            content: self.content.clone(),
            signature: self.signature.clone(),
        }
    }
}

/// The post shown when there is none to show.
impl Default for Post {
    fn default() -> (p: Post)
        ensures
            p.title@ == "Untitled"@,
            p.author@ == "No Author"@,
            p.content@ == "There are no posts present, this is the default post text."@,
            p.signature@ == ""@,
    {
        Post {
            title: String::from_str("Untitled"),
            author: String::from_str("No Author"),
            content: String::from_str("There are no posts present, this is the default post text."),
            signature: String::from_str(""),
        }
    }
}

/// A link from a passage of one post (`post_id`) to the post that quotes it
/// (`referencing_post_id`). `link_id` must start with `post_id`.
#[derive(Debug)]
pub struct Anchor {
    pub link_id: String,
    pub post_id: String,
    pub reference: String,
    pub referencing_post_id: String,
}

pub struct SpecAnchor {
    pub link_id: Seq<char>,
    pub post_id: Seq<char>,
    pub reference: Seq<char>,
    pub referencing_post_id: Seq<char>,
}

impl View for Anchor {
    type V = SpecAnchor;

    open spec fn view(&self) -> SpecAnchor {
        SpecAnchor {
            link_id: self.link_id@,
            post_id: self.post_id@,
            reference: self.reference@,
            referencing_post_id: self.referencing_post_id@,
        }
    }
}

/// A post of the file-backed server, whose signature is raw bytes.
#[derive(Debug)]
pub struct LegacyPost {
    pub title: String,
    pub author: String,
    pub content: String,
    pub signature: Vec<u8>,
}

pub struct SpecLegacyPost {
    pub title: Seq<char>,
    pub author: Seq<char>,
    pub content: Seq<char>,
    pub signature: Seq<u8>,
}

impl View for LegacyPost {
    type V = SpecLegacyPost;

    open spec fn view(&self) -> SpecLegacyPost {
        SpecLegacyPost {
            title: self.title@,
            author: self.author@,
            content: self.content@,
            signature: self.signature@,
        }
    }
}

impl Default for LegacyPost {
    fn default() -> (p: LegacyPost)
        ensures
            p.title@ == "Untitled"@,
            p.author@ == "No Author"@,
            p.content@ == "There are no posts present, this is the default post text."@,
            p.signature@.len() == 0,
    {
        LegacyPost {
            title: String::from_str("Untitled"),
            author: String::from_str("No Author"),
            content: String::from_str("There are no posts present, this is the default post text."),
            signature: Vec::new(),
        }
    }
}

/// The text put in place of a cell that does not read as a string.
pub open spec fn invalid_content() -> Seq<char> {
    "INVALID CONTENT"@
}

/// The text of a cell, or the stand-in text for an unreadable cell.
pub open spec fn cell_text(c: Option<String>) -> Seq<char> {
    match c {
        Some(s) => s@,
        None => invalid_content(),
    }
}

/// The text of cell `i` of `row`, or the stand-in text for an unreadable cell.
pub fn cell_or_invalid(row: &Vec<Option<String>>, i: usize) -> (r: String)
    requires
        i < row.len(),
    ensures
        r@ == cell_text(row@[i as int]),
{
    match &row[i] {
        Some(s) => s.clone(),
        None => String::from_str("INVALID CONTENT"),
    }
}

/// The post whose title, author, content and signature are the cells
/// `first .. first + 4` of `row`.
pub open spec fn spec_post_from_cells(row: Seq<Option<String>>, first: int) -> SpecPost {
    SpecPost {
        title: cell_text(row[first]),
        author: cell_text(row[first + 1]),
        content: cell_text(row[first + 2]),
        signature: cell_text(row[first + 3]),
    }
}

/// Reads a post from the cells `first .. first + 4` of a row.
pub fn post_from_cells(row: &Vec<Option<String>>, first: usize) -> (p: Post)
    requires
        first + 4 <= row.len(),
    ensures
        p@ == spec_post_from_cells(row@, first as int),
{
    Post {
        title: cell_or_invalid(row, first),
        author: cell_or_invalid(row, first + 1),
        content: cell_or_invalid(row, first + 2),
        signature: cell_or_invalid(row, first + 3),
    }
}

} // verus!
