//! Commands that a signed post may carry at the start of its content:
//! `{{delete:POST_ID}}` and `{{link:POST_ID}}`.

use vstd::prelude::*;
use crate::text::{chars_of, copy_range, range_equals, string_from_chars};

verus! {

/// A command found at the start of a post's content. `target` is the text
/// after the colon, exactly as written (callers trim it where they need to).
#[derive(Debug)]
pub enum PostCommand {
    Delete { target: String },
    Link { target: String },
}

/// The command as a mathematical value.
pub enum SpecCommand {
    Delete(Seq<char>),
    Link(Seq<char>),
}

impl PostCommand {
    pub open spec fn view(&self) -> SpecCommand {
        match self {
            PostCommand::Delete { target } => SpecCommand::Delete(target@),
            PostCommand::Link { target } => SpecCommand::Link(target@),
        }
    }
}

pub open spec fn delete_word() -> Seq<char> {
    seq!['d', 'e', 'l', 'e', 't', 'e']
}

pub open spec fn link_word() -> Seq<char> {
    seq!['l', 'i', 'n', 'k']
}

/// Whether the command opener `{{` starts `s`.
pub open spec fn opens_command(s: Seq<char>) -> bool {
    s.len() >= 2 && s[0] == '{' && s[1] == '{'
}

/// Whether the closer `}}` starts at index `i` of `s`.
pub open spec fn closes_at(s: Seq<char>, i: int) -> bool {
    0 <= i && i + 1 < s.len() && s[i] == '}' && s[i + 1] == '}'
}

/// The first index at or after `i` where `}}` starts, or `s.len()` if there is none.
pub open spec fn first_close_from(s: Seq<char>, i: int) -> int
    decreases s.len() - i,
{
    if i < 0 || i + 1 >= s.len() {
        s.len() as int
    } else if closes_at(s, i) {
        i
    } else {
        first_close_from(s, i + 1)
    }
}

/// The first index at or after `i` that holds `c`, or `s.len()` if there is none.
pub open spec fn first_index_from(s: Seq<char>, c: char, i: int) -> int
    decreases s.len() - i,
{
    if i < 0 || i >= s.len() {
        s.len() as int
    } else if s[i] == c {
        i
    } else {
        first_index_from(s, c, i + 1)
    }
}

/// The text between `{{` and the first `}}` (or the end of the content).
pub open spec fn command_body(s: Seq<char>) -> Seq<char> {
    s.subrange(2, first_close_from(s, 0))
}

/// The command that `content` carries. Splitting the body at `:` gives
/// exactly two pieces when the body holds exactly one colon; the first piece
/// names the command and the second is its target.
pub open spec fn spec_parse_command(content: Seq<char>) -> Option<SpecCommand> {
    if !opens_command(content) {
        None
    } else {
        let body = command_body(content);
        let k = first_index_from(body, ':', 0);
        if k >= body.len() || first_index_from(body, ':', k + 1) < body.len() {
            None
        } else if body.subrange(0, k) == delete_word() {
            Some(SpecCommand::Delete(body.subrange(k + 1, body.len() as int)))
        } else if body.subrange(0, k) == link_word() {
            Some(SpecCommand::Link(body.subrange(k + 1, body.len() as int)))
        } else {
            None
        }
    }
}

proof fn lemma_first_close_bounds(s: Seq<char>, i: int)
    requires
        0 <= i <= s.len(),
    ensures
        i <= first_close_from(s, i) <= s.len(),
    decreases s.len() - i,
{
    if i + 1 < s.len() && !closes_at(s, i) {
        lemma_first_close_bounds(s, i + 1);
    }
}

proof fn lemma_first_index_bounds(s: Seq<char>, c: char, i: int)
    requires
        0 <= i <= s.len(),
    ensures
        i <= first_index_from(s, c, i) <= s.len(),
    decreases s.len() - i,
{
    if i < s.len() && s[i] != c {
        lemma_first_index_bounds(s, c, i + 1);
    }
}

/// Index of the first `}}` in `v`, or `v.len()`.
fn find_close(v: &Vec<char>) -> (e: usize)
    ensures
        e == first_close_from(v@, 0),
{
    let mut i: usize = 0;
    while i < v.len() && i + 1 < v.len()
        invariant
            i <= v.len(),
            first_close_from(v@, 0) == first_close_from(v@, i as int),
        decreases v.len() - i,
    {
        if v[i] == '}' && v[i + 1] == '}' {
            return i;
        }
        i = i + 1;
    }
    v.len()
}

/// Index of the first `c` in `v[from..hi]` (indices relative to `v`), or `hi`.
fn find_char(v: &Vec<char>, c: char, from: usize) -> (e: usize)
    requires
        from <= v.len(),
    ensures
        e == first_index_from(v@, c, from as int),
{
    let mut i: usize = from;
    while i < v.len()
        invariant
            from <= i <= v.len(),
            first_index_from(v@, c, from as int) == first_index_from(v@, c, i as int),
        decreases v.len() - i,
    {
        if v[i] == c {
            return i;
        }
        i = i + 1;
    }
    v.len()
}

/// Reads the command at the start of a post's content, if it carries one.
pub fn parse_command(content: &str) -> (r: Option<PostCommand>)
    ensures
        match r {
            Some(c) => spec_parse_command(content@) == Some(c.view()),
            None => spec_parse_command(content@).is_none(),
        },
{
    let cs = chars_of(content);
    if cs.len() < 2 || cs[0] != '{' || cs[1] != '{' {
        return None;
    }
    let end = find_close(&cs);
    proof {
        lemma_first_close_bounds(cs@, 0);
        if end < 2 {
            assert(!closes_at(cs@, 0));
            assert(first_close_from(cs@, 0) == first_close_from(cs@, 1));
            assert(!closes_at(cs@, 1));
            lemma_first_close_bounds(cs@, 2);
            assert(false);
        }
    }
    let body = copy_range(&cs, 2, end);
    assert(body@ == command_body(cs@));
    let k = find_char(&body, ':', 0);
    proof { lemma_first_index_bounds(body@, ':', 0); }
    if k >= body.len() {
        return None;
    }
    let k2 = find_char(&body, ':', k + 1);
    if k2 < body.len() {
        return None;
    }
    let delete: Vec<char> = vec!['d', 'e', 'l', 'e', 't', 'e'];
    let link: Vec<char> = vec!['l', 'i', 'n', 'k'];
    assert(delete@ =~= delete_word());
    assert(link@ =~= link_word());
    if range_equals(&body, 0, k, &delete) {
        let t = copy_range(&body, k + 1, body.len());
        Some(PostCommand::Delete { target: string_from_chars(t.as_slice()) })
    } else if range_equals(&body, 0, k, &link) {
        let t = copy_range(&body, k + 1, body.len());
        Some(PostCommand::Link { target: string_from_chars(t.as_slice()) })
    } else {
        None
    }
}

} // verus!
