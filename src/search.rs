//! What a keyword search reports of one file's text.

use vstd::prelude::*;

verus! {

/// The lines that `str::lines` finds in `s`, in order.
pub uninterp spec fn text_lines(s: Seq<char>) -> Seq<Seq<char>>;

/// Relies on `str::lines`: the lines of `s`, without their line endings, in
/// order, as a function of `s` alone.
#[verifier::external_body]
fn split_lines(s: &str) -> (r: Vec<String>)
    ensures
        r@.map_values(|l: String| l@) == text_lines(s@),
{
    s.lines().map(|l| l.to_string()).collect()
}

/// Whether `needle` occurs in `hay` as a contiguous run of characters.
pub open spec fn occurs_in(needle: Seq<char>, hay: Seq<char>) -> bool {
    exists|i: int| 0 <= i && i + needle.len() <= hay.len() && #[trigger] hay.subrange(i, i + needle.len()) == needle
}

/// Relies on `str::contains` with a `&str` pattern: whether `needle` occurs
/// in `hay`.
#[verifier::external_body]
fn contains(hay: &str, needle: &str) -> (r: bool)
    ensures
        r == occurs_in(needle@, hay@),
{
    hay.contains(needle)
}

/// The first of `lines`, from index `i` on, in which `keyword` occurs, or the
/// empty line when there is none.
pub open spec fn first_line_with(lines: Seq<Seq<char>>, keyword: Seq<char>, i: int) -> Seq<char>
    decreases lines.len() - i,
{
    if i < 0 || i >= lines.len() {
        Seq::empty()
    } else if occurs_in(keyword, lines[i]) {
        lines[i]
    } else {
        first_line_with(lines, keyword, i + 1)
    }
}

/// What a search reports of a file's text: nothing when the keyword does not
/// occur in it; otherwise the first line in which it occurs, or the empty
/// line when it occurs only across a line break.
pub fn matching_line(content: &str, keyword: &str) -> (r: Option<String>)
    ensures
        r is Some <==> occurs_in(keyword@, content@),
        r matches Some(l) ==> l@ == first_line_with(text_lines(content@), keyword@, 0),
{
    if !contains(content, keyword) {
        return None;
    }
    let lines = split_lines(content);
    let ghost ls = lines@.map_values(|l: String| l@);
    let mut i: usize = 0;
    while i < lines.len()
        invariant
            i <= lines@.len(),
            ls == lines@.map_values(|l: String| l@),
            ls == text_lines(content@),
            occurs_in(keyword@, content@),
            first_line_with(ls, keyword@, 0) == first_line_with(ls, keyword@, i as int),
        decreases lines@.len() - i,
    {
        assert(ls[i as int] == lines@[i as int]@);
        if contains(lines[i].as_str(), keyword) {
            return Some(lines[i].clone());
        }
        i = i + 1;
    }
    Some(String::new())
}

} // verus!
