//! The compile step: an optional front-matter block is split off the
//! source, and the remaining markdown body is compiled to markup text by
//! an outside markdown compiler.
//!
//! The front-matter block is delimited by lines of three dashes. Its
//! content is kept verbatim and is not surfaced beyond the compile
//! boundary.

use vstd::prelude::*;
use vstd::string::{StrSliceExecFns, StringExecFns};

verus! {

/// Whether the source opens a front-matter block: its first line is
/// exactly three dashes.
pub open spec fn spec_front_matter_opened(s: Seq<char>) -> bool {
    s.len() >= 4 && s[0] == '-' && s[1] == '-' && s[2] == '-' && s[3] == '\n'
}

/// Whether a front-matter closing line starts at `i`: three dashes at
/// the start of a line, ending a line or the document.
pub open spec fn spec_fm_close_at(s: Seq<char>, i: int) -> bool {
    &&& 4 <= i
    &&& i + 3 <= s.len()
    &&& s[i - 1] == '\n'
    &&& s[i] == '-'
    &&& s[i + 1] == '-'
    &&& s[i + 2] == '-'
    &&& (i + 3 == s.len() || s[i + 3] == '\n')
}

/// The position of the first front-matter closing line at or after `i`.
pub open spec fn spec_find_fm_close(s: Seq<char>, i: int) -> Option<int>
    decreases s.len() - i,
{
    if i + 3 > s.len() {
        None
    } else if spec_fm_close_at(s, i) {
        Some(i)
    } else {
        spec_find_fm_close(s, i + 1)
    }
}

/// The split of a source document. Without an opening marker there is no
/// front matter and the whole source is the body. An opened block ends at
/// the first closing line; the body is what follows that line. An opened
/// block that never closes rejects the source.
pub open spec fn spec_split_front_matter(s: Seq<char>) -> Option<(Option<Seq<char>>, Seq<char>)> {
    if !spec_front_matter_opened(s) {
        Some((None, s))
    } else {
        match spec_find_fm_close(s, 4) {
            None => None,
            Some(i) => Some(
                (
                    Some(s.subrange(4, i)),
                    if i + 3 == s.len() {
                        Seq::empty()
                    } else {
                        s.subrange(i + 4, s.len() as int)
                    },
                ),
            ),
        }
    }
}

/// Splits the optional front-matter block off a source document,
/// returning the verbatim block content and the body, or nothing when an
/// opened block is never closed.
#[verifier::loop_isolation(false)]
pub fn split_front_matter(source: &str) -> (r: Option<(Option<String>, String)>)
    ensures
        r.deep_view() == spec_split_front_matter(source@),
{
    let n = source.unicode_len();
    let opened = n >= 4 && source.get_char(0) == '-' && source.get_char(1) == '-'
        && source.get_char(2) == '-' && source.get_char(3) == '\n';
    if !opened {
        return Some((None, String::from_str(source)));
    }
    let mut i: usize = 4;
    while i <= n - 3
        invariant
            4 <= i <= n,
            spec_find_fm_close(source@, 4) == spec_find_fm_close(source@, i as int),
        decreases n - i,
    {
        let closed = source.get_char(i - 1) == '\n' && source.get_char(i) == '-'
            && source.get_char(i + 1) == '-' && source.get_char(i + 2) == '-' && (i + 3 == n
            || source.get_char(i + 3) == '\n');
        if closed {
            let matter = String::from_str(source.substring_char(4, i));
            let body = if i + 3 == n {
                String::new()
            } else {
                String::from_str(source.substring_char(i + 4, n))
            };
            return Some((Some(matter), body));
        }
        i = i + 1;
    }
    None
}

/// The markup text that the outside markdown compiler produces for a
/// markdown body. It is a function of the body alone.
pub uninterp spec fn markup_of(body: Seq<char>) -> Seq<char>;

/// Relies on pulldown_cmark::html::push_html over Parser::new: compiles
/// markdown to markup text, deterministically in the body alone.
#[verifier::external_body]
fn markdown_to_markup(body: &str) -> (r: String)
    ensures
        r@ == markup_of(body@),
{
    let mut out = String::new();
    let parser = pulldown_cmark::Parser::new(body);
    pulldown_cmark::html::push_html(&mut out, parser);
    out
}

/// Compiles a source document: splits the optional front-matter block
/// off and compiles the remaining markdown body to markup text. Fails
/// exactly when an opened front-matter block is never closed.
pub fn compile(source: &str) -> (r: Result<(Option<String>, String), String>)
    ensures
        match spec_split_front_matter(source@) {
            None => r matches Err(m) && m@ == "unterminated front matter"@,
            Some(sp) => r matches Ok(c) && c.0.deep_view() == sp.0 && c.1@ == markup_of(sp.1),
        },
{
    match split_front_matter(source) {
        None => Err(String::from_str("unterminated front matter")),
        Some((matter, body)) => {
            let markup = markdown_to_markup(body.as_str());
            Ok((matter, markup))
        },
    }
}

} // verus!
