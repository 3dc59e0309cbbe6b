//! Path cleaning and resolution: from a request location to the file or
//! directory the server would touch. Nothing here reads the filesystem;
//! the caller probes the paths these functions resolve.

use vstd::prelude::*;

use crate::config::Server;
use crate::outside::string_from_chars;
use crate::text::{
    chars_of, contains_seq, find_seq, lemma_find_first, push_all, spec_contains_seq, spec_find,
    spec_trim, sub_chars, trim_set,
};

verus! {

/// `s` up to (excluding) the first occurrence of `pat`; all of `s` when
/// `pat` does not occur.
pub open spec fn spec_before_seq(s: Seq<char>, pat: Seq<char>) -> Seq<char> {
    if spec_contains_seq(s, pat) {
        s.take(spec_find(s, pat))
    } else {
        s
    }
}

/// `s` after (excluding) the first occurrence of `pat`; empty when `pat`
/// does not occur.
pub open spec fn spec_after_seq(s: Seq<char>, pat: Seq<char>) -> Seq<char> {
    if spec_contains_seq(s, pat) {
        s.skip(spec_find(s, pat) + pat.len())
    } else {
        Seq::empty()
    }
}

/// Whether a path can be cleaned: it carries an "/images/" or "/css/"
/// segment, or it starts with a separator to strip.
pub open spec fn spec_cleanable(p: Seq<char>) -> bool {
    ||| spec_contains_seq(p, "/images/"@)
    ||| spec_contains_seq(p, "/css/"@)
    ||| p.len() > 0 && p[0] == '/'
}

/// The cleaned form of a request path: from the first "/images/" or
/// "/css/" on when one occurs, otherwise the path without its leading
/// separator.
pub open spec fn spec_clean_path(p: Seq<char>) -> Seq<char> {
    if spec_contains_seq(p, "/images/"@) {
        p.skip(spec_find(p, "/images/"@))
    } else if spec_contains_seq(p, "/css/"@) {
        p.skip(spec_find(p, "/css/"@))
    } else {
        p.skip(1)
    }
}

/// The characters of `v` up to the first occurrence of `pat`.
pub(crate) fn before_seq(v: &Vec<char>, pat: &Vec<char>) -> (r: Vec<char>)
    ensures
        r@ == spec_before_seq(v@, pat@),
{
    match find_seq(v, pat) {
        Some(i) => {
            proof {
                lemma_find_first(v@, pat@);
                assert(i as int == spec_find(v@, pat@));
            }
            sub_chars(v, 0, i)
        },
        None => sub_chars(v, 0, v.len()),
    }
}

/// The characters of `v` after the first occurrence of `pat`.
pub(crate) fn after_seq(v: &Vec<char>, pat: &Vec<char>) -> (r: Vec<char>)
    ensures
        r@ == spec_after_seq(v@, pat@),
{
    match find_seq(v, pat) {
        Some(i) => {
            proof {
                lemma_find_first(v@, pat@);
                assert(i as int == spec_find(v@, pat@));
                assert(i + pat@.len() <= v@.len());
            }
            let n = v.len();
            sub_chars(v, i + pat.len(), n)
        },
        None => Vec::new(),
    }
}

/// The request path before its query string: up to the first '?'.
pub open spec fn spec_query_free(p: Seq<char>) -> Seq<char> {
    spec_before_seq(p, "?"@)
}

/// The query part of a request path: between the first and the second '?'.
pub open spec fn spec_query_part(p: Seq<char>) -> Seq<char> {
    spec_before_seq(spec_after_seq(p, "?"@), "?"@)
}

/// The whitespace characters trimmed from a folder name.
pub open spec fn spec_whitespace() -> Seq<char> {
    " \t\n\u{0B}\u{0C}\r\u{85}\u{A0}\u{1680}\u{2000}\u{2001}\u{2002}\u{2003}\u{2004}\u{2005}\u{2006}\u{2007}\u{2008}\u{2009}\u{200A}\u{2028}\u{2029}\u{202F}\u{205F}\u{3000}"@
}

/// The folder name and target path carried by a create-folder request:
/// empty when the query carries no `foldername=` parameter, otherwise the
/// query-free path, a separator, and the parameter's value with quotes,
/// plus signs and surrounding whitespace trimmed.
pub open spec fn spec_folder_name(p: Seq<char>) -> Seq<char> {
    let query = spec_query_part(p);
    if spec_contains_seq(query, "foldername="@) {
        let raw = spec_before_seq(spec_after_seq(query, "foldername="@), "foldername="@);
        let name = spec_trim(spec_trim(raw, "\"+"@), spec_whitespace());
        spec_query_free(p) + "/"@ + name
    } else {
        Seq::empty()
    }
}

impl Server {
    /// The path a create-folder request names, parsed out of the location's
    /// query string; empty when the query carries no folder name.
    pub fn extract_folder_name(location: &str) -> (r: String)
        ensures
            r@ == spec_folder_name(location@),
    {
        let loc = chars_of(location);
        let qmark = chars_of("?");
        let base = before_seq(&loc, &qmark);
        let query = before_seq(&after_seq(&loc, &qmark), &qmark);
        proof {
            assert(base@ == spec_query_free(location@));
            assert(query@ == spec_query_part(location@));
        }
        let key = chars_of("foldername=");
        if contains_seq(&query, &key) {
            let raw = before_seq(&after_seq(&query, &key), &key);
            let quotes_plus = chars_of("\"+");
            let blanks = chars_of(
                " \t\n\u{0B}\u{0C}\r\u{85}\u{A0}\u{1680}\u{2000}\u{2001}\u{2002}\u{2003}\u{2004}\u{2005}\u{2006}\u{2007}\u{2008}\u{2009}\u{200A}\u{2028}\u{2029}\u{202F}\u{205F}\u{3000}",
            );
            let name = trim_set(&trim_set(&raw, &quotes_plus), &blanks);
            let mut out = base;
            let sep = chars_of("/");
            push_all(&mut out, &sep);
            push_all(&mut out, &name);
            string_from_chars(&out)
        } else {
            String::new()
        }
    }

    /// The cleaned form of a request path: everything from the first
    /// "/images/" or "/css/" on when one occurs, otherwise the path without
    /// its leading separator.
    pub fn check_and_clean_path(path: &str) -> (r: String)
        requires
            spec_cleanable(path@),
        ensures
            r@ == spec_clean_path(path@),
    {
        let p = chars_of(path);
        let images = chars_of("/images/");
        let css = chars_of("/css/");
        match find_seq(&p, &images) {
            Some(i) => {
                proof {
                    lemma_find_first(p@, images@);
                    assert(i as int == spec_find(p@, images@));
                }
                string_from_chars(&sub_chars(&p, i, p.len()))
            },
            None => {
                match find_seq(&p, &css) {
                    Some(i) => {
                        proof {
                            lemma_find_first(p@, css@);
                            assert(i as int == spec_find(p@, css@));
                        }
                        string_from_chars(&sub_chars(&p, i, p.len()))
                    },
                    None => string_from_chars(&sub_chars(&p, 1, p.len())),
                }
            },
        }
    }
}

} // verus!
