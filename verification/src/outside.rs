//! The few points where the library leans on code Verus does not read:
//! the regex engine for exclusion patterns, the template engine for
//! rendered bodies, the clock for log timestamps, and one standard-library
//! conversion vstd gives no specification for.

use vstd::prelude::*;

verus! {

/// Relies on `String`'s `FromIterator<char>`: collecting characters yields
/// the string of exactly those characters, in order.
#[verifier::external_body]
pub(crate) fn string_from_chars(v: &Vec<char>) -> (r: String)
    ensures
        r@ == v@,
{
    v.iter().collect()
}

/// Whether the pattern set compiles as a set of regular expressions.
/// Names the success of `regex::RegexSet::new` on these patterns.
pub uninterp spec fn regex_set_valid(patterns: Seq<Seq<char>>) -> bool;

/// Whether some pattern of the set matches the text.
/// Names the result of `regex::RegexSet::is_match`.
pub uninterp spec fn regex_set_matches(patterns: Seq<Seq<char>>, text: Seq<char>) -> bool;

/// The views of a vector of strings.
pub open spec fn pattern_views(patterns: Seq<String>) -> Seq<Seq<char>> {
    patterns.map_values(|p: String| p@)
}

/// The compiled form of a set of regular expressions, opaque to the
/// verifier; `regex_set_patterns` names what a value was built from.
#[verifier::external_type_specification]
#[verifier::external_body]
pub struct ExRegexSet(regex::RegexSet);

/// The patterns a compiled set was built from.
pub uninterp spec fn regex_set_patterns(s: &regex::RegexSet) -> Seq<Seq<char>>;

/// Relies on `regex::RegexSet::new`: it compiles exactly when every pattern
/// is a valid regular expression, a fact of the patterns alone.
#[verifier::external_body]
pub(crate) fn regex_set_new(patterns: &Vec<String>) -> (r: Option<regex::RegexSet>)
    ensures
        r is Some <==> regex_set_valid(pattern_views(patterns@)),
        r is Some ==> regex_set_patterns(&r->Some_0) == pattern_views(patterns@),
{
    regex::RegexSet::new(patterns).ok()
}

/// Relies on `regex::RegexSet::is_match`: whether any pattern of the set
/// matches the text, a function of the patterns and the text alone.
#[verifier::external_body]
pub(crate) fn regex_set_is_match(s: &regex::RegexSet, text: &str) -> (r: bool)
    ensures
        r == regex_set_matches(regex_set_patterns(s), text@),
{
    s.is_match(text)
}

/// Relies on `tera::Tera::render` with a one-off template: renders the
/// error template with the context `{error: {code, status}}`. `None` when
/// the template does not parse or does not render; nothing further is
/// assumed of the produced text.
#[verifier::external_body]
pub(crate) fn render_error_body(template: &str, code: u16, status: &str) -> (r: Option<String>) {
    let mut tera = tera::Tera::default();
    if tera.add_raw_template("error", template).is_err() {
        return None;
    }
    let mut fields = std::collections::HashMap::new();
    fields.insert("code", tera::Value::from(code));
    fields.insert("status", tera::Value::from(status));
    let mut context = tera::Context::new();
    context.insert("error", &fields);
    tera.render("error", &context).ok()
}

/// Relies on `tera::Tera::render` with a one-off template: renders the
/// access-log format with the context named in the configuration's format
/// string. `None` when the format does not parse or does not render;
/// nothing further is assumed of the produced text.
#[verifier::external_body]
pub(crate) fn render_access_line(
    format: &str,
    remote_addr: &str,
    remote_user: &str,
    time_local: &str,
    method: &str,
    status: u16,
    bytes_sent: &str,
) -> (r: Option<String>) {
    let mut tera = tera::Tera::default();
    if tera.add_raw_template("access_log", format).is_err() {
        return None;
    }
    let mut context = tera::Context::new();
    context.insert("remote_addr", remote_addr);
    context.insert("remote_user", remote_user);
    context.insert("time_local", time_local);
    context.insert("method", method);
    context.insert("status", &status);
    context.insert("bytes_sent", bytes_sent);
    tera.render("access_log", &context).ok()
}

/// Relies on `chrono::Utc::now`: the current time, formatted as
/// day-month-year hour:minute:second. Nothing is assumed of the value.
#[verifier::external_body]
pub(crate) fn now_timestamp() -> (r: String) {
    format!("{}", chrono::Utc::now().format("%d-%m-%Y %H:%M:%S"))
}

} // verus!
