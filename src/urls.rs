use vstd::prelude::*;
use vstd::string::*;

verus! {

/// The serialisation of the URL that `url::Url::parse` makes of a text, or
/// `None` where the text is not an absolute URL.
pub uninterp spec fn parsed_url(s: Seq<char>) -> Option<Seq<char>>;

/// The serialisation of `Url::parse(s)` joined with `"."`: the directory of
/// the URL, without its file name, query or fragment. `None` where either
/// step fails.
pub uninterp spec fn joined_dot(s: Seq<char>) -> Option<Seq<char>>;

/// A text option seen as an option of character sequences.
pub open spec fn opt_view(o: Option<String>) -> Option<Seq<char>> {
    match o {
        Some(s) => Some(s@),
        None => None,
    }
}

/// Relies on `url::Url::parse`: the serialised URL, or `None` on a parse error.
#[verifier::external_body]
fn parse_url(s: &str) -> (r: Option<String>)
    ensures
        opt_view(r) == parsed_url(s@),
{
    url::Url::parse(s).ok().map(String::from)
}

/// Relies on `url::Url::parse` and `url::Url::join`: the URL parsed from `s`
/// joined with `"."`.
#[verifier::external_body]
fn join_dot(s: &str) -> (r: Option<String>)
    ensures
        opt_view(r) == joined_dot(s@),
{
    match url::Url::parse(s) {
        Ok(u) => u.join(".").ok().map(String::from),
        Err(_) => None,
    }
}

/// The base URL against which the relative URIs of a playlist at
/// `playlist_url` are resolved: everything up to and including the last `/`
/// of its path, with any query dropped.
pub fn base_url(playlist_url: &str) -> (r: Option<String>)
    ensures
        opt_view(r) == joined_dot(playlist_url@),
{
    join_dot(playlist_url)
}

/// The absolute URL of a segment URI: the URI itself where it parses as an
/// absolute URL, otherwise the URI appended to `base`.
pub open spec fn resolved_url(base: Seq<char>, uri: Seq<char>) -> Option<Seq<char>> {
    match parsed_url(uri) {
        Some(a) => Some(a),
        None => parsed_url(base + uri),
    }
}

/// Resolves a segment URI against the base URL of its playlist.
pub fn resolve_segment(base: &str, uri: &str) -> (r: Option<String>)
    ensures
        opt_view(r) == resolved_url(base@, uri@),
{
    match parse_url(uri) {
        Some(a) => Some(a),
        None => {
            let mut joined = String::from_str(base);
            joined.append(uri);
            parse_url(joined.as_str())
        },
    }
}

} // verus!
