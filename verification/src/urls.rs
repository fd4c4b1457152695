//! URLs, held as their text (their serialization); the `url` crate reads and builds them.
use vstd::prelude::*;

verus! {

/// The serialization of what `url::Url::parse(s)` returns, or `None` when it fails.
pub uninterp spec fn spec_url_parse(s: Seq<char>) -> Option<Seq<char>>;

/// The fragment (the text after `#`) of the URL that `url::Url::parse(s)` returns; `None`
/// when parsing fails or the URL has no fragment.
pub uninterp spec fn spec_url_fragment(s: Seq<char>) -> Option<Seq<char>>;

/// The serialization of `url::Url::parse(base)` after `set_query(Some(query))`.
pub uninterp spec fn spec_url_with_query(base: Seq<char>, query: Seq<char>) -> Option<Seq<char>>;

/// The serialization of `url::Url::parse(base)` after `set_path(path)`.
pub uninterp spec fn spec_url_with_path(base: Seq<char>, path: Seq<char>) -> Option<Seq<char>>;

/// Calls `url::Url::parse` and returns the serialization of the URL (`as_str`).
#[verifier::external_body]
pub(crate) fn url_parse(s: &str) -> (res: Option<String>)
    ensures
        match res {
            Some(u) => spec_url_parse(s@) == Some(u@),
            None => spec_url_parse(s@) is None,
        },
{
    url::Url::parse(s).ok().map(|u| u.as_str().to_owned())
}

/// Reads `s` with `url::Url::parse` and returns its `fragment()`.
#[verifier::external_body]
pub(crate) fn url_fragment(s: &str) -> (res: Option<String>)
    ensures
        match res {
            Some(f) => spec_url_fragment(s@) == Some(f@),
            None => spec_url_fragment(s@) is None,
        },
{
    url::Url::parse(s).ok().and_then(|u| u.fragment().map(|f| f.to_owned()))
}

/// Reads `base` with `url::Url::parse`, calls `set_query(Some(query))` on it and returns the
/// serialization.
#[verifier::external_body]
pub(crate) fn url_with_query(base: &str, query: &str) -> (res: Option<String>)
    ensures
        match res {
            Some(u) => spec_url_with_query(base@, query@) == Some(u@),
            None => spec_url_with_query(base@, query@) is None,
        },
{
    let mut url = url::Url::parse(base).ok()?;
    url.set_query(Some(query));
    Some(url.as_str().to_owned())
}

/// Reads `base` with `url::Url::parse`, calls `set_path(path)` on it and returns the
/// serialization.
#[verifier::external_body]
pub(crate) fn url_with_path(base: &str, path: &str) -> (res: Option<String>)
    ensures
        match res {
            Some(u) => spec_url_with_path(base@, path@) == Some(u@),
            None => spec_url_with_path(base@, path@) is None,
        },
{
    let mut url = url::Url::parse(base).ok()?;
    url.set_path(path);
    Some(url.as_str().to_owned())
}

} // verus!
