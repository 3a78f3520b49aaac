use vstd::prelude::*;

verus! {

/// Lets `url::Url` stand in signatures and fields; the value itself is
/// opaque to the verifier.
#[verifier::external_type_specification]
#[verifier::external_body]
pub struct ExUrl(url::Url);

/// The serialization of a URL, as `url::Url::as_str` returns it. A URL
/// value is determined by its serialization, so the other names below
/// take the serialization as their argument.
pub uninterp spec fn url_text(u: url::Url) -> Seq<char>;

/// Whether `url::Url::parse` accepts a string as an absolute URL. The
/// outcome depends on the characters of the string alone.
pub uninterp spec fn url_parses(s: Seq<char>) -> bool;

/// The serialization of the URL that `url::Url::parse` returns on `s`;
/// meaningful only where `url_parses(s)` holds.
pub uninterp spec fn parse_text(s: Seq<char>) -> Seq<char>;

/// Whether the URL whose serialization is `url` has a host, as
/// `url::Url::has_host` answers it.
pub uninterp spec fn has_host(url: Seq<char>) -> bool;

/// The path component of the URL whose serialization is `url`, as
/// `url::Url::path` returns it.
pub uninterp spec fn path_of(url: Seq<char>) -> Seq<char>;

/// The serialization after `url::Url::set_path` replaces the path of
/// the URL whose serialization is `url` with `path`.
pub uninterp spec fn set_path_text(url: Seq<char>, path: Seq<char>) -> Seq<char>;

/// Whether `url::Url::join` succeeds in resolving `path` against the
/// base URL whose serialization is `base`. The outcome depends on the
/// two strings alone.
pub uninterp spec fn join_ok(base: Seq<char>, path: Seq<char>) -> bool;

/// The serialization of the URL that `url::Url::join` returns when it
/// resolves `path` against the base URL whose serialization is `base`;
/// meaningful only where `join_ok(base, path)` holds.
pub uninterp spec fn join_text(base: Seq<char>, path: Seq<char>) -> Seq<char>;

/// The message of the parse error that `url::Url::join` returns when it
/// fails to resolve `path` against the base URL whose serialization is
/// `base`; meaningful only where `join_ok(base, path)` does not hold.
pub uninterp spec fn join_err_text(base: Seq<char>, path: Seq<char>) -> Seq<char>;

/// Relies on url::Url::parse: it returns Ok exactly when it can parse an
/// absolute URL from the input, and the returned URL depends on the
/// input alone.
#[verifier::external_body]
pub(crate) fn parse_url(s: &str) -> (r: Option<url::Url>)
    ensures
        r is Some <==> url_parses(s@),
        r matches Some(u) ==> url_text(u) == parse_text(s@),
{
    url::Url::parse(s).ok()
}

/// Relies on url::Url::has_host: whether the URL has a host, a function
/// of the URL alone.
#[verifier::external_body]
pub(crate) fn url_has_host(u: &url::Url) -> (r: bool)
    ensures
        r == has_host(url_text(*u)),
{
    u.has_host()
}

/// Relies on url::Url::path: it returns the path component of the URL.
#[verifier::external_body]
pub(crate) fn url_path(u: &url::Url) -> (r: String)
    ensures
        r@ == path_of(url_text(*u)),
{
    u.path().to_owned()
}

/// Relies on url::Url::set_path: it replaces the path component of the
/// URL, leaving the rest of the URL to its own rewriting.
#[verifier::external_body]
pub(crate) fn url_set_path(u: &mut url::Url, path: &str)
    ensures
        url_text(*final(u)) == set_path_text(url_text(*old(u)), path@),
{
    u.set_path(path)
}

/// Relies on url::Url::join: it resolves `path` against the URL taken
/// as a base, and returns Err with the parse error's message otherwise;
/// both outcomes depend on the base's serialization and the path alone.
#[verifier::external_body]
pub(crate) fn url_join(base: &url::Url, path: &str) -> (r: Result<url::Url, String>)
    ensures
        r is Ok <==> join_ok(url_text(*base), path@),
        r matches Ok(u) ==> url_text(u) == join_text(url_text(*base), path@),
        r matches Err(m) ==> m@ == join_err_text(url_text(*base), path@),
{
    match base.join(path) {
        Ok(u) => Ok(u),
        Err(e) => Err(e.to_string()),
    }
}

} // verus!
