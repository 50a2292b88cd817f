//! Where the app-key export posts: the fixed local admin base URL, rebased by
//! the Market client's rule, with its path set to the import endpoint.
//!
//! The base URL is fixed and provisional: it stands until the admin endpoint
//! has a configured address.
use vstd::prelude::*;
use crate::error::ExportError;

verus! {

/// A parsed URL.
#[verifier::external_type_specification]
#[verifier::external_body]
pub struct ExUrl(url::Url);

/// The admin service's base URL, before rebasing.
pub const ADMIN_BASE_URL: &'static str = "http://127.0.0.1:5001";

/// The path of the admin endpoint that imports keys.
pub const ADMIN_IMPORT_PATH: &'static str = "admin/import-key";

/// The text of a URL, as `Url::as_str` gives it.
pub uninterp spec fn url_text(u: url::Url) -> Seq<char>;

/// The text of the URL that `Url::set_path(path)` makes of the URL whose text
/// is `text`.
pub uninterp spec fn url_text_with_path(text: Seq<char>, path: Seq<char>) -> Seq<char>;

/// The text of the URL that `Url::parse` reads from `s`.
pub uninterp spec fn parsed_url_text(s: Seq<char>) -> Seq<char>;

/// Relies on url::Url::parse, which reads an absolute URL or says why not;
/// the URL read depends on the input alone.
#[verifier::external_body]
fn parse_url(s: &str) -> (r: Result<url::Url, url::ParseError>)
    ensures
        r matches Ok(u) ==> url_text(u) == parsed_url_text(s@),
{
    url::Url::parse(s)
}

/// Relies on the Market provider interface's `rebase_service_url` of
/// ya-client. What it returns depends on the process environment (a Market
/// URL set there replaces the base), so nothing is stated of it.
#[verifier::external_body]
fn rebase_market_url(base: url::Url) -> (r: Result<url::Url, ya_client::Error>) {
    <ya_client::market::MarketProviderApi as ya_client::web::WebInterface>::rebase_service_url(
        std::rc::Rc::new(base),
    ).map(|u| (*u).clone())
}

/// Relies on url::Url::set_path: the new URL depends on the old one's text and
/// on the path alone.
#[verifier::external_body]
fn set_url_path(u: &mut url::Url, path: &str)
    ensures
        url_text(*final(u)) == url_text_with_path(url_text(*old(u)), path@),
{
    u.set_path(path)
}

/// Relies on url::Url::as_str, copied into a `String`.
#[verifier::external_body]
fn url_string(u: &url::Url) -> (r: String)
    ensures
        r@ == url_text(*u),
{
    u.as_str().to_string()
}

/// The import endpoint's URL on the admin service whose rebased URL is
/// `rebased`: that URL with its path replaced by `admin/import-key`.
pub fn import_url_from_rebased(rebased: url::Url) -> (r: String)
    ensures
        r@ == url_text_with_path(url_text(rebased), ADMIN_IMPORT_PATH@),
{
    let mut u = rebased;
    set_url_path(&mut u, ADMIN_IMPORT_PATH);
    url_string(&u)
}

/// The admin service's base URL, `http://127.0.0.1:5001`, parsed.
pub fn admin_base_url() -> (r: Result<url::Url, ExportError>)
    ensures
        r matches Ok(u) ==> url_text(u) == parsed_url_text(ADMIN_BASE_URL@),
        r matches Err(e) ==> e is Url,
{
    match parse_url(ADMIN_BASE_URL) {
        Ok(u) => Ok(u),
        Err(e) => Err(ExportError::Url(e)),
    }
}

/// The URL that the app-key export posts to: `http://127.0.0.1:5001`, rebased
/// by the Market client's rule, with its path replaced by `admin/import-key`.
pub fn import_key_url() -> (r: Result<String, ExportError>)
    ensures
        r matches Ok(t) ==> exists|rebased: url::Url|
            t@ == url_text_with_path(#[trigger] url_text(rebased), ADMIN_IMPORT_PATH@),
        r matches Err(e) ==> e is Url || e is Rebase,
{
    let base = match admin_base_url() {
        Ok(u) => u,
        Err(e) => return Err(e),
    };
    let rebased = match rebase_market_url(base) {
        Ok(u) => u,
        Err(e) => return Err(ExportError::Rebase(e)),
    };
    let ghost g = rebased;
    let t = import_url_from_rebased(rebased);
    assert(t@ == url_text_with_path(url_text(g), ADMIN_IMPORT_PATH@));
    Ok(t)
}

} // verus!
