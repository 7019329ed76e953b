//! Where requests go: the base URL and the resources below it.

use reqwest::Url;
use vstd::prelude::*;
use vstd::string::*;

use crate::decimal::{decimal, decimal_text};

verus! {

/// The path every request starts from.
pub const API_ROOT: &'static str = "/api/v3/";

/// The longest base URL that is looked at, in bytes. Longer input is treated
/// as malformed.
pub const MAX_URL_LEN: usize = 0x0100_0000;

/// Whether a text parses as an absolute URL.
pub uninterp spec fn url_parses(input: Seq<char>) -> bool;

/// The URL that a parsable text denotes, with its path replaced.
pub uninterp spec fn url_with_path(input: Seq<char>, path: Seq<char>) -> Seq<char>;

/// The URL that a reference denotes relative to a base, where there is one.
pub uninterp spec fn url_join(base: Seq<char>, reference: Seq<char>) -> Option<Seq<char>>;

/// The text of an optional string.
pub open spec fn text_of(s: Option<String>) -> Option<Seq<char>> {
    match s {
        Some(s) => Some(s@),
        None => None,
    }
}

/// A base URL that construction accepts.
pub open spec fn url_accepted(input: &str) -> bool {
    input.spec_bytes().len() <= MAX_URL_LEN && url_parses(input@)
}

/// The address of the resource `id` inside the collection `directory`.
pub open spec fn item_url(base: Seq<char>, directory: Seq<char>, id: u64) -> Option<Seq<char>> {
    match url_join(base, directory) {
        Some(collection) => url_join(collection, decimal(id as nat)),
        None => None,
    }
}

/// `Url::parse` followed by `Url::set_path`, as text. There is no URL where
/// the input does not parse; setting the path cannot fail. `set_path` panics
/// once a URL outgrows four gigabytes, which the bounds keep far away.
#[verifier::external_body]
pub(crate) fn rooted_url(input: &str, path: &str) -> (rooted: Option<String>)
    requires
        input.spec_bytes().len() <= MAX_URL_LEN,
        path@.len() <= 64,
    ensures
        rooted is Some <==> url_parses(input@),
        rooted matches Some(url) ==> url@ == url_with_path(input@, path@),
{
    let mut url = Url::parse(input).ok()?;
    url.set_path(path);
    Some(url.into())
}

/// `Url::join` on the URL that `base` denotes, as text. There is no result
/// where `base` is no URL or the reference cannot be resolved against it.
#[verifier::external_body]
pub(crate) fn join_url(base: &str, reference: &str) -> (joined: Option<String>)
    ensures
        text_of(joined) == url_join(base@, reference@),
{
    Url::parse(base).ok()?.join(reference).ok().map(String::from)
}

/// Resolves the address of the resource `id` inside `directory`.
pub(crate) fn join_item(base: &str, directory: &str, id: u64) -> (joined: Option<String>)
    ensures
        text_of(joined) == item_url(base@, directory@, id),
{
    match join_url(base, directory) {
        Some(collection) => join_url(collection.as_str(), decimal_text(id).as_str()),
        None => None,
    }
}

} // verus!
