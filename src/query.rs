//! The search request and what is made of its response: the non-empty list of
//! items, the first item, and the download target of the first item.
use crate::catalog::{item_file, selected_text, ModelFile, QueryItem, QueryResponse};
use crate::error::CatalogError;
use crate::text::{decimal, decimal_string, percent_encode, percent_encoded};
use vstd::prelude::*;
use vstd::string::*;

verus! {

/// The largest number of items one search may ask for.
pub const MAX_LIMIT: u8 = 100;

/// The address of a search for `query` (percent-encoded) that asks for
/// `limit` items, with content not safe for work excluded exactly when `safe`
/// holds.
pub open spec fn search_url_of(query: Seq<char>, limit: nat, safe: bool) -> Seq<char> {
    "https://civitai.com/api/v1/models?limit="@ + decimal(limit) + "&query="@ + percent_encoded(
        query,
    ) + "&nsfw="@
        + if safe {
        "false"@
    } else {
        "true"@
    }
}

/// The address of the direct download of the version with identifier `id`.
pub open spec fn download_url_of(id: Seq<char>) -> Seq<char> {
    "https://civitai.com/api/download/models/"@ + id
}

/// The address of a search for `query` that asks for `limit` items; the
/// term is percent-encoded and `nsfw` is the negation of `safe`.
pub fn search_url(query: &str, limit: u8, safe: bool) -> (r: String)
    requires
        limit <= MAX_LIMIT,
    ensures
        r@ == search_url_of(query@, limit as nat, safe),
{
    let mut url = String::from_str("https://civitai.com/api/v1/models?limit=");
    let count = decimal_string(limit as u64);
    url.append(count.as_str());
    url.append("&query=");
    let term = percent_encode(query);
    url.append(term.as_str());
    url.append("&nsfw=");
    if safe {
        url.append("false");
    } else {
        url.append("true");
    }
    url
}

/// The address of the direct download of the version with identifier `id`.
pub fn model_download_url(id: &str) -> (r: String)
    ensures
        r@ == download_url_of(id@),
{
    let mut url = String::from_str("https://civitai.com/api/download/models/");
    url.append(id);
    url
}

impl QueryResponse {
    /// The items, which must be at least one: an empty result is reported as
    /// `NoResults`.
    pub fn get_items(self) -> (r: Result<Vec<QueryItem>, CatalogError>)
        ensures
            self.items@.len() > 0 ==> r is Ok && r->Ok_0@ == self.items@,
            self.items@.len() == 0 ==> r == Err::<Vec<QueryItem>, CatalogError>(
                CatalogError::NoResults,
            ),
    {
        if self.items.len() == 0 {
            Err(CatalogError::NoResults)
        } else {
            Ok(self.items)
        }
    }
}

/// The items of a search from the outcome of fetching and decoding its
/// response: a failure to fetch or decode is passed on, and a well-formed
/// response without items is `NoResults`.
pub fn get_query_items(response: Result<QueryResponse, CatalogError>) -> (r: Result<
    Vec<QueryItem>,
    CatalogError,
>)
    ensures
        match response {
            Ok(resp) => if resp.items@.len() > 0 {
                r is Ok && r->Ok_0@ == resp.items@
            } else {
                r == Err::<Vec<QueryItem>, CatalogError>(CatalogError::NoResults)
            },
            Err(e) => r == Err::<Vec<QueryItem>, CatalogError>(e),
        },
{
    match response {
        Ok(resp) => resp.get_items(),
        Err(e) => Err(e),
    }
}

/// The first item of a search, from the outcome of fetching and decoding its
/// response; failures as for `get_query_items`.
pub fn get_first_query_item(response: Result<QueryResponse, CatalogError>) -> (r: Result<
    QueryItem,
    CatalogError,
>)
    ensures
        match response {
            Ok(resp) => if resp.items@.len() > 0 {
                r == Ok::<QueryItem, CatalogError>(resp.items@[0])
            } else {
                r == Err::<QueryItem, CatalogError>(CatalogError::NoResults)
            },
            Err(e) => r == Err::<QueryItem, CatalogError>(e),
        },
{
    let mut items = get_query_items(response)?;
    Ok(items.remove(0))
}

/// The download URL of the canonical file of the first item of a search,
/// from the outcome of fetching and decoding its response. Failures as for
/// `get_query_items`, and `EmptyCollection` where that item has no version
/// or its canonical version no file.
pub fn get_model_file_url(response: Result<QueryResponse, CatalogError>) -> (r: Result<
    String,
    CatalogError,
>)
    ensures
        match response {
            Ok(resp) => if resp.items@.len() > 0 {
                selected_text(r, item_file(resp.items@[0]), |f: ModelFile| f.download_url@)
            } else {
                r == Err::<String, CatalogError>(CatalogError::NoResults)
            },
            Err(e) => r == Err::<String, CatalogError>(e),
        },
{
    let item = get_first_query_item(response)?;
    item.get_download_url()
}

} // verus!
