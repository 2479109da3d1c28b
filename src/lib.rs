//! Search a model-sharing catalog, pick one artifact of a result by a fixed
//! rule, turn its markup-bearing description into plain text, and drive the
//! download of the artifact with cleanup of partial output.
pub mod catalog;
pub mod download;
pub mod error;
pub mod markup;
pub mod query;
pub mod text;

pub use catalog::{concatenate_query_items, Creator, ModelFile, ModelVersion, QueryItem, QueryResponse, Stats};
pub use download::{DownloadAction, DownloadEvent, DownloadState};
pub use error::{CatalogError, DownloadError};
pub use markup::{strip_markup, text_content};
pub use query::{
    get_first_query_item, get_model_file_url, get_query_items, model_download_url, search_url,
    MAX_LIMIT,
};
pub use text::{decimal_string, join_with, percent_encode, shorten_clusters, shorten_unicode};
