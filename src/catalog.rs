//! The catalog's entities (item, version, file) and the read-only
//! projections over them: canonical selection, joined lists, plain and short
//! descriptions, the metadata report and the listing shown for a result.
use crate::error::CatalogError;
use crate::markup::{fragment_nodes, strip_markup, text_of};
use crate::text::{
    decimal, decimal_string, grapheme_clusters, join_with, joined, shorten_unicode, shortened,
    views,
};
use vstd::prelude::*;
use vstd::string::*;
use vstd::utf8::encode_utf8;

verus! {

/// The account that published an item.
#[derive(Clone, Debug)]
pub struct Creator {
    pub username: String,
}

/// Informational counters of an item.
#[derive(Clone, Debug)]
pub struct Stats {
    pub download_count: u32,
    pub favorite_count: u32,
    pub comment_count: u32,
    pub rating_count: u32,
    /// The mean rating, in decimal notation.
    pub rating: String,
    pub tipped_amount_count: u32,
}

/// One downloadable binary of a version.
#[derive(Clone, Debug)]
pub struct ModelFile {
    pub id: u32,
    /// The size in kibibytes, in decimal notation.
    pub size_kb: String,
    pub name: String,
    pub download_url: String,
}

/// One published revision of an item.
#[derive(Clone, Debug)]
pub struct ModelVersion {
    /// The identifier of this version; downloads by identifier use it.
    pub version_id: u32,
    /// The identifier of the item this version belongs to.
    pub parent_item_id: u32,
    pub name: String,
    pub trained_words: Vec<String>,
    pub base_model: Option<String>,
    pub base_model_type: Option<String>,
    /// The files, in the catalog's order; the first is the canonical one.
    pub files: Vec<ModelFile>,
}

/// One entry of a search result.
#[derive(Clone, Debug)]
pub struct QueryItem {
    pub name: String,
    pub id: u32,
    /// Free text that may hold markup.
    pub description: Option<String>,
    pub creator: Creator,
    pub tags: Vec<String>,
    pub stats: Stats,
    /// The versions, in the catalog's order; the first is the canonical one.
    pub model_versions: Vec<ModelVersion>,
}

/// The items of one search, in the catalog's order.
#[derive(Clone, Debug)]
pub struct QueryResponse {
    pub items: Vec<QueryItem>,
}

/// The canonical file of a version: its first.
pub open spec fn canonical_file(v: ModelVersion) -> Option<ModelFile> {
    if v.files@.len() > 0 {
        Some(v.files@[0])
    } else {
        None
    }
}

/// The canonical version of an item: its first.
pub open spec fn canonical_version(item: QueryItem) -> Option<ModelVersion> {
    if item.model_versions@.len() > 0 {
        Some(item.model_versions@[0])
    } else {
        None
    }
}

/// The canonical file of an item's canonical version.
pub open spec fn item_file(item: QueryItem) -> Option<ModelFile> {
    match canonical_version(item) {
        Some(v) => canonical_file(v),
        None => None,
    }
}

/// What a `Result` carrying the selection `sel` is: the value where there is
/// one, else the error for an empty collection.
pub open spec fn selected<T>(r: Result<&T, CatalogError>, sel: Option<T>) -> bool {
    match sel {
        Some(x) => r is Ok && *r->Ok_0 == x,
        None => r is Err && r->Err_0 == CatalogError::EmptyCollection,
    }
}

/// The same, for a text taken from the selection by `f`.
pub open spec fn selected_text<T>(
    r: Result<String, CatalogError>,
    sel: Option<T>,
    f: spec_fn(T) -> Seq<char>,
) -> bool {
    match sel {
        Some(x) => r is Ok && r->Ok_0@ == f(x),
        None => r == Err::<String, CatalogError>(CatalogError::EmptyCollection),
    }
}

/// The text shown for an item without a description.
pub open spec fn no_description() -> Seq<char> {
    "<No description given>"@
}

/// The description as plain text.
pub open spec fn plain_description(item: QueryItem) -> Seq<char> {
    match item.description {
        Some(d) => text_of(fragment_nodes(d@)),
        None => no_description(),
    }
}

/// The plain description, kept whole where its UTF-8 length is at most
/// `len` bytes, else cut to `len` grapheme clusters followed by `trail`.
pub open spec fn short_description(item: QueryItem, len: nat, trail: Seq<char>) -> Seq<char> {
    let d = plain_description(item);
    if encode_utf8(d).len() <= len {
        d
    } else {
        shortened(grapheme_clusters(d), len, trail)
    }
}

/// The lines that describe a version, in this order.
pub open spec fn version_lines(v: ModelVersion) -> Seq<Seq<char>> {
    seq![
        "Model Name/Version: "@ + v.name@,
        "Trained Words: "@ + joined(views(v.trained_words@), ", "@),
    ]
}

/// The lines that describe a file, in this order.
pub open spec fn file_lines(f: ModelFile) -> Seq<Seq<char>> {
    seq![
        "Filename: "@ + f.name@,
        "Url: "@ + f.download_url@,
        "File Id: "@ + decimal(f.id as nat),
        "File Size (KB): "@ + f.size_kb@,
    ]
}

/// The metadata report of a version and one of its files.
pub open spec fn report_lines(v: ModelVersion, f: ModelFile) -> Seq<Seq<char>> {
    version_lines(v) + file_lines(f)
}

/// The listing of an item whose canonical file is `f`; `desc` is the
/// description shown.
pub open spec fn display_lines(item: QueryItem, f: ModelFile, desc: Seq<char>) -> Seq<
    Seq<char>,
> {
    seq![
        "    Model: "@ + f.name@,
        "    Id: "@ + decimal(item.id as nat),
        "    Size (KB): "@ + f.size_kb@,
        "    Creator: "@ + item.creator.username@,
        "    Tags: "@ + joined(views(item.tags@), ", "@),
        "    Desc: "@ + desc,
        "\n"@,
    ]
}

/// The description shown in a listing: whole when `full`, else cut to 100
/// clusters followed by "...".
pub open spec fn shown_description(item: QueryItem, full: bool) -> Seq<char> {
    if full {
        plain_description(item)
    } else {
        short_description(item, 100, "..."@)
    }
}

/// The listing of an item that has a canonical file.
pub open spec fn display_text(item: QueryItem, full: bool) -> Seq<char> {
    joined(display_lines(item, item_file(item)->Some_0, shown_description(item, full)), "\n"@)
}

/// The listing of the first `n` items, each under a numbered header; the
/// numbers count down from the number of items to 1.
pub open spec fn listing(items: Seq<QueryItem>, n: int, full: bool) -> Seq<char>
    decreases n,
{
    if n <= 0 {
        Seq::empty()
    } else {
        listing(items, n - 1, full) + "\n["@ + decimal((items.len() - (n - 1)) as nat)
            + "]=========\n"@ + display_text(items[n - 1], full)
    }
}

/// `label` followed by `value`.
fn labeled(label: &str, value: &str) -> (r: String)
    ensures
        r@ == label@ + value@,
{
    let mut s = String::from_str(label);
    s.append(value);
    s
}

impl ModelFile {
    /// The lines that describe this file in a metadata report.
    pub fn get_file_metadata(&self) -> (r: Vec<String>)
        ensures
            views(r@) == file_lines(*self),
    {
        let mut lines: Vec<String> = Vec::new();
        lines.push(labeled("Filename: ", self.name.as_str()));
        lines.push(labeled("Url: ", self.download_url.as_str()));
        let id = decimal_string(self.id as u64);
        lines.push(labeled("File Id: ", id.as_str()));
        lines.push(labeled("File Size (KB): ", self.size_kb.as_str()));
        assert(views(lines@) =~= file_lines(*self));
        lines
    }
}

impl ModelVersion {
    /// The canonical file: the first, as the catalog ordered them.
    pub fn get_latest_file(&self) -> (r: Result<&ModelFile, CatalogError>)
        ensures
            selected(r, canonical_file(*self)),
    {
        if self.files.len() == 0 {
            Err(CatalogError::EmptyCollection)
        } else {
            Ok(&self.files[0])
        }
    }

    /// The trained words, joined with ", " in their order.
    pub fn get_trained_words(&self) -> (r: String)
        ensures
            r@ == joined(views(self.trained_words@), ", "@),
    {
        join_with(&self.trained_words, ", ")
    }

    /// The lines that describe this version in a metadata report.
    pub fn get_version_metadata(&self) -> (r: Vec<String>)
        ensures
            views(r@) == version_lines(*self),
    {
        let mut lines: Vec<String> = Vec::new();
        lines.push(labeled("Model Name/Version: ", self.name.as_str()));
        let words = self.get_trained_words();
        lines.push(labeled("Trained Words: ", words.as_str()));
        assert(views(lines@) =~= version_lines(*self));
        lines
    }
}

impl QueryItem {
    /// The item's identifier in decimal.
    pub fn get_id(&self) -> (r: String)
        ensures
            r@ == decimal(self.id as nat),
    {
        decimal_string(self.id as u64)
    }

    /// The tags, joined with ", " in their order.
    pub fn get_tags(&self) -> (r: String)
        ensures
            r@ == joined(views(self.tags@), ", "@),
    {
        join_with(&self.tags, ", ")
    }

    pub fn get_creator_name(&self) -> (r: String)
        ensures
            r == self.creator.username,
    {
        self.creator.username.clone()
    }

    pub fn get_model_versions(&self) -> (r: &Vec<ModelVersion>)
        ensures
            *r == self.model_versions,
    {
        &self.model_versions
    }

    /// The canonical version: the first, as the catalog ordered them.
    pub fn get_first(&self) -> (r: Result<&ModelVersion, CatalogError>)
        ensures
            selected(r, canonical_version(*self)),
    {
        if self.model_versions.len() == 0 {
            Err(CatalogError::EmptyCollection)
        } else {
            Ok(&self.model_versions[0])
        }
    }

    /// The canonical file of the canonical version.
    pub fn get_file(&self) -> (r: Result<&ModelFile, CatalogError>)
        ensures
            selected(r, item_file(*self)),
    {
        let version = self.get_first()?;
        version.get_latest_file()
    }

    /// The description without markup, or a fixed text where there is none.
    pub fn get_description(&self) -> (r: String)
        ensures
            r@ == plain_description(*self),
    {
        match &self.description {
            Some(d) => strip_markup(d.as_str()),
            None => String::from_str("<No description given>"),
        }
    }

    /// The plain description, unchanged where its UTF-8 length is at most
    /// `len` bytes; else its first `len` grapheme clusters followed by `trail`.
    pub fn get_short_description(&self, len: usize, trail: &str) -> (r: String)
        ensures
            r@ == short_description(*self, len as nat, trail@),
    {
        let desc = self.get_description();
        let byte_len = desc.as_str().as_bytes().len();
        if byte_len > len {
            shorten_unicode(desc, len, trail)
        } else {
            desc
        }
    }

    /// The metadata report of the canonical version and its canonical file.
    pub fn generate_model_report(&self) -> (r: Result<Vec<String>, CatalogError>)
        ensures
            match item_file(*self) {
                Some(f) => r is Ok && views(r->Ok_0@) == report_lines(
                    canonical_version(*self)->Some_0,
                    f,
                ),
                None => r == Err::<Vec<String>, CatalogError>(CatalogError::EmptyCollection),
            },
    {
        let version = self.get_first()?;
        let file = version.get_latest_file()?;
        let mut lines = version.get_version_metadata();
        let mut file_part = file.get_file_metadata();
        lines.append(&mut file_part);
        assert(views(lines@) =~= report_lines(*version, *file));
        Ok(lines)
    }

    /// The download URL of the canonical file.
    pub fn get_download_url(&self) -> (r: Result<String, CatalogError>)
        ensures
            selected_text(r, item_file(*self), |f: ModelFile| f.download_url@),
    {
        let file = self.get_file()?;
        Ok(file.download_url.clone())
    }

    /// The identifier of the canonical version in decimal, as used for
    /// downloads by identifier.
    pub fn get_download_id(&self) -> (r: Result<String, CatalogError>)
        ensures
            selected_text(
                r,
                canonical_version(*self),
                |v: ModelVersion| decimal(v.version_id as nat),
            ),
    {
        let version = self.get_first()?;
        Ok(decimal_string(version.version_id as u64))
    }

    /// The file name of the canonical file.
    pub fn get_model_filename(&self) -> (r: Result<String, CatalogError>)
        ensures
            selected_text(r, item_file(*self), |f: ModelFile| f.name@),
    {
        let file = self.get_file()?;
        Ok(file.name.clone())
    }

    /// The listing of this item for a search result: the canonical file's
    /// name and size, the identifier, the creator, the tags and the
    /// description (whole when `full`, else cut to 100 clusters with "..."),
    /// one indented line each, then a blank line.
    pub fn make_cli_query_display(&self, full: bool) -> (r: Result<String, CatalogError>)
        ensures
            match item_file(*self) {
                Some(f) => r is Ok && r->Ok_0@ == display_text(*self, full),
                None => r == Err::<String, CatalogError>(CatalogError::EmptyCollection),
            },
    {
        let file = self.get_file()?;
        let desc = if full {
            self.get_description()
        } else {
            self.get_short_description(100, "...")
        };
        let mut lines: Vec<String> = Vec::new();
        lines.push(labeled("    Model: ", file.name.as_str()));
        let id = self.get_id();
        lines.push(labeled("    Id: ", id.as_str()));
        lines.push(labeled("    Size (KB): ", file.size_kb.as_str()));
        lines.push(labeled("    Creator: ", self.creator.username.as_str()));
        let tags = self.get_tags();
        lines.push(labeled("    Tags: ", tags.as_str()));
        lines.push(labeled("    Desc: ", desc.as_str()));
        lines.push(String::from_str("\n"));
        assert(views(lines@) =~= display_lines(*self, *file, desc@));
        Ok(join_with(&lines, "\n"))
    }
}

/// The listings of the items, in order, each under the header
/// "\n[k]=========\n" where `k` counts down from the number of items to 1.
/// Fails with `EmptyCollection` where an item has no canonical file.
pub fn concatenate_query_items(queries: &Vec<QueryItem>, full: bool) -> (r: Result<
    String,
    CatalogError,
>)
    ensures
        (forall|k: int| 0 <= k < queries@.len() ==> #[trigger] item_file(queries@[k]) is Some)
            ==> r is Ok && r->Ok_0@ == listing(queries@, queries@.len() as int, full),
        (exists|k: int| 0 <= k < queries@.len() && #[trigger] item_file(queries@[k]) is None)
            ==> r == Err::<String, CatalogError>(CatalogError::EmptyCollection),
{
    let mut out = String::new();
    let mut i: usize = 0;
    while i < queries.len()
        invariant
            i <= queries.len(),
            out@ == listing(queries@, i as int, full),
            forall|k: int| 0 <= k < i ==> #[trigger] item_file(queries@[k]) is Some,
        decreases queries.len() - i,
    {
        let shown = queries[i].make_cli_query_display(full)?;
        let number = decimal_string((queries.len() - i) as u64);
        out.append("\n[");
        out.append(number.as_str());
        out.append("]=========\n");
        out.append(shown.as_str());
        i = i + 1;
    }
    Ok(out)
}

/// The metadata report depends on the canonical version and file alone: two
/// items that agree on them get the same lines, labels and order.
pub proof fn lemma_report_stable(a: QueryItem, b: QueryItem)
    requires
        canonical_version(a) == canonical_version(b),
    ensures
        item_file(a) == item_file(b),
        item_file(a) is Some ==> report_lines(canonical_version(a)->Some_0, item_file(a)->Some_0)
            == report_lines(canonical_version(b)->Some_0, item_file(b)->Some_0),
{
}

} // verus!
