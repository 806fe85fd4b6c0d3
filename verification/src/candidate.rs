//! The candidates that the two sources yield, and how each source's answer
//! is read.

use crate::json::Json;
use crate::seqs::{filter_map, lemma_filter_map_prefix, lemma_filter_map_step};
use crate::text::{last_segment, last_segment_of, opt_text, strip_prefix_of, without_prefix};
use crate::title::{decoded_title, title_decodable, try_percent_decode_title};
use vstd::prelude::*;
use vstd::string::StringExecFns;

verus! {

/// A candidate of the category scan: the category it came from, the item it
/// stands for and the image found for it. A stage that cannot resolve a part
/// leaves it out.
#[derive(Clone, Debug, PartialEq, Eq)]
pub struct CategoryItemImage {
    pub category: String,
    pub item: Option<String>,
    pub image: Option<String>,
}

/// A candidate of the structured query: the item, the title of its article
/// on the sibling wiki, the image that the item declares and the page image
/// of the article.
#[derive(Clone, Debug, PartialEq, Eq)]
pub struct ItemArticleImagesPageImage {
    pub q: String,
    pub article: String,
    pub p18: Option<String>,
    pub pageimage: Option<String>,
}

/// A candidate of the structured query, as text.
pub struct ArticleView {
    pub q: Seq<char>,
    pub article: Seq<char>,
    pub p18: Option<Seq<char>>,
    pub pageimage: Option<Seq<char>>,
}

impl View for ItemArticleImagesPageImage {
    type V = ArticleView;

    open spec fn view(&self) -> ArticleView {
        ArticleView {
            q: self.q@,
            article: self.article@,
            p18: opt_text(self.p18),
            pageimage: opt_text(self.pageimage),
        }
    }
}

/// Why a source gave no candidates.
#[derive(Clone, Copy, Debug, PartialEq, Eq, Structural)]
pub enum SourceError {
    /// The answer lacks the list that the source's format puts its rows in.
    NoRows,
    /// A title in the answer, percent-decoded, is not UTF-8.
    UndecodableTitle,
}

impl SourceError {
    /// The error in words.
    pub fn message(&self) -> (out: &'static str)
        ensures
            out@ == match *self {
                SourceError::NoRows => "No rows in the answer"@,
                SourceError::UndecodableTitle => "A title in the answer is not UTF-8"@,
            },
    {
        match self {
            SourceError::NoRows => "No rows in the answer",
            SourceError::UndecodableTitle => "A title in the answer is not UTF-8",
        }
    }
}

/// The structured query for the items that `pattern` selects: each with its
/// image and with its article on the wiki at `server`.
pub open spec fn query_text(pattern: Seq<char>, server: Seq<char>) -> Seq<char> {
    "SELECT ?q ?image ?article { "@ + pattern
        + " . ?q  wdt:P18 ?image . ?article schema:about ?q ; schema:isPartOf <https://"@ + server
        + "/> }"@
}

/// The structured query for the items that `pattern` selects.
pub fn query_for(pattern: &str, server: &str) -> (out: String)
    ensures
        out@ == query_text(pattern@, server@),
{
    let mut out = String::from_str("SELECT ?q ?image ?article { ");
    out.append(pattern);
    out.append(" . ?q  wdt:P18 ?image . ?article schema:about ?q ; schema:isPartOf <https://");
    out.append(server);
    out.append("/> }");
    out
}

/// The address of the API of the wiki at `server`.
pub fn api_url_for(server: &str) -> (out: String)
    ensures
        out@ == "https://"@ + server@ + "/w/api.php"@,
{
    let mut out = String::from_str("https://");
    out.append(server);
    out.append("/w/api.php");
    out
}

impl CategoryItemImage {
    /// A copy of the candidate.
    pub fn duplicate(&self) -> (out: CategoryItemImage)
        ensures
            out == *self,
    {
        CategoryItemImage {
            category: self.category.clone(),
            item: match &self.item {
                Some(s) => Some(s.clone()),
                None => None,
            },
            image: match &self.image {
                Some(s) => Some(s.clone()),
                None => None,
            },
        }
    }
}

/// The rows of a category scan: the array under `*`, element 0, `a`, `*`.
pub open spec fn scan_rows(response: Json) -> Option<Seq<Json>> {
    match response.member("*"@) {
        None => None,
        Some(outer) => match outer.element(0) {
            None => None,
            Some(first) => match first.member2("a"@, "*"@) {
                None => None,
                Some(rows) => rows.elements(),
            },
        },
    }
}

/// The candidate that a row of a category scan gives: its `title` as the
/// category and its `q` as the item, where both are strings.
pub open spec fn scan_candidate(row: Json) -> Option<CategoryItemImage> {
    match (row.text_at("title"@), row.text_at("q"@)) {
        (Some(title), Some(q)) => Some(
            CategoryItemImage { category: title, item: Some(q), image: None },
        ),
        _ => None,
    }
}

/// The rule that reads a row of a category scan.
pub open spec fn scan_rule() -> spec_fn(Json) -> Option<CategoryItemImage> {
    |row: Json| scan_candidate(row)
}

/// The candidates of a category scan, or `NoRows` where the answer does not
/// have the scan's shape.
pub fn candidates_from_scan(response: &Json) -> (out: Result<Vec<CategoryItemImage>, SourceError>)
    ensures
        match scan_rows(*response) {
            None => out == Err::<Vec<CategoryItemImage>, SourceError>(SourceError::NoRows),
            Some(rows) => out matches Ok(found) && found@ == filter_map(rows, scan_rule()),
        },
{
    let outer = match response.get("*") {
        Some(j) => j,
        None => {
            return Err(SourceError::NoRows);
        },
    };
    let first = match outer.at(0) {
        Some(j) => j,
        None => {
            return Err(SourceError::NoRows);
        },
    };
    let listed = match first.get2("a", "*") {
        Some(j) => j,
        None => {
            return Err(SourceError::NoRows);
        },
    };
    let rows = match listed.as_array() {
        Some(r) => r,
        None => {
            return Err(SourceError::NoRows);
        },
    };
    let mut found: Vec<CategoryItemImage> = Vec::new();
    let mut i: usize = 0;
    while i < rows.len()
        invariant
            i <= rows.len(),
            found@ == filter_map(rows@.take(i as int), scan_rule()),
        decreases rows.len() - i,
    {
        proof {
            lemma_filter_map_step(rows@, scan_rule(), i as int);
        }
        match (rows[i].get_str("title"), rows[i].get_str("q")) {
            (Some(title), Some(q)) => {
                found.push(
                    CategoryItemImage { category: title.clone(), item: Some(q.clone()), image: None },
                );
            },
            _ => {},
        }
        i += 1;
    }
    proof {
        assert(rows@.take(rows.len() as int) =~= rows@);
    }
    Ok(found)
}

/// The rows of a structured query: the array `results.bindings`.
pub open spec fn query_rows(response: Json) -> Option<Seq<Json>> {
    match response.member2("results"@, "bindings"@) {
        Some(bindings) => bindings.elements(),
        None => None,
    }
}

/// What a row of a structured query names, before any decoding: the item,
/// the last segment of the image's address and the last segment of the
/// article's address.
pub struct RawRow {
    pub q: Seq<char>,
    pub image: Seq<char>,
    pub article: Seq<char>,
}

/// What a row of a structured query names. A row counts where its `q`,
/// `image` and `article` each have a string `value` and the item's address
/// begins with `base`, the address under which the knowledge base lists its
/// entities. Where that address is not known, no row counts.
pub open spec fn raw_row(row: Json, base: Option<Seq<char>>) -> Option<RawRow> {
    match (
        row.text_at2("q"@, "value"@),
        row.text_at2("image"@, "value"@),
        row.text_at2("article"@, "value"@),
    ) {
        (Some(q), Some(image), Some(article)) => match base {
            Some(prefix) => match without_prefix(q@, prefix) {
                Some(id) => Some(
                    RawRow { q: id, image: last_segment(image@), article: last_segment(article@) },
                ),
                None => None,
            },
            None => None,
        },
        _ => None,
    }
}

/// The rule that reads a row of a structured query.
pub open spec fn row_rule(base: Option<Seq<char>>) -> spec_fn(Json) -> Option<RawRow> {
    |row: Json| raw_row(row, base)
}

/// Both titles of the row can be decoded.
pub open spec fn row_decodable(row: RawRow) -> bool {
    title_decodable(row.image) && title_decodable(row.article)
}

/// The candidate that a row gives: the item, the decoded title of the
/// article, the decoded name of the image, and no page image yet.
pub open spec fn row_candidate(row: RawRow) -> ArticleView {
    ArticleView {
        q: row.q,
        article: decoded_title(row.article),
        p18: Some(decoded_title(row.image)),
        pageimage: None,
    }
}

/// The candidates that the rows `rows` give.
pub open spec fn row_candidates(rows: Seq<RawRow>) -> Seq<ArticleView> {
    rows.map_values(|r: RawRow| row_candidate(r))
}

/// The candidates, each as text.
pub open spec fn article_views(found: Seq<ItemArticleImagesPageImage>) -> Seq<ArticleView> {
    found.map_values(|c: ItemArticleImagesPageImage| c@)
}

/// Every row of `rows` can be decoded.
pub open spec fn all_decodable(rows: Seq<RawRow>) -> bool {
    forall|k: int| 0 <= k < rows.len() ==> row_decodable(#[trigger] rows[k])
}

/// The text of an optional string slice.
pub open spec fn opt_str_text(s: Option<&str>) -> Option<Seq<char>> {
    match s {
        Some(t) => Some(t@),
        None => None,
    }
}

/// The candidates of a structured query. `NoRows` where the answer has no
/// array `results.bindings`; `UndecodableTitle` where some row that counts
/// names a title that cannot be decoded.
pub fn candidates_from_query(response: &Json, base: Option<&str>) -> (out: Result<
    Vec<ItemArticleImagesPageImage>,
    SourceError,
>)
    ensures
        match query_rows(*response) {
            None => out == Err::<Vec<ItemArticleImagesPageImage>, SourceError>(SourceError::NoRows),
            Some(rows) => {
                let raw = filter_map(rows, row_rule(opt_str_text(base)));
                if all_decodable(raw) {
                    out matches Ok(found) && article_views(found@) == row_candidates(raw)
                } else {
                    out == Err::<Vec<ItemArticleImagesPageImage>, SourceError>(
                        SourceError::UndecodableTitle,
                    )
                }
            },
        },
{
    let rows = match response.get2("results", "bindings") {
        Some(bindings) => match bindings.as_array() {
            Some(r) => r,
            None => {
                return Err(SourceError::NoRows);
            },
        },
        None => {
            return Err(SourceError::NoRows);
        },
    };
    let mut found: Vec<ItemArticleImagesPageImage> = Vec::new();
    let mut i: usize = 0;
    while i < rows.len()
        invariant
            i <= rows.len(),
            query_rows(*response) == Some(rows@),
            all_decodable(filter_map(rows@.take(i as int), row_rule(opt_str_text(base)))),
            article_views(found@) == row_candidates(
                filter_map(rows@.take(i as int), row_rule(opt_str_text(base))),
            ),
        decreases rows.len() - i,
    {
        let ghost before = filter_map(rows@.take(i as int), row_rule(opt_str_text(base)));
        let ghost after = filter_map(rows@.take(i + 1), row_rule(opt_str_text(base)));
        proof {
            lemma_filter_map_step(rows@, row_rule(opt_str_text(base)), i as int);
        }
        match (
            rows[i].get_str2("q", "value"),
            rows[i].get_str2("image", "value"),
            rows[i].get_str2("article", "value"),
        ) {
            (Some(q), Some(image), Some(article)) => {
                let stripped = match base {
                    Some(prefix) => strip_prefix_of(q.as_str(), prefix),
                    None => None,
                };
                match stripped {
                    Some(id) => {
                        let image_name = last_segment_of(image.as_str());
                        let article_name = last_segment_of(article.as_str());
                        let ghost row = RawRow {
                            q: id@,
                            image: image_name@,
                            article: article_name@,
                        };
                        proof {
                            assert(raw_row(rows@[i as int], opt_str_text(base)) == Some(row));
                            assert(after == before.push(row));
                        }
                        let p18 = try_percent_decode_title(image_name.as_str());
                        let title = try_percent_decode_title(article_name.as_str());
                        match (p18, title) {
                            (Some(p18), Some(title)) => {
                                let candidate = ItemArticleImagesPageImage {
                                    q: id,
                                    article: title,
                                    p18: Some(p18),
                                    pageimage: None,
                                };
                                proof {
                                    assert(candidate@ == row_candidate(row));
                                    assert(article_views(found@.push(candidate))
                                        =~= article_views(found@).push(candidate@));
                                    assert(row_candidates(before.push(row)) =~= row_candidates(
                                        before,
                                    ).push(row_candidate(row)));
                                    assert forall|k: int| 0 <= k < after.len() implies row_decodable(
                                        #[trigger] after[k],
                                    ) by {
                                        if k < before.len() {
                                            assert(after[k] == before[k]);
                                        }
                                    }
                                }
                                found.push(candidate);
                            },
                            _ => {
                                proof {
                                    let all = filter_map(rows@, row_rule(opt_str_text(base)));
                                    lemma_filter_map_prefix(rows@, row_rule(opt_str_text(base)), i + 1);
                                    assert(all[before.len() as int] == after[before.len() as int]);
                                    assert(!row_decodable(all[before.len() as int]));
                                }
                                return Err(SourceError::UndecodableTitle);
                            },
                        }
                    },
                    None => {},
                }
            },
            _ => {},
        }
        i += 1;
    }
    proof {
        assert(rows@.take(rows.len() as int) =~= rows@);
    }
    Ok(found)
}

} // verus!
