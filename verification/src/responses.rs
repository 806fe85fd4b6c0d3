//! The queries sent to the wiki and what is read out of its answers.

use crate::claim::{add_param, pairs};
use crate::json::Json;
use crate::number::{parse_i64, parsed_i64};
use vstd::prelude::*;
use vstd::string::StringExecFns;

verus! {

/// Why no page identifier was found for a title.
#[derive(Clone, Copy, Debug, PartialEq, Eq, Structural)]
pub enum PageIdError {
    /// The title has no namespace on this wiki.
    NoNamespace,
    /// The query itself failed.
    QueryFailed,
    /// The answer has no object `query.pages`.
    NoPages,
    /// The object `query.pages` is empty.
    NoPageId,
    /// The page is listed under a negative number: it does not exist.
    PageMissing,
    /// The page is listed under a key that is no number.
    BadPageId,
}

/// What is said of each error.
pub open spec fn page_id_error_text(why: PageIdError) -> Seq<char> {
    match why {
        PageIdError::NoNamespace => "No namespace for title"@,
        PageIdError::QueryFailed => "Query failed"@,
        PageIdError::NoPages => "get_page_id: No object.pages in JSON"@,
        PageIdError::NoPageId => "get_page_id: No page ID in JSON"@,
        PageIdError::PageMissing => "Page does not exist"@,
        PageIdError::BadPageId => "Can't parse NamespaceID"@,
    }
}

impl PageIdError {
    /// The error in words.
    pub fn message(&self) -> (out: &'static str)
        ensures
            out@ == page_id_error_text(*self),
    {
        match self {
            PageIdError::NoNamespace => "No namespace for title",
            PageIdError::QueryFailed => "Query failed",
            PageIdError::NoPages => "get_page_id: No object.pages in JSON",
            PageIdError::NoPageId => "get_page_id: No page ID in JSON",
            PageIdError::PageMissing => "Page does not exist",
            PageIdError::BadPageId => "Can't parse NamespaceID",
        }
    }
}

/// The parameters of a query with two more parameters: `action=query`, then
/// the two, in this order.
pub fn query_params(key1: &str, value1: &str, key2: &str, value2: &str) -> (out: Vec<
    (String, String),
>)
    ensures
        pairs(out@) == seq![("action"@, "query"@), (key1@, value1@), (key2@, value2@)],
{
    let mut out: Vec<(String, String)> = Vec::new();
    add_param(&mut out, "action", String::from_str("query"));
    add_param(&mut out, key1, String::from_str(value1));
    add_param(&mut out, key2, String::from_str(value2));
    proof {
        assert(pairs(out@) =~= seq![("action"@, "query"@), (key1@, value1@), (key2@, value2@)]);
    }
    out
}

/// The parameters of the query that asks whether `page` uses the template
/// `template`.
pub fn template_query(page: &str, template: &str) -> (out: Vec<(String, String)>)
    ensures
        pairs(out@) == seq![
            ("action"@, "query"@),
            ("prop"@, "templates"@),
            ("tltemplates"@, "Template:"@ + template@),
            ("titles"@, page@),
        ],
{
    let mut name = String::from_str("Template:");
    name.append(template);
    let mut out: Vec<(String, String)> = Vec::new();
    add_param(&mut out, "action", String::from_str("query"));
    add_param(&mut out, "prop", String::from_str("templates"));
    add_param(&mut out, "tltemplates", name);
    add_param(&mut out, "titles", String::from_str(page));
    proof {
        assert(pairs(out@) =~= seq![
            ("action"@, "query"@),
            ("prop"@, "templates"@),
            ("tltemplates"@, "Template:"@ + template@),
            ("titles"@, page@),
        ]);
    }
    out
}

/// The pages that an answer lists: the members of its object `query.pages`.
pub open spec fn pages_of(response: Json) -> Option<Seq<(String, Json)>> {
    match response.member2("query"@, "pages"@) {
        Some(pages) => pages.members(),
        None => None,
    }
}

/// The pages that an answer lists.
pub fn pages(response: &Json) -> (out: Option<&Vec<(String, Json)>>)
    ensures
        out is Some == pages_of(*response) is Some,
        out matches Some(p) ==> pages_of(*response) == Some(p@),
{
    match response.get2("query", "pages") {
        Some(p) => p.as_object(),
        None => None,
    }
}

/// The page identifier in an answer: the key of the first page listed, read
/// as a number that is not negative.
pub open spec fn page_id_in(response: Json) -> Result<i64, PageIdError> {
    match pages_of(response) {
        None => Err(PageIdError::NoPages),
        Some(pages) => if pages.len() == 0 {
            Err(PageIdError::NoPageId)
        } else {
            match parsed_i64(pages[0].0@) {
                None => Err(PageIdError::BadPageId),
                Some(id) => if id < 0 {
                    Err(PageIdError::PageMissing)
                } else {
                    Ok(id)
                },
            }
        },
    }
}

/// Reads the page identifier out of the answer to a page query.
pub fn page_id_from(response: &Json) -> (out: Result<i64, PageIdError>)
    ensures
        out == page_id_in(*response),
{
    let listed = match pages(response) {
        Some(p) => p,
        None => {
            return Err(PageIdError::NoPages);
        },
    };
    if listed.len() == 0 {
        return Err(PageIdError::NoPageId);
    }
    match parse_i64(listed[0].0.as_str()) {
        None => Err(PageIdError::BadPageId),
        Some(id) => if id < 0 {
            Err(PageIdError::PageMissing)
        } else {
            Ok(id)
        },
    }
}

/// The free page image that a page declares: the string
/// `pageprops.page_image_free`.
pub open spec fn page_image(page: Json) -> Option<String> {
    match page.member2("pageprops"@, "page_image_free"@) {
        Some(image) => image.text(),
        None => None,
    }
}

/// `i` is the first of `pages` that declares a free page image.
pub open spec fn is_first_image(pages: Seq<(String, Json)>, i: int) -> bool {
    &&& 0 <= i < pages.len()
    &&& page_image(pages[i].1) is Some
    &&& forall|k: int| 0 <= k < i ==> page_image(#[trigger] pages[k].1) is None
}

/// The free page image in an answer: that of the first page listed that
/// declares one.
pub open spec fn free_page_image_in(response: Json) -> Option<String> {
    match pages_of(response) {
        None => None,
        Some(pages) => if exists|i: int| is_first_image(pages, i) {
            page_image(pages[choose|i: int| is_first_image(pages, i)].1)
        } else {
            None
        },
    }
}

/// Reads the free page image out of the answer to a page-properties query.
pub fn free_page_image_from(response: &Json) -> (out: Option<String>)
    ensures
        out == free_page_image_in(*response),
{
    let listed = match pages(response) {
        Some(p) => p,
        None => {
            return None;
        },
    };
    let mut i: usize = 0;
    while i < listed.len()
        invariant
            i <= listed.len(),
            pages_of(*response) == Some(listed@),
            forall|k: int| 0 <= k < i ==> page_image(#[trigger] listed@[k].1) is None,
        decreases listed.len() - i,
    {
        let image = match listed[i].1.get2("pageprops", "page_image_free") {
            Some(j) => j.as_str(),
            None => None,
        };
        match image {
            Some(s) => {
                proof {
                    assert(is_first_image(listed@, i as int));
                    let c = choose|c: int| is_first_image(listed@, c);
                    assert(c == i);
                }
                return Some(s.clone());
            },
            None => {},
        }
        i += 1;
    }
    None
}

/// The page lists templates: its member `templates` is an array.
pub open spec fn lists_templates(page: Json) -> bool {
    page.member("templates"@) matches Some(t) && t.elements() is Some
}

/// The page `i` of `pages` lists templates.
pub open spec fn listed_with_templates(pages: Seq<(String, Json)>, i: int) -> bool {
    0 <= i < pages.len() && lists_templates(pages[i].1)
}

/// Some page of the answer lists templates.
pub open spec fn templates_in(response: Json) -> bool {
    match pages_of(response) {
        Some(pages) => exists|i: int| #[trigger] listed_with_templates(pages, i),
        None => false,
    }
}

/// Whether the answer to a template query lists the template for some page.
pub fn templates_from(response: &Json) -> (out: bool)
    ensures
        out == templates_in(*response),
{
    let listed = match pages(response) {
        Some(p) => p,
        None => {
            return false;
        },
    };
    let mut i: usize = 0;
    while i < listed.len()
        invariant
            i <= listed.len(),
            pages_of(*response) == Some(listed@),
            forall|k: int| 0 <= k < i ==> !listed_with_templates(listed@, k),
        decreases listed.len() - i,
    {
        let found = match listed[i].1.get("templates") {
            Some(t) => t.is_array(),
            None => false,
        };
        if found {
            proof {
                assert(listed_with_templates(listed@, i as int));
                assert(pages_of(*response) matches Some(ps) && ps == listed@);
            }
            return true;
        }
        i += 1;
    }
    false
}

} // verus!
