//! Decoding of response bodies.
//!
//! The server signals semantic errors with the same HTTP status as
//! success, so a body must be told apart by its shape, in two passes and
//! in this order: first try the error envelope, and only if that is
//! absent try the expected success schema.  A body that matches neither
//! is a malformed response.  The JSON parsing itself is the work of
//! `serde_json`; what each parse yields on a given body is named below,
//! and the two-pass ordering is verified against those names.

use vstd::prelude::*;

use crate::api::{ContinuationToken, ParamView};
use crate::error::{Error, SerdeError, WikiError};
use crate::member::{RawMember, RawMemberView};
use vstd::string::StringExecFns;

verus! {

/// One decoded page of a category membership listing.
#[derive(Debug)]
pub struct MembersPage {
    pub members: Vec<RawMember>,
    pub cont: Option<ContinuationToken>,
}

/// The spec-level image of a `MembersPage`.
pub ghost struct MembersPageView {
    pub members: Seq<RawMemberView>,
    pub cont: Option<Seq<ParamView>>,
}

impl DeepView for MembersPage {
    type V = MembersPageView;

    open spec fn deep_view(&self) -> MembersPageView {
        MembersPageView { members: self.members.deep_view(), cont: self.cont.deep_view() }
    }
}

/// One entry of a category listing by prefix.
#[derive(Debug)]
pub struct CategoryEntry {
    pub name: Option<String>,
    pub size: Option<u64>,
    pub pages: Option<u64>,
}

/// The spec-level image of a `CategoryEntry`.
pub ghost struct CategoryEntryView {
    pub name: Option<Seq<char>>,
    pub size: Option<u64>,
    pub pages: Option<u64>,
}

impl DeepView for CategoryEntry {
    type V = CategoryEntryView;

    open spec fn deep_view(&self) -> CategoryEntryView {
        CategoryEntryView {
            name: self.name.deep_view(),
            size: self.size,
            pages: self.pages,
        }
    }
}

/// One decoded page of a category listing by prefix, with any warning the
/// server attached to the listing module.
#[derive(Debug)]
pub struct CategoriesPage {
    pub categories: Vec<CategoryEntry>,
    pub cont: Option<ContinuationToken>,
    pub warnings: Option<String>,
}

/// The spec-level image of a `CategoriesPage`.
pub ghost struct CategoriesPageView {
    pub categories: Seq<CategoryEntryView>,
    pub cont: Option<Seq<ParamView>>,
    pub warnings: Option<Seq<char>>,
}

impl DeepView for CategoriesPage {
    type V = CategoriesPageView;

    open spec fn deep_view(&self) -> CategoriesPageView {
        CategoriesPageView {
            categories: self.categories.deep_view(),
            cont: self.cont.deep_view(),
            warnings: self.warnings.deep_view(),
        }
    }
}

/// The details of one page, as the details query returns them.
#[derive(Debug)]
pub struct PageDetails {
    pub page_id: Option<u64>,
    pub title: Option<String>,
    pub display_title: Option<String>,
    pub full_url: Option<String>,
    pub extract: Option<String>,
}

/// The spec-level image of a `PageDetails`.
pub ghost struct PageDetailsView {
    pub page_id: Option<u64>,
    pub title: Option<Seq<char>>,
    pub display_title: Option<Seq<char>>,
    pub full_url: Option<Seq<char>>,
    pub extract: Option<Seq<char>>,
}

impl DeepView for PageDetails {
    type V = PageDetailsView;

    open spec fn deep_view(&self) -> PageDetailsView {
        PageDetailsView {
            page_id: self.page_id,
            title: self.title.deep_view(),
            display_title: self.display_title.deep_view(),
            full_url: self.full_url.deep_view(),
            extract: self.extract.deep_view(),
        }
    }
}

/// The message of the error envelope a body holds, if it holds one.
pub uninterp spec fn error_info_of(s: Seq<char>) -> Option<Seq<char>>;

/// The category membership entries a body lists, if it parses as a
/// membership listing.
pub uninterp spec fn members_of(s: Seq<char>) -> Option<Seq<RawMemberView>>;

/// The continuation block a body carries, if it carries one.
pub uninterp spec fn continuation_of(s: Seq<char>) -> Option<Seq<ParamView>>;

/// The category entries a body lists, if it parses as a category listing
/// by prefix.
pub uninterp spec fn categories_of(s: Seq<char>) -> Option<Seq<CategoryEntryView>>;

/// The warning message a body attaches to the given module, if any.
pub uninterp spec fn warnings_of(s: Seq<char>, module: Seq<char>) -> Option<Seq<char>>;

/// The page details a body holds, if it parses as a details response.
pub uninterp spec fn pages_details_of(s: Seq<char>) -> Option<Seq<PageDetailsView>>;

/// Relies on `serde_json::from_str`: a body that parses as JSON and holds
/// an `error` object with a string `info` field yields that message.
#[verifier::external_body]
fn parse_error_envelope(s: &str) -> (r: Option<String>)
    ensures
        r.deep_view() == error_info_of(s@),
{
    let v: serde_json::Value = serde_json::from_str(s).ok()?;
    v["error"]["info"].as_str().map(String::from)
}

/// Relies on `serde_json::from_str`: a body that parses as JSON with a
/// `query.categorymembers` array yields its entries in order, each field
/// taken verbatim when present with the expected type.
#[verifier::external_body]
fn parse_members_list(s: &str) -> (r: Option<Vec<RawMember>>)
    ensures
        r.deep_view() == members_of(s@),
{
    let v: serde_json::Value = serde_json::from_str(s).ok()?;
    let arr = v["query"]["categorymembers"].as_array()?;
    Some(arr.iter().map(|m| RawMember {
        title: m["title"].as_str().map(String::from),
        kind: m["type"].as_str().map(String::from),
        page_id: m["pageid"].as_u64(),
        timestamp: m["timestamp"].as_str().map(String::from),
    }).collect())
}

/// Relies on `serde_json::from_str`: a body that parses as JSON with a
/// `continue` object yields its key-value pairs, non-string values as
/// their JSON text, in the object's key order.
#[verifier::external_body]
fn parse_continuation(s: &str) -> (r: Option<ContinuationToken>)
    ensures
        r.deep_view() == continuation_of(s@),
{
    let v: serde_json::Value = serde_json::from_str(s).ok()?;
    let o = v["continue"].as_object()?;
    Some(ContinuationToken {
        pairs: o.iter().map(
            |(k, x)| (k.clone(), x.as_str().map(String::from).unwrap_or_else(|| x.to_string())),
        ).collect(),
    })
}

/// Relies on `serde_json::from_str`: a body that parses as JSON with a
/// `query.allcategories` array yields its entries in order.
#[verifier::external_body]
fn parse_categories_list(s: &str) -> (r: Option<Vec<CategoryEntry>>)
    ensures
        r.deep_view() == categories_of(s@),
{
    let v: serde_json::Value = serde_json::from_str(s).ok()?;
    let arr = v["query"]["allcategories"].as_array()?;
    Some(arr.iter().map(|c| CategoryEntry {
        name: c["*"].as_str().map(String::from),
        size: c["size"].as_u64(),
        pages: c["pages"].as_u64(),
    }).collect())
}

/// Relies on `serde_json::from_str`: a body that parses as JSON with a
/// `warnings.<module>.*` string yields that warning text.
#[verifier::external_body]
fn parse_warnings(s: &str, module: &str) -> (r: Option<String>)
    ensures
        r.deep_view() == warnings_of(s@, module@),
{
    let v: serde_json::Value = serde_json::from_str(s).ok()?;
    v["warnings"][module]["*"].as_str().map(String::from)
}

/// Relies on `serde_json::from_str`: a body that parses as JSON with a
/// `query.pages` object yields the details of each page, in the object's
/// key order.
#[verifier::external_body]
fn parse_pages_details(s: &str) -> (r: Option<Vec<PageDetails>>)
    ensures
        r.deep_view() == pages_details_of(s@),
{
    let v: serde_json::Value = serde_json::from_str(s).ok()?;
    let o = v["query"]["pages"].as_object()?;
    Some(o.values().map(|p| PageDetails {
        page_id: p["pageid"].as_u64(),
        title: p["title"].as_str().map(String::from),
        display_title: p["displaytitle"].as_str().map(String::from),
        full_url: p["fullurl"].as_str().map(String::from),
        extract: p["extract"].as_str().map(String::from),
    }).collect())
}

fn malformed_response() -> (e: Error)
    ensures
        e is Serde,
{
    Error::Serde(SerdeError { message: String::from_str("response matched no known schema") })
}

/// Decode one page of a category membership listing, in two passes: the
/// error envelope is tried first, and only a body without one is read as
/// a membership listing.
pub fn decode_members_response(body: &str) -> (r: Result<MembersPage, Error>)
    ensures
        match r {
            Ok(page) => error_info_of(body@) is None && members_of(body@) == Some(
                page.members.deep_view(),
            ) && page.cont.deep_view() == continuation_of(body@),
            Err(e) => match e {
                Error::Wiki(w) => error_info_of(body@) == Some(w.info@),
                Error::Serde(_) => error_info_of(body@) is None && members_of(body@) is None,
                _ => false,
            },
        },
{
    match parse_error_envelope(body) {
        Some(info) => Err(Error::Wiki(WikiError { info })),
        None => match parse_members_list(body) {
            Some(members) => {
                let cont = parse_continuation(body);
                Ok(MembersPage { members, cont })
            },
            None => Err(malformed_response()),
        },
    }
}

/// Decode one page of a category listing by prefix, in the same two
/// passes, keeping any warning the server attached to the listing module.
pub fn decode_categories_response(body: &str) -> (r: Result<CategoriesPage, Error>)
    ensures
        match r {
            Ok(page) => error_info_of(body@) is None && categories_of(body@) == Some(
                page.categories.deep_view(),
            ) && page.cont.deep_view() == continuation_of(body@) && page.warnings.deep_view()
                == warnings_of(body@, "allcategories"@),
            Err(e) => match e {
                Error::Wiki(w) => error_info_of(body@) == Some(w.info@),
                Error::Serde(_) => error_info_of(body@) is None && categories_of(body@) is None,
                _ => false,
            },
        },
{
    match parse_error_envelope(body) {
        Some(info) => Err(Error::Wiki(WikiError { info })),
        None => match parse_categories_list(body) {
            Some(categories) => {
                let cont = parse_continuation(body);
                let warnings = parse_warnings(body, "allcategories");
                Ok(CategoriesPage { categories, cont, warnings })
            },
            None => Err(malformed_response()),
        },
    }
}

/// Decode a page details response, in the same two passes.
pub fn decode_details_response(body: &str) -> (r: Result<Vec<PageDetails>, Error>)
    ensures
        match r {
            Ok(pages) => error_info_of(body@) is None && pages_details_of(body@) == Some(
                pages.deep_view(),
            ),
            Err(e) => match e {
                Error::Wiki(w) => error_info_of(body@) == Some(w.info@),
                Error::Serde(_) => error_info_of(body@) is None && pages_details_of(body@)
                    is None,
                _ => false,
            },
        },
{
    match parse_error_envelope(body) {
        Some(info) => Err(Error::Wiki(WikiError { info })),
        None => match parse_pages_details(body) {
            Some(pages) => Ok(pages),
            None => Err(malformed_response()),
        },
    }
}

} // verus!
