//! The responses the site returns, and the laws that hold of them.

use vstd::prelude::*;
use vstd::string::StrSliceExecFns;
use vstd::string::StringExecFns;
use vstd::utf8::encode_utf8;
use crate::mime::content_type_for;
use crate::mime::mime_for;
use crate::pages::error_html;
use crate::pages::error_inner;
use crate::pages::index_html;
use crate::pages::is_well_formed_html;
use crate::pages::lemma_html_document_well_formed;
use crate::pages::lemma_index_well_formed;
use crate::pages::listing_html;
use crate::pages::listing_inner;
use crate::pages::not_found_html;
use crate::pages::not_found_inner;
use crate::pages::render_error;
use crate::pages::render_index;
use crate::pages::render_listing;
use crate::pages::render_not_found;
use crate::routing::Route;
use crate::routing::is_index_path;
use crate::routing::is_served_static_path;
use crate::routing::route_request;
use crate::routing::static_rel_path;

verus! {

/// One HTTP response: its status code, its content type header value, and
/// its body bytes.
pub struct Response {
    pub status: u16,
    pub content_type: String,
    pub body: Vec<u8>,
}

/// What a lookup under the static root found for the requested remainder:
/// the bytes of a file, the entry names of a directory without an index
/// file, nothing, or a failed read.
pub enum AssetOutcome {
    Found(Vec<u8>),
    Listing(Vec<String>),
    Missing,
    ReadFailure,
}

/// The content type of every page the site renders itself.
pub open spec fn html_content_type() -> Seq<char> {
    "text/html; charset=utf-8"@
}

/// The response of the root route: success, the HTML content type, and the
/// bytes of the one fixed index page.
pub open spec fn is_index_response(r: Response) -> bool {
    &&& r.status == 200
    &&& r.content_type@ == html_content_type()
    &&& r.body@ == encode_utf8(index_html())
}

/// The response to a request for a missing resource: the not-found status
/// and the fixed not-found page, with no request-derived content.
pub open spec fn is_not_found_response(r: Response) -> bool {
    &&& r.status == 404
    &&& r.content_type@ == html_content_type()
    &&& r.body@ == encode_utf8(not_found_html())
}

/// The response to a request that failed inside the server: the
/// internal-error status and the fixed error page, with no internal detail
/// disclosed.
pub open spec fn is_error_response(r: Response) -> bool {
    &&& r.status == 500
    &&& r.content_type@ == html_content_type()
    &&& r.body@ == encode_utf8(error_html())
}

/// The response owed for a static path with remainder `path` whose lookup
/// gave `outcome`: a found file verbatim with its content type, a
/// directory as the listing page, a missing asset as the not-found page,
/// and a failed read as the internal-error page.
pub open spec fn is_static_response(path: Seq<char>, outcome: AssetOutcome, r: Response) -> bool {
    match outcome {
        AssetOutcome::Found(content) => {
            &&& r.status == 200
            &&& r.content_type@ == mime_for(path)
            &&& r.body@ == content@
        },
        AssetOutcome::Listing(names) => {
            &&& r.status == 200
            &&& r.content_type@ == html_content_type()
            &&& r.body@ == encode_utf8(listing_html(names.deep_view()))
        },
        AssetOutcome::Missing => is_not_found_response(r),
        AssetOutcome::ReadFailure => is_error_response(r),
    }
}

/// Answers the root route. Always succeeds: the page is fixed at build
/// time, so rendering has no failure mode.
pub fn respond_index() -> (r: Response)
    ensures
        is_index_response(r),
{
    let page = render_index();
    Response {
        status: 200,
        content_type: String::from_str("text/html; charset=utf-8"),
        body: page.as_str().as_bytes_vec(),
    }
}

/// Answers a request whose path matches no route.
pub fn respond_not_found() -> (r: Response)
    ensures
        is_not_found_response(r),
{
    let page = render_not_found();
    Response {
        status: 404,
        content_type: String::from_str("text/html; charset=utf-8"),
        body: page.as_str().as_bytes_vec(),
    }
}

/// Answers a request that failed inside the server.
pub fn respond_error() -> (r: Response)
    ensures
        is_error_response(r),
{
    let page = render_error();
    Response {
        status: 500,
        content_type: String::from_str("text/html; charset=utf-8"),
        body: page.as_str().as_bytes_vec(),
    }
}

/// Answers a static route: `path` is the remainder after the mount prefix
/// and `outcome` what the lookup under the static root found for it.
pub fn respond_static(path: &str, outcome: AssetOutcome) -> (r: Response)
    ensures
        is_static_response(path@, outcome, r),
{
    match outcome {
        AssetOutcome::Found(content) => Response {
            status: 200,
            content_type: content_type_for(path),
            body: content,
        },
        AssetOutcome::Listing(names) => {
            let page = render_listing(&names);
            Response {
                status: 200,
                content_type: String::from_str("text/html; charset=utf-8"),
                body: page.as_str().as_bytes_vec(),
            }
        },
        AssetOutcome::Missing => respond_not_found(),
        AssetOutcome::ReadFailure => respond_error(),
    }
}

/// The status code owed for a request: dispatch by the path, then, on a
/// served static path, by what the lookup found.
pub open spec fn expected_status(p: Seq<char>, outcome: AssetOutcome) -> u16 {
    if is_index_path(p) {
        200
    } else if is_served_static_path(p) {
        match outcome {
            AssetOutcome::Found(_) => 200,
            AssetOutcome::Listing(_) => 200,
            AssetOutcome::Missing => 404,
            AssetOutcome::ReadFailure => 500,
        }
    } else {
        404
    }
}

/// Answers one request: routes the path, then builds the response the
/// route owes. `outcome` is what the lookup under the static root found
/// for the path's remainder; it is read only on a served static path.
pub fn handle_request(path: &str, outcome: AssetOutcome) -> (r: Response)
    ensures
        is_index_path(path@) ==> is_index_response(r),
        !is_index_path(path@) && is_served_static_path(path@) ==> is_static_response(
            static_rel_path(path@),
            outcome,
            r,
        ),
        !is_index_path(path@) && !is_served_static_path(path@) ==> is_not_found_response(r),
        r.status == expected_status(path@, outcome),
{
    match route_request(path) {
        Route::Index => respond_index(),
        Route::StaticAsset(rel) => respond_static(rel.as_str(), outcome),
        Route::NotFound => respond_not_found(),
    }
}

/// Law: a path matching neither the root route nor the static mount is
/// owed the not-found status, whatever a lookup would have found.
pub proof fn lemma_unknown_route_not_found(p: Seq<char>, outcome: AssetOutcome)
    requires
        !is_index_path(p),
        !is_served_static_path(p),
    ensures
        expected_status(p, outcome) == 404,
{
}

/// Law: the root route always answers with the success status, the exact
/// HTML content type, and a well-formed document, whatever the request
/// carried — the handler reads nothing of it.
pub proof fn lemma_index_response_well_formed(r: Response)
    requires
        is_index_response(r),
    ensures
        r.status == 200,
        r.content_type@ == html_content_type(),
        is_well_formed_html(index_html()),
        r.body@ == encode_utf8(index_html()),
{
    lemma_index_well_formed();
}

/// Law: any two responses of the root route are byte-identical, in status,
/// content type, and body — repetition, order, and concurrency cannot show.
pub proof fn lemma_index_idempotent(r1: Response, r2: Response)
    requires
        is_index_response(r1),
        is_index_response(r2),
    ensures
        r1.status == r2.status,
        r1.content_type@ == r2.content_type@,
        r1.body@ == r2.body@,
{
}

/// Law: the not-found and error pages are well formed too.
pub proof fn lemma_fallback_pages_well_formed()
    ensures
        is_well_formed_html(not_found_html()),
        is_well_formed_html(error_html()),
{
    lemma_html_document_well_formed(not_found_inner());
    lemma_html_document_well_formed(error_inner());
}

/// Law: the listing page is well formed for every set of entry names.
pub proof fn lemma_listing_well_formed(names: Seq<Seq<char>>)
    ensures
        is_well_formed_html(listing_html(names)),
{
    lemma_html_document_well_formed(listing_inner(names));
}

} // verus!
