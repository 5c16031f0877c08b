//! The content type served with a static asset, chosen by the suffix of
//! its path.

use vstd::prelude::*;
use vstd::string::StringExecFns;
use crate::text::is_suffix_of;
use crate::text::str_ends_with;

verus! {

/// The content type for an asset path: a fixed table over the path's
/// suffix, falling back to the generic byte-stream type.
pub open spec fn mime_for(p: Seq<char>) -> Seq<char> {
    if is_suffix_of(".html"@, p) || is_suffix_of(".htm"@, p) {
        "text/html"@
    } else if is_suffix_of(".css"@, p) {
        "text/css"@
    } else if is_suffix_of(".js"@, p) {
        "text/javascript"@
    } else if is_suffix_of(".txt"@, p) {
        "text/plain"@
    } else if is_suffix_of(".png"@, p) {
        "image/png"@
    } else if is_suffix_of(".jpg"@, p) || is_suffix_of(".jpeg"@, p) {
        "image/jpeg"@
    } else if is_suffix_of(".gif"@, p) {
        "image/gif"@
    } else if is_suffix_of(".svg"@, p) {
        "image/svg+xml"@
    } else if is_suffix_of(".pdf"@, p) {
        "application/pdf"@
    } else {
        "application/octet-stream"@
    }
}

/// Chooses the content type for the asset at `path`.
pub fn content_type_for(path: &str) -> (r: String)
    ensures
        r@ == mime_for(path@),
{
    if str_ends_with(path, ".html") || str_ends_with(path, ".htm") {
        String::from_str("text/html")
    } else if str_ends_with(path, ".css") {
        String::from_str("text/css")
    } else if str_ends_with(path, ".js") {
        String::from_str("text/javascript")
    } else if str_ends_with(path, ".txt") {
        String::from_str("text/plain")
    } else if str_ends_with(path, ".png") {
        String::from_str("image/png")
    } else if str_ends_with(path, ".jpg") || str_ends_with(path, ".jpeg") {
        String::from_str("image/jpeg")
    } else if str_ends_with(path, ".gif") {
        String::from_str("image/gif")
    } else if str_ends_with(path, ".svg") {
        String::from_str("image/svg+xml")
    } else if str_ends_with(path, ".pdf") {
        String::from_str("application/pdf")
    } else {
        String::from_str("application/octet-stream")
    }
}

} // verus!
