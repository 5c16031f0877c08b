//! The HTML documents the site produces: the fixed index page, the
//! not-found and internal-error pages, and the directory listing.

use vstd::prelude::*;
use vstd::string::StringExecFns;
use crate::text::is_prefix_of;
use crate::text::is_suffix_of;
use crate::text::occurs_in;
use crate::text::lemma_occurs_in_concat_left;
use crate::text::lemma_occurs_in_concat_right;

verus! {

/// A complete document: the doctype declaration, the given inner markup,
/// and the closing root tag.
pub open spec fn html_document(inner: Seq<char>) -> Seq<char> {
    "<!DOCTYPE html>"@ + inner + "</html>"@
}

/// A document that opens with the doctype declaration and closes the root
/// element.
pub open spec fn is_well_formed_html(s: Seq<char>) -> bool {
    is_prefix_of("<!DOCTYPE html>"@, s) && is_suffix_of("</html>"@, s)
}

/// Every complete document is well formed, whatever stands inside it.
pub proof fn lemma_html_document_well_formed(inner: Seq<char>)
    ensures
        is_well_formed_html(html_document(inner)),
{
    let d = "<!DOCTYPE html>"@;
    let c = "</html>"@;
    let s = html_document(inner);
    assert(s.subrange(0, d.len() as int) =~= d);
    assert(s.subrange(s.len() - c.len(), s.len() as int) =~= c);
}

/// Wraps the given inner markup into a complete document.
fn render_document(inner: &str) -> (r: String)
    ensures
        r@ == html_document(inner@),
{
    let mut r = String::from_str("<!DOCTYPE html>");
    r.append(inner);
    r.append("</html>");
    proof {
        assert(r@ =~= html_document(inner@));
    }
    r
}

/// The markup of the index page between doctype and closing root tag.
pub open spec fn index_inner() -> Seq<char> {
    "<html lang=\"en\"><head><meta charset=\"utf-8\"><title>Dadgan Law Firm</title></head><body><h1>Dadgan Law Firm</h1><p>Experienced counsel for individuals and businesses.</p><p>Call our office to schedule a consultation.</p></body>"@
}

/// The one page served at the root route. It takes no inputs: every
/// rendering yields the same document.
pub open spec fn index_html() -> Seq<char> {
    html_document(index_inner())
}

/// The index page opens with the doctype and closes the root element.
pub proof fn lemma_index_well_formed()
    ensures
        is_well_formed_html(index_html()),
{
    lemma_html_document_well_formed(index_inner());
}

/// Renders the index page. Rendering cannot fail: the document is fixed at
/// build time and assembled here by plain concatenation.
pub fn render_index() -> (r: String)
    ensures
        r@ == index_html(),
{
    render_document(
        "<html lang=\"en\"><head><meta charset=\"utf-8\"><title>Dadgan Law Firm</title></head><body><h1>Dadgan Law Firm</h1><p>Experienced counsel for individuals and businesses.</p><p>Call our office to schedule a consultation.</p></body>",
    )
}

/// The markup of the page answering a request for a missing resource.
pub open spec fn not_found_inner() -> Seq<char> {
    "<html><head><title>404 Not Found</title></head><body><h1>404 Not Found</h1></body>"@
}

/// The page answering a request for a missing resource. It carries no
/// request-derived content.
pub open spec fn not_found_html() -> Seq<char> {
    html_document(not_found_inner())
}

/// Renders the not-found page.
pub fn render_not_found() -> (r: String)
    ensures
        r@ == not_found_html(),
{
    render_document("<html><head><title>404 Not Found</title></head><body><h1>404 Not Found</h1></body>")
}

/// The markup of the page answering a request that failed inside the
/// server. It discloses no internal detail.
pub open spec fn error_inner() -> Seq<char> {
    "<html><head><title>500 Internal Server Error</title></head><body><h1>500 Internal Server Error</h1></body>"@
}

/// The page answering a request that failed inside the server.
pub open spec fn error_html() -> Seq<char> {
    html_document(error_inner())
}

/// Renders the internal-error page.
pub fn render_error() -> (r: String)
    ensures
        r@ == error_html(),
{
    render_document(
        "<html><head><title>500 Internal Server Error</title></head><body><h1>500 Internal Server Error</h1></body>",
    )
}

/// One entry of the directory listing: the name wrapped in a list item.
pub open spec fn listing_item(name: Seq<char>) -> Seq<char> {
    "<li>"@ + name + "</li>"@
}

/// The list items of the directory listing, one per entry name, in the
/// order the names were given.
pub open spec fn listing_items(names: Seq<Seq<char>>) -> Seq<char>
    decreases names.len(),
{
    if names.len() == 0 {
        Seq::empty()
    } else {
        listing_items(names.drop_last()) + listing_item(names.last())
    }
}

/// The markup of the directory listing between doctype and closing root
/// tag.
pub open spec fn listing_inner(names: Seq<Seq<char>>) -> Seq<char> {
    "<html><head><title>Index of /static/</title></head><body><h1>Index of /static/</h1><ul>"@
        + listing_items(names) + "</ul></body>"@
}

/// The directory listing page for the given entry names.
pub open spec fn listing_html(names: Seq<Seq<char>>) -> Seq<char> {
    html_document(listing_inner(names))
}

/// Every entry name occurs in the list items built from the names.
proof fn lemma_listing_items_mention(names: Seq<Seq<char>>, i: int)
    requires
        0 <= i < names.len(),
    ensures
        occurs_in(names[i], listing_items(names)),
    decreases names.len(),
{
    let rest = listing_items(names.drop_last());
    let item = listing_item(names.last());
    if i == names.len() - 1 {
        reveal_strlit("<li>");
        assert(item.subrange(4, 4 + names[i].len() as int) =~= names[i]);
        lemma_occurs_in_concat_right(names[i], rest, item);
    } else {
        assert(names.drop_last()[i] == names[i]);
        lemma_listing_items_mention(names.drop_last(), i);
        lemma_occurs_in_concat_left(names[i], rest, item);
    }
}

/// Law: the directory listing page mentions every entry name it was given.
pub proof fn lemma_listing_mentions_each(names: Seq<Seq<char>>, i: int)
    requires
        0 <= i < names.len(),
    ensures
        occurs_in(names[i], listing_html(names)),
{
    let pre =
        "<html><head><title>Index of /static/</title></head><body><h1>Index of /static/</h1><ul>"@;
    let post = "</ul></body>"@;
    lemma_listing_items_mention(names, i);
    lemma_occurs_in_concat_right(names[i], pre, listing_items(names));
    lemma_occurs_in_concat_left(names[i], pre + listing_items(names), post);
    assert(pre + listing_items(names) + post == listing_inner(names));
    lemma_occurs_in_concat_right(names[i], "<!DOCTYPE html>"@, listing_inner(names));
    lemma_occurs_in_concat_left(
        names[i],
        "<!DOCTYPE html>"@ + listing_inner(names),
        "</html>"@,
    );
    assert("<!DOCTYPE html>"@ + listing_inner(names) + "</html>"@ == listing_html(names));
}

/// Appending one name extends the list items by exactly one item.
proof fn lemma_listing_items_snoc(names: Seq<Seq<char>>, i: int)
    requires
        0 <= i < names.len(),
    ensures
        listing_items(names.take(i + 1)) == listing_items(names.take(i)) + listing_item(names[i]),
{
    assert(names.take(i + 1).drop_last() =~= names.take(i));
    assert(names.take(i + 1).last() == names[i]);
}

/// Renders the directory listing page for the given entry names. Names are
/// inserted verbatim, in the order given.
pub fn render_listing(names: &Vec<String>) -> (r: String)
    ensures
        r@ == listing_html(names.deep_view()),
{
    let ghost pre =
        "<html><head><title>Index of /static/</title></head><body><h1>Index of /static/</h1><ul>"@;
    let mut inner = String::from_str(
        "<html><head><title>Index of /static/</title></head><body><h1>Index of /static/</h1><ul>",
    );
    let mut i: usize = 0;
    while i < names.len()
        invariant
            i <= names.len(),
            inner@ == pre + listing_items(names.deep_view().take(i as int)),
        decreases names.len() - i,
    {
        inner.append("<li>");
        inner.append(names[i].as_str());
        inner.append("</li>");
        proof {
            lemma_listing_items_snoc(names.deep_view(), i as int);
            assert(names.deep_view()[i as int] == names@[i as int]@);
            assert(inner@ =~= pre + listing_items(names.deep_view().take(i as int + 1)));
        }
        i += 1;
    }
    proof {
        assert(names.deep_view().take(names.len() as int) =~= names.deep_view());
    }
    inner.append("</ul></body>");
    let r = render_document(inner.as_str());
    proof {
        assert(inner@ =~= listing_inner(names.deep_view()));
    }
    r
}

} // verus!
