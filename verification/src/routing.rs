//! Routing: which handler answers a request path.

use vstd::prelude::*;
use vstd::string::StrSliceExecFns;
use vstd::string::StringExecFns;
use crate::text::has_dotdot;
use crate::text::is_prefix_of;
use crate::text::contains_dotdot;
use crate::text::str_eq;
use crate::text::str_starts_with;

verus! {

/// The handler a request path is dispatched to. A static route carries the
/// path of the asset relative to the static root.
pub enum Route {
    Index,
    StaticAsset(String),
    NotFound,
}

/// The path of the root route.
pub open spec fn root_path() -> Seq<char> {
    "/"@
}

/// The mount prefix under which static assets are exposed, with its
/// trailing separator.
pub open spec fn static_mount_prefix() -> Seq<char> {
    "/static/"@
}

/// The mount point itself, without a trailing separator; it addresses the
/// static root directory.
pub open spec fn static_mount_bare() -> Seq<char> {
    "/static"@
}

/// `p` addresses the root route.
pub open spec fn is_index_path(p: Seq<char>) -> bool {
    p == root_path()
}

/// `p` addresses the static mount.
pub open spec fn is_static_path(p: Seq<char>) -> bool {
    is_prefix_of(static_mount_prefix(), p) || p == static_mount_bare()
}

/// The remainder of a static path after the mount prefix, meaningful when
/// `is_static_path(p)` holds.
pub open spec fn static_rel_path(p: Seq<char>) -> Seq<char> {
    if p == static_mount_bare() {
        Seq::empty()
    } else {
        p.subrange(static_mount_prefix().len() as int, p.len() as int)
    }
}

/// A static remainder is served only when it stays under the asset
/// directory: no two consecutive dots anywhere (a conservative guard
/// against parent references) and no absolute remainder.
pub open spec fn is_served_static_path(p: Seq<char>) -> bool {
    &&& is_static_path(p)
    &&& !has_dotdot(static_rel_path(p))
    &&& !(static_rel_path(p).len() > 0 && static_rel_path(p)[0] == '/')
}

/// Dispatches a request path: the root path goes to the index page, a path
/// under the static mount to the asset responder, and everything else —
/// including a static path whose remainder is not served — to the
/// not-found responder.
pub fn route_request(path: &str) -> (r: Route)
    ensures
        r is Index <==> is_index_path(path@),
        r is StaticAsset <==> is_served_static_path(path@),
        r is NotFound <==> !is_index_path(path@) && !is_served_static_path(path@),
        r matches Route::StaticAsset(rel) ==> rel@ == static_rel_path(path@),
{
    proof {
        reveal_strlit("/");
        reveal_strlit("/static/");
        reveal_strlit("/static");
    }
    if str_eq(path, "/") {
        Route::Index
    } else if str_starts_with(path, "/static/") {
        let mount = "/static/";
        let mlen: usize = mount.unicode_len();
        let plen: usize = path.unicode_len();
        let rel = path.substring_char(mlen, plen);
        if contains_dotdot(rel) || (rel.unicode_len() > 0 && rel.get_char(0) == '/') {
            Route::NotFound
        } else {
            Route::StaticAsset(String::from_str(rel))
        }
    } else if str_eq(path, "/static") {
        proof {
            assert(!has_dotdot(Seq::<char>::empty()));
        }
        Route::StaticAsset(String::new())
    } else {
        Route::NotFound
    }
}

} // verus!

