//! Resolution of image addresses found in a post.
use vstd::prelude::*;
use vstd::string::*;
use crate::text::{has_prefix, join, starts_with};

verus! {

/// An address that is absolute (`http`, `https`) or rooted at the site (`/`):
/// such an address is kept as written.
pub open spec fn is_kept_url(url: Seq<char>) -> bool {
    has_prefix(url, "http"@) || has_prefix(url, "/"@)
}

/// The address an image of a post refers to, given the post's asset directory.
pub open spec fn resolved_url_of(base: Seq<char>, url: Seq<char>) -> Seq<char> {
    if is_kept_url(url) {
        url
    } else {
        base + url
    }
}

/// Keeps an absolute or root-relative image address, and puts any other
/// under the post's asset directory `base`.
pub fn resolve_image_url(base: &str, url: &str) -> (r: String)
    ensures
        r@ == resolved_url_of(base@, url@),
        is_kept_url(url@) ==> r@ == url@,
        !is_kept_url(url@) ==> r@ == base@ + url@,
{
    if starts_with(url, "http") || starts_with(url, "/") {
        String::from_str(url)
    } else {
        join(base, url)
    }
}

} // verus!
