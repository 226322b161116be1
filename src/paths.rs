//! Where a post's files live, relative to the site root.
use vstd::prelude::*;
use vstd::string::*;
use crate::text::join;

verus! {

/// The directory of a post's own assets: `posts/<slug>/`.
pub open spec fn asset_base_of(slug: Seq<char>) -> Seq<char> {
    "posts/"@ + slug + "/"@
}

/// The markdown source of a post: `posts/<slug>/<slug>.md`.
pub open spec fn source_path_of(slug: Seq<char>) -> Seq<char> {
    asset_base_of(slug) + slug + ".md"@
}

/// The directory under which relative images of the post `slug` resolve.
pub fn asset_base(slug: &str) -> (r: String)
    ensures
        r@ == asset_base_of(slug@),
{
    let head = join("posts/", slug);
    head.concat("/")
}

/// The address of the markdown file of the post `slug`.
pub fn source_path(slug: &str) -> (r: String)
    ensures
        r@ == source_path_of(slug@),
{
    let base = asset_base(slug);
    let with_name = base.concat(slug);
    with_name.concat(".md")
}

} // verus!
