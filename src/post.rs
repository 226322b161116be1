//! The index of posts.
use vstd::prelude::*;
use vstd::string::*;
use crate::text::same_text;

verus! {

/// A post as the index lists it; the slug identifies it.
#[derive(Clone, Debug)]
pub struct PostMeta {
    pub slug: String,
    pub title: String,
}

/// The heading shown for a preview whose post the index does not list.
pub const DEFAULT_TITLE: &'static str = "Post";

/// `i` is the first position of `posts` whose slug is `slug`.
pub open spec fn is_first_with_slug(posts: Seq<PostMeta>, slug: Seq<char>, i: int) -> bool {
    &&& 0 <= i < posts.len()
    &&& posts[i].slug@ == slug
    &&& forall|j: int| 0 <= j < i ==> posts[j].slug@ != slug
}

/// The title shown for `slug`: that of the first listed post with this slug,
/// else the default heading.
pub open spec fn title_of(posts: Seq<PostMeta>, slug: Seq<char>) -> Seq<char> {
    if exists|i: int| is_first_with_slug(posts, slug, i) {
        posts[choose|i: int| is_first_with_slug(posts, slug, i)].title@
    } else {
        DEFAULT_TITLE@
    }
}

impl PostMeta {
    /// A post entry.
    pub fn new(slug: String, title: String) -> (r: PostMeta)
        ensures
            r.slug@ == slug@,
            r.title@ == title@,
    {
        PostMeta { slug, title }
    }
}

/// The post list from the result of fetching the index: what was fetched,
/// or no posts at all when the fetch or its decoding failed.
pub fn posts_from_index(fetched: Option<Vec<PostMeta>>) -> (r: Vec<PostMeta>)
    ensures
        fetched matches Some(v) ==> r@ == v@,
        fetched is None ==> r@.len() == 0,
{
    match fetched {
        Some(v) => v,
        None => Vec::new(),
    }
}

/// The title to show for the post `slug`.
pub fn title_for(posts: &Vec<PostMeta>, slug: &str) -> (r: String)
    ensures
        r@ == title_of(posts@, slug@),
{
    let mut i: usize = 0;
    while i < posts.len()
        invariant
            i <= posts@.len(),
            forall|j: int| 0 <= j < i ==> posts@[j].slug@ != slug@,
        decreases posts.len() - i,
    {
        if same_text(posts[i].slug.as_str(), slug) {
            proof {
                assert(is_first_with_slug(posts@, slug@, i as int));
                let c = choose|c: int| is_first_with_slug(posts@, slug@, c);
                if c < i {
                } else if c > i {
                    assert(posts@[i as int].slug@ != slug@);
                }
            }
            return posts[i].title.clone();
        }
        i = i + 1;
    }
    String::from_str(DEFAULT_TITLE)
}

} // verus!
