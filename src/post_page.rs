//! The full view of one post.
use vstd::prelude::*;
use vstd::string::*;
use crate::markdown::{render_post, rendered_of};
use crate::paths::{asset_base_of, source_path, source_path_of};
use crate::text::same_text;

verus! {

/// What the full view of a post shows.
#[derive(Clone, Debug)]
pub enum PostContent {
    /// The source is being fetched.
    Loading,
    /// The post, rendered.
    Ready { html: String },
    /// The source could not be fetched.
    Failed,
}

/// The full view of the post `slug`.
#[derive(Clone, Debug)]
pub struct PostPage {
    pub slug: String,
    pub content: PostContent,
}

impl PostPage {
    /// Enters the view of `slug`; returns it with the address to fetch.
    pub fn open(slug: String) -> (r: (PostPage, String))
        ensures
            r.0.slug@ == slug@,
            r.0.content is Loading,
            r.1@ == source_path_of(slug@),
    {
        let url = source_path(slug.as_str());
        (PostPage { slug, content: PostContent::Loading }, url)
    }

    /// The markdown source of `slug` arrived. It is rendered in full, never
    /// cut, when
    /// `slug` is still the post of this view, and dropped otherwise.
    pub fn loaded(self, slug: &str, markdown: &str) -> (r: PostPage)
        ensures
            r.slug@ == self.slug@,
            self.slug@ == slug@ ==> (r.content matches PostContent::Ready { html }
                && html@ == rendered_of(markdown@, asset_base_of(slug@))),
            self.slug@ != slug@ ==> r.content == self.content,
    {
        if same_text(self.slug.as_str(), slug) {
            let html = render_post(markdown, slug);
            PostPage { slug: self.slug, content: PostContent::Ready { html } }
        } else {
            self
        }
    }

    /// The fetch of `slug` failed. Recorded when `slug` is still the post
    /// of this view, and dropped otherwise.
    pub fn failed(self, slug: &str) -> (r: PostPage)
        ensures
            r.slug@ == self.slug@,
            self.slug@ == slug@ ==> r.content is Failed,
            self.slug@ != slug@ ==> r.content == self.content,
    {
        if same_text(self.slug.as_str(), slug) {
            PostPage { slug: self.slug, content: PostContent::Failed }
        } else {
            self
        }
    }

    /// The rendered post, or nothing while it loads or after a failure.
    pub fn html(&self) -> (r: String)
        ensures
            self.content matches PostContent::Ready { html } ==> r@ == html@,
            !(self.content is Ready) ==> r@.len() == 0,
    {
        match &self.content {
            PostContent::Ready { html } => html.clone(),
            _ => String::new(),
        }
    }
}

} // verus!
