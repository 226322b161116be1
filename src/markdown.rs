//! Markdown to HTML, with the images of a post resolved under its own
//! asset directory.
use vstd::prelude::*;
use pulldown_cmark::{CowStr, Event, Options, Parser, Tag};
use crate::images::{resolve_image_url, resolved_url_of};
use crate::paths::{asset_base, asset_base_of};
use crate::preview::{preview_of, truncate_preview, PREVIEW_CHARS};

verus! {

/// The destinations of the images of the markdown `text`, in document
/// order, as pulldown-cmark parses it with tables enabled.
pub uninterp spec fn image_dests_of(text: Seq<char>) -> Seq<Seq<char>>;

/// The HTML that pulldown-cmark writes for the markdown `text` (tables
/// enabled), the `k`-th image carrying `dests[k]` as its destination.
pub uninterp spec fn html_of(text: Seq<char>, dests: Seq<Seq<char>>) -> Seq<char>;

/// The HTML of `text` with every image destination resolved under `base`.
pub open spec fn rendered_of(text: Seq<char>, base: Seq<char>) -> Seq<char> {
    html_of(text, image_dests_of(text).map_values(|d: Seq<char>| resolved_url_of(base, d)))
}

/// Relies on pulldown_cmark::Parser::new_ext with tables enabled: the
/// destination of each image start event, in document order.
#[verifier::external_body]
fn image_dests(text: &str) -> (r: Vec<String>)
    ensures
        r@.map_values(|d: String| d@) == image_dests_of(text@),
{
    Parser::new_ext(text, Options::ENABLE_TABLES)
        .filter_map(|event| match event {
            Event::Start(Tag::Image { dest_url, .. }) => Some(dest_url.into_string()),
            _ => None,
        })
        .collect()
}

/// Relies on pulldown_cmark::Parser::new_ext with tables enabled and on
/// pulldown_cmark::html::push_html: the HTML of `text`, each image start
/// event given the next of `dests` as its destination.
#[verifier::external_body]
fn html_with_dests(text: &str, dests: &Vec<String>) -> (r: String)
    ensures
        r@ == html_of(text@, dests@.map_values(|d: String| d@)),
{
    let mut next = dests.iter();
    let events = Parser::new_ext(text, Options::ENABLE_TABLES).map(|event| match event {
        Event::Start(Tag::Image { link_type, dest_url, title, id }) => {
            let dest_url = next.next().map_or(dest_url, |d| CowStr::from(d.clone()));
            Event::Start(Tag::Image { link_type, dest_url, title, id })
        },
        other => other,
    });
    let mut html = String::new();
    pulldown_cmark::html::push_html(&mut html, events);
    html
}

/// Each of `dests` resolved under `base`, in order.
fn resolve_all(dests: &Vec<String>, base: &str) -> (r: Vec<String>)
    ensures
        r@.map_values(|d: String| d@) == dests@.map_values(|d: String| d@).map_values(
            |d: Seq<char>| resolved_url_of(base@, d),
        ),
{
    let mut out: Vec<String> = Vec::new();
    let mut i: usize = 0;
    while i < dests.len()
        invariant
            i <= dests@.len(),
            out@.len() == i,
            forall|j: int| 0 <= j < i ==> (#[trigger] out@[j])@ == resolved_url_of(base@, dests@[j]@),
        decreases dests.len() - i,
    {
        let url = resolve_image_url(base, dests[i].as_str());
        out.push(url);
        i = i + 1;
    }
    assert(out@.map_values(|d: String| d@) =~= dests@.map_values(|d: String| d@).map_values(
        |d: Seq<char>| resolved_url_of(base@, d),
    ));
    out
}

/// Renders `markdown` as HTML, with tables enabled and each relative image
/// resolved under `base`; with `truncate` set to `Some(n)`, only the preview
/// of that HTML for `n` characters is returned. Never fails.
pub fn render(markdown: &str, base: &str, truncate: Option<usize>) -> (r: String)
    ensures
        truncate is None ==> r@ == rendered_of(markdown@, base@),
        truncate matches Some(n) ==> r@ == preview_of(rendered_of(markdown@, base@), n as nat),
{
    let dests = image_dests(markdown);
    let resolved = resolve_all(&dests, base);
    let html = html_with_dests(markdown, &resolved);
    match truncate {
        Some(n) => truncate_preview(html.as_str(), n),
        None => html,
    }
}

/// The preview of the post `slug` from its markdown source.
pub fn render_preview(markdown: &str, slug: &str) -> (r: String)
    ensures
        r@ == preview_of(rendered_of(markdown@, asset_base_of(slug@)), PREVIEW_CHARS as nat),
{
    let base = asset_base(slug);
    render(markdown, base.as_str(), Some(PREVIEW_CHARS))
}

/// The whole post `slug` as HTML, from its markdown source, never cut.
pub fn render_post(markdown: &str, slug: &str) -> (r: String)
    ensures
        r@ == rendered_of(markdown@, asset_base_of(slug@)),
{
    let base = asset_base(slug);
    render(markdown, base.as_str(), None)
}

} // verus!
