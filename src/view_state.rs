//! The preview pane of the home view: which post is active, and what the
//! pane shows. Every transition is a function from the old state to the new.
use vstd::prelude::*;
use vstd::string::*;
use crate::markdown::{render_preview, rendered_of};
use crate::paths::{asset_base_of, source_path, source_path_of};
use crate::preview::{preview_of, PREVIEW_CHARS};
use crate::text::same_text;

verus! {

/// The message shown in place of a preview that could not be fetched.
pub const PREVIEW_ERROR: &'static str = "Erro ao carregar preview.";

/// The state of the preview pane.
#[derive(Clone, Debug)]
pub enum ViewState {
    /// No post is active.
    Idle,
    /// The preview of `slug` is being fetched.
    Loading { slug: String },
    /// The preview of `slug` arrived and was rendered to `html`.
    Resolved { slug: String, html: String },
    /// The preview of `slug` could not be fetched.
    Failed { slug: String, message: String },
}

/// What the pane asks of its surroundings after a selection.
#[derive(Clone, Debug)]
pub enum Command {
    /// Fetch the markdown at `url`, the source of the post `slug`.
    FetchPreview { slug: String, url: String },
    /// Navigate to the full view of the post `slug`.
    OpenPost { slug: String },
}

/// The state of the preview pane, over character sequences.
pub enum ViewModel {
    Idle,
    Loading(Seq<char>),
    Resolved(Seq<char>, Seq<char>),
    Failed(Seq<char>, Seq<char>),
}

impl View for ViewState {
    type V = ViewModel;

    open spec fn view(&self) -> ViewModel {
        match self {
            ViewState::Idle => ViewModel::Idle,
            ViewState::Loading { slug } => ViewModel::Loading(slug@),
            ViewState::Resolved { slug, html } => ViewModel::Resolved(slug@, html@),
            ViewState::Failed { slug, message } => ViewModel::Failed(slug@, message@),
        }
    }
}

/// The post whose preview the pane is showing or fetching, if any.
pub open spec fn active_of(m: ViewModel) -> Option<Seq<char>> {
    match m {
        ViewModel::Loading(s) => Some(s),
        ViewModel::Resolved(s, _) => Some(s),
        ViewModel::Failed(s, _) => Some(s),
        ViewModel::Idle => None,
    }
}

/// Selecting `slug` opens the post when it is the active one.
pub open spec fn select_opens(m: ViewModel, slug: Seq<char>) -> bool {
    active_of(m) == Some(slug)
}

/// Selecting `slug`: the active post is opened and the pane stays as it
/// was; any other post starts loading.
pub open spec fn select_model(m: ViewModel, slug: Seq<char>) -> ViewModel {
    if select_opens(m, slug) {
        m
    } else {
        ViewModel::Loading(slug)
    }
}

/// The preview `html` of `slug` arrived: kept only while `slug` is loading.
pub open spec fn ready_model(m: ViewModel, slug: Seq<char>, html: Seq<char>) -> ViewModel {
    if m == ViewModel::Loading(slug) {
        ViewModel::Resolved(slug, html)
    } else {
        m
    }
}

/// The fetch of `slug` failed: recorded only while `slug` is loading.
pub open spec fn failed_model(m: ViewModel, slug: Seq<char>) -> ViewModel {
    if m == ViewModel::Loading(slug) {
        ViewModel::Failed(slug, PREVIEW_ERROR@)
    } else {
        m
    }
}

impl ViewState {
    /// The pane before any selection.
    pub fn new() -> (r: ViewState)
        ensures
            r@ == ViewModel::Idle,
    {
        ViewState::Idle
    }

    /// Whether `slug` is the active post.
    pub fn is_active(&self, slug: &str) -> (r: bool)
        ensures
            r == (active_of(self@) == Some(slug@)),
    {
        match self {
            ViewState::Loading { slug: s } => same_text(s.as_str(), slug),
            ViewState::Resolved { slug: s, .. } => same_text(s.as_str(), slug),
            ViewState::Failed { slug: s, .. } => same_text(s.as_str(), slug),
            _ => false,
        }
    }

    /// Selects `slug`. Selecting the active post again opens it and leaves
    /// the pane as it is; selecting any other post discards the current one
    /// and fetches its preview.
    pub fn select(self, slug: String) -> (r: (ViewState, Command))
        ensures
            r.0@ == select_model(self@, slug@),
            select_opens(self@, slug@) ==> (r.1 matches Command::OpenPost { slug: s }
                && s@ == slug@),
            !select_opens(self@, slug@) ==> (r.1 matches Command::FetchPreview { slug: s, url }
                && s@ == slug@ && url@ == source_path_of(slug@)),
    {
        if self.is_active(slug.as_str()) {
            (self, Command::OpenPost { slug })
        } else {
            let url = source_path(slug.as_str());
            (ViewState::Loading { slug: slug.clone() }, Command::FetchPreview { slug, url })
        }
    }

    /// The rendered preview `html` of `slug` arrived. It is kept only while
    /// `slug` is the post being loaded; a late answer for another is dropped.
    pub fn preview_ready(self, slug: &str, html: String) -> (r: ViewState)
        ensures
            r@ == ready_model(self@, slug@, html@),
    {
        match self {
            ViewState::Loading { slug: s } => {
                if same_text(s.as_str(), slug) {
                    ViewState::Resolved { slug: s, html }
                } else {
                    ViewState::Loading { slug: s }
                }
            },
            other => other,
        }
    }

    /// The markdown source of `slug` arrived: its preview is rendered and
    /// kept, under the same rule as `preview_ready`.
    pub fn preview_loaded(self, slug: &str, markdown: &str) -> (r: ViewState)
        ensures
            r@ == ready_model(
                self@,
                slug@,
                preview_of(rendered_of(markdown@, asset_base_of(slug@)), PREVIEW_CHARS as nat),
            ),
    {
        let html = render_preview(markdown, slug);
        self.preview_ready(slug, html)
    }

    /// The fetch of `slug` failed. Recorded only while `slug` is the post
    /// being loaded.
    pub fn preview_failed(self, slug: &str) -> (r: ViewState)
        ensures
            r@ == failed_model(self@, slug@),
    {
        match self {
            ViewState::Loading { slug: s } => {
                if same_text(s.as_str(), slug) {
                    ViewState::Failed { slug: s, message: String::from_str(PREVIEW_ERROR) }
                } else {
                    ViewState::Loading { slug: s }
                }
            },
            other => other,
        }
    }

    /// The active post, if any.
    pub fn active_slug(&self) -> (r: Option<String>)
        ensures
            r matches Some(s) ==> active_of(self@) == Some(s@),
            r is None ==> active_of(self@) is None,
    {
        match self {
            ViewState::Loading { slug } => Some(slug.clone()),
            ViewState::Resolved { slug, .. } => Some(slug.clone()),
            ViewState::Failed { slug, .. } => Some(slug.clone()),
            _ => None,
        }
    }

    /// What the pane shows: the preview, the error message, or nothing.
    /// Nothing while loading and while no post is active.
    pub fn preview_html(&self) -> (r: String)
        ensures
            self@ matches ViewModel::Resolved(_, h) ==> r@ == h,
            self@ matches ViewModel::Failed(_, msg) ==> r@ == msg,
            active_of(self@) is None ==> r@.len() == 0,
            self@ is Loading ==> r@.len() == 0,
    {
        match self {
            ViewState::Resolved { html, .. } => html.clone(),
            ViewState::Failed { message, .. } => message.clone(),
            _ => String::new(),
        }
    }

    /// Whether a preview is being fetched.
    pub fn is_loading(&self) -> (r: bool)
        ensures
            r == (self@ is Loading),
    {
        matches!(self, ViewState::Loading { .. })
    }
}

/// Selecting a post and then selecting it again opens it, whether its
/// preview is still loading, has arrived or has failed; the second selection
/// fetches nothing and leaves the pane as it was.
pub proof fn lemma_reselect_opens(m: ViewModel, a: Seq<char>, html: Seq<char>)
    ensures
        ({
            let s = select_model(m, a);
            &&& active_of(s) == Some(a)
            &&& select_opens(s, a) && select_model(s, a) == s
            &&& select_opens(ready_model(s, a, html), a)
            &&& select_model(ready_model(s, a, html), a) == ready_model(s, a, html)
            &&& select_opens(failed_model(s, a), a)
            &&& select_model(failed_model(s, a), a) == failed_model(s, a)
        }),
{
}

/// Selecting `a` and then `b` leaves a state about `b` alone: the answer for
/// `a`, success or failure, arriving before or after the answer for `b`,
/// changes nothing.
pub proof fn lemma_stale_answer_dropped(
    m: ViewModel,
    a: Seq<char>,
    b: Seq<char>,
    ha: Seq<char>,
    hb: Seq<char>,
)
    requires
        a != b,
    ensures
        ({
            let s = select_model(select_model(m, a), b);
            &&& !select_opens(select_model(m, a), b)
            &&& s == ViewModel::Loading(b)
            &&& ready_model(s, a, ha) == s
            &&& failed_model(s, a) == s
            &&& ready_model(ready_model(s, a, ha), b, hb) == ViewModel::Resolved(b, hb)
            &&& ready_model(ready_model(s, b, hb), a, ha) == ViewModel::Resolved(b, hb)
            &&& failed_model(ready_model(s, b, hb), a) == ViewModel::Resolved(b, hb)
            &&& ready_model(failed_model(s, a), b, hb) == ViewModel::Resolved(b, hb)
        }),
{
}

} // verus!
