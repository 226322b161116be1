use blog_viewer::post::{posts_from_index, title_for, PostMeta};
use blog_viewer::post_page::{PostContent, PostPage};
use blog_viewer::view_state::{Command, ViewState, PREVIEW_ERROR};

fn meta(slug: &str, title: &str) -> PostMeta {
    PostMeta::new(slug.to_string(), title.to_string())
}

#[test]
fn first_select_fetches_preview() {
    let (s, cmd) = ViewState::new().select("a".to_string());
    assert!(matches!(s, ViewState::Loading { ref slug } if slug == "a"));
    assert!(s.is_loading());
    assert_eq!(s.preview_html(), "");
    match cmd {
        Command::FetchPreview { slug, url } => {
            assert_eq!(slug, "a");
            assert_eq!(url, "posts/a/a.md");
        }
        other => panic!("unexpected {:?}", other),
    }
}

#[test]
fn second_select_while_loading_opens() {
    let (s, _) = ViewState::new().select("a".to_string());
    let (s, cmd) = s.select("a".to_string());
    assert!(matches!(cmd, Command::OpenPost { ref slug } if slug == "a"));
    assert!(matches!(s, ViewState::Loading { ref slug } if slug == "a"));
    assert!(s.is_loading());
    assert_eq!(s.active_slug(), Some("a".to_string()));
}

#[test]
fn second_select_when_resolved_opens() {
    let (s, _) = ViewState::new().select("a".to_string());
    let s = s.preview_ready("a", "<p>hi</p>".to_string());
    assert_eq!(s.preview_html(), "<p>hi</p>");
    assert!(!s.is_loading());
    let (s, cmd) = s.select("a".to_string());
    assert!(matches!(cmd, Command::OpenPost { ref slug } if slug == "a"));
    assert_eq!(s.active_slug(), Some("a".to_string()));
    assert_eq!(s.preview_html(), "<p>hi</p>");
    assert!(!s.is_loading());
}

#[test]
fn loaded_preview_is_rendered_with_post_images() {
    let (s, _) = ViewState::new().select("s".to_string());
    let s = s.preview_loaded("s", "![c](c.png) text\n\nmore");
    assert_eq!(s.preview_html(), "<p><img src=\"posts/s/c.png\" alt=\"c\" /> text</p>");
    assert!(!s.is_loading());
    assert_eq!(s.active_slug(), Some("s".to_string()));
}

#[test]
fn stale_answer_is_dropped() {
    let (s, _) = ViewState::new().select("a".to_string());
    let (s, cmd) = s.select("b".to_string());
    assert!(matches!(cmd, Command::FetchPreview { ref slug, .. } if slug == "b"));
    let s = s.preview_ready("b", "<p>b</p>".to_string());
    let s = s.preview_ready("a", "<p>a</p>".to_string());
    let s = s.preview_failed("a");
    assert_eq!(s.active_slug(), Some("b".to_string()));
    assert_eq!(s.preview_html(), "<p>b</p>");
}

#[test]
fn stale_answer_before_current_is_dropped() {
    let (s, _) = ViewState::new().select("a".to_string());
    let (s, _) = s.select("b".to_string());
    let s = s.preview_loaded("a", "text of a");
    assert!(s.is_loading());
    assert_eq!(s.active_slug(), Some("b".to_string()));
    let s = s.preview_loaded("b", "text of b\n\nmore");
    assert_eq!(s.preview_html(), "<p>text of b</p>");
}

#[test]
fn failed_fetch_shows_message() {
    let (s, _) = ViewState::new().select("a".to_string());
    let s = s.preview_failed("a");
    assert_eq!(s.preview_html(), PREVIEW_ERROR);
    assert_eq!(s.preview_html(), "Erro ao carregar preview.");
    let (s, _) = s.select("b".to_string());
    assert!(s.is_loading());
    assert_eq!(s.preview_html(), "");
}

#[test]
fn idle_shows_nothing() {
    let s = ViewState::new();
    assert_eq!(s.active_slug(), None);
    assert_eq!(s.preview_html(), "");
    assert!(!s.is_active("a"));
}

#[test]
fn index_failure_gives_empty_list() {
    assert!(posts_from_index(None).is_empty());
    let v = posts_from_index(Some(vec![meta("a", "A"), meta("b", "B")]));
    assert_eq!(v.len(), 2);
    assert_eq!(v[0].slug, "a");
    assert_eq!(v[1].title, "B");
}

#[test]
fn title_lookup() {
    let posts = vec![meta("a", "A"), meta("b", "B"), meta("b", "B2")];
    assert_eq!(title_for(&posts, "b"), "B");
    assert_eq!(title_for(&posts, "z"), "Post");
    assert_eq!(title_for(&Vec::new(), "a"), "Post");
}

#[test]
fn post_page_loads_and_drops_stale() {
    let (page, url) = PostPage::open("x".to_string());
    assert_eq!(url, "posts/x/x.md");
    assert!(matches!(page.content, PostContent::Loading));
    assert_eq!(page.html(), "");
    let page = page.loaded("y", "other");
    assert!(matches!(page.content, PostContent::Loading));
    let page = page.loaded("x", "![c](c.png)");
    assert_eq!(page.html(), "<p><img src=\"posts/x/c.png\" alt=\"c\" /></p>\n");
}

#[test]
fn post_page_failure_is_explicit() {
    let (page, _) = PostPage::open("x".to_string());
    let page = page.failed("y");
    assert!(matches!(page.content, PostContent::Loading));
    let page = page.failed("x");
    assert!(matches!(page.content, PostContent::Failed));
    assert_eq!(page.html(), "");
}
