//! A client-side blog viewer: markdown rendering with post-relative image
//! assets, preview truncation, and the state of the preview and post views.

pub mod paths;
pub mod text;
pub mod images;
pub mod preview;
pub mod markdown;
pub mod view_state;
pub mod post;
pub mod route;
pub mod post_page;
