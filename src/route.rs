//! The views of the site and their addresses.
use vstd::prelude::*;
use vstd::string::*;
use crate::text::join;

verus! {

/// A view of the site.
#[derive(Clone, Debug)]
pub enum Route {
    /// The list of posts with its preview pane, at `/`.
    Home,
    /// The full view of one post, at `/post/<slug>`.
    Post { slug: String },
    /// Any other address, shown at `/404`.
    NotFound,
}

/// The address of a view.
pub open spec fn path_of(route: Route) -> Seq<char> {
    match route {
        Route::Home => "/"@,
        Route::Post { slug } => "/post/"@ + slug@,
        Route::NotFound => "/404"@,
    }
}

impl Route {
    /// The address of this view.
    pub fn path(&self) -> (r: String)
        ensures
            r@ == path_of(*self),
    {
        match self {
            Route::Home => String::from_str("/"),
            Route::Post { slug } => join("/post/", slug.as_str()),
            Route::NotFound => String::from_str("/404"),
        }
    }
}

} // verus!
