//! The application root: the route decides which page is mounted and what
//! that page asks of the server.

use vstd::prelude::*;
use crate::create::{create, create_markup, CreateForm};
use crate::markup::{not_found, not_found_markup};
use crate::page::{
    index, index_markup, post_api_path, posts_api_path, show, show_markup, ApiRequest, IndexPage,
    IndexStateView, Method, ShowPage, ShowStateView,
};
use crate::post::ShowProps;
use crate::route::{recognize, route_of, Route, RouteView};

verus! {

/// The page on screen.
pub enum Page {
    Index(IndexPage),
    Create(CreateForm),
    Show(ShowPage),
    NotFound,
}

/// Whether `page` is the page that `route` mounts, freshly, and `request` the
/// one fetch it sends: the list and a post load from the API, the form starts
/// empty, and the form and the fallback fetch nothing.
pub open spec fn mounted_for(route: RouteView, page: Page, request: Option<ApiRequest>) -> bool {
    match (route, page, request) {
        (RouteView::Index, Page::Index(p), Some(q)) => {
            &&& p.state@ == IndexStateView::Loading
            &&& q.method == Method::Get
            &&& q.path@ == posts_api_path()
            &&& !q.sends_json
        },
        (RouteView::Show(id), Page::Show(p), Some(q)) => {
            &&& p.id@ == id
            &&& p.state@ == ShowStateView::Loading
            &&& q.method == Method::Get
            &&& q.path@ == post_api_path(id)
            &&& !q.sends_json
        },
        (RouteView::Create, Page::Create(f), None) => f.title@.len() == 0 && f.body@.len() == 0,
        (RouteView::NotFound, Page::NotFound, None) => true,
        _ => false,
    }
}

/// Mounts the page of a route.
pub fn switch(route: &Route) -> (r: (Page, Option<ApiRequest>))
    ensures
        mounted_for(route@, r.0, r.1),
{
    match route {
        Route::Index => {
            let (p, q) = IndexPage::mount();
            (Page::Index(p), Some(q))
        },
        Route::Show { id } => {
            let props = ShowProps { id: id.clone() };
            let (p, q) = ShowPage::mount(&props);
            (Page::Show(p), Some(q))
        },
        Route::Create => (Page::Create(CreateForm::new()), None),
        Route::NotFound => (Page::NotFound, None),
    }
}

/// Mounts the page of the current path.
pub fn app(path: &str) -> (r: (Page, Option<ApiRequest>))
    ensures
        mounted_for(route_of(path@), r.0, r.1),
{
    let route = recognize(path);
    switch(&route)
}

/// The markup of the page on screen.
pub open spec fn page_markup(page: Page) -> Seq<char> {
    match page {
        Page::Index(p) => index_markup(p.state@),
        Page::Create(_) => create_markup(),
        Page::Show(p) => show_markup(p.state@),
        Page::NotFound => not_found_markup(),
    }
}

impl Page {
    /// Renders the page on screen.
    pub fn render(&self) -> (r: String)
        ensures
            r@ == page_markup(*self),
    {
        match self {
            Page::Index(p) => index(p),
            Page::Create(_) => create(),
            Page::Show(p) => show(p),
            Page::NotFound => not_found(),
        }
    }
}

} // verus!
