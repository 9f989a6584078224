//! Client-side routing: from a path to the page that renders it, and back.

use vstd::prelude::*;
use vstd::string::StringExecFns;
use crate::text::{chars_of, lacks_from, same_chars, starts_with, string_from};

verus! {

/// The pages of the application.
#[derive(Clone, Debug, PartialEq, Eq)]
pub enum Route {
    Index,
    Create,
    Show { id: String },
    NotFound,
}

/// The mathematical value of a route.
pub enum RouteView {
    Index,
    Create,
    Show(Seq<char>),
    NotFound,
}

impl View for Route {
    type V = RouteView;

    open spec fn view(&self) -> RouteView {
        match self {
            Route::Index => RouteView::Index,
            Route::Create => RouteView::Create,
            Route::Show { id } => RouteView::Show(id@),
            Route::NotFound => RouteView::NotFound,
        }
    }
}

/// The path of the list of posts.
pub open spec fn index_path() -> Seq<char> {
    seq!['/']
}

/// What precedes a post's identifier in its path.
pub open spec fn post_prefix() -> Seq<char> {
    seq!['/', 'p', 'o', 's', 't', '/']
}

/// The path of the form that writes a new post.
pub open spec fn create_path() -> Seq<char> {
    post_prefix() + seq!['n', 'e', 'w']
}

/// The path that the fallback page is reached by.
pub open spec fn not_found_path() -> Seq<char> {
    seq!['/', '4', '0', '4']
}

/// A value that the identifier segment of a post path can bind: one or more
/// characters, none of them a slash.
pub open spec fn is_valid_id(id: Seq<char>) -> bool {
    id.len() > 0 && forall|i: int| 0 <= i < id.len() ==> id[i] != '/'
}

/// The route that a path resolves to: the list at `/`, the form at
/// `/post/new`, a post at `/post/:id`, and the fallback for anything else.
pub open spec fn route_of(path: Seq<char>) -> RouteView {
    if path == index_path() {
        RouteView::Index
    } else if path == create_path() {
        RouteView::Create
    } else if path.len() > post_prefix().len() && path.take(post_prefix().len() as int)
        == post_prefix() && is_valid_id(path.skip(post_prefix().len() as int)) {
        RouteView::Show(path.skip(post_prefix().len() as int))
    } else {
        RouteView::NotFound
    }
}

/// The path that leads to a route.
pub open spec fn path_of(r: RouteView) -> Seq<char> {
    match r {
        RouteView::Index => index_path(),
        RouteView::Create => create_path(),
        RouteView::Show(id) => post_prefix() + id,
        RouteView::NotFound => not_found_path(),
    }
}

/// Resolves a path to the route that renders it.
pub fn recognize(path: &str) -> (r: Route)
    ensures
        r@ == route_of(path@),
{
    let cs = chars_of(path);
    let index = chars_of("/");
    let prefix = chars_of("/post/");
    let create = chars_of("/post/new");
    proof {
        reveal_strlit("/");
        reveal_strlit("/post/");
        reveal_strlit("/post/new");
        assert(index@ =~= index_path());
        assert(prefix@ =~= post_prefix());
        assert(create@ =~= create_path());
    }
    if same_chars(&cs, &index) {
        Route::Index
    } else if same_chars(&cs, &create) {
        Route::Create
    } else if cs.len() > prefix.len() && starts_with(&cs, &prefix) {
        let valid = lacks_from(&cs, prefix.len(), '/');
        assert(valid == is_valid_id(cs@.skip(6))) by {
            if !valid {
                let i = choose|i: int| 6 <= i < cs@.len() && cs@[i] == '/';
                assert(cs@.skip(6)[i - 6] == '/');
            }
        }
        if valid {
            let id = string_from(&cs, prefix.len());
            Route::Show { id }
        } else {
            Route::NotFound
        }
    } else {
        Route::NotFound
    }
}

impl Route {
    /// The path that leads to this route.
    pub fn to_path(&self) -> (r: String)
        ensures
            r@ == path_of(self@),
    {
        proof {
            reveal_strlit("/");
            reveal_strlit("/post/");
            reveal_strlit("/post/new");
            reveal_strlit("/404");
        }
        match self {
            Route::Index => String::from_str("/"),
            Route::Create => String::from_str("/post/new"),
            Route::Show { id } => {
                let mut r = String::from_str("/post/");
                r.append(id.as_str());
                r
            },
            Route::NotFound => String::from_str("/404"),
        }
    }
}

/// Every path other than `/`, `/post/new` and `/post/` followed by a valid
/// identifier resolves to the fallback page.
pub proof fn lemma_unmatched_path_is_not_found(path: Seq<char>)
    requires
        path != index_path(),
        path != create_path(),
        forall|id: Seq<char>| is_valid_id(id) ==> path != post_prefix() + id,
    ensures
        route_of(path) == RouteView::NotFound,
{
    if path.len() > post_prefix().len() && path.take(post_prefix().len() as int) == post_prefix()
        && is_valid_id(path.skip(post_prefix().len() as int)) {
        let id = path.skip(post_prefix().len() as int);
        assert(post_prefix() + id =~= path);
    }
}

/// The post route binds exactly the identifier it was reached with: the path
/// of a post with a valid identifier other than `new` resolves to that post,
/// and a path resolves to a post only when it is that post's path.
pub proof fn lemma_show_binds_id(id: Seq<char>, path: Seq<char>)
    requires
        is_valid_id(id),
        id != seq!['n', 'e', 'w'],
    ensures
        route_of(path_of(RouteView::Show(id))) == RouteView::Show(id),
        route_of(path) == RouteView::Show(id) <==> path == post_prefix() + id,
{
    let p = post_prefix() + id;
    assert(p.take(post_prefix().len() as int) =~= post_prefix());
    assert(p.skip(post_prefix().len() as int) =~= id);
    assert(p != index_path()) by {
        assert(p.len() != index_path().len());
    }
    assert(p != create_path()) by {
        if p == create_path() {
            assert(p.skip(6) =~= create_path().skip(6));
            assert(create_path().skip(6) =~= seq!['n', 'e', 'w']);
        }
    }
    if route_of(path) == RouteView::Show(id) {
        assert(path =~= post_prefix() + path.skip(post_prefix().len() as int));
    }
}

} // verus!
