//! The pages that fetch data: the request each sends when it is mounted, the
//! state it moves through (loading, then loaded or failed), and its markup.

use vstd::prelude::*;
use vstd::string::StringExecFns;
use crate::markup::{
    full_post_markup, layout, layout_markup, lemma_joined_pair, push_full_post, push_short_post,
    short_posts_markup, LayoutProps,
};
use crate::post::{Post, PostView, ShowProps};

verus! {

/// Why a fetch failed.
#[derive(Clone, Copy, Debug, PartialEq, Eq, Structural)]
pub enum FetchError {
    /// No response came back, or the server answered with a failure status.
    Network,
    /// The response body was not the expected JSON.
    Decode,
    /// The server does not hold the requested post.
    NotFound,
}

/// The HTTP methods the client uses.
#[derive(Clone, Copy, Debug, PartialEq, Eq, Structural)]
pub enum Method {
    Get,
    Post,
}

/// A request to the posts API. When `sends_json` holds, the request carries
/// a post serialised as JSON, with a JSON content type.
pub struct ApiRequest {
    pub method: Method,
    pub path: String,
    pub sends_json: bool,
}

/// The path of the collection of posts.
pub open spec fn posts_api_path() -> Seq<char> {
    "/api/posts"@
}

/// The path of one post in the API.
pub open spec fn post_api_path(id: Seq<char>) -> Seq<char> {
    "/api/posts/"@ + id
}

/// The failure, if any, of a fetch given the status that came back (none
/// when no response arrived) and whether the body could be decoded. Only a
/// fetch of a single post tells a missing post apart.
pub open spec fn fetch_error_of(status: Option<u16>, decoded: bool, single: bool) -> Option<
    FetchError,
> {
    match status {
        None => Some(FetchError::Network),
        Some(s) => if single && s == 404 {
            Some(FetchError::NotFound)
        } else if !(200 <= s < 300) {
            Some(FetchError::Network)
        } else if !decoded {
            Some(FetchError::Decode)
        } else {
            None
        },
    }
}

/// Classifies the outcome of a fetch.
pub fn fetch_error(status: Option<u16>, decoded: bool, single: bool) -> (r: Option<FetchError>)
    ensures
        r == fetch_error_of(status, decoded, single),
{
    match status {
        None => Some(FetchError::Network),
        Some(s) => if single && s == 404 {
            Some(FetchError::NotFound)
        } else if !(200 <= s && s < 300) {
            Some(FetchError::Network)
        } else if !decoded {
            Some(FetchError::Decode)
        } else {
            None
        },
    }
}

/// The text shown for a failed fetch.
pub open spec fn error_markup(e: FetchError) -> Seq<char> {
    match e {
        FetchError::Network => "<p class=\"error\">Failed to load: the server could not be reached</p>"@,
        FetchError::Decode => "<p class=\"error\">Failed to load: the response could not be read</p>"@,
        FetchError::NotFound => "<p class=\"error\">Failed to load: no such post</p>"@,
    }
}

/// Appends the text shown for a failed fetch.
pub fn push_error(out: &mut String, e: FetchError)
    ensures
        final(out)@ == old(out)@ + error_markup(e),
{
    match e {
        FetchError::Network => out.append(
            "<p class=\"error\">Failed to load: the server could not be reached</p>",
        ),
        FetchError::Decode => out.append(
            "<p class=\"error\">Failed to load: the response could not be read</p>",
        ),
        FetchError::NotFound => out.append("<p class=\"error\">Failed to load: no such post</p>"),
    }
}

/// The placeholder shown while a fetch is outstanding.
pub open spec fn loading_markup() -> Seq<char> {
    "Loading"@
}

/// The mathematical values of a list of posts.
pub open spec fn posts_view(v: Seq<Post>) -> Seq<PostView> {
    v.map_values(|p: Post| p@)
}

/// Where the list of posts stands.
#[derive(Clone)]
pub enum IndexState {
    Loading,
    Loaded(Vec<Post>),
    Failed(FetchError),
}

/// The mathematical value of the list page's state.
pub enum IndexStateView {
    Loading,
    Loaded(Seq<PostView>),
    Failed(FetchError),
}

impl View for IndexState {
    type V = IndexStateView;

    open spec fn view(&self) -> IndexStateView {
        match self {
            IndexState::Loading => IndexStateView::Loading,
            IndexState::Loaded(v) => IndexStateView::Loaded(posts_view(v@)),
            IndexState::Failed(e) => IndexStateView::Failed(*e),
        }
    }
}

/// The content of the list page under its heading.
pub open spec fn index_content(s: IndexStateView) -> Seq<char> {
    match s {
        IndexStateView::Loading => loading_markup(),
        IndexStateView::Loaded(ps) => short_posts_markup(ps),
        IndexStateView::Failed(e) => error_markup(e),
    }
}

/// The list page: the heading, then one summary per post in the order
/// received.
pub open spec fn index_markup(s: IndexStateView) -> Seq<char> {
    layout_markup("<h2>Latest Posts</h2>"@ + index_content(s))
}

/// The page that lists the latest posts.
#[derive(Clone)]
pub struct IndexPage {
    pub state: IndexState,
}

impl IndexPage {
    /// A freshly mounted list page, loading, and the one request it sends.
    pub fn mount() -> (r: (IndexPage, ApiRequest))
        ensures
            r.0.state@ == IndexStateView::Loading,
            r.1.method == Method::Get,
            r.1.path@ == posts_api_path(),
            !r.1.sends_json,
    {
        (
            IndexPage { state: IndexState::Loading },
            ApiRequest { method: Method::Get, path: String::from_str("/api/posts"), sends_json: false },
        )
    }

    /// Takes in the outcome of the page's fetch: the status that came back
    /// (none when no response arrived) and the decoded posts, if the body
    /// could be decoded. Only a loading page changes; a late or repeated
    /// outcome is ignored.
    pub fn on_fetched(&mut self, status: Option<u16>, posts: Option<Vec<Post>>)
        ensures
            old(self).state@ != IndexStateView::Loading ==> final(self).state@ == old(
                self,
            ).state@,
            old(self).state@ == IndexStateView::Loading ==> final(self).state@ == match fetch_error_of(
                status,
                posts is Some,
                false,
            ) {
                Some(e) => IndexStateView::Failed(e),
                None => IndexStateView::Loaded(posts_view(posts->0@)),
            },
    {
        if let IndexState::Loading = self.state {
            let failure = fetch_error(status, posts.is_some(), false);
            match failure {
                Some(e) => {
                    self.state = IndexState::Failed(e);
                },
                None => {
                    if let Some(v) = posts {
                        self.state = IndexState::Loaded(v);
                    }
                },
            }
        }
    }
}

/// Appends the summaries of `posts`, in order.
pub fn push_short_posts(out: &mut String, posts: &Vec<Post>)
    ensures
        final(out)@ == old(out)@ + short_posts_markup(posts_view(posts@)),
{
    let ghost start = out@;
    let ghost ps = posts_view(posts@);
    let mut i: usize = 0;
    while i < posts.len()
        invariant
            i <= posts.len(),
            ps == posts_view(posts@),
            out@ == start + short_posts_markup(ps.take(i as int)),
        decreases posts.len() - i,
    {
        let ghost before = ps.take(i as int);
        push_short_post(out, &posts[i]);
        i = i + 1;
        proof {
            assert(ps.take(i as int).drop_last() =~= before);
            assert(out@ =~= start + short_posts_markup(ps.take(i as int)));
        }
    }
    assert(ps.take(i as int) =~= ps);
}

/// Renders the list page.
pub fn index(page: &IndexPage) -> (r: String)
    ensures
        r@ == index_markup(page.state@),
{
    let heading = String::from_str("<h2>Latest Posts</h2>");
    let mut content = String::new();
    match &page.state {
        IndexState::Loading => content.append("Loading"),
        IndexState::Loaded(posts) => push_short_posts(&mut content, posts),
        IndexState::Failed(e) => push_error(&mut content, *e),
    }
    assert(content@ =~= index_content(page.state@));
    let mut children: Vec<String> = Vec::new();
    children.push(heading);
    children.push(content);
    let props = LayoutProps { children };
    proof {
        assert(crate::post::strings_view(props.children@) =~= seq![
            "<h2>Latest Posts</h2>"@,
            index_content(page.state@),
        ]);
        lemma_joined_pair("<h2>Latest Posts</h2>"@, index_content(page.state@));
    }
    layout(&props)
}

/// Where a single post stands.
#[derive(Clone)]
pub enum ShowState {
    Loading,
    Loaded(Post),
    Failed(FetchError),
}

/// The mathematical value of the post page's state.
pub enum ShowStateView {
    Loading,
    Loaded(PostView),
    Failed(FetchError),
}

impl View for ShowState {
    type V = ShowStateView;

    open spec fn view(&self) -> ShowStateView {
        match self {
            ShowState::Loading => ShowStateView::Loading,
            ShowState::Loaded(p) => ShowStateView::Loaded(p@),
            ShowState::Failed(e) => ShowStateView::Failed(*e),
        }
    }
}

/// The content of the post page.
pub open spec fn show_content(s: ShowStateView) -> Seq<char> {
    match s {
        ShowStateView::Loading => loading_markup(),
        ShowStateView::Loaded(p) => full_post_markup(p),
        ShowStateView::Failed(e) => error_markup(e),
    }
}

/// The post page: the whole post once it is loaded.
pub open spec fn show_markup(s: ShowStateView) -> Seq<char> {
    layout_markup(show_content(s))
}

/// The page that shows one post.
#[derive(Clone)]
pub struct ShowPage {
    pub id: String,
    pub state: ShowState,
}

impl ShowPage {
    /// A freshly mounted page for the post `props.id`, loading, and the one
    /// request it sends.
    pub fn mount(props: &ShowProps) -> (r: (ShowPage, ApiRequest))
        ensures
            r.0.id@ == props.id@,
            r.0.state@ == ShowStateView::Loading,
            r.1.method == Method::Get,
            r.1.path@ == post_api_path(props.id@),
            !r.1.sends_json,
    {
        let mut path = String::from_str("/api/posts/");
        path.append(props.id.as_str());
        (
            ShowPage { id: props.id.clone(), state: ShowState::Loading },
            ApiRequest { method: Method::Get, path, sends_json: false },
        )
    }

    /// Takes in the outcome of the page's fetch: the status that came back
    /// (none when no response arrived) and the decoded post, if the body
    /// could be decoded. Only a loading page changes; a late or repeated
    /// outcome is ignored.
    pub fn on_fetched(&mut self, status: Option<u16>, post: Option<Post>)
        ensures
            final(self).id == old(self).id,
            old(self).state@ != ShowStateView::Loading ==> final(self).state@ == old(
                self,
            ).state@,
            old(self).state@ == ShowStateView::Loading ==> final(self).state@ == match fetch_error_of(
                status,
                post is Some,
                true,
            ) {
                Some(e) => ShowStateView::Failed(e),
                None => ShowStateView::Loaded(post->0@),
            },
    {
        if let ShowState::Loading = self.state {
            let failure = fetch_error(status, post.is_some(), true);
            match failure {
                Some(e) => {
                    self.state = ShowState::Failed(e);
                },
                None => {
                    if let Some(p) = post {
                        self.state = ShowState::Loaded(p);
                    }
                },
            }
        }
    }
}

/// Renders the post page.
pub fn show(page: &ShowPage) -> (r: String)
    ensures
        r@ == show_markup(page.state@),
{
    let mut content = String::new();
    match &page.state {
        ShowState::Loading => content.append("Loading"),
        ShowState::Loaded(p) => push_full_post(&mut content, p),
        ShowState::Failed(e) => push_error(&mut content, *e),
    }
    assert(content@ =~= show_content(page.state@));
    let mut children: Vec<String> = Vec::new();
    children.push(content);
    let props = LayoutProps { children };
    proof {
        let parts = crate::post::strings_view(props.children@);
        assert(parts =~= seq![show_content(page.state@)]);
        assert(parts.drop_last() =~= Seq::<Seq<char>>::empty());
        assert(crate::markup::joined(parts.drop_last()) == Seq::<char>::empty());
        assert(crate::markup::joined(parts) == crate::markup::joined(parts.drop_last())
            + parts.last());
        assert(crate::markup::joined(parts) =~= show_content(page.state@));
    }
    layout(&props)
}

/// Rendering has no effect of its own: the same state always gives the
/// same markup, for the list page and for the post page alike.
pub proof fn lemma_render_is_stable(
    a: IndexStateView,
    b: IndexStateView,
    c: ShowStateView,
    d: ShowStateView,
)
    requires
        a == b,
        c == d,
    ensures
        index_markup(a) == index_markup(b),
        show_markup(c) == show_markup(d),
{
}

} // verus!
