//! The form that writes a new post: its editable fields, the post it submits
//! and where the client goes once the server has answered.

use vstd::prelude::*;
use vstd::string::StringExecFns;
use crate::markup::{layout, layout_markup, lemma_joined_pair, LayoutProps};
use crate::page::{fetch_error, fetch_error_of, posts_api_path, ApiRequest, FetchError, Method};
use crate::post::{strings_view, Post, PostView};
use crate::route::{
    is_valid_id, lemma_show_binds_id, path_of, post_prefix, route_of, Route, RouteView,
};
use crate::text::{chars_of, push_char};

verus! {

/// A lowercase hexadecimal digit.
pub open spec fn is_hex_digit(c: char) -> bool {
    ('0' <= c && c <= '9') || ('a' <= c && c <= 'f')
}

/// A UUID in its hyphenated form: 36 characters, hyphens at 8, 13, 18 and 23,
/// lowercase hexadecimal digits elsewhere.
pub open spec fn is_hyphenated_uuid(s: Seq<char>) -> bool {
    &&& s.len() == 36
    &&& forall|i: int|
        0 <= i < 36 ==> if i == 8 || i == 13 || i == 18 || i == 23 {
            s[i] == '-'
        } else {
            is_hex_digit(#[trigger] s[i])
        }
}

/// Relies on `uuid::Uuid::new_v4`, a random version 4 UUID, and on its
/// `Display`, which writes it hyphenated in lowercase with the version digit
/// `4` at index 14.
#[verifier::external_body]
fn new_post_id() -> (r: String)
    ensures
        is_hyphenated_uuid(r@),
        r@[14] == '4',
{
    uuid::Uuid::new_v4().to_string()
}

/// A freshly drawn identifier is one the post route binds: the path of a
/// post under it resolves back to that post.
pub proof fn lemma_drawn_id_routes_back(id: Seq<char>)
    requires
        is_hyphenated_uuid(id),
    ensures
        is_valid_id(id),
        route_of(path_of(RouteView::Show(id))) == RouteView::Show(id),
{
    assert forall|i: int| 0 <= i < id.len() implies id[i] != '/' by {
        if !(i == 8 || i == 13 || i == 18 || i == 23) {
            assert(is_hex_digit(id[i]));
        }
    }
    assert(id != seq!['n', 'e', 'w']) by {
        assert(id.len() != 3);
    }
    lemma_show_binds_id(id, post_prefix() + id);
}

/// The lines of `s`: the pieces between newline characters, in order, empty
/// ones included; there is always at least one.
pub open spec fn lines_of(s: Seq<char>) -> Seq<Seq<char>>
    decreases s.len(),
{
    if s.len() == 0 {
        seq![seq![]]
    } else {
        let prev = lines_of(s.drop_last());
        if s.last() == '\n' {
            prev.push(seq![])
        } else {
            prev.update(prev.len() - 1, prev.last().push(s.last()))
        }
    }
}

/// Every text has at least one line.
pub proof fn lemma_lines_nonempty(s: Seq<char>)
    ensures
        lines_of(s).len() >= 1,
    decreases s.len(),
{
    if s.len() > 0 {
        lemma_lines_nonempty(s.drop_last());
    }
}

/// Lines joined back together, with a newline between each two.
pub open spec fn rejoined(lines: Seq<Seq<char>>) -> Seq<char>
    decreases lines.len(),
{
    if lines.len() <= 1 {
        if lines.len() == 0 {
            seq![]
        } else {
            lines[0]
        }
    } else {
        rejoined(lines.drop_last()) + seq!['\n'] + lines.last()
    }
}

/// Splitting on newlines loses nothing and keeps no newline: the lines,
/// joined back with a newline between each two, give the text again, and no
/// line holds a newline.
pub proof fn lemma_lines_rejoin(s: Seq<char>)
    ensures
        rejoined(lines_of(s)) == s,
        forall|i: int, j: int|
            0 <= i < lines_of(s).len() && 0 <= j < lines_of(s)[i].len() ==> lines_of(s)[i][j]
                != '\n',
    decreases s.len(),
{
    if s.len() == 0 {
        assert(rejoined(lines_of(s)) =~= s);
    } else {
        let prev = lines_of(s.drop_last());
        lemma_lines_rejoin(s.drop_last());
        lemma_lines_nonempty(s.drop_last());
        let c = s.last();
        if c == '\n' {
            let now = prev.push(seq![]);
            assert(now.drop_last() =~= prev);
            assert(rejoined(now) =~= s);
        } else {
            let n = prev.len();
            let now = prev.update(n - 1, prev.last().push(c));
            if n == 1 {
                assert(rejoined(now) =~= s);
            } else {
                assert(now.drop_last() =~= prev.drop_last());
                assert(now.last() == prev.last().push(c));
                assert(rejoined(prev) == rejoined(prev.drop_last()) + seq!['\n'] + prev.last());
                assert(rejoined(now) == rejoined(prev.drop_last()) + seq!['\n'] + now.last());
                assert(s =~= s.drop_last().push(c));
                assert(rejoined(now) =~= s);
            }
            assert forall|i: int, j: int|
                0 <= i < now.len() && 0 <= j < now[i].len() implies now[i][j] != '\n' by {
                if i == n - 1 && j == now[i].len() - 1 {
                    assert(now[i][j] == c);
                } else {
                    assert(now[i][j] == prev[i][j]);
                }
            }
        }
    }
}

/// Splits a text into its lines, on each newline character.
pub fn split_lines(text: &str) -> (r: Vec<String>)
    ensures
        strings_view(r@) == lines_of(text@),
{
    let cs = chars_of(text);
    let mut done: Vec<String> = Vec::new();
    let mut cur = String::new();
    let mut i: usize = 0;
    assert(strings_view(done@).push(cur@) =~= lines_of(cs@.take(0)));
    while i < cs.len()
        invariant
            i <= cs.len(),
            strings_view(done@).push(cur@) == lines_of(cs@.take(i as int)),
        decreases cs.len() - i,
    {
        let ghost before = cs@.take(i as int);
        let c = cs[i];
        if c == '\n' {
            done.push(cur);
            cur = String::new();
        } else {
            push_char(&mut cur, c);
        }
        i = i + 1;
        proof {
            let now = cs@.take(i as int);
            assert(now.drop_last() =~= before);
            assert(now.last() == c);
            lemma_lines_nonempty(before);
            assert(strings_view(done@).push(cur@) =~= lines_of(now));
        }
    }
    done.push(cur);
    assert(cs@.take(i as int) =~= text@);
    assert(strings_view(done@) =~= lines_of(text@));
    done
}

/// The editable fields of the form.
pub struct CreateForm {
    pub title: String,
    pub body: String,
}

impl CreateForm {
    /// An empty form.
    pub fn new() -> (r: CreateForm)
        ensures
            r.title@ == Seq::<char>::empty(),
            r.body@ == Seq::<char>::empty(),
    {
        CreateForm { title: String::new(), body: String::new() }
    }

    /// Replaces the title with what was typed.
    pub fn set_title(&mut self, value: String)
        ensures
            final(self).title == value,
            final(self).body == old(self).body,
    {
        self.title = value;
    }

    /// Replaces the body with what was typed.
    pub fn set_body(&mut self, value: String)
        ensures
            final(self).title == old(self).title,
            final(self).body == value,
    {
        self.body = value;
    }

    /// The post this form describes under the identifier `id`: the title as
    /// typed, and the body split into paragraphs at each newline.
    pub fn compose(&self, id: String) -> (r: Post)
        ensures
            r@ == (PostView { id: id@, title: self.title@, body: lines_of(self.body@) }),
    {
        Post { id, title: self.title.clone(), body: split_lines(self.body.as_str()) }
    }

    /// Submits the form: the post under a freshly drawn identifier, and the
    /// request that sends it to the server as JSON.
    pub fn submit(&self) -> (r: (Post, ApiRequest))
        ensures
            is_hyphenated_uuid(r.0.id@),
            r.0.title@ == self.title@,
            r.0@.body == lines_of(self.body@),
            r.1.method == Method::Post,
            r.1.path@ == posts_api_path(),
            r.1.sends_json,
    {
        let id = new_post_id();
        let post = self.compose(id);
        (post, ApiRequest { method: Method::Post, path: String::from_str("/api/posts"), sends_json: true })
    }
}

/// Where the client goes once the server has answered a submission: the
/// status that came back (none when no response arrived) and the post the
/// server echoed, if the body could be decoded.
pub open spec fn after_create_of(status: Option<u16>, echoed: Option<PostView>) -> Result<
    RouteView,
    FetchError,
> {
    match fetch_error_of(status, echoed is Some, false) {
        Some(e) => Err(e),
        None => Ok(RouteView::Show(echoed->0.id)),
    }
}

/// The value of a post that may be absent.
pub open spec fn opt_post_view(p: Option<Post>) -> Option<PostView> {
    match p {
        Some(p) => Some(p@),
        None => None,
    }
}

/// Once the server has answered a submission with success and echoed a
/// post, the client goes to that post's page, at `/post/` followed by the
/// returned identifier.
pub proof fn lemma_echo_navigates_to_post(status: u16, echoed: PostView)
    requires
        200 <= status < 300,
    ensures
        after_create_of(Some(status), Some(echoed)) == Ok::<RouteView, FetchError>(
            RouteView::Show(echoed.id),
        ),
        path_of(RouteView::Show(echoed.id)) == post_prefix() + echoed.id,
{
}

/// The route to follow after a submission, or why it failed.
pub fn after_create(status: Option<u16>, echoed: Option<Post>) -> (r: Result<Route, FetchError>)
    ensures
        match r {
            Ok(route) => after_create_of(status, opt_post_view(echoed)) == Ok::<
                RouteView,
                FetchError,
            >(route@),
            Err(e) => after_create_of(status, opt_post_view(echoed)) == Err::<RouteView, FetchError>(
                e,
            ),
        },
{
    match fetch_error(status, echoed.is_some(), false) {
        Some(e) => Err(e),
        None => match echoed {
            Some(p) => Ok(Route::Show { id: p.id }),
            None => Err(FetchError::Decode),
        },
    }
}

/// The form itself.
pub open spec fn form_markup() -> Seq<char> {
    "<form><div class=\"input\"><span class=\"label\">Title</span><input type=\"text\"></div><div class=\"input\"><span class=\"label\">Body</span><textarea rows=\"10\"></textarea></div><div class=\"input\"><button>Submit</button></div></form>"@
}

/// The page that writes a new post.
pub open spec fn create_markup() -> Seq<char> {
    layout_markup("<h2>New post</h2>"@ + form_markup())
}

/// Renders the page that writes a new post.
pub fn create() -> (r: String)
    ensures
        r@ == create_markup(),
{
    let mut children: Vec<String> = Vec::new();
    children.push(String::from_str("<h2>New post</h2>"));
    children.push(
        String::from_str(
            "<form><div class=\"input\"><span class=\"label\">Title</span><input type=\"text\"></div><div class=\"input\"><span class=\"label\">Body</span><textarea rows=\"10\"></textarea></div><div class=\"input\"><button>Submit</button></div></form>",
        ),
    );
    let props = LayoutProps { children };
    proof {
        assert(strings_view(props.children@) =~= seq!["<h2>New post</h2>"@, form_markup()]);
        lemma_joined_pair("<h2>New post</h2>"@, form_markup());
    }
    layout(&props)
}

} // verus!
