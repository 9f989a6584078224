//! The views: posts, the layout shell and the fixed pages, rendered as HTML
//! text.

use vstd::prelude::*;
use vstd::string::StringExecFns;
use crate::post::{Post, PostProps, PostView};

verus! {

/// How one character stands in HTML text or in a quoted attribute.
pub open spec fn escape_char(c: char) -> Seq<char> {
    if c == '&' {
        "&amp;"@
    } else if c == '<' {
        "&lt;"@
    } else if c == '>' {
        "&gt;"@
    } else if c == '"' {
        "&quot;"@
    } else {
        seq![c]
    }
}

/// `s` with each character escaped.
pub open spec fn escaped(s: Seq<char>) -> Seq<char>
    decreases s.len(),
{
    if s.len() == 0 {
        seq![]
    } else {
        escaped(s.drop_last()) + escape_char(s.last())
    }
}

/// The pieces of markup one after another.
pub open spec fn joined(parts: Seq<Seq<char>>) -> Seq<char>
    decreases parts.len(),
{
    if parts.len() == 0 {
        seq![]
    } else {
        joined(parts.drop_last()) + parts.last()
    }
}

/// The summary of a post: its title as a link to the post's page.
pub open spec fn short_post_markup(p: PostView) -> Seq<char> {
    "<div class=\"post short\"><h3><a href=\"/post/"@ + escaped(p.id) + "\">"@ + escaped(p.title)
        + "</a></h3></div>"@
}

/// The summaries of the posts, in order.
pub open spec fn short_posts_markup(ps: Seq<PostView>) -> Seq<char>
    decreases ps.len(),
{
    if ps.len() == 0 {
        seq![]
    } else {
        short_posts_markup(ps.drop_last()) + short_post_markup(ps.last())
    }
}

/// One block per paragraph, in order.
pub open spec fn paragraphs_markup(ps: Seq<Seq<char>>) -> Seq<char>
    decreases ps.len(),
{
    if ps.len() == 0 {
        seq![]
    } else {
        paragraphs_markup(ps.drop_last()) + "<p>"@ + escaped(ps.last()) + "</p>"@
    }
}

/// A whole post: its title, then each paragraph of its body.
pub open spec fn full_post_markup(p: PostView) -> Seq<char> {
    "<div class=\"post full\"><h3>"@ + escaped(p.title) + "</h3><div class=\"post-body\">"@
        + paragraphs_markup(p.body) + "</div></div>"@
}

/// The shell around a page: the navigation header, then the content.
pub open spec fn layout_markup(content: Seq<char>) -> Seq<char> {
    "<main><nav><a href=\"/\">Home</a><a href=\"/post/new\">Write</a></nav><div class=\"layout\">"@
        + content + "</div></main>"@
}

/// Two pieces of markup, joined, are the one after the other.
pub proof fn lemma_joined_pair(a: Seq<char>, b: Seq<char>)
    ensures
        joined(seq![a, b]) == a + b,
{
    let two = seq![a, b];
    let one = seq![a];
    assert(two.drop_last() =~= one);
    assert(one.drop_last() =~= Seq::<Seq<char>>::empty());
    assert(joined(Seq::<Seq<char>>::empty()) == Seq::<char>::empty());
    assert(joined(one) == joined(one.drop_last()) + a);
    assert(joined(one) =~= a);
    assert(joined(two) == joined(one) + b);
}

/// The fallback page.
pub open spec fn not_found_markup() -> Seq<char> {
    "<h1>404</h1>"@
}

/// Appends `s`, escaped, to `out`.
pub fn push_escaped(out: &mut String, s: &str)
    ensures
        final(out)@ == old(out)@ + escaped(s@),
{
    let ghost start = out@;
    let cs = crate::text::chars_of(s);
    let mut i: usize = 0;
    while i < cs.len()
        invariant
            i <= cs.len(),
            out@ == start + escaped(cs@.take(i as int)),
        decreases cs.len() - i,
    {
        let ghost done = cs@.take(i as int);
        let c = cs[i];
        if c == '&' {
            out.append("&amp;");
        } else if c == '<' {
            out.append("&lt;");
        } else if c == '>' {
            out.append("&gt;");
        } else if c == '"' {
            out.append("&quot;");
        } else {
            crate::text::push_char(out, c);
        }
        i = i + 1;
        proof {
            let next = cs@.take(i as int);
            assert(next.drop_last() =~= done);
            assert(out@ =~= start + escaped(next));
        }
    }
    assert(cs@.take(i as int) =~= s@);
}

/// Appends the summary of `post` to `out`.
pub fn push_short_post(out: &mut String, post: &Post)
    ensures
        final(out)@ == old(out)@ + short_post_markup(post@),
{
    let ghost start = out@;
    out.append("<div class=\"post short\"><h3><a href=\"/post/");
    push_escaped(out, post.id.as_str());
    out.append("\">");
    push_escaped(out, post.title.as_str());
    out.append("</a></h3></div>");
    assert(out@ =~= start + short_post_markup(post@));
}

/// Renders the summary of a post.
pub fn shot_post(props: &PostProps) -> (r: String)
    ensures
        r@ == short_post_markup(props.post@),
{
    let mut r = String::new();
    push_short_post(&mut r, &props.post);
    assert(r@ =~= short_post_markup(props.post@));
    r
}

/// Appends the whole of `post` to `out`.
pub fn push_full_post(out: &mut String, post: &Post)
    ensures
        final(out)@ == old(out)@ + full_post_markup(post@),
{
    let ghost start = out@;
    out.append("<div class=\"post full\"><h3>");
    push_escaped(out, post.title.as_str());
    out.append("</h3><div class=\"post-body\">");
    let ghost head = out@;
    let mut i: usize = 0;
    while i < post.body.len()
        invariant
            i <= post.body.len(),
            out@ == head + paragraphs_markup(post@.body.take(i as int)),
        decreases post.body.len() - i,
    {
        let ghost before = post@.body.take(i as int);
        out.append("<p>");
        push_escaped(out, post.body[i].as_str());
        out.append("</p>");
        i = i + 1;
        proof {
            let now = post@.body.take(i as int);
            assert(now.drop_last() =~= before);
            assert(out@ =~= head + paragraphs_markup(now));
        }
    }
    out.append("</div></div>");
    assert(post@.body.take(i as int) =~= post@.body);
    assert(out@ =~= start + full_post_markup(post@));
}

/// Renders a whole post.
pub fn full_post(props: &PostProps) -> (r: String)
    ensures
        r@ == full_post_markup(props.post@),
{
    let mut r = String::new();
    push_full_post(&mut r, &props.post);
    assert(r@ =~= full_post_markup(props.post@));
    r
}

/// The properties of the layout shell: the markup of each piece of content.
pub struct LayoutProps {
    pub children: Vec<String>,
}

/// Renders the layout shell around the given content, piece after piece.
pub fn layout(props: &LayoutProps) -> (r: String)
    ensures
        r@ == layout_markup(joined(crate::post::strings_view(props.children@))),
{
    let ghost parts = crate::post::strings_view(props.children@);
    let mut r = String::new();
    r.append(
        "<main><nav><a href=\"/\">Home</a><a href=\"/post/new\">Write</a></nav><div class=\"layout\">",
    );
    let ghost head = r@;
    let mut i: usize = 0;
    while i < props.children.len()
        invariant
            i <= props.children.len(),
            parts == crate::post::strings_view(props.children@),
            r@ == head + joined(parts.take(i as int)),
        decreases props.children.len() - i,
    {
        let ghost before = parts.take(i as int);
        r.append(props.children[i].as_str());
        i = i + 1;
        proof {
            assert(parts.take(i as int).drop_last() =~= before);
            assert(r@ =~= head + joined(parts.take(i as int)));
        }
    }
    r.append("</div></main>");
    proof {
        assert(parts.take(i as int) =~= parts);
        assert(r@ =~= layout_markup(joined(parts)));
    }
    r
}

/// Renders the fallback page.
pub fn not_found() -> (r: String)
    ensures
        r@ == not_found_markup(),
{
    String::from_str("<h1>404</h1>")
}

} // verus!
