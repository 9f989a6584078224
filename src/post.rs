//! The post record and the properties handed to the post views.

use vstd::prelude::*;

verus! {

/// A blog entry: an identifier, a title and a body of paragraphs.
#[derive(Clone, Debug, PartialEq, Eq)]
pub struct Post {
    pub id: String,
    pub title: String,
    pub body: Vec<String>,
}

/// The mathematical value of a post.
pub struct PostView {
    pub id: Seq<char>,
    pub title: Seq<char>,
    pub body: Seq<Seq<char>>,
}

/// The characters of each string, in order.
pub open spec fn strings_view(v: Seq<String>) -> Seq<Seq<char>> {
    v.map_values(|s: String| s@)
}

impl View for Post {
    type V = PostView;

    open spec fn view(&self) -> PostView {
        PostView { id: self.id@, title: self.title@, body: strings_view(self.body@) }
    }
}

/// A copy of a list of strings.
pub fn copy_strings(v: &Vec<String>) -> (r: Vec<String>)
    ensures
        strings_view(r@) == strings_view(v@),
{
    let mut r: Vec<String> = Vec::new();
    let mut i: usize = 0;
    while i < v.len()
        invariant
            i <= v.len(),
            strings_view(r@) == strings_view(v@.take(i as int)),
        decreases v.len() - i,
    {
        r.push(v[i].clone());
        i = i + 1;
        assert(strings_view(v@.take(i as int)) =~= strings_view(v@.take(i - 1 as int)).push(
            v@[i - 1]@,
        ));
        assert(strings_view(r@) =~= strings_view(v@.take(i as int)));
    }
    assert(v@.take(i as int) =~= v@);
    r
}

impl Post {
    /// A post made of the given parts.
    pub fn new(id: String, title: String, body: Vec<String>) -> (r: Post)
        ensures
            r.id == id,
            r.title == title,
            r.body == body,
    {
        Post { id, title, body }
    }

    /// A copy of this post, equal to it in every field.
    pub fn duplicate(&self) -> (r: Post)
        ensures
            r@ == self@,
    {
        Post { id: self.id.clone(), title: self.title.clone(), body: copy_strings(&self.body) }
    }
}

/// The properties of the short and full post views.
pub struct PostProps {
    pub post: Post,
}

/// The properties of the page that shows one post.
pub struct ShowProps {
    pub id: String,
}

} // verus!
