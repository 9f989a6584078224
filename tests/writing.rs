use blog_client::create::{after_create, create, split_lines, CreateForm};
use blog_client::page::{FetchError, Method};
use blog_client::post::Post;
use blog_client::route::{recognize, Route};
use blog_client::screen::{app, switch, Page};

fn strings(v: &[&str]) -> Vec<String> {
    v.iter().map(|s| s.to_string()).collect()
}

fn is_hyphenated_uuid(s: &str) -> bool {
    s.len() == 36
        && s.chars().enumerate().all(|(i, c)| {
            if [8, 13, 18, 23].contains(&i) {
                c == '-'
            } else {
                c.is_ascii_hexdigit() && !c.is_ascii_uppercase()
            }
        })
}

#[test]
fn split_lines_on_newlines() {
    assert_eq!(split_lines("line1\nline2"), strings(&["line1", "line2"]));
    assert_eq!(split_lines(""), strings(&[""]));
    assert_eq!(split_lines("a\n"), strings(&["a", ""]));
    assert_eq!(split_lines("\n\nb"), strings(&["", "", "b"]));
    assert_eq!(split_lines("no newline"), strings(&["no newline"]));
}

#[test]
fn form_edits_fields() {
    let mut form = CreateForm::new();
    assert_eq!(form.title, "");
    assert_eq!(form.body, "");
    form.set_title("Hello".to_string());
    form.set_body("line1\nline2".to_string());
    assert_eq!(form.title, "Hello");
    assert_eq!(form.body, "line1\nline2");
}

#[test]
fn compose_uses_given_id() {
    let mut form = CreateForm::new();
    form.set_title("Hello".to_string());
    form.set_body("line1\nline2".to_string());
    let p = form.compose("abc".to_string());
    assert_eq!(p, Post::new("abc".to_string(), "Hello".to_string(), strings(&["line1", "line2"])));
}

#[test]
fn submit_builds_the_post_and_request() {
    let mut form = CreateForm::new();
    form.set_title("Hello".to_string());
    form.set_body("line1\nline2".to_string());
    let (post, req) = form.submit();
    assert_eq!(post.title, "Hello");
    assert_eq!(post.body, strings(&["line1", "line2"]));
    assert!(is_hyphenated_uuid(&post.id), "id {:?}", post.id);
    assert_eq!(post.id.chars().nth(14), Some('4'));
    assert_eq!(req.method, Method::Post);
    assert_eq!(req.path, "/api/posts");
    assert!(req.sends_json);
    let (again, _) = form.submit();
    assert_ne!(again.id, post.id);
}

#[test]
fn empty_form_is_submitted_as_is() {
    let form = CreateForm::new();
    let (post, _) = form.submit();
    assert_eq!(post.title, "");
    assert_eq!(post.body, strings(&[""]));
}

#[test]
fn echo_navigates_to_returned_post() {
    let echoed = Post::new("srv-9".to_string(), "Hello".to_string(), strings(&["line1", "line2"]));
    let route = after_create(Some(201), Some(echoed)).unwrap();
    assert_eq!(route, Route::Show { id: "srv-9".to_string() });
    assert_eq!(route.to_path(), "/post/srv-9");
}

#[test]
fn submitted_id_routes_back() {
    let mut form = CreateForm::new();
    form.set_title("Hello".to_string());
    form.set_body("line1\nline2".to_string());
    let (post, _) = form.submit();
    let id = post.id.clone();
    let route = after_create(Some(200), Some(post)).unwrap();
    assert_eq!(route.to_path(), format!("/post/{}", id));
    assert_eq!(recognize(&route.to_path()), Route::Show { id });
}

#[test]
fn failed_submission_does_not_navigate() {
    assert_eq!(after_create(None, None), Err(FetchError::Network));
    assert_eq!(after_create(Some(500), None), Err(FetchError::Network));
    assert_eq!(after_create(Some(200), None), Err(FetchError::Decode));
}

#[test]
fn create_page_markup() {
    assert_eq!(
        create(),
        "<main><nav><a href=\"/\">Home</a><a href=\"/post/new\">Write</a></nav><div class=\"layout\">\
         <h2>New post</h2><form><div class=\"input\"><span class=\"label\">Title</span><input type=\"text\"></div>\
         <div class=\"input\"><span class=\"label\">Body</span><textarea rows=\"10\"></textarea></div>\
         <div class=\"input\"><button>Submit</button></div></form></div></main>"
    );
}

#[test]
fn switch_mounts_pages() {
    match switch(&Route::Index) {
        (Page::Index(_), Some(q)) => assert_eq!(q.path, "/api/posts"),
        _ => panic!("expected the list page"),
    }
    match switch(&Route::Show { id: "5".to_string() }) {
        (Page::Show(p), Some(q)) => {
            assert_eq!(p.id, "5");
            assert_eq!(q.path, "/api/posts/5");
        }
        _ => panic!("expected the post page"),
    }
    assert!(matches!(switch(&Route::Create), (Page::Create(_), None)));
    assert!(matches!(switch(&Route::NotFound), (Page::NotFound, None)));
}

#[test]
fn app_renders_the_current_path() {
    let (page, req) = app("/nowhere");
    assert!(req.is_none());
    assert_eq!(page.render(), "<h1>404</h1>");
    let (page, _) = app("/post/new");
    assert_eq!(page.render(), create());
    let (page, req) = app("/post/12");
    assert_eq!(req.unwrap().path, "/api/posts/12");
    assert!(page.render().ends_with("<div class=\"layout\">Loading</div></main>"));
}

#[test]
fn lines_rejoin_to_the_text() {
    for text in ["", "a", "line1\nline2", "\n", "a\n\nb\n", "x\ny\nz"] {
        let lines = split_lines(text);
        assert_eq!(lines.join("\n"), text);
        assert!(lines.iter().all(|l| !l.contains('\n')));
    }
}
