use blog_client::page::{
    fetch_error, index, show, FetchError, IndexPage, IndexState, Method, ShowPage, ShowState,
};
use blog_client::post::{Post, ShowProps};

const SHELL_OPEN: &str =
    "<main><nav><a href=\"/\">Home</a><a href=\"/post/new\">Write</a></nav><div class=\"layout\">";
const SHELL_CLOSE: &str = "</div></main>";

fn post(id: &str, title: &str, body: &[&str]) -> Post {
    Post::new(id.to_string(), title.to_string(), body.iter().map(|s| s.to_string()).collect())
}

fn in_shell(content: &str) -> String {
    format!("{}{}{}", SHELL_OPEN, content, SHELL_CLOSE)
}

#[test]
fn index_requests_the_post_list() {
    let (page, req) = IndexPage::mount();
    assert!(matches!(page.state, IndexState::Loading));
    assert_eq!(req.method, Method::Get);
    assert_eq!(req.path, "/api/posts");
    assert!(!req.sends_json);
}

#[test]
fn index_shows_loading_until_fetched() {
    let (page, _) = IndexPage::mount();
    assert_eq!(index(&page), in_shell("<h2>Latest Posts</h2>Loading"));
}

#[test]
fn index_renders_two_summaries_in_order() {
    let (mut page, _) = IndexPage::mount();
    page.on_fetched(Some(200), Some(vec![post("1", "A", &["x"]), post("2", "B", &["y"])]));
    let html = index(&page);
    assert_eq!(
        html,
        in_shell(
            "<h2>Latest Posts</h2>\
             <div class=\"post short\"><h3><a href=\"/post/1\">A</a></h3></div>\
             <div class=\"post short\"><h3><a href=\"/post/2\">B</a></h3></div>"
        )
    );
    assert_eq!(html.matches("class=\"post short\"").count(), 2);
    assert!(html.find("href=\"/post/1\"").unwrap() < html.find("href=\"/post/2\"").unwrap());
}

#[test]
fn index_with_no_posts_is_not_loading() {
    let (mut page, _) = IndexPage::mount();
    page.on_fetched(Some(200), Some(vec![]));
    assert_eq!(index(&page), in_shell("<h2>Latest Posts</h2>"));
}

#[test]
fn index_failure_is_shown() {
    let (mut page, _) = IndexPage::mount();
    page.on_fetched(None, None);
    assert!(matches!(page.state, IndexState::Failed(FetchError::Network)));
    assert_eq!(
        index(&page),
        in_shell(
            "<h2>Latest Posts</h2><p class=\"error\">Failed to load: the server could not be reached</p>"
        )
    );
}

#[test]
fn index_decode_failure() {
    let (mut page, _) = IndexPage::mount();
    page.on_fetched(Some(200), None);
    assert!(matches!(page.state, IndexState::Failed(FetchError::Decode)));
    assert_eq!(
        index(&page),
        in_shell("<h2>Latest Posts</h2><p class=\"error\">Failed to load: the response could not be read</p>")
    );
}

#[test]
fn index_ignores_late_outcome() {
    let (mut page, _) = IndexPage::mount();
    page.on_fetched(Some(200), Some(vec![post("1", "A", &["x"])]));
    page.on_fetched(None, None);
    match &page.state {
        IndexState::Loaded(v) => assert_eq!(v, &vec![post("1", "A", &["x"])]),
        _ => panic!("expected the loaded posts"),
    }
}

#[test]
fn show_requests_its_post() {
    let (page, req) = ShowPage::mount(&ShowProps { id: "42".to_string() });
    assert_eq!(page.id, "42");
    assert!(matches!(page.state, ShowState::Loading));
    assert_eq!(req.method, Method::Get);
    assert_eq!(req.path, "/api/posts/42");
    assert!(!req.sends_json);
}

#[test]
fn show_renders_title_and_paragraphs() {
    let (mut page, _) = ShowPage::mount(&ShowProps { id: "42".to_string() });
    assert_eq!(show(&page), in_shell("Loading"));
    page.on_fetched(Some(200), Some(post("42", "T", &["p1", "p2"])));
    let html = show(&page);
    assert_eq!(
        html,
        in_shell(
            "<div class=\"post full\"><h3>T</h3><div class=\"post-body\"><p>p1</p><p>p2</p></div></div>"
        )
    );
    assert!(html.find("<p>p1</p>").unwrap() < html.find("<p>p2</p>").unwrap());
}

#[test]
fn show_missing_post() {
    let (mut page, _) = ShowPage::mount(&ShowProps { id: "7".to_string() });
    page.on_fetched(Some(404), None);
    assert!(matches!(page.state, ShowState::Failed(FetchError::NotFound)));
    assert_eq!(show(&page), in_shell("<p class=\"error\">Failed to load: no such post</p>"));
}

#[test]
fn rendering_twice_gives_the_same_markup() {
    let (mut list, _) = IndexPage::mount();
    list.on_fetched(Some(200), Some(vec![post("1", "A", &["x"]), post("2", "B", &["y"])]));
    assert_eq!(index(&list), index(&list));
    let (mut one, _) = ShowPage::mount(&ShowProps { id: "42".to_string() });
    one.on_fetched(Some(200), Some(post("42", "T", &["p1", "p2"])));
    assert_eq!(show(&one), show(&one));
}

#[test]
fn fetch_errors_are_classified() {
    assert_eq!(fetch_error(None, false, true), Some(FetchError::Network));
    assert_eq!(fetch_error(Some(404), false, true), Some(FetchError::NotFound));
    assert_eq!(fetch_error(Some(404), false, false), Some(FetchError::Network));
    assert_eq!(fetch_error(Some(500), true, true), Some(FetchError::Network));
    assert_eq!(fetch_error(Some(199), true, false), Some(FetchError::Network));
    assert_eq!(fetch_error(Some(200), false, false), Some(FetchError::Decode));
    assert_eq!(fetch_error(Some(201), true, false), None);
    assert_eq!(fetch_error(Some(299), true, true), None);
    assert_eq!(fetch_error(Some(300), true, true), Some(FetchError::Network));
}
