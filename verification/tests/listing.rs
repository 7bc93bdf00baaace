use fokus_editor::error::StoreError;
use fokus_editor::instant::Timestamp;
use fokus_editor::listing::{is_document, list_articles, slug_from_path, ArticleListItem, Scanned};
use fokus_editor::settings::AppSettings;

fn configured() -> AppSettings {
    AppSettings {
        repository_path: "/srv/blog".to_string(),
        articles_path: "posts".to_string(),
        is_configured: true,
    }
}

fn document(title: &str, stamp: &str) -> String {
    format!("---\ntitle: {}\npubDatetime: {}\n---\n\nBody of {}", title, stamp, title)
}

fn file(path: &str, text: String) -> Scanned {
    Scanned::File { path: path.to_string(), content: Ok(text) }
}

fn slugs(listing: &[ArticleListItem]) -> Vec<&str> {
    listing.iter().map(|item| item.slug.as_str()).collect()
}

#[test]
fn a_document_is_known_by_its_extension() {
    assert!(is_document("/srv/blog/posts/hello.mdx"));
    assert!(is_document("hello.world.mdx"));
    assert!(!is_document("/srv/blog/posts/hello.md"));
    assert!(!is_document("/srv/blog/posts/hello.MDX"));
    assert!(!is_document("/srv/blog/posts/mdx"));
    assert!(!is_document("/srv/blog/posts/.mdx"));
    assert!(!is_document("/srv/blog/posts"));
    assert!(!is_document(""));
}

#[test]
fn the_slug_is_the_stem_of_the_file_name() {
    assert_eq!(slug_from_path("/srv/blog/posts/hello.mdx"), "hello");
    assert_eq!(slug_from_path("hello-world.mdx"), "hello-world");
    assert_eq!(slug_from_path("/srv/blog/posts/2024.notes.mdx"), "2024.notes");
    assert_eq!(slug_from_path(""), "");
    assert_eq!(slug_from_path("/"), "");
}

#[test]
fn a_directory_that_does_not_exist_lists_nothing() {
    assert!(list_articles(&configured(), None).unwrap().is_empty());
}

#[test]
fn an_empty_directory_lists_nothing() {
    assert!(list_articles(&configured(), Some(vec![])).unwrap().is_empty());
}

#[test]
fn a_listing_shows_what_the_header_says() {
    let text = "---\ntitle: Shown\npubDatetime: 2024-05-01T09:30:00Z\nfeatured: true\ndraft: false\ntags: [a, b]\n---\nBody";
    let listing = list_articles(&configured(), Some(vec![file("/srv/blog/posts/shown.mdx", text.to_string())])).unwrap();
    assert_eq!(listing.len(), 1);
    assert_eq!(listing[0].slug, "shown");
    assert_eq!(listing[0].title, "Shown");
    assert_eq!(listing[0].pub_datetime, Timestamp { secs: 1714555800, nanos: 0 });
    assert!(listing[0].featured);
    assert!(!listing[0].draft);
    assert_eq!(listing[0].tags, vec!["a".to_string(), "b".to_string()]);
}

#[test]
fn a_malformed_file_is_passed_over() {
    let scan = vec![
        file("/srv/blog/posts/good.mdx", document("Good", "2024-01-01T00:00:00Z")),
        file("/srv/blog/posts/bad.mdx", "no header at all".to_string()),
        file("/srv/blog/posts/worse.mdx", "---\ntitle: No date\n---\nBody".to_string()),
    ];
    let listing = list_articles(&configured(), Some(scan)).unwrap();
    assert_eq!(slugs(&listing), vec!["good"]);
}

#[test]
fn files_that_hold_no_article_are_passed_over() {
    let scan = vec![
        Scanned::File { path: "/srv/blog/posts".to_string(), content: Err("is a directory".to_string()) },
        file("/srv/blog/posts/notes.txt", document("Notes", "2024-01-01T00:00:00Z")),
        file("/srv/blog/posts/post.mdx", document("Post", "2024-01-01T00:00:00Z")),
        file("/srv/blog/posts/README.md", "read me".to_string()),
    ];
    let listing = list_articles(&configured(), Some(scan)).unwrap();
    assert_eq!(slugs(&listing), vec!["post"]);
}

#[test]
fn articles_are_listed_from_the_newest_to_the_oldest() {
    let january = || file("/p/january.mdx", document("January", "2024-01-01T00:00:00Z"));
    let february = || file("/p/february.mdx", document("February", "2024-02-01T00:00:00Z"));
    let march = || file("/p/march.mdx", document("March", "2024-03-01T00:00:00Z"));
    let orders: Vec<Vec<Scanned>> = vec![
        vec![january(), february(), march()],
        vec![january(), march(), february()],
        vec![february(), january(), march()],
        vec![february(), march(), january()],
        vec![march(), january(), february()],
        vec![march(), february(), january()],
    ];
    for scan in orders {
        let listing = list_articles(&configured(), Some(scan)).unwrap();
        assert_eq!(slugs(&listing), vec!["march", "february", "january"]);
        assert!(listing[1].pub_datetime < listing[0].pub_datetime);
        assert!(listing[2].pub_datetime < listing[1].pub_datetime);
    }
}

#[test]
fn articles_of_one_time_keep_the_order_in_which_they_were_found() {
    let scan = vec![
        file("/p/b.mdx", document("B", "2024-01-01T00:00:00Z")),
        file("/p/old.mdx", document("Old", "2023-12-31T23:59:59Z")),
        file("/p/a.mdx", document("A", "2024-01-01T00:00:00Z")),
        file("/p/new.mdx", document("New", "2024-01-01T00:00:00.001Z")),
        file("/p/c.mdx", document("C", "2024-01-01T09:00:00+09:00")),
    ];
    let listing = list_articles(&configured(), Some(scan)).unwrap();
    assert_eq!(slugs(&listing), vec!["new", "b", "a", "c", "old"]);
}

#[test]
fn an_entry_that_could_not_be_read_ends_the_listing() {
    let scan = vec![
        file("/p/good.mdx", document("Good", "2024-01-01T00:00:00Z")),
        Scanned::Failed("first failure".to_string()),
        Scanned::Failed("second failure".to_string()),
    ];
    match list_articles(&configured(), Some(scan)) {
        Err(StoreError::IoFailure { detail }) => assert_eq!(detail, "first failure"),
        other => panic!("unexpected: {:?}", other),
    }
}

#[test]
fn a_document_that_could_not_be_read_ends_the_listing() {
    let scan = vec![
        Scanned::File { path: "/p/locked.mdx".to_string(), content: Err("permission denied".to_string()) },
        file("/p/good.mdx", document("Good", "2024-01-01T00:00:00Z")),
    ];
    match list_articles(&configured(), Some(scan)) {
        Err(StoreError::IoFailure { detail }) => assert_eq!(detail, "permission denied"),
        other => panic!("unexpected: {:?}", other),
    }
}
