use sitegen::{
    minify_page, plan_posts, prepare_document, render_markdown, Document, PostRegistry,
};

fn two_posts() -> Vec<Document> {
    vec![
        Document {
            path: "blog/a/post.md".to_string(),
            source: "# Hello\n\nWorld\n".to_string(),
            created_time: 100,
        },
        Document {
            path: "blog/b/post.md".to_string(),
            source: "# Goodbye\n\nMoon\n".to_string(),
            created_time: 200,
        },
    ]
}

#[test]
fn plan_posts_keeps_discovery_order() {
    let docs = two_posts();
    let posts = plan_posts(&docs);
    assert_eq!(posts.len(), 2);
    assert_eq!(posts[0].title, "Hello");
    assert_eq!(posts[0].url, "blog/a/index.html");
    assert_eq!(posts[0].created_time, 100);
    assert_eq!(posts[1].title, "Goodbye");
    assert_eq!(posts[1].url, "blog/b/index.html");
    assert_eq!(posts[1].created_time, 200);
}

#[test]
fn registry_appends_in_order() {
    let docs = two_posts();
    let mut registry = PostRegistry::new();
    assert_eq!(registry.len(), 0);
    for doc in &docs {
        let page = prepare_document(doc);
        registry.record_page(&page);
    }
    assert_eq!(registry.len(), 2);
    assert_eq!(registry.get(0).title, "Hello");
    assert_eq!(registry.get(1).title, "Goodbye");
    let entries = registry.entries();
    assert_eq!(entries[0].url, "blog/a/index.html");
    assert_eq!(entries[1].url, "blog/b/index.html");
    assert_eq!(entries[0].created_time, 100);
    assert_eq!(entries[1].created_time, 200);
}

#[test]
fn prepare_document_fills_every_field() {
    let docs = two_posts();
    let page = prepare_document(&docs[0]);
    assert_eq!(page.title, "Hello");
    assert!(page.contents.contains("<h1>Hello</h1>"));
    assert!(page.contents.contains("<p>World</p>"));
    assert_eq!(page.output_path, "blog/a/index.html");
    assert_eq!(page.created_time, 100);
}

#[test]
fn render_markdown_produces_html_fragment() {
    let html = render_markdown("# Hello\n\nWorld\n");
    assert!(html.contains("<h1>Hello</h1>"));
    assert!(html.contains("<p>World</p>"));
}

#[test]
fn render_markdown_enables_strikethrough() {
    let html = render_markdown("~~gone~~\n");
    assert!(html.contains("<del>gone</del>"));
}

#[test]
fn minify_page_compacts_whitespace() {
    let html = "<html>\n    <body>\n        <p>World</p>\n    </body>\n</html>\n";
    let compact = minify_page(html);
    assert_ne!(compact, html);
    assert!(compact.len() < html.len());
    assert!(compact.contains("World"));
}

#[test]
fn build_twice_is_byte_identical() {
    let docs = two_posts();
    let first_pages: Vec<_> = docs.iter().map(prepare_document).collect();
    let second_pages: Vec<_> = docs.iter().map(prepare_document).collect();
    for (a, b) in first_pages.iter().zip(second_pages.iter()) {
        assert_eq!(a.title, b.title);
        assert_eq!(a.contents, b.contents);
        assert_eq!(a.output_path, b.output_path);
        assert_eq!(a.created_time, b.created_time);
        assert_eq!(minify_page(&a.contents), minify_page(&b.contents));
    }
    let first_posts = plan_posts(&docs);
    let second_posts = plan_posts(&docs);
    for (a, b) in first_posts.iter().zip(second_posts.iter()) {
        assert_eq!(a.title, b.title);
        assert_eq!(a.url, b.url);
        assert_eq!(a.created_time, b.created_time);
    }
}
