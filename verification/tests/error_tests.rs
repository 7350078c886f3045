use sitegen::BuildError;

#[test]
fn io_error_message_names_stage_and_cause() {
    let e = BuildError::IoError("blog/a/post.md".to_string());
    assert_eq!(e.message(), "unable to read or write file: blog/a/post.md");
}

#[test]
fn template_error_message_names_template() {
    let e = BuildError::TemplateError {
        name: "blog.html".to_string(),
        cause: "missing variable".to_string(),
    };
    assert_eq!(e.message(), "unable to render template blog.html: missing variable");
}

#[test]
fn metadata_error_message() {
    let e = BuildError::MetadataError("blog/a/post.md".to_string());
    assert_eq!(e.message(), "unable to read creation time: blog/a/post.md");
}

#[test]
fn discovery_error_message() {
    let e = BuildError::DiscoveryError("bad pattern".to_string());
    assert_eq!(e.message(), "unable to enumerate documents: bad pattern");
}
