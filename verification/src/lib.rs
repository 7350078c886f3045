pub mod errors;
pub mod md;
pub mod paths;
pub mod pipeline;
pub mod post;
pub mod title;

pub use errors::{BuildError, spec_message};
pub use md::{MdEvent, md_events, html_of, minified, render_markdown, minify_page};
pub use paths::{spec_output_path, output_path};
pub use pipeline::{prepare_document, make_post, plan_posts, lemma_build_deterministic};
pub use post::{Document, PageData, Post, PostRegistry};
pub use title::{spec_title, title_scan, extract_title, title_of};
