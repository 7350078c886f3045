use vstd::prelude::*;

verus! {

/// A Markdown structural event, reduced to what the build reads: level-1
/// heading boundaries and text runs. Every other event the parser yields
/// is `Other`.
#[derive(Debug)]
pub enum MdEvent {
    HeadingStart(u32),
    Text(String),
    HeadingEnd(u32),
    Other,
}

/// The event stream that a default (non-extended) Markdown parse of a source
/// text yields, reduced to `MdEvent`; a pure function of the source text.
pub uninterp spec fn md_events(source: Seq<char>) -> Seq<MdEvent>;

/// The HTML fragment that rendering a Markdown source with the strikethrough
/// extension enabled yields; a pure function of the source text.
pub uninterp spec fn html_of(source: Seq<char>) -> Seq<char>;

/// The whitespace-compacted form of an HTML text; a pure function of it.
pub uninterp spec fn minified(html: Seq<char>) -> Seq<char>;

/// Relies on pulldown_cmark::Parser::new: the default parse is a pure
/// function of the source text; each event is reduced to an `MdEvent`,
/// heading levels and text runs kept as they came.
#[verifier::external_body]
pub(crate) fn parse_events(source: &str) -> (events: Vec<MdEvent>)
    ensures
        events@ == md_events(source@),
{
    pulldown_cmark::Parser::new(source)
        .map(|ev| match ev {
            pulldown_cmark::Event::Start(pulldown_cmark::Tag::Heading(level)) => {
                MdEvent::HeadingStart(level)
            },
            pulldown_cmark::Event::End(pulldown_cmark::Tag::Heading(level)) => {
                MdEvent::HeadingEnd(level)
            },
            pulldown_cmark::Event::Text(text) => MdEvent::Text(text.to_string()),
            _ => MdEvent::Other,
        })
        .collect()
}

/// Relies on pulldown_cmark::html::push_html over Parser::new_ext with
/// ENABLE_STRIKETHROUGH: the HTML fragment is a pure function of the source.
#[verifier::external_body]
fn push_markdown_html(source: &str) -> (html: String)
    ensures
        html@ == html_of(source@),
{
    let mut options = pulldown_cmark::Options::empty();
    options.insert(pulldown_cmark::Options::ENABLE_STRIKETHROUGH);
    let mut html = String::new();
    pulldown_cmark::html::push_html(&mut html, pulldown_cmark::Parser::new_ext(source, options));
    html
}

/// Relies on minify::html::minify: whitespace compaction is a pure function
/// of the HTML text, and it never fails.
#[verifier::external_body]
fn minify_call(html: &str) -> (r: String)
    ensures
        r@ == minified(html@),
{
    minify::html::minify(html)
}

/// Renders a full Markdown source to its HTML fragment, with the
/// strikethrough extension enabled.
pub fn render_markdown(source: &str) -> (html: String)
    ensures
        html@ == html_of(source@),
{
    push_markdown_html(source)
}

/// Compacts a rendered HTML page before it is persisted.
pub fn minify_page(html: &str) -> (r: String)
    ensures
        r@ == minified(html@),
{
    minify_call(html)
}

} // verus!
