use vstd::prelude::*;
use crate::md::{md_events, html_of, minified, render_markdown};
use crate::paths::{spec_output_path, output_path};
use crate::post::{Document, PageData, Post};
use crate::title::{spec_title, title_of};

verus! {

/// Runs the per-document stage of the build on one discovered document:
/// the title is read off a default parse of the source, the body is
/// rendered from an extended parse of the same source, and the output path
/// replaces the source's filename with the fixed index filename.
pub fn prepare_document(doc: &Document) -> (page: PageData)
    ensures
        page.title@ == spec_title(md_events(doc.source@)),
        page.contents@ == html_of(doc.source@),
        page.output_path@ == spec_output_path(doc.path@),
        page.created_time == doc.created_time,
{
    PageData {
        title: title_of(doc.source.as_str()),
        contents: render_markdown(doc.source.as_str()),
        output_path: output_path(doc.path.as_str()),
        created_time: doc.created_time,
    }
}

/// The index entry for one discovered document: its title, the output path
/// of its rendered page, and its creation time.
pub fn make_post(doc: &Document) -> (post: Post)
    ensures
        post.title@ == spec_title(md_events(doc.source@)),
        post.url@ == spec_output_path(doc.path@),
        post.created_time == doc.created_time,
{
    Post {
        title: title_of(doc.source.as_str()),
        url: output_path(doc.path.as_str()),
        created_time: doc.created_time,
    }
}

/// Builds the whole post registry for a discovery run: exactly one post per
/// discovered document, in discovery order — never sorted by time or title
/// — each carrying that document's title, output path and creation time.
pub fn plan_posts(docs: &Vec<Document>) -> (posts: Vec<Post>)
    ensures
        posts@.len() == docs@.len(),
        forall|i: int| 0 <= i < docs@.len() ==> {
            &&& (#[trigger] posts@[i]).title@ == spec_title(md_events(docs@[i].source@))
            &&& posts@[i].url@ == spec_output_path(docs@[i].path@)
            &&& posts@[i].created_time == docs@[i].created_time
        },
{
    let mut posts: Vec<Post> = Vec::new();
    let mut i: usize = 0;
    while i < docs.len()
        invariant
            i <= docs@.len(),
            posts@.len() == i,
            forall|j: int| 0 <= j < i ==> {
                &&& (#[trigger] posts@[j]).title@ == spec_title(md_events(docs@[j].source@))
                &&& posts@[j].url@ == spec_output_path(docs@[j].path@)
                &&& posts@[j].created_time == docs@[j].created_time
            },
        decreases docs@.len() - i,
    {
        let post = make_post(&docs[i]);
        posts.push(post);
        i = i + 1;
    }
    posts
}

/// The build is deterministic on its inputs: two documents with the same
/// path, the same source text and the same creation time yield the same
/// title, the same rendered and compacted body, and the same output path —
/// so an unchanged input builds to byte-identical pages.
pub proof fn lemma_build_deterministic(d1: Document, d2: Document)
    requires
        d1.path@ == d2.path@,
        d1.source@ == d2.source@,
        d1.created_time == d2.created_time,
    ensures
        spec_title(md_events(d1.source@)) == spec_title(md_events(d2.source@)),
        html_of(d1.source@) == html_of(d2.source@),
        minified(html_of(d1.source@)) == minified(html_of(d2.source@)),
        spec_output_path(d1.path@) == spec_output_path(d2.path@),
{
}

} // verus!
