use vstd::prelude::*;

verus! {

/// One discovered source document, as the filesystem layer hands it over:
/// its `/`-separated path, its full Markdown text, and the file's creation
/// time in seconds since the Unix epoch.
pub struct Document {
    pub path: String,
    pub source: String,
    pub created_time: u64,
}

/// Everything one document contributes to the site: the values bound into
/// the page template, and the output path the rendered page is written to.
pub struct PageData {
    pub title: String,
    pub contents: String,
    pub created_time: u64,
    pub output_path: String,
}

/// One published document, as the site index sees it: the first level-1
/// heading's text, the output path of the rendered page, and the source
/// file's creation time in seconds since the Unix epoch.
pub struct Post {
    pub title: String,
    pub url: String,
    pub created_time: u64,
}

/// The ordered, append-only collection of published documents, in discovery
/// order; its contents become the index page's render context.
pub struct PostRegistry {
    posts: Vec<Post>,
}

impl View for PostRegistry {
    type V = Seq<Post>;

    closed spec fn view(&self) -> Seq<Post> {
        self.posts@
    }
}

impl PostRegistry {
    /// An empty registry, holding no published document.
    pub fn new() -> (r: Self)
        ensures
            r@ == Seq::<Post>::empty(),
    {
        PostRegistry { posts: Vec::new() }
    }

    /// Appends the post for one prepared document: every earlier entry
    /// stays where it is, and the new entry carries the page's title,
    /// output path and creation time.
    pub fn record_page(&mut self, page: &PageData)
        ensures
            final(self)@.len() == old(self)@.len() + 1,
            forall|i: int| 0 <= i < old(self)@.len() ==> final(self)@[i] == old(self)@[i],
            final(self)@.last().title@ == page.title@,
            final(self)@.last().url@ == page.output_path@,
            final(self)@.last().created_time == page.created_time,
    {
        let post = Post {
            title: page.title.clone(),
            url: page.output_path.clone(),
            created_time: page.created_time,
        };
        self.posts.push(post);
    }

    /// How many documents have been published so far.
    pub fn len(&self) -> (n: usize)
        ensures
            n == self@.len(),
    {
        self.posts.len()
    }

    /// The post at one position of the discovery order.
    pub fn get(&self, i: usize) -> (post: &Post)
        requires
            i < self@.len(),
        ensures
            *post == self@[i as int],
    {
        &self.posts[i]
    }

    /// All posts, in discovery order, for the index page's render context.
    pub fn entries(&self) -> (posts: &Vec<Post>)
        ensures
            posts@ == self@,
    {
        &self.posts
    }
}

} // verus!
