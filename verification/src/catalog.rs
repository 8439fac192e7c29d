use vstd::prelude::*;

verus! {

/// A thread as listed in a board's catalog.
pub struct CatalogThread {
    pub id: u32,
    pub title: String,
    pub pinned: bool,
}

/// A post as shown in a catalog.
pub struct PostOutput {
    pub id: u32,
    pub show_username: bool,
    pub message: String,
    pub country_code: Option<String>,
    pub hidden: bool,
}

/// One entry of a board's catalog: the thread, its opening post and how
/// many replies follow it.
pub struct ThreadCatalogOutput {
    pub title: String,
    pub pinned: bool,
    pub op_post: PostOutput,
    pub replies: usize,
}

/// The view of an optional string.
pub open spec fn opt_text(s: Option<String>) -> Option<Seq<char>> {
    match s {
        Some(t) => Some(t@),
        None => None,
    }
}

/// Whether `b` is a copy of post `a`.
pub open spec fn same_post(a: PostOutput, b: PostOutput) -> bool {
    &&& a.id == b.id
    &&& a.show_username == b.show_username
    &&& a.message@ == b.message@
    &&& opt_text(a.country_code) == opt_text(b.country_code)
    &&& a.hidden == b.hidden
}

fn copy_post(p: &PostOutput) -> (r: PostOutput)
    ensures
        same_post(*p, r),
{
    let country_code = match &p.country_code {
        Some(c) => Some(c.clone()),
        None => None,
    };
    PostOutput {
        id: p.id,
        show_username: p.show_username,
        message: p.message.clone(),
        country_code,
        hidden: p.hidden,
    }
}

/// The catalog of a board from its threads and, for each thread in the
/// same order, its posts oldest first: the first post opens the thread.
pub fn build_catalog(threads: &Vec<CatalogThread>, posts: &Vec<Vec<PostOutput>>) -> (r: Vec<ThreadCatalogOutput>)
    requires
        threads.len() == posts.len(),
        forall|i: int| 0 <= i < posts.len() ==> (#[trigger] posts@[i])@.len() > 0,
    ensures
        r@.len() == threads@.len(),
        forall|i: int| 0 <= i < r@.len() ==> {
            &&& (#[trigger] r@[i]).title@ == threads@[i].title@
            &&& r@[i].pinned == threads@[i].pinned
            &&& same_post(posts@[i]@[0], r@[i].op_post)
            &&& r@[i].replies == posts@[i]@.len() - 1
        },
{
    let mut out: Vec<ThreadCatalogOutput> = Vec::new();
    let mut i: usize = 0;
    while i < threads.len()
        invariant
            i <= threads@.len() == posts@.len(),
            forall|k: int| 0 <= k < posts.len() ==> (#[trigger] posts@[k])@.len() > 0,
            out@.len() == i,
            forall|k: int| 0 <= k < i ==> {
                &&& (#[trigger] out@[k]).title@ == threads@[k].title@
                &&& out@[k].pinned == threads@[k].pinned
                &&& same_post(posts@[k]@[0], out@[k].op_post)
                &&& out@[k].replies == posts@[k]@.len() - 1
            },
        decreases threads@.len() - i,
    {
        let group = &posts[i];
        assert(group@.len() > 0);
        let entry = ThreadCatalogOutput {
            title: threads[i].title.clone(),
            pinned: threads[i].pinned,
            op_post: copy_post(&group[0]),
            replies: group.len() - 1,
        };
        out.push(entry);
        i = i + 1;
    }
    out
}

} // verus!
