//! Walking one feed, page by page.
//!
//! A `Paginator` says which page to ask for next and takes the page that came
//! back. The caller makes the requests, one after the other: each depends on
//! the page before it.

use crate::errors::DownloadErr;
use crate::post::{Post, Posts};
use crate::text::{decimal, decimal_string};
use vstd::prelude::*;
use vstd::string::*;

verus! {

/// The size of a page of a feed that is walked to its end.
pub const FULL_PAGE: isize = 100;

/// A request for one page of a feed.
#[derive(Debug, PartialEq)]
pub struct PageRequest {
    /// How many posts the page should hold.
    pub page_size: isize,
    /// Where the page starts: what the page before it gave as its last id, in
    /// decimal; empty for the first page.
    pub from: String,
}

impl PageRequest {
    /// The parameters of the request: the size of the page under `pageSize`,
    /// in decimal, and the start under `from`.
    pub open spec fn query_text(&self) -> Seq<(Seq<char>, Seq<char>)> {
        seq![("pageSize"@, decimal(self.page_size as int)), ("from"@, self.from@)]
    }

    /// Writes the parameters of the request, each with its name.
    pub fn query(&self) -> (r: Vec<(String, String)>)
        ensures
            r@.len() == 2,
            r@.map_values(|p: (String, String)| (p.0@, p.1@)) == self.query_text(),
    {
        let mut r: Vec<(String, String)> = Vec::new();
        r.push((String::from_str("pageSize"), decimal_string(self.page_size as i64)));
        r.push((String::from_str("from"), self.from.clone()));
        assert(r@.map_values(|p: (String, String)| (p.0@, p.1@)) =~= self.query_text());
        r
    }
}

/// The walk of one feed.
pub struct Paginator {
    recent: Option<isize>,
    from: String,
    posts: Vec<Post>,
    finished: bool,
}

/// A walk as the contracts see it.
pub struct PaginatorView {
    /// How many of the most recent posts are wanted; all where `None`.
    pub recent: Option<int>,
    /// Where the next page starts.
    pub cursor: Seq<char>,
    /// The posts gathered so far, in the order the feed gave them.
    pub posts: Seq<Post>,
    /// No further page will be asked for.
    pub finished: bool,
}

/// The limit of a feed as an integer.
pub open spec fn limit_of(recent: Option<isize>) -> Option<int> {
    match recent {
        Some(v) => Some(v as int),
        None => None,
    }
}

impl PaginatorView {
    /// A walk before its first page. A feed of which nothing is wanted is
    /// finished at once.
    pub open spec fn start(recent: Option<int>) -> PaginatorView {
        PaginatorView {
            recent,
            cursor: Seq::empty(),
            posts: Seq::empty(),
            finished: recent.is_some() && recent.unwrap() <= 0,
        }
    }

    /// The size of the next page: a full page where all posts are wanted,
    /// else what is still missing, and at least one.
    pub open spec fn page_size(self) -> int {
        match self.recent {
            None => FULL_PAGE as int,
            Some(n) => if n - self.posts.len() >= 1 {
                n - self.posts.len()
            } else {
                1
            },
        }
    }

    /// With the posts of `page` gathered, the wanted number is reached.
    pub open spec fn filled_by(self, page: Posts) -> bool {
        self.recent.is_some() && self.recent.unwrap() - (self.posts.len() + page.posts@.len())
            <= 0
    }

    /// The page can be taken: it is not one that asks for a further page
    /// without saying where that page starts.
    pub open spec fn accepts(self, page: Posts) -> bool {
        self.finished || page.is_ended || self.filled_by(page) || page.last_id.is_some()
    }

    /// The walk after `page` was taken. The posts of the page follow those
    /// gathered before. The walk is finished if the page is the last of the
    /// feed or fills what was wanted; else the next page starts where this
    /// one says.
    pub open spec fn after(self, page: Posts) -> PaginatorView {
        if self.finished {
            self
        } else if page.is_ended || self.filled_by(page) {
            PaginatorView { posts: self.posts + page.posts@, finished: true, ..self }
        } else {
            PaginatorView {
                posts: self.posts + page.posts@,
                cursor: match page.last_id {
                    Some(id) => decimal(id as int),
                    None => self.cursor,
                },
                ..self
            }
        }
    }
}

impl View for Paginator {
    type V = PaginatorView;

    closed spec fn view(&self) -> PaginatorView {
        PaginatorView {
            recent: limit_of(self.recent),
            cursor: self.from@,
            posts: self.posts@,
            finished: self.finished,
        }
    }
}

impl Paginator {
    /// Starts the walk of a feed of which the `recent` most recent posts are
    /// wanted, or all of them.
    pub fn new(recent: Option<isize>) -> (p: Paginator)
        ensures
            p@ == PaginatorView::start(limit_of(recent)),
    {
        let finished = match recent {
            Some(v) => v <= 0,
            None => false,
        };
        Paginator { recent, from: String::new(), posts: Vec::new(), finished }
    }

    /// Tells whether the walk is over.
    pub fn is_finished(&self) -> (r: bool)
        ensures
            r == self@.finished,
    {
        self.finished
    }

    /// How many posts were gathered so far.
    pub fn count(&self) -> (r: usize)
        ensures
            r == self@.posts.len(),
    {
        self.posts.len()
    }

    /// The page to ask for next; `None` once the walk is over.
    pub fn next_request(&self) -> (r: Option<PageRequest>)
        ensures
            r.is_none() <==> self@.finished,
            r.is_some() ==> r.unwrap().page_size == self@.page_size() && r.unwrap().from@
                == self@.cursor,
    {
        if self.finished {
            return None;
        }
        let count = self.posts.len();
        let page_size: isize = match self.recent {
            None => FULL_PAGE,
            Some(v) => {
                if v >= 1 && count < v as usize {
                    v - count as isize
                } else {
                    1
                }
            },
        };
        Some(PageRequest { page_size, from: self.from.clone() })
    }

    /// Takes the page that came back for the last request. Fails with
    /// `LastIdErr`, and with nothing else, on a page that asks for a further
    /// page without saying where it starts.
    pub fn accept(self, page: Posts) -> (r: Result<Paginator, DownloadErr>)
        ensures
            match r {
                Ok(p) => self@.accepts(page) && p@ == self@.after(page),
                Err(e) => !self@.accepts(page) && e == DownloadErr::LastIdErr,
            },
    {
        if self.finished {
            return Ok(self);
        }
        let mut page = page;
        let mut next = self;
        let ghost before = next@;
        let ghost given = page;
        next.posts.append(&mut page.posts);
        let count = next.posts.len();
        let filled = match next.recent {
            Some(v) => v <= 0 || count >= v as usize,
            None => false,
        };
        if page.is_ended || filled {
            next.finished = true;
            assert(next@ == before.after(given));
            return Ok(next);
        }
        match page.last_id {
            None => Err(DownloadErr::LastIdErr),
            Some(id) => {
                next.from = decimal_string(id);
                assert(next@ == before.after(given));
                Ok(next)
            },
        }
    }

    /// Ends the walk and hands out the posts gathered, in the order the feed
    /// gave them.
    pub fn into_posts(self) -> (r: Vec<Post>)
        ensures
            r@ == self@.posts,
    {
        self.posts
    }
}

/// The walk that starts in `v` and takes the pages of `pages` from the
/// `i`-th on, one after the other, until it is finished or the pages are
/// used up; `None` where it comes to a page that it cannot take.
pub open spec fn walk(v: PaginatorView, pages: Seq<Posts>, i: int) -> Option<PaginatorView>
    decreases pages.len() - i,
{
    if v.finished || i < 0 || i >= pages.len() {
        Some(v)
    } else if !v.accepts(pages[i]) {
        None
    } else {
        walk(v.after(pages[i]), pages, i + 1)
    }
}

/// The number of the page at which that walk stops: the pages before it were
/// asked for and taken.
pub open spec fn walk_end(v: PaginatorView, pages: Seq<Posts>, i: int) -> int
    decreases pages.len() - i,
{
    if v.finished || i < 0 || i >= pages.len() || !v.accepts(pages[i]) {
        i
    } else {
        walk_end(v.after(pages[i]), pages, i + 1)
    }
}

/// The posts of the pages from the `from`-th up to, but without, the `to`-th,
/// page after page.
pub open spec fn gathered(pages: Seq<Posts>, from: int, to: int) -> Seq<Post>
    decreases to - from,
{
    if from < 0 || from >= to || from >= pages.len() {
        Seq::empty()
    } else {
        pages[from].posts@ + gathered(pages, from + 1, to)
    }
}

/// On the way of that walk every page holds no more posts than were asked
/// for.
pub open spec fn within_size(v: PaginatorView, pages: Seq<Posts>, i: int) -> bool
    decreases pages.len() - i,
{
    if v.finished || i < 0 || i >= pages.len() || !v.accepts(pages[i]) {
        true
    } else {
        pages[i].posts@.len() <= v.page_size() && within_size(v.after(pages[i]), pages, i + 1)
    }
}

/// The smaller of two numbers.
pub open spec fn least(a: int, b: int) -> int {
    if a <= b {
        a
    } else {
        b
    }
}

/// On the way of that walk every page is what a platform that holds the feed
/// `feed` answers: the posts that follow those already given, as many as were
/// asked for or as are left; the mark of the end exactly where none are left
/// after them; and, without that mark, the place of the next page.
pub open spec fn served(feed: Seq<Post>, v: PaginatorView, pages: Seq<Posts>, i: int) -> bool
    decreases pages.len() - i,
{
    if v.finished || i < 0 || i >= pages.len() {
        true
    } else {
        let at = v.posts.len() as int;
        let upto = least(at + v.page_size(), feed.len() as int);
        &&& pages[i].posts@ == feed.subrange(at, upto)
        &&& pages[i].is_ended == (upto >= feed.len())
        &&& (!pages[i].is_ended ==> pages[i].last_id.is_some())
        &&& served(feed, v.after(pages[i]), pages, i + 1)
    }
}

/// What is wanted of a feed: all of it, or its first posts up to the limit.
pub open spec fn wanted(recent: Option<int>, feed: Seq<Post>) -> Seq<Post> {
    match recent {
        None => feed,
        Some(n) => if n <= 0 {
            Seq::empty()
        } else {
            feed.take(least(n, feed.len() as int))
        },
    }
}

/// A walk gathers the posts of the pages it takes in the order of the pages,
/// and within a page in the order of the page, behind what it held before.
pub proof fn lemma_walk_keeps_page_order(v: PaginatorView, pages: Seq<Posts>, i: int)
    requires
        0 <= i <= pages.len(),
        walk(v, pages, i).is_some(),
    ensures
        i <= walk_end(v, pages, i) <= pages.len(),
        walk(v, pages, i).unwrap().posts == v.posts + gathered(
            pages,
            i,
            walk_end(v, pages, i),
        ),
        walk(v, pages, i).unwrap().recent == v.recent,
    decreases pages.len() - i,
{
    if v.finished || i >= pages.len() {
        assert(v.posts + gathered(pages, i, i) =~= v.posts);
    } else {
        let next = v.after(pages[i]);
        lemma_walk_keeps_page_order(next, pages, i + 1);
        let end = walk_end(v, pages, i);
        assert(next.posts + gathered(pages, i + 1, end) =~= v.posts + gathered(pages, i, end));
    }
}

/// A walk without a limit goes on until a page bears the mark of the end: no
/// page before the last one taken bears it, the walk is finished exactly if
/// the last one taken does, and every page was asked for in full size.
pub proof fn lemma_unlimited_walk_runs_to_the_end(v: PaginatorView, pages: Seq<Posts>, i: int)
    requires
        0 <= i <= pages.len(),
        v.recent.is_none(),
        !v.finished,
        walk(v, pages, i).is_some(),
    ensures
        i <= walk_end(v, pages, i) <= pages.len(),
        forall|j: int| i <= j < walk_end(v, pages, i) - 1 ==> !(#[trigger] pages[j]).is_ended,
        walk(v, pages, i).unwrap().finished <==> (walk_end(v, pages, i) > i && pages[walk_end(
            v,
            pages,
            i,
        ) - 1].is_ended),
        !walk(v, pages, i).unwrap().finished ==> walk_end(v, pages, i) == pages.len(),
        v.page_size() == FULL_PAGE,
    decreases pages.len() - i,
{
    if i < pages.len() {
        let next = v.after(pages[i]);
        if !next.finished {
            lemma_unlimited_walk_runs_to_the_end(next, pages, i + 1);
        } else {
            assert(walk_end(next, pages, i + 1) == i + 1);
            assert(walk(next, pages, i + 1) == Some(next));
        }
    }
}

/// A walk with a limit above zero, on pages that hold no more than was asked
/// for, never holds more posts than the limit; and once it is finished it
/// holds exactly as many as the limit, unless the last page it took bears the
/// mark of the end.
pub proof fn lemma_limit_bounds_walk(v: PaginatorView, pages: Seq<Posts>, i: int, n: int)
    requires
        0 <= i <= pages.len(),
        v.recent == Some(n),
        n > 0,
        v.posts.len() <= n,
        !v.finished ==> v.posts.len() < n,
        walk(v, pages, i).is_some(),
        within_size(v, pages, i),
    ensures
        walk(v, pages, i).unwrap().posts.len() <= n,
        walk(v, pages, i).unwrap().finished && !v.finished ==> walk(
            v,
            pages,
            i,
        ).unwrap().posts.len() == n || (walk_end(v, pages, i) > i && pages[walk_end(v, pages, i)
            - 1].is_ended),
    decreases pages.len() - i,
{
    if !v.finished && i < pages.len() {
        let next = v.after(pages[i]);
        lemma_limit_bounds_walk(next, pages, i + 1, n);
        if next.finished {
            assert(walk_end(next, pages, i + 1) == i + 1);
            assert(walk(next, pages, i + 1) == Some(next));
        }
    }
}

/// A finished walk on the pages that a platform serves from a feed holds what
/// was wanted of the feed: all of its posts where there is no limit, else its
/// first posts, as many as the limit says or as the feed has, whichever is
/// less.
pub proof fn lemma_walk_of_served_feed(
    feed: Seq<Post>,
    v: PaginatorView,
    pages: Seq<Posts>,
    i: int,
)
    requires
        0 <= i <= pages.len(),
        v.posts.len() <= feed.len(),
        v.posts == feed.take(v.posts.len() as int),
        v.finished ==> v.posts == wanted(v.recent, feed),
        !v.finished && v.recent.is_some() ==> v.posts.len() < v.recent.unwrap(),
        served(feed, v, pages, i),
    ensures
        walk(v, pages, i).is_some(),
        walk(v, pages, i).unwrap().finished ==> walk(v, pages, i).unwrap().posts == wanted(
            v.recent,
            feed,
        ),
    decreases pages.len() - i,
{
    if !v.finished && i < pages.len() {
        let next = v.after(pages[i]);
        let at = v.posts.len() as int;
        let upto = least(at + v.page_size(), feed.len() as int);
        assert(next.posts =~= feed.take(upto));
        assert(feed.take(feed.len() as int) =~= feed);
        lemma_walk_of_served_feed(feed, next, pages, i + 1);
    }
}

/// A new walk meets what `lemma_walk_of_served_feed` asks of a walk.
pub proof fn lemma_served_feed_from_the_start(
    feed: Seq<Post>,
    recent: Option<int>,
    pages: Seq<Posts>,
)
    requires
        served(feed, PaginatorView::start(recent), pages, 0),
    ensures
        walk(PaginatorView::start(recent), pages, 0).is_some(),
        walk(PaginatorView::start(recent), pages, 0).unwrap().finished ==> walk(
            PaginatorView::start(recent),
            pages,
            0,
        ).unwrap().posts == wanted(recent, feed),
{
    let v = PaginatorView::start(recent);
    assert(v.posts =~= feed.take(0));
    lemma_walk_of_served_feed(feed, v, pages, 0);
}

} // verus!
