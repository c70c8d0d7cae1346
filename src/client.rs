use vstd::prelude::*;
use vstd::string::*;

use crate::models::{
    comments_of, extract_comments, extract_links, links_of, RedditListing, RedditResponse,
};

verus! {

/// Why a fetch was abandoned. Every kind is fatal: nothing is retried.
#[derive(Debug)]
pub enum FetchError {
    /// The transport failed, or the server answered with an error status.
    Network { status: Option<u16>, message: String },
    /// A cache entry could not be read or written.
    CacheIo { path: String, message: String },
    /// A payload did not have the expected shape; `path` names the field.
    Decode { path: String, line: usize, column: usize, message: String },
    /// The collection name or the identifying header is malformed.
    Config { message: String },
}

/// The decimal digit for `d`, for `d < 10`.
pub open spec fn digit_char(d: int) -> char {
    if d == 0 { '0' }
    else if d == 1 { '1' }
    else if d == 2 { '2' }
    else if d == 3 { '3' }
    else if d == 4 { '4' }
    else if d == 5 { '5' }
    else if d == 6 { '6' }
    else if d == 7 { '7' }
    else if d == 8 { '8' }
    else { '9' }
}

/// The decimal form of `n`, without leading zeros.
pub open spec fn decimal(n: nat) -> Seq<char>
    decreases n,
{
    if n < 10 {
        seq![digit_char(n as int)]
    } else {
        decimal(n / 10).push(digit_char((n % 10) as int))
    }
}

/// Where the page `page` of the collection `slug` is cached.
pub open spec fn page_cache_path_of(slug: Seq<char>, page: nat) -> Seq<char> {
    "target/cache/subreddit/"@ + slug + "_"@ + decimal(page) + ".json"@
}

/// Where the comment thread of the post `post_id` is cached.
pub open spec fn post_cache_path_of(post_id: Seq<char>) -> Seq<char> {
    "target/cache/posts/"@ + post_id + ".json"@
}

/// The listing endpoint of `slug`, resuming after `after` when there is one.
pub open spec fn listing_url_of(slug: Seq<char>, after: Option<Seq<char>>) -> Seq<char> {
    let base = "https://www.reddit.com/r/"@ + slug + ".json?raw_json=1"@;
    match after {
        Some(a) => base + "&after="@ + a,
        None => base,
    }
}

/// The JSON endpoint of a post's comment thread.
pub open spec fn comments_url_of(link_url: Seq<char>) -> Seq<char> {
    link_url + ".json?raw_json=1"@
}

/// The page address of a post from its permalink.
pub open spec fn permalink_url_of(permalink: Seq<char>) -> Seq<char> {
    "https://www.reddit.com/"@ + permalink
}

/// Whether an HTTP status reports success: the 2xx range.
pub open spec fn is_success_status(status: u16) -> bool {
    200 <= status && status < 300
}

fn digit_str(d: usize) -> (r: &'static str)
    requires
        d < 10,
    ensures
        r@ == seq![digit_char(d as int)],
{
    if d == 0 {
        proof { reveal_strlit("0"); }
        "0"
    } else if d == 1 {
        proof { reveal_strlit("1"); }
        "1"
    } else if d == 2 {
        proof { reveal_strlit("2"); }
        "2"
    } else if d == 3 {
        proof { reveal_strlit("3"); }
        "3"
    } else if d == 4 {
        proof { reveal_strlit("4"); }
        "4"
    } else if d == 5 {
        proof { reveal_strlit("5"); }
        "5"
    } else if d == 6 {
        proof { reveal_strlit("6"); }
        "6"
    } else if d == 7 {
        proof { reveal_strlit("7"); }
        "7"
    } else if d == 8 {
        proof { reveal_strlit("8"); }
        "8"
    } else {
        proof { reveal_strlit("9"); }
        "9"
    }
}

/// Writes `n` in decimal.
pub fn decimal_string(n: usize) -> (r: String)
    ensures
        r@ == decimal(n as nat),
    decreases n,
{
    if n < 10 {
        String::from_str(digit_str(n))
    } else {
        let mut s = decimal_string(n / 10);
        s.append(digit_str(n % 10));
        s
    }
}

/// The cache file of page `page_index` of `slug`.
pub fn page_cache_path(slug: &SubredditSlug, page_index: usize) -> (r: String)
    ensures
        r@ == page_cache_path_of(slug@, page_index as nat),
{
    let mut p = String::from_str("target/cache/subreddit/");
    p.append(slug.as_str());
    p.append("_");
    let n = decimal_string(page_index);
    p.append(n.as_str());
    p.append(".json");
    p
}

/// The cache file of the comment thread of `post_id`.
pub fn post_cache_path(post_id: &str) -> (r: String)
    ensures
        r@ == post_cache_path_of(post_id@),
{
    let mut p = String::from_str("target/cache/posts/");
    p.append(post_id);
    p.append(".json");
    p
}

/// The address of a page of `slug`'s listing; `after` is the cursor
/// returned with the previous page, absent for the first one.
pub fn listing_url(slug: &SubredditSlug, after: Option<&str>) -> (r: String)
    ensures
        r@ == listing_url_of(slug@, match after { Some(a) => Some(a@), None => None }),
{
    let mut u = String::from_str("https://www.reddit.com/r/");
    u.append(slug.as_str());
    u.append(".json?raw_json=1");
    match after {
        Some(a) => {
            u.append("&after=");
            u.append(a);
        },
        None => {},
    }
    u
}

/// The address of the comment thread of the post at `link_url`.
pub fn comments_url(link_url: &str) -> (r: String)
    ensures
        r@ == comments_url_of(link_url@),
{
    let mut u = String::from_str(link_url);
    u.append(".json?raw_json=1");
    u
}

/// The page address of a post, from its permalink.
pub fn permalink_url(permalink: &str) -> (r: String)
    ensures
        r@ == permalink_url_of(permalink@),
{
    let mut u = String::from_str("https://www.reddit.com/");
    u.append(permalink);
    u
}

/// Accepts a successful (2xx) response status; any other status is a fatal
/// network error.
pub fn check_status(status: u16) -> (r: Result<(), FetchError>)
    ensures
        r is Ok <==> is_success_status(status),
        r is Err ==> (r->Err_0 matches FetchError::Network { status: s, .. } && s == Some(status)),
{
    if 200 <= status && status < 300 {
        Ok(())
    } else {
        Err(FetchError::Network { status: Some(status), message: String::from_str("non-success status") })
    }
}

/// Identifies a remote collection (a named forum) to page through.
#[derive(Debug)]
pub struct SubredditSlug(String);

impl View for SubredditSlug {
    type V = Seq<char>;

    closed spec fn view(&self) -> Seq<char> {
        self.0@
    }
}

impl SubredditSlug {
    /// A collection name is never empty.
    #[verifier::type_invariant]
    spec fn non_empty(self) -> bool {
        self.0@.len() > 0
    }

    /// Checks a collection name and wraps it: an empty name is a
    /// configuration error.
    pub fn new(subreddit: &str) -> (r: Result<Self, FetchError>)
        ensures
            r is Ok <==> subreddit@.len() > 0,
            r is Ok ==> r->Ok_0@ == subreddit@,
            r is Err ==> r->Err_0 is Config,
    {
        if subreddit.is_empty() {
            Err(FetchError::Config { message: String::from_str("empty collection name") })
        } else {
            Ok(SubredditSlug(String::from_str(subreddit)))
        }
    }

    /// The name; it is never empty.
    pub fn as_str(&self) -> (r: &str)
        ensures
            r@ == self@,
            r@.len() > 0,
    {
        proof {
            use_type_invariant(self);
        }
        self.0.as_str()
    }
}

} // verus!

verus! {

/// The view of an optional string.
pub open spec fn opt_view(o: Option<String>) -> Option<Seq<char>> {
    match o {
        Some(s) => Some(s@),
        None => None,
    }
}

/// How many pages a run with budget `max_pages` reads, counting from page
/// `i`, when page `j` of the collection is `pages[j]`: it stops at the budget,
/// or after the first page that names no next cursor.
pub open spec fn pages_read_from<L, C>(
    pages: Seq<RedditListing<L, C>>,
    max_pages: nat,
    i: nat,
) -> nat
    decreases max_pages - i,
{
    if i >= max_pages || i >= pages.len() {
        i
    } else if pages[i as int].after is None {
        i + 1
    } else {
        pages_read_from(pages, max_pages, i + 1)
    }
}

/// How many pages a run with budget `max_pages` reads.
pub open spec fn pages_read<L, C>(pages: Seq<RedditListing<L, C>>, max_pages: nat) -> nat {
    pages_read_from(pages, max_pages, 0)
}

/// The link posts of the first `n` pages, page after page, each in its
/// own order.
pub open spec fn links_of_pages<L, C>(pages: Seq<RedditListing<L, C>>, n: nat) -> Seq<L>
    decreases n,
{
    if n == 0 {
        Seq::empty()
    } else {
        links_of_pages(pages, (n - 1) as nat) + links_of(pages[n - 1].children@)
    }
}

/// The gathered links depend on the pages read and on no other.
proof fn lemma_links_of_pages_prefix<L, C>(
    a: Seq<RedditListing<L, C>>,
    b: Seq<RedditListing<L, C>>,
    n: nat,
)
    requires
        n <= a.len(),
        n <= b.len(),
        forall|i: int| 0 <= i < n ==> a[i] == b[i],
    ensures
        links_of_pages(a, n) == links_of_pages(b, n),
    decreases n,
{
    if n > 0 {
        lemma_links_of_pages_prefix(a, b, (n - 1) as nat);
    }
}

/// A run reads up to and including the first page without a next cursor.
proof fn lemma_pages_read_stops<L, C>(pages: Seq<RedditListing<L, C>>, max_pages: nat, i: nat, k: nat)
    requires
        i <= k,
        k < pages.len(),
        k < max_pages,
        pages[k as int].after is None,
        forall|j: int| i <= j < k ==> (#[trigger] pages[j]).after is Some,
    ensures
        pages_read_from(pages, max_pages, i) == k + 1,
    decreases k - i,
{
    if i < k {
        lemma_pages_read_stops(pages, max_pages, i + 1, k);
    }
}

/// A run whose pages all name a next cursor reads the whole budget.
proof fn lemma_pages_read_budget<L, C>(pages: Seq<RedditListing<L, C>>, max_pages: nat, i: nat)
    requires
        max_pages <= pages.len(),
        i <= max_pages,
        forall|j: int| i <= j < max_pages - 1 ==> (#[trigger] pages[j]).after is Some,
    ensures
        pages_read_from(pages, max_pages, i) == max_pages,
    decreases max_pages - i,
{
    if i < max_pages {
        lemma_pages_read_budget(pages, max_pages, i + 1);
    }
}

/// When the page `k` is the first without a next cursor, and the budget
/// allows more than `k` pages, a run returns the link posts of pages `0`
/// to `k` exactly, in page order and in order within each page.
pub proof fn lemma_run_stops_at_last_page<L, C>(
    pages: Seq<RedditListing<L, C>>,
    max_pages: nat,
    k: nat,
)
    requires
        k < pages.len(),
        k < max_pages,
        pages[k as int].after is None,
        forall|j: int| 0 <= j < k ==> (#[trigger] pages[j]).after is Some,
    ensures
        pages_read(pages, max_pages) == k + 1,
        links_of_pages(pages, pages_read(pages, max_pages)) == links_of_pages(pages, k + 1),
{
    lemma_pages_read_stops(pages, max_pages, 0, k);
}

/// The next thing a paginated run asks of the program around it.
#[derive(Debug)]
pub enum PageStep {
    /// Read page `page_index` from the cache file `path`.
    ReadCache { page_index: usize, path: String },
    /// Wait for the rate limiter, GET `url`, store the body verbatim at `path`,
    /// and use it as page `page_index`.
    Download { page_index: usize, url: String, path: String },
    /// The run is complete.
    Finished,
}

/// The pagination driver: follows the cursors of a collection's listing,
/// page after page, and gathers the link posts in order.
pub struct Paginator<L, C> {
    slug: SubredditSlug,
    max_pages: usize,
    page_index: usize,
    after: Option<String>,
    finished: bool,
    links: Vec<L>,
    pages: Ghost<Seq<RedditListing<L, C>>>,
}

impl<L, C> Paginator<L, C> {
    /// The collection being read.
    pub closed spec fn slug(&self) -> Seq<char> {
        self.slug@
    }

    /// The page budget.
    pub closed spec fn max_pages(&self) -> nat {
        self.max_pages as nat
    }

    /// The pages recorded so far, in order.
    pub closed spec fn pages_seen(&self) -> Seq<RedditListing<L, C>> {
        self.pages@
    }

    /// The cursor for the next page: none before the first page.
    pub closed spec fn cursor(&self) -> Option<Seq<char>> {
        opt_view(self.after)
    }

    /// Whether the run is over.
    pub closed spec fn is_finished(&self) -> bool {
        self.finished
    }

    /// The link posts gathered so far.
    pub closed spec fn collected(&self) -> Seq<L> {
        self.links@
    }

    pub closed spec fn wf(&self) -> bool {
        let pages = self.pages@;
        &&& pages.len() == self.page_index
        &&& self.page_index <= self.max_pages
        &&& self.links@ == links_of_pages(pages, self.page_index as nat)
        &&& forall|i: int| 0 <= i < pages.len() - 1 ==> (#[trigger] pages[i]).after is Some
        &&& self.page_index == 0 ==> self.after is None
        &&& self.page_index > 0 ==> opt_view(self.after) == opt_view(pages.last().after)
        &&& self.finished <==> (self.page_index == self.max_pages || (self.page_index > 0
            && pages.last().after is None))
    }

    /// Starts a run over `slug` that reads at most `max_pages` pages.
    pub fn new(slug: SubredditSlug, max_pages: usize) -> (r: Self)
        ensures
            r.wf(),
            r.slug() == slug@,
            r.max_pages() == max_pages,
            r.pages_seen() == Seq::<RedditListing<L, C>>::empty(),
            r.cursor() is None,
            r.collected() == Seq::<L>::empty(),
            r.is_finished() <==> max_pages == 0,
    {
        Paginator {
            slug,
            max_pages,
            page_index: 0,
            after: None,
            finished: max_pages == 0,
            links: Vec::new(),
            pages: Ghost(Seq::empty()),
        }
    }

    /// Whether the run is over.
    pub fn finished(&self) -> (r: bool)
        requires
            self.wf(),
        ensures
            r == self.is_finished(),
    {
        self.finished
    }

    /// What to do next; `cached` tells whether the cache holds the next page.
    /// A cached page is never downloaded again.
    pub fn next_step(&self, cached: bool) -> (r: PageStep)
        requires
            self.wf(),
        ensures
            self.is_finished() ==> r is Finished,
            !self.is_finished() && cached ==> (r matches PageStep::ReadCache { page_index, path }
                && page_index == self.pages_seen().len()
                && path@ == page_cache_path_of(self.slug(), page_index as nat)),
            !self.is_finished() && !cached ==> (r matches PageStep::Download { page_index, url, path }
                && page_index == self.pages_seen().len()
                && url@ == listing_url_of(self.slug(), self.cursor())
                && path@ == page_cache_path_of(self.slug(), page_index as nat)),
    {
        if self.finished {
            return PageStep::Finished;
        }
        let path = page_cache_path(&self.slug, self.page_index);
        if cached {
            PageStep::ReadCache { page_index: self.page_index, path }
        } else {
            let url = match &self.after {
                Some(a) => listing_url(&self.slug, Some(a.as_str())),
                None => listing_url(&self.slug, None),
            };
            PageStep::Download { page_index: self.page_index, url, path }
        }
    }

    /// Takes in the next page: appends its link posts, drops every other
    /// kind of item, and moves to the cursor that the page names.
    pub fn record_page(&mut self, listing: RedditListing<L, C>)
        requires
            old(self).wf(),
            !old(self).is_finished(),
        ensures
            final(self).wf(),
            final(self).slug() == old(self).slug(),
            final(self).max_pages() == old(self).max_pages(),
            final(self).pages_seen() == old(self).pages_seen().push(listing),
            final(self).collected() == old(self).collected() + links_of(listing.children@),
            final(self).cursor() == opt_view(listing.after),
            final(self).is_finished() <==> (listing.after is None
                || final(self).pages_seen().len() == old(self).max_pages()),
    {
        let ghost old_pages = self.pages@;
        let ghost page = listing;
        let RedditListing { children, after, .. } = listing;
        let mut found = extract_links(children);
        self.links.append(&mut found);
        self.page_index = self.page_index + 1;
        self.finished = after.is_none() || self.page_index == self.max_pages;
        self.after = after;
        self.pages = Ghost(old_pages.push(page));
        proof {
            let pages = self.pages@;
            assert(pages.drop_last() == old_pages);
            assert(forall|i: int| 0 <= i < pages.len() - 1 ==> pages[i] == old_pages[i]);
            lemma_links_of_pages_prefix(pages, old_pages, old_pages.len());
            assert(self.links@ == links_of_pages(pages, pages.len()));
        }
    }

    /// Once the run is finished, the gathered links are those of every page
    /// that the run was bound to read.
    pub proof fn lemma_finished_links(&self)
        requires
            self.wf(),
            self.is_finished(),
        ensures
            self.collected() == links_of_pages(
                self.pages_seen(),
                pages_read(self.pages_seen(), self.max_pages()),
            ),
    {
        let pages = self.pages@;
        let n = pages.len();
        if n > 0 && pages.last().after is None {
            lemma_pages_read_stops(pages, self.max_pages as nat, 0, (n - 1) as nat);
        } else {
            lemma_pages_read_budget(pages, self.max_pages as nat, 0);
        }
    }

    /// Ends the run and hands back the gathered link posts. Once the run is
    /// finished they are those of every page that the run was bound to read.
    pub fn into_links(self) -> (r: Vec<L>)
        requires
            self.wf(),
        ensures
            r@ == self.collected(),
            self.is_finished() ==> r@ == links_of_pages(
                self.pages_seen(),
                pages_read(self.pages_seen(), self.max_pages()),
            ),
    {
        proof {
            if self.finished {
                self.lemma_finished_links();
            }
        }
        self.links
    }
}

} // verus!

verus! {

/// A run repeated over the same pages, with the same budget, gives the same
/// links: an unchanged cache gives the second run the same stored text and so
/// the same pages, and each of them is read from the cache, never downloaded
/// (see `Paginator::next_step`).
pub proof fn lemma_repeat_run_same_links<L, C>(first: Paginator<L, C>, second: Paginator<L, C>)
    requires
        first.wf(),
        second.wf(),
        first.is_finished(),
        second.is_finished(),
        first.slug() == second.slug(),
        first.max_pages() == second.max_pages(),
        second.pages_seen() == first.pages_seen(),
    ensures
        second.collected() == first.collected(),
        first.collected() == links_of_pages(
            first.pages_seen(),
            pages_read(first.pages_seen(), first.max_pages()),
        ),
{
    first.lemma_finished_links();
}

/// The next thing a fetch of a single resource asks of the program.
#[derive(Debug)]
pub enum ResourceStep {
    /// Read the resource from the cache file `path`.
    ReadCache { path: String },
    /// Wait for the rate limiter, GET `url`, and store the body verbatim at `path`.
    Download { url: String, path: String },
}


/// How to obtain the first page of `slug`; `cached` tells whether the cache
/// holds it. The page is cached where a paginated run caches its first page.
pub fn plan_front_page(slug: &SubredditSlug, cached: bool) -> (r: ResourceStep)
    ensures
        cached ==> (r matches ResourceStep::ReadCache { path } && path@ == page_cache_path_of(slug@, 0)),
        !cached ==> (r matches ResourceStep::Download { url, path }
            && url@ == listing_url_of(slug@, None)
            && path@ == page_cache_path_of(slug@, 0)),
{
    let path = page_cache_path(slug, 0);
    if cached {
        ResourceStep::ReadCache { path }
    } else {
        ResourceStep::Download { url: listing_url(slug, None), path }
    }
}

/// How to obtain the comment thread of the post `post_id` found at
/// `link_url`; `cached` tells whether the cache holds it.
pub fn plan_comments(post_id: &str, link_url: &str, cached: bool) -> (r: ResourceStep)
    ensures
        cached ==> (r matches ResourceStep::ReadCache { path } && path@ == post_cache_path_of(post_id@)),
        !cached ==> (r matches ResourceStep::Download { url, path }
            && url@ == comments_url_of(link_url@)
            && path@ == post_cache_path_of(post_id@)),
{
    let path = post_cache_path(post_id);
    if cached {
        ResourceStep::ReadCache { path }
    } else {
        ResourceStep::Download { url: comments_url(link_url), path }
    }
}

/// The link posts of a one-page response, in order.
pub fn response_links<L, C>(response: RedditResponse<L, C>) -> (r: Vec<L>)
    ensures
        r@ == links_of(response->Listing_0.children@),
{
    let RedditResponse::Listing(listing) = response;
    extract_links(listing.children)
}

/// The top-level comments of a comment thread. The service sends a thread
/// as two listings: the post itself, then its comments.
pub fn thread_comments<L, C>(thread: (RedditResponse<L, C>, RedditResponse<L, C>)) -> (r: Vec<C>)
    ensures
        r@ == comments_of(thread.1->Listing_0.children@),
{
    let (_post, comments) = thread;
    let RedditResponse::Listing(listing) = comments;
    extract_comments(listing.children)
}

} // verus!

verus! {

#[verifier::external_type_specification]
#[verifier::external_body]
pub struct ExHeaderValue(reqwest::header::HeaderValue);

#[verifier::external_type_specification]
#[verifier::external_body]
pub struct ExInvalidHeaderValue(reqwest::header::InvalidHeaderValue);

/// A byte that may stand in an HTTP header value: a tab, or any byte from
/// the space up but the delete character.
pub open spec fn is_header_byte(b: u8) -> bool {
    (b >= 32 && b != 127) || b == 9
}

/// The bytes a header value holds.
pub uninterp spec fn header_value_bytes(v: reqwest::header::HeaderValue) -> Seq<u8>;

/// Relies on http's `HeaderValue::from_str` (re-exported by reqwest): it
/// accepts a string exactly when each of its bytes may stand in a header
/// value, and the value it builds holds a copy of those bytes.
pub assume_specification[ reqwest::header::HeaderValue::from_str ](src: &str) -> (r: Result<
    reqwest::header::HeaderValue,
    reqwest::header::InvalidHeaderValue,
>)
    ensures
        r is Ok <==> forall|i: int|
            0 <= i < src.spec_bytes().len() ==> is_header_byte(#[trigger] src.spec_bytes()[i]),
        r is Ok ==> header_value_bytes(r->Ok_0) == src.spec_bytes(),
;

/// The identifying header value sent with every request. A value with a
/// byte that a header cannot hold is a configuration error, found before
/// any request is made.
pub fn user_agent(value: &str) -> (r: Result<reqwest::header::HeaderValue, FetchError>)
    ensures
        r is Ok <==> forall|i: int|
            0 <= i < value.spec_bytes().len() ==> is_header_byte(#[trigger] value.spec_bytes()[i]),
        r is Ok ==> header_value_bytes(r->Ok_0) == value.spec_bytes(),
        r is Err ==> r->Err_0 is Config,
{
    match reqwest::header::HeaderValue::from_str(value) {
        Ok(v) => Ok(v),
        Err(_) => Err(FetchError::Config { message: String::from_str("invalid header value") }),
    }
}

} // verus!
