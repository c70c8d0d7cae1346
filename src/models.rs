use vstd::prelude::*;

verus! {

/// A response of the service: one page of a listing.
///
/// `L` and `C` are the payloads of link posts and of comments; the library
/// does not look inside them.
#[derive(Debug, PartialEq)]
pub enum RedditResponse<L, C> {
    Listing(RedditListing<L, C>),
}

/// One page: the items in rank order and the cursors around them.
#[derive(Debug, PartialEq)]
pub struct RedditListing<L, C> {
    pub modhash: String,
    pub dist: Option<i64>,
    pub children: Vec<RedditThing<L, C>>,
    pub after: Option<String>,
    pub before: Option<String>,
}

/// One item of a listing, tagged by its kind (`t1` to `t6` on the wire).
#[derive(Debug, PartialEq)]
pub enum RedditThing<L, C> {
    Comment(C),
    Account,
    Link(L),
    Message,
    Subreddit,
    Award,
}

impl<L, C> RedditThing<L, C> {
    /// The kind tag of this item on the wire.
    pub open spec fn spec_kind_tag(&self) -> Seq<char> {
        match self {
            RedditThing::Comment(_) => "t1"@,
            RedditThing::Account => "t2"@,
            RedditThing::Link(_) => "t3"@,
            RedditThing::Message => "t4"@,
            RedditThing::Subreddit => "t5"@,
            RedditThing::Award => "t6"@,
        }
    }

    pub fn kind_tag(&self) -> (r: &'static str)
        ensures
            r@ == self.spec_kind_tag(),
    {
        match self {
            RedditThing::Comment(_) => "t1",
            RedditThing::Account => "t2",
            RedditThing::Link(_) => "t3",
            RedditThing::Message => "t4",
            RedditThing::Subreddit => "t5",
            RedditThing::Award => "t6",
        }
    }
}

/// A part of an author's rich-text flair on a comment.
#[derive(Debug, Clone, PartialEq, Eq)]
pub struct AuthorFlairRichtext {
    pub e: String,
    pub t: String,
}

/// A part of a rich-text flair on a link post.
#[derive(Debug, Clone, PartialEq, Eq)]
pub struct FlairRichtext {
    pub e: AuthorFlairType,
    pub t: String,
}

#[derive(Debug, Clone, Copy, PartialEq, Eq, Structural)]
pub enum AuthorFlairType {
    Richtext,
    Text,
}

#[derive(Debug, Clone, Copy, PartialEq, Eq, Structural)]
pub enum FlairTextColor {
    Dark,
    Light,
}

/// An object of the schema that carries no field the library reads.
#[derive(Debug, Clone, Copy, PartialEq, Eq, Structural)]
pub struct Gildings {}

#[derive(Debug, Clone, Copy, PartialEq, Eq, Structural)]
pub enum LinkFlairBackgroundColor {
    Dadada,
    Empty,
    Fbe9D0,
    The187718,
}

#[derive(Debug, Clone, Copy, PartialEq, Eq, Structural)]
pub enum LinkFlairCssClass {
    Comment,
    Expired,
    Review,
    WeeklyDiscussion,
}

/// The preview images of a link post.
#[derive(Debug, Clone, PartialEq, Eq)]
pub struct Preview {
    pub images: Vec<Image>,
    pub enabled: bool,
}

#[derive(Debug, Clone, PartialEq, Eq)]
pub struct Image {
    pub source: Source,
    pub resolutions: Vec<Source>,
    pub variants: Gildings,
    pub id: String,
}

/// One rendition of an image: its address and its size in pixels.
#[derive(Debug, Clone, PartialEq, Eq)]
pub struct Source {
    pub url: String,
    pub width: i64,
    pub height: i64,
}

#[derive(Debug, Clone, Copy, PartialEq, Eq, Structural)]
pub enum Subreddit {
    Bapcsalescanada,
}

#[derive(Debug, Clone, Copy, PartialEq, Eq, Structural)]
pub enum SubredditId {
    T52Tesr,
}

#[derive(Debug, Clone, Copy, PartialEq, Eq, Structural)]
pub enum SubredditNamePrefixed {
    RBapcsalescanada,
}

#[derive(Debug, Clone, Copy, PartialEq, Eq, Structural)]
pub enum SubredditType {
    Public,
}

#[derive(Debug, Clone, Copy, PartialEq, Eq, Structural)]
pub enum Kind {
    T3,
}

/// The link posts among `things`, in their order.
pub open spec fn links_of<L, C>(things: Seq<RedditThing<L, C>>) -> Seq<L>
    decreases things.len(),
{
    if things.len() == 0 {
        Seq::empty()
    } else {
        let rest = links_of(things.drop_last());
        match things.last() {
            RedditThing::Link(l) => rest.push(l),
            _ => rest,
        }
    }
}

/// The comments among `things`, in their order.
pub open spec fn comments_of<L, C>(things: Seq<RedditThing<L, C>>) -> Seq<C>
    decreases things.len(),
{
    if things.len() == 0 {
        Seq::empty()
    } else {
        let rest = comments_of(things.drop_last());
        match things.last() {
            RedditThing::Comment(c) => rest.push(c),
            _ => rest,
        }
    }
}

/// Keeps the link posts of `children` and drops every other kind.
pub fn extract_links<L, C>(children: Vec<RedditThing<L, C>>) -> (r: Vec<L>)
    ensures
        r@ == links_of(children@),
{
    let ghost all = children@;
    let mut out: Vec<L> = Vec::new();
    for t in it: children.into_iter()
        invariant
            it.seq() == all,
            out@ == links_of(all.take(it.index() as int)),
    {
        proof {
            assert(all.take(it.index() + 1).drop_last() == all.take(it.index() as int));
        }
        match t {
            RedditThing::Link(l) => out.push(l),
            _ => {},
        }
    }
    proof {
        assert(all.take(all.len() as int) == all);
    }
    out
}

/// Keeps the comments of `children` and drops every other kind.
pub fn extract_comments<L, C>(children: Vec<RedditThing<L, C>>) -> (r: Vec<C>)
    ensures
        r@ == comments_of(children@),
{
    let ghost all = children@;
    let mut out: Vec<C> = Vec::new();
    for t in it: children.into_iter()
        invariant
            it.seq() == all,
            out@ == comments_of(all.take(it.index() as int)),
    {
        proof {
            assert(all.take(it.index() + 1).drop_last() == all.take(it.index() as int));
        }
        match t {
            RedditThing::Comment(c) => out.push(c),
            _ => {},
        }
    }
    proof {
        assert(all.take(all.len() as int) == all);
    }
    out
}

} // verus!
