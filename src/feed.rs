use crate::config::Config;
use crate::post::Post;
use time::format_description::well_known::Rfc2822;
use vstd::prelude::*;

verus! {

broadcast use vstd::seq_lib::group_to_multiset_ensures;

/// Earliest Unix second that the feed's date format can carry
/// (1900-01-01 00:00:00 UTC).
pub const MIN_FEED_TIMESTAMP: i64 = -2208988800;

/// Latest Unix second that the feed's date format can carry
/// (9999-12-31 23:59:59 UTC).
pub const MAX_FEED_TIMESTAMP: i64 = 253402300799;

/// Whether a Unix second can be written as an RFC 2822 date-time.
pub open spec fn rfc2822_representable(timestamp: int) -> bool {
    MIN_FEED_TIMESTAMP <= timestamp <= MAX_FEED_TIMESTAMP
}

/// The RFC 2822 text of a Unix second, in UTC.
pub uninterp spec fn rfc2822_of(timestamp: int) -> Seq<char>;

/// The pretty-printed RSS document of a channel with the given fields and
/// items, each item being its title, content and publish date.
pub uninterp spec fn rss_document_of(
    title: Seq<char>,
    link: Seq<char>,
    description: Seq<char>,
    last_build_date: Seq<char>,
    pub_date: Seq<char>,
    items: Seq<(Seq<char>, Seq<char>, Seq<char>)>,
) -> Seq<char>;

/// Relies on `time::OffsetDateTime::from_unix_timestamp` followed by
/// `format(&Rfc2822)`: a timestamp is accepted by the first for years -9999 to
/// 9999 and by the second for years 1900 and later, and the text depends on
/// the timestamp alone.
#[verifier::external_body]
fn format_rfc2822(timestamp: i64) -> (r: Option<String>)
    ensures
        r.is_some() == rfc2822_representable(timestamp as int),
        r matches Some(s) ==> s@ == rfc2822_of(timestamp as int),
{
    time::OffsetDateTime::from_unix_timestamp(timestamp).ok()?.format(&Rfc2822).ok()
}

/// Records ordered newest first: `timestamp` never increases along the sequence.
pub open spec fn newest_first(s: Seq<Post>) -> bool {
    forall|a: int, b: int| 0 <= a < b < s.len() ==> s[a].timestamp >= s[b].timestamp
}

/// Sorts records newest first. Records with equal timestamps keep their
/// relative order.
pub fn sort_newest_first(posts: Vec<Post>) -> (r: Vec<Post>)
    ensures
        newest_first(r@),
        r@.to_multiset() == posts@.to_multiset(),
{
    let ghost orig = posts@;
    let mut rest = posts;
    let mut out: Vec<Post> = Vec::new();
    let ghost mut taken: int = 0;
    while rest.len() > 0
        invariant
            0 <= taken <= orig.len(),
            rest@ == orig.subrange(taken, orig.len() as int),
            out@.to_multiset() == orig.subrange(0, taken).to_multiset(),
            newest_first(out@),
        decreases rest.len(),
    {
        let p = rest.remove(0);
        proof {
            assert(orig.subrange(0, taken + 1) =~= orig.subrange(0, taken).push(p));
            assert(rest@ =~= orig.subrange(taken + 1, orig.len() as int));
        }
        let mut j: usize = 0;
        while j < out.len() && out[j].timestamp >= p.timestamp
            invariant
                j <= out.len(),
                forall|k: int| 0 <= k < j ==> out@[k].timestamp >= p.timestamp,
            decreases out.len() - j,
        {
            j = j + 1;
        }
        let ghost before = out@;
        out.insert(j, p);
        proof {
            vstd::seq_lib::to_multiset_insert(before, j as int, p);
            assert forall|a: int, b: int| 0 <= a < b < out@.len() implies out@[a].timestamp
                >= out@[b].timestamp by {
                if j < before.len() {
                    assert(before[j as int].timestamp < p.timestamp);
                }
            }
            taken = taken + 1;
        }
    }
    proof {
        assert(orig.subrange(0, orig.len() as int) =~= orig);
    }
    out
}

/// One entry of a feed.
pub struct FeedItem {
    pub title: String,
    pub content: String,
    pub pub_date: String,
}

/// A feed channel and its entries, every date already in RFC 2822 text.
pub struct Feed {
    pub title: String,
    pub link: String,
    pub description: String,
    pub last_build_date: String,
    pub pub_date: String,
    pub items: Vec<FeedItem>,
}

/// An entry as its title, content and publish date.
pub open spec fn item_view(i: FeedItem) -> (Seq<char>, Seq<char>, Seq<char>) {
    (i.title@, i.content@, i.pub_date@)
}

/// The entry that a record yields.
pub open spec fn item_of(p: Post) -> (Seq<char>, Seq<char>, Seq<char>) {
    (p.title@, p.content@, rfc2822_of(p.timestamp as int))
}

impl Feed {
    /// The entries as plain values.
    pub open spec fn item_views(&self) -> Seq<(Seq<char>, Seq<char>, Seq<char>)> {
        self.items@.map_values(|i: FeedItem| item_view(i))
    }

    /// The feed that `posts` yields, in their order, for `config`, built at
    /// Unix second `now`.
    pub open spec fn is_feed_of(&self, posts: Seq<Post>, config: Config, now: i64) -> bool {
        &&& self.title@ == config.title@
        &&& self.link@ == config.base_uri@
        &&& self.description@ == config.description@
        &&& self.last_build_date@ == rfc2822_of(now as int)
        &&& self.pub_date@ == (if posts.len() == 0 {
            rfc2822_of(now as int)
        } else {
            rfc2822_of(posts[0].timestamp as int)
        })
        &&& self.item_views() == posts.map_values(|p: Post| item_of(p))
    }
}

/// Every date that a feed of `posts` built at `now` carries can be written.
pub open spec fn feed_representable(posts: Seq<Post>, now: i64) -> bool {
    &&& rfc2822_representable(now as int)
    &&& forall|p: Post| posts.contains(p) ==> rfc2822_representable(p.timestamp as int)
}

/// Why a feed could not be produced.
#[derive(Debug, PartialEq, Eq, Structural)]
pub enum FeedError {
    /// The content store could not be read.
    Storage,
    /// A date lies outside what the feed's date format can carry.
    Render,
}

/// Builds the feed of `posts`, in the order given: the channel's publish
/// date is that of the first record, or the build date when there is none.
pub fn build_feed(posts: &Vec<Post>, config: &Config, now: i64) -> (r: Result<Feed, FeedError>)
    ensures
        r is Ok <==> feed_representable(posts@, now),
        r matches Ok(f) ==> f.is_feed_of(posts@, *config, now),
        r matches Err(e) ==> e is Render,
{
    let last_build_date = match format_rfc2822(now) {
        Some(s) => s,
        None => return Err(FeedError::Render),
    };
    let mut items: Vec<FeedItem> = Vec::new();
    let mut i: usize = 0;
    while i < posts.len()
        invariant
            i <= posts.len(),
            items@.len() == i,
            forall|k: int| 0 <= k < i ==> rfc2822_representable(posts@[k].timestamp as int),
            forall|k: int| 0 <= k < i ==> item_view(#[trigger] items@[k]) == item_of(posts@[k]),
        decreases posts.len() - i,
    {
        let p = &posts[i];
        let pub_date = match format_rfc2822(p.timestamp) {
            Some(s) => s,
            None => {
                proof {
                    assert(posts@.contains(posts@[i as int]));
                }
                return Err(FeedError::Render);
            },
        };
        items.push(FeedItem { title: p.title.clone(), content: p.content.clone(), pub_date });
        i = i + 1;
    }
    let pub_date = if posts.len() == 0 {
        last_build_date.clone()
    } else {
        match format_rfc2822(posts[0].timestamp) {
            Some(s) => s,
            None => return Err(FeedError::Render),
        }
    };
    let feed = Feed {
        title: config.title.clone(),
        link: config.base_uri.clone(),
        description: config.description.clone(),
        last_build_date,
        pub_date,
        items,
    };
    proof {
        assert(feed.item_views() =~= posts@.map_values(|p: Post| item_of(p)));
        assert forall|p: Post| posts@.contains(p) implies rfc2822_representable(
            p.timestamp as int,
        ) by {
            let k = choose|k: int| 0 <= k < posts@.len() && posts@[k] == p;
        }
    }
    Ok(feed)
}

/// Relies on rss's `ItemBuilder`, `ChannelBuilder` and
/// `Channel::pretty_write_to` (indented by two spaces), then
/// `String::from_utf8`: writing into a `Vec` cannot fail and yields UTF-8,
/// and the text depends on the channel's fields alone.
#[verifier::external_body]
fn write_rss(feed: &Feed) -> (r: Option<String>)
    ensures
        r is Some,
        r matches Some(d) ==> d@ == rss_document_of(
            feed.title@,
            feed.link@,
            feed.description@,
            feed.last_build_date@,
            feed.pub_date@,
            feed.item_views(),
        ),
{
    let items: Vec<rss::Item> = feed.items.iter().map(|i| rss::ItemBuilder::default()
        .title(i.title.clone()).content(i.content.clone()).pub_date(i.pub_date.clone())
        .build()).collect();
    let channel = rss::ChannelBuilder::default().title(feed.title.clone())
        .link(feed.link.clone()).description(feed.description.clone())
        .last_build_date(feed.last_build_date.clone()).pub_date(feed.pub_date.clone())
        .items(items).build();
    String::from_utf8(channel.pretty_write_to(Vec::new(), b' ', 2).ok()?).ok()
}

/// The document of a feed.
pub open spec fn document_of(f: Feed) -> Seq<char> {
    rss_document_of(f.title@, f.link@, f.description@, f.last_build_date@, f.pub_date@, f.item_views())
}

/// `d` is the document of the feed of `posts` put newest first, for `config`
/// at Unix second `now`. Records with equal timestamps may come in any order.
pub open spec fn rendering_of(d: Seq<char>, posts: Seq<Post>, config: Config, now: i64) -> bool {
    exists|sorted: Seq<Post>, f: Feed|
        #![trigger f.is_feed_of(sorted, config, now)]
        newest_first(sorted) && sorted.to_multiset() == posts.to_multiset() && f.is_feed_of(
            sorted,
            config,
            now,
        ) && d == document_of(f)
}

/// Renders the feed of `posts` for `config` at Unix second `now`: the records
/// are put newest first, then written as one RSS document.
pub fn render(posts: Vec<Post>, config: &Config, now: i64) -> (r: Result<String, FeedError>)
    ensures
        r is Ok <==> feed_representable(posts@, now),
        r matches Err(e) ==> e is Render,
        r matches Ok(d) ==> rendering_of(d@, posts@, *config, now),
{
    let ghost orig = posts@;
    let sorted = sort_newest_first(posts);
    proof {
        assert forall|p: Post| sorted@.contains(p) <==> orig.contains(p) by {
            assert(sorted@.to_multiset().count(p) == orig.to_multiset().count(p));
        }
        if feed_representable(orig, now) {
            assert forall|p: Post| sorted@.contains(p) implies rfc2822_representable(
                p.timestamp as int,
            ) by {
                assert(orig.contains(p));
            }
        } else if rfc2822_representable(now as int) {
            let p = choose|p: Post| orig.contains(p) && !rfc2822_representable(p.timestamp as int);
            assert(sorted@.contains(p));
        }
    }
    let feed = match build_feed(&sorted, config, now) {
        Ok(f) => f,
        Err(e) => return Err(e),
    };
    Ok(write_rss(&feed).unwrap())
}

/// No two records share a timestamp.
pub open spec fn distinct_timestamps(s: Seq<Post>) -> bool {
    forall|a: int, b: int| 0 <= a < b < s.len() ==> s[a].timestamp != s[b].timestamp
}

/// `timestamp` strictly decreases along the sequence.
pub open spec fn strictly_newest_first(s: Seq<Post>) -> bool {
    forall|a: int, b: int| 0 <= a < b < s.len() ==> s[a].timestamp > s[b].timestamp
}

/// Put newest first, records with distinct timestamps come in strictly
/// descending order, and the first of them is the newest of all.
pub proof fn lemma_distinct_newest_first(posts: Seq<Post>, sorted: Seq<Post>)
    requires
        distinct_timestamps(posts),
        newest_first(sorted),
        sorted.to_multiset() == posts.to_multiset(),
    ensures
        strictly_newest_first(sorted),
        posts.len() > 0 ==> posts.contains(sorted[0]),
        forall|p: Post| posts.contains(p) ==> p.timestamp <= sorted[0].timestamp,
{
    assert(posts.no_duplicates()) by {
        assert forall|i: int, j: int| 0 <= i < posts.len() && 0 <= j < posts.len() && i != j
            implies posts[i] != posts[j] by {
            if i < j {
                assert(posts[i].timestamp != posts[j].timestamp);
            } else {
                assert(posts[j].timestamp != posts[i].timestamp);
            }
        }
    }
    posts.lemma_multiset_has_no_duplicates();
    sorted.lemma_multiset_has_no_duplicates_conv();
    assert forall|a: int, b: int| 0 <= a < b < sorted.len() implies sorted[a].timestamp
        > sorted[b].timestamp by {
        assert(sorted.contains(sorted[a]));
        assert(sorted.contains(sorted[b]));
        assert(posts.to_multiset().count(sorted[a]) > 0);
        assert(posts.to_multiset().count(sorted[b]) > 0);
        let i = choose|i: int| 0 <= i < posts.len() && posts[i] == sorted[a];
        let j = choose|j: int| 0 <= j < posts.len() && posts[j] == sorted[b];
        if i < j {
            assert(posts[i].timestamp != posts[j].timestamp);
        } else {
            assert(posts[j].timestamp != posts[i].timestamp);
        }
    }
    sorted.to_multiset_ensures();
    posts.to_multiset_ensures();
    if posts.len() > 0 {
        assert(sorted.contains(sorted[0]));
        assert(posts.to_multiset().count(sorted[0]) > 0);
    }
    assert forall|p: Post| posts.contains(p) implies p.timestamp <= sorted[0].timestamp by {
        assert(sorted.to_multiset().count(p) > 0);
        let k = choose|k: int| 0 <= k < sorted.len() && sorted[k] == p;
        if k > 0 {
            assert(sorted[0].timestamp >= sorted[k].timestamp);
        }
    }
}

/// The ordering law of a rendered feed: when no two records share a
/// timestamp, its entries come strictly newest first, and its publish date
/// is that of the newest record.
pub proof fn lemma_rendered_order(d: Seq<char>, posts: Seq<Post>, config: Config, now: i64)
    requires
        rendering_of(d, posts, config, now),
        distinct_timestamps(posts),
    ensures
        exists|sorted: Seq<Post>, f: Feed|
            #![trigger f.is_feed_of(sorted, config, now)]
            {
                &&& strictly_newest_first(sorted)
                &&& sorted.to_multiset() == posts.to_multiset()
                &&& f.is_feed_of(sorted, config, now)
                &&& d == document_of(f)
                &&& f.item_views() == sorted.map_values(|p: Post| item_of(p))
                &&& posts.len() > 0 ==> posts.contains(sorted[0]) && f.pub_date@ == rfc2822_of(
                    sorted[0].timestamp as int,
                ) && forall|p: Post| posts.contains(p) ==> p.timestamp <= sorted[0].timestamp
            },
{
    let (sorted, f) = choose|sorted: Seq<Post>, f: Feed|
        #![trigger f.is_feed_of(sorted, config, now)]
        newest_first(sorted) && sorted.to_multiset() == posts.to_multiset() && f.is_feed_of(
            sorted,
            config,
            now,
        ) && d == document_of(f);
    lemma_distinct_newest_first(posts, sorted);
    assert(sorted.to_multiset().len() == posts.to_multiset().len());
}

/// A feed of no records has no entries, and its publish date is its build
/// date.
pub proof fn lemma_empty_feed(f: Feed, config: Config, now: i64)
    requires
        f.is_feed_of(Seq::empty(), config, now),
    ensures
        f.items@.len() == 0,
        f.pub_date@ == f.last_build_date@,
{
    assert(f.item_views().len() == 0);
}

} // verus!
