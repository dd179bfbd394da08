use crate::config::Config;
use crate::feed::{feed_representable, render, rendering_of, FeedError};
use crate::post::Post;
use vstd::prelude::*;

verus! {

/// What the cache holds: whether the document has been produced in this
/// process's lifetime, and the document.
pub struct CacheView {
    pub fresh: bool,
    pub document: Seq<char>,
}

/// A stale cache holds no document.
pub open spec fn cache_wf(v: CacheView) -> bool {
    !v.fresh ==> v.document.len() == 0
}

/// The cache before any regeneration.
pub open spec fn initial_cache() -> CacheView {
    CacheView { fresh: false, document: Seq::empty() }
}

/// The cache after a regeneration that produced `outcome`: a produced
/// document is published together with the fresh flag; a failure changes
/// nothing.
pub open spec fn after_refresh(v: CacheView, outcome: Option<Seq<char>>) -> CacheView {
    match outcome {
        Some(d) => CacheView { fresh: true, document: d },
        None => v,
    }
}

/// The cache after regenerations that completed in the order of `outcomes`.
pub open spec fn after_all(v: CacheView, outcomes: Seq<Option<Seq<char>>>) -> CacheView
    decreases outcomes.len(),
{
    if outcomes.len() == 0 {
        v
    } else {
        after_refresh(after_all(v, outcomes.drop_last()), outcomes.last())
    }
}

/// What a read sees: the document when fresh, or nothing, in which case the
/// reader regenerates.
pub open spec fn read_view(v: CacheView) -> Option<Seq<char>> {
    if v.fresh {
        Some(v.document)
    } else {
        None
    }
}

/// The first step of a read.
#[derive(Debug)]
pub enum ReadStep {
    /// The cache is fresh: serve this document.
    Serve(String),
    /// The cache is stale: read the store and call `refresh`.
    Regenerate,
}

/// The single cached feed document and its freshness flag.
pub struct RssCtx {
    initialized: bool,
    latest: String,
}

impl View for RssCtx {
    type V = CacheView;

    closed spec fn view(&self) -> CacheView {
        CacheView { fresh: self.initialized, document: self.latest@ }
    }
}

impl RssCtx {
    /// A stale cache with an empty document.
    pub fn new() -> (r: Self)
        ensures
            r@ == initial_cache(),
    {
        RssCtx { initialized: false, latest: String::new() }
    }

    /// Whether a document has been published.
    pub fn is_initialized(&self) -> (r: bool)
        ensures
            r == self@.fresh,
    {
        self.initialized
    }

    /// The published document, empty while stale.
    pub fn get_latest(&self) -> (r: String)
        ensures
            r@ == self@.document,
    {
        self.latest.clone()
    }

    /// Publishes a document and marks the cache fresh, in one step.
    pub fn set_latest(&mut self, new_latest: String)
        ensures
            final(self)@ == after_refresh(old(self)@, Some(new_latest@)),
    {
        self.latest = new_latest;
        self.initialized = true;
    }

    /// Decides a read: serve when fresh, regenerate when stale. A read never
    /// changes the cache.
    pub fn begin_read(&self) -> (r: ReadStep)
        ensures
            r matches ReadStep::Serve(d) ==> read_view(self@) == Some(d@),
            r is Regenerate ==> read_view(self@) is None,
    {
        if self.is_initialized() {
            ReadStep::Serve(self.get_latest())
        } else {
            ReadStep::Regenerate
        }
    }

    /// Completes a regeneration from what the store returned: on success the
    /// rendered document is published and returned; on any failure the
    /// error is returned and the cache is left as it was.
    pub fn refresh(&mut self, loaded: Result<Vec<Post>, FeedError>, config: &Config, now: i64) -> (r:
        Result<String, FeedError>)
        requires
            cache_wf(old(self)@),
        ensures
            cache_wf(final(self)@),
            final(self)@ == after_refresh(
                old(self)@,
                match r {
                    Ok(d) => Some(d@),
                    Err(_) => None,
                },
            ),
            loaded matches Err(e) ==> r == Err::<String, FeedError>(e),
            loaded matches Ok(posts) ==> {
                &&& (r is Ok) == feed_representable(posts@, now)
                &&& (r matches Err(e) ==> e is Render)
                &&& (r matches Ok(d) ==> rendering_of(d@, posts@, *config, now))
            },
    {
        match loaded {
            Err(e) => Err(e),
            Ok(posts) => match render(posts, config, now) {
                Ok(d) => {
                    self.set_latest(d.clone());
                    Ok(d)
                },
                Err(e) => Err(e),
            },
        }
    }
}

/// Once a regeneration has published a document, every later read is served
/// that same document, without touching the store.
pub proof fn lemma_fresh_reads_stable(v: CacheView, d: Seq<char>)
    ensures
        read_view(after_refresh(v, Some(d))) == Some(d),
        cache_wf(after_refresh(v, Some(d))),
{
}

/// Regenerations that overlap complete in some order, each publishing a
/// whole document. Whatever the order, once one of them has succeeded the
/// cache is fresh and holds exactly the document of the last success; a
/// stale cache holds no document until then.
pub proof fn lemma_concurrent_first_access(outcomes: Seq<Option<Seq<char>>>)
    ensures
        cache_wf(after_all(initial_cache(), outcomes)),
        (exists|i: int| 0 <= i < outcomes.len() && outcomes[i] is Some) ==> {
            let v = after_all(initial_cache(), outcomes);
            &&& v.fresh
            &&& exists|i: int|
                0 <= i < outcomes.len() && #[trigger] outcomes[i] == Some(v.document)
        },
    decreases outcomes.len(),
{
    if outcomes.len() > 0 {
        let rest = outcomes.drop_last();
        lemma_concurrent_first_access(rest);
        if (exists|i: int| 0 <= i < outcomes.len() && outcomes[i] is Some) {
            if outcomes.last() is Some {
                assert(outcomes[outcomes.len() - 1] == Some(after_all(initial_cache(), outcomes).document));
            } else {
                let i = choose|i: int| 0 <= i < outcomes.len() && outcomes[i] is Some;
                assert(rest[i] is Some);
                let j = choose|j: int| 0 <= j < rest.len() && #[trigger] rest[j] == Some(after_all(initial_cache(), rest).document);
                assert(outcomes[j] == rest[j]);
            }
        }
    }
}

/// A failed regeneration leaves a stale cache stale, and the next successful
/// one populates it as if the failure had not happened.
pub proof fn lemma_failure_then_retry(v: CacheView, d: Seq<char>)
    requires
        !v.fresh,
    ensures
        after_refresh(v, None) == v,
        read_view(after_refresh(v, None)) is None,
        after_refresh(after_refresh(v, None), Some(d)) == after_refresh(v, Some(d)),
        read_view(after_refresh(after_refresh(v, None), Some(d))) == Some(d),
{
}

} // verus!
