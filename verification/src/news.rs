//! The news service's cache. Fetching articles is the collaborator's
//! business outside; this module decides when the cache answers and
//! when it must be refilled.

use vstd::prelude::*;

verus! {

/// How long cached news stays fresh, in milliseconds: five minutes.
pub const NEWS_CACHE_TTL_MS: i64 = 300_000;

/// The latest timestamp the cache accepts, a machine limit that keeps
/// `now + NEWS_CACHE_TTL_MS` representable.
pub const MAX_TIMESTAMP: i64 = 4_000_000_000_000_000;

/// One news article as the provider hands it over.
#[derive(Debug)]
pub struct NewsItem {
    pub id: String,
    pub title: String,
    pub description: String,
    pub url: String,
    pub image_url: Option<String>,
    pub source: String,
    pub published_at: String,
    pub categories: Vec<String>,
}

/// Whether two news items carry the same content, category list
/// compared as a sequence.
pub open spec fn item_eq(a: NewsItem, b: NewsItem) -> bool {
    &&& a.id == b.id
    &&& a.title == b.title
    &&& a.description == b.description
    &&& a.url == b.url
    &&& a.image_url == b.image_url
    &&& a.source == b.source
    &&& a.published_at == b.published_at
    &&& a.categories@ == b.categories@
}

fn clone_categories(v: &Vec<String>) -> (r: Vec<String>)
    ensures
        r@ == v@,
{
    let mut r: Vec<String> = Vec::new();
    let mut i: usize = 0;
    while i < v.len()
        invariant
            i <= v.len(),
            r@ == v@.subrange(0, i as int),
        decreases v.len() - i,
    {
        r.push(v[i].clone());
        i = i + 1;
    }
    proof {
        assert(r@ =~= v@);
    }
    r
}

impl Clone for NewsItem {
    /// A copy with the same content.
    fn clone(&self) -> (res: Self)
        ensures
            item_eq(res, *self),
    {
        NewsItem {
            id: self.id.clone(),
            title: self.title.clone(),
            description: self.description.clone(),
            url: self.url.clone(),
            image_url: match &self.image_url {
                Some(u) => Some(u.clone()),
                None => None,
            },
            source: self.source.clone(),
            published_at: self.published_at.clone(),
            categories: clone_categories(&self.categories),
        }
    }
}

/// A cached value and the moment it goes stale.
#[derive(Debug)]
pub struct CacheEntry<T> {
    pub data: T,
    pub expires_at: i64,
}

impl<T> CacheEntry<T> {
    /// Caches a value for `ttl_ms` from `now`.
    pub fn new(data: T, now: i64, ttl_ms: i64) -> (r: Self)
        requires
            0 <= now <= MAX_TIMESTAMP,
            0 <= ttl_ms <= MAX_TIMESTAMP,
        ensures
            r.data == data,
            r.expires_at == now + ttl_ms,
    {
        CacheEntry { data, expires_at: now + ttl_ms }
    }

    /// Whether the entry has gone stale at `now`.
    pub fn is_expired(&self, now: i64) -> (r: bool)
        ensures
            r == (now > self.expires_at),
    {
        now > self.expires_at
    }
}

/// The news service's cache of crypto articles.
pub struct NewsService {
    crypto_cache: Option<CacheEntry<Vec<NewsItem>>>,
}

impl NewsService {
    /// The cached articles, if a fresh-or-stale batch is held at all.
    pub closed spec fn cache(&self) -> Option<CacheEntry<Vec<NewsItem>>> {
        self.crypto_cache
    }

    /// A service with an empty cache.
    pub fn new() -> (r: Self)
        ensures
            r.cache() is None,
    {
        NewsService { crypto_cache: None }
    }

    /// Answers from the cache: up to `limit` articles, but only while
    /// the cached batch is fresh at `now`. A stale or empty cache
    /// answers nothing — the caller must fetch and store a new batch.
    pub fn cached_crypto_news(&self, now: i64, limit: usize) -> (r: Option<Vec<NewsItem>>)
        ensures
            match r {
                Some(v) => {
                    &&& self.cache() matches Some(entry)
                    &&& !(now > entry.expires_at)
                    &&& v@.len() == if limit <= entry.data@.len() {
                        limit as int
                    } else {
                        entry.data@.len() as int
                    }
                    &&& forall|i: int| 0 <= i < v@.len() ==> item_eq(v@[i], entry.data@[i])
                },
                None => match self.cache() {
                    Some(entry) => now > entry.expires_at,
                    None => true,
                },
            },
    {
        let entry = match &self.crypto_cache {
            Some(e) => e,
            None => {
                return None;
            },
        };
        if entry.is_expired(now) {
            return None;
        }
        let take = if limit <= entry.data.len() {
            limit
        } else {
            entry.data.len()
        };
        let mut v: Vec<NewsItem> = Vec::new();
        let mut i: usize = 0;
        while i < take
            invariant
                i <= take,
                take <= entry.data@.len(),
                v@.len() == i,
                forall|j: int| 0 <= j < i ==> item_eq(v@[j], entry.data@[j]),
            decreases take - i,
        {
            v.push(entry.data[i].clone());
            i = i + 1;
        }
        Some(v)
    }

    /// Stores a freshly fetched batch, replacing whatever was cached,
    /// fresh for [`NEWS_CACHE_TTL_MS`] from `now`.
    pub fn store_crypto_news(&mut self, items: Vec<NewsItem>, now: i64)
        requires
            0 <= now <= MAX_TIMESTAMP,
        ensures
            final(self).cache() matches Some(entry) && entry.data == items && entry.expires_at
                == now + NEWS_CACHE_TTL_MS,
    {
        self.crypto_cache = Some(CacheEntry::new(items, now, NEWS_CACHE_TTL_MS));
    }
}

} // verus!
