//! The decoded images the renderer keeps, keyed by file path and modification time:
//! one version per path, and at most a fixed number of images.

use vstd::prelude::*;
use crate::raster::{CachedDecodedImage, CachedImageView};

verus! {

/// How many decoded images the cache holds at most.
pub const IMAGE_ASSET_CACHE_LIMIT: usize = 64;

struct ImageCacheEntry {
    path: String,
    modified_unix_ms: u64,
    image: CachedDecodedImage,
}

/// Decoded images by path and modification time.
pub struct ImageAssetCache {
    entries: Vec<ImageCacheEntry>,
}

/// An entry of the cache: path, modification time and image.
pub type CacheEntryView = (Seq<char>, u64, CachedImageView);

/// The position of the entry for `path`.
pub open spec fn path_index(es: Seq<CacheEntryView>, path: Seq<char>) -> Option<int> {
    if exists|i: int| 0 <= i < es.len() && (#[trigger] es[i]).0 == path {
        Some(choose|i: int| 0 <= i < es.len() && (#[trigger] es[i]).0 == path)
    } else {
        None
    }
}

/// The image cached for `path` as modified at `modified_unix_ms`.
pub open spec fn cache_lookup(es: Seq<CacheEntryView>, path: Seq<char>, modified_unix_ms: u64) -> Option<CachedImageView> {
    match path_index(es, path) {
        Some(i) => if es[i].1 == modified_unix_ms {
            Some(es[i].2)
        } else {
            None
        },
        None => None,
    }
}

/// The entries for other paths, in their order.
pub open spec fn without_path(es: Seq<CacheEntryView>, path: Seq<char>) -> Seq<CacheEntryView>
    decreases es.len(),
{
    if es.len() == 0 {
        seq![]
    } else if es.last().0 == path {
        without_path(es.drop_last(), path)
    } else {
        without_path(es.drop_last(), path).push(es.last())
    }
}

/// The entries after storing an image: other versions of its path are dropped, the
/// image goes last, and the oldest entry goes when there are too many.
pub open spec fn cache_store(es: Seq<CacheEntryView>, path: Seq<char>, modified_unix_ms: u64, image: CachedImageView) -> Seq<CacheEntryView> {
    let pushed = without_path(es, path).push((path, modified_unix_ms, image));
    if pushed.len() > IMAGE_ASSET_CACHE_LIMIT {
        pushed.drop_first()
    } else {
        pushed
    }
}

/// No two entries share a path.
pub open spec fn paths_unique(es: Seq<CacheEntryView>) -> bool {
    forall|i: int, j: int| 0 <= i < j < es.len() ==> (#[trigger] es[i]).0 != (#[trigger] es[j]).0
}

proof fn lemma_without_path(es: Seq<CacheEntryView>, path: Seq<char>)
    ensures
        without_path(es, path).len() <= es.len(),
        forall|k: int| 0 <= k < without_path(es, path).len() ==> (#[trigger] without_path(es, path)[k]).0 != path,
        forall|k: int| 0 <= k < without_path(es, path).len() ==> es.contains(#[trigger] without_path(es, path)[k]),
        forall|k: int| 0 <= k < es.len() && (#[trigger] es[k]).0 != path ==> without_path(es, path).contains(es[k]),
        paths_unique(es) ==> paths_unique(without_path(es, path)),
    decreases es.len(),
{
    if es.len() > 0 {
        let rest = es.drop_last();
        lemma_without_path(rest, path);
        let w = without_path(rest, path);
        assert forall|k: int| 0 <= k < w.len() implies es.contains(#[trigger] w[k]) by {
            let j = choose|j: int| 0 <= j < rest.len() && rest[j] == w[k];
            assert(es[j] == w[k]);
        }
        assert forall|k: int| 0 <= k < es.len() && (#[trigger] es[k]).0 != path implies without_path(es, path).contains(
            es[k]) by {
            if k < es.len() - 1 {
                assert(rest[k] == es[k]);
                let j = choose|j: int| 0 <= j < w.len() && w[j] == es[k];
                if es.last().0 != path {
                    assert(without_path(es, path)[j] == es[k]);
                }
            } else {
                assert(without_path(es, path)[w.len() as int] == es[k]);
            }
        }
        if paths_unique(es) {
            assert(paths_unique(rest)) by {
                assert forall|i: int, j: int| 0 <= i < j < rest.len() implies (#[trigger] rest[i]).0 != (#[trigger] rest[j]).0 by {
                    assert(rest[i] == es[i] && rest[j] == es[j]);
                }
            }
            if es.last().0 != path {
                let v = w.push(es.last());
                assert forall|i: int, j: int| 0 <= i < j < v.len() implies (#[trigger] v[i]).0 != (#[trigger] v[j]).0 by {
                    if j == w.len() {
                        assert(es.contains(w[i]));
                        let m = choose|m: int| 0 <= m < es.len() && es[m] == w[i];
                        assert(rest.contains(w[i]));
                        let m2 = choose|m2: int| 0 <= m2 < rest.len() && rest[m2] == w[i];
                        assert(es[m2] == w[i]);
                        assert(es[es.len() - 1] == es.last());
                    } else {
                        assert(v[i] == w[i] && v[j] == w[j]);
                    }
                }
            }
        }
    } else {
        assert(without_path(es, path) =~= Seq::<CacheEntryView>::empty());
    }
}

proof fn lemma_store_shape(es: Seq<CacheEntryView>, path: Seq<char>, modified_unix_ms: u64, image: CachedImageView)
    requires
        es.len() <= IMAGE_ASSET_CACHE_LIMIT,
    ensures
        ({
            let out = cache_store(es, path, modified_unix_ms, image);
            &&& out.len() > 0
            &&& out.last() == (path, modified_unix_ms, image)
            &&& forall|k: int| 0 <= k < out.len() - 1 ==> (#[trigger] out[k]).0 != path && es.contains(out[k])
        }),
{
    lemma_without_path(es, path);
    let w = without_path(es, path);
    let pushed = w.push((path, modified_unix_ms, image));
    let out = cache_store(es, path, modified_unix_ms, image);
    assert forall|k: int| 0 <= k < out.len() - 1 implies (#[trigger] out[k]).0 != path && es.contains(out[k]) by {
        if pushed.len() > IMAGE_ASSET_CACHE_LIMIT {
            assert(out[k] == w[k + 1]);
        } else {
            assert(out[k] == w[k]);
        }
    }
}

/// A stored image is found again under its path and modification time.
pub proof fn lemma_cache_store_then_get(es: Seq<CacheEntryView>, path: Seq<char>, modified_unix_ms: u64, image: CachedImageView)
    requires
        es.len() <= IMAGE_ASSET_CACHE_LIMIT,
    ensures
        cache_lookup(cache_store(es, path, modified_unix_ms, image), path, modified_unix_ms) == Some(image),
{
    lemma_store_shape(es, path, modified_unix_ms, image);
    let out = cache_store(es, path, modified_unix_ms, image);
    assert(out[out.len() - 1].0 == path);
    let i = choose|i: int| 0 <= i < out.len() && (#[trigger] out[i]).0 == path;
    assert(i == out.len() - 1);
}

/// Storing an image for a path leaves no other version of that path in the cache.
pub proof fn lemma_cache_store_replaces_versions(
    es: Seq<CacheEntryView>,
    path: Seq<char>,
    modified_unix_ms: u64,
    image: CachedImageView,
    other_modified_unix_ms: u64,
)
    requires
        es.len() <= IMAGE_ASSET_CACHE_LIMIT,
        other_modified_unix_ms != modified_unix_ms,
    ensures
        cache_lookup(cache_store(es, path, modified_unix_ms, image), path, other_modified_unix_ms) is None,
{
    lemma_store_shape(es, path, modified_unix_ms, image);
    let out = cache_store(es, path, modified_unix_ms, image);
    assert(out[out.len() - 1].0 == path);
    let i = choose|i: int| 0 <= i < out.len() && (#[trigger] out[i]).0 == path;
    assert(i == out.len() - 1);
}

/// Storing an image never changes what is cached for another path: an entry of
/// another path either stays as it was or is dropped as the oldest.
pub proof fn lemma_cache_store_keeps_other_paths(
    es: Seq<CacheEntryView>,
    path: Seq<char>,
    modified_unix_ms: u64,
    image: CachedImageView,
    other: Seq<char>,
    other_modified_unix_ms: u64,
)
    requires
        es.len() <= IMAGE_ASSET_CACHE_LIMIT,
        paths_unique(es),
        other != path,
    ensures
        cache_lookup(cache_store(es, path, modified_unix_ms, image), other, other_modified_unix_ms) is None
            || cache_lookup(cache_store(es, path, modified_unix_ms, image), other, other_modified_unix_ms)
            == cache_lookup(es, other, other_modified_unix_ms),
{
    lemma_store_shape(es, path, modified_unix_ms, image);
    let out = cache_store(es, path, modified_unix_ms, image);
    if exists|i: int| 0 <= i < out.len() && (#[trigger] out[i]).0 == other {
        let i = choose|i: int| 0 <= i < out.len() && (#[trigger] out[i]).0 == other;
        assert(i != out.len() - 1);
        assert(es.contains(out[i]));
        let j = choose|j: int| 0 <= j < es.len() && es[j] == out[i];
        assert(es[j].0 == other);
        let j2 = choose|j2: int| 0 <= j2 < es.len() && (#[trigger] es[j2]).0 == other;
        assert(j2 == j);
    }
}

impl ImageAssetCache {
    /// The cached images, each with its path and modification time, oldest first.
    pub closed spec fn entries(&self) -> Seq<CacheEntryView> {
        self.entries@.map_values(|e: ImageCacheEntry| (e.path@, e.modified_unix_ms, e.image@))
    }

    /// One entry per path, and no more entries than the limit.
    pub open spec fn wf(&self) -> bool {
        &&& self.entries().len() <= IMAGE_ASSET_CACHE_LIMIT
        &&& paths_unique(self.entries())
    }

    /// An empty cache.
    pub fn new() -> (r: ImageAssetCache)
        ensures
            r.wf(),
            r.entries().len() == 0,
    {
        let r = ImageAssetCache { entries: Vec::new() };
        assert(r.entries() =~= Seq::<CacheEntryView>::empty());
        r
    }

    /// The image cached for `path` as modified at `modified_unix_ms`, if there is one.
    pub fn get(&self, path: &str, modified_unix_ms: u64) -> (r: Option<CachedDecodedImage>)
        requires
            self.wf(),
        ensures
            match r {
                Some(image) => cache_lookup(self.entries(), path@, modified_unix_ms) == Some(image@),
                None => cache_lookup(self.entries(), path@, modified_unix_ms) is None,
            },
    {
        let ghost es = self.entries();
        let mut i: usize = 0;
        while i < self.entries.len()
            invariant
                es == self.entries(),
                i <= es.len(),
                paths_unique(es),
                forall|k: int| 0 <= k < i ==> (#[trigger] es[k]).0 != path@,
            decreases es.len() - i,
        {
            let e = &self.entries[i];
            assert(es[i as int] == (e.path@, e.modified_unix_ms, e.image@));
            if crate::text::str_eq(e.path.as_str(), path) {
                proof {
                    assert(es[i as int].0 == path@);
                    let j = choose|j: int| 0 <= j < es.len() && (#[trigger] es[j]).0 == path@;
                    assert(j == i);
                }
                if e.modified_unix_ms == modified_unix_ms {
                    return Some(e.image.copy());
                }
                return None;
            }
            i = i + 1;
        }
        None
    }

    /// Stores a freshly decoded image for `path` as modified at `modified_unix_ms`.
    pub fn store(&mut self, path: String, modified_unix_ms: u64, image: CachedDecodedImage)
        requires
            old(self).wf(),
        ensures
            final(self).wf(),
            final(self).entries() == cache_store(old(self).entries(), path@, modified_unix_ms, image@),
    {
        let ghost es = self.entries();
        let ghost p = path@;
        let mut rest: Vec<ImageCacheEntry> = Vec::new();
        std::mem::swap(&mut rest, &mut self.entries);
        let mut kept: Vec<ImageCacheEntry> = Vec::new();
        let ghost mut n: int = 0;
        while rest.len() > 0
            invariant
                0 <= n <= es.len(),
                rest@.map_values(|e: ImageCacheEntry| (e.path@, e.modified_unix_ms, e.image@)) == es.skip(n),
                kept@.map_values(|e: ImageCacheEntry| (e.path@, e.modified_unix_ms, e.image@)) == without_path(es.take(n), p),
                p == path@,
            decreases rest@.len(),
        {
            let ghost before = rest@;
            proof {
                assert(before.map_values(|e: ImageCacheEntry| (e.path@, e.modified_unix_ms, e.image@)).len() == before.len());
                assert(n < es.len());
            }
            let e = rest.remove(0);
            proof {
                assert(es.skip(n)[0] == (e.path@, e.modified_unix_ms, e.image@));
                assert(es.take(n + 1).drop_last() =~= es.take(n));
                assert(es.take(n + 1).last() == es.skip(n)[0]);
                let f = |e: ImageCacheEntry| (e.path@, e.modified_unix_ms, e.image@);
                assert(rest@ =~= before.remove(0));
                assert forall|k: int| 0 <= k < rest@.len() implies rest@.map_values(f)[k] == es.skip(n + 1)[k] by {
                    assert(rest@[k] == before[k + 1]);
                    assert(before.map_values(f)[k + 1] == es.skip(n)[k + 1]);
                }
                assert(rest@.map_values(f) =~= es.skip(n + 1));
            }
            if !crate::text::str_eq(e.path.as_str(), path.as_str()) {
                let ghost kv = kept@;
                kept.push(e);
                proof {
                    assert(kept@.map_values(|e: ImageCacheEntry| (e.path@, e.modified_unix_ms, e.image@)) =~= kv.map_values(
                        |e: ImageCacheEntry| (e.path@, e.modified_unix_ms, e.image@)).push(es.take(n + 1).last()));
                }
            }
            proof {
                n = n + 1;
            }
        }
        proof {
            assert(es.take(n) =~= es);
        }
        let ghost kv = kept@;
        kept.push(ImageCacheEntry { path, modified_unix_ms, image });
        let ghost pushed = without_path(es, p).push((p, modified_unix_ms, image@));
        proof {
            assert(kept@.map_values(|e: ImageCacheEntry| (e.path@, e.modified_unix_ms, e.image@)) =~= pushed);
            lemma_without_path(es, p);
        }
        if kept.len() > IMAGE_ASSET_CACHE_LIMIT {
            kept.remove(0);
            proof {
                assert(kept@.map_values(|e: ImageCacheEntry| (e.path@, e.modified_unix_ms, e.image@)) =~= pushed.drop_first());
            }
        }
        self.entries = kept;
        proof {
            let out = self.entries();
            assert(out == cache_store(es, p, modified_unix_ms, image@));
            assert forall|i: int, j: int| 0 <= i < j < pushed.len() implies (#[trigger] pushed[i]).0 != (#[trigger] pushed[j]).0 by {
                let w = without_path(es, p);
                if j == w.len() {
                    assert(pushed[i] == w[i]);
                } else {
                    assert(pushed[i] == w[i] && pushed[j] == w[j]);
                }
            }
            if pushed.len() > IMAGE_ASSET_CACHE_LIMIT {
                assert forall|i: int, j: int| 0 <= i < j < out.len() implies (#[trigger] out[i]).0 != (#[trigger] out[j]).0 by {
                    assert(out[i] == pushed[i + 1] && out[j] == pushed[j + 1]);
                }
            }
        }
    }
}

} // verus!
