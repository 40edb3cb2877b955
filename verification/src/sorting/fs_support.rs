use vstd::prelude::*;
use crate::paths::views_of;

verus! {

/// Whether a directory path is already recorded in the creation cache.
pub open spec fn dir_cache_has(cache: Seq<Seq<char>>, path: Seq<char>) -> bool {
    exists|i: int| 0 <= i < cache.len() && cache[i] == path
}

/// Whether a request for a path must actually create a directory: only when
/// the path is not cached and the request is not a cache-only one.
pub open spec fn needs_create(cache: Seq<Seq<char>>, path: Seq<char>, cache_only: bool) -> bool {
    !dir_cache_has(cache, path) && !cache_only
}

/// Once a path stands in the cache, a request for the same path never asks
/// for another creation: directory creation is idempotent.
pub proof fn lemma_ensure_created_idempotent(
    cache: Seq<Seq<char>>,
    path: Seq<char>,
    cache_only: bool,
)
    ensures
        !needs_create(cache.push(path), path, cache_only),
{
    assert(cache.push(path)[cache.len() as int] == path);
}

/// A simulated run has no side effects on directories: a cache-only request
/// never asks for a creation, whatever the cache holds.
pub proof fn lemma_simulation_requests_no_creation(cache: Seq<Seq<char>>, path: Seq<char>)
    ensures
        !needs_create(cache, path, true),
{
}

/// The single authority over directory creation. It remembers every path it
/// has handled, so each directory is created at most once; under simulation
/// it only records paths and never asks for a creation.
pub struct DirManager {
    pub cache: Vec<String>,
    pub simulate: bool,
}

impl DirManager {
    pub fn new() -> (r: DirManager)
        ensures
            r.cache@.len() == 0,
            r.simulate == false,
    {
        DirManager { cache: Vec::new(), simulate: false }
    }

    /// A manager that records paths without ever creating a directory.
    pub fn new_simulating() -> (r: DirManager)
        ensures
            r.cache@.len() == 0,
            r.simulate == true,
    {
        DirManager { cache: Vec::new(), simulate: true }
    }

    /// Decides what a request for `path` needs. A cached path needs nothing;
    /// an uncached one under `cache_only` or simulation is recorded and needs
    /// nothing; otherwise the caller must create the directory and then
    /// report back through `record_created`.
    pub fn create_path(&mut self, path: &String, cache_only: bool) -> (need: bool)
        ensures
            need == needs_create(
                views_of(old(self).cache@),
                path@,
                cache_only || old(self).simulate,
            ),
            final(self).simulate == old(self).simulate,
            dir_cache_has(views_of(old(self).cache@), path@) ==> views_of(final(self).cache@)
                == views_of(old(self).cache@),
            !dir_cache_has(views_of(old(self).cache@), path@) && (cache_only
                || old(self).simulate) ==> views_of(final(self).cache@) == views_of(
                old(self).cache@,
            ).push(path@),
            need ==> views_of(final(self).cache@) == views_of(old(self).cache@),
    {
        let cached = crate::text::contains_str(&self.cache, path.as_str());
        proof {
            if crate::text::seq_contains_str(self.cache@, path@) {
                let i = choose|i: int|
                    0 <= i < self.cache@.len() && self.cache@[i]@ == path@;
                crate::paths::lemma_views_index(self.cache@, i);
                assert(dir_cache_has(views_of(self.cache@), path@));
            }
            if dir_cache_has(views_of(self.cache@), path@) {
                let i = choose|i: int|
                    0 <= i < views_of(self.cache@).len() && views_of(self.cache@)[i] == path@;
                crate::paths::lemma_views_index(self.cache@, i);
                assert(crate::text::seq_contains_str(self.cache@, path@));
            }
        }
        if cached {
            return false;
        }
        if cache_only || self.simulate {
            let ghost pre = self.cache@;
            self.cache.push(path.clone());
            proof {
                crate::paths::lemma_views_push(pre, self.cache@.last());
                assert(self.cache@ =~= pre.push(self.cache@.last()));
                assert(views_of(self.cache@) =~= views_of(pre).push(path@));
            }
            return false;
        }
        true
    }

    /// Records that the caller has created `path`, so later requests for it
    /// need nothing.
    pub fn record_created(&mut self, path: &String)
        ensures
            final(self).simulate == old(self).simulate,
            views_of(final(self).cache@) == views_of(old(self).cache@).push(path@),
    {
        let ghost pre = self.cache@;
        self.cache.push(path.clone());
        proof {
            crate::paths::lemma_views_push(pre, self.cache@.last());
            assert(self.cache@ =~= pre.push(self.cache@.last()));
            assert(views_of(self.cache@) =~= views_of(pre).push(path@));
        }
    }
}

} // verus!
