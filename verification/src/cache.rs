//! Process-wide cache of loaded sessions, keyed by model id.
//!
//! The cache guarantees load-once-per-key semantics: looking up, deciding
//! to load, and publishing the result form one compound operation on the
//! cache value. A caller that holds the cache exclusively across
//! `get_or_load` therefore never loads the same model twice — a second
//! request for a cached id returns the published entry untouched and never
//! reaches the loader.

use vstd::prelude::*;

use crate::session::InferenceSession;
use crate::session::LoadError;

verus! {

/// One published session under its model id.
#[derive(Debug)]
pub struct CacheEntry {
    pub model_id: String,
    pub session: InferenceSession,
}

/// Map from model id to the one session loaded for it.
#[derive(Debug)]
pub struct SessionCache {
    pub entries: Vec<CacheEntry>,
}

impl SessionCache {
    /// Keys are unique: each model id has at most one entry.
    pub open spec fn wf(self) -> bool {
        forall|i: int, j: int|
            0 <= i < j < self.entries@.len() ==> (#[trigger] self.entries@[i]).model_id@ != (
            #[trigger] self.entries@[j]).model_id@
    }

    /// True when the cache holds an entry for `id`.
    pub open spec fn contains_id(self, id: Seq<char>) -> bool {
        exists|i: int| 0 <= i < self.entries@.len() && (#[trigger] self.entries@[i]).model_id@ == id
    }

    /// The index of the entry for `id`.
    pub open spec fn index_of(self, id: Seq<char>) -> int {
        choose|i: int| 0 <= i < self.entries@.len() && (#[trigger] self.entries@[i]).model_id@ == id
    }

    /// An empty cache.
    pub fn new() -> (r: SessionCache)
        ensures
            r.wf(),
            r.entries@.len() == 0,
            forall|id: Seq<char>| !r.contains_id(id),
    {
        SessionCache { entries: Vec::new() }
    }

    /// Index of the entry for `model_id`, if one is published.
    pub fn find(&self, model_id: &str) -> (r: Option<usize>)
        requires
            self.wf(),
        ensures
            r is Some <==> self.contains_id(model_id@),
            r matches Some(i) ==> i < self.entries@.len() && self.entries@[i as int].model_id@
                == model_id@ && i == self.index_of(model_id@),
    {
        let n = self.entries.len();
        let mut i: usize = 0;
        while i < n
            invariant
                i <= n,
                n == self.entries@.len(),
                self.wf(),
                forall|j: int| 0 <= j < i ==> (#[trigger] self.entries@[j]).model_id@ != model_id@,
            decreases n - i,
        {
            if self.entries[i].model_id.eq(&String::from_str(model_id)) {
                proof {
                    assert(self.entries@[i as int].model_id@ == model_id@);
                    assert(self.contains_id(model_id@));
                    let c = self.index_of(model_id@);
                    assert(0 <= c < self.entries@.len() && self.entries@[c].model_id@ == model_id@);
                    if c < i {
                        assert(self.entries@[c].model_id@ != self.entries@[i as int].model_id@);
                    } else if c > i {
                        assert(self.entries@[i as int].model_id@ != self.entries@[c].model_id@);
                    }
                }
                return Some(i);
            }
            i = i + 1;
        }
        None
    }

    /// Looks up `model_id`; on a miss, runs the loader and publishes its
    /// session under the id before returning.
    ///
    /// Exactly one of three things happens, and the contract separates
    /// them: a hit returns the published entry's index and leaves the
    /// cache untouched (the loader is never consulted); a miss with a
    /// successful load appends exactly one entry holding the loaded
    /// session; a miss with a failed load re-raises the loader's error and
    /// leaves the cache untouched.
    pub fn get_or_load<F: FnOnce() -> Result<InferenceSession, LoadError>>(
        &mut self,
        model_id: &str,
        loader: F,
    ) -> (r: Result<usize, LoadError>)
        requires
            old(self).wf(),
            old(self).contains_id(model_id@) == false ==> call_requires(loader, ()),
        ensures
            final(self).wf(),
            old(self).contains_id(model_id@) ==> *final(self) == *old(self) && (r matches Ok(i)
                && i == old(self).index_of(model_id@)),
            !old(self).contains_id(model_id@) ==> match r {
                Ok(i) => {
                    &&& final(self).entries@.len() == old(self).entries@.len() + 1
                    &&& i + 1 == final(self).entries@.len()
                    &&& final(self).entries@[i as int].model_id@ == model_id@
                    &&& call_ensures(loader, (), Ok(final(self).entries@[i as int].session))
                    &&& final(self).entries@.subrange(0, i as int) == old(self).entries@
                    &&& final(self).contains_id(model_id@)
                },
                Err(e) => *final(self) == *old(self) && call_ensures(loader, (), Err(e)),
            },
    {
        let found = self.find(model_id);
        match found {
            Option::Some(i) => Ok(i),
            Option::None => {
                match loader() {
                    Result::Ok(session) => {
                        let i = self.entries.len();
                        self.entries.push(
                            CacheEntry { model_id: String::from_str(model_id), session },
                        );
                        proof {
                            let cur = self.entries@;
                            let prev = old(self).entries@;
                            assert(cur[i as int].model_id@ == model_id@);
                            assert(cur.subrange(0, i as int) =~= prev);
                            assert forall|a: int, b: int| 0 <= a < b < cur.len() implies (
                            #[trigger] cur[a]).model_id@ != (#[trigger] cur[b]).model_id@ by {
                                if b == i {
                                    assert(cur[a] == prev[a]);
                                }
                            }
                        }
                        Ok(i)
                    },
                    Result::Err(e) => Err(e),
                }
            },
        }
    }

    /// Borrow of the session published at `index`.
    pub fn session_at(&self, index: usize) -> (r: &InferenceSession)
        requires
            index < self.entries@.len(),
        ensures
            *r == self.entries@[index as int].session,
    {
        &self.entries[index].session
    }

    /// Replaces the session at `index`, returning the one it displaces.
    /// The key stays; callers use this to publish per-call state changes.
    pub fn update_session(&mut self, index: usize, session: InferenceSession) -> (r:
        InferenceSession)
        requires
            index < old(self).entries@.len(),
        ensures
            r == old(self).entries@[index as int].session,
            final(self).entries@.len() == old(self).entries@.len(),
            final(self).entries@[index as int].session == session,
            final(self).entries@[index as int].model_id@ == old(
                self,
            ).entries@[index as int].model_id@,
            forall|j: int|
                0 <= j < old(self).entries@.len() && j != index ==> final(self).entries@[j] == old(
                    self,
                ).entries@[j],
            old(self).wf() ==> final(self).wf(),
    {
        let mut entry = self.entries.remove(index);
        let mut displaced = session;
        core::mem::swap(&mut entry.session, &mut displaced);
        self.entries.insert(index, entry);
        displaced
    }

    /// Empties the cache, handing every evicted session back so the owner
    /// can release pipelines and locks. This is the explicit eviction the
    /// single-model desktop mode performs before loading a different id.
    pub fn clear(&mut self) -> (r: Vec<InferenceSession>)
        ensures
            final(self).entries@.len() == 0,
            final(self).wf(),
            r@.len() == old(self).entries@.len(),
            forall|j: int|
                0 <= j < r@.len() ==> r@[j] == (#[trigger] old(self).entries@[j]).session,
    {
        let mut out: Vec<InferenceSession> = Vec::new();
        let ghost orig = self.entries@;
        while self.entries.len() > 0
            invariant
                out@.len() + self.entries@.len() == orig.len(),
                self.entries@ =~= orig.subrange(out@.len() as int, orig.len() as int),
                forall|j: int| 0 <= j < out@.len() ==> out@[j] == (#[trigger] orig[j]).session,
            decreases self.entries@.len(),
        {
            let entry = self.entries.remove(0);
            out.push(entry.session);
        }
        out
    }
}

} // verus!
