//! The registry as a service shared between the scheduler and its readers:
//! every operation runs under the registry's own lock, so a reader sees the
//! registry as it was before or after a write, never in between.
use crate::paprika::Paprika;
use crate::recipe::Recipe;
use crate::recipe_fetcher::{is_step, RecipeFetcher, SyncAction, SyncEvent, SyncState};
use crate::registry::{same_content, unique_uids, Registry};
use vstd::prelude::*;
use vstd::rwlock::{RwLock, RwLockPredicate};

verus! {

/// What every registry held by the lock satisfies: unique uids.
pub struct UniqueUids;

impl RwLockPredicate<Registry> for UniqueUids {
    open spec fn inv(self, v: Registry) -> bool {
        unique_uids(v@)
    }
}

/// A registry behind a reader-writer lock.
pub struct SharedRegistry {
    lock: RwLock<Registry, UniqueUids>,
}

impl SharedRegistry {
    pub fn new() -> (r: SharedRegistry) {
        SharedRegistry { lock: RwLock::new(Registry::new(), Ghost(UniqueUids)) }
    }

    /// Upserts the recipe under the write lock.
    pub fn upsert(&self, recipe: Recipe) {
        let (mut registry, handle) = self.lock.acquire_write();
        registry.upsert(recipe);
        handle.release_write(registry);
    }

    /// Empties the registry under the write lock.
    pub fn clear(&self) {
        let (mut registry, handle) = self.lock.acquire_write();
        registry.clear();
        handle.release_write(registry);
    }

    /// A copy of the registry as it stood at one moment: each recipe whole,
    /// uids unique.
    pub fn snapshot(&self) -> (r: Vec<Recipe>)
        ensures
            exists|state: Seq<Recipe>|
                #[trigger] unique_uids(state) && r@.len() == state.len() && forall|i: int|
                    0 <= i < r@.len() ==> same_content(#[trigger] r@[i], state[i]),
    {
        let handle = self.lock.acquire_read();
        let copy = handle.borrow().snapshot();
        proof {
            let state = handle.view()@;
            assert(unique_uids(state));
        }
        handle.release_read();
        copy
    }

    /// A copy of the recipe with the uid, if the registry holds one.
    pub fn find(&self, uid: &String) -> (r: Option<Recipe>)
        ensures
            r matches Some(recipe) ==> recipe.uid@ == uid@,
    {
        let handle = self.lock.acquire_read();
        let found = match handle.borrow().find(uid) {
            Some(recipe) => Some(recipe.duplicate()),
            None => None,
        };
        handle.release_read();
        found
    }

    /// One scheduler step, taken whole under the write lock: it is a step of
    /// the scheduler from the registry as it stood when the lock was taken.
    pub fn step(&self, fetcher: &mut RecipeFetcher, paprika: &mut Paprika, event: SyncEvent) -> (r:
        SyncAction)
        ensures
            exists|before: Seq<Recipe>, after: Seq<Recipe>|
                #[trigger] is_step(
                    SyncState { session: old(paprika)@, pending: old(fetcher)@, registry: before },
                    event,
                    SyncState { session: final(paprika)@, pending: final(fetcher)@, registry: after },
                    r@,
                ),
    {
        let (mut registry, handle) = self.lock.acquire_write();
        let ghost before = registry@;
        let action = fetcher.step(paprika, &mut registry, event);
        let ghost after = registry@;
        assert(is_step(
            SyncState { session: old(paprika)@, pending: old(fetcher)@, registry: before },
            event,
            SyncState { session: paprika@, pending: fetcher@, registry: after },
            action@,
        ));
        handle.release_write(registry);
        action
    }
}

} // verus!
