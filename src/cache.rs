//! The disk cache: one record per recipe uid, trusted only while its content
//! hash matches the catalog's.
use crate::recipe::Recipe;
use vstd::prelude::*;

verus! {

/// The directory, relative to the working directory, that holds the records.
pub const CACHE_DIR: &'static str = "recipe_cache";

/// What reading the record filed under a uid gave.
#[derive(Clone, Debug, PartialEq, Eq)]
pub enum StoredRecord {
    /// No record is filed under the uid.
    Absent,
    /// A record exists but could not be read.
    Unreadable,
    /// A record was read but does not decode as a recipe.
    Corrupt,
    /// The recipe the record holds.
    Present(Recipe),
}

/// What a cache lookup decides.
#[derive(Clone, Debug, PartialEq, Eq)]
pub enum CacheVerdict {
    /// The record is valid: here is its recipe.
    Hit(Recipe),
    /// The record is stale or corrupt: remove it, and treat the lookup as a miss.
    Evict,
    /// Nothing usable is cached; nothing to remove.
    Miss,
}

/// The path of the record filed under a uid.
pub open spec fn path_of(uid: Seq<char>) -> Seq<char> {
    CACHE_DIR@ + "/"@ + uid
}

/// The decision for a record read under an entry whose current content hash
/// is `expected_hash`.
pub open spec fn verdict(stored: StoredRecord, expected_hash: Seq<char>) -> CacheVerdict {
    match stored {
        StoredRecord::Absent => CacheVerdict::Miss,
        StoredRecord::Unreadable => CacheVerdict::Miss,
        StoredRecord::Corrupt => CacheVerdict::Evict,
        StoredRecord::Present(recipe) => if recipe.hash@ == expected_hash {
            CacheVerdict::Hit(recipe)
        } else {
            CacheVerdict::Evict
        },
    }
}

/// The path under which the record of a uid is read and written.
pub fn record_path(uid: &String) -> (r: String)
    ensures
        r@ == path_of(uid@),
{
    let mut path = CACHE_DIR.to_owned();
    path.append("/");
    path.append(uid.as_str());
    path
}

/// Judges the record read for a catalog entry with the given content hash.
pub fn check_record(stored: StoredRecord, expected_hash: &String) -> (r: CacheVerdict)
    ensures
        r == verdict(stored, expected_hash@),
        stored matches StoredRecord::Present(recipe) && recipe.hash@ != expected_hash@ ==> r
            is Evict,
{
    match stored {
        StoredRecord::Absent => CacheVerdict::Miss,
        StoredRecord::Unreadable => CacheVerdict::Miss,
        StoredRecord::Corrupt => CacheVerdict::Evict,
        StoredRecord::Present(recipe) => {
            if recipe.hash == *expected_hash {
                CacheVerdict::Hit(recipe)
            } else {
                CacheVerdict::Evict
            }
        },
    }
}

/// A recipe put into the cache comes back whole when it is looked up under its
/// own uid and content hash: the lookup reads the path the put wrote, no record
/// of another uid is filed under that path, and the record is a hit.
pub proof fn lemma_cache_round_trip(recipe: Recipe, other_uid: Seq<char>)
    ensures
        verdict(StoredRecord::Present(recipe), recipe.hash@) == CacheVerdict::Hit(recipe),
        other_uid != recipe.uid@ ==> path_of(other_uid) != path_of(recipe.uid@),
{
    let prefix = CACHE_DIR@ + "/"@;
    if path_of(other_uid) == path_of(recipe.uid@) {
        assert((prefix + other_uid).subrange(prefix.len() as int, path_of(other_uid).len() as int)
            =~= other_uid);
        assert((prefix + recipe.uid@).subrange(
            prefix.len() as int,
            path_of(recipe.uid@).len() as int,
        ) =~= recipe.uid@);
    }
}

/// A stored record whose hash differs from the catalog entry's is no hit: the
/// lookup evicts it.
pub proof fn lemma_stale_record_evicted(recipe: Recipe, expected_hash: Seq<char>)
    requires
        recipe.hash@ != expected_hash,
    ensures
        verdict(StoredRecord::Present(recipe), expected_hash) == CacheVerdict::Evict,
{
}

} // verus!
