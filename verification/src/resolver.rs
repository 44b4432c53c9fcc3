//! Species resolution: mapping a local taxon entry to a registry species
//! row, handling the first-seen, resumed and duplicate-key cases.
//!
//! The remote species search itself is performed by the surrounding
//! application; [`resolve_local`] decides whether any remote call is needed
//! at all, and [`resolve_with_search_result`] applies what the search
//! returned.

use vstd::prelude::*;

use crate::db::{IgnoredSpecies, Species, Store, MAX_ROWS};
use crate::taxref::Entry;
use crate::Error;

verus! {

/// What the store alone says about resolving a name.
pub enum LocalResolution {
    /// The species is already fully scraped: the stored row is returned
    /// unchanged and no remote call is made.
    Done(usize),
    /// The species is known but unfinished and its key is stored: scraping
    /// resumes with that key, with no remote species search.
    Resume(i64),
    /// The entry was already recognized as a duplicate of another species:
    /// resolution fails without any remote call.
    KnownDuplicate,
    /// The registry's species search must be asked for a key.
    NeedsSearch,
}

/// Whether resolving `valid_name` must go through the remote species
/// search: no finished or keyed species row exists for it, and it is not a
/// known duplicate.
pub open spec fn needs_search(s: Store, valid_name: Seq<char>) -> bool {
    &&& (s.has_species_name(valid_name) ==> exists|i: int|
        0 <= i < s.species@.len() && (#[trigger] s.species@[i]).valid_name@ == valid_name
            && !s.species@[i].done && s.species@[i].species_key is None)
    &&& (!s.has_species_name(valid_name) ==> !s.has_ignored_name(valid_name))
}

/// What each local resolution outcome says of the store.
pub open spec fn resolve_local_post(store: Store, valid_name: Seq<char>, r: LocalResolution) -> bool {
    match r {
        LocalResolution::Done(i) => i < store.species@.len()
            && store.species@[i as int].valid_name@ == valid_name
            && store.species@[i as int].done,
        LocalResolution::Resume(k) => exists|i: int|
            0 <= i < store.species@.len() && (#[trigger] store.species@[i]).valid_name@
                == valid_name && !store.species@[i].done && store.species@[i].species_key
                == Some(k),
        LocalResolution::KnownDuplicate => !store.has_species_name(valid_name)
            && store.has_ignored_name(valid_name),
        LocalResolution::NeedsSearch => needs_search(store, valid_name),
    }
}

/// Resolves a name against the store alone.
///
/// A species whose scraping is done is returned as [`LocalResolution::Done`]
/// with its row untouched: re-resolving a finished species performs zero
/// remote calls and returns the identical record.
pub fn resolve_local(store: &Store, valid_name: &str) -> (r: LocalResolution)
    requires
        store.wf(),
    ensures
        resolve_local_post(*store, valid_name@, r),
{
    match store.get_species_by_valid_name(valid_name) {
        Some(i) => {
            if store.species[i].done {
                LocalResolution::Done(i)
            } else {
                match store.species[i].species_key {
                    Some(k) => LocalResolution::Resume(k),
                    None => LocalResolution::NeedsSearch,
                }
            }
        },
        None => {
            match store.get_ignored_by_valid_name(valid_name) {
                Some(_) => LocalResolution::KnownDuplicate,
                None => LocalResolution::NeedsSearch,
            }
        },
    }
}

/// What applying a remote search result decided.
pub enum ResolveOutcome {
    /// The registry had no match: a keyless species row now stands for the
    /// entry, and resolution fails with `SpeciesNotFound`.
    NotFound,
    /// Another species row already owns the key: an ignored-species row was
    /// persisted for the entry, and the existing row is the result.
    Duplicate(usize),
    /// The key is fresh: proceed to scrape occurrences with it.
    Proceed(i64),
}

/// Whether a species row carries the fields of this entry.
pub open spec fn species_row_of_entry(
    row: Species,
    e: Entry,
    key: Option<i64>,
    available: i64,
    done: bool,
) -> bool {
    &&& row.reign@ == e.reign@
    &&& row.phylum@ == e.phylum@
    &&& row.class@ == e.class@
    &&& row.order@ == e.order@
    &&& row.family@ == e.family@
    &&& row.genus@ == e.genus@
    &&& row.valid_name@ == e.valid_name@
    &&& row.species_key == key
    &&& row.available_occurrences == available
    &&& row.done == done
}

/// Whether an ignored-species row carries the fields of this entry.
pub open spec fn ignored_row_of_entry(row: IgnoredSpecies, e: Entry, key: Option<i64>) -> bool {
    &&& row.reign@ == e.reign@
    &&& row.phylum@ == e.phylum@
    &&& row.class@ == e.class@
    &&& row.order@ == e.order@
    &&& row.family@ == e.family@
    &&& row.genus@ == e.genus@
    &&& row.valid_name@ == e.valid_name@
    &&& row.species_key == key
}

/// Applies what the remote species search returned for an entry whose name
/// needed searching.
///
/// With no key found, a keyless species row is persisted (unless one
/// already stands) so the entry is not searched again. With a key already
/// owned by another species row, an ignored-species row records the
/// convergence and the existing row is the result. Otherwise scraping may
/// proceed with the key.
pub fn resolve_with_search_result(store: &mut Store, entry: &Entry, first_key: Option<i64>) -> (r:
    Result<ResolveOutcome, Error>)
    requires
        old(store).wf(),
        needs_search(*old(store), entry.valid_name@),
    ensures
        final(store).wf(),
        match r {
            Ok(out) => match out {
                ResolveOutcome::NotFound => first_key is None && (if old(store).has_species_name(
                    entry.valid_name@,
                ) {
                    *final(store) == *old(store)
                } else {
                    &&& final(store).species@.len() == old(store).species@.len() + 1
                    &&& final(store).species@.take(old(store).species@.len() as int) == old(
                        store,
                    ).species@
                    &&& species_row_of_entry(
                        final(store).species@.last(),
                        *entry,
                        None,
                        0,
                        false,
                    )
                    &&& final(store).ignored == old(store).ignored
                    &&& final(store).occurrences == old(store).occurrences
                    &&& final(store).medias == old(store).medias
                }),
                ResolveOutcome::Duplicate(i) => {
                    &&& first_key matches Some(k) && i < old(store).species@.len() && old(
                        store,
                    ).species@[i as int].species_key == Some(k) && ignored_row_of_entry(
                        final(store).ignored@.last(),
                        *entry,
                        Some(k),
                    )
                    &&& final(store).species == old(store).species
                    &&& final(store).ignored@.len() == old(store).ignored@.len() + 1
                    &&& final(store).ignored@.take(old(store).ignored@.len() as int) == old(
                        store,
                    ).ignored@
                    &&& final(store).occurrences == old(store).occurrences
                    &&& final(store).medias == old(store).medias
                },
                ResolveOutcome::Proceed(k) => first_key == Some(k) && !old(store).has_species_key(
                    k,
                ) && *final(store) == *old(store),
            },
            Err(e) => {
                &&& e is DbError
                &&& *final(store) == *old(store)
                &&& ((first_key is None && !old(store).has_species_name(entry.valid_name@) && old(
                    store,
                ).species@.len() == MAX_ROWS) || (first_key matches Some(k) && old(
                    store,
                ).has_species_key(k) && (old(store).has_ignored_name(entry.valid_name@) || old(
                    store,
                ).ignored@.len() == MAX_ROWS)))
            },
        },
{
    match first_key {
        None => {
            if store.get_species_by_valid_name(entry.valid_name.as_str()).is_some() {
                Ok(ResolveOutcome::NotFound)
            } else {
                let row = Species::from_taxref(entry, None, 0);
                match store.save_species(row) {
                    Ok(_) => Ok(ResolveOutcome::NotFound),
                    Err(_) => Err(Error::DbError),
                }
            }
        },
        Some(k) => {
            match store.get_species_by_species_key(k) {
                Some(i) => {
                    let row = IgnoredSpecies::from_taxref(entry, Some(k));
                    match store.save_ignored(row) {
                        Ok(_) => Ok(ResolveOutcome::Duplicate(i)),
                        Err(_) => Err(Error::DbError),
                    }
                },
                None => Ok(ResolveOutcome::Proceed(k)),
            }
        },
    }
}

/// Re-resolving a species whose scraping is done returns exactly its
/// stored row: any outcome the resolver allows for such a name is
/// `Done` with that row, so no remote search is ever asked for it and the
/// record comes back identical.
pub proof fn lemma_done_species_resolves_locally(
    store: Store,
    valid_name: Seq<char>,
    i: int,
    r: LocalResolution,
)
    requires
        store.wf(),
        0 <= i < store.species@.len(),
        store.species@[i].valid_name@ == valid_name,
        store.species@[i].done,
        resolve_local_post(store, valid_name, r),
    ensures
        r == LocalResolution::Done(i as usize),
{
    assert(store.has_species_name(valid_name)) by {
        assert(store.species@[i].valid_name@ == valid_name);
    }
    match r {
        LocalResolution::Done(j) => {
            let jj = j as int;
            if jj != i {
                if i < jj {
                    assert(store.species@[i].valid_name@ != store.species@[jj].valid_name@);
                } else {
                    assert(store.species@[jj].valid_name@ != store.species@[i].valid_name@);
                }
            }
        },
        LocalResolution::Resume(_) => {
            let j = choose|j: int|
                0 <= j < store.species@.len() && (#[trigger] store.species@[j]).valid_name@
                    == valid_name && !store.species@[j].done;
            if i < j {
                assert(store.species@[i].valid_name@ != store.species@[j].valid_name@);
            } else if j < i {
                assert(store.species@[j].valid_name@ != store.species@[i].valid_name@);
            }
        },
        LocalResolution::KnownDuplicate => {},
        LocalResolution::NeedsSearch => {
            let j = choose|j: int|
                0 <= j < store.species@.len() && (#[trigger] store.species@[j]).valid_name@
                    == valid_name && !store.species@[j].done && store.species@[j].species_key
                    is None;
            if i < j {
                assert(store.species@[i].valid_name@ != store.species@[j].valid_name@);
            } else if j < i {
                assert(store.species@[j].valid_name@ != store.species@[i].valid_name@);
            }
        },
    }
}

/// Two taxon entries that resolve to the same registry key converge on one
/// species row: after the second entry's resolution records its
/// ignored-species row, exactly one species row owns the key, and it is the
/// row the second resolution returned.
pub proof fn lemma_duplicate_key_converges(pre: Store, post: Store, i: int, k: i64)
    requires
        pre.wf(),
        post.wf(),
        0 <= i < pre.species@.len(),
        pre.species@[i].species_key == Some(k),
        post.species == pre.species,
        post.ignored@.len() == pre.ignored@.len() + 1,
    ensures
        post.species@[i].species_key == Some(k),
        forall|a: int, b: int|
            (0 <= a < post.species@.len() && 0 <= b < post.species@.len()
                && (#[trigger] post.species@[a]).species_key == Some(k)
                && (#[trigger] post.species@[b]).species_key == Some(k)) ==> a == b,
        post.ignored@.len() == pre.ignored@.len() + 1,
{
    assert(post.species@ == pre.species@);
    assert forall|a: int, b: int|
        (0 <= a < post.species@.len() && 0 <= b < post.species@.len()
            && (#[trigger] post.species@[a]).species_key == Some(k)
            && (#[trigger] post.species@[b]).species_key == Some(k)) implies a == b by {
        if a < b {
            assert(!(post.species@[a].species_key is Some && post.species@[b].species_key is Some
                && post.species@[a].species_key == post.species@[b].species_key));
        } else if b < a {
            assert(!(post.species@[b].species_key is Some && post.species@[a].species_key is Some
                && post.species@[b].species_key == post.species@[a].species_key));
        }
    }
}

} // verus!
