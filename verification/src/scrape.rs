//! The paginated occurrence scraper: accumulates the registry's occurrence
//! pages for one species, then persists occurrences and media with
//! store-wide deduplication and marks the species done.
//!
//! The page fetches themselves are performed by the surrounding
//! application; the state here decides when to stop, and
//! [`finish_scrape`] applies the accumulated results to the store.

use vstd::pervasive::VecAdditionalExecFns;
use vstd::prelude::*;

use crate::db::{medias_have_url, occurrences_have_key, Media, Occurrence, Store, MAX_ROWS};
use crate::gbif::{self, OccurrencesResponse, OccurrencesResult};
use crate::taxref::Entry;
use crate::Error;

verus! {

/// How many of these occurrence results count as scraped: outside the
/// blacklisted dataset and carrying at least one media item.
pub open spec fn scraped_count(rs: Seq<OccurrencesResult>, blacklist: Seq<char>) -> nat
    decreases rs.len(),
{
    if rs.len() == 0 {
        0
    } else {
        scraped_count(rs.drop_last(), blacklist) + if rs.last().dataset_key@ != blacklist
            && rs.last().medias@.len() > 0 {
            1nat
        } else {
            0nat
        }
    }
}

/// No more results count as scraped than there are results.
proof fn lemma_scraped_count_le_len(rs: Seq<OccurrencesResult>, blacklist: Seq<char>)
    ensures
        scraped_count(rs, blacklist) <= rs.len(),
    decreases rs.len(),
{
    if rs.len() > 0 {
        lemma_scraped_count_le_len(rs.drop_last(), blacklist);
    }
}

/// Counts the results of one page that count as scraped.
fn count_scraped(rs: &Vec<OccurrencesResult>, blacklist: &String) -> (r: usize)
    ensures
        r == scraped_count(rs@, blacklist@),
        r <= rs@.len(),
{
    let mut r: usize = 0;
    let mut i: usize = 0;
    while i < rs.len()
        invariant
            i <= rs@.len(),
            r == scraped_count(rs@.take(i as int), blacklist@),
            r <= i,
        decreases rs@.len() - i,
    {
        proof {
            assert(rs@.take(i + 1 as int).drop_last() =~= rs@.take(i as int));
            assert(rs@.take(i + 1 as int).last() == rs@[i as int]);
        }
        if !(rs[i].dataset_key == *blacklist) && rs[i].medias.len() > 0 {
            r += 1;
        }
        i += 1;
    }
    proof {
        assert(rs@.take(rs@.len() as int) =~= rs@);
    }
    r
}

/// The state of one species' occurrence scrape.
pub struct ScrapeState {
    /// The registry key being scraped.
    pub species_key: i64,
    /// How many scraped occurrences are wanted at most.
    pub max_occurrences: usize,
    /// The blacklisted dataset identifier.
    pub blacklist: String,
    /// How many results the registry returned so far; the next page is
    /// requested at this offset.
    pub fetched: usize,
    /// The registry-reported total, captured from the first page.
    pub total: i64,
    /// How many returned results counted as scraped.
    pub scraped: usize,
    /// Every result returned so far, in arrival order.
    pub results: Vec<OccurrencesResult>,
}

impl ScrapeState {
    /// The counters agree with the accumulated results.
    pub open spec fn wf(self) -> bool {
        &&& self.fetched == self.results@.len()
        &&& self.scraped == scraped_count(self.results@, self.blacklist@)
    }

    /// Starts a scrape from the first page the registry returned.
    pub fn start(
        species_key: i64,
        max_occurrences: usize,
        blacklist: String,
        first_page: OccurrencesResponse,
    ) -> (r: ScrapeState)
        ensures
            r.wf(),
            r.species_key == species_key,
            r.max_occurrences == max_occurrences,
            r.blacklist == blacklist,
            r.fetched == first_page.results@.len(),
            r.total == first_page.count,
            r.results@ == first_page.results@,
    {
        let scraped = count_scraped(&first_page.results, &blacklist);
        let fetched = first_page.results.len();
        ScrapeState {
            species_key,
            max_occurrences,
            blacklist,
            fetched,
            total: first_page.count,
            scraped,
            results: first_page.results,
        }
    }

    /// Whether another page must be fetched: fewer occurrences were scraped
    /// than wanted, and the registry still has results beyond those already
    /// returned.
    pub fn should_fetch_more(&self) -> (r: bool)
        ensures
            r == (self.scraped < self.max_occurrences && (self.fetched as int) < self.total),
    {
        if self.scraped >= self.max_occurrences {
            return false;
        }
        if self.total <= 0 {
            return false;
        }
        (self.fetched as u64) < (self.total as u64)
    }

    /// Accumulates one more page: the offset advances by the number of
    /// results actually returned, and the scraped counter by the results
    /// that count.
    pub fn on_page(&mut self, page: OccurrencesResponse)
        requires
            old(self).wf(),
            old(self).fetched + page.results@.len() <= usize::MAX,
        ensures
            final(self).wf(),
            final(self).species_key == old(self).species_key,
            final(self).max_occurrences == old(self).max_occurrences,
            final(self).blacklist == old(self).blacklist,
            final(self).total == old(self).total,
            final(self).fetched == old(self).fetched + page.results@.len(),
            final(self).scraped == old(self).scraped + scraped_count(
                page.results@,
                old(self).blacklist@,
            ),
            final(self).results@ == old(self).results@ + page.results@,
    {
        proof {
            lemma_scraped_count_le_len(old(self).results@, old(self).blacklist@);
            lemma_scraped_count_append(old(self).results@, page.results@, old(self).blacklist@);
        }
        let extra = count_scraped(&page.results, &self.blacklist);
        let mut page_results = page.results;
        self.fetched = self.fetched + page_results.len();
        self.scraped = self.scraped + extra;
        self.results.append(&mut page_results);
    }
}

/// Scraped counts add over concatenation.
proof fn lemma_scraped_count_append(a: Seq<OccurrencesResult>, b: Seq<OccurrencesResult>, blacklist: Seq<char>)
    ensures
        scraped_count(a + b, blacklist) == scraped_count(a, blacklist) + scraped_count(
            b,
            blacklist,
        ),
    decreases b.len(),
{
    if b.len() == 0 {
        assert(a + b =~= a);
    } else {
        lemma_scraped_count_append(a, b.drop_last(), blacklist);
        assert((a + b).drop_last() =~= a + b.drop_last());
        assert((a + b).last() == b.last());
    }
}

// ---------------------------------------------------------------------------
// Applying accumulated results to the store
// ---------------------------------------------------------------------------

/// Whether any media url of this occurrence result is already somewhere in
/// the media table: the conservative cross-species deduplication rule then
/// skips the whole occurrence.
pub open spec fn has_known_url(ms: Seq<Media>, r: OccurrencesResult) -> bool {
    exists|j: int|
        0 <= j < r.medias@.len() && ((#[trigger] r.medias@[j]).url matches Some(u)
            && medias_have_url(ms, u@))
}

/// Inserting one media of a freshly inserted occurrence: results without a
/// url are passed over; a url seen twice, or a full table, is an error.
pub open spec fn insert_media_one(ms: Seq<Media>, m: gbif::Media, occ_idx: int) -> Result<
    Seq<Media>,
    (),
> {
    match m.url {
        None => Ok(ms),
        Some(u) => {
            if medias_have_url(ms, u@) || ms.len() == MAX_ROWS {
                Err(())
            } else {
                Ok(
                    ms.push(
                        Media {
                            id: (ms.len() + 1) as i32,
                            url: u,
                            path: None,
                            status_code: None,
                            to_download: false,
                            cropped: false,
                            x: None,
                            y: None,
                            width: None,
                            height: None,
                            confidence: None,
                            occurrence: (occ_idx + 1) as i32,
                        },
                    ),
                )
            }
        },
    }
}

/// Inserting every media of a freshly inserted occurrence, in order.
pub open spec fn insert_medias(ms: Seq<Media>, items: Seq<gbif::Media>, occ_idx: int) -> Result<
    Seq<Media>,
    (),
>
    decreases items.len(),
{
    if items.len() == 0 {
        Ok(ms)
    } else {
        match insert_medias(ms, items.drop_last(), occ_idx) {
            Ok(ms1) => insert_media_one(ms1, items.last(), occ_idx),
            Err(e) => Err(e),
        }
    }
}

/// Applying one occurrence result to the occurrence and media tables: an
/// occurrence with an already known media url is skipped whole; otherwise
/// the occurrence row and its media rows are appended.
pub open spec fn insert_result(
    ms: Seq<Media>,
    os: Seq<Occurrence>,
    r: OccurrencesResult,
    species_idx: int,
) -> Result<(Seq<Media>, Seq<Occurrence>), ()> {
    if has_known_url(ms, r) {
        Ok((ms, os))
    } else if occurrences_have_key(os, r.key) || os.len() == MAX_ROWS {
        Err(())
    } else {
        let os1 = os.push(
            Occurrence {
                id: (os.len() + 1) as i32,
                key: r.key,
                dataset_key: r.dataset_key,
                species: (species_idx + 1) as i32,
            },
        );
        match insert_medias(ms, r.medias@, os.len() as int) {
            Ok(ms1) => Ok((ms1, os1)),
            Err(e) => Err(e),
        }
    }
}

/// Applying a sequence of occurrence results, in order.
pub open spec fn insert_results(
    ms: Seq<Media>,
    os: Seq<Occurrence>,
    rs: Seq<OccurrencesResult>,
    species_idx: int,
) -> Result<(Seq<Media>, Seq<Occurrence>), ()>
    decreases rs.len(),
{
    if rs.len() == 0 {
        Ok((ms, os))
    } else {
        match insert_results(ms, os, rs.drop_last(), species_idx) {
            Ok(p) => insert_result(p.0, p.1, rs.last(), species_idx),
            Err(e) => Err(e),
        }
    }
}

/// Persists the accumulated occurrence results of one completed scrape
/// pass, then marks the species done.
///
/// An occurrence any of whose media urls is already in the store is skipped
/// whole; every other occurrence is inserted together with its media rows,
/// each starting unmarked and uncropped. When every result has been
/// applied, the species row is marked done. On an error (a duplicate
/// occurrence key, a media url seen twice in one batch of fresh rows, or a
/// full table), the species row is left not done and the rows inserted so
/// far remain: the next run resumes from the stored key.
pub fn finish_scrape(store: &mut Store, state: ScrapeState, species_idx: usize) -> (r: Result<
    (),
    Error,
>)
    requires
        old(store).wf(),
        species_idx < old(store).species@.len(),
    ensures
        final(store).wf(),
        final(store).ignored == old(store).ignored,
        final(store).species@.len() == old(store).species@.len(),
        final(store).occurrences@.take(old(store).occurrences@.len() as int) == old(
            store,
        ).occurrences@,
        final(store).medias@.take(old(store).medias@.len() as int) == old(store).medias@,
        match r {
            Ok(_) => {
                &&& insert_results(
                    old(store).medias@,
                    old(store).occurrences@,
                    state.results@,
                    species_idx as int,
                ) matches Ok(p) && final(store).medias@ == p.0 && final(store).occurrences@ == p.1
                &&& final(store).species@ == old(store).species@.update(
                    species_idx as int,
                    crate::db::Species {
                        done: true,
                        ..old(store).species@[species_idx as int]
                    },
                )
            },
            Err(e) => {
                &&& e is DbError
                &&& insert_results(
                    old(store).medias@,
                    old(store).occurrences@,
                    state.results@,
                    species_idx as int,
                ) is Err
                &&& final(store).species@ == old(store).species@
            },
        },
{
    let ghost orig = state.results@;
    let ghost ms0 = old(store).medias@;
    let ghost os0 = old(store).occurrences@;
    let mut results = state.results;
    let n = results.len();
    let mut i: usize = 0;
    proof {
        assert(old(store).occurrences@.take(os0.len() as int) =~= os0);
        assert(old(store).medias@.take(ms0.len() as int) =~= ms0);
    }
    while i < n
        invariant
            store.wf(),
            orig == state.results@,
            ms0 == old(store).medias@,
            os0 == old(store).occurrences@,
            i <= n,
            n == orig.len(),
            results@.len() == orig.len(),
            forall|k: int| i <= k < orig.len() ==> results@[k] == orig[k],
            store.species == old(store).species,
            store.ignored == old(store).ignored,
            species_idx < store.species@.len(),
            os0.len() <= store.occurrences@.len(),
            ms0.len() <= store.medias@.len(),
            store.occurrences@.take(os0.len() as int) == os0,
            store.medias@.take(ms0.len() as int) == ms0,
            insert_results(ms0, os0, orig.take(i as int), species_idx as int) == Ok::<_, ()>(
                (store.medias@, store.occurrences@),
            ),
        decreases n - i,
    {
        proof {
            assert(orig.take(i + 1 as int).drop_last() =~= orig.take(i as int));
            assert(orig.take(i + 1 as int).last() == orig[i as int]);
        }
        let mut r = OccurrencesResult { key: 0, dataset_key: String::new(), medias: Vec::new() };
        results.set_and_swap(i, &mut r);
        proof {
            assert(r == orig[i as int]);
        }
        // does any media url of this result already exist store-wide?
        let mut skip = false;
        let mut j: usize = 0;
        while j < r.medias.len()
            invariant
                store.wf(),
                j <= r.medias@.len(),
                skip <==> exists|a: int|
                    0 <= a < j && ((#[trigger] r.medias@[a]).url matches Some(u)
                        && store.has_media_url(u@)),
            decreases r.medias@.len() - j,
        {
            match &r.medias[j].url {
                Some(u) => {
                    if store.get_media_by_url(u.as_str()).is_some() {
                        skip = true;
                        proof {
                            assert(((#[trigger] r.medias@[j as int]).url matches Some(uu)
                                && store.has_media_url(uu@)));
                        }
                    }
                },
                None => (),
            }
            j += 1;
        }
        proof {
            assert(skip <==> has_known_url(store.medias@, orig[i as int]));
        }
        if !skip {
            let ghost ms_pre = store.medias@;
            let ghost os_pre = store.occurrences@;
            let OccurrencesResult { key, dataset_key, medias } = r;
            let oi = match store.save_occurrence(key, dataset_key, species_idx) {
                Ok(oi) => oi,
                Err(_) => {
                    proof {
                        assert(insert_result(
                            ms_pre,
                            os_pre,
                            orig[i as int],
                            species_idx as int,
                        ) is Err);
                        assert(insert_results(ms0, os0, orig.take(i + 1 as int), species_idx as int)
                            is Err);
                        lemma_insert_results_prefix_err(
                            ms0,
                            os0,
                            orig,
                            i + 1 as int,
                            species_idx as int,
                        );
                    }
                    return Err(Error::DbError);
                },
            };
            proof {
                assert(store.occurrences@.take(os0.len() as int) =~= os0);
            }
            // insert the media rows of this occurrence
            let mut medias = medias;
            let nm = medias.len();
            let ghost items = orig[i as int].medias@;
            let mut k: usize = 0;
            while k < nm
                invariant
                    store.wf(),
                    k <= nm,
                    nm == items.len(),
                    medias@.len() == items.len(),
                    forall|a: int| k <= a < items.len() ==> medias@[a] == items[a],
                    store.species == old(store).species,
                    store.ignored == old(store).ignored,
                    species_idx < store.species@.len(),
                    oi < store.occurrences@.len(),
                    i < orig.len(),
                    orig == state.results@,
                    ms0 == old(store).medias@,
                    os0 == old(store).occurrences@,
                    items == orig[i as int].medias@,
                    !has_known_url(ms_pre, orig[i as int]),
                    !occurrences_have_key(os_pre, orig[i as int].key),
                    os_pre.len() < MAX_ROWS,
                    insert_results(ms0, os0, orig.take(i as int), species_idx as int) == Ok::<
                        _,
                        (),
                    >((ms_pre, os_pre)),
                    store.occurrences@ == os_pre.push(
                        Occurrence {
                            id: (os_pre.len() + 1) as i32,
                            key: orig[i as int].key,
                            dataset_key: orig[i as int].dataset_key,
                            species: (species_idx + 1) as i32,
                        },
                    ),
                    oi == os_pre.len(),
                    os0.len() <= store.occurrences@.len(),
                    ms0.len() <= store.medias@.len(),
                    store.occurrences@.take(os0.len() as int) == os0,
                    store.medias@.take(ms0.len() as int) == ms0,
                    ms0.len() <= ms_pre.len(),
                    ms_pre.take(ms0.len() as int) == ms0,
                    insert_medias(ms_pre, items.take(k as int), oi as int) == Ok::<_, ()>(
                        store.medias@,
                    ),
                decreases nm - k,
            {
                proof {
                    assert(items.take(k + 1 as int).drop_last() =~= items.take(k as int));
                    assert(items.take(k + 1 as int).last() == items[k as int]);
                }
                let mut m = gbif::Media { url: None };
                medias.set_and_swap(k, &mut m);
                proof {
                    assert(m == items[k as int]);
                }
                match m.url {
                    None => (),
                    Some(u) => {
                        match store.save_media(u, oi) {
                            Ok(_) => {
                                proof {
                                    assert(store.medias@.take(ms0.len() as int) =~= ms0);
                                }
                            },
                            Err(_) => {
                                proof {
                                    assert(orig.take(i + 1 as int).drop_last() =~= orig.take(
                                        i as int,
                                    ));
                                    assert(orig.take(i + 1 as int).last() == orig[i as int]);
                                    assert(insert_medias(
                                        ms_pre,
                                        items.take(k + 1 as int),
                                        oi as int,
                                    ) is Err);
                                    lemma_insert_medias_prefix_err(
                                        ms_pre,
                                        items,
                                        k + 1 as int,
                                        oi as int,
                                    );
                                    assert(insert_result(
                                        ms_pre,
                                        os_pre,
                                        orig[i as int],
                                        species_idx as int,
                                    ) is Err);
                                    assert(insert_results(
                                        ms0,
                                        os0,
                                        orig.take(i + 1 as int),
                                        species_idx as int,
                                    ) is Err);
                                    lemma_insert_results_prefix_err(
                                        ms0,
                                        os0,
                                        orig,
                                        i + 1 as int,
                                        species_idx as int,
                                    );
                                }
                                return Err(Error::DbError);
                            },
                        }
                    },
                }
                k += 1;
            }
            proof {
                assert(items.take(items.len() as int) =~= items);
                assert(insert_result(ms_pre, os_pre, orig[i as int], species_idx as int)
                    == Ok::<_, ()>((store.medias@, store.occurrences@)));
            }
        }
        i += 1;
    }
    proof {
        assert(orig.take(orig.len() as int) =~= orig);
    }
    store.set_species_done(species_idx);
    Ok(())
}

/// Once a prefix of the results errs, the whole sequence errs, and the
/// store reached by the error is reached by some prefix.
proof fn lemma_insert_results_prefix_err(
    ms: Seq<Media>,
    os: Seq<Occurrence>,
    rs: Seq<OccurrencesResult>,
    j: int,
    species_idx: int,
)
    requires
        0 <= j <= rs.len(),
        insert_results(ms, os, rs.take(j), species_idx) is Err,
    ensures
        insert_results(ms, os, rs, species_idx) is Err,
    decreases rs.len() - j,
{
    if j < rs.len() {
        assert(rs.take(j + 1).drop_last() =~= rs.take(j));
        lemma_insert_results_prefix_err(ms, os, rs, j + 1, species_idx);
    } else {
        assert(rs.take(j) =~= rs);
    }
}

/// Once a prefix of an occurrence's media errs, the whole sequence errs.
proof fn lemma_insert_medias_prefix_err(
    ms: Seq<Media>,
    items: Seq<gbif::Media>,
    j: int,
    occ_idx: int,
)
    requires
        0 <= j <= items.len(),
        insert_medias(ms, items.take(j), occ_idx) is Err,
    ensures
        insert_medias(ms, items, occ_idx) is Err,
    decreases items.len() - j,
{
    if j < items.len() {
        assert(items.take(j + 1).drop_last() =~= items.take(j));
        lemma_insert_medias_prefix_err(ms, items, j + 1, occ_idx);
    } else {
        assert(items.take(j) =~= items);
    }
}


// ---------------------------------------------------------------------------
// Persisting the species after the first page
// ---------------------------------------------------------------------------

/// Persists the species row right after the first page, so partial
/// progress is visible even if a later page fails: an existing row (a
/// resumed scrape) gets the resolved key and the registry-reported total;
/// otherwise a fresh not-done row is inserted.
pub fn persist_after_first_page(store: &mut Store, entry: &Entry, key: i64, total: i64) -> (r:
    Result<usize, Error>)
    requires
        old(store).wf(),
    ensures
        final(store).wf(),
        final(store).ignored == old(store).ignored,
        final(store).occurrences == old(store).occurrences,
        final(store).medias == old(store).medias,
        match r {
            Ok(i) => {
                &&& i < final(store).species@.len()
                &&& final(store).species@[i as int].valid_name@ == entry.valid_name@
                &&& final(store).species@[i as int].species_key == Some(key)
                &&& final(store).species@[i as int].available_occurrences == total
                &&& if old(store).has_species_name(entry.valid_name@) {
                    &&& final(store).species@ == old(store).species@.update(
                        i as int,
                        crate::db::Species {
                            species_key: Some(key),
                            available_occurrences: total,
                            ..old(store).species@[i as int]
                        },
                    )
                    &&& old(store).species@[i as int].valid_name@ == entry.valid_name@
                } else {
                    &&& final(store).species@.len() == old(store).species@.len() + 1
                    &&& i == old(store).species@.len()
                    &&& final(store).species@.take(i as int) == old(store).species@
                    &&& crate::resolver::species_row_of_entry(
                        final(store).species@.last(),
                        *entry,
                        Some(key),
                        total,
                        false,
                    )
                }
            },
            Err(e) => {
                &&& e is DbError
                &&& *final(store) == *old(store)
                &&& ((old(store).has_species_name(entry.valid_name@) && exists|j: int|
                    0 <= j < old(store).species@.len() && (#[trigger] old(
                        store,
                    ).species@[j]).species_key == Some(key) && old(store).species@[j].valid_name@
                        != entry.valid_name@) || (!old(store).has_species_name(entry.valid_name@)
                    && (old(store).has_species_key(key) || old(store).species@.len() == MAX_ROWS)))
            },
        },
{
    match store.get_species_by_valid_name(entry.valid_name.as_str()) {
        Some(i) => {
            // the key must not be owned by any other row
            match store.get_species_by_species_key(key) {
                Some(j) => {
                    if j != i {
                        proof {
                            let pre = *old(store);
                            assert(pre.has_species_name(entry.valid_name@)) by {
                                assert(pre.species@[i as int].valid_name@ == entry.valid_name@);
                            }
                            assert(pre.species@[j as int].species_key == Some(key));
                            assert(pre.species@[j as int].valid_name@ != entry.valid_name@) by {
                                if i < j {
                                    assert(pre.species@[i as int].valid_name@
                                        != pre.species@[j as int].valid_name@);
                                } else {
                                    assert(pre.species@[j as int].valid_name@
                                        != pre.species@[i as int].valid_name@);
                                }
                            }
                        }
                        return Err(Error::DbError);
                    }
                    proof {
                        let jj = j as int;
                        assert forall|a: int|
                            0 <= a < store.species@.len() && (#[trigger] store.species@[a]).species_key
                                == Some(key) implies a == i by {
                            if a < jj {
                                assert(!(store.species@[a].species_key is Some
                                    && store.species@[jj].species_key is Some
                                    && store.species@[a].species_key
                                    == store.species@[jj].species_key));
                            } else if jj < a {
                                assert(!(store.species@[jj].species_key is Some
                                    && store.species@[a].species_key is Some
                                    && store.species@[jj].species_key
                                    == store.species@[a].species_key));
                            }
                        }
                    }
                    store.update_species_resolution(i, key, total);
                    Ok(i)
                },
                None => {
                    store.update_species_resolution(i, key, total);
                    Ok(i)
                },
            }
        },
        None => {
            let row = crate::db::Species::from_taxref(entry, Some(key), total);
            match store.save_species(row) {
                Ok(i) => Ok(i),
                Err(_) => Err(Error::DbError),
            }
        },
    }
}


} // verus!
