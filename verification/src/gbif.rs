//! Queries against the GBIF API: URL construction, query preprocessing, and
//! the shapes of the responses the registry sends back.
//!
//! The HTTP calls themselves are performed by the surrounding application;
//! everything that decides what is asked and how answers are read is here.

use vstd::prelude::*;
use vstd::string::StringExecFns;

use crate::text::{chars_to_string, dec_digits, dec_int, i64_to_dec_chars, lower_of, str_chars,
    to_lowercase, u64_to_dec_chars};
use crate::utils::RetryPolicy;

verus! {

/// GBIF Backbone dataset where we will search for species.
pub const BACKBONE_DATASET_UUID: &'static str = "d7dddbf4-2cf0-4f39-9b2a-bb099caae36c";

/// Root of the GBIF API server.
pub const GBIF_ROOT: &'static str = "https://api.gbif.org/v1";

/// Maximum number of occurrences that can be scraped in one page.
pub const MAX_LIMIT_OCCURRENCES: usize = 300;

// ---------------------------------------------------------------------------
// Query preprocessing
// ---------------------------------------------------------------------------

/// The ASCII transliteration that `unidecode` gives of a string, a function
/// of its characters alone.
pub uninterp spec fn unidecode_of(s: Seq<char>) -> Seq<char>;

/// Relies on `unidecode::unidecode`: the ASCII transliteration of a Unicode
/// string, a function of its characters alone.
#[verifier::external_body]
fn unidecode_str(s: &str) -> (r: String)
    ensures
        r@ == unidecode_of(s@),
{
    unidecode::unidecode(s)
}

/// `s` with every parenthesis and comma removed.
pub open spec fn strip_query_marks(s: Seq<char>) -> Seq<char>
    decreases s.len(),
{
    if s.len() == 0 {
        Seq::empty()
    } else {
        let rest = strip_query_marks(s.drop_last());
        if s.last() == '(' || s.last() == ')' || s.last() == ',' {
            rest
        } else {
            rest.push(s.last())
        }
    }
}

/// Removes every parenthesis and comma of a character sequence.
fn strip_query_marks_chars(v: &Vec<char>) -> (r: Vec<char>)
    ensures
        r@ == strip_query_marks(v@),
{
    let mut r: Vec<char> = Vec::new();
    let mut i: usize = 0;
    while i < v.len()
        invariant
            i <= v.len(),
            r@ == strip_query_marks(v@.take(i as int)),
        decreases v.len() - i,
    {
        let c = v[i];
        proof {
            assert(v@.take(i + 1 as int).drop_last() =~= v@.take(i as int));
            assert(v@.take(i + 1 as int).last() == v@[i as int]);
        }
        if !(c == '(' || c == ')' || c == ',') {
            r.push(c);
        }
        i += 1;
    }
    proof {
        assert(v@.take(v@.len() as int) =~= v@);
    }
    r
}

/// What `preprocess` returns for a given input.
pub open spec fn preprocess_of(input: Seq<char>) -> Seq<char> {
    lower_of(strip_query_marks(unidecode_of(input)))
}

/// Preprocesses a string for better query: ASCII transliteration, removal of
/// parentheses and commas, and lowercasing.
pub fn preprocess(input: &str) -> (r: String)
    ensures
        r@ == preprocess_of(input@),
{
    let u = unidecode_str(input);
    let chars = str_chars(u.as_str());
    let stripped = strip_query_marks_chars(&chars);
    let s = chars_to_string(&stripped);
    to_lowercase(s.as_str())
}

// ---------------------------------------------------------------------------
// URL construction
// ---------------------------------------------------------------------------

/// Easily create a GBIF API url.
pub fn gbif_url(suffix: &str) -> (r: String)
    ensures
        r@ == GBIF_ROOT@ + suffix@,
{
    let mut s = GBIF_ROOT.to_owned();
    s.append(suffix);
    s
}

/// The species-search URL for an already preprocessed query.
pub open spec fn species_search_url_of(q: Seq<char>) -> Seq<char> {
    GBIF_ROOT@ + "/species/search?q="@ + q + "&limit=300&datasetKey="@ + BACKBONE_DATASET_UUID@
}

/// Builds the URL that searches a species name on GBIF, restricted to the
/// backbone dataset.
pub fn species_search_url(species: &str) -> (r: String)
    ensures
        r@ == species_search_url_of(preprocess_of(species@)),
{
    let q = preprocess(species);
    let mut s = "/species/search?q=".to_owned();
    s.append(q.as_str());
    s.append("&limit=300&datasetKey=");
    s.append(BACKBONE_DATASET_UUID);
    let r = gbif_url(s.as_str());
    proof {
        assert(r@ =~= species_search_url_of(preprocess_of(species@)));
    }
    r
}

/// The occurrence-search URL for a species key and a pagination window.
pub open spec fn occurrence_search_url_of(key: int, offset: nat, limit: nat) -> Seq<char> {
    GBIF_ROOT@ + "/occurrence/search?speciesKey="@ + dec_int(key) + "&offset="@ + dec_digits(offset)
        + "&limit="@ + dec_digits(limit) + "&mediaType=stillImage"@
}

/// Builds the URL that searches occurrences of a species on GBIF, restricted
/// to records carrying still images.
pub fn occurrence_search_url(species_key: i64, offset: usize, limit: usize) -> (r: String)
    ensures
        r@ == occurrence_search_url_of(species_key as int, offset as nat, limit as nat),
{
    let mut s = "/occurrence/search?speciesKey=".to_owned();
    let key_chars = i64_to_dec_chars(species_key);
    s.append(chars_to_string(&key_chars).as_str());
    s.append("&offset=");
    let off_chars = u64_to_dec_chars(offset as u64);
    s.append(chars_to_string(&off_chars).as_str());
    s.append("&limit=");
    let lim_chars = u64_to_dec_chars(limit as u64);
    s.append(chars_to_string(&lim_chars).as_str());
    s.append("&mediaType=stillImage");
    let r = gbif_url(s.as_str());
    proof {
        assert(r@ =~= occurrence_search_url_of(species_key as int, offset as nat, limit as nat));
    }
    r
}

// ---------------------------------------------------------------------------
// Response shapes
// ---------------------------------------------------------------------------

/// The complete response of a GBIF species search query.
pub struct SpeciesResponse {
    /// All results that match the query.
    pub results: Vec<SpeciesResult>,
}

/// The complete response of a GBIF species search query, before results
/// without a species key are removed.
pub struct SpeciesOptionalResponse {
    /// All results that match the query.
    pub results: Vec<SpeciesOptionalResult>,
}

/// A single result of a GBIF search query.
pub struct SpeciesResult {
    /// The species key of the species.
    pub species_key: i64,
    /// The scientific name of the species (both name and author).
    pub scientific_name: String,
}

/// A single result of a GBIF search query, whose species key may be absent.
pub struct SpeciesOptionalResult {
    /// The species key of the species.
    pub species_key: Option<i64>,
    /// The scientific name of the species (both name and author).
    pub scientific_name: String,
}

impl SpeciesOptionalResult {
    /// Converts SpeciesOptionalResult to Option<SpeciesResult>.
    pub fn into_option(self) -> (r: Option<SpeciesResult>)
        ensures
            match self.species_key {
                Some(k) => r matches Some(x) && x.species_key == k && x.scientific_name
                    == self.scientific_name,
                None => r is None,
            },
    {
        if let Some(species_key) = self.species_key {
            Some(SpeciesResult { species_key, scientific_name: self.scientific_name })
        } else {
            None
        }
    }
}

/// The key and name of one kept result.
pub open spec fn keyed_view(x: SpeciesResult) -> (i64, Seq<char>) {
    (x.species_key, x.scientific_name@)
}

/// The keys and names of the results of `rs` that carry a species key, in
/// order.
pub open spec fn present_results(rs: Seq<SpeciesOptionalResult>) -> Seq<(i64, Seq<char>)>
    decreases rs.len(),
{
    if rs.len() == 0 {
        Seq::empty()
    } else {
        let rest = present_results(rs.drop_last());
        match rs.last().species_key {
            Some(k) => rest.push((k, rs.last().scientific_name@)),
            None => rest,
        }
    }
}

impl SpeciesOptionalResponse {
    /// Removes the results that have no species key.
    pub fn into_response(&self) -> (r: SpeciesResponse)
        ensures
            r.results@.map_values(|x: SpeciesResult| keyed_view(x)) == present_results(
                self.results@,
            ),
    {
        let mut results: Vec<SpeciesResult> = Vec::new();
        let mut i: usize = 0;
        while i < self.results.len()
            invariant
                i <= self.results@.len(),
                results@.map_values(|x: SpeciesResult| keyed_view(x)) == present_results(
                    self.results@.take(i as int),
                ),
            decreases self.results@.len() - i,
        {
            let ghost prev = results@.map_values(|x: SpeciesResult| keyed_view(x));
            proof {
                assert(self.results@.take(i + 1 as int).drop_last() =~= self.results@.take(
                    i as int,
                ));
                assert(self.results@.take(i + 1 as int).last() == self.results@[i as int]);
            }
            match self.results[i].species_key {
                Some(k) => {
                    let name = self.results[i].scientific_name.clone();
                    results.push(SpeciesResult { species_key: k, scientific_name: name });
                    proof {
                        assert(results@.map_values(|x: SpeciesResult| keyed_view(x)) =~= prev.push(
                            (k, self.results@[i as int].scientific_name@),
                        ));
                    }
                },
                None => (),
            }
            i += 1;
        }
        proof {
            assert(self.results@.take(self.results@.len() as int) =~= self.results@);
        }
        SpeciesResponse { results }
    }
}

/// The first species key of a response, if any: the key the resolver takes.
pub fn first_species_key(resp: &SpeciesResponse) -> (r: Option<i64>)
    ensures
        match r {
            Some(k) => resp.results@.len() > 0 && k == resp.results@[0].species_key,
            None => resp.results@.len() == 0,
        },
{
    if resp.results.len() > 0 {
        Some(resp.results[0].species_key)
    } else {
        None
    }
}

/// The complete response of a GBIF occurrences search query.
pub struct OccurrencesResponse {
    /// All results that match the query.
    pub results: Vec<OccurrencesResult>,
    /// The total number of occurrences available on GBIF.
    pub count: i64,
}

/// The results from an occurrences search.
pub struct OccurrencesResult {
    /// GBIF id of the occurrence.
    pub key: i64,
    /// Identifier of the dataset in which the occurrence is.
    pub dataset_key: String,
    /// Medias that come with this occurrence.
    pub medias: Vec<Media>,
}

/// A media representing the occurrence.
pub struct Media {
    /// The URL of the media.
    pub url: Option<String>,
}

// ---------------------------------------------------------------------------
// Fetch retry decision
// ---------------------------------------------------------------------------

/// What the occurrence fetcher does with a response status.
#[derive(PartialEq, Eq, Structural, Debug)]
pub enum FetchDecision {
    /// Use the body: either it parses, or the failure is terminal.
    Parse,
    /// Wait this many seconds and issue the same request again.
    RetryAfter(u64),
}

/// Decides what to do after an occurrence-search request came back with
/// status `code`: rate-limited requests are retried a bounded number of
/// times, everything else is handed to the parser.
pub fn occurrence_fetch_decision(code: i32, retries_done: u32, policy: &RetryPolicy) -> (r:
    FetchDecision)
    ensures
        r == if code == 429 && retries_done < policy.max_retries {
            FetchDecision::RetryAfter(policy.delay_secs)
        } else {
            FetchDecision::Parse
        },
{
    if !(200 <= code && code < 400) && policy.should_retry(code, retries_done) {
        FetchDecision::RetryAfter(policy.delay_secs)
    } else {
        FetchDecision::Parse
    }
}

} // verus!
