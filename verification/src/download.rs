//! The download scheduler's per-media decisions: skipping already attempted
//! media, sniffing the file type of the first chunk, bounded retry on rate
//! limiting, and recording the outcome.
//!
//! The network transfer itself is performed by the surrounding application,
//! which feeds what it saw back into [`attempt_verdict`] and
//! [`finish_download`].

use vstd::prelude::*;
use vstd::string::StringExecFns;

use crate::config::{medias_dir_local_of, species_local_dir, SpeciesTrait};
use crate::db::{success_code, Media, Store};
use crate::text::{
    chars_to_string, dec_int, dec_pad4, i64_to_dec_chars, push_str_chars, str_chars,
    u64_to_dec_pad4_chars,
};
use crate::utils::RetryPolicy;
use crate::Error;

verus! {

/// The sentinel status code recorded when a transport-level failure left no
/// response at all, or when the body could not be used.
pub const FAILED_DOWNLOAD_CODE: i32 = 600;

/// What the scheduler does with one media row.
pub enum DownloadAction {
    /// The media already has a recorded status code: no network call is
    /// made and the stored code is the result.
    Skip(i32),
    /// The media must be fetched from its url.
    Fetch(String),
}

/// Decides whether a media must be fetched at all.
///
/// A media whose `status_code` is already set is skipped: no network call
/// is made and the stored code is returned unchanged.
pub fn start_download(m: &Media) -> (r: DownloadAction)
    ensures
        match m.status_code {
            Some(c) => r == DownloadAction::Skip(c),
            None => r matches DownloadAction::Fetch(u) && u@ == m.url@,
        },
{
    match m.status_code {
        Some(c) => DownloadAction::Skip(c),
        None => DownloadAction::Fetch(m.url.clone()),
    }
}

// ---------------------------------------------------------------------------
// File-type sniffing
// ---------------------------------------------------------------------------

/// The image file extension that magic-byte sniffing detects in a byte
/// prefix, if any: a function of the bytes alone, absent when the bytes are
/// not those of a known image format.
pub uninterp spec fn image_ext_of(bytes: Seq<u8>) -> Option<Seq<char>>;

/// Relies on `infer::get`, `infer::Type::matcher_type` and
/// `infer::Type::extension`: the detected file type, whether it is an
/// image, and its usual extension are functions of the given bytes alone.
#[verifier::external_body]
fn sniff_image(bytes: &Vec<u8>) -> (r: Option<String>)
    ensures
        match r {
            Some(e) => image_ext_of(bytes@) == Some(e@),
            None => image_ext_of(bytes@) is None,
        },
{
    match infer::get(bytes) {
        Some(t) => match t.matcher_type() {
            infer::MatcherType::Image => Some(t.extension().to_owned()),
            _ => None,
        },
        None => None,
    }
}

// ---------------------------------------------------------------------------
// Attempt outcome
// ---------------------------------------------------------------------------

/// What the application saw when it tried to fetch a media url.
pub enum FetchResult {
    /// No response at all: a transport-level failure.
    NoResponse,
    /// A response with this status code, and the first chunk of its body
    /// when the status was a success and a chunk arrived.
    Response {
        /// The HTTP status code.
        code: i32,
        /// The first chunk of the body, if any arrived.
        first_chunk: Option<Vec<u8>>,
    },
}

/// What one download attempt concluded.
#[derive(Debug)]
pub enum AttemptVerdict {
    /// Rate limited: wait this many seconds and try again.
    RetryAfter(u64),
    /// Terminal: record this status code, and save the body under this
    /// extension when one is given.
    Record {
        /// The status code to record.
        code: i32,
        /// The image extension of the body, present exactly on success.
        extension: Option<String>,
    },
}

/// Judges one fetch attempt.
///
/// A transport failure, a missing body and an unrecognized or non-image
/// file type are all recorded as the sentinel failure code. Rate limiting
/// is retried while attempts remain. A success keeps its status code and
/// the sniffed image extension; any other status is recorded as it is.
pub fn attempt_verdict(outcome: &FetchResult, retries_done: u32, policy: &RetryPolicy) -> (r:
    AttemptVerdict)
    ensures
        match *outcome {
            FetchResult::NoResponse => r == (AttemptVerdict::Record {
                code: FAILED_DOWNLOAD_CODE,
                extension: None,
            }),
            FetchResult::Response { code, ref first_chunk } => {
                if code == 429 && retries_done < policy.max_retries {
                    r == AttemptVerdict::RetryAfter(policy.delay_secs)
                } else if success_code(code) {
                    match *first_chunk {
                        None => r == (AttemptVerdict::Record {
                            code: FAILED_DOWNLOAD_CODE,
                            extension: None,
                        }),
                        Some(ref bytes) => match image_ext_of(bytes@) {
                            Some(e) => r matches AttemptVerdict::Record { code: c, extension }
                                && c == code && (extension matches Some(x) && x@ == e),
                            None => r == (AttemptVerdict::Record {
                                code: FAILED_DOWNLOAD_CODE,
                                extension: None,
                            }),
                        },
                    }
                } else {
                    r == (AttemptVerdict::Record { code, extension: None })
                }
            },
        },
{
    match outcome {
        FetchResult::NoResponse => AttemptVerdict::Record {
            code: FAILED_DOWNLOAD_CODE,
            extension: None,
        },
        FetchResult::Response { code, first_chunk } => {
            let code = *code;
            if policy.should_retry(code, retries_done) {
                AttemptVerdict::RetryAfter(policy.delay_secs)
            } else if 200 <= code && code < 400 {
                match first_chunk {
                    None => AttemptVerdict::Record {
                        code: FAILED_DOWNLOAD_CODE,
                        extension: None,
                    },
                    Some(bytes) => match sniff_image(bytes) {
                        Some(e) => AttemptVerdict::Record { code, extension: Some(e) },
                        None => AttemptVerdict::Record {
                            code: FAILED_DOWNLOAD_CODE,
                            extension: None,
                        },
                    },
                }
            } else {
                AttemptVerdict::Record { code, extension: None }
            }
        },
    }
}

/// Whether a just-downloaded media is handed to the cropper: exactly the
/// successful downloads are.
pub fn should_crop(code: i32) -> (r: bool)
    ensures
        r == success_code(code),
{
    200 <= code && code < 400
}

// ---------------------------------------------------------------------------
// Destination paths
// ---------------------------------------------------------------------------

/// The file name of a downloaded media: its occurrence's registry key and
/// its own zero-padded identifier, under the sniffed extension.
pub open spec fn media_file_name_of(occurrence_key: int, media_id: nat, ext: Seq<char>) -> Seq<
    char,
> {
    dec_int(occurrence_key) + "_"@ + dec_pad4(media_id) + "."@ + ext
}

/// The path of a downloaded media under the media root: the species'
/// directory and the media's file name; absent when the species' name has
/// no recognizable author part.
pub open spec fn media_rel_path_of(
    valid_name: Seq<char>,
    occurrence_key: int,
    media_id: nat,
    ext: Seq<char>,
) -> Option<Seq<char>> {
    match medias_dir_local_of(valid_name) {
        Some(d) => Some(d + "/"@ + media_file_name_of(occurrence_key, media_id, ext)),
        None => None,
    }
}

/// Builds the path of a downloaded media under the media root.
pub fn media_rel_path<S: SpeciesTrait>(
    species: &S,
    occurrence_key: i64,
    media_id: i32,
    ext: &str,
) -> (r: Option<String>)
    requires
        media_id >= 0,
    ensures
        match r {
            Some(p) => media_rel_path_of(
                species.valid_name_spec(),
                occurrence_key as int,
                media_id as nat,
                ext@,
            ) == Some(p@),
            None => media_rel_path_of(
                species.valid_name_spec(),
                occurrence_key as int,
                media_id as nat,
                ext@,
            ) is None,
        },
{
    match species_local_dir(species) {
        None => None,
        Some(d) => {
            let mut chars = str_chars(d.as_str());
            chars.push('/');
            let mut key_chars = i64_to_dec_chars(occurrence_key);
            chars.append(&mut key_chars);
            chars.push('_');
            let mut id_chars = u64_to_dec_pad4_chars(media_id as u64);
            chars.append(&mut id_chars);
            chars.push('.');
            push_str_chars(&mut chars, ext);
            let p = chars_to_string(&chars);
            proof {
                reveal_strlit("/");
                reveal_strlit("_");
                reveal_strlit(".");
                assert(p@ =~= d@ + "/"@ + media_file_name_of(
                    occurrence_key as int,
                    media_id as nat,
                    ext@,
                ));
            }
            Some(p)
        },
    }
}

// ---------------------------------------------------------------------------
// Recording the outcome
// ---------------------------------------------------------------------------

/// The valid name of the species that owns the media at `idx`.
pub open spec fn media_species_name(s: Store, idx: int) -> Seq<char> {
    s.species@[s.occurrences@[s.medias@[idx].occurrence - 1].species - 1].valid_name@
}

/// Records a terminal download verdict on the media at `media_idx`.
///
/// On a failure the code alone is recorded. On a success the destination
/// path is derived from the owning species and occurrence and recorded with
/// the code; a species name without a recognizable author part cannot name
/// a directory, and the attempt fails with `SpeciesNotFound`, recording
/// nothing.
pub fn finish_download(store: &mut Store, media_idx: usize, code: i32, extension: Option<String>) -> (r:
    Result<i32, Error>)
    requires
        old(store).wf(),
        media_idx < old(store).medias@.len(),
        extension is Some <==> success_code(code),
    ensures
        final(store).wf(),
        final(store).species == old(store).species,
        final(store).ignored == old(store).ignored,
        final(store).occurrences == old(store).occurrences,
        match r {
            Ok(c) => {
                &&& c == code
                &&& final(store).medias@ == old(store).medias@.update(
                    media_idx as int,
                    Media {
                        status_code: Some(code),
                        path: final(store).medias@[media_idx as int].path,
                        ..old(store).medias@[media_idx as int]
                    },
                )
                &&& match extension {
                    None => final(store).medias@[media_idx as int].path is None,
                    Some(e) => final(store).medias@[media_idx as int].path matches Some(p)
                        && media_rel_path_of(
                        media_species_name(*old(store), media_idx as int),
                        old(store).occurrences@[old(store).medias@[media_idx as int].occurrence
                            - 1].key as int,
                        old(store).medias@[media_idx as int].id as nat,
                        e@,
                    ) == Some(p@),
                }
            },
            Err(e) => {
                &&& *final(store) == *old(store)
                &&& e is SpeciesNotFound
                &&& extension is Some
                &&& medias_dir_local_of(media_species_name(*old(store), media_idx as int)) is None
            },
        },
{
    let occ_id = store.medias[media_idx].occurrence;
    let o = (occ_id as usize) - 1;
    proof {
        assert(1 <= occ_id <= store.occurrences@.len());
    }
    let sp_id = store.occurrences[o].species;
    let si = (sp_id as usize) - 1;
    proof {
        assert(1 <= sp_id <= store.species@.len());
    }
    match extension {
        None => {
            store.record_download(media_idx, code, None);
            Ok(code)
        },
        Some(e) => {
            let occ_key = store.occurrences[o].key;
            let media_id = store.medias[media_idx].id;
            proof {
                assert(media_id == media_idx + 1);
            }
            let species = &store.species[si];
            match media_rel_path(species, occ_key, media_id, e.as_str()) {
                Some(p) => {
                    store.record_download(media_idx, code, Some(p));
                    Ok(code)
                },
                None => Err(Error::SpeciesNotFound(species.valid_name.clone())),
            }
        },
    }
}

} // verus!
