//! The scrape -> mark -> download -> crop pipeline: resolution, pagination,
//! download verdicts and the cropper bridge.

use gbif_scraper::config::Storage;
use gbif_scraper::cropper::{
    batch_scratch_dir, encode_request, AddFileRequest, Batch, Cropper, CropperPhase,
    FileCropFailureResponse, FileCropSuccessResponse, Request, ResponseItem,
};
use gbif_scraper::db::Store;
use gbif_scraper::download::{
    attempt_verdict, finish_download, should_crop, start_download, AttemptVerdict, DownloadAction,
    FetchResult,
};
use gbif_scraper::gbif::{
    occurrence_fetch_decision, FetchDecision, Media as GbifMedia, OccurrencesResponse,
    OccurrencesResult,
};
use gbif_scraper::resolver::{
    resolve_local, resolve_with_search_result, LocalResolution, ResolveOutcome,
};
use gbif_scraper::scrape::{finish_scrape, persist_after_first_page, ScrapeState};
use gbif_scraper::taxref::Entry;
use gbif_scraper::utils::RetryPolicy;

const BLACKLIST: &str = "aae308f4-9f9c-4cdd-b4ef-c026f48be551";

fn entry(valid_name: &str) -> Entry {
    Entry {
        reign: String::from("Animalia"),
        phylum: String::from("Chordata"),
        class: String::from("Mammalia"),
        order: String::from("Carnivora"),
        family: String::from("Canidae"),
        genus: String::from("Canis"),
        rank: String::from("ES"),
        name: String::from("name"),
        full_name: String::from("full"),
        valid_name: String::from(valid_name),
        habitat: String::from("2"),
        fr: String::from("P"),
    }
}

fn occurrence_result(key: i64, dataset: &str, urls: &[&str]) -> OccurrencesResult {
    OccurrencesResult {
        key,
        dataset_key: String::from(dataset),
        medias: urls
            .iter()
            .map(|u| GbifMedia {
                url: Some(String::from(*u)),
            })
            .collect(),
    }
}

// ---------------------------------------------------------------------------
// Resolution
// ---------------------------------------------------------------------------

#[test]
fn resolving_a_done_species_makes_no_remote_call() {
    let mut store = Store::new();
    let e = entry("Canis lupus Linnaeus, 1758");
    // first resolution: unknown name, search returns key 77, scrape runs
    match resolve_local(&store, "Canis lupus Linnaeus, 1758") {
        LocalResolution::NeedsSearch => (),
        _ => panic!("fresh name must need a search"),
    }
    match resolve_with_search_result(&mut store, &e, Some(77)).unwrap() {
        ResolveOutcome::Proceed(77) => (),
        _ => panic!("a fresh key must proceed to scraping"),
    }
    let idx = persist_after_first_page(&mut store, &e, 77, 50).unwrap();
    let state = ScrapeState::start(
        77,
        2,
        String::from(BLACKLIST),
        OccurrencesResponse {
            results: vec![occurrence_result(100, "gooddata", &["http://a/1"])],
            count: 50,
        },
    );
    finish_scrape(&mut store, state, idx).unwrap();
    assert!(store.species[idx].done);

    // re-resolving returns the identical stored record, with no search and
    // no store change
    let before = store.species[idx].clone();
    match resolve_local(&store, "Canis lupus Linnaeus, 1758") {
        LocalResolution::Done(i) => {
            assert_eq!(i, idx);
            let after = &store.species[i];
            assert_eq!(after.valid_name, before.valid_name);
            assert_eq!(after.species_key, before.species_key);
            assert_eq!(after.available_occurrences, before.available_occurrences);
            assert_eq!(after.done, before.done);
        }
        _ => panic!("a done species must resolve locally"),
    }
}

#[test]
fn two_entries_with_one_key_converge_on_one_species() {
    let mut store = Store::new();
    let e1 = entry("Canis lupus Linnaeus, 1758");
    let e2 = entry("Canis italicus Altobello, 1921");

    match resolve_with_search_result(&mut store, &e1, Some(77)).unwrap() {
        ResolveOutcome::Proceed(77) => (),
        _ => panic!("first entry proceeds"),
    }
    let idx = persist_after_first_page(&mut store, &e1, 77, 10).unwrap();

    // the second entry resolves to the same registry key
    match resolve_local(&store, "Canis italicus Altobello, 1921") {
        LocalResolution::NeedsSearch => (),
        _ => panic!("second name must need a search"),
    }
    match resolve_with_search_result(&mut store, &e2, Some(77)).unwrap() {
        ResolveOutcome::Duplicate(i) => assert_eq!(i, idx),
        _ => panic!("second entry must converge on the first row"),
    }
    // exactly one species row, and one ignored row for the second entry
    assert_eq!(store.species.len(), 1);
    assert_eq!(store.ignored.len(), 1);
    assert_eq!(store.ignored[0].valid_name, "Canis italicus Altobello, 1921");
    assert_eq!(store.ignored[0].species_key, Some(77));

    // afterwards the second entry is a known duplicate
    match resolve_local(&store, "Canis italicus Altobello, 1921") {
        LocalResolution::KnownDuplicate => (),
        _ => panic!("second entry must now be a known duplicate"),
    }
}

#[test]
fn failed_search_persists_a_keyless_species() {
    let mut store = Store::new();
    let e = entry("Canis ignotus Nobody, 1900");
    match resolve_with_search_result(&mut store, &e, None).unwrap() {
        ResolveOutcome::NotFound => (),
        _ => panic!("no key means not found"),
    }
    assert_eq!(store.species.len(), 1);
    assert_eq!(store.species[0].species_key, None);
    assert_eq!(store.species[0].available_occurrences, 0);
    assert!(!store.species[0].done);
}

// ---------------------------------------------------------------------------
// Scraping
// ---------------------------------------------------------------------------

#[test]
fn scrape_stops_after_enough_occurrences() {
    // species key 1234, maxOccurrences = 2: the first page returns 2
    // non-blacklisted results with media out of 50 available, so the loop
    // stops right there, and the species ends done with 50 available.
    let mut store = Store::new();
    let e = entry("Canis lupus Linnaeus, 1758");
    let first_page = OccurrencesResponse {
        results: vec![
            occurrence_result(100, "gooddata", &["http://a/1", "http://a/2"]),
            occurrence_result(200, "gooddata", &["http://a/3"]),
        ],
        count: 50,
    };
    let state = ScrapeState::start(1234, 2, String::from(BLACKLIST), first_page);
    assert_eq!(state.scraped, 2);
    assert_eq!(state.fetched, 2);
    assert!(!state.should_fetch_more());

    let idx = persist_after_first_page(&mut store, &e, 1234, 50).unwrap();
    assert_eq!(store.species[idx].available_occurrences, 50);
    finish_scrape(&mut store, state, idx).unwrap();
    assert!(store.species[idx].done);
    assert_eq!(store.occurrences.len(), 2);
    assert_eq!(store.medias.len(), 3);
}

#[test]
fn scrape_offset_advances_by_returned_count() {
    // a short intermediate page under-advances the offset: the next offset
    // is the number of results actually returned, not the page size asked
    let first_page = OccurrencesResponse {
        results: vec![occurrence_result(1, "gooddata", &["http://a/1"])],
        count: 50,
    };
    let mut state = ScrapeState::start(1234, 100, String::from(BLACKLIST), first_page);
    assert_eq!(state.fetched, 1);
    assert!(state.should_fetch_more());
    // the next request would use offset = 1
    state.on_page(OccurrencesResponse {
        results: vec![
            occurrence_result(2, "gooddata", &[]),
            occurrence_result(3, BLACKLIST, &["http://a/2"]),
        ],
        count: 50,
    });
    // two more results, neither scrapable: one has no media, one is
    // blacklisted
    assert_eq!(state.fetched, 3);
    assert_eq!(state.scraped, 1);
    assert!(state.should_fetch_more());
}

#[test]
fn scrape_skips_occurrences_with_known_urls() {
    let mut store = Store::new();
    let e = entry("Canis lupus Linnaeus, 1758");
    let idx = persist_after_first_page(&mut store, &e, 77, 4).unwrap();
    let page = OccurrencesResponse {
        results: vec![
            occurrence_result(100, "gooddata", &["http://a/1"]),
            // shares a url with the first occurrence: skipped whole,
            // including its novel second url
            occurrence_result(200, "gooddata", &["http://a/1", "http://a/new"]),
            occurrence_result(300, "gooddata", &["http://a/2"]),
        ],
        count: 4,
    };
    let state = ScrapeState::start(77, 10, String::from(BLACKLIST), page);
    finish_scrape(&mut store, state, idx).unwrap();
    assert_eq!(store.occurrences.len(), 2);
    let urls: Vec<&str> = store.medias.iter().map(|m| m.url.as_str()).collect();
    assert_eq!(urls, vec!["http://a/1", "http://a/2"]);
}

// ---------------------------------------------------------------------------
// Downloading
// ---------------------------------------------------------------------------

/// A store with one species, one occurrence and `n` media rows.
fn download_store(n: usize) -> Store {
    let mut store = Store::new();
    let s = store
        .save_species(gbif_scraper::db::Species::from_taxref(
            &entry("Canis lupus Linnaeus, 1758"),
            Some(77),
            10,
        ))
        .unwrap();
    let o = store.save_occurrence(100, String::from("gooddata"), s).unwrap();
    for i in 0..n {
        store
            .save_media(format!("http://a/{}", i), o)
            .unwrap();
    }
    store
}

#[test]
fn download_with_recorded_code_is_skipped() {
    let mut store = download_store(1);
    store.record_download(0, 299, None);
    match start_download(&store.medias[0]) {
        DownloadAction::Skip(c) => assert_eq!(c, 299),
        DownloadAction::Fetch(_) => panic!("an attempted media must not be fetched again"),
    }
}

#[test]
fn fresh_download_fetches_the_url() {
    let store = download_store(1);
    match start_download(&store.medias[0]) {
        DownloadAction::Fetch(u) => assert_eq!(u, "http://a/0"),
        DownloadAction::Skip(_) => panic!("a fresh media must be fetched"),
    }
}

const PNG_MAGIC: [u8; 12] = [
    0x89, 0x50, 0x4E, 0x47, 0x0D, 0x0A, 0x1A, 0x0A, 0x00, 0x00, 0x00, 0x0D,
];

#[test]
fn verdicts_follow_the_policy() {
    let policy = RetryPolicy {
        max_retries: 3,
        delay_secs: 10,
    };
    // transport failure: sentinel code
    match attempt_verdict(&FetchResult::NoResponse, 0, &policy) {
        AttemptVerdict::Record { code, extension } => {
            assert_eq!(code, 600);
            assert!(extension.is_none());
        }
        _ => panic!("no retry without a response"),
    }
    // rate limited, attempts left
    match attempt_verdict(
        &FetchResult::Response {
            code: 429,
            first_chunk: None,
        },
        0,
        &policy,
    ) {
        AttemptVerdict::RetryAfter(d) => assert_eq!(d, 10),
        _ => panic!("rate limiting is retried"),
    }
    // rate limited, attempts exhausted
    match attempt_verdict(
        &FetchResult::Response {
            code: 429,
            first_chunk: None,
        },
        3,
        &policy,
    ) {
        AttemptVerdict::Record { code, .. } => assert_eq!(code, 429),
        _ => panic!("retries are bounded"),
    }
    // terminal failure codes are recorded as they are
    match attempt_verdict(
        &FetchResult::Response {
            code: 404,
            first_chunk: None,
        },
        0,
        &policy,
    ) {
        AttemptVerdict::Record { code, extension } => {
            assert_eq!(code, 404);
            assert!(extension.is_none());
        }
        _ => panic!("a 404 is terminal"),
    }
    // a successful response carrying a png keeps its code and extension
    match attempt_verdict(
        &FetchResult::Response {
            code: 200,
            first_chunk: Some(PNG_MAGIC.to_vec()),
        },
        0,
        &policy,
    ) {
        AttemptVerdict::Record { code, extension } => {
            assert_eq!(code, 200);
            assert_eq!(extension.as_deref(), Some("png"));
        }
        _ => panic!("a successful image download is recorded"),
    }
    // a successful response that is not an image fails with the sentinel
    match attempt_verdict(
        &FetchResult::Response {
            code: 200,
            first_chunk: Some(b"%PDF-1.4 not an image".to_vec()),
        },
        0,
        &policy,
    ) {
        AttemptVerdict::Record { code, extension } => {
            assert_eq!(code, 600);
            assert!(extension.is_none());
        }
        _ => panic!("a non-image body is a failure"),
    }
}

#[test]
fn finish_download_derives_the_path() {
    let mut store = download_store(1);
    let code = finish_download(&mut store, 0, 200, Some(String::from("png"))).unwrap();
    assert_eq!(code, 200);
    assert_eq!(store.medias[0].status_code, Some(200));
    assert_eq!(
        store.medias[0].path.as_deref(),
        Some("canis lupus/100_0001.png")
    );
    // failures record the code and no path
    let mut store = download_store(1);
    finish_download(&mut store, 0, 404, None).unwrap();
    assert_eq!(store.medias[0].status_code, Some(404));
    assert!(store.medias[0].path.is_none());
}

#[test]
fn crop_is_asked_exactly_on_success() {
    assert!(should_crop(200));
    assert!(should_crop(302));
    assert!(should_crop(399));
    assert!(!should_crop(404));
    assert!(!should_crop(400));
    assert!(!should_crop(600));
}

// ---------------------------------------------------------------------------
// The cropper bridge
// ---------------------------------------------------------------------------

#[test]
fn requests_encode_as_json_lines() {
    assert_eq!(encode_request(&Request::Run), "{\"type\":\"run\"}");
    assert_eq!(encode_request(&Request::End), "{\"type\":\"end\"}");
    let add = Request::AddFile(AddFileRequest {
        id: 3,
        path: String::from("/data/medias/a b\"c\\d"),
    });
    assert_eq!(
        encode_request(&add),
        "{\"type\":\"add_file\",\"id\":3,\"path\":\"/data/medias/a b\\\"c\\\\d\"}"
    );
    let newline = Request::AddFile(AddFileRequest {
        id: -1,
        path: String::from("a\nb"),
    });
    assert_eq!(
        encode_request(&newline),
        "{\"type\":\"add_file\",\"id\":-1,\"path\":\"a\\nb\"}"
    );
}

#[test]
fn should_wait_python_only_for_run_and_end() {
    assert!(!Request::AddFile(AddFileRequest {
        id: 1,
        path: String::new()
    })
    .should_wait_python());
    assert!(Request::Run.should_wait_python());
    assert!(Request::End.should_wait_python());
}

fn success_item(id: i32) -> ResponseItem {
    ResponseItem::FileCropSuccess(FileCropSuccessResponse {
        id,
        path: format!("/data/medias/canis lupus/100_{:04}.png", id),
        cropped_path: format!("/data/tmp/7/{}.png", id),
        x: String::from("0.5"),
        y: String::from("0.25"),
        width: String::from("0.4"),
        height: String::from("0.3"),
        confidence: String::from("0.97"),
    })
}

#[test]
fn a_full_batch_triggers_run_and_applies_whole() {
    // batchCapacity = 3: three AddFile calls auto-trigger Run; a Batch with
    // 2 successes and 1 failure updates exactly 3 media rows, and the
    // batch's own scratch directory is the one to delete.
    let mut store = download_store(3);
    for i in 0..3 {
        finish_download(&mut store, i, 200, Some(String::from("png"))).unwrap();
    }
    let mut cropper = Cropper::new(3);
    assert!(matches!(cropper.phase, CropperPhase::AwaitingReady));
    cropper.handle_ready().unwrap();

    let r1 = cropper.handle_message(&store, "/data", Some(1));
    assert_eq!(r1.len(), 1);
    assert_eq!(
        encode_request(&r1[0]),
        "{\"type\":\"add_file\",\"id\":1,\"path\":\"/data/medias/canis lupus/100_0001.png\"}"
    );
    let r2 = cropper.handle_message(&store, "/data", Some(2));
    assert_eq!(r2.len(), 1);
    // the third file fills the batch: Run follows automatically
    let r3 = cropper.handle_message(&store, "/data", Some(3));
    assert_eq!(r3.len(), 2);
    assert!(matches!(r3[1], Request::Run));
    assert!(matches!(cropper.phase, CropperPhase::AwaitingBatch));

    let batch = Batch {
        id: 7,
        files: vec![
            success_item(1),
            success_item(2),
            ResponseItem::FileCropFailure(FileCropFailureResponse {
                id: 3,
                path: String::from("/data/medias/canis lupus/100_0003.png"),
            }),
        ],
    };
    let renames = cropper
        .on_batch(&mut store, batch, "/data/medias_cropped")
        .unwrap();
    assert!(matches!(cropper.phase, CropperPhase::Idle));

    // exactly the three media rows of the batch were updated
    assert!(store.medias.iter().all(|m| m.cropped));
    assert_eq!(store.medias[0].x.as_deref(), Some("0.5"));
    assert_eq!(store.medias[0].confidence.as_deref(), Some("0.97"));
    assert_eq!(store.medias[1].y.as_deref(), Some("0.25"));
    // the failure keeps no bounding box: crop attempted and failed
    assert!(store.medias[2].x.is_none());
    assert!(store.medias[2].cropped);

    // one artifact move per success
    assert_eq!(renames.len(), 2);
    assert_eq!(renames[0].from, "/data/tmp/7/1.png");
    assert_eq!(
        renames[0].to,
        "/data/medias_cropped/canis lupus/100_0001.png"
    );

    // the scratch directory of exactly this batch is deleted afterwards
    let storage = Storage {
        data_path: String::from("/data"),
    };
    assert_eq!(batch_scratch_dir(&storage, 7), "/data/tmp/7");
}

#[test]
fn a_batch_that_cannot_apply_leaves_no_crops() {
    // all-or-nothing: a batch that fails mid-application leaves no media of
    // the batch with cropped = true
    let mut store = download_store(2);
    finish_download(&mut store, 0, 200, Some(String::from("png"))).unwrap();
    // media 2 was never downloaded, so its success item cannot apply
    let batch = Batch {
        id: 9,
        files: vec![success_item(1), success_item(2)],
    };
    let r = store.apply_batch(batch, "/data/medias_cropped");
    assert!(r.is_err());
    assert!(store.medias.iter().all(|m| !m.cropped));
    assert!(store.medias.iter().all(|m| m.x.is_none()));

    // an unknown media id refuses the batch too
    let batch = Batch {
        id: 10,
        files: vec![success_item(1), success_item(99)],
    };
    assert!(store.apply_batch(batch, "/data/medias_cropped").is_err());
    assert!(store.medias.iter().all(|m| !m.cropped));
}

#[test]
fn the_final_batch_terminates_the_session() {
    let mut store = download_store(1);
    finish_download(&mut store, 0, 200, Some(String::from("png"))).unwrap();
    let mut cropper = Cropper::new(128);
    cropper.handle_ready().unwrap();
    let r = cropper.handle_message(&store, "/data", Some(1));
    assert_eq!(r.len(), 1);
    // the stop sentinel asks the worker to end
    let r = cropper.handle_message(&store, "/data", None);
    assert_eq!(r.len(), 1);
    assert!(matches!(r[0], Request::End));
    assert!(matches!(cropper.phase, CropperPhase::AwaitingFinal));
    let batch = Batch {
        id: 1,
        files: vec![success_item(1)],
    };
    cropper.on_batch(&mut store, batch, "/data/medias_cropped").unwrap();
    assert!(matches!(cropper.phase, CropperPhase::Terminated));
    assert!(store.medias[0].cropped);
}

#[test]
fn ready_must_come_first() {
    let mut cropper = Cropper::new(8);
    cropper.handle_ready().unwrap();
    // a second Ready is a protocol violation
    assert!(cropper.handle_ready().is_err());
}

#[test]
fn messages_for_unknown_or_undownloaded_media_are_dropped() {
    let store = download_store(1);
    let mut cropper = Cropper::new(8);
    cropper.handle_ready().unwrap();
    // media 1 exists but was never downloaded
    assert!(cropper.handle_message(&store, "/data", Some(1)).is_empty());
    // media 42 does not exist
    assert!(cropper.handle_message(&store, "/data", Some(42)).is_empty());
    assert_eq!(cropper.batch_size, 0);
}

#[test]
fn occurrence_fetch_retries_on_rate_limit_only() {
    let policy = RetryPolicy {
        max_retries: 3,
        delay_secs: 5,
    };
    assert_eq!(
        occurrence_fetch_decision(200, 0, &policy),
        FetchDecision::Parse
    );
    assert_eq!(
        occurrence_fetch_decision(429, 0, &policy),
        FetchDecision::RetryAfter(5)
    );
    assert_eq!(
        occurrence_fetch_decision(429, 3, &policy),
        FetchDecision::Parse
    );
    // other failures go straight to the parser, where they surface as
    // a json error
    assert_eq!(
        occurrence_fetch_decision(500, 0, &policy),
        FetchDecision::Parse
    );
}

#[test]
fn control_characters_escape_as_unicode() {
    let req = Request::AddFile(AddFileRequest {
        id: 1,
        path: String::from("a\u{1}b\u{1f}c"),
    });
    assert_eq!(
        encode_request(&req),
        "{\"type\":\"add_file\",\"id\":1,\"path\":\"a\\u0001b\\u001fc\"}"
    );
}

#[test]
fn zero_capacity_flushes_every_file() {
    let mut cropper = Cropper::new(0);
    cropper.handle_ready().unwrap();
    let r = cropper.add_file(1, String::from("/data/medias/x.png"));
    assert_eq!(r.len(), 2);
    assert!(matches!(r[1], Request::Run));
    assert!(matches!(cropper.phase, CropperPhase::AwaitingBatch));
}

#[test]
fn persist_refuses_a_key_owned_by_another_row() {
    let mut store = Store::new();
    let e1 = entry("Canis lupus Linnaeus, 1758");
    let e2 = entry("Canis aureus Linnaeus, 1758");
    persist_after_first_page(&mut store, &e1, 77, 5).unwrap();
    // a second name cannot take over key 77
    assert!(persist_after_first_page(&mut store, &e2, 77, 9).is_err());
    assert_eq!(store.species.len(), 1);
    // but the owning row itself may refresh its key and total (a resumed
    // scrape)
    let idx = persist_after_first_page(&mut store, &e1, 77, 9).unwrap();
    assert_eq!(store.species[idx].available_occurrences, 9);
}

#[test]
fn duplicate_convergence_refuses_an_already_ignored_name() {
    let mut store = Store::new();
    let e1 = entry("Canis lupus Linnaeus, 1758");
    let e2 = entry("Canis italicus Altobello, 1921");
    persist_after_first_page(&mut store, &e1, 77, 5).unwrap();
    // first convergence of the second entry inserts its ignored row
    match resolve_with_search_result(&mut store, &e2, Some(77)).unwrap() {
        ResolveOutcome::Duplicate(_) => (),
        _ => panic!("second entry must converge"),
    }
    // an unfinished keyless row for the same name makes the entry need a
    // search again; converging once more cannot insert a second ignored row
    let mut odd = Store::new();
    odd.save_species(gbif_scraper::db::Species::from_taxref(&e1, Some(77), 5))
        .unwrap();
    odd.save_species(gbif_scraper::db::Species::from_taxref(&e2, None, 0))
        .unwrap();
    odd.save_ignored(gbif_scraper::db::IgnoredSpecies::from_taxref(&e2, Some(77)))
        .unwrap();
    assert!(resolve_with_search_result(&mut odd, &e2, Some(77)).is_err());
    assert_eq!(odd.ignored.len(), 1);
}
