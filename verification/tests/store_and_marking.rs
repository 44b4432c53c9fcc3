//! The relational store: uniqueness, download bookkeeping and the bulk
//! marking policy.

use gbif_scraper::config::Storage;
use gbif_scraper::db::{Species, SpeciesWithoutId, Store};

const BLACKLIST: &str = "aae308f4-9f9c-4cdd-b4ef-c026f48be551";

fn species_row(name: &str, key: Option<i64>) -> SpeciesWithoutId {
    SpeciesWithoutId {
        reign: String::from("Animalia"),
        phylum: String::from("Chordata"),
        class: String::from("Mammalia"),
        order: String::from("Carnivora"),
        family: String::from("Canidae"),
        genus: String::from("Canis"),
        valid_name: String::from(name),
        species_key: key,
        available_occurrences: 0,
        done: false,
    }
}

/// One species with a non-blacklisted occurrence carrying two media and a
/// blacklisted occurrence carrying one.
fn marking_store() -> Store {
    let mut store = Store::new();
    let s = store
        .save_species(species_row("Canis lupus Linnaeus, 1758", Some(7)))
        .unwrap();
    let o1 = store
        .save_occurrence(100, String::from("gooddata"), s)
        .unwrap();
    let o2 = store.save_occurrence(200, String::from(BLACKLIST), s).unwrap();
    store.save_media(String::from("http://a/1"), o1).unwrap();
    store.save_media(String::from("http://a/2"), o1).unwrap();
    store.save_media(String::from("http://a/3"), o2).unwrap();
    store
}

fn flags(store: &Store) -> Vec<bool> {
    store.medias.iter().map(|m| m.to_download).collect()
}

#[test]
fn duplicate_media_url_is_rejected() {
    let mut store = marking_store();
    let len_before = store.medias.len();
    let r = store.save_media(String::from("http://a/1"), 0);
    assert!(r.is_err());
    assert_eq!(store.medias.len(), len_before);
    // a fresh url is accepted
    assert!(store.save_media(String::from("http://a/4"), 0).is_ok());
}

#[test]
fn duplicate_species_name_and_key_are_rejected() {
    let mut store = Store::new();
    store.save_species(species_row("Canis lupus", Some(7))).unwrap();
    assert!(store.save_species(species_row("Canis lupus", None)).is_err());
    assert!(store.save_species(species_row("Canis aureus", Some(7))).is_err());
    assert!(store.save_species(species_row("Canis aureus", Some(8))).is_ok());
    assert_eq!(store.species.len(), 2);
}

#[test]
fn duplicate_occurrence_key_is_rejected() {
    let mut store = Store::new();
    let s = store.save_species(species_row("Canis lupus", Some(7))).unwrap();
    store.save_occurrence(100, String::from("d"), s).unwrap();
    assert!(store.save_occurrence(100, String::from("d"), s).is_err());
    assert_eq!(store.occurrences.len(), 1);
}

#[test]
fn marking_below_threshold_flags_everything() {
    // minOccurrences = 30: S has 1 non-blacklisted occurrence, fewer than
    // 30, so every media of every occurrence of S is flagged.
    let mut store = marking_store();
    store.mark_first_medias(BLACKLIST);
    store.mark_low_occurrence_species(BLACKLIST, 30);
    assert_eq!(flags(&store), vec![true, true, true]);
}

#[test]
fn marking_above_threshold_flags_first_media_only() {
    // minOccurrences = 1: S has exactly 1 non-blacklisted occurrence, not
    // fewer than 1, so only the lower-id medium of O1 is flagged.
    let mut store = marking_store();
    store.mark_first_medias(BLACKLIST);
    store.mark_low_occurrence_species(BLACKLIST, 1);
    assert_eq!(flags(&store), vec![true, false, false]);
}

#[test]
fn marking_is_idempotent() {
    let mut store = marking_store();
    store.mark_first_medias(BLACKLIST);
    store.mark_low_occurrence_species(BLACKLIST, 1);
    let once = flags(&store);
    store.mark_first_medias(BLACKLIST);
    store.mark_low_occurrence_species(BLACKLIST, 1);
    assert_eq!(flags(&store), once);
}

#[test]
fn record_download_sets_code_and_path_together() {
    let mut store = marking_store();
    store.record_download(0, 200, Some(String::from("canis lupus/100_0001.jpg")));
    store.record_download(1, 404, None);
    store.record_download(2, 600, None);
    assert_eq!(store.medias[0].status_code, Some(200));
    assert_eq!(
        store.medias[0].path.as_deref(),
        Some("canis lupus/100_0001.jpg")
    );
    assert_eq!(store.medias[1].status_code, Some(404));
    assert!(store.medias[1].path.is_none());
    assert_eq!(store.medias[2].status_code, Some(600));
    assert!(store.medias[0].is_downloaded());
    assert!(!store.medias[1].is_downloaded());
}

#[test]
fn selections_follow_the_flags() {
    let mut store = marking_store();
    store.mark_first_medias(BLACKLIST);
    assert_eq!(store.medias_to_download(), vec![1]);
    store.mark_low_occurrence_species(BLACKLIST, 30);
    assert_eq!(store.medias_to_download(), vec![1, 2, 3]);
    // crop candidates need a downloaded path on top of the flag
    store.record_download(0, 200, Some(String::from("canis lupus/100_0001.jpg")));
    store.record_download(1, 404, None);
    assert_eq!(store.crop_candidates(), vec![1]);
}

#[test]
fn lookups_find_rows_by_their_unique_columns() {
    let store = marking_store();
    assert_eq!(store.get_species_by_valid_name("Canis lupus Linnaeus, 1758"), Some(0));
    assert_eq!(store.get_species_by_valid_name("unknown"), None);
    assert_eq!(store.get_species_by_species_key(7), Some(0));
    assert_eq!(store.get_species_by_species_key(8), None);
    assert_eq!(store.get_media_by_url("http://a/2"), Some(1));
    assert_eq!(store.get_media_by_url("http://a/9"), None);
    assert_eq!(store.get_media_by_id(3), Some(2));
    assert_eq!(store.get_media_by_id(4), None);
    assert_eq!(store.get_occurrence_by_id(2), Some(1));
}

#[test]
fn storage_paths() {
    let storage = Storage {
        data_path: String::from("/data"),
    };
    assert_eq!(storage.species_dir(), "/data/species");
    assert_eq!(storage.medias_root(), "/data/medias");
    assert_eq!(storage.cropped_root(), "/data/medias_cropped");
    assert_eq!(storage.tmp_dir(), "/data/tmp");
    let store = marking_store();
    let species: &Species = &store.species[0];
    assert_eq!(
        storage.medias_dir_local(species).as_deref(),
        Some("canis lupus")
    );
    assert_eq!(
        storage.medias_dir(species).as_deref(),
        Some("/data/medias/canis lupus")
    );
    assert_eq!(
        storage.cropped_medias_dir(species).as_deref(),
        Some("/data/medias_cropped/canis lupus")
    );
}

#[test]
fn two_keyless_species_may_coexist() {
    // the species-key uniqueness constraint only applies when the key is
    // present
    let mut store = Store::new();
    store.save_species(species_row("Canis lupus", None)).unwrap();
    store.save_species(species_row("Canis aureus", None)).unwrap();
    assert_eq!(store.species.len(), 2);
}

#[test]
fn marking_an_empty_store_does_nothing() {
    let mut store = Store::new();
    store.mark_first_medias(BLACKLIST);
    store.mark_low_occurrence_species(BLACKLIST, 30);
    assert!(store.medias.is_empty());
    assert!(store.medias_to_download().is_empty());
    assert!(store.crop_candidates().is_empty());
}

#[test]
fn media_path_joins_the_data_root() {
    let mut store = marking_store();
    store.record_download(0, 200, Some(String::from("canis lupus/100_0001.jpg")));
    let storage = Storage {
        data_path: String::from("/data"),
    };
    assert_eq!(
        store.medias[0].path(&storage).as_deref(),
        Some("/data/canis lupus/100_0001.jpg")
    );
    assert_eq!(store.medias[1].path(&storage), None);
}
