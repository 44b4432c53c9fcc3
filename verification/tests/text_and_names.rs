//! Names, query preprocessing, URL building and reference-file parsing.

use gbif_scraper::gbif::{gbif_url, occurrence_search_url, preprocess, species_search_url};
use gbif_scraper::gbif::{SpeciesOptionalResponse, SpeciesOptionalResult};
use gbif_scraper::gbif::first_species_key;
use gbif_scraper::taxref::{parse_taxon, Entry, Taxon};
use gbif_scraper::utils::{pretty_finder, pretty_name, RetryPolicy};

#[test]
fn pretty_name_drops_the_author() {
    assert_eq!(
        pretty_name("Canis lupus Linnaeus, 1758"),
        Some(String::from("Canis lupus"))
    );
    assert_eq!(
        pretty_finder("Canis lupus Linnaeus, 1758"),
        Some(String::from("Linnaeus, 1758"))
    );
}

#[test]
fn pretty_name_strips_parentheses() {
    assert_eq!(
        pretty_name("Sciurus vulgaris (Linnaeus, 1758)"),
        Some(String::from("Sciurus vulgaris"))
    );
    assert_eq!(
        pretty_finder("Sciurus vulgaris (Linnaeus, 1758)"),
        Some(String::from("Linnaeus, 1758"))
    );
}

#[test]
fn pretty_name_without_author_is_none() {
    assert_eq!(pretty_name("canis lupus"), None);
    assert_eq!(pretty_finder("canis lupus"), None);
    assert_eq!(pretty_name(""), None);
}

#[test]
fn preprocess_transliterates_strips_and_lowercases() {
    assert_eq!(preprocess("Æther (x), Y"), "aether x y");
    assert_eq!(preprocess("Canis Lupus"), "canis lupus");
    assert_eq!(preprocess(""), "");
}

#[test]
fn gbif_urls() {
    assert_eq!(gbif_url("/species"), "https://api.gbif.org/v1/species");
    assert_eq!(
        species_search_url("Abc"),
        "https://api.gbif.org/v1/species/search?q=abc&limit=300&datasetKey=d7dddbf4-2cf0-4f39-9b2a-bb099caae36c"
    );
    assert_eq!(
        occurrence_search_url(1234, 0, 300),
        "https://api.gbif.org/v1/occurrence/search?speciesKey=1234&offset=0&limit=300&mediaType=stillImage"
    );
    assert_eq!(
        occurrence_search_url(42, 600, 300),
        "https://api.gbif.org/v1/occurrence/search?speciesKey=42&offset=600&limit=300&mediaType=stillImage"
    );
}

#[test]
fn parse_taxon_is_case_insensitive() {
    assert!(matches!(parse_taxon("REIGN"), Ok(Taxon::Reign)));
    assert!(matches!(parse_taxon("Species"), Ok(Taxon::Species)));
    assert!(matches!(parse_taxon("genus"), Ok(Taxon::Genus)));
    let e = parse_taxon("nothing").unwrap_err();
    assert_eq!(e.0, "nothing");
}

#[test]
fn taxon_to_str_roundtrip() {
    assert_eq!(Taxon::Reign.to_str(), "reign");
    assert_eq!(Taxon::Family.to_str(), "family");
    assert!(matches!(parse_taxon(Taxon::Order.to_str()), Ok(Taxon::Order)));
}

fn taxref_line(
    reign: &str,
    genus: &str,
    rank: &str,
    valid_name: &str,
    habitat: &str,
    fr: &str,
) -> String {
    let mut fields = vec![String::new(); 24];
    fields[0] = format!("\"{}\"", reign);
    fields[1] = String::from("Chordata");
    fields[2] = String::from("Mammalia");
    fields[3] = String::from("Carnivora");
    fields[4] = String::from("Canidae");
    fields[5] = String::from(genus);
    fields[14] = String::from(rank);
    fields[15] = String::from("name");
    fields[17] = String::from("full name");
    fields[19] = String::from(valid_name);
    fields[22] = String::from(habitat);
    fields[23] = String::from(fr);
    fields.join("\t")
}

#[test]
fn from_line_reads_the_right_fields() {
    let line = taxref_line("Animalia", "Canis", "ES", "Canis lupus Linnaeus, 1758", "2", "P");
    let e = Entry::from_line(&line).unwrap();
    assert_eq!(e.reign, "Animalia");
    assert_eq!(e.genus, "Canis");
    assert_eq!(e.rank, "ES");
    assert_eq!(e.valid_name, "Canis lupus Linnaeus, 1758");
    assert_eq!(e.habitat, "2");
    assert_eq!(e.fr, "P");
    assert!(e.is_species());
    assert!(e.is_present_france());
    assert!(e.is_terrestrial());
    assert!(e.filter());
    assert_eq!(e.get_taxon(Taxon::Genus), "Canis");
    assert_eq!(e.get_taxon(Taxon::Species), "Canis lupus Linnaeus, 1758");
}

#[test]
fn entry_filter_rejects_non_species() {
    let line = taxref_line("Animalia", "Canis", "SSES", "Canis lupus lupus", "2", "P");
    let e = Entry::from_line(&line).unwrap();
    assert!(!e.is_species());
    assert!(!e.filter());
    let line = taxref_line("Animalia", "Canis", "ES", "Canis aureus", "1", "P");
    let e = Entry::from_line(&line).unwrap();
    assert!(!e.is_terrestrial());
    let line = taxref_line("Animalia", "Canis", "ES", "Canis simensis", "2", "A");
    let e = Entry::from_line(&line).unwrap();
    assert!(!e.is_present_france());
}

#[test]
fn from_taxon_lines_filters_and_deduplicates() {
    let lines = vec![
        String::from("header"),
        taxref_line("Animalia", "Canis", "ES", "Canis lupus Linnaeus, 1758", "2", "P"),
        // consecutive duplicate of the same valid name is kept once
        taxref_line("Animalia", "Canis", "ES", "Canis lupus Linnaeus, 1758", "2", "P"),
        String::new(),
        // different genus: filtered out by the query below
        taxref_line("Animalia", "Vulpes", "ES", "Vulpes vulpes (Linnaeus, 1758)", "2", "P"),
        // not a species: filtered out
        taxref_line("Animalia", "Canis", "GN", "Canis", "2", "P"),
    ];
    let entries = Entry::from_taxon_lines(&lines, Taxon::Genus, "CANIS");
    assert_eq!(entries.len(), 1);
    assert_eq!(entries[0].valid_name, "Canis lupus Linnaeus, 1758");

    let all = Entry::from_taxon_lines(&lines, Taxon::Reign, "animalia");
    assert_eq!(all.len(), 2);
    assert_eq!(all[1].valid_name, "Vulpes vulpes (Linnaeus, 1758)");
}

#[test]
fn species_results_without_key_are_dropped() {
    let resp = SpeciesOptionalResponse {
        results: vec![
            SpeciesOptionalResult {
                species_key: None,
                scientific_name: String::from("first"),
            },
            SpeciesOptionalResult {
                species_key: Some(55),
                scientific_name: String::from("second"),
            },
        ],
    };
    let filtered = resp.into_response();
    assert_eq!(filtered.results.len(), 1);
    assert_eq!(filtered.results[0].species_key, 55);
    assert_eq!(filtered.results[0].scientific_name, "second");
    assert_eq!(first_species_key(&filtered), Some(55));

    let none = SpeciesOptionalResult {
        species_key: None,
        scientific_name: String::from("x"),
    };
    assert!(none.into_option().is_none());
}

#[test]
fn retry_policy_only_retries_rate_limits() {
    let policy = RetryPolicy {
        max_retries: 3,
        delay_secs: 5,
    };
    assert!(policy.should_retry(429, 0));
    assert!(policy.should_retry(429, 2));
    assert!(!policy.should_retry(429, 3));
    assert!(!policy.should_retry(500, 0));
    assert!(!policy.should_retry(200, 0));
}
