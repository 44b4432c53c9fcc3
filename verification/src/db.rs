//! The relational store that tracks the pipeline's progress: species,
//! ignored species, occurrences and media rows, with their uniqueness
//! invariants.
//!
//! Rows are held in insertion order and are identified by their `id`, which
//! is one more than their index; identifiers therefore grow with insertion
//! time, which the marking policy and the download scheduler rely on.

use vstd::prelude::*;
use vstd::string::StringExecFns;

use crate::config::SpeciesTrait;
use crate::taxref::Entry;
use crate::Error;

verus! {

/// The largest number of rows a table may hold, so that identifiers fit in
/// `i32`.
pub const MAX_ROWS: usize = 0x7fff_fffe;

/// A species that is registered in the store.
#[derive(Debug, Clone)]
pub struct Species {
    /// Id of the row in the store.
    pub id: i32,
    /// Reign of the species.
    pub reign: String,
    /// Phylum of the species.
    pub phylum: String,
    /// Class of the species.
    pub class: String,
    /// Order of the species.
    pub order: String,
    /// Family of the species.
    pub family: String,
    /// Genus of the species (sub-family).
    pub genus: String,
    /// Valid name of the species; unique across species.
    pub valid_name: String,
    /// The species key of the species on GBIF; unique when present.
    pub species_key: Option<i64>,
    /// The number of available occurrences for the species.
    pub available_occurrences: i64,
    /// Whether the scraping is done for this species.
    pub done: bool,
}

impl SpeciesTrait for Species {
    open spec fn valid_name_spec(&self) -> Seq<char> {
        self.valid_name@
    }

    fn valid_name(&self) -> (r: &str) {
        self.valid_name.as_str()
    }
}

/// A species that is ignored because another species with the same species
/// key is already in the store.
#[derive(Debug, Clone)]
pub struct IgnoredSpecies {
    /// Id of the row in the store.
    pub id: i32,
    /// Reign of the species.
    pub reign: String,
    /// Phylum of the species.
    pub phylum: String,
    /// Class of the species.
    pub class: String,
    /// Order of the species.
    pub order: String,
    /// Family of the species.
    pub family: String,
    /// Genus of the species (sub-family).
    pub genus: String,
    /// Valid name of the species; unique across ignored species.
    pub valid_name: String,
    /// The species key of the species on GBIF.
    pub species_key: Option<i64>,
}

/// An occurrence of a species.
#[derive(Debug, Clone)]
pub struct Occurrence {
    /// Id of the row in the store.
    pub id: i32,
    /// Id of the occurrence in GBIF; unique across occurrences.
    pub key: i64,
    /// Identifier of the dataset that contains the occurrence.
    pub dataset_key: String,
    /// Id of the species that corresponds to this occurrence.
    pub species: i32,
}

/// A media of an occurrence.
#[derive(Debug, Clone)]
pub struct Media {
    /// Id of the row in the store.
    pub id: i32,
    /// The url of the media; unique across the whole store.
    pub url: String,
    /// The path under the media directory where the media is stored, set
    /// exactly when the download succeeded.
    pub path: Option<String>,
    /// Status code returned when the file was downloaded, None if no attempt
    /// to download was made.
    pub status_code: Option<i32>,
    /// True if we want to download the media.
    pub to_download: bool,
    /// Whether a crop was attempted. True with no bounding box means the
    /// cropping failed.
    pub cropped: bool,
    /// x coordinate of the bounding box of the cropping, as the decimal
    /// token the cropping worker sent.
    pub x: Option<String>,
    /// y coordinate of the bounding box of the cropping.
    pub y: Option<String>,
    /// Width of the bounding box of the cropping.
    pub width: Option<String>,
    /// Height of the bounding box of the cropping.
    pub height: Option<String>,
    /// Confidence of the cropping.
    pub confidence: Option<String>,
    /// Id of the occurrence that references this media.
    pub occurrence: i32,
}

/// A status code counts as a success exactly when it lies in `[200, 400)`.
pub open spec fn success_code(code: i32) -> bool {
    200 <= code < 400
}

impl Media {
    /// Whether the bounding-box fields respect the cropping life cycle: all
    /// present or all absent, and only present on a cropped media.
    pub open spec fn bbox_wf(self) -> bool {
        &&& (self.x is Some <==> self.y is Some)
        &&& (self.x is Some <==> self.width is Some)
        &&& (self.x is Some <==> self.height is Some)
        &&& (self.x is Some <==> self.confidence is Some)
        &&& (self.x is Some ==> self.cropped)
    }

    /// Whether the download fields agree: a path is recorded exactly when
    /// the stored status code is a success.
    pub open spec fn download_wf(self) -> bool {
        self.path is Some <==> (self.status_code matches Some(c) && success_code(c))
    }

    /// Returns the download path of the media on disk if the media has
    /// been downloaded, none otherwise.
    pub fn path(&self, config: &crate::config::Storage) -> (r: Option<String>)
        ensures
            match r {
                Some(p) => self.path matches Some(rel) && p@ == config.data_path@ + "/"@ + rel@,
                None => self.path is None,
            },
    {
        match &self.path {
            Some(rel) => {
                let mut s = config.data_path.clone();
                s.append("/");
                s.append(rel.as_str());
                proof {
                    assert(s@ =~= config.data_path@ + "/"@ + self.path->0@);
                }
                Some(s)
            },
            None => None,
        }
    }

    /// Returns true if a media was successfully downloaded.
    pub fn is_downloaded(&self) -> (r: bool)
        ensures
            r == (self.status_code matches Some(c) && 200 <= c < 300),
    {
        match self.status_code {
            Some(i) => 200 <= i && i < 300,
            None => false,
        }
    }
}

/// Whether some media row among `ms` has this url.
pub open spec fn medias_have_url(ms: Seq<Media>, url: Seq<char>) -> bool {
    exists|k: int| 0 <= k < ms.len() && (#[trigger] ms[k]).url@ == url
}

/// Whether some occurrence row among `os` has this registry key.
pub open spec fn occurrences_have_key(os: Seq<Occurrence>, key: i64) -> bool {
    exists|k: int| 0 <= k < os.len() && (#[trigger] os[k]).key == key
}

/// The relational store of the pipeline.
pub struct Store {
    /// The species rows.
    pub species: Vec<Species>,
    /// The ignored species rows.
    pub ignored: Vec<IgnoredSpecies>,
    /// The occurrence rows.
    pub occurrences: Vec<Occurrence>,
    /// The media rows.
    pub medias: Vec<Media>,
}

impl Store {
    /// Whether some species row has this valid name.
    pub open spec fn has_species_name(self, name: Seq<char>) -> bool {
        exists|i: int| 0 <= i < self.species@.len() && self.species@[i].valid_name@ == name
    }

    /// Whether some species row owns this species key.
    pub open spec fn has_species_key(self, key: i64) -> bool {
        exists|i: int|
            0 <= i < self.species@.len() && self.species@[i].species_key == Some(key)
    }

    /// Whether some ignored species row has this valid name.
    pub open spec fn has_ignored_name(self, name: Seq<char>) -> bool {
        exists|i: int| 0 <= i < self.ignored@.len() && self.ignored@[i].valid_name@ == name
    }

    /// Whether some occurrence row has this registry key.
    pub open spec fn has_occurrence_key(self, key: i64) -> bool {
        occurrences_have_key(self.occurrences@, key)
    }

    /// Whether some media row has this url.
    pub open spec fn has_media_url(self, url: Seq<char>) -> bool {
        medias_have_url(self.medias@, url)
    }

    /// Identifiers are one more than the row's index, in every table.
    pub open spec fn ids_wf(self) -> bool {
        &&& self.species@.len() <= MAX_ROWS
        &&& self.ignored@.len() <= MAX_ROWS
        &&& self.occurrences@.len() <= MAX_ROWS
        &&& self.medias@.len() <= MAX_ROWS
        &&& forall|i: int|
            0 <= i < self.species@.len() ==> (#[trigger] self.species@[i]).id == i + 1
        &&& forall|i: int|
            0 <= i < self.ignored@.len() ==> (#[trigger] self.ignored@[i]).id == i + 1
        &&& forall|i: int|
            0 <= i < self.occurrences@.len() ==> (#[trigger] self.occurrences@[i]).id == i + 1
        &&& forall|i: int| 0 <= i < self.medias@.len() ==> (#[trigger] self.medias@[i]).id == i + 1
    }

    /// The uniqueness constraints of the store.
    pub open spec fn unique_wf(self) -> bool {
        &&& forall|i: int, j: int|
            0 <= i < j < self.species@.len() ==> (#[trigger] self.species@[i]).valid_name@ != (
            #[trigger] self.species@[j]).valid_name@
        &&& forall|i: int, j: int|
            0 <= i < j < self.species@.len() ==> !((#[trigger] self.species@[i]).species_key
                is Some && (#[trigger] self.species@[j]).species_key is Some
                && self.species@[i].species_key == self.species@[j].species_key)
        &&& forall|i: int, j: int|
            0 <= i < j < self.ignored@.len() ==> (#[trigger] self.ignored@[i]).valid_name@ != (
            #[trigger] self.ignored@[j]).valid_name@
        &&& forall|i: int, j: int|
            0 <= i < j < self.occurrences@.len() ==> (#[trigger] self.occurrences@[i]).key != (
            #[trigger] self.occurrences@[j]).key
        &&& forall|i: int, j: int|
            0 <= i < j < self.medias@.len() ==> (#[trigger] self.medias@[i]).url@ != (
            #[trigger] self.medias@[j]).url@
    }

    /// Every reference to another table points at one of its rows.
    pub open spec fn refs_wf(self) -> bool {
        &&& forall|i: int|
            0 <= i < self.occurrences@.len() ==> 1 <= (#[trigger] self.occurrences@[i]).species
                <= self.species@.len()
        &&& forall|i: int|
            0 <= i < self.medias@.len() ==> 1 <= (#[trigger] self.medias@[i]).occurrence
                <= self.occurrences@.len()
    }

    /// Every media row respects the download and cropping life cycles.
    pub open spec fn medias_wf(self) -> bool {
        &&& forall|i: int| 0 <= i < self.medias@.len() ==> (#[trigger] self.medias@[i]).bbox_wf()
        &&& forall|i: int|
            0 <= i < self.medias@.len() ==> (#[trigger] self.medias@[i]).download_wf()
    }

    /// The well-formedness invariant of the whole store.
    pub open spec fn wf(self) -> bool {
        &&& self.ids_wf()
        &&& self.unique_wf()
        &&& self.refs_wf()
        &&& self.medias_wf()
    }

    /// Creates an empty store.
    pub fn new() -> (r: Store)
        ensures
            r.wf(),
            r.species@.len() == 0,
            r.ignored@.len() == 0,
            r.occurrences@.len() == 0,
            r.medias@.len() == 0,
    {
        Store { species: Vec::new(), ignored: Vec::new(), occurrences: Vec::new(), medias: Vec::new() }
    }

    /// Looks a species up by its valid name.
    pub fn get_species_by_valid_name(&self, valid_name: &str) -> (r: Option<usize>)
        ensures
            match r {
                Some(i) => i < self.species@.len() && self.species@[i as int].valid_name@
                    == valid_name@,
                None => !self.has_species_name(valid_name@),
            },
    {
        let name = valid_name.to_owned();
        let mut i: usize = 0;
        while i < self.species.len()
            invariant
                i <= self.species@.len(),
                name@ == valid_name@,
                forall|j: int| 0 <= j < i ==> (#[trigger] self.species@[j]).valid_name@ != name@,
            decreases self.species@.len() - i,
        {
            if self.species[i].valid_name == name {
                return Some(i);
            }
            i += 1;
        }
        None
    }

    /// Looks a species up by its species key.
    pub fn get_species_by_species_key(&self, key: i64) -> (r: Option<usize>)
        ensures
            match r {
                Some(i) => i < self.species@.len() && self.species@[i as int].species_key == Some(
                    key,
                ),
                None => !self.has_species_key(key),
            },
    {
        let mut i: usize = 0;
        while i < self.species.len()
            invariant
                i <= self.species@.len(),
                forall|j: int| 0 <= j < i ==> (#[trigger] self.species@[j]).species_key != Some(
                    key,
                ),
            decreases self.species@.len() - i,
        {
            match self.species[i].species_key {
                Some(k) => {
                    if k == key {
                        return Some(i);
                    }
                },
                None => (),
            }
            i += 1;
        }
        None
    }

    /// Looks an ignored species up by its valid name.
    pub fn get_ignored_by_valid_name(&self, valid_name: &str) -> (r: Option<usize>)
        ensures
            match r {
                Some(i) => i < self.ignored@.len() && self.ignored@[i as int].valid_name@
                    == valid_name@,
                None => !self.has_ignored_name(valid_name@),
            },
    {
        let name = valid_name.to_owned();
        let mut i: usize = 0;
        while i < self.ignored.len()
            invariant
                i <= self.ignored@.len(),
                name@ == valid_name@,
                forall|j: int| 0 <= j < i ==> (#[trigger] self.ignored@[j]).valid_name@ != name@,
            decreases self.ignored@.len() - i,
        {
            if self.ignored[i].valid_name == name {
                return Some(i);
            }
            i += 1;
        }
        None
    }

    /// Looks a media up by its url.
    pub fn get_media_by_url(&self, url: &str) -> (r: Option<usize>)
        ensures
            match r {
                Some(i) => i < self.medias@.len() && self.medias@[i as int].url@ == url@,
                None => !self.has_media_url(url@),
            },
    {
        let u = url.to_owned();
        let mut i: usize = 0;
        while i < self.medias.len()
            invariant
                i <= self.medias@.len(),
                u@ == url@,
                forall|j: int| 0 <= j < i ==> (#[trigger] self.medias@[j]).url@ != u@,
            decreases self.medias@.len() - i,
        {
            if self.medias[i].url == u {
                return Some(i);
            }
            i += 1;
        }
        None
    }

    /// Looks a media up by its identifier.
    pub fn get_media_by_id(&self, id: i32) -> (r: Option<usize>)
        requires
            self.wf(),
        ensures
            match r {
                Some(i) => i < self.medias@.len() && self.medias@[i as int].id == id,
                None => forall|i: int|
                    0 <= i < self.medias@.len() ==> (#[trigger] self.medias@[i]).id != id,
            },
    {
        if id >= 1 && (id as usize) <= self.medias.len() {
            Some((id as usize) - 1)
        } else {
            None
        }
    }

    /// Looks an occurrence up by its identifier.
    pub fn get_occurrence_by_id(&self, id: i32) -> (r: Option<usize>)
        requires
            self.wf(),
        ensures
            match r {
                Some(i) => i < self.occurrences@.len() && self.occurrences@[i as int].id == id,
                None => forall|i: int|
                    0 <= i < self.occurrences@.len() ==> (#[trigger] self.occurrences@[i]).id
                        != id,
            },
    {
        if id >= 1 && (id as usize) <= self.occurrences.len() {
            Some((id as usize) - 1)
        } else {
            None
        }
    }
}

/// A species row that has not been given an identifier yet.
#[derive(Debug, Clone)]
pub struct SpeciesWithoutId {
    /// Reign of the species.
    pub reign: String,
    /// Phylum of the species.
    pub phylum: String,
    /// Class of the species.
    pub class: String,
    /// Order of the species.
    pub order: String,
    /// Family of the species.
    pub family: String,
    /// Genus of the species (sub-family).
    pub genus: String,
    /// Valid name of the species.
    pub valid_name: String,
    /// The species key of the species on GBIF.
    pub species_key: Option<i64>,
    /// The number of available occurrences for the species.
    pub available_occurrences: i64,
    /// Whether the scraping is done for this species.
    pub done: bool,
}

/// An ignored species row that has not been given an identifier yet.
#[derive(Debug, Clone)]
pub struct IgnoredSpeciesWithoutId {
    /// Reign of the species.
    pub reign: String,
    /// Phylum of the species.
    pub phylum: String,
    /// Class of the species.
    pub class: String,
    /// Order of the species.
    pub order: String,
    /// Family of the species.
    pub family: String,
    /// Genus of the species (sub-family).
    pub genus: String,
    /// Valid name of the species.
    pub valid_name: String,
    /// The species key of the species on GBIF.
    pub species_key: Option<i64>,
}

impl Species {
    /// Prepares a species without id from its taxref entry.
    pub fn from_taxref(entry: &Entry, species_key: Option<i64>, available_occurrences: i64) -> (r:
        SpeciesWithoutId)
        ensures
            r.reign@ == entry.reign@,
            r.phylum@ == entry.phylum@,
            r.class@ == entry.class@,
            r.order@ == entry.order@,
            r.family@ == entry.family@,
            r.genus@ == entry.genus@,
            r.valid_name@ == entry.valid_name@,
            r.species_key == species_key,
            r.available_occurrences == available_occurrences,
            r.done == false,
    {
        SpeciesWithoutId {
            reign: entry.reign.clone(),
            phylum: entry.phylum.clone(),
            class: entry.class.clone(),
            order: entry.order.clone(),
            family: entry.family.clone(),
            genus: entry.genus.clone(),
            valid_name: entry.valid_name.clone(),
            species_key,
            available_occurrences,
            done: false,
        }
    }
}

impl IgnoredSpecies {
    /// Prepares an ignored species without id from its taxref entry.
    pub fn from_taxref(entry: &Entry, species_key: Option<i64>) -> (r: IgnoredSpeciesWithoutId)
        ensures
            r.reign@ == entry.reign@,
            r.phylum@ == entry.phylum@,
            r.class@ == entry.class@,
            r.order@ == entry.order@,
            r.family@ == entry.family@,
            r.genus@ == entry.genus@,
            r.valid_name@ == entry.valid_name@,
            r.species_key == species_key,
    {
        IgnoredSpeciesWithoutId {
            reign: entry.reign.clone(),
            phylum: entry.phylum.clone(),
            class: entry.class.clone(),
            order: entry.order.clone(),
            family: entry.family.clone(),
            genus: entry.genus.clone(),
            valid_name: entry.valid_name.clone(),
            species_key,
        }
    }
}

impl Store {
    /// Saves a new species row.
    ///
    /// The row is appended with the next identifier; the insert is refused
    /// exactly when its valid name, or its species key when present, is
    /// already owned by another species row, or when the table is full.
    pub fn save_species(&mut self, s: SpeciesWithoutId) -> (r: Result<usize, Error>)
        requires
            old(self).wf(),
        ensures
            final(self).wf(),
            final(self).ignored == old(self).ignored,
            final(self).occurrences == old(self).occurrences,
            final(self).medias == old(self).medias,
            match r {
                Ok(i) => {
                    &&& !old(self).has_species_name(s.valid_name@)
                    &&& (s.species_key matches Some(k) ==> !old(self).has_species_key(k))
                    &&& i == old(self).species@.len()
                    &&& final(self).species@ == old(self).species@.push(
                        Species {
                            id: (i + 1) as i32,
                            reign: s.reign,
                            phylum: s.phylum,
                            class: s.class,
                            order: s.order,
                            family: s.family,
                            genus: s.genus,
                            valid_name: s.valid_name,
                            species_key: s.species_key,
                            available_occurrences: s.available_occurrences,
                            done: s.done,
                        },
                    )
                },
                Err(e) => {
                    &&& final(self).species == old(self).species
                    &&& e is DbError
                    &&& (old(self).has_species_name(s.valid_name@) || (s.species_key matches Some(
                        k,
                    ) && old(self).has_species_key(k)) || old(self).species@.len() == MAX_ROWS)
                },
            },
    {
        if self.species.len() >= MAX_ROWS {
            return Err(Error::DbError);
        }
        if self.get_species_by_valid_name(s.valid_name.as_str()).is_some() {
            return Err(Error::DbError);
        }
        if let Some(k) = s.species_key {
            if self.get_species_by_species_key(k).is_some() {
                return Err(Error::DbError);
            }
        }
        let i = self.species.len();
        let id = (i as i32) + 1;
        self.species.push(
            Species {
                id,
                reign: s.reign,
                phylum: s.phylum,
                class: s.class,
                order: s.order,
                family: s.family,
                genus: s.genus,
                valid_name: s.valid_name,
                species_key: s.species_key,
                available_occurrences: s.available_occurrences,
                done: s.done,
            },
        );
        proof {
            assert(final(self).wf()) by {
                let pre = old(self);
                assert(forall|a: int|
                    0 <= a < pre.species@.len() ==> final(self).species@[a]
                        == pre.species@[a]);
            }
        }
        Ok(i)
    }

    /// Saves a new ignored species row.
    ///
    /// The row is appended with the next identifier; the insert is refused
    /// exactly when its valid name is already owned by another ignored
    /// species row, or when the table is full.
    pub fn save_ignored(&mut self, s: IgnoredSpeciesWithoutId) -> (r: Result<usize, Error>)
        requires
            old(self).wf(),
        ensures
            final(self).wf(),
            final(self).species == old(self).species,
            final(self).occurrences == old(self).occurrences,
            final(self).medias == old(self).medias,
            match r {
                Ok(i) => {
                    &&& !old(self).has_ignored_name(s.valid_name@)
                    &&& i == old(self).ignored@.len()
                    &&& final(self).ignored@ == old(self).ignored@.push(
                        IgnoredSpecies {
                            id: (i + 1) as i32,
                            reign: s.reign,
                            phylum: s.phylum,
                            class: s.class,
                            order: s.order,
                            family: s.family,
                            genus: s.genus,
                            valid_name: s.valid_name,
                            species_key: s.species_key,
                        },
                    )
                },
                Err(e) => {
                    &&& final(self).ignored == old(self).ignored
                    &&& e is DbError
                    &&& (old(self).has_ignored_name(s.valid_name@) || old(self).ignored@.len()
                        == MAX_ROWS)
                },
            },
    {
        if self.ignored.len() >= MAX_ROWS {
            return Err(Error::DbError);
        }
        if self.get_ignored_by_valid_name(s.valid_name.as_str()).is_some() {
            return Err(Error::DbError);
        }
        let i = self.ignored.len();
        let id = (i as i32) + 1;
        self.ignored.push(
            IgnoredSpecies {
                id,
                reign: s.reign,
                phylum: s.phylum,
                class: s.class,
                order: s.order,
                family: s.family,
                genus: s.genus,
                valid_name: s.valid_name,
                species_key: s.species_key,
            },
        );
        proof {
            assert(final(self).wf()) by {
                let pre = old(self);
                assert(forall|a: int|
                    0 <= a < pre.ignored@.len() ==> final(self).ignored@[a] == pre.ignored@[a]);
            }
        }
        Ok(i)
    }

    /// Saves a new occurrence row owned by the species at `species_idx`.
    ///
    /// The row is appended with the next identifier; the insert is refused
    /// exactly when another occurrence row owns the same registry key, or
    /// when the table is full.
    pub fn save_occurrence(&mut self, key: i64, dataset_key: String, species_idx: usize) -> (r:
        Result<usize, Error>)
        requires
            old(self).wf(),
            species_idx < old(self).species@.len(),
        ensures
            final(self).wf(),
            final(self).species == old(self).species,
            final(self).ignored == old(self).ignored,
            final(self).medias == old(self).medias,
            match r {
                Ok(i) => {
                    &&& !old(self).has_occurrence_key(key)
                    &&& old(self).occurrences@.len() < MAX_ROWS
                    &&& i == old(self).occurrences@.len()
                    &&& final(self).occurrences@ == old(self).occurrences@.push(
                        Occurrence {
                            id: (i + 1) as i32,
                            key,
                            dataset_key,
                            species: (species_idx + 1) as i32,
                        },
                    )
                },
                Err(e) => {
                    &&& final(self).occurrences == old(self).occurrences
                    &&& e is DbError
                    &&& (old(self).has_occurrence_key(key) || old(self).occurrences@.len()
                        == MAX_ROWS)
                },
            },
    {
        if self.occurrences.len() >= MAX_ROWS {
            return Err(Error::DbError);
        }
        let mut j: usize = 0;
        while j < self.occurrences.len()
            invariant
                *self == *old(self),
                old(self).wf(),
                j <= self.occurrences@.len(),
                forall|a: int| 0 <= a < j ==> (#[trigger] self.occurrences@[a]).key != key,
            decreases self.occurrences@.len() - j,
        {
            if self.occurrences[j].key == key {
                return Err(Error::DbError);
            }
            j += 1;
        }
        let i = self.occurrences.len();
        let id = (i as i32) + 1;
        self.occurrences.push(
            Occurrence { id, key, dataset_key, species: (species_idx as i32) + 1 },
        );
        proof {
            assert(final(self).wf()) by {
                let pre = old(self);
                assert(forall|a: int|
                    0 <= a < pre.occurrences@.len() ==> final(self).occurrences@[a]
                        == pre.occurrences@[a]);
            }
        }
        Ok(i)
    }

    /// Saves a new media row with good default values, owned by the
    /// occurrence at `occurrence_idx`.
    ///
    /// The media starts not downloaded, not marked and not cropped. The
    /// insert is refused exactly when another media row in the whole store
    /// has the same url, or when the table is full.
    pub fn save_media(&mut self, url: String, occurrence_idx: usize) -> (r: Result<usize, Error>)
        requires
            old(self).wf(),
            occurrence_idx < old(self).occurrences@.len(),
        ensures
            final(self).wf(),
            final(self).species == old(self).species,
            final(self).ignored == old(self).ignored,
            final(self).occurrences == old(self).occurrences,
            match r {
                Ok(i) => {
                    &&& !old(self).has_media_url(url@)
                    &&& old(self).medias@.len() < MAX_ROWS
                    &&& i == old(self).medias@.len()
                    &&& final(self).medias@ == old(self).medias@.push(
                        Media {
                            id: (i + 1) as i32,
                            url,
                            path: None,
                            status_code: None,
                            to_download: false,
                            cropped: false,
                            x: None,
                            y: None,
                            width: None,
                            height: None,
                            confidence: None,
                            occurrence: (occurrence_idx + 1) as i32,
                        },
                    )
                },
                Err(e) => {
                    &&& final(self).medias == old(self).medias
                    &&& e is DbError
                    &&& (old(self).has_media_url(url@) || old(self).medias@.len() == MAX_ROWS)
                },
            },
    {
        if self.medias.len() >= MAX_ROWS {
            return Err(Error::DbError);
        }
        if self.get_media_by_url(url.as_str()).is_some() {
            return Err(Error::DbError);
        }
        let i = self.medias.len();
        let id = (i as i32) + 1;
        self.medias.push(
            Media {
                id,
                url,
                path: None,
                status_code: None,
                to_download: false,
                cropped: false,
                x: None,
                y: None,
                width: None,
                height: None,
                confidence: None,
                occurrence: (occurrence_idx as i32) + 1,
            },
        );
        proof {
            assert(final(self).wf()) by {
                let pre = old(self);
                assert(forall|a: int|
                    0 <= a < pre.medias@.len() ==> final(self).medias@[a] == pre.medias@[a]);
            }
        }
        Ok(i)
    }
}


// ---------------------------------------------------------------------------
// Bulk marking policy
// ---------------------------------------------------------------------------

/// The occurrence identifier of every media row, in row order.
pub open spec fn media_occs(medias: Seq<Media>) -> Seq<i32> {
    medias.map_values(|m: Media| m.occurrence)
}

/// Whether position `i` holds the first media of its occurrence, given the
/// occurrence identifiers of all media rows.
pub open spec fn first_media_at(mo: Seq<i32>, i: int) -> bool {
    forall|j: int| 0 <= j < i ==> mo[j] != mo[i]
}

/// Whether the first marking rule flags the media at `i`: it is the first
/// media of an occurrence that is not in the blacklisted dataset.
pub open spec fn mark_first_applies_at(
    occs: Seq<Occurrence>,
    mo: Seq<i32>,
    i: int,
    blacklist: Seq<char>,
) -> bool {
    &&& occs[mo[i] - 1].dataset_key@ != blacklist
    &&& first_media_at(mo, i)
}

impl Store {
    /// Whether the first marking rule flags the media at `i`.
    pub open spec fn mark_first_applies(self, i: int, blacklist: Seq<char>) -> bool {
        mark_first_applies_at(self.occurrences@, media_occs(self.medias@), i, blacklist)
    }

    /// How the first marking rule rewrites the store: only `to_download`
    /// flags change, and exactly the flagged medias gain `true`.
    pub open spec fn mark_first_rel(pre: Store, post: Store, blacklist: Seq<char>) -> bool {
        &&& post.species == pre.species
        &&& post.ignored == pre.ignored
        &&& post.occurrences == pre.occurrences
        &&& post.medias@.len() == pre.medias@.len()
        &&& forall|i: int|
            0 <= i < pre.medias@.len() ==> post.medias@[i] == (Media {
                to_download: pre.medias@[i].to_download || pre.mark_first_applies(i, blacklist),
                ..pre.medias@[i]
            })
    }

    /// First marking rule: for every occurrence outside the blacklisted
    /// dataset, flag its first media for download.
    pub fn mark_first_medias(&mut self, blacklist: &str)
        requires
            old(self).wf(),
        ensures
            final(self).wf(),
            Store::mark_first_rel(*old(self), *final(self), blacklist@),
    {
        let ghost pre = *old(self);
        let ghost mo = media_occs(pre.medias@);
        let bl = blacklist.to_owned();
        let n = self.medias.len();
        let mut i: usize = 0;
        while i < n
            invariant
                pre == *old(self),
                pre.wf(),
                mo == media_occs(pre.medias@),
                i <= n,
                n == self.medias@.len(),
                self.species == pre.species,
                self.ignored == pre.ignored,
                self.occurrences == pre.occurrences,
                self.medias@.len() == pre.medias@.len(),
                media_occs(self.medias@) == mo,
                bl@ == blacklist@,
                forall|k: int|
                    0 <= k < i ==> self.medias@[k] == (Media {
                        to_download: pre.medias@[k].to_download || pre.mark_first_applies(
                            k,
                            blacklist@,
                        ),
                        ..pre.medias@[k]
                    }),
                forall|k: int| i <= k < n ==> self.medias@[k] == pre.medias@[k],
            decreases n - i,
        {
            let occ = self.medias[i].occurrence;
            proof {
                assert(media_occs(self.medias@)[i as int] == occ);
                assert(mo[i as int] == occ);
            }
            // is this media the first of its occurrence?
            let mut first = true;
            let mut j: usize = 0;
            while j < i
                invariant
                    i < n,
                    n == self.medias@.len(),
                    media_occs(self.medias@) == mo,
                    j <= i,
                    occ == mo[i as int],
                    first <==> (forall|k: int| 0 <= k < j ==> mo[k] != mo[i as int]),
                decreases i - j,
            {
                proof {
                    assert(media_occs(self.medias@)[j as int] == self.medias@[j as int].occurrence);
                }
                if self.medias[j].occurrence == occ {
                    first = false;
                }
                j += 1;
            }
            proof {
                assert(first <==> first_media_at(mo, i as int));
                assert(1 <= mo[i as int] <= self.occurrences@.len()) by {
                    assert(pre.medias@[i as int].occurrence == mo[i as int]);
                }
            }
            let o = (occ as usize) - 1;
            let blacklisted = self.occurrences[o].dataset_key == bl;
            let applies = first && !blacklisted;
            proof {
                assert(self.occurrences@ == pre.occurrences@);
                assert(applies <==> mark_first_applies_at(pre.occurrences@, mo, i as int, blacklist@));
                assert(applies <==> pre.mark_first_applies(i as int, blacklist@));
            }
            if applies {
                let m = &mut self.medias[i];
                m.to_download = true;
            }
            proof {
                assert(self.medias@[i as int] == (Media {
                    to_download: pre.medias@[i as int].to_download || pre.mark_first_applies(
                        i as int,
                        blacklist@,
                    ),
                    ..pre.medias@[i as int]
                }));
                assert(media_occs(self.medias@) =~= mo);
            }
            i += 1;
        }
        proof {
            lemma_flag_update_preserves_wf(pre, *final(self));
        }
    }

    /// How many occurrences outside the blacklisted dataset the species
    /// with id `species_id` owns.
    pub open spec fn nb_occ_count(occs: Seq<Occurrence>, species_id: i32, blacklist: Seq<char>) -> nat
        decreases occs.len(),
    {
        if occs.len() == 0 {
            0
        } else {
            Store::nb_occ_count(occs.drop_last(), species_id, blacklist) + if occs.last().species
                == species_id && occs.last().dataset_key@ != blacklist {
                1nat
            } else {
                0nat
            }
        }
    }

    /// Whether the second marking rule flags the media at `i`: its species
    /// has strictly fewer non-blacklisted occurrences than
    /// `min_occurrences`.
    pub open spec fn mark_low_applies(
        self,
        i: int,
        blacklist: Seq<char>,
        min_occurrences: u64,
    ) -> bool {
        mark_low_applies_at(
            self.occurrences@,
            media_occs(self.medias@),
            i,
            blacklist,
            min_occurrences,
        )
    }

    /// How the second marking rule rewrites the store: only `to_download`
    /// flags change, and exactly the medias of low-occurrence species gain
    /// `true`.
    pub open spec fn mark_low_rel(
        pre: Store,
        post: Store,
        blacklist: Seq<char>,
        min_occurrences: u64,
    ) -> bool {
        &&& post.species == pre.species
        &&& post.ignored == pre.ignored
        &&& post.occurrences == pre.occurrences
        &&& post.medias@.len() == pre.medias@.len()
        &&& forall|i: int|
            0 <= i < pre.medias@.len() ==> post.medias@[i] == (Media {
                to_download: pre.medias@[i].to_download || pre.mark_low_applies(
                    i,
                    blacklist,
                    min_occurrences,
                ),
                ..pre.medias@[i]
            })
    }

    /// Counts, for every species, its occurrences outside the blacklisted
    /// dataset.
    fn count_nb_occurrences(&self, blacklist: &String) -> (counts: Vec<u64>)
        requires
            self.wf(),
        ensures
            counts@.len() == self.species@.len(),
            forall|s: int|
                0 <= s < counts@.len() ==> counts@[s] == Store::nb_occ_count(
                    self.occurrences@,
                    (s + 1) as i32,
                    blacklist@,
                ),
    {
        let mut counts: Vec<u64> = Vec::new();
        let ns = self.species.len();
        let mut i: usize = 0;
        while i < ns
            invariant
                i <= ns,
                counts@.len() == i,
                forall|s: int| 0 <= s < i ==> counts@[s] == 0,
            decreases ns - i,
        {
            counts.push(0);
            i += 1;
        }
        proof {
            assert(forall|s: int|
                0 <= s < counts@.len() ==> counts@[s] == Store::nb_occ_count(
                    self.occurrences@.take(0),
                    (s + 1) as i32,
                    blacklist@,
                )) by {
                assert(self.occurrences@.take(0) =~= Seq::<Occurrence>::empty());
            }
        }
        let no = self.occurrences.len();
        let mut j: usize = 0;
        while j < no
            invariant
                self.wf(),
                j <= no,
                no == self.occurrences@.len(),
                counts@.len() == self.species@.len(),
                forall|s: int|
                    0 <= s < counts@.len() ==> counts@[s] == Store::nb_occ_count(
                        self.occurrences@.take(j as int),
                        (s + 1) as i32,
                        blacklist@,
                    ),
                forall|s: int| 0 <= s < counts@.len() ==> counts@[s] <= j,
            decreases no - j,
        {
            proof {
                assert(forall|s: int|
                    0 <= s < counts@.len() ==> #[trigger] Store::nb_occ_count(
                        self.occurrences@.take(j + 1 as int),
                        (s + 1) as i32,
                        blacklist@,
                    ) == Store::nb_occ_count(
                        self.occurrences@.take(j as int),
                        (s + 1) as i32,
                        blacklist@,
                    ) + if self.occurrences@[j as int].species == s + 1
                        && self.occurrences@[j as int].dataset_key@ != blacklist@ {
                        1nat
                    } else {
                        0nat
                    }) by {
                    assert(self.occurrences@.take(j + 1 as int).drop_last() =~= self.occurrences@.take(
                        j as int,
                    ));
                    assert(self.occurrences@.take(j + 1 as int).last() == self.occurrences@[j as int]);
                }
            }
            if !(self.occurrences[j].dataset_key == *blacklist) {
                let sp = self.occurrences[j].species;
                let si = (sp as usize) - 1;
                let c = counts[si];
                counts.set(si, c + 1);
            }
            j += 1;
        }
        proof {
            assert(self.occurrences@.take(no as int) =~= self.occurrences@);
        }
        counts
    }

    /// Second marking rule: every media of every species with strictly
    /// fewer than `min_occurrences` non-blacklisted occurrences is flagged
    /// for download, blacklisted occurrences included.
    pub fn mark_low_occurrence_species(&mut self, blacklist: &str, min_occurrences: u64)
        requires
            old(self).wf(),
        ensures
            final(self).wf(),
            Store::mark_low_rel(*old(self), *final(self), blacklist@, min_occurrences),
    {
        let ghost pre = *old(self);
        let ghost mo = media_occs(pre.medias@);
        let bl = blacklist.to_owned();
        let counts = self.count_nb_occurrences(&bl);
        let n = self.medias.len();
        let mut i: usize = 0;
        while i < n
            invariant
                pre == *old(self),
                pre.wf(),
                mo == media_occs(pre.medias@),
                i <= n,
                n == self.medias@.len(),
                self.species == pre.species,
                self.ignored == pre.ignored,
                self.occurrences == pre.occurrences,
                self.medias@.len() == pre.medias@.len(),
                media_occs(self.medias@) == mo,
                bl@ == blacklist@,
                counts@.len() == self.species@.len(),
                forall|s: int|
                    0 <= s < counts@.len() ==> counts@[s] == Store::nb_occ_count(
                        pre.occurrences@,
                        (s + 1) as i32,
                        blacklist@,
                    ),
                forall|k: int|
                    0 <= k < i ==> self.medias@[k] == (Media {
                        to_download: pre.medias@[k].to_download || pre.mark_low_applies(
                            k,
                            blacklist@,
                            min_occurrences,
                        ),
                        ..pre.medias@[k]
                    }),
                forall|k: int| i <= k < n ==> self.medias@[k] == pre.medias@[k],
            decreases n - i,
        {
            let occ = self.medias[i].occurrence;
            proof {
                assert(media_occs(self.medias@)[i as int] == occ);
                assert(mo[i as int] == occ);
                assert(1 <= occ <= self.occurrences@.len()) by {
                    assert(pre.medias@[i as int].occurrence == mo[i as int]);
                }
            }
            let o = (occ as usize) - 1;
            let sp = self.occurrences[o].species;
            let si = (sp as usize) - 1;
            proof {
                assert(1 <= sp <= self.species@.len());
            }
            let applies = counts[si] < min_occurrences;
            proof {
                assert(self.occurrences@ == pre.occurrences@);
                assert(applies <==> pre.mark_low_applies(i as int, blacklist@, min_occurrences));
            }
            if applies {
                let m = &mut self.medias[i];
                m.to_download = true;
            }
            proof {
                assert(self.medias@[i as int] == (Media {
                    to_download: pre.medias@[i as int].to_download || pre.mark_low_applies(
                        i as int,
                        blacklist@,
                        min_occurrences,
                    ),
                    ..pre.medias@[i as int]
                }));
                assert(media_occs(self.medias@) =~= mo);
            }
            i += 1;
        }
        proof {
            lemma_flag_update_preserves_wf(pre, *final(self));
        }
    }
}

/// Whether the second marking rule flags position `i`, given the occurrence
/// rows and the occurrence identifiers of all media rows.
pub open spec fn mark_low_applies_at(
    occs: Seq<Occurrence>,
    mo: Seq<i32>,
    i: int,
    blacklist: Seq<char>,
    min_occurrences: u64,
) -> bool {
    Store::nb_occ_count(occs, occs[mo[i] - 1].species, blacklist) < min_occurrences
}

/// A store that differs from a well-formed one only in the `to_download`
/// flags of its medias is well-formed too.
proof fn lemma_flag_update_preserves_wf(pre: Store, post: Store)
    requires
        pre.wf(),
        post.species == pre.species,
        post.ignored == pre.ignored,
        post.occurrences == pre.occurrences,
        post.medias@.len() == pre.medias@.len(),
        forall|k: int|
            0 <= k < pre.medias@.len() ==> (#[trigger] post.medias@[k]) == (Media {
                to_download: post.medias@[k].to_download,
                ..pre.medias@[k]
            }),
    ensures
        post.wf(),
{
    assert(forall|k: int|
        0 <= k < post.medias@.len() ==> (#[trigger] post.medias@[k]).occurrence
            == pre.medias@[k].occurrence && post.medias@[k].id == pre.medias@[k].id
            && post.medias@[k].url@ == pre.medias@[k].url@ && post.medias@[k].path
            == pre.medias@[k].path && post.medias@[k].status_code == pre.medias@[k].status_code
            && post.medias@[k].cropped == pre.medias@[k].cropped && post.medias@[k].x
            == pre.medias@[k].x && post.medias@[k].y == pre.medias@[k].y && post.medias@[k].width
            == pre.medias@[k].width && post.medias@[k].height == pre.medias@[k].height
            && post.medias@[k].confidence == pre.medias@[k].confidence);
}

// ---------------------------------------------------------------------------
// Marking laws
// ---------------------------------------------------------------------------

/// Re-applying the first marking rule changes nothing: marking neither
/// unflags nor double-flags a media.
pub proof fn lemma_mark_first_idempotent(s0: Store, s1: Store, s2: Store, blacklist: Seq<char>)
    requires
        Store::mark_first_rel(s0, s1, blacklist),
        Store::mark_first_rel(s1, s2, blacklist),
    ensures
        s2.species == s1.species,
        s2.ignored == s1.ignored,
        s2.occurrences == s1.occurrences,
        s2.medias@ == s1.medias@,
{
    assert(media_occs(s1.medias@) =~= media_occs(s0.medias@));
    assert forall|i: int| 0 <= i < s1.medias@.len() implies s2.medias@[i] == s1.medias@[i] by {
        assert(s1.medias@[i] == (Media {
            to_download: s0.medias@[i].to_download || s0.mark_first_applies(i, blacklist),
            ..s0.medias@[i]
        }));
        assert(s1.mark_first_applies(i, blacklist) <==> s0.mark_first_applies(i, blacklist));
    }
    assert(s2.medias@ =~= s1.medias@);
}

/// Re-applying the second marking rule changes nothing: marking neither
/// unflags nor double-flags a media.
pub proof fn lemma_mark_low_idempotent(
    s0: Store,
    s1: Store,
    s2: Store,
    blacklist: Seq<char>,
    min_occurrences: u64,
)
    requires
        Store::mark_low_rel(s0, s1, blacklist, min_occurrences),
        Store::mark_low_rel(s1, s2, blacklist, min_occurrences),
    ensures
        s2.species == s1.species,
        s2.ignored == s1.ignored,
        s2.occurrences == s1.occurrences,
        s2.medias@ == s1.medias@,
{
    assert(media_occs(s1.medias@) =~= media_occs(s0.medias@));
    assert forall|i: int| 0 <= i < s1.medias@.len() implies s2.medias@[i] == s1.medias@[i] by {
        assert(s1.medias@[i] == (Media {
            to_download: s0.medias@[i].to_download || s0.mark_low_applies(
                i,
                blacklist,
                min_occurrences,
            ),
            ..s0.medias@[i]
        }));
        assert(s1.mark_low_applies(i, blacklist, min_occurrences) <==> s0.mark_low_applies(
            i,
            blacklist,
            min_occurrences,
        ));
    }
    assert(s2.medias@ =~= s1.medias@);
}

/// Media urls are unique store-wide: no two media rows of a well-formed
/// store share a url.
pub proof fn lemma_media_urls_unique(s: Store)
    requires
        s.wf(),
    ensures
        forall|i: int, j: int|
            0 <= i < j < s.medias@.len() ==> (#[trigger] s.medias@[i]).url@ != (
            #[trigger] s.medias@[j]).url@,
{
}

// ---------------------------------------------------------------------------
// Download bookkeeping
// ---------------------------------------------------------------------------

impl Store {
    /// Records the outcome of a download attempt on the media at
    /// `media_idx`: its status code, and its path exactly on success.
    pub fn record_download(&mut self, media_idx: usize, code: i32, path: Option<String>)
        requires
            old(self).wf(),
            media_idx < old(self).medias@.len(),
            path is Some <==> (200 <= code < 400),
        ensures
            final(self).wf(),
            final(self).species == old(self).species,
            final(self).ignored == old(self).ignored,
            final(self).occurrences == old(self).occurrences,
            final(self).medias@ == old(self).medias@.update(
                media_idx as int,
                Media {
                    status_code: Some(code),
                    path,
                    ..old(self).medias@[media_idx as int]
                },
            ),
    {
        let m = &mut self.medias[media_idx];
        m.status_code = Some(code);
        m.path = path;
        proof {
            assert(final(self).wf()) by {
                let post = *final(self);
                assert(forall|k: int|
                    0 <= k < post.medias@.len() && k != media_idx ==> post.medias@[k] == old(
                        self,
                    ).medias@[k]);
                assert(post.medias@[media_idx as int].url@ == old(
                    self,
                ).medias@[media_idx as int].url@);
            }
        }
    }

    /// The identifiers of the medias flagged for download, in id order.
    pub open spec fn to_download_ids(medias: Seq<Media>) -> Seq<i32>
        decreases medias.len(),
    {
        if medias.len() == 0 {
            Seq::empty()
        } else {
            let rest = Store::to_download_ids(medias.drop_last());
            if medias.last().to_download {
                rest.push(medias.last().id)
            } else {
                rest
            }
        }
    }

    /// Selects the medias flagged for download, in id order, as the
    /// download scheduler walks them.
    pub fn medias_to_download(&self) -> (r: Vec<i32>)
        ensures
            r@ == Store::to_download_ids(self.medias@),
    {
        let mut r: Vec<i32> = Vec::new();
        let n = self.medias.len();
        let mut i: usize = 0;
        while i < n
            invariant
                i <= n,
                n == self.medias@.len(),
                r@ == Store::to_download_ids(self.medias@.take(i as int)),
            decreases n - i,
        {
            proof {
                assert(self.medias@.take(i + 1 as int).drop_last() =~= self.medias@.take(i as int));
                assert(self.medias@.take(i + 1 as int).last() == self.medias@[i as int]);
            }
            if self.medias[i].to_download {
                r.push(self.medias[i].id);
            }
            i += 1;
        }
        proof {
            assert(self.medias@.take(n as int) =~= self.medias@);
        }
        r
    }

    /// Whether a media is waiting for a crop: flagged for download, not yet
    /// cropped, and downloaded to a path.
    pub open spec fn crop_candidate(m: Media) -> bool {
        m.to_download && !m.cropped && m.path is Some
    }

    /// The identifiers of the medias waiting for a crop, in id order.
    pub open spec fn crop_candidate_ids(medias: Seq<Media>) -> Seq<i32>
        decreases medias.len(),
    {
        if medias.len() == 0 {
            Seq::empty()
        } else {
            let rest = Store::crop_candidate_ids(medias.drop_last());
            if Store::crop_candidate(medias.last()) {
                rest.push(medias.last().id)
            } else {
                rest
            }
        }
    }

    /// Selects the medias still waiting for a crop, in id order, as the
    /// standalone cropping pass walks them.
    pub fn crop_candidates(&self) -> (r: Vec<i32>)
        ensures
            r@ == Store::crop_candidate_ids(self.medias@),
    {
        let mut r: Vec<i32> = Vec::new();
        let n = self.medias.len();
        let mut i: usize = 0;
        while i < n
            invariant
                i <= n,
                n == self.medias@.len(),
                r@ == Store::crop_candidate_ids(self.medias@.take(i as int)),
            decreases n - i,
        {
            proof {
                assert(self.medias@.take(i + 1 as int).drop_last() =~= self.medias@.take(i as int));
                assert(self.medias@.take(i + 1 as int).last() == self.medias@[i as int]);
            }
            if self.medias[i].to_download && !self.medias[i].cropped && self.medias[i].path.is_some()
            {
                r.push(self.medias[i].id);
            }
            i += 1;
        }
        proof {
            assert(self.medias@.take(n as int) =~= self.medias@);
        }
        r
    }
}



// ---------------------------------------------------------------------------
// Species row updates
// ---------------------------------------------------------------------------

impl Store {
    /// Records a resolved key and the registry-reported occurrence total on
    /// the species row at `i`, as the scraper persists partial progress
    /// right after the first page.
    pub fn update_species_resolution(&mut self, i: usize, key: i64, available: i64)
        requires
            old(self).wf(),
            i < old(self).species@.len(),
            forall|j: int|
                0 <= j < old(self).species@.len() && (#[trigger] old(self).species@[j]).species_key
                    == Some(key) ==> j == i,
        ensures
            final(self).wf(),
            final(self).ignored == old(self).ignored,
            final(self).occurrences == old(self).occurrences,
            final(self).medias == old(self).medias,
            final(self).species@ == old(self).species@.update(
                i as int,
                Species {
                    species_key: Some(key),
                    available_occurrences: available,
                    ..old(self).species@[i as int]
                },
            ),
    {
        let row = &mut self.species[i];
        row.species_key = Some(key);
        row.available_occurrences = available;
        proof {
            assert(final(self).wf()) by {
                assert(forall|k: int|
                    0 <= k < final(self).species@.len() && k != i ==> final(self).species@[k]
                        == old(self).species@[k]);
                assert(final(self).species@[i as int].valid_name@ == old(
                    self,
                ).species@[i as int].valid_name@);
            }
        }
    }

    /// Marks the species row at `i` as completely scraped.
    pub fn set_species_done(&mut self, i: usize)
        requires
            old(self).wf(),
            i < old(self).species@.len(),
        ensures
            final(self).wf(),
            final(self).ignored == old(self).ignored,
            final(self).occurrences == old(self).occurrences,
            final(self).medias == old(self).medias,
            final(self).species@ == old(self).species@.update(
                i as int,
                Species { done: true, ..old(self).species@[i as int] },
            ),
    {
        let row = &mut self.species[i];
        row.done = true;
        proof {
            assert(final(self).wf()) by {
                assert(forall|k: int|
                    0 <= k < final(self).species@.len() && k != i ==> final(self).species@[k]
                        == old(self).species@[k]);
                assert(final(self).species@[i as int].valid_name@ == old(
                    self,
                ).species@[i as int].valid_name@);
                assert(final(self).species@[i as int].species_key == old(
                    self,
                ).species@[i as int].species_key);
            }
        }
    }
}


} // verus!
