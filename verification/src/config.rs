//! Configuration of the pipeline and the layout of the data directory.

use vstd::prelude::*;
use vstd::string::StringExecFns;

use crate::text::lower_of;
use crate::utils::{pretty_name, pretty_name_of};

verus! {

/// Blacklisted dataset.
///
/// It only contains pictures of labels, not animals.
pub const BLACKLISTED_DATASET: &'static str = "aae308f4-9f9c-4cdd-b4ef-c026f48be551";

/// The databases of the server.
pub struct Databases {
    /// The database of the server.
    pub database: Database,
}

/// The url of the database.
pub struct Database {
    /// The url of the database.
    pub url: String,
}

/// The config of the pipeline.
pub struct Config {
    /// The root of the app.
    pub root: String,
    /// The storage layout under the data directory.
    pub storage: Storage,
    /// Number of parallel downloads.
    pub jobs: usize,
    /// Number of images to put in a batch for cropping.
    pub batch_size: usize,
    /// Url of the databases.
    pub databases: Databases,
}

/// Something that has a valid species name.
pub trait SpeciesTrait {
    /// The characters of the valid name.
    spec fn valid_name_spec(&self) -> Seq<char>;

    /// The valid name of the species.
    fn valid_name(&self) -> (r: &str)
        ensures
            r@ == self.valid_name_spec(),
    ;
}

/// The directory (under the media roots) that holds a species' media: its
/// pretty name, lowercased; absent when the name has no recognizable
/// author part.
pub open spec fn medias_dir_local_of(valid_name: Seq<char>) -> Option<Seq<char>> {
    match pretty_name_of(valid_name) {
        Some(p) => Some(lower_of(p)),
        None => None,
    }
}

/// The directory name (under the media roots) of a species' media.
pub fn species_local_dir<S: SpeciesTrait>(species: &S) -> (r: Option<String>)
    ensures
        match r {
            Some(s) => medias_dir_local_of(species.valid_name_spec()) == Some(s@),
            None => medias_dir_local_of(species.valid_name_spec()) is None,
        },
{
    match pretty_name(species.valid_name()) {
        Some(p) => Some(crate::text::to_lowercase(p.as_str())),
        None => None,
    }
}

/// Struct to help us deal with storage paths.
pub struct Storage {
    /// Path where the data is stored.
    pub data_path: String,
}

impl Storage {
    /// Returns the path to the species directory.
    pub fn species_dir(&self) -> (r: String)
        ensures
            r@ == self.data_path@ + "/species"@,
    {
        let mut s = self.data_path.clone();
        s.append("/species");
        s
    }

    /// Returns the root of the medias directory.
    pub fn medias_root(&self) -> (r: String)
        ensures
            r@ == self.data_path@ + "/medias"@,
    {
        let mut s = self.data_path.clone();
        s.append("/medias");
        s
    }

    /// Returns the root of the cropped medias directory.
    pub fn cropped_root(&self) -> (r: String)
        ensures
            r@ == self.data_path@ + "/medias_cropped"@,
    {
        let mut s = self.data_path.clone();
        s.append("/medias_cropped");
        s
    }

    /// Returns the path to the temporary directory where the cropping
    /// worker leaves cropped images.
    pub fn tmp_dir(&self) -> (r: String)
        ensures
            r@ == self.data_path@ + "/tmp"@,
    {
        let mut s = self.data_path.clone();
        s.append("/tmp");
        s
    }

    /// Returns the part of the media path after the media root: the
    /// species' pretty name, lowercased.
    pub fn medias_dir_local<S: SpeciesTrait>(&self, species: &S) -> (r: Option<String>)
        ensures
            match r {
                Some(s) => medias_dir_local_of(species.valid_name_spec()) == Some(s@),
                None => medias_dir_local_of(species.valid_name_spec()) is None,
            },
    {
        species_local_dir(species)
    }

    /// Returns the media path for a species.
    pub fn medias_dir<S: SpeciesTrait>(&self, species: &S) -> (r: Option<String>)
        ensures
            match r {
                Some(s) => medias_dir_local_of(species.valid_name_spec()) matches Some(l) && s@
                    == self.data_path@ + "/medias/"@ + l,
                None => medias_dir_local_of(species.valid_name_spec()) is None,
            },
    {
        match self.medias_dir_local(species) {
            Some(l) => {
                let mut s = self.data_path.clone();
                s.append("/medias/");
                s.append(l.as_str());
                proof {
                    assert(s@ =~= self.data_path@ + "/medias/"@ + l@);
                }
                Some(s)
            },
            None => None,
        }
    }

    /// Returns the cropped media path for a species.
    pub fn cropped_medias_dir<S: SpeciesTrait>(&self, species: &S) -> (r: Option<String>)
        ensures
            match r {
                Some(s) => medias_dir_local_of(species.valid_name_spec()) matches Some(l) && s@
                    == self.data_path@ + "/medias_cropped/"@ + l,
                None => medias_dir_local_of(species.valid_name_spec()) is None,
            },
    {
        match self.medias_dir_local(species) {
            Some(l) => {
                let mut s = self.data_path.clone();
                s.append("/medias_cropped/");
                s.append(l.as_str());
                proof {
                    assert(s@ =~= self.data_path@ + "/medias_cropped/"@ + l@);
                }
                Some(s)
            },
            None => None,
        }
    }
}

} // verus!
