//! The catalog record consumed by the migration pipeline, the run
//! configuration, and the per-song deduplication key.

use vstd::prelude::*;

verus! {

/// Immutable run configuration, injected once at startup: the game's data
/// root and the flat destination directory.
pub struct Config {
    pub game_path: String,
    pub dest_folder: String,
}

/// One song-variant entry of the catalog, already decoded from the game's
/// database. Several variants (difficulties) may share one underlying audio
/// asset. Absent fields are decoded as `None`; a record lacking a required
/// field is rejected before any filesystem operation.
pub struct Record {
    pub title: Option<String>,
    pub artist: Option<String>,
    pub tags: Option<String>,
    pub difficulty_name: Option<String>,
    pub folder_name: Option<String>,
    pub audio: Option<String>,
    pub set_id: i32,
}

/// The characters of an optional string, with empty-string substitution for
/// an absent value.
pub open spec fn opt_str(o: Option<String>) -> Seq<char> {
    match o {
        Some(s) => s@,
        None => Seq::empty(),
    }
}

/// The deduplication key of a record: containing folder concatenated with
/// audio filename, each replaced by the empty string when absent. Two records
/// sharing this key represent the same underlying audio asset.
pub open spec fn spec_dedup_key(folder: Option<String>, audio: Option<String>) -> Seq<char> {
    opt_str(folder) + opt_str(audio)
}

impl Record {
    /// Whether every field the pipeline reads is present. A record failing
    /// this is rejected with a database error.
    pub open spec fn has_required_fields(self) -> bool {
        self.title is Some && self.artist is Some && self.tags is Some
            && self.folder_name is Some && self.audio is Some
    }

    /// Decides presence of all required fields.
    pub fn required_fields_present(&self) -> (r: bool)
        ensures
            r == self.has_required_fields(),
    {
        self.title.is_some() && self.artist.is_some() && self.tags.is_some()
            && self.folder_name.is_some() && self.audio.is_some()
    }

    /// Computes the deduplication key. Total: it never fails, even on a
    /// record whose fields are absent.
    pub fn dedup_key(&self) -> (k: String)
        ensures
            k@ == spec_dedup_key(self.folder_name, self.audio),
    {
        let mut k = String::new();
        match &self.folder_name {
            Some(f) => {
                k.append(f.as_str());
            },
            None => {},
        }
        match &self.audio {
            Some(a) => {
                k.append(a.as_str());
            },
            None => {},
        }
        proof {
            assert(k@ =~= spec_dedup_key(self.folder_name, self.audio));
        }
        k
    }
}

} // verus!
