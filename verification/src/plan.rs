//! The per-record planner of the migration orchestrator: field validation,
//! extension detection, and the source and destination paths of one
//! transfer.

use vstd::prelude::*;
use crate::errors::MigrationError;
use crate::names::{spec_extension, spec_file_name, extension_of, sanitize_file_name};
use crate::record::{Config, Record};

verus! {

/// One planned transfer: where the audio file lies in the source layout,
/// where it goes in the destination layout, and its detected extension.
pub struct TransferJob {
    pub src_path: String,
    pub dest_path: String,
    pub extension: String,
}

/// The absolute source path of a record's audio file: the game root, the
/// `Songs` directory, the containing folder, and the audio filename.
pub open spec fn spec_source_path(game_path: Seq<char>, folder: Seq<char>, audio: Seq<char>) -> Seq<
    char,
> {
    game_path + "/Songs/"@ + folder + "/"@ + audio
}

/// The absolute destination path: the destination root joined with the
/// sanitized filename.
pub open spec fn spec_dest_path(dest_folder: Seq<char>, title: Seq<char>, ext: Seq<char>) -> Seq<
    char,
> {
    dest_folder + "/"@ + spec_file_name(title, ext)
}

/// The path of the game's catalog database file under the configured root.
pub fn database_path(cfg: &Config) -> (r: String)
    ensures
        r@ == cfg.game_path@ + "/osu!.db"@,
{
    cfg.game_path.clone().concat("/osu!.db")
}

/// Plans the migration of one record. Rejects a record missing a required
/// field with a database error, and one whose audio filename has no
/// extension with an extension error, both before any filesystem operation;
/// for every other record it returns the transfer job with the exact source
/// path, sanitized destination path, and extension.
pub fn plan_record(cfg: &Config, rec: &Record) -> (r: Result<TransferJob, MigrationError>)
    ensures
        r is Err ==> (r->Err_0 == MigrationError::DatabaseError || r->Err_0
            == MigrationError::ExtensionError),
        (r == Err::<TransferJob, MigrationError>(MigrationError::DatabaseError)) <==> !rec.has_required_fields(),
        (r == Err::<TransferJob, MigrationError>(MigrationError::ExtensionError)) <==> (rec.has_required_fields()
            && spec_extension(rec.audio->0@) is None),
        r is Ok ==> rec.has_required_fields() && spec_extension(rec.audio->0@) is Some,
        r is Ok ==> r->Ok_0.extension@ == spec_extension(rec.audio->0@)->0,
        r is Ok ==> r->Ok_0.src_path@ == spec_source_path(
            cfg.game_path@,
            rec.folder_name->0@,
            rec.audio->0@,
        ),
        r is Ok ==> r->Ok_0.dest_path@ == spec_dest_path(
            cfg.dest_folder@,
            rec.title->0@,
            spec_extension(rec.audio->0@)->0,
        ),
{
    if !rec.required_fields_present() {
        return Err(MigrationError::DatabaseError);
    }
    let title = match &rec.title {
        Some(t) => t,
        None => {
            return Err(MigrationError::DatabaseError);
        },
    };
    let folder = match &rec.folder_name {
        Some(f) => f,
        None => {
            return Err(MigrationError::DatabaseError);
        },
    };
    let audio = match &rec.audio {
        Some(a) => a,
        None => {
            return Err(MigrationError::DatabaseError);
        },
    };
    let ext = match extension_of(audio.as_str()) {
        Some(e) => e,
        None => {
            return Err(MigrationError::ExtensionError);
        },
    };
    let src_path = cfg.game_path.clone().concat("/Songs/").concat(folder.as_str()).concat(
        "/",
    ).concat(audio.as_str());
    let file_name = sanitize_file_name(title.as_str(), ext);
    let dest_path = cfg.dest_folder.clone().concat("/").concat(file_name.as_str());
    let extension = ext.to_owned();
    Ok(TransferJob { src_path, dest_path, extension })
}

} // verus!
