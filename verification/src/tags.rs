//! The metadata-rewrite planner. The low-level tag-container writer is an
//! external collaborator; this module computes everything it is handed: the
//! capability lookup from extension to tag format, the frame values derived
//! from a catalog record, and the conventional cover-art path. A caller
//! serializes the returned request onto the copied file and maps any write
//! failure to a tag error.

use vstd::prelude::*;
use crate::errors::MigrationError;
use crate::record::Config;
use crate::text::{spec_decimal_int, i32_decimal, str_eq};

verus! {

/// The tag-container formats the rewriter can serialize. Exactly one is
/// supported; extensions without an entry in the capability lookup fail with
/// a tag error.
#[derive(Clone, Copy, Debug, PartialEq, Eq, Structural)]
pub enum TagFormat {
    Id3v24,
}

/// A cover image to embed as a single picture frame.
pub struct CoverArt {
    pub mime_type: String,
    pub description: String,
    pub data: Vec<u8>,
}

/// Everything the external tag writer needs for one rewrite: the container
/// format, the frame values, and the optional cover image. The writer starts
/// from a fresh, empty container; existing tags of the copied file are
/// discarded, not merged.
pub struct TagRequest {
    pub format: TagFormat,
    pub title: String,
    pub artist: String,
    pub genre: String,
    pub cover: Option<CoverArt>,
}

/// Capability lookup from a detected extension to a tag format. Only `mp3`
/// has an entry.
pub fn tag_format_for(ext: &str) -> (r: Option<TagFormat>)
    ensures
        r is Some <==> ext@ == "mp3"@,
        r is Some ==> r == Some(TagFormat::Id3v24),
{
    if str_eq(ext, "mp3") {
        Some(TagFormat::Id3v24)
    } else {
        None
    }
}

/// The conventional path of a set's cover image: the game data root, the
/// `Data/bt` directory, the set identifier, and a `.jpg` suffix.
pub open spec fn spec_cover_path(game_path: Seq<char>, set_id: int) -> Seq<char> {
    game_path + "/Data/bt/"@ + spec_decimal_int(set_id) + ".jpg"@
}

/// Builds the conventional cover-art path for a set identifier. The file
/// there is read if it exists and skipped silently if not.
pub fn cover_art_path(cfg: &Config, set_id: i32) -> (r: String)
    ensures
        r@ == spec_cover_path(cfg.game_path@, set_id as int),
{
    let digits = i32_decimal(set_id);
    cfg.game_path.clone().concat("/Data/bt/").concat(digits.as_str()).concat(".jpg")
}

/// Plans the metadata rewrite of one copied file. Fails exactly when the
/// extension has no tag format; whether cover data is present never affects
/// success. On success the request carries the record's title and artist, the
/// genre `"tags:"` + the record's tags, and, when cover data was found, a
/// single picture frame with MIME type `image/jpg` and description
/// `beatmap background`.
pub fn plan_rewrite(
    ext: &str,
    title: &str,
    artist: &str,
    tags: &str,
    cover_data: Option<Vec<u8>>,
) -> (r: Result<TagRequest, MigrationError>)
    ensures
        r is Ok <==> ext@ == "mp3"@,
        r is Err ==> r == Err::<TagRequest, MigrationError>(MigrationError::TagError),
        r is Ok ==> r->Ok_0.format == TagFormat::Id3v24,
        r is Ok ==> r->Ok_0.title@ == title@,
        r is Ok ==> r->Ok_0.artist@ == artist@,
        r is Ok ==> r->Ok_0.genre@ == "tags:"@ + tags@,
        r is Ok ==> match (cover_data, r->Ok_0.cover) {
            (Some(data), Some(cover)) => cover.data@ == data@ && cover.mime_type@ == "image/jpg"@
                && cover.description@ == "beatmap background"@,
            (None, None) => true,
            _ => false,
        },
{
    let format = match tag_format_for(ext) {
        Some(f) => f,
        None => {
            return Err(MigrationError::TagError);
        },
    };
    let cover = match cover_data {
        Some(data) => Some(
            CoverArt {
                mime_type: String::from_str("image/jpg"),
                description: String::from_str("beatmap background"),
                data,
            },
        ),
        None => None,
    };
    Ok(
        TagRequest {
            format,
            title: String::from_str(title),
            artist: String::from_str(artist),
            genre: String::from_str("tags:").concat(tags),
            cover,
        },
    )
}

} // verus!
