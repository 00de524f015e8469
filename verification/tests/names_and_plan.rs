use song_export::errors::MigrationError;
use song_export::names::{extension_of, sanitize_file_name, sanitize_title};
use song_export::plan::{database_path, plan_record};
use song_export::record::{Config, Record};
use song_export::tags::{cover_art_path, plan_rewrite, tag_format_for, TagFormat};
use song_export::text::{i32_decimal, str_eq, u64_decimal};

fn config() -> Config {
    Config {
        game_path: String::from("/g"),
        dest_folder: String::from("/d"),
    }
}

fn full_record() -> Record {
    Record {
        title: Some(String::from("A:B/C")),
        artist: Some(String::from("Artist")),
        tags: Some(String::from("electro fast")),
        difficulty_name: Some(String::from("Hard")),
        folder_name: Some(String::from("123 folder")),
        audio: Some(String::from("audio.mp3")),
        set_id: 123,
    }
}

#[test]
fn sanitize_strips_forbidden_example() {
    assert_eq!(sanitize_file_name("A:B/C", "mp3"), "ABC.mp3");
}

#[test]
fn sanitize_strips_every_forbidden_char() {
    assert_eq!(sanitize_title("<>/\\*?\":|"), "");
    assert_eq!(sanitize_title("a<b>c/d\\e*f?g\"h:i|j"), "abcdefghij");
}

#[test]
fn sanitize_keeps_ordinary_text() {
    assert_eq!(sanitize_title("Hello World! (TV size)"), "Hello World! (TV size)");
}

#[test]
fn sanitize_empty_title_yields_extension_only() {
    assert_eq!(sanitize_file_name("", "mp3"), ".mp3");
    assert_eq!(sanitize_file_name("::", "ogg"), ".ogg");
}

#[test]
fn extension_after_last_dot() {
    assert_eq!(extension_of("song.mp3"), Some("mp3"));
    assert_eq!(extension_of("a.b.mp3"), Some("mp3"));
    assert_eq!(extension_of(".mp3"), Some("mp3"));
    assert_eq!(extension_of("song."), Some(""));
}

#[test]
fn extension_absent_without_dot() {
    assert_eq!(extension_of("song"), None);
    assert_eq!(extension_of(""), None);
}

#[test]
fn decimal_rendering() {
    assert_eq!(u64_decimal(0), "0");
    assert_eq!(u64_decimal(9), "9");
    assert_eq!(u64_decimal(105), "105");
    assert_eq!(u64_decimal(u64::MAX), u64::MAX.to_string());
    assert_eq!(i32_decimal(7), "7");
    assert_eq!(i32_decimal(-42), "-42");
    assert_eq!(i32_decimal(i32::MIN), i32::MIN.to_string());
}

#[test]
fn str_eq_decides_equality() {
    assert!(str_eq("mp3", "mp3"));
    assert!(!str_eq("mp3", "ogg"));
    assert!(!str_eq("mp3", "mp"));
    assert!(str_eq("", ""));
}

#[test]
fn dedup_key_concatenates_folder_and_audio() {
    let rec = full_record();
    assert_eq!(rec.dedup_key(), "123 folderaudio.mp3");
}

#[test]
fn dedup_key_total_on_absent_fields() {
    let mut rec = full_record();
    rec.audio = None;
    assert_eq!(rec.dedup_key(), "123 folder");
    rec.folder_name = None;
    assert_eq!(rec.dedup_key(), "");
}

#[test]
fn plan_builds_exact_paths() {
    let job = plan_record(&config(), &full_record()).unwrap();
    assert_eq!(job.src_path, "/g/Songs/123 folder/audio.mp3");
    assert_eq!(job.dest_path, "/d/ABC.mp3");
    assert_eq!(job.extension, "mp3");
}

#[test]
fn plan_rejects_missing_audio() {
    let mut rec = full_record();
    rec.audio = None;
    assert!(matches!(plan_record(&config(), &rec), Err(MigrationError::DatabaseError)));
}

#[test]
fn plan_rejects_missing_folder() {
    let mut rec = full_record();
    rec.folder_name = None;
    assert!(matches!(plan_record(&config(), &rec), Err(MigrationError::DatabaseError)));
}

#[test]
fn plan_rejects_missing_title() {
    let mut rec = full_record();
    rec.title = None;
    assert!(matches!(plan_record(&config(), &rec), Err(MigrationError::DatabaseError)));
}

#[test]
fn plan_rejects_audio_without_extension() {
    let mut rec = full_record();
    rec.audio = Some(String::from("audio"));
    assert!(matches!(plan_record(&config(), &rec), Err(MigrationError::ExtensionError)));
}

#[test]
fn database_path_under_game_root() {
    assert_eq!(database_path(&config()), "/g/osu!.db");
}

#[test]
fn cover_path_follows_convention() {
    assert_eq!(cover_art_path(&config(), 123), "/g/Data/bt/123.jpg");
    assert_eq!(cover_art_path(&config(), -5), "/g/Data/bt/-5.jpg");
}

#[test]
fn only_mp3_has_a_tag_format() {
    assert_eq!(tag_format_for("mp3"), Some(TagFormat::Id3v24));
    assert_eq!(tag_format_for("ogg"), None);
    assert_eq!(tag_format_for("MP3"), None);
    assert_eq!(tag_format_for(""), None);
}

#[test]
fn rewrite_of_unsupported_extension_fails() {
    let r = plan_rewrite("ogg", "T", "A", "x", None);
    assert!(matches!(r, Err(MigrationError::TagError)));
}

#[test]
fn rewrite_without_cover_succeeds() {
    let q = plan_rewrite("mp3", "T", "A", "electro fast", None).unwrap();
    assert_eq!(q.format, TagFormat::Id3v24);
    assert_eq!(q.title, "T");
    assert_eq!(q.artist, "A");
    assert_eq!(q.genre, "tags:electro fast");
    assert!(q.cover.is_none());
}

#[test]
fn rewrite_with_cover_succeeds_with_same_frames() {
    let data = vec![1u8, 2, 3];
    let q = plan_rewrite("mp3", "T", "A", "electro fast", Some(data.clone())).unwrap();
    assert_eq!(q.title, "T");
    assert_eq!(q.artist, "A");
    assert_eq!(q.genre, "tags:electro fast");
    let cover = q.cover.unwrap();
    assert_eq!(cover.mime_type, "image/jpg");
    assert_eq!(cover.description, "beatmap background");
    assert_eq!(cover.data, data);
}

#[test]
fn error_names() {
    assert_eq!(MigrationError::DatabaseError.name(), "DatabaseError");
    assert_eq!(MigrationError::ExtensionError.name(), "ExtensionError");
    assert_eq!(MigrationError::CopyError.name(), "CopyError");
    assert_eq!(MigrationError::TagError.name(), "TagError");
}
