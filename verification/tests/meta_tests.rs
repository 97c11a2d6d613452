use base64::Engine as _;

use audio_engine::meta::apply_tag;
use audio_engine::meta::fallback_title;
use audio_engine::meta::get_album_artwork;
use audio_engine::meta::parse_u32_str;
use audio_engine::meta::parse_year;
use audio_engine::meta::sniff_mime;
use audio_engine::meta::Visual;
use audio_engine::meta::duration_ms_from_frames;
use audio_engine::paths::path_extension;
use audio_engine::paths::path_file_stem;
use audio_engine::TrackMetadata;

#[test]
fn mime_sniffing_reads_magic_bytes() {
    assert_eq!(sniff_mime(&vec![0xFF, 0xD8, 0xFF, 0xE0]), "image/jpeg");
    assert_eq!(sniff_mime(&vec![0x89, 0x50, 0x4E, 0x47, 0x0D]), "image/png");
    assert_eq!(sniff_mime(&vec![0x42, 0x4D, 0x00, 0x00]), "image/unknown");
    assert_eq!(sniff_mime(&vec![0xFF, 0xD8]), "image/unknown");
    assert_eq!(sniff_mime(&vec![]), "image/unknown");
}

#[test]
fn artwork_prefers_the_front_cover() {
    let visuals = vec![
        Visual { is_front_cover: false, media_type: "image/png".to_string(), data: vec![1, 2, 3] },
        Visual { is_front_cover: true, media_type: "image/jpeg".to_string(), data: vec![4, 5] },
    ];
    let artwork = get_album_artwork(&visuals).expect("artwork expected");
    assert_eq!(artwork.mime_type, "image/jpeg");
    // The payload is the real base64 encoding of the chosen visual's bytes.
    assert_eq!(artwork.data, base64::engine::general_purpose::STANDARD.encode([4u8, 5]));
    assert_eq!(artwork.data, "BAU=");
}

#[test]
fn artwork_falls_back_to_first_visual_and_sniffs() {
    let visuals = vec![
        Visual {
            is_front_cover: false,
            media_type: String::new(),
            data: vec![0x89, 0x50, 0x4E, 0x47, 1, 2, 3],
        },
        Visual { is_front_cover: false, media_type: "image/gif".to_string(), data: vec![9] },
    ];
    let artwork = get_album_artwork(&visuals).expect("artwork expected");
    assert_eq!(artwork.mime_type, "image/png");
    assert_eq!(
        artwork.data,
        base64::engine::general_purpose::STANDARD.encode([0x89u8, 0x50, 0x4E, 0x47, 1, 2, 3])
    );
}

#[test]
fn no_visuals_no_artwork() {
    assert!(get_album_artwork(&vec![]).is_none());
}

#[test]
fn u32_parsing_is_exact() {
    assert_eq!(parse_u32_str("0"), Some(0));
    assert_eq!(parse_u32_str("123"), Some(123));
    assert_eq!(parse_u32_str("007"), Some(7));
    assert_eq!(parse_u32_str("4294967295"), Some(u32::MAX));
    assert_eq!(parse_u32_str("4294967296"), None);
    assert_eq!(parse_u32_str("99999999999999999999"), None);
    assert_eq!(parse_u32_str(""), None);
    assert_eq!(parse_u32_str("12a"), None);
    assert_eq!(parse_u32_str("-3"), None);
    assert_eq!(parse_u32_str(" 3"), None);
}

#[test]
fn year_comes_from_before_the_first_dash() {
    assert_eq!(parse_year("2023-05-01"), Some(2023));
    assert_eq!(parse_year("1999"), Some(1999));
    assert_eq!(parse_year("-2000"), None);
    assert_eq!(parse_year(""), None);
    assert_eq!(parse_year("abcd-01"), None);
}

#[test]
fn tags_set_their_fields() {
    let mut meta = TrackMetadata::empty();
    apply_tag(&mut meta, &"TITLE".to_string(), "Song".to_string());
    apply_tag(&mut meta, &"ARTIST".to_string(), "Band".to_string());
    apply_tag(&mut meta, &"TALB".to_string(), "Album".to_string());
    apply_tag(&mut meta, &"TRCK".to_string(), "7".to_string());
    apply_tag(&mut meta, &"TDRC".to_string(), "2021-11-05".to_string());
    apply_tag(&mut meta, &"GENRE".to_string(), "Jazz".to_string());
    assert_eq!(meta.title.as_deref(), Some("Song"));
    assert_eq!(meta.artist.as_deref(), Some("Band"));
    assert_eq!(meta.album.as_deref(), Some("Album"));
    assert_eq!(meta.track_number, Some(7));
    assert_eq!(meta.year, Some(2021));
    assert_eq!(meta.genre.as_deref(), Some("Jazz"));
}

#[test]
fn unknown_and_unparsable_tags_change_nothing() {
    let mut meta = TrackMetadata::empty();
    apply_tag(&mut meta, &"LYRICS".to_string(), "la la".to_string());
    assert!(meta.title.is_none() && meta.genre.is_none());
    apply_tag(&mut meta, &"TRCK".to_string(), "seven".to_string());
    assert_eq!(meta.track_number, None);
    apply_tag(&mut meta, &"DATE".to_string(), "unknown".to_string());
    assert_eq!(meta.year, None);
    // Keys are case-sensitive, as the raw tag names are.
    apply_tag(&mut meta, &"title".to_string(), "x".to_string());
    assert!(meta.title.is_none());
}

#[test]
fn id3_frame_names_work_like_standard_keys() {
    let mut meta = TrackMetadata::empty();
    apply_tag(&mut meta, &"TIT2".to_string(), "T".to_string());
    apply_tag(&mut meta, &"TPE1".to_string(), "A".to_string());
    apply_tag(&mut meta, &"TRACKNUMBER".to_string(), "12".to_string());
    apply_tag(&mut meta, &"TYER".to_string(), "1984".to_string());
    apply_tag(&mut meta, &"TCON".to_string(), "Rock".to_string());
    assert_eq!(meta.title.as_deref(), Some("T"));
    assert_eq!(meta.artist.as_deref(), Some("A"));
    assert_eq!(meta.track_number, Some(12));
    assert_eq!(meta.year, Some(1984));
    assert_eq!(meta.genre.as_deref(), Some("Rock"));
}

#[test]
fn missing_title_falls_back_to_file_stem() {
    let mut meta = TrackMetadata::empty();
    fallback_title(&mut meta, "/music/My Song.mp3");
    assert_eq!(meta.title.as_deref(), Some("My Song"));
    // A tagged title is kept.
    let mut meta = TrackMetadata::empty();
    meta.title = Some("Kept".to_string());
    fallback_title(&mut meta, "/music/other.mp3");
    assert_eq!(meta.title.as_deref(), Some("Kept"));
}

#[test]
fn file_stems_and_extensions() {
    assert_eq!(path_file_stem("/a/b/song.mp3"), "song");
    assert_eq!(path_file_stem("song.mp3"), "song");
    assert_eq!(path_file_stem("archive.tar.gz"), "archive.tar");
    assert_eq!(path_file_stem("/a/.hidden"), ".hidden");
    assert_eq!(path_file_stem("/a/noext"), "noext");
    assert_eq!(path_extension("/a/b/song.mp3").as_deref(), Some("mp3"));
    assert_eq!(path_extension("archive.tar.gz").as_deref(), Some("gz"));
    assert_eq!(path_extension("/a/.hidden"), None);
    assert_eq!(path_extension("/a/noext"), None);
    assert_eq!(path_extension("/dir.d/file"), None);
    assert_eq!(path_extension("trailing.").as_deref(), Some(""));
}

#[test]
fn duration_is_frames_over_rate() {
    // 5 292 000 frames at 44.1 kHz are 120 s.
    assert_eq!(duration_ms_from_frames(5_292_000, 44_100), 120_000);
    assert_eq!(duration_ms_from_frames(0, 48_000), 0);
    assert_eq!(duration_ms_from_frames(48_000, 48_000), 1000);
    // Truncation, never rounding up.
    assert_eq!(duration_ms_from_frames(44_099, 44_100), 999);
}
