use audio_switch::metadata::{
    assemble_track_metadata, cover_data_url, folder_playlists, AudioProperties, FolderTrack,
    Picture, Playlist, TagFields, TrackMetadata,
};
use audio_switch::paths::{alternate_path, contains_char, is_audio_extension, is_lower_audio_extension};

fn props(duration_ms: u64) -> AudioProperties {
    AudioProperties { duration_ms, bitrate: Some(320), sample_rate: Some(44100), channels: Some(2) }
}

#[test]
fn track_builders_set_one_field_each() {
    let t = TrackMetadata::new("C:\\a.mp3".to_string(), "a.mp3".to_string())
        .with_title(Some("Title".to_string()))
        .with_artist(Some("Artist".to_string()))
        .with_album(Some("Album".to_string()))
        .with_duration(Some(1500))
        .with_cover(Some("data:x".to_string()))
        .with_bitrate(Some(128))
        .with_sample_rate(Some(48000))
        .with_channels(Some(1));
    assert_eq!(t.path, "C:\\a.mp3");
    assert_eq!(t.name, "a.mp3");
    assert_eq!(t.title.as_deref(), Some("Title"));
    assert_eq!(t.artist.as_deref(), Some("Artist"));
    assert_eq!(t.album.as_deref(), Some("Album"));
    assert_eq!(t.duration_ms, Some(1500));
    assert_eq!(t.cover.as_deref(), Some("data:x"));
    assert_eq!(t.bitrate, Some(128));
    assert_eq!(t.sample_rate, Some(48000));
    assert_eq!(t.channels, Some(1));
}

#[test]
fn new_track_has_no_details() {
    let t = TrackMetadata::new("p".to_string(), "n".to_string());
    assert_eq!(t.title, None);
    assert_eq!(t.duration_ms, None);
    assert_eq!(t.cover, None);
    assert_eq!(t.channels, None);
}

#[test]
fn playlist_add_get_remove_clear() {
    let mut p = Playlist::new("Rock".to_string());
    assert!(p.is_empty());
    assert_eq!(p.track_count(), 0);
    p.add_track(TrackMetadata::new("a".to_string(), "a".to_string()));
    p.add_track(TrackMetadata::new("b".to_string(), "b".to_string()));
    p.add_track(TrackMetadata::new("c".to_string(), "c".to_string()));
    assert_eq!(p.track_count(), 3);
    assert!(!p.is_empty());
    assert_eq!(p.get_track(1).unwrap().name, "b");
    assert!(p.get_track(3).is_none());
    let removed = p.remove_track(0).unwrap();
    assert_eq!(removed.name, "a");
    assert_eq!(p.track_count(), 2);
    assert_eq!(p.get_track(0).unwrap().name, "b");
    assert!(p.remove_track(5).is_none());
    assert_eq!(p.track_count(), 2);
    p.clear();
    assert!(p.is_empty());
    assert_eq!(p.name, "Rock");
}

#[test]
fn cover_url_encodes_bytes() {
    let url = cover_data_url(&Some("image/png".to_string()), &"AQID".to_string());
    assert_eq!(url, "data:image/png;base64,AQID");
    let url = cover_data_url(&None, &"".to_string());
    assert_eq!(url, "data:image/jpeg;base64,");
}

#[test]
fn metadata_from_full_tag() {
    let tag = TagFields {
        title: Some("Song".to_string()),
        artist: Some("Band".to_string()),
        album: Some("Record".to_string()),
        picture: Some(Picture { mime_type: Some("image/png".to_string()), data: vec![1, 2, 3] }),
    };
    let m = assemble_track_metadata(&"music/rock/song.mp3".to_string(), "song.mp3".to_string(), &props(183_000), Some(tag));
    assert_eq!(m.path, "music\\rock\\song.mp3");
    assert_eq!(m.name, "song.mp3");
    assert_eq!(m.title.as_deref(), Some("Song"));
    assert_eq!(m.artist.as_deref(), Some("Band"));
    assert_eq!(m.album.as_deref(), Some("Record"));
    assert_eq!(m.duration_ms, Some(183_000));
    assert_eq!(m.bitrate, Some(320));
    assert_eq!(m.sample_rate, Some(44100));
    assert_eq!(m.channels, Some(2));
    assert_eq!(m.cover.as_deref(), Some("data:image/png;base64,AQID"));
}

#[test]
fn metadata_cover_defaults_to_jpeg() {
    let tag = TagFields {
        title: None,
        artist: None,
        album: None,
        picture: Some(Picture { mime_type: None, data: b"Man".to_vec() }),
    };
    let m = assemble_track_metadata(&"x.flac".to_string(), "x.flac".to_string(), &props(1), Some(tag));
    assert_eq!(m.cover.as_deref(), Some("data:image/jpeg;base64,TWFu"));
    assert_eq!(m.title.as_deref(), Some("x.flac"));
}

#[test]
fn metadata_without_tag_falls_back_to_file_name() {
    let m = assemble_track_metadata(&"C:\\music\\b.wav".to_string(), "b.wav".to_string(), &props(0), None);
    assert_eq!(m.path, "C:\\music\\b.wav");
    assert_eq!(m.title.as_deref(), Some("b.wav"));
    assert_eq!(m.duration_ms, None);
    assert_eq!(m.artist, None);
    assert_eq!(m.cover, None);
}

#[test]
fn metadata_empty_title_falls_back_to_file_name() {
    let tag = TagFields { title: Some(String::new()), artist: None, album: None, picture: None };
    let m = assemble_track_metadata(&"c.ogg".to_string(), "c.ogg".to_string(), &props(10), Some(tag));
    assert_eq!(m.title.as_deref(), Some("c.ogg"));
    assert_eq!(m.cover, None);
}

#[test]
fn contains_char_finds_separators() {
    assert!(contains_char("a/b", '/'));
    assert!(!contains_char("a\\b", '/'));
    assert!(!contains_char("", '/'));
}

#[test]
fn alternate_path_swaps_separators() {
    assert_eq!(alternate_path(&"C:/music/a.mp3".to_string()), Some("C:\\music\\a.mp3".to_string()));
    assert_eq!(alternate_path(&"C:\\music\\a.mp3".to_string()), Some("C:/music/a.mp3".to_string()));
    assert_eq!(alternate_path(&"a/b\\c".to_string()), Some("a\\b\\c".to_string()));
    assert_eq!(alternate_path(&"plain.mp3".to_string()), None);
    assert_eq!(alternate_path(&String::new()), None);
}

#[test]
fn audio_extensions_any_case() {
    assert!(is_audio_extension("mp3"));
    assert!(is_audio_extension("FLAC"));
    assert!(is_audio_extension("Wav"));
    assert!(is_audio_extension("ogg"));
    assert!(is_audio_extension("M4A"));
    assert!(is_audio_extension("aac"));
    assert!(!is_audio_extension("jpg"));
    assert!(!is_audio_extension(""));
    assert!(!is_audio_extension("mp3 "));
}

#[test]
fn lower_extension_is_exact() {
    assert!(is_lower_audio_extension(&"mp3".to_string()));
    assert!(!is_lower_audio_extension(&"MP3".to_string()));
    assert!(!is_lower_audio_extension(&"mp".to_string()));
}

#[test]
fn playlist_track_can_be_changed_in_place() {
    let mut p = Playlist::new("Mix".to_string());
    p.add_track(TrackMetadata::new("a".to_string(), "a".to_string()));
    p.get_track_mut(0).unwrap().title = Some("First".to_string());
    assert_eq!(p.get_track(0).unwrap().title.as_deref(), Some("First"));
    assert!(p.get_track_mut(1).is_none());
    assert_eq!(p.track_count(), 1);
}

fn found(folder: &str, name: &str) -> FolderTrack {
    FolderTrack { folder: folder.to_string(), track: TrackMetadata::new(name.to_string(), name.to_string()) }
}

#[test]
fn folder_playlists_group_in_scan_order() {
    let lists = folder_playlists(vec![
        found("Rock", "r1"),
        found("Jazz", "j1"),
        found("Rock", "r2"),
        found("Pop", "p1"),
        found("Jazz", "j2"),
    ]);
    assert_eq!(lists.len(), 3);
    assert_eq!(lists[0].name, "Rock");
    assert_eq!(lists[0].files.iter().map(|t| t.name.as_str()).collect::<Vec<_>>(), vec!["r1", "r2"]);
    assert_eq!(lists[1].name, "Jazz");
    assert_eq!(lists[1].files.iter().map(|t| t.name.as_str()).collect::<Vec<_>>(), vec!["j1", "j2"]);
    assert_eq!(lists[2].name, "Pop");
    assert_eq!(lists[2].files.len(), 1);
}

#[test]
fn folder_playlists_of_nothing_is_empty() {
    assert!(folder_playlists(Vec::new()).is_empty());
}
