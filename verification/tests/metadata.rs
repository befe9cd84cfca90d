use mpris_bridge::metadata::{
    build_metadata, cover_to_persist, length_micros, lyrics_text, song_comment, song_url,
    MAX_LENGTH_MICROS,
};
use mpris_bridge::payload::{LyricLine, PlaybackTrack};
use mpris_server::Time;

fn track() -> PlaybackTrack {
    PlaybackTrack {
        title: "Song".to_string(),
        artist: "Singer".to_string(),
        album: "Record".to_string(),
        song_id: "186016".to_string(),
        duration_ms: 215_000,
        lyrics: Some(lines(&["  first ", "", " \t", "second"])),
        cover: Some(vec![1, 2, 3]),
    }
}

fn lines(texts: &[&str]) -> Vec<LyricLine> {
    texts.iter().map(|text| LyricLine { text: text.to_string() }).collect()
}

fn no_track() -> PlaybackTrack {
    PlaybackTrack {
        title: String::new(),
        artist: " ".to_string(),
        album: "\u{3000}".to_string(),
        song_id: "\t".to_string(),
        duration_ms: 0,
        lyrics: None,
        cover: None,
    }
}

const ALL: [&str; 9] = [
    "xesam:title",
    "xesam:artist",
    "xesam:albumArtist",
    "xesam:album",
    "mpris:length",
    "xesam:url",
    "xesam:comment",
    "xesam:asText",
    "mpris:artUrl",
];

#[test]
fn full_track_has_every_attribute() {
    let m = build_metadata(&track(), Some("file:///covers/a.img".to_string()));
    assert_eq!(m.title(), Some("Song"));
    assert_eq!(m.artist(), Some(vec!["Singer".to_string()]));
    assert_eq!(m.album_artist(), Some(vec!["Singer".to_string()]));
    assert_eq!(m.album(), Some("Record"));
    assert_eq!(m.length(), Some(Time::from_micros(215_000_000)));
    assert_eq!(m.url(), Some("https://music.163.com/#/song?id=186016".to_string()));
    assert_eq!(m.comment(), Some(vec!["song_id=186016".to_string()]));
    assert_eq!(m.lyrics(), Some("first\nsecond"));
    assert_eq!(m.art_url(), Some("file:///covers/a.img".to_string()));
    for name in ALL {
        assert!(m.get_value(name).is_some());
    }
    assert!(m.get_value("mpris:trackid").is_none());
}

#[test]
fn blank_track_has_no_attribute() {
    let m = build_metadata(&no_track(), Some("file:///covers/a.img".to_string()));
    for name in ALL {
        assert!(m.get_value(name).is_none());
    }
}

#[test]
fn texts_are_published_untrimmed() {
    let mut t = no_track();
    t.title = " Song ".to_string();
    t.song_id = " 7 ".to_string();
    let m = build_metadata(&t, None);
    assert_eq!(m.title(), Some(" Song "));
    assert_eq!(m.url(), Some("https://music.163.com/#/song?id= 7 ".to_string()));
    assert_eq!(m.comment(), Some(vec!["song_id= 7 ".to_string()]));
    assert!(m.artist().is_none());
    assert!(m.length().is_none());
}

#[test]
fn art_needs_a_cover_and_a_location() {
    let url = || Some("file:///covers/a.img".to_string());
    assert!(build_metadata(&track(), None).art_url().is_none());
    let mut t = track();
    t.cover = Some(Vec::new());
    assert!(build_metadata(&t, url()).art_url().is_none());
    assert!(cover_to_persist(&t).is_none());
    t.cover = None;
    assert!(build_metadata(&t, url()).art_url().is_none());
    assert!(cover_to_persist(&t).is_none());
    assert_eq!(cover_to_persist(&track()), Some(&vec![1, 2, 3]));
}

#[test]
fn length_is_positive_and_bounded() {
    assert_eq!(length_micros(i64::MIN), None);
    assert_eq!(length_micros(-1), None);
    assert_eq!(length_micros(0), None);
    assert_eq!(length_micros(1), Some(1000));
    assert_eq!(MAX_LENGTH_MICROS, i64::MAX / 2);
    assert_eq!(length_micros(4_611_686_018_427_387), Some(4_611_686_018_427_387_000));
    assert_eq!(length_micros(4_611_686_018_427_388), Some(i64::MAX / 2));
    assert_eq!(length_micros(i64::MAX), Some(i64::MAX / 2));
    let mut t = no_track();
    t.duration_ms = i64::MAX;
    assert_eq!(build_metadata(&t, None).length(), Some(Time::from_micros(i64::MAX / 2)));
}

#[test]
fn length_follows_the_saturating_rule() {
    for ms in [1, 999, 4_611_686_018_427_387, 9_223_372_036_854_775, 9_223_372_036_854_776, i64::MAX] {
        let expected = ms.saturating_mul(1000).clamp(i64::MIN / 2, i64::MAX / 2);
        assert_eq!(length_micros(ms), Some(expected));
    }
}

#[test]
fn lyrics_leave_blank_lines_out() {
    assert_eq!(lyrics_text(&lines(&[])), "");
    assert_eq!(lyrics_text(&lines(&["", " \u{3000}"])), "");
    assert_eq!(lyrics_text(&lines(&[" a"])), "a");
    assert_eq!(lyrics_text(&lines(&["", "a ", "", " b b ", "c", " "])), "a\nb b\nc");
}

#[test]
fn blank_lyrics_are_not_published() {
    let mut t = track();
    t.lyrics = Some(Vec::new());
    assert!(build_metadata(&t, None).lyrics().is_none());
    t.lyrics = Some(lines(&[" ", ""]));
    assert!(build_metadata(&t, None).lyrics().is_none());
    t.lyrics = None;
    assert!(build_metadata(&t, None).lyrics().is_none());
}

#[test]
fn song_texts_name_the_id() {
    assert_eq!(song_url("x"), "https://music.163.com/#/song?id=x");
    assert_eq!(song_comment("x"), "song_id=x");
}
