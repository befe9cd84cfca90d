use mpris_bridge::artwork::{
    cleanup_art_dir_throttled, cover_filename, cover_filename_for, next_cover_stage,
    persist_cover_as_file_url, sanitize_for_filename, CoverStage, MIN_CLEANUP_INTERVAL_SECS,
};
use mpris_bridge::span::TimeSpan;
use std::collections::hash_map::DefaultHasher;
use std::hash::{Hash, Hasher};

#[test]
fn file_name_keeps_safe_characters() {
    assert_eq!(sanitize_for_filename("186016"), "186016");
    assert_eq!(sanitize_for_filename("aZ09-_"), "aZ09-_");
    assert_eq!(sanitize_for_filename("../a b/\u{e9}c.d"), "abcd");
    assert_eq!(sanitize_for_filename("@[`{/:"), "track");
    assert_eq!(sanitize_for_filename("\u{6b4c}"), "track");
    assert_eq!(sanitize_for_filename(""), "track");
}

#[test]
fn sanitizing_twice_changes_nothing() {
    for text in ["", "a/b", "track", "\u{6b4c}-1", "_"] {
        let once = sanitize_for_filename(text);
        assert_eq!(sanitize_for_filename(&once), once);
    }
}

#[test]
fn cover_name_has_id_and_hash() {
    assert_eq!(cover_filename("186016", 42), "186016_42.img");
    assert_eq!(cover_filename("/", u64::MAX), "track_18446744073709551615.img");
    assert_eq!(cover_filename("a_1", 0), "a_1_0.img");
}

#[test]
fn cover_names_differ_with_id_or_hash() {
    assert_ne!(cover_filename("a", 11), cover_filename("a_1", 1));
    assert_ne!(cover_filename("a", 1), cover_filename("a", 10));
    assert_ne!(cover_filename("a", 1), cover_filename("b", 1));
    assert_eq!(cover_filename("a/", 1), cover_filename("a", 1));
}

#[test]
fn cover_hash_is_that_of_the_standard_hasher() {
    let bytes: Vec<u8> = vec![9, 8, 7, 0, 255];
    let mut hasher = DefaultHasher::new();
    bytes.as_slice().hash(&mut hasher);
    let expected = format!("song_{}.img", hasher.finish());
    assert_eq!(cover_filename_for("song", &bytes), expected);
    assert_eq!(cover_filename_for("song", &bytes), cover_filename_for("song", &bytes));
    assert_ne!(cover_filename_for("song", &bytes), cover_filename_for("song", &bytes[1..]));
}

fn run(outcomes: [bool; 5]) -> CoverStage {
    let mut stage = CoverStage::Probe;
    for ok in outcomes {
        stage = next_cover_stage(stage, ok);
    }
    stage
}

#[test]
fn cover_is_stored_iff_found_or_written() {
    for bits in 0..32u32 {
        let o = [bits & 1 > 0, bits & 2 > 0, bits & 4 > 0, bits & 8 > 0, bits & 16 > 0];
        let stored = o[0] || (o[1] && (o[3] || o[4]));
        assert_eq!(run(o), if stored { CoverStage::Stored } else { CoverStage::Failed });
    }
}

#[test]
fn removed_cover_is_written_once_more() {
    let mut stage = CoverStage::Probe;
    stage = next_cover_stage(stage, false);
    assert_eq!(stage, CoverStage::Write);
    stage = next_cover_stage(stage, true);
    assert_eq!(stage, CoverStage::Clean);
    stage = next_cover_stage(stage, true);
    assert_eq!(stage, CoverStage::Reprobe);
    stage = next_cover_stage(stage, false);
    assert_eq!(stage, CoverStage::Rewrite);
    assert_eq!(next_cover_stage(stage, false), CoverStage::Failed);
    assert_eq!(next_cover_stage(stage, true), CoverStage::Stored);
    assert_eq!(next_cover_stage(CoverStage::Write, false), CoverStage::Failed);
    assert_eq!(next_cover_stage(CoverStage::Probe, true), CoverStage::Stored);
}

#[test]
fn stored_cover_has_a_location() {
    assert_eq!(
        persist_cover_as_file_url(CoverStage::Stored, "/c/a_1.img"),
        Some("file:///c/a_1.img".to_string())
    );
    assert_eq!(persist_cover_as_file_url(CoverStage::Failed, "/c/a_1.img"), None);
    assert_eq!(persist_cover_as_file_url(CoverStage::Write, "/c/a_1.img"), None);
}

#[test]
fn cleanup_is_throttled() {
    let at = |secs, nanos| TimeSpan { secs, nanos };
    assert_eq!(MIN_CLEANUP_INTERVAL_SECS, 300);
    let mut last = None;
    assert!(cleanup_art_dir_throttled(&mut last, at(5, 500)));
    assert_eq!(last, Some(at(5, 500)));
    assert!(!cleanup_art_dir_throttled(&mut last, at(5, 500)));
    assert!(!cleanup_art_dir_throttled(&mut last, at(305, 499)));
    assert!(!cleanup_art_dir_throttled(&mut last, at(1, 0)));
    assert_eq!(last, Some(at(5, 500)));
    assert!(cleanup_art_dir_throttled(&mut last, at(305, 500)));
    assert_eq!(last, Some(at(305, 500)));
    assert!(!cleanup_art_dir_throttled(&mut last, at(600, 0)));
    assert!(cleanup_art_dir_throttled(&mut last, at(u64::MAX, 999_999_999)));
}

#[test]
fn cleanups_lie_apart() {
    let mut last = None;
    let mut runs = Vec::new();
    for secs in (0..5000).step_by(7) {
        if cleanup_art_dir_throttled(&mut last, TimeSpan { secs, nanos: 0 }) {
            runs.push(secs);
        }
    }
    assert_eq!(runs[0], 0);
    assert!(runs.len() > 10);
    assert!(runs.windows(2).all(|pair| pair[1] - pair[0] >= 300));
}
