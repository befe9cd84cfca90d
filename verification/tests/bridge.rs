use mpris_bridge::bridge::MprisBridge;
use mpris_bridge::control::{control_event, ControlQueue, PlayerCommand};
use mpris_bridge::payload::{
    LyricLine, MprisControlEvent, MprisSyncPayload, PlaybackRuntimeState, PlaybackTrack,
};
use mpris_bridge::session::SyncStage;
use mpris_bridge::span::TimeSpan;
use mpris_server::Time;

fn payload(secs: u64) -> MprisSyncPayload {
    MprisSyncPayload {
        playback: PlaybackRuntimeState::Paused,
        position: TimeSpan { secs, nanos: 0 },
        track: None,
    }
}

#[test]
fn commands_become_events() {
    assert_eq!(control_event(PlayerCommand::Play), MprisControlEvent::Play);
    assert_eq!(control_event(PlayerCommand::Pause), MprisControlEvent::Pause);
    assert_eq!(control_event(PlayerCommand::PlayPause), MprisControlEvent::PlayPause);
    assert_eq!(control_event(PlayerCommand::Stop), MprisControlEvent::Stop);
    assert_eq!(control_event(PlayerCommand::Next), MprisControlEvent::Next);
    assert_eq!(control_event(PlayerCommand::Previous), MprisControlEvent::Previous);
    assert_eq!(
        control_event(PlayerCommand::Seek(Time::from_micros(-1500))),
        MprisControlEvent::SeekRelativeMicros(-1500)
    );
    assert_eq!(
        control_event(PlayerCommand::SetPosition(Time::from_secs(2))),
        MprisControlEvent::SeekAbsoluteMicros(2_000_000)
    );
}

#[test]
fn queue_keeps_the_order() {
    let mut queue = ControlQueue::new();
    assert!(queue.drain_control_events().is_empty());
    queue.post(PlayerCommand::Next);
    queue.post(PlayerCommand::Next);
    queue.post(PlayerCommand::Play);
    assert_eq!(
        queue.drain_control_events(),
        vec![MprisControlEvent::Next, MprisControlEvent::Next, MprisControlEvent::Play]
    );
    assert!(queue.drain_control_events().is_empty());
}

#[test]
fn bridge_hands_events_over_once() {
    let mut bridge = MprisBridge::new();
    bridge.post(PlayerCommand::Stop);
    bridge.update(payload(1));
    bridge.post(PlayerCommand::Seek(Time::MIN));
    assert_eq!(
        bridge.drain_control_events(),
        vec![MprisControlEvent::Stop, MprisControlEvent::SeekRelativeMicros(i64::MIN)]
    );
    assert!(bridge.drain_control_events().is_empty());
}

#[test]
fn new_bridge_has_no_snapshot() {
    let mut bridge = MprisBridge::new();
    assert!(!bridge.has_update());
    assert!(matches!(bridge.read_snapshot(), SyncStage::AwaitChange));
}

fn read_position(bridge: &mut MprisBridge) -> u64 {
    match bridge.read_snapshot() {
        SyncStage::Apply(read) => read.position.secs,
        other => panic!("{other:?}"),
    }
}

#[test]
fn latest_snapshot_is_read() {
    let mut bridge = MprisBridge::new();
    bridge.update(payload(1));
    bridge.update(payload(2));
    assert!(bridge.has_update());
    assert_eq!(read_position(&mut bridge), 2);
    assert!(!bridge.has_update());
    assert_eq!(read_position(&mut bridge), 2);
    bridge.update(payload(3));
    assert!(bridge.has_update());
    assert_eq!(read_position(&mut bridge), 3);
}

#[test]
fn snapshot_is_read_whole() {
    let mut bridge = MprisBridge::new();
    let mut sent = payload(7);
    sent.track = Some(PlaybackTrack {
        title: "Song".to_string(),
        artist: "Singer".to_string(),
        album: "Record".to_string(),
        song_id: "186016".to_string(),
        duration_ms: -1,
        lyrics: Some(vec![
            LyricLine { text: "a".to_string() },
            LyricLine { text: " b ".to_string() },
        ]),
        cover: Some(vec![3, 1, 2]),
    });
    bridge.update(sent);
    match bridge.read_snapshot() {
        SyncStage::Apply(read) => {
            assert_eq!(read.playback, PlaybackRuntimeState::Paused);
            assert_eq!(read.position, TimeSpan { secs: 7, nanos: 0 });
            let track = read.track.unwrap();
            assert_eq!(track.title, "Song");
            assert_eq!(track.artist, "Singer");
            assert_eq!(track.album, "Record");
            assert_eq!(track.song_id, "186016");
            assert_eq!(track.duration_ms, -1);
            let lyrics = track.lyrics.unwrap();
            assert_eq!(lyrics.len(), 2);
            assert_eq!(lyrics[0].text, "a");
            assert_eq!(lyrics[1].text, " b ");
            assert_eq!(track.cover, Some(vec![3, 1, 2]));
        }
        other => panic!("{other:?}"),
    }
}

#[test]
fn reading_leaves_the_events() {
    let mut bridge = MprisBridge::new();
    bridge.post(PlayerCommand::Pause);
    bridge.update(payload(1));
    assert_eq!(read_position(&mut bridge), 1);
    assert_eq!(bridge.drain_control_events(), vec![MprisControlEvent::Pause]);
    assert!(!bridge.has_update());
}
