use mpris_bridge::payload::{MprisSyncPayload, PlaybackRuntimeState, PlaybackTrack};
use mpris_bridge::session::{
    apply_snapshot, next_snapshot_stage, next_sync_stage, PlayerAction, SnapshotStage, SyncEvent,
    SyncStage,
};
use mpris_bridge::span::TimeSpan;
use mpris_server::Time;

fn payload(with_track: bool) -> MprisSyncPayload {
    let track = PlaybackTrack {
        title: "Song".to_string(),
        artist: String::new(),
        album: String::new(),
        song_id: String::new(),
        duration_ms: 0,
        lyrics: None,
        cover: None,
    };
    MprisSyncPayload {
        playback: PlaybackRuntimeState::Playing,
        position: TimeSpan { secs: 3, nanos: 2_000 },
        track: if with_track { Some(track) } else { None },
    }
}

#[test]
fn session_stops_without_player_or_bridge() {
    assert!(matches!(next_sync_stage(SyncEvent::PlayerBuilt(true)), SyncStage::AwaitChange));
    assert!(matches!(next_sync_stage(SyncEvent::PlayerBuilt(false)), SyncStage::Stopped));
    assert!(matches!(next_sync_stage(SyncEvent::Changed(true)), SyncStage::ReadSnapshot));
    assert!(matches!(next_sync_stage(SyncEvent::Changed(false)), SyncStage::Stopped));
    assert!(matches!(next_sync_stage(SyncEvent::Applied(true)), SyncStage::AwaitChange));
    assert!(matches!(next_sync_stage(SyncEvent::Applied(false)), SyncStage::AwaitChange));
}

#[test]
fn snapshot_is_applied_where_there_is_one() {
    assert!(matches!(next_sync_stage(SyncEvent::Read(None)), SyncStage::AwaitChange));
    match next_sync_stage(SyncEvent::Read(Some(payload(true)))) {
        SyncStage::Apply(p) => assert_eq!(p.track.unwrap().title, "Song"),
        other => panic!("{other:?}"),
    }
}

#[test]
fn actions_show_the_snapshot() {
    let p = payload(true);
    assert!(matches!(
        apply_snapshot(&p, SnapshotStage::Status),
        PlayerAction::SetStatus(PlaybackRuntimeState::Playing)
    ));
    match apply_snapshot(&p, SnapshotStage::Position) {
        PlayerAction::SetPosition(time) => assert_eq!(time, Time::from_micros(3_000_002)),
        other => panic!("{other:?}"),
    }
    match apply_snapshot(&p, SnapshotStage::Track) {
        PlayerAction::PublishTrack(track) => assert_eq!(track.title, "Song"),
        other => panic!("{other:?}"),
    }
    assert!(matches!(apply_snapshot(&p, SnapshotStage::Done), PlayerAction::Nothing));
    assert!(matches!(apply_snapshot(&p, SnapshotStage::Failed), PlayerAction::Nothing));
    assert!(matches!(apply_snapshot(&payload(false), SnapshotStage::Track), PlayerAction::Nothing));
}

fn run(p: &MprisSyncPayload, outcomes: [bool; 3]) -> (SnapshotStage, usize) {
    let mut stage = SnapshotStage::Status;
    let mut actions = 0;
    for ok in outcomes {
        if !matches!(apply_snapshot(p, stage), PlayerAction::Nothing) {
            actions += 1;
        }
        stage = next_snapshot_stage(p, stage, ok);
    }
    (stage, actions)
}

#[test]
fn snapshot_ends_as_its_steps_do() {
    assert_eq!(run(&payload(true), [true, true, true]), (SnapshotStage::Done, 3));
    assert_eq!(run(&payload(true), [true, false, true]), (SnapshotStage::Done, 3));
    assert_eq!(run(&payload(true), [true, true, false]), (SnapshotStage::Failed, 3));
    assert_eq!(run(&payload(false), [true, true, false]), (SnapshotStage::Done, 2));
    assert_eq!(run(&payload(true), [false, true, true]), (SnapshotStage::Failed, 1));
    assert_eq!(run(&payload(false), [false, true, true]), (SnapshotStage::Failed, 1));
}
