use mpris_bridge::now_playing::{
    apply_snapshot, asks_for_shown_info, eligibility_rejected, first_plan_stage, info_change,
    next_lookup, next_plan_stage, plan_action, set_now_playing_eligibility, InfoChange, InfoUpdate,
    PlanAction, PlanStage, PlaybackProgress, SetterLookup,
};
use mpris_bridge::payload::{MprisSyncPayload, PlaybackRuntimeState, PlaybackTrack};
use mpris_bridge::span::TimeSpan;

const POSITION: TimeSpan = TimeSpan { secs: 12, nanos: 5 };

fn payload(playback: PlaybackRuntimeState, duration_ms: Option<i64>) -> MprisSyncPayload {
    MprisSyncPayload {
        playback,
        position: POSITION,
        track: duration_ms.map(|duration_ms| PlaybackTrack {
            title: "Song".to_string(),
            artist: "Singer".to_string(),
            album: "Record".to_string(),
            song_id: "1".to_string(),
            duration_ms,
            lyrics: None,
            cover: None,
        }),
    }
}

#[test]
fn track_is_published() {
    let plan = apply_snapshot(payload(PlaybackRuntimeState::Playing, Some(1500)));
    assert_eq!(plan.eligibility, Some(true));
    assert_eq!(plan.state, PlaybackRuntimeState::Playing);
    assert!(!asks_for_shown_info(&plan.info));
    match info_change(&plan.info, false) {
        InfoChange::Publish(info) => {
            assert_eq!(info.title, "Song");
            assert_eq!(info.artist, "Singer");
            assert_eq!(info.album, "Record");
            assert_eq!(info.duration_ms, 1500);
            assert_eq!(info.progress, PlaybackProgress { elapsed: POSITION, rate: 1 });
        }
        other => panic!("{other:?}"),
    }
}

#[test]
fn unknown_length_is_zero() {
    let plan = apply_snapshot(payload(PlaybackRuntimeState::Paused, Some(-3)));
    match plan.info {
        InfoUpdate::Publish(info) => {
            assert_eq!(info.duration_ms, 0);
            assert_eq!(info.progress.rate, 0);
        }
        other => panic!("{other:?}"),
    }
}

#[test]
fn stopped_player_is_not_eligible() {
    let plan = apply_snapshot(payload(PlaybackRuntimeState::Stopped, Some(1)));
    assert_eq!(plan.eligibility, Some(false));
    assert!(matches!(plan.info, InfoUpdate::Publish(_)));
    let plan = apply_snapshot(payload(PlaybackRuntimeState::Stopped, None));
    assert_eq!(plan.eligibility, Some(false));
    assert_eq!(plan.state, PlaybackRuntimeState::Stopped);
    assert!(matches!(info_change(&plan.info, true), InfoChange::Clear));
}

#[test]
fn progress_is_refreshed_where_something_is_shown() {
    for (state, rate) in [(PlaybackRuntimeState::Playing, 1), (PlaybackRuntimeState::Paused, 0)] {
        let plan = apply_snapshot(payload(state, None));
        assert_eq!(plan.eligibility, None);
        assert!(asks_for_shown_info(&plan.info));
        match info_change(&plan.info, true) {
            InfoChange::Merge(progress) => {
                assert_eq!(progress, PlaybackProgress { elapsed: POSITION, rate });
            }
            other => panic!("{other:?}"),
        }
        let plan = apply_snapshot(payload(state, None));
        assert!(matches!(info_change(&plan.info, false), InfoChange::Keep));
    }
}

#[test]
fn setter_needs_framework_and_symbol() {
    let run = |framework: bool, symbol: bool| {
        next_lookup(next_lookup(SetterLookup::OpenFramework, framework), symbol)
    };
    assert_eq!(run(true, true), SetterLookup::Ready);
    assert_eq!(run(true, false), SetterLookup::Missing);
    assert_eq!(run(false, true), SetterLookup::Missing);
    assert_eq!(next_lookup(SetterLookup::Ready, false), SetterLookup::Ready);
}

#[test]
fn setter_is_called_with_a_flag() {
    assert_eq!(set_now_playing_eligibility(SetterLookup::Ready, true), Some(1));
    assert_eq!(set_now_playing_eligibility(SetterLookup::Ready, false), Some(0));
    assert_eq!(set_now_playing_eligibility(SetterLookup::Missing, true), None);
    assert!(eligibility_rejected(0));
    assert!(!eligibility_rejected(1));
}

fn steps(payload: MprisSyncPayload) -> Vec<String> {
    let plan = apply_snapshot(payload);
    let mut stage = first_plan_stage(&plan);
    let mut out = Vec::new();
    while stage != PlanStage::Done {
        out.push(match plan_action(&plan, stage) {
            PlanAction::SetEligibility(enabled) => format!("eligibility {enabled}"),
            PlanAction::UpdateInfo(InfoUpdate::Publish(info)) => format!("publish {}", info.title),
            PlanAction::UpdateInfo(InfoUpdate::Clear) => "clear".to_string(),
            PlanAction::UpdateInfo(InfoUpdate::Refresh(p)) => format!("refresh {}", p.rate),
            PlanAction::SetState(state) => format!("state {state:?}"),
            PlanAction::Nothing => "nothing".to_string(),
        });
        stage = next_plan_stage(stage);
    }
    assert!(matches!(plan_action(&plan, stage), PlanAction::Nothing));
    assert_eq!(next_plan_stage(stage), PlanStage::Done);
    out
}

#[test]
fn state_is_set_last() {
    assert_eq!(
        steps(payload(PlaybackRuntimeState::Playing, Some(1))),
        vec!["eligibility true", "publish Song", "state Playing"]
    );
    assert_eq!(
        steps(payload(PlaybackRuntimeState::Stopped, None)),
        vec!["eligibility false", "clear", "state Stopped"]
    );
    assert_eq!(
        steps(payload(PlaybackRuntimeState::Paused, None)),
        vec!["refresh 0", "state Paused"]
    );
}
