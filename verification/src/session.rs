//! The task that keeps the session bus in step with the player.

use crate::payload::{MprisSyncPayload, PlaybackRuntimeState, PlaybackTrack};
use crate::time::{
    law_position_is_exact_or_the_largest, saturated_micros, time_from_duration, time_of_micros,
};
use mpris_server::Time;
use vstd::prelude::*;

verus! {

/// What the session task does next.
#[derive(Debug)]
pub enum SyncStage {
    /// Bring the player up on the bus.
    BuildPlayer,
    /// Wait until there is another snapshot.
    AwaitChange,
    /// Read the snapshot.
    ReadSnapshot,
    /// Show the snapshot on the bus.
    Apply(MprisSyncPayload),
    /// End.
    Stopped,
}

/// What has come of a stage of the session task.
#[derive(Debug)]
pub enum SyncEvent {
    /// Whether the player is up on the bus.
    PlayerBuilt(bool),
    /// Whether there is another snapshot; if not, the bridge is gone.
    Changed(bool),
    /// The snapshot, where there is one.
    Read(Option<MprisSyncPayload>),
    /// Whether the snapshot is shown.
    Applied(bool),
}

/// What the session task does after an event.
pub open spec fn spec_next_sync_stage(event: SyncEvent) -> SyncStage {
    match event {
        SyncEvent::PlayerBuilt(true) => SyncStage::AwaitChange,
        SyncEvent::PlayerBuilt(false) => SyncStage::Stopped,
        SyncEvent::Changed(true) => SyncStage::ReadSnapshot,
        SyncEvent::Changed(false) => SyncStage::Stopped,
        SyncEvent::Read(Some(payload)) => SyncStage::Apply(payload),
        SyncEvent::Read(None) => SyncStage::AwaitChange,
        SyncEvent::Applied(_) => SyncStage::AwaitChange,
    }
}

/// What the session task does after an event.
pub fn next_sync_stage(event: SyncEvent) -> (r: SyncStage)
    ensures
        r == spec_next_sync_stage(event),
{
    match event {
        SyncEvent::PlayerBuilt(built) => if built {
            SyncStage::AwaitChange
        } else {
            SyncStage::Stopped
        },
        SyncEvent::Changed(changed) => if changed {
            SyncStage::ReadSnapshot
        } else {
            SyncStage::Stopped
        },
        SyncEvent::Read(read) => match read {
            Some(payload) => SyncStage::Apply(payload),
            None => SyncStage::AwaitChange,
        },
        SyncEvent::Applied(_) => SyncStage::AwaitChange,
    }
}

/// How far a snapshot is shown on the bus.
#[derive(Debug, Clone, Copy, PartialEq, Eq, Structural)]
pub enum SnapshotStage {
    Status,
    Position,
    Track,
    Done,
    Failed,
}

/// What is to be done on the bus.
#[derive(Debug)]
pub enum PlayerAction<'a> {
    SetStatus(PlaybackRuntimeState),
    SetPosition(Time),
    PublishTrack(&'a PlaybackTrack),
    Nothing,
}

/// What is to be done for a snapshot at a stage.
pub open spec fn spec_snapshot_action<'a>(
    payload: &'a MprisSyncPayload,
    stage: SnapshotStage,
) -> PlayerAction<'a> {
    match stage {
        SnapshotStage::Status => PlayerAction::SetStatus(payload.playback),
        SnapshotStage::Position => PlayerAction::SetPosition(
            time_of_micros(saturated_micros(payload.position)),
        ),
        SnapshotStage::Track => match payload.track {
            Some(track) => PlayerAction::PublishTrack(&track),
            None => PlayerAction::Nothing,
        },
        SnapshotStage::Done => PlayerAction::Nothing,
        SnapshotStage::Failed => PlayerAction::Nothing,
    }
}

/// What is to be done for a snapshot at a stage.
pub fn apply_snapshot<'a>(payload: &'a MprisSyncPayload, stage: SnapshotStage) -> (r: PlayerAction<
    'a,
>)
    ensures
        r == spec_snapshot_action(payload, stage),
        stage == SnapshotStage::Status ==> r == PlayerAction::SetStatus(payload.playback),
        stage == SnapshotStage::Position ==> r == PlayerAction::SetPosition(
            time_of_micros(saturated_micros(payload.position)),
        ),
        stage == SnapshotStage::Track ==> (payload.track matches Some(track) ==> r
            == PlayerAction::PublishTrack(&track)),
{
    match stage {
        SnapshotStage::Status => PlayerAction::SetStatus(payload.playback),
        SnapshotStage::Position => PlayerAction::SetPosition(time_from_duration(payload.position)),
        SnapshotStage::Track => match &payload.track {
            Some(track) => PlayerAction::PublishTrack(track),
            None => PlayerAction::Nothing,
        },
        SnapshotStage::Done => PlayerAction::Nothing,
        SnapshotStage::Failed => PlayerAction::Nothing,
    }
}

/// The stage after `stage`, whose action has succeeded where `ok` holds. To set
/// the position cannot fail.
pub open spec fn spec_next_snapshot_stage(
    payload: MprisSyncPayload,
    stage: SnapshotStage,
    ok: bool,
) -> SnapshotStage {
    match stage {
        SnapshotStage::Status => if ok { SnapshotStage::Position } else { SnapshotStage::Failed },
        SnapshotStage::Position => if payload.track is Some {
            SnapshotStage::Track
        } else {
            SnapshotStage::Done
        },
        SnapshotStage::Track => if ok { SnapshotStage::Done } else { SnapshotStage::Failed },
        SnapshotStage::Done => SnapshotStage::Done,
        SnapshotStage::Failed => SnapshotStage::Failed,
    }
}

/// The stage after `stage`, whose action has succeeded where `ok` holds.
pub fn next_snapshot_stage(payload: &MprisSyncPayload, stage: SnapshotStage, ok: bool) -> (r:
    SnapshotStage)
    ensures
        r == spec_next_snapshot_stage(*payload, stage, ok),
{
    match stage {
        SnapshotStage::Status => if ok {
            SnapshotStage::Position
        } else {
            SnapshotStage::Failed
        },
        SnapshotStage::Position => if payload.track.is_some() {
            SnapshotStage::Track
        } else {
            SnapshotStage::Done
        },
        SnapshotStage::Track => if ok {
            SnapshotStage::Done
        } else {
            SnapshotStage::Failed
        },
        SnapshotStage::Done => SnapshotStage::Done,
        SnapshotStage::Failed => SnapshotStage::Failed,
    }
}

/// The session task ends only where the player cannot be brought up or the
/// bridge is gone; a snapshot that cannot be shown does not end it.
pub proof fn law_session_ends_only_without_player_or_bridge(event: SyncEvent)
    ensures
        spec_next_sync_stage(event) is Stopped <==> (event == SyncEvent::PlayerBuilt(false)
            || event == SyncEvent::Changed(false)),
{
}

/// The stage of a snapshot after one step for each outcome.
pub open spec fn snapshot_stage_after(
    payload: MprisSyncPayload,
    outcomes: Seq<bool>,
) -> SnapshotStage
    decreases outcomes.len(),
{
    if outcomes.len() == 0 {
        SnapshotStage::Status
    } else {
        spec_next_snapshot_stage(
            payload,
            snapshot_stage_after(payload, outcomes.drop_last()),
            outcomes.last(),
        )
    }
}

/// A snapshot is shown exactly where its status is set and its track, where it
/// has one, is published.
pub proof fn law_snapshot_is_shown_iff_status_and_track_are(
    payload: MprisSyncPayload,
    status_set: bool,
    position_set: bool,
    track_published: bool,
)
    ensures
        ({
            let end = snapshot_stage_after(
                payload,
                seq![status_set, position_set, track_published],
            );
            &&& end == SnapshotStage::Done <==> status_set && (payload.track is None
                || track_published)
            &&& end == SnapshotStage::Failed <==> end != SnapshotStage::Done
        }),
{
    let o = seq![status_set, position_set, track_published];
    reveal_with_fuel(snapshot_stage_after, 4);
    assert(o.drop_last() =~= seq![status_set, position_set]);
    assert(o.drop_last().drop_last() =~= seq![status_set]);
    assert(o.drop_last().drop_last().drop_last() =~= seq![]);
}

/// Where the status cannot be set, nothing else of the snapshot is shown.
pub proof fn law_nothing_follows_a_failed_status(payload: MprisSyncPayload, outcomes: Seq<bool>)
    requires
        outcomes.len() > 0,
        !outcomes[0],
    ensures
        spec_snapshot_action(&payload, snapshot_stage_after(payload, outcomes))
            is Nothing,
        snapshot_stage_after(payload, outcomes) == SnapshotStage::Failed,
    decreases outcomes.len(),
{
    if outcomes.len() > 1 {
        law_nothing_follows_a_failed_status(payload, outcomes.drop_last());
    } else {
        reveal_with_fuel(snapshot_stage_after, 2);
    }
}

/// After each event the session task does what is due: it waits once the player
/// is up, reads when there is another snapshot, shows exactly the snapshot that it
/// has read, and waits again where there was none and after showing one.
pub proof fn law_session_shows_what_it_reads(payload: MprisSyncPayload, shown: bool)
    ensures
        spec_next_sync_stage(SyncEvent::PlayerBuilt(true)) is AwaitChange,
        spec_next_sync_stage(SyncEvent::Changed(true)) is ReadSnapshot,
        spec_next_sync_stage(SyncEvent::Read(Some(payload))) matches SyncStage::Apply(read)
            && read == payload,
        spec_next_sync_stage(SyncEvent::Read(None)) is AwaitChange,
        spec_next_sync_stage(SyncEvent::Applied(shown)) is AwaitChange,
{
}

/// The actions show the snapshot itself: its playback state, its position to less
/// than one microsecond where a time can count it, and its track.
pub proof fn law_actions_show_the_snapshot(payload: MprisSyncPayload)
    ensures
        spec_snapshot_action(&payload, SnapshotStage::Status) matches PlayerAction::SetStatus(
            state,
        ) && state == payload.playback,
        spec_snapshot_action(&payload, SnapshotStage::Position) matches PlayerAction::SetPosition(
            time,
        ) && exists|micros: i64|
            time == #[trigger] time_of_micros(micros) && 0 <= micros && (micros * 1000
                <= payload.position.total_nanos() < (micros + 1) * 1000 || (micros == i64::MAX
                && payload.position.total_nanos() >= (i64::MAX + 1) * 1000)),
        payload.track matches Some(track) ==> (spec_snapshot_action(
            &payload,
            SnapshotStage::Track,
        ) matches PlayerAction::PublishTrack(published) && *published == track),
        payload.track is None ==> spec_snapshot_action(&payload, SnapshotStage::Track) is Nothing,
        spec_snapshot_action(&payload, SnapshotStage::Done) is Nothing,
        spec_snapshot_action(&payload, SnapshotStage::Failed) is Nothing,
{
    law_position_is_exact_or_the_largest(payload.position);
    assert(spec_snapshot_action(&payload, SnapshotStage::Position) == PlayerAction::SetPosition(
        time_of_micros(saturated_micros(payload.position)),
    ));
}

/// Two snapshots set the same status exactly where the player does the same in
/// both.
pub proof fn law_status_tells_playback_states_apart(a: MprisSyncPayload, b: MprisSyncPayload)
    ensures
        spec_snapshot_action(&a, SnapshotStage::Status) == spec_snapshot_action(
            &b,
            SnapshotStage::Status,
        ) <==> a.playback == b.playback,
{
}

/// A snapshot sets its status first; once that is done its position, and after
/// it, whatever is reported of the position, publishes its track where it has one.
pub proof fn law_actions_come_in_order(payload: MprisSyncPayload, reported: bool)
    ensures
        spec_snapshot_action(&payload, snapshot_stage_after(payload, seq![])) is SetStatus,
        spec_snapshot_action(&payload, snapshot_stage_after(payload, seq![true])) is SetPosition,
        spec_snapshot_action(
            &payload,
            snapshot_stage_after(payload, seq![true, reported]),
        ) is PublishTrack <==> payload.track is Some,
        spec_snapshot_action(
            &payload,
            snapshot_stage_after(payload, seq![true, reported]),
        ) is Nothing <==> payload.track is None,
{
    reveal_with_fuel(snapshot_stage_after, 3);
    assert(seq![true].drop_last() =~= Seq::<bool>::empty());
    assert(seq![true, reported].drop_last() =~= seq![true]);
}

/// A snapshot that is shown, or could not be, stays so.
pub proof fn law_shown_and_failed_snapshots_stay_so(payload: MprisSyncPayload, ok: bool)
    ensures
        spec_next_snapshot_stage(payload, SnapshotStage::Done, ok) == SnapshotStage::Done,
        spec_next_snapshot_stage(payload, SnapshotStage::Failed, ok) == SnapshotStage::Failed,
{
}

} // verus!
