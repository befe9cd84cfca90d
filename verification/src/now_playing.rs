//! The Now Playing information of macOS.

use crate::payload::{MprisSyncPayload, PlaybackRuntimeState};
use crate::span::TimeSpan;
use vstd::prelude::*;

verus! {

/// How far playback is, and how fast it goes: at rate 1 while the player plays,
/// and at rate 0 else.
#[derive(Debug, Clone, Copy, PartialEq, Eq, Structural)]
pub struct PlaybackProgress {
    pub elapsed: TimeSpan,
    pub rate: u32,
}

/// What is shown of a track.
#[derive(Debug)]
pub struct NowPlayingInfo {
    pub title: String,
    pub artist: String,
    pub album: String,
    /// Zero where the length is unknown.
    pub duration_ms: u64,
    pub progress: PlaybackProgress,
}

/// What a snapshot does to the information that is shown.
#[derive(Debug)]
pub enum InfoUpdate {
    /// Show this in its place.
    Publish(NowPlayingInfo),
    /// Show nothing.
    Clear,
    /// Go on with what is shown, at another progress.
    Refresh(PlaybackProgress),
}

/// What is to be done for a snapshot.
#[derive(Debug)]
pub struct NowPlayingPlan {
    /// Whether this process may be the Now Playing application; not touched
    /// where absent.
    pub eligibility: Option<bool>,
    pub info: InfoUpdate,
    pub state: PlaybackRuntimeState,
}

/// What is to be done about the information, once it is known whether there is
/// any.
#[derive(Debug)]
pub enum InfoChange<'a> {
    /// Show this in place of what is shown.
    Publish(&'a NowPlayingInfo),
    /// Show nothing.
    Clear,
    /// Change the progress of what is shown, and nothing else.
    Merge(PlaybackProgress),
    /// Leave everything as it is.
    Keep,
}

/// The progress of a snapshot.
pub open spec fn spec_progress(payload: MprisSyncPayload) -> PlaybackProgress {
    PlaybackProgress {
        elapsed: payload.position,
        rate: if payload.playback == PlaybackRuntimeState::Playing { 1 } else { 0 },
    }
}

/// Eligibility ends when the player is stopped, and begins with a track.
pub open spec fn spec_eligibility(payload: MprisSyncPayload) -> Option<bool> {
    if payload.playback == PlaybackRuntimeState::Stopped {
        Some(false)
    } else if payload.track is Some {
        Some(true)
    } else {
        None
    }
}

/// Whether an update does what the snapshot asks for.
pub open spec fn info_update_fits(payload: MprisSyncPayload, update: InfoUpdate) -> bool {
    match payload.track {
        Some(track) => update matches InfoUpdate::Publish(info) && {
            &&& info.title@ == track.title@
            &&& info.artist@ == track.artist@
            &&& info.album@ == track.album@
            &&& info.duration_ms == if track.duration_ms > 0 { track.duration_ms as int } else { 0 }
            &&& info.progress == spec_progress(payload)
        },
        None => if payload.playback == PlaybackRuntimeState::Stopped {
            update is Clear
        } else {
            update == InfoUpdate::Refresh(spec_progress(payload))
        },
    }
}

/// What is to be done for a snapshot.
pub fn apply_snapshot(payload: MprisSyncPayload) -> (r: NowPlayingPlan)
    ensures
        r.eligibility == spec_eligibility(payload),
        info_update_fits(payload, r.info),
        r.state == payload.playback,
        r.info matches InfoUpdate::Publish(info) ==> info.progress.elapsed == payload.position,
        r.info matches InfoUpdate::Refresh(progress) ==> progress.elapsed == payload.position,
{
    let stopped: bool = payload.playback == PlaybackRuntimeState::Stopped;
    let progress = PlaybackProgress {
        elapsed: payload.position,
        rate: if payload.playback == PlaybackRuntimeState::Playing {
            1
        } else {
            0
        },
    };
    let eligibility: Option<bool> = if stopped {
        Some(false)
    } else if payload.track.is_some() {
        Some(true)
    } else {
        None
    };
    let info = match payload.track {
        Some(track) => InfoUpdate::Publish(
            NowPlayingInfo {
                title: track.title,
                artist: track.artist,
                album: track.album,
                duration_ms: if track.duration_ms > 0 {
                    track.duration_ms as u64
                } else {
                    0
                },
                progress,
            },
        ),
        None => if stopped {
            InfoUpdate::Clear
        } else {
            InfoUpdate::Refresh(progress)
        },
    };
    NowPlayingPlan { eligibility, info, state: payload.playback }
}

/// How far a plan is carried out.
#[derive(Debug, Clone, Copy, PartialEq, Eq, Structural)]
pub enum PlanStage {
    Eligibility,
    Info,
    State,
    Done,
}

/// One step of a plan.
#[derive(Debug)]
pub enum PlanAction<'a> {
    SetEligibility(bool),
    UpdateInfo(&'a InfoUpdate),
    SetState(PlaybackRuntimeState),
    Nothing,
}

/// The stage at which a plan begins: that of the information where the
/// eligibility is not touched.
pub open spec fn spec_first_plan_stage(plan: NowPlayingPlan) -> PlanStage {
    if plan.eligibility is Some {
        PlanStage::Eligibility
    } else {
        PlanStage::Info
    }
}

/// The stage at which a plan begins.
pub fn first_plan_stage(plan: &NowPlayingPlan) -> (r: PlanStage)
    ensures
        r == spec_first_plan_stage(*plan),
{
    if plan.eligibility.is_some() {
        PlanStage::Eligibility
    } else {
        PlanStage::Info
    }
}

/// The step of a plan at a stage.
pub open spec fn spec_plan_action<'a>(plan: &'a NowPlayingPlan, stage: PlanStage) -> PlanAction<
    'a,
> {
    match stage {
        PlanStage::Eligibility => match plan.eligibility {
            Some(enabled) => PlanAction::SetEligibility(enabled),
            None => PlanAction::Nothing,
        },
        PlanStage::Info => PlanAction::UpdateInfo(&plan.info),
        PlanStage::State => PlanAction::SetState(plan.state),
        PlanStage::Done => PlanAction::Nothing,
    }
}

/// The step of a plan at a stage.
pub fn plan_action<'a>(plan: &'a NowPlayingPlan, stage: PlanStage) -> (r: PlanAction<'a>)
    ensures
        r == spec_plan_action(plan, stage),
{
    match stage {
        PlanStage::Eligibility => match plan.eligibility {
            Some(enabled) => PlanAction::SetEligibility(enabled),
            None => PlanAction::Nothing,
        },
        PlanStage::Info => PlanAction::UpdateInfo(&plan.info),
        PlanStage::State => PlanAction::SetState(plan.state),
        PlanStage::Done => PlanAction::Nothing,
    }
}

/// The stage after `stage`: the state is set last.
pub open spec fn spec_next_plan_stage(stage: PlanStage) -> PlanStage {
    match stage {
        PlanStage::Eligibility => PlanStage::Info,
        PlanStage::Info => PlanStage::State,
        PlanStage::State => PlanStage::Done,
        PlanStage::Done => PlanStage::Done,
    }
}

/// The stage after `stage`.
pub fn next_plan_stage(stage: PlanStage) -> (r: PlanStage)
    ensures
        r == spec_next_plan_stage(stage),
{
    match stage {
        PlanStage::Eligibility => PlanStage::Info,
        PlanStage::Info => PlanStage::State,
        PlanStage::State => PlanStage::Done,
        PlanStage::Done => PlanStage::Done,
    }
}

/// The stage of a plan after `steps` steps.
pub open spec fn plan_stage_after(plan: NowPlayingPlan, steps: nat) -> PlanStage
    decreases steps,
{
    if steps == 0 {
        spec_first_plan_stage(plan)
    } else {
        spec_next_plan_stage(plan_stage_after(plan, (steps - 1) as nat))
    }
}

/// The steps of a plan, in order: the eligibility where it is touched, the
/// information, the playback state.
pub open spec fn plan_steps<'a>(plan: &'a NowPlayingPlan) -> Seq<PlanAction<'a>> {
    let rest = seq![PlanAction::UpdateInfo(&plan.info), PlanAction::SetState(plan.state)];
    match plan.eligibility {
        Some(enabled) => seq![PlanAction::SetEligibility(enabled)] + rest,
        None => rest,
    }
}

/// Each step of a plan comes once, the eligibility first where it is touched,
/// the information after it, and the playback state last; nothing follows.
pub proof fn law_plan_steps_come_once_and_in_order(plan: NowPlayingPlan, step: nat)
    ensures
        spec_plan_action(&plan, plan_stage_after(plan, step)) == if step < plan_steps(&plan).len() {
            plan_steps(&plan)[step as int]
        } else {
            PlanAction::Nothing
        },
{
    reveal_with_fuel(plan_stage_after, 4);
    if step > 3 {
        lemma_plan_is_done(plan, step);
    }
}

proof fn lemma_plan_is_done(plan: NowPlayingPlan, steps: nat)
    requires
        steps >= 3,
    ensures
        plan_stage_after(plan, steps) == PlanStage::Done,
    decreases steps,
{
    reveal_with_fuel(plan_stage_after, 4);
    if steps > 3 {
        lemma_plan_is_done(plan, (steps - 1) as nat);
    }
}

/// Whether an update needs to know if any information is shown.
pub fn asks_for_shown_info(update: &InfoUpdate) -> (r: bool)
    ensures
        r == (update is Refresh),
{
    matches!(update, InfoUpdate::Refresh(_))
}

/// What is to be done about the information: a refresh without anything to
/// refresh does nothing.
pub open spec fn spec_info_change<'a>(update: &'a InfoUpdate, shown: bool) -> InfoChange<'a> {
    match *update {
        InfoUpdate::Publish(info) => InfoChange::Publish(&info),
        InfoUpdate::Clear => InfoChange::Clear,
        InfoUpdate::Refresh(progress) => if shown {
            InfoChange::Merge(progress)
        } else {
            InfoChange::Keep
        },
    }
}

/// What is to be done about the information, where `shown` says whether there is
/// any.
pub fn info_change<'a>(update: &'a InfoUpdate, shown: bool) -> (r: InfoChange<'a>)
    ensures
        r == spec_info_change(update, shown),
{
    match update {
        InfoUpdate::Publish(info) => InfoChange::Publish(info),
        InfoUpdate::Clear => InfoChange::Clear,
        InfoUpdate::Refresh(progress) => if shown {
            InfoChange::Merge(*progress)
        } else {
            InfoChange::Keep
        },
    }
}

/// What is shown after a change.
pub open spec fn shown_after(
    shown: Option<NowPlayingInfo>,
    change: InfoChange<'_>,
) -> Option<NowPlayingInfo> {
    match change {
        InfoChange::Publish(info) => Some(*info),
        InfoChange::Clear => None,
        InfoChange::Merge(progress) => match shown {
            Some(info) => Some(NowPlayingInfo { progress, ..info }),
            None => None,
        },
        InfoChange::Keep => shown,
    }
}

/// What is shown after a snapshot has the snapshot's progress; after a snapshot
/// with a track, it is that track's, and a snapshot of a stopped player without
/// a track leaves nothing shown.
pub proof fn law_shown_information_follows_the_snapshot(
    shown: Option<NowPlayingInfo>,
    payload: MprisSyncPayload,
    update: InfoUpdate,
)
    requires
        info_update_fits(payload, update),
    ensures
        ({
            let after = shown_after(shown, spec_info_change(&update, shown is Some));
            &&& after matches Some(info) ==> info.progress == spec_progress(payload)
            &&& after matches Some(info) ==> info.progress.elapsed == payload.position
            &&& payload.track matches Some(track) ==> (after matches Some(info) && info.title@
                == track.title@ && info.artist@ == track.artist@ && info.album@ == track.album@
                && (track.duration_ms > 0 ==> info.duration_ms == track.duration_ms) && (
            track.duration_ms <= 0 ==> info.duration_ms == 0))
            &&& payload.track is None && payload.playback == PlaybackRuntimeState::Stopped
                ==> after is None
        }),
{
}

/// A snapshot without a track, of a player that is not stopped, neither brings
/// information up nor takes it away, and changes nothing of it but the progress.
pub proof fn law_refresh_keeps_the_track(
    shown: Option<NowPlayingInfo>,
    payload: MprisSyncPayload,
    update: InfoUpdate,
)
    requires
        info_update_fits(payload, update),
        payload.track is None,
        payload.playback != PlaybackRuntimeState::Stopped,
    ensures
        ({
            let after = shown_after(shown, spec_info_change(&update, shown is Some));
            &&& after is Some <==> shown is Some
            &&& after matches Some(info) ==> {
                &&& info.title == shown->0.title
                &&& info.artist == shown->0.artist
                &&& info.album == shown->0.album
                &&& info.duration_ms == shown->0.duration_ms
            }
        }),
{
}

/// The search for the function that sets the eligibility, which the system need
/// not have.
#[derive(Debug, Clone, Copy, PartialEq, Eq, Structural)]
pub enum SetterLookup {
    /// Open the framework that holds it.
    OpenFramework,
    /// Find it in the framework.
    FindSymbol,
    /// It is there.
    Ready,
    /// It is not there.
    Missing,
}

/// The search after a step that has found what it looked for where `found`
/// holds.
pub open spec fn spec_next_lookup(lookup: SetterLookup, found: bool) -> SetterLookup {
    match lookup {
        SetterLookup::OpenFramework => if found {
            SetterLookup::FindSymbol
        } else {
            SetterLookup::Missing
        },
        SetterLookup::FindSymbol => if found { SetterLookup::Ready } else { SetterLookup::Missing },
        SetterLookup::Ready => SetterLookup::Ready,
        SetterLookup::Missing => SetterLookup::Missing,
    }
}

/// The search after a step that has found what it looked for where `found`
/// holds.
pub fn next_lookup(lookup: SetterLookup, found: bool) -> (r: SetterLookup)
    ensures
        r == spec_next_lookup(lookup, found),
{
    match lookup {
        SetterLookup::OpenFramework => if found {
            SetterLookup::FindSymbol
        } else {
            SetterLookup::Missing
        },
        SetterLookup::FindSymbol => if found {
            SetterLookup::Ready
        } else {
            SetterLookup::Missing
        },
        SetterLookup::Ready => SetterLookup::Ready,
        SetterLookup::Missing => SetterLookup::Missing,
    }
}

/// The argument to call the setter with: 1 to begin eligibility and 0 to end it;
/// none where there is no setter.
pub fn set_now_playing_eligibility(lookup: SetterLookup, enabled: bool) -> (r: Option<u8>)
    ensures
        r == if lookup == SetterLookup::Ready {
            Some(if enabled {
                1u8
            } else {
                0u8
            })
        } else {
            None::<u8>
        },
{
    match lookup {
        SetterLookup::Ready => Some(
            if enabled {
                1
            } else {
                0
            },
        ),
        _ => None,
    }
}

/// Whether the setter has refused: it answers 0.
pub fn eligibility_rejected(accepted: u8) -> (r: bool)
    ensures
        r == (accepted == 0),
{
    accepted == 0
}

/// The setter is called exactly where both the framework and its symbol were
/// found.
pub proof fn law_setter_is_ready_iff_all_was_found(framework_found: bool, symbol_found: bool)
    ensures
        spec_next_lookup(
            spec_next_lookup(SetterLookup::OpenFramework, framework_found),
            symbol_found,
        ) == SetterLookup::Ready <==> framework_found && symbol_found,
{
}

/// The progress of a snapshot is its position itself, at rate 1 exactly where the
/// player plays, and at rate 0 else.
pub proof fn law_progress_is_that_of_the_snapshot(payload: MprisSyncPayload)
    ensures
        spec_progress(payload).elapsed.secs == payload.position.secs,
        spec_progress(payload).elapsed.nanos == payload.position.nanos,
        spec_progress(payload).elapsed.total_nanos() == payload.position.total_nanos(),
        spec_progress(payload).rate == 1 <==> payload.playback is Playing,
        spec_progress(payload).rate == 0 <==> !(payload.playback is Playing),
{
}

/// Eligibility ends exactly where the player is stopped, begins exactly with a
/// track of a player that is not, and is not touched else.
pub proof fn law_eligibility_follows_playback_and_track(payload: MprisSyncPayload)
    ensures
        spec_eligibility(payload) == Some(false) <==> payload.playback is Stopped,
        spec_eligibility(payload) == Some(true) <==> !(payload.playback is Stopped)
            && payload.track is Some,
        spec_eligibility(payload) is None <==> !(payload.playback is Stopped)
            && payload.track is None,
{
}

/// An update that fits a snapshot shows the snapshot's own track, length, position
/// and rate; it publishes exactly where there is a track, clears exactly where a
/// stopped player has none, and refreshes else.
pub proof fn law_fitting_update_shows_the_snapshot(payload: MprisSyncPayload, update: InfoUpdate)
    requires
        info_update_fits(payload, update),
    ensures
        update is Publish <==> payload.track is Some,
        update is Clear <==> payload.track is None && payload.playback is Stopped,
        update is Refresh <==> payload.track is None && !(payload.playback is Stopped),
        update matches InfoUpdate::Publish(info) ==> {
            let track = payload.track->0;
            &&& info.title@ == track.title@
            &&& info.artist@ == track.artist@
            &&& info.album@ == track.album@
            &&& track.duration_ms > 0 ==> info.duration_ms == track.duration_ms
            &&& track.duration_ms <= 0 ==> info.duration_ms == 0
            &&& info.progress.elapsed == payload.position
            &&& info.progress.rate == 1 <==> payload.playback is Playing
            &&& info.progress.rate == 0 <==> !(payload.playback is Playing)
        },
        update matches InfoUpdate::Refresh(progress) ==> {
            &&& progress.elapsed == payload.position
            &&& progress.rate == 1 <==> payload.playback is Playing
            &&& progress.rate == 0 <==> !(payload.playback is Playing)
        },
{
}

/// A change does what its update says: it publishes the same information, clears,
/// or changes the progress to the same one; only a refresh without anything shown
/// is left undone.
pub proof fn law_change_does_what_the_update_says(update: InfoUpdate, shown: bool)
    ensures
        update matches InfoUpdate::Publish(info) ==> (spec_info_change(
            &update,
            shown,
        ) matches InfoChange::Publish(published) && *published == info),
        update is Clear ==> spec_info_change(&update, shown) is Clear,
        update matches InfoUpdate::Refresh(progress) ==> (shown ==> (spec_info_change(
            &update,
            shown,
        ) matches InfoChange::Merge(merged) && merged == progress)),
        spec_info_change(&update, shown) is Keep <==> update is Refresh && !shown,
{
}

/// The steps of a plan set its own eligibility, information and state, one after
/// the other.
pub proof fn law_plan_steps_set_what_the_plan_says(plan: NowPlayingPlan)
    ensures
        plan.eligibility matches Some(enabled) ==> {
            &&& spec_plan_action(&plan, plan_stage_after(plan, 0)) == PlanAction::SetEligibility(
                enabled,
            )
            &&& spec_plan_action(&plan, plan_stage_after(plan, 1)) == PlanAction::UpdateInfo(
                &plan.info,
            )
            &&& spec_plan_action(&plan, plan_stage_after(plan, 2)) == PlanAction::SetState(
                plan.state,
            )
            &&& spec_plan_action(&plan, plan_stage_after(plan, 3)) is Nothing
        },
        plan.eligibility is None ==> {
            &&& spec_plan_action(&plan, plan_stage_after(plan, 0)) == PlanAction::UpdateInfo(
                &plan.info,
            )
            &&& spec_plan_action(&plan, plan_stage_after(plan, 1)) == PlanAction::SetState(
                plan.state,
            )
            &&& spec_plan_action(&plan, plan_stage_after(plan, 2)) is Nothing
        },
{
    reveal_with_fuel(plan_stage_after, 4);
}

/// The symbol is looked for exactly where the framework was found, and a search
/// that has ended stays as it has ended.
pub proof fn law_search_goes_on_only_where_something_was_found(found: bool)
    ensures
        spec_next_lookup(SetterLookup::OpenFramework, found) == SetterLookup::FindSymbol <==> found,
        spec_next_lookup(SetterLookup::OpenFramework, found) == SetterLookup::Missing <==> !found,
        spec_next_lookup(SetterLookup::FindSymbol, found) == SetterLookup::Missing <==> !found,
        spec_next_lookup(SetterLookup::Ready, found) == SetterLookup::Ready,
        spec_next_lookup(SetterLookup::Missing, found) == SetterLookup::Missing,
{
}

} // verus!
