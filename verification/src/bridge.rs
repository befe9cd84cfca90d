//! The bridge between the player and the session task.

use crate::control::{spec_control_event, ControlQueue, PlayerCommand};
use crate::payload::{same_snapshot, MprisControlEvent, MprisSyncPayload};
use crate::session::{next_sync_stage, SyncEvent, SyncStage};
use see::unsync::{Guard, Receiver, Sender};
use vstd::prelude::*;

verus! {

/// `see::unsync::Sender`: the writing end of a channel that holds one value,
/// the latest.
#[verifier::external_type_specification]
#[verifier::external_body]
#[verifier::reject_recursive_types(T)]
pub struct ExSender<T>(see::unsync::Sender<T>);

/// `see::unsync::Receiver`: a reading end of such a channel.
#[verifier::external_type_specification]
#[verifier::external_body]
#[verifier::reject_recursive_types(T)]
pub struct ExReceiver<T>(see::unsync::Receiver<T>);

/// `see::unsync::Guard`: one read of such a channel, which keeps the value in
/// place.
#[verifier::external_type_specification]
#[verifier::external_body]
#[verifier::reject_recursive_types(T)]
pub struct ExGuard<'a, T>(see::unsync::Guard<'a, T>);

/// The value that a channel holds, by its only sender: receivers do not write.
pub uninterp spec fn channel_value(
    tx: see::unsync::Sender<Option<MprisSyncPayload>>,
) -> Option<MprisSyncPayload>;

/// Whether a receiver reads the channel of a sender, and has read nothing that
/// was put there after the sender was as it is.
pub uninterp spec fn reads_from(
    rx: see::unsync::Receiver<Option<MprisSyncPayload>>,
    tx: see::unsync::Sender<Option<MprisSyncPayload>>,
) -> bool;

/// Whether the value of the channel was put there after the receiver last looked.
pub uninterp spec fn unseen(
    rx: see::unsync::Receiver<Option<MprisSyncPayload>>,
    tx: see::unsync::Sender<Option<MprisSyncPayload>>,
) -> bool;

/// The value that a read has found.
pub uninterp spec fn guarded_value(
    guard: see::unsync::Guard<'_, Option<MprisSyncPayload>>,
) -> Option<MprisSyncPayload>;

/// `see::unsync::channel` makes a channel that holds the given value, with one
/// sender and one receiver, to which the value is not new.
#[verifier::external_body]
fn open_channel(init: Option<MprisSyncPayload>) -> (r: (
    Sender<Option<MprisSyncPayload>>,
    Receiver<Option<MprisSyncPayload>>,
))
    ensures
        channel_value(r.0) == init,
        reads_from(r.1, r.0),
        !unseen(r.1, r.0),
{
    see::unsync::channel(init)
}

/// `Sender::send_replace` puts a value in place of the one that the channel
/// holds, which it returns. The receivers stay those of this channel, and the
/// value is new to each of them. It needs that no guard of the channel is alive:
/// guards come from `borrow_and_update` alone, which asks for the sender of the
/// channel that it reads, and keeps it borrowed as long as the guard lives.
#[verifier::external_body]
fn send_replace(
    tx: &mut Sender<Option<MprisSyncPayload>>,
    value: Option<MprisSyncPayload>,
) -> (r: Option<MprisSyncPayload>)
    ensures
        channel_value(*final(tx)) == value,
        r == channel_value(*old(tx)),
        forall|rx: Receiver<Option<MprisSyncPayload>>|
            reads_from(rx, *old(tx)) ==> #[trigger] reads_from(rx, *final(tx)),
        forall|rx: Receiver<Option<MprisSyncPayload>>|
            reads_from(rx, *old(tx)) ==> #[trigger] unseen(rx, *final(tx)),
{
    tx.send_replace(value)
}

/// `Receiver::borrow_and_update` reads what the channel holds and marks it as
/// seen. `tx` is the sender of that channel; the guard borrows it too, so that
/// nothing is sent while the guard lives.
#[verifier::external_body]
fn borrow_and_update<'a>(
    tx: &'a Sender<Option<MprisSyncPayload>>,
    rx: &'a mut Receiver<Option<MprisSyncPayload>>,
) -> (r: Guard<'a, Option<MprisSyncPayload>>)
    requires
        reads_from(*old(rx), *tx),
    ensures
        guarded_value(r) == channel_value(*tx),
        reads_from(*final(rx), *tx),
        !unseen(*final(rx), *tx),
{
    let _ = tx;
    rx.borrow_and_update()
}

/// `Guard::as_ref` gives the value that the read has found.
#[verifier::external_body]
fn guarded<'a>(guard: &'a Guard<'_, Option<MprisSyncPayload>>) -> (r: &'a Option<MprisSyncPayload>)
    ensures
        *r == guarded_value(*guard),
{
    guard.as_ref()
}

/// `Receiver::has_changed` says whether the value is new to the receiver. It
/// fails only where the channel has no sender left; here `tx` is one.
#[verifier::external_body]
fn has_changed(
    tx: &Sender<Option<MprisSyncPayload>>,
    rx: &Receiver<Option<MprisSyncPayload>>,
) -> (r: bool)
    requires
        reads_from(*rx, *tx),
    ensures
        r == unseen(*rx, *tx),
{
    let _ = tx;
    matches!(rx.has_changed(), Ok(true))
}

/// Whether the session task does with a published snapshot what is due: it
/// shows it, and waits on where there is none.
pub open spec fn read_fits(published: Option<MprisSyncPayload>, stage: SyncStage) -> bool {
    match published {
        Some(payload) => stage matches SyncStage::Apply(read) && same_snapshot(payload, read),
        None => stage is AwaitChange,
    }
}

/// The bridge: the player puts snapshots in and takes what the desktop asks
/// for; the session task reads the snapshots and puts the desktop's commands in.
#[derive(Debug)]
pub struct MprisBridge {
    tx: Sender<Option<MprisSyncPayload>>,
    rx: Receiver<Option<MprisSyncPayload>>,
    controls: ControlQueue,
}

impl MprisBridge {
    /// The two ends are those of one channel.
    pub closed spec fn wf(&self) -> bool {
        reads_from(self.rx, self.tx)
    }

    /// The snapshot that the session task finds when it next looks.
    pub closed spec fn published(&self) -> Option<MprisSyncPayload> {
        channel_value(self.tx)
    }

    /// Whether there was an update since the session task last looked.
    pub closed spec fn has_news(&self) -> bool {
        unseen(self.rx, self.tx)
    }

    /// The events that the player has not taken yet, oldest first.
    pub closed spec fn pending(&self) -> Seq<MprisControlEvent> {
        self.controls@
    }

    /// A bridge without a snapshot and without events.
    pub fn new() -> (r: MprisBridge)
        ensures
            r.wf(),
            r.published() is None,
            !r.has_news(),
            r.pending() == Seq::<MprisControlEvent>::empty(),
    {
        let (tx, rx) = open_channel(None);
        MprisBridge { tx, rx, controls: ControlQueue::new() }
    }

    /// Puts a snapshot in place of the one before, read or not.
    pub fn update(&mut self, payload: MprisSyncPayload)
        requires
            old(self).wf(),
        ensures
            final(self).wf(),
            final(self).published() == Some(payload),
            final(self).has_news(),
            final(self).pending() == old(self).pending(),
    {
        let _ = send_replace(&mut self.tx, Some(payload));
    }

    /// Whether there was an update since the session task last looked.
    pub fn has_update(&self) -> (r: bool)
        requires
            self.wf(),
        ensures
            r == self.has_news(),
    {
        has_changed(&self.tx, &self.rx)
    }

    /// Reads the snapshot, and says what the session task does with it.
    pub fn read_snapshot(&mut self) -> (r: SyncStage)
        requires
            old(self).wf(),
        ensures
            final(self).wf(),
            read_fits(old(self).published(), r),
            final(self).published() == old(self).published(),
            !final(self).has_news(),
            final(self).pending() == old(self).pending(),
    {
        let read = {
            let guard = borrow_and_update(&self.tx, &mut self.rx);
            match guarded(&guard) {
                Some(payload) => Some(payload.clone()),
                None => None,
            }
        };
        next_sync_stage(SyncEvent::Read(read))
    }

    /// Puts the event of a command behind the others.
    pub fn post(&mut self, command: PlayerCommand)
        ensures
            final(self).wf() == old(self).wf(),
            final(self).pending() == old(self).pending().push(spec_control_event(command)),
            final(self).published() == old(self).published(),
            final(self).has_news() == old(self).has_news(),
    {
        self.controls.post(command);
    }

    /// Takes all events, oldest first.
    pub fn drain_control_events(&mut self) -> (r: Vec<MprisControlEvent>)
        ensures
            final(self).wf() == old(self).wf(),
            r@ == old(self).pending(),
            final(self).pending() == Seq::<MprisControlEvent>::empty(),
            final(self).published() == old(self).published(),
            final(self).has_news() == old(self).has_news(),
    {
        self.controls.drain_control_events()
    }
}

/// The session task shows the latest update, whatever was put in before it, and
/// shows nothing before the first. `states` are the states of a bridge from its
/// making on, with one update between each two.
pub proof fn law_latest_update_is_shown(
    states: Seq<MprisBridge>,
    updates: Seq<MprisSyncPayload>,
    stage: SyncStage,
)
    requires
        states.len() == updates.len() + 1,
        states[0].published() is None,
        forall|i: int|
            0 <= i < updates.len() ==> states[i + 1].published() == Some(#[trigger] updates[i]),
        read_fits(states.last().published(), stage),
    ensures
        updates.len() == 0 ==> stage is AwaitChange,
        updates.len() > 0 ==> (stage matches SyncStage::Apply(read) && same_snapshot(
            updates.last(),
            read,
        )),
{
    if updates.len() > 0 {
        let last = updates[updates.len() - 1];
        assert(states.last().published() == Some(last));
    }
}

/// A read shows what is published: its playback state, its position and whether it
/// has a track, and nothing where nothing is published.
pub proof fn law_read_shows_what_is_published(
    published: Option<MprisSyncPayload>,
    stage: SyncStage,
)
    requires
        read_fits(published, stage),
    ensures
        published is None <==> stage is AwaitChange,
        published matches Some(payload) ==> (stage matches SyncStage::Apply(read) && read.playback
            == payload.playback && read.position == payload.position && (read.track is Some
            <==> payload.track is Some)),
{
}

} // verus!
