//! Media keys and session-bus methods as control events.

use crate::payload::MprisControlEvent;
use crate::time::{micros_of_time, time_of_micros};
use mpris_server::Time;
use std::collections::VecDeque;
use vstd::prelude::*;

verus! {

/// A command that the desktop gives: by a media key, or by a method of the
/// session bus.
#[derive(Debug, Clone, Copy)]
pub enum PlayerCommand {
    Play,
    Pause,
    PlayPause,
    Stop,
    Next,
    Previous,
    /// Move by the given time, backward where it is negative.
    Seek(Time),
    /// Move to the given time.
    SetPosition(Time),
}

/// The event by which the player learns of a command.
pub open spec fn spec_control_event(command: PlayerCommand) -> MprisControlEvent {
    match command {
        PlayerCommand::Play => MprisControlEvent::Play,
        PlayerCommand::Pause => MprisControlEvent::Pause,
        PlayerCommand::PlayPause => MprisControlEvent::PlayPause,
        PlayerCommand::Stop => MprisControlEvent::Stop,
        PlayerCommand::Next => MprisControlEvent::Next,
        PlayerCommand::Previous => MprisControlEvent::Previous,
        PlayerCommand::Seek(offset) => MprisControlEvent::SeekRelativeMicros(
            micros_of_time(offset),
        ),
        PlayerCommand::SetPosition(position) => MprisControlEvent::SeekAbsoluteMicros(
            micros_of_time(position),
        ),
    }
}

/// The event by which the player learns of a command.
pub fn control_event(command: PlayerCommand) -> (r: MprisControlEvent)
    ensures
        r == spec_control_event(command),
        command matches PlayerCommand::Seek(offset) ==> (
        r matches MprisControlEvent::SeekRelativeMicros(micros) && offset == time_of_micros(
            micros,
        )),
        command matches PlayerCommand::SetPosition(position) ==> (
        r matches MprisControlEvent::SeekAbsoluteMicros(micros) && position == time_of_micros(
            micros,
        )),
{
    match command {
        PlayerCommand::Play => MprisControlEvent::Play,
        PlayerCommand::Pause => MprisControlEvent::Pause,
        PlayerCommand::PlayPause => MprisControlEvent::PlayPause,
        PlayerCommand::Stop => MprisControlEvent::Stop,
        PlayerCommand::Next => MprisControlEvent::Next,
        PlayerCommand::Previous => MprisControlEvent::Previous,
        PlayerCommand::Seek(offset) => MprisControlEvent::SeekRelativeMicros(offset.as_micros()),
        PlayerCommand::SetPosition(position) => MprisControlEvent::SeekAbsoluteMicros(
            position.as_micros(),
        ),
    }
}

/// The control events that the player has not taken yet, oldest first.
#[derive(Debug)]
pub struct ControlQueue {
    events: VecDeque<MprisControlEvent>,
}

impl View for ControlQueue {
    type V = Seq<MprisControlEvent>;

    closed spec fn view(&self) -> Seq<MprisControlEvent> {
        self.events@
    }
}

impl ControlQueue {
    /// A queue without events.
    pub fn new() -> (r: ControlQueue)
        ensures
            r@ == Seq::<MprisControlEvent>::empty(),
    {
        ControlQueue { events: VecDeque::new() }
    }

    /// Puts the event of a command behind the others.
    pub fn post(&mut self, command: PlayerCommand)
        ensures
            final(self)@ == old(self)@.push(spec_control_event(command)),
    {
        self.events.push_back(control_event(command));
    }

    /// Takes all events, oldest first.
    pub fn drain_control_events(&mut self) -> (r: Vec<MprisControlEvent>)
        ensures
            r@ == old(self)@,
            final(self)@ == Seq::<MprisControlEvent>::empty(),
    {
        let mut out: Vec<MprisControlEvent> = Vec::new();
        loop
            invariant
                out@ + self.events@ == old(self)@,
            ensures
                out@ == old(self)@,
                self.events@.len() == 0,
            decreases self.events@.len(),
        {
            let ghost before = self.events@;
            match self.events.pop_front() {
                Some(event) => {
                    let ghost taken = out@;
                    out.push(event);
                    assert(out@ + self.events@ =~= taken + before);
                },
                None => {
                    assert(out@ =~= out@ + before);
                    break;
                },
            }
        }
        assert(self@ =~= Seq::<MprisControlEvent>::empty());
        out
    }
}

/// The queue after one post for each command.
pub open spec fn queue_after(
    before: Seq<MprisControlEvent>,
    commands: Seq<PlayerCommand>,
) -> Seq<MprisControlEvent>
    decreases commands.len(),
{
    if commands.len() == 0 {
        before
    } else {
        queue_after(before, commands.drop_last()).push(spec_control_event(commands.last()))
    }
}

/// Every command is taken as exactly one event, in the order in which the
/// commands were given, behind the events that were waiting.
pub proof fn law_commands_arrive_once_and_in_order(
    before: Seq<MprisControlEvent>,
    commands: Seq<PlayerCommand>,
)
    ensures
        queue_after(before, commands) == before + commands.map_values(
            |command: PlayerCommand| spec_control_event(command),
        ),
    decreases commands.len(),
{
    let f = |command: PlayerCommand| spec_control_event(command);
    if commands.len() == 0 {
        assert(before + commands.map_values(f) =~= before);
    } else {
        law_commands_arrive_once_and_in_order(before, commands.drop_last());
        assert(before + commands.map_values(f) =~= (before + commands.drop_last().map_values(
            f,
        )).push(f(commands.last())));
    }
}

/// Every command arrives as what it asks for: a seek as a relative seek by its
/// offset, a set position as an absolute seek to its position, and each plain
/// command as the event of its name.
pub proof fn law_commands_arrive_as_what_they_ask_for(time: Time)
    requires
        exists|micros: i64| time == #[trigger] time_of_micros(micros),
    ensures
        spec_control_event(PlayerCommand::Seek(time)) matches MprisControlEvent::SeekRelativeMicros(
            micros,
        ) && time == time_of_micros(micros),
        spec_control_event(PlayerCommand::SetPosition(
            time,
        )) matches MprisControlEvent::SeekAbsoluteMicros(micros) && time == time_of_micros(micros),
        spec_control_event(PlayerCommand::Play) is Play,
        spec_control_event(PlayerCommand::Pause) is Pause,
        spec_control_event(PlayerCommand::PlayPause) is PlayPause,
        spec_control_event(PlayerCommand::Stop) is Stop,
        spec_control_event(PlayerCommand::Next) is Next,
        spec_control_event(PlayerCommand::Previous) is Previous,
{
}

/// Where two times are made of different numbers of microseconds, two seeks by
/// them arrive as different events, and so do two set positions; a seek never
/// arrives as the event of a set position.
pub proof fn law_different_seeks_arrive_as_different_events(a: Time, b: Time)
    requires
        exists|micros: i64| a == #[trigger] time_of_micros(micros),
        exists|micros: i64| b == #[trigger] time_of_micros(micros),
    ensures
        a != b ==> spec_control_event(PlayerCommand::Seek(a)) != spec_control_event(
            PlayerCommand::Seek(b),
        ),
        a != b ==> spec_control_event(PlayerCommand::SetPosition(a)) != spec_control_event(
            PlayerCommand::SetPosition(b),
        ),
        spec_control_event(PlayerCommand::Seek(a)) != spec_control_event(
            PlayerCommand::SetPosition(b),
        ),
{
}

} // verus!
