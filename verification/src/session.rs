//! Whole sessions: what the game sees, whatever the two sides do and in
//! whatever order.
//!
//! A session is the sequence of what the two sides do to a region from its
//! creation on. What the game sees on a tick depends on the history in a
//! simple way: a trigger is seen raised exactly when the controller has
//! asked for it since the game's last tick, and the configuration that
//! comes with a reset is the one that was requested last.

use vstd::prelude::*;
use crate::cells::Flag;
use crate::commands::CommandInput;
use crate::controller::{lemma_write_commands_plan, spec_write_commands_plan};
use crate::game::{
    lemma_poll_commands_plan, lemma_publish_telemetry_plan, spec_decode_polled_commands,
    spec_poll_commands_plan, spec_publish_telemetry_plan,
};
use crate::game_structure::{GameConfig, SharedGameStructure, Telemetry};
use crate::handshake::{
    lemma_request_reset_plan, lemma_reset_poll_steps, spec_look, spec_request_reset_plan, ResetPoll,
};
use crate::memory::{GamePoll, SharedMemory};

verus! {

/// One thing that one side does to the region.
#[derive(Clone, Copy, Debug, PartialEq, Eq)]
pub enum Event {
    /// The controller writes one tick's commands.
    Commands(CommandInput),
    /// The controller asks for a reset with a configuration.
    ResetRequest(GameConfig),
    /// The game publishes its telemetry.
    Publish(Telemetry),
    /// The game polls the commands and looks at the handshake.
    GameTick,
}

/// The flags that the controller raises and the game lowers.
#[derive(Clone, Copy, Debug, PartialEq, Eq, Structural)]
pub enum Trigger {
    CheckAlignment,
    Reset,
    BlankScreen,
    StopRendering,
    ResumeRendering,
}

impl Trigger {
    /// The flag of the trigger.
    pub open spec fn spec_flag(self) -> Flag {
        match self {
            Trigger::CheckAlignment => Flag::CheckAlignment,
            Trigger::Reset => Flag::Reset,
            Trigger::BlankScreen => Flag::BlankScreen,
            Trigger::StopRendering => Flag::StopRendering,
            Trigger::ResumeRendering => Flag::ResumeRendering,
        }
    }

    /// The flag of the trigger.
    pub fn flag(self) -> (flag: Flag)
        ensures
            flag == self.spec_flag(),
    {
        match self {
            Trigger::CheckAlignment => Flag::CheckAlignment,
            Trigger::Reset => Flag::Reset,
            Trigger::BlankScreen => Flag::BlankScreen,
            Trigger::StopRendering => Flag::StopRendering,
            Trigger::ResumeRendering => Flag::ResumeRendering,
        }
    }
}

impl Event {
    /// Whether the event raises the trigger.
    pub open spec fn spec_asks(self, trigger: Trigger) -> bool {
        match self {
            Event::Commands(input) => match trigger {
                Trigger::CheckAlignment => input.check,
                Trigger::Reset => input.reset,
                Trigger::BlankScreen => input.blank_screen,
                Trigger::StopRendering => input.stop_rendering,
                Trigger::ResumeRendering => input.resume_rendering,
            },
            Event::ResetRequest(_) => trigger == Trigger::Reset,
            Event::Publish(_) => false,
            Event::GameTick => false,
        }
    }
}

impl SharedMemory {
    /// The region after an event.
    pub open spec fn spec_after_event(self, event: Event) -> SharedMemory {
        match event {
            Event::Commands(input) => SharedMemory {
                commands: self.commands.spec_write_commands(input),
                ..self
            },
            Event::ResetRequest(config) => self.spec_request_reset(config),
            Event::Publish(telemetry) => SharedMemory {
                game_structure: self.game_structure.spec_publish_telemetry(telemetry),
                ..self
            },
            Event::GameTick => self.spec_after_game_tick(),
        }
    }

    /// What the game sees on a tick.
    pub open spec fn spec_seen(self) -> GamePoll {
        GamePoll { commands: self.commands.spec_polled(), reset: self.spec_polled_reset() }
    }

    /// Performs one event on the image and hands out what the game saw, if
    /// the event was a tick of the game.
    pub fn apply_event(&mut self, event: &Event) -> (seen: Option<GamePoll>)
        ensures
            *final(self) == old(self).spec_after_event(*event),
            seen == (if *event is GameTick {
                Some(old(self).spec_seen())
            } else {
                None
            }),
    {
        match event {
            Event::Commands(input) => {
                self.commands.write_commands(input);
                None
            },
            Event::ResetRequest(config) => {
                self.request_reset(config);
                None
            },
            Event::Publish(telemetry) => {
                self.game_structure.publish_telemetry(telemetry);
                None
            },
            Event::GameTick => Some(self.poll_game_tick()),
        }
    }
}

/// The region after the first `n` events of a session.
pub open spec fn spec_session(events: Seq<Event>, n: nat) -> SharedMemory
    decreases n,
{
    if n == 0 {
        SharedMemory::spec_new()
    } else {
        spec_session(events, (n - 1) as nat).spec_after_event(events[n - 1])
    }
}

/// What the game saw on its ticks among the first `n` events, in order.
pub open spec fn spec_sightings(events: Seq<Event>, n: nat) -> Seq<GamePoll>
    decreases n,
{
    if n == 0 {
        Seq::empty()
    } else {
        let before = spec_sightings(events, (n - 1) as nat);
        if events[n - 1] is GameTick {
            before.push(spec_session(events, (n - 1) as nat).spec_seen())
        } else {
            before
        }
    }
}

/// Performs a session on a fresh image and hands out the region it ends
/// with and what the game saw on each of its ticks.
pub fn replay_session(events: &Vec<Event>) -> (r: (SharedMemory, Vec<GamePoll>))
    ensures
        r.0 == spec_session(events@, events@.len()),
        r.1@ == spec_sightings(events@, events@.len()),
{
    let mut memory = SharedMemory::new();
    let mut sightings: Vec<GamePoll> = Vec::new();
    let mut k: usize = 0;
    while k < events.len()
        invariant
            k <= events@.len(),
            memory == spec_session(events@, k as nat),
            sightings@ == spec_sightings(events@, k as nat),
        decreases events@.len() - k,
    {
        match memory.apply_event(&events[k]) {
            Some(seen) => {
                sightings.push(seen);
            },
            None => {},
        }
        k += 1;
    }
    (memory, sightings)
}

/// No tick of the game lies strictly between event `i` and event `n`.
pub open spec fn spec_no_tick_between(events: Seq<Event>, i: int, n: int) -> bool {
    forall|j: int| i < j < n ==> !(#[trigger] events[j] is GameTick)
}

/// The controller has asked for the trigger since the game's last tick:
/// among the first `n` events one raises it, and no tick of the game comes
/// after that one.
pub open spec fn spec_asked_since_tick(events: Seq<Event>, n: int, trigger: Trigger) -> bool {
    exists|i: int|
        0 <= i < n && (#[trigger] events[i]).spec_asks(trigger) && spec_no_tick_between(
            events,
            i,
            n,
        )
}

/// The configuration that was requested last among the first `n` events;
/// that of a fresh region, where none was requested.
pub open spec fn spec_last_config(events: Seq<Event>, n: nat) -> GameConfig
    decreases n,
{
    if n == 0 {
        SharedGameStructure::spec_new().spec_config()
    } else {
        match events[n - 1] {
            Event::ResetRequest(config) => config,
            _ => spec_last_config(events, (n - 1) as nat),
        }
    }
}

/// The commands that were written last among the first `n` events, if any
/// were.
pub open spec fn spec_last_input(events: Seq<Event>, n: nat) -> Option<CommandInput>
    decreases n,
{
    if n == 0 {
        None
    } else {
        match events[n - 1] {
            Event::Commands(input) => Some(input),
            _ => spec_last_input(events, (n - 1) as nat),
        }
    }
}

/// The telemetry that was published last among the first `n` events, if
/// any was.
pub open spec fn spec_last_published(events: Seq<Event>, n: nat) -> Option<Telemetry>
    decreases n,
{
    if n == 0 {
        None
    } else {
        match events[n - 1] {
            Event::Publish(telemetry) => Some(telemetry),
            _ => spec_last_published(events, (n - 1) as nat),
        }
    }
}

/// A trigger is up exactly while it is owed. At every point of every
/// session, a trigger is raised in the region if and only if the
/// controller has asked for it since the game's last tick.
pub proof fn lemma_trigger_up_while_owed(events: Seq<Event>, n: nat, trigger: Trigger)
    requires
        n <= events.len(),
    ensures
        spec_session(events, n).spec_flag(trigger.spec_flag()) == spec_asked_since_tick(
            events,
            n as int,
            trigger,
        ),
    decreases n,
{
    if n == 0 {
    } else {
        let before = spec_session(events, (n - 1) as nat);
        let event = events[n - 1];
        let now = spec_session(events, n);
        lemma_trigger_up_while_owed(events, (n - 1) as nat, trigger);
        assert(now == before.spec_after_event(event));
        if event is GameTick {
            assert(!now.spec_flag(trigger.spec_flag()));
            if spec_asked_since_tick(events, n as int, trigger) {
                let i = choose|i: int|
                    0 <= i < n && (#[trigger] events[i]).spec_asks(trigger) && spec_no_tick_between(
                        events,
                        i,
                        n as int,
                    );
                assert(i < n - 1);
                assert(events[n - 1] is GameTick);
            }
        } else if event.spec_asks(trigger) {
            assert(now.spec_flag(trigger.spec_flag()));
            assert(spec_no_tick_between(events, n - 1, n as int));
        } else {
            assert(now.spec_flag(trigger.spec_flag()) == before.spec_flag(trigger.spec_flag()));
            if spec_asked_since_tick(events, n - 1, trigger) {
                let i = choose|i: int|
                    0 <= i < n - 1 && (#[trigger] events[i]).spec_asks(trigger)
                        && spec_no_tick_between(events, i, n - 1);
                assert(spec_no_tick_between(events, i, n as int));
            }
            if spec_asked_since_tick(events, n as int, trigger) {
                let i = choose|i: int|
                    0 <= i < n && (#[trigger] events[i]).spec_asks(trigger) && spec_no_tick_between(
                        events,
                        i,
                        n as int,
                    );
                assert(i < n - 1);
                assert(spec_no_tick_between(events, i, n - 1));
            }
        }
    }
}

/// The region holds the latest of everything. At every point of every
/// session, the configuration in the region is the one that was requested
/// last, the movement flags are those of the last command write, and the
/// telemetry is the one that was published last.
pub proof fn lemma_region_holds_latest(events: Seq<Event>, n: nat)
    requires
        n <= events.len(),
    ensures
        spec_session(events, n).game_structure.spec_config() == spec_last_config(events, n),
        match spec_last_input(events, n) {
            Some(input) => {
                let commands = spec_session(events, n).commands;
                &&& commands.rotate_left == input.rotate_left
                &&& commands.rotate_right == input.rotate_right
                &&& commands.zoom_in == input.zoom_in
                &&& commands.zoom_out == input.zoom_out
            },
            None => {
                let commands = spec_session(events, n).commands;
                !commands.rotate_left && !commands.rotate_right && !commands.zoom_in
                    && !commands.zoom_out
            },
        },
        match spec_last_published(events, n) {
            Some(telemetry) => spec_session(events, n).game_structure
                == spec_session(events, n).game_structure.spec_publish_telemetry(telemetry),
            None => spec_session(events, n).game_structure.spec_telemetry()
                == SharedGameStructure::spec_new().spec_telemetry(),
        },
    decreases n,
{
    if n > 0 {
        lemma_region_holds_latest(events, (n - 1) as nat);
    }
}

/// What the game sees on a tick, in any session. When event `n` is a tick
/// of the game, the game sees each trigger raised exactly if the
/// controller has asked for it since the tick before, and with a raised
/// `reset` it gets the configuration that was requested last. After the
/// tick no trigger is owed any more.
pub proof fn lemma_tick_sees_what_is_owed(events: Seq<Event>, n: nat, trigger: Trigger)
    requires
        n < events.len(),
        events[n as int] is GameTick,
    ensures
        ({
            let seen = spec_session(events, n).spec_seen();
            &&& seen.commands.check_alignment == spec_asked_since_tick(
                events,
                n as int,
                Trigger::CheckAlignment,
            )
            &&& seen.commands.blank_screen == spec_asked_since_tick(
                events,
                n as int,
                Trigger::BlankScreen,
            )
            &&& seen.commands.stop_rendering == spec_asked_since_tick(
                events,
                n as int,
                Trigger::StopRendering,
            )
            &&& seen.commands.resume_rendering == spec_asked_since_tick(
                events,
                n as int,
                Trigger::ResumeRendering,
            )
            &&& seen.reset == (if spec_asked_since_tick(events, n as int, Trigger::Reset) {
                Some(spec_last_config(events, n))
            } else {
                None
            })
        }),
        !spec_asked_since_tick(events, n as int + 1, trigger),
{
    lemma_trigger_up_while_owed(events, n, Trigger::CheckAlignment);
    lemma_trigger_up_while_owed(events, n, Trigger::BlankScreen);
    lemma_trigger_up_while_owed(events, n, Trigger::StopRendering);
    lemma_trigger_up_while_owed(events, n, Trigger::ResumeRendering);
    lemma_trigger_up_while_owed(events, n, Trigger::Reset);
    lemma_region_holds_latest(events, n);
    lemma_trigger_up_while_owed(events, n + 1, trigger);
    let before = spec_session(events, n);
    assert(spec_session(events, n + 1) == before.spec_after_event(events[n as int]));
}

/// The region after the operations of an event are performed on it, one
/// after the other.
pub open spec fn spec_after_operations(memory: SharedMemory, event: Event) -> SharedMemory {
    match event {
        Event::Commands(input) => memory.spec_run_all(spec_write_commands_plan(input)),
        Event::ResetRequest(config) => memory.spec_run_all(spec_request_reset_plan(config)),
        Event::Publish(telemetry) => memory.spec_run_all(spec_publish_telemetry_plan(telemetry)),
        Event::GameTick => spec_look(memory.spec_run_all(spec_poll_commands_plan())).0,
    }
}

/// Events are their operations. On a region that nobody else touches in
/// between, the operations of each event leave the region as the event is
/// defined to leave it, and the operations of a tick of the game yield
/// what the game is defined to see.
pub proof fn lemma_event_is_its_operations(memory: SharedMemory, event: Event)
    ensures
        spec_after_operations(memory, event) == memory.spec_after_event(event),
        event is GameTick ==> {
            let polled = memory.spec_run_all(spec_poll_commands_plan());
            &&& spec_decode_polled_commands(memory.spec_replies(spec_poll_commands_plan()))
                == Some(memory.spec_seen().commands)
            &&& spec_look(polled).1 == (ResetPoll::Done { config: memory.spec_seen().reset })
        },
{
    match event {
        Event::Commands(input) => {
            lemma_write_commands_plan(memory, input);
        },
        Event::ResetRequest(config) => {
            lemma_request_reset_plan(memory, config);
        },
        Event::Publish(telemetry) => {
            lemma_publish_telemetry_plan(memory, telemetry);
        },
        Event::GameTick => {
            lemma_poll_commands_plan(memory);
            lemma_reset_poll_steps(memory.spec_run_all(spec_poll_commands_plan()));
        },
    }
}

} // verus!
