//! The game's loop: what to do with one tick's poll, and what to publish
//! at its end.

use vstd::prelude::*;
use crate::bits::{encode_elapsed_secs, spec_encode_elapsed_secs};
use crate::commands::PolledCommands;
use crate::game_structure::{GameConfig, Phase, Telemetry};
use crate::memory::GamePoll;

verus! {

/// What the game does on one tick with what it polled.
#[derive(Clone, Copy, Debug, PartialEq, Eq)]
pub struct TickActions {
    /// Steps to rotate the pyramid by: one to the right, one to the left
    /// (negative), or none.
    pub rotation_steps: i8,
    /// Steps to move the camera by: one out, one in (negative), or none.
    pub zoom_steps: i8,
    /// Whether to check the alignment.
    pub check_alignment: bool,
    /// Whether to cover the screen.
    pub blank_screen: bool,
    /// Whether rendering is paused from now on.
    pub rendering_paused: bool,
    /// The configuration to start over with, if a reset was pending.
    pub reset: Option<GameConfig>,
}

/// The steps that two opposite keys ask for: one step for the key that is
/// down, none where both or neither are.
pub open spec fn spec_steps(back: bool, forth: bool) -> i8 {
    if forth && !back {
        1i8
    } else if back && !forth {
        -1i8
    } else {
        0i8
    }
}

/// Whether rendering is paused after a poll: a stop pauses it, a resume
/// ends the pause, and of both in one poll the resume stands.
pub open spec fn spec_paused_after(paused: bool, polled: PolledCommands) -> bool {
    if polled.resume_rendering {
        false
    } else if polled.stop_rendering {
        true
    } else {
        paused
    }
}

/// What the game does with one tick's poll, given whether rendering was
/// paused before it.
pub open spec fn spec_tick_actions(poll: GamePoll, rendering_paused: bool) -> TickActions {
    TickActions {
        rotation_steps: spec_steps(poll.commands.rotate_left, poll.commands.rotate_right),
        zoom_steps: spec_steps(poll.commands.zoom_in, poll.commands.zoom_out),
        check_alignment: poll.commands.check_alignment,
        blank_screen: poll.commands.blank_screen,
        rendering_paused: spec_paused_after(rendering_paused, poll.commands),
        reset: poll.reset,
    }
}

/// Decides what the game does with one tick's poll.
pub fn tick_actions(poll: &GamePoll, rendering_paused: bool) -> (actions: TickActions)
    ensures
        actions == spec_tick_actions(*poll, rendering_paused),
{
    let mut rotation_steps: i8 = 0;
    if poll.commands.rotate_left {
        rotation_steps = rotation_steps - 1;
    }
    if poll.commands.rotate_right {
        rotation_steps = rotation_steps + 1;
    }
    let mut zoom_steps: i8 = 0;
    if poll.commands.zoom_in {
        zoom_steps = zoom_steps - 1;
    }
    if poll.commands.zoom_out {
        zoom_steps = zoom_steps + 1;
    }
    let mut paused = rendering_paused;
    if poll.commands.stop_rendering {
        paused = true;
    }
    if poll.commands.resume_rendering {
        paused = false;
    }
    TickActions {
        rotation_steps,
        zoom_steps,
        check_alignment: poll.commands.check_alignment,
        blank_screen: poll.commands.blank_screen,
        rendering_paused: paused,
        reset: poll.reset,
    }
}

/// The phases that the game goes through. Starting over is a phase of its
/// own inside the game; to the controller it is still play.
#[derive(Clone, Copy, Debug, PartialEq, Eq, Structural)]
pub enum GamePhase {
    Playing,
    Won,
    Resetting,
}

impl GamePhase {
    /// The phase as the controller is told it.
    pub open spec fn spec_phase(self) -> Phase {
        match self {
            GamePhase::Playing => Phase::Playing,
            GamePhase::Resetting => Phase::Playing,
            GamePhase::Won => Phase::Won,
        }
    }

    /// The phase as the controller is told it.
    pub fn phase(self) -> (phase: Phase)
        ensures
            phase == self.spec_phase(),
    {
        match self {
            GamePhase::Playing => Phase::Playing,
            GamePhase::Resetting => Phase::Playing,
            GamePhase::Won => Phase::Won,
        }
    }
}

/// The state of the game at the end of a tick, as the game itself holds it.
#[derive(Clone, Copy, Debug, PartialEq, Eq)]
pub struct GameSnapshot {
    pub phase: GamePhase,
    pub frame_number: u64,
    /// Seconds since the game started (pattern), once it has started.
    pub elapsed_secs: Option<u32>,
    /// Radius of the camera's orbit (pattern).
    pub camera_radius: u32,
    /// Camera position (patterns).
    pub camera_x: u32,
    pub camera_y: u32,
    pub camera_z: u32,
    /// Yaw of the pyramid in radians (pattern).
    pub pyramid_yaw: u32,
    pub attempts: u32,
    /// Cosine of the last measured alignment (pattern), if one was measured.
    pub alignment: Option<u32>,
    pub is_animating: bool,
    /// Seconds it took to win (pattern), once won.
    pub win_time: Option<u32>,
}

impl GameSnapshot {
    /// The telemetry of this state: the phase by its code, won exactly in
    /// the phase of that name, a time that has not started as zero, all
    /// else as it is.
    pub open spec fn spec_telemetry(self) -> Telemetry {
        Telemetry {
            phase: self.phase.spec_phase().spec_code(),
            frame_number: self.frame_number,
            elapsed_secs: spec_encode_elapsed_secs(self.elapsed_secs),
            camera_radius: self.camera_radius,
            camera_x: self.camera_x,
            camera_y: self.camera_y,
            camera_z: self.camera_z,
            pyramid_yaw: self.pyramid_yaw,
            attempts: self.attempts,
            alignment: self.alignment,
            is_animating: self.is_animating,
            has_won: self.phase == GamePhase::Won,
            win_time: self.win_time,
        }
    }

    /// Makes the telemetry of this state.
    pub fn telemetry(&self) -> (telemetry: Telemetry)
        ensures
            telemetry == self.spec_telemetry(),
            telemetry.has_won <==> telemetry.phase == Phase::Won.spec_code(),
    {
        let phase = self.phase.phase();
        let has_won = match phase {
            Phase::Won => true,
            Phase::Playing => false,
        };
        Telemetry {
            phase: phase.code(),
            frame_number: self.frame_number,
            elapsed_secs: encode_elapsed_secs(self.elapsed_secs),
            camera_radius: self.camera_radius,
            camera_x: self.camera_x,
            camera_y: self.camera_y,
            camera_z: self.camera_z,
            pyramid_yaw: self.pyramid_yaw,
            attempts: self.attempts,
            alignment: self.alignment,
            is_animating: self.is_animating,
            has_won,
            win_time: self.win_time,
        }
    }
}

/// Counts the frames of a session.
#[derive(Clone, Copy, Debug, PartialEq, Eq)]
pub struct FrameCounter {
    /// Number of frames so far.
    pub frames: u64,
}

impl FrameCounter {
    /// A counter at zero.
    pub fn new() -> (counter: FrameCounter)
        ensures
            counter.frames == 0,
    {
        FrameCounter { frames: 0 }
    }

    /// Counts one frame. The count never goes down; at the largest count
    /// it stays.
    pub fn advance(&mut self)
        ensures
            final(self).frames == (if old(self).frames < u64::MAX {
                (old(self).frames + 1) as u64
            } else {
                old(self).frames
            }),
            final(self).frames >= old(self).frames,
    {
        if self.frames < u64::MAX {
            self.frames = self.frames + 1;
        }
    }

    /// Starts the count over, as a new session does.
    pub fn reset(&mut self)
        ensures
            final(self).frames == 0,
    {
        self.frames = 0;
    }
}

/// What the game remembers from tick to tick about the region: the frames
/// of the session and whether rendering is paused.
#[derive(Clone, Copy, Debug, PartialEq, Eq)]
pub struct GameTickState {
    /// The frames of the session.
    pub frames: FrameCounter,
    /// Whether rendering is paused.
    pub rendering_paused: bool,
}

impl GameTickState {
    /// The state of a game that has not ticked yet.
    pub fn new() -> (state: GameTickState)
        ensures
            state.frames.frames == 0,
            !state.rendering_paused,
    {
        GameTickState { frames: FrameCounter::new(), rendering_paused: false }
    }

    /// Start of a tick: decides what to do with what was polled, remembers
    /// whether rendering is paused from now on, and starts the frame count
    /// over where the game starts over.
    pub fn begin_tick(&mut self, poll: &GamePoll) -> (actions: TickActions)
        ensures
            actions == spec_tick_actions(*poll, old(self).rendering_paused),
            final(self).rendering_paused == actions.rendering_paused,
            final(self).frames.frames == (if poll.reset is Some {
                0
            } else {
                old(self).frames.frames
            }),
    {
        let actions = tick_actions(poll, self.rendering_paused);
        self.rendering_paused = actions.rendering_paused;
        match poll.reset {
            Some(_) => {
                self.frames.reset();
            },
            None => {},
        }
        actions
    }

    /// End of a tick: counts the frame and makes the telemetry of the
    /// game's state at that frame. The frame number that is published is
    /// the count after this frame, whatever the state itself names.
    pub fn end_tick(&mut self, snapshot: &GameSnapshot) -> (telemetry: Telemetry)
        ensures
            final(self).rendering_paused == old(self).rendering_paused,
            final(self).frames.frames == (if old(self).frames.frames < u64::MAX {
                (old(self).frames.frames + 1) as u64
            } else {
                old(self).frames.frames
            }),
            telemetry == (GameSnapshot {
                frame_number: final(self).frames.frames,
                ..*snapshot
            }).spec_telemetry(),
    {
        self.frames.advance();
        let counted = GameSnapshot {
            phase: snapshot.phase,
            frame_number: self.frames.frames,
            elapsed_secs: snapshot.elapsed_secs,
            camera_radius: snapshot.camera_radius,
            camera_x: snapshot.camera_x,
            camera_y: snapshot.camera_y,
            camera_z: snapshot.camera_z,
            pyramid_yaw: snapshot.pyramid_yaw,
            attempts: snapshot.attempts,
            alignment: snapshot.alignment,
            is_animating: snapshot.is_animating,
            win_time: snapshot.win_time,
        };
        counted.telemetry()
    }
}

} // verus!
