//! The command mailbox: what the controller asks of the game.

use vstd::prelude::*;

verus! {

/// Image of the command mailbox, one flag per cell.
///
/// The first four flags are continuous: the controller restates them on every
/// tick and the game only reads them. The others are one-shot triggers: the
/// controller raises them and the game lowers them as it takes them.
#[derive(Clone, Copy, Debug, PartialEq, Eq)]
pub struct SharedCommands {
    /// Rotate the pyramid left (continuous).
    pub rotate_left: bool,
    /// Rotate the pyramid right (continuous).
    pub rotate_right: bool,
    /// Move the camera in (continuous).
    pub zoom_in: bool,
    /// Move the camera out (continuous).
    pub zoom_out: bool,
    /// Trigger: check the alignment.
    pub check_alignment: bool,
    /// Trigger: start over with the configuration now in the game structure.
    pub reset: bool,
    /// Trigger: cover the screen.
    pub blank_screen: bool,
    /// Trigger: pause rendering.
    pub stop_rendering: bool,
    /// Trigger: resume rendering.
    pub resume_rendering: bool,
}

/// One tick's worth of controller input.
#[derive(Clone, Copy, Debug, PartialEq, Eq)]
pub struct CommandInput {
    pub rotate_left: bool,
    pub rotate_right: bool,
    pub zoom_in: bool,
    pub zoom_out: bool,
    pub check: bool,
    pub reset: bool,
    pub blank_screen: bool,
    pub stop_rendering: bool,
    pub resume_rendering: bool,
}

/// What the game takes from the mailbox in one tick: the continuous flags as
/// they stand, and each trigger as it stood before the game lowered it.
#[derive(Clone, Copy, Debug, PartialEq, Eq)]
pub struct PolledCommands {
    pub rotate_left: bool,
    pub rotate_right: bool,
    pub zoom_in: bool,
    pub zoom_out: bool,
    pub check_alignment: bool,
    pub blank_screen: bool,
    pub stop_rendering: bool,
    pub resume_rendering: bool,
}

impl SharedCommands {
    /// The mailbox with every flag lowered.
    pub open spec fn spec_new() -> SharedCommands {
        SharedCommands {
            rotate_left: false,
            rotate_right: false,
            zoom_in: false,
            zoom_out: false,
            check_alignment: false,
            reset: false,
            blank_screen: false,
            stop_rendering: false,
            resume_rendering: false,
        }
    }

    /// The mailbox after the movement flags and the alignment trigger are lowered.
    pub open spec fn spec_reset_triggers(self) -> SharedCommands {
        SharedCommands {
            rotate_left: false,
            rotate_right: false,
            zoom_in: false,
            zoom_out: false,
            check_alignment: false,
            ..self
        }
    }

    /// The mailbox after the controller has written `input`: continuous flags
    /// take the input's value, triggers are raised where the input asks for it
    /// and otherwise left as they are.
    pub open spec fn spec_write_commands(self, input: CommandInput) -> SharedCommands {
        SharedCommands {
            rotate_left: input.rotate_left,
            rotate_right: input.rotate_right,
            zoom_in: input.zoom_in,
            zoom_out: input.zoom_out,
            check_alignment: self.check_alignment || input.check,
            reset: self.reset || input.reset,
            blank_screen: self.blank_screen || input.blank_screen,
            stop_rendering: self.stop_rendering || input.stop_rendering,
            resume_rendering: self.resume_rendering || input.resume_rendering,
        }
    }

    /// What one poll of the game hands out.
    pub open spec fn spec_polled(self) -> PolledCommands {
        PolledCommands {
            rotate_left: self.rotate_left,
            rotate_right: self.rotate_right,
            zoom_in: self.zoom_in,
            zoom_out: self.zoom_out,
            check_alignment: self.check_alignment,
            blank_screen: self.blank_screen,
            stop_rendering: self.stop_rendering,
            resume_rendering: self.resume_rendering,
        }
    }

    /// The mailbox after one poll of the game: the four triggers that a poll
    /// takes are lowered, the rest stands.
    pub open spec fn spec_after_poll(self) -> SharedCommands {
        SharedCommands {
            check_alignment: false,
            blank_screen: false,
            stop_rendering: false,
            resume_rendering: false,
            ..self
        }
    }

    /// A mailbox with every flag lowered.
    pub fn new() -> (commands: SharedCommands)
        ensures
            commands == SharedCommands::spec_new(),
    {
        SharedCommands {
            rotate_left: false,
            rotate_right: false,
            zoom_in: false,
            zoom_out: false,
            check_alignment: false,
            reset: false,
            blank_screen: false,
            stop_rendering: false,
            resume_rendering: false,
        }
    }

    /// Lowers the four movement flags and the alignment trigger; the other
    /// triggers stand.
    pub fn reset_triggers(&mut self)
        ensures
            *final(self) == old(self).spec_reset_triggers(),
    {
        self.rotate_left = false;
        self.rotate_right = false;
        self.zoom_in = false;
        self.zoom_out = false;
        self.check_alignment = false;
    }

    /// The controller's write of one tick.
    pub fn write_commands(&mut self, input: &CommandInput)
        ensures
            *final(self) == old(self).spec_write_commands(*input),
    {
        self.rotate_left = input.rotate_left;
        self.rotate_right = input.rotate_right;
        self.zoom_in = input.zoom_in;
        self.zoom_out = input.zoom_out;
        if input.check {
            self.check_alignment = true;
        }
        if input.reset {
            self.reset = true;
        }
        if input.blank_screen {
            self.blank_screen = true;
        }
        if input.stop_rendering {
            self.stop_rendering = true;
        }
        if input.resume_rendering {
            self.resume_rendering = true;
        }
    }

    /// The game's poll of one tick: reads the continuous flags, and takes each
    /// of the four triggers, lowering it.
    pub fn poll_commands(&mut self) -> (polled: PolledCommands)
        ensures
            polled == old(self).spec_polled(),
            *final(self) == old(self).spec_after_poll(),
    {
        let polled = PolledCommands {
            rotate_left: self.rotate_left,
            rotate_right: self.rotate_right,
            zoom_in: self.zoom_in,
            zoom_out: self.zoom_out,
            check_alignment: self.check_alignment,
            blank_screen: self.blank_screen,
            stop_rendering: self.stop_rendering,
            resume_rendering: self.resume_rendering,
        };
        self.check_alignment = false;
        self.blank_screen = false;
        self.stop_rendering = false;
        self.resume_rendering = false;
        polled
    }
}

impl Default for SharedCommands {
    fn default() -> (commands: SharedCommands)
        ensures
            commands == SharedCommands::spec_new(),
    {
        SharedCommands::new()
    }
}

/// A trigger is seen once: a poll that follows a poll, with no write between
/// them, finds every trigger that a poll takes lowered.
pub proof fn lemma_trigger_seen_once(commands: SharedCommands)
    ensures
        !commands.spec_after_poll().spec_polled().check_alignment,
        !commands.spec_after_poll().spec_polled().blank_screen,
        !commands.spec_after_poll().spec_polled().stop_rendering,
        !commands.spec_after_poll().spec_polled().resume_rendering,
        commands.spec_after_poll().spec_after_poll() == commands.spec_after_poll(),
{
}

/// A raised trigger reaches the first poll after the write, whatever stood in
/// the mailbox, and that poll alone.
pub proof fn lemma_trigger_delivered(commands: SharedCommands, input: CommandInput)
    ensures
        input.check ==> commands.spec_write_commands(input).spec_polled().check_alignment,
        input.blank_screen ==> commands.spec_write_commands(input).spec_polled().blank_screen,
        input.stop_rendering ==> commands.spec_write_commands(input).spec_polled().stop_rendering,
        input.resume_rendering ==> commands.spec_write_commands(
            input,
        ).spec_polled().resume_rendering,
        !commands.spec_write_commands(input).spec_after_poll().spec_polled().check_alignment,
{
}

/// A continuous flag does not stick: each poll sees what the last write said,
/// whatever earlier writes said and however many polls came between.
pub proof fn lemma_continuous_follows_last_write(
    commands: SharedCommands,
    earlier: CommandInput,
    last: CommandInput,
)
    ensures
        ({
            let polled = commands.spec_write_commands(earlier).spec_after_poll().spec_write_commands(
                last,
            ).spec_polled();
            &&& polled.rotate_left == last.rotate_left
            &&& polled.rotate_right == last.rotate_right
            &&& polled.zoom_in == last.zoom_in
            &&& polled.zoom_out == last.zoom_out
        }),
        ({
            let polled = commands.spec_write_commands(earlier).spec_write_commands(last).spec_polled();
            &&& polled.rotate_left == last.rotate_left
            &&& polled.rotate_right == last.rotate_right
            &&& polled.zoom_in == last.zoom_in
            &&& polled.zoom_out == last.zoom_out
        }),
        commands.spec_after_poll().spec_polled().rotate_left == commands.rotate_left,
{
}

} // verus!
