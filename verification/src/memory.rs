//! The region as a whole, and the reset handshake that spans its two parts.
//!
//! The controller writes a configuration into the game structure and then
//! raises `reset` in the command mailbox. The game, seeing `reset` raised,
//! reads the configuration and lowers `reset`. Nothing is queued: the region
//! holds the latest value of each cell and no more.

use vstd::prelude::*;
use crate::commands::{CommandInput, PolledCommands, SharedCommands};
use crate::game_structure::{GameConfig, SharedGameStructure};

verus! {

/// Image of the region: the command mailbox, then the game structure.
#[derive(Clone, Copy, Debug, PartialEq, Eq)]
pub struct SharedMemory {
    pub commands: SharedCommands,
    pub game_structure: SharedGameStructure,
}

/// What the game takes from the region in one tick.
#[derive(Clone, Copy, Debug, PartialEq, Eq)]
pub struct GamePoll {
    /// The commands of this tick.
    pub commands: PolledCommands,
    /// The configuration to start over with, if a reset was pending.
    pub reset: Option<GameConfig>,
}

impl SharedMemory {
    /// The region as its creator leaves it.
    pub open spec fn spec_new() -> SharedMemory {
        SharedMemory {
            commands: SharedCommands::spec_new(),
            game_structure: SharedGameStructure::spec_new(),
        }
    }

    /// The region after the controller has asked for a reset with `config`.
    pub open spec fn spec_request_reset(self, config: GameConfig) -> SharedMemory {
        SharedMemory {
            commands: SharedCommands { reset: true, ..self.commands },
            game_structure: self.game_structure.spec_write_config(config),
        }
    }

    /// The region with `reset` lowered and all else as it was.
    pub open spec fn spec_clear_reset(self) -> SharedMemory {
        SharedMemory { commands: SharedCommands { reset: false, ..self.commands }, ..self }
    }

    /// What the game's look at the handshake hands out: the configuration in
    /// the region if `reset` is raised, nothing otherwise.
    pub open spec fn spec_polled_reset(self) -> Option<GameConfig> {
        if self.commands.reset {
            Some(self.game_structure.spec_config())
        } else {
            None
        }
    }

    /// The region after one tick's poll of the game.
    pub open spec fn spec_after_game_tick(self) -> SharedMemory {
        SharedMemory { commands: self.commands.spec_after_poll(), ..self }.spec_clear_reset()
    }

    /// A region with every cell zero.
    pub fn new() -> (memory: SharedMemory)
        ensures
            memory == SharedMemory::spec_new(),
    {
        SharedMemory { commands: SharedCommands::new(), game_structure: SharedGameStructure::new() }
    }

    /// The controller's half of the handshake: the configuration first, then
    /// the flag.
    pub fn request_reset(&mut self, config: &GameConfig)
        ensures
            *final(self) == old(self).spec_request_reset(*config),
    {
        self.game_structure.write_config(config);
        self.commands.reset = true;
    }

    /// Whether a reset is waiting for the game.
    pub fn reset_pending(&self) -> (pending: bool)
        ensures
            pending == self.commands.reset,
    {
        self.commands.reset
    }

    /// Lowers `reset`. On a region whose `reset` is already lowered this
    /// changes nothing.
    pub fn clear_reset(&mut self)
        ensures
            *final(self) == old(self).spec_clear_reset(),
            !old(self).commands.reset ==> *final(self) == *old(self),
    {
        self.commands.reset = false;
    }

    /// The game's half of the handshake. With `reset` raised, hands out the
    /// configuration and lowers `reset`; with `reset` lowered, hands out
    /// nothing and leaves the region as it is.
    pub fn poll_reset(&mut self) -> (config: Option<GameConfig>)
        ensures
            config == old(self).spec_polled_reset(),
            config is Some <==> old(self).commands.reset,
            *final(self) == old(self).spec_clear_reset(),
            config is None ==> *final(self) == *old(self),
    {
        if self.commands.reset {
            let config = self.game_structure.read_config();
            self.commands.reset = false;
            Some(config)
        } else {
            None
        }
    }

    /// One tick of the game's reading: the commands, then the handshake.
    pub fn poll_game_tick(&mut self) -> (poll: GamePoll)
        ensures
            poll.commands == old(self).commands.spec_polled(),
            poll.reset == old(self).spec_polled_reset(),
            *final(self) == old(self).spec_after_game_tick(),
    {
        let commands = self.commands.poll_commands();
        let reset = self.poll_reset();
        GamePoll { commands, reset }
    }
}

impl Default for SharedMemory {
    fn default() -> (memory: SharedMemory)
        ensures
            memory == SharedMemory::spec_new(),
    {
        SharedMemory::new()
    }
}

/// A fresh region asks for nothing: no flag is raised, no reset is pending.
pub proof fn lemma_new_is_quiet()
    ensures
        SharedMemory::spec_new().spec_polled_reset() is None,
        SharedMemory::spec_new().spec_after_game_tick() == SharedMemory::spec_new(),
        !SharedMemory::spec_new().commands.spec_polled().check_alignment,
        !SharedMemory::spec_new().commands.spec_polled().rotate_left,
{
}

/// The handshake delivers: whatever the region held, the game that finds
/// `reset` raised after a request reads exactly the requested configuration;
/// then `reset` is lowered, and the next look finds nothing.
pub proof fn lemma_reset_delivers_config(memory: SharedMemory, config: GameConfig)
    ensures
        memory.spec_request_reset(config).spec_polled_reset() == Some(config),
        !memory.spec_request_reset(config).spec_clear_reset().commands.reset,
        memory.spec_request_reset(config).spec_clear_reset().spec_polled_reset() is None,
        memory.spec_request_reset(config).spec_clear_reset().game_structure.spec_config()
            == config,
{
}

/// The handshake is not disturbed by the rest of the traffic: commands
/// written and polled, and telemetry published, between the request and the
/// game's look leave the configuration that is delivered as it was.
pub proof fn lemma_reset_independent_of_traffic(
    memory: SharedMemory,
    config: GameConfig,
    input: CommandInput,
    telemetry: crate::game_structure::Telemetry,
)
    ensures
        ({
            let requested = memory.spec_request_reset(config);
            let busy = SharedMemory {
                commands: requested.commands.spec_write_commands(input).spec_after_poll(),
                game_structure: requested.game_structure.spec_publish_telemetry(telemetry),
            };
            busy.spec_polled_reset() == Some(config)
        }),
{
}

/// Resets are not queued: of two requests made before the game looks, the
/// later configuration is delivered, once.
pub proof fn lemma_reset_last_request_wins(
    memory: SharedMemory,
    first: GameConfig,
    second: GameConfig,
)
    ensures
        memory.spec_request_reset(first).spec_request_reset(second) == memory.spec_request_reset(
            second,
        ),
        memory.spec_request_reset(first).spec_request_reset(second).spec_polled_reset() == Some(
            second,
        ),
        memory.spec_request_reset(first).spec_request_reset(
            second,
        ).spec_clear_reset().spec_polled_reset() is None,
{
}

/// Lowering `reset` is idempotent, and a no-op where it is already lowered.
pub proof fn lemma_clear_reset_idempotent(memory: SharedMemory)
    ensures
        memory.spec_clear_reset().spec_clear_reset() == memory.spec_clear_reset(),
        !memory.commands.reset ==> memory.spec_clear_reset() == memory,
        !memory.commands.reset ==> memory.spec_polled_reset() is None,
{
}

} // verus!
