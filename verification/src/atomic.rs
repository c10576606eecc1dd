//! The protocol on real cells.
//!
//! A region shared with another process is a set of atomic cells that the
//! other side may change between any two accesses. Nothing is therefore
//! promised here about the values that come back: each call performs the
//! operations of its plan, in order and with the orderings that the plan
//! names, and hands what came back to the decoder of that plan. What the
//! plans and decoders do to a region that nobody else touches is stated and
//! proved on the image.

use vstd::prelude::*;
use core::sync::atomic::AtomicBool;
use core::sync::atomic::AtomicU32;
use core::sync::atomic::AtomicU64;
use core::sync::atomic::Ordering;
use crate::cells::{FLAG_COUNT, LONG_COUNT, WORD_COUNT};
use crate::commands::{CommandInput, PolledCommands};
use crate::controller::{
    decode_telemetry, read_telemetry_plan, reset_triggers_plan, spec_read_telemetry_plan,
    write_commands_plan,
};
use crate::error::TransportError;
use crate::game::{
    decode_polled_commands, poll_commands_plan, publish_telemetry_plan, spec_poll_commands_plan,
};
use crate::game_structure::{flatten_colors, is_color_matrix, GameConfig, Telemetry};
use crate::handshake::{
    decode_config, decode_flag, observe_reset_plan, read_config_plan, request_reset_plan,
    spec_observe_reset_plan, spec_read_config_plan, write_config_plan, ResetPoll,
};
use crate::memory::GamePoll;
use crate::ops::{spec_fits, LoadOrder, Op, Reply, StoreOrder};

verus! {

/// Reads a flag cell with the given order.
fn load_flag(cell: &AtomicBool, order: LoadOrder) -> (value: bool) {
    match order {
        LoadOrder::Relaxed => cell.load(Ordering::Relaxed),
        LoadOrder::Acquire => cell.load(Ordering::Acquire),
    }
}

/// Writes a flag cell with the given order.
fn store_flag(cell: &AtomicBool, value: bool, order: StoreOrder) {
    match order {
        StoreOrder::Relaxed => cell.store(value, Ordering::Relaxed),
        StoreOrder::Release => cell.store(value, Ordering::Release),
    }
}

/// Reads a flag cell and lowers it, in one step.
fn take_flag(cell: &AtomicBool) -> (value: bool) {
    cell.swap(false, Ordering::Relaxed)
}

/// Reads a word cell.
fn load_word(cell: &AtomicU32) -> (value: u32) {
    cell.load(Ordering::Relaxed)
}

/// Writes a word cell.
fn store_word(cell: &AtomicU32, value: u32) {
    cell.store(value, Ordering::Relaxed)
}

/// Reads a long word cell.
fn load_long(cell: &AtomicU64) -> (value: u64) {
    cell.load(Ordering::Relaxed)
}

/// Writes a long word cell.
fn store_long(cell: &AtomicU64, value: u64) {
    cell.store(value, Ordering::Relaxed)
}

/// The cells of a mapped region, each by reference, in the order of their
/// positions: a flag at the place that `Flag::index` gives it, and likewise
/// for words and long words.
pub struct RegionCells<'a> {
    flags: Vec<&'a AtomicBool>,
    words: Vec<&'a AtomicU32>,
    longs: Vec<&'a AtomicU64>,
}

impl<'a> RegionCells<'a> {
    /// Every cell of the region is there.
    #[verifier::type_invariant]
    spec fn complete(self) -> bool {
        &&& self.flags@.len() == FLAG_COUNT
        &&& self.words@.len() == WORD_COUNT
        &&& self.longs@.len() == LONG_COUNT
    }

    /// The flag cells, in the order of their positions.
    pub closed spec fn spec_flags(self) -> Seq<&'a AtomicBool> {
        self.flags@
    }

    /// The word cells, in the order of their positions.
    pub closed spec fn spec_words(self) -> Seq<&'a AtomicU32> {
        self.words@
    }

    /// The long word cells, in the order of their positions.
    pub closed spec fn spec_longs(self) -> Seq<&'a AtomicU64> {
        self.longs@
    }

    /// Takes the cells of a region. Hands out nothing unless there are as
    /// many flags, words and long words as the region has.
    pub fn new(
        flags: Vec<&'a AtomicBool>,
        words: Vec<&'a AtomicU32>,
        longs: Vec<&'a AtomicU64>,
    ) -> (cells: Option<RegionCells<'a>>)
        ensures
            cells is Some <==> flags@.len() == FLAG_COUNT && words@.len() == WORD_COUNT
                && longs@.len() == LONG_COUNT,
            cells matches Some(c) ==> c.spec_flags() == flags@ && c.spec_words() == words@
                && c.spec_longs() == longs@,
    {
        if flags.len() == FLAG_COUNT && words.len() == WORD_COUNT && longs.len() == LONG_COUNT {
            Some(RegionCells { flags, words, longs })
        } else {
            None
        }
    }

    /// Performs one operation on its cell. The reply is of the kind that
    /// the operation yields; a load yields whatever the cell holds at that
    /// moment.
    pub fn perform(&self, op: &Op) -> (reply: Reply)
        ensures
            op.spec_yields(reply),
    {
        proof {
            use_type_invariant(self);
        }
        match *op {
            Op::LoadFlag { flag, order } => Reply::Flag(load_flag(self.flags[flag.index()], order)),
            Op::StoreFlag { flag, value, order } => {
                store_flag(self.flags[flag.index()], value, order);
                Reply::Stored
            },
            Op::TakeFlag { flag } => Reply::Flag(take_flag(self.flags[flag.index()])),
            Op::LoadWord { word } => Reply::Word(load_word(self.words[word.index()])),
            Op::StoreWord { word, value } => {
                store_word(self.words[word.index()], value);
                Reply::Stored
            },
            Op::LoadLong { long } => Reply::Long(load_long(self.longs[long.index()])),
            Op::StoreLong { long, value } => {
                store_long(self.longs[long.index()], value);
                Reply::Stored
            },
        }
    }

    /// Performs the operations of `plan`, one after the other and each
    /// once, and hands out what they yielded.
    pub fn run(&self, plan: &Vec<Op>) -> (replies: Vec<Reply>)
        ensures
            spec_fits(plan@, replies@),
    {
        let mut replies: Vec<Reply> = Vec::new();
        let mut k: usize = 0;
        while k < plan.len()
            invariant
                k <= plan@.len(),
                replies@.len() == k,
                forall|j: int| 0 <= j < k ==> (#[trigger] plan@[j]).spec_yields(replies@[j]),
            decreases plan@.len() - k,
        {
            let reply = self.perform(&plan[k]);
            replies.push(reply);
            k += 1;
        }
        replies
    }

    /// The controller's write of one tick: the continuous flags are
    /// restated, the triggers that `input` asks for are raised.
    pub fn write_commands(&self, input: &CommandInput) {
        let plan = write_commands_plan(input);
        let _ = self.run(&plan);
    }

    /// Lowers the four movement flags and the alignment trigger, with
    /// relaxed stores; the other triggers are not written.
    pub fn reset_triggers(&self) {
        let plan = reset_triggers_plan();
        let _ = self.run(&plan);
    }

    /// Writes a configuration into its cells.
    pub fn write_config(&self, config: &GameConfig) {
        let plan = write_config_plan(config);
        let _ = self.run(&plan);
    }

    /// Writes a configuration whose colours come as a matrix. A matrix
    /// that is not three rows of four values is turned down with
    /// `InvalidShape`, and no cell is written.
    pub fn write_game_structure(
        &self,
        seed: u64,
        pyramid_type: u32,
        base_radius: u32,
        height: u32,
        start_orient: u32,
        target_door: u32,
        colors: &Vec<Vec<u32>>,
    ) -> (r: Result<(), TransportError>)
        ensures
            r is Ok <==> is_color_matrix(colors@),
            r is Err ==> r == Err::<(), TransportError>(TransportError::InvalidShape),
    {
        match flatten_colors(colors) {
            Err(e) => Err(e),
            Ok(cells) => {
                let config = GameConfig {
                    seed,
                    pyramid_type,
                    base_radius,
                    height,
                    start_orient,
                    target_door,
                    colors: cells,
                };
                self.write_config(&config);
                Ok(())
            },
        }
    }

    /// Reads the configuration cells.
    pub fn read_config(&self) -> (config: GameConfig) {
        let plan = read_config_plan();
        let replies = self.run(&plan);
        match decode_config(&replies) {
            Some(config) => config,
            None => {
                proof {
                    assert(spec_fits(spec_read_config_plan(), replies@));
                }
                vstd::pervasive::unreached()
            },
        }
    }

    /// The controller's half of the handshake: the configuration, then
    /// `reset` raised with release order.
    pub fn request_reset(&self, config: &GameConfig) {
        let plan = request_reset_plan(config);
        let _ = self.run(&plan);
    }

    /// Whether `reset` is found raised.
    pub fn reset_pending(&self) -> (pending: bool) {
        let plan = observe_reset_plan();
        let replies = self.run(&plan);
        match decode_flag(&replies) {
            Some(pending) => pending,
            None => {
                proof {
                    assert(spec_observe_reset_plan()[0].spec_yields(replies@[0]));
                }
                vstd::pervasive::unreached()
            },
        }
    }

    /// Reads the telemetry cells; the reserved alignment pattern and a win
    /// time of zero read as absent, so that no value that is handed out as
    /// present has such a pattern.
    pub fn read_telemetry(&self) -> (telemetry: Telemetry)
        ensures
            telemetry.distinguishes_absence(),
    {
        let plan = read_telemetry_plan();
        let replies = self.run(&plan);
        match decode_telemetry(&replies) {
            Some(telemetry) => telemetry,
            None => {
                proof {
                    assert(spec_fits(spec_read_telemetry_plan(), replies@));
                }
                vstd::pervasive::unreached()
            },
        }
    }

    /// The game's poll of one tick: reads the continuous flags and takes
    /// the triggers.
    pub fn poll_commands(&self) -> (polled: PolledCommands) {
        let plan = poll_commands_plan();
        let replies = self.run(&plan);
        match decode_polled_commands(&replies) {
            Some(polled) => polled,
            None => {
                proof {
                    assert(spec_fits(spec_poll_commands_plan(), replies@));
                }
                vstd::pervasive::unreached()
            },
        }
    }

    /// The game's half of the handshake, step by step: looks at `reset`
    /// with acquire order; if it is raised, reads the configuration and
    /// then lowers `reset` with release order.
    pub fn poll_reset(&self) -> (config: Option<GameConfig>) {
        let mut step = ResetPoll::start();
        while !step.is_done()
            decreases step.spec_steps_left(),
        {
            let plan = step.plan();
            let replies = self.run(&plan);
            step = step.advance(&replies);
        }
        step.outcome()
    }

    /// One tick of the game's reading: the commands, then the handshake.
    pub fn poll_game_tick(&self) -> (poll: GamePoll) {
        let commands = self.poll_commands();
        let reset = self.poll_reset();
        GamePoll { commands, reset }
    }

    /// Publishes one tick's telemetry.
    pub fn publish_telemetry(&self, telemetry: &Telemetry) {
        let plan = publish_telemetry_plan(telemetry);
        let _ = self.run(&plan);
    }
}

} // verus!
