//! The reset handshake, as operations on cells.
//!
//! The controller stores a configuration cell by cell and then raises
//! `reset` with release order. The game looks at `reset` with acquire order;
//! finding it raised, it reads the configuration cell by cell and lowers
//! `reset` with release order. The release store and the acquire load that
//! sees it are the one ordering that the transport relies on: they make the
//! configuration stored before the flag visible to the reads made after it.

use vstd::prelude::*;
use crate::cells::{
    color_word, lemma_color_positions, spec_color_word, Cell, Flag, Long, Word,
};
use crate::layout::Part;
use crate::game_structure::{GameConfig, SharedGameStructure};
use crate::memory::SharedMemory;
use crate::ops::{fits, lemma_run_loads, lemma_run_prefix, spec_fits, LoadOrder, Op, Reply, StoreOrder};

verus! {

/// Number of operations that write a configuration: one per cell.
pub const CONFIG_CELLS: usize = 18;

/// The store of the configuration cell at position `i`, in the order of the
/// region: the seed, the five scalar words, then the twelve colour words.
pub open spec fn spec_config_store(config: GameConfig, i: int) -> Op {
    if i == 0 {
        Op::StoreLong { long: Long::Seed, value: config.seed }
    } else if i == 1 {
        Op::StoreWord { word: Word::PyramidType, value: config.pyramid_type }
    } else if i == 2 {
        Op::StoreWord { word: Word::BaseRadius, value: config.base_radius }
    } else if i == 3 {
        Op::StoreWord { word: Word::Height, value: config.height }
    } else if i == 4 {
        Op::StoreWord { word: Word::StartOrient, value: config.start_orient }
    } else if i == 5 {
        Op::StoreWord { word: Word::TargetDoor, value: config.target_door }
    } else {
        Op::StoreWord { word: spec_color_word(i - 6), value: config.colors@[i - 6] }
    }
}

/// The operations that write a configuration, all relaxed.
pub open spec fn spec_write_config_plan(config: GameConfig) -> Seq<Op> {
    Seq::new(CONFIG_CELLS as nat, |i: int| spec_config_store(config, i))
}

/// The operations of a reset request: the configuration, then `reset`
/// raised with release order.
pub open spec fn spec_request_reset_plan(config: GameConfig) -> Seq<Op> {
    spec_write_config_plan(config).push(
        Op::StoreFlag { flag: Flag::Reset, value: true, order: StoreOrder::Release },
    )
}

/// Builds the operations that write a configuration.
pub fn write_config_plan(config: &GameConfig) -> (plan: Vec<Op>)
    ensures
        plan@ == spec_write_config_plan(*config),
{
    let mut plan: Vec<Op> = Vec::new();
    plan.push(Op::StoreLong { long: Long::Seed, value: config.seed });
    plan.push(Op::StoreWord { word: Word::PyramidType, value: config.pyramid_type });
    plan.push(Op::StoreWord { word: Word::BaseRadius, value: config.base_radius });
    plan.push(Op::StoreWord { word: Word::Height, value: config.height });
    plan.push(Op::StoreWord { word: Word::StartOrient, value: config.start_orient });
    plan.push(Op::StoreWord { word: Word::TargetDoor, value: config.target_door });
    let mut i: usize = 0;
    while i < 12
        invariant
            i <= 12,
            plan@.len() == 6 + i,
            forall|k: int| 0 <= k < 6 + i ==> plan@[k] == spec_config_store(*config, k),
        decreases 12 - i,
    {
        match color_word(i) {
            Some(word) => {
                plan.push(Op::StoreWord { word, value: config.colors[i] });
            },
            None => {
                assert(false);
            },
        }
        i += 1;
    }
    assert(plan@ =~= spec_write_config_plan(*config));
    plan
}

/// Builds the operations of a reset request.
pub fn request_reset_plan(config: &GameConfig) -> (plan: Vec<Op>)
    ensures
        plan@ == spec_request_reset_plan(*config),
{
    let mut plan = write_config_plan(config);
    plan.push(Op::StoreFlag { flag: Flag::Reset, value: true, order: StoreOrder::Release });
    plan
}

/// The region while a configuration is being written: after the first `n`
/// stores, the scalar cells written so far hold the new values, the first
/// colour cells written so far hold the new colours, and every other cell
/// is as it was.
pub open spec fn spec_config_written(
    memory: SharedMemory,
    config: GameConfig,
    n: int,
    reached: SharedMemory,
) -> bool {
    let was = memory.game_structure;
    let now = reached.game_structure;
    &&& reached.commands == memory.commands
    &&& now == (SharedGameStructure {
        seed: now.seed,
        pyramid_type: now.pyramid_type,
        base_radius: now.base_radius,
        height: now.height,
        start_orient: now.start_orient,
        target_door: now.target_door,
        colors: now.colors,
        ..was
    })
    &&& now.seed == (if n > 0 {
        config.seed
    } else {
        was.seed
    })
    &&& now.pyramid_type == (if n > 1 {
        config.pyramid_type
    } else {
        was.pyramid_type
    })
    &&& now.base_radius == (if n > 2 {
        config.base_radius
    } else {
        was.base_radius
    })
    &&& now.height == (if n > 3 {
        config.height
    } else {
        was.height
    })
    &&& now.start_orient == (if n > 4 {
        config.start_orient
    } else {
        was.start_orient
    })
    &&& now.target_door == (if n > 5 {
        config.target_door
    } else {
        was.target_door
    })
    &&& forall|j: int|
        0 <= j < 12 ==> now.colors@[j] == (if j + 6 < n {
            config.colors@[j]
        } else {
            was.colors@[j]
        })
}

/// A configuration is written cell by cell, in the order of the region.
pub proof fn lemma_config_written(memory: SharedMemory, config: GameConfig, n: nat)
    requires
        n <= CONFIG_CELLS,
    ensures
        spec_config_written(
            memory,
            config,
            n as int,
            memory.spec_run(spec_write_config_plan(config), n),
        ),
    decreases n,
{
    let plan = spec_write_config_plan(config);
    if n > 0 {
        lemma_config_written(memory, config, (n - 1) as nat);
        let before = memory.spec_run(plan, (n - 1) as nat);
        let reached = memory.spec_run(plan, n);
        assert(reached == before.spec_apply(plan[n - 1]));
        assert(plan[n - 1] == spec_config_store(config, n - 1));
        if n > 6 {
            let i = n - 7;
            lemma_color_positions(i, crate::cells::Face::First, crate::cells::Channel::Red);
            assert(reached.game_structure.colors@ == before.game_structure.colors@.update(
                i,
                config.colors@[i],
            ));
        }
    }
}

/// The operations that write a configuration, performed one after the
/// other, put the configuration into its cells and leave every other cell
/// alone.
pub proof fn lemma_write_config_plan(memory: SharedMemory, config: GameConfig)
    ensures
        memory.spec_run_all(spec_write_config_plan(config)) == (SharedMemory {
            game_structure: memory.game_structure.spec_write_config(config),
            ..memory
        }),
{
    lemma_config_written(memory, config, CONFIG_CELLS as nat);
    let reached = memory.spec_run_all(spec_write_config_plan(config));
    assert(reached.game_structure.colors =~= config.colors);
}

/// The operations of a reset request, performed one after the other, are
/// the request. The flag is raised last, with release order, after every
/// configuration cell is stored, and no earlier operation touches it.
pub proof fn lemma_request_reset_plan(memory: SharedMemory, config: GameConfig)
    ensures
        memory.spec_run_all(spec_request_reset_plan(config)) == memory.spec_request_reset(config),
        spec_request_reset_plan(config).len() == CONFIG_CELLS + 1,
        spec_request_reset_plan(config).last() == (Op::StoreFlag {
            flag: Flag::Reset,
            value: true,
            order: StoreOrder::Release,
        }),
        forall|k: int|
            0 <= k < CONFIG_CELLS ==> {
                let op = #[trigger] spec_request_reset_plan(config)[k];
                op is StoreWord || op is StoreLong
            },
{
    let writes = spec_write_config_plan(config);
    let raise = Op::StoreFlag { flag: Flag::Reset, value: true, order: StoreOrder::Release };
    let plan = spec_request_reset_plan(config);
    lemma_write_config_plan(memory, config);
    lemma_run_prefix(memory, plan, writes, writes.len());
    assert(memory.spec_run(plan, plan.len()) == memory.spec_run(
        plan,
        (plan.len() - 1) as nat,
    ).spec_apply(plan[plan.len() - 1]));
}

/// The look at the handshake: an acquire load of `reset`. The game looks to
/// learn whether a reset is pending, the controller to learn whether the
/// game has taken the last one.
pub open spec fn spec_observe_reset_plan() -> Seq<Op> {
    seq![Op::LoadFlag { flag: Flag::Reset, order: LoadOrder::Acquire }]
}

/// Builds the read of `reset`.
pub fn observe_reset_plan() -> (plan: Vec<Op>)
    ensures
        plan@ == spec_observe_reset_plan(),
{
    let mut plan: Vec<Op> = Vec::new();
    plan.push(Op::LoadFlag { flag: Flag::Reset, order: LoadOrder::Acquire });
    assert(plan@ =~= spec_observe_reset_plan());
    plan
}

/// What a read of one flag yielded; nothing, if the replies cannot be what
/// such a read yielded.
pub open spec fn spec_decode_flag(replies: Seq<Reply>) -> Option<bool> {
    if replies.len() == 1 && replies[0] is Flag {
        Some(replies[0].spec_flag())
    } else {
        None
    }
}

/// Takes the flag out of what a read of one flag yielded.
pub fn decode_flag(replies: &Vec<Reply>) -> (value: Option<bool>)
    ensures
        value == spec_decode_flag(replies@),
{
    if replies.len() != 1 {
        return None;
    }
    match replies[0] {
        Reply::Flag(value) => Some(value),
        _ => None,
    }
}

/// The read of `reset` changes nothing and yields whether a reset is
/// pending.
pub proof fn lemma_observe_reset_plan(memory: SharedMemory)
    ensures
        memory.spec_run_all(spec_observe_reset_plan()) == memory,
        spec_decode_flag(memory.spec_replies(spec_observe_reset_plan())) == Some(
            memory.commands.reset,
        ),
{
    let plan = spec_observe_reset_plan();
    assert(memory.spec_run(plan, 0) == memory);
    assert(memory.spec_run(plan, 1) == memory.spec_run(plan, 0).spec_apply(plan[0]));
}

/// A reset request touches the configuration and, last, `reset`: each of
/// its operations but the last is a store to a configuration cell.
pub proof fn lemma_request_reset_in_config(config: GameConfig, k: int)
    requires
        0 <= k < CONFIG_CELLS,
    ensures
        !spec_request_reset_plan(config)[k].spec_is_load(),
        spec_request_reset_plan(config)[k].spec_cell().spec_part() == Part::Config,
        spec_request_reset_plan(config)[k] == spec_write_config_plan(config)[k],
        spec_request_reset_plan(config)[CONFIG_CELLS as int].spec_cell() == Cell::Flag(Flag::Reset),
{
}

/// The load of the configuration cell at position `i`, in the order of the
/// region.
pub open spec fn spec_config_load(i: int) -> Op {
    if i == 0 {
        Op::LoadLong { long: Long::Seed }
    } else if i == 1 {
        Op::LoadWord { word: Word::PyramidType }
    } else if i == 2 {
        Op::LoadWord { word: Word::BaseRadius }
    } else if i == 3 {
        Op::LoadWord { word: Word::Height }
    } else if i == 4 {
        Op::LoadWord { word: Word::StartOrient }
    } else if i == 5 {
        Op::LoadWord { word: Word::TargetDoor }
    } else {
        Op::LoadWord { word: spec_color_word(i - 6) }
    }
}

/// The operations that read a configuration, all relaxed.
pub open spec fn spec_read_config_plan() -> Seq<Op> {
    Seq::new(CONFIG_CELLS as nat, |i: int| spec_config_load(i))
}

/// `config` is what the configuration reads yielded, cell for cell.
pub open spec fn spec_holds_config(replies: Seq<Reply>, config: GameConfig) -> bool {
    &&& config.seed == replies[0].spec_long()
    &&& config.pyramid_type == replies[1].spec_word()
    &&& config.base_radius == replies[2].spec_word()
    &&& config.height == replies[3].spec_word()
    &&& config.start_orient == replies[4].spec_word()
    &&& config.target_door == replies[5].spec_word()
    &&& forall|j: int| 0 <= j < 12 ==> config.colors@[j] == (#[trigger] replies[6 + j]).spec_word()
}

/// The configuration that the game makes of what the configuration reads
/// yielded; nothing, if the replies cannot be what those reads yielded.
pub open spec fn spec_decode_config(replies: Seq<Reply>) -> Option<GameConfig> {
    if spec_fits(spec_read_config_plan(), replies) {
        Some(choose|config: GameConfig| spec_holds_config(replies, config))
    } else {
        None
    }
}

/// One sequence of replies holds one configuration.
pub proof fn lemma_holds_one_config(replies: Seq<Reply>, a: GameConfig, b: GameConfig)
    requires
        spec_holds_config(replies, a),
        spec_holds_config(replies, b),
    ensures
        a == b,
{
    assert forall|j: int| 0 <= j < 12 implies a.colors@[j] == b.colors@[j] by {
        assert(a.colors@[j] == replies[6 + j].spec_word());
    }
    assert(a.colors =~= b.colors);
}

/// Builds the operations that read a configuration.
pub fn read_config_plan() -> (plan: Vec<Op>)
    ensures
        plan@ == spec_read_config_plan(),
{
    let mut plan: Vec<Op> = Vec::new();
    plan.push(Op::LoadLong { long: Long::Seed });
    plan.push(Op::LoadWord { word: Word::PyramidType });
    plan.push(Op::LoadWord { word: Word::BaseRadius });
    plan.push(Op::LoadWord { word: Word::Height });
    plan.push(Op::LoadWord { word: Word::StartOrient });
    plan.push(Op::LoadWord { word: Word::TargetDoor });
    let mut i: usize = 0;
    while i < 12
        invariant
            i <= 12,
            plan@.len() == 6 + i,
            forall|k: int| 0 <= k < 6 + i ==> plan@[k] == spec_config_load(k),
        decreases 12 - i,
    {
        match color_word(i) {
            Some(word) => {
                plan.push(Op::LoadWord { word });
            },
            None => {
                assert(false);
            },
        }
        i += 1;
    }
    assert(plan@ =~= spec_read_config_plan());
    plan
}

/// Makes the configuration of what the configuration reads yielded, cell
/// for cell and bit for bit. Hands out nothing exactly when the replies
/// cannot be what those reads yielded.
pub fn decode_config(replies: &Vec<Reply>) -> (config: Option<GameConfig>)
    ensures
        config == spec_decode_config(replies@),
        config is Some <==> spec_fits(spec_read_config_plan(), replies@),
        config matches Some(c) ==> spec_holds_config(replies@, c),
{
    let plan = read_config_plan();
    if !fits(&plan, replies) {
        return None;
    }
    let mut colors: [u32; 12] = [0u32; 12];
    let mut j: usize = 0;
    while j < 12
        invariant
            j <= 12,
            replies@.len() == 18,
            forall|k: int| 0 <= k < j ==> colors@[k] == (#[trigger] replies@[6 + k]).spec_word(),
        decreases 12 - j,
    {
        colors[j] = replies[6 + j].word();
        j += 1;
    }
    let config = GameConfig {
        seed: replies[0].long(),
        pyramid_type: replies[1].word(),
        base_radius: replies[2].word(),
        height: replies[3].word(),
        start_orient: replies[4].word(),
        target_door: replies[5].word(),
        colors,
    };
    proof {
        let chosen = choose|c: GameConfig| spec_holds_config(replies@, c);
        assert(spec_holds_config(replies@, config));
        lemma_holds_one_config(replies@, config, chosen);
    }
    Some(config)
}

/// Reading the configuration changes nothing, and what the reads yield on a
/// region decodes to the configuration that the region holds.
pub proof fn lemma_read_config_plan(memory: SharedMemory)
    ensures
        memory.spec_run_all(spec_read_config_plan()) == memory,
        spec_decode_config(memory.spec_replies(spec_read_config_plan())) == Some(
            memory.game_structure.spec_config(),
        ),
{
    let plan = spec_read_config_plan();
    let replies = memory.spec_replies(plan);
    let held = memory.game_structure.spec_config();
    assert forall|k: nat| k <= plan.len() implies #[trigger] memory.spec_run(plan, k)
        == memory by {
        lemma_run_loads(memory, plan, k);
    }
    assert(memory.spec_run(plan, 0) == memory);
    assert(memory.spec_run(plan, 1) == memory);
    assert(memory.spec_run(plan, 2) == memory);
    assert(memory.spec_run(plan, 3) == memory);
    assert(memory.spec_run(plan, 4) == memory);
    assert(memory.spec_run(plan, 5) == memory);
    assert(spec_fits(plan, replies));
    assert forall|j: int| 0 <= j < 12 implies held.colors@[j] == (#[trigger] replies[6
        + j]).spec_word() by {
        assert(memory.spec_run(plan, (6 + j) as nat) == memory);
        lemma_color_positions(j, crate::cells::Face::First, crate::cells::Channel::Red);
    }
    assert(spec_holds_config(replies, held));
    let chosen = choose|c: GameConfig| spec_holds_config(replies, c);
    lemma_holds_one_config(replies, held, chosen);
}

/// Reading the configuration touches the configuration only, and only
/// with loads.
pub proof fn lemma_read_config_in_config(k: int)
    requires
        0 <= k < CONFIG_CELLS,
    ensures
        spec_read_config_plan()[k].spec_is_load(),
        spec_read_config_plan()[k].spec_cell().spec_part() == Part::Config,
{
}

/// The store that ends the handshake: `reset` lowered with release order.
pub open spec fn spec_clear_reset_plan() -> Seq<Op> {
    seq![Op::StoreFlag { flag: Flag::Reset, value: false, order: StoreOrder::Release }]
}

/// Builds the store that ends the handshake.
pub fn clear_reset_plan() -> (plan: Vec<Op>)
    ensures
        plan@ == spec_clear_reset_plan(),
{
    let mut plan: Vec<Op> = Vec::new();
    plan.push(Op::StoreFlag { flag: Flag::Reset, value: false, order: StoreOrder::Release });
    assert(plan@ =~= spec_clear_reset_plan());
    plan
}

/// The store that ends the handshake lowers `reset` and changes nothing
/// else.
pub proof fn lemma_clear_reset_plan(memory: SharedMemory)
    ensures
        memory.spec_run_all(spec_clear_reset_plan()) == memory.spec_clear_reset(),
{
    let plan = spec_clear_reset_plan();
    assert(memory.spec_run(plan, 0) == memory);
    assert(memory.spec_run(plan, 1) == memory.spec_run(plan, 0).spec_apply(plan[0]));
}

/// Where the game stands in its look at the handshake. Each step names the
/// operations to perform next; what they yield decides the step after.
#[allow(inconsistent_fields)]
#[derive(Clone, Copy, Debug, PartialEq, Eq)]
pub enum ResetPoll {
    /// Look at `reset`.
    Observe,
    /// `reset` was found raised: read the configuration.
    ReadConfig,
    /// The configuration is read: lower `reset`.
    Clear { config: GameConfig },
    /// The look is over, with the configuration to start over with, if a
    /// reset was pending.
    Done { config: Option<GameConfig> },
}

impl ResetPoll {
    /// Number of steps that are still to be made.
    pub open spec fn spec_steps_left(self) -> nat {
        match self {
            ResetPoll::Observe => 3,
            ResetPoll::ReadConfig => 2,
            ResetPoll::Clear { .. } => 1,
            ResetPoll::Done { .. } => 0,
        }
    }

    /// The operations of this step.
    pub open spec fn spec_plan(self) -> Seq<Op> {
        match self {
            ResetPoll::Observe => spec_observe_reset_plan(),
            ResetPoll::ReadConfig => spec_read_config_plan(),
            ResetPoll::Clear { .. } => spec_clear_reset_plan(),
            ResetPoll::Done { .. } => Seq::empty(),
        }
    }

    /// The step that follows, given what the operations of this step
    /// yielded. A look that finds `reset` lowered is over with nothing. A
    /// look whose replies cannot be what its operations yielded is over with
    /// nothing too, and leaves `reset` as it is.
    pub open spec fn spec_advance(self, replies: Seq<Reply>) -> ResetPoll {
        match self {
            ResetPoll::Observe => {
                if spec_decode_flag(replies) == Some(true) {
                    ResetPoll::ReadConfig
                } else {
                    ResetPoll::Done { config: None }
                }
            },
            ResetPoll::ReadConfig => {
                match spec_decode_config(replies) {
                    Some(config) => ResetPoll::Clear { config },
                    None => ResetPoll::Done { config: None },
                }
            },
            ResetPoll::Clear { config } => ResetPoll::Done { config: Some(config) },
            ResetPoll::Done { config } => ResetPoll::Done { config },
        }
    }

    /// The first step of a look.
    pub fn start() -> (step: ResetPoll)
        ensures
            step == ResetPoll::Observe,
    {
        ResetPoll::Observe
    }

    /// Whether the look is over.
    pub fn is_done(&self) -> (done: bool)
        ensures
            done == (*self is Done),
            done == (self.spec_steps_left() == 0),
    {
        match self {
            ResetPoll::Done { .. } => true,
            _ => false,
        }
    }

    /// What the look ended with; nothing while it is not over.
    pub fn outcome(&self) -> (config: Option<GameConfig>)
        ensures
            config == (match *self {
                ResetPoll::Done { config } => config,
                _ => None,
            }),
    {
        match self {
            ResetPoll::Done { config } => *config,
            _ => None,
        }
    }

    /// Builds the operations of this step.
    pub fn plan(&self) -> (plan: Vec<Op>)
        ensures
            plan@ == self.spec_plan(),
    {
        match self {
            ResetPoll::Observe => observe_reset_plan(),
            ResetPoll::ReadConfig => read_config_plan(),
            ResetPoll::Clear { .. } => clear_reset_plan(),
            ResetPoll::Done { .. } => Vec::new(),
        }
    }

    /// The step that follows, given what the operations of this step
    /// yielded.
    pub fn advance(&self, replies: &Vec<Reply>) -> (next: ResetPoll)
        ensures
            next == self.spec_advance(replies@),
            self.spec_steps_left() > 0 ==> next.spec_steps_left() < self.spec_steps_left(),
    {
        match self {
            ResetPoll::Observe => {
                match decode_flag(replies) {
                    Some(true) => ResetPoll::ReadConfig,
                    _ => ResetPoll::Done { config: None },
                }
            },
            ResetPoll::ReadConfig => {
                match decode_config(replies) {
                    Some(config) => ResetPoll::Clear { config },
                    None => ResetPoll::Done { config: None },
                }
            },
            ResetPoll::Clear { config } => ResetPoll::Done { config: Some(*config) },
            ResetPoll::Done { config } => ResetPoll::Done { config: *config },
        }
    }
}

/// The region and the step that the game ends with when it performs the
/// steps of its look on a region that nobody else touches.
pub open spec fn spec_look(memory: SharedMemory) -> (SharedMemory, ResetPoll) {
    let s0 = ResetPoll::Observe;
    let m1 = memory.spec_run_all(s0.spec_plan());
    let s1 = s0.spec_advance(memory.spec_replies(s0.spec_plan()));
    let m2 = m1.spec_run_all(s1.spec_plan());
    let s2 = s1.spec_advance(m1.spec_replies(s1.spec_plan()));
    let m3 = m2.spec_run_all(s2.spec_plan());
    let s3 = s2.spec_advance(m2.spec_replies(s2.spec_plan()));
    (m3, s3)
}

/// The steps of the game's look, performed on a region one after the other,
/// are the game's half of the handshake: with `reset` raised the look ends
/// after three steps with the configuration that the region holds and with
/// `reset` lowered; with `reset` lowered it ends after one step with nothing
/// and the region as it was.
pub proof fn lemma_reset_poll_steps(memory: SharedMemory)
    ensures
        spec_look(memory) == (
            memory.spec_clear_reset(),
            ResetPoll::Done { config: memory.spec_polled_reset() },
        ),
        !memory.commands.reset ==> ResetPoll::Observe.spec_advance(
            memory.spec_replies(spec_observe_reset_plan()),
        ) == (ResetPoll::Done { config: None }) && spec_look(memory).0 == memory,
        memory.commands.reset ==> ResetPoll::Observe.spec_advance(
            memory.spec_replies(spec_observe_reset_plan()),
        ) == ResetPoll::ReadConfig,
{
    let s0 = ResetPoll::Observe;
    lemma_observe_reset_plan(memory);
    let m1 = memory.spec_run_all(s0.spec_plan());
    let s1 = s0.spec_advance(memory.spec_replies(s0.spec_plan()));
    assert(m1 == memory);
    if memory.commands.reset {
        assert(s1 == ResetPoll::ReadConfig);
        lemma_read_config_plan(memory);
        lemma_clear_reset_plan(memory);
    } else {
        assert(s1 == ResetPoll::Done { config: None });
        let empty = Seq::<Op>::empty();
        assert(memory.spec_run(empty, 0) == memory);
    }
}

/// The orderings of the handshake. The controller raises `reset` with
/// release order and after the configuration; the game looks at `reset`
/// with acquire order before it reads the configuration, reads the
/// configuration with loads only, and lowers `reset` with release order
/// after those.
pub proof fn lemma_handshake_orders(config: GameConfig)
    ensures
        spec_request_reset_plan(config).last() == (Op::StoreFlag {
            flag: Flag::Reset,
            value: true,
            order: StoreOrder::Release,
        }),
        spec_request_reset_plan(config).drop_last() == spec_write_config_plan(config),
        ResetPoll::Observe.spec_plan() == seq![
            Op::LoadFlag { flag: Flag::Reset, order: LoadOrder::Acquire },
        ],
        forall|k: int|
            0 <= k < CONFIG_CELLS ==> (#[trigger] ResetPoll::ReadConfig.spec_plan()[k]).spec_is_load(),
        (ResetPoll::Clear { config }).spec_plan() == seq![
            Op::StoreFlag { flag: Flag::Reset, value: false, order: StoreOrder::Release },
        ],
        ResetPoll::Observe.spec_steps_left() > ResetPoll::ReadConfig.spec_steps_left(),
        ResetPoll::ReadConfig.spec_steps_left() > (ResetPoll::Clear { config }).spec_steps_left(),
{
    assert(spec_request_reset_plan(config).drop_last() =~= spec_write_config_plan(config));
}

/// The handshake from end to end, on a region that nobody else touches:
/// whatever the region held, after the operations of a reset request the
/// game's look ends with exactly the requested configuration and with
/// `reset` lowered, and a second look ends with nothing.
pub proof fn lemma_handshake_delivers(memory: SharedMemory, config: GameConfig)
    ensures
        ({
            let requested = memory.spec_run_all(spec_request_reset_plan(config));
            let looked = spec_look(requested);
            let again = spec_look(looked.0);
            &&& looked.1 == (ResetPoll::Done { config: Some(config) })
            &&& !looked.0.commands.reset
            &&& looked.0.game_structure.spec_config() == config
            &&& again.1 == (ResetPoll::Done { config: None })
            &&& again.0 == looked.0
        }),
{
    lemma_request_reset_plan(memory, config);
    let requested = memory.spec_run_all(spec_request_reset_plan(config));
    lemma_reset_poll_steps(requested);
    lemma_reset_poll_steps(spec_look(requested).0);
}

/// Resets are not queued: after the operations of two requests, made
/// before the game looks, the look ends with the later configuration, and
/// the look after it with nothing.
pub proof fn lemma_handshake_last_request_wins(
    memory: SharedMemory,
    first: GameConfig,
    second: GameConfig,
)
    ensures
        ({
            let requested = memory.spec_run_all(spec_request_reset_plan(first)).spec_run_all(
                spec_request_reset_plan(second),
            );
            let looked = spec_look(requested);
            &&& looked.1 == (ResetPoll::Done { config: Some(second) })
            &&& spec_look(looked.0).1 == (ResetPoll::Done { config: None })
        }),
{
    lemma_request_reset_plan(memory, first);
    let once = memory.spec_run_all(spec_request_reset_plan(first));
    lemma_handshake_delivers(once, second);
}

} // verus!
