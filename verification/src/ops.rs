//! Operations on single cells, and what a sequence of them does to the region.
//!
//! Each call of the protocol comes down to a short sequence of loads and
//! stores on single cells. This module names those operations and defines,
//! on the image of the region, what each one changes and what it yields.

use vstd::prelude::*;
use crate::cells::{color_index, spec_color_index, Cell, Flag, Long, Word};
use crate::memory::SharedMemory;
use crate::commands::SharedCommands;
use crate::game_structure::SharedGameStructure;

verus! {

/// How a load is ordered against the reader's later accesses.
#[derive(Clone, Copy, Debug, PartialEq, Eq, Structural)]
pub enum LoadOrder {
    /// No ordering.
    Relaxed,
    /// What the writer stored before its matching release store is visible
    /// after this load.
    Acquire,
}

/// How a store is ordered against the writer's earlier accesses.
#[derive(Clone, Copy, Debug, PartialEq, Eq, Structural)]
pub enum StoreOrder {
    /// No ordering.
    Relaxed,
    /// What the writer stored before this store is visible to a reader whose
    /// acquire load sees it.
    Release,
}

/// One operation on one cell.
#[allow(inconsistent_fields)]
#[derive(Clone, Copy, Debug, PartialEq, Eq, Structural)]
pub enum Op {
    /// Read a flag.
    LoadFlag { flag: Flag, order: LoadOrder },
    /// Write a flag.
    StoreFlag { flag: Flag, value: bool, order: StoreOrder },
    /// Read a flag and lower it, in one step.
    TakeFlag { flag: Flag },
    /// Read a word.
    LoadWord { word: Word },
    /// Write a word.
    StoreWord { word: Word, value: u32 },
    /// Read a long word.
    LoadLong { long: Long },
    /// Write a long word.
    StoreLong { long: Long, value: u64 },
}

/// What an operation yields.
#[derive(Clone, Copy, Debug, PartialEq, Eq, Structural)]
pub enum Reply {
    /// A store yields nothing.
    Stored,
    /// What a flag held.
    Flag(bool),
    /// What a word held.
    Word(u32),
    /// What a long word held.
    Long(u64),
}

impl Reply {
    /// The flag that the reply carries; lowered if it carries none.
    pub open spec fn spec_flag(self) -> bool {
        match self {
            Reply::Flag(value) => value,
            _ => false,
        }
    }

    /// The word that the reply carries; zero if it carries none.
    pub open spec fn spec_word(self) -> u32 {
        match self {
            Reply::Word(value) => value,
            _ => 0,
        }
    }

    /// The long word that the reply carries; zero if it carries none.
    pub open spec fn spec_long(self) -> u64 {
        match self {
            Reply::Long(value) => value,
            _ => 0,
        }
    }

    /// The flag that the reply carries; lowered if it carries none.
    pub fn flag(&self) -> (value: bool)
        ensures
            value == self.spec_flag(),
    {
        match self {
            Reply::Flag(value) => *value,
            _ => false,
        }
    }

    /// The word that the reply carries; zero if it carries none.
    pub fn word(&self) -> (value: u32)
        ensures
            value == self.spec_word(),
    {
        match self {
            Reply::Word(value) => *value,
            _ => 0,
        }
    }

    /// The long word that the reply carries; zero if it carries none.
    pub fn long(&self) -> (value: u64)
        ensures
            value == self.spec_long(),
    {
        match self {
            Reply::Long(value) => *value,
            _ => 0,
        }
    }
}

/// Whether `replies` can be what `plan` yielded: one reply for each
/// operation, each of the kind that its operation yields.
pub open spec fn spec_fits(plan: Seq<Op>, replies: Seq<Reply>) -> bool {
    &&& replies.len() == plan.len()
    &&& forall|k: int| 0 <= k < plan.len() ==> (#[trigger] plan[k]).spec_yields(replies[k])
}

/// Tells whether `replies` can be what `plan` yielded.
pub fn fits(plan: &Vec<Op>, replies: &Vec<Reply>) -> (r: bool)
    ensures
        r == spec_fits(plan@, replies@),
{
    if replies.len() != plan.len() {
        return false;
    }
    let mut k: usize = 0;
    while k < plan.len()
        invariant
            replies@.len() == plan@.len(),
            k <= plan@.len(),
            forall|j: int| 0 <= j < k ==> (#[trigger] plan@[j]).spec_yields(replies@[j]),
        decreases plan@.len() - k,
    {
        let fitting = match (plan[k], replies[k]) {
            (Op::LoadFlag { .. }, Reply::Flag(_)) => true,
            (Op::TakeFlag { .. }, Reply::Flag(_)) => true,
            (Op::LoadWord { .. }, Reply::Word(_)) => true,
            (Op::LoadLong { .. }, Reply::Long(_)) => true,
            (Op::StoreFlag { .. }, Reply::Stored) => true,
            (Op::StoreWord { .. }, Reply::Stored) => true,
            (Op::StoreLong { .. }, Reply::Stored) => true,
            _ => false,
        };
        if !fitting {
            assert(!plan@[k as int].spec_yields(replies@[k as int]));
            return false;
        }
        k += 1;
    }
    true
}

impl Op {
    /// Whether `reply` is of the kind that this operation yields.
    pub open spec fn spec_yields(self, reply: Reply) -> bool {
        match self {
            Op::LoadFlag { .. } => reply is Flag,
            Op::TakeFlag { .. } => reply is Flag,
            Op::LoadWord { .. } => reply is Word,
            Op::LoadLong { .. } => reply is Long,
            Op::StoreFlag { .. } => reply is Stored,
            Op::StoreWord { .. } => reply is Stored,
            Op::StoreLong { .. } => reply is Stored,
        }
    }

    /// Whether the operation leaves every cell as it is.
    pub open spec fn spec_is_load(self) -> bool {
        self is LoadFlag || self is LoadWord || self is LoadLong
    }

    /// The cell that the operation is on.
    pub open spec fn spec_cell(self) -> Cell {
        match self {
            Op::LoadFlag { flag, .. } => Cell::Flag(flag),
            Op::StoreFlag { flag, .. } => Cell::Flag(flag),
            Op::TakeFlag { flag } => Cell::Flag(flag),
            Op::LoadWord { word } => Cell::Word(word),
            Op::StoreWord { word, .. } => Cell::Word(word),
            Op::LoadLong { long } => Cell::Long(long),
            Op::StoreLong { long, .. } => Cell::Long(long),
        }
    }

    /// The cell that the operation is on.
    pub fn cell(&self) -> (cell: Cell)
        ensures
            cell == self.spec_cell(),
    {
        match *self {
            Op::LoadFlag { flag, order: _ } => Cell::Flag(flag),
            Op::StoreFlag { flag, value: _, order: _ } => Cell::Flag(flag),
            Op::TakeFlag { flag } => Cell::Flag(flag),
            Op::LoadWord { word } => Cell::Word(word),
            Op::StoreWord { word, value: _ } => Cell::Word(word),
            Op::LoadLong { long } => Cell::Long(long),
            Op::StoreLong { long, value: _ } => Cell::Long(long),
        }
    }

    /// Whether the operation leaves every cell as it is.
    pub fn is_load(&self) -> (r: bool)
        ensures
            r == self.spec_is_load(),
    {
        match self {
            Op::LoadFlag { .. } => true,
            Op::LoadWord { .. } => true,
            Op::LoadLong { .. } => true,
            _ => false,
        }
    }
}

impl SharedMemory {
    /// What a flag holds.
    pub open spec fn spec_flag(self, flag: Flag) -> bool {
        match flag {
            Flag::RotateLeft => self.commands.rotate_left,
            Flag::RotateRight => self.commands.rotate_right,
            Flag::ZoomIn => self.commands.zoom_in,
            Flag::ZoomOut => self.commands.zoom_out,
            Flag::CheckAlignment => self.commands.check_alignment,
            Flag::Reset => self.commands.reset,
            Flag::BlankScreen => self.commands.blank_screen,
            Flag::StopRendering => self.commands.stop_rendering,
            Flag::ResumeRendering => self.commands.resume_rendering,
            Flag::IsAnimating => self.game_structure.is_animating,
            Flag::HasWon => self.game_structure.has_won,
        }
    }

    /// The region with one flag set to `value`.
    pub open spec fn spec_with_flag(self, flag: Flag, value: bool) -> SharedMemory {
        match flag {
            Flag::RotateLeft => SharedMemory {
                commands: SharedCommands { rotate_left: value, ..self.commands },
                ..self
            },
            Flag::RotateRight => SharedMemory {
                commands: SharedCommands { rotate_right: value, ..self.commands },
                ..self
            },
            Flag::ZoomIn => SharedMemory {
                commands: SharedCommands { zoom_in: value, ..self.commands },
                ..self
            },
            Flag::ZoomOut => SharedMemory {
                commands: SharedCommands { zoom_out: value, ..self.commands },
                ..self
            },
            Flag::CheckAlignment => SharedMemory {
                commands: SharedCommands { check_alignment: value, ..self.commands },
                ..self
            },
            Flag::Reset => SharedMemory {
                commands: SharedCommands { reset: value, ..self.commands },
                ..self
            },
            Flag::BlankScreen => SharedMemory {
                commands: SharedCommands { blank_screen: value, ..self.commands },
                ..self
            },
            Flag::StopRendering => SharedMemory {
                commands: SharedCommands { stop_rendering: value, ..self.commands },
                ..self
            },
            Flag::ResumeRendering => SharedMemory {
                commands: SharedCommands { resume_rendering: value, ..self.commands },
                ..self
            },
            Flag::IsAnimating => SharedMemory {
                game_structure: SharedGameStructure { is_animating: value, ..self.game_structure },
                ..self
            },
            Flag::HasWon => SharedMemory {
                game_structure: SharedGameStructure { has_won: value, ..self.game_structure },
                ..self
            },
        }
    }

    /// What a word holds.
    pub open spec fn spec_word(self, word: Word) -> u32 {
        match word {
            Word::PyramidType => self.game_structure.pyramid_type,
            Word::BaseRadius => self.game_structure.base_radius,
            Word::Height => self.game_structure.height,
            Word::StartOrient => self.game_structure.start_orient,
            Word::TargetDoor => self.game_structure.target_door,
            Word::Color(face, channel) => self.game_structure.colors@[spec_color_index(
                face,
                channel,
            )],
            Word::Phase => self.game_structure.phase,
            Word::ElapsedSecs => self.game_structure.elapsed_secs,
            Word::CameraRadius => self.game_structure.camera_radius,
            Word::CameraX => self.game_structure.camera_x,
            Word::CameraY => self.game_structure.camera_y,
            Word::CameraZ => self.game_structure.camera_z,
            Word::PyramidYaw => self.game_structure.pyramid_yaw,
            Word::Attempts => self.game_structure.attempts,
            Word::Alignment => self.game_structure.alignment,
            Word::WinTime => self.game_structure.win_time,
        }
    }

    /// The game structure with one word set to `value`.
    pub open spec fn spec_structure_with_word(self, word: Word, value: u32) -> SharedGameStructure {
        let gs = self.game_structure;
        match word {
            Word::PyramidType => SharedGameStructure { pyramid_type: value, ..gs },
            Word::BaseRadius => SharedGameStructure { base_radius: value, ..gs },
            Word::Height => SharedGameStructure { height: value, ..gs },
            Word::StartOrient => SharedGameStructure { start_orient: value, ..gs },
            Word::TargetDoor => SharedGameStructure { target_door: value, ..gs },
            Word::Color(face, channel) => SharedGameStructure {
                colors: vstd::array::spec_array_update(
                    gs.colors,
                    spec_color_index(face, channel),
                    value,
                ),
                ..gs
            },
            Word::Phase => SharedGameStructure { phase: value, ..gs },
            Word::ElapsedSecs => SharedGameStructure { elapsed_secs: value, ..gs },
            Word::CameraRadius => SharedGameStructure { camera_radius: value, ..gs },
            Word::CameraX => SharedGameStructure { camera_x: value, ..gs },
            Word::CameraY => SharedGameStructure { camera_y: value, ..gs },
            Word::CameraZ => SharedGameStructure { camera_z: value, ..gs },
            Word::PyramidYaw => SharedGameStructure { pyramid_yaw: value, ..gs },
            Word::Attempts => SharedGameStructure { attempts: value, ..gs },
            Word::Alignment => SharedGameStructure { alignment: value, ..gs },
            Word::WinTime => SharedGameStructure { win_time: value, ..gs },
        }
    }

    /// The region with one word set to `value`.
    pub open spec fn spec_with_word(self, word: Word, value: u32) -> SharedMemory {
        SharedMemory { game_structure: self.spec_structure_with_word(word, value), ..self }
    }

    /// What a long word holds.
    pub open spec fn spec_long(self, long: Long) -> u64 {
        match long {
            Long::Seed => self.game_structure.seed,
            Long::FrameNumber => self.game_structure.frame_number,
        }
    }

    /// The region with one long word set to `value`.
    pub open spec fn spec_with_long(self, long: Long, value: u64) -> SharedMemory {
        match long {
            Long::Seed => SharedMemory {
                game_structure: SharedGameStructure { seed: value, ..self.game_structure },
                ..self
            },
            Long::FrameNumber => SharedMemory {
                game_structure: SharedGameStructure { frame_number: value, ..self.game_structure },
                ..self
            },
        }
    }

    /// The region after one operation.
    pub open spec fn spec_apply(self, op: Op) -> SharedMemory {
        match op {
            Op::LoadFlag { .. } => self,
            Op::StoreFlag { flag, value, .. } => self.spec_with_flag(flag, value),
            Op::TakeFlag { flag } => self.spec_with_flag(flag, false),
            Op::LoadWord { .. } => self,
            Op::StoreWord { word, value } => self.spec_with_word(word, value),
            Op::LoadLong { .. } => self,
            Op::StoreLong { long, value } => self.spec_with_long(long, value),
        }
    }

    /// What one operation yields on the region.
    pub open spec fn spec_reply(self, op: Op) -> Reply {
        match op {
            Op::LoadFlag { flag, .. } => Reply::Flag(self.spec_flag(flag)),
            Op::StoreFlag { .. } => Reply::Stored,
            Op::TakeFlag { flag } => Reply::Flag(self.spec_flag(flag)),
            Op::LoadWord { word } => Reply::Word(self.spec_word(word)),
            Op::StoreWord { .. } => Reply::Stored,
            Op::LoadLong { long } => Reply::Long(self.spec_long(long)),
            Op::StoreLong { .. } => Reply::Stored,
        }
    }

    /// The region after the first `n` operations of `plan`, one after the
    /// other.
    pub open spec fn spec_run(self, plan: Seq<Op>, n: nat) -> SharedMemory
        decreases n,
    {
        if n == 0 {
            self
        } else {
            self.spec_run(plan, (n - 1) as nat).spec_apply(plan[n - 1])
        }
    }

    /// What the operations of `plan` yield, each on the region as the ones
    /// before it left it.
    pub open spec fn spec_replies(self, plan: Seq<Op>) -> Seq<Reply> {
        Seq::new(plan.len(), |k: int| self.spec_run(plan, k as nat).spec_reply(plan[k]))
    }

    /// Reads a flag.
    pub fn flag(&self, flag: Flag) -> (value: bool)
        ensures
            value == self.spec_flag(flag),
    {
        match flag {
            Flag::RotateLeft => self.commands.rotate_left,
            Flag::RotateRight => self.commands.rotate_right,
            Flag::ZoomIn => self.commands.zoom_in,
            Flag::ZoomOut => self.commands.zoom_out,
            Flag::CheckAlignment => self.commands.check_alignment,
            Flag::Reset => self.commands.reset,
            Flag::BlankScreen => self.commands.blank_screen,
            Flag::StopRendering => self.commands.stop_rendering,
            Flag::ResumeRendering => self.commands.resume_rendering,
            Flag::IsAnimating => self.game_structure.is_animating,
            Flag::HasWon => self.game_structure.has_won,
        }
    }

    /// Writes a flag; every other cell stands.
    pub fn set_flag(&mut self, flag: Flag, value: bool)
        ensures
            *final(self) == old(self).spec_with_flag(flag, value),
    {
        let commands = self.commands;
        let game_structure = self.game_structure;
        let updated = match flag {
            Flag::RotateLeft => SharedMemory {
                commands: SharedCommands { rotate_left: value, ..commands },
                game_structure,
            },
            Flag::RotateRight => SharedMemory {
                commands: SharedCommands { rotate_right: value, ..commands },
                game_structure,
            },
            Flag::ZoomIn => SharedMemory {
                commands: SharedCommands { zoom_in: value, ..commands },
                game_structure,
            },
            Flag::ZoomOut => SharedMemory {
                commands: SharedCommands { zoom_out: value, ..commands },
                game_structure,
            },
            Flag::CheckAlignment => SharedMemory {
                commands: SharedCommands { check_alignment: value, ..commands },
                game_structure,
            },
            Flag::Reset => SharedMemory {
                commands: SharedCommands { reset: value, ..commands },
                game_structure,
            },
            Flag::BlankScreen => SharedMemory {
                commands: SharedCommands { blank_screen: value, ..commands },
                game_structure,
            },
            Flag::StopRendering => SharedMemory {
                commands: SharedCommands { stop_rendering: value, ..commands },
                game_structure,
            },
            Flag::ResumeRendering => SharedMemory {
                commands: SharedCommands { resume_rendering: value, ..commands },
                game_structure,
            },
            Flag::IsAnimating => SharedMemory {
                commands,
                game_structure: SharedGameStructure { is_animating: value, ..game_structure },
            },
            Flag::HasWon => SharedMemory {
                commands,
                game_structure: SharedGameStructure { has_won: value, ..game_structure },
            },
        };
        *self = updated;
    }

    /// Reads a word.
    pub fn word(&self, word: Word) -> (value: u32)
        ensures
            value == self.spec_word(word),
    {
        match word {
            Word::PyramidType => self.game_structure.pyramid_type,
            Word::BaseRadius => self.game_structure.base_radius,
            Word::Height => self.game_structure.height,
            Word::StartOrient => self.game_structure.start_orient,
            Word::TargetDoor => self.game_structure.target_door,
            Word::Color(face, channel) => self.game_structure.colors[color_index(face, channel)],
            Word::Phase => self.game_structure.phase,
            Word::ElapsedSecs => self.game_structure.elapsed_secs,
            Word::CameraRadius => self.game_structure.camera_radius,
            Word::CameraX => self.game_structure.camera_x,
            Word::CameraY => self.game_structure.camera_y,
            Word::CameraZ => self.game_structure.camera_z,
            Word::PyramidYaw => self.game_structure.pyramid_yaw,
            Word::Attempts => self.game_structure.attempts,
            Word::Alignment => self.game_structure.alignment,
            Word::WinTime => self.game_structure.win_time,
        }
    }

    /// Writes a word; every other cell stands.
    pub fn set_word(&mut self, word: Word, value: u32)
        ensures
            *final(self) == old(self).spec_with_word(word, value),
    {
        let gs = self.game_structure;
        let updated = match word {
            Word::PyramidType => SharedGameStructure { pyramid_type: value, ..gs },
            Word::BaseRadius => SharedGameStructure { base_radius: value, ..gs },
            Word::Height => SharedGameStructure { height: value, ..gs },
            Word::StartOrient => SharedGameStructure { start_orient: value, ..gs },
            Word::TargetDoor => SharedGameStructure { target_door: value, ..gs },
            Word::Color(face, channel) => {
                let i: usize = color_index(face, channel);
                let mut colors = gs.colors;
                colors[i] = value;
                assert(colors =~= vstd::array::spec_array_update(gs.colors, i as int, value));
                SharedGameStructure { colors, ..gs }
            },
            Word::Phase => SharedGameStructure { phase: value, ..gs },
            Word::ElapsedSecs => SharedGameStructure { elapsed_secs: value, ..gs },
            Word::CameraRadius => SharedGameStructure { camera_radius: value, ..gs },
            Word::CameraX => SharedGameStructure { camera_x: value, ..gs },
            Word::CameraY => SharedGameStructure { camera_y: value, ..gs },
            Word::CameraZ => SharedGameStructure { camera_z: value, ..gs },
            Word::PyramidYaw => SharedGameStructure { pyramid_yaw: value, ..gs },
            Word::Attempts => SharedGameStructure { attempts: value, ..gs },
            Word::Alignment => SharedGameStructure { alignment: value, ..gs },
            Word::WinTime => SharedGameStructure { win_time: value, ..gs },
        };
        self.game_structure = updated;
    }

    /// Reads a long word.
    pub fn long(&self, long: Long) -> (value: u64)
        ensures
            value == self.spec_long(long),
    {
        match long {
            Long::Seed => self.game_structure.seed,
            Long::FrameNumber => self.game_structure.frame_number,
        }
    }

    /// Writes a long word; every other cell stands.
    pub fn set_long(&mut self, long: Long, value: u64)
        ensures
            *final(self) == old(self).spec_with_long(long, value),
    {
        let gs = self.game_structure;
        let updated = match long {
            Long::Seed => SharedGameStructure { seed: value, ..gs },
            Long::FrameNumber => SharedGameStructure { frame_number: value, ..gs },
        };
        self.game_structure = updated;
    }

    /// Performs one operation on the image.
    pub fn perform(&mut self, op: &Op) -> (reply: Reply)
        ensures
            *final(self) == old(self).spec_apply(*op),
            reply == old(self).spec_reply(*op),
            op.spec_yields(reply),
    {
        match *op {
            Op::LoadFlag { flag, order: _ } => Reply::Flag(self.flag(flag)),
            Op::StoreFlag { flag, value, order: _ } => {
                self.set_flag(flag, value);
                Reply::Stored
            },
            Op::TakeFlag { flag } => {
                let held = self.flag(flag);
                self.set_flag(flag, false);
                Reply::Flag(held)
            },
            Op::LoadWord { word } => Reply::Word(self.word(word)),
            Op::StoreWord { word, value } => {
                self.set_word(word, value);
                Reply::Stored
            },
            Op::LoadLong { long } => Reply::Long(self.long(long)),
            Op::StoreLong { long, value } => {
                self.set_long(long, value);
                Reply::Stored
            },
        }
    }

    /// Performs the operations of `plan` on the image, one after the other,
    /// and hands out what each yielded.
    pub fn run(&mut self, plan: &Vec<Op>) -> (replies: Vec<Reply>)
        ensures
            *final(self) == old(self).spec_run(plan@, plan@.len()),
            replies@ == old(self).spec_replies(plan@),
    {
        let mut replies: Vec<Reply> = Vec::new();
        let mut k: usize = 0;
        while k < plan.len()
            invariant
                k <= plan@.len(),
                *self == old(self).spec_run(plan@, k as nat),
                replies@.len() == k,
                forall|j: int|
                    0 <= j < k ==> replies@[j] == old(self).spec_run(plan@, j as nat).spec_reply(
                        plan@[j],
                    ),
            decreases plan@.len() - k,
        {
            let reply = self.perform(&plan[k]);
            replies.push(reply);
            k += 1;
        }
        assert(replies@ =~= old(self).spec_replies(plan@));
        replies
    }
}

} // verus!

verus! {

impl SharedMemory {
    /// The region after all the operations of `plan`.
    pub open spec fn spec_run_all(self, plan: Seq<Op>) -> SharedMemory {
        self.spec_run(plan, plan.len())
    }
}

/// Running a plan goes by its operations alone: two plans that agree on
/// their first `n` operations leave the same region after those.
pub proof fn lemma_run_prefix(memory: SharedMemory, a: Seq<Op>, b: Seq<Op>, n: nat)
    requires
        n <= a.len(),
        n <= b.len(),
        forall|k: int| 0 <= k < n ==> a[k] == b[k],
    ensures
        memory.spec_run(a, n) == memory.spec_run(b, n),
    decreases n,
{
    if n > 0 {
        lemma_run_prefix(memory, a, b, (n - 1) as nat);
    }
}

/// Running one plan after another is running them joined.
pub proof fn lemma_run_concat(memory: SharedMemory, a: Seq<Op>, b: Seq<Op>, n: nat)
    requires
        n <= b.len(),
    ensures
        memory.spec_run(a + b, a.len() + n) == memory.spec_run_all(a).spec_run(b, n),
    decreases n,
{
    if n == 0 {
        lemma_run_prefix(memory, a + b, a, a.len());
    } else {
        lemma_run_concat(memory, a, b, (n - 1) as nat);
        assert((a + b)[a.len() + n - 1] == b[n - 1]);
    }
}

/// Loads change nothing: a plan of loads leaves the region as it found it,
/// and each load yields what its cell holds.
pub proof fn lemma_run_loads(memory: SharedMemory, plan: Seq<Op>, n: nat)
    requires
        n <= plan.len(),
        forall|k: int| 0 <= k < n ==> (#[trigger] plan[k]).spec_is_load(),
    ensures
        memory.spec_run(plan, n) == memory,
    decreases n,
{
    if n > 0 {
        lemma_run_loads(memory, plan, (n - 1) as nat);
    }
}

/// What the image yields fits the plan that was run on it.
pub proof fn lemma_replies_fit(memory: SharedMemory, plan: Seq<Op>)
    ensures
        spec_fits(plan, memory.spec_replies(plan)),
{
}

/// Writing a flag changes no other cell.
pub proof fn lemma_with_flag_frame(
    memory: SharedMemory,
    flag: Flag,
    value: bool,
    other: Flag,
    word: Word,
    long: Long,
)
    ensures
        memory.spec_with_flag(flag, value).spec_flag(flag) == value,
        other != flag ==> memory.spec_with_flag(flag, value).spec_flag(other) == memory.spec_flag(
            other,
        ),
        memory.spec_with_flag(flag, value).spec_word(word) == memory.spec_word(word),
        memory.spec_with_flag(flag, value).spec_long(long) == memory.spec_long(long),
{
}

/// Writing a word changes no other cell.
pub proof fn lemma_with_word_frame(
    memory: SharedMemory,
    word: Word,
    value: u32,
    other: Word,
    flag: Flag,
    long: Long,
)
    ensures
        memory.spec_with_word(word, value).spec_word(word) == value,
        other != word ==> memory.spec_with_word(word, value).spec_word(other) == memory.spec_word(
            other,
        ),
        memory.spec_with_word(word, value).spec_flag(flag) == memory.spec_flag(flag),
        memory.spec_with_word(word, value).spec_long(long) == memory.spec_long(long),
{
    match (word, other) {
        (Word::Color(f1, c1), Word::Color(f2, c2)) => {
            crate::cells::lemma_index_injective(
                Flag::Reset,
                Flag::Reset,
                word,
                other,
                Long::Seed,
                Long::Seed,
            );
        },
        _ => {},
    }
    match word {
        Word::Color(face, channel) => {
            crate::cells::lemma_color_positions(0, face, channel);
        },
        _ => {},
    }
}

/// Writing a long word changes no other cell.
pub proof fn lemma_with_long_frame(
    memory: SharedMemory,
    long: Long,
    value: u64,
    other: Long,
    flag: Flag,
    word: Word,
)
    ensures
        memory.spec_with_long(long, value).spec_long(long) == value,
        other != long ==> memory.spec_with_long(long, value).spec_long(other) == memory.spec_long(
            other,
        ),
        memory.spec_with_long(long, value).spec_flag(flag) == memory.spec_flag(flag),
        memory.spec_with_long(long, value).spec_word(word) == memory.spec_word(word),
{
}

/// The image is its cells: two images that agree on every flag, word and
/// long word are one image.
pub proof fn lemma_cells_determine_image(a: SharedMemory, b: SharedMemory)
    requires
        forall|flag: Flag| a.spec_flag(flag) == b.spec_flag(flag),
        forall|word: Word| a.spec_word(word) == b.spec_word(word),
        forall|long: Long| a.spec_long(long) == b.spec_long(long),
    ensures
        a == b,
{
    assert(a.spec_flag(Flag::RotateLeft) == b.spec_flag(Flag::RotateLeft));
    assert(a.spec_flag(Flag::RotateRight) == b.spec_flag(Flag::RotateRight));
    assert(a.spec_flag(Flag::ZoomIn) == b.spec_flag(Flag::ZoomIn));
    assert(a.spec_flag(Flag::ZoomOut) == b.spec_flag(Flag::ZoomOut));
    assert(a.spec_flag(Flag::CheckAlignment) == b.spec_flag(Flag::CheckAlignment));
    assert(a.spec_flag(Flag::Reset) == b.spec_flag(Flag::Reset));
    assert(a.spec_flag(Flag::BlankScreen) == b.spec_flag(Flag::BlankScreen));
    assert(a.spec_flag(Flag::StopRendering) == b.spec_flag(Flag::StopRendering));
    assert(a.spec_flag(Flag::ResumeRendering) == b.spec_flag(Flag::ResumeRendering));
    assert(a.spec_flag(Flag::IsAnimating) == b.spec_flag(Flag::IsAnimating));
    assert(a.spec_flag(Flag::HasWon) == b.spec_flag(Flag::HasWon));
    assert(a.commands == b.commands);
    assert(a.spec_long(Long::Seed) == b.spec_long(Long::Seed));
    assert(a.spec_long(Long::FrameNumber) == b.spec_long(Long::FrameNumber));
    assert(a.spec_word(Word::PyramidType) == b.spec_word(Word::PyramidType));
    assert(a.spec_word(Word::BaseRadius) == b.spec_word(Word::BaseRadius));
    assert(a.spec_word(Word::Height) == b.spec_word(Word::Height));
    assert(a.spec_word(Word::StartOrient) == b.spec_word(Word::StartOrient));
    assert(a.spec_word(Word::TargetDoor) == b.spec_word(Word::TargetDoor));
    assert(a.spec_word(Word::Phase) == b.spec_word(Word::Phase));
    assert(a.spec_word(Word::ElapsedSecs) == b.spec_word(Word::ElapsedSecs));
    assert(a.spec_word(Word::CameraRadius) == b.spec_word(Word::CameraRadius));
    assert(a.spec_word(Word::CameraX) == b.spec_word(Word::CameraX));
    assert(a.spec_word(Word::CameraY) == b.spec_word(Word::CameraY));
    assert(a.spec_word(Word::CameraZ) == b.spec_word(Word::CameraZ));
    assert(a.spec_word(Word::PyramidYaw) == b.spec_word(Word::PyramidYaw));
    assert(a.spec_word(Word::Attempts) == b.spec_word(Word::Attempts));
    assert(a.spec_word(Word::Alignment) == b.spec_word(Word::Alignment));
    assert(a.spec_word(Word::WinTime) == b.spec_word(Word::WinTime));
    assert forall|i: int| 0 <= i < 12 implies a.game_structure.colors@[i]
        == b.game_structure.colors@[i] by {
        let word = crate::cells::spec_color_word(i);
        crate::cells::lemma_color_positions(i, crate::cells::Face::First, crate::cells::Channel::Red);
        assert(a.spec_word(word) == b.spec_word(word));
    }
    assert(a.game_structure.colors =~= b.game_structure.colors);
}

/// A region of zero bytes is a fresh region: where every flag is lowered
/// and every word and long word is zero, the image is the one that `new`
/// gives.
pub proof fn lemma_zeroed_region_is_new(memory: SharedMemory)
    requires
        forall|flag: Flag| !memory.spec_flag(flag),
        forall|word: Word| memory.spec_word(word) == 0,
        forall|long: Long| memory.spec_long(long) == 0,
    ensures
        memory == SharedMemory::spec_new(),
{
    let fresh = SharedMemory::spec_new();
    assert forall|word: Word| memory.spec_word(word) == fresh.spec_word(word) by {
        match word {
            Word::Color(face, channel) => {
                crate::cells::lemma_color_positions(0, face, channel);
            },
            _ => {},
        }
    }
    assert forall|flag: Flag| memory.spec_flag(flag) == fresh.spec_flag(flag) by {}
    assert forall|long: Long| memory.spec_long(long) == fresh.spec_long(long) by {}
    lemma_cells_determine_image(memory, fresh);
}

} // verus!
