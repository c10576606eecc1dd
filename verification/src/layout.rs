//! Where each cell lies in the region, byte for byte.
//!
//! The region holds two structures, the command mailbox and the game
//! structure. Within a structure the cells follow one another in a fixed
//! order, each at the first offset after its predecessor that is a multiple
//! of its own width; a structure is as large as the next multiple of its
//! alignment after its last cell. Two programs that lay the region out by
//! this table read the same bytes as the same cells.

use vstd::prelude::*;
use crate::cells::{color_index, spec_color_index, Cell, Flag, Long, Word};

verus! {

/// The two structures of the region.
#[derive(Clone, Copy, Debug, PartialEq, Eq, Structural)]
pub enum Structure {
    Commands,
    GameStructure,
}

/// The parts of the region by who writes them: the command mailbox and
/// the configuration are the controller's to write, the state is the
/// game's. Only the triggers of the mailbox are written by both: the
/// controller raises them, the game lowers them.
#[derive(Clone, Copy, Debug, PartialEq, Eq, Structural)]
pub enum Part {
    Commands,
    Config,
    State,
}

/// Bytes of the command mailbox.
pub const COMMANDS_SIZE: usize = 9;

/// Alignment of the command mailbox: that of its widest cell.
pub const COMMANDS_ALIGN: usize = 1;

/// Bytes of the game structure.
pub const GAME_STRUCTURE_SIZE: usize = 128;

/// Alignment of the game structure: that of its widest cell.
pub const GAME_STRUCTURE_ALIGN: usize = 8;

/// Offset of the command mailbox in the region.
pub const COMMANDS_BASE: usize = 0;

/// Offset of the game structure in the region.
pub const GAME_STRUCTURE_BASE: usize = 16;

/// Bytes of the region.
pub const REGION_SIZE: usize = 144;

/// Number of cells of the command mailbox.
pub const COMMANDS_CELLS: usize = 9;

/// Number of cells of the game structure.
pub const GAME_STRUCTURE_CELLS: usize = 31;

/// The least multiple of `align` that is not below `n`.
pub open spec fn align_up(n: int, align: int) -> int
    recommends
        n >= 0,
        align > 0,
{
    if n % align == 0 {
        n
    } else {
        n + (align - n % align)
    }
}

impl Structure {
    /// Bytes of the structure.
    pub open spec fn spec_size(self) -> int {
        match self {
            Structure::Commands => 9,
            Structure::GameStructure => 128,
        }
    }

    /// Alignment of the structure.
    pub open spec fn spec_align(self) -> int {
        match self {
            Structure::Commands => 1,
            Structure::GameStructure => 8,
        }
    }

    /// Offset of the structure in the region.
    pub open spec fn spec_base(self) -> int {
        match self {
            Structure::Commands => 0,
            Structure::GameStructure => 16,
        }
    }

    /// Number of cells of the structure.
    pub open spec fn spec_cells(self) -> int {
        match self {
            Structure::Commands => 9,
            Structure::GameStructure => 31,
        }
    }

    /// Bytes of the structure.
    pub fn size(self) -> (n: usize)
        ensures
            n == self.spec_size(),
    {
        match self {
            Structure::Commands => COMMANDS_SIZE,
            Structure::GameStructure => GAME_STRUCTURE_SIZE,
        }
    }

    /// Alignment of the structure.
    pub fn align(self) -> (n: usize)
        ensures
            n == self.spec_align(),
    {
        match self {
            Structure::Commands => COMMANDS_ALIGN,
            Structure::GameStructure => GAME_STRUCTURE_ALIGN,
        }
    }

    /// Offset of the structure in the region.
    pub fn base(self) -> (n: usize)
        ensures
            n == self.spec_base(),
    {
        match self {
            Structure::Commands => COMMANDS_BASE,
            Structure::GameStructure => GAME_STRUCTURE_BASE,
        }
    }
}

impl Cell {
    /// Bytes of the cell, which is also its alignment.
    pub open spec fn spec_width(self) -> int {
        match self {
            Cell::Flag(_) => 1,
            Cell::Word(_) => 4,
            Cell::Long(_) => 8,
        }
    }

    /// The structure that the cell belongs to.
    pub open spec fn spec_structure(self) -> Structure {
        match self {
            Cell::Flag(Flag::IsAnimating) => Structure::GameStructure,
            Cell::Flag(Flag::HasWon) => Structure::GameStructure,
            Cell::Flag(_) => Structure::Commands,
            Cell::Word(_) => Structure::GameStructure,
            Cell::Long(_) => Structure::GameStructure,
        }
    }

    /// Offset of the cell within its structure.
    pub open spec fn spec_offset(self) -> int {
        match self {
            Cell::Flag(Flag::RotateLeft) => 0,
            Cell::Flag(Flag::RotateRight) => 1,
            Cell::Flag(Flag::ZoomIn) => 2,
            Cell::Flag(Flag::ZoomOut) => 3,
            Cell::Flag(Flag::CheckAlignment) => 4,
            Cell::Flag(Flag::Reset) => 5,
            Cell::Flag(Flag::BlankScreen) => 6,
            Cell::Flag(Flag::StopRendering) => 7,
            Cell::Flag(Flag::ResumeRendering) => 8,
            Cell::Long(Long::Seed) => 0,
            Cell::Word(Word::PyramidType) => 8,
            Cell::Word(Word::BaseRadius) => 12,
            Cell::Word(Word::Height) => 16,
            Cell::Word(Word::StartOrient) => 20,
            Cell::Word(Word::TargetDoor) => 24,
            Cell::Word(Word::Color(face, channel)) => 28 + 4 * spec_color_index(face, channel),
            Cell::Word(Word::Phase) => 76,
            Cell::Long(Long::FrameNumber) => 80,
            Cell::Word(Word::ElapsedSecs) => 88,
            Cell::Word(Word::CameraRadius) => 92,
            Cell::Word(Word::CameraX) => 96,
            Cell::Word(Word::CameraY) => 100,
            Cell::Word(Word::CameraZ) => 104,
            Cell::Word(Word::PyramidYaw) => 108,
            Cell::Word(Word::Attempts) => 112,
            Cell::Word(Word::Alignment) => 116,
            Cell::Flag(Flag::IsAnimating) => 120,
            Cell::Flag(Flag::HasWon) => 121,
            Cell::Word(Word::WinTime) => 124,
        }
    }

    /// Offset of the cell in the region.
    pub open spec fn spec_region_offset(self) -> int {
        self.spec_structure().spec_base() + self.spec_offset()
    }

    /// Place of the cell among the cells of its structure, in their order.
    pub open spec fn spec_ordinal(self) -> int {
        match self {
            Cell::Flag(Flag::RotateLeft) => 0,
            Cell::Flag(Flag::RotateRight) => 1,
            Cell::Flag(Flag::ZoomIn) => 2,
            Cell::Flag(Flag::ZoomOut) => 3,
            Cell::Flag(Flag::CheckAlignment) => 4,
            Cell::Flag(Flag::Reset) => 5,
            Cell::Flag(Flag::BlankScreen) => 6,
            Cell::Flag(Flag::StopRendering) => 7,
            Cell::Flag(Flag::ResumeRendering) => 8,
            Cell::Long(Long::Seed) => 0,
            Cell::Word(Word::PyramidType) => 1,
            Cell::Word(Word::BaseRadius) => 2,
            Cell::Word(Word::Height) => 3,
            Cell::Word(Word::StartOrient) => 4,
            Cell::Word(Word::TargetDoor) => 5,
            Cell::Word(Word::Color(face, channel)) => 6 + spec_color_index(face, channel),
            Cell::Word(Word::Phase) => 18,
            Cell::Long(Long::FrameNumber) => 19,
            Cell::Word(Word::ElapsedSecs) => 20,
            Cell::Word(Word::CameraRadius) => 21,
            Cell::Word(Word::CameraX) => 22,
            Cell::Word(Word::CameraY) => 23,
            Cell::Word(Word::CameraZ) => 24,
            Cell::Word(Word::PyramidYaw) => 25,
            Cell::Word(Word::Attempts) => 26,
            Cell::Word(Word::Alignment) => 27,
            Cell::Flag(Flag::IsAnimating) => 28,
            Cell::Flag(Flag::HasWon) => 29,
            Cell::Word(Word::WinTime) => 30,
        }
    }

    /// The part of the region that the cell belongs to.
    pub open spec fn spec_part(self) -> Part {
        match self {
            Cell::Flag(Flag::IsAnimating) => Part::State,
            Cell::Flag(Flag::HasWon) => Part::State,
            Cell::Flag(_) => Part::Commands,
            Cell::Long(Long::Seed) => Part::Config,
            Cell::Long(Long::FrameNumber) => Part::State,
            Cell::Word(Word::PyramidType) => Part::Config,
            Cell::Word(Word::BaseRadius) => Part::Config,
            Cell::Word(Word::Height) => Part::Config,
            Cell::Word(Word::StartOrient) => Part::Config,
            Cell::Word(Word::TargetDoor) => Part::Config,
            Cell::Word(Word::Color(_, _)) => Part::Config,
            Cell::Word(_) => Part::State,
        }
    }

    /// The part of the region that the cell belongs to.
    pub fn part(self) -> (part: Part)
        ensures
            part == self.spec_part(),
    {
        match self {
            Cell::Flag(Flag::IsAnimating) => Part::State,
            Cell::Flag(Flag::HasWon) => Part::State,
            Cell::Flag(_) => Part::Commands,
            Cell::Long(Long::Seed) => Part::Config,
            Cell::Long(Long::FrameNumber) => Part::State,
            Cell::Word(Word::PyramidType) => Part::Config,
            Cell::Word(Word::BaseRadius) => Part::Config,
            Cell::Word(Word::Height) => Part::Config,
            Cell::Word(Word::StartOrient) => Part::Config,
            Cell::Word(Word::TargetDoor) => Part::Config,
            Cell::Word(Word::Color(_, _)) => Part::Config,
            Cell::Word(_) => Part::State,
        }
    }

    /// Bytes of the cell.
    pub fn width(self) -> (n: usize)
        ensures
            n == self.spec_width(),
    {
        match self {
            Cell::Flag(_) => 1,
            Cell::Word(_) => 4,
            Cell::Long(_) => 8,
        }
    }

    /// The structure that the cell belongs to.
    pub fn structure(self) -> (s: Structure)
        ensures
            s == self.spec_structure(),
    {
        match self {
            Cell::Flag(Flag::IsAnimating) => Structure::GameStructure,
            Cell::Flag(Flag::HasWon) => Structure::GameStructure,
            Cell::Flag(_) => Structure::Commands,
            Cell::Word(_) => Structure::GameStructure,
            Cell::Long(_) => Structure::GameStructure,
        }
    }

    /// Offset of the cell within its structure.
    pub fn offset(self) -> (n: usize)
        ensures
            n == self.spec_offset(),
    {
        match self {
            Cell::Flag(Flag::RotateLeft) => 0,
            Cell::Flag(Flag::RotateRight) => 1,
            Cell::Flag(Flag::ZoomIn) => 2,
            Cell::Flag(Flag::ZoomOut) => 3,
            Cell::Flag(Flag::CheckAlignment) => 4,
            Cell::Flag(Flag::Reset) => 5,
            Cell::Flag(Flag::BlankScreen) => 6,
            Cell::Flag(Flag::StopRendering) => 7,
            Cell::Flag(Flag::ResumeRendering) => 8,
            Cell::Long(Long::Seed) => 0,
            Cell::Word(Word::PyramidType) => 8,
            Cell::Word(Word::BaseRadius) => 12,
            Cell::Word(Word::Height) => 16,
            Cell::Word(Word::StartOrient) => 20,
            Cell::Word(Word::TargetDoor) => 24,
            Cell::Word(Word::Color(face, channel)) => 28 + 4 * color_index(face, channel),
            Cell::Word(Word::Phase) => 76,
            Cell::Long(Long::FrameNumber) => 80,
            Cell::Word(Word::ElapsedSecs) => 88,
            Cell::Word(Word::CameraRadius) => 92,
            Cell::Word(Word::CameraX) => 96,
            Cell::Word(Word::CameraY) => 100,
            Cell::Word(Word::CameraZ) => 104,
            Cell::Word(Word::PyramidYaw) => 108,
            Cell::Word(Word::Attempts) => 112,
            Cell::Word(Word::Alignment) => 116,
            Cell::Flag(Flag::IsAnimating) => 120,
            Cell::Flag(Flag::HasWon) => 121,
            Cell::Word(Word::WinTime) => 124,
        }
    }

    /// Offset of the cell in the region.
    pub fn region_offset(self) -> (n: usize)
        ensures
            n == self.spec_region_offset(),
            n + self.spec_width() <= REGION_SIZE,
    {
        self.structure().base() + self.offset()
    }
}

/// Every cell lies at a multiple of its width, in its structure and in the
/// region, and within the bytes of its structure and of the region.
pub proof fn lemma_cell_aligned_in_bounds(cell: Cell)
    ensures
        cell.spec_offset() % cell.spec_width() == 0,
        cell.spec_region_offset() % cell.spec_width() == 0,
        0 <= cell.spec_offset(),
        cell.spec_offset() + cell.spec_width() <= cell.spec_structure().spec_size(),
        cell.spec_region_offset() + cell.spec_width() <= REGION_SIZE,
        cell.spec_structure().spec_align() % cell.spec_width() == 0,
{
}

/// No byte belongs to two cells.
pub proof fn lemma_cells_disjoint(a: Cell, b: Cell)
    requires
        a != b,
    ensures
        a.spec_region_offset() + a.spec_width() <= b.spec_region_offset()
            || b.spec_region_offset() + b.spec_width() <= a.spec_region_offset(),
{
}

/// Within a structure the cells are numbered from zero without gap or
/// repetition.
pub proof fn lemma_ordinal_names_cell(a: Cell, b: Cell)
    ensures
        0 <= a.spec_ordinal() < a.spec_structure().spec_cells(),
        a.spec_structure() == b.spec_structure() && a.spec_ordinal() == b.spec_ordinal() ==> a
            == b,
{
}

/// The padding rule. The first cell of a structure lies at offset zero; every
/// other cell lies at the first multiple of its width after the end of the
/// cell before it; and the structure ends at the first multiple of its
/// alignment after its last cell.
pub proof fn lemma_cells_packed_in_order(prev: Cell, next: Cell)
    requires
        prev.spec_structure() == next.spec_structure(),
        next.spec_ordinal() == prev.spec_ordinal() + 1,
    ensures
        next.spec_offset() == align_up(prev.spec_offset() + prev.spec_width(), next.spec_width()),
        prev.spec_ordinal() == 0 ==> prev.spec_offset() == 0,
        next.spec_ordinal() + 1 == next.spec_structure().spec_cells() ==> next.spec_structure(
        ).spec_size() == align_up(
            next.spec_offset() + next.spec_width(),
            next.spec_structure().spec_align(),
        ),
{
}

/// The two structures follow one another in the region: the mailbox at its
/// start, the game structure at the first multiple of its alignment after
/// the mailbox, and the region ends where the game structure ends.
pub proof fn lemma_region_packed()
    ensures
        Structure::Commands.spec_base() == 0,
        Structure::GameStructure.spec_base() == align_up(
            Structure::Commands.spec_base() + Structure::Commands.spec_size(),
            Structure::GameStructure.spec_align(),
        ),
        REGION_SIZE == align_up(
            Structure::GameStructure.spec_base() + Structure::GameStructure.spec_size(),
            Structure::GameStructure.spec_align(),
        ),
        COMMANDS_SIZE == 9,
        GAME_STRUCTURE_SIZE == 128,
{
}

/// The parts lie one after the other: the mailbox, then the configuration
/// in the first 76 bytes of the game structure, then the state.
pub proof fn lemma_parts_in_order(cell: Cell)
    ensures
        cell.spec_part() == Part::Commands <==> cell.spec_structure() == Structure::Commands,
        cell.spec_part() == Part::Config <==> cell.spec_structure() == Structure::GameStructure
            && cell.spec_offset() < 76,
        cell.spec_part() == Part::State <==> cell.spec_structure() == Structure::GameStructure
            && cell.spec_offset() >= 76,
{
}

} // verus!
