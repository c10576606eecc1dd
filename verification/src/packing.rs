//! The padding rule, for any list of fields.
//!
//! Fields that are laid out one after the other, each at the first multiple
//! of its own width after the field before it, make a structure whose size
//! is the first multiple of its widest field after its last field. This
//! module computes that layout, so that the size and the offsets of a
//! structure need not be taken on trust, and shows that the table of the
//! region is what the rule gives for the region's cells.

use vstd::prelude::*;
use crate::cells::{color_word, lemma_color_positions, spec_color_word, Cell, Flag, Long, Word};
use crate::layout::{align_up, lemma_cells_packed_in_order, Structure};

verus! {

/// Where the first `n` fields end: each field lies at the first multiple of
/// its width after the end of the fields before it.
pub open spec fn spec_packed_end(widths: Seq<usize>, n: nat) -> int
    decreases n,
{
    if n == 0 {
        0
    } else {
        align_up(spec_packed_end(widths, (n - 1) as nat), widths[n - 1] as int) + widths[n - 1]
    }
}

/// Where field `i` lies.
pub open spec fn spec_packed_offset(widths: Seq<usize>, i: nat) -> int {
    align_up(spec_packed_end(widths, i), widths[i as int] as int)
}

/// The widest of the first `n` fields; one, where there is none.
pub open spec fn spec_widest(widths: Seq<usize>, n: nat) -> int
    decreases n,
{
    if n == 0 {
        1
    } else {
        let before = spec_widest(widths, (n - 1) as nat);
        if widths[n - 1] > before {
            widths[n - 1] as int
        } else {
            before
        }
    }
}

/// The size of the structure: the first multiple of its widest field after
/// its last field.
pub open spec fn spec_packed_size(widths: Seq<usize>) -> int {
    align_up(spec_packed_end(widths, widths.len()), spec_widest(widths, widths.len()))
}

/// Every field has a width.
pub open spec fn spec_all_positive(widths: Seq<usize>) -> bool {
    forall|i: int| 0 <= i < widths.len() ==> widths[i] > 0
}

/// A computed layout.
#[derive(Debug, PartialEq, Eq)]
pub struct PackedLayout {
    /// Offset of each field.
    pub offsets: Vec<usize>,
    /// Bytes of the structure.
    pub size: usize,
    /// Alignment of the structure: the width of its widest field.
    pub align: usize,
}

/// The first multiple of `align` that is not below `n` is at least `n`,
/// less than `n + align`, and a multiple of `align`.
pub proof fn lemma_align_up(n: int, align: int)
    requires
        n >= 0,
        align > 0,
    ensures
        n <= align_up(n, align) < n + align,
        align_up(n, align) % align == 0,
{
    if n % align != 0 {
        let r = n % align;
        let q = n / align;
        assert(n == q * align + r && 0 <= r < align) by (nonlinear_arith)
            requires
                align > 0,
                r == n % align,
                q == n / align,
        ;
        assert((q * align + align) % align == 0) by (nonlinear_arith)
            requires
                align > 0,
        ;
    }
}

/// The ends of the fields never go back, and the structure is at least as
/// large as the end of any of its fields.
pub proof fn lemma_packed_monotone(widths: Seq<usize>, k: nat, n: nat)
    requires
        spec_all_positive(widths),
        k <= n <= widths.len(),
    ensures
        0 <= spec_packed_end(widths, k) <= spec_packed_end(widths, n),
        spec_widest(widths, n) >= 1,
        n == widths.len() ==> spec_packed_end(widths, n) <= spec_packed_size(widths),
    decreases n,
{
    if n > 0 {
        if k < n {
            lemma_packed_monotone(widths, k, (n - 1) as nat);
        } else {
            lemma_packed_monotone(widths, (n - 1) as nat, (n - 1) as nat);
        }
        lemma_align_up(spec_packed_end(widths, (n - 1) as nat), widths[n - 1] as int);
    }
    if n == widths.len() {
        lemma_align_up(spec_packed_end(widths, n), spec_widest(widths, n));
    }
}

/// Lays fields of the given widths out by the padding rule. Hands out
/// nothing exactly when a field has no width or the structure would not
/// fit the address space.
pub fn pack(widths: &Vec<usize>) -> (layout: Option<PackedLayout>)
    ensures
        layout is Some <==> spec_all_positive(widths@) && spec_packed_size(widths@) <= usize::MAX,
        layout matches Some(l) ==> {
            &&& l.offsets@.len() == widths@.len()
            &&& forall|i: int|
                0 <= i < widths@.len() ==> l.offsets@[i] == spec_packed_offset(widths@, i as nat)
            &&& l.size == spec_packed_size(widths@)
            &&& l.align == spec_widest(widths@, widths@.len())
        },
{
    let mut offsets: Vec<usize> = Vec::new();
    let mut end: usize = 0;
    let mut align: usize = 1;
    let mut i: usize = 0;
    while i < widths.len()
        invariant
            i <= widths@.len(),
            offsets@.len() == i,
            forall|j: int| 0 <= j < i ==> widths@[j] > 0,
            forall|j: int| 0 <= j < i ==> offsets@[j] == spec_packed_offset(widths@, j as nat),
            end == spec_packed_end(widths@, i as nat),
            align == spec_widest(widths@, i as nat),
            align >= 1,
        decreases widths@.len() - i,
    {
        let width = widths[i];
        if width == 0 {
            return None;
        }
        proof {
            lemma_align_up(end as int, width as int);
        }
        let rem = end % width;
        let pad: usize = if rem == 0 {
            0
        } else {
            width - rem
        };
        if pad > usize::MAX - end || width > usize::MAX - end - pad {
            proof {
                if spec_all_positive(widths@) {
                    lemma_packed_monotone(widths@, (i + 1) as nat, widths@.len());
                }
            }
            return None;
        }
        offsets.push(end + pad);
        end = end + pad + width;
        if width > align {
            align = width;
        }
        i += 1;
    }
    proof {
        lemma_align_up(end as int, align as int);
    }
    let rem = end % align;
    let pad: usize = if rem == 0 {
        0
    } else {
        align - rem
    };
    if pad > usize::MAX - end {
        return None;
    }
    Some(PackedLayout { offsets, size: end + pad, align })
}

/// The cell at a place among the cells of a structure, in their order.
pub open spec fn spec_cell_at(structure: Structure, ordinal: int) -> Cell {
    match structure {
        Structure::Commands => {
            if ordinal <= 0 {
                Cell::Flag(Flag::RotateLeft)
            } else if ordinal == 1 {
                Cell::Flag(Flag::RotateRight)
            } else if ordinal == 2 {
                Cell::Flag(Flag::ZoomIn)
            } else if ordinal == 3 {
                Cell::Flag(Flag::ZoomOut)
            } else if ordinal == 4 {
                Cell::Flag(Flag::CheckAlignment)
            } else if ordinal == 5 {
                Cell::Flag(Flag::Reset)
            } else if ordinal == 6 {
                Cell::Flag(Flag::BlankScreen)
            } else if ordinal == 7 {
                Cell::Flag(Flag::StopRendering)
            } else {
                Cell::Flag(Flag::ResumeRendering)
            }
        },
        Structure::GameStructure => {
            if ordinal <= 0 {
                Cell::Long(Long::Seed)
            } else if ordinal == 1 {
                Cell::Word(Word::PyramidType)
            } else if ordinal == 2 {
                Cell::Word(Word::BaseRadius)
            } else if ordinal == 3 {
                Cell::Word(Word::Height)
            } else if ordinal == 4 {
                Cell::Word(Word::StartOrient)
            } else if ordinal == 5 {
                Cell::Word(Word::TargetDoor)
            } else if ordinal < 18 {
                Cell::Word(spec_color_word(ordinal - 6))
            } else if ordinal == 18 {
                Cell::Word(Word::Phase)
            } else if ordinal == 19 {
                Cell::Long(Long::FrameNumber)
            } else if ordinal == 20 {
                Cell::Word(Word::ElapsedSecs)
            } else if ordinal == 21 {
                Cell::Word(Word::CameraRadius)
            } else if ordinal == 22 {
                Cell::Word(Word::CameraX)
            } else if ordinal == 23 {
                Cell::Word(Word::CameraY)
            } else if ordinal == 24 {
                Cell::Word(Word::CameraZ)
            } else if ordinal == 25 {
                Cell::Word(Word::PyramidYaw)
            } else if ordinal == 26 {
                Cell::Word(Word::Attempts)
            } else if ordinal == 27 {
                Cell::Word(Word::Alignment)
            } else if ordinal == 28 {
                Cell::Flag(Flag::IsAnimating)
            } else if ordinal == 29 {
                Cell::Flag(Flag::HasWon)
            } else {
                Cell::Word(Word::WinTime)
            }
        },
    }
}

/// The cells of a structure, in their order.
pub open spec fn spec_cells_of(structure: Structure) -> Seq<Cell> {
    Seq::new(structure.spec_cells() as nat, |ordinal: int| spec_cell_at(structure, ordinal))
}

/// The widths of the cells of a structure, in their order.
pub open spec fn spec_widths_of(structure: Structure) -> Seq<usize> {
    Seq::new(
        structure.spec_cells() as nat,
        |ordinal: int| spec_cell_at(structure, ordinal).spec_width() as usize,
    )
}

/// Every cell stands at its place in the order of its structure.
pub proof fn lemma_cell_at_ordinal(structure: Structure, ordinal: int, cell: Cell)
    ensures
        0 <= ordinal < structure.spec_cells() ==> spec_cell_at(structure, ordinal).spec_ordinal()
            == ordinal && spec_cell_at(structure, ordinal).spec_structure() == structure,
        spec_cell_at(cell.spec_structure(), cell.spec_ordinal()) == cell,
{
    if structure == Structure::GameStructure && 6 <= ordinal < 18 {
        lemma_color_positions(ordinal - 6, crate::cells::Face::First, crate::cells::Channel::Red);
    }
    match cell {
        Cell::Word(Word::Color(face, channel)) => {
            lemma_color_positions(0, face, channel);
        },
        _ => {},
    }
}

/// Lists the cells of a structure, in their order.
pub fn cells_of(structure: Structure) -> (cells: Vec<Cell>)
    ensures
        cells@ == spec_cells_of(structure),
{
    let mut cells: Vec<Cell> = Vec::new();
    match structure {
        Structure::Commands => {
            cells.push(Cell::Flag(Flag::RotateLeft));
            cells.push(Cell::Flag(Flag::RotateRight));
            cells.push(Cell::Flag(Flag::ZoomIn));
            cells.push(Cell::Flag(Flag::ZoomOut));
            cells.push(Cell::Flag(Flag::CheckAlignment));
            cells.push(Cell::Flag(Flag::Reset));
            cells.push(Cell::Flag(Flag::BlankScreen));
            cells.push(Cell::Flag(Flag::StopRendering));
            cells.push(Cell::Flag(Flag::ResumeRendering));
        },
        Structure::GameStructure => {
            cells.push(Cell::Long(Long::Seed));
            cells.push(Cell::Word(Word::PyramidType));
            cells.push(Cell::Word(Word::BaseRadius));
            cells.push(Cell::Word(Word::Height));
            cells.push(Cell::Word(Word::StartOrient));
            cells.push(Cell::Word(Word::TargetDoor));
            let mut i: usize = 0;
            while i < 12
                invariant
                    i <= 12,
                    structure == Structure::GameStructure,
                    cells@.len() == 6 + i,
                    forall|k: int| 0 <= k < 6 + i ==> cells@[k] == spec_cell_at(structure, k),
                decreases 12 - i,
            {
                match color_word(i) {
                    Some(word) => {
                        cells.push(Cell::Word(word));
                    },
                    None => {
                        assert(false);
                    },
                }
                i += 1;
            }
            cells.push(Cell::Word(Word::Phase));
            cells.push(Cell::Long(Long::FrameNumber));
            cells.push(Cell::Word(Word::ElapsedSecs));
            cells.push(Cell::Word(Word::CameraRadius));
            cells.push(Cell::Word(Word::CameraX));
            cells.push(Cell::Word(Word::CameraY));
            cells.push(Cell::Word(Word::CameraZ));
            cells.push(Cell::Word(Word::PyramidYaw));
            cells.push(Cell::Word(Word::Attempts));
            cells.push(Cell::Word(Word::Alignment));
            cells.push(Cell::Flag(Flag::IsAnimating));
            cells.push(Cell::Flag(Flag::HasWon));
            cells.push(Cell::Word(Word::WinTime));
        },
    }
    assert(cells@ =~= spec_cells_of(structure));
    cells
}

/// Lists the widths of the cells of a structure, in their order.
pub fn widths_of(structure: Structure) -> (widths: Vec<usize>)
    ensures
        widths@ == spec_widths_of(structure),
{
    let cells = cells_of(structure);
    let mut widths: Vec<usize> = Vec::new();
    let mut k: usize = 0;
    while k < cells.len()
        invariant
            cells@ == spec_cells_of(structure),
            k <= cells@.len(),
            widths@.len() == k,
            forall|j: int| 0 <= j < k ==> widths@[j] == cells@[j].spec_width() as usize,
        decreases cells@.len() - k,
    {
        widths.push(cells[k].width());
        k += 1;
    }
    assert(widths@ =~= spec_widths_of(structure));
    widths
}

/// By the padding rule the first `n` cells of a structure end where the
/// table says cell `n - 1` ends, and none of them is wider than the
/// structure's alignment.
pub proof fn lemma_table_packed_upto(structure: Structure, n: nat)
    requires
        n <= structure.spec_cells(),
    ensures
        spec_packed_end(spec_widths_of(structure), n) == (if n == 0 {
            0
        } else {
            spec_cell_at(structure, n - 1).spec_offset() + spec_cell_at(
                structure,
                n - 1,
            ).spec_width()
        }),
        spec_widest(spec_widths_of(structure), n) <= structure.spec_align(),
        n == structure.spec_cells() ==> spec_widest(spec_widths_of(structure), n)
            == structure.spec_align(),
    decreases n,
{
    let widths = spec_widths_of(structure);
    if n > 0 {
        lemma_table_packed_upto(structure, (n - 1) as nat);
        let cell = spec_cell_at(structure, n - 1);
        lemma_cell_at_ordinal(structure, n - 1, cell);
        assert(widths[n - 1] == cell.spec_width());
        if n > 1 {
            let prev = spec_cell_at(structure, n - 2);
            lemma_cell_at_ordinal(structure, n - 2, prev);
            lemma_cells_packed_in_order(prev, cell);
        } else {
            assert(cell.spec_offset() == 0);
        }
        if n == structure.spec_cells() {
            lemma_widest_reached(structure);
        }
    }
}

/// The widest cell of each structure is as wide as the structure's
/// alignment.
proof fn lemma_widest_reached(structure: Structure)
    ensures
        spec_widest(spec_widths_of(structure), structure.spec_cells() as nat)
            >= structure.spec_align(),
{
    let widths = spec_widths_of(structure);
    lemma_widest_grows(widths, 1, structure.spec_cells() as nat);
    assert(spec_widest(widths, 1) >= widths[0]) by {
        assert(spec_widest(widths, 0) == 1);
    }
}

/// The widest of more fields is no narrower.
proof fn lemma_widest_grows(widths: Seq<usize>, k: nat, n: nat)
    requires
        k <= n <= widths.len(),
    ensures
        spec_widest(widths, k) <= spec_widest(widths, n),
    decreases n,
{
    if k < n {
        lemma_widest_grows(widths, k, (n - 1) as nat);
    }
}

/// The table of the region is what the padding rule gives: each cell lies
/// where the rule puts it, and each structure has the size and alignment
/// that the rule gives it.
pub proof fn lemma_table_is_packed(cell: Cell)
    ensures
        spec_packed_offset(spec_widths_of(cell.spec_structure()), cell.spec_ordinal() as nat)
            == cell.spec_offset(),
        spec_packed_size(spec_widths_of(cell.spec_structure()))
            == cell.spec_structure().spec_size(),
        spec_widest(
            spec_widths_of(cell.spec_structure()),
            cell.spec_structure().spec_cells() as nat,
        ) == cell.spec_structure().spec_align(),
{
    let structure = cell.spec_structure();
    let ordinal = cell.spec_ordinal();
    let widths = spec_widths_of(structure);
    lemma_cell_at_ordinal(structure, ordinal, cell);
    crate::layout::lemma_ordinal_names_cell(cell, cell);
    lemma_table_packed_upto(structure, ordinal as nat);
    assert(widths[ordinal] == cell.spec_width());
    if ordinal > 0 {
        let prev = spec_cell_at(structure, ordinal - 1);
        lemma_cell_at_ordinal(structure, ordinal - 1, prev);
        lemma_cells_packed_in_order(prev, cell);
    }
    let count = structure.spec_cells();
    lemma_table_packed_upto(structure, count as nat);
    let last = spec_cell_at(structure, count - 1);
    lemma_cell_at_ordinal(structure, count - 1, last);
    if count > 1 {
        let before_last = spec_cell_at(structure, count - 2);
        lemma_cell_at_ordinal(structure, count - 2, before_last);
        lemma_cells_packed_in_order(before_last, last);
    }
}

/// Computes the layout of a structure of the region from the widths of its
/// cells. The result is the table: the structure's size and alignment, and
/// for each cell the offset that the table gives it.
pub fn computed_layout(structure: Structure) -> (layout: PackedLayout)
    ensures
        layout.size == structure.spec_size(),
        layout.align == structure.spec_align(),
        layout.offsets@.len() == structure.spec_cells(),
        forall|ordinal: int|
            0 <= ordinal < structure.spec_cells() ==> layout.offsets@[ordinal] == spec_cell_at(
                structure,
                ordinal,
            ).spec_offset(),
{
    let widths = widths_of(structure);
    proof {
        let first = spec_cell_at(structure, 0);
        lemma_cell_at_ordinal(structure, 0, first);
        lemma_table_is_packed(first);
        assert(spec_all_positive(widths@));
        assert forall|ordinal: int| 0 <= ordinal < structure.spec_cells() implies spec_packed_offset(
            widths@,
            ordinal as nat,
        ) == spec_cell_at(structure, ordinal).spec_offset() by {
            let cell = spec_cell_at(structure, ordinal);
            lemma_cell_at_ordinal(structure, ordinal, cell);
            lemma_table_is_packed(cell);
        }
    }
    match pack(&widths) {
        Some(layout) => layout,
        None => {
            proof {
                assert(false);
            }
            vstd::pervasive::unreached()
        },
    }
}

} // verus!
