use monkey_shared::cells::{Cell, Flag, Long, Word};
use monkey_shared::layout::Structure;
use monkey_shared::packing::{cells_of, computed_layout, pack, widths_of, PackedLayout};

#[test]
fn packing_pads_each_field_to_its_width() {
    assert_eq!(
        pack(&vec![1, 4, 1, 8, 1]),
        Some(PackedLayout { offsets: vec![0, 4, 8, 16, 24], size: 32, align: 8 })
    );
    assert_eq!(pack(&vec![1, 1, 1]), Some(PackedLayout { offsets: vec![0, 1, 2], size: 3, align: 1 }));
    assert_eq!(pack(&vec![8, 4]), Some(PackedLayout { offsets: vec![0, 8], size: 16, align: 8 }));
    assert_eq!(pack(&vec![4, 1, 1, 4]), Some(PackedLayout { offsets: vec![0, 4, 5, 8], size: 12, align: 4 }));
    assert_eq!(pack(&vec![3, 5]), Some(PackedLayout { offsets: vec![0, 5], size: 10, align: 5 }));
    assert_eq!(pack(&vec![]), Some(PackedLayout { offsets: vec![], size: 0, align: 1 }));
}

#[test]
fn packing_turns_down_fields_without_width_and_structures_too_large() {
    assert_eq!(pack(&vec![4, 0, 4]), None);
    assert_eq!(pack(&vec![0]), None);
    assert_eq!(pack(&vec![usize::MAX, 1]), None);
    assert_eq!(pack(&vec![8, usize::MAX - 3]), None);
    assert_eq!(pack(&vec![usize::MAX - 1, 2]), None);
    assert_eq!(
        pack(&vec![usize::MAX]),
        Some(PackedLayout { offsets: vec![0], size: usize::MAX, align: usize::MAX })
    );
}

#[test]
fn computed_command_layout_is_the_table() {
    let layout = computed_layout(Structure::Commands);
    assert_eq!(layout.size, 9);
    assert_eq!(layout.align, 1);
    assert_eq!(layout.offsets, vec![0, 1, 2, 3, 4, 5, 6, 7, 8]);
}

#[test]
fn computed_game_structure_layout_is_the_table() {
    let layout = computed_layout(Structure::GameStructure);
    assert_eq!(layout.size, 128);
    assert_eq!(layout.align, 8);
    assert_eq!(
        layout.offsets,
        vec![
            0, 8, 12, 16, 20, 24, 28, 32, 36, 40, 44, 48, 52, 56, 60, 64, 68, 72, 76, 80, 88, 92,
            96, 100, 104, 108, 112, 116, 120, 121, 124
        ]
    );
    let cells = cells_of(Structure::GameStructure);
    assert_eq!(cells.len(), 31);
    for (ordinal, cell) in cells.iter().enumerate() {
        assert_eq!(cell.offset(), layout.offsets[ordinal], "{:?}", cell);
        assert_eq!(cell.structure(), Structure::GameStructure);
    }
}

#[test]
fn region_is_the_two_structures_packed() {
    let whole = pack(&vec![9, 128]);
    assert_eq!(whole.map(|l| l.offsets), Some(vec![0, 128]));
    let commands = computed_layout(Structure::Commands);
    let game = computed_layout(Structure::GameStructure);
    let base = (commands.size + game.align - 1) / game.align * game.align;
    assert_eq!(base, Structure::GameStructure.base());
    assert_eq!(base + game.size, monkey_shared::layout::REGION_SIZE);
}

#[test]
fn cells_and_widths_in_order() {
    let commands = cells_of(Structure::Commands);
    assert_eq!(commands.len(), 9);
    assert_eq!(commands[0], Cell::Flag(Flag::RotateLeft));
    assert_eq!(commands[5], Cell::Flag(Flag::Reset));
    assert_eq!(commands[8], Cell::Flag(Flag::ResumeRendering));
    assert_eq!(widths_of(Structure::Commands), vec![1; 9]);
    let game = cells_of(Structure::GameStructure);
    assert_eq!(game[0], Cell::Long(Long::Seed));
    assert_eq!(game[18], Cell::Word(Word::Phase));
    assert_eq!(game[19], Cell::Long(Long::FrameNumber));
    assert_eq!(game[28], Cell::Flag(Flag::IsAnimating));
    assert_eq!(game[30], Cell::Word(Word::WinTime));
    let widths = widths_of(Structure::GameStructure);
    assert_eq!(widths.len(), 31);
    assert_eq!(widths[0], 8);
    assert_eq!(widths[19], 8);
    assert_eq!(widths[28], 1);
    assert_eq!(widths[29], 1);
    assert_eq!(widths.iter().filter(|w| **w == 4).count(), 27);
}
