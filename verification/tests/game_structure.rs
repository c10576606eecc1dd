use monkey_shared::error::TransportError;
use monkey_shared::game_structure::{
    flatten_colors, GameConfig, Phase, PyramidType, SharedGameStructure, Telemetry,
};

fn sample_telemetry() -> Telemetry {
    Telemetry {
        phase: Phase::Playing.code(),
        frame_number: 1234,
        elapsed_secs: 20.5f32.to_bits(),
        camera_radius: 8.0f32.to_bits(),
        camera_x: 1.0f32.to_bits(),
        camera_y: (-2.0f32).to_bits(),
        camera_z: 3.5f32.to_bits(),
        pyramid_yaw: 0.75f32.to_bits(),
        attempts: 3,
        alignment: Some(0.5f32.to_bits()),
        is_animating: true,
        has_won: false,
        win_time: None,
    }
}

fn matrix() -> Vec<Vec<u32>> {
    vec![
        vec![1.0f32.to_bits(), 0.2f32.to_bits(), 0.2f32.to_bits(), 1.0f32.to_bits()],
        vec![0.2f32.to_bits(), 0.5f32.to_bits(), 1.0f32.to_bits(), 1.0f32.to_bits()],
        vec![0.2f32.to_bits(), 1.0f32.to_bits(), 0.3f32.to_bits(), 1.0f32.to_bits()],
    ]
}

#[test]
fn new_structure_is_all_zero() {
    let gs = SharedGameStructure::new();
    assert_eq!(gs.seed, 0);
    assert_eq!(gs.pyramid_type, 0);
    assert_eq!(gs.base_radius, 0);
    assert_eq!(gs.height, 0);
    assert_eq!(gs.start_orient, 0);
    assert_eq!(gs.target_door, 0);
    assert_eq!(gs.colors, [0u32; 12]);
    assert_eq!(gs.phase, 0);
    assert_eq!(gs.frame_number, 0);
    assert_eq!(gs.elapsed_secs, 0);
    assert_eq!(gs.camera_radius, 0);
    assert_eq!(gs.camera_x, 0);
    assert_eq!(gs.camera_y, 0);
    assert_eq!(gs.camera_z, 0);
    assert_eq!(gs.pyramid_yaw, 0);
    assert_eq!(gs.attempts, 0);
    assert_eq!(gs.alignment, 0);
    assert!(!gs.is_animating);
    assert!(!gs.has_won);
    assert_eq!(gs.win_time, 0);
    assert_eq!(gs, SharedGameStructure::default());
}

#[test]
fn codes_of_types_and_phases() {
    assert_eq!(PyramidType::Type1.code(), 0);
    assert_eq!(PyramidType::Type2.code(), 1);
    assert_eq!(Phase::Playing.code(), 0);
    assert_eq!(Phase::Won.code(), 1);
    assert_eq!(PyramidType::from_code(0), Some(PyramidType::Type1));
    assert_eq!(PyramidType::from_code(1), Some(PyramidType::Type2));
    assert_eq!(PyramidType::from_code(2), None);
    assert_eq!(Phase::from_code(0), Some(Phase::Playing));
    assert_eq!(Phase::from_code(1), Some(Phase::Won));
    assert_eq!(Phase::from_code(u32::MAX), None);
    assert_eq!(PyramidType::default(), PyramidType::Type1);
}

#[test]
fn default_trial_has_the_documented_values() {
    let t = GameConfig::default_trial();
    assert_eq!(t.seed, 69);
    assert_eq!(t.pyramid_type, 0);
    assert_eq!(t.base_radius, 2.5f32.to_bits());
    assert_eq!(t.height, 4.0f32.to_bits());
    assert_eq!(t.start_orient, 0.0f32.to_bits());
    assert_eq!(t.target_door, 5);
    let expected: Vec<u32> = [1.0f32, 0.2, 0.2, 1.0, 0.2, 0.5, 1.0, 1.0, 0.2, 1.0, 0.3, 1.0]
        .iter()
        .map(|v| v.to_bits())
        .collect();
    assert_eq!(t.colors.to_vec(), expected);
    assert_eq!(GameConfig::default(), t);
}

#[test]
fn config_write_leaves_telemetry_alone() {
    let mut gs = SharedGameStructure::new();
    gs.publish_telemetry(&sample_telemetry());
    let before = gs.read_telemetry();
    gs.write_config(&GameConfig::default_trial());
    assert_eq!(gs.read_telemetry(), before);
    assert_eq!(gs.read_config(), GameConfig::default_trial());
}

#[test]
fn telemetry_publish_leaves_config_alone() {
    let mut gs = SharedGameStructure::new();
    gs.write_config(&GameConfig::default_trial());
    gs.publish_telemetry(&sample_telemetry());
    assert_eq!(gs.read_config(), GameConfig::default_trial());
    assert_eq!(gs.read_telemetry(), sample_telemetry());
}

#[test]
fn absent_alignment_and_win_time_are_written_as_reserved_patterns() {
    let mut gs = SharedGameStructure::new();
    let t = Telemetry { alignment: None, win_time: None, ..sample_telemetry() };
    gs.publish_telemetry(&t);
    assert_eq!(gs.alignment, 2.0f32.to_bits());
    assert_eq!(gs.win_time, 0);
    assert_eq!(gs.read_telemetry().alignment, None);
    assert_eq!(gs.read_telemetry().win_time, None);
    let won = Telemetry {
        phase: Phase::Won.code(),
        has_won: true,
        alignment: Some(1.0f32.to_bits()),
        win_time: Some(42.25f32.to_bits()),
        ..sample_telemetry()
    };
    gs.publish_telemetry(&won);
    assert_eq!(gs.alignment, 0x3F80_0000);
    assert_eq!(gs.win_time, 42.25f32.to_bits());
    assert_eq!(gs.read_telemetry(), won);
}

#[test]
fn fresh_structure_reads_zero_alignment_and_no_win_time() {
    let gs = SharedGameStructure::new();
    let t = gs.read_telemetry();
    assert_eq!(t.alignment, Some(0));
    assert_eq!(t.win_time, None);
    assert_eq!(t.phase, 0);
    assert!(!t.has_won);
}

#[test]
fn colour_matrix_is_laid_out_row_after_row() {
    let cells = flatten_colors(&matrix()).unwrap();
    assert_eq!(cells, GameConfig::default_trial().colors);
    let numbered: Vec<Vec<u32>> =
        vec![vec![0, 1, 2, 3], vec![4, 5, 6, 7], vec![8, 9, 10, 11]];
    assert_eq!(flatten_colors(&numbered), Ok([0, 1, 2, 3, 4, 5, 6, 7, 8, 9, 10, 11]));
}

#[test]
fn misshapen_colour_matrix_is_turned_down() {
    let empty: Vec<Vec<u32>> = vec![];
    assert_eq!(flatten_colors(&empty), Err(TransportError::InvalidShape));
    let two_rows = vec![vec![0u32; 4], vec![0u32; 4]];
    assert_eq!(flatten_colors(&two_rows), Err(TransportError::InvalidShape));
    let four_rows = vec![vec![0u32; 4]; 4];
    assert_eq!(flatten_colors(&four_rows), Err(TransportError::InvalidShape));
    let short_row = vec![vec![0u32; 4], vec![0u32; 3], vec![0u32; 4]];
    assert_eq!(flatten_colors(&short_row), Err(TransportError::InvalidShape));
    let long_last_row = vec![vec![0u32; 4], vec![0u32; 4], vec![0u32; 5]];
    assert_eq!(flatten_colors(&long_last_row), Err(TransportError::InvalidShape));
    let transposed = vec![vec![0u32; 3]; 4];
    assert_eq!(flatten_colors(&transposed), Err(TransportError::InvalidShape));
}

#[test]
fn structured_write_with_good_matrix_writes_the_config() {
    let mut gs = SharedGameStructure::new();
    gs.publish_telemetry(&sample_telemetry());
    let r = gs.write_game_structure(
        69,
        0,
        2.5f32.to_bits(),
        4.0f32.to_bits(),
        0.0f32.to_bits(),
        5,
        &matrix(),
    );
    assert_eq!(r, Ok(()));
    assert_eq!(gs.read_config(), GameConfig::default_trial());
    assert_eq!(gs.read_telemetry(), sample_telemetry());
}

#[test]
fn structured_write_with_bad_matrix_changes_nothing() {
    let mut gs = SharedGameStructure::new();
    gs.write_config(&GameConfig::default_trial());
    gs.publish_telemetry(&sample_telemetry());
    let before = gs;
    let bad = vec![vec![1u32; 4], vec![1u32; 4], vec![1u32; 2]];
    let r = gs.write_game_structure(7, 1, 1, 2, 3, 4, &bad);
    assert_eq!(r, Err(TransportError::InvalidShape));
    assert_eq!(gs, before);
}

#[test]
fn only_a_missing_region_is_worth_another_try() {
    assert!(TransportError::NotFound.is_recoverable());
    assert!(!TransportError::Io.is_recoverable());
    assert!(!TransportError::InvalidShape.is_recoverable());
}

#[test]
fn win_time_of_negative_zero_reads_as_not_yet_won() {
    let mut gs = SharedGameStructure::new();
    gs.win_time = (-0.0f32).to_bits();
    assert_eq!(gs.read_telemetry().win_time, None);
    gs.win_time = 0.0005f32.to_bits();
    assert_eq!(gs.read_telemetry().win_time, Some(0.0005f32.to_bits()));
    let odd = Telemetry { win_time: Some(0x8000_0000), ..sample_telemetry() };
    gs.publish_telemetry(&odd);
    assert_eq!(gs.win_time, 0x8000_0000);
    assert_eq!(gs.read_telemetry().win_time, None);
}
