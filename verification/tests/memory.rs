use monkey_shared::commands::CommandInput;
use monkey_shared::game_structure::{GameConfig, Telemetry};
use monkey_shared::memory::SharedMemory;

fn quiet() -> CommandInput {
    CommandInput {
        rotate_left: false,
        rotate_right: false,
        zoom_in: false,
        zoom_out: false,
        check: false,
        reset: false,
        blank_screen: false,
        stop_rendering: false,
        resume_rendering: false,
    }
}

fn trial(n: u32) -> GameConfig {
    let mut colors = [0u32; 12];
    for (i, c) in colors.iter_mut().enumerate() {
        *c = ((n as f32) * 0.01 + (i as f32)).to_bits();
    }
    GameConfig {
        seed: 1000 + n as u64,
        pyramid_type: n % 2,
        base_radius: (1.0 + n as f32).to_bits(),
        height: (2.0 + n as f32).to_bits(),
        start_orient: (0.1 * n as f32).to_bits(),
        target_door: n % 6,
        colors,
    }
}

#[test]
fn new_region_is_quiet() {
    let mut m = SharedMemory::new();
    assert_eq!(m, SharedMemory::default());
    assert!(!m.reset_pending());
    assert_eq!(m.poll_reset(), None);
    let poll = m.poll_game_tick();
    assert_eq!(poll.reset, None);
    assert!(!poll.commands.check_alignment);
    assert_eq!(m, SharedMemory::new());
}

#[test]
fn documented_reset_scenario() {
    let mut m = SharedMemory::new();
    let colors = [
        [1.0f32, 0.2, 0.2, 1.0],
        [0.2, 0.5, 1.0, 1.0],
        [0.2, 1.0, 0.3, 1.0],
    ];
    let mut cells = [0u32; 12];
    for f in 0..3 {
        for c in 0..4 {
            cells[f * 4 + c] = colors[f][c].to_bits();
        }
    }
    let config = GameConfig {
        seed: 69,
        pyramid_type: 0,
        base_radius: 2.5f32.to_bits(),
        height: 4.0f32.to_bits(),
        start_orient: 0.0f32.to_bits(),
        target_door: 5,
        colors: cells,
    };
    m.request_reset(&config);
    assert!(m.reset_pending());
    let got = m.poll_reset().expect("a reset is pending");
    assert_eq!(got.seed, 69);
    assert_eq!(got.pyramid_type, 0);
    assert_eq!(f32::from_bits(got.base_radius), 2.5);
    assert_eq!(f32::from_bits(got.height), 4.0);
    assert_eq!(f32::from_bits(got.start_orient), 0.0);
    assert_eq!(got.target_door, 5);
    for f in 0..3 {
        for c in 0..4 {
            assert_eq!(f32::from_bits(got.colors[f * 4 + c]).to_bits(), colors[f][c].to_bits());
        }
    }
    assert_eq!(got, config);
    assert!(!m.reset_pending());
    assert_eq!(m.poll_reset(), None);
}

#[test]
fn every_reset_delivers_the_last_written_config() {
    let mut m = SharedMemory::new();
    let mut n: u32 = 0;
    while n < 20_000 {
        let config = trial(n);
        m.request_reset(&config);
        m.commands.write_commands(&CommandInput { rotate_left: n % 2 == 0, ..quiet() });
        assert_eq!(m.poll_reset(), Some(config));
        assert_eq!(m.poll_reset(), None);
        n += 1;
    }
}

#[test]
fn two_requests_before_a_poll_give_one_reset_with_the_later_config() {
    let mut m = SharedMemory::new();
    m.request_reset(&trial(1));
    m.request_reset(&trial(2));
    assert_eq!(m.poll_reset(), Some(trial(2)));
    assert_eq!(m.poll_reset(), None);
    assert_eq!(m.game_structure.read_config(), trial(2));
}

#[test]
fn clearing_a_lowered_reset_changes_nothing() {
    let mut m = SharedMemory::new();
    m.game_structure.write_config(&trial(3));
    m.commands.write_commands(&CommandInput { check: true, zoom_in: true, ..quiet() });
    let before = m;
    m.clear_reset();
    assert_eq!(m, before);
    m.clear_reset();
    assert_eq!(m, before);
    m.request_reset(&trial(4));
    m.clear_reset();
    assert!(!m.reset_pending());
    assert_eq!(m.game_structure.read_config(), trial(4));
    assert_eq!(m.poll_reset(), None);
}

#[test]
fn reset_raised_through_the_command_write_is_seen_too() {
    let mut m = SharedMemory::new();
    m.game_structure.write_config(&trial(9));
    m.commands.write_commands(&CommandInput { reset: true, ..quiet() });
    assert!(m.reset_pending());
    assert_eq!(m.poll_reset(), Some(trial(9)));
    m.commands.write_commands(&quiet());
    assert_eq!(m.poll_reset(), None);
}

#[test]
fn game_tick_takes_commands_and_reset_together() {
    let mut m = SharedMemory::new();
    m.request_reset(&trial(5));
    m.commands.write_commands(&CommandInput {
        rotate_right: true,
        check: true,
        stop_rendering: true,
        ..quiet()
    });
    let poll = m.poll_game_tick();
    assert!(poll.commands.rotate_right);
    assert!(poll.commands.check_alignment);
    assert!(poll.commands.stop_rendering);
    assert!(!poll.commands.blank_screen);
    assert_eq!(poll.reset, Some(trial(5)));
    let next = m.poll_game_tick();
    assert!(next.commands.rotate_right);
    assert!(!next.commands.check_alignment);
    assert!(!next.commands.stop_rendering);
    assert_eq!(next.reset, None);
}

#[test]
fn telemetry_traffic_does_not_disturb_a_pending_reset() {
    let mut m = SharedMemory::new();
    m.request_reset(&trial(6));
    let t = Telemetry {
        phase: 1,
        frame_number: 77,
        elapsed_secs: 1.5f32.to_bits(),
        camera_radius: 2,
        camera_x: 3,
        camera_y: 4,
        camera_z: 5,
        pyramid_yaw: 6,
        attempts: 7,
        alignment: None,
        is_animating: false,
        has_won: true,
        win_time: Some(9.0f32.to_bits()),
    };
    m.game_structure.publish_telemetry(&t);
    let _ = m.commands.poll_commands();
    assert_eq!(m.poll_reset(), Some(trial(6)));
    assert_eq!(m.game_structure.read_telemetry(), t);
}
