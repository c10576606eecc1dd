use monkey_shared::atomic::RegionCells;
use monkey_shared::cells::{Flag, Long, Word, FLAG_COUNT, LONG_COUNT, WORD_COUNT};
use monkey_shared::commands::CommandInput;
use monkey_shared::error::TransportError;
use monkey_shared::game_structure::{GameConfig, Telemetry};
use monkey_shared::memory::SharedMemory;
use monkey_shared::ops::{LoadOrder, Op, Reply, StoreOrder};
use std::sync::atomic::{AtomicBool, AtomicU32, AtomicU64, Ordering};

struct Atoms {
    flags: Vec<AtomicBool>,
    words: Vec<AtomicU32>,
    longs: Vec<AtomicU64>,
}

fn atoms() -> Atoms {
    Atoms {
        flags: (0..FLAG_COUNT).map(|_| AtomicBool::new(false)).collect(),
        words: (0..WORD_COUNT).map(|_| AtomicU32::new(0)).collect(),
        longs: (0..LONG_COUNT).map(|_| AtomicU64::new(0)).collect(),
    }
}

fn cells(a: &Atoms) -> RegionCells<'_> {
    RegionCells::new(a.flags.iter().collect(), a.words.iter().collect(), a.longs.iter().collect())
        .expect("every cell is there")
}

fn quiet() -> CommandInput {
    CommandInput {
        rotate_left: false,
        rotate_right: false,
        zoom_in: false,
        zoom_out: false,
        check: false,
        reset: false,
        blank_screen: false,
        stop_rendering: false,
        resume_rendering: false,
    }
}

fn telemetry() -> Telemetry {
    Telemetry {
        phase: 0,
        frame_number: 99,
        elapsed_secs: 1.25f32.to_bits(),
        camera_radius: 6.0f32.to_bits(),
        camera_x: 1.0f32.to_bits(),
        camera_y: 2.0f32.to_bits(),
        camera_z: 3.0f32.to_bits(),
        pyramid_yaw: (-0.5f32).to_bits(),
        attempts: 4,
        alignment: Some((-0.25f32).to_bits()),
        is_animating: true,
        has_won: false,
        win_time: None,
    }
}

#[test]
fn cells_are_taken_only_when_complete() {
    let a = atoms();
    assert!(RegionCells::new(
        a.flags.iter().collect(),
        a.words.iter().collect(),
        a.longs.iter().collect()
    )
    .is_some());
    assert!(RegionCells::new(
        a.flags.iter().take(10).collect(),
        a.words.iter().collect(),
        a.longs.iter().collect()
    )
    .is_none());
    assert!(RegionCells::new(
        a.flags.iter().collect(),
        a.words.iter().take(26).collect(),
        a.longs.iter().collect()
    )
    .is_none());
    assert!(RegionCells::new(a.flags.iter().collect(), a.words.iter().collect(), vec![]).is_none());
}

#[test]
fn operations_reach_the_cell_at_their_position() {
    let a = atoms();
    let r = cells(&a);
    assert_eq!(
        r.perform(&Op::StoreFlag { flag: Flag::Reset, value: true, order: StoreOrder::Release }),
        Reply::Stored
    );
    assert!(a.flags[5].load(Ordering::Acquire));
    assert_eq!(a.flags.iter().filter(|f| f.load(Ordering::Relaxed)).count(), 1);
    assert_eq!(
        r.perform(&Op::LoadFlag { flag: Flag::Reset, order: LoadOrder::Acquire }),
        Reply::Flag(true)
    );
    assert_eq!(r.perform(&Op::TakeFlag { flag: Flag::Reset }), Reply::Flag(true));
    assert!(!a.flags[5].load(Ordering::Relaxed));
    assert_eq!(r.perform(&Op::TakeFlag { flag: Flag::Reset }), Reply::Flag(false));
    assert_eq!(r.perform(&Op::StoreWord { word: Word::WinTime, value: 77 }), Reply::Stored);
    assert_eq!(a.words[26].load(Ordering::Relaxed), 77);
    assert_eq!(r.perform(&Op::LoadWord { word: Word::WinTime }), Reply::Word(77));
    assert_eq!(r.perform(&Op::StoreLong { long: Long::FrameNumber, value: 1 << 40 }), Reply::Stored);
    assert_eq!(a.longs[1].load(Ordering::Relaxed), 1 << 40);
    assert_eq!(r.perform(&Op::LoadLong { long: Long::FrameNumber }), Reply::Long(1 << 40));
    assert_eq!(a.longs[0].load(Ordering::Relaxed), 0);
}

#[test]
fn one_shot_through_real_cells() {
    let a = atoms();
    let controller = cells(&a);
    let game = cells(&a);
    controller.write_commands(&CommandInput { check: true, ..quiet() });
    assert!(game.poll_commands().check_alignment);
    assert!(!game.poll_commands().check_alignment);
}

#[test]
fn continuous_through_real_cells() {
    let a = atoms();
    let controller = cells(&a);
    let game = cells(&a);
    controller.write_commands(&CommandInput { rotate_left: true, ..quiet() });
    assert!(game.poll_commands().rotate_left);
    assert!(game.poll_commands().rotate_left);
    controller.write_commands(&quiet());
    assert!(!game.poll_commands().rotate_left);
}

#[test]
fn handshake_through_real_cells() {
    let a = atoms();
    let controller = cells(&a);
    let game = cells(&a);
    assert_eq!(game.poll_reset(), None);
    let config = GameConfig::default_trial();
    controller.request_reset(&config);
    assert!(controller.reset_pending());
    assert_eq!(game.poll_reset(), Some(config));
    assert!(!controller.reset_pending());
    assert_eq!(game.poll_reset(), None);
    assert_eq!(a.longs[0].load(Ordering::Relaxed), 69);
    assert_eq!(a.words[1].load(Ordering::Relaxed), 2.5f32.to_bits());
}

#[test]
fn handshake_stress_always_delivers_the_last_config() {
    let a = atoms();
    let controller = cells(&a);
    let game = cells(&a);
    let mut n: u32 = 0;
    while n < 5_000 {
        let mut config = GameConfig::default_trial();
        config.seed = n as u64;
        config.target_door = n;
        config.colors[(n % 12) as usize] = (n as f32).to_bits();
        controller.request_reset(&config);
        let poll = game.poll_game_tick();
        assert_eq!(poll.reset, Some(config));
        assert_eq!(game.poll_game_tick().reset, None);
        n += 1;
    }
}

#[test]
fn reset_raised_twice_is_one_reset() {
    let a = atoms();
    let controller = cells(&a);
    let game = cells(&a);
    let mut first = GameConfig::default_trial();
    first.seed = 1;
    let mut second = GameConfig::default_trial();
    second.seed = 2;
    controller.request_reset(&first);
    controller.request_reset(&second);
    assert_eq!(game.poll_reset(), Some(second));
    assert_eq!(game.poll_reset(), None);
}

#[test]
fn telemetry_through_real_cells() {
    let a = atoms();
    let controller = cells(&a);
    let game = cells(&a);
    game.publish_telemetry(&telemetry());
    assert_eq!(controller.read_telemetry(), telemetry());
    assert_eq!(a.words[25].load(Ordering::Relaxed), (-0.25f32).to_bits());
    let absent = Telemetry { alignment: None, ..telemetry() };
    game.publish_telemetry(&absent);
    assert_eq!(a.words[25].load(Ordering::Relaxed), 2.0f32.to_bits());
    assert_eq!(controller.read_telemetry().alignment, None);
    assert_eq!(controller.read_telemetry().win_time, None);
}

#[test]
fn structured_write_through_real_cells() {
    let a = atoms();
    let controller = cells(&a);
    let good = vec![vec![1u32, 2, 3, 4], vec![5, 6, 7, 8], vec![9, 10, 11, 12]];
    assert_eq!(controller.write_game_structure(7, 1, 2, 3, 4, 5, &good), Ok(()));
    assert_eq!(a.longs[0].load(Ordering::Relaxed), 7);
    let stored: Vec<u32> = a.words.iter().map(|w| w.load(Ordering::Relaxed)).collect();
    assert_eq!(stored[..17], [1, 2, 3, 4, 5, 1, 2, 3, 4, 5, 6, 7, 8, 9, 10, 11, 12]);
    assert!(!a.flags[5].load(Ordering::Relaxed));
    let bad = vec![vec![1u32, 2, 3, 4], vec![5, 6, 7, 8]];
    assert_eq!(
        controller.write_game_structure(8, 0, 0, 0, 0, 0, &bad),
        Err(TransportError::InvalidShape)
    );
    assert_eq!(a.longs[0].load(Ordering::Relaxed), 7);
    let after: Vec<u32> = a.words.iter().map(|w| w.load(Ordering::Relaxed)).collect();
    assert_eq!(after, stored);
}

#[test]
fn real_cells_and_image_agree_on_a_session() {
    let a = atoms();
    let r = cells(&a);
    let mut image = SharedMemory::new();
    let mut n: u32 = 0;
    while n < 300 {
        let input = CommandInput {
            rotate_left: n % 2 == 0,
            rotate_right: n % 3 == 0,
            zoom_in: n % 5 == 0,
            zoom_out: n % 7 == 0,
            check: n % 4 == 1,
            reset: false,
            blank_screen: n % 6 == 2,
            stop_rendering: n % 9 == 3,
            resume_rendering: n % 11 == 4,
        };
        r.write_commands(&input);
        image.commands.write_commands(&input);
        if n % 10 == 0 {
            let mut config = GameConfig::default_trial();
            config.seed = n as u64;
            r.request_reset(&config);
            image.request_reset(&config);
        }
        if n % 3 != 2 {
            assert_eq!(r.poll_game_tick(), image.poll_game_tick());
        }
        let t = Telemetry { frame_number: n as u64, attempts: n, ..telemetry() };
        r.publish_telemetry(&t);
        image.game_structure.publish_telemetry(&t);
        assert_eq!(r.read_telemetry(), image.game_structure.read_telemetry());
        n += 1;
    }
}

#[test]
fn config_is_read_back_through_real_cells() {
    let a = atoms();
    let controller = cells(&a);
    let mut config = GameConfig::default_trial();
    config.start_orient = f32::NAN.to_bits();
    config.colors[11] = f32::NEG_INFINITY.to_bits();
    controller.write_config(&config);
    assert_eq!(controller.read_config(), config);
    assert!(!controller.reset_pending());
}

#[test]
fn reset_triggers_through_real_cells() {
    let a = atoms();
    let r = cells(&a);
    for f in a.flags.iter() {
        f.store(true, Ordering::Relaxed);
    }
    r.reset_triggers();
    let held: Vec<bool> = a.flags.iter().map(|f| f.load(Ordering::Relaxed)).collect();
    assert_eq!(
        held,
        vec![false, false, false, false, false, true, true, true, true, true, true]
    );
    assert_eq!(a.words.iter().filter(|w| w.load(Ordering::Relaxed) != 0).count(), 0);
}

#[test]
fn negative_zero_win_time_reads_as_absent_through_real_cells() {
    let a = atoms();
    let r = cells(&a);
    a.words[26].store((-0.0f32).to_bits(), Ordering::Relaxed);
    assert_eq!(r.read_telemetry().win_time, None);
    a.words[26].store(0.0005f32.to_bits(), Ordering::Relaxed);
    assert_eq!(r.read_telemetry().win_time, Some(0.0005f32.to_bits()));
}
