use monkey_shared::cells::{Channel, Face, Flag, Long, Word};
use monkey_shared::commands::CommandInput;
use monkey_shared::controller::{
    decode_telemetry, read_telemetry_plan, reset_triggers_plan, write_commands_plan,
    TELEMETRY_CELLS,
};
use monkey_shared::game::{decode_polled_commands, poll_commands_plan, publish_telemetry_plan};
use monkey_shared::game_structure::{GameConfig, Telemetry};
use monkey_shared::handshake::{
    clear_reset_plan, decode_config, decode_flag, observe_reset_plan, read_config_plan,
    request_reset_plan, write_config_plan, ResetPoll, CONFIG_CELLS,
};
use monkey_shared::memory::SharedMemory;
use monkey_shared::ops::{fits, LoadOrder, Op, Reply, StoreOrder};

fn quiet() -> CommandInput {
    CommandInput {
        rotate_left: false,
        rotate_right: false,
        zoom_in: false,
        zoom_out: false,
        check: false,
        reset: false,
        blank_screen: false,
        stop_rendering: false,
        resume_rendering: false,
    }
}

fn telemetry() -> Telemetry {
    Telemetry {
        phase: 1,
        frame_number: 0x1_0000_0001,
        elapsed_secs: 12.0f32.to_bits(),
        camera_radius: 5.0f32.to_bits(),
        camera_x: 3.0f32.to_bits(),
        camera_y: 1.0f32.to_bits(),
        camera_z: 4.0f32.to_bits(),
        pyramid_yaw: 0.5f32.to_bits(),
        attempts: 2,
        alignment: Some(0.99f32.to_bits()),
        is_animating: false,
        has_won: true,
        win_time: Some(11.5f32.to_bits()),
    }
}

fn numbered_config() -> GameConfig {
    GameConfig {
        seed: 0xDEAD_BEEF_0000_0001,
        pyramid_type: 1,
        base_radius: 101,
        height: 102,
        start_orient: 103,
        target_door: 104,
        colors: [200, 201, 202, 203, 204, 205, 206, 207, 208, 209, 210, 211],
    }
}

#[test]
fn single_operations_on_the_image() {
    let mut m = SharedMemory::new();
    assert_eq!(
        m.perform(&Op::StoreFlag { flag: Flag::ZoomIn, value: true, order: StoreOrder::Relaxed }),
        Reply::Stored
    );
    assert!(m.commands.zoom_in);
    assert_eq!(
        m.perform(&Op::LoadFlag { flag: Flag::ZoomIn, order: LoadOrder::Relaxed }),
        Reply::Flag(true)
    );
    assert_eq!(m.perform(&Op::TakeFlag { flag: Flag::ZoomIn }), Reply::Flag(true));
    assert!(!m.commands.zoom_in);
    assert_eq!(m.perform(&Op::TakeFlag { flag: Flag::ZoomIn }), Reply::Flag(false));
    assert_eq!(m.perform(&Op::StoreWord { word: Word::Attempts, value: 7 }), Reply::Stored);
    assert_eq!(m.game_structure.attempts, 7);
    assert_eq!(m.perform(&Op::LoadWord { word: Word::Attempts }), Reply::Word(7));
    assert_eq!(
        m.perform(&Op::StoreWord { word: Word::Color(Face::Second, Channel::Blue), value: 9 }),
        Reply::Stored
    );
    assert_eq!(m.game_structure.colors, [0, 0, 0, 0, 0, 0, 9, 0, 0, 0, 0, 0]);
    assert_eq!(
        m.perform(&Op::LoadWord { word: Word::Color(Face::Second, Channel::Blue) }),
        Reply::Word(9)
    );
    assert_eq!(
        m.perform(&Op::StoreLong { long: Long::FrameNumber, value: u64::MAX }),
        Reply::Stored
    );
    assert_eq!(m.game_structure.frame_number, u64::MAX);
    assert_eq!(m.perform(&Op::LoadLong { long: Long::Seed }), Reply::Long(0));
    assert_eq!(m.flag(Flag::HasWon), false);
    m.set_flag(Flag::HasWon, true);
    assert!(m.game_structure.has_won);
    m.set_word(Word::WinTime, 5);
    assert_eq!(m.word(Word::WinTime), 5);
    m.set_long(Long::Seed, 6);
    assert_eq!(m.long(Long::Seed), 6);
}

#[test]
fn command_write_plan_restates_movement_and_raises_what_is_asked() {
    let plan = write_commands_plan(&quiet());
    assert_eq!(
        plan,
        vec![
            Op::StoreFlag { flag: Flag::RotateLeft, value: false, order: StoreOrder::Relaxed },
            Op::StoreFlag { flag: Flag::RotateRight, value: false, order: StoreOrder::Relaxed },
            Op::StoreFlag { flag: Flag::ZoomIn, value: false, order: StoreOrder::Relaxed },
            Op::StoreFlag { flag: Flag::ZoomOut, value: false, order: StoreOrder::Relaxed },
        ]
    );
    let busy = write_commands_plan(&CommandInput {
        rotate_right: true,
        check: true,
        reset: true,
        resume_rendering: true,
        ..quiet()
    });
    assert_eq!(
        busy,
        vec![
            Op::StoreFlag { flag: Flag::RotateLeft, value: false, order: StoreOrder::Relaxed },
            Op::StoreFlag { flag: Flag::RotateRight, value: true, order: StoreOrder::Relaxed },
            Op::StoreFlag { flag: Flag::ZoomIn, value: false, order: StoreOrder::Relaxed },
            Op::StoreFlag { flag: Flag::ZoomOut, value: false, order: StoreOrder::Relaxed },
            Op::StoreFlag { flag: Flag::CheckAlignment, value: true, order: StoreOrder::Relaxed },
            Op::StoreFlag { flag: Flag::Reset, value: true, order: StoreOrder::Release },
            Op::StoreFlag { flag: Flag::ResumeRendering, value: true, order: StoreOrder::Relaxed },
        ]
    );
}

#[test]
fn command_write_plan_on_the_image_is_the_command_write() {
    for bits in 0u32..512 {
        let input = CommandInput {
            rotate_left: bits & 1 != 0,
            rotate_right: bits & 2 != 0,
            zoom_in: bits & 4 != 0,
            zoom_out: bits & 8 != 0,
            check: bits & 16 != 0,
            reset: bits & 32 != 0,
            blank_screen: bits & 64 != 0,
            stop_rendering: bits & 128 != 0,
            resume_rendering: bits & 256 != 0,
        };
        let mut by_plan = SharedMemory::new();
        by_plan.commands.blank_screen = true;
        by_plan.commands.rotate_left = true;
        let mut direct = by_plan;
        let replies = by_plan.run(&write_commands_plan(&input));
        assert!(replies.iter().all(|r| *r == Reply::Stored));
        direct.commands.write_commands(&input);
        assert_eq!(by_plan, direct);
    }
}

#[test]
fn poll_plan_on_the_image_is_the_poll() {
    let mut by_plan = SharedMemory::new();
    by_plan.commands.write_commands(&CommandInput {
        rotate_left: true,
        zoom_out: true,
        check: true,
        stop_rendering: true,
        reset: true,
        ..quiet()
    });
    let mut direct = by_plan;
    let plan = poll_commands_plan();
    assert_eq!(plan.len(), 8);
    let replies = by_plan.run(&plan);
    let polled = decode_polled_commands(&replies).unwrap();
    assert_eq!(polled, direct.commands.poll_commands());
    assert_eq!(by_plan, direct);
    assert!(polled.check_alignment && polled.stop_rendering && polled.rotate_left);
    let again = decode_polled_commands(&by_plan.run(&plan)).unwrap();
    assert!(!again.check_alignment && !again.stop_rendering);
    assert!(again.rotate_left && again.zoom_out);
    assert!(by_plan.commands.reset);
}

#[test]
fn config_plans_store_and_load_cell_by_cell() {
    let config = numbered_config();
    let plan = write_config_plan(&config);
    assert_eq!(plan.len(), CONFIG_CELLS);
    assert_eq!(plan[0], Op::StoreLong { long: Long::Seed, value: 0xDEAD_BEEF_0000_0001 });
    assert_eq!(plan[1], Op::StoreWord { word: Word::PyramidType, value: 1 });
    assert_eq!(plan[5], Op::StoreWord { word: Word::TargetDoor, value: 104 });
    assert_eq!(plan[6], Op::StoreWord { word: Word::Color(Face::First, Channel::Red), value: 200 });
    assert_eq!(
        plan[11],
        Op::StoreWord { word: Word::Color(Face::Second, Channel::Green), value: 205 }
    );
    assert_eq!(
        plan[17],
        Op::StoreWord { word: Word::Color(Face::Third, Channel::Alpha), value: 211 }
    );
    let mut m = SharedMemory::new();
    m.game_structure.publish_telemetry(&telemetry());
    let mut direct = m;
    m.run(&plan);
    direct.game_structure.write_config(&config);
    assert_eq!(m, direct);
    let loads = read_config_plan();
    assert_eq!(loads.len(), 18);
    assert_eq!(loads[0], Op::LoadLong { long: Long::Seed });
    assert_eq!(loads[17], Op::LoadWord { word: Word::Color(Face::Third, Channel::Alpha) });
    let before = m;
    let replies = m.run(&loads);
    assert_eq!(m, before);
    assert_eq!(decode_config(&replies), Some(config));
}

#[test]
fn reset_request_raises_the_flag_last_with_release() {
    let config = numbered_config();
    let plan = request_reset_plan(&config);
    assert_eq!(plan.len(), 19);
    assert_eq!(plan[..18], write_config_plan(&config)[..]);
    assert_eq!(
        plan[18],
        Op::StoreFlag { flag: Flag::Reset, value: true, order: StoreOrder::Release }
    );
    let mut m = SharedMemory::new();
    let mut direct = m;
    m.run(&plan);
    direct.request_reset(&config);
    assert_eq!(m, direct);
}

#[test]
fn handshake_orders_are_acquire_and_release() {
    assert_eq!(
        observe_reset_plan(),
        vec![Op::LoadFlag { flag: Flag::Reset, order: LoadOrder::Acquire }]
    );
    assert_eq!(
        clear_reset_plan(),
        vec![Op::StoreFlag { flag: Flag::Reset, value: false, order: StoreOrder::Release }]
    );
}

#[test]
fn reset_poll_steps_on_the_image() {
    let config = numbered_config();
    let mut m = SharedMemory::new();
    m.request_reset(&config);
    let mut step = ResetPoll::start();
    let mut rounds = 0;
    while !step.is_done() {
        assert_eq!(step.outcome(), None);
        let replies = m.run(&step.plan());
        step = step.advance(&replies);
        rounds += 1;
    }
    assert_eq!(rounds, 3);
    assert_eq!(step.outcome(), Some(config));
    assert!(!m.commands.reset);
    assert!(step.plan().is_empty());
    assert_eq!(step.advance(&vec![]), step);

    let before = m;
    let mut step = ResetPoll::start();
    let mut rounds = 0;
    while !step.is_done() {
        let replies = m.run(&step.plan());
        step = step.advance(&replies);
        rounds += 1;
    }
    assert_eq!(rounds, 1);
    assert_eq!(step.outcome(), None);
    assert_eq!(m, before);
}

#[test]
fn reset_poll_ends_with_nothing_on_replies_that_do_not_fit() {
    assert_eq!(ResetPoll::Observe.advance(&vec![]), ResetPoll::Done { config: None });
    assert_eq!(
        ResetPoll::Observe.advance(&vec![Reply::Word(1)]),
        ResetPoll::Done { config: None }
    );
    assert_eq!(ResetPoll::Observe.advance(&vec![Reply::Flag(true)]), ResetPoll::ReadConfig);
    assert_eq!(
        ResetPoll::Observe.advance(&vec![Reply::Flag(false)]),
        ResetPoll::Done { config: None }
    );
    assert_eq!(
        ResetPoll::ReadConfig.advance(&vec![Reply::Word(0); 18]),
        ResetPoll::Done { config: None }
    );
    let config = numbered_config();
    assert_eq!(
        ResetPoll::Clear { config }.advance(&vec![Reply::Stored]),
        ResetPoll::Done { config: Some(config) }
    );
}

#[test]
fn telemetry_plans_on_the_image() {
    let t = telemetry();
    let plan = publish_telemetry_plan(&t);
    assert_eq!(plan.len(), TELEMETRY_CELLS);
    assert_eq!(plan[0], Op::StoreWord { word: Word::Phase, value: 1 });
    assert_eq!(plan[1], Op::StoreLong { long: Long::FrameNumber, value: 0x1_0000_0001 });
    assert_eq!(plan[9], Op::StoreWord { word: Word::Alignment, value: 0.99f32.to_bits() });
    assert_eq!(
        plan[11],
        Op::StoreFlag { flag: Flag::HasWon, value: true, order: StoreOrder::Relaxed }
    );
    let mut m = SharedMemory::new();
    m.request_reset(&numbered_config());
    let mut direct = m;
    m.run(&plan);
    direct.game_structure.publish_telemetry(&t);
    assert_eq!(m, direct);
    let before = m;
    let replies = m.run(&read_telemetry_plan());
    assert_eq!(m, before);
    assert_eq!(decode_telemetry(&replies), Some(t));

    let absent = Telemetry { alignment: None, win_time: None, ..t };
    let plan = publish_telemetry_plan(&absent);
    assert_eq!(plan[9], Op::StoreWord { word: Word::Alignment, value: 0x4000_0000 });
    assert_eq!(plan[12], Op::StoreWord { word: Word::WinTime, value: 0 });
    m.run(&plan);
    assert_eq!(decode_telemetry(&m.run(&read_telemetry_plan())), Some(absent));
}

#[test]
fn decoders_turn_down_replies_that_do_not_fit() {
    assert_eq!(decode_flag(&vec![]), None);
    assert_eq!(decode_flag(&vec![Reply::Stored]), None);
    assert_eq!(decode_flag(&vec![Reply::Flag(true), Reply::Flag(true)]), None);
    assert_eq!(decode_flag(&vec![Reply::Flag(true)]), Some(true));
    assert_eq!(decode_polled_commands(&vec![Reply::Flag(true); 7]), None);
    assert_eq!(decode_polled_commands(&vec![Reply::Word(1); 8]), None);
    assert!(decode_polled_commands(&vec![Reply::Flag(true); 8]).is_some());
    assert_eq!(decode_telemetry(&vec![Reply::Word(0); 13]), None);
    assert_eq!(decode_config(&vec![Reply::Word(0); 18]), None);
    let mut good = vec![Reply::Long(5)];
    good.extend(vec![Reply::Word(3); 17]);
    let c = decode_config(&good).unwrap();
    assert_eq!(c.seed, 5);
    assert_eq!(c.colors, [3; 12]);
    good.push(Reply::Word(3));
    assert_eq!(decode_config(&good), None);
    assert!(fits(&observe_reset_plan(), &vec![Reply::Flag(false)]));
    assert!(!fits(&observe_reset_plan(), &vec![Reply::Stored]));
    assert!(!fits(&clear_reset_plan(), &vec![Reply::Flag(false)]));
    assert!(fits(&clear_reset_plan(), &vec![Reply::Stored]));
    assert_eq!(Reply::Word(4).word(), 4);
    assert_eq!(Reply::Flag(true).word(), 0);
    assert_eq!(Reply::Long(9).long(), 9);
    assert_eq!(Reply::Stored.long(), 0);
    assert!(Reply::Flag(true).flag());
    assert!(!Reply::Word(1).flag());
}

#[test]
fn reset_triggers_plan_is_five_relaxed_stores_of_false() {
    let plan = reset_triggers_plan();
    assert_eq!(
        plan,
        vec![
            Op::StoreFlag { flag: Flag::RotateLeft, value: false, order: StoreOrder::Relaxed },
            Op::StoreFlag { flag: Flag::RotateRight, value: false, order: StoreOrder::Relaxed },
            Op::StoreFlag { flag: Flag::ZoomIn, value: false, order: StoreOrder::Relaxed },
            Op::StoreFlag { flag: Flag::ZoomOut, value: false, order: StoreOrder::Relaxed },
            Op::StoreFlag { flag: Flag::CheckAlignment, value: false, order: StoreOrder::Relaxed },
        ]
    );
    let mut by_plan = SharedMemory::new();
    by_plan.commands.write_commands(&CommandInput {
        rotate_left: true,
        rotate_right: true,
        zoom_in: true,
        zoom_out: true,
        check: true,
        reset: true,
        blank_screen: true,
        stop_rendering: true,
        resume_rendering: true,
    });
    by_plan.game_structure.publish_telemetry(&telemetry());
    let mut direct = by_plan;
    by_plan.run(&plan);
    direct.commands.reset_triggers();
    assert_eq!(by_plan, direct);
    assert!(by_plan.commands.reset && by_plan.commands.blank_screen);
    assert!(by_plan.commands.stop_rendering && by_plan.commands.resume_rendering);
    assert!(!by_plan.commands.check_alignment && !by_plan.commands.rotate_left);
}
