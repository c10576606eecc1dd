use monkey_shared::commands::{CommandInput, PolledCommands, SharedCommands};

fn quiet() -> CommandInput {
    CommandInput {
        rotate_left: false,
        rotate_right: false,
        zoom_in: false,
        zoom_out: false,
        check: false,
        reset: false,
        blank_screen: false,
        stop_rendering: false,
        resume_rendering: false,
    }
}

fn all_raised() -> SharedCommands {
    SharedCommands {
        rotate_left: true,
        rotate_right: true,
        zoom_in: true,
        zoom_out: true,
        check_alignment: true,
        reset: true,
        blank_screen: true,
        stop_rendering: true,
        resume_rendering: true,
    }
}

#[test]
fn new_mailbox_has_every_flag_lowered() {
    let c = SharedCommands::new();
    assert!(!c.rotate_left && !c.rotate_right && !c.zoom_in && !c.zoom_out);
    assert!(!c.check_alignment && !c.reset && !c.blank_screen);
    assert!(!c.stop_rendering && !c.resume_rendering);
    assert_eq!(c, SharedCommands::default());
}

#[test]
fn reset_triggers_lowers_movement_and_check_only() {
    let mut c = all_raised();
    c.reset_triggers();
    assert_eq!(
        c,
        SharedCommands {
            rotate_left: false,
            rotate_right: false,
            zoom_in: false,
            zoom_out: false,
            check_alignment: false,
            reset: true,
            blank_screen: true,
            stop_rendering: true,
            resume_rendering: true,
        }
    );
}

#[test]
fn trigger_is_seen_by_one_poll_only() {
    let mut c = SharedCommands::new();
    c.write_commands(&CommandInput { check: true, ..quiet() });
    let first = c.poll_commands();
    assert!(first.check_alignment);
    let second = c.poll_commands();
    assert!(!second.check_alignment);
}

#[test]
fn every_trigger_of_a_poll_is_lowered_by_it() {
    let mut c = SharedCommands::new();
    c.write_commands(&CommandInput {
        check: true,
        blank_screen: true,
        stop_rendering: true,
        resume_rendering: true,
        ..quiet()
    });
    let first = c.poll_commands();
    assert!(first.check_alignment && first.blank_screen);
    assert!(first.stop_rendering && first.resume_rendering);
    assert_eq!(c, SharedCommands::new());
    let second = c.poll_commands();
    assert_eq!(
        second,
        PolledCommands {
            rotate_left: false,
            rotate_right: false,
            zoom_in: false,
            zoom_out: false,
            check_alignment: false,
            blank_screen: false,
            stop_rendering: false,
            resume_rendering: false,
        }
    );
}

#[test]
fn continuous_flag_does_not_stick() {
    let mut c = SharedCommands::new();
    c.write_commands(&CommandInput { rotate_left: true, ..quiet() });
    assert!(c.poll_commands().rotate_left);
    assert!(c.poll_commands().rotate_left);
    c.write_commands(&CommandInput { rotate_left: false, ..quiet() });
    assert!(!c.poll_commands().rotate_left);
}

#[test]
fn quiet_write_leaves_raised_triggers_standing() {
    let mut c = SharedCommands::new();
    c.write_commands(&CommandInput { check: true, reset: true, ..quiet() });
    c.write_commands(&quiet());
    assert!(c.check_alignment);
    assert!(c.reset);
    let polled = c.poll_commands();
    assert!(polled.check_alignment);
    assert!(c.reset);
}

#[test]
fn poll_leaves_reset_and_movement_alone() {
    let mut c = all_raised();
    let polled = c.poll_commands();
    assert!(polled.rotate_left && polled.rotate_right && polled.zoom_in && polled.zoom_out);
    assert!(c.rotate_left && c.rotate_right && c.zoom_in && c.zoom_out);
    assert!(c.reset);
    assert!(!c.check_alignment && !c.blank_screen && !c.stop_rendering && !c.resume_rendering);
}
