//! The game's calls, as operations on cells.
//!
//! On every tick the game polls the command mailbox, looks whether a reset
//! is pending, and publishes its telemetry.

use vstd::prelude::*;
use crate::bits::{encode_alignment, encode_win_time, spec_encode_alignment, spec_encode_win_time};
use crate::cells::{Cell, Flag, Long, Word};
use crate::commands::{CommandInput, PolledCommands};
use crate::controller::{lemma_write_commands_plan, spec_write_commands_plan};
use crate::game_structure::Telemetry;
use crate::layout::Part;
use crate::memory::SharedMemory;
use crate::ops::{fits, lemma_run_loads, spec_fits, LoadOrder, Op, Reply, StoreOrder};

verus! {

/// Number of operations of a command poll.
pub const POLL_CELLS: usize = 8;

/// The operations of a command poll: the four continuous flags are read,
/// the four triggers are taken, each read and lowered in one step so that
/// one poll and no other sees it raised.
pub open spec fn spec_poll_commands_plan() -> Seq<Op> {
    seq![
        Op::LoadFlag { flag: Flag::RotateLeft, order: LoadOrder::Relaxed },
        Op::LoadFlag { flag: Flag::RotateRight, order: LoadOrder::Relaxed },
        Op::LoadFlag { flag: Flag::ZoomIn, order: LoadOrder::Relaxed },
        Op::LoadFlag { flag: Flag::ZoomOut, order: LoadOrder::Relaxed },
        Op::TakeFlag { flag: Flag::CheckAlignment },
        Op::TakeFlag { flag: Flag::BlankScreen },
        Op::TakeFlag { flag: Flag::StopRendering },
        Op::TakeFlag { flag: Flag::ResumeRendering },
    ]
}

/// The commands that the game makes of what a command poll yielded;
/// nothing, if the replies cannot be what a poll yielded.
pub open spec fn spec_decode_polled_commands(replies: Seq<Reply>) -> Option<PolledCommands> {
    if spec_fits(spec_poll_commands_plan(), replies) {
        Some(
            PolledCommands {
                rotate_left: replies[0].spec_flag(),
                rotate_right: replies[1].spec_flag(),
                zoom_in: replies[2].spec_flag(),
                zoom_out: replies[3].spec_flag(),
                check_alignment: replies[4].spec_flag(),
                blank_screen: replies[5].spec_flag(),
                stop_rendering: replies[6].spec_flag(),
                resume_rendering: replies[7].spec_flag(),
            },
        )
    } else {
        None
    }
}

/// Builds the operations of a command poll.
pub fn poll_commands_plan() -> (plan: Vec<Op>)
    ensures
        plan@ == spec_poll_commands_plan(),
{
    let mut plan: Vec<Op> = Vec::new();
    plan.push(Op::LoadFlag { flag: Flag::RotateLeft, order: LoadOrder::Relaxed });
    plan.push(Op::LoadFlag { flag: Flag::RotateRight, order: LoadOrder::Relaxed });
    plan.push(Op::LoadFlag { flag: Flag::ZoomIn, order: LoadOrder::Relaxed });
    plan.push(Op::LoadFlag { flag: Flag::ZoomOut, order: LoadOrder::Relaxed });
    plan.push(Op::TakeFlag { flag: Flag::CheckAlignment });
    plan.push(Op::TakeFlag { flag: Flag::BlankScreen });
    plan.push(Op::TakeFlag { flag: Flag::StopRendering });
    plan.push(Op::TakeFlag { flag: Flag::ResumeRendering });
    assert(plan@ =~= spec_poll_commands_plan());
    plan
}

/// Makes the polled commands of what a command poll yielded. Hands out
/// nothing exactly when the replies cannot be what a poll yielded.
pub fn decode_polled_commands(replies: &Vec<Reply>) -> (polled: Option<PolledCommands>)
    ensures
        polled == spec_decode_polled_commands(replies@),
        polled is Some <==> spec_fits(spec_poll_commands_plan(), replies@),
{
    let plan = poll_commands_plan();
    if !fits(&plan, replies) {
        return None;
    }
    Some(
        PolledCommands {
            rotate_left: replies[0].flag(),
            rotate_right: replies[1].flag(),
            zoom_in: replies[2].flag(),
            zoom_out: replies[3].flag(),
            check_alignment: replies[4].flag(),
            blank_screen: replies[5].flag(),
            stop_rendering: replies[6].flag(),
            resume_rendering: replies[7].flag(),
        },
    )
}

/// The region during a command poll: the reads change nothing, each take
/// lowers its trigger.
proof fn lemma_poll_commands_states(memory: SharedMemory)
    ensures
        ({
            let plan = spec_poll_commands_plan();
            &&& memory.spec_run(plan, 0) == memory
            &&& memory.spec_run(plan, 1) == memory
            &&& memory.spec_run(plan, 2) == memory
            &&& memory.spec_run(plan, 3) == memory
            &&& memory.spec_run(plan, 4) == memory
            &&& memory.spec_run(plan, 5) == memory.spec_with_flag(Flag::CheckAlignment, false)
            &&& memory.spec_run(plan, 6) == memory.spec_run(plan, 5).spec_with_flag(
                Flag::BlankScreen,
                false,
            )
            &&& memory.spec_run(plan, 7) == memory.spec_run(plan, 6).spec_with_flag(
                Flag::StopRendering,
                false,
            )
            &&& memory.spec_run(plan, 8) == memory.spec_run(plan, 7).spec_with_flag(
                Flag::ResumeRendering,
                false,
            )
        }),
{
    let plan = spec_poll_commands_plan();
    lemma_run_loads(memory, plan, 0);
    lemma_run_loads(memory, plan, 1);
    lemma_run_loads(memory, plan, 2);
    lemma_run_loads(memory, plan, 3);
    lemma_run_loads(memory, plan, 4);
    assert(memory.spec_run(plan, 5) == memory.spec_run(plan, 4).spec_apply(plan[4]));
    assert(memory.spec_run(plan, 6) == memory.spec_run(plan, 5).spec_apply(plan[5]));
    assert(memory.spec_run(plan, 7) == memory.spec_run(plan, 6).spec_apply(plan[6]));
    assert(memory.spec_run(plan, 8) == memory.spec_run(plan, 7).spec_apply(plan[7]));
}

/// The operations of a command poll, performed one after the other, are the
/// poll: they yield what the poll hands out and leave the region as the
/// poll leaves it.
pub proof fn lemma_poll_commands_plan(memory: SharedMemory)
    ensures
        memory.spec_run_all(spec_poll_commands_plan()) == (SharedMemory {
            commands: memory.commands.spec_after_poll(),
            ..memory
        }),
        spec_decode_polled_commands(memory.spec_replies(spec_poll_commands_plan())) == Some(
            memory.commands.spec_polled(),
        ),
{
    let plan = spec_poll_commands_plan();
    let replies = memory.spec_replies(plan);
    lemma_poll_commands_states(memory);
    crate::ops::lemma_replies_fit(memory, plan);
    assert(replies[0] == Reply::Flag(memory.commands.rotate_left));
    assert(replies[1] == Reply::Flag(memory.commands.rotate_right));
    assert(replies[2] == Reply::Flag(memory.commands.zoom_in));
    assert(replies[3] == Reply::Flag(memory.commands.zoom_out));
    assert(replies[4] == Reply::Flag(memory.commands.check_alignment));
    assert(replies[5] == Reply::Flag(memory.commands.blank_screen));
    assert(replies[6] == Reply::Flag(memory.commands.stop_rendering));
    assert(replies[7] == Reply::Flag(memory.commands.resume_rendering));
}

/// One-shot delivery, by the operations themselves and on a region that
/// nobody else touches: after a command write that raises the alignment
/// trigger, the poll that follows sees it raised, and the poll after that,
/// with no write between, sees it lowered. The continuous flags are seen by
/// both polls as the write left them.
pub proof fn lemma_trigger_taken_once(memory: SharedMemory, input: CommandInput)
    requires
        input.check,
    ensures
        ({
            let written = memory.spec_run_all(spec_write_commands_plan(input));
            let first = spec_decode_polled_commands(written.spec_replies(spec_poll_commands_plan()));
            let polled = written.spec_run_all(spec_poll_commands_plan());
            let second = spec_decode_polled_commands(polled.spec_replies(spec_poll_commands_plan()));
            &&& first matches Some(p) && p.check_alignment && p.rotate_left == input.rotate_left
            &&& second matches Some(p) && !p.check_alignment && !p.blank_screen
                && !p.stop_rendering && !p.resume_rendering && p.rotate_left == input.rotate_left
        }),
{
    lemma_write_commands_plan(memory, input);
    let written = memory.spec_run_all(spec_write_commands_plan(input));
    lemma_poll_commands_plan(written);
    lemma_poll_commands_plan(written.spec_run_all(spec_poll_commands_plan()));
}

/// Continuous flags do not stick, by the operations themselves and on a
/// region that nobody else touches: the poll after a command write sees
/// each movement flag as that write stated it, whatever was written and
/// polled before.
pub proof fn lemma_movement_follows_last_write(
    memory: SharedMemory,
    earlier: CommandInput,
    last: CommandInput,
)
    ensures
        ({
            let before = memory.spec_run_all(spec_write_commands_plan(earlier)).spec_run_all(
                spec_poll_commands_plan(),
            );
            let written = before.spec_run_all(spec_write_commands_plan(last));
            let seen = spec_decode_polled_commands(written.spec_replies(spec_poll_commands_plan()));
            seen matches Some(p) && p.rotate_left == last.rotate_left && p.rotate_right
                == last.rotate_right && p.zoom_in == last.zoom_in && p.zoom_out == last.zoom_out
        }),
{
    lemma_write_commands_plan(memory, earlier);
    let first = memory.spec_run_all(spec_write_commands_plan(earlier));
    lemma_poll_commands_plan(first);
    let before = first.spec_run_all(spec_poll_commands_plan());
    lemma_write_commands_plan(before, last);
    lemma_poll_commands_plan(before.spec_run_all(spec_write_commands_plan(last)));
}

/// A command poll touches the mailbox only, and of the mailbox it changes
/// the four triggers that it takes and nothing else: `reset` and the
/// continuous flags are left to the handshake and to the controller.
pub proof fn lemma_poll_in_mailbox(k: int)
    requires
        0 <= k < POLL_CELLS,
    ensures
        spec_poll_commands_plan()[k].spec_cell().spec_part() == Part::Commands,
        spec_poll_commands_plan()[k] is LoadFlag || spec_poll_commands_plan()[k] is TakeFlag,
        spec_poll_commands_plan()[k].spec_cell() != Cell::Flag(Flag::Reset),
        k < 4 <==> spec_poll_commands_plan()[k].spec_is_load(),
{
}

/// The operations that publish one tick's telemetry, all relaxed, in the
/// order of the region. An absent alignment is stored as its reserved
/// pattern, an absent win time as zero.
pub open spec fn spec_publish_telemetry_plan(telemetry: Telemetry) -> Seq<Op> {
    seq![
        Op::StoreWord { word: Word::Phase, value: telemetry.phase },
        Op::StoreLong { long: Long::FrameNumber, value: telemetry.frame_number },
        Op::StoreWord { word: Word::ElapsedSecs, value: telemetry.elapsed_secs },
        Op::StoreWord { word: Word::CameraRadius, value: telemetry.camera_radius },
        Op::StoreWord { word: Word::CameraX, value: telemetry.camera_x },
        Op::StoreWord { word: Word::CameraY, value: telemetry.camera_y },
        Op::StoreWord { word: Word::CameraZ, value: telemetry.camera_z },
        Op::StoreWord { word: Word::PyramidYaw, value: telemetry.pyramid_yaw },
        Op::StoreWord { word: Word::Attempts, value: telemetry.attempts },
        Op::StoreWord { word: Word::Alignment, value: spec_encode_alignment(telemetry.alignment) },
        Op::StoreFlag {
            flag: Flag::IsAnimating,
            value: telemetry.is_animating,
            order: StoreOrder::Relaxed,
        },
        Op::StoreFlag { flag: Flag::HasWon, value: telemetry.has_won, order: StoreOrder::Relaxed },
        Op::StoreWord { word: Word::WinTime, value: spec_encode_win_time(telemetry.win_time) },
    ]
}

/// Builds the operations that publish one tick's telemetry.
pub fn publish_telemetry_plan(telemetry: &Telemetry) -> (plan: Vec<Op>)
    ensures
        plan@ == spec_publish_telemetry_plan(*telemetry),
{
    let mut plan: Vec<Op> = Vec::new();
    plan.push(Op::StoreWord { word: Word::Phase, value: telemetry.phase });
    plan.push(Op::StoreLong { long: Long::FrameNumber, value: telemetry.frame_number });
    plan.push(Op::StoreWord { word: Word::ElapsedSecs, value: telemetry.elapsed_secs });
    plan.push(Op::StoreWord { word: Word::CameraRadius, value: telemetry.camera_radius });
    plan.push(Op::StoreWord { word: Word::CameraX, value: telemetry.camera_x });
    plan.push(Op::StoreWord { word: Word::CameraY, value: telemetry.camera_y });
    plan.push(Op::StoreWord { word: Word::CameraZ, value: telemetry.camera_z });
    plan.push(Op::StoreWord { word: Word::PyramidYaw, value: telemetry.pyramid_yaw });
    plan.push(Op::StoreWord { word: Word::Attempts, value: telemetry.attempts });
    plan.push(
        Op::StoreWord { word: Word::Alignment, value: encode_alignment(telemetry.alignment) },
    );
    plan.push(
        Op::StoreFlag {
            flag: Flag::IsAnimating,
            value: telemetry.is_animating,
            order: StoreOrder::Relaxed,
        },
    );
    plan.push(
        Op::StoreFlag { flag: Flag::HasWon, value: telemetry.has_won, order: StoreOrder::Relaxed },
    );
    plan.push(Op::StoreWord { word: Word::WinTime, value: encode_win_time(telemetry.win_time) });
    assert(plan@ =~= spec_publish_telemetry_plan(*telemetry));
    plan
}

/// Publishing the telemetry touches the state only.
pub proof fn lemma_publish_in_state(telemetry: Telemetry, k: int)
    requires
        0 <= k < spec_publish_telemetry_plan(telemetry).len(),
    ensures
        spec_publish_telemetry_plan(telemetry).len() == 13,
        !spec_publish_telemetry_plan(telemetry)[k].spec_is_load(),
        spec_publish_telemetry_plan(telemetry)[k].spec_cell().spec_part() == Part::State,
{
}

/// The operations that publish the telemetry, performed one after the
/// other, put it into its cells and leave every other cell alone.
pub proof fn lemma_publish_telemetry_plan(memory: SharedMemory, telemetry: Telemetry)
    ensures
        memory.spec_run_all(spec_publish_telemetry_plan(telemetry)) == (SharedMemory {
            game_structure: memory.game_structure.spec_publish_telemetry(telemetry),
            ..memory
        }),
{
    let plan = spec_publish_telemetry_plan(telemetry);
    let m0 = memory.spec_run(plan, 0);
    let m1 = memory.spec_run(plan, 1);
    let m2 = memory.spec_run(plan, 2);
    let m3 = memory.spec_run(plan, 3);
    let m4 = memory.spec_run(plan, 4);
    let m5 = memory.spec_run(plan, 5);
    let m6 = memory.spec_run(plan, 6);
    let m7 = memory.spec_run(plan, 7);
    let m8 = memory.spec_run(plan, 8);
    let m9 = memory.spec_run(plan, 9);
    let m10 = memory.spec_run(plan, 10);
    let m11 = memory.spec_run(plan, 11);
    let m12 = memory.spec_run(plan, 12);
    let m13 = memory.spec_run(plan, 13);
    assert(m0 == memory);
    assert(m1 == m0.spec_with_word(Word::Phase, telemetry.phase));
    assert(m2 == m1.spec_with_long(Long::FrameNumber, telemetry.frame_number));
    assert(m3 == m2.spec_with_word(Word::ElapsedSecs, telemetry.elapsed_secs));
    assert(m4 == m3.spec_with_word(Word::CameraRadius, telemetry.camera_radius));
    assert(m5 == m4.spec_with_word(Word::CameraX, telemetry.camera_x));
    assert(m6 == m5.spec_with_word(Word::CameraY, telemetry.camera_y));
    assert(m7 == m6.spec_with_word(Word::CameraZ, telemetry.camera_z));
    assert(m8 == m7.spec_with_word(Word::PyramidYaw, telemetry.pyramid_yaw));
    assert(m9 == m8.spec_with_word(Word::Attempts, telemetry.attempts));
    assert(m10 == m9.spec_with_word(Word::Alignment, spec_encode_alignment(telemetry.alignment)));
    assert(m11 == m10.spec_with_flag(Flag::IsAnimating, telemetry.is_animating));
    assert(m12 == m11.spec_with_flag(Flag::HasWon, telemetry.has_won));
    assert(m13 == m12.spec_with_word(Word::WinTime, spec_encode_win_time(telemetry.win_time)));
}

} // verus!
