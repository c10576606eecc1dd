//! The controller's calls, as operations on cells.
//!
//! The controller writes the command mailbox on every tick, writes a
//! configuration and raises `reset` to start a game over, and reads the
//! telemetry at will.

use vstd::prelude::*;
use crate::cells::{Flag, Long, Word};
use crate::commands::{CommandInput, SharedCommands};
use crate::game_structure::Telemetry;
use crate::layout::Part;
use crate::memory::SharedMemory;
use crate::ops::{
    fits, lemma_run_concat, lemma_run_loads, spec_fits, LoadOrder, Op, Reply, StoreOrder,
};
use crate::bits::{
    decode_alignment, decode_win_time, spec_decode_alignment, spec_decode_win_time,
};

verus! {

/// The store that restates a continuous flag.
pub open spec fn spec_restate(flag: Flag, value: bool) -> Op {
    Op::StoreFlag { flag, value, order: StoreOrder::Relaxed }
}

/// The store that raises a trigger, if it is to be raised; a trigger that is
/// not raised is not written at all, so that one raised earlier stands until
/// the game takes it.
pub open spec fn spec_raise(fire: bool, flag: Flag, order: StoreOrder) -> Seq<Op> {
    if fire {
        seq![Op::StoreFlag { flag, value: true, order }]
    } else {
        Seq::empty()
    }
}

/// The operations of one tick's command write: the four continuous flags,
/// then each trigger that is raised. `reset` is raised with release order,
/// all else is relaxed.
pub open spec fn spec_write_commands_plan(input: CommandInput) -> Seq<Op> {
    seq![
        spec_restate(Flag::RotateLeft, input.rotate_left),
        spec_restate(Flag::RotateRight, input.rotate_right),
        spec_restate(Flag::ZoomIn, input.zoom_in),
        spec_restate(Flag::ZoomOut, input.zoom_out),
    ] + spec_raise(input.check, Flag::CheckAlignment, StoreOrder::Relaxed) + spec_raise(
        input.reset,
        Flag::Reset,
        StoreOrder::Release,
    ) + spec_raise(input.blank_screen, Flag::BlankScreen, StoreOrder::Relaxed) + spec_raise(
        input.stop_rendering,
        Flag::StopRendering,
        StoreOrder::Relaxed,
    ) + spec_raise(input.resume_rendering, Flag::ResumeRendering, StoreOrder::Relaxed)
}

/// Appends the store that raises a trigger, if it is to be raised.
fn push_raise(plan: &mut Vec<Op>, fire: bool, flag: Flag, order: StoreOrder)
    ensures
        final(plan)@ == old(plan)@ + spec_raise(fire, flag, order),
{
    if fire {
        plan.push(Op::StoreFlag { flag, value: true, order });
        assert(plan@ =~= old(plan)@ + spec_raise(fire, flag, order));
    } else {
        assert(plan@ =~= old(plan)@ + spec_raise(fire, flag, order));
    }
}

/// Builds the operations of one tick's command write.
pub fn write_commands_plan(input: &CommandInput) -> (plan: Vec<Op>)
    ensures
        plan@ == spec_write_commands_plan(*input),
{
    let mut plan: Vec<Op> = Vec::new();
    plan.push(
        Op::StoreFlag { flag: Flag::RotateLeft, value: input.rotate_left, order: StoreOrder::Relaxed },
    );
    plan.push(
        Op::StoreFlag {
            flag: Flag::RotateRight,
            value: input.rotate_right,
            order: StoreOrder::Relaxed,
        },
    );
    plan.push(Op::StoreFlag { flag: Flag::ZoomIn, value: input.zoom_in, order: StoreOrder::Relaxed });
    plan.push(
        Op::StoreFlag { flag: Flag::ZoomOut, value: input.zoom_out, order: StoreOrder::Relaxed },
    );
    assert(plan@ =~= seq![
        spec_restate(Flag::RotateLeft, input.rotate_left),
        spec_restate(Flag::RotateRight, input.rotate_right),
        spec_restate(Flag::ZoomIn, input.zoom_in),
        spec_restate(Flag::ZoomOut, input.zoom_out),
    ]);
    push_raise(&mut plan, input.check, Flag::CheckAlignment, StoreOrder::Relaxed);
    push_raise(&mut plan, input.reset, Flag::Reset, StoreOrder::Release);
    push_raise(&mut plan, input.blank_screen, Flag::BlankScreen, StoreOrder::Relaxed);
    push_raise(&mut plan, input.stop_rendering, Flag::StopRendering, StoreOrder::Relaxed);
    push_raise(&mut plan, input.resume_rendering, Flag::ResumeRendering, StoreOrder::Relaxed);
    plan
}

/// What raising a trigger after a plan does: the flag is up if the plan left
/// it up or it is raised now, and all else is as the plan left it.
pub proof fn lemma_raise_effect(
    memory: SharedMemory,
    before: Seq<Op>,
    fire: bool,
    flag: Flag,
    order: StoreOrder,
)
    ensures
        memory.spec_run_all(before + spec_raise(fire, flag, order)) == spec_raised(
            memory.spec_run_all(before),
            fire,
            flag,
        ),
{
    let raise = spec_raise(fire, flag, order);
    lemma_run_concat(memory, before, raise, raise.len());
    let reached = memory.spec_run_all(before);
    if fire {
        assert(reached.spec_run(raise, 0) == reached);
        assert(reached.spec_run(raise, 1) == reached.spec_apply(raise[0]));
    }
}

/// The four stores that restate the continuous flags set those flags and
/// nothing else.
proof fn lemma_restate_effect(memory: SharedMemory, input: CommandInput)
    ensures
        memory.spec_run_all(
            seq![
                spec_restate(Flag::RotateLeft, input.rotate_left),
                spec_restate(Flag::RotateRight, input.rotate_right),
                spec_restate(Flag::ZoomIn, input.zoom_in),
                spec_restate(Flag::ZoomOut, input.zoom_out),
            ],
        ) == (SharedMemory {
            commands: SharedCommands {
                rotate_left: input.rotate_left,
                rotate_right: input.rotate_right,
                zoom_in: input.zoom_in,
                zoom_out: input.zoom_out,
                ..memory.commands
            },
            ..memory
        }),
{
    let plan = seq![
        spec_restate(Flag::RotateLeft, input.rotate_left),
        spec_restate(Flag::RotateRight, input.rotate_right),
        spec_restate(Flag::ZoomIn, input.zoom_in),
        spec_restate(Flag::ZoomOut, input.zoom_out),
    ];
    let m0 = memory.spec_run(plan, 0);
    let m1 = memory.spec_run(plan, 1);
    let m2 = memory.spec_run(plan, 2);
    let m3 = memory.spec_run(plan, 3);
    let m4 = memory.spec_run(plan, 4);
    assert(m0 == memory);
    assert(m1 == m0.spec_with_flag(Flag::RotateLeft, input.rotate_left));
    assert(m2 == m1.spec_with_flag(Flag::RotateRight, input.rotate_right));
    assert(m3 == m2.spec_with_flag(Flag::ZoomIn, input.zoom_in));
    assert(m4 == m3.spec_with_flag(Flag::ZoomOut, input.zoom_out));
}

/// The region with a trigger raised, if it is to be raised.
pub open spec fn spec_raised(memory: SharedMemory, fire: bool, flag: Flag) -> SharedMemory {
    if fire {
        memory.spec_with_flag(flag, true)
    } else {
        memory
    }
}

/// Restating the continuous flags and raising the triggers one by one is the
/// command write.
proof fn lemma_raised_is_write(memory: SharedMemory, input: CommandInput)
    ensures
        spec_raised(
            spec_raised(
                spec_raised(
                    spec_raised(
                        spec_raised(
                            SharedMemory {
                                commands: SharedCommands {
                                    rotate_left: input.rotate_left,
                                    rotate_right: input.rotate_right,
                                    zoom_in: input.zoom_in,
                                    zoom_out: input.zoom_out,
                                    ..memory.commands
                                },
                                ..memory
                            },
                            input.check,
                            Flag::CheckAlignment,
                        ),
                        input.reset,
                        Flag::Reset,
                    ),
                    input.blank_screen,
                    Flag::BlankScreen,
                ),
                input.stop_rendering,
                Flag::StopRendering,
            ),
            input.resume_rendering,
            Flag::ResumeRendering,
        ) == (SharedMemory { commands: memory.commands.spec_write_commands(input), ..memory }),
{
}

/// The operations of a command write, performed one after the other, do to
/// the mailbox what the write is defined to do, and leave the game structure
/// alone.
pub proof fn lemma_write_commands_plan(memory: SharedMemory, input: CommandInput)
    ensures
        memory.spec_run_all(spec_write_commands_plan(input)) == (SharedMemory {
            commands: memory.commands.spec_write_commands(input),
            ..memory
        }),
{
    let restated = seq![
        spec_restate(Flag::RotateLeft, input.rotate_left),
        spec_restate(Flag::RotateRight, input.rotate_right),
        spec_restate(Flag::ZoomIn, input.zoom_in),
        spec_restate(Flag::ZoomOut, input.zoom_out),
    ];
    let with_check = restated + spec_raise(input.check, Flag::CheckAlignment, StoreOrder::Relaxed);
    let with_reset = with_check + spec_raise(input.reset, Flag::Reset, StoreOrder::Release);
    let with_blank = with_reset + spec_raise(input.blank_screen, Flag::BlankScreen, StoreOrder::Relaxed);
    let with_stop = with_blank + spec_raise(input.stop_rendering, Flag::StopRendering, StoreOrder::Relaxed);
    lemma_restate_effect(memory, input);
    lemma_raise_effect(memory, restated, input.check, Flag::CheckAlignment, StoreOrder::Relaxed);
    lemma_raise_effect(memory, with_check, input.reset, Flag::Reset, StoreOrder::Release);
    lemma_raise_effect(memory, with_reset, input.blank_screen, Flag::BlankScreen, StoreOrder::Relaxed);
    lemma_raise_effect(memory, with_blank, input.stop_rendering, Flag::StopRendering, StoreOrder::Relaxed);
    lemma_raise_effect(
        memory,
        with_stop,
        input.resume_rendering,
        Flag::ResumeRendering,
        StoreOrder::Relaxed,
    );
    lemma_raised_is_write(memory, input);
}

/// Every store of a trigger is on a cell of the mailbox.
proof fn lemma_raise_in_mailbox(fire: bool, flag: Flag, order: StoreOrder, k: int)
    requires
        flag != Flag::IsAnimating,
        flag != Flag::HasWon,
        0 <= k < spec_raise(fire, flag, order).len(),
    ensures
        spec_raise(fire, flag, order)[k] is StoreFlag,
        spec_raise(fire, flag, order)[k].spec_cell().spec_part() == Part::Commands,
{
}

/// A command write touches the mailbox only: each of its operations is a
/// store to a flag of the mailbox.
pub proof fn lemma_write_commands_in_mailbox(input: CommandInput, k: int)
    requires
        0 <= k < spec_write_commands_plan(input).len(),
    ensures
        spec_write_commands_plan(input)[k] is StoreFlag,
        spec_write_commands_plan(input)[k].spec_cell().spec_part() == Part::Commands,
{
    let restated = seq![
        spec_restate(Flag::RotateLeft, input.rotate_left),
        spec_restate(Flag::RotateRight, input.rotate_right),
        spec_restate(Flag::ZoomIn, input.zoom_in),
        spec_restate(Flag::ZoomOut, input.zoom_out),
    ];
    let r1 = spec_raise(input.check, Flag::CheckAlignment, StoreOrder::Relaxed);
    let r2 = spec_raise(input.reset, Flag::Reset, StoreOrder::Release);
    let r3 = spec_raise(input.blank_screen, Flag::BlankScreen, StoreOrder::Relaxed);
    let r4 = spec_raise(input.stop_rendering, Flag::StopRendering, StoreOrder::Relaxed);
    let r5 = spec_raise(input.resume_rendering, Flag::ResumeRendering, StoreOrder::Relaxed);
    let n0 = restated.len() as int;
    let n1 = n0 + r1.len();
    let n2 = n1 + r2.len();
    let n3 = n2 + r3.len();
    let n4 = n3 + r4.len();
    let plan = spec_write_commands_plan(input);
    assert(plan == restated + r1 + r2 + r3 + r4 + r5);
    if k < n0 {
        assert(plan[k] == restated[k]);
    } else if k < n1 {
        assert(plan[k] == r1[k - n0]);
        lemma_raise_in_mailbox(input.check, Flag::CheckAlignment, StoreOrder::Relaxed, k - n0);
    } else if k < n2 {
        assert(plan[k] == r2[k - n1]);
        lemma_raise_in_mailbox(input.reset, Flag::Reset, StoreOrder::Release, k - n1);
    } else if k < n3 {
        assert(plan[k] == r3[k - n2]);
        lemma_raise_in_mailbox(input.blank_screen, Flag::BlankScreen, StoreOrder::Relaxed, k - n2);
    } else if k < n4 {
        assert(plan[k] == r4[k - n3]);
        lemma_raise_in_mailbox(
            input.stop_rendering,
            Flag::StopRendering,
            StoreOrder::Relaxed,
            k - n3,
        );
    } else {
        assert(plan[k] == r5[k - n4]);
        lemma_raise_in_mailbox(
            input.resume_rendering,
            Flag::ResumeRendering,
            StoreOrder::Relaxed,
            k - n4,
        );
    }
}

/// The operations that lower the movement flags and the alignment trigger:
/// five relaxed stores of `false`.
pub open spec fn spec_reset_triggers_plan() -> Seq<Op> {
    seq![
        spec_restate(Flag::RotateLeft, false),
        spec_restate(Flag::RotateRight, false),
        spec_restate(Flag::ZoomIn, false),
        spec_restate(Flag::ZoomOut, false),
        spec_restate(Flag::CheckAlignment, false),
    ]
}

/// Builds the operations that lower the movement flags and the alignment
/// trigger.
pub fn reset_triggers_plan() -> (plan: Vec<Op>)
    ensures
        plan@ == spec_reset_triggers_plan(),
{
    let mut plan: Vec<Op> = Vec::new();
    plan.push(Op::StoreFlag { flag: Flag::RotateLeft, value: false, order: StoreOrder::Relaxed });
    plan.push(Op::StoreFlag { flag: Flag::RotateRight, value: false, order: StoreOrder::Relaxed });
    plan.push(Op::StoreFlag { flag: Flag::ZoomIn, value: false, order: StoreOrder::Relaxed });
    plan.push(Op::StoreFlag { flag: Flag::ZoomOut, value: false, order: StoreOrder::Relaxed });
    plan.push(
        Op::StoreFlag { flag: Flag::CheckAlignment, value: false, order: StoreOrder::Relaxed },
    );
    assert(plan@ =~= spec_reset_triggers_plan());
    plan
}

/// The operations that lower the movement flags and the alignment trigger,
/// performed one after the other, lower those five flags and leave the
/// other triggers and the game structure alone. Each of them is a relaxed
/// store to a flag of the mailbox.
pub proof fn lemma_reset_triggers_plan(memory: SharedMemory)
    ensures
        memory.spec_run_all(spec_reset_triggers_plan()) == (SharedMemory {
            commands: memory.commands.spec_reset_triggers(),
            ..memory
        }),
        forall|k: int|
            0 <= k < 5 ==> {
                let op = #[trigger] spec_reset_triggers_plan()[k];
                op is StoreFlag && op.spec_cell().spec_part() == Part::Commands
            },
{
    let plan = spec_reset_triggers_plan();
    let m0 = memory.spec_run(plan, 0);
    let m1 = memory.spec_run(plan, 1);
    let m2 = memory.spec_run(plan, 2);
    let m3 = memory.spec_run(plan, 3);
    let m4 = memory.spec_run(plan, 4);
    let m5 = memory.spec_run(plan, 5);
    assert(m0 == memory);
    assert(m1 == m0.spec_with_flag(Flag::RotateLeft, false));
    assert(m2 == m1.spec_with_flag(Flag::RotateRight, false));
    assert(m3 == m2.spec_with_flag(Flag::ZoomIn, false));
    assert(m4 == m3.spec_with_flag(Flag::ZoomOut, false));
    assert(m5 == m4.spec_with_flag(Flag::CheckAlignment, false));
}

/// Number of operations that read the telemetry: one per cell.
pub const TELEMETRY_CELLS: usize = 13;

/// The operations that read the telemetry, all relaxed, in the order of the
/// region.
pub open spec fn spec_read_telemetry_plan() -> Seq<Op> {
    seq![
        Op::LoadWord { word: Word::Phase },
        Op::LoadLong { long: Long::FrameNumber },
        Op::LoadWord { word: Word::ElapsedSecs },
        Op::LoadWord { word: Word::CameraRadius },
        Op::LoadWord { word: Word::CameraX },
        Op::LoadWord { word: Word::CameraY },
        Op::LoadWord { word: Word::CameraZ },
        Op::LoadWord { word: Word::PyramidYaw },
        Op::LoadWord { word: Word::Attempts },
        Op::LoadWord { word: Word::Alignment },
        Op::LoadFlag { flag: Flag::IsAnimating, order: LoadOrder::Relaxed },
        Op::LoadFlag { flag: Flag::HasWon, order: LoadOrder::Relaxed },
        Op::LoadWord { word: Word::WinTime },
    ]
}

/// The telemetry that a reader makes of what the telemetry reads yielded;
/// nothing, if the replies cannot be what those reads yielded.
pub open spec fn spec_decode_telemetry(replies: Seq<Reply>) -> Option<Telemetry> {
    if spec_fits(spec_read_telemetry_plan(), replies) {
        Some(
            Telemetry {
                phase: replies[0].spec_word(),
                frame_number: replies[1].spec_long(),
                elapsed_secs: replies[2].spec_word(),
                camera_radius: replies[3].spec_word(),
                camera_x: replies[4].spec_word(),
                camera_y: replies[5].spec_word(),
                camera_z: replies[6].spec_word(),
                pyramid_yaw: replies[7].spec_word(),
                attempts: replies[8].spec_word(),
                alignment: spec_decode_alignment(replies[9].spec_word()),
                is_animating: replies[10].spec_flag(),
                has_won: replies[11].spec_flag(),
                win_time: spec_decode_win_time(replies[12].spec_word()),
            },
        )
    } else {
        None
    }
}

/// Builds the operations that read the telemetry.
pub fn read_telemetry_plan() -> (plan: Vec<Op>)
    ensures
        plan@ == spec_read_telemetry_plan(),
{
    let mut plan: Vec<Op> = Vec::new();
    plan.push(Op::LoadWord { word: Word::Phase });
    plan.push(Op::LoadLong { long: Long::FrameNumber });
    plan.push(Op::LoadWord { word: Word::ElapsedSecs });
    plan.push(Op::LoadWord { word: Word::CameraRadius });
    plan.push(Op::LoadWord { word: Word::CameraX });
    plan.push(Op::LoadWord { word: Word::CameraY });
    plan.push(Op::LoadWord { word: Word::CameraZ });
    plan.push(Op::LoadWord { word: Word::PyramidYaw });
    plan.push(Op::LoadWord { word: Word::Attempts });
    plan.push(Op::LoadWord { word: Word::Alignment });
    plan.push(Op::LoadFlag { flag: Flag::IsAnimating, order: LoadOrder::Relaxed });
    plan.push(Op::LoadFlag { flag: Flag::HasWon, order: LoadOrder::Relaxed });
    plan.push(Op::LoadWord { word: Word::WinTime });
    assert(plan@ =~= spec_read_telemetry_plan());
    plan
}

/// Makes the telemetry of what the telemetry reads yielded: each cell's
/// value as it was read, the reserved alignment pattern and a win time of
/// zero as absent values. Hands out nothing exactly when the replies cannot
/// be what those reads yielded.
pub fn decode_telemetry(replies: &Vec<Reply>) -> (telemetry: Option<Telemetry>)
    ensures
        telemetry == spec_decode_telemetry(replies@),
        telemetry is Some <==> spec_fits(spec_read_telemetry_plan(), replies@),
{
    let plan = read_telemetry_plan();
    if !fits(&plan, replies) {
        return None;
    }
    Some(
        Telemetry {
            phase: replies[0].word(),
            frame_number: replies[1].long(),
            elapsed_secs: replies[2].word(),
            camera_radius: replies[3].word(),
            camera_x: replies[4].word(),
            camera_y: replies[5].word(),
            camera_z: replies[6].word(),
            pyramid_yaw: replies[7].word(),
            attempts: replies[8].word(),
            alignment: decode_alignment(replies[9].word()),
            is_animating: replies[10].flag(),
            has_won: replies[11].flag(),
            win_time: decode_win_time(replies[12].word()),
        },
    )
}

/// Reading the telemetry changes nothing, and what the reads yield on a
/// region decodes to the telemetry that the region holds.
pub proof fn lemma_read_telemetry_plan(memory: SharedMemory)
    ensures
        memory.spec_run_all(spec_read_telemetry_plan()) == memory,
        spec_decode_telemetry(memory.spec_replies(spec_read_telemetry_plan())) == Some(
            memory.game_structure.spec_telemetry(),
        ),
{
    let plan = spec_read_telemetry_plan();
    let replies = memory.spec_replies(plan);
    assert forall|k: nat| k <= plan.len() implies #[trigger] memory.spec_run(plan, k)
        == memory by {
        lemma_run_loads(memory, plan, k);
    }
    assert(memory.spec_run(plan, 0) == memory);
    assert(memory.spec_run(plan, 1) == memory);
    assert(memory.spec_run(plan, 2) == memory);
    assert(memory.spec_run(plan, 3) == memory);
    assert(memory.spec_run(plan, 4) == memory);
    assert(memory.spec_run(plan, 5) == memory);
    assert(memory.spec_run(plan, 6) == memory);
    assert(memory.spec_run(plan, 7) == memory);
    assert(memory.spec_run(plan, 8) == memory);
    assert(memory.spec_run(plan, 9) == memory);
    assert(memory.spec_run(plan, 10) == memory);
    assert(memory.spec_run(plan, 11) == memory);
    assert(memory.spec_run(plan, 12) == memory);
    assert(spec_fits(plan, replies));
}

/// Reading the telemetry touches the state only, and only with loads.
pub proof fn lemma_read_telemetry_in_state(k: int)
    requires
        0 <= k < TELEMETRY_CELLS,
    ensures
        spec_read_telemetry_plan()[k].spec_is_load(),
        spec_read_telemetry_plan()[k].spec_cell().spec_part() == Part::State,
{
}

} // verus!
