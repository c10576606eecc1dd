//! The game structure: the configuration that the controller hands to the
//! game, and the telemetry that the game hands back.

use vstd::prelude::*;
use crate::bits::{
    decode_alignment, decode_win_time, encode_alignment, encode_win_time, spec_decode_alignment,
    spec_decode_win_time, spec_encode_alignment, spec_encode_win_time, ALIGNMENT_NONE_BITS,
    NEGATIVE_ZERO_BITS, WIN_TIME_NONE_BITS,
};
use crate::error::TransportError;

verus! {

/// Number of pyramid faces that carry a colour.
pub const FACES: usize = 3;

/// Number of channels of a colour: red, green, blue, alpha.
pub const CHANNELS: usize = 4;

/// Number of colour cells: one per face and channel.
pub const COLOR_CELLS: usize = 12;

/// Pyramid types, as the 32-bit code that the region carries.
#[derive(Clone, Copy, Debug, PartialEq, Eq, Structural)]
pub enum PyramidType {
    Type1,
    Type2,
}

/// Game phases, as the 32-bit code that the region carries.
#[derive(Clone, Copy, Debug, PartialEq, Eq, Structural)]
pub enum Phase {
    Playing,
    Won,
}

impl PyramidType {
    /// The code of a pyramid type: 0 for the first, 1 for the second.
    pub open spec fn spec_code(self) -> u32 {
        match self {
            PyramidType::Type1 => 0,
            PyramidType::Type2 => 1,
        }
    }

    /// The pyramid type with the given code, if there is one.
    pub open spec fn spec_from_code(code: u32) -> Option<PyramidType> {
        if code == 0 {
            Some(PyramidType::Type1)
        } else if code == 1 {
            Some(PyramidType::Type2)
        } else {
            None
        }
    }

    /// The code written to the region for this pyramid type.
    pub fn code(self) -> (code: u32)
        ensures
            code == self.spec_code(),
    {
        match self {
            PyramidType::Type1 => 0,
            PyramidType::Type2 => 1,
        }
    }

    /// Reads a pyramid type code; `None` for a code that names no type.
    pub fn from_code(code: u32) -> (pyramid_type: Option<PyramidType>)
        ensures
            pyramid_type == PyramidType::spec_from_code(code),
    {
        if code == 0 {
            Some(PyramidType::Type1)
        } else if code == 1 {
            Some(PyramidType::Type2)
        } else {
            None
        }
    }
}

impl Default for PyramidType {
    fn default() -> (pyramid_type: PyramidType)
        ensures
            pyramid_type == PyramidType::Type1,
    {
        PyramidType::Type1
    }
}

impl Phase {
    /// The code of a phase: 0 while playing, 1 once won.
    pub open spec fn spec_code(self) -> u32 {
        match self {
            Phase::Playing => 0,
            Phase::Won => 1,
        }
    }

    /// The phase with the given code, if there is one.
    pub open spec fn spec_from_code(code: u32) -> Option<Phase> {
        if code == 0 {
            Some(Phase::Playing)
        } else if code == 1 {
            Some(Phase::Won)
        } else {
            None
        }
    }

    /// The code written to the region for this phase.
    pub fn code(self) -> (code: u32)
        ensures
            code == self.spec_code(),
    {
        match self {
            Phase::Playing => 0,
            Phase::Won => 1,
        }
    }

    /// Reads a phase code; `None` for a code that names no phase.
    pub fn from_code(code: u32) -> (phase: Option<Phase>)
        ensures
            phase == Phase::spec_from_code(code),
    {
        if code == 0 {
            Some(Phase::Playing)
        } else if code == 1 {
            Some(Phase::Won)
        } else {
            None
        }
    }
}

/// A code names the variant it was made from, and no two variants share one.
pub proof fn lemma_codes_round_trip(pyramid_type: PyramidType, phase: Phase, code: u32)
    ensures
        PyramidType::spec_from_code(pyramid_type.spec_code()) == Some(pyramid_type),
        Phase::spec_from_code(phase.spec_code()) == Some(phase),
        PyramidType::spec_from_code(code) matches Some(t) ==> t.spec_code() == code,
        Phase::spec_from_code(code) matches Some(p) ==> p.spec_code() == code,
{
}

/// The configuration of one game, as the controller hands it over. Fractional
/// quantities are held as their bit patterns.
#[derive(Clone, Copy, Debug, PartialEq, Eq)]
pub struct GameConfig {
    /// Seed of the procedural generation.
    pub seed: u64,
    /// Code of the pyramid type.
    pub pyramid_type: u32,
    /// Base radius of the pyramid (pattern).
    pub base_radius: u32,
    /// Height of the pyramid (pattern).
    pub height: u32,
    /// Starting orientation in radians (pattern).
    pub start_orient: u32,
    /// Index of the target door.
    pub target_door: u32,
    /// Colours, face by face, four channels each (patterns).
    pub colors: [u32; 12],
}

/// The state of the running game, as the game publishes it on every tick.
/// Fractional quantities are held as their bit patterns.
#[derive(Clone, Copy, Debug, PartialEq, Eq)]
pub struct Telemetry {
    /// Code of the phase.
    pub phase: u32,
    /// Number of the frame.
    pub frame_number: u64,
    /// Seconds since the game started (pattern).
    pub elapsed_secs: u32,
    /// Radius of the camera's orbit (pattern).
    pub camera_radius: u32,
    /// Camera position (patterns).
    pub camera_x: u32,
    pub camera_y: u32,
    pub camera_z: u32,
    /// Yaw of the pyramid in radians (pattern).
    pub pyramid_yaw: u32,
    /// Number of alignment checks so far.
    pub attempts: u32,
    /// Cosine of the last measured alignment (pattern), if one was measured.
    pub alignment: Option<u32>,
    /// Whether the door animation is playing.
    pub is_animating: bool,
    /// Whether the player has won.
    pub has_won: bool,
    /// Seconds it took to win (pattern), once won.
    pub win_time: Option<u32>,
}

/// Seed of the default trial.
pub const DEFAULT_SEED: u64 = 69;

/// Pattern of `2.5`, the base radius of the default trial.
pub const DEFAULT_BASE_RADIUS_BITS: u32 = 0x4020_0000;

/// Pattern of `4.0`, the height of the default trial.
pub const DEFAULT_HEIGHT_BITS: u32 = 0x4080_0000;

/// Index of the target door of the default trial.
pub const DEFAULT_TARGET_DOOR: u32 = 5;

/// Pattern of `1.0`.
pub const ONE_BITS: u32 = 0x3F80_0000;

/// Pattern of `0.2`.
pub const ONE_FIFTH_BITS: u32 = 0x3E4C_CCCD;

/// Pattern of `0.5`.
pub const ONE_HALF_BITS: u32 = 0x3F00_0000;

/// Pattern of `0.3`.
pub const THREE_TENTHS_BITS: u32 = 0x3E99_999A;

impl GameConfig {
    /// The colours of the default trial, row after row: a red, a blue and
    /// a green face, all opaque.
    pub open spec fn spec_default_colors() -> Seq<u32> {
        seq![
            ONE_BITS,
            ONE_FIFTH_BITS,
            ONE_FIFTH_BITS,
            ONE_BITS,
            ONE_FIFTH_BITS,
            ONE_HALF_BITS,
            ONE_BITS,
            ONE_BITS,
            ONE_FIFTH_BITS,
            ONE_BITS,
            THREE_TENTHS_BITS,
            ONE_BITS,
        ]
    }

    /// `config` is the default trial.
    pub open spec fn spec_is_default_trial(config: GameConfig) -> bool {
        &&& config.seed == DEFAULT_SEED
        &&& config.pyramid_type == 0
        &&& config.base_radius == DEFAULT_BASE_RADIUS_BITS
        &&& config.height == DEFAULT_HEIGHT_BITS
        &&& config.start_orient == 0
        &&& config.target_door == DEFAULT_TARGET_DOOR
        &&& config.colors@ == GameConfig::spec_default_colors()
    }

    /// The default trial.
    pub open spec fn spec_default_trial() -> GameConfig {
        choose|config: GameConfig| GameConfig::spec_is_default_trial(config)
    }

    /// The trial that is played where no other is given: seed 69, the
    /// first pyramid type, base radius `2.5`, height `4.0`, orientation
    /// `0.0`, target door 5, and a red, a blue and a green face.
    pub fn default_trial() -> (config: GameConfig)
        ensures
            GameConfig::spec_is_default_trial(config),
            config == GameConfig::spec_default_trial(),
    {
        let config = GameConfig {
            seed: DEFAULT_SEED,
            pyramid_type: PyramidType::Type1.code(),
            base_radius: DEFAULT_BASE_RADIUS_BITS,
            height: DEFAULT_HEIGHT_BITS,
            start_orient: 0,
            target_door: DEFAULT_TARGET_DOOR,
            colors: [
                ONE_BITS,
                ONE_FIFTH_BITS,
                ONE_FIFTH_BITS,
                ONE_BITS,
                ONE_FIFTH_BITS,
                ONE_HALF_BITS,
                ONE_BITS,
                ONE_BITS,
                ONE_FIFTH_BITS,
                ONE_BITS,
                THREE_TENTHS_BITS,
                ONE_BITS,
            ],
        };
        proof {
            assert(config.colors@ =~= GameConfig::spec_default_colors());
            assert(GameConfig::spec_is_default_trial(config));
            let chosen = GameConfig::spec_default_trial();
            assert(GameConfig::spec_is_default_trial(chosen));
            assert(chosen.colors =~= config.colors);
        }
        config
    }
}

impl Default for GameConfig {
    fn default() -> (config: GameConfig)
        ensures
            GameConfig::spec_is_default_trial(config),
    {
        GameConfig::default_trial()
    }
}

impl Telemetry {
    /// Telemetry that reads back as it was published: no present value has
    /// a pattern that reads as absent, which are the reserved pattern of the
    /// alignment and the two patterns of zero of the win time.
    pub open spec fn distinguishes_absence(self) -> bool {
        &&& self.alignment != Some(ALIGNMENT_NONE_BITS)
        &&& self.win_time != Some(WIN_TIME_NONE_BITS)
        &&& self.win_time != Some(NEGATIVE_ZERO_BITS)
    }
}

/// Image of the game structure, one field per cell.
#[derive(Clone, Copy, Debug, PartialEq, Eq)]
pub struct SharedGameStructure {
    /// Seed of the procedural generation.
    pub seed: u64,
    /// Code of the pyramid type.
    pub pyramid_type: u32,
    /// Base radius of the pyramid (pattern).
    pub base_radius: u32,
    /// Height of the pyramid (pattern).
    pub height: u32,
    /// Starting orientation in radians (pattern).
    pub start_orient: u32,
    /// Index of the target door.
    pub target_door: u32,
    /// Colours: three faces of four channels (patterns).
    pub colors: [u32; 12],
    /// Code of the phase.
    pub phase: u32,
    /// Number of the frame.
    pub frame_number: u64,
    /// Seconds since the game started (pattern).
    pub elapsed_secs: u32,
    /// Radius of the camera's orbit (pattern).
    pub camera_radius: u32,
    /// Camera position (patterns).
    pub camera_x: u32,
    pub camera_y: u32,
    pub camera_z: u32,
    /// Yaw of the pyramid in radians (pattern).
    pub pyramid_yaw: u32,
    /// Number of alignment checks so far.
    pub attempts: u32,
    /// Cosine of the alignment (pattern); the pattern of `2.0` for none.
    pub alignment: u32,
    /// Whether the door animation is playing.
    pub is_animating: bool,
    /// Whether the player has won.
    pub has_won: bool,
    /// Seconds it took to win (pattern); zero for none.
    pub win_time: u32,
}

/// A colour matrix of the right shape: three rows of four values.
pub open spec fn is_color_matrix(colors: Seq<Vec<u32>>) -> bool {
    &&& colors.len() == FACES
    &&& forall|face: int| 0 <= face < FACES ==> (#[trigger] colors[face])@.len() == CHANNELS
}

/// The cell of a colour matrix entry: rows follow one another.
pub open spec fn color_cell(face: int, channel: int) -> int {
    face * 4 + channel
}

/// `cells` holds the matrix `colors`, row after row.
pub open spec fn holds_color_matrix(cells: [u32; 12], colors: Seq<Vec<u32>>) -> bool {
    forall|face: int, channel: int|
        0 <= face < FACES && 0 <= channel < CHANNELS ==> cells@[#[trigger] color_cell(
            face,
            channel,
        )] == colors[face]@[channel]
}

/// Lays a colour matrix out in its twelve cells, row after row. Fails with
/// `InvalidShape` exactly when the matrix is not three rows of four values.
pub fn flatten_colors(colors: &Vec<Vec<u32>>) -> (r: Result<[u32; 12], TransportError>)
    ensures
        r is Ok <==> is_color_matrix(colors@),
        r is Err ==> r == Err::<[u32; 12], TransportError>(TransportError::InvalidShape),
        r matches Ok(cells) ==> holds_color_matrix(cells, colors@),
{
    if colors.len() != FACES {
        return Err(TransportError::InvalidShape);
    }
    let mut face: usize = 0;
    while face < FACES
        invariant
            colors@.len() == FACES,
            face <= FACES,
            forall|f: int| 0 <= f < face ==> (#[trigger] colors@[f])@.len() == CHANNELS,
        decreases FACES - face,
    {
        if colors[face].len() != CHANNELS {
            return Err(TransportError::InvalidShape);
        }
        face += 1;
    }
    let mut cells: [u32; 12] = [0u32; 12];
    let mut face: usize = 0;
    while face < FACES
        invariant
            is_color_matrix(colors@),
            face <= FACES,
            forall|f: int, c: int|
                0 <= f < face && 0 <= c < CHANNELS ==> cells@[#[trigger] color_cell(f, c)]
                    == colors@[f]@[c],
        decreases FACES - face,
    {
        let mut channel: usize = 0;
        while channel < CHANNELS
            invariant
                is_color_matrix(colors@),
                face < FACES,
                channel <= CHANNELS,
                forall|f: int, c: int|
                    0 <= f < face && 0 <= c < CHANNELS ==> cells@[#[trigger] color_cell(f, c)]
                        == colors@[f]@[c],
                forall|c: int|
                    0 <= c < channel ==> cells@[#[trigger] color_cell(face as int, c)]
                        == colors@[face as int]@[c],
            decreases CHANNELS - channel,
        {
            cells[face * 4 + channel] = colors[face][channel];
            channel += 1;
        }
        face += 1;
    }
    Ok(cells)
}

impl SharedGameStructure {
    /// The structure as its creator leaves it: every cell zero, which is the
    /// first pyramid type and the playing phase.
    pub open spec fn spec_new() -> SharedGameStructure {
        SharedGameStructure {
            seed: 0,
            pyramid_type: 0,
            base_radius: 0,
            height: 0,
            start_orient: 0,
            target_door: 0,
            colors: vstd::array::spec_array_fill_for_copy_type::<u32, 12>(0),
            phase: 0,
            frame_number: 0,
            elapsed_secs: 0,
            camera_radius: 0,
            camera_x: 0,
            camera_y: 0,
            camera_z: 0,
            pyramid_yaw: 0,
            attempts: 0,
            alignment: 0,
            is_animating: false,
            has_won: false,
            win_time: 0,
        }
    }

    /// The configuration that the structure holds.
    pub open spec fn spec_config(self) -> GameConfig {
        GameConfig {
            seed: self.seed,
            pyramid_type: self.pyramid_type,
            base_radius: self.base_radius,
            height: self.height,
            start_orient: self.start_orient,
            target_door: self.target_door,
            colors: self.colors,
        }
    }

    /// The structure after `config` is written: the telemetry cells stand.
    pub open spec fn spec_write_config(self, config: GameConfig) -> SharedGameStructure {
        SharedGameStructure {
            seed: config.seed,
            pyramid_type: config.pyramid_type,
            base_radius: config.base_radius,
            height: config.height,
            start_orient: config.start_orient,
            target_door: config.target_door,
            colors: config.colors,
            ..self
        }
    }

    /// The telemetry that a reader takes from the structure.
    pub open spec fn spec_telemetry(self) -> Telemetry {
        Telemetry {
            phase: self.phase,
            frame_number: self.frame_number,
            elapsed_secs: self.elapsed_secs,
            camera_radius: self.camera_radius,
            camera_x: self.camera_x,
            camera_y: self.camera_y,
            camera_z: self.camera_z,
            pyramid_yaw: self.pyramid_yaw,
            attempts: self.attempts,
            alignment: spec_decode_alignment(self.alignment),
            is_animating: self.is_animating,
            has_won: self.has_won,
            win_time: spec_decode_win_time(self.win_time),
        }
    }

    /// The structure after `telemetry` is published: the configuration cells
    /// stand.
    pub open spec fn spec_publish_telemetry(self, telemetry: Telemetry) -> SharedGameStructure {
        SharedGameStructure {
            phase: telemetry.phase,
            frame_number: telemetry.frame_number,
            elapsed_secs: telemetry.elapsed_secs,
            camera_radius: telemetry.camera_radius,
            camera_x: telemetry.camera_x,
            camera_y: telemetry.camera_y,
            camera_z: telemetry.camera_z,
            pyramid_yaw: telemetry.pyramid_yaw,
            attempts: telemetry.attempts,
            alignment: spec_encode_alignment(telemetry.alignment),
            is_animating: telemetry.is_animating,
            has_won: telemetry.has_won,
            win_time: spec_encode_win_time(telemetry.win_time),
            ..self
        }
    }

    /// A structure with every cell zero.
    pub fn new() -> (structure: SharedGameStructure)
        ensures
            structure == SharedGameStructure::spec_new(),
    {
        SharedGameStructure {
            seed: 0,
            pyramid_type: PyramidType::Type1.code(),
            base_radius: 0,
            height: 0,
            start_orient: 0,
            target_door: 0,
            colors: [0u32; 12],
            phase: Phase::Playing.code(),
            frame_number: 0,
            elapsed_secs: 0,
            camera_radius: 0,
            camera_x: 0,
            camera_y: 0,
            camera_z: 0,
            pyramid_yaw: 0,
            attempts: 0,
            alignment: 0,
            is_animating: false,
            has_won: false,
            win_time: 0,
        }
    }

    /// Writes a configuration into its cells; the telemetry cells stand.
    pub fn write_config(&mut self, config: &GameConfig)
        ensures
            *final(self) == old(self).spec_write_config(*config),
    {
        self.seed = config.seed;
        self.pyramid_type = config.pyramid_type;
        self.base_radius = config.base_radius;
        self.height = config.height;
        self.start_orient = config.start_orient;
        self.target_door = config.target_door;
        self.colors = config.colors;
    }

    /// Reads the configuration cells.
    pub fn read_config(&self) -> (config: GameConfig)
        ensures
            config == self.spec_config(),
    {
        GameConfig {
            seed: self.seed,
            pyramid_type: self.pyramid_type,
            base_radius: self.base_radius,
            height: self.height,
            start_orient: self.start_orient,
            target_door: self.target_door,
            colors: self.colors,
        }
    }

    /// Writes a configuration whose colours come as a matrix. A matrix that
    /// is not three rows of four values is turned down with `InvalidShape`,
    /// and the structure is left as it was.
    pub fn write_game_structure(
        &mut self,
        seed: u64,
        pyramid_type: u32,
        base_radius: u32,
        height: u32,
        start_orient: u32,
        target_door: u32,
        colors: &Vec<Vec<u32>>,
    ) -> (r: Result<(), TransportError>)
        ensures
            r is Ok <==> is_color_matrix(colors@),
            r is Err ==> r == Err::<(), TransportError>(TransportError::InvalidShape),
            r is Err ==> *final(self) == *old(self),
            r is Ok ==> {
                &&& final(self).seed == seed
                &&& final(self).pyramid_type == pyramid_type
                &&& final(self).base_radius == base_radius
                &&& final(self).height == height
                &&& final(self).start_orient == start_orient
                &&& final(self).target_door == target_door
                &&& holds_color_matrix(final(self).colors, colors@)
                &&& *final(self) == old(self).spec_write_config(final(self).spec_config())
            },
    {
        match flatten_colors(colors) {
            Err(e) => Err(e),
            Ok(cells) => {
                let config = GameConfig {
                    seed,
                    pyramid_type,
                    base_radius,
                    height,
                    start_orient,
                    target_door,
                    colors: cells,
                };
                self.write_config(&config);
                Ok(())
            },
        }
    }

    /// Publishes one tick's telemetry; the configuration cells stand. An
    /// absent alignment is written as its reserved pattern, an absent win
    /// time as zero.
    pub fn publish_telemetry(&mut self, telemetry: &Telemetry)
        ensures
            *final(self) == old(self).spec_publish_telemetry(*telemetry),
    {
        self.phase = telemetry.phase;
        self.frame_number = telemetry.frame_number;
        self.elapsed_secs = telemetry.elapsed_secs;
        self.camera_radius = telemetry.camera_radius;
        self.camera_x = telemetry.camera_x;
        self.camera_y = telemetry.camera_y;
        self.camera_z = telemetry.camera_z;
        self.pyramid_yaw = telemetry.pyramid_yaw;
        self.attempts = telemetry.attempts;
        self.alignment = encode_alignment(telemetry.alignment);
        self.is_animating = telemetry.is_animating;
        self.has_won = telemetry.has_won;
        self.win_time = encode_win_time(telemetry.win_time);
    }

    /// Reads the telemetry cells; the reserved alignment pattern and a win
    /// time of zero read as absent.
    pub fn read_telemetry(&self) -> (telemetry: Telemetry)
        ensures
            telemetry == self.spec_telemetry(),
    {
        Telemetry {
            phase: self.phase,
            frame_number: self.frame_number,
            elapsed_secs: self.elapsed_secs,
            camera_radius: self.camera_radius,
            camera_x: self.camera_x,
            camera_y: self.camera_y,
            camera_z: self.camera_z,
            pyramid_yaw: self.pyramid_yaw,
            attempts: self.attempts,
            alignment: decode_alignment(self.alignment),
            is_animating: self.is_animating,
            has_won: self.has_won,
            win_time: decode_win_time(self.win_time),
        }
    }
}

impl Default for SharedGameStructure {
    fn default() -> (structure: SharedGameStructure)
        ensures
            structure == SharedGameStructure::spec_new(),
    {
        SharedGameStructure::new()
    }
}

/// A configuration is read back bit for bit, whatever the patterns are and
/// whatever the structure held, and writing it leaves the telemetry alone.
pub proof fn lemma_config_round_trip(structure: SharedGameStructure, config: GameConfig)
    ensures
        structure.spec_write_config(config).spec_config() == config,
        structure.spec_write_config(config).spec_telemetry() == structure.spec_telemetry(),
{
}

/// Of two configurations written one after the other, the later one stands.
pub proof fn lemma_config_last_write_wins(
    structure: SharedGameStructure,
    first: GameConfig,
    second: GameConfig,
)
    ensures
        structure.spec_write_config(first).spec_write_config(second) == structure.spec_write_config(
            second,
        ),
{
}

/// Telemetry is read back as published, provided no present value has a
/// pattern that reads as absent, and publishing leaves the configuration
/// alone.
pub proof fn lemma_telemetry_round_trip(structure: SharedGameStructure, telemetry: Telemetry)
    ensures
        telemetry.distinguishes_absence() ==> structure.spec_publish_telemetry(
            telemetry,
        ).spec_telemetry() == telemetry,
        structure.spec_publish_telemetry(telemetry).spec_config() == structure.spec_config(),
{
}

} // verus!
