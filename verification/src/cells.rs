//! The cells of the region, by name.
//!
//! A cell is one independently atomic field: a flag of one byte, a word of
//! four, or a long word of eight.

use vstd::prelude::*;

verus! {

/// The three coloured faces of the pyramid.
#[derive(Clone, Copy, Debug, PartialEq, Eq, Structural)]
pub enum Face {
    First,
    Second,
    Third,
}

/// The four channels of a colour.
#[derive(Clone, Copy, Debug, PartialEq, Eq, Structural)]
pub enum Channel {
    Red,
    Green,
    Blue,
    Alpha,
}

/// The one-byte cells.
#[derive(Clone, Copy, Debug, PartialEq, Eq, Structural)]
pub enum Flag {
    RotateLeft,
    RotateRight,
    ZoomIn,
    ZoomOut,
    CheckAlignment,
    Reset,
    BlankScreen,
    StopRendering,
    ResumeRendering,
    IsAnimating,
    HasWon,
}

/// The four-byte cells.
#[derive(Clone, Copy, Debug, PartialEq, Eq, Structural)]
pub enum Word {
    PyramidType,
    BaseRadius,
    Height,
    StartOrient,
    TargetDoor,
    Color(Face, Channel),
    Phase,
    ElapsedSecs,
    CameraRadius,
    CameraX,
    CameraY,
    CameraZ,
    PyramidYaw,
    Attempts,
    Alignment,
    WinTime,
}

/// The eight-byte cells.
#[derive(Clone, Copy, Debug, PartialEq, Eq, Structural)]
pub enum Long {
    Seed,
    FrameNumber,
}

/// Any cell of the region.
#[derive(Clone, Copy, Debug, PartialEq, Eq, Structural)]
pub enum Cell {
    Flag(Flag),
    Word(Word),
    Long(Long),
}

/// Number of one-byte cells.
pub const FLAG_COUNT: usize = 11;

/// Number of four-byte cells.
pub const WORD_COUNT: usize = 27;

/// Number of eight-byte cells.
pub const LONG_COUNT: usize = 2;

impl Face {
    /// Position of the face among the faces.
    pub open spec fn spec_index(self) -> int {
        match self {
            Face::First => 0,
            Face::Second => 1,
            Face::Third => 2,
        }
    }

    /// Position of the face among the faces.
    pub fn index(self) -> (i: usize)
        ensures
            i == self.spec_index(),
            i < 3,
    {
        match self {
            Face::First => 0,
            Face::Second => 1,
            Face::Third => 2,
        }
    }

    /// The face at a position; past the third, the third.
    pub open spec fn spec_at(i: int) -> Face {
        if i <= 0 {
            Face::First
        } else if i == 1 {
            Face::Second
        } else {
            Face::Third
        }
    }

    /// The face at a position; `None` past the third.
    pub fn from_index(i: usize) -> (face: Option<Face>)
        ensures
            face is Some <==> i < 3,
            face is Some ==> face == Some(Face::spec_at(i as int)),
    {
        if i == 0 {
            Some(Face::First)
        } else if i == 1 {
            Some(Face::Second)
        } else if i == 2 {
            Some(Face::Third)
        } else {
            None
        }
    }
}

impl Channel {
    /// Position of the channel within a colour.
    pub open spec fn spec_index(self) -> int {
        match self {
            Channel::Red => 0,
            Channel::Green => 1,
            Channel::Blue => 2,
            Channel::Alpha => 3,
        }
    }

    /// Position of the channel within a colour.
    pub fn index(self) -> (i: usize)
        ensures
            i == self.spec_index(),
            i < 4,
    {
        match self {
            Channel::Red => 0,
            Channel::Green => 1,
            Channel::Blue => 2,
            Channel::Alpha => 3,
        }
    }

    /// The channel at a position; past the fourth, the fourth.
    pub open spec fn spec_at(i: int) -> Channel {
        if i <= 0 {
            Channel::Red
        } else if i == 1 {
            Channel::Green
        } else if i == 2 {
            Channel::Blue
        } else {
            Channel::Alpha
        }
    }

    /// The channel at a position; `None` past the fourth.
    pub fn from_index(i: usize) -> (channel: Option<Channel>)
        ensures
            channel is Some <==> i < 4,
            channel is Some ==> channel == Some(Channel::spec_at(i as int)),
    {
        if i == 0 {
            Some(Channel::Red)
        } else if i == 1 {
            Some(Channel::Green)
        } else if i == 2 {
            Some(Channel::Blue)
        } else if i == 3 {
            Some(Channel::Alpha)
        } else {
            None
        }
    }
}

/// Position of a colour cell among the twelve: faces follow one another.
pub open spec fn spec_color_index(face: Face, channel: Channel) -> int {
    face.spec_index() * 4 + channel.spec_index()
}

/// Position of a colour cell among the twelve.
pub fn color_index(face: Face, channel: Channel) -> (i: usize)
    ensures
        i == spec_color_index(face, channel),
        i < 12,
{
    face.index() * 4 + channel.index()
}

/// The colour cell at a position among the twelve.
pub open spec fn spec_color_word(i: int) -> Word {
    Word::Color(Face::spec_at(i / 4), Channel::spec_at(i % 4))
}

/// The colour cell at a position; `None` past the twelfth.
pub fn color_word(i: usize) -> (word: Option<Word>)
    ensures
        word is Some <==> i < 12,
        word is Some ==> word == Some(spec_color_word(i as int)),
{
    match (Face::from_index(i / 4), Channel::from_index(i % 4)) {
        (Some(face), Some(channel)) => Some(Word::Color(face, channel)),
        _ => None,
    }
}

/// The twelve positions and the twelve pairs of face and channel name the
/// same colour cells.
pub proof fn lemma_color_positions(i: int, face: Face, channel: Channel)
    ensures
        0 <= spec_color_index(face, channel) < 12,
        spec_color_word(spec_color_index(face, channel)) == Word::Color(face, channel),
        0 <= i < 12 ==> spec_color_index(Face::spec_at(i / 4), Channel::spec_at(i % 4)) == i,
{
}

impl Flag {
    /// Position of the flag among the flags, in the order of the region.
    pub open spec fn spec_index(self) -> int {
        match self {
            Flag::RotateLeft => 0,
            Flag::RotateRight => 1,
            Flag::ZoomIn => 2,
            Flag::ZoomOut => 3,
            Flag::CheckAlignment => 4,
            Flag::Reset => 5,
            Flag::BlankScreen => 6,
            Flag::StopRendering => 7,
            Flag::ResumeRendering => 8,
            Flag::IsAnimating => 9,
            Flag::HasWon => 10,
        }
    }

    /// Position of the flag among the flags.
    pub fn index(self) -> (i: usize)
        ensures
            i == self.spec_index(),
            i < FLAG_COUNT,
    {
        match self {
            Flag::RotateLeft => 0,
            Flag::RotateRight => 1,
            Flag::ZoomIn => 2,
            Flag::ZoomOut => 3,
            Flag::CheckAlignment => 4,
            Flag::Reset => 5,
            Flag::BlankScreen => 6,
            Flag::StopRendering => 7,
            Flag::ResumeRendering => 8,
            Flag::IsAnimating => 9,
            Flag::HasWon => 10,
        }
    }
}

impl Word {
    /// Position of the word among the words, in the order of the region.
    pub open spec fn spec_index(self) -> int {
        match self {
            Word::PyramidType => 0,
            Word::BaseRadius => 1,
            Word::Height => 2,
            Word::StartOrient => 3,
            Word::TargetDoor => 4,
            Word::Color(face, channel) => 5 + spec_color_index(face, channel),
            Word::Phase => 17,
            Word::ElapsedSecs => 18,
            Word::CameraRadius => 19,
            Word::CameraX => 20,
            Word::CameraY => 21,
            Word::CameraZ => 22,
            Word::PyramidYaw => 23,
            Word::Attempts => 24,
            Word::Alignment => 25,
            Word::WinTime => 26,
        }
    }

    /// Position of the word among the words.
    pub fn index(self) -> (i: usize)
        ensures
            i == self.spec_index(),
            i < WORD_COUNT,
    {
        match self {
            Word::PyramidType => 0,
            Word::BaseRadius => 1,
            Word::Height => 2,
            Word::StartOrient => 3,
            Word::TargetDoor => 4,
            Word::Color(face, channel) => 5 + color_index(face, channel),
            Word::Phase => 17,
            Word::ElapsedSecs => 18,
            Word::CameraRadius => 19,
            Word::CameraX => 20,
            Word::CameraY => 21,
            Word::CameraZ => 22,
            Word::PyramidYaw => 23,
            Word::Attempts => 24,
            Word::Alignment => 25,
            Word::WinTime => 26,
        }
    }
}

impl Long {
    /// Position of the long word among the long words.
    pub open spec fn spec_index(self) -> int {
        match self {
            Long::Seed => 0,
            Long::FrameNumber => 1,
        }
    }

    /// Position of the long word among the long words.
    pub fn index(self) -> (i: usize)
        ensures
            i == self.spec_index(),
            i < LONG_COUNT,
    {
        match self {
            Long::Seed => 0,
            Long::FrameNumber => 1,
        }
    }
}

/// Positions name their cells: two cells of a kind at one position are one
/// cell.
pub proof fn lemma_index_injective(f1: Flag, f2: Flag, w1: Word, w2: Word, l1: Long, l2: Long)
    ensures
        f1.spec_index() == f2.spec_index() ==> f1 == f2,
        w1.spec_index() == w2.spec_index() ==> w1 == w2,
        l1.spec_index() == l2.spec_index() ==> l1 == l2,
{
}

} // verus!
