//! Bit patterns of the single-precision values carried through the region.
//!
//! Every fractional quantity travels as the IEEE-754 binary32 pattern of its
//! value, held in a 32-bit cell. Two cells carry an optional quantity and
//! keep a value outside the quantity's domain for "no value": the alignment,
//! a cosine, keeps the one pattern of `2.0`; the win time, a positive
//! duration, keeps zero, which has two patterns.

use vstd::prelude::*;

verus! {

/// Pattern of `2.0`: stands for "no alignment measured".
pub const ALIGNMENT_NONE_BITS: u32 = 0x4000_0000;

/// Pattern of `0.0`: written for "not yet won". A reader takes either pattern
/// of zero, this one or that of `-0.0`, as "not yet won".
pub const WIN_TIME_NONE_BITS: u32 = 0;

/// Pattern of `0.0`: written for an elapsed time that has not started.
pub const ELAPSED_NONE_BITS: u32 = 0;

/// Pattern of `1.0`, the largest cosine.
pub const COSINE_MAX_BITS: u32 = 0x3F80_0000;

/// Pattern of `-0.0`, the smallest pattern with the sign bit set.
pub const NEGATIVE_ZERO_BITS: u32 = 0x8000_0000;

/// Pattern of `-1.0`, the smallest cosine.
pub const COSINE_MIN_BITS: u32 = 0xBF80_0000;

/// The patterns of the values in the closed interval from `-1.0` to `1.0`.
///
/// Among patterns with the same sign bit, the magnitude grows with the
/// pattern, so the interval is one run of patterns from `0.0` up to `1.0` and
/// one from `-0.0` up to `-1.0`.
pub open spec fn is_cosine_bits(bits: u32) -> bool {
    bits <= COSINE_MAX_BITS || (NEGATIVE_ZERO_BITS <= bits && bits <= COSINE_MIN_BITS)
}

/// What an alignment cell holding `bits` means to a reader.
pub open spec fn spec_decode_alignment(bits: u32) -> Option<u32> {
    if bits == ALIGNMENT_NONE_BITS {
        None
    } else {
        Some(bits)
    }
}

/// The pattern written to the alignment cell for `alignment`.
pub open spec fn spec_encode_alignment(alignment: Option<u32>) -> u32 {
    match alignment {
        Some(bits) => bits,
        None => ALIGNMENT_NONE_BITS,
    }
}

/// The patterns of zero: that of `0.0` and that of `-0.0`, which are equal
/// as values.
pub open spec fn is_zero_bits(bits: u32) -> bool {
    bits == WIN_TIME_NONE_BITS || bits == NEGATIVE_ZERO_BITS
}

/// What a win-time cell holding `bits` means to a reader: a win time is a
/// positive duration, and zero, under either of its patterns, stands for
/// "not yet won".
pub open spec fn spec_decode_win_time(bits: u32) -> Option<u32> {
    if is_zero_bits(bits) {
        None
    } else {
        Some(bits)
    }
}

/// The pattern written to the elapsed-time cell for `elapsed`: a time that
/// has not started counts as zero.
pub open spec fn spec_encode_elapsed_secs(elapsed: Option<u32>) -> u32 {
    match elapsed {
        Some(bits) => bits,
        None => ELAPSED_NONE_BITS,
    }
}

/// The pattern written to the win-time cell for `win_time`.
pub open spec fn spec_encode_win_time(win_time: Option<u32>) -> u32 {
    match win_time {
        Some(bits) => bits,
        None => WIN_TIME_NONE_BITS,
    }
}

/// Tells whether `bits` is the pattern of a value between `-1.0` and `1.0`.
pub fn is_cosine(bits: u32) -> (r: bool)
    ensures
        r == is_cosine_bits(bits),
{
    bits <= COSINE_MAX_BITS || (NEGATIVE_ZERO_BITS <= bits && bits <= COSINE_MIN_BITS)
}

/// Pattern for the alignment cell: the value's own, or the reserved one.
pub fn encode_alignment(alignment: Option<u32>) -> (bits: u32)
    ensures
        bits == spec_encode_alignment(alignment),
{
    match alignment {
        Some(bits) => bits,
        None => ALIGNMENT_NONE_BITS,
    }
}

/// Reads an alignment cell: `None` for the reserved pattern and for no other.
pub fn decode_alignment(bits: u32) -> (alignment: Option<u32>)
    ensures
        alignment == spec_decode_alignment(bits),
        alignment is None <==> bits == ALIGNMENT_NONE_BITS,
{
    if bits == ALIGNMENT_NONE_BITS {
        None
    } else {
        Some(bits)
    }
}

/// Pattern for the win-time cell: the duration's own, or the reserved one.
pub fn encode_win_time(win_time: Option<u32>) -> (bits: u32)
    ensures
        bits == spec_encode_win_time(win_time),
{
    match win_time {
        Some(bits) => bits,
        None => WIN_TIME_NONE_BITS,
    }
}

/// Reads a win-time cell: `None` for the two patterns of zero and for no
/// other, the pattern itself for every other, however short the duration.
pub fn decode_win_time(bits: u32) -> (win_time: Option<u32>)
    ensures
        win_time == spec_decode_win_time(bits),
        win_time is None <==> bits == WIN_TIME_NONE_BITS || bits == NEGATIVE_ZERO_BITS,
        win_time is Some ==> win_time == Some(bits),
{
    if bits == WIN_TIME_NONE_BITS || bits == NEGATIVE_ZERO_BITS {
        None
    } else {
        Some(bits)
    }
}

/// Pattern for the elapsed-time cell: the time's own, or that of zero where
/// the time has not started.
pub fn encode_elapsed_secs(elapsed: Option<u32>) -> (bits: u32)
    ensures
        bits == spec_encode_elapsed_secs(elapsed),
{
    match elapsed {
        Some(bits) => bits,
        None => ELAPSED_NONE_BITS,
    }
}

/// No cosine has the reserved alignment pattern: a measured alignment is never
/// read back as absent, and it is read back unchanged.
pub proof fn lemma_cosine_never_reserved(bits: u32)
    requires
        is_cosine_bits(bits),
    ensures
        bits != ALIGNMENT_NONE_BITS,
        spec_encode_alignment(Some(bits)) == bits,
        spec_decode_alignment(spec_encode_alignment(Some(bits))) == Some(bits),
{
}

/// The reserved alignment pattern, and only it, reads as absent; an absent
/// alignment is written as that pattern.
pub proof fn lemma_alignment_reserved_exact(bits: u32)
    ensures
        spec_decode_alignment(bits) is None <==> bits == ALIGNMENT_NONE_BITS,
        spec_decode_alignment(spec_encode_alignment(None)) is None,
        bits != ALIGNMENT_NONE_BITS ==> spec_decode_alignment(bits) == Some(bits),
{
}

/// Writing then reading an optional alignment gives it back, unless it was a
/// present value with the reserved pattern.
pub proof fn lemma_alignment_round_trip(alignment: Option<u32>)
    requires
        alignment != Some(ALIGNMENT_NONE_BITS),
    ensures
        spec_decode_alignment(spec_encode_alignment(alignment)) == alignment,
{
}

/// Writing then reading an optional win time gives it back, unless it was a
/// present value with a pattern of zero.
pub proof fn lemma_win_time_round_trip(win_time: Option<u32>)
    requires
        win_time != Some(WIN_TIME_NONE_BITS),
        win_time != Some(NEGATIVE_ZERO_BITS),
    ensures
        spec_decode_win_time(spec_encode_win_time(win_time)) == win_time,
{
}

/// Zero, under either pattern and under no other, reads as "not yet won";
/// an absent win time is written as zero.
pub proof fn lemma_win_time_zero_exact(bits: u32)
    ensures
        spec_decode_win_time(bits) is None <==> is_zero_bits(bits),
        spec_decode_win_time(WIN_TIME_NONE_BITS) is None,
        spec_decode_win_time(NEGATIVE_ZERO_BITS) is None,
        spec_decode_win_time(spec_encode_win_time(None)) is None,
        !is_zero_bits(bits) ==> spec_decode_win_time(bits) == Some(bits),
{
}

} // verus!
