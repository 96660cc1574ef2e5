//! Bit timing configuration: validating requested timing parameters against
//! the hardware's register field widths and computing the zero-based field
//! values to program.
//!
//! The bit-timing *computation* (turning a desired bit rate into prescaler
//! and segment lengths) is a separate concern and no part of this driver:
//! the driver only bounds-checks and programs the result.

use vstd::prelude::*;

verus! {

/// The hardware's timing register fields are 10, 4, 3 and 2 bits wide, so
/// these are the largest one-based values each can hold.
pub const MAX_BAUD_RATE_PRESCALER: u32 = 1024;

/// Largest one-based segment-1 length (4-bit field).
pub const MAX_SEGMENT_1_LENGTH: u8 = 16;

/// Largest one-based segment-2 length (3-bit field).
pub const MAX_SEGMENT_2_LENGTH: u8 = 8;

/// Largest one-based jump width (2-bit field).
pub const MAX_JUMP_WIDTH: u8 = 4;

/// Requested bus timing, in one-based units: a clock prescaler and three
/// segment lengths counted in time quanta.  Every field must be at least 1
/// and at most the hardware maximum for that field.
#[derive(Clone, Copy, PartialEq, Eq, Structural, Debug)]
pub struct TimingParameters {
    /// The interface scales its clock back by this amount.
    pub baud_rate_prescaler: u32,
    /// Time quanta before the sample point (the synchronization quantum not
    /// counted).
    pub segment_1_length: u8,
    /// Time quanta after the sample point.
    pub segment_2_length: u8,
    /// Largest synchronization adjustment, in time quanta.
    pub jump_width: u8,
}

/// The four timing register sub-fields in the hardware's zero-based
/// encoding: each holds the one-based value minus one.
#[derive(Clone, Copy, PartialEq, Eq, Structural, Debug)]
pub struct BitTimingFields {
    /// Zero-based prescaler field (10 bits).
    pub prescaler: u16,
    /// Zero-based segment-1 field (4 bits).
    pub segment_1: u8,
    /// Zero-based segment-2 field (3 bits).
    pub segment_2: u8,
    /// Zero-based jump-width field (2 bits).
    pub jump_width: u8,
}

/// Whether every timing field lies in `[1, maximum]` for its register
/// field width.  A value of 0 is not representable in the zero-based
/// encoding, and a value above the maximum would silently alias, so both
/// are rejected before any register write.
pub open spec fn timing_in_range(p: TimingParameters) -> bool {
    &&& 1 <= p.baud_rate_prescaler <= MAX_BAUD_RATE_PRESCALER
    &&& 1 <= p.segment_1_length <= MAX_SEGMENT_1_LENGTH
    &&& 1 <= p.segment_2_length <= MAX_SEGMENT_2_LENGTH
    &&& 1 <= p.jump_width <= MAX_JUMP_WIDTH
}

/// The zero-based field values for an in-range parameter set.
pub open spec fn timing_fields_spec(p: TimingParameters) -> BitTimingFields
    recommends
        timing_in_range(p),
{
    BitTimingFields {
        prescaler: (p.baud_rate_prescaler - 1) as u16,
        segment_1: (p.segment_1_length - 1) as u8,
        segment_2: (p.segment_2_length - 1) as u8,
        jump_width: (p.jump_width - 1) as u8,
    }
}

/// Validates a requested parameter set against the hardware field widths
/// and, exactly when every field is in range, yields the zero-based field
/// values to program.  Out-of-range input yields `None` and must cause no
/// register write.
pub fn timing_register_fields(p: &TimingParameters) -> (r: Option<BitTimingFields>)
    ensures
        r is Some <==> timing_in_range(*p),
        r is Some ==> r.unwrap() == timing_fields_spec(*p),
{
    if 1 <= p.baud_rate_prescaler && p.baud_rate_prescaler <= MAX_BAUD_RATE_PRESCALER && 1
        <= p.segment_1_length && p.segment_1_length <= MAX_SEGMENT_1_LENGTH && 1
        <= p.segment_2_length && p.segment_2_length <= MAX_SEGMENT_2_LENGTH && 1 <= p.jump_width
        && p.jump_width <= MAX_JUMP_WIDTH {
        Some(
            BitTimingFields {
                prescaler: (p.baud_rate_prescaler - 1) as u16,
                segment_1: p.segment_1_length - 1,
                segment_2: p.segment_2_length - 1,
                jump_width: p.jump_width - 1,
            },
        )
    } else {
        None
    }
}

/// The largest timing values the hardware accepts, driven by the register
/// field bit widths (10, 4, 3 and 2 bits).
pub fn maximum_timing_parameters() -> (m: TimingParameters)
    ensures
        m.baud_rate_prescaler == MAX_BAUD_RATE_PRESCALER,
        m.segment_1_length == MAX_SEGMENT_1_LENGTH,
        m.segment_2_length == MAX_SEGMENT_2_LENGTH,
        m.jump_width == MAX_JUMP_WIDTH,
{
    TimingParameters {
        baud_rate_prescaler: MAX_BAUD_RATE_PRESCALER,
        segment_1_length: MAX_SEGMENT_1_LENGTH,
        segment_2_length: MAX_SEGMENT_2_LENGTH,
        jump_width: MAX_JUMP_WIDTH,
    }
}

} // verus!
