//! Controller state and fault tracking: deriving the operating mode from
//! status bits and the fault-confinement classification from the two error
//! counters.
//!
//! Both are derived on demand from the mirrored register bits, never cached:
//! the hardware changes them asynchronously, so every query re-derives.

use vstd::prelude::*;

verus! {

/// What the controller is currently doing, derived from status bits.
#[derive(Clone, Copy, PartialEq, Eq, Structural, Debug)]
pub enum OperationMode {
    /// Waiting to synchronize with the bus (asleep or still initializing).
    Integrating,
    /// Currently transmitting a frame.
    Transmitter,
    /// Currently receiving a frame.
    Receiver,
    /// Synchronized and idle, ready to transmit or receive.
    Idle,
}

/// The CAN fault-confinement classification derived from the error counters.
#[derive(Clone, Copy, PartialEq, Eq, Structural, Debug)]
pub enum FaultConfinementState {
    /// Few enough errors that this node signals them to the whole bus.
    ErrorActive,
    /// Too many errors to signal them actively; traffic still flows.
    ErrorPassive,
    /// So many errors that the node is effectively off the bus.
    BusOff,
}

/// The master-status register bits the driver reads.
#[derive(Clone, Copy, PartialEq, Eq, Structural, Debug)]
pub struct StatusBits {
    /// Sleep-acknowledge: the hardware is in the sleep state.
    pub sleep_ack: bool,
    /// Initialization-acknowledge: the hardware is in initialization mode.
    pub init_ack: bool,
    /// Transmitter-status: a transmission is in progress.
    pub transmitting: bool,
    /// Receiver-status: a reception is in progress.
    pub receiving: bool,
}

/// An error counter at or above this value puts the node in the
/// error-passive state.
pub const ERROR_PASSIVE_THRESHOLD: u32 = 128;

/// An error counter at or above this value puts the node in the bus-off
/// state.
pub const BUS_OFF_THRESHOLD: u32 = 256;

/// The operating mode derived from the status bits.  Sleep and
/// initialization take precedence over the transmitter and receiver bits.
pub open spec fn operation_mode_spec(s: StatusBits) -> OperationMode {
    if s.sleep_ack || s.init_ack {
        OperationMode::Integrating
    } else if s.transmitting {
        OperationMode::Transmitter
    } else if s.receiving {
        OperationMode::Receiver
    } else {
        OperationMode::Idle
    }
}

/// The fault-confinement classification of a pair of error counts:
/// error-active below the first threshold, error-passive from the first
/// threshold up to the bus-off threshold, bus-off at or beyond it.
pub open spec fn fault_state_spec(rx: u32, tx: u32) -> FaultConfinementState {
    if rx >= BUS_OFF_THRESHOLD || tx >= BUS_OFF_THRESHOLD {
        FaultConfinementState::BusOff
    } else if rx >= ERROR_PASSIVE_THRESHOLD || tx >= ERROR_PASSIVE_THRESHOLD {
        FaultConfinementState::ErrorPassive
    } else {
        FaultConfinementState::ErrorActive
    }
}

/// Derives the operating mode from a snapshot of the status bits.
pub fn operation_mode_from_bits(s: &StatusBits) -> (m: OperationMode)
    ensures
        m == operation_mode_spec(*s),
{
    if s.sleep_ack || s.init_ack {
        OperationMode::Integrating
    } else if s.transmitting {
        OperationMode::Transmitter
    } else if s.receiving {
        OperationMode::Receiver
    } else {
        OperationMode::Idle
    }
}

/// Classifies a pair of receive/transmit error counts per the CAN
/// error-management thresholds.
pub fn confinement_state_from_error_counts(rx: u32, tx: u32) -> (s: FaultConfinementState)
    ensures
        s == fault_state_spec(rx, tx),
{
    if rx >= BUS_OFF_THRESHOLD || tx >= BUS_OFF_THRESHOLD {
        FaultConfinementState::BusOff
    } else if rx >= ERROR_PASSIVE_THRESHOLD || tx >= ERROR_PASSIVE_THRESHOLD {
        FaultConfinementState::ErrorPassive
    } else {
        FaultConfinementState::ErrorActive
    }
}

/// Mode precedence: whenever sleep-acknowledge or initialization-acknowledge
/// is set, the mode is Integrating, whatever the transmitter and receiver
/// status bits say.
pub proof fn lemma_mode_precedence(s: StatusBits)
    requires
        s.sleep_ack || s.init_ack,
    ensures
        operation_mode_spec(s) == OperationMode::Integrating,
{
}

/// Fault classification at the edges: two zero counters are error-active,
/// and any counter at or above the bus-off threshold is bus-off.
pub proof fn lemma_fault_classification(rx: u32, tx: u32)
    ensures
        rx == 0 && tx == 0 ==> fault_state_spec(rx, tx) == FaultConfinementState::ErrorActive,
        rx >= BUS_OFF_THRESHOLD || tx >= BUS_OFF_THRESHOLD ==> fault_state_spec(rx, tx)
            == FaultConfinementState::BusOff,
{
}

} // verus!
