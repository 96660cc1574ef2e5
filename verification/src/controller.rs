//! The adapter object: one controller instance's mirrored register state
//! and the driver operations over it.
//!
//! `Can1Wrapper` holds, as plain values, the named register bit-fields the
//! driver reads and writes.  Every operation is a bounded transaction on
//! that model: it either completes or reports a retry-later condition, and
//! it never performs a partial update on invalid input.  The hardware
//! adapter around the library keeps the model in step with the peripheral:
//! it copies hardware-owned status fields in before a query and copies
//! driver-written fields out to the registers after an update.

use vstd::prelude::*;
use crate::filter::{
    FilterBank, MessageFilter, FILTER_BANK_COUNT, add_transition, deactivated, first_inactive_from,
    first_match_from, inactive_in_prefix, lemma_first_inactive_scan, lemma_first_match_scan,
    programmed_id, remove_transition, unused_count_spec,
};
use crate::frame::{EncodedFrame, LogicalFrame, encode, encode_spec};
use crate::mailbox::{TxMailbox, MAILBOX_COUNT, loaded_mailbox, transmit_transition};
use crate::status::{
    FaultConfinementState, OperationMode, StatusBits, confinement_state_from_error_counts,
    fault_state_spec, operation_mode_from_bits, operation_mode_spec,
};
use crate::timing::{
    BitTimingFields, TimingParameters, maximum_timing_parameters, timing_fields_spec,
    timing_in_range, timing_register_fields, MAX_BAUD_RATE_PRESCALER, MAX_JUMP_WIDTH,
    MAX_SEGMENT_1_LENGTH, MAX_SEGMENT_2_LENGTH,
};

verus! {

/// The non-blocking error channel: an operation momentarily unavailable
/// reports `WouldBlock` (recoverable by polling again); a genuine hardware
/// fault carries a 16-bit error code.
#[derive(Clone, Copy, PartialEq, Eq, Structural, Debug)]
pub enum CanError {
    /// The operation cannot complete yet; poll again.
    WouldBlock,
    /// A hardware fault code.
    Other(u16),
}

/// Rejection of out-of-range timing parameters.  This is a caller contract
/// violation surfaced before any register write, deliberately kept apart
/// from the non-blocking error channel.
#[derive(Clone, Copy, PartialEq, Eq, Structural, Debug)]
pub enum TimingError {
    /// Some field is 0 or above its hardware maximum.
    OutOfRange,
}

/// A transmit mailbox in its hardware reset state.
pub open spec fn reset_mailbox() -> TxMailbox {
    TxMailbox { free: true, id_word: 0, dlc: 0, data_low: 0, data_high: 0, request_pending: false }
}

/// A filter bank in its hardware reset state.
pub open spec fn reset_bank() -> FilterBank {
    FilterBank {
        active: false,
        single_32bit_scale: false,
        list_mode: false,
        id_word: 0,
        mask_word: 0,
    }
}

/// A mailbox whose transmission the hardware has completed: empty again,
/// request flag clear, programmed words kept.
pub open spec fn completed_mailbox(m: TxMailbox) -> TxMailbox {
    TxMailbox { free: true, request_pending: false, ..m }
}

/// The mirrored register state of the controller instance.
pub struct Can1Wrapper {
    /// The three transmit mailboxes.
    pub mailboxes: Vec<TxMailbox>,
    /// The 28 filter banks.
    pub banks: Vec<FilterBank>,
    /// The master-status register bits (hardware-owned; refreshed by the
    /// adapter before each query).
    pub status: StatusBits,
    /// The sleep-request control bit.
    pub sleep_requested: bool,
    /// The silent-mode control bit.
    pub bus_monitoring: bool,
    /// The programmed timing register sub-fields, zero-based.
    pub timing: BitTimingFields,
    /// The 8-bit receive error counter (hardware-owned).
    pub rx_error_count: u8,
    /// The 8-bit transmit error counter (hardware-owned).
    pub tx_error_count: u8,
}

impl Can1Wrapper {
    /// Well-formedness: the fixed hardware slot counts.
    pub open spec fn wf(self) -> bool {
        &&& self.mailboxes@.len() == MAILBOX_COUNT
        &&& self.banks@.len() == FILTER_BANK_COUNT
    }

    /// A controller model in the hardware reset state: every mailbox free,
    /// every filter bank inactive, every control and status field clear.
    pub fn new() -> (c: Can1Wrapper)
        ensures
            c.wf(),
            forall|k: int| 0 <= k < MAILBOX_COUNT ==> c.mailboxes@[k] == reset_mailbox(),
            forall|k: int| 0 <= k < FILTER_BANK_COUNT ==> c.banks@[k] == reset_bank(),
            c.status == (StatusBits {
                sleep_ack: false,
                init_ack: false,
                transmitting: false,
                receiving: false,
            }),
            !c.sleep_requested,
            !c.bus_monitoring,
            c.timing == (BitTimingFields { prescaler: 0, segment_1: 0, segment_2: 0, jump_width: 0 }),
            c.rx_error_count == 0,
            c.tx_error_count == 0,
    {
        let mut mailboxes: Vec<TxMailbox> = Vec::new();
        let mut i: usize = 0;
        while i < MAILBOX_COUNT
            invariant
                i <= MAILBOX_COUNT,
                mailboxes@.len() == i,
                forall|k: int| 0 <= k < i ==> mailboxes@[k] == reset_mailbox(),
            decreases MAILBOX_COUNT - i,
        {
            mailboxes.push(
                TxMailbox {
                    free: true,
                    id_word: 0,
                    dlc: 0,
                    data_low: 0,
                    data_high: 0,
                    request_pending: false,
                },
            );
            i += 1;
        }
        let mut banks: Vec<FilterBank> = Vec::new();
        let mut j: usize = 0;
        while j < FILTER_BANK_COUNT
            invariant
                j <= FILTER_BANK_COUNT,
                banks@.len() == j,
                forall|k: int| 0 <= k < j ==> banks@[k] == reset_bank(),
            decreases FILTER_BANK_COUNT - j,
        {
            banks.push(
                FilterBank {
                    active: false,
                    single_32bit_scale: false,
                    list_mode: false,
                    id_word: 0,
                    mask_word: 0,
                },
            );
            j += 1;
        }
        Can1Wrapper {
            mailboxes,
            banks,
            status: StatusBits {
                sleep_ack: false,
                init_ack: false,
                transmitting: false,
                receiving: false,
            },
            sleep_requested: false,
            bus_monitoring: false,
            timing: BitTimingFields { prescaler: 0, segment_1: 0, segment_2: 0, jump_width: 0 },
            rx_error_count: 0,
            tx_error_count: 0,
        }
    }

    /// Programs mailbox `i` with the encoded frame and asserts its
    /// transmit-request flag.
    fn load_mailbox(&mut self, i: usize, e: EncodedFrame)
        requires
            old(self).wf(),
            i < MAILBOX_COUNT,
        ensures
            final(self).mailboxes@ == old(self).mailboxes@.update(i as int, loaded_mailbox(e)),
            *final(self) == (Can1Wrapper { mailboxes: final(self).mailboxes, ..*old(self) }),
    {
        self.mailboxes[i] = TxMailbox {
            free: false,
            id_word: e.id_word,
            dlc: e.dlc,
            data_low: e.data_low,
            data_high: e.data_high,
            request_pending: true,
        };
    }

    /// Sends a frame to all listeners on the bus, through the first free
    /// transmit mailbox in scan order 0, 1, 2.
    ///
    /// With a mailbox free, its three words and data-length code are
    /// programmed and its transmit-request flag asserted, turning it busy;
    /// with all three busy, the call reports retry-later and changes
    /// nothing — no partial writes.
    pub fn transmit(&mut self, f: &LogicalFrame) -> (r: Result<(), CanError>)
        requires
            old(self).wf(),
            f.valid(),
        ensures
            final(self).wf(),
            final(self).mailboxes@ == transmit_transition(
                old(self).mailboxes@,
                encode_spec(f@),
            ).0,
            r is Ok <==> transmit_transition(old(self).mailboxes@, encode_spec(f@)).1,
            r is Err ==> r == Err::<(), CanError>(CanError::WouldBlock) && *final(self) == *old(
                self,
            ),
            *final(self) == (Can1Wrapper { mailboxes: final(self).mailboxes, ..*old(self) }),
    {
        let e = encode(f);
        if self.mailboxes[0].free {
            self.load_mailbox(0, e);
            Ok(())
        } else if self.mailboxes[1].free {
            self.load_mailbox(1, e);
            Ok(())
        } else if self.mailboxes[2].free {
            self.load_mailbox(2, e);
            Ok(())
        } else {
            Err(CanError::WouldBlock)
        }
    }

    /// Records a hardware-reported transmission completion: mailbox `i` is
    /// empty again, its request flag clear, its programmed words kept.
    /// The hardware adapter calls this when polling shows the mailbox's
    /// empty flag set again.
    pub fn notify_transmit_complete(&mut self, i: usize)
        requires
            old(self).wf(),
            i < MAILBOX_COUNT,
        ensures
            final(self).wf(),
            final(self).mailboxes@ == old(self).mailboxes@.update(
                i as int,
                completed_mailbox(old(self).mailboxes@[i as int]),
            ),
            *final(self) == (Can1Wrapper { mailboxes: final(self).mailboxes, ..*old(self) }),
    {
        let m = self.mailboxes[i];
        self.mailboxes[i] = TxMailbox { free: true, request_pending: false, ..m };
    }

    /// Maybe populates `buf` with a frame from the bus, and says whether it
    /// did so.  This controller model carries no receive FIFO, so the call
    /// always reports retry-later and touches neither the buffer nor the
    /// controller state.
    pub fn receive(&mut self, buf: &mut LogicalFrame) -> (r: Result<bool, CanError>)
        ensures
            r == Err::<bool, CanError>(CanError::WouldBlock),
            *final(self) == *old(self),
            *final(buf) == *old(buf),
    {
        Err(CanError::WouldBlock)
    }

    /// The index of the first inactive filter bank in scan order, or the
    /// bank count when every bank is active.
    fn find_first_inactive(&self) -> (r: usize)
        requires
            self.wf(),
        ensures
            r as int == first_inactive_from(self.banks@, 0),
    {
        let mut i: usize = 0;
        while i < FILTER_BANK_COUNT
            invariant
                self.wf(),
                i <= FILTER_BANK_COUNT,
                forall|k: int| 0 <= k < i ==> self.banks@[k].active,
            decreases FILTER_BANK_COUNT - i,
        {
            if !self.banks[i].active {
                proof {
                    lemma_first_inactive_scan(self.banks@, i as int);
                }
                return i;
            }
            i += 1;
        }
        proof {
            lemma_first_inactive_scan(self.banks@, FILTER_BANK_COUNT as int);
        }
        FILTER_BANK_COUNT
    }

    /// The index of the first active filter bank whose identifier register
    /// holds `id_word`, or the bank count when there is none.
    fn find_first_match(&self, id_word: u32) -> (r: usize)
        requires
            self.wf(),
        ensures
            r as int == first_match_from(self.banks@, id_word, 0),
    {
        let mut i: usize = 0;
        while i < FILTER_BANK_COUNT
            invariant
                self.wf(),
                i <= FILTER_BANK_COUNT,
                forall|k: int|
                    0 <= k < i ==> !(self.banks@[k].active && self.banks@[k].id_word == id_word),
            decreases FILTER_BANK_COUNT - i,
        {
            if self.banks[i].active && self.banks[i].id_word == id_word {
                proof {
                    lemma_first_match_scan(self.banks@, id_word, i as int);
                }
                return i;
            }
            i += 1;
        }
        proof {
            lemma_first_match_scan(self.banks@, id_word, FILTER_BANK_COUNT as int);
        }
        FILTER_BANK_COUNT
    }

    /// Adds an incoming-message filter.
    ///
    /// The first inactive bank is programmed — scale, mode, identifier,
    /// then mask, with the activation flag set only after the rest, so a
    /// partially programmed bank never matches live traffic — and
    /// activated.  With every bank active the call is a silent no-op, the
    /// deliberate exhaustion policy; `unused_filter_bank_count` says in
    /// advance whether an add will take.  Callers do not add the same
    /// filter twice without removing it in between.
    pub fn add_filter(&mut self, f: &MessageFilter)
        requires
            old(self).wf(),
            f.valid(),
        ensures
            final(self).wf(),
            final(self).banks@ == add_transition(old(self).banks@, *f),
            *final(self) == (Can1Wrapper { banks: final(self).banks, ..*old(self) }),
    {
        let idx = self.find_first_inactive();
        if idx < FILTER_BANK_COUNT {
            let mask_word: u32 = match f.mask {
                Some(m) => m << 3u32,
                None => 0xFFFF_FFFFu32,
            };
            self.banks[idx] = FilterBank {
                active: true,
                single_32bit_scale: true,
                list_mode: false,
                id_word: f.id << 3u32,
                mask_word,
            };
        }
    }

    /// Removes a single incoming-message filter, if it exists.
    ///
    /// The first active bank whose identifier register holds the filter's
    /// programmed identifier value is deactivated, its registers kept.
    /// With no such bank the call changes nothing: removing an absent
    /// filter is not an error, and removing one twice is the same as
    /// removing it once.
    pub fn remove_filter(&mut self, f: &MessageFilter)
        requires
            old(self).wf(),
            f.valid(),
        ensures
            final(self).wf(),
            final(self).banks@ == remove_transition(old(self).banks@, programmed_id(f.id)),
            *final(self) == (Can1Wrapper { banks: final(self).banks, ..*old(self) }),
    {
        let id_word = f.id << 3u32;
        let idx = self.find_first_match(id_word);
        if idx < FILTER_BANK_COUNT {
            let b = self.banks[idx];
            self.banks[idx] = FilterBank { active: false, ..b };
        }
    }

    /// Removes all incoming-message filters: every bank's activation flag
    /// is cleared, its other registers kept.  After this call all valid
    /// traffic on the bus is admitted.
    pub fn clear_filters(&mut self)
        requires
            old(self).wf(),
        ensures
            final(self).wf(),
            forall|k: int|
                0 <= k < FILTER_BANK_COUNT ==> final(self).banks@[k] == deactivated(
                    old(self).banks@[k],
                ),
            *final(self) == (Can1Wrapper { banks: final(self).banks, ..*old(self) }),
    {
        let mut i: usize = 0;
        while i < FILTER_BANK_COUNT
            invariant
                self.wf(),
                i <= FILTER_BANK_COUNT,
                forall|k: int| 0 <= k < i ==> self.banks@[k] == deactivated(old(self).banks@[k]),
                forall|k: int|
                    i <= k < FILTER_BANK_COUNT ==> self.banks@[k] == old(self).banks@[k],
                *self == (Can1Wrapper { banks: self.banks, ..*old(self) }),
            decreases FILTER_BANK_COUNT - i,
        {
            let b = self.banks[i];
            self.banks[i] = FilterBank { active: false, ..b };
            i += 1;
        }
    }

    /// The number of unused slots in the hardware filter bank: how many
    /// banks have their activation flag clear.
    pub fn unused_filter_bank_count(&self) -> (n: u32)
        requires
            self.wf(),
        ensures
            n as int == unused_count_spec(self.banks@),
    {
        let mut count: u32 = 0;
        let mut i: usize = 0;
        while i < FILTER_BANK_COUNT
            invariant
                self.wf(),
                i <= FILTER_BANK_COUNT,
                count <= i,
                count as int == inactive_in_prefix(self.banks@, i as int),
            decreases FILTER_BANK_COUNT - i,
        {
            if !self.banks[i].active {
                count = count + 1;
            }
            i += 1;
        }
        count
    }

    /// Sets the bit timing parameters for the bus.
    ///
    /// Every field is validated against its hardware field width first:
    /// exactly when all four lie in `[1, maximum]`, the four sub-fields are
    /// programmed with each value minus one (the hardware's zero-based
    /// encoding).  Out-of-range input — which would silently alias after
    /// the subtraction — is rejected with no register written.  The
    /// hardware adapter performs the surrounding stop/program/restart
    /// sequence its reference manual prescribes before copying the
    /// programmed fields out.
    pub fn set_speed(&mut self, p: &TimingParameters) -> (r: Result<(), TimingError>)
        requires
            old(self).wf(),
        ensures
            final(self).wf(),
            r is Ok <==> timing_in_range(*p),
            r is Ok ==> *final(self) == (Can1Wrapper { timing: timing_fields_spec(*p), ..*old(
                self,
            ) }),
            r is Err ==> r == Err::<(), TimingError>(TimingError::OutOfRange) && *final(self)
                == *old(self),
    {
        match timing_register_fields(p) {
            Some(fields) => {
                self.timing = fields;
                Ok(())
            },
            None => Err(TimingError::OutOfRange),
        }
    }

    /// The largest timing values the hardware accepts.
    pub fn maximum_timing_values(&self) -> (m: TimingParameters)
        ensures
            m.baud_rate_prescaler == MAX_BAUD_RATE_PRESCALER,
            m.segment_1_length == MAX_SEGMENT_1_LENGTH,
            m.segment_2_length == MAX_SEGMENT_2_LENGTH,
            m.jump_width == MAX_JUMP_WIDTH,
    {
        maximum_timing_parameters()
    }

    /// The current operating mode, derived from the status bits on every
    /// call.  Sleep and initialization take precedence over the
    /// transmitter and receiver bits.
    pub fn current_operation_mode(&self) -> (m: OperationMode)
        ensures
            m == operation_mode_spec(self.status),
    {
        if self.is_asleep() || self.status.init_ack {
            OperationMode::Integrating
        } else {
            operation_mode_from_bits(&self.status)
        }
    }

    /// True iff the interface is configured not to send dominant bits
    /// (silent mode).
    pub fn in_bus_monitoring_mode(&self) -> (r: bool)
        ensures
            r == self.bus_monitoring,
    {
        self.bus_monitoring
    }

    /// True iff the hardware is in the sleep state (the sleep-acknowledge
    /// status bit).
    pub fn is_asleep(&self) -> (r: bool)
        ensures
            r == self.status.sleep_ack,
    {
        self.status.sleep_ack
    }

    /// Requests the sleep state by setting the sleep-request control bit.
    /// This is a request, not a confirmation: the hardware transition is
    /// asynchronous, so callers poll `is_asleep` for the actual state.
    pub fn request_sleep_mode(&mut self)
        ensures
            *final(self) == (Can1Wrapper { sleep_requested: true, ..*old(self) }),
    {
        self.sleep_requested = true;
    }

    /// Requests wakeup by clearing the sleep-request control bit.  As with
    /// `request_sleep_mode`, callers poll `is_asleep` for the transition.
    pub fn request_wakeup(&mut self)
        ensures
            *final(self) == (Can1Wrapper { sleep_requested: false, ..*old(self) }),
    {
        self.sleep_requested = false;
    }

    /// The fault-confinement state, derived from the two error counters on
    /// every call per the CAN error-management thresholds.
    pub fn fault_confinement_state(&self) -> (s: FaultConfinementState)
        ensures
            s == fault_state_spec(self.rx_error_count as u32, self.tx_error_count as u32),
    {
        let rx = self.receive_error_count();
        let tx = self.transmit_error_count();
        confinement_state_from_error_counts(rx, tx)
    }

    /// The receive error counter, widened from its 8-bit register field.
    pub fn receive_error_count(&self) -> (n: u32)
        ensures
            n == self.rx_error_count as u32,
    {
        self.rx_error_count as u32
    }

    /// The transmit error counter, widened from its 8-bit register field.
    pub fn transmit_error_count(&self) -> (n: u32)
        ensures
            n == self.tx_error_count as u32,
    {
        self.tx_error_count as u32
    }

    /// Copies a fresh snapshot of the hardware-owned status bits into the
    /// model.  The hardware adapter calls this before a state query, since
    /// the hardware changes these bits asynchronously.
    pub fn update_status_bits(&mut self, s: StatusBits)
        ensures
            *final(self) == (Can1Wrapper { status: s, ..*old(self) }),
    {
        self.status = s;
    }

    /// Copies fresh readings of the hardware-owned error counters into the
    /// model, ahead of an error-state query.
    pub fn update_error_counters(&mut self, rx: u8, tx: u8)
        ensures
            *final(self) == (Can1Wrapper { rx_error_count: rx, tx_error_count: tx, ..*old(
                self,
            ) }),
    {
        self.rx_error_count = rx;
        self.tx_error_count = tx;
    }
}

} // verus!
