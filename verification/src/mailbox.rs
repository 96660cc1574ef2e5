//! Mailbox arbitration: the three hardware transmit mailboxes, scanned in
//! the fixed order 0, 1, 2 for a free slot.
//!
//! Each mailbox is either free (its transmit-mailbox-empty flag set) or
//! busy with a pending transmission.  A transmit request takes the first
//! free mailbox, programs its words and asserts the request flag; when no
//! mailbox is free the request is refused with a retry-later signal and
//! nothing is written.

use vstd::prelude::*;
use crate::frame::EncodedFrame;

verus! {

/// The mirrored register fields of one transmit mailbox.
#[derive(Clone, Copy, PartialEq, Eq, Structural, Debug)]
pub struct TxMailbox {
    /// Transmit-mailbox-empty flag: true iff the mailbox can take a frame.
    pub free: bool,
    /// The programmed identifier word.
    pub id_word: u32,
    /// The programmed data-length code.
    pub dlc: u8,
    /// The programmed low data word (bytes 0 through 3).
    pub data_low: u32,
    /// The programmed high data word (bytes 4 through 7).
    pub data_high: u32,
    /// Transmit-request flag: true iff a transmission was requested and no
    /// completion has been observed yet.
    pub request_pending: bool,
}

/// How many hardware transmit mailboxes the controller has.
pub const MAILBOX_COUNT: usize = 3;

/// The index of the first free mailbox in scan order 0, 1, 2; 3 when all
/// are busy.
pub open spec fn first_free(s: Seq<TxMailbox>) -> int
    recommends
        s.len() == 3,
{
    if s[0].free {
        0
    } else if s[1].free {
        1
    } else if s[2].free {
        2
    } else {
        3
    }
}

/// A mailbox freshly programmed with an encoded frame, its transmission
/// requested.
pub open spec fn loaded_mailbox(e: EncodedFrame) -> TxMailbox {
    TxMailbox {
        free: false,
        id_word: e.id_word,
        dlc: e.dlc,
        data_low: e.data_low,
        data_high: e.data_high,
        request_pending: true,
    }
}

/// The transmit transition: the first free mailbox (in scan order) takes
/// the frame and turns busy, every other mailbox keeps its contents; with
/// no free mailbox the state is unchanged and the request is refused.
/// The boolean says whether the request was accepted.
pub open spec fn transmit_transition(s: Seq<TxMailbox>, e: EncodedFrame) -> (Seq<TxMailbox>, bool)
    recommends
        s.len() == 3,
{
    let i = first_free(s);
    if i < 3 {
        (s.update(i, loaded_mailbox(e)), true)
    } else {
        (s, false)
    }
}

/// Mailbox exhaustion: from a state with all three mailboxes free, three
/// transmit requests are accepted (whatever frames they carry), and a
/// fourth is refused with every mailbox's programmed contents unchanged.
pub proof fn lemma_mailbox_exhaustion(
    s0: Seq<TxMailbox>,
    e1: EncodedFrame,
    e2: EncodedFrame,
    e3: EncodedFrame,
    e4: EncodedFrame,
)
    requires
        s0.len() == 3,
        s0[0].free,
        s0[1].free,
        s0[2].free,
    ensures
        ({
            let (s1, a1) = transmit_transition(s0, e1);
            let (s2, a2) = transmit_transition(s1, e2);
            let (s3, a3) = transmit_transition(s2, e3);
            let (s4, a4) = transmit_transition(s3, e4);
            a1 && a2 && a3 && !a4 && s4 == s3
        }),
{
}

/// A refused transmit changes nothing: whenever no mailbox is free, the
/// transition returns the state untouched.
pub proof fn lemma_transmit_refused_unchanged(s: Seq<TxMailbox>, e: EncodedFrame)
    requires
        s.len() == 3,
        !s[0].free,
        !s[1].free,
        !s[2].free,
    ensures
        transmit_transition(s, e) == (s, false),
{
}

} // verus!
