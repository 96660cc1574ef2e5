//! Frame codec: pure functions mapping a logical CAN frame to and from the
//! controller's mailbox word layout.
//!
//! The layout is an exact-bit contract, not a generic serialization: standard
//! frames carry the 11-bit identifier in the topmost bits of the identifier
//! word (above bit 21), extended frames carry the 29-bit identifier above the
//! extended-identifier flag bit, and the remote-request flag sits in bit 1.
//! The eight data bytes are packed byte-for-byte into two 32-bit words, low
//! word first, least significant byte first.

use vstd::prelude::*;

verus! {

/// A logical CAN frame: identifier, flags, data-length code and payload.
///
/// The identifier is 11 bits wide for standard frames and 29 bits wide for
/// extended frames; the data-length code is at most 8.  The payload buffer is
/// always 8 bytes; only the first `dlc` bytes are meaningful on the bus, but
/// the codec packs and recovers all 8 exactly.
#[derive(Clone, Copy, PartialEq, Eq, Debug)]
pub struct LogicalFrame {
    /// Standard (11-bit) or extended (29-bit) identifier, per `is_extended`.
    pub id: u32,
    /// True iff `id` is a 29-bit extended identifier.
    pub is_extended: bool,
    /// True iff this frame is a remote transmission request.
    pub is_remote_request: bool,
    /// Number of payload bytes, 0 through 8.
    pub dlc: u8,
    /// The payload buffer.
    pub data: [u8; 8],
}

/// The mathematical model of a logical frame.
#[verifier::ext_equal]
pub ghost struct FrameModel {
    pub id: u32,
    pub is_extended: bool,
    pub is_remote_request: bool,
    pub dlc: u8,
    pub data: Seq<u8>,
}

impl View for LogicalFrame {
    type V = FrameModel;

    open spec fn view(&self) -> FrameModel {
        FrameModel {
            id: self.id,
            is_extended: self.is_extended,
            is_remote_request: self.is_remote_request,
            dlc: self.dlc,
            data: self.data@,
        }
    }
}

impl FrameModel {
    /// The frame invariant: the identifier fits its width and the
    /// data-length code is at most 8.
    pub open spec fn valid(self) -> bool {
        &&& self.data.len() == 8
        &&& self.dlc <= 8
        &&& if self.is_extended {
                self.id < 0x2000_0000u32
            } else {
                self.id < 0x800u32
            }
    }
}

impl LogicalFrame {
    /// The frame invariant, stated on the executable type.
    pub open spec fn valid(self) -> bool {
        self@.valid()
    }
}

/// A frame in the controller's mailbox word layout: the identifier word, the
/// data-length code, and the two packed data words.
#[derive(Clone, Copy, PartialEq, Eq, Structural, Debug)]
pub struct EncodedFrame {
    /// Identifier word: the standard identifier above bit 21 or the
    /// extended identifier above bit 3, extended-identifier flag in bit 2,
    /// remote-request flag in bit 1.
    pub id_word: u32,
    /// Data-length code, programmed into the mailbox's control field.
    pub dlc: u8,
    /// Data bytes 0 through 3, least significant byte first.
    pub data_low: u32,
    /// Data bytes 4 through 7, least significant byte first.
    pub data_high: u32,
}

/// The identifier word for a frame: extended frames place the 29-bit
/// identifier above bit 3 and set the extended-identifier flag (bit 2);
/// standard frames place the 11-bit identifier in the topmost bits, above
/// bit 21.  Bit 1 carries the remote-request flag in both layouts.
pub open spec fn id_word_spec(m: FrameModel) -> u32 {
    if m.is_extended {
        (m.id << 3u32) | 0b100u32 | (if m.is_remote_request { 0b010u32 } else { 0u32 })
    } else {
        (m.id << 21u32) | (if m.is_remote_request { 0b010u32 } else { 0u32 })
    }
}

/// Four bytes packed into one word, least significant byte first.
pub open spec fn word_of_bytes(b0: u8, b1: u8, b2: u8, b3: u8) -> u32 {
    (b0 as u32) | ((b1 as u32) << 8u32) | ((b2 as u32) << 16u32) | ((b3 as u32) << 24u32)
}

/// Byte `i` (0 through 3) of a packed word.
pub open spec fn word_byte(w: u32, i: int) -> u8 {
    if i == 0 {
        (w & 0xFFu32) as u8
    } else if i == 1 {
        ((w >> 8u32) & 0xFFu32) as u8
    } else if i == 2 {
        ((w >> 16u32) & 0xFFu32) as u8
    } else {
        ((w >> 24u32) & 0xFFu32) as u8
    }
}

/// The mailbox word layout of a frame.
pub open spec fn encode_spec(m: FrameModel) -> EncodedFrame
    recommends
        m.valid(),
{
    EncodedFrame {
        id_word: id_word_spec(m),
        dlc: m.dlc,
        data_low: word_of_bytes(m.data[0], m.data[1], m.data[2], m.data[3]),
        data_high: word_of_bytes(m.data[4], m.data[5], m.data[6], m.data[7]),
    }
}

/// The logical frame recovered from the mailbox word layout.
pub open spec fn decode_spec(e: EncodedFrame) -> FrameModel {
    FrameModel {
        id: if (e.id_word & 0b100u32) != 0 {
            (e.id_word >> 3u32) & 0x1FFF_FFFFu32
        } else {
            (e.id_word >> 21u32) & 0x7FFu32
        },
        is_extended: (e.id_word & 0b100u32) != 0,
        is_remote_request: (e.id_word & 0b010u32) != 0,
        dlc: e.dlc,
        data: Seq::new(8, |i: int| if i < 4 {
            word_byte(e.data_low, i)
        } else {
            word_byte(e.data_high, i - 4)
        }),
    }
}

/// Packs a logical frame into the mailbox word layout.
///
/// An out-of-range identifier or data-length code is a caller contract
/// violation, excluded by the precondition: the codec performs no validation
/// and no call of it can fail.
pub fn encode(f: &LogicalFrame) -> (e: EncodedFrame)
    requires
        f.valid(),
    ensures
        e == encode_spec(f@),
{
    let id_word: u32 = if f.is_extended {
        (f.id << 3u32) | 0b100u32 | (if f.is_remote_request { 0b010u32 } else { 0u32 })
    } else {
        (f.id << 21u32) | (if f.is_remote_request { 0b010u32 } else { 0u32 })
    };
    EncodedFrame {
        id_word,
        dlc: f.dlc,
        data_low: (f.data[0] as u32) | ((f.data[1] as u32) << 8u32) | ((f.data[2] as u32)
            << 16u32) | ((f.data[3] as u32) << 24u32),
        data_high: (f.data[4] as u32) | ((f.data[5] as u32) << 8u32) | ((f.data[6] as u32)
            << 16u32) | ((f.data[7] as u32) << 24u32),
    }
}

/// Unpacks a mailbox word layout back into a logical frame: the exact
/// inverse of `encode` on every valid frame.
pub fn decode(e: &EncodedFrame) -> (f: LogicalFrame)
    ensures
        f@ == decode_spec(*e),
{
    let is_extended = (e.id_word & 0b100u32) != 0;
    let f = LogicalFrame {
        id: if is_extended {
            (e.id_word >> 3u32) & 0x1FFF_FFFFu32
        } else {
            (e.id_word >> 21u32) & 0x7FFu32
        },
        is_extended,
        is_remote_request: (e.id_word & 0b010u32) != 0,
        dlc: e.dlc,
        data: [
            (e.data_low & 0xFFu32) as u8,
            ((e.data_low >> 8u32) & 0xFFu32) as u8,
            ((e.data_low >> 16u32) & 0xFFu32) as u8,
            ((e.data_low >> 24u32) & 0xFFu32) as u8,
            (e.data_high & 0xFFu32) as u8,
            ((e.data_high >> 8u32) & 0xFFu32) as u8,
            ((e.data_high >> 16u32) & 0xFFu32) as u8,
            ((e.data_high >> 24u32) & 0xFFu32) as u8,
        ],
    };
    proof {
        assert(f@.data =~= decode_spec(*e).data);
    }
    f
}

/// Round trip: decoding an encoded frame recovers the frame exactly, for
/// every representable (valid) logical frame.
pub proof fn lemma_encode_decode_roundtrip(m: FrameModel)
    requires
        m.valid(),
    ensures
        decode_spec(encode_spec(m)) == m,
{
    let r: u32 = if m.is_remote_request { 0b010u32 } else { 0u32 };
    let id = m.id;
    if m.is_extended {
        assert((((id << 3u32) | 0b100u32 | r) & 0b100u32) != 0
            && ((((id << 3u32) | 0b100u32 | r) & 0b010u32) != 0 <==> r == 0b010u32)
            && ((((id << 3u32) | 0b100u32 | r) >> 3u32) & 0x1FFF_FFFFu32) == id) by (bit_vector)
            requires
                id < 0x2000_0000u32 && (r == 0u32 || r == 0b010u32),
        ;
    } else {
        assert((((id << 21u32) | r) & 0b100u32) == 0
            && ((((id << 21u32) | r) & 0b010u32) != 0 <==> r == 0b010u32)
            && ((((id << 21u32) | r) >> 21u32) & 0x7FFu32) == id) by (bit_vector)
            requires
                id < 0x800u32 && (r == 0u32 || r == 0b010u32),
        ;
    }
    lemma_word_of_bytes_roundtrip(m.data[0], m.data[1], m.data[2], m.data[3]);
    lemma_word_of_bytes_roundtrip(m.data[4], m.data[5], m.data[6], m.data[7]);
    assert(decode_spec(encode_spec(m)).data =~= m.data);
    assert(decode_spec(encode_spec(m)) =~= m);
}

/// Each byte of a packed word is the byte that was packed there.
proof fn lemma_word_of_bytes_roundtrip(b0: u8, b1: u8, b2: u8, b3: u8)
    ensures
        word_byte(word_of_bytes(b0, b1, b2, b3), 0) == b0,
        word_byte(word_of_bytes(b0, b1, b2, b3), 1) == b1,
        word_byte(word_of_bytes(b0, b1, b2, b3), 2) == b2,
        word_byte(word_of_bytes(b0, b1, b2, b3), 3) == b3,
{
    assert((((b0 as u32) | ((b1 as u32) << 8u32) | ((b2 as u32) << 16u32) | ((b3 as u32)
        << 24u32)) & 0xFFu32) as u8 == b0) by (bit_vector);
    assert(((((b0 as u32) | ((b1 as u32) << 8u32) | ((b2 as u32) << 16u32) | ((b3 as u32)
        << 24u32)) >> 8u32) & 0xFFu32) as u8 == b1) by (bit_vector);
    assert(((((b0 as u32) | ((b1 as u32) << 8u32) | ((b2 as u32) << 16u32) | ((b3 as u32)
        << 24u32)) >> 16u32) & 0xFFu32) as u8 == b2) by (bit_vector);
    assert(((((b0 as u32) | ((b1 as u32) << 8u32) | ((b2 as u32) << 16u32) | ((b3 as u32)
        << 24u32)) >> 24u32) & 0xFFu32) as u8 == b3) by (bit_vector);
}

} // verus!
