use can_stm32_driver::frame::{decode, encode, EncodedFrame, LogicalFrame};

fn roundtrip(f: LogicalFrame) {
    let e = encode(&f);
    let g = decode(&e);
    assert_eq!(g, f);
}

#[test]
fn roundtrip_standard_frame() {
    roundtrip(LogicalFrame {
        id: 0x123,
        is_extended: false,
        is_remote_request: false,
        dlc: 8,
        data: [1, 2, 3, 4, 5, 6, 7, 8],
    });
}

#[test]
fn roundtrip_standard_remote_frame() {
    roundtrip(LogicalFrame {
        id: 0x7FF,
        is_extended: false,
        is_remote_request: true,
        dlc: 0,
        data: [0; 8],
    });
}

#[test]
fn roundtrip_extended_frame() {
    roundtrip(LogicalFrame {
        id: 0x18DA_F110,
        is_extended: true,
        is_remote_request: false,
        dlc: 3,
        data: [0xAA, 0x55, 0xFF, 0, 0, 0, 0, 0],
    });
}

#[test]
fn roundtrip_extended_remote_frame() {
    roundtrip(LogicalFrame {
        id: 0x1FFF_FFFF,
        is_extended: true,
        is_remote_request: true,
        dlc: 8,
        data: [0xFF; 8],
    });
}

#[test]
fn roundtrip_zero_frame() {
    roundtrip(LogicalFrame {
        id: 0,
        is_extended: false,
        is_remote_request: false,
        dlc: 0,
        data: [0; 8],
    });
}

#[test]
fn encode_standard_id_word_exact() {
    // An 11-bit identifier sits in the topmost bits, above bit 21; the
    // remote-request flag is bit 1.
    let f = LogicalFrame {
        id: 0x123,
        is_extended: false,
        is_remote_request: false,
        dlc: 0,
        data: [0; 8],
    };
    assert_eq!(encode(&f).id_word, 0x123 << 21);
    let r = LogicalFrame { is_remote_request: true, ..f };
    assert_eq!(encode(&r).id_word, (0x123 << 21) | 0b010);
}

#[test]
fn encode_extended_id_word_exact() {
    // A 29-bit identifier sits above bit 3; bit 2 flags the extended layout.
    let f = LogicalFrame {
        id: 0x18DA_F110,
        is_extended: true,
        is_remote_request: true,
        dlc: 0,
        data: [0; 8],
    };
    assert_eq!(encode(&f).id_word, (0x18DA_F110 << 3) | 0b100 | 0b010);
}

#[test]
fn encode_data_words_exact() {
    // Bytes pack into the two words low word first, least significant
    // byte first.
    let f = LogicalFrame {
        id: 1,
        is_extended: false,
        is_remote_request: false,
        dlc: 8,
        data: [0x01, 0x02, 0x03, 0x04, 0x05, 0x06, 0x07, 0x08],
    };
    let e = encode(&f);
    assert_eq!(e.data_low, 0x0403_0201);
    assert_eq!(e.data_high, 0x0807_0605);
    assert_eq!(e.dlc, 8);
}

#[test]
fn decode_extended_flag_and_fields() {
    let e = EncodedFrame {
        id_word: (0x0ABC_DEF0 << 3) | 0b100,
        dlc: 5,
        data_low: 0xDEAD_BEEF,
        data_high: 0x0102_0304,
    };
    let f = decode(&e);
    assert!(f.is_extended);
    assert!(!f.is_remote_request);
    assert_eq!(f.id, 0x0ABC_DEF0);
    assert_eq!(f.dlc, 5);
    assert_eq!(f.data, [0xEF, 0xBE, 0xAD, 0xDE, 0x04, 0x03, 0x02, 0x01]);
}
