use adsbee::mode_s::util::gillham::{
    decode_gillham_ac12,
    decode_gillham_ac13,
    decode_gillham_id13,
};

#[test]
fn it_decodes_id13() {
    assert_eq!(decode_gillham_id13(2214), 2882); // squawk 5502
    assert_eq!(decode_gillham_id13(2048), 512); // squawk 1000
    assert_eq!(decode_gillham_id13(5147), 413); // squawk 0635
}

#[test]
fn id13_ignores_the_ident_bit() {
    for code in [0u16, 2214, 2048, 5147, 0x1fff] {
        assert_eq!(decode_gillham_id13(code), decode_gillham_id13(code ^ 0b0_0000_0100_0000));
    }
}

#[test]
fn ac13_ignores_the_m_and_q_bits() {
    for code in [0u16, 0xc38, 6320, 0x1fff] {
        assert_eq!(decode_gillham_ac13(code), decode_gillham_ac13(code ^ 0b0_0000_0100_0000));
        assert_eq!(decode_gillham_ac13(code), decode_gillham_ac13(code ^ 0b0_0000_0001_0000));
    }
}

#[test]
fn ac12_ignores_the_q_bit() {
    for code in [0u16, 0xc38, 0xfff] {
        assert_eq!(decode_gillham_ac12(code), decode_gillham_ac12(code ^ 0b0000_0001_0000));
    }
}

#[test]
fn ac12_moves_single_bits() {
    // C1 (bit 11) becomes the third least significant bit
    assert_eq!(decode_gillham_ac12(0b1000_0000_0000), 0b000_0000_0100);
    // A1 (bit 10) becomes bit 8
    assert_eq!(decode_gillham_ac12(0b0100_0000_0000), 0b001_0000_0000);
}
