use subghz::{Ocp, OpCode, PacketType, RegMode};

#[test]
fn packet_type_from_bits() {
    assert_eq!(PacketType::from_bits(0), Ok(PacketType::Fsk));
    assert_eq!(PacketType::from_bits(1), Ok(PacketType::LoRa));
    assert_eq!(PacketType::from_bits(2), Ok(PacketType::Bpsk));
    assert_eq!(PacketType::from_bits(3), Ok(PacketType::Msk));
    // Other values are reserved
    assert_eq!(PacketType::from_bits(4), Err(4));
}

#[test]
fn packet_type_rejects_every_reserved_byte() {
    for bits in 4..=u8::MAX {
        assert_eq!(PacketType::from_bits(bits), Err(bits));
    }
}

#[test]
fn packet_type_code_round_trip() {
    let all: [PacketType; 4] = [
        PacketType::Fsk,
        PacketType::LoRa,
        PacketType::Bpsk,
        PacketType::Msk,
    ];
    let mut code: u8 = 0;
    for packet_type in all {
        assert_eq!(packet_type.code(), code);
        assert_eq!(PacketType::from_bits(packet_type.code()), Ok(packet_type));
        code += 1;
    }
}

#[test]
fn op_codes() {
    assert_eq!(OpCode::SetRfFrequency.code(), 0x86);
    assert_eq!(OpCode::SetPaConfig.code(), 0x95);
    assert_eq!(OpCode::SetTcxoMode.code(), 0x97);
    assert!(OpCode::SetRfFrequency.code() != OpCode::SetPaConfig.code());
    assert!(OpCode::SetRfFrequency.code() != OpCode::SetTcxoMode.code());
    assert!(OpCode::SetPaConfig.code() != OpCode::SetTcxoMode.code());
}

#[test]
fn ocp_codes() {
    assert_eq!(Ocp::Max60m.code(), 0x18);
    assert_eq!(Ocp::Max140m.code(), 0x38);
    assert!(Ocp::Max60m < Ocp::Max140m);
}

#[test]
fn reg_mode_codes() {
    assert_eq!(RegMode::Ldo.code(), 0b0);
    assert_eq!(RegMode::Smps.code(), 0b1);
    assert_eq!(RegMode::default(), RegMode::Ldo);
    assert!(RegMode::Ldo < RegMode::Smps);
}
