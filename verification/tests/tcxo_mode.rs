use subghz::{OpCode, TcxoMode, TcxoTrim};

#[test]
fn tcxo_mode_new_is_the_default_buffer() {
    assert_eq!(TcxoMode::new().as_slice(), &[0x97, 0x00, 0x00, 0x00, 0x00]);
    assert_eq!(TcxoMode::default(), TcxoMode::new());
    assert_eq!(TcxoMode::new().as_slice()[0], OpCode::SetTcxoMode.code());
}

#[test]
fn trim_and_timeout() {
    let mode: TcxoMode = TcxoMode::new()
        .set_txco_trim(TcxoTrim::Volts1pt7)
        .set_timeout(0x123456);
    assert_eq!(mode.as_slice(), &[0x97, 0x1, 0x12, 0x34, 0x56]);
}

#[test]
fn set_txco_trim_stores_the_code() {
    assert_eq!(
        TcxoMode::new().set_txco_trim(TcxoTrim::Volts1pt6).as_slice()[1],
        0x00
    );
    let all: [TcxoTrim; 8] = [
        TcxoTrim::Volts1pt6,
        TcxoTrim::Volts1pt7,
        TcxoTrim::Volts1pt8,
        TcxoTrim::Volts2pt2,
        TcxoTrim::Volts2pt4,
        TcxoTrim::Volts2pt7,
        TcxoTrim::Volts3pt0,
        TcxoTrim::Volts3pt3,
    ];
    let mut code: u8 = 0;
    for trim in all {
        let mode: TcxoMode = TcxoMode::new().set_timeout(0xABCDEF).set_txco_trim(trim);
        assert_eq!(trim.code(), code);
        assert_eq!(mode.as_slice(), &[0x97, code, 0xAB, 0xCD, 0xEF]);
        code += 1;
    }
}

#[test]
fn set_timeout_splits_big_endian() {
    // One million ticks of 15.625 us each.
    let mode: TcxoMode = TcxoMode::new().set_timeout(1_000_000);
    assert_eq!(mode.as_slice()[2], 0x0F);
    assert_eq!(mode.as_slice()[3], 0x42);
    assert_eq!(mode.as_slice()[4], 0x40);
    assert_eq!(
        TcxoMode::new().set_timeout(0).as_slice(),
        &[0x97, 0, 0, 0, 0]
    );
    assert_eq!(
        TcxoMode::new().set_timeout(1).as_slice(),
        &[0x97, 0, 0, 0, 1]
    );
    assert_eq!(
        TcxoMode::new().set_timeout(0x00FF_FFFF).as_slice(),
        &[0x97, 0, 0xFF, 0xFF, 0xFF]
    );
}

#[test]
fn set_timeout_drops_the_bits_above_24() {
    assert_eq!(
        TcxoMode::new().set_timeout(0xFF12_3456),
        TcxoMode::new().set_timeout(0x0012_3456)
    );
    assert_eq!(
        TcxoMode::new().set_timeout(0x0100_0000).as_slice(),
        &[0x97, 0, 0, 0, 0]
    );
    assert_eq!(
        TcxoMode::new()
            .set_txco_trim(TcxoTrim::Volts3pt3)
            .set_timeout(u32::MAX)
            .as_slice(),
        &[0x97, 0x7, 0xFF, 0xFF, 0xFF]
    );
}

#[test]
fn tcxo_mode_setters_commute_and_overwrite() {
    let one: TcxoMode = TcxoMode::new()
        .set_timeout(0x010203)
        .set_txco_trim(TcxoTrim::Volts2pt4);
    let other: TcxoMode = TcxoMode::new()
        .set_txco_trim(TcxoTrim::Volts2pt4)
        .set_timeout(0x010203);
    assert_eq!(one, other);
    assert_eq!(one.as_slice(), &[0x97, 0x4, 0x01, 0x02, 0x03]);
    let twice: TcxoMode = TcxoMode::new()
        .set_timeout(0xFFFFFF)
        .set_timeout(0x000001)
        .set_txco_trim(TcxoTrim::Volts3pt3)
        .set_txco_trim(TcxoTrim::Volts1pt8);
    assert_eq!(twice.as_slice(), &[0x97, 0x2, 0x00, 0x00, 0x01]);
    assert!(one != twice);
}

#[test]
fn millivolt_table() {
    assert_eq!(TcxoTrim::Volts1pt6.as_millivolts(), 1600);
    assert_eq!(TcxoTrim::Volts1pt7.as_millivolts(), 1700);
    assert_eq!(TcxoTrim::Volts1pt8.as_millivolts(), 1800);
    assert_eq!(TcxoTrim::Volts2pt2.as_millivolts(), 2200);
    assert_eq!(TcxoTrim::Volts2pt4.as_millivolts(), 2400);
    assert_eq!(TcxoTrim::Volts2pt7.as_millivolts(), 2700);
    assert_eq!(TcxoTrim::Volts3pt0.as_millivolts(), 3000);
    assert_eq!(TcxoTrim::Volts3pt3.as_millivolts(), 3300);
}

#[test]
fn trim_labels() {
    assert_eq!(TcxoTrim::Volts1pt6.to_string(), "1.6V");
    assert_eq!(TcxoTrim::Volts1pt7.to_string(), "1.7V");
    assert_eq!(TcxoTrim::Volts1pt8.to_string(), "1.8V");
    assert_eq!(TcxoTrim::Volts2pt2.to_string(), "2.2V");
    assert_eq!(TcxoTrim::Volts2pt4.to_string(), "2.4V");
    assert_eq!(TcxoTrim::Volts2pt7.to_string(), "2.7V");
    assert_eq!(TcxoTrim::Volts3pt0.to_string(), "3.0V");
    assert_eq!(TcxoTrim::Volts3pt3.to_string(), "3.3V");
}

#[test]
fn trim_codes_and_order() {
    assert_eq!(TcxoTrim::Volts1pt6.code(), 0x0);
    assert_eq!(TcxoTrim::Volts1pt7.code(), 0x1);
    assert_eq!(TcxoTrim::Volts1pt8.code(), 0x2);
    assert_eq!(TcxoTrim::Volts2pt2.code(), 0x3);
    assert_eq!(TcxoTrim::Volts2pt4.code(), 0x4);
    assert_eq!(TcxoTrim::Volts2pt7.code(), 0x5);
    assert_eq!(TcxoTrim::Volts3pt0.code(), 0x6);
    assert_eq!(TcxoTrim::Volts3pt3.code(), 0x7);
    assert!(TcxoTrim::Volts1pt6 < TcxoTrim::Volts1pt7);
    assert!(TcxoTrim::Volts3pt0 < TcxoTrim::Volts3pt3);
    assert!(TcxoTrim::Volts2pt2.as_millivolts() < TcxoTrim::Volts2pt4.as_millivolts());
}
