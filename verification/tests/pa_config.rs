use std::cmp::Ordering;
use subghz::{OpCode, PaConfig, PaSel};

#[test]
fn pa_config_new_is_the_default_buffer() {
    assert_eq!(PaConfig::new().as_slice(), &[0x95, 0x01, 0x00, 0x00, 0x01]);
    assert_eq!(PaConfig::default(), PaConfig::new());
    assert_eq!(PaConfig::new().as_slice()[0], OpCode::SetPaConfig.code());
}

#[test]
fn duty_cycle_keeps_the_low_three_bits() {
    for value in 0..=u8::MAX {
        let config: PaConfig = PaConfig::new().set_pa_duty_cycle(value);
        assert_eq!(config.as_slice()[1], value & 0b111);
        assert_eq!(config.as_slice()[0], 0x95);
        assert_eq!(config.as_slice()[2], 0x00);
        assert_eq!(config.as_slice()[3], 0x00);
        assert_eq!(config.as_slice()[4], 0x01);
    }
    assert_eq!(PaConfig::new().set_pa_duty_cycle(0x04).as_slice()[1], 0x04);
    assert_eq!(PaConfig::new().set_pa_duty_cycle(0x08).as_slice()[1], 0x00);
    assert_eq!(PaConfig::new().set_pa_duty_cycle(0xFF).as_slice()[1], 0x07);
}

#[test]
fn hp_max_keeps_the_low_three_bits() {
    for value in 0..=u8::MAX {
        let config: PaConfig = PaConfig::new().set_hp_max(value);
        assert_eq!(config.as_slice()[2], value & 0b111);
        assert_eq!(config.as_slice()[0], 0x95);
        assert_eq!(config.as_slice()[1], 0x01);
        assert_eq!(config.as_slice()[3], 0x00);
        assert_eq!(config.as_slice()[4], 0x01);
    }
    assert_eq!(PaConfig::new().set_hp_max(0x02).as_slice()[2], 0x02);
    assert_eq!(PaConfig::new().set_hp_max(0xFA).as_slice()[2], 0x02);
}

#[test]
fn set_pa_stores_the_selection_code() {
    assert_eq!(PaConfig::new().set_pa(PaSel::Hp).as_slice()[3], 0x00);
    assert_eq!(PaConfig::new().set_pa(PaSel::Lp).as_slice()[3], 0x01);
    assert_eq!(
        PaConfig::new().set_pa(PaSel::Lp).as_slice(),
        &[0x95, 0x01, 0x00, 0x01, 0x01]
    );
}

#[test]
fn built_configuration() {
    let config: PaConfig = PaConfig::new()
        .set_pa(PaSel::Hp)
        .set_pa_duty_cycle(0x2)
        .set_hp_max(0x3);
    assert_eq!(config.as_slice(), &[0x95, 0x2, 0x03, 0x00, 0x01]);
    let low: PaConfig = PaConfig::new().set_pa(PaSel::Lp).set_pa_duty_cycle(0x4);
    assert_eq!(low.as_slice(), &[0x95, 0x4, 0x00, 0x01, 0x01]);
}

#[test]
fn pa_config_setters_commute_and_overwrite() {
    let one: PaConfig = PaConfig::new()
        .set_hp_max(5)
        .set_pa(PaSel::Lp)
        .set_pa_duty_cycle(6);
    let other: PaConfig = PaConfig::new()
        .set_pa_duty_cycle(6)
        .set_hp_max(5)
        .set_pa(PaSel::Lp);
    assert_eq!(one, other);
    let twice: PaConfig = PaConfig::new()
        .set_pa_duty_cycle(3)
        .set_pa_duty_cycle(9)
        .set_hp_max(7)
        .set_hp_max(0)
        .set_pa(PaSel::Lp)
        .set_pa(PaSel::Hp);
    assert_eq!(twice.as_slice(), &[0x95, 0x01, 0x00, 0x00, 0x01]);
    assert!(PaConfig::new().set_hp_max(1) != PaConfig::new());
}

#[test]
fn pa_sel_codes() {
    assert_eq!(PaSel::Hp.code(), 0b0);
    assert_eq!(PaSel::Lp.code(), 0b1);
    assert_eq!(PaSel::default(), PaSel::Lp);
}

#[test]
fn pa_sel_order_is_total_with_lp_below_hp() {
    assert!(PaSel::Lp < PaSel::Hp);
    assert!(PaSel::Hp > PaSel::Lp);
    assert!(PaSel::Lp <= PaSel::Lp);
    assert!(PaSel::Hp >= PaSel::Hp);
    assert!(!(PaSel::Hp < PaSel::Lp));
    assert_eq!(PaSel::Lp.cmp(&PaSel::Hp), Ordering::Less);
    assert_eq!(PaSel::Hp.cmp(&PaSel::Lp), Ordering::Greater);
    assert_eq!(PaSel::Hp.cmp(&PaSel::Hp), Ordering::Equal);
    assert_eq!(PaSel::Lp.cmp(&PaSel::Lp), Ordering::Equal);
    assert_eq!(PaSel::Lp.partial_cmp(&PaSel::Hp), Some(Ordering::Less));
    assert_eq!(PaSel::Hp.partial_cmp(&PaSel::Lp), Some(Ordering::Greater));
    assert_eq!(PaSel::Hp.partial_cmp(&PaSel::Hp), Some(Ordering::Equal));
    assert_eq!(Ord::cmp(&PaSel::Lp, &PaSel::Hp), Ordering::Less);
    assert_eq!(Ord::cmp(&PaSel::Hp, &PaSel::Lp), Ordering::Greater);
    assert_eq!(Ord::cmp(&PaSel::Hp, &PaSel::Hp), Ordering::Equal);
    let mut sorted: Vec<PaSel> = vec![PaSel::Hp, PaSel::Lp, PaSel::Hp, PaSel::Lp];
    sorted.sort();
    assert_eq!(sorted, vec![PaSel::Lp, PaSel::Lp, PaSel::Hp, PaSel::Hp]);
    assert_eq!(PaSel::Hp.max(PaSel::Lp), PaSel::Hp);
    assert_eq!(PaSel::Hp.min(PaSel::Lp), PaSel::Lp);
}

#[test]
fn pa_sel_order_reverses_the_codes() {
    let all: [PaSel; 2] = [PaSel::Lp, PaSel::Hp];
    for a in all {
        for b in all {
            assert_eq!(a < b, a.code() > b.code());
            assert_eq!(a == b, a.code() == b.code());
            let outcomes: [bool; 3] = [a < b, a == b, a > b];
            assert_eq!(outcomes.iter().filter(|held| **held).count(), 1);
        }
    }
}
