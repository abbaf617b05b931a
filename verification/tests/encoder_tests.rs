use steg::Hic;
use steg::InnerHic;

#[test]
fn sequential_switch() {
    let pubkey = InnerHic::new(vec![0xFF], None, None);
    let payload = InnerHic::new(vec![0x01], None, None);
    let mut enc = Hic::new(pubkey, payload);

    enc.start_final_encoding();
    // Eight non-sentinel calls exhaust the preamble's eight bits.
    for _ in 0..8 {
        assert_eq!(enc.inject_in_angle(0), 1);
    }
    assert!(enc.is_done());

    // The switch to the main payload happens at probe start, not before.
    enc.start_pre_encoding();
    assert!(!enc.is_done());
    assert_eq!(enc.inject_in_angle(0), 1); // bit 0 of 0x01
    assert_eq!(enc.inject_in_angle(0), 0); // bit 1 of 0x01
    enc.stop_pre_encoding();
}

#[test]
fn no_switch_while_preamble_unfinished() {
    let pubkey = InnerHic::new(vec![0xFF], None, None);
    let payload = InnerHic::new(vec![0x00], None, None);
    let mut enc = Hic::new(pubkey, payload);

    enc.start_final_encoding();
    assert_eq!(enc.inject_in_angle(0), 1);
    // A probe start while the preamble still has bits does not switch.
    enc.start_pre_encoding();
    assert_eq!(enc.inject_in_angle(0), 1); // still the preamble's bits
    enc.stop_pre_encoding();
    assert_eq!(enc.inject_in_angle(0), 1);
}

#[test]
fn switch_does_not_carry_commit_over() {
    let pubkey = InnerHic::new(vec![0xFF], None, None);
    let payload = InnerHic::new(vec![0xFF], None, None);
    let mut enc = Hic::new(pubkey, payload);

    enc.start_final_encoding();
    for _ in 0..8 {
        enc.inject_in_angle(0);
    }
    assert!(enc.is_done());
    enc.start_pre_encoding();
    enc.stop_pre_encoding();
    // Each injector's phase flags are its own: the main payload injector was
    // never committed, so it passes values through until committed itself.
    assert!(!enc.is_enabled());
    assert_eq!(enc.inject_in_angle(0), 0);
    enc.start_final_encoding();
    assert_eq!(enc.inject_in_angle(0), 1);
}

#[test]
fn just_data_skips_the_preamble() {
    let mut enc = Hic::just_data(vec![0x01], None, None);
    enc.start_final_encoding();
    assert!(!enc.is_done());
    assert_eq!(enc.inject_in_angle(0), 1);
    assert_eq!(enc.inject_in_angle(0), 0);
}

#[test]
fn just_data_honours_padding_and_offset() {
    let mut enc = Hic::just_data(vec![0xFF], Some(1), Some(2));
    enc.start_final_encoding();
    assert_eq!(enc.inject_in_angle(0), 0); // offset
    assert_eq!(enc.inject_in_angle(0), 0); // offset
    assert_eq!(enc.inject_in_angle(0), 1); // embedding
    assert_eq!(enc.inject_in_angle(0), 0); // padding
    assert_eq!(enc.inject_in_angle(0), 1); // embedding
}

#[test]
fn encoder_probe_rollback() {
    let mut enc = Hic::just_data(vec![0b0000_1111], None, None);
    enc.start_pre_encoding();
    for _ in 0..4 {
        assert_eq!(enc.inject_in_angle(0), 1);
    }
    enc.stop_pre_encoding();
    // The probed advances are rolled back: a committed run starts over.
    enc.start_final_encoding();
    assert_eq!(enc.inject_in_angle(0), 1);
}

#[test]
fn encoder_passes_through_when_idle() {
    let pubkey = InnerHic::new(vec![0xAA], None, None);
    let payload = InnerHic::new(vec![0x55], None, None);
    let mut enc = Hic::new(pubkey, payload);
    for a in [0u32, 1, 6, 42, u32::MAX] {
        assert_eq!(enc.inject_in_angle(a), a);
    }
    assert!(!enc.is_enabled());
}

#[test]
fn empty_preamble_switches_at_first_probe_start() {
    let pubkey = InnerHic::new(vec![], None, None);
    let payload = InnerHic::new(vec![0x01], None, None);
    let mut enc = Hic::new(pubkey, payload);
    // Before any probe start the exhausted preamble is still selected.
    assert!(enc.is_done());
    enc.start_pre_encoding();
    assert!(!enc.is_done());
    assert_eq!(enc.inject_in_angle(0), 1);
    enc.stop_pre_encoding();
}
