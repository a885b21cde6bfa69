//! Tests of the register bitfield codecs against hand-computed values.

use hpet::HpetGeneralCapabilitiesAndIdRegister;
use hpet::HpetGeneralConfigurationRegister;
use hpet::HpetGeneralInterruptStatusRegister;
use hpet::TimerNConfigurationAndCapabilityRegister;
use hpet::TimerNFsbInterruptRouteRegister;

#[test]
fn caps_scenario_decodes_each_field() {
    // 0x8086_0001_0305_1234, per the bit table:
    //   bits 63..=32 = 0x8086_0001 (tick period)
    //   bits 31..=16 = 0x0305     (vendor)
    //   bit  15      = 0          (legacy replacement capable)
    //   bit  13      = 0          (64-bit counter)
    //   bits 12..=8  = 0x12       (timer count minus one)
    //   bits  7..=0  = 0x34       (revision)
    let caps = HpetGeneralCapabilitiesAndIdRegister::from_raw(0x8086_0001_0305_1234);
    assert_eq!(caps.get_counter_clk_period(), 0x8086_0001);
    assert_eq!(caps.get_vendor_id(), 0x0305);
    assert!(!caps.get_leg_rt_cap());
    assert!(!caps.get_count_size_cap());
    assert_eq!(caps.get_num_tim_cap(), 0x12);
    assert_eq!(caps.get_rev_id(), 0x34);
}

#[test]
fn caps_scenario_with_flag_bits_set() {
    // 0x0000_0001_8086_A01F: vendor 0x8086, bit 15 and bit 13 set,
    // timer-count-minus-one 0, revision 0x1F.
    let caps = HpetGeneralCapabilitiesAndIdRegister::from_raw(0x0000_0001_8086_A01F);
    assert_eq!(caps.get_counter_clk_period(), 1);
    assert_eq!(caps.get_vendor_id(), 0x8086);
    assert!(caps.get_leg_rt_cap());
    assert!(caps.get_count_size_cap());
    assert_eq!(caps.get_num_tim_cap(), 0);
    assert_eq!(caps.get_rev_id(), 0x1F);
}

#[test]
fn caps_decode_then_encode_round_trips() {
    // Reserved bit 14 is clear in both patterns, so re-encoding the decoded
    // fields must reproduce the raw value exactly.
    for raw in [0x8086_0001_0305_1234u64, 0x0000_0001_8086_A01Fu64, 0u64] {
        let caps = HpetGeneralCapabilitiesAndIdRegister::from_raw(raw);
        let rebuilt = HpetGeneralCapabilitiesAndIdRegister::from_fields(
            caps.get_counter_clk_period(),
            caps.get_vendor_id(),
            caps.get_leg_rt_cap(),
            caps.get_count_size_cap(),
            caps.get_num_tim_cap(),
            caps.get_rev_id(),
        );
        assert_eq!(rebuilt.raw(), raw);
    }
}

#[test]
fn caps_from_fields_places_each_field() {
    let caps = HpetGeneralCapabilitiesAndIdRegister::from_fields(
        0x0A2F_B1C3, 0x8086, false, true, 23, 0x02,
    );
    assert_eq!(caps.raw(), 0x0A2F_B1C3_8086_3702);
}

#[test]
fn general_config_scenario() {
    // 0x3: both the legacy-replacement enable (bit 1) and the overall
    // enable (bit 0) set.
    let cfg = HpetGeneralConfigurationRegister::from_raw(0x3);
    assert!(cfg.get_legacy_replacement_cnf());
    assert!(cfg.get_enable_cnf());
    let cfg = HpetGeneralConfigurationRegister::from_raw(0x2);
    assert!(cfg.get_legacy_replacement_cnf());
    assert!(!cfg.get_enable_cnf());
}

#[test]
fn general_config_setters_touch_one_bit() {
    let mut cfg = HpetGeneralConfigurationRegister::from_raw(0);
    cfg.set_enable_cnf(true);
    assert_eq!(cfg.raw(), 0x1);
    cfg.set_legacy_replacement_cnf(true);
    assert_eq!(cfg.raw(), 0x3);
    cfg.set_enable_cnf(false);
    assert_eq!(cfg.raw(), 0x2);
    cfg.set_legacy_replacement_cnf(false);
    assert_eq!(cfg.raw(), 0x0);
}

#[test]
fn interrupt_status_scenario() {
    // Bits 0 and 31 set: timers 0 and 31 report an active interrupt.
    let sts = HpetGeneralInterruptStatusRegister::from_raw(0x8000_0001);
    assert!(sts.get_t_n_int_sts(0));
    assert!(!sts.get_t_n_int_sts(1));
    assert!(sts.get_t_n_int_sts(31));
}

#[test]
fn interrupt_status_set_bit() {
    let mut sts = HpetGeneralInterruptStatusRegister::from_raw(0);
    sts.set_t_n_int_sts(7, true);
    assert_eq!(sts.raw(), 0x80);
    assert!(sts.get_t_n_int_sts(7));
    sts.set_t_n_int_sts(7, false);
    assert_eq!(sts.raw(), 0);
}

#[test]
fn timer_config_scenario_decodes_each_field() {
    // 0x0000_0020_0000_F27E, per the bit table:
    //   bits 63..=32 = 0x20 (supported lines: line 5 only)
    //   bit  15 = 1 (FSB capable), bit 14 = 1 (FSB enabled)
    //   bits 13..=9 = 25 (selected line)
    //   bit 8 = 0 (force 32-bit), bit 6 = 1 (accumulator set)
    //   bit 5 = 1 (64-bit), bit 4 = 1 (periodic capable)
    //   bit 3 = 1 (periodic enabled), bit 2 = 1 (interrupt enabled)
    //   bit 1 = 1 (level triggered)
    let cfg = TimerNConfigurationAndCapabilityRegister::from_raw(0x0000_0020_0000_F27E);
    assert_eq!(cfg.get_int_route_cap(), 0x20);
    assert!(cfg.get_fsb_int_del_cap());
    assert!(cfg.get_fsb_en_cnf());
    assert_eq!(cfg.get_int_route_cnf(), 25);
    assert!(!cfg.get_32_mode_cnf());
    assert!(cfg.get_val_set_cnf());
    assert!(cfg.get_size_cap());
    assert!(cfg.get_per_int_cp());
    assert!(cfg.get_type_cnf());
    assert!(cfg.get_int_enb_cnf());
    assert!(cfg.get_int_type_cnf());
}

#[test]
fn timer_config_setters_touch_only_their_field() {
    let mut cfg = TimerNConfigurationAndCapabilityRegister::from_raw(0);
    cfg.set_int_route_cnf(0x1F);
    assert_eq!(cfg.raw(), 0x3E00);
    cfg.set_int_route_cnf(9);
    assert_eq!(cfg.raw(), 9 << 9);
    cfg.set_fsb_en_cnf(true);
    assert_eq!(cfg.raw(), (9 << 9) | (1 << 14));
    cfg.set_32_mode_cnf(true);
    cfg.set_val_set_cnf(true);
    cfg.set_type_cnf(true);
    cfg.set_int_enb_cnf(true);
    cfg.set_int_type_cnf(true);
    assert_eq!(cfg.raw(), (9 << 9) | (1 << 14) | (1 << 8) | (1 << 6) | (1 << 3) | (1 << 2) | (1 << 1));
    cfg.set_fsb_en_cnf(false);
    assert_eq!(cfg.raw(), (9 << 9) | (1 << 8) | (1 << 6) | (1 << 3) | (1 << 2) | (1 << 1));
}

#[test]
fn fsb_route_scenario() {
    // Address in the high half, value in the low half.
    let route = TimerNFsbInterruptRouteRegister::from_raw(0xFEE0_0000_0000_4041);
    assert_eq!(route.fsb_int_addr(), 0xFEE0_0000);
    assert_eq!(route.fsb_int_val(), 0x4041);
}

#[test]
fn fsb_route_new_round_trips() {
    let route = TimerNFsbInterruptRouteRegister::new(0xFEE0_1000, 0xDEAD_BEEF);
    assert_eq!(route.raw(), 0xFEE0_1000_DEAD_BEEF);
    assert_eq!(route.fsb_int_addr(), 0xFEE0_1000);
    assert_eq!(route.fsb_int_val(), 0xDEAD_BEEF);
}

#[test]
fn fsb_route_setters_keep_the_other_half() {
    let mut route = TimerNFsbInterruptRouteRegister::from_raw(0);
    route.set_fsb_int_addr(0xFEE0_0000);
    assert_eq!(route.raw(), 0xFEE0_0000_0000_0000);
    route.set_fsb_int_val(0x77);
    assert_eq!(route.raw(), 0xFEE0_0000_0000_0077);
    route.set_fsb_int_addr(0x1);
    assert_eq!(route.raw(), 0x0000_0001_0000_0077);
}

#[test]
fn layout_constants_match_the_block() {
    assert_eq!(hpet::CAPABILITIES_AND_ID_OFFSET, 0x000);
    assert_eq!(hpet::GENERAL_CONFIGURATION_OFFSET, 0x010);
    assert_eq!(hpet::GENERAL_INTERRUPT_STATUS_OFFSET, 0x020);
    assert_eq!(hpet::MAIN_COUNTER_VALUE_OFFSET, 0x0F0);
    assert_eq!(hpet::TIMERS_BASE_OFFSET, 0x100);
    assert_eq!(hpet::TIMER_BLOCK_SIZE, 0x20);
    assert_eq!(hpet::TIMER_SLOT_COUNT, 32);
    assert_eq!(
        hpet::TIMERS_BASE_OFFSET + hpet::TIMER_SLOT_COUNT * hpet::TIMER_BLOCK_SIZE,
        hpet::HPET_MMIO_SIZE
    );
    assert_eq!(hpet::HPET_MMIO_SIZE, 0x500);
}
