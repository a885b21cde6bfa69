//! Tests of the controller handle, the timer views, and the timer iterator.

use hpet::Hpet;
use hpet::HpetError;
use hpet::HpetGeneralCapabilitiesAndIdRegister;
use hpet::HpetGeneralConfigurationRegister;
use hpet::HpetGeneralInterruptStatusRegister;
use hpet::HpetMemory;
use hpet::HpetTimerMemory;
use hpet::HpetTimerRef;
use hpet::InterruptConfig;
use hpet::InterruptMode;
use hpet::TimerNConfigurationAndCapabilityRegister;
use hpet::TimerNFsbInterruptRouteRegister;

/// A register block whose capabilities take the given raw value and whose 32
/// timer slots hold the given per-timer configuration values.
fn make_memory(caps_raw: u64, timer_cfg_raws: &[u64; 32]) -> HpetMemory {
    let mut timers = Vec::new();
    for i in 0..32 {
        timers.push(HpetTimerMemory {
            configuration_and_capability_register: TimerNConfigurationAndCapabilityRegister::from_raw(
                timer_cfg_raws[i],
            ),
            comparator_register: 0,
            fsb_interrupt_route_register: TimerNFsbInterruptRouteRegister::from_raw(0),
        });
    }
    HpetMemory {
        capabilities_and_id: HpetGeneralCapabilitiesAndIdRegister::from_raw(caps_raw),
        config: HpetGeneralConfigurationRegister::from_raw(0),
        interrupt_status: HpetGeneralInterruptStatusRegister::from_raw(0),
        main_counter_value_register: 0,
        timers,
    }
}

/// Capabilities raw value reporting `count` timers (count-minus-one field).
fn caps_with_count(count: u64) -> u64 {
    assert!((1..=32).contains(&count));
    (count - 1) << 8
}

#[test]
fn controller_reads_capability_fields() {
    let h = Hpet::new(make_memory(0x8086_0001_0305_1234, &[0u64; 32]));
    assert_eq!(h.main_counter_tick_period(), 0x8086_0001);
    assert_eq!(h.vendor_id(), 0x0305);
    assert!(!h.legacy_replacement_capable());
    assert!(!h.supports_64_bit_mode());
    assert_eq!(h.timers_count(), 0x12 + 1);
    assert_eq!(h.revision_id(), 0x34);
}

#[test]
fn timers_count_is_field_plus_one() {
    for (field, count) in [(0u64, 1u8), (4, 5), (18, 19), (31, 32)] {
        let h = Hpet::new(make_memory(field << 8, &[0u64; 32]));
        assert_eq!(h.timers_count(), count);
        assert!((1..=32).contains(&h.timers_count()));
    }
}

#[test]
fn enable_bit_round_trips() {
    let mut h = Hpet::new(make_memory(0, &[0u64; 32]));
    assert!(!h.get_enable());
    h.set_enable(true);
    assert!(h.get_enable());
    assert!(!h.get_legacy_replacement_enabled());
    h.set_enable(false);
    assert!(!h.get_enable());
}

#[test]
fn legacy_replacement_enabled_reads_config_bit() {
    let mut mem = make_memory(0, &[0u64; 32]);
    mem.config = HpetGeneralConfigurationRegister::from_raw(0x2);
    let h = Hpet::new(mem);
    assert!(h.get_legacy_replacement_enabled());
    assert!(!h.get_enable());
}

#[test]
fn main_counter_write_gated_on_enable() {
    let mut h = Hpet::new(make_memory(0, &[0u64; 32]));
    // Disabled: any value may be written.
    assert_eq!(h.set_main_counter_value(0xDEAD_BEEF_0123_4567), Ok(()));
    assert_eq!(h.main_counter_value(), 0xDEAD_BEEF_0123_4567);
    assert_eq!(h.set_main_counter_value(0), Ok(()));
    assert_eq!(h.main_counter_value(), 0);
    // Enabled: refused, and the counter register is untouched.
    h.set_enable(true);
    assert_eq!(h.set_main_counter_value(7), Err(HpetError::InvalidOperation));
    assert_eq!(h.main_counter_value(), 0);
    // Disabled again: allowed again.
    h.set_enable(false);
    assert_eq!(h.set_main_counter_value(7), Ok(()));
    assert_eq!(h.main_counter_value(), 7);
}

#[test]
fn timer_succeeds_below_count_and_fails_at_or_above() {
    let h = Hpet::new(make_memory(caps_with_count(4), &[0u64; 32]));
    for index in 0..4 {
        assert!(h.timer(index).is_ok());
    }
    for index in [4u8, 5, 31, 32, 255] {
        assert_eq!(h.timer(index).err(), Some(HpetError::IndexOutOfRange));
    }
}

#[test]
fn timer_fails_at_index_32_even_on_a_full_device() {
    let h = Hpet::new(make_memory(caps_with_count(32), &[0u64; 32]));
    assert!(h.timer(31).is_ok());
    assert_eq!(h.timer(32).err(), Some(HpetError::IndexOutOfRange));
}

#[test]
fn timer_mut_succeeds_below_count_and_fails_at_or_above() {
    let mut h = Hpet::new(make_memory(caps_with_count(4), &[0u64; 32]));
    for index in 0..4 {
        match h.timer_mut(index) {
            Ok(t) => h = t.release(),
            Err(_) => panic!("timer_mut({index}) should succeed"),
        }
    }
    for index in [4u8, 32, 200] {
        match h.timer_mut(index) {
            Ok(_) => panic!("timer_mut({index}) should fail"),
            Err((given_back, e)) => {
                assert_eq!(e, HpetError::IndexOutOfRange);
                h = given_back;
            }
        }
    }
}

#[test]
fn timer_views_report_capabilities() {
    let mut cfgs = [0u64; 32];
    // Timer 2: lines 0..=7 supported, FSB capable, 64-bit, periodic capable.
    cfgs[2] = (0xFFu64 << 32) | (1 << 15) | (1 << 5) | (1 << 4);
    let h = Hpet::new(make_memory(caps_with_count(4), &cfgs));
    let t = h.timer(2).unwrap();
    assert_eq!(t.supported_io_apic_interrupts(), 0xFF);
    assert!(t.supports_fsb_interrupts());
    assert!(t.supports_64_bit_mode());
    assert!(t.supports_periodic_mode());
    assert_eq!(t.interrupt_mode(), InterruptMode::IoApic);
    let t0 = h.timer(0).unwrap();
    assert_eq!(t0.supported_io_apic_interrupts(), 0);
    assert!(!t0.supports_fsb_interrupts());
    assert!(!t0.supports_64_bit_mode());
    assert!(!t0.supports_periodic_mode());
}

#[test]
fn interrupt_mode_follows_fsb_enable_bit() {
    let mut cfgs = [0u64; 32];
    cfgs[1] = 1 << 14;
    let h = Hpet::new(make_memory(caps_with_count(2), &cfgs));
    assert_eq!(h.timer(0).unwrap().interrupt_mode(), InterruptMode::IoApic);
    assert_eq!(h.timer(1).unwrap().interrupt_mode(), InterruptMode::Fsb);
}

#[test]
fn configure_io_apic_succeeds_iff_line_supported() {
    let mut cfgs = [0u64; 32];
    // Timer 0 supports lines 5 and 20 only, and starts in FSB mode.
    cfgs[0] = ((1u64 << 5 | 1u64 << 20) << 32) | (1 << 15) | (1 << 14);
    let h = Hpet::new(make_memory(caps_with_count(1), &cfgs));
    let mut t = h.timer_mut(0).unwrap();
    // The mutable view shares the read-only query surface.
    assert_eq!(t.supported_io_apic_interrupts(), 1 << 5 | 1 << 20);
    assert!(t.supports_fsb_interrupts());
    assert_eq!(t.hpet_timer().comparator_register, 0);

    // Unsupported lines fail and leave the register untouched.
    assert_eq!(
        t.configure_interrupt(InterruptConfig::IoApic(6)),
        Err(HpetError::CapabilityUnsupported)
    );
    assert_eq!(
        t.configure_interrupt(InterruptConfig::IoApic(40)),
        Err(HpetError::CapabilityUnsupported)
    );
    assert_eq!(t.interrupt_mode(), InterruptMode::Fsb);

    // A supported line succeeds: FSB-enable cleared, line stored.
    assert_eq!(t.configure_interrupt(InterruptConfig::IoApic(20)), Ok(()));
    assert_eq!(t.interrupt_mode(), InterruptMode::IoApic);
    let h = t.release();
    let cfg = h.registers().timers[0].configuration_and_capability_register;
    assert_eq!(cfg.get_int_route_cnf(), 20);
    assert!(!cfg.get_fsb_en_cnf());
    // The read-only capability fields survived the read-modify-write.
    assert_eq!(cfg.get_int_route_cap(), 1 << 5 | 1 << 20);
    assert!(cfg.get_fsb_int_del_cap());
}

#[test]
fn configure_fsb_succeeds_iff_capable() {
    let mut cfgs = [0u64; 32];
    cfgs[0] = 1 << 15; // FSB capable
    cfgs[1] = 0; // not FSB capable
    let h = Hpet::new(make_memory(caps_with_count(2), &cfgs));

    let mut t = h.timer_mut(1).unwrap();
    let route = TimerNFsbInterruptRouteRegister::new(0xFEE0_0000, 0x41);
    assert_eq!(
        t.configure_interrupt(InterruptConfig::Fsb(route)),
        Err(HpetError::CapabilityUnsupported)
    );
    assert_eq!(t.interrupt_mode(), InterruptMode::IoApic);
    let h = t.release();
    assert_eq!(h.registers().timers[1].fsb_interrupt_route_register.raw(), 0);

    let mut t = h.timer_mut(0).unwrap();
    assert_eq!(t.configure_interrupt(InterruptConfig::Fsb(route)), Ok(()));
    assert_eq!(t.interrupt_mode(), InterruptMode::Fsb);
    let h = t.release();
    let stored = h.registers().timers[0].fsb_interrupt_route_register;
    assert_eq!(stored.fsb_int_addr(), 0xFEE0_0000);
    assert_eq!(stored.fsb_int_val(), 0x41);
    assert!(h.registers().timers[0].configuration_and_capability_register.get_fsb_en_cnf());
}

#[test]
fn configure_interrupt_only_touches_its_timer() {
    let mut cfgs = [0u64; 32];
    cfgs[0] = 0xAAAA;
    cfgs[1] = (0xFFu64 << 32) | (1 << 15);
    cfgs[2] = 0x5554;
    let h = Hpet::new(make_memory(caps_with_count(3), &cfgs));
    let mut t = h.timer_mut(1).unwrap();
    assert_eq!(t.configure_interrupt(InterruptConfig::IoApic(3)), Ok(()));
    let h = t.release();
    assert_eq!(h.registers().timers[0].configuration_and_capability_register.raw(), 0xAAAA);
    assert_eq!(h.registers().timers[2].configuration_and_capability_register.raw(), 0x5554);
    assert_eq!(h.registers().main_counter_value_register, 0);
}

#[test]
fn set_interrupt_enable_touches_one_bit() {
    let mut cfgs = [0u64; 32];
    cfgs[0] = (0xFFu64 << 32) | (1 << 15) | (1 << 1);
    let h = Hpet::new(make_memory(caps_with_count(1), &cfgs));
    let mut t = h.timer_mut(0).unwrap();
    t.set_interrupt_enable(true);
    let h = t.release();
    assert_eq!(
        h.registers().timers[0].configuration_and_capability_register.raw(),
        (0xFFu64 << 32) | (1 << 15) | (1 << 2) | (1 << 1)
    );
    let mut t = h.timer_mut(0).unwrap();
    t.set_interrupt_enable(false);
    let h = t.release();
    assert_eq!(
        h.registers().timers[0].configuration_and_capability_register.raw(),
        (0xFFu64 << 32) | (1 << 15) | (1 << 1)
    );
}

#[test]
fn set_comparator_value_writes_directly() {
    let h = Hpet::new(make_memory(caps_with_count(2), &[0u64; 32]));
    let mut t = h.timer_mut(1).unwrap();
    t.set_comparator_value(0x1234_5678_9ABC_DEF0);
    let h = t.release();
    assert_eq!(h.registers().timers[1].comparator_register, 0x1234_5678_9ABC_DEF0);
    assert_eq!(h.registers().timers[0].comparator_register, 0);
}

#[test]
fn timers_iterator_yields_each_timer_ascending_and_restarts() {
    let mut cfgs = [0u64; 32];
    // Give slot i the supported-line mask 1 << i so the yielded views are
    // distinguishable and their order observable.
    for i in 0..32 {
        cfgs[i] = (1u64 << i) << 32;
    }
    let h = Hpet::new(make_memory(caps_with_count(5), &cfgs));

    let mut first = Vec::new();
    let mut it = h.timers();
    while let Some(t) = it.next() {
        first.push(t.supported_io_apic_interrupts());
    }
    assert_eq!(first, vec![1 << 0, 1 << 1, 1 << 2, 1 << 3, 1 << 4]);
    assert_eq!(first.len(), h.timers_count() as usize);
    // A second traversal yields the identical run.
    let mut second = Vec::new();
    let mut it = h.timers();
    while let Some(t) = it.next() {
        second.push(t.supported_io_apic_interrupts());
    }
    assert_eq!(first, second);
}

#[test]
fn timers_iterator_covers_a_full_device() {
    let h = Hpet::new(make_memory(caps_with_count(32), &[0u64; 32]));
    let mut yielded = 0usize;
    let mut it = h.timers();
    while it.next().is_some() {
        yielded += 1;
    }
    assert_eq!(yielded, 32);
}

#[test]
fn io_apic_route_update_is_a_pure_transaction() {
    let cfg = TimerNConfigurationAndCapabilityRegister::from_raw(((1u64 << 9) << 32) | (1 << 14));
    match hpet::io_apic_route_update(cfg, 9) {
        Ok(c) => {
            assert_eq!(c.get_int_route_cnf(), 9);
            assert!(!c.get_fsb_en_cnf());
            assert_eq!(c.get_int_route_cap(), 1 << 9);
        }
        Err(_) => panic!("line 9 is supported"),
    }
    assert_eq!(
        hpet::io_apic_route_update(cfg, 8).err(),
        Some(HpetError::CapabilityUnsupported)
    );
}

#[test]
fn fsb_enable_update_is_a_pure_transaction() {
    let capable = TimerNConfigurationAndCapabilityRegister::from_raw(1 << 15);
    match hpet::fsb_enable_update(capable) {
        Ok(c) => assert_eq!(c.raw(), (1 << 15) | (1 << 14)),
        Err(_) => panic!("FSB is supported"),
    }
    let incapable = TimerNConfigurationAndCapabilityRegister::from_raw(0);
    assert_eq!(
        hpet::fsb_enable_update(incapable).err(),
        Some(HpetError::CapabilityUnsupported)
    );
}
