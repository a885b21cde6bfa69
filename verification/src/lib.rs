//! Typed, verified accessor layer over the memory-mapped register block of a
//! High Precision Event Timer (HPET) device: bit-exact register codecs, the
//! block's byte layout, and handle types that enforce the hardware's usage
//! rules (enable gating, timer index bounds, capability-gated interrupt
//! routing) at the API boundary.

mod hpet;
mod mmio;

pub use hpet::HpetError;
pub use hpet::InterruptMode;
pub use hpet::InterruptConfig;
pub use hpet::spec_irq_supported;
pub use hpet::spec_general_regs_unchanged;
pub use hpet::spec_timers_unchanged_except;
pub use hpet::io_apic_route_update;
pub use hpet::fsb_enable_update;
pub use hpet::Hpet;
pub use hpet::HpetTimersIterator;
pub use hpet::spec_yield_seq;
pub use hpet::lemma_timers_iteration;
pub use hpet::HpetTimer;
pub use hpet::HpetTimerMut;
pub use hpet::HpetTimerRef;

pub use mmio::CAPABILITIES_AND_ID_OFFSET;
pub use mmio::GENERAL_CONFIGURATION_OFFSET;
pub use mmio::GENERAL_INTERRUPT_STATUS_OFFSET;
pub use mmio::MAIN_COUNTER_VALUE_OFFSET;
pub use mmio::TIMERS_BASE_OFFSET;
pub use mmio::TIMER_BLOCK_SIZE;
pub use mmio::TIMER_SLOT_COUNT;
pub use mmio::HPET_MMIO_SIZE;
pub use mmio::TIMER_CONFIGURATION_OFFSET;
pub use mmio::TIMER_COMPARATOR_OFFSET;
pub use mmio::TIMER_FSB_ROUTE_OFFSET;
pub use mmio::spec_get_bit;
pub use mmio::spec_set_bit;
pub use mmio::spec_counter_clk_period;
pub use mmio::spec_vendor_id;
pub use mmio::spec_leg_rt_cap;
pub use mmio::spec_count_size_cap;
pub use mmio::spec_num_tim_cap;
pub use mmio::spec_rev_id;
pub use mmio::spec_caps_encode;
pub use mmio::HpetGeneralCapabilitiesAndIdRegister;
pub use mmio::lemma_caps_round_trip;
pub use mmio::lemma_num_tim_cap_range;
pub use mmio::spec_legacy_replacement_cnf;
pub use mmio::spec_enable_cnf;
pub use mmio::spec_with_legacy_replacement_cnf;
pub use mmio::spec_with_enable_cnf;
pub use mmio::HpetGeneralConfigurationRegister;
pub use mmio::spec_t_n_int_sts;
pub use mmio::spec_with_t_n_int_sts;
pub use mmio::HpetGeneralInterruptStatusRegister;
pub use mmio::spec_int_route_cap;
pub use mmio::spec_fsb_int_del_cap;
pub use mmio::spec_fsb_en_cnf;
pub use mmio::spec_with_fsb_en_cnf;
pub use mmio::spec_int_route_cnf;
pub use mmio::spec_with_int_route_cnf;
pub use mmio::spec_32_mode_cnf;
pub use mmio::spec_with_32_mode_cnf;
pub use mmio::spec_val_set_cnf;
pub use mmio::spec_with_val_set_cnf;
pub use mmio::spec_size_cap;
pub use mmio::spec_per_int_cp;
pub use mmio::spec_type_cnf;
pub use mmio::spec_with_type_cnf;
pub use mmio::spec_int_enb_cnf;
pub use mmio::spec_with_int_enb_cnf;
pub use mmio::spec_int_type_cnf;
pub use mmio::spec_with_int_type_cnf;
pub use mmio::TimerNConfigurationAndCapabilityRegister;
pub use mmio::spec_fsb_int_addr;
pub use mmio::spec_fsb_int_val;
pub use mmio::spec_fsb_route_encode;
pub use mmio::TimerNFsbInterruptRouteRegister;
pub use mmio::lemma_fsb_route_round_trip;
pub use mmio::HpetTimerMemory;
pub use mmio::HpetMemory;
