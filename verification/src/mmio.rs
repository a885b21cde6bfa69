//! Register layout and bitfield codecs for the HPET register block.
//!
//! The HPET exposes its registers as a fixed memory-mapped block: general
//! capability/configuration/status registers, the 64-bit main counter, and
//! 32 timer register blocks of 32 bytes each. The byte offsets below are the
//! wire-format contract with the hardware; the codec types map each raw
//! 64-bit register value to and from its named sub-fields, bit-exactly.

use vstd::prelude::*;

verus! {

/// Byte offset of the Capabilities & ID register (read-only).
pub const CAPABILITIES_AND_ID_OFFSET: usize = 0x000;
/// Byte offset of the General Configuration register.
pub const GENERAL_CONFIGURATION_OFFSET: usize = 0x010;
/// Byte offset of the General Interrupt Status register.
pub const GENERAL_INTERRUPT_STATUS_OFFSET: usize = 0x020;
/// Byte offset of the Main Counter Value register.
pub const MAIN_COUNTER_VALUE_OFFSET: usize = 0x0F0;
/// Byte offset of the first timer register block.
pub const TIMERS_BASE_OFFSET: usize = 0x100;
/// Size in bytes of one timer register block.
pub const TIMER_BLOCK_SIZE: usize = 0x20;
/// Number of timer register blocks in the layout. The device reports how many
/// of them are populated; the memory for all 32 is always present.
pub const TIMER_SLOT_COUNT: usize = 32;
/// Total size in bytes of the HPET register block: general registers up to
/// offset 0x100, followed by 32 timer blocks of 32 bytes each.
pub const HPET_MMIO_SIZE: usize = 0x500;

/// Byte offset, within one timer block, of its Configuration & Capability register.
pub const TIMER_CONFIGURATION_OFFSET: usize = 0x00;
/// Byte offset, within one timer block, of its Comparator register.
pub const TIMER_COMPARATOR_OFFSET: usize = 0x08;
/// Byte offset, within one timer block, of its FSB Interrupt Route register.
pub const TIMER_FSB_ROUTE_OFFSET: usize = 0x10;

/// True iff bit `i` of `raw` is set.
pub open spec fn spec_get_bit(raw: u64, i: u64) -> bool {
    (raw >> i) & 1 == 1
}

/// `raw` with bit `i` set to `v` and every other bit unchanged.
pub open spec fn spec_set_bit(raw: u64, i: u64, v: bool) -> u64 {
    if v {
        raw | (1u64 << i)
    } else {
        raw & !(1u64 << i)
    }
}

// ---------------------------------------------------------------------------
// General Capabilities & ID register (offset 0x000, read-only)
// ---------------------------------------------------------------------------

/// `COUNTER_CLK_PERIOD`: bits 63..=32, main counter tick period in femtoseconds.
pub open spec fn spec_counter_clk_period(raw: u64) -> u32 {
    ((raw >> 32) & 0xFFFF_FFFF) as u32
}

/// `VENDOR_ID`: bits 31..=16.
pub open spec fn spec_vendor_id(raw: u64) -> u16 {
    ((raw >> 16) & 0xFFFF) as u16
}

/// `LEG_RT_CAP`: bit 15, legacy-replacement route capability.
pub open spec fn spec_leg_rt_cap(raw: u64) -> bool {
    spec_get_bit(raw, 15)
}

/// `COUNT_SIZE_CAP`: bit 13, set iff the main counter is 64 bits wide.
pub open spec fn spec_count_size_cap(raw: u64) -> bool {
    spec_get_bit(raw, 13)
}

/// `NUM_TIM_CAP`: bits 12..=8, the index of the last timer (timer count minus one).
pub open spec fn spec_num_tim_cap(raw: u64) -> u8 {
    ((raw >> 8) & 0x1F) as u8
}

/// `REV_ID`: bits 7..=0, hardware revision.
pub open spec fn spec_rev_id(raw: u64) -> u8 {
    (raw & 0xFF) as u8
}

/// The raw Capabilities & ID value whose fields take exactly the given values
/// and whose reserved bit (bit 14) is clear.
pub open spec fn spec_caps_encode(
    counter_clk_period: u32,
    vendor_id: u16,
    leg_rt_cap: bool,
    count_size_cap: bool,
    num_tim_cap: u8,
    rev_id: u8,
) -> u64 {
    ((counter_clk_period as u64) << 32) | ((vendor_id as u64) << 16)
        | (if leg_rt_cap { 1u64 << 15 } else { 0u64 })
        | (if count_size_cap { 1u64 << 13 } else { 0u64 })
        | (((num_tim_cap as u64) & 0x1F) << 8) | (rev_id as u64)
}

/// General Capabilities & ID register: read-only identification and
/// capability fields of the whole device.
#[derive(Clone, Copy, Debug, PartialEq, Eq, Structural)]
pub struct HpetGeneralCapabilitiesAndIdRegister {
    raw: u64,
}

impl View for HpetGeneralCapabilitiesAndIdRegister {
    type V = u64;

    closed spec fn view(&self) -> u64 {
        self.raw
    }
}

impl HpetGeneralCapabilitiesAndIdRegister {
    /// Wraps a raw 64-bit register value as read from the device.
    pub fn from_raw(raw: u64) -> (r: Self)
        ensures
            r@ == raw,
    {
        Self { raw }
    }

    /// Builds the register value whose fields take exactly the given values.
    /// `num_tim_cap` is masked to its 5-bit field.
    pub fn from_fields(
        counter_clk_period: u32,
        vendor_id: u16,
        leg_rt_cap: bool,
        count_size_cap: bool,
        num_tim_cap: u8,
        rev_id: u8,
    ) -> (r: Self)
        ensures
            r@ == spec_caps_encode(
                counter_clk_period,
                vendor_id,
                leg_rt_cap,
                count_size_cap,
                num_tim_cap,
                rev_id,
            ),
    {
        Self {
            raw: ((counter_clk_period as u64) << 32) | ((vendor_id as u64) << 16)
                | (if leg_rt_cap { 1u64 << 15 } else { 0u64 })
                | (if count_size_cap { 1u64 << 13 } else { 0u64 })
                | (((num_tim_cap as u64) & 0x1F) << 8) | (rev_id as u64),
        }
    }

    /// The raw 64-bit register value.
    pub fn raw(&self) -> (r: u64)
        ensures
            r == self@,
    {
        self.raw
    }

    /// Main counter tick period in femtoseconds (bits 63..=32).
    pub fn get_counter_clk_period(&self) -> (r: u32)
        ensures
            r == spec_counter_clk_period(self@),
    {
        ((self.raw >> 32) & 0xFFFF_FFFF) as u32
    }

    /// Vendor ID (bits 31..=16).
    pub fn get_vendor_id(&self) -> (r: u16)
        ensures
            r == spec_vendor_id(self@),
    {
        ((self.raw >> 16) & 0xFFFF) as u16
    }

    /// Legacy-replacement route capability (bit 15).
    pub fn get_leg_rt_cap(&self) -> (r: bool)
        ensures
            r == spec_leg_rt_cap(self@),
    {
        (self.raw >> 15) & 1 == 1
    }

    /// Set iff the main counter is 64 bits wide (bit 13).
    pub fn get_count_size_cap(&self) -> (r: bool)
        ensures
            r == spec_count_size_cap(self@),
    {
        (self.raw >> 13) & 1 == 1
    }

    /// Timer count minus one (bits 12..=8).
    pub fn get_num_tim_cap(&self) -> (r: u8)
        ensures
            r == spec_num_tim_cap(self@),
    {
        ((self.raw >> 8) & 0x1F) as u8
    }

    /// Hardware revision (bits 7..=0).
    pub fn get_rev_id(&self) -> (r: u8)
        ensures
            r == spec_rev_id(self@),
    {
        (self.raw & 0xFF) as u8
    }
}

/// Law: decoding every field of the Capabilities & ID register and re-encoding
/// them reproduces the raw value exactly, for every bit pattern whose reserved
/// bit (bit 14) is clear.
pub proof fn lemma_caps_round_trip(raw: u64)
    by (bit_vector)
    requires
        raw & 0x4000 == 0,
    ensures
        spec_caps_encode(
            spec_counter_clk_period(raw),
            spec_vendor_id(raw),
            spec_leg_rt_cap(raw),
            spec_count_size_cap(raw),
            spec_num_tim_cap(raw),
            spec_rev_id(raw),
        ) == raw,
{
}

/// The five-bit `NUM_TIM_CAP` field never exceeds 31, so the timer count
/// (the field plus one) always lies in 1..=32.
pub proof fn lemma_num_tim_cap_range(raw: u64)
    by (bit_vector)
    ensures
        spec_num_tim_cap(raw) < 32,
{
}

// ---------------------------------------------------------------------------
// General Configuration register (offset 0x010, read-write)
// ---------------------------------------------------------------------------

/// `LEG_RT_CNF`: bit 1, legacy-replacement route enable.
pub open spec fn spec_legacy_replacement_cnf(raw: u64) -> bool {
    spec_get_bit(raw, 1)
}

/// `ENABLE_CNF`: bit 0, overall enable. While clear the main counter halts and
/// no timer raises interrupts.
pub open spec fn spec_enable_cnf(raw: u64) -> bool {
    spec_get_bit(raw, 0)
}

/// `raw` with `LEG_RT_CNF` set to `v`.
pub open spec fn spec_with_legacy_replacement_cnf(raw: u64, v: bool) -> u64 {
    spec_set_bit(raw, 1, v)
}

/// `raw` with `ENABLE_CNF` set to `v`.
pub open spec fn spec_with_enable_cnf(raw: u64, v: bool) -> u64 {
    spec_set_bit(raw, 0, v)
}

/// General Configuration register: overall enable and legacy-replacement
/// routing enable.
#[derive(Clone, Copy, Debug, PartialEq, Eq, Structural)]
pub struct HpetGeneralConfigurationRegister {
    raw: u64,
}

impl View for HpetGeneralConfigurationRegister {
    type V = u64;

    closed spec fn view(&self) -> u64 {
        self.raw
    }
}

impl HpetGeneralConfigurationRegister {
    /// Wraps a raw 64-bit register value as read from the device.
    pub fn from_raw(raw: u64) -> (r: Self)
        ensures
            r@ == raw,
    {
        Self { raw }
    }

    /// The raw 64-bit register value.
    pub fn raw(&self) -> (r: u64)
        ensures
            r == self@,
    {
        self.raw
    }

    /// Legacy-replacement route enable (bit 1).
    pub fn get_legacy_replacement_cnf(&self) -> (r: bool)
        ensures
            r == spec_legacy_replacement_cnf(self@),
    {
        (self.raw >> 1) & 1 == 1
    }

    /// Sets the legacy-replacement route enable bit, leaving all other bits
    /// unchanged.
    pub fn set_legacy_replacement_cnf(&mut self, v: bool)
        ensures
            final(self)@ == spec_with_legacy_replacement_cnf(old(self)@, v),
    {
        if v {
            self.raw = self.raw | (1u64 << 1);
        } else {
            self.raw = self.raw & !(1u64 << 1);
        }
    }

    /// Overall enable (bit 0).
    pub fn get_enable_cnf(&self) -> (r: bool)
        ensures
            r == spec_enable_cnf(self@),
    {
        (self.raw >> 0) & 1 == 1
    }

    /// Sets the overall enable bit, leaving all other bits unchanged.
    pub fn set_enable_cnf(&mut self, v: bool)
        ensures
            final(self)@ == spec_with_enable_cnf(old(self)@, v),
    {
        if v {
            self.raw = self.raw | (1u64 << 0);
        } else {
            self.raw = self.raw & !(1u64 << 0);
        }
    }
}

// ---------------------------------------------------------------------------
// General Interrupt Status register (offset 0x020, write-1-to-clear bits)
// ---------------------------------------------------------------------------

/// `Tn_INT_STS`: bit `n`, timer `n` interrupt active (level-triggered mode).
pub open spec fn spec_t_n_int_sts(raw: u64, n: u64) -> bool {
    spec_get_bit(raw, n)
}

/// `raw` with timer `n`'s interrupt-status bit set to `v`.
pub open spec fn spec_with_t_n_int_sts(raw: u64, n: u64, v: bool) -> u64 {
    spec_set_bit(raw, n, v)
}

/// General Interrupt Status register: one interrupt-active bit per timer.
/// On the device these bits are write-1-to-clear; the codec itself only maps
/// bit positions.
#[derive(Clone, Copy, Debug, PartialEq, Eq, Structural)]
pub struct HpetGeneralInterruptStatusRegister {
    raw: u64,
}

impl View for HpetGeneralInterruptStatusRegister {
    type V = u64;

    closed spec fn view(&self) -> u64 {
        self.raw
    }
}

impl HpetGeneralInterruptStatusRegister {
    /// Wraps a raw 64-bit register value as read from the device.
    pub fn from_raw(raw: u64) -> (r: Self)
        ensures
            r@ == raw,
    {
        Self { raw }
    }

    /// The raw 64-bit register value.
    pub fn raw(&self) -> (r: u64)
        ensures
            r == self@,
    {
        self.raw
    }

    /// Timer `n`'s interrupt-active bit.
    pub fn get_t_n_int_sts(&self, n: usize) -> (r: bool)
        requires
            n < TIMER_SLOT_COUNT,
        ensures
            r == spec_t_n_int_sts(self@, n as u64),
    {
        (self.raw >> (n as u64)) & 1 == 1
    }

    /// Sets timer `n`'s interrupt-status bit, leaving all other bits unchanged.
    pub fn set_t_n_int_sts(&mut self, n: usize, v: bool)
        requires
            n < TIMER_SLOT_COUNT,
        ensures
            final(self)@ == spec_with_t_n_int_sts(old(self)@, n as u64, v),
    {
        if v {
            self.raw = self.raw | (1u64 << (n as u64));
        } else {
            self.raw = self.raw & !(1u64 << (n as u64));
        }
    }
}

// ---------------------------------------------------------------------------
// Timer N Configuration & Capability register (per-timer offset 0x00)
// ---------------------------------------------------------------------------

/// `Tn_INT_ROUTE_CAP`: bits 63..=32, bitmask of the I/O APIC lines this timer
/// can route its interrupt to.
pub open spec fn spec_int_route_cap(raw: u64) -> u32 {
    ((raw >> 32) & 0xFFFF_FFFF) as u32
}

/// `Tn_FSB_INT_DEL_CAP`: bit 15, FSB interrupt delivery capability (read-only).
pub open spec fn spec_fsb_int_del_cap(raw: u64) -> bool {
    spec_get_bit(raw, 15)
}

/// `Tn_FSB_EN_CNF`: bit 14, FSB interrupt delivery enable. While set, the
/// I/O APIC route field is ignored by the hardware.
pub open spec fn spec_fsb_en_cnf(raw: u64) -> bool {
    spec_get_bit(raw, 14)
}

/// `raw` with `Tn_FSB_EN_CNF` set to `v`.
pub open spec fn spec_with_fsb_en_cnf(raw: u64, v: bool) -> u64 {
    spec_set_bit(raw, 14, v)
}

/// `Tn_INT_ROUTE_CNF`: bits 13..=9, the selected I/O APIC line.
pub open spec fn spec_int_route_cnf(raw: u64) -> u8 {
    ((raw >> 9) & 0x1F) as u8
}

/// `raw` with `Tn_INT_ROUTE_CNF` set to `irq` (masked to its 5-bit field).
pub open spec fn spec_with_int_route_cnf(raw: u64, irq: u8) -> u64 {
    (raw & !0x3E00u64) | (((irq as u64) & 0x1F) << 9)
}

/// `Tn_32MODE_CNF`: bit 8, force a 64-bit timer to behave as 32-bit.
pub open spec fn spec_32_mode_cnf(raw: u64) -> bool {
    spec_get_bit(raw, 8)
}

/// `raw` with `Tn_32MODE_CNF` set to `v`.
pub open spec fn spec_with_32_mode_cnf(raw: u64, v: bool) -> u64 {
    spec_set_bit(raw, 8, v)
}

/// `Tn_VAL_SET_CNF`: bit 6, allow a direct write to a periodic timer's
/// accumulator (self-clearing on the device).
pub open spec fn spec_val_set_cnf(raw: u64) -> bool {
    spec_get_bit(raw, 6)
}

/// `raw` with `Tn_VAL_SET_CNF` set to `v`.
pub open spec fn spec_with_val_set_cnf(raw: u64, v: bool) -> u64 {
    spec_set_bit(raw, 6, v)
}

/// `Tn_SIZE_CAP`: bit 5, set iff this timer is 64 bits wide (read-only).
pub open spec fn spec_size_cap(raw: u64) -> bool {
    spec_get_bit(raw, 5)
}

/// `Tn_PER_INT_CAP`: bit 4, periodic-mode capability (read-only).
pub open spec fn spec_per_int_cp(raw: u64) -> bool {
    spec_get_bit(raw, 4)
}

/// `Tn_TYPE_CNF`: bit 3, periodic-mode enable.
pub open spec fn spec_type_cnf(raw: u64) -> bool {
    spec_get_bit(raw, 3)
}

/// `raw` with `Tn_TYPE_CNF` set to `v`.
pub open spec fn spec_with_type_cnf(raw: u64, v: bool) -> u64 {
    spec_set_bit(raw, 3, v)
}

/// `Tn_INT_ENB_CNF`: bit 2, interrupt enable.
pub open spec fn spec_int_enb_cnf(raw: u64) -> bool {
    spec_get_bit(raw, 2)
}

/// `raw` with `Tn_INT_ENB_CNF` set to `v`.
pub open spec fn spec_with_int_enb_cnf(raw: u64, v: bool) -> u64 {
    spec_set_bit(raw, 2, v)
}

/// `Tn_INT_TYPE_CNF`: bit 1, level-triggered (set) versus edge-triggered (clear).
pub open spec fn spec_int_type_cnf(raw: u64) -> bool {
    spec_get_bit(raw, 1)
}

/// `raw` with `Tn_INT_TYPE_CNF` set to `v`.
pub open spec fn spec_with_int_type_cnf(raw: u64, v: bool) -> u64 {
    spec_set_bit(raw, 1, v)
}

/// Timer Configuration & Capability register: a timer's read-only capability
/// fields and read-write routing/mode configuration.
#[derive(Clone, Copy, Debug, PartialEq, Eq, Structural)]
pub struct TimerNConfigurationAndCapabilityRegister {
    raw: u64,
}

impl View for TimerNConfigurationAndCapabilityRegister {
    type V = u64;

    closed spec fn view(&self) -> u64 {
        self.raw
    }
}

impl TimerNConfigurationAndCapabilityRegister {
    /// Wraps a raw 64-bit register value as read from the device.
    pub fn from_raw(raw: u64) -> (r: Self)
        ensures
            r@ == raw,
    {
        Self { raw }
    }

    /// The raw 64-bit register value.
    pub fn raw(&self) -> (r: u64)
        ensures
            r == self@,
    {
        self.raw
    }

    /// Bitmask of the supported I/O APIC lines (bits 63..=32).
    pub fn get_int_route_cap(&self) -> (r: u32)
        ensures
            r == spec_int_route_cap(self@),
    {
        ((self.raw >> 32) & 0xFFFF_FFFF) as u32
    }

    /// FSB interrupt delivery capability (bit 15).
    pub fn get_fsb_int_del_cap(&self) -> (r: bool)
        ensures
            r == spec_fsb_int_del_cap(self@),
    {
        (self.raw >> 15) & 1 == 1
    }

    /// FSB interrupt delivery enable (bit 14).
    pub fn get_fsb_en_cnf(&self) -> (r: bool)
        ensures
            r == spec_fsb_en_cnf(self@),
    {
        (self.raw >> 14) & 1 == 1
    }

    /// Sets the FSB delivery enable bit, leaving all other bits unchanged.
    pub fn set_fsb_en_cnf(&mut self, v: bool)
        ensures
            final(self)@ == spec_with_fsb_en_cnf(old(self)@, v),
    {
        if v {
            self.raw = self.raw | (1u64 << 14);
        } else {
            self.raw = self.raw & !(1u64 << 14);
        }
    }

    /// The selected I/O APIC line (bits 13..=9).
    pub fn get_int_route_cnf(&self) -> (r: u8)
        ensures
            r == spec_int_route_cnf(self@),
    {
        ((self.raw >> 9) & 0x1F) as u8
    }

    /// Sets the I/O APIC line field to `irq` (masked to 5 bits), leaving all
    /// other bits unchanged.
    pub fn set_int_route_cnf(&mut self, irq: u8)
        ensures
            final(self)@ == spec_with_int_route_cnf(old(self)@, irq),
    {
        self.raw = (self.raw & !0x3E00u64) | (((irq as u64) & 0x1F) << 9);
    }

    /// Force-32-bit-mode bit (bit 8).
    pub fn get_32_mode_cnf(&self) -> (r: bool)
        ensures
            r == spec_32_mode_cnf(self@),
    {
        (self.raw >> 8) & 1 == 1
    }

    /// Sets the force-32-bit-mode bit, leaving all other bits unchanged.
    pub fn set_32_mode_cnf(&mut self, v: bool)
        ensures
            final(self)@ == spec_with_32_mode_cnf(old(self)@, v),
    {
        if v {
            self.raw = self.raw | (1u64 << 8);
        } else {
            self.raw = self.raw & !(1u64 << 8);
        }
    }

    /// Periodic-accumulator set bit (bit 6).
    pub fn get_val_set_cnf(&self) -> (r: bool)
        ensures
            r == spec_val_set_cnf(self@),
    {
        (self.raw >> 6) & 1 == 1
    }

    /// Sets the periodic-accumulator set bit, leaving all other bits unchanged.
    pub fn set_val_set_cnf(&mut self, v: bool)
        ensures
            final(self)@ == spec_with_val_set_cnf(old(self)@, v),
    {
        if v {
            self.raw = self.raw | (1u64 << 6);
        } else {
            self.raw = self.raw & !(1u64 << 6);
        }
    }

    /// Set iff this timer is 64 bits wide (bit 5).
    pub fn get_size_cap(&self) -> (r: bool)
        ensures
            r == spec_size_cap(self@),
    {
        (self.raw >> 5) & 1 == 1
    }

    /// Periodic-mode capability (bit 4).
    pub fn get_per_int_cp(&self) -> (r: bool)
        ensures
            r == spec_per_int_cp(self@),
    {
        (self.raw >> 4) & 1 == 1
    }

    /// Periodic-mode enable (bit 3).
    pub fn get_type_cnf(&self) -> (r: bool)
        ensures
            r == spec_type_cnf(self@),
    {
        (self.raw >> 3) & 1 == 1
    }

    /// Sets the periodic-mode enable bit, leaving all other bits unchanged.
    pub fn set_type_cnf(&mut self, v: bool)
        ensures
            final(self)@ == spec_with_type_cnf(old(self)@, v),
    {
        if v {
            self.raw = self.raw | (1u64 << 3);
        } else {
            self.raw = self.raw & !(1u64 << 3);
        }
    }

    /// Interrupt enable (bit 2).
    pub fn get_int_enb_cnf(&self) -> (r: bool)
        ensures
            r == spec_int_enb_cnf(self@),
    {
        (self.raw >> 2) & 1 == 1
    }

    /// Sets the interrupt-enable bit, leaving all other bits unchanged.
    pub fn set_int_enb_cnf(&mut self, v: bool)
        ensures
            final(self)@ == spec_with_int_enb_cnf(old(self)@, v),
    {
        if v {
            self.raw = self.raw | (1u64 << 2);
        } else {
            self.raw = self.raw & !(1u64 << 2);
        }
    }

    /// Level-versus-edge trigger mode (bit 1).
    pub fn get_int_type_cnf(&self) -> (r: bool)
        ensures
            r == spec_int_type_cnf(self@),
    {
        (self.raw >> 1) & 1 == 1
    }

    /// Sets the trigger-mode bit, leaving all other bits unchanged.
    pub fn set_int_type_cnf(&mut self, v: bool)
        ensures
            final(self)@ == spec_with_int_type_cnf(old(self)@, v),
    {
        if v {
            self.raw = self.raw | (1u64 << 1);
        } else {
            self.raw = self.raw & !(1u64 << 1);
        }
    }
}

// ---------------------------------------------------------------------------
// Timer N FSB Interrupt Route register (per-timer offset 0x10)
// ---------------------------------------------------------------------------

/// FSB message address: bits 63..=32.
pub open spec fn spec_fsb_int_addr(raw: u64) -> u32 {
    ((raw >> 32) & 0xFFFF_FFFF) as u32
}

/// FSB message value: bits 31..=0.
pub open spec fn spec_fsb_int_val(raw: u64) -> u32 {
    (raw & 0xFFFF_FFFF) as u32
}

/// The raw FSB route value holding exactly the given address/value pair.
pub open spec fn spec_fsb_route_encode(addr: u32, val: u32) -> u64 {
    ((addr as u64) << 32) | (val as u64)
}

/// Timer FSB Interrupt Route register: the memory address and value of the
/// message the timer writes to deliver an FSB interrupt.
#[derive(Clone, Copy, Debug, PartialEq, Eq, Structural)]
pub struct TimerNFsbInterruptRouteRegister {
    raw: u64,
}

impl View for TimerNFsbInterruptRouteRegister {
    type V = u64;

    closed spec fn view(&self) -> u64 {
        self.raw
    }
}

impl TimerNFsbInterruptRouteRegister {
    /// Wraps a raw 64-bit register value as read from the device.
    pub fn from_raw(raw: u64) -> (r: Self)
        ensures
            r@ == raw,
    {
        Self { raw }
    }

    /// Builds the route holding exactly the given message address and value.
    pub fn new(fsb_int_addr: u32, fsb_int_val: u32) -> (r: Self)
        ensures
            r@ == spec_fsb_route_encode(fsb_int_addr, fsb_int_val),
            spec_fsb_int_addr(r@) == fsb_int_addr,
            spec_fsb_int_val(r@) == fsb_int_val,
    {
        let raw: u64 = ((fsb_int_addr as u64) << 32) | (fsb_int_val as u64);
        proof {
            lemma_fsb_route_round_trip(fsb_int_addr, fsb_int_val);
        }
        Self { raw }
    }

    /// The raw 64-bit register value.
    pub fn raw(&self) -> (r: u64)
        ensures
            r == self@,
    {
        self.raw
    }

    /// FSB message address (bits 63..=32).
    pub fn fsb_int_addr(&self) -> (r: u32)
        ensures
            r == spec_fsb_int_addr(self@),
    {
        ((self.raw >> 32) & 0xFFFF_FFFF) as u32
    }

    /// Sets the message address, leaving the message value unchanged.
    pub fn set_fsb_int_addr(&mut self, addr: u32)
        ensures
            final(self)@ == spec_fsb_route_encode(addr, spec_fsb_int_val(old(self)@)),
    {
        self.raw = ((addr as u64) << 32) | (self.raw & 0xFFFF_FFFF);
        proof {
            lemma_fsb_route_set_addr(old(self)@, addr);
        }
    }

    /// FSB message value (bits 31..=0).
    pub fn fsb_int_val(&self) -> (r: u32)
        ensures
            r == spec_fsb_int_val(self@),
    {
        (self.raw & 0xFFFF_FFFF) as u32
    }

    /// Sets the message value, leaving the message address unchanged.
    pub fn set_fsb_int_val(&mut self, val: u32)
        ensures
            final(self)@ == spec_fsb_route_encode(spec_fsb_int_addr(old(self)@), val),
    {
        self.raw = (self.raw & 0xFFFF_FFFF_0000_0000) | (val as u64);
        proof {
            lemma_fsb_route_set_val(old(self)@, val);
        }
    }
}

/// Law: an encoded FSB route decodes to exactly the address/value pair it was
/// built from.
pub proof fn lemma_fsb_route_round_trip(addr: u32, val: u32)
    by (bit_vector)
    ensures
        spec_fsb_int_addr(spec_fsb_route_encode(addr, val)) == addr,
        spec_fsb_int_val(spec_fsb_route_encode(addr, val)) == val,
{
}

proof fn lemma_fsb_route_set_addr(raw: u64, addr: u32)
    by (bit_vector)
    ensures
        ((addr as u64) << 32) | (raw & 0xFFFF_FFFF) == spec_fsb_route_encode(
            addr,
            spec_fsb_int_val(raw),
        ),
{
}

proof fn lemma_fsb_route_set_val(raw: u64, val: u32)
    by (bit_vector)
    ensures
        (raw & 0xFFFF_FFFF_0000_0000) | (val as u64) == spec_fsb_route_encode(
            spec_fsb_int_addr(raw),
            val,
        ),
{
}

// ---------------------------------------------------------------------------
// Register block model
// ---------------------------------------------------------------------------

/// One timer's 32-byte register block: configuration & capability, comparator,
/// and FSB route registers (the block's last 8 bytes are reserved padding and
/// are never read; the layout constants above account for them).
#[derive(Clone, Copy, Debug, PartialEq, Eq, Structural)]
pub struct HpetTimerMemory {
    /// Configuration & Capability register, at offset 0x00 of the block.
    pub configuration_and_capability_register: TimerNConfigurationAndCapabilityRegister,
    /// Comparator register, at offset 0x08 of the block.
    pub comparator_register: u64,
    /// FSB Interrupt Route register, at offset 0x10 of the block.
    pub fsb_interrupt_route_register: TimerNFsbInterruptRouteRegister,
}

/// The live registers of the HPET register block, in layout order. Reserved
/// byte ranges carry no data and are represented only by the layout constants.
#[derive(Clone, Debug)]
pub struct HpetMemory {
    /// Capabilities & ID register, at offset 0x000 (read-only on the device).
    pub capabilities_and_id: HpetGeneralCapabilitiesAndIdRegister,
    /// General Configuration register, at offset 0x010.
    pub config: HpetGeneralConfigurationRegister,
    /// General Interrupt Status register, at offset 0x020.
    pub interrupt_status: HpetGeneralInterruptStatusRegister,
    /// Main Counter Value register, at offset 0x0F0.
    pub main_counter_value_register: u64,
    /// The 32 timer register blocks starting at offset 0x100. The device
    /// reports via `NUM_TIM_CAP` how many of them are populated.
    pub timers: Vec<HpetTimerMemory>,
}

impl HpetMemory {
    /// The block is well-formed when it holds exactly one entry per timer slot.
    pub open spec fn wf(&self) -> bool {
        self.timers@.len() == TIMER_SLOT_COUNT
    }
}

} // verus!
