//! Device handles over the HPET register block: a controller handle, scoped
//! read-only and exclusive-mutable timer views, and a restartable iterator
//! over the populated timers.
//!
//! The handles enforce the hardware's documented usage rules at the API
//! boundary: the main counter is writable only while the device is disabled,
//! timer indices are bounded by the device's reported timer count, and
//! interrupt routing is gated on the timer's advertised capabilities.

use vstd::prelude::*;

use crate::mmio::{
    lemma_num_tim_cap_range, spec_count_size_cap, spec_counter_clk_period, spec_enable_cnf,
    spec_fsb_en_cnf, spec_fsb_int_del_cap, spec_int_enb_cnf, spec_int_route_cap,
    spec_int_route_cnf, spec_int_type_cnf, spec_leg_rt_cap, spec_legacy_replacement_cnf,
    spec_num_tim_cap, spec_per_int_cp, spec_rev_id, spec_size_cap, spec_type_cnf,
    spec_with_enable_cnf, spec_with_fsb_en_cnf, spec_with_int_enb_cnf, spec_with_int_route_cnf,
    spec_vendor_id, HpetMemory, HpetTimerMemory, TimerNConfigurationAndCapabilityRegister,
    TimerNFsbInterruptRouteRegister,
};

verus! {

/// The ways a call can violate the device's usage contract. All of these are
/// programming errors, detected synchronously before any register write of
/// the failing operation.
#[derive(Clone, Copy, Debug, PartialEq, Eq, Structural)]
pub enum HpetError {
    /// The main counter was written while the device was enabled.
    InvalidOperation,
    /// A timer index at or beyond the device's reported timer count.
    IndexOutOfRange,
    /// An I/O APIC line outside the timer's supported bitmask, or FSB
    /// delivery on a timer without the FSB capability.
    CapabilityUnsupported,
}

/// How a timer delivers its interrupt, as selected by its FSB-enable bit.
#[derive(Clone, Copy, Debug, PartialEq, Eq, Structural)]
pub enum InterruptMode {
    /// Interrupts are sent through an I/O APIC, which can then route that
    /// interrupt to a Local APIC.
    IoApic,
    /// Interrupts are directly sent to a Local APIC.
    Fsb,
}

/// A requested interrupt routing: either an I/O APIC line or an FSB route.
/// The two-variant choice keeps illegal combinations unrepresentable even
/// though the hardware stores the selection as separate register fields.
#[derive(Clone, Copy, Debug, PartialEq, Eq, Structural)]
pub enum InterruptConfig {
    /// Route through the I/O APIC line carried by the variant.
    IoApic(u8),
    /// Deliver directly as an FSB message with the carried address/value pair.
    Fsb(TimerNFsbInterruptRouteRegister),
}

/// True iff bit `irq` is set in the 32-bit supported-line bitmask `mask`.
pub open spec fn spec_irq_supported(mask: u32, irq: u8) -> bool {
    irq < 32 && mask & (1u32 << (irq as u32)) != 0
}

/// True iff `b` and `a` hold the same general (non-timer) registers.
pub open spec fn spec_general_regs_unchanged(a: HpetMemory, b: HpetMemory) -> bool {
    &&& b.capabilities_and_id == a.capabilities_and_id
    &&& b.config == a.config
    &&& b.interrupt_status == a.interrupt_status
    &&& b.main_counter_value_register == a.main_counter_value_register
}

/// True iff `b` holds the same timer blocks as `a` everywhere but slot `i`.
pub open spec fn spec_timers_unchanged_except(a: HpetMemory, b: HpetMemory, i: int) -> bool {
    &&& b.timers@.len() == a.timers@.len()
    &&& forall|j: int|
        0 <= j < a.timers@.len() && j != i ==> (#[trigger] b.timers@[j]) == a.timers@[j]
}

/// Routing transaction for `InterruptConfig::IoApic`: one read-modify-write
/// of the timer's Configuration & Capability register. Fails, leaving the
/// value untouched, unless bit `irq` is set in the supported-line bitmask;
/// on success it clears FSB-enable and selects line `irq`, changing no other
/// field.
pub fn io_apic_route_update(
    config: TimerNConfigurationAndCapabilityRegister,
    irq: u8,
) -> (r: Result<TimerNConfigurationAndCapabilityRegister, HpetError>)
    ensures
        r is Ok <==> spec_irq_supported(spec_int_route_cap(config@), irq),
        r matches Ok(c) ==> {
            &&& c@ == spec_with_int_route_cnf(spec_with_fsb_en_cnf(config@, false), irq)
            &&& spec_fsb_en_cnf(c@) == false
            &&& spec_int_route_cnf(c@) == irq
            &&& spec_int_route_cap(c@) == spec_int_route_cap(config@)
            &&& spec_fsb_int_del_cap(c@) == spec_fsb_int_del_cap(config@)
            &&& spec_size_cap(c@) == spec_size_cap(config@)
            &&& spec_per_int_cp(c@) == spec_per_int_cp(config@)
            &&& spec_int_enb_cnf(c@) == spec_int_enb_cnf(config@)
            &&& spec_int_type_cnf(c@) == spec_int_type_cnf(config@)
            &&& spec_type_cnf(c@) == spec_type_cnf(config@)
        },
        r matches Err(e) ==> e == HpetError::CapabilityUnsupported,
{
    let mask = config.get_int_route_cap();
    if irq < 32 && mask & (1u32 << (irq as u32)) != 0 {
        let mut c = config;
        c.set_fsb_en_cnf(false);
        c.set_int_route_cnf(irq);
        proof {
            lemma_io_apic_route_effect(config@, irq);
        }
        Ok(c)
    } else {
        Err(HpetError::CapabilityUnsupported)
    }
}

/// Routing transaction for `InterruptConfig::Fsb`: one read-modify-write of
/// the timer's Configuration & Capability register. Fails, leaving the value
/// untouched, unless the timer advertises the FSB delivery capability; on
/// success it sets FSB-enable and changes no other field.
pub fn fsb_enable_update(config: TimerNConfigurationAndCapabilityRegister) -> (r: Result<
    TimerNConfigurationAndCapabilityRegister,
    HpetError,
>)
    ensures
        r is Ok <==> spec_fsb_int_del_cap(config@),
        r matches Ok(c) ==> {
            &&& c@ == spec_with_fsb_en_cnf(config@, true)
            &&& spec_fsb_en_cnf(c@) == true
            &&& spec_int_route_cnf(c@) == spec_int_route_cnf(config@)
            &&& spec_int_route_cap(c@) == spec_int_route_cap(config@)
            &&& spec_fsb_int_del_cap(c@) == spec_fsb_int_del_cap(config@)
            &&& spec_size_cap(c@) == spec_size_cap(config@)
            &&& spec_per_int_cp(c@) == spec_per_int_cp(config@)
            &&& spec_int_enb_cnf(c@) == spec_int_enb_cnf(config@)
            &&& spec_int_type_cnf(c@) == spec_int_type_cnf(config@)
            &&& spec_type_cnf(c@) == spec_type_cnf(config@)
        },
        r matches Err(e) ==> e == HpetError::CapabilityUnsupported,
{
    if config.get_fsb_int_del_cap() {
        let mut c = config;
        c.set_fsb_en_cnf(true);
        proof {
            lemma_fsb_enable_effect(config@);
        }
        Ok(c)
    } else {
        Err(HpetError::CapabilityUnsupported)
    }
}

proof fn lemma_io_apic_route_effect(c: u64, irq: u8)
    by (bit_vector)
    requires
        irq < 32,
    ensures
        spec_fsb_en_cnf(spec_with_int_route_cnf(spec_with_fsb_en_cnf(c, false), irq)) == false,
        spec_int_route_cnf(spec_with_int_route_cnf(spec_with_fsb_en_cnf(c, false), irq)) == irq,
        spec_int_route_cap(spec_with_int_route_cnf(spec_with_fsb_en_cnf(c, false), irq))
            == spec_int_route_cap(c),
        spec_fsb_int_del_cap(spec_with_int_route_cnf(spec_with_fsb_en_cnf(c, false), irq))
            == spec_fsb_int_del_cap(c),
        spec_size_cap(spec_with_int_route_cnf(spec_with_fsb_en_cnf(c, false), irq))
            == spec_size_cap(c),
        spec_per_int_cp(spec_with_int_route_cnf(spec_with_fsb_en_cnf(c, false), irq))
            == spec_per_int_cp(c),
        spec_int_enb_cnf(spec_with_int_route_cnf(spec_with_fsb_en_cnf(c, false), irq))
            == spec_int_enb_cnf(c),
        spec_int_type_cnf(spec_with_int_route_cnf(spec_with_fsb_en_cnf(c, false), irq))
            == spec_int_type_cnf(c),
        spec_type_cnf(spec_with_int_route_cnf(spec_with_fsb_en_cnf(c, false), irq))
            == spec_type_cnf(c),
{
}

proof fn lemma_fsb_enable_effect(c: u64)
    by (bit_vector)
    ensures
        spec_fsb_en_cnf(spec_with_fsb_en_cnf(c, true)) == true,
        spec_int_route_cnf(spec_with_fsb_en_cnf(c, true)) == spec_int_route_cnf(c),
        spec_int_route_cap(spec_with_fsb_en_cnf(c, true)) == spec_int_route_cap(c),
        spec_fsb_int_del_cap(spec_with_fsb_en_cnf(c, true)) == spec_fsb_int_del_cap(c),
        spec_size_cap(spec_with_fsb_en_cnf(c, true)) == spec_size_cap(c),
        spec_per_int_cp(spec_with_fsb_en_cnf(c, true)) == spec_per_int_cp(c),
        spec_int_enb_cnf(spec_with_fsb_en_cnf(c, true)) == spec_int_enb_cnf(c),
        spec_int_type_cnf(spec_with_fsb_en_cnf(c, true)) == spec_int_type_cnf(c),
        spec_type_cnf(spec_with_fsb_en_cnf(c, true)) == spec_type_cnf(c),
{
}

proof fn lemma_int_enb_effect(c: u64, v: bool)
    by (bit_vector)
    ensures
        spec_int_enb_cnf(spec_with_int_enb_cnf(c, v)) == v,
        spec_fsb_en_cnf(spec_with_int_enb_cnf(c, v)) == spec_fsb_en_cnf(c),
        spec_int_route_cnf(spec_with_int_enb_cnf(c, v)) == spec_int_route_cnf(c),
        spec_int_route_cap(spec_with_int_enb_cnf(c, v)) == spec_int_route_cap(c),
        spec_fsb_int_del_cap(spec_with_int_enb_cnf(c, v)) == spec_fsb_int_del_cap(c),
        spec_size_cap(spec_with_int_enb_cnf(c, v)) == spec_size_cap(c),
        spec_per_int_cp(spec_with_int_enb_cnf(c, v)) == spec_per_int_cp(c),
        spec_int_type_cnf(spec_with_int_enb_cnf(c, v)) == spec_int_type_cnf(c),
        spec_type_cnf(spec_with_int_enb_cnf(c, v)) == spec_type_cnf(c),
{
}

proof fn lemma_enable_cnf_effect(c: u64, v: bool)
    by (bit_vector)
    ensures
        spec_enable_cnf(spec_with_enable_cnf(c, v)) == v,
        spec_legacy_replacement_cnf(spec_with_enable_cnf(c, v)) == spec_legacy_replacement_cnf(c),
{
}

/// The controller handle over one device's register block. It models the
/// block's live registers and performs every access of the API through the
/// register codecs, enforcing the hardware's usage rules.
#[derive(Debug)]
pub struct Hpet {
    mmio: HpetMemory,
}

impl Hpet {
    /// The current model of the device's register block.
    pub closed spec fn regs(&self) -> HpetMemory {
        self.mmio
    }

    /// The handle is well-formed when its register block holds one entry per
    /// timer slot. Construction establishes this and every operation keeps it.
    pub open spec fn wf(&self) -> bool {
        self.regs().wf()
    }

    /// The number of populated timers the device reports: the `NUM_TIM_CAP`
    /// field plus one.
    pub open spec fn spec_timers_count(&self) -> u8 {
        (spec_num_tim_cap(self.regs().capabilities_and_id@) + 1) as u8
    }

    /// Wraps a register block. The caller supplies a block with one entry per
    /// timer slot, just as it would supply a mapping of the full
    /// `HPET_MMIO_SIZE` bytes of device memory.
    pub fn new(regs: HpetMemory) -> (h: Hpet)
        requires
            regs.wf(),
        ensures
            h.regs() == regs,
    {
        Hpet { mmio: regs }
    }

    /// Shared read access to the whole register block, as the owner of the
    /// backing memory would have.
    pub fn registers(&self) -> (r: &HpetMemory)
        ensures
            *r == self.regs(),
    {
        &self.mmio
    }

    /// Vendor ID field of the Capabilities & ID register.
    pub fn vendor_id(&self) -> (r: u16)
        ensures
            r == spec_vendor_id(self.regs().capabilities_and_id@),
    {
        self.mmio.capabilities_and_id.get_vendor_id()
    }

    /// The number of timers in this block, always in 1..=32: the reported
    /// index of the last timer, plus one.
    pub fn timers_count(&self) -> (r: u8)
        ensures
            r == self.spec_timers_count(),
            r == spec_num_tim_cap(self.regs().capabilities_and_id@) + 1,
            1 <= r <= 32,
    {
        proof {
            lemma_num_tim_cap_range(self.mmio.capabilities_and_id@);
        }
        self.mmio.capabilities_and_id.get_num_tim_cap() + 1
    }

    /// Get the main counter tick period in femtoseconds.
    pub fn main_counter_tick_period(&self) -> (r: u32)
        ensures
            r == spec_counter_clk_period(self.regs().capabilities_and_id@),
    {
        self.mmio.capabilities_and_id.get_counter_clk_period()
    }

    /// Whether the hardware supports the legacy-replacement interrupt route.
    pub fn legacy_replacement_capable(&self) -> (r: bool)
        ensures
            r == spec_leg_rt_cap(self.regs().capabilities_and_id@),
    {
        self.mmio.capabilities_and_id.get_leg_rt_cap()
    }

    /// Whether the main counter is 64 bits wide.
    pub fn supports_64_bit_mode(&self) -> (r: bool)
        ensures
            r == spec_count_size_cap(self.regs().capabilities_and_id@),
    {
        self.mmio.capabilities_and_id.get_count_size_cap()
    }

    /// Hardware revision ID.
    pub fn revision_id(&self) -> (r: u8)
        ensures
            r == spec_rev_id(self.regs().capabilities_and_id@),
    {
        self.mmio.capabilities_and_id.get_rev_id()
    }

    /// Whether the overall-enable bit is set.
    pub fn get_enable(&self) -> (r: bool)
        ensures
            r == spec_enable_cnf(self.regs().config@),
    {
        self.mmio.config.get_enable_cnf()
    }

    /// Sets the overall-enable bit, leaving every other register and every
    /// other configuration bit unchanged.
    pub fn set_enable(&mut self, enable: bool)
        ensures
            final(self).regs().config@ == spec_with_enable_cnf(old(self).regs().config@, enable),
            spec_enable_cnf(final(self).regs().config@) == enable,
            spec_legacy_replacement_cnf(final(self).regs().config@) == spec_legacy_replacement_cnf(
                old(self).regs().config@,
            ),
            final(self).regs().capabilities_and_id == old(self).regs().capabilities_and_id,
            final(self).regs().interrupt_status == old(self).regs().interrupt_status,
            final(self).regs().main_counter_value_register == old(
                self,
            ).regs().main_counter_value_register,
            final(self).regs().timers@ == old(self).regs().timers@,
    {
        proof {
            lemma_enable_cnf_effect(self.mmio.config@, enable);
        }
        self.mmio.config.set_enable_cnf(enable);
    }

    /// Reads the 64-bit main counter. On hardware whose counter is 32 bits
    /// wide the device itself never reports a value above the 32-bit range.
    pub fn main_counter_value(&self) -> (r: u64)
        ensures
            r == self.regs().main_counter_value_register,
    {
        self.mmio.main_counter_value_register
    }

    /// Writes the main counter. The hardware only permits this while the
    /// device is disabled, so the write is refused with
    /// [`HpetError::InvalidOperation`], and no register changes, whenever the
    /// overall-enable bit is currently set.
    pub fn set_main_counter_value(&mut self, main_counter_value: u64) -> (r: Result<
        (),
        HpetError,
    >)
        ensures
            r is Ok <==> !spec_enable_cnf(old(self).regs().config@),
            r is Ok ==> {
                &&& final(self).regs().main_counter_value_register == main_counter_value
                &&& final(self).regs().capabilities_and_id == old(self).regs().capabilities_and_id
                &&& final(self).regs().config == old(self).regs().config
                &&& final(self).regs().interrupt_status == old(self).regs().interrupt_status
                &&& final(self).regs().timers@ == old(self).regs().timers@
            },
            r is Err ==> final(self).regs() == old(self).regs(),
            r matches Err(e) ==> e == HpetError::InvalidOperation,
    {
        if self.get_enable() {
            Err(HpetError::InvalidOperation)
        } else {
            self.mmio.main_counter_value_register = main_counter_value;
            Ok(())
        }
    }

    /// Whether the legacy-replacement route is currently enabled.
    pub fn get_legacy_replacement_enabled(&self) -> (r: bool)
        ensures
            r == spec_legacy_replacement_cnf(self.regs().config@),
    {
        self.mmio.config.get_legacy_replacement_cnf()
    }

    /// A fresh, restartable traversal over the populated timers, yielding one
    /// read-only view per index in ascending order.
    pub fn timers(&self) -> (it: HpetTimersIterator)
        ensures
            it.controller() == *self,
            it.cursor() == 0,
    {
        HpetTimersIterator { mmio: self, index: 0 }
    }

    /// A read-only view of timer `index`. Fails with
    /// [`HpetError::IndexOutOfRange`] iff `index` is at or beyond the
    /// device's reported timer count.
    pub fn timer(&self, index: u8) -> (r: Result<HpetTimer, HpetError>)
        requires
            self.wf(),
        ensures
            r is Ok <==> index < self.spec_timers_count(),
            r matches Ok(t) ==> {
                &&& t.controller() == *self
                &&& t.timer_index() == index
                &&& t.timer_wf()
            },
            r matches Err(e) ==> e == HpetError::IndexOutOfRange,
    {
        if index >= self.timers_count() {
            Err(HpetError::IndexOutOfRange)
        } else {
            Ok(HpetTimer { hpet: self, index })
        }
    }

    /// An exclusive-mutable view of timer `index`, taking the controller
    /// handle with it so that no other view can coexist; releasing the view
    /// hands the controller back. Fails with [`HpetError::IndexOutOfRange`],
    /// returning the controller unchanged, iff `index` is at or beyond the
    /// device's reported timer count.
    pub fn timer_mut(self, index: u8) -> (r: Result<HpetTimerMut, (Hpet, HpetError)>)
        requires
            self.wf(),
        ensures
            r is Ok <==> index < self.spec_timers_count(),
            r matches Ok(t) ==> {
                &&& t.controller() == self
                &&& t.timer_index() == index
                &&& t.timer_wf()
            },
            r matches Err(e) ==> e.0 == self && e.1 == HpetError::IndexOutOfRange,
    {
        if index >= self.timers_count() {
            Err((self, HpetError::IndexOutOfRange))
        } else {
            Ok(HpetTimerMut { hpet: self, index })
        }
    }
}

/// A lazy, finite, restartable traversal over a controller's populated
/// timers, in ascending index order.
pub struct HpetTimersIterator<'a> {
    mmio: &'a Hpet,
    index: u8,
}

/// The ascending run of timer indices still to be yielded by a traversal of
/// `h` whose cursor stands at `from`.
pub open spec fn spec_yield_seq(h: Hpet, from: u8) -> Seq<u8> {
    if from <= h.spec_timers_count() {
        Seq::new((h.spec_timers_count() - from) as nat, |i: int| (from + i) as u8)
    } else {
        Seq::empty()
    }
}

impl<'a> HpetTimersIterator<'a> {
    /// The controller being traversed.
    pub closed spec fn controller(&self) -> Hpet {
        *self.mmio
    }

    /// The next index to yield.
    pub closed spec fn cursor(&self) -> u8 {
        self.index
    }

    /// Yields a read-only view of the next populated timer, in ascending
    /// index order, or `None` once every populated timer has been yielded.
    pub fn next(&mut self) -> (r: Option<HpetTimer<'a>>)
        requires
            old(self).controller().wf(),
        ensures
            final(self).controller() == old(self).controller(),
            old(self).cursor() < old(self).controller().spec_timers_count() ==> {
                &&& final(self).cursor() == old(self).cursor() + 1
                &&& r matches Some(t) && t.controller() == old(self).controller()
                    && t.timer_index() == old(self).cursor() && t.timer_wf()
                &&& spec_yield_seq(old(self).controller(), old(self).cursor()) == seq![
                    old(self).cursor(),
                ] + spec_yield_seq(old(self).controller(), final(self).cursor())
            },
            old(self).cursor() >= old(self).controller().spec_timers_count() ==> {
                &&& final(self).cursor() == old(self).cursor()
                &&& r is None
                &&& spec_yield_seq(old(self).controller(), old(self).cursor()) == Seq::<
                    u8,
                >::empty()
            },
    {
        if self.index < self.mmio.timers_count() {
            let t = HpetTimer { hpet: self.mmio, index: self.index };
            proof {
                let h = *self.mmio;
                let c = self.index;
                assert(spec_yield_seq(h, c) =~= seq![c] + spec_yield_seq(h, (c + 1) as u8));
            }
            self.index = self.index + 1;
            Some(t)
        } else {
            proof {
                let h = *self.mmio;
                let c = self.index;
                assert(spec_yield_seq(h, c) =~= Seq::<u8>::empty());
            }
            None
        }
    }
}

/// Law: a fresh traversal of `h` yields exactly `timers_count` indices, the
/// i-th of them being i, so the views come in ascending index order. The
/// yielded run is a function of the controller's state alone, so restarting
/// the traversal yields the identical run.
pub proof fn lemma_timers_iteration(h: Hpet)
    requires
        h.wf(),
    ensures
        spec_yield_seq(h, 0).len() == h.spec_timers_count(),
        forall|i: int| 0 <= i < spec_yield_seq(h, 0).len() ==> spec_yield_seq(h, 0)[i] == i,
{
}

/// A read-only view of one timer's register block, borrowed from a
/// controller handle. Any number of read-only views may coexist.
pub struct HpetTimer<'a> {
    hpet: &'a Hpet,
    index: u8,
}

impl<'a> HpetTimer<'a> {
    /// The controller this view was borrowed from.
    pub closed spec fn controller(&self) -> Hpet {
        *self.hpet
    }

    /// The index of the viewed timer.
    pub closed spec fn timer_index(&self) -> u8 {
        self.index
    }
}

/// An exclusive-mutable view of one timer's register block. It holds the
/// whole controller handle for its lifetime, so no other view — read-only or
/// mutable — of any timer can coexist with it.
pub struct HpetTimerMut {
    hpet: Hpet,
    index: u8,
}

impl HpetTimerMut {
    /// The controller held by this view.
    pub closed spec fn controller(&self) -> Hpet {
        self.hpet
    }

    /// The index of the viewed timer.
    pub closed spec fn timer_index(&self) -> u8 {
        self.index
    }

    /// Hands the controller handle back, ending the exclusive borrow.
    pub fn release(self) -> (h: Hpet)
        ensures
            h == self.controller(),
    {
        self.hpet
    }

    /// Selects how this timer delivers its interrupt.
    ///
    /// For [`InterruptConfig::IoApic`] the change is a single
    /// read-modify-write of the Configuration & Capability register: it
    /// fails with [`HpetError::CapabilityUnsupported`] iff the requested
    /// line's bit is clear in the supported-line bitmask, and on success
    /// clears FSB-enable and stores the line, changing nothing else.
    ///
    /// For [`InterruptConfig::Fsb`] it fails with
    /// [`HpetError::CapabilityUnsupported`] iff the timer lacks the FSB
    /// capability; on success it sets FSB-enable and then, as a second,
    /// separate write, stores the supplied route. On failure no register
    /// changes.
    pub fn configure_interrupt(&mut self, interrupt_config: InterruptConfig) -> (r: Result<
        (),
        HpetError,
    >)
        requires
            old(self).timer_wf(),
        ensures
            final(self).timer_index() == old(self).timer_index(),
            final(self).timer_wf(),
            spec_general_regs_unchanged(old(self).controller().regs(), final(self).controller().regs()),
            spec_timers_unchanged_except(
                old(self).controller().regs(),
                final(self).controller().regs(),
                old(self).timer_index() as int,
            ),
            r is Err ==> final(self).controller().regs() == old(self).controller().regs(),
            r matches Err(e) ==> e == HpetError::CapabilityUnsupported,
            match interrupt_config {
                InterruptConfig::IoApic(irq) => {
                    &&& (r is Ok <==> spec_irq_supported(
                        spec_int_route_cap(
                            old(self).timer_regs().configuration_and_capability_register@,
                        ),
                        irq,
                    ))
                    &&& (r is Ok ==> {
                        let ot = old(self).timer_regs();
                        let ft = final(self).timer_regs();
                        &&& ft.configuration_and_capability_register@ == spec_with_int_route_cnf(
                            spec_with_fsb_en_cnf(ot.configuration_and_capability_register@, false),
                            irq,
                        )
                        &&& spec_fsb_en_cnf(ft.configuration_and_capability_register@) == false
                        &&& spec_int_route_cnf(ft.configuration_and_capability_register@) == irq
                        &&& spec_int_route_cap(ft.configuration_and_capability_register@)
                            == spec_int_route_cap(ot.configuration_and_capability_register@)
                        &&& spec_fsb_int_del_cap(ft.configuration_and_capability_register@)
                            == spec_fsb_int_del_cap(ot.configuration_and_capability_register@)
                        &&& spec_size_cap(ft.configuration_and_capability_register@)
                            == spec_size_cap(ot.configuration_and_capability_register@)
                        &&& spec_per_int_cp(ft.configuration_and_capability_register@)
                            == spec_per_int_cp(ot.configuration_and_capability_register@)
                        &&& spec_int_enb_cnf(ft.configuration_and_capability_register@)
                            == spec_int_enb_cnf(ot.configuration_and_capability_register@)
                        &&& ft.comparator_register == ot.comparator_register
                        &&& ft.fsb_interrupt_route_register == ot.fsb_interrupt_route_register
                    })
                },
                InterruptConfig::Fsb(route) => {
                    &&& (r is Ok <==> spec_fsb_int_del_cap(
                        old(self).timer_regs().configuration_and_capability_register@,
                    ))
                    &&& (r is Ok ==> {
                        let ot = old(self).timer_regs();
                        let ft = final(self).timer_regs();
                        &&& ft.configuration_and_capability_register@ == spec_with_fsb_en_cnf(
                            ot.configuration_and_capability_register@,
                            true,
                        )
                        &&& spec_fsb_en_cnf(ft.configuration_and_capability_register@) == true
                        &&& spec_int_route_cap(ft.configuration_and_capability_register@)
                            == spec_int_route_cap(ot.configuration_and_capability_register@)
                        &&& spec_fsb_int_del_cap(ft.configuration_and_capability_register@)
                            == spec_fsb_int_del_cap(ot.configuration_and_capability_register@)
                        &&& spec_int_route_cnf(ft.configuration_and_capability_register@)
                            == spec_int_route_cnf(ot.configuration_and_capability_register@)
                        &&& spec_int_enb_cnf(ft.configuration_and_capability_register@)
                            == spec_int_enb_cnf(ot.configuration_and_capability_register@)
                        &&& ft.fsb_interrupt_route_register == route
                        &&& ft.comparator_register == ot.comparator_register
                    })
                },
            },
    {
        proof {
            lemma_num_tim_cap_range(self.hpet.mmio.capabilities_and_id@);
        }
        let i = self.index as usize;
        match interrupt_config {
            InterruptConfig::IoApic(irq) => {
                let t = self.hpet.mmio.timers[i];
                match io_apic_route_update(t.configuration_and_capability_register, irq) {
                    Ok(c) => {
                        let mut t2 = t;
                        t2.configuration_and_capability_register = c;
                        self.hpet.mmio.timers[i] = t2;
                        Ok(())
                    },
                    Err(e) => Err(e),
                }
            },
            InterruptConfig::Fsb(route) => {
                let t = self.hpet.mmio.timers[i];
                match fsb_enable_update(t.configuration_and_capability_register) {
                    Ok(c) => {
                        let mut t2 = t;
                        t2.configuration_and_capability_register = c;
                        self.hpet.mmio.timers[i] = t2;
                        let mut t3 = self.hpet.mmio.timers[i];
                        t3.fsb_interrupt_route_register = route;
                        self.hpet.mmio.timers[i] = t3;
                        Ok(())
                    },
                    Err(e) => Err(e),
                }
            },
        }
    }

    /// Sets this timer's interrupt-enable bit, leaving every other field of
    /// every register unchanged.
    pub fn set_interrupt_enable(&mut self, enable: bool)
        requires
            old(self).timer_wf(),
        ensures
            final(self).timer_index() == old(self).timer_index(),
            final(self).timer_wf(),
            spec_general_regs_unchanged(old(self).controller().regs(), final(self).controller().regs()),
            spec_timers_unchanged_except(
                old(self).controller().regs(),
                final(self).controller().regs(),
                old(self).timer_index() as int,
            ),
            final(self).timer_regs().configuration_and_capability_register@
                == spec_with_int_enb_cnf(
                old(self).timer_regs().configuration_and_capability_register@,
                enable,
            ),
            spec_int_enb_cnf(final(self).timer_regs().configuration_and_capability_register@)
                == enable,
            spec_fsb_en_cnf(final(self).timer_regs().configuration_and_capability_register@)
                == spec_fsb_en_cnf(old(self).timer_regs().configuration_and_capability_register@),
            spec_int_route_cnf(final(self).timer_regs().configuration_and_capability_register@)
                == spec_int_route_cnf(
                old(self).timer_regs().configuration_and_capability_register@,
            ),
            final(self).timer_regs().comparator_register == old(
                self,
            ).timer_regs().comparator_register,
            final(self).timer_regs().fsb_interrupt_route_register == old(
                self,
            ).timer_regs().fsb_interrupt_route_register,
    {
        proof {
            lemma_num_tim_cap_range(self.hpet.mmio.capabilities_and_id@);
            lemma_int_enb_effect(
                self.hpet.mmio.timers@[self.index as int].configuration_and_capability_register@,
                enable,
            );
        }
        let i = self.index as usize;
        let mut t = self.hpet.mmio.timers[i];
        t.configuration_and_capability_register.set_int_enb_cnf(enable);
        self.hpet.mmio.timers[i] = t;
    }

    /// Writes this timer's comparator register directly, leaving every other
    /// register unchanged. The hardware imposes no precondition on the write
    /// itself; timing considerations around mode transitions are the
    /// caller's responsibility.
    pub fn set_comparator_value(&mut self, comparator_value: u64)
        requires
            old(self).timer_wf(),
        ensures
            final(self).timer_index() == old(self).timer_index(),
            final(self).timer_wf(),
            spec_general_regs_unchanged(old(self).controller().regs(), final(self).controller().regs()),
            spec_timers_unchanged_except(
                old(self).controller().regs(),
                final(self).controller().regs(),
                old(self).timer_index() as int,
            ),
            final(self).timer_regs().comparator_register == comparator_value,
            final(self).timer_regs().configuration_and_capability_register == old(
                self,
            ).timer_regs().configuration_and_capability_register,
            final(self).timer_regs().fsb_interrupt_route_register == old(
                self,
            ).timer_regs().fsb_interrupt_route_register,
    {
        proof {
            lemma_num_tim_cap_range(self.hpet.mmio.capabilities_and_id@);
        }
        let i = self.index as usize;
        let mut t = self.hpet.mmio.timers[i];
        t.comparator_register = comparator_value;
        self.hpet.mmio.timers[i] = t;
    }
}

/// The read-only query surface shared by the read-only and the
/// exclusive-mutable timer views.
pub trait HpetTimerRef {
    /// The model of the viewed timer's register block.
    spec fn timer_regs(&self) -> HpetTimerMemory;

    /// Whether the view is well-formed: its controller is, and its index is
    /// below the device's reported timer count.
    spec fn timer_wf(&self) -> bool;

    /// Shared read access to the viewed timer's register block.
    fn hpet_timer(&self) -> (r: &HpetTimerMemory)
        requires
            self.timer_wf(),
        ensures
            *r == self.timer_regs(),
    ;

    /// The bitmask of I/O APIC lines this timer can route its interrupt to.
    fn supported_io_apic_interrupts(&self) -> (r: u32)
        requires
            self.timer_wf(),
        ensures
            r == spec_int_route_cap(self.timer_regs().configuration_and_capability_register@),
    {
        self.hpet_timer().configuration_and_capability_register.get_int_route_cap()
    }

    /// Whether this timer can deliver its interrupt as an FSB message.
    fn supports_fsb_interrupts(&self) -> (r: bool)
        requires
            self.timer_wf(),
        ensures
            r == spec_fsb_int_del_cap(self.timer_regs().configuration_and_capability_register@),
    {
        self.hpet_timer().configuration_and_capability_register.get_fsb_int_del_cap()
    }

    /// Whether this timer is 64 bits wide.
    fn supports_64_bit_mode(&self) -> (r: bool)
        requires
            self.timer_wf(),
        ensures
            r == spec_size_cap(self.timer_regs().configuration_and_capability_register@),
    {
        self.hpet_timer().configuration_and_capability_register.get_size_cap()
    }

    /// Whether this timer supports periodic mode.
    fn supports_periodic_mode(&self) -> (r: bool)
        requires
            self.timer_wf(),
        ensures
            r == spec_per_int_cp(self.timer_regs().configuration_and_capability_register@),
    {
        self.hpet_timer().configuration_and_capability_register.get_per_int_cp()
    }

    /// The timer's current interrupt delivery mode, read from its FSB-enable
    /// bit: there is no third state.
    fn interrupt_mode(&self) -> (r: InterruptMode)
        requires
            self.timer_wf(),
        ensures
            r == (if spec_fsb_en_cnf(self.timer_regs().configuration_and_capability_register@) {
                InterruptMode::Fsb
            } else {
                InterruptMode::IoApic
            }),
    {
        if self.hpet_timer().configuration_and_capability_register.get_fsb_en_cnf() {
            InterruptMode::Fsb
        } else {
            InterruptMode::IoApic
        }
    }
}

impl<'a> HpetTimerRef for HpetTimer<'a> {
    open spec fn timer_regs(&self) -> HpetTimerMemory {
        self.controller().regs().timers@[self.timer_index() as int]
    }

    open spec fn timer_wf(&self) -> bool {
        self.controller().wf() && self.timer_index() < self.controller().spec_timers_count()
    }

    fn hpet_timer(&self) -> (r: &HpetTimerMemory) {
        proof {
            lemma_num_tim_cap_range(self.hpet.mmio.capabilities_and_id@);
        }
        &self.hpet.mmio.timers[self.index as usize]
    }
}

impl HpetTimerRef for HpetTimerMut {
    open spec fn timer_regs(&self) -> HpetTimerMemory {
        self.controller().regs().timers@[self.timer_index() as int]
    }

    open spec fn timer_wf(&self) -> bool {
        self.controller().wf() && self.timer_index() < self.controller().spec_timers_count()
    }

    fn hpet_timer(&self) -> (r: &HpetTimerMemory) {
        proof {
            lemma_num_tim_cap_range(self.hpet.mmio.capabilities_and_id@);
        }
        &self.hpet.mmio.timers[self.index as usize]
    }
}

} // verus!
