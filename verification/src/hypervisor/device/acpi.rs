//! ACPI Power Management & System Shutdown Controller emulation.
//!
//! - Ports 0x0600–0x0603: PM1a_EVT (Power Management Event Register)
//! - Ports 0x0604–0x0605: PM1a_CNT (Power Management Control Register — shutdown trigger)
//! - Ports 0x0608–0x060B: PM_TMR (24-bit 3.579545 MHz ACPI Timer)
//!
//! Guest OSes write SLP_EN with SLP_TYP 5 (e.g. `0x3400`) to PM1a_CNT to
//! initiate a clean ACPI shutdown.
use vstd::prelude::*;
use crate::clock::{elapsed_nanos, instant_now};

verus! {

/// ACPI PM1a control bits.
pub const ACPI_SLP_EN: u16 = 0x2000;
pub const ACPI_SLP_TYP_MASK: u16 = 0x1C00;
/// PM timer frequency in Hz.
pub const ACPI_PM_TIMER_HZ: u128 = 3_579_545;

/// The 24-bit PM timer value `elapsed_nanos` nanoseconds after power-on.
pub open spec fn pm_timer_value(elapsed_nanos: u64) -> u32 {
    (((elapsed_nanos * 3_579_545) / 1_000_000_000) % 0x100_0000) as u32
}

/// Whether writing `val` to PM1a_CNT requests a soft-off: SLP_EN set with
/// sleep type 0, 5 or 7.
pub open spec fn requests_shutdown(val: u16) -> bool {
    let typ = (val / 0x400) % 8;
    val & 0x2000 != 0 && (typ == 5 || typ == 7 || typ == 0)
}

/// ACPI PM Controller
pub struct AcpiDevice {
    pm1a_evt: u32,
    pm1a_cnt: u16,
    start_time: std::time::Instant,
    /// Shutdown signal requested by guest OS via ACPI
    pub shutdown_requested: bool,
}

impl AcpiDevice {
    pub closed spec fn pm1a_evt(&self) -> u32 { self.pm1a_evt }
    pub closed spec fn pm1a_cnt(&self) -> u16 { self.pm1a_cnt }
    pub closed spec fn shutdown(&self) -> bool { self.shutdown_requested }

    /// The value of a read of `port`, `elapsed` nanoseconds after power-on.
    pub open spec fn read_value(&self, port: u16, elapsed: u64) -> u32 {
        if 0x0600 <= port <= 0x0603 {
            self.pm1a_evt()
        } else if port == 0x0604 || port == 0x0605 {
            self.pm1a_cnt() as u32
        } else if 0x0608 <= port <= 0x060B {
            pm_timer_value(elapsed)
        } else {
            0
        }
    }

    /// Relation between the controller before and after a write of `data` to `port`.
    pub open spec fn write_effect(self, port: u16, data: u32, next: Self) -> bool {
        &&& next.pm1a_evt() == (if 0x0600 <= port <= 0x0603 { self.pm1a_evt() & !data } else {
            self.pm1a_evt()
        })
        &&& next.pm1a_cnt() == (if port == 0x0604 || port == 0x0605 {
            (data % 0x1_0000) as u16
        } else {
            self.pm1a_cnt()
        })
        &&& next.shutdown() == (self.shutdown() || ((port == 0x0604 || port == 0x0605)
            && requests_shutdown((data % 0x1_0000) as u16)))
    }

    /// The state right after power-on.
    pub open spec fn at_power_on(&self) -> bool {
        &&& self.pm1a_evt() == 0 && self.pm1a_cnt() == 0 && !self.shutdown()
    }

    /// A controller with no events, control 0, no shutdown request, and the
    /// PM timer starting now.
    pub fn new() -> (a: Self)
        ensures
            a.at_power_on(),
    {
        AcpiDevice {
            pm1a_evt: 0,
            pm1a_cnt: 0,
            start_time: instant_now(),
            shutdown_requested: false,
        }
    }

    /// Read PM register `port`, `elapsed` nanoseconds after power-on.
    pub fn read_at(&self, port: u16, elapsed: u64) -> (v: u32)
        ensures
            v == self.read_value(port, elapsed),
    {
        if 0x0600 <= port && port <= 0x0603 {
            self.pm1a_evt
        } else if port == 0x0604 || port == 0x0605 {
            self.pm1a_cnt as u32
        } else if 0x0608 <= port && port <= 0x060B {
            let ticks = (elapsed as u128) * ACPI_PM_TIMER_HZ / 1_000_000_000;
            (ticks % 0x100_0000) as u32
        } else {
            0
        }
    }

    /// Read PM register `port` (ports 0x0600–0x060B), the timer measured on
    /// the host clock.
    pub fn read(&mut self, port: u16) -> (v: u32)
        ensures
            *final(self) == *old(self),
            exists|e: u64| v == old(self).read_value(port, e),
    {
        let e = elapsed_nanos(&self.start_time);
        self.read_at(port, e)
    }

    /// Write PM register `port`: event bits are write-1-to-clear; a control
    /// write is stored and may request shutdown.
    pub fn write(&mut self, port: u16, data: u32)
        ensures
            old(self).write_effect(port, data, *final(self)),
    {
        if 0x0600 <= port && port <= 0x0603 {
            self.pm1a_evt = self.pm1a_evt & !data;
        } else if port == 0x0604 || port == 0x0605 {
            let val = data as u16;
            assert(val == data % 0x1_0000) by (bit_vector)
                requires val == data as u16;
            self.pm1a_cnt = val;
            if val & ACPI_SLP_EN != 0 {
                let slp_typ = (val & ACPI_SLP_TYP_MASK) >> 10u16;
                assert(slp_typ == (val / 0x400) % 8) by (bit_vector)
                    requires slp_typ == (val & 0x1C00) >> 10u16;
                if slp_typ == 5 || slp_typ == 7 || slp_typ == 0 {
                    self.shutdown_requested = true;
                }
            }
        }
    }
}

impl Default for AcpiDevice {
    fn default() -> (a: Self)
        ensures
            a.at_power_on(),
    {
        Self::new()
    }
}

} // verus!
