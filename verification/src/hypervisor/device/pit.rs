//! Intel 8253/8254 Programmable Interval Timer (PIT) emulation.
//!
//! Ports 0x40–0x43. Three independent counter channels:
//! - Channel 0: System timer.
//! - Channel 1: Historically memory refresh — ignored.
//! - Channel 2: PC speaker — ignored.
//!
//! A loaded counter counts down at 1.193182 MHz from the reload value written
//! by the guest; reading it yields the reload value minus the ticks elapsed
//! since loading, modulo 2^16.
use vstd::prelude::*;
use crate::clock::{elapsed_nanos, instant_now};

verus! {

/// PIT input clock frequency in Hz.
pub const PIT_CLOCK_HZ: u64 = 1_193_182;

/// Counter ticks elapsed after `elapsed_nanos` nanoseconds, truncated to 16 bits
/// (the nanosecond product wraps at 2^64).
pub open spec fn ticks_after(elapsed_nanos: u64) -> u16 {
    ((((elapsed_nanos * PIT_CLOCK_HZ) % 0x1_0000_0000_0000_0000) / 1_000_000_000) % 0x1_0000) as u16
}

/// `a - b` modulo 2^16.
pub open spec fn sub_mod16(a: u16, b: u16) -> u16 {
    ((a - b + 0x1_0000) % 0x1_0000) as u16
}

/// One PIT counter channel.
pub struct PitChannel {
    /// Mode (0–5).
    mode: u8,
    /// Reload value written by guest.
    reload: u16,
    /// Latched count, cleared after the high byte is read.
    latch: Option<u16>,
    /// Which byte to read next: false = low byte, true = high byte.
    read_msb: bool,
    write_msb: bool,
    /// Low byte of reload already written; waiting for high byte.
    write_low: Option<u8>,
    /// When this counter was last loaded.
    started: Option<std::time::Instant>,
}

impl PitChannel {
    pub closed spec fn mode(&self) -> u8 { self.mode }
    pub closed spec fn reload(&self) -> u16 { self.reload }
    pub closed spec fn latch(&self) -> Option<u16> { self.latch }
    pub closed spec fn read_msb(&self) -> bool { self.read_msb }
    pub closed spec fn write_msb(&self) -> bool { self.write_msb }
    pub closed spec fn write_low(&self) -> Option<u8> { self.write_low }
    pub closed spec fn is_started(&self) -> bool { self.started is Some }

    /// The count the channel shows `elapsed` nanoseconds after it was loaded.
    pub open spec fn count_at(&self, elapsed: u64) -> u16 {
        if !self.is_started() {
            self.reload()
        } else if self.reload() == 0 {
            0
        } else {
            sub_mod16(self.reload(), ticks_after(elapsed))
        }
    }

    /// The count a read returns: the latched value if any, else the live count.
    pub open spec fn visible_count(&self, elapsed: u64) -> u16 {
        match self.latch() {
            Some(l) => l,
            None => self.count_at(elapsed),
        }
    }

    fn new() -> (ch: Self)
        ensures
            ch.mode() == 0 && ch.reload() == 0 && ch.latch() is None && !ch.read_msb()
                && !ch.write_msb() && ch.write_low() is None && !ch.is_started(),
    {
        PitChannel {
            mode: 0,
            reload: 0,
            latch: None,
            read_msb: false,
            write_msb: false,
            write_low: None,
            started: None,
        }
    }

    fn current_count(&self, elapsed: u64) -> (count: u16)
        ensures
            count == self.count_at(elapsed),
    {
        if self.started.is_some() {
            if self.reload == 0 {
                0
            } else {
                let product = elapsed.wrapping_mul(PIT_CLOCK_HZ);
                let ticks = ((product / 1_000_000_000) % 0x1_0000) as u16;
                self.reload.wrapping_sub(ticks)
            }
        } else {
            self.reload
        }
    }

    /// Reads one byte of the visible count (low byte first, then high byte).
    fn read_byte(&mut self, elapsed: u64) -> (value: u8)
        ensures
            old(self).byte_read(elapsed, *final(self), value),
    {
        let count = match self.latch {
            Some(l) => l,
            None => self.current_count(elapsed),
        };
        let lo = count & 0xFF;
        let hi = (count >> 8u16) & 0xFF;
        assert(lo == count % 256 && hi == count / 256) by (bit_vector)
            requires lo == count & 0xFF, hi == (count >> 8u16) & 0xFF;
        if !self.read_msb {
            self.read_msb = true;
            lo as u8
        } else {
            self.read_msb = false;
            self.latch = None;
            hi as u8
        }
    }

    /// Relation between the channel before and after a byte read, and the byte.
    pub open spec fn byte_read(self, elapsed: u64, next: Self, value: u8) -> bool {
        let count = self.visible_count(elapsed);
        &&& next.mode() == self.mode() && next.reload() == self.reload()
        &&& next.write_msb() == self.write_msb() && next.write_low() == self.write_low()
        &&& next.is_started() == self.is_started()
        &&& next.count_at(elapsed) == self.count_at(elapsed)
        &&& if !self.read_msb() {
            &&& value == count % 256
            &&& next.read_msb()
            &&& next.latch() == self.latch()
        } else {
            &&& value == count / 256
            &&& !next.read_msb()
            &&& next.latch() is None
        }
    }
}

/// Intel 8253/8254 PIT emulation.
pub struct Pit8253 {
    ch0: PitChannel,
    ch1: PitChannel,
    ch2: PitChannel,
}

impl Pit8253 {
    /// Counter channel `i` (0, 1 or 2).
    pub closed spec fn channel(&self, i: int) -> PitChannel {
        if i == 0 { self.ch0 } else if i == 1 { self.ch1 } else { self.ch2 }
    }

    /// All channels other than `i` are the same in `self` and `other`.
    pub open spec fn others_unchanged(&self, other: &Self, i: int) -> bool {
        forall|j: int| 0 <= j < 3 && j != i ==> #[trigger] other.channel(j) == self.channel(j)
    }

    /// Relation between the timer before and after a read of port `offset`
    /// `elapsed` nanoseconds after the addressed counter was loaded.
    pub open spec fn read_effect(self, offset: u8, elapsed: u64, next: Self, value: u8) -> bool {
        if offset >= 3 {
            value == 0 && next == self
        } else {
            &&& self.others_unchanged(&next, offset as int)
            &&& self.channel(offset as int).byte_read(elapsed, next.channel(offset as int), value)
        }
    }

    /// Relation between the timer before and after a write of `data` to port
    /// `offset` (0–2: counter data, 3: control word).
    pub open spec fn write_effect(self, offset: u8, data: u8, elapsed: u64, next: Self) -> bool {
        if offset == 3 {
            let idx = ((data >> 6u8) & 0x03) as int;
            let rw = (data >> 4u8) & 0x03;
            if idx == 3 {
                next == self
            } else {
                let ch = self.channel(idx);
                let nch = next.channel(idx);
                &&& self.others_unchanged(&next, idx)
                &&& if rw == 0 {
                    // Counter latch command
                    &&& nch.latch() == Some(ch.count_at(elapsed))
                    &&& nch.mode() == ch.mode() && nch.reload() == ch.reload()
                    &&& nch.read_msb() == ch.read_msb() && nch.write_msb() == ch.write_msb()
                    &&& nch.write_low() == ch.write_low() && nch.is_started() == ch.is_started()
                } else {
                    // Mode set: the counter is unloaded
                    &&& nch.mode() == (data >> 1u8) & 0x07
                    &&& nch.reload() == 0 && !nch.is_started()
                    &&& !nch.read_msb() && !nch.write_msb() && nch.write_low() is None
                    &&& nch.latch() == ch.latch()
                }
            }
        } else {
            let ch = self.channel(offset as int);
            let nch = next.channel(offset as int);
            &&& self.others_unchanged(&next, offset as int)
            &&& nch.mode() == ch.mode() && nch.latch() == ch.latch()
            &&& nch.read_msb() == ch.read_msb() && nch.write_msb() == ch.write_msb()
            &&& match ch.write_low() {
                None => {
                    &&& nch.write_low() == Some(data)
                    &&& nch.reload() == ch.reload() && nch.is_started() == ch.is_started()
                },
                Some(lo) => {
                    &&& nch.reload() == lo + data * 256
                    &&& nch.write_low() is None
                    &&& nch.is_started()
                },
            }
        }
    }

    /// The state right after power-on.
    pub open spec fn at_power_on(&self) -> bool {
        &&& forall|i: int| 0 <= i < 3 ==> {
            let ch = #[trigger] self.channel(i);
            ch.mode() == 0 && ch.reload() == 0 && ch.latch() is None && !ch.read_msb()
                && !ch.write_msb() && ch.write_low() is None && !ch.is_started()
        }
    }

    pub fn new() -> (pit: Self)
        ensures
            pit.at_power_on(),
    {
        Pit8253 { ch0: PitChannel::new(), ch1: PitChannel::new(), ch2: PitChannel::new() }
    }

    fn channel_started(&self, idx: u8) -> (started: bool)
        requires
            idx < 3,
        ensures
            started == self.channel(idx as int).is_started(),
    {
        if idx == 0 {
            self.ch0.started.is_some()
        } else if idx == 1 {
            self.ch1.started.is_some()
        } else {
            self.ch2.started.is_some()
        }
    }

    fn elapsed_for(&self, idx: u8) -> (e: u64)
        requires
            idx < 3,
        ensures
            !self.channel(idx as int).is_started() ==> e == 0,
    {
        let ch = if idx == 0 { &self.ch0 } else if idx == 1 { &self.ch1 } else { &self.ch2 };
        match &ch.started {
            Some(start) => elapsed_nanos(start),
            None => 0,
        }
    }

    /// Read from a PIT port `offset` (0–3 relative to base port 0x40), as seen
    /// `elapsed` nanoseconds after the addressed counter was loaded.
    pub fn read_at(&mut self, offset: u8, elapsed: u64) -> (value: u8)
        ensures
            old(self).read_effect(offset, elapsed, *final(self), value),
    {
        if offset >= 3 {
            return 0;
        }
        if offset == 0 {
            self.ch0.read_byte(elapsed)
        } else if offset == 1 {
            self.ch1.read_byte(elapsed)
        } else {
            self.ch2.read_byte(elapsed)
        }
    }

    /// Read from a PIT port, using the time elapsed on the host clock since the
    /// addressed counter was loaded.
    pub fn read(&mut self, offset: u8) -> (value: u8)
        ensures
            exists|e: u64| old(self).read_effect(offset, e, *final(self), value),
    {
        let e = if offset < 3 { self.elapsed_for(offset) } else { 0 };
        self.read_at(offset, e)
    }

    /// Write `data` to PIT port `offset`, with a counter-latch command seeing
    /// the count `elapsed` nanoseconds after loading.
    pub fn write_at(&mut self, offset: u8, data: u8, elapsed: u64)
        requires
            offset <= 3,
        ensures
            old(self).write_effect(offset, data, elapsed, *final(self)),
    {
        if offset == 3 {
            let ch_idx = (data >> 6u8) & 0x03;
            assert(ch_idx <= 3) by (bit_vector)
                requires ch_idx == (data >> 6u8) & 0x03;
            if ch_idx == 3 {
                return;
            }
            let rw = (data >> 4u8) & 0x03;
            let mode = (data >> 1u8) & 0x07;
            assert(ch_idx < 3);
            if ch_idx == 0 {
                Self::control(&mut self.ch0, rw, mode, elapsed);
            } else if ch_idx == 1 {
                Self::control(&mut self.ch1, rw, mode, elapsed);
            } else {
                Self::control(&mut self.ch2, rw, mode, elapsed);
            }
        } else if offset == 0 {
            Self::load(&mut self.ch0, data);
        } else if offset == 1 {
            Self::load(&mut self.ch1, data);
        } else {
            Self::load(&mut self.ch2, data);
        }
    }

    fn control(ch: &mut PitChannel, rw: u8, mode: u8, elapsed: u64)
        ensures
            rw == 0 ==> {
                &&& final(ch).latch() == Some(old(ch).count_at(elapsed))
                &&& final(ch).mode() == old(ch).mode() && final(ch).reload() == old(ch).reload()
                &&& final(ch).read_msb() == old(ch).read_msb()
                &&& final(ch).write_msb() == old(ch).write_msb()
                &&& final(ch).write_low() == old(ch).write_low()
                &&& final(ch).is_started() == old(ch).is_started()
            },
            rw != 0 ==> {
                &&& final(ch).mode() == mode
                &&& final(ch).reload() == 0 && !final(ch).is_started()
                &&& !final(ch).read_msb() && !final(ch).write_msb() && final(ch).write_low() is None
                &&& final(ch).latch() == old(ch).latch()
            },
    {
        if rw == 0 {
            let count = ch.current_count(elapsed);
            ch.latch = Some(count);
        } else {
            ch.mode = mode;
            ch.reload = 0;
            ch.started = None;
            ch.read_msb = false;
            ch.write_msb = false;
            ch.write_low = None;
        }
    }

    fn load(ch: &mut PitChannel, data: u8)
        ensures
            final(ch).mode() == old(ch).mode() && final(ch).latch() == old(ch).latch(),
            final(ch).read_msb() == old(ch).read_msb(),
            final(ch).write_msb() == old(ch).write_msb(),
            match old(ch).write_low() {
                None => {
                    &&& final(ch).write_low() == Some(data)
                    &&& final(ch).reload() == old(ch).reload()
                    &&& final(ch).is_started() == old(ch).is_started()
                },
                Some(lo) => {
                    &&& final(ch).reload() == lo + data * 256
                    &&& final(ch).write_low() is None
                    &&& final(ch).is_started()
                },
            },
    {
        match ch.write_low {
            None => {
                ch.write_low = Some(data);
            },
            Some(lo) => {
                let reload = (lo as u16) | ((data as u16) << 8u16);
                assert(reload == lo + data * 256) by (bit_vector)
                    requires reload == (lo as u16) | ((data as u16) << 8u16);
                ch.reload = reload;
                ch.write_low = None;
                ch.started = Some(instant_now());
            },
        }
    }

    /// Write to a PIT port, reading the host clock for a counter-latch command.
    pub fn write(&mut self, offset: u8, data: u8)
        requires
            offset <= 3,
        ensures
            exists|e: u64| old(self).write_effect(offset, data, e, *final(self)),
    {
        let mut e: u64 = 0;
        if offset == 3 {
            let idx = (data >> 6u8) & 0x03;
            if idx < 3 && (data >> 4u8) & 0x03 == 0 {
                e = self.elapsed_for(idx);
            }
        }
        self.write_at(offset, data, e);
    }
}

impl Default for Pit8253 {
    fn default() -> (pit: Self)
        ensures
            pit.at_power_on(),
    {
        Self::new()
    }
}

} // verus!
