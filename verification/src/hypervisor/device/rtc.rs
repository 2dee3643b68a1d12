//! MC146818 CMOS/RTC emulation (ports 0x70–0x71).
//!
//! The RTC provides the host wall-clock time (seconds, minutes, hours, day,
//! month, year) in BCD, 128 bytes of CMOS RAM used by the BIOS to store
//! configuration, and status registers controlling interrupt modes.
use vstd::prelude::*;
use crate::clock::unix_time_secs;

verus! {

/// Size of the CMOS RAM in bytes.
pub const CMOS_SIZE: usize = 128;

/// Binary-coded decimal of `v` (two digits).
pub open spec fn bcd(v: int) -> int {
    (v / 10) * 16 + v % 10
}

/// The value of the time register `index` at `secs` seconds after the Unix epoch,
/// or `None` for registers that do not hold time.
pub open spec fn time_register(index: u8, secs: u64) -> Option<int> {
    let s = secs as int;
    let days = s / 86400;
    if index == 0x00 {
        Some(bcd(s % 60))
    } else if index == 0x02 {
        Some(bcd((s / 60) % 60))
    } else if index == 0x04 {
        Some(bcd((s / 3600) % 24))
    } else if index == 0x06 {
        Some(bcd((days + 4) % 7 + 1))
    } else if index == 0x07 {
        Some(bcd(days % 31 + 1))
    } else if index == 0x08 {
        Some(bcd((s / 2678400int) % 12 + 1))
    } else if index == 0x09 {
        Some(bcd(((s / 31536000int) + 1970) % 100))
    } else {
        None
    }
}

/// MC146818 CMOS/RTC emulation.
pub struct Rtc {
    /// Currently selected CMOS register index (bits 0–6).
    index: u8,
    /// Disable NMI when true (bit 7 of the index port write).
    nmi_disable: bool,
    /// 128-byte CMOS RAM (registers + battery-backed storage).
    ram: [u8; 128],
}

fn to_bcd(v: u8) -> (r: u8)
    requires
        v < 100,
    ensures
        r == bcd(v as int),
{
    let hi = v / 10;
    let lo = v % 10;
    let r = (hi << 4u8) | lo;
    assert(r == hi * 16 + lo) by (bit_vector)
        requires hi < 10, lo < 10, r == (hi << 4u8) | lo;
    r
}

impl Rtc {
    pub closed spec fn index_reg(&self) -> u8 { self.index }
    pub closed spec fn nmi_disabled(&self) -> bool { self.nmi_disable }
    /// The CMOS RAM contents.
    pub closed spec fn cmos(&self) -> Seq<u8> { self.ram@ }

    /// Relation between the controller and the byte read from the data port
    /// at `secs` seconds after the Unix epoch.
    pub open spec fn data_value(&self, secs: u64, value: u8) -> bool {
        let i = self.index_reg();
        match time_register(i, secs) {
            Some(v) => value == v,
            None => value == (if i == 0x0A {
                0x26
            } else if i == 0x0B {
                self.cmos()[0x0B]
            } else if i == 0x0C {
                0x00
            } else if i == 0x0D {
                0x80
            } else if i < 128 {
                self.cmos()[i as int]
            } else {
                0xFF
            }),
        }
    }

    /// The value a read of the index port returns: the index, bit 7 = NMI disabled.
    pub open spec fn index_value(&self) -> u8 {
        if self.nmi_disabled() { self.index_reg() | 0x80 } else { self.index_reg() }
    }

    /// Relation between the controller before and after an index-port write.
    pub open spec fn index_written(self, data: u8, next: Self) -> bool {
        &&& next.nmi_disabled() == (data & 0x80 != 0)
        &&& next.index_reg() == data & 0x7F
        &&& next.cmos() == self.cmos()
    }

    /// Relation between the controller before and after a data-port write.
    pub open spec fn data_written(self, data: u8, next: Self) -> bool {
        &&& next.index_reg() == self.index_reg()
        &&& next.nmi_disabled() == self.nmi_disabled()
        &&& next.cmos() == (if self.index_reg() < 128 {
            self.cmos().update(self.index_reg() as int, data)
        } else {
            self.cmos()
        })
    }

    /// The state right after power-on.
    pub open spec fn at_power_on(&self) -> bool {
        &&& self.index_reg() == 0 && !self.nmi_disabled()
        &&& self.cmos().len() == 128
        &&& forall|i: int| 0 <= i < 128 ==> #[trigger] self.cmos()[i] == (if i == 0x0B {
            0x02u8
        } else if i == 0x0D {
            0x80u8
        } else if i == 0x14 {
            0x2Fu8
        } else if i == 0x15 {
            0x80u8
        } else if i == 0x16 {
            0x02u8
        } else {
            0u8
        })
    }

    /// Create the controller with a plausible CMOS image: 24-hour BCD mode,
    /// valid RAM and time, a VGA display and 640 KiB of base memory.
    pub fn new() -> (rtc: Self)
        ensures
            rtc.at_power_on(),
    {
        let mut ram = [0u8; 128];
        ram[0x0B] = 0x02;
        ram[0x0C] = 0x00;
        ram[0x0D] = 0x80;
        ram[0x14] = 0x2F;
        ram[0x15] = 0x80;
        ram[0x16] = 0x02;
        Rtc { index: 0, nmi_disable: false, ram }
    }

    /// Port 0x70 read: the current index register value, bit 7 = NMI disabled.
    pub fn read_index(&self) -> (value: u8)
        ensures
            value == self.index_value(),
    {
        if self.nmi_disable { self.index | 0x80 } else { self.index }
    }

    /// Port 0x70 write: select a CMOS register (bits 0–6) and the NMI mask (bit 7).
    pub fn write_index(&mut self, data: u8)
        ensures
            old(self).index_written(data, *final(self)),
    {
        self.nmi_disable = data & 0x80 != 0;
        self.index = data & 0x7F;
    }

    /// Port 0x71 read at `secs` seconds after the Unix epoch.
    pub fn read_data_at(&self, secs: u64) -> (value: u8)
        ensures
            self.data_value(secs, value),
    {
        let sec = (secs % 60) as u8;
        let min = ((secs / 60) % 60) as u8;
        let hour = ((secs / 3600) % 24) as u8;
        let wday = ((secs / 86400 + 4) % 7 + 1) as u8;
        let mday = ((secs / 86400) % 31 + 1) as u8;
        let mon = ((secs / (86400 * 31)) % 12 + 1) as u8;
        let year = (((secs / (86400 * 365)) + 1970) % 100) as u8;
        match self.index {
            0x00 => to_bcd(sec),
            0x02 => to_bcd(min),
            0x04 => to_bcd(hour),
            0x06 => to_bcd(wday),
            0x07 => to_bcd(mday),
            0x08 => to_bcd(mon),
            0x09 => to_bcd(year),
            0x0A => 0x26,
            0x0B => self.ram[0x0B],
            0x0C => 0x00,
            0x0D => 0x80,
            _ => {
                let idx = self.index as usize;
                if idx < CMOS_SIZE { self.ram[idx] } else { 0xFF }
            },
        }
    }

    /// Port 0x71 read: the selected register, with time registers taken from
    /// the host wall clock.
    pub fn read_data(&self) -> (value: u8)
        ensures
            exists|secs: u64| self.data_value(secs, value),
    {
        let secs = unix_time_secs();
        self.read_data_at(secs)
    }

    /// Port 0x71 write: store `data` in the selected CMOS RAM byte.
    pub fn write_data(&mut self, data: u8)
        ensures
            old(self).data_written(data, *final(self)),
    {
        let idx = self.index as usize;
        if idx < CMOS_SIZE {
            self.ram[idx] = data;
        }
    }
}

impl Default for Rtc {
    fn default() -> (rtc: Self)
        ensures
            rtc.at_power_on(),
    {
        Self::new()
    }
}

/// Reading the hours register (index 0x04) gives the BCD of the hour of the
/// day of the wall-clock time: for `secs` seconds after the epoch that fall
/// in hour `h` of their day (`h * 3600 <= secs mod 86400 < (h + 1) * 3600`),
/// the byte read is `bcd(h)`. `value` is what `read_data_at(secs)` returned.
pub proof fn law_hours_register(rtc: Rtc, secs: u64, value: u8, h: int)
    requires
        rtc.index_reg() == 0x04,
        rtc.data_value(secs, value),
        0 <= h < 24,
        h * 3600 <= secs % 86400 < h * 3600 + 3600,
    ensures
        value == bcd(h),
{
    lemma_hour_of_day(secs as int, h);
}

/// Reading the minutes register (index 0x02) gives the BCD of the minute of
/// the hour: for `secs` in minute `m` of its hour, the byte read is `bcd(m)`.
pub proof fn law_minutes_register(rtc: Rtc, secs: u64, value: u8, m: int)
    requires
        rtc.index_reg() == 0x02,
        rtc.data_value(secs, value),
        0 <= m < 60,
        m * 60 <= secs % 3600 < m * 60 + 60,
    ensures
        value == bcd(m),
{
    lemma_minute_of_hour(secs as int, m);
}

proof fn lemma_hour_of_day(s: int, h: int)
    requires
        s >= 0,
        0 <= h < 24,
        h * 3600 <= s % 86400 < h * 3600 + 3600,
    ensures
        (s / 3600) % 24 == h,
{
    let q = s / 86400;
    let r = s % 86400;
    assert(s == q * 86400 + r && 0 <= r < 86400) by (nonlinear_arith)
        requires s >= 0, q == s / 86400, r == s % 86400;
    assert(s / 3600 == q * 24 + h) by (nonlinear_arith)
        requires s == q * 86400 + r, h * 3600 <= r < h * 3600 + 3600, q >= 0;
    assert((q * 24 + h) % 24 == h) by (nonlinear_arith)
        requires 0 <= h < 24, q >= 0;
}

proof fn lemma_minute_of_hour(s: int, m: int)
    requires
        s >= 0,
        0 <= m < 60,
        m * 60 <= s % 3600 < m * 60 + 60,
    ensures
        (s / 60) % 60 == m,
{
    let q = s / 3600;
    let r = s % 3600;
    assert(s == q * 3600 + r && 0 <= r < 3600) by (nonlinear_arith)
        requires s >= 0, q == s / 3600, r == s % 3600;
    assert(s / 60 == q * 60 + m) by (nonlinear_arith)
        requires s == q * 3600 + r, m * 60 <= r < m * 60 + 60, q >= 0;
    assert((q * 60 + m) % 60 == m) by (nonlinear_arith)
        requires 0 <= m < 60, q >= 0;
}

/// Reading the seconds register (index 0x00) gives the BCD of the second
/// of the minute: for `secs` that lies `sec` seconds past a whole minute,
/// the byte read is `bcd(sec)`.
pub proof fn law_seconds_register(rtc: Rtc, secs: u64, value: u8, sec: int, minutes: int)
    requires
        rtc.index_reg() == 0x00,
        rtc.data_value(secs, value),
        0 <= sec < 60,
        minutes >= 0,
        secs == minutes * 60 + sec,
    ensures
        value == bcd(sec),
{
    assert((minutes * 60 + sec) % 60 == sec) by (nonlinear_arith)
        requires 0 <= sec < 60, minutes >= 0;
}

} // verus!
