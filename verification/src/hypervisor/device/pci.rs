//! PCI Bus Controller (Intel i440FX + PIIX3 Southbridge) emulation.
//!
//! Emulates the x86 PCI Configuration Space Mechanism #1:
//! - I/O Port 0xCF8: `CONFIG_ADDRESS` (Bus/Device/Function/Offset)
//! - I/O Port 0xCFC: `CONFIG_DATA` (32-bit window into the selected config space)
//!
//! Enumerates the virtual PCI devices present in NovaVM:
//! - **00:00.0** — Intel i440FX Host Bridge (0x8086:0x1237)
//! - **00:01.0** — PIIX3 ISA Bridge (0x8086:0x7000)
//! - **00:01.1** — PIIX3 IDE Controller (0x8086:0x7010)
//! - **00:01.2** — PIIX3 USB UHCI Controller (0x8086:0x7020)
//! - **00:01.3** — PIIX3 ACPI Power Controller (0x8086:0x7113)
//! - **00:02.0** — Standard VGA Graphics Adapter (0x1234:0x1111)
//! - **00:03.0** — vTPM 2.0 Security Device (0x1014:0x0001)
use vstd::prelude::*;

verus! {

/// PCI Configuration Space Address Register (0xCF8), decoded.
#[derive(Clone, Copy)]
pub struct PciAddress {
    pub enabled: bool,
    pub bus: u8,
    pub device: u8,
    pub function: u8,
    pub register: u8,
}

/// The decoding of CONFIG_ADDRESS value `val`: bit 31 enable, bits 16–23 bus,
/// 11–15 device, 8–10 function, 2–7 register (dword aligned).
pub open spec fn decode_address(val: u32) -> PciAddress {
    PciAddress {
        enabled: val >= 0x8000_0000,
        bus: ((val / 0x1_0000) % 256) as u8,
        device: ((val / 0x800) % 32) as u8,
        function: ((val / 0x100) % 8) as u8,
        register: ((val % 256) / 4 * 4) as u8,
    }
}

impl PciAddress {
    pub fn from_u32(val: u32) -> (a: Self)
        ensures
            a == decode_address(val),
    {
        let enabled = (val & 0x8000_0000) != 0;
        let bus = ((val >> 16u32) & 0xFF) as u8;
        let device = ((val >> 11u32) & 0x1F) as u8;
        let function = ((val >> 8u32) & 0x07) as u8;
        let register = (val & 0xFC) as u8;
        assert(enabled == (val >= 0x8000_0000) && bus == (val / 0x1_0000) % 256 && device == (val
            / 0x800) % 32 && function == (val / 0x100) % 8 && register == (val % 256) / 4 * 4)
            by (bit_vector)
            requires
                enabled == ((val & 0x8000_0000) != 0),
                bus == ((val >> 16u32) & 0xFF) as u8,
                device == ((val >> 11u32) & 0x1F) as u8,
                function == ((val >> 8u32) & 0x07) as u8,
                register == (val & 0xFC) as u8,
        ;
        PciAddress { enabled, bus, device, function, register }
    }
}

/// PCI Device Configuration Space Header.
pub struct PciHeader {
    pub vendor_id: u16,
    pub device_id: u16,
    pub command: u16,
    pub status: u16,
    pub revision_id: u8,
    /// Base class, Subclass, Prog IF
    pub class_code: [u8; 3],
    pub header_type: u8,
    pub bar: [u32; 6],
}

/// The dword at configuration offset `reg` of header `h`.
pub open spec fn header_dword(h: PciHeader, reg: u8) -> u32 {
    if reg == 0x00 {
        (h.device_id * 0x1_0000 + h.vendor_id) as u32
    } else if reg == 0x04 {
        (h.status * 0x1_0000 + h.command) as u32
    } else if reg == 0x08 {
        (h.class_code@[0] * 0x100_0000 + h.class_code@[1] * 0x1_0000 + h.class_code@[2] * 0x100
            + h.revision_id) as u32
    } else if reg == 0x0C {
        (h.header_type * 0x1_0000) as u32
    } else if reg == 0x10 || reg == 0x14 || reg == 0x18 || reg == 0x1C || reg == 0x20 || reg == 0x24 {
        h.bar@[(reg - 0x10) / 4]
    } else {
        0
    }
}

/// Header `next` is `h` after a configuration write of `val` at offset `reg`:
/// only the command register and the six BARs are writable.
pub open spec fn header_written(h: PciHeader, reg: u8, val: u32, next: PciHeader) -> bool {
    &&& next.vendor_id == h.vendor_id && next.device_id == h.device_id
    &&& next.status == h.status && next.revision_id == h.revision_id
    &&& next.class_code@ == h.class_code@ && next.header_type == h.header_type
    &&& next.command == (if reg == 0x04 { (val % 0x1_0000) as u16 } else { h.command })
    &&& next.bar@ == (if reg == 0x10 || reg == 0x14 || reg == 0x18 || reg == 0x1C || reg == 0x20
        || reg == 0x24 {
        h.bar@.update((reg - 0x10) / 4, val)
    } else {
        h.bar@
    })
}

/// Header `h` describes a function with the given identity, command 0x0007,
/// status 0x0280, revision 1, and the given BAR0 and BAR4 (other BARs zero).
pub open spec fn is_header(
    h: PciHeader,
    vendor: u16,
    device: u16,
    class: Seq<u8>,
    header_type: u8,
    bar0: u32,
    bar4: u32,
) -> bool {
    &&& h.vendor_id == vendor && h.device_id == device
    &&& h.command == 0x0007 && h.status == 0x0280 && h.revision_id == 0x01
    &&& h.class_code@ == class && h.header_type == header_type
    &&& h.bar@ == seq![bar0, 0u32, 0u32, 0u32, bar4, 0u32]
}

impl PciHeader {
    /// A header with command 0x0007 (I/O, memory, bus master), status 0x0280,
    /// revision 1 and all BARs zero.
    pub fn new(vendor_id: u16, device_id: u16, class_code: [u8; 3], header_type: u8) -> (h: Self)
        ensures
            is_header(h, vendor_id, device_id, class_code@, header_type, 0, 0),
    {
        let h = PciHeader {
            vendor_id,
            device_id,
            command: 0x0007,
            status: 0x0280,
            revision_id: 0x01,
            class_code,
            header_type,
            bar: [0u32; 6],
        };
        assert(h.bar@ =~= seq![0u32, 0u32, 0u32, 0u32, 0u32, 0u32]);
        h
    }

    /// Read the configuration dword at offset `reg`.
    pub fn read_u32(&self, reg: u8) -> (v: u32)
        ensures
            v == header_dword(*self, reg),
    {
        match reg {
            0x00 => {
                let (d, ve) = (self.device_id, self.vendor_id);
                let r = (d as u32) << 16u32 | (ve as u32);
                assert(r == d * 0x1_0000 + ve) by (bit_vector)
                    requires r == (d as u32) << 16u32 | (ve as u32);
                r
            },
            0x04 => {
                let (s, c) = (self.status, self.command);
                let r = (s as u32) << 16u32 | (c as u32);
                assert(r == s * 0x1_0000 + c) by (bit_vector)
                    requires r == (s as u32) << 16u32 | (c as u32);
                r
            },
            0x08 => {
                let (c0, c1, c2, rev) = (
                    self.class_code[0],
                    self.class_code[1],
                    self.class_code[2],
                    self.revision_id,
                );
                let r = (c0 as u32) << 24u32 | (c1 as u32) << 16u32 | (c2 as u32) << 8u32 | (rev as u32);
                assert(r == c0 * 0x100_0000 + c1 * 0x1_0000 + c2 * 0x100 + rev) by (bit_vector)
                    requires
                        r == (c0 as u32) << 24u32 | (c1 as u32) << 16u32 | (c2 as u32) << 8u32 | (
                        rev as u32),
                ;
                r
            },
            0x0C => {
                let ht = self.header_type;
                let r = (ht as u32) << 16u32;
                assert(r == ht * 0x1_0000) by (bit_vector)
                    requires r == (ht as u32) << 16u32;
                r
            },
            0x10 => self.bar[0],
            0x14 => self.bar[1],
            0x18 => self.bar[2],
            0x1C => self.bar[3],
            0x20 => self.bar[4],
            0x24 => self.bar[5],
            _ => 0x0000_0000,
        }
    }

    /// Write the configuration dword at offset `reg`.
    pub fn write_u32(&mut self, reg: u8, val: u32)
        ensures
            header_written(*old(self), reg, val, *final(self)),
    {
        match reg {
            0x04 => {
                let c = (val & 0xFFFF) as u16;
                assert(c == val % 0x1_0000) by (bit_vector)
                    requires c == (val & 0xFFFF) as u16;
                self.command = c;
            },
            0x10 => self.bar[0] = val,
            0x14 => self.bar[1] = val,
            0x18 => self.bar[2] = val,
            0x1C => self.bar[3] = val,
            0x20 => self.bar[4] = val,
            0x24 => self.bar[5] = val,
            _ => {},
        }
        assert(self.bar@ =~= (if reg == 0x10 || reg == 0x14 || reg == 0x18 || reg == 0x1C || reg
            == 0x20 || reg == 0x24 {
            old(self).bar@.update((reg - 0x10) / 4, val)
        } else {
            old(self).bar@
        }));
    }
}

/// Whether entry `e` sits at the bus/device/function selected by `a`.
pub open spec fn entry_matches(e: (u8, u8, u8, PciHeader), a: PciAddress) -> bool {
    e.0 == a.bus && e.1 == a.device && e.2 == a.function
}

/// The index of the first entry of `devs` at the location selected by `a`.
pub open spec fn first_match(devs: Seq<(u8, u8, u8, PciHeader)>, a: PciAddress) -> Option<int>
    decreases devs.len(),
{
    if devs.len() == 0 {
        None
    } else {
        match first_match(devs.drop_last(), a) {
            Some(i) => Some(i),
            None => if entry_matches(devs.last(), a) {
                Some(devs.len() - 1)
            } else {
                None
            },
        }
    }
}

proof fn lemma_first_match_bounds(devs: Seq<(u8, u8, u8, PciHeader)>, a: PciAddress)
    ensures
        first_match(devs, a) matches Some(i) ==> 0 <= i < devs.len() && entry_matches(devs[i], a),
    decreases devs.len(),
{
    if devs.len() > 0 {
        lemma_first_match_bounds(devs.drop_last(), a);
    }
}

proof fn lemma_first_match_extends(devs: Seq<(u8, u8, u8, PciHeader)>, a: PciAddress, n: int)
    requires
        0 <= n <= devs.len(),
        first_match(devs.subrange(0, n), a) is Some,
    ensures
        first_match(devs, a) == first_match(devs.subrange(0, n), a),
    decreases devs.len() - n,
{
    if n < devs.len() {
        assert(devs.subrange(0, n + 1).drop_last() =~= devs.subrange(0, n));
        lemma_first_match_extends(devs, a, n + 1);
    } else {
        assert(devs.subrange(0, n) =~= devs);
    }
}

/// Virtual PCI Bus Manager
pub struct PciBus {
    /// Currently selected config address written to 0xCF8
    pub config_addr: u32,
    /// Registered PCI devices indexed by (bus, dev, fn)
    devices: Vec<(u8, u8, u8, PciHeader)>,
}

impl PciBus {
    /// The registered functions, in registration order.
    pub closed spec fn devices(&self) -> Seq<(u8, u8, u8, PciHeader)> { self.devices@ }
    /// The CONFIG_ADDRESS register.
    pub closed spec fn config_address(&self) -> u32 { self.config_addr }

    /// The value a CONFIG_DATA read returns on bus `self`.
    pub open spec fn config_read_value(&self) -> u32 {
        let a = decode_address(self.config_address());
        if !a.enabled {
            0xFFFF_FFFF
        } else {
            match first_match(self.devices(), a) {
                Some(i) => header_dword(self.devices()[i].3, a.register),
                None => 0xFFFF_FFFF,
            }
        }
    }

    /// Relation between the bus before and after a CONFIG_DATA write of `val`.
    pub open spec fn config_written(self, val: u32, next: Self) -> bool {
        let a = decode_address(self.config_address());
        &&& next.config_address() == self.config_address()
        &&& next.devices().len() == self.devices().len()
        &&& if a.enabled && first_match(self.devices(), a) is Some {
            let i = first_match(self.devices(), a)->0;
            &&& forall|j: int| 0 <= j < self.devices().len() && j != i ==> #[trigger] next.devices()[j] == self.devices()[j]
            &&& next.devices()[i].0 == self.devices()[i].0
            &&& next.devices()[i].1 == self.devices()[i].1
            &&& next.devices()[i].2 == self.devices()[i].2
            &&& header_written(self.devices()[i].3, a.register, val, next.devices()[i].3)
        } else {
            next.devices() == self.devices()
        }
    }

    /// Read the CONFIG_ADDRESS register (port 0xCF8).
    pub fn read_config_address(&self) -> (v: u32)
        ensures
            v == self.config_address(),
    {
        self.config_addr
    }

    /// Write the CONFIG_ADDRESS register (port 0xCF8).
    pub fn write_config_address(&mut self, v: u32)
        ensures
            final(self).config_address() == v,
            final(self).devices() == old(self).devices(),
    {
        self.config_addr = v;
    }

    fn push_device(&mut self, b: u8, d: u8, f: u8, h: PciHeader)
        ensures
            final(self).devices() == old(self).devices().push((b, d, f, h)),
            final(self).config_address() == old(self).config_address(),
    {
        self.devices.push((b, d, f, h));
    }

    /// The state right after power-on.
    pub open spec fn at_power_on(&self) -> bool {
        &&& self.config_address() == 0
        &&& self.devices().len() == 7
        &&& self.devices()[0].0 == 0 && self.devices()[0].1 == 0 && self.devices()[0].2 == 0
        &&& is_header(self.devices()[0].3, 0x8086, 0x1237, seq![0x06u8, 0x00u8, 0x00u8], 0x00, 0, 0)
        &&& self.devices()[1].0 == 0 && self.devices()[1].1 == 1 && self.devices()[1].2 == 0
        &&& is_header(self.devices()[1].3, 0x8086, 0x7000, seq![0x06u8, 0x01u8, 0x00u8], 0x80, 0, 0)
        &&& self.devices()[2].0 == 0 && self.devices()[2].1 == 1 && self.devices()[2].2 == 1
        &&& is_header(
            self.devices()[2].3,
            0x8086,
            0x7010,
            seq![0x01u8, 0x01u8, 0x80u8],
            0x00,
            0,
            0x0000_C041,
        )
        &&& self.devices()[3].0 == 0 && self.devices()[3].1 == 1 && self.devices()[3].2 == 2
        &&& is_header(
            self.devices()[3].3,
            0x8086,
            0x7020,
            seq![0x0Cu8, 0x03u8, 0x00u8],
            0x00,
            0,
            0x0000_C001,
        )
        &&& self.devices()[4].0 == 0 && self.devices()[4].1 == 1 && self.devices()[4].2 == 3
        &&& is_header(
            self.devices()[4].3,
            0x8086,
            0x7113,
            seq![0x06u8, 0x80u8, 0x00u8],
            0x00,
            0,
            0x0000_0601,
        )
        &&& self.devices()[5].0 == 0 && self.devices()[5].1 == 2 && self.devices()[5].2 == 0
        &&& is_header(
            self.devices()[5].3,
            0x1234,
            0x1111,
            seq![0x03u8, 0x00u8, 0x00u8],
            0x00,
            0xE000_0008,
            0,
        )
        &&& self.devices()[6].0 == 0 && self.devices()[6].1 == 3 && self.devices()[6].2 == 0
        &&& is_header(
            self.devices()[6].3,
            0x1014,
            0x0001,
            seq![0x0Bu8, 0x00u8, 0x00u8],
            0x00,
            0xFED4_0000,
            0,
        )
    }

    /// The bus with its seven built-in functions and CONFIG_ADDRESS 0.
    pub fn new() -> (bus: Self)
        ensures
            bus.at_power_on(),
    {
        let mut bus = PciBus { config_addr: 0, devices: Vec::new() };
        let host = PciHeader::new(0x8086, 0x1237, [0x06, 0x00, 0x00], 0x00);
        assert(host.class_code@ =~= seq![0x06u8, 0x00u8, 0x00u8]);
        bus.push_device(0, 0, 0, host);
        let isa = PciHeader::new(0x8086, 0x7000, [0x06, 0x01, 0x00], 0x80);
        assert(isa.class_code@ =~= seq![0x06u8, 0x01u8, 0x00u8]);
        bus.push_device(0, 1, 0, isa);
        let mut ide = PciHeader::new(0x8086, 0x7010, [0x01, 0x01, 0x80], 0x00);
        ide.bar[4] = 0x0000_C041;
        assert(ide.class_code@ =~= seq![0x01u8, 0x01u8, 0x80u8]);
        assert(ide.bar@ =~= seq![0u32, 0u32, 0u32, 0u32, 0x0000_C041u32, 0u32]);
        bus.push_device(0, 1, 1, ide);
        let mut usb = PciHeader::new(0x8086, 0x7020, [0x0C, 0x03, 0x00], 0x00);
        usb.bar[4] = 0x0000_C001;
        assert(usb.class_code@ =~= seq![0x0Cu8, 0x03u8, 0x00u8]);
        assert(usb.bar@ =~= seq![0u32, 0u32, 0u32, 0u32, 0x0000_C001u32, 0u32]);
        bus.push_device(0, 1, 2, usb);
        let mut acpi = PciHeader::new(0x8086, 0x7113, [0x06, 0x80, 0x00], 0x00);
        acpi.bar[4] = 0x0000_0601;
        assert(acpi.class_code@ =~= seq![0x06u8, 0x80u8, 0x00u8]);
        assert(acpi.bar@ =~= seq![0u32, 0u32, 0u32, 0u32, 0x0000_0601u32, 0u32]);
        bus.push_device(0, 1, 3, acpi);
        let mut vga = PciHeader::new(0x1234, 0x1111, [0x03, 0x00, 0x00], 0x00);
        vga.bar[0] = 0xE000_0008;
        assert(vga.class_code@ =~= seq![0x03u8, 0x00u8, 0x00u8]);
        assert(vga.bar@ =~= seq![0xE000_0008u32, 0u32, 0u32, 0u32, 0u32, 0u32]);
        bus.push_device(0, 2, 0, vga);
        let mut tpm = PciHeader::new(0x1014, 0x0001, [0x0B, 0x00, 0x00], 0x00);
        tpm.bar[0] = 0xFED4_0000;
        assert(tpm.class_code@ =~= seq![0x0Bu8, 0x00u8, 0x00u8]);
        assert(tpm.bar@ =~= seq![0xFED4_0000u32, 0u32, 0u32, 0u32, 0u32, 0u32]);
        bus.push_device(0, 3, 0, tpm);
        bus
    }

    /// Find the first registered function at the location selected by `a`.
    fn find(&self, a: &PciAddress) -> (r: Option<usize>)
        ensures
            r matches Some(i) ==> first_match(self.devices(), *a) == Some(i as int),
            r is None ==> first_match(self.devices(), *a) is None,
    {
        let mut i: usize = 0;
        while i < self.devices.len()
            invariant
                i <= self.devices@.len(),
                first_match(self.devices@.subrange(0, i as int), *a) is None,
            decreases self.devices@.len() - i,
        {
            let e = &self.devices[i];
            assert(self.devices@.subrange(0, (i + 1) as int).drop_last() =~= self.devices@.subrange(
                0,
                i as int,
            ));
            if e.0 == a.bus && e.1 == a.device && e.2 == a.function {
                proof { lemma_first_match_extends(self.devices@, *a, (i + 1) as int); }
                return Some(i);
            }
            i = i + 1;
        }
        assert(self.devices@.subrange(0, i as int) =~= self.devices@);
        None
    }

    /// Handle a read from port 0xCFC (CONFIG_DATA): the selected dword, or
    /// all ones when decoding is disabled or nothing is at that location.
    pub fn read_config_data(&self) -> (v: u32)
        ensures
            v == self.config_read_value(),
    {
        let addr = PciAddress::from_u32(self.config_addr);
        if !addr.enabled {
            return 0xFFFF_FFFF;
        }
        match self.find(&addr) {
            Some(i) => {
                proof { lemma_first_match_bounds(self.devices@, addr); }
                self.devices[i].3.read_u32(addr.register)
            },
            None => 0xFFFF_FFFF,
        }
    }

    /// Handle a write to port 0xCFC (CONFIG_DATA): the first function at the
    /// selected location takes the write; nothing happens when decoding is
    /// disabled or no function is there.
    pub fn write_config_data(&mut self, val: u32)
        ensures
            old(self).config_written(val, *final(self)),
    {
        let addr = PciAddress::from_u32(self.config_addr);
        if !addr.enabled {
            return;
        }
        match self.find(&addr) {
            Some(i) => {
                proof { lemma_first_match_bounds(self.devices@, addr); }
                let e = &self.devices[i];
                let (b, d, f) = (e.0, e.1, e.2);
                let mut h = PciHeader {
                    vendor_id: e.3.vendor_id,
                    device_id: e.3.device_id,
                    command: e.3.command,
                    status: e.3.status,
                    revision_id: e.3.revision_id,
                    class_code: e.3.class_code,
                    header_type: e.3.header_type,
                    bar: e.3.bar,
                };
                h.write_u32(addr.register, val);
                self.devices.set(i, (b, d, f, h));
            },
            None => {},
        }
    }
}

impl Default for PciBus {
    fn default() -> (bus: Self)
        ensures
            bus.at_power_on(),
    {
        Self::new()
    }
}

} // verus!
