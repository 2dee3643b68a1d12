//! Virtual device bus — dispatches I/O port accesses to the right device.
//!
//! Every I/O port read or write from the guest vCPU comes here. The bus
//! owns one instance of each emulated device and routes accesses by the
//! standard x86 PC I/O port ranges:
//!
//! | Range         | Device                              |
//! |---------------|-------------------------------------|
//! | 0x20–0x21     | 8259 Master PIC                     |
//! | 0x40–0x43     | 8253 PIT                            |
//! | 0x60–0x64     | PS/2 Keyboard / Mouse Controller    |
//! | 0x70–0x71     | MC146818 CMOS / Real-Time Clock     |
//! | 0x80          | POST diagnostic debug port          |
//! | 0x92          | Fast A20 gate                       |
//! | 0xA0–0xA1     | 8259 Slave PIC                      |
//! | 0x00F0–0x00F7 | vTPM 2.0 TIS I/O Interface          |
//! | 0x0170–0x0177 | Secondary IDE Controller (CD-ROM)   |
//! | 0x01F0–0x01F7 | Primary IDE Controller (Hard Disk)  |
//! | 0x02F8–0x02FF | COM2 Serial Port                    |
//! | 0x03C0–0x03DF | VGA Controller                      |
//! | 0x03F8–0x03FF | COM1 Serial Port (Console Log)      |
//! | 0x0511        | NovaVM BIOS disk status             |
//! | 0x0600–0x060B | ACPI PM1a Event/Control & PM Timer  |
//! | 0xCF8         | PCI CONFIG_ADDRESS                  |
//! | 0xCFC–0xCFF   | PCI CONFIG_DATA                     |
//! | 0xC000–0xC01F | UHCI USB Host Controller            |
//! | 0xC020–0xC03F | VirtIO Network Controller           |
//!
//! Unclaimed ports read as 0xFF (floating bus) and ignore writes.
pub mod acpi;
pub mod ide;
pub mod net;
pub mod pci;
pub mod pic;
pub mod pit;
pub mod rtc;
pub mod tpm;
pub mod uart;
pub mod usb;
pub mod vga;

use vstd::prelude::*;
use acpi::AcpiDevice;
use ide::IdeController;
use net::VirtioNetDevice;
use pci::PciBus;
use pic::Pic8259;
use pit::Pit8253;
use rtc::Rtc;
use tpm::TpmDevice;
use uart::Uart8250;
use usb::UsbController;
use vga::VgaDevice;

verus! {

/// I/O port dispatch bus owning every emulated device.
pub struct DeviceBus {
    /// COM1 serial port (0x3F8–0x3FF) — main console
    pub uart_com1: Uart8250,
    /// COM2 serial port (0x2F8–0x2FF) — secondary serial
    pub uart_com2: Uart8250,
    /// Master PIC (0x20–0x21), services IRQ 0–7.
    pub pic_master: Pic8259,
    /// Slave PIC (0xA0–0xA1), services IRQ 8–15.
    pub pic_slave: Pic8259,
    /// Interval timer (0x40–0x43).
    pub pit: Pit8253,
    /// CMOS/RTC (0x70–0x71).
    pub rtc: Rtc,
    /// VGA controller and framebuffer.
    pub vga: VgaDevice,
    /// PCI Configuration Space Bus Controller (0xCF8 / 0xCFC).
    pub pci: PciBus,
    /// Virtual TPM 2.0 TIS Security Controller (0x00F0–0x00F7).
    pub tpm: TpmDevice,
    /// UHCI USB Host Controller (0xC000–0xC01F).
    pub usb: UsbController,
    /// ACPI PM1a Power Controller & PM_TMR (0x0600–0x060B).
    pub acpi: AcpiDevice,
    /// Dual Channel IDE / ATA Controller (0x1F0 / 0x170).
    pub ide: IdeController,
    /// VirtIO Network Controller (0xC020–0xC03F).
    pub net: VirtioNetDevice,
    /// BIOS disk-read result flag (0 = ok, 1 = error).
    pub disk_status: u8,
}

/// Which device owns an I/O port.
pub enum PortOwner {
    PicMaster,
    PicSlave,
    Pit,
    Keyboard,
    RtcIndex,
    RtcData,
    Tpm,
    IdePrimaryData,
    IdePrimary,
    IdeSecondaryData,
    IdeSecondary,
    Com2,
    Vga,
    Com1,
    DiskStatus,
    Acpi,
    PciAddress,
    PciData,
    Usb,
    Net,
    Unclaimed,
}

/// The device that answers a read of `port`.
pub open spec fn read_owner(port: u16) -> PortOwner {
    if port == 0x20 || port == 0x21 {
        PortOwner::PicMaster
    } else if port == 0xA0 || port == 0xA1 {
        PortOwner::PicSlave
    } else if 0x40 <= port <= 0x42 {
        PortOwner::Pit
    } else if port == 0x43 || port == 0x60 || port == 0x61 || port == 0x64 {
        PortOwner::Keyboard
    } else if port == 0x70 {
        PortOwner::RtcIndex
    } else if port == 0x71 {
        PortOwner::RtcData
    } else if 0x00F0 <= port <= 0x00F7 {
        PortOwner::Tpm
    } else if port == 0x01F0 {
        PortOwner::IdePrimaryData
    } else if 0x01F1 <= port <= 0x01F7 {
        PortOwner::IdePrimary
    } else if port == 0x0170 {
        PortOwner::IdeSecondaryData
    } else if 0x0171 <= port <= 0x0177 {
        PortOwner::IdeSecondary
    } else if 0x2F8 <= port <= 0x2FF {
        PortOwner::Com2
    } else if 0x3C0 <= port <= 0x3DF {
        PortOwner::Vga
    } else if 0x3F8 <= port <= 0x3FF {
        PortOwner::Com1
    } else if port == 0x0511 {
        PortOwner::DiskStatus
    } else if 0x0600 <= port <= 0x060B {
        PortOwner::Acpi
    } else if port == 0xCF8 {
        PortOwner::PciAddress
    } else if 0xCFC <= port <= 0xCFF {
        PortOwner::PciData
    } else if 0xC000 <= port <= 0xC01F {
        PortOwner::Usb
    } else if 0xC020 <= port <= 0xC03F {
        PortOwner::Net
    } else {
        PortOwner::Unclaimed
    }
}

/// The device that takes a write to `port`.
pub open spec fn write_owner(port: u16) -> PortOwner {
    if port == 0x20 || port == 0x21 {
        PortOwner::PicMaster
    } else if port == 0xA0 || port == 0xA1 {
        PortOwner::PicSlave
    } else if 0x40 <= port <= 0x43 {
        PortOwner::Pit
    } else if port == 0x70 {
        PortOwner::RtcIndex
    } else if port == 0x71 {
        PortOwner::RtcData
    } else if 0x00F0 <= port <= 0x00F7 {
        PortOwner::Tpm
    } else if 0x01F0 <= port <= 0x01F7 {
        PortOwner::IdePrimary
    } else if 0x0170 <= port <= 0x0177 {
        PortOwner::IdeSecondary
    } else if 0x2F8 <= port <= 0x2FF {
        PortOwner::Com2
    } else if 0x3C0 <= port <= 0x3DF {
        PortOwner::Vga
    } else if 0x3F8 <= port <= 0x3FF {
        PortOwner::Com1
    } else if 0x0600 <= port <= 0x060B {
        PortOwner::Acpi
    } else if port == 0xCF8 {
        PortOwner::PciAddress
    } else if 0xCFC <= port <= 0xCFF {
        PortOwner::PciData
    } else if 0xC000 <= port <= 0xC01F {
        PortOwner::Usb
    } else if 0xC020 <= port <= 0xC03F {
        PortOwner::Net
    } else {
        PortOwner::Unclaimed
    }
}

/// Decode which device takes a write to `port`.
pub fn decode_write_owner(port: u16) -> (owner: PortOwner)
    ensures
        owner == write_owner(port),
{
    if port == 0x20 || port == 0x21 {
        PortOwner::PicMaster
    } else if port == 0xA0 || port == 0xA1 {
        PortOwner::PicSlave
    } else if 0x40 <= port && port <= 0x43 {
        PortOwner::Pit
    } else if port == 0x70 {
        PortOwner::RtcIndex
    } else if port == 0x71 {
        PortOwner::RtcData
    } else if 0x00F0 <= port && port <= 0x00F7 {
        PortOwner::Tpm
    } else if 0x01F0 <= port && port <= 0x01F7 {
        PortOwner::IdePrimary
    } else if 0x0170 <= port && port <= 0x0177 {
        PortOwner::IdeSecondary
    } else if 0x2F8 <= port && port <= 0x2FF {
        PortOwner::Com2
    } else if 0x3C0 <= port && port <= 0x3DF {
        PortOwner::Vga
    } else if 0x3F8 <= port && port <= 0x3FF {
        PortOwner::Com1
    } else if 0x0600 <= port && port <= 0x060B {
        PortOwner::Acpi
    } else if port == 0xCF8 {
        PortOwner::PciAddress
    } else if 0xCFC <= port && port <= 0xCFF {
        PortOwner::PciData
    } else if 0xC000 <= port && port <= 0xC01F {
        PortOwner::Usb
    } else if 0xC020 <= port && port <= 0xC03F {
        PortOwner::Net
    } else {
        PortOwner::Unclaimed
    }
}

impl DeviceBus {
    /// The bus invariant: the VGA DAC sub-index stays in range.
    pub open spec fn wf(&self) -> bool {
        self.vga.wf()
    }

    /// Every device of `next` equals that of `self`, except the ones flagged.
    pub open spec fn same_devices_except(
        &self,
        next: &Self,
        com1: bool,
        com2: bool,
        pic_m: bool,
        pic_s: bool,
        pit: bool,
        rtc: bool,
        vga: bool,
        pci: bool,
        tpm: bool,
        usb: bool,
        acpi: bool,
        ide: bool,
        net: bool,
        disk: bool,
    ) -> bool {
        &&& (com1 || next.uart_com1 == self.uart_com1)
        &&& (com2 || next.uart_com2 == self.uart_com2)
        &&& (pic_m || next.pic_master == self.pic_master)
        &&& (pic_s || next.pic_slave == self.pic_slave)
        &&& (pit || next.pit == self.pit)
        &&& (rtc || next.rtc == self.rtc)
        &&& (vga || next.vga == self.vga)
        &&& (pci || next.pci == self.pci)
        &&& (tpm || next.tpm == self.tpm)
        &&& (usb || next.usb == self.usb)
        &&& (acpi || next.acpi == self.acpi)
        &&& (ide || next.ide == self.ide)
        &&& (net || next.net == self.net)
        &&& (disk || next.disk_status == self.disk_status)
    }

    /// Relation between the bus before and after a guest read of `port`,
    /// and the value the guest sees.
    pub open spec fn read_effect(self, port: u16, next: Self, value: u64) -> bool {
        match read_owner(port) {
            PortOwner::PicMaster => value == self.pic_master.read_value((port % 2) as u16) && next == self,
            PortOwner::PicSlave => value == self.pic_slave.read_value((port % 2) as u16) && next == self,
            PortOwner::Pit => exists|e: u64, v: u8|
                #![trigger self.pit.read_effect((port - 0x40) as u8, e, next.pit, v)]
                self.pit.read_effect((port - 0x40) as u8, e, next.pit, v) && value == v
                    && self.same_devices_except(&next, false, false, false, false, true, false, false, false, false, false, false, false, false, false),
            PortOwner::Keyboard => next == self && value == (if port == 0x60 { 0xAAu64 } else if port
                == 0x64 { 0x10u64 } else { 0u64 }),
            PortOwner::RtcIndex => value == self.rtc.index_value() && next == self,
            PortOwner::RtcData => next == self && exists|secs: u64, v: u8|
                #![trigger self.rtc.data_value(secs, v)]
                self.rtc.data_value(secs, v) && value == v,
            PortOwner::Tpm => exists|v: u8|
                #![trigger self.tpm.read_effect((port - 0xF0) as u8, next.tpm, v)]
                self.tpm.read_effect((port - 0xF0) as u8, next.tpm, v) && value == v
                    && self.same_devices_except(&next, false, false, false, false, false, false, false, false, true, false, false, false, false, false),
            PortOwner::IdePrimaryData => exists|w: u16|
                #![trigger self.ide.primary.data_read(next.ide.primary, w)]
                self.ide.primary.data_read(next.ide.primary, w) && value == w
                    && next.ide.secondary == self.ide.secondary
                    && self.same_devices_except(&next, false, false, false, false, false, false, false, false, false, false, false, true, false, false),
            PortOwner::IdePrimary => next == self && value == self.ide.primary.reg_value((port - 0x1F0) as u8),
            PortOwner::IdeSecondaryData => exists|w: u16|
                #![trigger self.ide.secondary.data_read(next.ide.secondary, w)]
                self.ide.secondary.data_read(next.ide.secondary, w) && value == w
                    && next.ide.primary == self.ide.primary
                    && self.same_devices_except(&next, false, false, false, false, false, false, false, false, false, false, false, true, false, false),
            PortOwner::IdeSecondary => next == self && value == self.ide.secondary.reg_value((port - 0x170) as u8),
            PortOwner::Com2 => exists|v: u8|
                #![trigger self.uart_com2.read_effect((port - 0x2F8) as u16, next.uart_com2, v)]
                self.uart_com2.read_effect((port - 0x2F8) as u16, next.uart_com2, v) && value == v
                    && self.same_devices_except(&next, false, true, false, false, false, false, false, false, false, false, false, false, false, false),
            PortOwner::Vga => exists|v: u8|
                #![trigger self.vga.read_effect(port, next.vga, v)]
                self.vga.read_effect(port, next.vga, v) && value == v
                    && self.same_devices_except(&next, false, false, false, false, false, false, true, false, false, false, false, false, false, false),
            PortOwner::Com1 => exists|v: u8|
                #![trigger self.uart_com1.read_effect((port - 0x3F8) as u16, next.uart_com1, v)]
                self.uart_com1.read_effect((port - 0x3F8) as u16, next.uart_com1, v) && value == v
                    && self.same_devices_except(&next, true, false, false, false, false, false, false, false, false, false, false, false, false, false),
            PortOwner::DiskStatus => value == self.disk_status && next == self,
            PortOwner::Acpi => next == self && exists|e: u64| #[trigger] self.acpi.read_value(port, e) == value,
            PortOwner::PciAddress => value == self.pci.config_address() && next == self,
            PortOwner::PciData => value == self.pci.config_read_value() && next == self,
            PortOwner::Usb => exists|v: u32|
                #![trigger self.usb.read_effect((port - 0xC000) as u16, 2, next.usb, v)]
                self.usb.read_effect((port - 0xC000) as u16, 2, next.usb, v) && value == v
                    && self.same_devices_except(&next, false, false, false, false, false, false, false, false, false, true, false, false, false, false),
            PortOwner::Net => next == self && value == self.net.read_value((port - 0xC020) as u8),
            PortOwner::Unclaimed => next == self && value == 0xFF,
        }
    }

    /// Relation between the bus before and after a guest write of `data` to
    /// `port`; byte-wide devices see the low byte.
    pub open spec fn write_effect(self, port: u16, data: u64, next: Self) -> bool {
        let b = (data % 256) as u8;
        let d32 = (data % 0x1_0000_0000) as u32;
        match write_owner(port) {
            PortOwner::PicMaster => self.pic_master.write_effect((port % 2) as u16, b, next.pic_master)
                && self.same_devices_except(&next, false, false, true, false, false, false, false, false, false, false, false, false, false, false),
            PortOwner::PicSlave => self.pic_slave.write_effect((port % 2) as u16, b, next.pic_slave)
                && self.same_devices_except(&next, false, false, false, true, false, false, false, false, false, false, false, false, false, false),
            PortOwner::Pit => (exists|e: u64| #[trigger] self.pit.write_effect((port - 0x40) as u8, b, e, next.pit))
                && self.same_devices_except(&next, false, false, false, false, true, false, false, false, false, false, false, false, false, false),
            PortOwner::RtcIndex => self.rtc.index_written(b, next.rtc)
                && self.same_devices_except(&next, false, false, false, false, false, true, false, false, false, false, false, false, false, false),
            PortOwner::RtcData => self.rtc.data_written(b, next.rtc)
                && self.same_devices_except(&next, false, false, false, false, false, true, false, false, false, false, false, false, false, false),
            PortOwner::Tpm => self.tpm.write_effect((port - 0xF0) as u8, b, next.tpm)
                && self.same_devices_except(&next, false, false, false, false, false, false, false, false, true, false, false, false, false, false),
            PortOwner::IdePrimary => self.ide.primary.write_effect((port - 0x1F0) as u8, b, next.ide.primary)
                && next.ide.secondary == self.ide.secondary
                && self.same_devices_except(&next, false, false, false, false, false, false, false, false, false, false, false, true, false, false),
            PortOwner::IdeSecondary => self.ide.secondary.write_effect((port - 0x170) as u8, b, next.ide.secondary)
                && next.ide.primary == self.ide.primary
                && self.same_devices_except(&next, false, false, false, false, false, false, false, false, false, false, false, true, false, false),
            PortOwner::Com2 => self.uart_com2.write_effect((port - 0x2F8) as u16, data, next.uart_com2)
                && self.same_devices_except(&next, false, true, false, false, false, false, false, false, false, false, false, false, false, false),
            PortOwner::Vga => self.vga.write_effect(port, b, next.vga)
                && self.same_devices_except(&next, false, false, false, false, false, false, true, false, false, false, false, false, false, false),
            PortOwner::Com1 => self.uart_com1.write_effect((port - 0x3F8) as u16, data, next.uart_com1)
                && self.same_devices_except(&next, true, false, false, false, false, false, false, false, false, false, false, false, false, false),
            PortOwner::Acpi => self.acpi.write_effect(port, d32, next.acpi)
                && self.same_devices_except(&next, false, false, false, false, false, false, false, false, false, false, true, false, false, false),
            PortOwner::PciAddress => next.pci.config_address() == d32 && next.pci.devices() == self.pci.devices()
                && self.same_devices_except(&next, false, false, false, false, false, false, false, true, false, false, false, false, false, false),
            PortOwner::PciData => self.pci.config_written(d32, next.pci)
                && self.same_devices_except(&next, false, false, false, false, false, false, false, true, false, false, false, false, false, false),
            PortOwner::Usb => self.usb.write_effect((port - 0xC000) as u16, d32, 2, next.usb)
                && self.same_devices_except(&next, false, false, false, false, false, false, false, false, false, true, false, false, false, false),
            PortOwner::Net => self.net.write_effect((port - 0xC020) as u8, b, next.net)
                && self.same_devices_except(&next, false, false, false, false, false, false, false, false, false, false, false, false, true, false),
            _ => next == self,
        }
    }

    /// A bus with every device in its power-on state (master PIC at vector
    /// 0x08, slave PIC at 0x70, all IRQs masked, initialisation finished),
    /// disk status 0.
    pub fn new() -> (bus: Self)
        ensures
            bus.wf(),
            bus.pic_master.at_power_on(0x08) && bus.pic_slave.at_power_on(0x70),
            bus.uart_com1.at_power_on() && bus.uart_com2.at_power_on(),
            bus.pit.at_power_on() && bus.rtc.at_power_on() && bus.vga.at_power_on(),
            bus.pci.at_power_on() && bus.tpm.at_power_on() && bus.usb.at_power_on(),
            bus.acpi.at_power_on() && bus.net.at_power_on(),
            bus.ide.primary.is_reset() && bus.ide.secondary.is_reset(),
            bus.disk_status == 0,
    {
        DeviceBus {
            uart_com1: Uart8250::new(),
            uart_com2: Uart8250::new(),
            pic_master: Pic8259::new(0x08),
            pic_slave: Pic8259::new(0x70),
            pit: Pit8253::new(),
            rtc: Rtc::new(),
            vga: VgaDevice::new(),
            pci: PciBus::new(),
            tpm: TpmDevice::new(),
            usb: UsbController::new(),
            acpi: AcpiDevice::new(),
            ide: IdeController::new(),
            net: VirtioNetDevice::new(),
            disk_status: 0,
        }
    }

    /// Handle a guest I/O port read. Returns the value the guest should see.
    pub fn io_read(&mut self, port: u16) -> (value: u64)
        requires
            old(self).wf(),
        ensures
            final(self).wf(),
            old(self).read_effect(port, *final(self), value),
    {
        let bit = port & 1;
        assert(bit == port % 2) by (bit_vector)
            requires bit == port & 1;
        if port == 0x20 || port == 0x21 {
            self.pic_master.read(bit) as u64
        } else if port == 0xA0 || port == 0xA1 {
            self.pic_slave.read(bit) as u64
        } else if 0x40 <= port && port <= 0x42 {
            let v = self.pit.read((port - 0x40) as u8);
            proof {
                let e = choose|e: u64| #[trigger] old(self).pit.read_effect((port - 0x40) as u8, e, self.pit, v);
                assert(old(self).pit.read_effect((port - 0x40) as u8, e, self.pit, v));
            }
            v as u64
        } else if port == 0x43 || port == 0x61 {
            0
        } else if port == 0x60 {
            0xAA
        } else if port == 0x64 {
            0x10
        } else if port == 0x70 {
            self.rtc.read_index() as u64
        } else if port == 0x71 {
            let v = self.rtc.read_data();
            proof {
                let secs = choose|secs: u64| #[trigger] self.rtc.data_value(secs, v);
                assert(self.rtc.data_value(secs, v));
            }
            v as u64
        } else if 0x00F0 <= port && port <= 0x00F7 {
            let v = self.tpm.read_reg((port - 0x00F0) as u8);
            proof {
                assert(old(self).tpm.read_effect((port - 0xF0) as u8, self.tpm, v));
            }
            v as u64
        } else if port == 0x01F0 {
            let w = self.ide.primary.read_data_16();
            proof {
                assert(old(self).ide.primary.data_read(self.ide.primary, w));
            }
            w as u64
        } else if 0x01F1 <= port && port <= 0x01F7 {
            self.ide.primary.read_reg((port - 0x01F0) as u8) as u64
        } else if port == 0x0170 {
            let w = self.ide.secondary.read_data_16();
            proof {
                assert(old(self).ide.secondary.data_read(self.ide.secondary, w));
            }
            w as u64
        } else if 0x0171 <= port && port <= 0x0177 {
            self.ide.secondary.read_reg((port - 0x0170) as u8) as u64
        } else if 0x2F8 <= port && port <= 0x2FF {
            let v = self.uart_com2.read(port - 0x2F8);
            proof {
                assert(old(self).uart_com2.read_effect((port - 0x2F8) as u16, self.uart_com2, v));
            }
            v as u64
        } else if 0x3C0 <= port && port <= 0x3DF {
            let v = self.vga.io_read(port);
            proof {
                assert(old(self).vga.read_effect(port, self.vga, v));
            }
            v as u64
        } else if 0x3F8 <= port && port <= 0x3FF {
            let v = self.uart_com1.read(port - 0x3F8);
            proof {
                assert(old(self).uart_com1.read_effect((port - 0x3F8) as u16, self.uart_com1, v));
            }
            v as u64
        } else if port == 0x0511 {
            self.disk_status as u64
        } else if 0x0600 <= port && port <= 0x060B {
            let v = self.acpi.read(port);
            proof {
                let e = choose|e: u64| v == #[trigger] old(self).acpi.read_value(port, e);
                assert(old(self).acpi.read_value(port, e) == v);
            }
            v as u64
        } else if port == 0xCF8 {
            self.pci.read_config_address() as u64
        } else if 0xCFC <= port && port <= 0xCFF {
            self.pci.read_config_data() as u64
        } else if 0xC000 <= port && port <= 0xC01F {
            let v = self.usb.read_io(port - 0xC000, 2);
            proof {
                assert(old(self).usb.read_effect((port - 0xC000) as u16, 2, self.usb, v));
            }
            v as u64
        } else if 0xC020 <= port && port <= 0xC03F {
            self.net.io_read((port - 0xC020) as u8) as u64
        } else {
            0xFF
        }
    }

    /// Handle a guest I/O port write.
    #[verifier::spinoff_prover]
    #[verifier::rlimit(40)]
    pub fn io_write(&mut self, port: u16, data: u64)
        requires
            old(self).wf(),
        ensures
            final(self).wf(),
            old(self).write_effect(port, data, *final(self)),
    {
        let b = data as u8;
        let d32 = data as u32;
        assert(b == data % 256 && d32 == data % 0x1_0000_0000) by (bit_vector)
            requires b == data as u8, d32 == data as u32;
        let bit = port & 1;
        assert(bit == port % 2) by (bit_vector)
            requires bit == port & 1;
        match decode_write_owner(port) {
            PortOwner::PicMaster => {
                self.pic_master.write(bit, b);
                assert(old(self).write_effect(port, data, *self));
            },
            PortOwner::PicSlave => {
                self.pic_slave.write(bit, b);
                assert(old(self).write_effect(port, data, *self));
            },
            PortOwner::Pit => {
                self.pit.write((port - 0x40) as u8, b);
                proof {
                    let e = choose|e: u64| #[trigger] old(self).pit.write_effect((port - 0x40) as u8, b, e, self.pit);
                    assert(old(self).pit.write_effect((port - 0x40) as u8, b, e, self.pit));
                    assert(write_owner(port) is Pit);
                    assert(b == (data % 256) as u8);
                    assert(exists|e2: u64| #[trigger] old(self).pit.write_effect((port - 0x40) as u8, (data % 256) as u8, e2, self.pit));
                    assert(old(self).same_devices_except(&*self, false, false, false, false, true, false, false, false, false, false, false, false, false, false));
                }
                assert(old(self).write_effect(port, data, *self));
            },
            PortOwner::RtcIndex => {
                self.rtc.write_index(b);
                assert(old(self).write_effect(port, data, *self));
            },
            PortOwner::RtcData => {
                self.rtc.write_data(b);
                assert(old(self).write_effect(port, data, *self));
            },
            PortOwner::Tpm => {
                self.tpm.write_reg((port - 0x00F0) as u8, b);
                assert(old(self).write_effect(port, data, *self));
            },
            PortOwner::IdePrimary => {
                self.ide.primary.write_reg((port - 0x01F0) as u8, b);
                assert(old(self).write_effect(port, data, *self));
            },
            PortOwner::IdeSecondary => {
                self.ide.secondary.write_reg((port - 0x0170) as u8, b);
                assert(old(self).write_effect(port, data, *self));
            },
            PortOwner::Com2 => {
                self.uart_com2.write(port - 0x2F8, data);
                assert(old(self).write_effect(port, data, *self));
            },
            PortOwner::Vga => {
                self.vga.io_write(port, b);
                assert(old(self).write_effect(port, data, *self));
            },
            PortOwner::Com1 => {
                self.uart_com1.write(port - 0x3F8, data);
                assert(old(self).write_effect(port, data, *self));
            },
            PortOwner::Acpi => {
                self.acpi.write(port, d32);
                assert(old(self).write_effect(port, data, *self));
            },
            PortOwner::PciAddress => {
                self.pci.write_config_address(d32);
                assert(old(self).write_effect(port, data, *self));
            },
            PortOwner::PciData => {
                self.pci.write_config_data(d32);
                assert(old(self).write_effect(port, data, *self));
            },
            PortOwner::Usb => {
                self.usb.write_io(port - 0xC000, d32, 2);
                assert(old(self).write_effect(port, data, *self));
            },
            PortOwner::Net => {
                self.net.io_write((port - 0xC020) as u8, b);
                assert(old(self).write_effect(port, data, *self));
            },
            _ => {},
        }
    }

    /// Drain all serial output bytes written by the guest to COM1, oldest first.
    pub fn drain_serial_output(&mut self) -> (out: Vec<u8>)
        ensures
            out@ == old(self).uart_com1.pending_output(),
            final(self).uart_com1.pending_output().len() == 0,
            final(self).vga == old(self).vga,
    {
        self.uart_com1.drain_output()
    }

    /// Push bytes into the COM1 receive buffer (keyboard / stdin for the guest).
    pub fn send_input(&mut self, bytes: &[u8])
        ensures
            final(self).uart_com1.pending_input() == old(self).uart_com1.pending_input() + bytes@,
            final(self).vga == old(self).vga,
    {
        self.uart_com1.inject_input(bytes);
    }
}

/// The guest reads back from the COM1 scratch register (port 0x3FF) the
/// low byte it last wrote there.
pub proof fn law_com1_scratch_round_trip(b0: DeviceBus, b1: DeviceBus, b2: DeviceBus, data: u64, value: u64)
    requires
        b0.write_effect(0x3FF, data, b1),
        b1.read_effect(0x3FF, b2, value),
    ensures
        value == data % 256,
        b2 == b1,
{
}

/// The guest reads back from PCI CONFIG_ADDRESS (port 0xCF8) the 32-bit
/// value it last wrote there.
pub proof fn law_pci_address_round_trip(b0: DeviceBus, b1: DeviceBus, b2: DeviceBus, data: u64, value: u64)
    requires
        b0.write_effect(0xCF8, data, b1),
        b1.read_effect(0xCF8, b2, value),
    ensures
        value == data % 0x1_0000_0000,
{
}

/// A port no device claims ignores writes and reads as 0xFF.
pub proof fn law_unclaimed_port(b0: DeviceBus, b1: DeviceBus, b2: DeviceBus, port: u16, data: u64, value: u64)
    requires
        read_owner(port) is Unclaimed,
        write_owner(port) is Unclaimed,
        b0.write_effect(port, data, b1),
        b1.read_effect(port, b2, value),
    ensures
        b2 == b0,
        value == 0xFF,
{
}

} // verus!
