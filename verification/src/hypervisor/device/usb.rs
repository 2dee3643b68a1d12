//! USB UHCI (Universal Host Controller Interface) 1.1 controller emulation.
//!
//! Emulates a UHCI controller (I/O ports 0xC000–0xC01F) powering virtual USB
//! HID devices (keyboard, mouse) and USB passthrough.
//!
//! | Offset | Register                          |
//! |--------|-----------------------------------|
//! | 0x00   | USBCMD (Command Register)          |
//! | 0x02   | USBSTS (Status Register)           |
//! | 0x04   | USBINTR (Interrupt Enable)         |
//! | 0x06   | FRNUM (Frame Number)               |
//! | 0x08   | FLBASEADD (Frame List Base Addr)   |
//! | 0x0C   | SOFMOD (Start of Frame Modify)     |
//! | 0x10   | PORTSC1 (Port 1 Status/Control)    |
//! | 0x12   | PORTSC2 (Port 2 Status/Control)    |
use vstd::prelude::*;
use std::collections::VecDeque;

verus! {

/// PORTSC bits
pub const PORTSC_CONNECTION_STATUS: u16 = 0x0001;
pub const PORTSC_CONNECT_CHANGE: u16 = 0x0002;
pub const PORTSC_PORT_ENABLE: u16 = 0x0004;
pub const PORTSC_ENABLE_CHANGE: u16 = 0x0008;
pub const PORTSC_LOW_SPEED: u16 = 0x0100;
pub const PORTSC_PORT_RESET: u16 = 0x0200;

/// USB descriptor types.
#[derive(Clone, Copy)]
pub enum UsbDescriptorType {
    Device,
    Configuration,
    String,
    Interface,
    Endpoint,
    Hid,
    Report,
}

impl UsbDescriptorType {
    /// The bDescriptorType code of this descriptor type.
    pub fn code(&self) -> (c: u8)
        ensures
            c == (match *self {
                UsbDescriptorType::Device => 1u8,
                UsbDescriptorType::Configuration => 2u8,
                UsbDescriptorType::String => 3u8,
                UsbDescriptorType::Interface => 4u8,
                UsbDescriptorType::Endpoint => 5u8,
                UsbDescriptorType::Hid => 0x21u8,
                UsbDescriptorType::Report => 0x22u8,
            }),
    {
        match self {
            UsbDescriptorType::Device => 1,
            UsbDescriptorType::Configuration => 2,
            UsbDescriptorType::String => 3,
            UsbDescriptorType::Interface => 4,
            UsbDescriptorType::Endpoint => 5,
            UsbDescriptorType::Hid => 0x21,
            UsbDescriptorType::Report => 0x22,
        }
    }
}

/// USB HID Event (Keyboard / Mouse input)
#[derive(Clone, Copy)]
pub enum UsbInputEvent {
    KeyboardKey { key_code: u8, pressed: bool },
    MouseMove { dx: i8, dy: i8, buttons: u8 },
}

/// A PORTSC register after a guest write of `val`: a reset request enables
/// the port (the reset bit never sticks), and change bits are write-1-to-clear.
pub open spec fn port_written(p: u16, val: u16) -> u16 {
    let p1 = if val & PORTSC_PORT_RESET != 0 { (p | PORTSC_PORT_ENABLE) & !PORTSC_PORT_RESET } else { p };
    let p2 = if val & PORTSC_CONNECT_CHANGE != 0 { p1 & !PORTSC_CONNECT_CHANGE } else { p1 };
    if val & PORTSC_ENABLE_CHANGE != 0 { p2 & !PORTSC_ENABLE_CHANGE } else { p2 }
}

/// Emulated USB UHCI Controller
pub struct UsbController {
    cmd: u16,
    status: u16,
    intr_enable: u16,
    frame_num: u16,
    fl_base_addr: u32,
    sof_mod: u8,
    port1_status: u16,
    port2_status: u16,
    /// Pending USB input events (keyboard keys, mouse moves)
    pub input_events: VecDeque<UsbInputEvent>,
    /// Connected USB device passthrough identifiers
    pub passthrough_devices: Vec<String>,
}

impl UsbController {
    pub closed spec fn cmd(&self) -> u16 { self.cmd }
    pub closed spec fn status(&self) -> u16 { self.status }
    pub closed spec fn intr_enable(&self) -> u16 { self.intr_enable }
    pub closed spec fn frame_num(&self) -> u16 { self.frame_num }
    pub closed spec fn fl_base_addr(&self) -> u32 { self.fl_base_addr }
    pub closed spec fn sof_mod(&self) -> u8 { self.sof_mod }
    pub closed spec fn port1(&self) -> u16 { self.port1_status }
    pub closed spec fn port2(&self) -> u16 { self.port2_status }
    pub closed spec fn events(&self) -> Seq<UsbInputEvent> { self.input_events@ }
    pub closed spec fn passthrough(&self) -> Seq<String> { self.passthrough_devices@ }

    /// All registers and queues of `self` and `other` agree, except possibly
    /// the frame number.
    pub open spec fn same_but_frame(&self, other: &Self) -> bool {
        &&& other.cmd() == self.cmd() && other.status() == self.status()
        &&& other.intr_enable() == self.intr_enable() && other.fl_base_addr() == self.fl_base_addr()
        &&& other.sof_mod() == self.sof_mod() && other.port1() == self.port1()
        &&& other.port2() == self.port2() && other.events() == self.events()
        &&& other.passthrough() == self.passthrough()
    }

    /// The register value at `offset` as read from `self`, before size masking.
    pub open spec fn register_value(&self, offset: u16) -> u32 {
        if offset == 0x00 {
            self.cmd() as u32
        } else if offset == 0x02 {
            self.status() as u32
        } else if offset == 0x04 {
            self.intr_enable() as u32
        } else if offset == 0x06 {
            ((self.frame_num() + 1) % 2048) as u32
        } else if offset == 0x08 {
            self.fl_base_addr()
        } else if offset == 0x0C {
            self.sof_mod() as u32
        } else if offset == 0x10 {
            self.port1() as u32
        } else if offset == 0x12 {
            self.port2() as u32
        } else {
            0
        }
    }

    /// Relation between the controller before and after a read of `offset`
    /// with an access of `size` bytes, and the value read.
    pub open spec fn read_effect(self, offset: u16, size: u8, next: Self, value: u32) -> bool {
        &&& self.same_but_frame(&next)
        &&& next.frame_num() == (if offset == 0x06 { ((self.frame_num() + 1) % 2048) as u16 } else {
            self.frame_num()
        })
        &&& value == (if size == 1 {
            self.register_value(offset) & 0xFF
        } else if size == 2 {
            self.register_value(offset) & 0xFFFF
        } else {
            self.register_value(offset)
        })
    }

    /// Relation between the controller before and after a write of `data`
    /// (access width `size` bytes) to register `offset`.
    pub open spec fn write_effect(self, offset: u16, data: u32, size: u8, next: Self) -> bool {
        let v16 = (data % 0x1_0000) as u16;
        &&& next.events() == self.events() && next.passthrough() == self.passthrough()
        &&& next.cmd() == (if offset == 0x00 {
            if v16 & 0x0002 != 0 { 0 } else { v16 }
        } else {
            self.cmd()
        })
        &&& next.status() == (if offset == 0x00 && v16 & 0x0002 != 0 {
            0
        } else if offset == 0x02 {
            self.status() & !v16
        } else {
            self.status()
        })
        &&& next.intr_enable() == (if offset == 0x04 { v16 } else { self.intr_enable() })
        &&& next.frame_num() == (if offset == 0x06 { v16 % 2048 } else { self.frame_num() })
        &&& next.fl_base_addr() == (if offset == 0x08 {
            if size == 4 {
                data & 0xFFFF_F000
            } else {
                (self.fl_base_addr() & 0xFFFF_0000) | (data & 0xFFFF)
            }
        } else {
            self.fl_base_addr()
        })
        &&& next.sof_mod() == (if offset == 0x0C { (data % 256) as u8 } else { self.sof_mod() })
        &&& next.port1() == (if offset == 0x10 { port_written(self.port1(), v16) } else { self.port1() })
        &&& next.port2() == (if offset == 0x12 { port_written(self.port2(), v16) } else { self.port2() })
    }

    /// The state right after power-on.
    pub open spec fn at_power_on(&self) -> bool {
        &&& self.cmd() == 0 && self.status() == 0 && self.intr_enable() == 0x000F && self.frame_num() == 0
        &&& self.fl_base_addr() == 0 && self.sof_mod() == 0x40
        &&& self.port1() == 0x0107 && self.port2() == 0x0007
        &&& self.events().len() == 0 && self.passthrough().len() == 0
    }

    /// A controller with interrupts enabled, SOF modify 0x40, port 1 holding
    /// the low-speed HID hub and port 2 the passthrough slot (both connected,
    /// enabled, connect-change set), and no pending events.
    pub fn new() -> (u: Self)
        ensures
            u.at_power_on(),
    {
        UsbController {
            cmd: 0x0000,
            status: 0x0000,
            intr_enable: 0x000F,
            frame_num: 0x0000,
            fl_base_addr: 0x0000_0000,
            sof_mod: 0x40,
            // Connected, connect change, enabled, low speed
            port1_status: 0x0107,
            // Connected, connect change, enabled
            port2_status: 0x0007,
            input_events: VecDeque::new(),
            passthrough_devices: Vec::new(),
        }
    }

    /// Read UHCI register `offset` with an access of `size` bytes. Reading
    /// FRNUM advances the 11-bit frame counter first.
    pub fn read_io(&mut self, offset: u16, size: u8) -> (value: u32)
        ensures
            old(self).read_effect(offset, size, *final(self), value),
    {
        let val: u32 = match offset {
            0x00 => self.cmd as u32,
            0x02 => self.status as u32,
            0x04 => self.intr_enable as u32,
            0x06 => {
                let old_f = self.frame_num;
                let inc = old_f as u32 + 1;
                let wide = inc & 0x07FF;
                assert(wide == inc % 2048) by (bit_vector)
                    requires wide == inc & 0x07FF;
                let f = wide as u16;
                self.frame_num = f;
                f as u32
            },
            0x08 => self.fl_base_addr,
            0x0C => self.sof_mod as u32,
            0x10 => self.port1_status as u32,
            0x12 => self.port2_status as u32,
            _ => 0x0000_0000,
        };
        match size {
            1 => val & 0xFF,
            2 => val & 0xFFFF,
            _ => val,
        }
    }

    /// Write `data` (access width `size` bytes) to UHCI register `offset`.
    pub fn write_io(&mut self, offset: u16, data: u32, size: u8)
        ensures
            old(self).write_effect(offset, data, size, *final(self)),
    {
        let v16 = data as u16;
        assert(v16 == data % 0x1_0000) by (bit_vector)
            requires v16 == data as u16;
        match offset {
            0x00 => {
                self.cmd = v16;
                if v16 & 0x0002 != 0 {
                    self.cmd = 0x0000;
                    self.status = 0x0000;
                }
            },
            0x02 => {
                self.status = self.status & !v16;
            },
            0x04 => self.intr_enable = v16,
            0x06 => {
                let f = v16 & 0x07FF;
                assert(f == v16 % 2048) by (bit_vector)
                    requires f == v16 & 0x07FF;
                self.frame_num = f;
            },
            0x08 => {
                if size == 4 {
                    self.fl_base_addr = data & 0xFFFF_F000;
                } else {
                    self.fl_base_addr = (self.fl_base_addr & 0xFFFF_0000) | (data & 0xFFFF);
                }
            },
            0x0C => {
                let b = data as u8;
                assert(b == data % 256) by (bit_vector)
                    requires b == data as u8;
                self.sof_mod = b;
            },
            0x10 => {
                self.port1_status = Self::port_write(self.port1_status, v16);
            },
            0x12 => {
                self.port2_status = Self::port_write(self.port2_status, v16);
            },
            _ => {},
        }
    }

    fn port_write(p: u16, val: u16) -> (r: u16)
        ensures
            r == port_written(p, val),
    {
        let mut p = p;
        if val & PORTSC_PORT_RESET != 0 {
            p = p | PORTSC_PORT_ENABLE;
            p = p & !PORTSC_PORT_RESET;
        }
        if val & PORTSC_CONNECT_CHANGE != 0 {
            p = p & !PORTSC_CONNECT_CHANGE;
        }
        if val & PORTSC_ENABLE_CHANGE != 0 {
            p = p & !PORTSC_ENABLE_CHANGE;
        }
        p
    }

    /// Queue a keyboard key event for the virtual HID keyboard and raise USBINT.
    pub fn inject_keyboard_key(&mut self, key_code: u8, pressed: bool)
        ensures
            final(self).events() == old(self).events().push(
                UsbInputEvent::KeyboardKey { key_code, pressed },
            ),
            final(self).status() == old(self).status() | 0x0001,
            final(self).cmd() == old(self).cmd() && final(self).port1() == old(self).port1(),
            final(self).port2() == old(self).port2() && final(self).frame_num() == old(self).frame_num(),
            final(self).intr_enable() == old(self).intr_enable(),
            final(self).fl_base_addr() == old(self).fl_base_addr(),
            final(self).sof_mod() == old(self).sof_mod(),
            final(self).passthrough() == old(self).passthrough(),
    {
        self.input_events.push_back(UsbInputEvent::KeyboardKey { key_code, pressed });
        self.status = self.status | 0x0001;
    }

    /// Queue a mouse move event for the virtual HID mouse and raise USBINT.
    pub fn inject_mouse_move(&mut self, dx: i8, dy: i8, buttons: u8)
        ensures
            final(self).events() == old(self).events().push(
                UsbInputEvent::MouseMove { dx, dy, buttons },
            ),
            final(self).status() == old(self).status() | 0x0001,
            final(self).cmd() == old(self).cmd() && final(self).port1() == old(self).port1(),
            final(self).port2() == old(self).port2() && final(self).frame_num() == old(self).frame_num(),
            final(self).intr_enable() == old(self).intr_enable(),
            final(self).fl_base_addr() == old(self).fl_base_addr(),
            final(self).sof_mod() == old(self).sof_mod(),
            final(self).passthrough() == old(self).passthrough(),
    {
        self.input_events.push_back(UsbInputEvent::MouseMove { dx, dy, buttons });
        self.status = self.status | 0x0001;
    }
}

impl Default for UsbController {
    fn default() -> (u: Self)
        ensures
            u.at_power_on(),
    {
        Self::new()
    }
}

} // verus!
