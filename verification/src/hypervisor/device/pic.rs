//! Intel 8259A Programmable Interrupt Controller (PIC) emulation.
//!
//! The PC uses a master/slave cascade of two 8259 chips:
//! - Master PIC: ports 0x20 (command) and 0x21 (data), IRQs 0–7 → INTs 0x08–0x0F
//! - Slave PIC:  ports 0xA0 (command) and 0xA1 (data), IRQs 8–15 → INTs 0x70–0x77
//!
//! The emulation handles the ICW1–ICW4 initialization sequence and the
//! OCW1–OCW3 operational words.
use vstd::prelude::*;

verus! {

/// Intel 8259A PIC emulation for one chip (master or slave).
pub struct Pic8259 {
    /// Interrupt base vector (set via ICW2).
    base_vector: u8,
    /// Interrupt Mask Register: 1 = masked (disabled).
    imr: u8,
    /// Interrupt Request Register: pending hardware IRQs.
    irr: u8,
    /// In-Service Register: IRQs currently being serviced.
    isr: u8,
    /// Position inside the ICW2–ICW4 initialization sequence (0 = not initializing).
    init_phase: u8,
    /// Automatic End of Interrupt mode.
    auto_eoi: bool,
    /// OCW3 read mode: true = ISR, false = IRR.
    read_isr: bool,
}

/// `x` with its lowest set bit cleared (the highest-priority in-service level).
pub open spec fn clear_lowest_bit(x: u8) -> u8 {
    if x == 0 { 0 } else { x & ((x - 1) as u8) }
}

/// `x` with bit `level` cleared.
pub open spec fn clear_bit(x: u8, level: u8) -> u8
    recommends level < 8,
{
    x & !(1u8 << level)
}

impl Pic8259 {
    pub closed spec fn base_vector_reg(&self) -> u8 { self.base_vector }
    pub closed spec fn imr_reg(&self) -> u8 { self.imr }
    pub closed spec fn irr_reg(&self) -> u8 { self.irr }
    pub closed spec fn isr_reg(&self) -> u8 { self.isr }
    pub closed spec fn init_phase_reg(&self) -> u8 { self.init_phase }
    pub closed spec fn auto_eoi_mode(&self) -> bool { self.auto_eoi }
    pub closed spec fn reads_isr(&self) -> bool { self.read_isr }

    /// The register values after a command-port write of `data`.
    pub open spec fn command_effect(self, data: u8, next: Self) -> bool {
        if data & 0x10 != 0 {
            // ICW1: begin initialization
            &&& next.init_phase_reg() == 1
            &&& next.imr_reg() == 0 && next.irr_reg() == 0 && next.isr_reg() == 0
            &&& !next.auto_eoi_mode() && !next.reads_isr()
            &&& next.base_vector_reg() == self.base_vector_reg()
        } else if data & 0x08 != 0 {
            // OCW3: select read register
            &&& next.reads_isr() == (if data & 0x03 == 0x02 { false } else if data & 0x03
                == 0x03 { true } else { self.reads_isr() })
            &&& next.base_vector_reg() == self.base_vector_reg()
            &&& next.imr_reg() == self.imr_reg() && next.irr_reg() == self.irr_reg()
            &&& next.isr_reg() == self.isr_reg() && next.init_phase_reg() == self.init_phase_reg()
            &&& next.auto_eoi_mode() == self.auto_eoi_mode()
        } else {
            // OCW2: end of interrupt
            let op = (data >> 5u8) & 0x07;
            &&& next.isr_reg() == (if op == 1 || op == 5 {
                clear_lowest_bit(self.isr_reg())
            } else if op == 3 || op == 7 {
                clear_bit(self.isr_reg(), data & 0x07)
            } else {
                self.isr_reg()
            })
            &&& next.base_vector_reg() == self.base_vector_reg()
            &&& next.imr_reg() == self.imr_reg() && next.irr_reg() == self.irr_reg()
            &&& next.init_phase_reg() == self.init_phase_reg()
            &&& next.auto_eoi_mode() == self.auto_eoi_mode() && next.reads_isr() == self.reads_isr()
        }
    }

    /// The register values after a data-port write of `data`.
    pub open spec fn data_effect(self, data: u8, next: Self) -> bool {
        &&& next.irr_reg() == self.irr_reg() && next.isr_reg() == self.isr_reg()
        &&& next.reads_isr() == self.reads_isr()
        &&& next.imr_reg() == (if self.init_phase_reg() == 0 { data } else { self.imr_reg() })
        &&& next.base_vector_reg() == (if self.init_phase_reg() == 1 { data & 0xF8 } else {
            self.base_vector_reg()
        })
        &&& next.init_phase_reg() == (if self.init_phase_reg() == 1 { 2 } else if self.init_phase_reg()
            == 2 { 3 } else if self.init_phase_reg() == 3 { 0 } else { self.init_phase_reg() })
        &&& next.auto_eoi_mode() == (if self.init_phase_reg() == 3 { data & 0x02 != 0 } else {
            self.auto_eoi_mode()
        })
    }

    /// The value a read of port `port_bit` returns.
    pub open spec fn read_value(&self, port_bit: u16) -> u8 {
        if port_bit == 0 {
            if self.reads_isr() { self.isr_reg() } else { self.irr_reg() }
        } else if port_bit == 1 {
            self.imr_reg()
        } else {
            0xFF
        }
    }

    /// Relation between the PIC before and after a write of `data` to port `port_bit`.
    pub open spec fn write_effect(self, port_bit: u16, data: u8, next: Self) -> bool {
        &&& port_bit == 0 ==> self.command_effect(data, next)
        &&& port_bit == 1 ==> self.data_effect(data, next)
        &&& port_bit > 1 ==> next == self
    }

    /// The state right after power-on.
    pub open spec fn at_power_on(&self, base_vector: u8) -> bool {
        &&& self.base_vector_reg() == base_vector
        &&& self.imr_reg() == 0xFF
        &&& self.irr_reg() == 0 && self.isr_reg() == 0 && self.init_phase_reg() == 0
        &&& !self.auto_eoi_mode() && !self.reads_isr()
    }

    /// Create a new PIC with the given base interrupt vector; every IRQ starts masked.
    pub fn new(base_vector: u8) -> (pic: Self)
        ensures
            pic.at_power_on(base_vector),
    {
        Pic8259 {
            base_vector,
            imr: 0xFF,
            irr: 0,
            isr: 0,
            init_phase: 0,
            auto_eoi: false,
            read_isr: false,
        }
    }

    /// Port read: `port_bit` is 0 for the command port, 1 for the data port.
    pub fn read(&self, port_bit: u16) -> (value: u8)
        ensures
            value == self.read_value(port_bit),
    {
        match port_bit {
            0 => if self.read_isr { self.isr } else { self.irr },
            1 => self.imr,
            _ => 0xFF,
        }
    }

    /// Port write: `port_bit` 0 is the command port, 1 the data port; others are ignored.
    pub fn write(&mut self, port_bit: u16, data: u8)
        ensures
            old(self).write_effect(port_bit, data, *final(self)),
    {
        match port_bit {
            0 => self.write_command(data),
            1 => self.write_data(data),
            _ => {},
        }
    }

    fn write_command(&mut self, data: u8)
        ensures
            old(self).command_effect(data, *final(self)),
    {
        if data & 0x10 != 0 {
            self.init_phase = 1;
            self.imr = 0;
            self.irr = 0;
            self.isr = 0;
            self.auto_eoi = false;
            self.read_isr = false;
        } else if data & 0x08 != 0 {
            let mode = data & 0x03;
            if mode == 0x02 {
                self.read_isr = false;
            } else if mode == 0x03 {
                self.read_isr = true;
            }
        } else {
            let op = (data >> 5u8) & 0x07;
            if op == 0x01 || op == 0x05 {
                if self.isr != 0 {
                    self.isr = self.isr & (self.isr - 1);
                }
            } else if op == 0x03 || op == 0x07 {
                let level = data & 0x07;
                assert(level < 8) by (bit_vector)
                    requires level == data & 0x07;
                self.isr = self.isr & !(1u8 << level);
            }
        }
    }

    fn write_data(&mut self, data: u8)
        ensures
            old(self).data_effect(data, *final(self)),
    {
        match self.init_phase {
            0 => {
                self.imr = data;
            },
            1 => {
                self.base_vector = data & 0xF8;
                self.init_phase = 2;
            },
            2 => {
                self.init_phase = 3;
            },
            3 => {
                self.auto_eoi = data & 0x02 != 0;
                self.init_phase = 0;
            },
            _ => {},
        }
    }

    /// Signal hardware interrupt request `irq`. Returns the INT vector when the
    /// line is unmasked, or `None` when it is masked. The request is latched in
    /// the IRR either way.
    pub fn assert_irq(&mut self, irq: u8) -> (vector: Option<u8>)
        requires
            irq < 8,
            old(self).imr_reg() & (1u8 << irq) == 0 ==> old(self).base_vector_reg() + irq <= 255,
        ensures
            final(self).irr_reg() == old(self).irr_reg() | (1u8 << irq),
            final(self).imr_reg() == old(self).imr_reg(),
            final(self).isr_reg() == old(self).isr_reg(),
            final(self).base_vector_reg() == old(self).base_vector_reg(),
            final(self).init_phase_reg() == old(self).init_phase_reg(),
            final(self).auto_eoi_mode() == old(self).auto_eoi_mode(),
            final(self).reads_isr() == old(self).reads_isr(),
            vector == (if old(self).imr_reg() & (1u8 << irq) == 0 {
                Some((old(self).base_vector_reg() + irq) as u8)
            } else {
                None::<u8>
            }),
    {
        let bit = 1u8 << irq;
        self.irr = self.irr | bit;
        if self.imr & bit == 0 {
            Some(self.base_vector + irq)
        } else {
            None
        }
    }
}

impl Default for Pic8259 {
    fn default() -> (pic: Self)
        ensures
            pic.at_power_on(0x08),
    {
        Self::new(0x08)
    }
}

} // verus!
