//! Native VirtIO Network Adapter.
//!
//! A built-in virtual Ethernet interface: guest MAC address, RX/TX frame
//! queues in arrival order, byte counters, and an interrupt status register.
use vstd::prelude::*;
use std::collections::VecDeque;

verus! {

/// Standard Ethernet MAC address (6 bytes).
pub type MacAddress = [u8; 6];

/// The default NovaVM virtual network MAC address 52:54:00:12:34:56.
pub fn default_mac() -> (m: MacAddress)
    ensures
        m@ == seq![0x52u8, 0x54u8, 0x00u8, 0x12u8, 0x34u8, 0x56u8],
{
    let m: MacAddress = [0x52, 0x54, 0x00, 0x12, 0x34, 0x56];
    assert(m@ =~= seq![0x52u8, 0x54u8, 0x00u8, 0x12u8, 0x34u8, 0x56u8]);
    m
}

/// Status of the VirtIO Network device.
#[derive(Clone, Copy, PartialEq, Eq, Structural)]
pub enum NetDeviceStatus {
    Reset,
    Acknowledged,
    DriverFound,
    DriverReady,
    Failed,
}

/// VirtIO Network Device state.
pub struct VirtioNetDevice {
    /// Device MAC address.
    pub mac: MacAddress,
    /// Current device status register.
    pub status: NetDeviceStatus,
    /// Pending transmit packet queue (guest -> host).
    pub tx_queue: VecDeque<Vec<u8>>,
    /// Pending receive packet queue (host -> guest).
    pub rx_queue: VecDeque<Vec<u8>>,
    /// Link status (true = up).
    pub link_up: bool,
    /// Total bytes transmitted.
    pub tx_bytes: u64,
    /// Total bytes received.
    pub rx_bytes: u64,
    /// Interrupt Status Register.
    pub isr: u8,
}

impl VirtioNetDevice {
    /// The value a read of register `reg` returns.
    pub open spec fn read_value(&self, reg: u8) -> u8 {
        if reg < 6 {
            self.mac@[reg as int]
        } else if reg == 6 {
            if self.link_up { 1u8 } else { 0u8 }
        } else if reg == 7 {
            self.isr
        } else if reg == 8 {
            (self.tx_queue@.len() % 256) as u8
        } else if reg == 9 {
            (self.rx_queue@.len() % 256) as u8
        } else {
            0u8
        }
    }

    /// Relation between the device before and after a write of `val` to `reg`.
    pub open spec fn write_effect(self, reg: u8, val: u8, next: Self) -> bool {
        &&& reg == 6 ==> next.link_up == (val & 0x01 != 0) && next.isr == self.isr
            && next.tx_queue@ == self.tx_queue@ && next.rx_queue@ == self.rx_queue@
            && next.status == self.status
        &&& reg == 7 ==> next.isr == self.isr & !val && next.link_up == self.link_up
            && next.tx_queue@ == self.tx_queue@ && next.rx_queue@ == self.rx_queue@
            && next.status == self.status
        &&& reg == 0x0A && val == 1 ==> next.status == NetDeviceStatus::Reset
            && next.tx_queue@.len() == 0 && next.rx_queue@.len() == 0
            && next.isr == 0 && next.link_up == self.link_up
        &&& reg != 6 && reg != 7 && !(reg == 0x0A && val == 1) ==> next == self
        &&& next.mac == self.mac
        &&& next.tx_bytes == self.tx_bytes && next.rx_bytes == self.rx_bytes
    }

    /// The state right after power-on.
    pub open spec fn at_power_on(&self) -> bool {
        &&& self.mac@ == seq![0x52u8, 0x54u8, 0x00u8, 0x12u8, 0x34u8, 0x56u8]
        &&& self.status == NetDeviceStatus::Reset
        &&& self.tx_queue@.len() == 0 && self.rx_queue@.len() == 0
        &&& self.link_up && self.tx_bytes == 0 && self.rx_bytes == 0 && self.isr == 0
    }

    /// A device with the default MAC, link up, empty queues and zero counters.
    pub fn new() -> (d: Self)
        ensures
            d.at_power_on(),
    {
        VirtioNetDevice {
            mac: default_mac(),
            status: NetDeviceStatus::Reset,
            tx_queue: VecDeque::new(),
            rx_queue: VecDeque::new(),
            link_up: true,
            tx_bytes: 0,
            rx_bytes: 0,
            isr: 0,
        }
    }

    /// Reset the device: status Reset, both queues emptied, interrupts cleared;
    /// MAC, link and counters are kept.
    pub fn reset(&mut self)
        ensures
            final(self).status == NetDeviceStatus::Reset,
            final(self).tx_queue@.len() == 0 && final(self).rx_queue@.len() == 0,
            final(self).isr == 0,
            final(self).mac == old(self).mac && final(self).link_up == old(self).link_up,
            final(self).tx_bytes == old(self).tx_bytes && final(self).rx_bytes == old(self).rx_bytes,
    {
        self.status = NetDeviceStatus::Reset;
        self.tx_queue.clear();
        self.rx_queue.clear();
        self.isr = 0;
    }

    /// Read device register `reg` (0–5 MAC, 6 link, 7 ISR, 8/9 queue lengths mod 256).
    pub fn io_read(&mut self, reg: u8) -> (v: u8)
        ensures
            *final(self) == *old(self),
            v == old(self).read_value(reg),
    {
        if reg < 6 {
            self.mac[reg as usize]
        } else if reg == 6 {
            if self.link_up { 0x01 } else { 0x00 }
        } else if reg == 7 {
            self.isr
        } else if reg == 8 {
            let n = self.tx_queue.len();
            let b = n & 0xFF;
            assert(b == n % 256) by (bit_vector)
                requires b == n & 0xFF;
            b as u8
        } else if reg == 9 {
            let n = self.rx_queue.len();
            let b = n & 0xFF;
            assert(b == n % 256) by (bit_vector)
                requires b == n & 0xFF;
            b as u8
        } else {
            0x00
        }
    }

    /// Write device register `reg`: 6 sets the link from bit 0, 7 acknowledges
    /// (clears) interrupt bits, 0x0A with value 1 resets the device.
    pub fn io_write(&mut self, reg: u8, val: u8)
        ensures
            old(self).write_effect(reg, val, *final(self)),
    {
        if reg == 0x06 {
            self.link_up = (val & 0x01) != 0;
        } else if reg == 0x07 {
            self.isr = self.isr & !val;
        } else if reg == 0x0A {
            if val == 0x01 {
                self.reset();
            }
        }
    }

    /// Queue an Ethernet frame sent by the guest and count its bytes.
    pub fn transmit_frame(&mut self, frame: Vec<u8>)
        requires
            old(self).tx_bytes + frame.len() <= u64::MAX,
        ensures
            final(self).tx_bytes == old(self).tx_bytes + frame.len(),
            final(self).tx_queue@ == old(self).tx_queue@.push(frame),
            final(self).rx_queue@ == old(self).rx_queue@ && final(self).rx_bytes == old(self).rx_bytes,
            final(self).isr == old(self).isr && final(self).status == old(self).status,
            final(self).mac == old(self).mac && final(self).link_up == old(self).link_up,
    {
        self.tx_bytes = self.tx_bytes + frame.len() as u64;
        self.tx_queue.push_back(frame);
    }

    /// Queue an Ethernet frame for the guest, count its bytes, and raise the
    /// RX interrupt (ISR bit 0).
    pub fn receive_frame(&mut self, frame: Vec<u8>)
        requires
            old(self).rx_bytes + frame.len() <= u64::MAX,
        ensures
            final(self).rx_bytes == old(self).rx_bytes + frame.len(),
            final(self).rx_queue@ == old(self).rx_queue@.push(frame),
            final(self).isr == old(self).isr | 0x01,
            final(self).tx_queue@ == old(self).tx_queue@ && final(self).tx_bytes == old(self).tx_bytes,
            final(self).status == old(self).status,
            final(self).mac == old(self).mac && final(self).link_up == old(self).link_up,
    {
        self.rx_bytes = self.rx_bytes + frame.len() as u64;
        self.rx_queue.push_back(frame);
        self.isr = self.isr | 0x01;
    }

    /// Take the oldest frame sent by the guest, if any.
    pub fn pop_tx_frame(&mut self) -> (f: Option<Vec<u8>>)
        ensures
            old(self).tx_queue@.len() == 0 ==> f is None && final(self).tx_queue@.len() == 0,
            old(self).tx_queue@.len() > 0 ==> f == Some(old(self).tx_queue@[0])
                && final(self).tx_queue@ == old(self).tx_queue@.drop_first(),
            final(self).rx_queue@ == old(self).rx_queue@,
            final(self).tx_bytes == old(self).tx_bytes && final(self).rx_bytes == old(self).rx_bytes,
            final(self).isr == old(self).isr && final(self).status == old(self).status,
            final(self).mac == old(self).mac && final(self).link_up == old(self).link_up,
    {
        self.tx_queue.pop_front()
    }
}

impl Default for VirtioNetDevice {
    fn default() -> (d: Self)
        ensures
            d.at_power_on(),
    {
        Self::new()
    }
}

} // verus!
