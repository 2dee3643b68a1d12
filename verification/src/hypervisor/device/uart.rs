//! 8250/16550 UART serial port emulation (COM1 — ports 0x3F8–0x3FF).
//!
//! The guest OS writes serial console output to the Transmitter Holding
//! Register at offset 0; those bytes are captured in order so the host can
//! forward them to a console. The guest reads injected input (stdin) back from
//! the Receiver Buffer, in the order it was injected.
use vstd::prelude::*;
use crate::util::bits::{lemma_byte_bits, lemma_word_bits};
use std::collections::VecDeque;

verus! {

/// Intel 8250/16550A UART emulation.
pub struct Uart8250 {
    /// Enable divisor latch access (bit 7 of LCR).
    dlab: bool,
    /// Baud-rate divisor (16-bit).
    divisor: u16,
    /// Interrupt Enable Register.
    ier: u8,
    /// Line Control Register (data format, DLAB).
    lcr: u8,
    /// Modem Control Register.
    mcr: u8,
    /// Line Status Register: TX always empty (0x60); RX data ready when input present.
    lsr: u8,
    /// Modem Status Register: all control signals asserted.
    msr: u8,
    /// Scratch register.
    scratch: u8,
    /// TX buffer — bytes written by the guest.
    output: VecDeque<u8>,
    /// RX buffer — bytes to feed back to the guest.
    input: VecDeque<u8>,
}

impl Uart8250 {
    pub closed spec fn dlab(&self) -> bool { self.dlab }
    pub closed spec fn divisor(&self) -> u16 { self.divisor }
    pub closed spec fn ier(&self) -> u8 { self.ier }
    pub closed spec fn lcr(&self) -> u8 { self.lcr }
    pub closed spec fn mcr(&self) -> u8 { self.mcr }
    pub closed spec fn lsr(&self) -> u8 { self.lsr }
    pub closed spec fn msr(&self) -> u8 { self.msr }
    pub closed spec fn scratch(&self) -> u8 { self.scratch }
    /// Bytes written by the guest and not yet drained, oldest first.
    pub closed spec fn pending_output(&self) -> Seq<u8> { self.output@ }
    /// Bytes injected for the guest and not yet read, oldest first.
    pub closed spec fn pending_input(&self) -> Seq<u8> { self.input@ }

    /// All registers and both buffers of `self` and `other` agree, except the
    /// ones named by the flags.
    pub open spec fn same_except(
        &self,
        other: &Self,
        divisor: bool,
        ier: bool,
        lcr: bool,
        mcr: bool,
        lsr: bool,
        scratch: bool,
        output: bool,
        input: bool,
    ) -> bool {
        &&& (divisor || other.divisor() == self.divisor())
        &&& (ier || other.ier() == self.ier())
        &&& (lcr || (other.lcr() == self.lcr() && other.dlab() == self.dlab()))
        &&& (mcr || other.mcr() == self.mcr())
        &&& (lsr || other.lsr() == self.lsr())
        &&& other.msr() == self.msr()
        &&& (scratch || other.scratch() == self.scratch())
        &&& (output || other.pending_output() == self.pending_output())
        &&& (input || other.pending_input() == self.pending_input())
    }

    /// Relation between the UART before and after a read of register `offset`,
    /// and the value read.
    pub open spec fn read_effect(self, offset: u16, next: Self, value: u8) -> bool {
        if offset == 0 && !self.dlab() {
            if self.pending_input().len() == 0 {
                value == 0 && self.same_except(&next, false, false, false, false, false, false, false, false)
            } else {
                let rest = self.pending_input().drop_first();
                &&& value == self.pending_input()[0]
                &&& next.pending_input() == rest
                &&& next.lsr() == (if rest.len() == 0 { self.lsr() & 0xFE } else { self.lsr() })
                &&& self.same_except(&next, false, false, false, false, true, false, false, true)
            }
        } else {
            &&& next == self
            &&& value == (if offset == 0 {
                (self.divisor() % 256) as u8
            } else if offset == 1 {
                if self.dlab() { (self.divisor() / 256) as u8 } else { self.ier() }
            } else if offset == 2 {
                0x01
            } else if offset == 3 {
                self.lcr()
            } else if offset == 4 {
                self.mcr()
            } else if offset == 5 {
                self.lsr()
            } else if offset == 6 {
                self.msr()
            } else if offset == 7 {
                self.scratch()
            } else {
                0xFF
            })
        }
    }

    /// Relation between the UART before and after a write of the low byte of
    /// `data` to register `offset`.
    pub open spec fn write_effect(self, offset: u16, data: u64, next: Self) -> bool {
        let byte = (data % 256) as u8;
        if offset == 0 {
            if self.dlab() {
                &&& next.divisor() == (self.divisor() / 256) * 256 + byte
                &&& self.same_except(&next, true, false, false, false, false, false, false, false)
            } else {
                &&& next.pending_output() == self.pending_output().push(byte)
                &&& self.same_except(&next, false, false, false, false, false, false, true, false)
            }
        } else if offset == 1 {
            if self.dlab() {
                &&& next.divisor() == (self.divisor() % 256) + byte * 256
                &&& self.same_except(&next, true, false, false, false, false, false, false, false)
            } else {
                &&& next.ier() == byte % 16
                &&& self.same_except(&next, false, true, false, false, false, false, false, false)
            }
        } else if offset == 3 {
            &&& next.lcr() == byte
            &&& next.dlab() == (byte >= 0x80)
            &&& self.same_except(&next, false, false, true, false, false, false, false, false)
        } else if offset == 4 {
            &&& next.mcr() == byte % 32
            &&& self.same_except(&next, false, false, false, true, false, false, false, false)
        } else if offset == 7 {
            &&& next.scratch() == byte
            &&& self.same_except(&next, false, false, false, false, false, true, false, false)
        } else {
            next == self
        }
    }

    /// The state right after power-on.
    pub open spec fn at_power_on(&self) -> bool {
        &&& !self.dlab() && self.divisor() == 1 && self.ier() == 0 && self.lcr() == 0 && self.mcr() == 0
        &&& self.lsr() == 0x60 && self.msr() == 0xB0 && self.scratch() == 0
        &&& self.pending_output().len() == 0 && self.pending_input().len() == 0
    }

    /// A UART with divisor 1, transmitter always empty, all modem signals
    /// asserted and both buffers empty.
    pub fn new() -> (u: Self)
        ensures
            u.at_power_on(),
    {
        Uart8250 {
            dlab: false,
            divisor: 1,
            ier: 0,
            lcr: 0,
            mcr: 0,
            lsr: 0x60,
            msr: 0xB0,
            scratch: 0,
            output: VecDeque::new(),
            input: VecDeque::new(),
        }
    }

    /// Read from UART register `offset` (0–7 relative to the base port).
    pub fn read(&mut self, offset: u16) -> (value: u8)
        ensures
            old(self).read_effect(offset, *final(self), value),
    {
        match offset {
            0 => {
                if self.dlab {
                    let dv = self.divisor;
                    let lo = dv & 0xFF;
                    proof {
                        lemma_byte_bits();
                        lemma_word_bits();
                    }
                    assert(lo == dv % 256);
                    lo as u8
                } else {
                    match self.input.pop_front() {
                        Some(b) => {
                            if self.input.len() == 0 {
                                let prev = self.lsr;
                                let cleared = prev & !0x01u8;
                                proof {
                                    lemma_byte_bits();
                                    lemma_word_bits();
                                }
                                assert(cleared == prev & 0xFE);
                                self.lsr = cleared;
                            }
                            b
                        },
                        None => 0,
                    }
                }
            },
            1 => {
                if self.dlab {
                    let dv = self.divisor;
                    let hi = (dv >> 8u16) & 0xFF;
                    proof {
                        lemma_byte_bits();
                        lemma_word_bits();
                    }
                    assert(hi == dv / 256);
                    hi as u8
                } else {
                    self.ier
                }
            },
            2 => 0x01,
            3 => self.lcr,
            4 => self.mcr,
            5 => self.lsr,
            6 => self.msr,
            7 => self.scratch,
            _ => 0xFF,
        }
    }

    /// Write the low byte of `data` to UART register `offset`.
    pub fn write(&mut self, offset: u16, data: u64)
        ensures
            old(self).write_effect(offset, data, *final(self)),
    {
        let byte = data as u8;
        assert(byte == data % 256) by (bit_vector)
            requires byte == data as u8;
        match offset {
            0 => {
                if self.dlab {
                    let dv = self.divisor;
                    let d = (dv & 0xFF00) | (byte as u16);
                    proof {
                        lemma_byte_bits();
                        lemma_word_bits();
                    }
                    assert(d == (dv / 256) * 256 + byte);
                    self.divisor = d;
                } else {
                    self.output.push_back(byte);
                }
            },
            1 => {
                if self.dlab {
                    let dv = self.divisor;
                    let d = (dv & 0xFF) | ((byte as u16) << 8u16);
                    proof {
                        lemma_byte_bits();
                        lemma_word_bits();
                    }
                    assert(d == (dv % 256) + byte * 256);
                    self.divisor = d;
                } else {
                    let v = byte & 0x0F;
                    proof {
                        lemma_byte_bits();
                        lemma_word_bits();
                    }
                    assert(v == byte % 16);
                    self.ier = v;
                }
            },
            2 => {},
            3 => {
                self.lcr = byte;
                let d = byte & 0x80 != 0;
                proof {
                    lemma_byte_bits();
                    lemma_word_bits();
                }
                assert(d == (byte >= 0x80));
                self.dlab = d;
            },
            4 => {
                let v = byte & 0x1F;
                proof {
                    lemma_byte_bits();
                    lemma_word_bits();
                }
                assert(v == byte % 32);
                self.mcr = v;
            },
            5 | 6 => {},
            7 => {
                self.scratch = byte;
            },
            _ => {},
        }
    }

    /// Drain all pending serial output written by the guest, oldest first.
    pub fn drain_output(&mut self) -> (out: Vec<u8>)
        ensures
            out@ == old(self).pending_output(),
            final(self).pending_output().len() == 0,
            old(self).same_except(&*final(self), false, false, false, false, false, false, true, false),
    {
        let mut out: Vec<u8> = Vec::new();
        while self.output.len() > 0
            invariant
                out@ + self.output@ == old(self).output@,
                self.dlab == old(self).dlab && self.divisor == old(self).divisor,
                self.ier == old(self).ier && self.lcr == old(self).lcr,
                self.mcr == old(self).mcr && self.lsr == old(self).lsr,
                self.msr == old(self).msr && self.scratch == old(self).scratch,
                self.input@ == old(self).input@,
            decreases self.output@.len(),
        {
            let b = self.output.pop_front();
            match b {
                Some(x) => {
                    out.push(x);
                    assert(out@ + self.output@ =~= old(self).output@);
                },
                None => {},
            }
        }
        assert(out@ =~= old(self).output@);
        out
    }

    /// Append `bytes` to the receive buffer (keyboard / stdin for the guest)
    /// and raise Data Ready when the buffer is not empty.
    pub fn inject_input(&mut self, bytes: &[u8])
        ensures
            final(self).pending_input() == old(self).pending_input() + bytes@,
            final(self).lsr() == (if final(self).pending_input().len() > 0 {
                old(self).lsr() | 0x01
            } else {
                old(self).lsr()
            }),
            old(self).same_except(&*final(self), false, false, false, false, true, false, false, true),
    {
        let mut i: usize = 0;
        while i < bytes.len()
            invariant
                i <= bytes.len(),
                self.input@ == old(self).input@ + bytes@.subrange(0, i as int),
                self.dlab == old(self).dlab && self.divisor == old(self).divisor,
                self.ier == old(self).ier && self.lcr == old(self).lcr,
                self.mcr == old(self).mcr && self.lsr == old(self).lsr,
                self.msr == old(self).msr && self.scratch == old(self).scratch,
                self.output@ == old(self).output@,
            decreases bytes.len() - i,
        {
            self.input.push_back(bytes[i]);
            i = i + 1;
            assert(self.input@ =~= old(self).input@ + bytes@.subrange(0, i as int));
        }
        assert(bytes@.subrange(0, bytes.len() as int) =~= bytes@);
        if self.input.len() > 0 {
            self.lsr = self.lsr | 0x01;
        }
    }
}

impl Default for Uart8250 {
    fn default() -> (u: Self)
        ensures
            u.at_power_on(),
    {
        Self::new()
    }
}

/// The Data Ready bit (bit 0 of the line status) is set exactly when bytes
/// wait in the receive queue.
pub open spec fn data_ready_tracks(u: Uart8250) -> bool {
    ((u.lsr() & 1) == 1) == (u.pending_input().len() > 0)
}

/// After power-on no byte waits and Data Ready is clear.
pub proof fn law_data_ready_at_power_on(u: Uart8250)
    requires
        u.at_power_on(),
    ensures
        data_ready_tracks(u),
{
    assert((0x60u8 & 1) == 0) by (bit_vector);
}

/// A read keeps Data Ready in step with the receive queue: `next` and
/// `value` are the state and value of a read of register `offset` of `u`.
pub proof fn law_data_ready_kept_by_read(u: Uart8250, offset: u16, next: Uart8250, value: u8)
    requires
        data_ready_tracks(u),
        u.read_effect(offset, next, value),
    ensures
        data_ready_tracks(next),
{
    lemma_byte_bits();
}

/// A write keeps Data Ready in step with the receive queue.
pub proof fn law_data_ready_kept_by_write(u: Uart8250, offset: u16, data: u64, next: Uart8250)
    requires
        data_ready_tracks(u),
        u.write_effect(offset, data, next),
    ensures
        data_ready_tracks(next),
{
}

/// Injecting input keeps Data Ready in step with the receive queue, which
/// grows by the injected bytes: `next` is `u` after `inject_input(bytes)`.
pub proof fn law_data_ready_kept_by_input(u: Uart8250, bytes: Seq<u8>, next: Uart8250)
    requires
        data_ready_tracks(u),
        next.pending_input() == u.pending_input() + bytes,
        next.lsr() == (if next.pending_input().len() > 0 { u.lsr() | 0x01 } else { u.lsr() }),
    ensures
        data_ready_tracks(next),
{
    lemma_byte_bits();
}

} // verus!
