//! TPM 2.0 (Trusted Platform Module) virtual device emulation.
//!
//! Implements the TPM 2.0 TIS register set over I/O ports (0x00F0–0x00F7).
//! Commands written to the data FIFO are executed once the size announced in
//! their header has arrived (or when the guest sets `dataAvail` in STS):
//! - `TPM2_Startup` (0x00000144) and `TPM2_SelfTest` (0x00000143): success
//! - `TPM2_GetCapability` (0x0000017A): family "2.0" and manufacturer "NOVA"
//! - `TPM2_PCR_Read` (0x0000017E): all 24 SHA-256 PCRs
//! - `TPM2_PCR_Extend` (0x00000182): XOR-folds the digest into PCR0
//! - any other code: success with an empty payload
use vstd::prelude::*;
use std::collections::VecDeque;
use crate::util::bytes::{
    be16, be32, be32_value, be16_value, push_be16, push_be32, read_be16, read_be32,
};

verus! {

/// TPM TIS register offsets (Locality 0).
pub const TPM_ACCESS: u8 = 0x00;
pub const TPM_INT_ENABLE: u8 = 0x08;
pub const TPM_INT_VECTOR: u8 = 0x0C;
pub const TPM_INT_STATUS: u8 = 0x10;
pub const TPM_INTF_CAPS: u8 = 0x14;
pub const TPM_STS: u8 = 0x18;
pub const TPM_DATA_FIFO: u8 = 0x24;
pub const TPM_DID_VID: u8 = 0xF0;
pub const TPM_RID: u8 = 0xF4;

/// TPM_RC_COMMAND_SIZE: the response to a command shorter than its header.
pub const TPM_RC_COMMAND_SIZE: u32 = 0x0000_0101;

/// Number of PCRs and bytes per PCR digest.
pub const PCR_COUNT: usize = 24;
pub const PCR_SIZE: usize = 32;

/// Response tag for a command tag: sessions are echoed, everything else gets
/// TPM_ST_NO_SESSIONS.
pub open spec fn response_tag(tag: u16) -> u16 {
    if tag == 0x8002 { 0x8002 } else { 0x8001 }
}

/// A success response (RC = 0) carrying `payload`.
pub open spec fn success_response(tag: u16, payload: Seq<u8>) -> Seq<u8> {
    be16(response_tag(tag)) + be32((10 + payload.len()) as u32) + be32(0) + payload
}

/// An error response with return code `rc`.
pub open spec fn error_response(rc: u32) -> Seq<u8> {
    be16(0x8001) + be32(10) + be32(rc)
}

/// TPM2_GetCapability payload: TPM_PT_FAMILY_INDICATOR = "2.0" and
/// TPM_PT_MANUFACTURER = "NOVA".
pub open spec fn capability_payload() -> Seq<u8> {
    seq![0u8] + be32(6) + be32(2) + be32(0x100) + be32(0x322E_3000) + be32(0x105) + be32(
        0x4E4F_5641,
    )
}

/// The size-prefixed digests of `pcrs`, in order.
pub open spec fn pcr_digest_list(pcrs: Seq<Seq<u8>>) -> Seq<u8>
    decreases pcrs.len(),
{
    if pcrs.len() == 0 {
        Seq::empty()
    } else {
        pcr_digest_list(pcrs.drop_last()) + be16(32) + pcrs.last()
    }
}

/// TPM2_PCR_Read payload: update counter 1, one SHA-256 selection of PCRs
/// 0–23, then the 24 digests.
pub open spec fn pcr_read_payload(pcrs: Seq<Seq<u8>>) -> Seq<u8> {
    be32(1) + be32(1) + be16(0x000B) + seq![3u8, 0xFFu8, 0xFFu8, 0xFFu8] + be32(24)
        + pcr_digest_list(pcrs)
}

/// The command code of a command buffer (bytes 6–9, big-endian).
pub open spec fn command_code(rx: Seq<u8>) -> u32 {
    be32_value(rx[6], rx[7], rx[8], rx[9])
}

/// The command tag of a command buffer (bytes 0–1, big-endian).
pub open spec fn command_tag(rx: Seq<u8>) -> u16 {
    be16_value(rx[0], rx[1])
}

/// The size announced in a command header (bytes 2–5, big-endian).
pub open spec fn command_size(rx: Seq<u8>) -> u32 {
    be32_value(rx[2], rx[3], rx[4], rx[5])
}

/// The payload of the success response to the command in `rx`.
pub open spec fn response_payload(rx: Seq<u8>, pcrs: Seq<Seq<u8>>) -> Seq<u8> {
    let code = command_code(rx);
    if code == 0x17A {
        capability_payload()
    } else if code == 0x17E {
        pcr_read_payload(pcrs)
    } else {
        Seq::empty()
    }
}

/// The PCR bank after executing the command in `rx`: PCR_Extend with a full
/// digest XORs bytes 10–41 into PCR0.
pub open spec fn pcrs_after(rx: Seq<u8>, pcrs: Seq<Seq<u8>>) -> Seq<Seq<u8>> {
    if command_code(rx) == 0x182 && rx.len() >= 42 {
        pcrs.update(0, Seq::new(32, |i: int| pcrs[0][i] ^ rx[10 + i]))
    } else {
        pcrs
    }
}

/// Virtual TPM 2.0 Controller.
pub struct TpmDevice {
    /// TIS Access register
    access: u8,
    /// TIS Status register
    sts: u8,
    /// Incoming command FIFO (guest writes here)
    rx_fifo: Vec<u8>,
    /// Outgoing response FIFO (guest reads here)
    tx_fifo: VecDeque<u8>,
    /// PCR bank — 24 PCRs × 32 bytes SHA-256
    pcrs: [[u8; 32]; 24],
    /// Enabled flag
    pub enabled: bool,
}

impl TpmDevice {
    pub closed spec fn access(&self) -> u8 { self.access }
    pub closed spec fn is_enabled(&self) -> bool { self.enabled }
    pub closed spec fn sts(&self) -> u8 { self.sts }
    /// Command bytes received and not yet executed.
    pub closed spec fn rx(&self) -> Seq<u8> { self.rx_fifo@ }
    /// Response bytes not yet read by the guest.
    pub closed spec fn tx(&self) -> Seq<u8> { self.tx_fifo@ }
    /// The PCR digests.
    pub closed spec fn pcrs(&self) -> Seq<Seq<u8>> {
        Seq::new(24, |i: int| self.pcrs@[i]@)
    }

    /// `next` is the device after executing the command buffer `rx` from
    /// status `sts`, with access register and enable flag kept from `self`.
    pub open spec fn executed(self, rx: Seq<u8>, sts: u8, next: Self) -> bool {
        &&& next.access() == self.access() && next.is_enabled() == self.is_enabled()
        &&& next.rx().len() == 0
        &&& if rx.len() < 10 {
            &&& next.tx() == error_response(TPM_RC_COMMAND_SIZE)
            &&& next.sts() == sts | 0x90
            &&& next.pcrs() == self.pcrs()
        } else {
            &&& next.tx() == success_response(command_tag(rx), response_payload(rx, self.pcrs()))
            &&& next.sts() == (sts | 0x90) & 0xF7
            &&& next.pcrs() == pcrs_after(rx, self.pcrs())
        }
    }

    /// Relation between the device before and after a read of register `reg`,
    /// and the value read.
    pub open spec fn read_effect(self, reg: u8, next: Self, value: u8) -> bool {
        if reg == TPM_DATA_FIFO && self.tx().len() > 0 {
            &&& value == self.tx()[0]
            &&& next.tx() == self.tx().drop_first()
            &&& next.sts() == (if next.tx().len() == 0 { (self.sts() & 0xEF) | 0x40 } else {
                self.sts()
            })
            &&& next.access() == self.access() && next.rx() == self.rx()
            &&& next.pcrs() == self.pcrs() && next.is_enabled() == self.is_enabled()
        } else {
            &&& next.access() == self.access() && next.sts() == self.sts()
            &&& next.rx() == self.rx() && next.tx() == self.tx()
            &&& next.pcrs() == self.pcrs() && next.is_enabled() == self.is_enabled()
            &&& value == (if reg == TPM_ACCESS {
                self.access()
            } else if reg == TPM_STS {
                self.sts()
            } else if reg == TPM_DATA_FIFO {
                0xFF
            } else if reg == TPM_DID_VID {
                0x14
            } else if reg == 0xF1 {
                0x10
            } else if reg == 0xF2 {
                0x01
            } else if reg == 0xF3 {
                0x00
            } else if reg == TPM_RID {
                0x01
            } else if reg == TPM_INTF_CAPS {
                0x0A
            } else {
                0x00
            })
        }
    }

    /// Relation between the device before and after a write of `data` to
    /// register `reg`.
    pub open spec fn write_effect(self, reg: u8, data: u8, next: Self) -> bool {
        let unchanged = next.access() == self.access() && next.sts() == self.sts() && next.rx()
            == self.rx() && next.tx() == self.tx() && next.pcrs() == self.pcrs() && next.is_enabled()
            == self.is_enabled();
        if reg == TPM_ACCESS {
            &&& next.access() == (if data & 0x02 != 0 { self.access() | 0x20 } else {
                self.access()
            })
            &&& next.sts() == self.sts() && next.rx() == self.rx() && next.tx() == self.tx()
            &&& next.pcrs() == self.pcrs() && next.is_enabled() == self.is_enabled()
        } else if reg == TPM_STS {
            if data & 0x40 != 0 {
                // commandReady: abort and get ready for a new command
                &&& next.rx().len() == 0 && next.tx().len() == 0
                &&& next.sts() == 0x88
                &&& next.access() == self.access() && next.pcrs() == self.pcrs()
                &&& next.is_enabled() == self.is_enabled()
            } else if data & 0x02 != 0 {
                self.executed(self.rx(), self.sts(), next)
            } else {
                unchanged
            }
        } else if reg == TPM_DATA_FIFO {
            if self.sts() & 0x08 != 0 {
                let rx = self.rx().push(data);
                if rx.len() >= 10 && rx.len() >= command_size(rx) {
                    self.executed(rx, self.sts() & 0xF7, next)
                } else {
                    &&& next.rx() == rx
                    &&& next.access() == self.access() && next.sts() == self.sts()
                    &&& next.tx() == self.tx() && next.pcrs() == self.pcrs()
                    &&& next.is_enabled() == self.is_enabled()
                }
            } else {
                unchanged
            }
        } else {
            unchanged
        }
    }

    /// The state right after power-on.
    pub open spec fn at_power_on(&self) -> bool {
        &&& self.access() == 0xB0
        &&& self.sts() == 0xC0
        &&& self.rx().len() == 0 && self.tx().len() == 0
        &&& self.is_enabled()
        &&& forall|i: int, j: int| 0 <= i < 24 && 0 <= j < 32 ==> #[trigger] self.pcrs()[i][j] == (
        if i == 0 && j < 8 {
            seq![0x12u8, 0x34u8, 0x56u8, 0x78u8, 0x9Au8, 0xBCu8, 0xDEu8, 0xF0u8][j]
        } else {
            0u8
        })
    }

    /// A TPM with locality 0 active, ready for a command, and PCR0 holding the
    /// BIOS measurement prefix 12 34 56 78 9A BC DE F0.
    pub fn new() -> (t: Self)
        ensures
            t.at_power_on(),
    {
        let mut pcrs = [[0u8; 32]; 24];
        let mut p0 = [0u8; 32];
        p0[0] = 0x12;
        p0[1] = 0x34;
        p0[2] = 0x56;
        p0[3] = 0x78;
        p0[4] = 0x9A;
        p0[5] = 0xBC;
        p0[6] = 0xDE;
        p0[7] = 0xF0;
        pcrs[0] = p0;
        TpmDevice {
            access: 0xB0,  // VALID | ACTIVE_LOCALITY | BEEN_SEEN
            sts: 0xC0,  // VALID | COMMAND_READY
            rx_fifo: Vec::new(),
            tx_fifo: VecDeque::new(),
            pcrs,
            enabled: true,
        }
    }

    /// Read TIS register `reg`.
    pub fn read_reg(&mut self, reg: u8) -> (value: u8)
        ensures
            old(self).read_effect(reg, *final(self), value),
    {
        if reg == TPM_ACCESS {
            self.access
        } else if reg == TPM_STS {
            self.sts
        } else if reg == TPM_DATA_FIFO {
            if self.tx_fifo.len() > 0 {
                let b = self.tx_fifo.pop_front();
                if self.tx_fifo.len() == 0 {
                    let s = self.sts;
                    let s2 = (s & !0x10u8) | 0x40;
                    assert(s2 == (s & 0xEF) | 0x40) by (bit_vector)
                        requires s2 == (s & !0x10u8) | 0x40;
                    self.sts = s2;
                }
                match b {
                    Some(x) => x,
                    None => 0xFF,
                }
            } else {
                0xFF
            }
        } else if reg == TPM_DID_VID {
            0x14
        } else if reg == 0xF1 {
            0x10
        } else if reg == 0xF2 {
            0x01
        } else if reg == 0xF3 {
            0x00
        } else if reg == TPM_RID {
            0x01
        } else if reg == TPM_INTF_CAPS {
            0x0A
        } else {
            0x00
        }
    }

    /// Write `data` to TIS register `reg`.
    pub fn write_reg(&mut self, reg: u8, data: u8)
        ensures
            old(self).write_effect(reg, data, *final(self)),
    {
        if reg == TPM_ACCESS {
            if data & 0x02 != 0 {
                self.access = self.access | 0x20;
            }
        } else if reg == TPM_STS {
            if data & 0x40 != 0 {
                self.rx_fifo.clear();
                self.tx_fifo.clear();
                self.sts = 0x88;  // VALID | EXPECT
            } else if data & 0x02 != 0 {
                self.process_tpm_command();
            }
        } else if reg == TPM_DATA_FIFO {
            if self.sts & 0x08 != 0 {
                self.rx_fifo.push(data);
                if self.rx_fifo.len() >= 10 {
                    let expected = read_be32(
                        self.rx_fifo[2],
                        self.rx_fifo[3],
                        self.rx_fifo[4],
                        self.rx_fifo[5],
                    );
                    if self.rx_fifo.len() as u64 >= expected as u64 {
                        let s = self.sts;
                        let s2 = s & !0x08u8;
                        assert(s2 == s & 0xF7) by (bit_vector)
                            requires s2 == s & !0x08u8;
                        self.sts = s2;
                        self.process_tpm_command();
                    }
                }
            }
        }
    }

    /// Replace the response FIFO by `bytes`.
    fn set_tx(&mut self, bytes: &Vec<u8>)
        ensures
            final(self).tx() == bytes@,
            final(self).access == old(self).access && final(self).sts == old(self).sts,
            final(self).rx_fifo == old(self).rx_fifo && final(self).pcrs == old(self).pcrs,
            final(self).enabled == old(self).enabled,
    {
        self.tx_fifo.clear();
        let mut i: usize = 0;
        while i < bytes.len()
            invariant
                i <= bytes.len(),
                self.tx_fifo@ == bytes@.subrange(0, i as int),
                self.access == old(self).access && self.sts == old(self).sts,
                self.rx_fifo == old(self).rx_fifo && self.pcrs == old(self).pcrs,
                self.enabled == old(self).enabled,
            decreases bytes.len() - i,
        {
            self.tx_fifo.push_back(bytes[i]);
            i = i + 1;
            assert(self.tx_fifo@ =~= bytes@.subrange(0, i as int));
        }
        assert(bytes@.subrange(0, bytes.len() as int) =~= bytes@);
    }

    fn capability_bytes() -> (v: Vec<u8>)
        ensures
            v@ == capability_payload(),
    {
        let mut resp: Vec<u8> = Vec::new();
        resp.push(0x00);
        push_be32(&mut resp, 0x0000_0006);
        push_be32(&mut resp, 2);
        push_be32(&mut resp, 0x0000_0100);
        push_be32(&mut resp, 0x322E_3000);
        push_be32(&mut resp, 0x0000_0105);
        push_be32(&mut resp, 0x4E4F_5641);
        assert(resp@ =~= capability_payload());
        resp
    }

    fn pcr_read_bytes(&self) -> (v: Vec<u8>)
        ensures
            v@ == pcr_read_payload(self.pcrs()),
    {
        let mut resp: Vec<u8> = Vec::new();
        push_be32(&mut resp, 1);
        push_be32(&mut resp, 1);
        push_be16(&mut resp, 0x000B);
        resp.push(3);
        resp.push(0xFF);
        resp.push(0xFF);
        resp.push(0xFF);
        push_be32(&mut resp, 24);
        let ghost prefix = resp@;
        assert(prefix =~= be32(1) + be32(1) + be16(0x000B) + seq![3u8, 0xFFu8, 0xFFu8, 0xFFu8]
            + be32(24));
        let mut i: usize = 0;
        while i < PCR_COUNT
            invariant
                i <= 24,
                resp@ == prefix + pcr_digest_list(self.pcrs().subrange(0, i as int)),
            decreases 24 - i,
        {
            let pcr = self.pcrs[i];
            push_be16(&mut resp, 32);
            let mut j: usize = 0;
            let ghost before = resp@;
            while j < PCR_SIZE
                invariant
                    j <= 32,
                    pcr == self.pcrs@[i as int],
                    resp@ == before + pcr@.subrange(0, j as int),
                decreases 32 - j,
            {
                resp.push(pcr[j]);
                j = j + 1;
                assert(resp@ =~= before + pcr@.subrange(0, j as int));
            }
            assert(pcr@.subrange(0, 32) =~= pcr@);
            assert(self.pcrs().subrange(0, (i + 1) as int).drop_last() =~= self.pcrs().subrange(
                0,
                i as int,
            ));
            i = i + 1;
        }
        assert(self.pcrs().subrange(0, 24) =~= self.pcrs());
        resp
    }

    fn success_bytes(tag: u16, payload: &Vec<u8>) -> (v: Vec<u8>)
        requires
            payload.len() < 0x1_0000,
        ensures
            v@ == success_response(tag, payload@),
    {
        let resp_tag: u16 = if tag == 0x8002 { 0x8002 } else { 0x8001 };
        let total = (10 + payload.len()) as u32;
        let mut v: Vec<u8> = Vec::new();
        push_be16(&mut v, resp_tag);
        push_be32(&mut v, total);
        push_be32(&mut v, 0);
        let ghost before = v@;
        let mut i: usize = 0;
        while i < payload.len()
            invariant
                i <= payload.len(),
                v@ == before + payload@.subrange(0, i as int),
            decreases payload.len() - i,
        {
            v.push(payload[i]);
            i = i + 1;
            assert(v@ =~= before + payload@.subrange(0, i as int));
        }
        assert(payload@.subrange(0, payload.len() as int) =~= payload@);
        v
    }

    /// Execute the buffered command and queue its response.
    fn process_tpm_command(&mut self)
        ensures
            old(self).executed(old(self).rx(), old(self).sts(), *final(self)),
    {
        if self.rx_fifo.len() < 10 {
            self.send_error_response(TPM_RC_COMMAND_SIZE);
            return;
        }
        let tag = read_be16(self.rx_fifo[0], self.rx_fifo[1]);
        let code = read_be32(self.rx_fifo[6], self.rx_fifo[7], self.rx_fifo[8], self.rx_fifo[9]);
        let payload: Vec<u8> = if code == 0x0000_017A {
            Self::capability_bytes()
        } else if code == 0x0000_017E {
            self.pcr_read_bytes()
        } else {
            Vec::new()
        };
        proof {
            assert(pcr_digest_list(self.pcrs()).len() == 24 * 34) by {
                lemma_digest_list_len(self.pcrs());
            }
        }
        if code == 0x0000_0182 && self.rx_fifo.len() >= 42 {
            let mut p0 = self.pcrs[0];
            let mut i: usize = 0;
            while i < PCR_SIZE
                invariant
                    i <= 32,
                    self.rx_fifo.len() >= 42,
                    forall|k: int| 0 <= k < i ==> #[trigger] p0@[k] == self.pcrs@[0]@[k] ^ self.rx_fifo@[10 + k],
                    forall|k: int| i <= k < 32 ==> #[trigger] p0@[k] == self.pcrs@[0]@[k],
                decreases 32 - i,
            {
                p0[i] = p0[i] ^ self.rx_fifo[10 + i];
                i = i + 1;
            }
            self.pcrs[0] = p0;
            assert(self.pcrs() =~= pcrs_after(old(self).rx(), old(self).pcrs())) by {
                assert forall|k: int| 0 <= k < 24 implies #[trigger] self.pcrs()[k] =~= pcrs_after(
                    old(self).rx(),
                    old(self).pcrs(),
                )[k] by {}
            }
        }
        self.send_success_response(tag, &payload);
    }

    /// Queue an error response carrying `rc`, drop the command and signal
    /// that data is available.
    fn send_error_response(&mut self, rc: u32)
        ensures
            final(self).tx() == error_response(rc),
            final(self).rx().len() == 0,
            final(self).sts() == old(self).sts() | 0x90,
            final(self).access == old(self).access && final(self).pcrs == old(self).pcrs,
            final(self).enabled == old(self).enabled,
    {
        let mut v: Vec<u8> = Vec::new();
        push_be16(&mut v, 0x8001);
        push_be32(&mut v, 10);
        push_be32(&mut v, rc);
        assert(v@ =~= error_response(rc));
        self.set_tx(&v);
        self.rx_fifo.clear();
        self.sts = self.sts | 0x10 | 0x80;
        assert(self.sts == old(self).sts | 0x90) by {
            let s = old(self).sts;
            assert(s | 0x10 | 0x80 == s | 0x90) by (bit_vector);
        }
    }

    /// Queue a success response to a command tagged `tag` carrying
    /// `payload`, drop the command, signal that data is available and stop
    /// expecting command bytes.
    fn send_success_response(&mut self, tag: u16, payload: &Vec<u8>)
        requires
            payload.len() < 0x1_0000,
        ensures
            final(self).tx() == success_response(tag, payload@),
            final(self).rx().len() == 0,
            final(self).sts() == (old(self).sts() | 0x90) & 0xF7,
            final(self).access == old(self).access && final(self).pcrs == old(self).pcrs,
            final(self).enabled == old(self).enabled,
    {
        let resp = Self::success_bytes(tag, payload);
        self.set_tx(&resp);
        self.rx_fifo.clear();
        let s = self.sts;
        let s2 = (s | 0x10 | 0x80) & !0x08u8;
        assert(s2 == (s | 0x90) & 0xF7) by (bit_vector)
            requires s2 == (s | 0x10 | 0x80) & !0x08u8;
        self.sts = s2;
    }
}

/// Every PCR in a bank of 32-byte digests contributes 34 bytes to the list.
pub proof fn lemma_digest_list_len(pcrs: Seq<Seq<u8>>)
    requires
        forall|i: int| 0 <= i < pcrs.len() ==> #[trigger] pcrs[i].len() == 32,
    ensures
        pcr_digest_list(pcrs).len() == pcrs.len() * 34,
    decreases pcrs.len(),
{
    if pcrs.len() > 0 {
        lemma_digest_list_len(pcrs.drop_last());
    }
}

impl Default for TpmDevice {
    fn default() -> (t: Self)
        ensures
            t.at_power_on(),
    {
        Self::new()
    }
}

} // verus!
