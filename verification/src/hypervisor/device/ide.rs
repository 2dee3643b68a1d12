//! IDE / ATA Storage Controller emulation.
//!
//! Emulates the dual-channel PIIX3 IDE controller:
//! - Primary Channel: Ports 0x1F0–0x1F7
//! - Secondary Channel: Ports 0x170–0x177
//!
//! Handles the ATA and ATAPI commands `0xEC` (ATA IDENTIFY), `0xA1`
//! (ATAPI IDENTIFY) and `0x20` (READ SECTORS, answered with one zero-filled
//! sector); every other command just reports the drive ready.
use vstd::prelude::*;
use std::collections::VecDeque;

verus! {

/// ATA Status Register bits.
pub const ATA_STAT_BUSY: u8 = 0x80;
pub const ATA_STAT_READY: u8 = 0x40;
pub const ATA_STAT_DRQ: u8 = 0x08;
pub const ATA_STAT_ERR: u8 = 0x01;

/// First 32 bytes of the disk model string "NovaVM Virtual IDE Hard Disk".
pub open spec fn disk_model() -> Seq<u8> {
    seq![0x4Eu8, 0x6F, 0x76, 0x61, 0x56, 0x4D, 0x20, 0x56, 0x69, 0x72, 0x74, 0x75, 0x61, 0x6C, 0x20,
    0x49, 0x44, 0x45, 0x20, 0x48, 0x61, 0x72, 0x64, 0x20, 0x44, 0x69, 0x73, 0x6B, 0x20, 0x20, 0x20, 0x20]
}

/// First 32 bytes of the CD-ROM model string "NovaVM Virtual CD-ROM Drive".
pub open spec fn cdrom_model() -> Seq<u8> {
    seq![0x4Eu8, 0x6F, 0x76, 0x61, 0x56, 0x4D, 0x20, 0x56, 0x69, 0x72, 0x74, 0x75, 0x61, 0x6C, 0x20,
    0x43, 0x44, 0x2D, 0x52, 0x4F, 0x4D, 0x20, 0x44, 0x72, 0x69, 0x76, 0x65, 0x20, 0x20, 0x20, 0x20, 0x20]
}

/// IDENTIFY word `27 + k` (k < 16): model bytes `2k` (low) and `2k+1` (high).
pub open spec fn model_word(model: Seq<u8>, k: int) -> u16 {
    (model[2 * k + 1] * 256 + model[2 * k]) as u16
}

/// The 256 words answered to ATA IDENTIFY DEVICE: a fixed disk with 16383
/// cylinders, 16 heads, 63 sectors per track, LBA support and the disk model.
pub open spec fn ata_identify_data() -> Seq<u16> {
    Seq::new(
        256,
        |i: int|
            if i == 0 {
                0x0040u16
            } else if i == 1 {
                16383u16
            } else if i == 3 {
                16u16
            } else if i == 6 {
                63u16
            } else if 27 <= i < 43 {
                model_word(disk_model(), i - 27)
            } else if i == 49 {
                0x0200u16
            } else {
                0u16
            },
    )
}

/// The 256 words answered to ATAPI IDENTIFY DEVICE: a CD-ROM with the CD-ROM model.
pub open spec fn atapi_identify_data() -> Seq<u16> {
    Seq::new(
        256,
        |i: int|
            if i == 0 {
                0x85C0u16
            } else if 27 <= i < 43 {
                model_word(cdrom_model(), i - 27)
            } else {
                0u16
            },
    )
}

/// Virtual IDE Channel
pub struct IdeChannel {
    data_buffer: VecDeque<u16>,
    sector_count: u8,
    sector_number: u8,
    cylinder_low: u8,
    cylinder_high: u8,
    drive_head: u8,
    status: u8,
    error: u8,
    command: u8,
}

fn disk_model_bytes() -> (m: [u8; 32])
    ensures
        m@ == disk_model(),
{
    let m: [u8; 32] = [0x4E, 0x6F, 0x76, 0x61, 0x56, 0x4D, 0x20, 0x56, 0x69, 0x72, 0x74, 0x75, 0x61,
    0x6C, 0x20, 0x49, 0x44, 0x45, 0x20, 0x48, 0x61, 0x72, 0x64, 0x20, 0x44, 0x69, 0x73, 0x6B, 0x20,
    0x20, 0x20, 0x20];
    assert(m@ =~= disk_model());
    m
}

fn cdrom_model_bytes() -> (m: [u8; 32])
    ensures
        m@ == cdrom_model(),
{
    let m: [u8; 32] = [0x4E, 0x6F, 0x76, 0x61, 0x56, 0x4D, 0x20, 0x56, 0x69, 0x72, 0x74, 0x75, 0x61,
    0x6C, 0x20, 0x43, 0x44, 0x2D, 0x52, 0x4F, 0x4D, 0x20, 0x44, 0x72, 0x69, 0x76, 0x65, 0x20, 0x20,
    0x20, 0x20, 0x20];
    assert(m@ =~= cdrom_model());
    m
}

/// Store the model string in IDENTIFY words 27–42 of `identify`.
fn put_model(identify: &mut [u16; 256], model: &[u8; 32])
    ensures
        forall|i: int| 0 <= i < 256 ==> #[trigger] final(identify)@[i] == (if 27 <= i < 43 {
            model_word(model@, i - 27)
        } else {
            old(identify)@[i]
        }),
{
    let mut k: usize = 0;
    while k < 16
        invariant
            k <= 16,
            forall|i: int| 0 <= i < 256 ==> #[trigger] identify@[i] == (if 27 <= i < 27 + k {
                model_word(model@, i - 27)
            } else {
                old(identify)@[i]
            }),
        decreases 16 - k,
    {
        let hi = model[k * 2 + 1];
        let lo = model[k * 2];
        let w = ((hi as u16) << 8u16) | (lo as u16);
        assert(w == hi * 256 + lo) by (bit_vector)
            requires w == ((hi as u16) << 8u16) | (lo as u16);
        identify[27 + k] = w;
        k = k + 1;
    }
}

impl IdeChannel {
    /// Words waiting to be read from the data port, oldest first.
    pub closed spec fn data(&self) -> Seq<u16> { self.data_buffer@ }
    pub closed spec fn sector_count(&self) -> u8 { self.sector_count }
    pub closed spec fn sector_number(&self) -> u8 { self.sector_number }
    pub closed spec fn cylinder_low(&self) -> u8 { self.cylinder_low }
    pub closed spec fn cylinder_high(&self) -> u8 { self.cylinder_high }
    pub closed spec fn drive_head(&self) -> u8 { self.drive_head }
    pub closed spec fn status(&self) -> u8 { self.status }
    pub closed spec fn error(&self) -> u8 { self.error }
    pub closed spec fn command(&self) -> u8 { self.command }

    /// The task-file registers (everything but the data buffer and status)
    /// of `self` and `other` agree.
    pub open spec fn same_task_file(&self, other: &Self) -> bool {
        &&& other.sector_count() == self.sector_count()
        &&& other.sector_number() == self.sector_number()
        &&& other.cylinder_low() == self.cylinder_low()
        &&& other.cylinder_high() == self.cylinder_high()
        &&& other.drive_head() == self.drive_head()
        &&& other.error() == self.error()
        &&& other.command() == self.command()
    }

    /// The data buffer and status after executing command `cmd`.
    pub open spec fn command_effect(cmd: u8, next: Self) -> bool {
        if cmd == 0xEC {
            next.data() == ata_identify_data() && next.status() == 0x48
        } else if cmd == 0xA1 {
            next.data() == atapi_identify_data() && next.status() == 0x48
        } else if cmd == 0x20 {
            next.data() == Seq::new(256, |i: int| 0u16) && next.status() == 0x48
        } else {
            next.status() == 0x40
        }
    }

    /// The value a read of task-file register `offset` returns.
    pub open spec fn reg_value(&self, offset: u8) -> u8 {
        if offset == 0 {
            if self.data().len() > 0 { (self.data()[0] % 256) as u8 } else { 0 }
        } else if offset == 1 {
            self.error()
        } else if offset == 2 {
            self.sector_count()
        } else if offset == 3 {
            self.sector_number()
        } else if offset == 4 {
            self.cylinder_low()
        } else if offset == 5 {
            self.cylinder_high()
        } else if offset == 6 {
            self.drive_head()
        } else if offset == 7 {
            self.status()
        } else {
            0
        }
    }

    /// Relation between the channel before and after a data-port word read.
    pub open spec fn data_read(self, next: Self, word: u16) -> bool {
        &&& self.same_task_file(&next)
        &&& self.data().len() == 0 ==> word == 0 && next.data().len() == 0 && next.status() == self.status()
        &&& self.data().len() > 0 ==> {
            &&& word == self.data()[0]
            &&& next.data() == self.data().drop_first()
            &&& next.status() == (if next.data().len() == 0 { self.status() & 0xF7 } else { self.status() })
        }
    }

    /// Relation between the channel before and after a write of task-file register `offset`.
    pub open spec fn write_effect(self, offset: u8, data: u8, next: Self) -> bool {
        &&& offset == 7 ==> {
            &&& next.command() == data
            &&& Self::command_effect(data, next)
            &&& data != 0xEC && data != 0xA1 && data != 0x20 ==> next.data() == self.data()
            &&& next.sector_count() == self.sector_count()
            &&& next.sector_number() == self.sector_number()
            &&& next.cylinder_low() == self.cylinder_low()
            &&& next.cylinder_high() == self.cylinder_high()
            &&& next.drive_head() == self.drive_head()
            &&& next.error() == self.error()
        }
        &&& offset != 7 ==> {
            &&& next.data() == self.data()
            &&& next.status() == self.status()
            &&& next.command() == self.command()
            &&& next.error() == (if offset == 1 { data } else { self.error() })
            &&& next.sector_count() == (if offset == 2 { data } else { self.sector_count() })
            &&& next.sector_number() == (if offset == 3 { data } else { self.sector_number() })
            &&& next.cylinder_low() == (if offset == 4 { data } else { self.cylinder_low() })
            &&& next.cylinder_high() == (if offset == 5 { data } else { self.cylinder_high() })
            &&& next.drive_head() == (if offset == 6 { data } else { self.drive_head() })
        }
    }

    /// The state of a channel after power-on: empty data buffer, sector
    /// count and number 1, cylinder 0, drive/head 0xA0, ready, no error or
    /// command.
    pub open spec fn is_reset(&self) -> bool {
        &&& self.data().len() == 0
        &&& self.sector_count() == 1 && self.sector_number() == 1
        &&& self.cylinder_low() == 0 && self.cylinder_high() == 0
        &&& self.drive_head() == 0xA0 && self.status() == ATA_STAT_READY
        &&& self.error() == 0 && self.command() == 0
    }

    /// A ready channel with an empty data buffer.
    pub fn new() -> (ch: Self)
        ensures
            ch.is_reset(),
    {
        IdeChannel {
            data_buffer: VecDeque::new(),
            sector_count: 1,
            sector_number: 1,
            cylinder_low: 0,
            cylinder_high: 0,
            drive_head: 0xA0,
            status: ATA_STAT_READY,
            error: 0,
            command: 0,
        }
    }

    /// Read task-file register `offset` (0 = low byte of the next data word).
    pub fn read_reg(&mut self, offset: u8) -> (value: u8)
        ensures
            *final(self) == *old(self),
            value == old(self).reg_value(offset),
    {
        match offset {
            0 => {
                if self.data_buffer.len() > 0 {
                    let word = self.data_buffer[0];
                    let lo = word & 0xFF;
                    assert(lo == word % 256) by (bit_vector)
                        requires lo == word & 0xFF;
                    lo as u8
                } else {
                    0x00
                }
            },
            1 => self.error,
            2 => self.sector_count,
            3 => self.sector_number,
            4 => self.cylinder_low,
            5 => self.cylinder_high,
            6 => self.drive_head,
            7 => self.status,
            _ => 0x00,
        }
    }

    /// Read the next 16-bit data word; DRQ drops when the buffer empties.
    pub fn read_data_16(&mut self) -> (word: u16)
        ensures
            old(self).data_read(*final(self), word),
    {
        match self.data_buffer.pop_front() {
            Some(word) => {
                if self.data_buffer.len() == 0 {
                    let s = self.status;
                    let s2 = s & !ATA_STAT_DRQ;
                    assert(s2 == s & 0xF7) by (bit_vector)
                        requires s2 == s & !0x08u8;
                    self.status = s2;
                }
                word
            },
            None => 0x0000,
        }
    }

    /// Write task-file register `offset`; offset 7 issues a command.
    pub fn write_reg(&mut self, offset: u8, data: u8)
        ensures
            old(self).write_effect(offset, data, *final(self)),
    {
        match offset {
            1 => self.error = data,
            2 => self.sector_count = data,
            3 => self.sector_number = data,
            4 => self.cylinder_low = data,
            5 => self.cylinder_high = data,
            6 => self.drive_head = data,
            7 => {
                self.command = data;
                self.process_command(data);
            },
            _ => {},
        }
    }

    fn load_words(&mut self, words: &[u16; 256])
        ensures
            final(self).data() == words@,
            old(self).same_task_file(&*final(self)),
            final(self).status() == old(self).status(),
    {
        self.data_buffer.clear();
        let mut i: usize = 0;
        while i < 256
            invariant
                i <= 256,
                self.data_buffer@ == words@.subrange(0, i as int),
                old(self).same_task_file(&*self),
                self.status == old(self).status,
            decreases 256 - i,
        {
            self.data_buffer.push_back(words[i]);
            i = i + 1;
            assert(self.data_buffer@ =~= words@.subrange(0, i as int));
        }
        assert(words@.subrange(0, 256) =~= words@);
    }

    fn process_command(&mut self, cmd: u8)
        ensures
            Self::command_effect(cmd, *final(self)),
            old(self).same_task_file(&*final(self)),
            cmd != 0xEC && cmd != 0xA1 && cmd != 0x20 ==> final(self).data() == old(self).data(),
    {
        if cmd == 0xEC {
            let mut identify = [0u16; 256];
            identify[0] = 0x0040;
            identify[1] = 16383;
            identify[3] = 16;
            identify[6] = 63;
            let model = disk_model_bytes();
            put_model(&mut identify, &model);
            identify[49] = 0x0200;
            assert(identify@ =~= ata_identify_data());
            self.load_words(&identify);
            self.status = 0x48;  // READY | DRQ
        } else if cmd == 0xA1 {
            let mut identify = [0u16; 256];
            identify[0] = 0x85C0;
            let model = cdrom_model_bytes();
            put_model(&mut identify, &model);
            assert(identify@ =~= atapi_identify_data());
            self.load_words(&identify);
            self.status = 0x48;  // READY | DRQ
        } else if cmd == 0x20 {
            let zeros = [0u16; 256];
            assert(zeros@ =~= Seq::new(256, |i: int| 0u16));
            self.load_words(&zeros);
            self.status = 0x48;  // READY | DRQ
        } else {
            self.status = ATA_STAT_READY;
        }
    }
}

/// Dual Channel IDE Device
pub struct IdeController {
    pub primary: IdeChannel,
    pub secondary: IdeChannel,
}

impl IdeController {
    /// Two ready channels with empty data buffers.
    pub fn new() -> (c: Self)
        ensures
            c.primary.is_reset() && c.secondary.is_reset(),
    {
        IdeController { primary: IdeChannel::new(), secondary: IdeChannel::new() }
    }
}

impl Default for IdeController {
    fn default() -> (c: Self)
        ensures
            c.primary.is_reset() && c.secondary.is_reset(),
    {
        Self::new()
    }
}

} // verus!
