//! VGA controller emulation.
//!
//! Handles the VGA I/O registers (0x3C0–0x3DF) and tracks:
//! - Text mode (mode 3): 80×25 characters; each cell is 2 bytes, character
//!   then colour attribute.
//! - Graphics mode (mode 13h): 320×200 in 256 colours.
use vstd::prelude::*;
use crate::util::bits::{lemma_byte_bits, lemma_word_bits};
use crate::util::text::push_char;

verus! {

pub const VGA_TEXT_COLS: usize = 80;
pub const VGA_TEXT_ROWS: usize = 25;
/// Bytes in the text framebuffer (character + attribute per cell).
pub const VGA_TEXT_FB_SIZE: usize = 4000;
pub const VGA_GRAPHICS_W: usize = 320;
pub const VGA_GRAPHICS_H: usize = 200;

/// The character a text cell shows when rendered: printable ASCII as is,
/// anything else as a space.
pub open spec fn display_char(b: u8) -> char {
    if 0x20 <= b < 0x7F { b as char } else { ' ' }
}

/// The rendering of a text framebuffer: 25 lines of 80 characters, each
/// line ended by a newline.
pub open spec fn rendered_text(text: Seq<u8>) -> Seq<char> {
    Seq::new(
        25 * 81,
        |k: int|
            if k % 81 == 80 {
                '\n'
            } else {
                display_char(text[((k / 81) * 80 + k % 81) * 2])
            },
    )
}

/// The 16-colour EGA palette (R, G, B per colour).
pub open spec fn ega_palette() -> Seq<u8> {
    seq![0x00u8,0x00,0x00, 0x00,0x00,0xAA, 0x00,0xAA,0x00, 0x00,0xAA,0xAA,
        0xAA,0x00,0x00, 0xAA,0x00,0xAA, 0xAA,0x55,0x00, 0xAA,0xAA,0xAA,
        0x55,0x55,0x55, 0x55,0x55,0xFF, 0x55,0xFF,0x55, 0x55,0xFF,0xFF,
        0xFF,0x55,0x55, 0xFF,0x55,0xFF, 0xFF,0xFF,0x55, 0xFF,0xFF,0xFF]
}

/// VGA controller state.
pub struct VgaDevice {
    pub crtc_index: u8,
    pub crtc_regs: [u8; 25],
    /// Cursor position in cells (row * 80 + col).
    pub cursor_pos: u16,
    attr_index: u8,
    /// Attribute controller flip-flop: false = index, true = data.
    attr_data_mode: bool,
    attr_regs: [u8; 21],
    seq_index: u8,
    seq_regs: [u8; 5],
    gfx_index: u8,
    gfx_regs: [u8; 9],
    misc_output: u8,
    dac_index_w: u8,
    dac_index_r: u8,
    dac_sub: u8,
    /// 256 × (R, G, B)
    pub palette: [u8; 768],
    /// True when the controller is in a planar/graphics mode (not text mode 3).
    pub graphics_mode: bool,
    /// 80×25 text mode character + attribute buffer.
    pub text_buffer: [u8; 4000],
    /// 320×200 graphics pixel buffer (256-colour, mode 13h).
    pub gfx_buffer: Vec<u8>,
    /// Input Status 1 toggle for vsync polling.
    status1_toggle: bool,
}

impl VgaDevice {
    pub closed spec fn crtc_index(&self) -> u8 { self.crtc_index }
    pub closed spec fn crtc_regs(&self) -> Seq<u8> { self.crtc_regs@ }
    pub closed spec fn cursor_pos(&self) -> u16 { self.cursor_pos }
    pub closed spec fn attr_index(&self) -> u8 { self.attr_index }
    pub closed spec fn attr_data_mode(&self) -> bool { self.attr_data_mode }
    pub closed spec fn attr_regs(&self) -> Seq<u8> { self.attr_regs@ }
    pub closed spec fn seq_index(&self) -> u8 { self.seq_index }
    pub closed spec fn seq_regs(&self) -> Seq<u8> { self.seq_regs@ }
    pub closed spec fn gfx_index(&self) -> u8 { self.gfx_index }
    pub closed spec fn gfx_regs(&self) -> Seq<u8> { self.gfx_regs@ }
    pub closed spec fn misc_output(&self) -> u8 { self.misc_output }
    pub closed spec fn dac_index_w(&self) -> u8 { self.dac_index_w }
    pub closed spec fn dac_index_r(&self) -> u8 { self.dac_index_r }
    pub closed spec fn dac_sub(&self) -> u8 { self.dac_sub }
    pub closed spec fn palette(&self) -> Seq<u8> { self.palette@ }
    pub closed spec fn graphics_mode(&self) -> bool { self.graphics_mode }
    pub closed spec fn text(&self) -> Seq<u8> { self.text_buffer@ }
    pub closed spec fn gfx(&self) -> Seq<u8> { self.gfx_buffer@ }
    pub closed spec fn status1_toggle(&self) -> bool { self.status1_toggle }

    /// The DAC sub-index (R, G or B) is always below 3.
    /// The index and data registers of the CRT, attribute, sequencer and
    /// graphics controllers are all zero.
    pub open spec fn registers_cleared(&self) -> bool {
        &&& self.crtc_index() == 0 && self.attr_index() == 0 && self.seq_index() == 0 && self.gfx_index() == 0
        &&& self.crtc_regs().len() == 25 && forall|i: int| 0 <= i < 25 ==> #[trigger] self.crtc_regs()[i] == 0
        &&& self.attr_regs().len() == 21 && forall|i: int| 0 <= i < 21 ==> #[trigger] self.attr_regs()[i] == 0
        &&& self.seq_regs().len() == 5 && forall|i: int| 0 <= i < 5 ==> #[trigger] self.seq_regs()[i] == 0
        &&& self.gfx_regs().len() == 9 && forall|i: int| 0 <= i < 9 ==> #[trigger] self.gfx_regs()[i] == 0
    }

    pub open spec fn wf(&self) -> bool {
        self.dac_sub() < 3
    }

    /// The registers that the I/O ports never touch are the same in both.
    pub open spec fn same_buffers(&self, other: &Self) -> bool {
        &&& other.graphics_mode() == self.graphics_mode()
        &&& other.text() == self.text()
        &&& other.gfx() == self.gfx()
    }

    /// Relation between the controller before and after a read of `port`,
    /// and the value read.
    pub open spec fn read_effect(self, port: u16, next: Self, value: u8) -> bool {
        let ai = (self.attr_index() % 32) as int;
        let si = self.seq_index() as int;
        let gi = self.gfx_index() as int;
        let ci = self.crtc_index();
        &&& self.same_buffers(&next)
        &&& next.crtc_index() == self.crtc_index() && next.crtc_regs() == self.crtc_regs()
        &&& next.cursor_pos() == self.cursor_pos()
        &&& next.attr_index() == self.attr_index() && next.attr_data_mode() == self.attr_data_mode()
        &&& next.attr_regs() == self.attr_regs()
        &&& next.seq_index() == self.seq_index() && next.seq_regs() == self.seq_regs()
        &&& next.gfx_index() == self.gfx_index() && next.gfx_regs() == self.gfx_regs()
        &&& next.misc_output() == self.misc_output() && next.dac_index_w() == self.dac_index_w()
        &&& next.palette() == self.palette()
        &&& next.dac_sub() == (if port == 0x3C9 { ((self.dac_sub() + 1) % 3) as u8 } else {
            self.dac_sub()
        })
        &&& next.dac_index_r() == (if port == 0x3C9 && (self.dac_sub() + 1) % 3 == 0 {
            ((self.dac_index_r() + 1) % 256) as u8
        } else {
            self.dac_index_r()
        })
        &&& next.status1_toggle() == (if port == 0x3DA || port == 0x3BA {
            !self.status1_toggle()
        } else {
            self.status1_toggle()
        })
        &&& value == (if port == 0x3C0 {
            (self.attr_index() % 32) as u8
        } else if port == 0x3C1 {
            if ai < 21 { self.attr_regs()[ai] } else { 0 }
        } else if port == 0x3C2 || port == 0x3CC {
            self.misc_output()
        } else if port == 0x3C4 {
            self.seq_index()
        } else if port == 0x3C5 {
            if si < 5 { self.seq_regs()[si] } else { 0 }
        } else if port == 0x3C7 {
            0
        } else if port == 0x3C9 {
            self.palette()[self.dac_index_r() * 3 + self.dac_sub()] / 4
        } else if port == 0x3CE {
            self.gfx_index()
        } else if port == 0x3CF {
            if gi < 9 { self.gfx_regs()[gi] } else { 0 }
        } else if port == 0x3D4 || port == 0x3B4 {
            ci
        } else if port == 0x3D5 || port == 0x3B5 {
            if ci == 0x0E {
                (self.cursor_pos() / 256) as u8
            } else if ci == 0x0F {
                (self.cursor_pos() % 256) as u8
            } else if ci < 25 {
                self.crtc_regs()[ci as int]
            } else {
                0
            }
        } else if port == 0x3DA || port == 0x3BA {
            if !self.status1_toggle() { 0x09 } else { 0x00 }
        } else {
            0xFF
        })
    }

    /// Relation between the controller before and after a write of `data` to `port`.
    pub open spec fn write_effect(self, port: u16, data: u8, next: Self) -> bool {
        let ai = (self.attr_index() % 32) as int;
        let ci = self.crtc_index();
        let slot = self.dac_index_w() * 3 + self.dac_sub();
        &&& self.same_buffers(&next)
        &&& next.status1_toggle() == self.status1_toggle()
        &&& next.dac_index_r() == self.dac_index_r()
        &&& next.attr_index() == (if port == 0x3C0 && !self.attr_data_mode() {
            (data % 32) as u8
        } else {
            self.attr_index()
        })
        &&& next.attr_data_mode() == (if port == 0x3C0 { !self.attr_data_mode() } else {
            self.attr_data_mode()
        })
        &&& next.attr_regs() == (if port == 0x3C0 && self.attr_data_mode() && ai < 21 {
            self.attr_regs().update(ai, data)
        } else {
            self.attr_regs()
        })
        &&& next.misc_output() == (if port == 0x3C2 { data } else { self.misc_output() })
        &&& next.seq_index() == (if port == 0x3C4 { data } else { self.seq_index() })
        &&& next.seq_regs() == (if port == 0x3C5 && self.seq_index() < 5 {
            self.seq_regs().update(self.seq_index() as int, data)
        } else {
            self.seq_regs()
        })
        &&& next.dac_index_w() == (if port == 0x3C8 {
            data
        } else if port == 0x3C9 && (self.dac_sub() + 1) % 3 == 0 {
            ((self.dac_index_w() + 1) % 256) as u8
        } else {
            self.dac_index_w()
        })
        &&& next.dac_sub() == (if port == 0x3C8 {
            0
        } else if port == 0x3C9 {
            ((self.dac_sub() + 1) % 3) as u8
        } else {
            self.dac_sub()
        })
        &&& next.palette() == (if port == 0x3C9 && slot < 768 {
            self.palette().update(slot, ((data % 64) * 4) as u8)
        } else {
            self.palette()
        })
        &&& next.gfx_index() == (if port == 0x3CE { data } else { self.gfx_index() })
        &&& next.gfx_regs() == (if port == 0x3CF && self.gfx_index() < 9 {
            self.gfx_regs().update(self.gfx_index() as int, data)
        } else {
            self.gfx_regs()
        })
        &&& next.crtc_index() == (if port == 0x3D4 || port == 0x3B4 { data } else { self.crtc_index() })
        &&& next.cursor_pos() == (if (port == 0x3D5 || port == 0x3B5) && ci == 0x0E {
            ((self.cursor_pos() % 256) + data * 256) as u16
        } else if (port == 0x3D5 || port == 0x3B5) && ci == 0x0F {
            ((self.cursor_pos() / 256) * 256 + data) as u16
        } else {
            self.cursor_pos()
        })
        &&& next.crtc_regs() == (if (port == 0x3D5 || port == 0x3B5) && ci != 0x0E && ci != 0x0F
            && ci < 25 {
            self.crtc_regs().update(ci as int, data)
        } else {
            self.crtc_regs()
        })
    }

    /// The state right after power-on.
    pub open spec fn at_power_on(&self) -> bool {
        &&& self.wf()
        &&& self.text().len() == 4000
        &&& forall|i: int| 0 <= i < 4000 ==> #[trigger] self.text()[i] == (if i % 2 == 0 { 0x20u8 } else { 0x07u8 })
        &&& self.palette().len() == 768
        &&& forall|i: int| 0 <= i < 768 ==> #[trigger] self.palette()[i] == (if i < 48 { ega_palette()[i] } else { 0u8 })
        &&& self.gfx().len() == 64000
        &&& forall|i: int| 0 <= i < 64000 ==> #[trigger] self.gfx()[i] == 0
        &&& self.misc_output() == 0x23 && !self.graphics_mode() && self.cursor_pos() == 0
        &&& self.dac_sub() == 0 && self.dac_index_w() == 0 && self.dac_index_r() == 0
        &&& !self.attr_data_mode() && !self.status1_toggle()
        &&& self.registers_cleared()
    }

    /// Text mode with every cell a space in light grey on black, the EGA
    /// palette in the first 16 DAC entries, and a zeroed 320×200 graphics buffer.
    pub fn new() -> (v: Self)
        ensures
            v.at_power_on(),
    {
        let mut text = [0u8; 4000];
        let mut i: usize = 0;
        while i < VGA_TEXT_COLS * VGA_TEXT_ROWS
            invariant
                i <= 2000,
                forall|k: int| 0 <= k < 2 * i ==> #[trigger] text@[k] == (if k % 2 == 0 { 0x20u8 } else { 0x07u8 }),
                forall|k: int| 2 * i <= k < 4000 ==> #[trigger] text@[k] == 0,
            decreases 2000 - i,
        {
            text[i * 2] = 0x20;
            text[i * 2 + 1] = 0x07;
            i = i + 1;
        }
        let ega: [u8; 48] = [
            0x00,0x00,0x00, 0x00,0x00,0xAA, 0x00,0xAA,0x00, 0x00,0xAA,0xAA,
            0xAA,0x00,0x00, 0xAA,0x00,0xAA, 0xAA,0x55,0x00, 0xAA,0xAA,0xAA,
            0x55,0x55,0x55, 0x55,0x55,0xFF, 0x55,0xFF,0x55, 0x55,0xFF,0xFF,
            0xFF,0x55,0x55, 0xFF,0x55,0xFF, 0xFF,0xFF,0x55, 0xFF,0xFF,0xFF,
        ];
        proof {
            lemma_byte_bits();
            lemma_word_bits();
        }
        assert(ega@ =~= ega_palette());
        let mut pal = [0u8; 768];
        let mut j: usize = 0;
        while j < 48
            invariant
                j <= 48,
                ega@ == ega_palette(),
                forall|k: int| 0 <= k < j ==> #[trigger] pal@[k] == ega_palette()[k],
                forall|k: int| j <= k < 768 ==> #[trigger] pal@[k] == 0,
            decreases 48 - j,
        {
            pal[j] = ega[j];
            j = j + 1;
        }
        let gfx = vec![0u8; VGA_GRAPHICS_W * VGA_GRAPHICS_H];
        VgaDevice {
            crtc_index: 0,
            crtc_regs: [0u8; 25],
            cursor_pos: 0,
            attr_index: 0,
            attr_data_mode: false,
            attr_regs: [0u8; 21],
            seq_index: 0,
            seq_regs: [0u8; 5],
            gfx_index: 0,
            gfx_regs: [0u8; 9],
            misc_output: 0x23,
            dac_index_w: 0,
            dac_index_r: 0,
            dac_sub: 0,
            palette: pal,
            graphics_mode: false,
            text_buffer: text,
            gfx_buffer: gfx,
            status1_toggle: false,
        }
    }

    /// Guest read of VGA I/O port `port`.
    pub fn io_read(&mut self, port: u16) -> (value: u8)
        requires
            old(self).wf(),
        ensures
            final(self).wf(),
            old(self).read_effect(port, *final(self), value),
    {
        match port {
            0x3C0 => {
                let a = self.attr_index;
                let r = a & 0x1F;
                proof {
                    lemma_byte_bits();
                }
                assert(r == a % 32);
                r
            },
            0x3C1 => {
                let a = self.attr_index;
                let r = a & 0x1F;
                proof {
                    lemma_byte_bits();
                    lemma_word_bits();
                }
                assert(r == a % 32);
                let i = r as usize;
                if i < 21 { self.attr_regs[i] } else { 0 }
            },
            0x3C2 | 0x3CC => self.misc_output,
            0x3C4 => self.seq_index,
            0x3C5 => {
                let i = self.seq_index as usize;
                if i < 5 { self.seq_regs[i] } else { 0 }
            },
            0x3C7 => 0,
            0x3C9 => {
                let v = self.palette[self.dac_index_r as usize * 3 + self.dac_sub as usize];
                self.dac_sub = (self.dac_sub + 1) % 3;
                if self.dac_sub == 0 {
                    self.dac_index_r = self.dac_index_r.wrapping_add(1);
                }
                let r = v >> 2u8;
                proof {
                    lemma_byte_bits();
                    lemma_word_bits();
                }
                assert(r == v / 4);
                r
            },
            0x3CE => self.gfx_index,
            0x3CF => {
                let i = self.gfx_index as usize;
                if i < 9 { self.gfx_regs[i] } else { 0 }
            },
            0x3D4 | 0x3B4 => self.crtc_index,
            0x3D5 | 0x3B5 => {
                let c = self.cursor_pos;
                if self.crtc_index == 0x0E {
                    let r = (c >> 8u16) & 0xFF;
                    proof {
                        lemma_byte_bits();
                        lemma_word_bits();
                    }
                    assert(r == c / 256);
                    r as u8
                } else if self.crtc_index == 0x0F {
                    let r = c & 0xFF;
                    proof {
                        lemma_byte_bits();
                        lemma_word_bits();
                    }
                    assert(r == c % 256);
                    r as u8
                } else if (self.crtc_index as usize) < 25 {
                    self.crtc_regs[self.crtc_index as usize]
                } else {
                    0
                }
            },
            0x3DA | 0x3BA => {
                self.status1_toggle = !self.status1_toggle;
                if self.status1_toggle { 0x09 } else { 0x00 }
            },
            _ => 0xFF,
        }
    }

    /// Guest write of `data` to VGA I/O port `port`.
    pub fn io_write(&mut self, port: u16, data: u8)
        requires
            old(self).wf(),
        ensures
            final(self).wf(),
            old(self).write_effect(port, data, *final(self)),
    {
        match port {
            0x3C0 => {
                if !self.attr_data_mode {
                    let r = data & 0x1F;
                    proof {
                        lemma_byte_bits();
                        lemma_word_bits();
                    }
                    assert(r == data % 32);
                    self.attr_index = r;
                    self.attr_data_mode = true;
                } else {
                    let a = self.attr_index;
                    let r = a & 0x1F;
                    proof {
                        lemma_byte_bits();
                        lemma_word_bits();
                    }
                    assert(r == a % 32);
                    let i = r as usize;
                    if i < 21 {
                        self.attr_regs[i] = data;
                    }
                    self.attr_data_mode = false;
                }
            },
            0x3C2 => self.misc_output = data,
            0x3C4 => self.seq_index = data,
            0x3C5 => {
                let i = self.seq_index as usize;
                if i < 5 {
                    self.seq_regs[i] = data;
                }
            },
            0x3C8 => {
                self.dac_index_w = data;
                self.dac_sub = 0;
            },
            0x3C9 => {
                let slot = (self.dac_index_w as usize) * 3 + self.dac_sub as usize;
                if slot < 768 {
                    let v = (data & 0x3F) << 2u8;
                    proof {
                        lemma_byte_bits();
                        lemma_word_bits();
                    }
                    assert(v == (data % 64) * 4);
                    self.palette[slot] = v;
                }
                self.dac_sub = (self.dac_sub + 1) % 3;
                if self.dac_sub == 0 {
                    self.dac_index_w = self.dac_index_w.wrapping_add(1);
                }
            },
            0x3CE => self.gfx_index = data,
            0x3CF => {
                let i = self.gfx_index as usize;
                if i < 9 {
                    self.gfx_regs[i] = data;
                }
            },
            0x3D4 | 0x3B4 => self.crtc_index = data,
            0x3D5 | 0x3B5 => {
                let c = self.cursor_pos;
                if self.crtc_index == 0x0E {
                    let n = (c & 0xFF) | ((data as u16) << 8u16);
                    proof {
                        lemma_byte_bits();
                        lemma_word_bits();
                    }
                    assert(n == (c % 256) + data * 256);
                    self.cursor_pos = n;
                } else if self.crtc_index == 0x0F {
                    let n = (c & 0xFF00) | (data as u16);
                    proof {
                        lemma_byte_bits();
                        lemma_word_bits();
                    }
                    assert(n == (c / 256) * 256 + data);
                    self.cursor_pos = n;
                } else if (self.crtc_index as usize) < 25 {
                    self.crtc_regs[self.crtc_index as usize] = data;
                }
            },
            _ => {},
        }
    }

    /// Update one byte of the text framebuffer (`offset` relative to 0xB8000);
    /// offsets past the buffer are ignored.
    pub fn write_text_byte(&mut self, offset: usize, data: u8)
        ensures
            final(self).text() == (if offset < 4000 { old(self).text().update(offset as int, data) } else {
                old(self).text()
            }),
            final(self).gfx() == old(self).gfx() && final(self).palette() == old(self).palette(),
            final(self).dac_sub() == old(self).dac_sub(),
    {
        if offset < VGA_TEXT_FB_SIZE {
            self.text_buffer[offset] = data;
        }
    }

    /// Read one byte of the graphics pixel buffer (relative to 0xA0000), or 0
    /// past its end.
    pub fn read_gfx_byte(&self, offset: usize) -> (b: u8)
        ensures
            b == (if offset < self.gfx().len() { self.gfx()[offset as int] } else { 0 }),
    {
        if offset < self.gfx_buffer.len() { self.gfx_buffer[offset] } else { 0 }
    }

    /// Write one byte of the graphics pixel buffer; offsets past its end are ignored.
    pub fn write_gfx_byte(&mut self, offset: usize, data: u8)
        ensures
            final(self).gfx() == (if offset < old(self).gfx().len() {
                old(self).gfx().update(offset as int, data)
            } else {
                old(self).gfx()
            }),
            final(self).text() == old(self).text() && final(self).palette() == old(self).palette(),
            final(self).dac_sub() == old(self).dac_sub(),
    {
        if offset < self.gfx_buffer.len() {
            self.gfx_buffer.set(offset, data);
        }
    }

    /// Render the text framebuffer as plain text: 25 lines of 80 characters.
    pub fn render_text(&self) -> (out: String)
        ensures
            out@ == rendered_text(self.text()),
    {
        let mut out = String::new();
        let mut row: usize = 0;
        while row < VGA_TEXT_ROWS
            invariant
                row <= 25,
                out@ == rendered_text(self.text_buffer@).subrange(0, row * 81),
            decreases 25 - row,
        {
            let mut col: usize = 0;
            while col < VGA_TEXT_COLS
                invariant
                    row < 25,
                    col <= 80,
                    out@ == rendered_text(self.text_buffer@).subrange(0, row * 81 + col),
                decreases 80 - col,
            {
                let ch = self.text_buffer[(row * VGA_TEXT_COLS + col) * 2];
                let c: char = if ch >= 0x20 && ch < 0x7F { ch as char } else { ' ' };
                push_char(&mut out, c);
                col = col + 1;
                assert(out@ =~= rendered_text(self.text_buffer@).subrange(0, row * 81 + col));
            }
            push_char(&mut out, '\n');
            row = row + 1;
            assert(out@ =~= rendered_text(self.text_buffer@).subrange(0, row * 81));
        }
        assert(rendered_text(self.text_buffer@).subrange(0, 2025) =~= rendered_text(self.text_buffer@));
        out
    }
}

impl Default for VgaDevice {
    fn default() -> (v: Self)
        ensures
            v.at_power_on(),
    {
        Self::new()
    }
}

} // verus!
