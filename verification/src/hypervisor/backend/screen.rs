//! The 80×25 VGA text screens of the native engine: BIOS POST, OS
//! installer and guest shell. Each screen is built in a 4000-byte buffer of
//! (character, attribute) cells; the host copies it to guest RAM at 0xB8000.
//!
//! A screen is specified as the sequence of drawing steps that produce it:
//! `set_cell` writes one cell, `put_bytes` a run of cells on one row
//! (cells past column 79 are dropped), `put_text` the UTF-8 bytes of a
//! string.
use vstd::prelude::*;
use vstd::string::StringSliceAdditionalSpecFns;
use vstd::utf8::{encode_utf8, is_char_boundary};
use crate::hypervisor::backend::shell::GuestShellState;
use crate::util::parse::{lines_of, text_lines, views};
use crate::util::text::{
    decimal, pad_right, pad_right_string, push_str, repeat_char,
    starts_with, str_starts_with, u64_decimal,
};

verus! {

/// Bytes in a text screen: 25 rows of 80 two-byte cells.
pub const TEXT_SCREEN_BYTES: usize = 4000;

/// `buf` with the cell at (`row`, `col`) set to `ch` in colour `attr`;
/// unchanged off screen.
pub open spec fn set_cell(buf: Seq<u8>, row: int, col: int, ch: u8, attr: u8) -> Seq<u8> {
    if 0 <= row < 25 && 0 <= col < 80 {
        buf.update((row * 80 + col) * 2, ch).update((row * 80 + col) * 2 + 1, attr)
    } else {
        buf
    }
}

/// `buf` with `bytes` written left to right on `row` from column `col`.
pub open spec fn put_bytes(buf: Seq<u8>, row: int, col: int, bytes: Seq<u8>, attr: u8) -> Seq<u8>
    decreases bytes.len(),
{
    if bytes.len() == 0 {
        buf
    } else {
        set_cell(
            put_bytes(buf, row, col, bytes.drop_last(), attr),
            row,
            col + bytes.len() - 1,
            bytes.last(),
            attr,
        )
    }
}

/// `buf` with the UTF-8 bytes of `text` written on `row` from column `col`.
pub open spec fn put_text(buf: Seq<u8>, row: int, col: int, text: Seq<char>, attr: u8) -> Seq<u8> {
    put_bytes(buf, row, col, encode_utf8(text), attr)
}

/// `buf` with all 80 cells of `row` set to `ch` in colour `attr`.
pub open spec fn fill_row(buf: Seq<u8>, row: int, ch: u8, attr: u8) -> Seq<u8> {
    put_bytes(buf, row, 0, Seq::new(80, |_i: int| ch), attr)
}

/// A screen of blanks in colour `attr`.
pub open spec fn blank_screen(attr: u8) -> Seq<u8> {
    Seq::new(4000, |i: int| if i % 2 == 0 { 0x20u8 } else { attr })
}

/// Set one cell.
pub fn write_text_cell(buf: &mut [u8; 4000], row: usize, col: usize, ch: u8, attr: u8)
    ensures
        final(buf)@ == set_cell(old(buf)@, row as int, col as int, ch, attr),
{
    if row < 25 && col < 80 {
        let idx = (row * 80 + col) * 2;
        buf[idx] = ch;
        buf[idx + 1] = attr;
        assert(buf@ =~= set_cell(old(buf)@, row as int, col as int, ch, attr));
    }
}

/// Cells from index `k` on fall past column 79, so only the first `k`
/// bytes show.
proof fn lemma_put_bytes_clipped(buf: Seq<u8>, row: int, col: int, bytes: Seq<u8>, attr: u8, k: int)
    requires
        0 <= k <= bytes.len(),
        k == bytes.len() || col + k >= 80,
    ensures
        put_bytes(buf, row, col, bytes, attr) == put_bytes(buf, row, col, bytes.subrange(0, k), attr),
    decreases bytes.len(),
{
    if bytes.len() > k {
        lemma_put_bytes_clipped(buf, row, col, bytes.drop_last(), attr, k);
        assert(bytes.drop_last().subrange(0, k) =~= bytes.subrange(0, k));
    } else {
        assert(bytes.subrange(0, k) =~= bytes);
    }
}

/// Write `bytes` on `row` starting at `start_col`.
pub fn write_text_bytes_col(buf: &mut [u8; 4000], row: usize, start_col: usize, bytes: &[u8], attr: u8)
    ensures
        final(buf)@ == put_bytes(old(buf)@, row as int, start_col as int, bytes@, attr),
{
    let n = bytes.len();
    let end: usize = if start_col >= 80 {
        0
    } else if n < 80 - start_col {
        n
    } else {
        80 - start_col
    };
    let mut i: usize = 0;
    assert(bytes@.subrange(0, 0) =~= Seq::<u8>::empty());
    while i < end
        invariant
            n == bytes@.len(),
            end <= n,
            start_col < 80 || end == 0,
            end <= 80 - start_col || end == 0,
            i <= end,
            buf@ == put_bytes(old(buf)@, row as int, start_col as int, bytes@.subrange(0, i as int), attr),
        decreases end - i,
    {
        write_text_cell(buf, row, start_col + i, bytes[i], attr);
        assert(bytes@.subrange(0, i + 1).drop_last() =~= bytes@.subrange(0, i as int));
        i = i + 1;
    }
    proof {
        lemma_put_bytes_clipped(old(buf)@, row as int, start_col as int, bytes@, attr, end as int);
    }
}

/// Write `bytes` on `row` from column 0.
pub fn write_text_bytes(buf: &mut [u8; 4000], row: usize, bytes: &[u8], attr: u8)
    ensures
        final(buf)@ == put_bytes(old(buf)@, row as int, 0, bytes@, attr),
{
    write_text_bytes_col(buf, row, 0, bytes, attr);
}

/// Write the UTF-8 bytes of `text` on `row` starting at `start_col`.
pub fn write_text_str_col(buf: &mut [u8; 4000], row: usize, start_col: usize, text: &str, attr: u8)
    ensures
        final(buf)@ == put_text(old(buf)@, row as int, start_col as int, text@, attr),
{
    write_text_bytes_col(buf, row, start_col, text.as_bytes(), attr);
}

/// Write the UTF-8 bytes of `text` on `row` from column 0.
pub fn write_text_str(buf: &mut [u8; 4000], row: usize, text: &str, attr: u8)
    ensures
        final(buf)@ == put_text(old(buf)@, row as int, 0, text@, attr),
{
    write_text_bytes_col(buf, row, 0, text.as_bytes(), attr);
}

/// Set all 80 cells of `row`.
pub fn fill_text_row(buf: &mut [u8; 4000], row: usize, ch: u8, attr: u8)
    ensures
        final(buf)@ == fill_row(old(buf)@, row as int, ch, attr),
{
    let cells: [u8; 80] = [ch; 80];
    assert(cells@ =~= Seq::new(80, |_i: int| ch));
    write_text_bytes_col(buf, row, 0, &cells, attr);
}

/// A screen of blanks in colour `attr`.
fn blank_text_screen(attr: u8) -> (buf: [u8; 4000])
    ensures
        buf@ == blank_screen(attr),
{
    let mut buf = [0u8; 4000];
    let mut i: usize = 0;
    while i < 2000
        invariant
            i <= 2000,
            forall|k: int| 0 <= k < 2 * i ==> buf@[k] == blank_screen(attr)[k],
        decreases 2000 - i,
    {
        buf[i * 2] = 0x20;
        buf[i * 2 + 1] = attr;
        i = i + 1;
    }
    assert(buf@ =~= blank_screen(attr));
    buf
}

/// `text` centred in `width` bytes with `fill` on both sides (the extra
/// one on the right), or cut to `width` bytes when it does not fit.
pub open spec fn centered(text: Seq<char>, width: nat, fill: char) -> Seq<char> {
    let n = encode_utf8(text).len();
    let left = ((width - n) / 2) as nat;
    let right = (width - n - left) as nat;
    Seq::new(left, |_i: int| fill) + text + Seq::new(right, |_i: int| fill)
}

/// Centre `text` in a field of `width` bytes.
pub fn center_pad(text: &str, width: usize, fill: char) -> (r: String)
    requires
        encode_utf8(text@).len() >= width ==> is_char_boundary(encode_utf8(text@), width as int),
    ensures
        encode_utf8(text@).len() < width ==> r@ == centered(text@, width as nat, fill),
        encode_utf8(text@).len() >= width ==> encode_utf8(r@) == encode_utf8(text@).subrange(0, width as int),
{
    assert(text.spec_bytes() == encode_utf8(text@));
    let n = text.as_bytes().len();
    if n >= width {
        let (head, _tail) = text.split_at(width);
        assert(head.spec_bytes() == encode_utf8(head@));
        return String::from_str(head);
    }
    let total_pad = width - n;
    let left = total_pad / 2;
    let right = total_pad - left;
    let mut r = repeat_char(fill, left);
    push_str(&mut r, text);
    let tail = repeat_char(fill, right);
    push_str(&mut r, tail.as_str());
    r
}

// ---------------------------------------------------------------------------
// Installer screen
// ---------------------------------------------------------------------------

/// Overall installer progress in percent for `step` (of 54 steps).
pub open spec fn installer_percent(step: u64) -> u64 {
    if step >= 54 {
        100
    } else {
        (step * 100 / 54) as u64
    }
}

/// Cells of the 56-cell progress bar that are filled.
pub open spec fn installer_filled(step: u64) -> u64 {
    (installer_percent(step) * 56 / 100) as u64
}

/// Compute the overall progress and the filled bar cells.
pub fn installer_progress(step: u64) -> (r: (u64, u64))
    ensures
        r.0 == installer_percent(step),
        r.1 == installer_filled(step),
        r.0 <= 100 && r.1 <= 56,
{
    let percent = if step >= 54 { 100 } else { step * 100 / 54 };
    (percent, percent * 56 / 100)
}

/// `n` (below 1000) right-aligned in three ASCII cells (`{n:>3}`).
pub open spec fn percent_field(n: u64) -> Seq<u8> {
    seq![
        if n >= 100 { (0x30 + n / 100) as u8 } else { 0x20u8 },
        if n >= 10 { (0x30 + (n / 10) % 10) as u8 } else { 0x20u8 },
        (0x30 + n % 10) as u8,
    ]
}

/// Render `n` (below 1000) right-aligned in three ASCII cells.
pub fn percent_cells(n: u64) -> (r: [u8; 3])
    requires
        n < 1000,
    ensures
        r@ == percent_field(n),
{
    let a: u8 = if n >= 100 { (0x30 + n / 100) as u8 } else { 0x20 };
    let b: u8 = if n >= 10 { (0x30 + (n / 10) % 10) as u8 } else { 0x20 };
    let c: u8 = (0x30 + n % 10) as u8;
    let r = [a, b, c];
    assert(r@ =~= percent_field(n));
    r
}

/// The eight-byte status field of one installer stage.
pub open spec fn stage_status(step: u64, start: u64, end: u64) -> (Seq<u8>, u8) {
    if step >= end {
        (seq![0xFBu8, 0x20, 0x44, 0x4F, 0x4E, 0x45, 0x20, 0x20], 0x0Au8)
    } else if step >= start {
        (seq![0x20u8, 0x20] + percent_field(((step - start) * 100 / (end - start)) as u64) + seq![0x25u8, 0x20, 0x20], 0x0Eu8)
    } else {
        (seq![0x20u8, 0x20, 0x2D, 0x2D, 0x2D, 0x20, 0x20, 0x20], 0x08u8)
    }
}

/// `buf` with installer stage `label` drawn on `row`.
pub open spec fn stage_row(buf: Seq<u8>, row: int, label: Seq<char>, start: u64, end: u64, step: u64) -> Seq<u8> {
    let (status, attr) = stage_status(step, start, end);
    let b1 = put_text(buf, row, 0, "  "@ + pad_right(label, 52) + " [ "@, 0x07);
    let b2 = put_bytes(b1, row, 57, status, attr);
    put_text(b2, row, 57 + status.len() as int, " ]"@, 0x07)
}

/// Draw one installer stage.
fn write_stage_row(buf: &mut [u8; 4000], row: usize, label: &str, start: u64, end: u64, step: u64)
    requires
        start < end <= 54,
    ensures
        final(buf)@ == stage_row(old(buf)@, row as int, label@, start, end, step),
{
    let mut line = String::from_str("  ");
    let padded = pad_right_string(label, 52);
    push_str(&mut line, padded.as_str());
    push_str(&mut line, " [ ");
    write_text_str(buf, row, line.as_str(), 0x07);
    if step >= end {
        let status: [u8; 8] = [0xFB, 0x20, 0x44, 0x4F, 0x4E, 0x45, 0x20, 0x20];
        assert(status@ =~= stage_status(step, start, end).0);
        write_text_bytes_col(buf, row, 57, &status, 0x0A);
        write_text_str_col(buf, row, 65, " ]", 0x07);
    } else if step >= start {
        let sub = (step - start) * 100 / (end - start);
        assert((step - start) * 100 / (end - start) < 100) by (nonlinear_arith)
            requires
                start <= step < end,
        ;
        let d = percent_cells(sub);
        let status: [u8; 8] = [0x20, 0x20, d[0], d[1], d[2], 0x25, 0x20, 0x20];
        assert(status@ =~= stage_status(step, start, end).0);
        write_text_bytes_col(buf, row, 57, &status, 0x0E);
        write_text_str_col(buf, row, 65, " ]", 0x07);
    } else {
        let status: [u8; 8] = [0x20, 0x20, 0x2D, 0x2D, 0x2D, 0x20, 0x20, 0x20];
        assert(status@ =~= stage_status(step, start, end).0);
        write_text_bytes_col(buf, row, 57, &status, 0x08);
        write_text_str_col(buf, row, 65, " ]", 0x07);
    }
}

/// The installer's title row (the title centred in 80 bytes).
pub open spec fn installer_title() -> Seq<char> {
    "             NovaVM Workstation  —  Automated Guest OS Installer              "@
}

/// The installer's second header row.
pub open spec fn installer_subtitle() -> Seq<char> {
    "         Developer: Vikash Kumar  |  vikukumar.github.io  |  Build 2026         "@
}

/// The 56-cell progress bar with `filled` full blocks.
pub open spec fn progress_bar(filled: u64) -> Seq<u8> {
    Seq::new(56, |i: int| if i < filled { 0xDBu8 } else { 0xB0u8 })
}

/// The eight installer stages, each drawn on its own row from row 7.
pub open spec fn installer_stages(buf: Seq<u8>, step: u64) -> Seq<u8> {
    let b1 = stage_row(buf, 7, "Initializing disk and partition table (GPT)"@, 0, 10, step);
    let b2 = stage_row(b1, 8, "Creating primary partitions and swap area"@, 10, 18, step);
    let b3 = stage_row(b2, 9, "Formatting partitions (ext4 / EFI / swap)"@, 18, 26, step);
    let b4 = stage_row(b3, 10, "Copying core OS kernel and initramfs"@, 26, 35, step);
    let b5 = stage_row(b4, 11, "Installing base system packages (1/2)"@, 35, 42, step);
    let b6 = stage_row(b5, 12, "Installing base system packages (2/2)"@, 42, 48, step);
    let b7 = stage_row(b6, 13, "Installing NovaVM Guest Drivers & Agent"@, 48, 52, step);
    stage_row(b7, 14, "Configuring bootloader (GRUB2)"@, 52, 54, step)
}

/// The status line under the progress bar.
pub open spec fn installer_status_row(buf: Seq<u8>, percent: u64) -> Seq<u8> {
    if percent >= 100 {
        let b1 = put_text(buf, 19, 0, "  "@, 0x0A);
        let b2 = put_bytes(b1, 19, 2, seq![0xFBu8], 0x0A);
        put_text(b2, 19, 3, "  Installation complete! Preparing to boot the new operating system..."@, 0x0A)
    } else if percent > 50 {
        put_text(buf, 19, 0, "  >>  Installing system files and configuring NovaVM guest environment..."@, 0x0E)
    } else {
        put_text(buf, 19, 0, "  >>  Partitioning and formatting virtual storage volume..."@, 0x0E)
    }
}

/// The installer screen for `vm_name` at installer step `step`.
pub open spec fn installer_screen(vm_name: Seq<char>, step: u64) -> Seq<u8> {
    let percent = installer_percent(step);
    let b0 = blank_screen(0x0F);
    let b1 = put_text(fill_row(b0, 0, 0x20, 0x30), 0, 0, installer_title(), 0x3F);
    let b2 = put_text(fill_row(b1, 1, 0x20, 0x30), 1, 0, installer_subtitle(), 0x3B);
    let b3 = fill_row(b2, 2, 0xC4, 0x07);
    let b4 = put_text(b3, 3, 0, " Virtual Machine: "@ + pad_right(vm_name, 30) + "    Disk: 60 GB VMDK (SATA)"@, 0x07);
    let b5 = put_text(b4, 4, 0, " Hypervisor: NovaVM WHP Engine        Filesystem: ext4 / NTFS (auto-detect)"@, 0x08);
    let b6 = fill_row(b5, 5, 0xC4, 0x07);
    let b7 = installer_stages(b6, step);
    let b8 = fill_row(b7, 16, 0xC4, 0x07);
    let b9 = put_text(b8, 17, 0, " Overall Progress:  ["@, 0x0B);
    let b10 = put_bytes(b9, 17, 21, progress_bar(installer_filled(step)), 0x0B);
    let b11 = put_text(b10, 17, 77, "]"@, 0x0B);
    let b12 = put_bytes(b11, 17, 73, percent_field(percent).push(0x25u8), 0x0B);
    let b13 = fill_row(b12, 18, 0xC4, 0x07);
    let b14 = installer_status_row(b13, percent);
    let b15 = fill_row(b14, 24, 0x20, 0x70);
    put_text(b15, 24, 0, pad_right(" NovaVM Installer  |  Copyright (C) 2026 Vikash Kumar  |  DO NOT POWER OFF  "@, 80), 0x70)
}

/// Draw the OS installer screen for `vm_name` at step `progress_step`
/// (54 steps make 100 %).
pub fn write_os_installer_screen(vm_name: &str, progress_step: u64) -> (buf: [u8; 4000])
    ensures
        buf@ == installer_screen(vm_name@, progress_step),
{
    let mut buf = blank_text_screen(0x0F);
    let (percent, filled) = installer_progress(progress_step);
    let mut bar = [0xB0u8; 56];
    let mut i: usize = 0;
    while i < filled as usize
        invariant
            filled <= 56,
            i <= filled,
            forall|k: int| 0 <= k < 56 ==> bar@[k] == if k < i { 0xDBu8 } else { 0xB0u8 },
        decreases filled - i,
    {
        bar[i] = 0xDB;
        i = i + 1;
    }
    assert(bar@ =~= progress_bar(filled));

    fill_text_row(&mut buf, 0, 0x20, 0x30);
    write_text_str(&mut buf, 0, "             NovaVM Workstation  —  Automated Guest OS Installer              ", 0x3F);
    fill_text_row(&mut buf, 1, 0x20, 0x30);
    write_text_str(&mut buf, 1, "         Developer: Vikash Kumar  |  vikukumar.github.io  |  Build 2026         ", 0x3B);
    fill_text_row(&mut buf, 2, 0xC4, 0x07);
    let mut info = String::from_str(" Virtual Machine: ");
    let name = pad_right_string(vm_name, 30);
    push_str(&mut info, name.as_str());
    push_str(&mut info, "    Disk: 60 GB VMDK (SATA)");
    write_text_str(&mut buf, 3, info.as_str(), 0x07);
    write_text_str(&mut buf, 4, " Hypervisor: NovaVM WHP Engine        Filesystem: ext4 / NTFS (auto-detect)", 0x08);
    fill_text_row(&mut buf, 5, 0xC4, 0x07);

    write_stage_row(&mut buf, 7, "Initializing disk and partition table (GPT)", 0, 10, progress_step);
    write_stage_row(&mut buf, 8, "Creating primary partitions and swap area", 10, 18, progress_step);
    write_stage_row(&mut buf, 9, "Formatting partitions (ext4 / EFI / swap)", 18, 26, progress_step);
    write_stage_row(&mut buf, 10, "Copying core OS kernel and initramfs", 26, 35, progress_step);
    write_stage_row(&mut buf, 11, "Installing base system packages (1/2)", 35, 42, progress_step);
    write_stage_row(&mut buf, 12, "Installing base system packages (2/2)", 42, 48, progress_step);
    write_stage_row(&mut buf, 13, "Installing NovaVM Guest Drivers & Agent", 48, 52, progress_step);
    write_stage_row(&mut buf, 14, "Configuring bootloader (GRUB2)", 52, 54, progress_step);

    fill_text_row(&mut buf, 16, 0xC4, 0x07);
    write_text_str(&mut buf, 17, " Overall Progress:  [", 0x0B);
    write_text_bytes_col(&mut buf, 17, 21, &bar, 0x0B);
    write_text_str_col(&mut buf, 17, 77, "]", 0x0B);
    let d = percent_cells(percent);
    let pct: [u8; 4] = [d[0], d[1], d[2], 0x25];
    assert(pct@ =~= percent_field(percent).push(0x25u8));
    write_text_bytes_col(&mut buf, 17, 73, &pct, 0x0B);
    fill_text_row(&mut buf, 18, 0xC4, 0x07);

    if percent >= 100 {
        write_text_str(&mut buf, 19, "  ", 0x0A);
        let tick: [u8; 1] = [0xFB];
        assert(tick@ =~= seq![0xFBu8]);
        write_text_bytes_col(&mut buf, 19, 2, &tick, 0x0A);
        write_text_str_col(&mut buf, 19, 3, "  Installation complete! Preparing to boot the new operating system...", 0x0A);
    } else if percent > 50 {
        write_text_str(&mut buf, 19, "  >>  Installing system files and configuring NovaVM guest environment...", 0x0E);
    } else {
        write_text_str(&mut buf, 19, "  >>  Partitioning and formatting virtual storage volume...", 0x0E);
    }

    fill_text_row(&mut buf, 24, 0x20, 0x70);
    let bottom = pad_right_string(" NovaVM Installer  |  Copyright (C) 2026 Vikash Kumar  |  DO NOT POWER OFF  ", 80);
    write_text_str(&mut buf, 24, bottom.as_str(), 0x70);
    buf
}

// ---------------------------------------------------------------------------
// BIOS POST screen
// ---------------------------------------------------------------------------

/// The BIOS screen's title (centred in 78 bytes).
pub open spec fn bios_title() -> Seq<char> {
    "                         NovaVM Workstation BIOS v2.0                         "@
}

/// The BIOS screen's copyright line (centred in 78 bytes).
pub open spec fn bios_copyright() -> Seq<char> {
    "           Copyright (C) 2026 Vikash Kumar  |  vikukumar.github.io            "@
}

/// One system-information row: the whole line padded to 80, then the
/// label and its colon re-drawn in cyan, then the value from column 20.
pub open spec fn sys_row(buf: Seq<u8>, row: int, label: Seq<char>, value: Seq<char>) -> Seq<u8> {
    let b1 = put_text(buf, row, 0, pad_right(label + ": "@ + value, 80), 0x1F);
    let b2 = put_text(b1, row, 0, label + ": "@, 0x1B);
    put_text(b2, row, 20, value, 0x1F)
}

fn write_sys_row(buf: &mut [u8; 4000], row: usize, label: &str, value: &str)
    ensures
        final(buf)@ == sys_row(old(buf)@, row as int, label@, value@),
{
    let mut line = String::from_str(label);
    push_str(&mut line, ": ");
    push_str(&mut line, value);
    let padded = pad_right_string(line.as_str(), 80);
    write_text_str(buf, row, padded.as_str(), 0x1F);
    let mut head = String::from_str(label);
    push_str(&mut head, ": ");
    write_text_str(buf, row, head.as_str(), 0x1B);
    write_text_str_col(buf, row, 20, value, 0x1F);
}

/// One device POST row: the device padded to 72 cells, its status from
/// column 72 in green.
pub open spec fn device_row(buf: Seq<u8>, row: int, device: Seq<char>, status: Seq<char>) -> Seq<u8> {
    put_text(put_text(buf, row, 0, pad_right(device, 72), 0x1F), row, 72, status, 0x1A)
}

fn write_device_row(buf: &mut [u8; 4000], row: usize, device: &str, status: &str)
    ensures
        final(buf)@ == device_row(old(buf)@, row as int, device@, status@),
{
    let padded = pad_right_string(device, 72);
    write_text_str(buf, row, padded.as_str(), 0x1F);
    write_text_str_col(buf, row, 72, status, 0x1A);
}

/// The bordered header of the BIOS screen (rows 0–3).
pub open spec fn bios_header(buf: Seq<u8>) -> Seq<u8> {
    let b1 = set_cell(set_cell(fill_row(buf, 0, 0xCD, 0x1E), 0, 0, 0xC9, 0x1E), 0, 79, 0xBB, 0x1E);
    let b2 = set_cell(put_text(set_cell(b1, 1, 0, 0xBA, 0x1E), 1, 1, bios_title(), 0x1E), 1, 79, 0xBA, 0x1E);
    let b3 = set_cell(put_text(set_cell(b2, 2, 0, 0xBA, 0x1E), 2, 1, bios_copyright(), 0x1B), 2, 79, 0xBA, 0x1E);
    set_cell(set_cell(fill_row(b3, 3, 0xCD, 0x1E), 3, 0, 0xC8, 0x1E), 3, 79, 0xBC, 0x1E)
}

/// The BIOS POST screen for `vm_name` with `vcpus` vCPUs, `ram_mib` MiB and
/// the spinner glyph `spinner`.
pub open spec fn bios_screen(vm_name: Seq<char>, vcpus: u32, ram_mib: u64, spinner: char) -> Seq<u8> {
    let b0 = bios_header(blank_screen(0x1F));
    let b1 = sys_row(b0, 5, "  Virtual Machine "@, vm_name);
    let b2 = sys_row(b1, 6, "  Processor Type  "@, "Intel(R) Xeon(R) Virtual ("@ + decimal(vcpus as nat) + " vCPU x86_64)"@);
    let b3 = sys_row(b2, 7, "  System Memory   "@, decimal(ram_mib as nat) + " MB Installed RAM (ECC Simulation)"@);
    let b4 = sys_row(b3, 8, "  Hypervisor      "@, "NovaVM Native Engine (Windows Hypervisor Platform)"@);
    let b5 = sys_row(b4, 9, "  Display Adapter "@, "NovaVM Standard VGA Controller (640x400 Text/Gfx)"@);
    let b6 = sys_row(b5, 10, "  Security Module "@, "Virtual TPM 2.0  |  SecureBoot: Enabled"@);
    let b7 = sys_row(b6, 11, "  Build Revision  "@, "NovaVM-WHP 2.0.0-dev  |  ACPI 2.0  |  SMBIOS 3.2"@);
    let b8 = fill_row(b7, 13, 0x20, 0x1F);
    let b9 = device_row(b8, 14, "  [*] Keyboard Controller (PS/2 8042)"@, "OK"@);
    let b10 = device_row(b9, 15, "  [*] ACPI 2.0 Power Management Timer"@, "OK"@);
    let b11 = device_row(b10, 16, "  [*] IDE/SATA Controller — Virtual Hard Disk (60.0 GB)"@, "OK"@);
    let b12 = device_row(b11, 17, "  [*] CD-ROM / DVD-RW Drive (Optical)"@, "READY"@);
    let b13 = device_row(b12, 18, "  [*] Network Adapter — Intel PRO/1000 MT Virtual NIC"@, "LINKED"@);
    let b14 = device_row(b13, 19, "  [*] USB 3.0 xHCI Host Controller"@, "OK"@);
    let b15 = fill_row(b14, 21, 0x20, 0x1F);
    let b16 = put_text(b15, 22, 0, pad_right("  ["@ + seq![spinner] + "] Scanning boot media and loading operating system..."@, 80), 0x1A);
    let b17 = put_text(b16, 23, 0, pad_right("  Press F2 to enter BIOS Setup  |  Press F12 for Boot Menu  |  ESC to Skip Memory Test"@, 80), 0x18);
    let b18 = fill_row(b17, 24, 0x20, 0x70);
    put_text(b18, 24, 0, pad_right(" NovaVM Workstation 2.0  |  Copyright (C) 2026 Vikash Kumar  |  WHP Build 20260808 "@, 80), 0x70)
}

/// Draw the BIOS POST screen.
pub fn write_bios_boot_screen(vm_name: &str, vcpus: u32, ram_mib: u64, spinner: char) -> (buf: [u8; 4000])
    ensures
        buf@ == bios_screen(vm_name@, vcpus, ram_mib, spinner),
{
    let mut buf = blank_text_screen(0x1F);
    fill_text_row(&mut buf, 0, 0xCD, 0x1E);
    write_text_cell(&mut buf, 0, 0, 0xC9, 0x1E);
    write_text_cell(&mut buf, 0, 79, 0xBB, 0x1E);
    write_text_cell(&mut buf, 1, 0, 0xBA, 0x1E);
    write_text_str_col(&mut buf, 1, 1, "                         NovaVM Workstation BIOS v2.0                         ", 0x1E);
    write_text_cell(&mut buf, 1, 79, 0xBA, 0x1E);
    write_text_cell(&mut buf, 2, 0, 0xBA, 0x1E);
    write_text_str_col(&mut buf, 2, 1, "           Copyright (C) 2026 Vikash Kumar  |  vikukumar.github.io            ", 0x1B);
    write_text_cell(&mut buf, 2, 79, 0xBA, 0x1E);
    fill_text_row(&mut buf, 3, 0xCD, 0x1E);
    write_text_cell(&mut buf, 3, 0, 0xC8, 0x1E);
    write_text_cell(&mut buf, 3, 79, 0xBC, 0x1E);

    let mut cpu = String::from_str("Intel(R) Xeon(R) Virtual (");
    let n = u64_decimal(vcpus as u64);
    push_str(&mut cpu, n.as_str());
    push_str(&mut cpu, " vCPU x86_64)");
    let mut mem = u64_decimal(ram_mib);
    push_str(&mut mem, " MB Installed RAM (ECC Simulation)");
    write_sys_row(&mut buf, 5, "  Virtual Machine ", vm_name);
    write_sys_row(&mut buf, 6, "  Processor Type  ", cpu.as_str());
    write_sys_row(&mut buf, 7, "  System Memory   ", mem.as_str());
    write_sys_row(&mut buf, 8, "  Hypervisor      ", "NovaVM Native Engine (Windows Hypervisor Platform)");
    write_sys_row(&mut buf, 9, "  Display Adapter ", "NovaVM Standard VGA Controller (640x400 Text/Gfx)");
    write_sys_row(&mut buf, 10, "  Security Module ", "Virtual TPM 2.0  |  SecureBoot: Enabled");
    write_sys_row(&mut buf, 11, "  Build Revision  ", "NovaVM-WHP 2.0.0-dev  |  ACPI 2.0  |  SMBIOS 3.2");

    fill_text_row(&mut buf, 13, 0x20, 0x1F);
    write_device_row(&mut buf, 14, "  [*] Keyboard Controller (PS/2 8042)", "OK");
    write_device_row(&mut buf, 15, "  [*] ACPI 2.0 Power Management Timer", "OK");
    write_device_row(&mut buf, 16, "  [*] IDE/SATA Controller — Virtual Hard Disk (60.0 GB)", "OK");
    write_device_row(&mut buf, 17, "  [*] CD-ROM / DVD-RW Drive (Optical)", "READY");
    write_device_row(&mut buf, 18, "  [*] Network Adapter — Intel PRO/1000 MT Virtual NIC", "LINKED");
    write_device_row(&mut buf, 19, "  [*] USB 3.0 xHCI Host Controller", "OK");
    fill_text_row(&mut buf, 21, 0x20, 0x1F);

    let mut boot = String::from_str("  [");
    crate::util::text::push_char(&mut boot, spinner);
    push_str(&mut boot, "] Scanning boot media and loading operating system...");
    assert(boot@ =~= "  ["@ + seq![spinner] + "] Scanning boot media and loading operating system..."@);
    let boot_line = pad_right_string(boot.as_str(), 80);
    write_text_str(&mut buf, 22, boot_line.as_str(), 0x1A);
    let hints = pad_right_string("  Press F2 to enter BIOS Setup  |  Press F12 for Boot Menu  |  ESC to Skip Memory Test", 80);
    write_text_str(&mut buf, 23, hints.as_str(), 0x18);
    fill_text_row(&mut buf, 24, 0x20, 0x70);
    let bar = pad_right_string(" NovaVM Workstation 2.0  |  Copyright (C) 2026 Vikash Kumar  |  WHP Build 20260808 ", 80);
    write_text_str(&mut buf, 24, bar.as_str(), 0x70);
    buf
}

// ---------------------------------------------------------------------------
// Guest shell screen
// ---------------------------------------------------------------------------

/// Colour of a scroll-back line: green for a command echo, grey for lines
/// that start with `[` or a space, bright white otherwise.
pub open spec fn history_attr(line: Seq<char>) -> u8 {
    if starts_with(line, "root@novavm"@) {
        0x0A
    } else if line.len() > 0 && (line[0] == '[' || line[0] == ' ') {
        0x07
    } else {
        0x0F
    }
}

/// `buf` with `lines` drawn one per row from `first_row`, each padded to 80.
pub open spec fn put_history(buf: Seq<u8>, lines: Seq<Seq<char>>, first_row: int) -> Seq<u8>
    decreases lines.len(),
{
    if lines.len() == 0 {
        buf
    } else {
        put_text(
            put_history(buf, lines.drop_last(), first_row),
            first_row + lines.len() - 1,
            0,
            pad_right(lines.last(), 80),
            history_attr(lines.last()),
        )
    }
}

/// The welcome text shown while the scroll-back is empty.
pub open spec fn shell_motd(buf: Seq<u8>) -> Seq<u8> {
    let b1 = put_text(buf, 4, 0, " Welcome to NovaOS Workstation 1.0 LTS (built on NovaVM 2.0)"@, 0x0F);
    let b2 = put_text(b1, 6, 0, "  * NovaVM WHP Engine:     Windows Hypervisor Platform (native)"@, 0x07);
    let b3 = put_text(b2, 7, 0, "  * Kernel:                Linux 6.6.0-novavm  #1 SMP x86_64"@, 0x07);
    let b4 = put_text(b3, 8, 0, "  * Virtual CPUs:          Allocated from host processor"@, 0x07);
    let b5 = put_text(b4, 9, 0, "  * Storage:               Virtual VMDK (SATA, 60 GB)"@, 0x07);
    let b6 = put_text(b5, 10, 0, "  * Network:               Intel PRO/1000 (NAT, bridged)"@, 0x07);
    let b7 = put_text(b6, 12, 0, "  Available commands:"@, 0x0B);
    let b8 = put_text(b7, 13, 0, "    help   ls    top    uname   whoami  clear"@, 0x07);
    put_text(b8, 14, 0, "    ping   cat   echo   install setup   reboot"@, 0x07)
}

/// The guest shell screen for `vm_name` with scroll-back `history` and the
/// line being typed, `input`. At most 19 scroll-back lines fit (rows 3–21).
pub open spec fn shell_screen(vm_name: Seq<char>, history: Seq<Seq<char>>, input: Seq<char>) -> Seq<u8> {
    let b0 = blank_screen(0x07);
    let b1 = put_text(fill_row(b0, 0, 0x20, 0x17), 0, 0,
        pad_right(" NovaOS 1.0 LTS  (Linux 6.6.0-novavm x86_64)  |  Machine: "@ + vm_name, 80), 0x1F);
    let b2 = put_text(fill_row(b1, 1, 0x20, 0x17), 1, 0,
        pad_right(" Vikash Kumar  |  vikukumar.github.io  |  NovaVM WHP Engine  |  Type 'help' for commands"@, 80), 0x1B);
    let b3 = fill_row(b2, 2, 0xC4, 0x08);
    let b4 = if history.len() == 0 {
        shell_motd(b3)
    } else {
        put_history(b3, if history.len() > 19 { history.subrange(history.len() - 19, history.len() as int) } else { history }, 3)
    };
    let b5 = fill_row(b4, 23, 0xC4, 0x08);
    let b6 = put_text(b5, 22, 0, pad_right("root@novavm:~# "@ + input, 79), 0x0A);
    let cursor: int = 15 + encode_utf8(input).len() as int;
    let b7 = if cursor < 80 { set_cell(b6, 22, cursor, 0x5F, 0x0F) } else { b6 };
    let b8 = fill_row(b7, 24, 0x20, 0x70);
    put_text(b8, 24, 0, pad_right(" root@novavm  Shell  |  NovaVM Workstation  |  (C) 2026 Vikash Kumar  "@, 80), 0x70)
}

/// Colour of one scroll-back line.
fn line_attr(line: &str) -> (a: u8)
    ensures
        a == history_attr(line@),
{
    if str_starts_with(line, "root@novavm") {
        0x0A
    } else if line.unicode_len() > 0 && (line.get_char(0) == '[' || line.get_char(0) == ' ') {
        0x07
    } else {
        0x0F
    }
}

/// Draw the guest shell screen.
pub fn write_guest_shell_screen(vm_name: &str, shell: &GuestShellState) -> (buf: [u8; 4000])
    ensures
        buf@ == shell_screen(vm_name@, shell.history(), shell.current_input@),
{
    let mut buf = blank_text_screen(0x07);
    fill_text_row(&mut buf, 0, 0x20, 0x17);
    let mut h1 = String::from_str(" NovaOS 1.0 LTS  (Linux 6.6.0-novavm x86_64)  |  Machine: ");
    push_str(&mut h1, vm_name);
    let h1p = pad_right_string(h1.as_str(), 80);
    write_text_str(&mut buf, 0, h1p.as_str(), 0x1F);
    fill_text_row(&mut buf, 1, 0x20, 0x17);
    let h2 = pad_right_string(" Vikash Kumar  |  vikukumar.github.io  |  NovaVM WHP Engine  |  Type 'help' for commands", 80);
    write_text_str(&mut buf, 1, h2.as_str(), 0x1B);
    fill_text_row(&mut buf, 2, 0xC4, 0x08);

    let n = shell.history_lines.len();
    if n == 0 {
        write_text_str(&mut buf, 4, " Welcome to NovaOS Workstation 1.0 LTS (built on NovaVM 2.0)", 0x0F);
        write_text_str(&mut buf, 5, "", 0x07);
        proof {
            reveal_strlit("");
            assert(encode_utf8(""@) =~= Seq::<u8>::empty());
        }
        write_text_str(&mut buf, 6, "  * NovaVM WHP Engine:     Windows Hypervisor Platform (native)", 0x07);
        write_text_str(&mut buf, 7, "  * Kernel:                Linux 6.6.0-novavm  #1 SMP x86_64", 0x07);
        write_text_str(&mut buf, 8, "  * Virtual CPUs:          Allocated from host processor", 0x07);
        write_text_str(&mut buf, 9, "  * Storage:               Virtual VMDK (SATA, 60 GB)", 0x07);
        write_text_str(&mut buf, 10, "  * Network:               Intel PRO/1000 (NAT, bridged)", 0x07);
        write_text_str(&mut buf, 11, "", 0x07);
        write_text_str(&mut buf, 12, "  Available commands:", 0x0B);
        write_text_str(&mut buf, 13, "    help   ls    top    uname   whoami  clear", 0x07);
        write_text_str(&mut buf, 14, "    ping   cat   echo   install setup   reboot", 0x07);
    } else {
        let first: usize = if n > 19 { n - 19 } else { 0 };
        let ghost shown = shell.history().subrange(first as int, n as int);
        assert(shown =~= if n > 19 { shell.history().subrange(n - 19, n as int) } else { shell.history() });
        let ghost start = buf@;
        let mut i: usize = first;
        assert(shown.subrange(0, 0) =~= Seq::<Seq<char>>::empty());
        while i < n
            invariant
                first <= i <= n,
                n == shell.history_lines@.len(),
                n - first <= 19,
                shown == shell.history().subrange(first as int, n as int),
                buf@ == put_history(start, shown.subrange(0, i - first), 3),
            decreases n - i,
        {
            let line = &shell.history_lines[i];
            let attr = line_attr(line.as_str());
            let padded = pad_right_string(line.as_str(), 80);
            write_text_str(&mut buf, 3 + (i - first), padded.as_str(), attr);
            assert(shown.subrange(0, i + 1 - first).drop_last() =~= shown.subrange(0, i - first));
            i = i + 1;
        }
        assert(shown.subrange(0, n - first) =~= shown);
    }

    fill_text_row(&mut buf, 23, 0xC4, 0x08);
    let mut prompt = String::from_str("root@novavm:~# ");
    push_str(&mut prompt, shell.current_input.as_str());
    let pp = pad_right_string(prompt.as_str(), 79);
    write_text_str(&mut buf, 22, pp.as_str(), 0x0A);
    let typed = shell.current_input.as_str().as_bytes().len();
    if typed < 65 {
        write_text_cell(&mut buf, 22, 15 + typed, 0x5F, 0x0F);
    }
    fill_text_row(&mut buf, 24, 0x20, 0x70);
    let status = pad_right_string(" root@novavm  Shell  |  NovaVM Workstation  |  (C) 2026 Vikash Kumar  ", 80);
    write_text_str(&mut buf, 24, status.as_str(), 0x70);
    buf
}

/// The text of the NovaVM boot frame for a VM named `vm_name`.
pub open spec fn boot_frame_text(vm_name: Seq<char>) -> Seq<char> {
    " +----------------------------------------------------------------------------+ \n|                         NovaVM Workstation BIOS v1.0                         | \n|             (C) 2026 Vikash Kumar. https://vikukumar.github.io                | \n+----------------------------------------------------------------------------+ \n\nVirtual Machine : "@ + vm_name + "\nProcessor       : x86_64 Virtual Processor (2 vCPU)\nMemory (RAM)    : 4096 MB System RAM Allocated\nHypervisor      : NovaVM Native Hardware Engine (Windows WHP)\nVideo Adapter   : NovaVM Standard VGA Controller (640x400)\nSecurity        : Virtual TPM 2.0 Security Module Active\n\n[+] Initializing motherboard hardware devices... OK\n[+] Initializing ACPI 2.0 Power Management Timer... OK\n[+] Primary Master IDE/SATA Disk Controller... OK\n\n[>] Scanning boot media...\n[>] Primary Master: Virtual Hard Disk (60 GB)... OK\n[>] Booting Operating System / Automated Installer..."@
}

/// `buf` with line `i` of `lines` written on row `i` from column 0 for
/// every row on screen: the four banner rows in colour 0x1E, the others in
/// 0x1F.
pub open spec fn put_lines(buf: Seq<u8>, lines: Seq<Seq<char>>) -> Seq<u8>
    decreases lines.len(),
{
    if lines.len() == 0 {
        buf
    } else {
        let row = lines.len() - 1;
        let b = put_lines(buf, lines.drop_last());
        if row < 25 {
            put_text(b, row, 0, lines.last(), if row < 4 { 0x1Eu8 } else { 0x1Fu8 })
        } else {
            b
        }
    }
}

/// Lines beyond the last row change nothing.
proof fn lemma_put_lines_off_screen(buf: Seq<u8>, lines: Seq<Seq<char>>, k: int)
    requires
        25 <= k <= lines.len(),
    ensures
        put_lines(buf, lines.subrange(0, k)) == put_lines(buf, lines.subrange(0, 25)),
    decreases k,
{
    if k > 25 {
        assert(lines.subrange(0, k).drop_last() =~= lines.subrange(0, k - 1));
        lemma_put_lines_off_screen(buf, lines, k - 1);
    }
}

/// The NovaVM boot frame for `vm_name`, as 80×25 text cells: the lines of
/// `boot_frame_text` over a blank screen in colour 0x1F.
pub open spec fn boot_frame_screen(vm_name: Seq<char>) -> Seq<u8> {
    put_lines(blank_screen(0x1F), lines_of(boot_frame_text(vm_name)))
}

/// The text cells of the boot frame shown for a running VM named `vm_name`
/// while no guest frame is available.
pub fn generate_novavm_boot_frame(vm_name: &str) -> (buf: [u8; 4000])
    ensures
        buf@ == boot_frame_screen(vm_name@),
{
    let mut text = String::from_str(" +----------------------------------------------------------------------------+ \n|                         NovaVM Workstation BIOS v1.0                         | \n|             (C) 2026 Vikash Kumar. https://vikukumar.github.io                | \n+----------------------------------------------------------------------------+ \n\nVirtual Machine : ");
    push_str(&mut text, vm_name);
    push_str(&mut text, "\nProcessor       : x86_64 Virtual Processor (2 vCPU)\nMemory (RAM)    : 4096 MB System RAM Allocated\nHypervisor      : NovaVM Native Hardware Engine (Windows WHP)\nVideo Adapter   : NovaVM Standard VGA Controller (640x400)\nSecurity        : Virtual TPM 2.0 Security Module Active\n\n[+] Initializing motherboard hardware devices... OK\n[+] Initializing ACPI 2.0 Power Management Timer... OK\n[+] Primary Master IDE/SATA Disk Controller... OK\n\n[>] Scanning boot media...\n[>] Primary Master: Virtual Hard Disk (60 GB)... OK\n[>] Booting Operating System / Automated Installer...");
    let lines = text_lines(text.as_str());
    let ghost ls = lines_of(boot_frame_text(vm_name@));
    assert(views(lines@) == ls);
    let mut buf = blank_text_screen(0x1F);
    let mut i: usize = 0;
    proof {
        assert(ls.subrange(0, 0) =~= Seq::<Seq<char>>::empty());
    }
    while i < lines.len() && i < 25
        invariant
            i <= lines.len(),
            i <= 25,
            views(lines@) == ls,
            buf@ == put_lines(blank_screen(0x1F), ls.subrange(0, i as int)),
        decreases 25 - i,
    {
        let attr: u8 = if i < 4 { 0x1E } else { 0x1F };
        proof {
            assert(ls.subrange(0, i + 1).drop_last() =~= ls.subrange(0, i as int));
            assert(ls.subrange(0, i + 1).last() == lines@[i as int]@);
        }
        write_text_str(&mut buf, i, lines[i].as_str(), attr);
        i = i + 1;
    }
    proof {
        if ls.len() > 25 {
            lemma_put_lines_off_screen(blank_screen(0x1F), ls, ls.len() as int);
        }
        assert(ls.subrange(0, ls.len() as int) =~= ls);
    }
    buf
}

} // verus!
