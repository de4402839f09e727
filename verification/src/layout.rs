//! Segment layout: alignment arithmetic and the file offsets, virtual
//! addresses and sizes of the trampoline and payload segments for each of
//! the four (format, width) targets.

use vstd::prelude::*;

verus! {

/// Page size: the single alignment constant used by the ELF encoders for
/// both file offsets and virtual addresses.
pub const PAGE: usize = 0x1000;

/// File alignment used by the PE encoder for raw (on-disk) offsets and sizes.
pub const FILE_ALIGN: usize = 0x200;

/// Section alignment used by the PE encoder for virtual addresses and
/// virtual sizes. Its value equals the ELF page size, but it is an
/// independent knob of the PE format.
pub const SECT_ALIGN: usize = 0x1000;

/// `v` rounded up to the next multiple of `a`.
pub open spec fn spec_align(v: int, a: int) -> int {
    ((v + a - 1) / a) * a
}

/// Rounding up to a multiple of `a` yields a multiple of `a` that is at
/// least `v` and less than `v + a`.
pub proof fn lemma_align_props(v: int, a: int)
    requires
        0 <= v,
        1 <= a,
    ensures
        spec_align(v, a) % a == 0,
        v <= spec_align(v, a) < v + a,
{
    let x = v + a - 1;
    vstd::arithmetic::div_mod::lemma_fundamental_div_mod(x, a);
    vstd::arithmetic::div_mod::lemma_mod_division_less_than_divisor(x, a);
    vstd::arithmetic::div_mod::lemma_mod_multiples_basic(x / a, a);
    vstd::arithmetic::mul::lemma_mul_is_commutative(x / a, a);
}

/// `v` rounded up to the next multiple of `a`.
pub fn align(v: usize, a: usize) -> (r: usize)
    requires
        1 <= a,
        v + a - 1 <= usize::MAX,
    ensures
        r == spec_align(v as int, a as int),
        v <= r < v + a,
        r % a == 0,
{
    proof {
        lemma_align_props(v as int, a as int);
    }
    ((v + (a - 1)) / a) * a
}

/// Size of the ELF file header for the given width.
pub open spec fn elf_ehdr_size(is64: bool) -> int {
    if is64 { 64 } else { 52 }
}

/// Size of one ELF program-header entry for the given width.
pub open spec fn elf_phdr_size(is64: bool) -> int {
    if is64 { 56 } else { 32 }
}

/// Base virtual address at which the ELF image is loaded.
pub open spec fn elf_base(is64: bool) -> int {
    if is64 { 0x400000 } else { 0x08048000 }
}

/// File offset of the trampoline segment: the header region rounded up to
/// the page size.
pub open spec fn elf_text_off(is64: bool) -> int {
    spec_align(elf_ehdr_size(is64) + 2 * elf_phdr_size(is64), PAGE as int)
}

/// File offset of the payload segment, one page-aligned trampoline region
/// after the trampoline's offset. `sl` is the trampoline length.
pub open spec fn elf_shell_off(is64: bool, sl: int) -> int {
    elf_text_off(is64) + spec_align(sl, PAGE as int)
}

/// Total size of the ELF image: the payload, whose raw length is `pl`,
/// is the file's unpadded tail.
pub open spec fn elf_total(is64: bool, sl: int, pl: int) -> int {
    elf_shell_off(is64, sl) + pl
}

/// Virtual address of the trampoline segment.
pub open spec fn elf_text_va(is64: bool) -> int {
    elf_base(is64) + elf_text_off(is64)
}

/// Virtual address of the payload segment.
pub open spec fn elf_shell_va(is64: bool, sl: int) -> int {
    elf_base(is64) + elf_shell_off(is64, sl)
}

/// Size of the PE optional header for the given width.
pub open spec fn pe_opt_size(is64: bool) -> int {
    if is64 { 240 } else { 224 }
}

/// Preferred load address of the PE image.
pub open spec fn pe_img_base(is64: bool) -> int {
    if is64 { 0x140000000 } else { 0x400000 }
}

/// Size of the PE header region on disk: DOS header, PE signature, COFF
/// header, optional header and two section headers, rounded up to the file
/// alignment.
pub open spec fn pe_header_size(is64: bool) -> int {
    spec_align(64 + 4 + 20 + pe_opt_size(is64) + 80, FILE_ALIGN as int)
}

/// Raw (on-disk) size of the trampoline section.
pub open spec fn pe_text_raw(sl: int) -> int {
    spec_align(sl, FILE_ALIGN as int)
}

/// Virtual address (relative to the image base) of the trampoline section:
/// the first section-aligned boundary.
pub open spec fn pe_text_va() -> int {
    SECT_ALIGN as int
}

/// Raw (on-disk) size of the payload section.
pub open spec fn pe_shell_raw(pl: int) -> int {
    spec_align(pl, FILE_ALIGN as int)
}

/// Virtual address (relative to the image base) of the payload section.
pub open spec fn pe_shell_va(sl: int) -> int {
    pe_text_va() + spec_align(sl, SECT_ALIGN as int)
}

/// Virtual size of the whole PE image.
pub open spec fn pe_img_size(sl: int, pl: int) -> int {
    pe_shell_va(sl) + spec_align(pl, SECT_ALIGN as int)
}

/// Total size of the PE file on disk.
pub open spec fn pe_total(is64: bool, sl: int, pl: int) -> int {
    pe_header_size(is64) + pe_text_raw(sl) + pe_shell_raw(pl)
}

/// The displacement of a relative jump placed at the end of the trampoline:
/// the jump is interpreted relative to the address just past the trampoline
/// and must land on the payload's virtual address.
pub open spec fn jump_disp(text_va: int, sl: int, shell_va: int) -> int {
    shell_va - (text_va + sl)
}

/// The computed layout of one image: where the header region ends, where
/// the trampoline and payload segments sit in the file and in memory, how
/// large they are on disk, and the total file size.
pub struct Layout {
    /// Bytes of header at the start of the file, padded to the format's
    /// file alignment.
    pub header_size: usize,
    /// File offset of the trampoline segment.
    pub text_off: usize,
    /// Virtual address of the trampoline segment (ELF: absolute; PE:
    /// relative to the image base).
    pub text_va: u64,
    /// On-disk size of the trampoline region up to the payload's offset.
    pub text_raw: usize,
    /// File offset of the payload segment.
    pub shell_off: usize,
    /// Virtual address of the payload segment (ELF: absolute; PE: relative
    /// to the image base).
    pub shell_va: u64,
    /// On-disk size of the payload region.
    pub shell_raw: usize,
    /// Total size of the image file.
    pub total: usize,
}

/// Plans the segment layout of an ELF image: the trampoline segment starts
/// at the first page boundary after the headers, the payload segment one
/// page-aligned trampoline region later, and the payload is the file's
/// unpadded tail. One alignment constant, the page size, governs both file
/// offsets and virtual addresses; the segments' size fields stay raw.
pub fn plan_elf(is64: bool, stub_len: usize, payload_len: usize) -> (l: Layout)
    requires
        stub_len <= PAGE,
        payload_len + 0x3000 <= usize::MAX,
    ensures
        l.header_size == elf_ehdr_size(is64) + 2 * elf_phdr_size(is64),
        l.text_off == elf_text_off(is64),
        l.text_va == elf_text_va(is64),
        l.text_raw == spec_align(stub_len as int, PAGE as int),
        l.shell_off == elf_shell_off(is64, stub_len as int),
        l.shell_va == elf_shell_va(is64, stub_len as int),
        l.shell_raw == payload_len,
        l.total == elf_total(is64, stub_len as int, payload_len as int),
{
    let ehdr_sz: usize = if is64 { 64 } else { 52 };
    let phdr_sz: usize = if is64 { 56 } else { 32 };
    let base: u64 = if is64 { 0x400000 } else { 0x08048000 };
    let hdr_end: usize = ehdr_sz + phdr_sz * 2;
    let text_off: usize = align(hdr_end, PAGE);
    let text_raw: usize = align(stub_len, PAGE);
    let shell_off: usize = text_off + text_raw;
    Layout {
        header_size: hdr_end,
        text_off,
        text_va: base + text_off as u64,
        text_raw,
        shell_off,
        shell_va: base + shell_off as u64,
        shell_raw: payload_len,
        total: shell_off + payload_len,
    }
}

/// Plans the section layout of a PE image: raw offsets and sizes are
/// rounded to the file alignment, virtual addresses and sizes independently
/// to the section alignment. The trampoline section sits at the first
/// file-aligned offset after the headers and at the first section-aligned
/// virtual address; the payload section follows it under both roundings.
pub fn plan_pe(is64: bool, stub_len: usize, payload_len: usize) -> (l: Layout)
    requires
        stub_len <= FILE_ALIGN,
        payload_len + 0x3000 <= usize::MAX,
    ensures
        l.header_size == pe_header_size(is64),
        l.text_off == pe_header_size(is64),
        l.text_va == pe_text_va(),
        l.text_raw == pe_text_raw(stub_len as int),
        l.shell_off == pe_header_size(is64) + pe_text_raw(stub_len as int),
        l.shell_va == pe_shell_va(stub_len as int),
        l.shell_raw == pe_shell_raw(payload_len as int),
        l.total == pe_total(is64, stub_len as int, payload_len as int),
{
    let opt_hdr_sz: usize = if is64 { 240 } else { 224 };
    let hdr_sz: usize = align(64 + 4 + 20 + opt_hdr_sz + 80, FILE_ALIGN);
    let text_raw: usize = align(stub_len, FILE_ALIGN);
    let shell_raw: usize = align(payload_len, FILE_ALIGN);
    let shell_va: usize = SECT_ALIGN + align(stub_len, SECT_ALIGN);
    Layout {
        header_size: hdr_sz,
        text_off: hdr_sz,
        text_va: SECT_ALIGN as u64,
        text_raw,
        shell_off: hdr_sz + text_raw,
        shell_va: shell_va as u64,
        shell_raw,
        total: hdr_sz + text_raw + shell_raw,
    }
}

} // verus!
