//! PE image synthesis. The image is a fixed field table written into a
//! zero-filled buffer: DOS header, PE signature, COFF header, optional
//! header (32- or 64-bit variant) and two section headers, then the
//! trampoline section and the payload section at their file-aligned
//! offsets. Fields whose value is zero (linker version, checksum, the 16
//! data-directory entries, section relocation info) are left to the zero
//! fill.

use vstd::prelude::*;
use crate::bytes::{zeros, u16_le, u32_le, u64_le, zero_vec, write_u8, write_u16, write_u32,
    write_u64, write_block};
use crate::layout::{SECT_ALIGN, spec_align, lemma_align_props, pe_text_va, pe_shell_va,
    pe_total, jump_disp, plan_pe, align};
use crate::stub::{stub_len, stub_seq, make_stub, patch_stub, lemma_patch_stub};

verus! {

/// The header region of a PE image holding a trampoline of length `sl` and
/// a payload of length `pl`, as a byte table over the zero-filled file.
/// Offsets and field widths follow the DOS header, COFF header, optional
/// header (whose field widths differ between the two widths) and section
/// header layout.
pub open spec fn pe_headers(is64: bool, sl: int, pl: int) -> Seq<u8> {
    // file offset of the first section header
    let sh: int = if is64 { 328 } else { 312 };
    // DOS magic, pointer to the PE signature, PE signature
    let s0 = zeros((0x400 + spec_align(pl, 0x200)) as nat)
        .update_subrange_with(0, u16_le(0x5A4D))
        .update_subrange_with(0x3C, u32_le(64))
        .update_subrange_with(64, u32_le(0x4550))
        // COFF header: machine, 2 sections, optional-header size, characteristics
        .update_subrange_with(68, u16_le(if is64 { 0x8664 } else { 0x14C }))
        .update_subrange_with(70, u16_le(2))
        .update_subrange_with(84, u16_le(if is64 { 240 } else { 224 }))
        .update_subrange_with(86, u16_le(if is64 { 0x22 } else { 0x122 }))
        // optional header: magic, code size, data size, entry, base of code
        .update_subrange_with(88, u16_le(if is64 { 0x20B } else { 0x10B }))
        .update_subrange_with(92, u32_le(0x200))
        .update_subrange_with(96, u32_le(spec_align(pl, 0x200) as u32))
        .update_subrange_with(104, u32_le(0x1000))
        .update_subrange_with(108, u32_le(0x1000));
    // image base; the 32-bit variant first carries a base-of-data field
    let s1 = if is64 {
        s0.update_subrange_with(112, u64_le(0x140000000))
    } else {
        s0.update_subrange_with(112, u32_le(0x2000))
            .update_subrange_with(116, u32_le(0x400000))
    };
    // alignments, OS and subsystem versions, image size, header size,
    // subsystem console, DLL characteristics
    let s2 = s1
        .update_subrange_with(120, u32_le(0x1000))
        .update_subrange_with(124, u32_le(0x200))
        .update_subrange_with(128, u32_le(6))
        .update_subrange_with(136, u32_le(6))
        .update_subrange_with(144, u32_le((0x2000 + spec_align(pl, 0x1000)) as u32))
        .update_subrange_with(148, u32_le(0x200))
        .update_subrange_with(156, u16_le(3))
        .update_subrange_with(158, u16_le(0x8160));
    // stack and heap reserve/commit, then the data-directory count; the
    // field width follows the optional-header variant
    let s3 = if is64 {
        s2.update_subrange_with(160, u64_le(0x10000))
            .update_subrange_with(168, u64_le(0x10000))
            .update_subrange_with(176, u64_le(0x10000))
            .update_subrange_with(184, u64_le(0x10000))
            .update_subrange_with(196, u32_le(16))
    } else {
        s2.update_subrange_with(160, u32_le(0x10000))
            .update_subrange_with(164, u32_le(0x10000))
            .update_subrange_with(168, u32_le(0x10000))
            .update_subrange_with(172, u32_le(0x10000))
            .update_subrange_with(180, u32_le(16))
    };
    // section header 1: ".text", the trampoline section: virtual size and
    // address, raw size and pointer, code | execute | read
    s3.update(sh, 0x2Eu8).update(sh + 1, 0x74u8).update(sh + 2, 0x65u8)
        .update(sh + 3, 0x78u8).update(sh + 4, 0x74u8)
        .update_subrange_with(sh + 8, u32_le(sl as u32))
        .update_subrange_with(sh + 12, u32_le(0x1000))
        .update_subrange_with(sh + 16, u32_le(0x200))
        .update_subrange_with(sh + 20, u32_le(0x200))
        .update_subrange_with(sh + 36, u32_le(0x60000020))
        // section header 2: ".shell", the payload section: initialized
        // data | execute | read | write
        .update(sh + 40, 0x2Eu8).update(sh + 41, 0x73u8).update(sh + 42, 0x68u8)
        .update(sh + 43, 0x65u8).update(sh + 44, 0x6Cu8).update(sh + 45, 0x6Cu8)
        .update_subrange_with(sh + 48, u32_le(pl as u32))
        .update_subrange_with(sh + 52, u32_le(0x2000))
        .update_subrange_with(sh + 56, u32_le(spec_align(pl, 0x200) as u32))
        .update_subrange_with(sh + 60, u32_le(0x400))
        .update_subrange_with(sh + 76, u32_le(0xE0000060))
}

/// The complete PE image for payload `sc`: headers, then the patched
/// trampoline at the trampoline section's file offset, then the payload at
/// the payload section's file offset.
pub open spec fn pe_image(sc: Seq<u8>, is64: bool, pause: bool) -> Seq<u8> {
    let sl: int = stub_len(pause);
    let disp: int = jump_disp(pe_text_va(), sl, pe_shell_va(sl));
    pe_headers(is64, sl, sc.len() as int)
        .update_subrange_with(0x200, stub_seq(pause, disp as u32))
        .update_subrange_with(0x400, sc)
}

/// Builds the complete PE image embedding `sc`: 64-bit when `is64`, with a
/// leading breakpoint in the trampoline when `pause`. The output is the
/// exact byte table `pe_image`, and its length is the layout's total image
/// size.
pub fn build_pe(sc: &[u8], is64: bool, pause: bool) -> (img: Vec<u8>)
    requires
        sc@.len() + 0x3000 <= usize::MAX,
    ensures
        img@ == pe_image(sc@, is64, pause),
        img@.len() == pe_total(is64, stub_len(pause), sc@.len() as int),
{
    let stub = make_stub(is64, pause);
    let l = plan_pe(is64, stub.len(), sc.len());
    proof {
        lemma_align_props(sc@.len() as int, 0x200);
        assert(l.header_size == 0x200 && l.text_raw == 0x200 && l.shell_off == 0x400);
        assert(l.text_va == 0x1000u64 && l.shell_va == 0x2000u64);
        assert(l.total == 0x400 + spec_align(sc@.len() as int, 0x200));
    }
    let img_sz: usize = 0x2000 + align(sc.len(), SECT_ALIGN);
    let sh: usize = if is64 { 328 } else { 312 };
    let mut b = zero_vec(l.total);

    // DOS header, pointer to the PE signature, PE signature
    write_u16(&mut b, 0, 0x5A4D);
    write_u32(&mut b, 0x3C, 64);
    write_u32(&mut b, 64, 0x4550);

    // COFF header
    write_u16(&mut b, 68, if is64 { 0x8664 } else { 0x14C }); // machine
    write_u16(&mut b, 70, 2); // section count
    write_u16(&mut b, 84, if is64 { 240 } else { 224 }); // optional-header size
    write_u16(&mut b, 86, if is64 { 0x22 } else { 0x122 }); // characteristics

    // optional header
    write_u16(&mut b, 88, if is64 { 0x20B } else { 0x10B }); // magic
    write_u32(&mut b, 92, l.text_raw as u32); // size of code
    write_u32(&mut b, 96, #[verifier::truncate] (l.shell_raw as u32)); // size of data
    write_u32(&mut b, 104, l.text_va as u32); // entry point
    write_u32(&mut b, 108, l.text_va as u32); // base of code
    if is64 {
        write_u64(&mut b, 112, 0x140000000); // image base
    } else {
        write_u32(&mut b, 112, l.shell_va as u32); // base of data
        write_u32(&mut b, 116, 0x400000); // image base
    }
    write_u32(&mut b, 120, SECT_ALIGN as u32);
    write_u32(&mut b, 124, 0x200); // file alignment
    write_u32(&mut b, 128, 6); // OS version
    write_u32(&mut b, 136, 6); // subsystem version
    write_u32(&mut b, 144, #[verifier::truncate] (img_sz as u32)); // image size
    write_u32(&mut b, 148, l.header_size as u32);
    write_u16(&mut b, 156, 3); // subsystem: console
    write_u16(&mut b, 158, 0x8160); // DLL characteristics
    if is64 {
        write_u64(&mut b, 160, 0x10000); // stack reserve
        write_u64(&mut b, 168, 0x10000); // stack commit
        write_u64(&mut b, 176, 0x10000); // heap reserve
        write_u64(&mut b, 184, 0x10000); // heap commit
        write_u32(&mut b, 196, 16); // data-directory count
    } else {
        write_u32(&mut b, 160, 0x10000);
        write_u32(&mut b, 164, 0x10000);
        write_u32(&mut b, 168, 0x10000);
        write_u32(&mut b, 172, 0x10000);
        write_u32(&mut b, 180, 16);
    }

    // section header 1: ".text", the trampoline section
    write_u8(&mut b, sh, 0x2E);
    write_u8(&mut b, sh + 1, 0x74);
    write_u8(&mut b, sh + 2, 0x65);
    write_u8(&mut b, sh + 3, 0x78);
    write_u8(&mut b, sh + 4, 0x74);
    write_u32(&mut b, sh + 8, stub.len() as u32); // virtual size
    write_u32(&mut b, sh + 12, l.text_va as u32);
    write_u32(&mut b, sh + 16, l.text_raw as u32); // raw size
    write_u32(&mut b, sh + 20, l.header_size as u32); // raw pointer
    write_u32(&mut b, sh + 36, 0x60000020); // code | execute | read

    // section header 2: ".shell", the payload section
    write_u8(&mut b, sh + 40, 0x2E);
    write_u8(&mut b, sh + 41, 0x73);
    write_u8(&mut b, sh + 42, 0x68);
    write_u8(&mut b, sh + 43, 0x65);
    write_u8(&mut b, sh + 44, 0x6C);
    write_u8(&mut b, sh + 45, 0x6C);
    write_u32(&mut b, sh + 48, #[verifier::truncate] (sc.len() as u32)); // virtual size
    write_u32(&mut b, sh + 52, l.shell_va as u32);
    write_u32(&mut b, sh + 56, #[verifier::truncate] (l.shell_raw as u32)); // raw size
    write_u32(&mut b, sh + 60, l.shell_off as u32); // raw pointer
    write_u32(&mut b, sh + 76, 0xE0000060); // data | execute | read | write

    // patch the trampoline's displacement and place both sections
    let gap: u64 = l.shell_va - l.text_va;
    let disp: u32 = (gap as u32) - (stub.len() as u32);
    let mut stub = stub;
    patch_stub(&mut stub, disp);
    proof {
        lemma_patch_stub(pause, disp);
    }
    write_block(&mut b, l.text_off, stub.as_slice());
    write_block(&mut b, l.shell_off, sc);

    proof {
        assert(b@ == pe_image(sc@, is64, pause));
    }
    b
}

} // verus!
