//! ELF image synthesis. The image is a fixed field table written into a
//! zero-filled buffer: file header, two loadable program headers (trampoline
//! and payload), then the trampoline at the first page boundary and the
//! payload one page-aligned trampoline region later. Header fields whose
//! value is zero (section-header offset and sizes, flags, padding) are left
//! to the zero fill.

use vstd::prelude::*;
use crate::bytes::{zeros, u16_le, u32_le, u64_le, zero_vec, write_u8, write_u16, write_u32,
    write_u64, write_block};
use crate::layout::{PAGE, elf_total, elf_text_va, elf_shell_va, jump_disp, plan_elf};
use crate::stub::{stub_len, stub_seq, make_stub64, make_stub32, patch_stub, lemma_patch_stub};

verus! {

/// The header region of a 64-bit ELF image holding a trampoline of length
/// `sl` and a payload of length `pl`, as a byte table over the zero-filled
/// file. Offsets and field widths follow the ELF64 file header and
/// program-header layout.
pub open spec fn elf64_headers(sl: int, pl: int) -> Seq<u8> {
    zeros((0x2000 + pl) as nat)
        // identification: magic, 64-bit class, little-endian, version
        .update(0, 0x7Fu8).update(1, 0x45u8).update(2, 0x4Cu8).update(3, 0x46u8)
        .update(4, 2u8).update(5, 1u8).update(6, 1u8)
        // type ET_EXEC, machine x86-64, version, entry, phoff
        .update_subrange_with(16, u16_le(2))
        .update_subrange_with(18, u16_le(0x3E))
        .update_subrange_with(20, u32_le(1))
        .update_subrange_with(24, u64_le(0x401000))
        .update_subrange_with(32, u64_le(64))
        // header sizes and counts: ehsize, phentsize, phnum = 2
        .update_subrange_with(52, u16_le(64))
        .update_subrange_with(54, u16_le(56))
        .update_subrange_with(56, u16_le(2))
        // program header 1: PT_LOAD, R|X, trampoline segment, raw sizes
        .update_subrange_with(64, u32_le(1))
        .update_subrange_with(68, u32_le(5))
        .update_subrange_with(72, u64_le(0x1000))
        .update_subrange_with(80, u64_le(0x401000))
        .update_subrange_with(88, u64_le(0x401000))
        .update_subrange_with(96, u64_le(sl as u64))
        .update_subrange_with(104, u64_le(sl as u64))
        .update_subrange_with(112, u64_le(0x1000))
        // program header 2: PT_LOAD, R|W|X, payload segment, raw sizes
        .update_subrange_with(120, u32_le(1))
        .update_subrange_with(124, u32_le(7))
        .update_subrange_with(128, u64_le(0x2000))
        .update_subrange_with(136, u64_le(0x402000))
        .update_subrange_with(144, u64_le(0x402000))
        .update_subrange_with(152, u64_le(pl as u64))
        .update_subrange_with(160, u64_le(pl as u64))
        .update_subrange_with(168, u64_le(0x1000))
}

/// The complete 64-bit ELF image for payload `sc`: headers, then the
/// patched trampoline at the trampoline segment's offset, then the payload
/// at the payload segment's offset.
pub open spec fn elf64_image(sc: Seq<u8>, pause: bool) -> Seq<u8> {
    let sl: int = stub_len(pause);
    let disp: int = jump_disp(elf_text_va(true), sl, elf_shell_va(true, sl));
    elf64_headers(sl, sc.len() as int)
        .update_subrange_with(0x1000, stub_seq(pause, disp as u32))
        .update_subrange_with(0x2000, sc)
}

/// The header region of a 32-bit ELF image, as `elf64_headers` but with the
/// ELF32 field widths and offsets and the i386 machine id.
pub open spec fn elf32_headers(sl: int, pl: int) -> Seq<u8> {
    zeros((0x2000 + pl) as nat)
        // identification: magic, 32-bit class, little-endian, version
        .update(0, 0x7Fu8).update(1, 0x45u8).update(2, 0x4Cu8).update(3, 0x46u8)
        .update(4, 1u8).update(5, 1u8).update(6, 1u8)
        // type ET_EXEC, machine i386, version, entry, phoff
        .update_subrange_with(16, u16_le(2))
        .update_subrange_with(18, u16_le(3))
        .update_subrange_with(20, u32_le(1))
        .update_subrange_with(24, u32_le(0x08049000))
        .update_subrange_with(28, u32_le(52))
        // header sizes and counts: ehsize, phentsize, phnum = 2
        .update_subrange_with(40, u16_le(52))
        .update_subrange_with(42, u16_le(32))
        .update_subrange_with(44, u16_le(2))
        // program header 1: PT_LOAD, trampoline segment, raw sizes, R|X
        .update_subrange_with(52, u32_le(1))
        .update_subrange_with(56, u32_le(0x1000))
        .update_subrange_with(60, u32_le(0x08049000))
        .update_subrange_with(64, u32_le(0x08049000))
        .update_subrange_with(68, u32_le(sl as u32))
        .update_subrange_with(72, u32_le(sl as u32))
        .update_subrange_with(76, u32_le(5))
        .update_subrange_with(80, u32_le(0x1000))
        // program header 2: PT_LOAD, payload segment, raw sizes, R|W|X
        .update_subrange_with(84, u32_le(1))
        .update_subrange_with(88, u32_le(0x2000))
        .update_subrange_with(92, u32_le(0x0804A000))
        .update_subrange_with(96, u32_le(0x0804A000))
        .update_subrange_with(100, u32_le(pl as u32))
        .update_subrange_with(104, u32_le(pl as u32))
        .update_subrange_with(108, u32_le(7))
        .update_subrange_with(112, u32_le(0x1000))
}

/// The complete 32-bit ELF image for payload `sc`.
pub open spec fn elf32_image(sc: Seq<u8>, pause: bool) -> Seq<u8> {
    let sl: int = stub_len(pause);
    let disp: int = jump_disp(elf_text_va(false), sl, elf_shell_va(false, sl));
    elf32_headers(sl, sc.len() as int)
        .update_subrange_with(0x1000, stub_seq(pause, disp as u32))
        .update_subrange_with(0x2000, sc)
}

/// The ELF image for the chosen width.
pub open spec fn elf_image(sc: Seq<u8>, is64: bool, pause: bool) -> Seq<u8> {
    if is64 { elf64_image(sc, pause) } else { elf32_image(sc, pause) }
}

/// Builds the 64-bit ELF image around `sc`.
fn build_elf64(sc: &[u8], pause: bool) -> (img: Vec<u8>)
    requires
        sc@.len() + 0x3000 <= usize::MAX,
    ensures
        img@ == elf64_image(sc@, pause),
{
    let stub = make_stub64(pause);
    let l = plan_elf(true, stub.len(), sc.len());
    proof {
        assert(l.text_off == 0x1000 && l.shell_off == 0x2000);
        assert(l.text_va == 0x401000u64 && l.shell_va == 0x402000u64);
        assert(l.total == 0x2000 + sc@.len());
    }
    let mut b = zero_vec(l.total);

    // ELF file header
    write_u8(&mut b, 0, 0x7F);
    write_u8(&mut b, 1, 0x45);
    write_u8(&mut b, 2, 0x4C);
    write_u8(&mut b, 3, 0x46);
    write_u8(&mut b, 4, 2); // 64-bit class
    write_u8(&mut b, 5, 1); // little-endian
    write_u8(&mut b, 6, 1); // version
    write_u16(&mut b, 16, 2); // ET_EXEC
    write_u16(&mut b, 18, 0x3E); // x86-64
    write_u32(&mut b, 20, 1);
    write_u64(&mut b, 24, l.text_va); // entry point
    write_u64(&mut b, 32, 64); // program-header table offset
    write_u16(&mut b, 52, 64); // ehsize
    write_u16(&mut b, 54, 56); // phentsize
    write_u16(&mut b, 56, 2); // phnum

    // program header 1: trampoline segment
    write_u32(&mut b, 64, 1); // PT_LOAD
    write_u32(&mut b, 68, 5); // R|X
    write_u64(&mut b, 72, l.text_off as u64);
    write_u64(&mut b, 80, l.text_va);
    write_u64(&mut b, 88, l.text_va);
    write_u64(&mut b, 96, stub.len() as u64);
    write_u64(&mut b, 104, stub.len() as u64);
    write_u64(&mut b, 112, PAGE as u64);

    // program header 2: payload segment
    write_u32(&mut b, 120, 1); // PT_LOAD
    write_u32(&mut b, 124, 7); // R|W|X
    write_u64(&mut b, 128, l.shell_off as u64);
    write_u64(&mut b, 136, l.shell_va);
    write_u64(&mut b, 144, l.shell_va);
    write_u64(&mut b, 152, sc.len() as u64);
    write_u64(&mut b, 160, sc.len() as u64);
    write_u64(&mut b, 168, PAGE as u64);

    // patch the trampoline's displacement and place both segments
    let gap: u64 = l.shell_va - l.text_va;
    let disp: u32 = (gap as u32) - (stub.len() as u32);
    let mut stub = stub;
    patch_stub(&mut stub, disp);
    proof {
        lemma_patch_stub(pause, disp);
    }
    write_block(&mut b, l.text_off, stub.as_slice());
    write_block(&mut b, l.shell_off, sc);

    proof {
        assert(b@ == elf64_image(sc@, pause));
    }
    b
}

/// Builds the 32-bit ELF image around `sc`.
fn build_elf32(sc: &[u8], pause: bool) -> (img: Vec<u8>)
    requires
        sc@.len() + 0x3000 <= usize::MAX,
    ensures
        img@ == elf32_image(sc@, pause),
{
    let stub = make_stub32(pause);
    let l = plan_elf(false, stub.len(), sc.len());
    proof {
        assert(l.text_off == 0x1000 && l.shell_off == 0x2000);
        assert(l.text_va == 0x08049000u64 && l.shell_va == 0x0804A000u64);
        assert(l.total == 0x2000 + sc@.len());
    }
    let mut b = zero_vec(l.total);

    // ELF file header
    write_u8(&mut b, 0, 0x7F);
    write_u8(&mut b, 1, 0x45);
    write_u8(&mut b, 2, 0x4C);
    write_u8(&mut b, 3, 0x46);
    write_u8(&mut b, 4, 1); // 32-bit class
    write_u8(&mut b, 5, 1); // little-endian
    write_u8(&mut b, 6, 1); // version
    write_u16(&mut b, 16, 2); // ET_EXEC
    write_u16(&mut b, 18, 3); // i386
    write_u32(&mut b, 20, 1);
    write_u32(&mut b, 24, l.text_va as u32); // entry point
    write_u32(&mut b, 28, 52); // program-header table offset
    write_u16(&mut b, 40, 52); // ehsize
    write_u16(&mut b, 42, 32); // phentsize
    write_u16(&mut b, 44, 2); // phnum

    // program header 1: trampoline segment
    write_u32(&mut b, 52, 1); // PT_LOAD
    write_u32(&mut b, 56, l.text_off as u32);
    write_u32(&mut b, 60, l.text_va as u32);
    write_u32(&mut b, 64, l.text_va as u32);
    write_u32(&mut b, 68, stub.len() as u32);
    write_u32(&mut b, 72, stub.len() as u32);
    write_u32(&mut b, 76, 5); // R|X
    write_u32(&mut b, 80, PAGE as u32);

    // program header 2: payload segment
    write_u32(&mut b, 84, 1); // PT_LOAD
    write_u32(&mut b, 88, l.shell_off as u32);
    write_u32(&mut b, 92, l.shell_va as u32);
    write_u32(&mut b, 96, l.shell_va as u32);
    write_u32(&mut b, 100, #[verifier::truncate] (sc.len() as u32));
    write_u32(&mut b, 104, #[verifier::truncate] (sc.len() as u32));
    write_u32(&mut b, 108, 7); // R|W|X
    write_u32(&mut b, 112, PAGE as u32);

    // patch the trampoline's displacement and place both segments
    let gap: u64 = l.shell_va - l.text_va;
    let disp: u32 = (gap as u32) - (stub.len() as u32);
    let mut stub = stub;
    patch_stub(&mut stub, disp);
    proof {
        lemma_patch_stub(pause, disp);
    }
    write_block(&mut b, l.text_off, stub.as_slice());
    write_block(&mut b, l.shell_off, sc);

    proof {
        assert(b@ == elf32_image(sc@, pause));
    }
    b
}

/// Builds the complete ELF image embedding `sc`: 64-bit when `is64`, with a
/// leading breakpoint in the trampoline when `pause`. The output is the
/// exact byte table `elf_image`, and its length is the layout's total image
/// size.
pub fn build_elf(sc: &[u8], is64: bool, pause: bool) -> (img: Vec<u8>)
    requires
        sc@.len() + 0x3000 <= usize::MAX,
    ensures
        img@ == elf_image(sc@, is64, pause),
        img@.len() == elf_total(is64, stub_len(pause), sc@.len() as int),
{
    let img = if is64 {
        build_elf64(sc, pause)
    } else {
        build_elf32(sc, pause)
    };
    proof {
        assert(img@.len() == elf_total(is64, stub_len(pause), sc@.len() as int));
    }
    img
}

} // verus!
