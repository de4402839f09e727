//! Laws of the image tables: properties that hold of every synthesized
//! image, proved over the spec-level byte tables that the builders' own
//! contracts pin their outputs to.

use vstd::prelude::*;
use crate::bytes::{u32_le, le32_at, sle32_at, lemma_u32_le_decode};
use crate::layout::{spec_align, elf_text_off, elf_shell_off, elf_total, elf_text_va,
    elf_shell_va, pe_header_size, pe_text_raw, pe_shell_raw, pe_text_va, pe_shell_va, pe_total,
    jump_disp, lemma_align_props};
use crate::stub::{stub_len, stub_seq};
use crate::elf::elf_image;
use crate::pe::pe_image;

verus! {

/// The ELF image's length is exactly the layout's total image size.
pub proof fn lemma_elf_image_len(sc: Seq<u8>, is64: bool, pause: bool)
    ensures
        elf_image(sc, is64, pause).len() == elf_total(is64, stub_len(pause), sc.len() as int),
{
}

/// The PE image's length is exactly the layout's total image size.
pub proof fn lemma_pe_image_len(sc: Seq<u8>, is64: bool, pause: bool)
    ensures
        pe_image(sc, is64, pause).len() == pe_total(is64, stub_len(pause), sc.len() as int),
{
}

/// Round-trip identity: the bytes of the ELF image at the payload segment's
/// file offset are the payload, unchanged.
pub proof fn lemma_elf_payload_roundtrip(sc: Seq<u8>, is64: bool, pause: bool)
    ensures
        elf_image(sc, is64, pause).subrange(0x2000, 0x2000 + sc.len() as int) == sc,
{
    assert(elf_image(sc, is64, pause).subrange(0x2000, 0x2000 + sc.len() as int) =~= sc);
}

/// Round-trip identity: the bytes of the PE image at the payload section's
/// file offset are the payload, unchanged.
pub proof fn lemma_pe_payload_roundtrip(sc: Seq<u8>, is64: bool, pause: bool)
    ensures
        pe_image(sc, is64, pause).subrange(0x400, 0x400 + sc.len() as int) == sc,
{
    lemma_align_ge(sc.len() as int);
    assert(pe_image(sc, is64, pause).subrange(0x400, 0x400 + sc.len() as int) =~= sc);
}

/// The payload's raw size rounded up to the file alignment is no smaller
/// than the payload.
proof fn lemma_align_ge(pl: int)
    requires
        0 <= pl,
    ensures
        pl <= spec_align(pl, 0x200),
        pl <= spec_align(pl, 0x1000),
{
    crate::layout::lemma_align_props(pl, 0x200);
    crate::layout::lemma_align_props(pl, 0x1000);
}

/// Decoding the trampoline of the ELF image yields a jump that lands
/// exactly on the payload segment's virtual address: the byte before the
/// displacement is the near-jump opcode, and the displacement, read as a
/// signed 32-bit little-endian value and added to the address just past the
/// trampoline, gives the payload's virtual address.
pub proof fn lemma_elf_jump_reaches_payload(sc: Seq<u8>, is64: bool, pause: bool)
    ensures
        elf_image(sc, is64, pause)[0x1000 + stub_len(pause) - 5] == 0xE9,
        elf_text_va(is64) + stub_len(pause)
            + sle32_at(elf_image(sc, is64, pause), 0x1000 + stub_len(pause) - 4)
            == elf_shell_va(is64, stub_len(pause)),
{
    let img = elf_image(sc, is64, pause);
    let sl: int = stub_len(pause);
    let disp: int = jump_disp(elf_text_va(is64), sl, elf_shell_va(is64, sl));
    let d: u32 = disp as u32;
    assert(disp == 0x1000 - sl);
    lemma_u32_le_decode(d);
    assert(img[0x1000 + sl - 5] == stub_seq(pause, d)[sl - 5]);
    assert(img[0x1000 + sl - 4] == u32_le(d)[0]);
    assert(img[0x1000 + sl - 3] == u32_le(d)[1]);
    assert(img[0x1000 + sl - 2] == u32_le(d)[2]);
    assert(img[0x1000 + sl - 1] == u32_le(d)[3]);
    assert(le32_at(img, 0x1000 + sl - 4) == le32_at(u32_le(d), 0));
}

/// Decoding the trampoline of the PE image yields a jump that lands exactly
/// on the payload section's virtual address, as `lemma_elf_jump_reaches_payload`.
pub proof fn lemma_pe_jump_reaches_payload(sc: Seq<u8>, is64: bool, pause: bool)
    ensures
        pe_image(sc, is64, pause)[0x200 + stub_len(pause) - 5] == 0xE9,
        pe_text_va() + stub_len(pause)
            + sle32_at(pe_image(sc, is64, pause), 0x200 + stub_len(pause) - 4)
            == pe_shell_va(stub_len(pause)),
{
    let img = pe_image(sc, is64, pause);
    let sl: int = stub_len(pause);
    let disp: int = jump_disp(pe_text_va(), sl, pe_shell_va(sl));
    let d: u32 = disp as u32;
    assert(disp == 0x1000 - sl);
    lemma_align_ge(sc.len() as int);
    lemma_u32_le_decode(d);
    assert(img[0x200 + sl - 5] == stub_seq(pause, d)[sl - 5]);
    assert(img[0x200 + sl - 4] == u32_le(d)[0]);
    assert(img[0x200 + sl - 3] == u32_le(d)[1]);
    assert(img[0x200 + sl - 2] == u32_le(d)[2]);
    assert(img[0x200 + sl - 1] == u32_le(d)[3]);
    assert(le32_at(img, 0x200 + sl - 4) == le32_at(u32_le(d), 0));
}

/// Every ELF image begins with the ELF identification magic.
pub proof fn lemma_elf_magic(sc: Seq<u8>, is64: bool, pause: bool)
    ensures
        elf_image(sc, is64, pause)[0] == 0x7F,
        elf_image(sc, is64, pause)[1] == 0x45,
        elf_image(sc, is64, pause)[2] == 0x4C,
        elf_image(sc, is64, pause)[3] == 0x46,
{
}

/// Every PE image begins with the DOS magic "MZ".
pub proof fn lemma_pe_magic(sc: Seq<u8>, is64: bool, pause: bool)
    ensures
        pe_image(sc, is64, pause)[0] == 0x4D,
        pe_image(sc, is64, pause)[1] == 0x5A,
{
    lemma_align_ge(sc.len() as int);
}

/// Idempotence: the builders' contracts pin each image to a function of the
/// inputs alone, so two ELF builds from identical inputs are byte-identical.
pub proof fn lemma_elf_deterministic(a: Seq<u8>, b: Seq<u8>, sc: Seq<u8>, is64: bool, pause: bool)
    requires
        a == elf_image(sc, is64, pause),
        b == elf_image(sc, is64, pause),
    ensures
        a == b,
{
}

/// Idempotence: two PE builds from identical inputs are byte-identical.
pub proof fn lemma_pe_deterministic(a: Seq<u8>, b: Seq<u8>, sc: Seq<u8>, is64: bool, pause: bool)
    requires
        a == pe_image(sc, is64, pause),
        b == pe_image(sc, is64, pause),
    ensures
        a == b,
{
}

/// Invariants of every computed layout: offsets and raw region sizes are
/// multiples of the format's alignment constants, the payload's virtual
/// address lies above the trampoline's, and the total file size is the sum
/// of the header region and the two aligned segment regions (for ELF the
/// payload is the unpadded tail).
pub proof fn lemma_layout_invariants(is64: bool, pause: bool, pl: int)
    requires
        0 <= pl,
    ensures
        elf_text_off(is64) % 0x1000 == 0,
        elf_shell_off(is64, stub_len(pause)) % 0x1000 == 0,
        elf_shell_va(is64, stub_len(pause)) > elf_text_va(is64),
        elf_total(is64, stub_len(pause), pl)
            == elf_text_off(is64) + spec_align(stub_len(pause), 0x1000) + pl,
        pe_header_size(is64) % 0x200 == 0,
        pe_text_raw(stub_len(pause)) % 0x200 == 0,
        pe_shell_raw(pl) % 0x200 == 0,
        pe_text_va() % 0x1000 == 0,
        pe_shell_va(stub_len(pause)) % 0x1000 == 0,
        pe_shell_va(stub_len(pause)) > pe_text_va(),
        pe_total(is64, stub_len(pause), pl)
            == pe_header_size(is64) + pe_text_raw(stub_len(pause)) + pe_shell_raw(pl),
{
    lemma_align_props(pl, 0x200);
}

/// Asking for a breakpoint changes the trampoline only by the one leading
/// `0xCC` byte; the jump encoding that follows is unchanged.
pub proof fn lemma_breakpoint_prepends_only(disp: u32)
    ensures
        stub_seq(true, disp) == seq![0xCCu8] + stub_seq(false, disp),
        stub_len(true) == stub_len(false) + 1,
{
    assert(stub_seq(true, disp) =~= seq![0xCCu8] + stub_seq(false, disp));
}

/// Toggling the breakpoint does not move the payload: the one extra byte is
/// absorbed by alignment, so the payload's file offset and virtual address
/// are the same with and without it, and the jump displacement shrinks by
/// exactly the one byte the trampoline grew.
pub proof fn lemma_breakpoint_toggle(is64: bool)
    ensures
        elf_shell_off(is64, stub_len(true)) == elf_shell_off(is64, stub_len(false)),
        elf_shell_va(is64, stub_len(true)) == elf_shell_va(is64, stub_len(false)),
        pe_text_raw(stub_len(true)) == pe_text_raw(stub_len(false)),
        pe_shell_va(stub_len(true)) == pe_shell_va(stub_len(false)),
        jump_disp(elf_text_va(is64), stub_len(false), elf_shell_va(is64, stub_len(false)))
            == jump_disp(elf_text_va(is64), stub_len(true), elf_shell_va(is64, stub_len(true))) + 1,
        jump_disp(pe_text_va(), stub_len(false), pe_shell_va(stub_len(false)))
            == jump_disp(pe_text_va(), stub_len(true), pe_shell_va(stub_len(true))) + 1,
{
}

} // verus!
