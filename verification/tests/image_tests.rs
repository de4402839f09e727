//! End-to-end checks of the synthesized images: magic bytes, header fields,
//! trampoline encoding, payload placement and layout agreement.

use sc2exe::elf::build_elf;
use sc2exe::layout::{align, plan_elf, plan_pe};
use sc2exe::pe::build_pe;
use sc2exe::stub::{make_stub, make_stub32, make_stub64};

fn u16_at(b: &[u8], off: usize) -> u16 {
    u16::from_le_bytes([b[off], b[off + 1]])
}

fn u32_at(b: &[u8], off: usize) -> u32 {
    u32::from_le_bytes([b[off], b[off + 1], b[off + 2], b[off + 3]])
}

fn u64_at(b: &[u8], off: usize) -> u64 {
    u64::from_le_bytes([
        b[off],
        b[off + 1],
        b[off + 2],
        b[off + 3],
        b[off + 4],
        b[off + 5],
        b[off + 6],
        b[off + 7],
    ])
}

fn i32_at(b: &[u8], off: usize) -> i32 {
    i32::from_le_bytes([b[off], b[off + 1], b[off + 2], b[off + 3]])
}

#[test]
fn scenario_pe64_one_byte_breakpoint() {
    let payload = vec![0xCCu8];
    let img = build_pe(&payload, true, true);
    assert_eq!(&img[0..2], &[0x4D, 0x5A]);
    assert_eq!(u16_at(&img, 70), 2); // section count
    let entry = u32_at(&img, 104);
    let text_va = u32_at(&img, 328 + 12); // .text section virtual address
    assert_eq!(entry, text_va);
    assert_eq!(img[0x400], 0xCC); // payload byte at its raw offset
}

#[test]
fn scenario_elf32_empty_payload() {
    let img = build_elf(&[], false, false);
    assert_eq!(u16_at(&img, 44), 2); // two program headers
    assert_eq!(u32_at(&img, 100), 0); // payload file size
    assert_eq!(u32_at(&img, 104), 0); // payload memory size
    // total size is the aligned header plus trampoline regions only
    assert_eq!(img.len(), 0x2000);
}

#[test]
fn scenario_breakpoint_toggle_displacement() {
    let payload = vec![0x90u8, 0x90, 0xC3];
    let with_bp = build_elf(&payload, true, true);
    let without_bp = build_elf(&payload, true, false);
    // with the breakpoint the jump sits one byte later
    let disp_with = i32_at(&with_bp, 0x1002);
    let disp_without = i32_at(&without_bp, 0x1001);
    assert_eq!(disp_without, disp_with + 1);
    // the payload's virtual address does not move
    assert_eq!(u64_at(&with_bp, 136), u64_at(&without_bp, 136));
    assert_eq!(u64_at(&with_bp, 136), 0x402000);
}

#[test]
fn idempotent_elf_build() {
    let payload = vec![1u8, 2, 3, 4, 5];
    let a = build_elf(&payload, true, true);
    let b = build_elf(&payload, true, true);
    assert_eq!(a, b);
}

#[test]
fn idempotent_pe_build() {
    let payload = vec![9u8, 8, 7];
    let a = build_pe(&payload, false, false);
    let b = build_pe(&payload, false, false);
    assert_eq!(a, b);
}

#[test]
fn magic_bytes_all_targets() {
    let payload = vec![0xC3u8];
    for &is64 in &[false, true] {
        for &pause in &[false, true] {
            let elf = build_elf(&payload, is64, pause);
            assert_eq!(&elf[0..4], &[0x7F, 0x45, 0x4C, 0x46]);
            let pe = build_pe(&payload, is64, pause);
            assert_eq!(&pe[0..2], &[0x4D, 0x5A]);
            // the PE signature sits where the DOS header points
            let peoff = u32_at(&pe, 0x3C) as usize;
            assert_eq!(&pe[peoff..peoff + 4], &[0x50, 0x45, 0x00, 0x00]);
        }
    }
}

#[test]
fn payload_roundtrip_elf() {
    let payload: Vec<u8> = (0..700u32).map(|i| (i % 251) as u8).collect();
    let img = build_elf(&payload, true, true);
    assert_eq!(&img[0x2000..0x2000 + payload.len()], &payload[..]);
    assert_eq!(img.len(), 0x2000 + payload.len());
}

#[test]
fn payload_roundtrip_pe() {
    let payload: Vec<u8> = (0..700u32).map(|i| (i % 249) as u8).collect();
    let img = build_pe(&payload, false, true);
    assert_eq!(&img[0x400..0x400 + payload.len()], &payload[..]);
    // the file is padded to the file alignment past the payload
    assert_eq!(img.len(), 0x400 + 0x400);
    assert!(img[0x400 + payload.len()..].iter().all(|&x| x == 0));
}

#[test]
fn output_length_matches_plan() {
    for &len in &[0usize, 1, 0x1FF, 0x200, 0x1000, 0x1234] {
        let payload = vec![0xAAu8; len];
        for &is64 in &[false, true] {
            for &pause in &[false, true] {
                let stub_len = make_stub64(pause).len();
                let elf = build_elf(&payload, is64, pause);
                assert_eq!(elf.len(), plan_elf(is64, stub_len, len).total);
                let pe = build_pe(&payload, is64, pause);
                assert_eq!(pe.len(), plan_pe(is64, stub_len, len).total);
            }
        }
    }
}

#[test]
fn elf64_jump_lands_on_payload() {
    let payload = vec![0x90u8];
    let img = build_elf(&payload, true, true);
    let entry = u64_at(&img, 24);
    let text_va = u64_at(&img, 80); // program header 1 virtual address
    assert_eq!(entry, text_va);
    let stub_len = 6u64; // breakpoint byte, opcode, 4-byte displacement
    assert_eq!(img[0x1000], 0xCC);
    assert_eq!(img[0x1001], 0xE9);
    let disp = i32_at(&img, 0x1002) as i64;
    let shell_va = u64_at(&img, 136); // program header 2 virtual address
    assert_eq!((text_va + stub_len).wrapping_add(disp as u64), shell_va);
}

#[test]
fn pe32_jump_lands_on_payload() {
    let payload = vec![0x90u8];
    let img = build_pe(&payload, false, false);
    let entry = u32_at(&img, 104) as i64;
    assert_eq!(img[0x200], 0xE9);
    let disp = i32_at(&img, 0x201) as i64;
    let shell_va = u32_at(&img, 312 + 40 + 12) as i64; // .shell virtual address
    assert_eq!(entry + 5 + disp, shell_va);
}

#[test]
fn trampoline_shape_both_flags() {
    let with_bp = make_stub(true, true);
    assert_eq!(with_bp.len(), 6);
    assert_eq!(with_bp[0], 0xCC);
    assert_eq!(with_bp[1], 0xE9);
    let without_bp = make_stub32(false);
    assert_eq!(without_bp.len(), 5);
    assert_eq!(without_bp[0], 0xE9);
    assert_eq!(&without_bp[1..], &[0, 0, 0, 0]);
}

#[test]
fn elf64_header_fields() {
    let img = build_elf(&[0xC3], true, false);
    assert_eq!(img[4], 2); // 64-bit class
    assert_eq!(img[5], 1); // little-endian
    assert_eq!(u16_at(&img, 16), 2); // ET_EXEC
    assert_eq!(u16_at(&img, 18), 0x3E); // x86-64
    assert_eq!(u64_at(&img, 24), 0x401000); // entry point
    assert_eq!(u64_at(&img, 32), 64); // program-header offset
    assert_eq!(u16_at(&img, 56), 2); // program-header count
    assert_eq!(u32_at(&img, 68), 5); // trampoline segment: read + execute
    assert_eq!(u32_at(&img, 124), 7); // payload segment: read + write + execute
    assert_eq!(u64_at(&img, 152), 1); // payload file size, raw
}

#[test]
fn elf32_header_fields() {
    let img = build_elf(&[0xC3, 0xC3], false, false);
    assert_eq!(img[4], 1); // 32-bit class
    assert_eq!(u16_at(&img, 18), 3); // i386
    assert_eq!(u32_at(&img, 24), 0x08049000); // entry point
    assert_eq!(u32_at(&img, 92), 0x0804A000); // payload virtual address
    assert_eq!(u32_at(&img, 100), 2); // payload file size, raw
    assert_eq!(u32_at(&img, 108), 7); // payload flags
}

#[test]
fn pe64_header_fields() {
    let img = build_pe(&[0xCC], true, false);
    assert_eq!(u16_at(&img, 68), 0x8664); // machine
    assert_eq!(u16_at(&img, 88), 0x20B); // optional-header magic
    assert_eq!(u64_at(&img, 112), 0x140000000); // image base
    assert_eq!(u32_at(&img, 120), 0x1000); // section alignment
    assert_eq!(u32_at(&img, 124), 0x200); // file alignment
    assert_eq!(u32_at(&img, 144), 0x3000); // image size
    assert_eq!(u32_at(&img, 148), 0x200); // header size
    assert_eq!(u16_at(&img, 156), 3); // console subsystem
    assert_eq!(&img[328..333], b".text");
    assert_eq!(&img[368..374], b".shell");
    assert_eq!(u32_at(&img, 368 + 36), 0xE0000060); // payload section characteristics
}

#[test]
fn pe32_header_fields() {
    let img = build_pe(&[0xCC], false, true);
    assert_eq!(u16_at(&img, 68), 0x14C); // machine
    assert_eq!(u16_at(&img, 86), 0x122); // characteristics
    assert_eq!(u16_at(&img, 88), 0x10B); // optional-header magic
    assert_eq!(u32_at(&img, 112), 0x2000); // base of data
    assert_eq!(u32_at(&img, 116), 0x400000); // image base
    assert_eq!(&img[312..317], b".text");
    assert_eq!(u32_at(&img, 312 + 8), 6); // trampoline virtual size with breakpoint
    assert_eq!(u32_at(&img, 312 + 36), 0x60000020); // code section characteristics
}

#[test]
fn align_rounds_up() {
    assert_eq!(align(0, 0x1000), 0);
    assert_eq!(align(1, 0x200), 0x200);
    assert_eq!(align(0x200, 0x200), 0x200);
    assert_eq!(align(0x201, 0x200), 0x400);
    assert_eq!(align(5, 0x1000), 0x1000);
}
