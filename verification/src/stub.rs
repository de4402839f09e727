//! The trampoline: the short machine-code sequence placed at the image's
//! entry point. It is an optional breakpoint opcode (`0xCC`, int3) followed
//! by a near relative jump (`0xE9`) whose 4-byte little-endian displacement
//! is emitted as a placeholder and patched once the layout is known.

use vstd::prelude::*;
use crate::bytes::u32_le;

verus! {

/// Length of the trampoline: one byte of jump opcode, four bytes of
/// displacement, and one optional breakpoint byte.
pub open spec fn stub_len(pause: bool) -> int {
    if pause { 6 } else { 5 }
}

/// The trampoline bytes with displacement `disp`:
/// `[optional 0xCC] 0xE9 <disp, 4 bytes little-endian>`.
pub open spec fn stub_seq(pause: bool, disp: u32) -> Seq<u8> {
    if pause {
        seq![0xCCu8, 0xE9u8] + u32_le(disp)
    } else {
        seq![0xE9u8] + u32_le(disp)
    }
}

/// Builds the trampoline for a 64-bit target, with the displacement still a
/// placeholder of four zero bytes.
pub fn make_stub64(pause: bool) -> (v: Vec<u8>)
    ensures
        v@ == stub_seq(pause, 0),
        v@.len() == stub_len(pause),
{
    let mut v: Vec<u8> = Vec::new();
    if pause {
        v.push(0xCC);
    }
    v.push(0xE9);
    v.push(0);
    v.push(0);
    v.push(0);
    v.push(0);
    proof {
        assert(v@ =~= stub_seq(pause, 0));
    }
    v
}

/// Builds the trampoline for a 32-bit target: the near relative jump has
/// the same opcode on both widths.
pub fn make_stub32(pause: bool) -> (v: Vec<u8>)
    ensures
        v@ == stub_seq(pause, 0),
        v@.len() == stub_len(pause),
{
    make_stub64(pause)
}

/// Builds the trampoline for a PE target of either width: a near relative
/// jump covers the whole offset range this layout can produce, so the
/// encoding does not depend on the width.
pub fn make_stub(is64: bool, pause: bool) -> (v: Vec<u8>)
    ensures
        v@ == stub_seq(pause, 0),
        v@.len() == stub_len(pause),
{
    if is64 {
        make_stub64(pause)
    } else {
        make_stub32(pause)
    }
}

/// Overwrites the last four bytes of the trampoline with the little-endian
/// encoding of `disp`.
pub fn patch_stub(stub: &mut Vec<u8>, disp: u32)
    requires
        old(stub)@.len() >= 4,
    ensures
        final(stub)@ == old(stub)@.update_subrange_with(old(stub)@.len() - 4, u32_le(disp)),
{
    let n: usize = stub.len();
    let b0: u8 = (disp % 0x100) as u8;
    let b1: u8 = ((disp / 0x100) % 0x100) as u8;
    let b2: u8 = ((disp / 0x10000) % 0x100) as u8;
    let b3: u8 = ((disp / 0x1000000) % 0x100) as u8;
    stub.set(n - 4, b0);
    stub.set(n - 3, b1);
    stub.set(n - 2, b2);
    stub.set(n - 1, b3);
    proof {
        assert(stub@ =~= old(stub)@.update_subrange_with(old(stub)@.len() - 4, u32_le(disp)));
    }
}

/// Patching the placeholder displacement yields exactly the trampoline
/// built with that displacement.
pub proof fn lemma_patch_stub(pause: bool, disp: u32)
    ensures
        stub_seq(pause, 0).update_subrange_with(stub_len(pause) - 4, u32_le(disp))
            == stub_seq(pause, disp),
{
    assert(stub_seq(pause, 0).update_subrange_with(stub_len(pause) - 4, u32_le(disp))
        =~= stub_seq(pause, disp));
}

} // verus!
