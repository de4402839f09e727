//! Synthesizes a minimal native executable image (PE or ELF, 32- or 64-bit)
//! around an arbitrary raw machine-code payload. The produced image embeds
//! the payload verbatim in its own loadable segment and transfers control to
//! it on load through a small relative-jump trampoline, optionally preceded
//! by a breakpoint instruction.

pub mod bytes;
pub mod layout;
pub mod elf;
pub mod laws;
pub mod pe;
pub mod stub;
