//! The relocation stub that the boot ROM jumps into.
//!
//! The stub is ARM code, assembled to run at the start of the staged image in
//! device memory (`0x4001_0000`, where the stack spray points). It first moves
//! its second half to the start of IRAM and continues there; from there it
//! moves the two parts of the caller's code, which the image holds on either
//! side of the stack spray, together at `0x4001_0000`, and jumps to them.

use vstd::prelude::*;

verus! {

/// Length of the stub in bytes.
pub const INTERMEZZO_LENGTH: usize = 124;

/// The stub, word by word, least significant byte first.
///
/// ```text
/// 00  e3a00101  mov  r0, #0x40000000      ; where the second half goes
/// 04  e59f1058  ldr  r1, [pc, #0x58]      ; = relocated
/// 08  e59f2058  ldr  r2, [pc, #0x58]      ; = end
/// 0c  e0422001  sub  r2, r2, r1
/// 10  eb00000e  bl   copy
/// 14  e3a00101  mov  r0, #0x40000000
/// 18  e12fff10  bx   r0
/// 1c  e1a00000  nop
/// 20  e59f0044  ldr  r0, [pc, #0x44]      ; relocated: = 0x40010000
/// 24  e59f1044  ldr  r1, [pc, #0x44]      ; = 0x40010e40, code before the spray
/// 28  e3a02901  mov  r2, #0x4000
/// 2c  eb000007  bl   copy
/// 30  e59f0034  ldr  r0, [pc, #0x34]      ; = 0x40010000
/// 34  e3a01901  mov  r1, #0x4000
/// 38  e0800001  add  r0, r0, r1
/// 3c  e59f1030  ldr  r1, [pc, #0x30]      ; = 0x40017000, code after the spray
/// 40  e59f2030  ldr  r2, [pc, #0x30]      ; = 0x29000, up to the end of IRAM
/// 44  eb000001  bl   copy
/// 48  e59f001c  ldr  r0, [pc, #0x1c]      ; = 0x40010000
/// 4c  e12fff10  bx   r0
/// 50  e4913004  ldr  r3, [r1], #4         ; copy: r2 bytes from r1 to r0
/// 54  e4803004  str  r3, [r0], #4
/// 58  e2522004  subs r2, r2, #4
/// 5c  1afffffb  bne  copy
/// 60  e12fff1e  bx   lr
/// 64  40010020  relocated
/// 68  4001007c  end
/// 6c  40010000
/// 70  40010e40
/// 74  40017000
/// 78  00029000
/// ```
pub const INTERMEZZO: [u8; 124] = [
    0x01, 0x01, 0xa0, 0xe3, 0x58, 0x10, 0x9f, 0xe5, 0x58, 0x20, 0x9f, 0xe5, 0x01, 0x20, 0x42, 0xe0,
    0x0e, 0x00, 0x00, 0xeb, 0x01, 0x01, 0xa0, 0xe3, 0x10, 0xff, 0x2f, 0xe1, 0x00, 0x00, 0xa0, 0xe1,
    0x44, 0x00, 0x9f, 0xe5, 0x44, 0x10, 0x9f, 0xe5, 0x01, 0x29, 0xa0, 0xe3, 0x07, 0x00, 0x00, 0xeb,
    0x34, 0x00, 0x9f, 0xe5, 0x01, 0x19, 0xa0, 0xe3, 0x01, 0x00, 0x80, 0xe0, 0x30, 0x10, 0x9f, 0xe5,
    0x30, 0x20, 0x9f, 0xe5, 0x01, 0x00, 0x00, 0xeb, 0x1c, 0x00, 0x9f, 0xe5, 0x10, 0xff, 0x2f, 0xe1,
    0x04, 0x30, 0x91, 0xe4, 0x04, 0x30, 0x80, 0xe4, 0x04, 0x20, 0x52, 0xe2, 0xfb, 0xff, 0xff, 0x1a,
    0x1e, 0xff, 0x2f, 0xe1, 0x20, 0x00, 0x01, 0x40, 0x7c, 0x00, 0x01, 0x40, 0x00, 0x00, 0x01, 0x40,
    0x40, 0x0e, 0x01, 0x40, 0x00, 0x70, 0x01, 0x40, 0x00, 0x90, 0x02, 0x00,
];

/// The stub as a sequence of bytes.
pub open spec fn intermezzo_bytes() -> Seq<u8> {
    INTERMEZZO@
}

/// The stub has the length that the image layout reserves for it.
pub proof fn lemma_intermezzo_length()
    ensures
        intermezzo_bytes().len() == INTERMEZZO_LENGTH,
{
}

} // verus!
