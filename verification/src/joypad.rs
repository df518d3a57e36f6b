//! The joypad register at 0xFF00: the low nibble reports up to four buttons
//! active-low, while bits 4 and 5 select the D-pad or the A/B/Select/Start
//! bank. The host reads its input devices and hands the eight button states
//! to `compute_joyp_register`; the resulting byte is written to 0xFF00 each
//! frame.

use vstd::prelude::*;

verus! {

/// The register byte for a set of pressed buttons, starting from the idle
/// value 0xFF: a pressed direction clears its low-nibble bit and selects the
/// D-pad bank (bit 4 low); a pressed action button clears its low-nibble bit
/// and selects the action bank (bit 5 low).
pub open spec fn spec_joyp_register(
    right: bool,
    left: bool,
    up: bool,
    down: bool,
    a: bool,
    b: bool,
    select: bool,
    start: bool,
) -> u8 {
    let r0: u8 = 0xFF;
    let r1: u8 = if right {
        (r0 & 0xFE) & 0xEF
    } else {
        r0
    };
    let r2: u8 = if left {
        (r1 & 0xFD) & 0xEF
    } else {
        r1
    };
    let r3: u8 = if up {
        (r2 & 0xFB) & 0xEF
    } else {
        r2
    };
    let r4: u8 = if down {
        (r3 & 0xF7) & 0xEF
    } else {
        r3
    };
    let r5: u8 = if a {
        (r4 & 0xFE) & 0xDF
    } else {
        r4
    };
    let r6: u8 = if b {
        (r5 & 0xFD) & 0xDF
    } else {
        r5
    };
    let r7: u8 = if select {
        (r6 & 0xFB) & 0xDF
    } else {
        r6
    };
    if start {
        (r7 & 0xF7) & 0xDF
    } else {
        r7
    }
}

/// Computes the joypad register byte the host writes to 0xFF00 for the
/// current state of the eight buttons.
pub fn compute_joyp_register(
    right: bool,
    left: bool,
    up: bool,
    down: bool,
    a: bool,
    b: bool,
    select: bool,
    start: bool,
) -> (r: u8)
    ensures
        r == spec_joyp_register(right, left, up, down, a, b, select, start),
{
    let mut register: u8 = 0xFF;
    if right {
        register = register & 0b1111_1110;
        register = register & 0b1110_1111;
    }
    if left {
        register = register & 0b1111_1101;
        register = register & 0b1110_1111;
    }
    if up {
        register = register & 0b1111_1011;
        register = register & 0b1110_1111;
    }
    if down {
        register = register & 0b1111_0111;
        register = register & 0b1110_1111;
    }
    if a {
        register = register & 0b1111_1110;
        register = register & 0b1101_1111;
    }
    if b {
        register = register & 0b1111_1101;
        register = register & 0b1101_1111;
    }
    if select {
        register = register & 0b1111_1011;
        register = register & 0b1101_1111;
    }
    if start {
        register = register & 0b1111_0111;
        register = register & 0b1101_1111;
    }
    register
}

} // verus!
