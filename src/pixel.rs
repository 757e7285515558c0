use vstd::prelude::*;

verus! {

/// Bits 31 to 29 of a pixel word: the protocol's fixed "pixel data" marker.
pub const MARKER: u32 = 0xE000_0000;

/// Byte `k` of a word, counting from the least significant byte (`k` in `0..4`).
pub open spec fn byte_of(w: u32, k: int) -> u8 {
    ((w >> ((8 * k) as u32)) & 0xff) as u8
}

/// A lane code: `level` placed in byte `channel` of an otherwise zero word.
pub open spec fn lane_of(level: u8, channel: int) -> u32 {
    ((level as u32) << ((8 * channel) as u32)) as u32
}

/// The Dotstar word for one LED: marker, 5-bit brightness, then blue, green
/// and red from the most to the least significant byte.
pub open spec fn led_word(r: u8, g: u8, b: u8, brightness: u8) -> u32 {
    MARKER | (((brightness & 0x1f) as u32) << 24u32) | ((b as u32) << 16u32) | ((g as u32)
        << 8u32) | (r as u32)
}

/// The words that frame a transmission on the strip.
#[derive(Debug, Clone, Copy, PartialEq, Eq, Structural)]
pub enum Frames {
    StartFrame,
    EndFrame,
}

pub open spec fn frame_word(f: Frames) -> u32 {
    match f {
        Frames::StartFrame => 0x0000_0000,
        Frames::EndFrame => 0xFFFF_FFFF,
    }
}

impl Frames {
    /// The 32-bit word sent for this frame marker: all zeros to start, all
    /// ones to end.
    pub fn word(self) -> (r: u32)
        ensures
            r == frame_word(self),
    {
        match self {
            Frames::StartFrame => 0x0000_0000,
            Frames::EndFrame => 0xFFFF_FFFF,
        }
    }
}

/// Places an 8-bit level into byte position `channel` of a 32-bit word
/// (channel 0 is the least significant byte), leaving the other lanes zero,
/// so that the codes of up to four channels can be OR-composed.
pub fn lane_code(level: u8, channel: usize) -> (r: u32)
    requires
        channel < 4,
    ensures
        r == lane_of(level, channel as int),
        byte_of(r, channel as int) == level,
        forall|k: int| 0 <= k < 4 && k != channel ==> byte_of(r, k) == 0,
{
    let r = (level as u32) << ((channel * 8) as u32);
    proof {
        let l = level as u32;
        assert(((l << 0u32) >> 0u32) & 0xff == l && (l << 0u32) >> 8u32 & 0xff == 0 && (l << 0u32)
            >> 16u32 & 0xff == 0 && (l << 0u32) >> 24u32 & 0xff == 0) by (bit_vector)
            requires l < 256;
        assert(((l << 8u32) >> 8u32) & 0xff == l && (l << 8u32) >> 0u32 & 0xff == 0 && (l << 8u32)
            >> 16u32 & 0xff == 0 && (l << 8u32) >> 24u32 & 0xff == 0) by (bit_vector)
            requires l < 256;
        assert(((l << 16u32) >> 16u32) & 0xff == l && (l << 16u32) >> 0u32 & 0xff == 0 && (l
            << 16u32) >> 8u32 & 0xff == 0 && (l << 16u32) >> 24u32 & 0xff == 0) by (bit_vector)
            requires l < 256;
        assert(((l << 24u32) >> 24u32) & 0xff == l && (l << 24u32) >> 0u32 & 0xff == 0 && (l
            << 24u32) >> 8u32 & 0xff == 0 && (l << 24u32) >> 16u32 & 0xff == 0) by (bit_vector)
            requires l < 256;
    }
    r
}

/// Builds one Dotstar LED word. Sent most significant byte first it reads
/// `[0xE0 | brightness5, b, g, r]`, where `brightness5` is the low five bits of
/// `brightness`.
pub fn format_led(r: u8, g: u8, b: u8, brightness: u8) -> (w: u32)
    ensures
        w == led_word(r, g, b, brightness),
        byte_of(w, 3) == 0xE0 | (brightness & 0x1f),
        byte_of(w, 2) == b,
        byte_of(w, 1) == g,
        byte_of(w, 0) == r,
{
    let w = MARKER | (((brightness & 0x1f) as u32) << 24) | ((b as u32) << 16) | ((g as u32) << 8)
        | (r as u32);
    proof {
        let br = brightness as u32;
        let bb = b as u32;
        let gg = g as u32;
        let rr = r as u32;
        let ww = 0xE000_0000u32 | ((br & 0x1f) << 24u32) | (bb << 16u32) | (gg << 8u32) | rr;
        assert((ww >> 24u32) & 0xff == 0xE0 | (br & 0x1f) && (ww >> 16u32) & 0xff == bb && (ww
            >> 8u32) & 0xff == gg && (ww >> 0u32) & 0xff == rr) by (bit_vector)
            requires
                br < 256 && bb < 256 && gg < 256 && rr < 256,
                ww == 0xE000_0000u32 | ((br & 0x1f) << 24u32) | (bb << 16u32) | (gg << 8u32) | rr,
        ;
        assert(((brightness & 0x1f) as u32) == br & 0x1f && (0xE0u8 | (brightness & 0x1f)) as u32
            == 0xE0u32 | (br & 0x1f)) by (bit_vector)
            requires
                br == brightness as u32,
        ;
    }
    w
}

} // verus!
