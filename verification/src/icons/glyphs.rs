//! The status glyphs, as PNG files of 36 by 36 pixels with 8-bit grey and alpha
//! channels: a rounded keycap with a mark for the state.

use vstd::prelude::*;

verus! {

/// A keycap with a solid key: running.
pub const RUNNING: [u8; 116] = [
    0x89, 0x50, 0x4e, 0x47, 0x0d, 0x0a, 0x1a, 0x0a, 0x00, 0x00, 0x00, 0x0d, 0x49, 0x48, 0x44, 0x52,
    0x00, 0x00, 0x00, 0x24, 0x00, 0x00, 0x00, 0x24, 0x08, 0x04, 0x00, 0x00, 0x00, 0x4b, 0x09, 0x50,
    0x13, 0x00, 0x00, 0x00, 0x3b, 0x49, 0x44, 0x41, 0x54, 0x78, 0xda, 0x63, 0x60, 0x18, 0x05, 0xa4,
    0x80, 0xff, 0x64, 0x40, 0x2a, 0x19, 0x83, 0xd5, 0x28, 0x2a, 0x1b, 0x44, 0x7a, 0x50, 0x8c, 0x1a,
    0x44, 0x05, 0x83, 0x08, 0xc7, 0xd2, 0xa8, 0x41, 0xa3, 0x06, 0x8d, 0x1a, 0x44, 0x0d, 0x83, 0x46,
    0xcb, 0x23, 0x9a, 0x1b, 0x34, 0x98, 0xea, 0x35, 0xaa, 0x55, 0xd9, 0xa3, 0x00, 0x17, 0x00, 0x00,
    0x50, 0x77, 0xb6, 0x58, 0x66, 0xdd, 0xbb, 0x95, 0x00, 0x00, 0x00, 0x00, 0x49, 0x45, 0x4e, 0x44,
    0xae, 0x42, 0x60, 0x82,
];

/// A keycap with two bars: paused.
pub const PAUSED: [u8; 119] = [
    0x89, 0x50, 0x4e, 0x47, 0x0d, 0x0a, 0x1a, 0x0a, 0x00, 0x00, 0x00, 0x0d, 0x49, 0x48, 0x44, 0x52,
    0x00, 0x00, 0x00, 0x24, 0x00, 0x00, 0x00, 0x24, 0x08, 0x04, 0x00, 0x00, 0x00, 0x4b, 0x09, 0x50,
    0x13, 0x00, 0x00, 0x00, 0x3e, 0x49, 0x44, 0x41, 0x54, 0x78, 0xda, 0x63, 0x60, 0x18, 0x05, 0xa4,
    0x80, 0xff, 0x64, 0x40, 0x2a, 0x19, 0x83, 0xd5, 0x28, 0x2a, 0x1b, 0x44, 0x7a, 0x50, 0x8c, 0x1a,
    0x44, 0x05, 0x83, 0xd0, 0x63, 0xe5, 0x3f, 0x0e, 0x15, 0xa3, 0x06, 0x8d, 0x1a, 0x34, 0x6a, 0x10,
    0x65, 0x06, 0x8d, 0x96, 0x47, 0x34, 0x37, 0x68, 0x30, 0xd5, 0x6b, 0x54, 0xab, 0xb2, 0x47, 0x01,
    0x2e, 0x00, 0x00, 0xf0, 0x55, 0x86, 0x88, 0xfd, 0x51, 0xdb, 0xd8, 0x00, 0x00, 0x00, 0x00, 0x49,
    0x45, 0x4e, 0x44, 0xae, 0x42, 0x60, 0x82,
];

/// A keycap with a dash: idle.
pub const IDLE: [u8; 113] = [
    0x89, 0x50, 0x4e, 0x47, 0x0d, 0x0a, 0x1a, 0x0a, 0x00, 0x00, 0x00, 0x0d, 0x49, 0x48, 0x44, 0x52,
    0x00, 0x00, 0x00, 0x24, 0x00, 0x00, 0x00, 0x24, 0x08, 0x04, 0x00, 0x00, 0x00, 0x4b, 0x09, 0x50,
    0x13, 0x00, 0x00, 0x00, 0x38, 0x49, 0x44, 0x41, 0x54, 0x78, 0xda, 0x63, 0x60, 0x18, 0x05, 0xa4,
    0x80, 0xff, 0x64, 0x40, 0x2a, 0x19, 0x83, 0xd5, 0x28, 0x2a, 0x1b, 0x44, 0x7a, 0x50, 0x8c, 0x1a,
    0x34, 0x6a, 0x10, 0x5d, 0x0c, 0x22, 0x9c, 0x92, 0x47, 0x0d, 0x1a, 0x4d, 0x47, 0xa3, 0x06, 0x0d,
    0x02, 0x83, 0x06, 0x53, 0xbd, 0x46, 0xb5, 0x2a, 0x7b, 0x14, 0xe0, 0x02, 0x00, 0x90, 0x42, 0x56,
    0xb8, 0x9b, 0x04, 0xe0, 0x44, 0x00, 0x00, 0x00, 0x00, 0x49, 0x45, 0x4e, 0x44, 0xae, 0x42, 0x60,
    0x82,
];

/// A keycap with an exclamation mark: degraded.
pub const DEGRADED: [u8; 115] = [
    0x89, 0x50, 0x4e, 0x47, 0x0d, 0x0a, 0x1a, 0x0a, 0x00, 0x00, 0x00, 0x0d, 0x49, 0x48, 0x44, 0x52,
    0x00, 0x00, 0x00, 0x24, 0x00, 0x00, 0x00, 0x24, 0x08, 0x04, 0x00, 0x00, 0x00, 0x4b, 0x09, 0x50,
    0x13, 0x00, 0x00, 0x00, 0x3a, 0x49, 0x44, 0x41, 0x54, 0x78, 0xda, 0x63, 0x60, 0x18, 0x05, 0xa4,
    0x80, 0xff, 0x64, 0x40, 0x2a, 0x19, 0x83, 0xd5, 0x28, 0x2a, 0x1b, 0x44, 0x7a, 0x50, 0x8c, 0x1a,
    0xc4, 0x80, 0x27, 0xa2, 0x47, 0x0d, 0x1a, 0x35, 0x68, 0x00, 0x0c, 0x1a, 0xcd, 0x22, 0x23, 0x3a,
    0xb0, 0x07, 0xda, 0xa0, 0xc1, 0x54, 0xaf, 0x51, 0xad, 0xca, 0x1e, 0x05, 0xb8, 0x00, 0x00, 0x61,
    0xd3, 0x56, 0xb8, 0x2f, 0xc4, 0x65, 0xa8, 0x00, 0x00, 0x00, 0x00, 0x49, 0x45, 0x4e, 0x44, 0xae,
    0x42, 0x60, 0x82,
];

/// A dotted keycap: disconnected.
pub const DISCONNECTED: [u8; 113] = [
    0x89, 0x50, 0x4e, 0x47, 0x0d, 0x0a, 0x1a, 0x0a, 0x00, 0x00, 0x00, 0x0d, 0x49, 0x48, 0x44, 0x52,
    0x00, 0x00, 0x00, 0x24, 0x00, 0x00, 0x00, 0x24, 0x08, 0x04, 0x00, 0x00, 0x00, 0x4b, 0x09, 0x50,
    0x13, 0x00, 0x00, 0x00, 0x38, 0x49, 0x44, 0x41, 0x54, 0x78, 0xda, 0x63, 0x60, 0x18, 0x05, 0xc4,
    0x83, 0xff, 0x40, 0x48, 0x2a, 0x0d, 0x63, 0xd3, 0xc6, 0xa0, 0xc1, 0x1b, 0x46, 0x14, 0xeb, 0xa1,
    0x9a, 0x41, 0xa3, 0x61, 0x34, 0x1a, 0x46, 0xa3, 0x61, 0x34, 0x1a, 0x46, 0xa3, 0x61, 0x34, 0x74,
    0xc2, 0x88, 0x9c, 0x0a, 0x92, 0x6a, 0x55, 0xf6, 0x28, 0x20, 0x09, 0x00, 0x00, 0x4d, 0x5d, 0x6b,
    0x95, 0xed, 0x99, 0xfc, 0x3f, 0x00, 0x00, 0x00, 0x00, 0x49, 0x45, 0x4e, 0x44, 0xae, 0x42, 0x60,
    0x82,
];

} // verus!
