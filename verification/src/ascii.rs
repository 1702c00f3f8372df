//! Named ASCII byte values used across the crate.
//!
//! Entry names, paths and report rows are handled as byte strings, so the few
//! bytes the pipeline's rules single out are named here once.

use vstd::prelude::*;

verus! {

pub const LBRACKET: u8 = 0x5b;

pub const RBRACKET: u8 = 0x5d;

pub const UNDERSCORE: u8 = 0x5f;

pub const HYPHEN: u8 = 0x2d;

pub const STAR: u8 = 0x2a;

pub const COMMA: u8 = 0x2c;

pub const SLASH: u8 = 0x2f;

pub const DOT: u8 = 0x2e;

pub const ZERO: u8 = 0x30;

pub const NINE: u8 = 0x39;

} // verus!
