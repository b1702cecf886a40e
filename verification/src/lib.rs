//! Assembly of a BBBS SKSA secure-boot image.
//!
//! An SKSA image is the concatenation of an encrypted secret kernel blob (SK),
//! a command header and encrypted first application blob (SA1), and optionally
//! a command header and encrypted, DEFLATE-compressed second application blob
//! (SA2).  This crate holds the image-assembly pipeline: size validation,
//! padding, compression and encryption staging, command-header finishing and
//! final concatenation, each with a proved contract.
//!
//! The platform pieces that surround the pipeline - reading inputs, parsing
//! the Virage2 descriptor, deriving the SK key and IV from the boot ROM, and
//! encoding the command-header body - are outside collaborators; the pipeline
//! takes their results as plain values.

use vstd::prelude::*;

pub mod args;
pub mod compress;
pub mod crypto;
pub mod header;
pub mod hexstr;
pub mod image;
pub mod io;
pub mod pad;

verus! {

/// Exact size of the padded SK payload: 64 KiB.
pub const SK_SIZE: usize = 65536;

/// NAND block size.  Application payloads are padded to a multiple of this
/// size before encryption, and each finished command header fills exactly one
/// such block.
pub const BLOCK_SIZE: usize = 16384;

/// AES block size: CBC encryption consumes its input in blocks of this size.
/// `BLOCK_SIZE` is a multiple of it, so block-padded payloads encrypt whole.
pub const AES_BLOCK_SIZE: usize = 16;

/// The role of one input component of the image.
#[derive(Debug, Clone, Copy)]
pub enum SKSAComponent {
    Sk,
    Sa1,
    Sa2,
}

impl SKSAComponent {
    /// The role's name as it appears in diagnostics.
    pub fn name(&self) -> (r: &'static str)
        ensures
            r@ == match *self {
                SKSAComponent::Sk => "SK"@,
                SKSAComponent::Sa1 => "SA1"@,
                SKSAComponent::Sa2 => "SA2"@,
            },
    {
        match self {
            SKSAComponent::Sk => "SK",
            SKSAComponent::Sa1 => "SA1",
            SKSAComponent::Sa2 => "SA2",
        }
    }
}

/// A build failure: one component's payload does not fit its role's maximum.
/// Carries the role, the actual length and the maximum length.
#[derive(Debug, Clone, Copy)]
pub enum MakeSKSAError {
    ComponentTooLong(SKSAComponent, usize, usize),
}

} // verus!
