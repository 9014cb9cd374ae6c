//! Loading Linux programs: ELF images and `#!` scripts.

pub mod auxv;
pub mod elf;
pub mod mmap;
pub mod shebang;
pub mod stack;

use crate::error::LxError;
use vstd::prelude::*;

verus! {

/// An error while loading a program.
#[derive(Debug)]
pub enum Error {
    /// The image could not be read.
    ReadImage(LxError),
    /// The image could not be brought into memory.
    LoadImage(LxError),
    /// The image is not in a format that can be loaded; the message says why.
    ImageFormat(String),
}

} // verus!
