use vstd::prelude::*;

use crate::error::PeError;

verus! {

/// The four leading bytes of an ELF file, read big-endian.
pub const ELF_MAGIC: u32 = 0x7f454c46;

/// An ELF file; no part of it is decoded yet.
#[derive(Clone, Copy, Debug, PartialEq, Eq, Structural)]
pub struct ELF {}

/// Accepts any ELF file, since nothing of one is decoded yet.
pub fn parse_elf(_path: &str) -> (r: Result<ELF, PeError>)
    ensures
        r == Ok::<ELF, PeError>(ELF {}),
{
    Ok(ELF {})
}

} // verus!
