use vstd::prelude::*;

use crate::elf::{ELF, ELF_MAGIC};
use crate::error::PeError;
use crate::headers::DOS_MAGIC;
use crate::image::PE;
use crate::reader::{be_u32, le_u16};

verus! {

/// The number of leading bytes that the executable type is told from.
pub const EXEC_PROBE_SIZE: usize = 8;

/// The kind of executable that a file holds.
#[derive(Clone, Copy, Debug, PartialEq, Eq, Structural)]
pub enum ExecType {
    PE,
    ELF,
}

/// A decoded executable of either kind.
#[derive(Debug)]
pub enum Exec {
    PE(PE),
    ELF(ELF),
}

/// The kind that the leading bytes `h` show: ELF by its four-byte signature, PE by "MZ".
pub open spec fn exec_type_of(h: Seq<u8>) -> Result<ExecType, PeError> {
    if h.len() < EXEC_PROBE_SIZE {
        Err(PeError::TruncatedInput)
    } else if be_u32(h, 0) == ELF_MAGIC {
        Ok(ExecType::ELF)
    } else if le_u16(h, 0) == DOS_MAGIC {
        Ok(ExecType::PE)
    } else {
        Err(PeError::UnknownExecutableType)
    }
}

/// Tells the executable type from the first bytes of a file (at least eight are needed).
pub fn guess_exectype(head: &Vec<u8>) -> (r: Result<ExecType, PeError>)
    ensures
        r == exec_type_of(head@),
{
    if head.len() < EXEC_PROBE_SIZE {
        return Err(PeError::TruncatedInput);
    }
    let sig = head[0] as u32 * 0x100_0000 + head[1] as u32 * 0x1_0000 + head[2] as u32 * 0x100
        + head[3] as u32;
    if sig == ELF_MAGIC {
        return Ok(ExecType::ELF);
    }
    let magic = head[0] as u16 + head[1] as u16 * 0x100;
    if magic == DOS_MAGIC {
        return Ok(ExecType::PE);
    }
    Err(PeError::UnknownExecutableType)
}

} // verus!
