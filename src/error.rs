use vstd::prelude::*;

verus! {

/// Every way in which reading or decoding an image can fail.
#[derive(Debug, Clone, Copy, PartialEq, Eq, Structural)]
pub enum PeError {
    /// The input path does not exist.
    FileNotFound,
    /// The input path does not end in `.exe` or `.dll`.
    NotAPeFile,
    /// The first two bytes are not "MZ".
    InvalidDosMagic,
    /// The four bytes at `e_lfanew` are not "PE\0\0".
    InvalidPeSignature,
    /// The Optional Header magic is neither 0x10B nor 0x20B.
    UnknownOptionalHeaderMagic,
    /// A field lies past the end of the buffer.
    TruncatedInput,
    /// A section name refers to the COFF string table.
    UnsupportedFeature,
    /// An RVA that the format requires to resolve lies in no section.
    DanglingReference,
    /// The import descriptor array has no terminator within the scan cap.
    ResourceLimitExceeded,
    /// A name is not valid UTF-8.
    InvalidName,
    /// The leading bytes match neither the PE nor the ELF signature.
    UnknownExecutableType,
}

} // verus!
