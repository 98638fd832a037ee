use vstd::prelude::*;

verus! {

/// What the command line asks for.
#[derive(Clone, Debug)]
pub struct Args {
    /// Dump the legacy MS-DOS header.
    pub dos_header: bool,
    /// Dump the NT header.
    pub nt_header: bool,
    /// Dump the Optional Header.
    pub optional_header: bool,
    /// Dump the sections.
    pub sections: bool,
    /// Regular expression that selects the sections to show.
    pub sections_filter: String,
    /// Dump the section data along with the headers.
    pub sections_data: bool,
    /// Disassemble the code in the sections.
    pub disasm: bool,
    /// Dump the import table.
    pub imports: bool,
    /// Indentation width of the dumps.
    pub padding_size: usize,
    pub file_path: String,
}

} // verus!
