use vstd::prelude::*;
use vstd::slice::slice_subrange;
use vstd::string::StringSliceAdditionalSpecFns;

use crate::error::PeError;
use crate::headers::{
    dos_error, header_error, DOS_MAGIC, nt_offset, optional_offset, section_table_offset, DOSHeader, ImageDataDirectory,
    NTHeader, OptionalHeader, OptionalHeader64, PEHeader, COFFHeader,
};
use crate::import::{import_error, parse_imports, ImportTable};
use crate::reader::{fits, le_u16, le_u32, LEReader};
use crate::text::{ends_with_bytes, ends_with_text};
use crate::section::{
    find_section, geometries, offset_view, parse_section_table, rva_lookup, rva_to_offset,
    section_map, table_decoded_from, table_error, Section, SECTION_HEADER_SIZE,
};

verus! {

/// Whether an image is 32-bit or 64-bit.
#[derive(Clone, Copy, Debug, PartialEq, Eq, Structural)]
pub enum PEArchitecture {
    PE32,
    PE64,
}

/// A decoded image: the buffer it came from and everything decoded from it.
#[derive(Debug)]
pub struct PE {
    pub header: PEHeader,
    /// The section table, in table order.
    pub sections: Vec<Section>,
    pub imports: ImportTable,
    pub data: Vec<u8>,
}

/// The COFF header of `d`.
pub open spec fn coff_of(d: Seq<u8>) -> COFFHeader {
    NTHeader::spec_decode(d, nt_offset(d)).coff_header
}

/// The Optional Header of `d`.
pub open spec fn optional_of(d: Seq<u8>) -> OptionalHeader {
    OptionalHeader::spec_decode(d, optional_offset(d))
}

pub open spec fn spec_is_32_bits(h: OptionalHeader) -> bool {
    h is PE32
}

/// Virtual address, virtual size and raw-data pointer of the section record at `at`;
/// all zero for the empty-section sentinel.
pub open spec fn record_geometry(d: Seq<u8>, at: int) -> (u32, u32, u32) {
    if d[at] == 0 {
        (0, 0, 0)
    } else {
        (le_u32(d, at + 12), le_u32(d, at + 8), le_u32(d, at + 20))
    }
}

/// The geometry of the `n` section records at `at`.
pub open spec fn table_geometry(d: Seq<u8>, at: int, n: int) -> Seq<(u32, u32, u32)> {
    Seq::new(n as nat, |i: int| record_geometry(d, at + SECTION_HEADER_SIZE * i))
}

/// The geometry of the section table of `d`.
pub open spec fn image_geometry(d: Seq<u8>) -> Seq<(u32, u32, u32)> {
    table_geometry(d, section_table_offset(d), coff_of(d).number_of_sections as int)
}

/// What parsing `d` fails with, if anything: the headers, then the section table, then
/// the import table.
pub open spec fn parse_error(d: Seq<u8>) -> Option<PeError> {
    if header_error(d) is Some {
        header_error(d)
    } else if table_error(d, section_table_offset(d), coff_of(d).number_of_sections as int) is Some {
        table_error(d, section_table_offset(d), coff_of(d).number_of_sections as int)
    } else {
        import_error(
            d,
            image_geometry(d),
            optional_of(d).spec_import_table(),
            spec_is_32_bits(optional_of(d)),
        )
    }
}

impl PE {
    /// Whether this image is everything that parsing `d` yields.
    pub open spec fn decoded_from(&self, d: Seq<u8>) -> bool {
        &&& self.data@ == d
        &&& self.header.decoded_from(d)
        &&& table_decoded_from(
            self.sections@,
            d,
            section_table_offset(d),
            coff_of(d).number_of_sections as int,
        )
        &&& self.imports.decoded_from(
            d,
            geometries(self.sections@),
            optional_of(d).spec_import_table(),
            spec_is_32_bits(optional_of(d)),
        )
    }

    /// An image of an empty buffer, with zeroed 64-bit headers and no sections or imports.
    pub fn new() -> (r: PE)
        ensures
            r.data@.len() == 0,
            r.sections@.len() == 0,
            r.imports.is_empty_table(),
            r.header.optional is PE64,
    {
        PE {
            header: PEHeader {
                dos: DOSHeader::new(),
                nt: NTHeader::new(),
                optional: OptionalHeader::PE64(OptionalHeader64::new()),
            },
            sections: Vec::new(),
            imports: ImportTable::new(),
            data: Vec::new(),
        }
    }

    pub fn get_architecture(&self) -> (r: PEArchitecture)
        ensures
            r == (if spec_is_32_bits(self.header.optional) {
                PEArchitecture::PE32
            } else {
                PEArchitecture::PE64
            }),
    {
        match &self.header.optional {
            OptionalHeader::PE32(_) => PEArchitecture::PE32,
            OptionalHeader::PE64(_) => PEArchitecture::PE64,
        }
    }

    pub fn is_32_bits(&self) -> (r: bool)
        ensures
            r == spec_is_32_bits(self.header.optional),
    {
        match &self.header.optional {
            OptionalHeader::PE32(_) => true,
            OptionalHeader::PE64(_) => false,
        }
    }

    pub fn get_size_of_optional_header(&self) -> (r: u64)
        ensures
            r == self.header.nt.coff_header.size_of_optional_header,
    {
        self.header.nt.coff_header.size_of_optional_header as u64
    }

    pub fn get_dos_header(&self) -> (r: &DOSHeader)
        ensures
            *r == self.header.dos,
    {
        &self.header.dos
    }

    pub fn get_optional_header(&self) -> (r: &OptionalHeader)
        ensures
            *r == self.header.optional,
    {
        &self.header.optional
    }

    pub fn get_nt_header(&self) -> (r: &NTHeader)
        ensures
            *r == self.header.nt,
    {
        &self.header.nt
    }

    pub fn get_number_of_sections(&self) -> (r: usize)
        ensures
            r == self.header.nt.coff_header.number_of_sections,
    {
        self.header.nt.coff_header.number_of_sections as usize
    }

    pub fn get_import_table_idd(&self) -> (r: ImageDataDirectory)
        ensures
            r == self.header.optional.spec_import_table(),
    {
        match &self.header.optional {
            OptionalHeader::PE32(h) => h.import_table,
            OptionalHeader::PE64(h) => h.import_table,
        }
    }

    /// The file offset of `rva` under the first section whose virtual range holds it.
    pub fn convert_rva_to_file_offset(&self, rva: u32) -> (r: Option<u64>)
        ensures
            offset_view(r) == rva_lookup(geometries(self.sections@), rva),
    {
        rva_to_offset(&self.sections, rva)
    }

    /// The section that `name` maps to; of sections that share a name, the last wins.
    pub fn get_section(&self, name: &str) -> (r: Option<&Section>)
        ensures
            match r {
                Some(x) => section_map(self.sections@).contains_key(name@) && x.header
                    == section_map(self.sections@)[name@],
                None => !section_map(self.sections@).contains_key(name@),
            },
    {
        find_section(&self.sections, name)
    }
}

impl PE {
    /// The raw bytes of a section, from `ptr_to_raw_data` for `size_of_raw_data` bytes;
    /// `None` when that range does not lie inside the buffer.
    pub fn section_data(&self, section: &Section) -> (r: Option<&[u8]>)
        ensures
            match r {
                Some(b) => fits(
                    self.data@,
                    section.header.ptr_to_raw_data as int,
                    section.header.size_of_raw_data as int,
                ) && b@ == self.data@.subrange(
                    section.header.ptr_to_raw_data as int,
                    section.header.ptr_to_raw_data + section.header.size_of_raw_data,
                ),
                None => !fits(
                    self.data@,
                    section.header.ptr_to_raw_data as int,
                    section.header.size_of_raw_data as int,
                ),
            },
    {
        let start = section.header.ptr_to_raw_data as u64;
        let end = start + section.header.size_of_raw_data as u64;
        if end > self.data.len() as u64 {
            return None;
        }
        Some(slice_subrange(self.data.as_slice(), start as usize, end as usize))
    }
}

/// Whether the path ends in `.exe` or `.dll`.
pub open spec fn spec_has_pe_extension(path: &str) -> bool {
    ends_with_bytes(path.spec_bytes(), ".exe".spec_bytes()) || ends_with_bytes(
        path.spec_bytes(),
        ".dll".spec_bytes(),
    )
}

/// Accepts a path as a PE file only if it ends in `.exe` or `.dll`.
pub fn check_pe_extension(path: &str) -> (r: Result<(), PeError>)
    ensures
        r is Ok <==> spec_has_pe_extension(path),
        r is Err ==> r == Err::<(), PeError>(PeError::NotAPeFile),
{
    if ends_with_text(path, ".exe") || ends_with_text(path, ".dll") {
        Ok(())
    } else {
        Err(PeError::NotAPeFile)
    }
}

/// Parses a whole image in one pass: headers, section table, then import table.
pub fn parse_pe_bytes(data: Vec<u8>) -> (res: Result<PE, PeError>)
    ensures
        match res {
            Ok(pe) => parse_error(data@) is None && pe.decoded_from(data@),
            Err(e) => parse_error(data@) == Some(e),
        },
{
    let ghost d = data@;
    let mut r = LEReader::new(&data);
    let header = PEHeader::from_parser(&mut r)?;
    let n = header.nt.coff_header.number_of_sections;
    let sections = parse_section_table(&mut r, n)?;
    assert(geometries(sections@) =~= image_geometry(d)) by {
        assert forall|i: int| 0 <= i < sections@.len() implies geometries(sections@)[i]
            == image_geometry(d)[i] by {
            assert(sections@[i].header.decoded_from(
                d,
                section_table_offset(d) + SECTION_HEADER_SIZE * i,
            ));
        }
    }
    let is_32_bits = match &header.optional {
        OptionalHeader::PE32(_) => true,
        OptionalHeader::PE64(_) => false,
    };
    let dir = match &header.optional {
        OptionalHeader::PE32(h) => h.import_table,
        OptionalHeader::PE64(h) => h.import_table,
    };
    let imports = parse_imports(&mut r, &sections, dir, is_32_bits)?;
    Ok(PE { header, sections, imports, data })
}

/// A buffer whose first two bytes are not "MZ" fails with `InvalidDosMagic`, whatever
/// its other bytes hold.
pub proof fn lemma_bad_dos_magic(d: Seq<u8>)
    requires
        fits(d, 0, 2),
        le_u16(d, 0) != DOS_MAGIC,
    ensures
        parse_error(d) == Some(PeError::InvalidDosMagic),
{
    assert(dos_error(d) == Some(PeError::InvalidDosMagic));
}

} // verus!
