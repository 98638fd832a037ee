use vstd::prelude::*;

use crate::dump::Dump;
use crate::error::PeError;
use crate::format::{hex_text, to_hex_text};
use crate::reader::{fits, le_u16, le_u32, le_u64, LEReader};

verus! {

/// Size of the COFF header.
pub const COFF_HEADER_SIZE: u64 = 20;

/// Size of the 32-bit Optional Header, its 16 data directories included.
pub const OPTIONAL_HEADER32_SIZE: u64 = 224;

/// Size of the 64-bit Optional Header, its 16 data directories included.
pub const OPTIONAL_HEADER64_SIZE: u64 = 240;

/// Location and size of one table of the image; `(0, 0)` means the table is absent.
#[derive(Clone, Copy, Debug, PartialEq, Eq, Structural)]
pub struct ImageDataDirectory {
    pub virtual_address: u32,
    pub size: u32,
}

impl ImageDataDirectory {
    /// The entry of an absent table.
    pub open spec fn spec_zero() -> ImageDataDirectory {
        ImageDataDirectory { virtual_address: 0, size: 0 }
    }

    /// The entry of an absent table.
    pub fn new() -> (r: ImageDataDirectory)
        ensures
            r.virtual_address == 0,
            r.size == 0,
    {
        ImageDataDirectory {
            virtual_address: 0,
            size: 0,
        }
    }

    /// The record as it is laid out at offset `at` of `d`.
    pub open spec fn spec_decode(d: Seq<u8>, at: int) -> ImageDataDirectory {
        ImageDataDirectory {
            virtual_address: le_u32(d, at),
            size: le_u32(d, at + 4),
        }
    }

    /// Decodes the 8-byte record at the reader's position.
    pub fn from_parser(r: &mut LEReader) -> (res: Result<ImageDataDirectory, PeError>)
        ensures
            final(r).bytes() == old(r).bytes(),
            fits(old(r).bytes(), old(r).pos(), 8) ==> res == Ok::<ImageDataDirectory, PeError>(
                ImageDataDirectory::spec_decode(old(r).bytes(), old(r).pos()),
            ) && final(r).pos() == old(r).pos() + 8,
            !fits(old(r).bytes(), old(r).pos(), 8) ==> res == Err::<ImageDataDirectory, PeError>(
                PeError::TruncatedInput,
            ),
    {
        let virtual_address = r.read_u32()?;
        let size = r.read_u32()?;
        Ok(ImageDataDirectory {
            virtual_address,
            size,
        })
    }
}

/// The COFF file header that follows the PE signature.
#[derive(Clone, Copy, Debug, PartialEq, Eq, Structural)]
pub struct COFFHeader {
    pub machine: u16,
    pub number_of_sections: u16,
    pub time_date_stamp: u32,
    pub pointer_to_symbol_table: u32,
    pub number_of_symbols: u32,
    pub size_of_optional_header: u16,
    pub characteristics: u16,
}

impl COFFHeader {
    /// A header with every field zero.
    pub fn new() -> (r: COFFHeader)
        ensures
            r.machine == 0,
            r.number_of_sections == 0,
            r.time_date_stamp == 0,
            r.pointer_to_symbol_table == 0,
            r.number_of_symbols == 0,
            r.size_of_optional_header == 0,
            r.characteristics == 0,
    {
        COFFHeader {
            machine: 0,
            number_of_sections: 0,
            time_date_stamp: 0,
            pointer_to_symbol_table: 0,
            number_of_symbols: 0,
            size_of_optional_header: 0,
            characteristics: 0,
        }
    }

    /// The record as it is laid out at offset `at` of `d`.
    pub open spec fn spec_decode(d: Seq<u8>, at: int) -> COFFHeader {
        COFFHeader {
            machine: le_u16(d, at),
            number_of_sections: le_u16(d, at + 2),
            time_date_stamp: le_u32(d, at + 4),
            pointer_to_symbol_table: le_u32(d, at + 8),
            number_of_symbols: le_u32(d, at + 12),
            size_of_optional_header: le_u16(d, at + 16),
            characteristics: le_u16(d, at + 18),
        }
    }

    /// Decodes the 20-byte record at the reader's position.
    pub fn from_parser(r: &mut LEReader) -> (res: Result<COFFHeader, PeError>)
        ensures
            final(r).bytes() == old(r).bytes(),
            fits(old(r).bytes(), old(r).pos(), COFF_HEADER_SIZE as int) ==> res == Ok::<COFFHeader, PeError>(
                COFFHeader::spec_decode(old(r).bytes(), old(r).pos()),
            ) && final(r).pos() == old(r).pos() + COFF_HEADER_SIZE,
            !fits(old(r).bytes(), old(r).pos(), COFF_HEADER_SIZE as int) ==> res == Err::<COFFHeader, PeError>(
                PeError::TruncatedInput,
            ),
    {
        let machine = r.read_u16()?;
        let number_of_sections = r.read_u16()?;
        let time_date_stamp = r.read_u32()?;
        let pointer_to_symbol_table = r.read_u32()?;
        let number_of_symbols = r.read_u32()?;
        let size_of_optional_header = r.read_u16()?;
        let characteristics = r.read_u16()?;
        Ok(COFFHeader {
            machine,
            number_of_sections,
            time_date_stamp,
            pointer_to_symbol_table,
            number_of_symbols,
            size_of_optional_header,
            characteristics,
        })
    }
}

/// Optional Header of a 32-bit (PE32) image.
#[derive(Clone, Copy, Debug, PartialEq, Eq, Structural)]
pub struct OptionalHeader32 {
    pub magic: u16,
    pub major_linker_version: u8,
    pub minor_linker_version: u8,
    pub size_of_code: u32,
    pub size_of_initialized_data: u32,
    pub size_of_uninitialized_data: u32,
    pub address_of_entry_point: u32,
    pub base_of_code: u32,
    pub base_of_data: u32,
    pub image_base: u32,
    pub section_alignment: u32,
    pub file_alignement: u32,
    pub major_operating_system_version: u16,
    pub minor_operating_system_version: u16,
    pub major_image_version: u16,
    pub minor_image_version: u16,
    pub major_subsystem_version: u16,
    pub minor_subsystem_version: u16,
    pub win32_version_value: u32,
    pub size_of_image: u32,
    pub size_of_headers: u32,
    pub checksum: u32,
    pub subsystem: u16,
    pub dll_characteristics: u16,
    pub size_of_stack_reserve: u32,
    pub size_of_stack_commit: u32,
    pub size_of_heap_reserve: u32,
    pub size_of_heap_commit: u32,
    pub loader_flags: u32,
    pub number_of_rva_and_sizes: u32,
    pub export_table: ImageDataDirectory,
    pub import_table: ImageDataDirectory,
    pub resource_table: ImageDataDirectory,
    pub exception_table: ImageDataDirectory,
    pub certificate_table: ImageDataDirectory,
    pub base_relocation_table: ImageDataDirectory,
    pub debug: ImageDataDirectory,
    pub architecture: ImageDataDirectory,
    pub global_ptr: ImageDataDirectory,
    pub tls_table: ImageDataDirectory,
    pub load_config_table: ImageDataDirectory,
    pub bound_import: ImageDataDirectory,
    pub import_address_table: ImageDataDirectory,
    pub delay_import_descriptor: ImageDataDirectory,
    pub clr_runtime_header: ImageDataDirectory,
    pub zero: ImageDataDirectory,
}

impl OptionalHeader32 {
    /// A header with every field zero.
    pub fn new() -> (r: OptionalHeader32)
        ensures
            r.magic == 0,
            r.major_linker_version == 0,
            r.minor_linker_version == 0,
            r.size_of_code == 0,
            r.size_of_initialized_data == 0,
            r.size_of_uninitialized_data == 0,
            r.address_of_entry_point == 0,
            r.base_of_code == 0,
            r.base_of_data == 0,
            r.image_base == 0,
            r.section_alignment == 0,
            r.file_alignement == 0,
            r.major_operating_system_version == 0,
            r.minor_operating_system_version == 0,
            r.major_image_version == 0,
            r.minor_image_version == 0,
            r.major_subsystem_version == 0,
            r.minor_subsystem_version == 0,
            r.win32_version_value == 0,
            r.size_of_image == 0,
            r.size_of_headers == 0,
            r.checksum == 0,
            r.subsystem == 0,
            r.dll_characteristics == 0,
            r.size_of_stack_reserve == 0,
            r.size_of_stack_commit == 0,
            r.size_of_heap_reserve == 0,
            r.size_of_heap_commit == 0,
            r.loader_flags == 0,
            r.number_of_rva_and_sizes == 0,
            r.export_table == ImageDataDirectory::spec_zero(),
            r.import_table == ImageDataDirectory::spec_zero(),
            r.resource_table == ImageDataDirectory::spec_zero(),
            r.exception_table == ImageDataDirectory::spec_zero(),
            r.certificate_table == ImageDataDirectory::spec_zero(),
            r.base_relocation_table == ImageDataDirectory::spec_zero(),
            r.debug == ImageDataDirectory::spec_zero(),
            r.architecture == ImageDataDirectory::spec_zero(),
            r.global_ptr == ImageDataDirectory::spec_zero(),
            r.tls_table == ImageDataDirectory::spec_zero(),
            r.load_config_table == ImageDataDirectory::spec_zero(),
            r.bound_import == ImageDataDirectory::spec_zero(),
            r.import_address_table == ImageDataDirectory::spec_zero(),
            r.delay_import_descriptor == ImageDataDirectory::spec_zero(),
            r.clr_runtime_header == ImageDataDirectory::spec_zero(),
            r.zero == ImageDataDirectory::spec_zero(),
    {
        OptionalHeader32 {
            magic: 0,
            major_linker_version: 0,
            minor_linker_version: 0,
            size_of_code: 0,
            size_of_initialized_data: 0,
            size_of_uninitialized_data: 0,
            address_of_entry_point: 0,
            base_of_code: 0,
            base_of_data: 0,
            image_base: 0,
            section_alignment: 0,
            file_alignement: 0,
            major_operating_system_version: 0,
            minor_operating_system_version: 0,
            major_image_version: 0,
            minor_image_version: 0,
            major_subsystem_version: 0,
            minor_subsystem_version: 0,
            win32_version_value: 0,
            size_of_image: 0,
            size_of_headers: 0,
            checksum: 0,
            subsystem: 0,
            dll_characteristics: 0,
            size_of_stack_reserve: 0,
            size_of_stack_commit: 0,
            size_of_heap_reserve: 0,
            size_of_heap_commit: 0,
            loader_flags: 0,
            number_of_rva_and_sizes: 0,
            export_table: ImageDataDirectory::new(),
            import_table: ImageDataDirectory::new(),
            resource_table: ImageDataDirectory::new(),
            exception_table: ImageDataDirectory::new(),
            certificate_table: ImageDataDirectory::new(),
            base_relocation_table: ImageDataDirectory::new(),
            debug: ImageDataDirectory::new(),
            architecture: ImageDataDirectory::new(),
            global_ptr: ImageDataDirectory::new(),
            tls_table: ImageDataDirectory::new(),
            load_config_table: ImageDataDirectory::new(),
            bound_import: ImageDataDirectory::new(),
            import_address_table: ImageDataDirectory::new(),
            delay_import_descriptor: ImageDataDirectory::new(),
            clr_runtime_header: ImageDataDirectory::new(),
            zero: ImageDataDirectory::new(),
        }
    }

    /// The record as it is laid out at offset `at` of `d`.
    pub open spec fn spec_decode(d: Seq<u8>, at: int) -> OptionalHeader32 {
        OptionalHeader32 {
            magic: le_u16(d, at),
            major_linker_version: d[at + 2],
            minor_linker_version: d[at + 3],
            size_of_code: le_u32(d, at + 4),
            size_of_initialized_data: le_u32(d, at + 8),
            size_of_uninitialized_data: le_u32(d, at + 12),
            address_of_entry_point: le_u32(d, at + 16),
            base_of_code: le_u32(d, at + 20),
            base_of_data: le_u32(d, at + 24),
            image_base: le_u32(d, at + 28),
            section_alignment: le_u32(d, at + 32),
            file_alignement: le_u32(d, at + 36),
            major_operating_system_version: le_u16(d, at + 40),
            minor_operating_system_version: le_u16(d, at + 42),
            major_image_version: le_u16(d, at + 44),
            minor_image_version: le_u16(d, at + 46),
            major_subsystem_version: le_u16(d, at + 48),
            minor_subsystem_version: le_u16(d, at + 50),
            win32_version_value: le_u32(d, at + 52),
            size_of_image: le_u32(d, at + 56),
            size_of_headers: le_u32(d, at + 60),
            checksum: le_u32(d, at + 64),
            subsystem: le_u16(d, at + 68),
            dll_characteristics: le_u16(d, at + 70),
            size_of_stack_reserve: le_u32(d, at + 72),
            size_of_stack_commit: le_u32(d, at + 76),
            size_of_heap_reserve: le_u32(d, at + 80),
            size_of_heap_commit: le_u32(d, at + 84),
            loader_flags: le_u32(d, at + 88),
            number_of_rva_and_sizes: le_u32(d, at + 92),
            export_table: ImageDataDirectory::spec_decode(d, at + 96),
            import_table: ImageDataDirectory::spec_decode(d, at + 104),
            resource_table: ImageDataDirectory::spec_decode(d, at + 112),
            exception_table: ImageDataDirectory::spec_decode(d, at + 120),
            certificate_table: ImageDataDirectory::spec_decode(d, at + 128),
            base_relocation_table: ImageDataDirectory::spec_decode(d, at + 136),
            debug: ImageDataDirectory::spec_decode(d, at + 144),
            architecture: ImageDataDirectory::spec_decode(d, at + 152),
            global_ptr: ImageDataDirectory::spec_decode(d, at + 160),
            tls_table: ImageDataDirectory::spec_decode(d, at + 168),
            load_config_table: ImageDataDirectory::spec_decode(d, at + 176),
            bound_import: ImageDataDirectory::spec_decode(d, at + 184),
            import_address_table: ImageDataDirectory::spec_decode(d, at + 192),
            delay_import_descriptor: ImageDataDirectory::spec_decode(d, at + 200),
            clr_runtime_header: ImageDataDirectory::spec_decode(d, at + 208),
            zero: ImageDataDirectory::spec_decode(d, at + 216),
        }
    }

    /// Decodes the 224-byte record at the reader's position.
    #[verifier::rlimit(100)]
    pub fn from_parser(r: &mut LEReader) -> (res: Result<OptionalHeader32, PeError>)
        ensures
            final(r).bytes() == old(r).bytes(),
            fits(old(r).bytes(), old(r).pos(), OPTIONAL_HEADER32_SIZE as int) ==> res == Ok::<OptionalHeader32, PeError>(
                OptionalHeader32::spec_decode(old(r).bytes(), old(r).pos()),
            ) && final(r).pos() == old(r).pos() + OPTIONAL_HEADER32_SIZE,
            !fits(old(r).bytes(), old(r).pos(), OPTIONAL_HEADER32_SIZE as int) ==> res == Err::<OptionalHeader32, PeError>(
                PeError::TruncatedInput,
            ),
    {
        let magic = r.read_u16()?;
        let major_linker_version = r.read_u8()?;
        let minor_linker_version = r.read_u8()?;
        let size_of_code = r.read_u32()?;
        let size_of_initialized_data = r.read_u32()?;
        let size_of_uninitialized_data = r.read_u32()?;
        let address_of_entry_point = r.read_u32()?;
        let base_of_code = r.read_u32()?;
        let base_of_data = r.read_u32()?;
        let image_base = r.read_u32()?;
        let section_alignment = r.read_u32()?;
        let file_alignement = r.read_u32()?;
        let major_operating_system_version = r.read_u16()?;
        let minor_operating_system_version = r.read_u16()?;
        let major_image_version = r.read_u16()?;
        let minor_image_version = r.read_u16()?;
        let major_subsystem_version = r.read_u16()?;
        let minor_subsystem_version = r.read_u16()?;
        let win32_version_value = r.read_u32()?;
        let size_of_image = r.read_u32()?;
        let size_of_headers = r.read_u32()?;
        let checksum = r.read_u32()?;
        let subsystem = r.read_u16()?;
        let dll_characteristics = r.read_u16()?;
        let size_of_stack_reserve = r.read_u32()?;
        let size_of_stack_commit = r.read_u32()?;
        let size_of_heap_reserve = r.read_u32()?;
        let size_of_heap_commit = r.read_u32()?;
        let loader_flags = r.read_u32()?;
        let number_of_rva_and_sizes = r.read_u32()?;
        let export_table = ImageDataDirectory::from_parser(r)?;
        let import_table = ImageDataDirectory::from_parser(r)?;
        let resource_table = ImageDataDirectory::from_parser(r)?;
        let exception_table = ImageDataDirectory::from_parser(r)?;
        let certificate_table = ImageDataDirectory::from_parser(r)?;
        let base_relocation_table = ImageDataDirectory::from_parser(r)?;
        let debug = ImageDataDirectory::from_parser(r)?;
        let architecture = ImageDataDirectory::from_parser(r)?;
        let global_ptr = ImageDataDirectory::from_parser(r)?;
        let tls_table = ImageDataDirectory::from_parser(r)?;
        let load_config_table = ImageDataDirectory::from_parser(r)?;
        let bound_import = ImageDataDirectory::from_parser(r)?;
        let import_address_table = ImageDataDirectory::from_parser(r)?;
        let delay_import_descriptor = ImageDataDirectory::from_parser(r)?;
        let clr_runtime_header = ImageDataDirectory::from_parser(r)?;
        let zero = ImageDataDirectory::from_parser(r)?;
        Ok(OptionalHeader32 {
            magic,
            major_linker_version,
            minor_linker_version,
            size_of_code,
            size_of_initialized_data,
            size_of_uninitialized_data,
            address_of_entry_point,
            base_of_code,
            base_of_data,
            image_base,
            section_alignment,
            file_alignement,
            major_operating_system_version,
            minor_operating_system_version,
            major_image_version,
            minor_image_version,
            major_subsystem_version,
            minor_subsystem_version,
            win32_version_value,
            size_of_image,
            size_of_headers,
            checksum,
            subsystem,
            dll_characteristics,
            size_of_stack_reserve,
            size_of_stack_commit,
            size_of_heap_reserve,
            size_of_heap_commit,
            loader_flags,
            number_of_rva_and_sizes,
            export_table,
            import_table,
            resource_table,
            exception_table,
            certificate_table,
            base_relocation_table,
            debug,
            architecture,
            global_ptr,
            tls_table,
            load_config_table,
            bound_import,
            import_address_table,
            delay_import_descriptor,
            clr_runtime_header,
            zero,
        })
    }
}

/// Optional Header of a 64-bit (PE32+) image.
#[derive(Clone, Copy, Debug, PartialEq, Eq, Structural)]
pub struct OptionalHeader64 {
    pub magic: u16,
    pub major_linker_version: u8,
    pub minor_linker_version: u8,
    pub size_of_code: u32,
    pub size_of_initialized_data: u32,
    pub size_of_uninitialized_data: u32,
    pub address_of_entry_point: u32,
    pub base_of_code: u32,
    pub image_base: u64,
    pub section_alignment: u32,
    pub file_alignement: u32,
    pub major_operating_system_version: u16,
    pub minor_operating_system_version: u16,
    pub major_image_version: u16,
    pub minor_image_version: u16,
    pub major_subsystem_version: u16,
    pub minor_subsystem_version: u16,
    pub win32_version_value: u32,
    pub size_of_image: u32,
    pub size_of_headers: u32,
    pub checksum: u32,
    pub subsystem: u16,
    pub dll_characteristics: u16,
    pub size_of_stack_reserve: u64,
    pub size_of_stack_commit: u64,
    pub size_of_heap_reserve: u64,
    pub size_of_heap_commit: u64,
    pub loader_flags: u32,
    pub number_of_rva_and_sizes: u32,
    pub export_table: ImageDataDirectory,
    pub import_table: ImageDataDirectory,
    pub resource_table: ImageDataDirectory,
    pub exception_table: ImageDataDirectory,
    pub certificate_table: ImageDataDirectory,
    pub base_relocation_table: ImageDataDirectory,
    pub debug: ImageDataDirectory,
    pub architecture: ImageDataDirectory,
    pub global_ptr: ImageDataDirectory,
    pub tls_table: ImageDataDirectory,
    pub load_config_table: ImageDataDirectory,
    pub bound_import: ImageDataDirectory,
    pub import_address_table: ImageDataDirectory,
    pub delay_import_descriptor: ImageDataDirectory,
    pub clr_runtime_header: ImageDataDirectory,
    pub zero: ImageDataDirectory,
}

impl OptionalHeader64 {
    /// A header with every field zero.
    pub fn new() -> (r: OptionalHeader64)
        ensures
            r.magic == 0,
            r.major_linker_version == 0,
            r.minor_linker_version == 0,
            r.size_of_code == 0,
            r.size_of_initialized_data == 0,
            r.size_of_uninitialized_data == 0,
            r.address_of_entry_point == 0,
            r.base_of_code == 0,
            r.image_base == 0,
            r.section_alignment == 0,
            r.file_alignement == 0,
            r.major_operating_system_version == 0,
            r.minor_operating_system_version == 0,
            r.major_image_version == 0,
            r.minor_image_version == 0,
            r.major_subsystem_version == 0,
            r.minor_subsystem_version == 0,
            r.win32_version_value == 0,
            r.size_of_image == 0,
            r.size_of_headers == 0,
            r.checksum == 0,
            r.subsystem == 0,
            r.dll_characteristics == 0,
            r.size_of_stack_reserve == 0,
            r.size_of_stack_commit == 0,
            r.size_of_heap_reserve == 0,
            r.size_of_heap_commit == 0,
            r.loader_flags == 0,
            r.number_of_rva_and_sizes == 0,
            r.export_table == ImageDataDirectory::spec_zero(),
            r.import_table == ImageDataDirectory::spec_zero(),
            r.resource_table == ImageDataDirectory::spec_zero(),
            r.exception_table == ImageDataDirectory::spec_zero(),
            r.certificate_table == ImageDataDirectory::spec_zero(),
            r.base_relocation_table == ImageDataDirectory::spec_zero(),
            r.debug == ImageDataDirectory::spec_zero(),
            r.architecture == ImageDataDirectory::spec_zero(),
            r.global_ptr == ImageDataDirectory::spec_zero(),
            r.tls_table == ImageDataDirectory::spec_zero(),
            r.load_config_table == ImageDataDirectory::spec_zero(),
            r.bound_import == ImageDataDirectory::spec_zero(),
            r.import_address_table == ImageDataDirectory::spec_zero(),
            r.delay_import_descriptor == ImageDataDirectory::spec_zero(),
            r.clr_runtime_header == ImageDataDirectory::spec_zero(),
            r.zero == ImageDataDirectory::spec_zero(),
    {
        OptionalHeader64 {
            magic: 0,
            major_linker_version: 0,
            minor_linker_version: 0,
            size_of_code: 0,
            size_of_initialized_data: 0,
            size_of_uninitialized_data: 0,
            address_of_entry_point: 0,
            base_of_code: 0,
            image_base: 0,
            section_alignment: 0,
            file_alignement: 0,
            major_operating_system_version: 0,
            minor_operating_system_version: 0,
            major_image_version: 0,
            minor_image_version: 0,
            major_subsystem_version: 0,
            minor_subsystem_version: 0,
            win32_version_value: 0,
            size_of_image: 0,
            size_of_headers: 0,
            checksum: 0,
            subsystem: 0,
            dll_characteristics: 0,
            size_of_stack_reserve: 0,
            size_of_stack_commit: 0,
            size_of_heap_reserve: 0,
            size_of_heap_commit: 0,
            loader_flags: 0,
            number_of_rva_and_sizes: 0,
            export_table: ImageDataDirectory::new(),
            import_table: ImageDataDirectory::new(),
            resource_table: ImageDataDirectory::new(),
            exception_table: ImageDataDirectory::new(),
            certificate_table: ImageDataDirectory::new(),
            base_relocation_table: ImageDataDirectory::new(),
            debug: ImageDataDirectory::new(),
            architecture: ImageDataDirectory::new(),
            global_ptr: ImageDataDirectory::new(),
            tls_table: ImageDataDirectory::new(),
            load_config_table: ImageDataDirectory::new(),
            bound_import: ImageDataDirectory::new(),
            import_address_table: ImageDataDirectory::new(),
            delay_import_descriptor: ImageDataDirectory::new(),
            clr_runtime_header: ImageDataDirectory::new(),
            zero: ImageDataDirectory::new(),
        }
    }

    /// The record as it is laid out at offset `at` of `d`.
    pub open spec fn spec_decode(d: Seq<u8>, at: int) -> OptionalHeader64 {
        OptionalHeader64 {
            magic: le_u16(d, at),
            major_linker_version: d[at + 2],
            minor_linker_version: d[at + 3],
            size_of_code: le_u32(d, at + 4),
            size_of_initialized_data: le_u32(d, at + 8),
            size_of_uninitialized_data: le_u32(d, at + 12),
            address_of_entry_point: le_u32(d, at + 16),
            base_of_code: le_u32(d, at + 20),
            image_base: le_u64(d, at + 24),
            section_alignment: le_u32(d, at + 32),
            file_alignement: le_u32(d, at + 36),
            major_operating_system_version: le_u16(d, at + 40),
            minor_operating_system_version: le_u16(d, at + 42),
            major_image_version: le_u16(d, at + 44),
            minor_image_version: le_u16(d, at + 46),
            major_subsystem_version: le_u16(d, at + 48),
            minor_subsystem_version: le_u16(d, at + 50),
            win32_version_value: le_u32(d, at + 52),
            size_of_image: le_u32(d, at + 56),
            size_of_headers: le_u32(d, at + 60),
            checksum: le_u32(d, at + 64),
            subsystem: le_u16(d, at + 68),
            dll_characteristics: le_u16(d, at + 70),
            size_of_stack_reserve: le_u64(d, at + 72),
            size_of_stack_commit: le_u64(d, at + 80),
            size_of_heap_reserve: le_u64(d, at + 88),
            size_of_heap_commit: le_u64(d, at + 96),
            loader_flags: le_u32(d, at + 104),
            number_of_rva_and_sizes: le_u32(d, at + 108),
            export_table: ImageDataDirectory::spec_decode(d, at + 112),
            import_table: ImageDataDirectory::spec_decode(d, at + 120),
            resource_table: ImageDataDirectory::spec_decode(d, at + 128),
            exception_table: ImageDataDirectory::spec_decode(d, at + 136),
            certificate_table: ImageDataDirectory::spec_decode(d, at + 144),
            base_relocation_table: ImageDataDirectory::spec_decode(d, at + 152),
            debug: ImageDataDirectory::spec_decode(d, at + 160),
            architecture: ImageDataDirectory::spec_decode(d, at + 168),
            global_ptr: ImageDataDirectory::spec_decode(d, at + 176),
            tls_table: ImageDataDirectory::spec_decode(d, at + 184),
            load_config_table: ImageDataDirectory::spec_decode(d, at + 192),
            bound_import: ImageDataDirectory::spec_decode(d, at + 200),
            import_address_table: ImageDataDirectory::spec_decode(d, at + 208),
            delay_import_descriptor: ImageDataDirectory::spec_decode(d, at + 216),
            clr_runtime_header: ImageDataDirectory::spec_decode(d, at + 224),
            zero: ImageDataDirectory::spec_decode(d, at + 232),
        }
    }

    /// Decodes the 240-byte record at the reader's position.
    #[verifier::rlimit(100)]
    pub fn from_parser(r: &mut LEReader) -> (res: Result<OptionalHeader64, PeError>)
        ensures
            final(r).bytes() == old(r).bytes(),
            fits(old(r).bytes(), old(r).pos(), OPTIONAL_HEADER64_SIZE as int) ==> res == Ok::<OptionalHeader64, PeError>(
                OptionalHeader64::spec_decode(old(r).bytes(), old(r).pos()),
            ) && final(r).pos() == old(r).pos() + OPTIONAL_HEADER64_SIZE,
            !fits(old(r).bytes(), old(r).pos(), OPTIONAL_HEADER64_SIZE as int) ==> res == Err::<OptionalHeader64, PeError>(
                PeError::TruncatedInput,
            ),
    {
        let magic = r.read_u16()?;
        let major_linker_version = r.read_u8()?;
        let minor_linker_version = r.read_u8()?;
        let size_of_code = r.read_u32()?;
        let size_of_initialized_data = r.read_u32()?;
        let size_of_uninitialized_data = r.read_u32()?;
        let address_of_entry_point = r.read_u32()?;
        let base_of_code = r.read_u32()?;
        let image_base = r.read_u64()?;
        let section_alignment = r.read_u32()?;
        let file_alignement = r.read_u32()?;
        let major_operating_system_version = r.read_u16()?;
        let minor_operating_system_version = r.read_u16()?;
        let major_image_version = r.read_u16()?;
        let minor_image_version = r.read_u16()?;
        let major_subsystem_version = r.read_u16()?;
        let minor_subsystem_version = r.read_u16()?;
        let win32_version_value = r.read_u32()?;
        let size_of_image = r.read_u32()?;
        let size_of_headers = r.read_u32()?;
        let checksum = r.read_u32()?;
        let subsystem = r.read_u16()?;
        let dll_characteristics = r.read_u16()?;
        let size_of_stack_reserve = r.read_u64()?;
        let size_of_stack_commit = r.read_u64()?;
        let size_of_heap_reserve = r.read_u64()?;
        let size_of_heap_commit = r.read_u64()?;
        let loader_flags = r.read_u32()?;
        let number_of_rva_and_sizes = r.read_u32()?;
        let export_table = ImageDataDirectory::from_parser(r)?;
        let import_table = ImageDataDirectory::from_parser(r)?;
        let resource_table = ImageDataDirectory::from_parser(r)?;
        let exception_table = ImageDataDirectory::from_parser(r)?;
        let certificate_table = ImageDataDirectory::from_parser(r)?;
        let base_relocation_table = ImageDataDirectory::from_parser(r)?;
        let debug = ImageDataDirectory::from_parser(r)?;
        let architecture = ImageDataDirectory::from_parser(r)?;
        let global_ptr = ImageDataDirectory::from_parser(r)?;
        let tls_table = ImageDataDirectory::from_parser(r)?;
        let load_config_table = ImageDataDirectory::from_parser(r)?;
        let bound_import = ImageDataDirectory::from_parser(r)?;
        let import_address_table = ImageDataDirectory::from_parser(r)?;
        let delay_import_descriptor = ImageDataDirectory::from_parser(r)?;
        let clr_runtime_header = ImageDataDirectory::from_parser(r)?;
        let zero = ImageDataDirectory::from_parser(r)?;
        Ok(OptionalHeader64 {
            magic,
            major_linker_version,
            minor_linker_version,
            size_of_code,
            size_of_initialized_data,
            size_of_uninitialized_data,
            address_of_entry_point,
            base_of_code,
            image_base,
            section_alignment,
            file_alignement,
            major_operating_system_version,
            minor_operating_system_version,
            major_image_version,
            minor_image_version,
            major_subsystem_version,
            minor_subsystem_version,
            win32_version_value,
            size_of_image,
            size_of_headers,
            checksum,
            subsystem,
            dll_characteristics,
            size_of_stack_reserve,
            size_of_stack_commit,
            size_of_heap_reserve,
            size_of_heap_commit,
            loader_flags,
            number_of_rva_and_sizes,
            export_table,
            import_table,
            resource_table,
            exception_table,
            certificate_table,
            base_relocation_table,
            debug,
            architecture,
            global_ptr,
            tls_table,
            load_config_table,
            bound_import,
            import_address_table,
            delay_import_descriptor,
            clr_runtime_header,
            zero,
        })
    }
}

/// "MZ", read as a little-endian `u16`.
pub const DOS_MAGIC: u16 = 0x5a4d;

/// "PE\0\0", read as a little-endian `u32`.
pub const NT_PE_SIGNATURE: u32 = 0x4550;

/// Optional Header magic of a 32-bit image.
pub const PE_FORMAT_32_MAGIC: u16 = 0x10b;

/// Optional Header magic of a 64-bit image.
pub const PE_FORMAT_64_MAGIC: u16 = 0x20b;

/// Offset of `e_lfanew` in the DOS header.
pub const E_LFANEW_OFFSET: u64 = 0x3c;

/// Size of the DOS header.
pub const DOS_HEADER_SIZE: u64 = 64;

/// The legacy MS-DOS header at the start of every image.
#[derive(Clone, Copy, Debug)]
pub struct DOSHeader {
    pub e_magic: u16,
    pub e_cblp: u16,
    pub e_cp: u16,
    pub e_crlc: u16,
    pub e_cparhdr: u16,
    pub e_minalloc: u16,
    pub e_maxalloc: u16,
    pub e_ss: u16,
    pub e_sp: u16,
    pub e_csum: u16,
    pub e_ip: u16,
    pub e_cs: u16,
    pub e_lfarlc: u16,
    pub e_ovno: u16,
    pub e_res: [u16; 4],
    pub e_oemid: u16,
    pub e_oeminfo: u16,
    pub e_res2: [u16; 10],
    pub e_lfanew: u32,
}

/// Whether the first two bytes of `d` are "MZ".
pub open spec fn has_dos_magic(d: Seq<u8>) -> bool {
    fits(d, 0, 2) && le_u16(d, 0) == DOS_MAGIC
}

/// What decoding the DOS header of `d` fails with, if anything.
pub open spec fn dos_error(d: Seq<u8>) -> Option<PeError> {
    if !fits(d, 0, 2) {
        Some(PeError::TruncatedInput)
    } else if le_u16(d, 0) != DOS_MAGIC {
        Some(PeError::InvalidDosMagic)
    } else if !fits(d, 0, DOS_HEADER_SIZE as int) {
        Some(PeError::TruncatedInput)
    } else {
        None
    }
}

impl DOSHeader {
    /// Whether every field holds the bytes at its place in the first 64 bytes of `d`.
    pub open spec fn decoded_from(&self, d: Seq<u8>) -> bool {
        &&& self.e_magic == le_u16(d, 0)
        &&& self.e_cblp == le_u16(d, 2)
        &&& self.e_cp == le_u16(d, 4)
        &&& self.e_crlc == le_u16(d, 6)
        &&& self.e_cparhdr == le_u16(d, 8)
        &&& self.e_minalloc == le_u16(d, 10)
        &&& self.e_maxalloc == le_u16(d, 12)
        &&& self.e_ss == le_u16(d, 14)
        &&& self.e_sp == le_u16(d, 16)
        &&& self.e_csum == le_u16(d, 18)
        &&& self.e_ip == le_u16(d, 20)
        &&& self.e_cs == le_u16(d, 22)
        &&& self.e_lfarlc == le_u16(d, 24)
        &&& self.e_ovno == le_u16(d, 26)
        &&& self.e_res@ == Seq::new(4, |i: int| le_u16(d, 28 + 2 * i))
        &&& self.e_oemid == le_u16(d, 36)
        &&& self.e_oeminfo == le_u16(d, 38)
        &&& self.e_res2@ == Seq::new(10, |i: int| le_u16(d, 40 + 2 * i))
        &&& self.e_lfanew == le_u32(d, 60)
    }

    /// A header with every field zero.
    pub fn new() -> (r: DOSHeader)
        ensures
            r.e_magic == 0,
            r.e_cblp == 0,
            r.e_cp == 0,
            r.e_crlc == 0,
            r.e_cparhdr == 0,
            r.e_minalloc == 0,
            r.e_maxalloc == 0,
            r.e_ss == 0,
            r.e_sp == 0,
            r.e_csum == 0,
            r.e_ip == 0,
            r.e_cs == 0,
            r.e_lfarlc == 0,
            r.e_ovno == 0,
            r.e_oemid == 0,
            r.e_oeminfo == 0,
            r.e_lfanew == 0,
            r.e_res@ == Seq::new(4, |i: int| 0u16),
            r.e_res2@ == Seq::new(10, |i: int| 0u16),
    {
        let h = DOSHeader {
            e_magic: 0,
            e_cblp: 0,
            e_cp: 0,
            e_crlc: 0,
            e_cparhdr: 0,
            e_minalloc: 0,
            e_maxalloc: 0,
            e_ss: 0,
            e_sp: 0,
            e_csum: 0,
            e_ip: 0,
            e_cs: 0,
            e_lfarlc: 0,
            e_ovno: 0,
            e_res: [0; 4],
            e_oemid: 0,
            e_oeminfo: 0,
            e_res2: [0; 10],
            e_lfanew: 0,
        };
        assert(h.e_res@ =~= Seq::new(4, |i: int| 0u16));
        assert(h.e_res2@ =~= Seq::new(10, |i: int| 0u16));
        h
    }

    /// Decodes the DOS header at the start of the buffer, whatever the reader's position:
    /// the magic is checked before any other byte is read.
    pub fn from_parser(r: &mut LEReader) -> (res: Result<DOSHeader, PeError>)
        ensures
            final(r).bytes() == old(r).bytes(),
            match res {
                Ok(h) => dos_error(old(r).bytes()) is None && h.decoded_from(old(r).bytes())
                    && final(r).pos() == DOS_HEADER_SIZE,
                Err(e) => dos_error(old(r).bytes()) == Some(e) && (e == PeError::InvalidDosMagic
                    ==> final(r).pos() == 2),
            },
    {
        r.set_position(0);
        let e_magic = r.read_u16()?;
        if e_magic != DOS_MAGIC {
            return Err(PeError::InvalidDosMagic);
        }
        let e_cblp = r.read_u16()?;
        let e_cp = r.read_u16()?;
        let e_crlc = r.read_u16()?;
        let e_cparhdr = r.read_u16()?;
        let e_minalloc = r.read_u16()?;
        let e_maxalloc = r.read_u16()?;
        let e_ss = r.read_u16()?;
        let e_sp = r.read_u16()?;
        let e_csum = r.read_u16()?;
        let e_ip = r.read_u16()?;
        let e_cs = r.read_u16()?;
        let e_lfarlc = r.read_u16()?;
        let e_ovno = r.read_u16()?;
        let res0 = r.read_u16()?;
        let res1 = r.read_u16()?;
        let res2 = r.read_u16()?;
        let res3 = r.read_u16()?;
        let e_oemid = r.read_u16()?;
        let e_oeminfo = r.read_u16()?;
        let mut e_res2: [u16; 10] = [0; 10];
        let mut i: usize = 0;
        while i < 10
            invariant
                0 <= i <= 10,
                r.bytes() == old(r).bytes(),
                fits(r.bytes(), 0, 40),
                le_u16(r.bytes(), 0) == DOS_MAGIC,
                r.pos() == 40 + 2 * i,
                forall|k: int| 0 <= k < i ==> e_res2@[k] == le_u16(r.bytes(), 40 + 2 * k),
            decreases 10 - i,
        {
            let v = r.read_u16()?;
            e_res2[i] = v;
            i = i + 1;
        }
        let e_lfanew = r.read_u32()?;
        let h = DOSHeader {
            e_magic,
            e_cblp,
            e_cp,
            e_crlc,
            e_cparhdr,
            e_minalloc,
            e_maxalloc,
            e_ss,
            e_sp,
            e_csum,
            e_ip,
            e_cs,
            e_lfarlc,
            e_ovno,
            e_res: [res0, res1, res2, res3],
            e_oemid,
            e_oeminfo,
            e_res2,
            e_lfanew,
        };
        assert(h.e_res@ =~= Seq::new(4, |i: int| le_u16(r.bytes(), 28 + 2 * i)));
        assert(h.e_res2@ =~= Seq::new(10, |i: int| le_u16(r.bytes(), 40 + 2 * i)));
        Ok(h)
    }
}

/// The PE signature followed by the COFF header.
#[derive(Clone, Copy, Debug, PartialEq, Eq, Structural)]
pub struct NTHeader {
    pub signature: u32,
    pub coff_header: COFFHeader,
}

/// What decoding the NT header at `at` fails with, if anything.
pub open spec fn nt_error(d: Seq<u8>, at: int) -> Option<PeError> {
    if !fits(d, at, 4) {
        Some(PeError::TruncatedInput)
    } else if le_u32(d, at) != NT_PE_SIGNATURE {
        Some(PeError::InvalidPeSignature)
    } else if !fits(d, at + 4, COFF_HEADER_SIZE as int) {
        Some(PeError::TruncatedInput)
    } else {
        None
    }
}

impl NTHeader {
    /// A header with every field zero.
    pub fn new() -> (r: NTHeader)
        ensures
            r.signature == 0,
            r.coff_header.machine == 0,
            r.coff_header.number_of_sections == 0,
            r.coff_header.time_date_stamp == 0,
            r.coff_header.pointer_to_symbol_table == 0,
            r.coff_header.number_of_symbols == 0,
            r.coff_header.size_of_optional_header == 0,
            r.coff_header.characteristics == 0,
    {
        NTHeader { signature: 0, coff_header: COFFHeader::new() }
    }

    pub open spec fn spec_decode(d: Seq<u8>, at: int) -> NTHeader {
        NTHeader { signature: le_u32(d, at), coff_header: COFFHeader::spec_decode(d, at + 4) }
    }

    /// Decodes the signature and COFF header at the reader's position.
    pub fn from_parser(r: &mut LEReader) -> (res: Result<NTHeader, PeError>)
        ensures
            final(r).bytes() == old(r).bytes(),
            match res {
                Ok(h) => nt_error(old(r).bytes(), old(r).pos()) is None && h == NTHeader::spec_decode(
                    old(r).bytes(),
                    old(r).pos(),
                ) && final(r).pos() == old(r).pos() + 4 + COFF_HEADER_SIZE,
                Err(e) => nt_error(old(r).bytes(), old(r).pos()) == Some(e),
            },
    {
        let signature = r.read_u32()?;
        if signature != NT_PE_SIGNATURE {
            return Err(PeError::InvalidPeSignature);
        }
        let coff_header = COFFHeader::from_parser(r)?;
        Ok(NTHeader { signature, coff_header })
    }
}

/// The Optional Header, in the variant that its magic selects.
#[derive(Clone, Copy, Debug, PartialEq, Eq, Structural)]
pub enum OptionalHeader {
    PE32(OptionalHeader32),
    PE64(OptionalHeader64),
}

/// What decoding the Optional Header at `at` fails with, if anything.
pub open spec fn optional_error(d: Seq<u8>, at: int) -> Option<PeError> {
    if !fits(d, at, 2) {
        Some(PeError::TruncatedInput)
    } else if le_u16(d, at) == PE_FORMAT_32_MAGIC {
        if fits(d, at, OPTIONAL_HEADER32_SIZE as int) {
            None
        } else {
            Some(PeError::TruncatedInput)
        }
    } else if le_u16(d, at) == PE_FORMAT_64_MAGIC {
        if fits(d, at, OPTIONAL_HEADER64_SIZE as int) {
            None
        } else {
            Some(PeError::TruncatedInput)
        }
    } else {
        Some(PeError::UnknownOptionalHeaderMagic)
    }
}

impl OptionalHeader {
    /// The variant that the magic at `at` selects, decoded from `at`.
    pub open spec fn spec_decode(d: Seq<u8>, at: int) -> OptionalHeader {
        if le_u16(d, at) == PE_FORMAT_32_MAGIC {
            OptionalHeader::PE32(OptionalHeader32::spec_decode(d, at))
        } else {
            OptionalHeader::PE64(OptionalHeader64::spec_decode(d, at))
        }
    }

    /// The number of bytes that the variant occupies.
    pub open spec fn spec_size(self) -> int {
        match self {
            OptionalHeader::PE32(_) => OPTIONAL_HEADER32_SIZE as int,
            OptionalHeader::PE64(_) => OPTIONAL_HEADER64_SIZE as int,
        }
    }

    /// The import table's directory entry.
    pub open spec fn spec_import_table(self) -> ImageDataDirectory {
        match self {
            OptionalHeader::PE32(h) => h.import_table,
            OptionalHeader::PE64(h) => h.import_table,
        }
    }

    /// Looks at the magic without consuming it, then decodes the variant it selects.
    pub fn from_parser(r: &mut LEReader) -> (res: Result<OptionalHeader, PeError>)
        ensures
            final(r).bytes() == old(r).bytes(),
            match res {
                Ok(h) => optional_error(old(r).bytes(), old(r).pos()) is None && h
                    == OptionalHeader::spec_decode(old(r).bytes(), old(r).pos()) && final(r).pos()
                    == old(r).pos() + h.spec_size(),
                Err(e) => optional_error(old(r).bytes(), old(r).pos()) == Some(e),
            },
    {
        let start = r.position();
        let magic = r.read_u16()?;
        r.set_position(start);
        if magic == PE_FORMAT_32_MAGIC {
            let h = OptionalHeader32::from_parser(r)?;
            Ok(OptionalHeader::PE32(h))
        } else if magic == PE_FORMAT_64_MAGIC {
            let h = OptionalHeader64::from_parser(r)?;
            Ok(OptionalHeader::PE64(h))
        } else {
            Err(PeError::UnknownOptionalHeaderMagic)
        }
    }
}

/// The three headers that precede the section table.
#[derive(Clone, Copy, Debug)]
pub struct PEHeader {
    pub dos: DOSHeader,
    pub nt: NTHeader,
    pub optional: OptionalHeader,
}

/// File offset of the NT header.
pub open spec fn nt_offset(d: Seq<u8>) -> int {
    le_u32(d, E_LFANEW_OFFSET as int) as int
}

/// File offset of the Optional Header.
pub open spec fn optional_offset(d: Seq<u8>) -> int {
    nt_offset(d) + 4 + COFF_HEADER_SIZE
}

/// File offset of the section table: the Optional Header's offset plus the size that the
/// COFF header declares for it, whichever variant was decoded.
pub open spec fn section_table_offset(d: Seq<u8>) -> int {
    optional_offset(d) + le_u16(d, nt_offset(d) + 4 + 16)
}

/// What decoding the headers of `d` fails with, if anything.
pub open spec fn header_error(d: Seq<u8>) -> Option<PeError> {
    if dos_error(d) is Some {
        dos_error(d)
    } else if nt_error(d, nt_offset(d)) is Some {
        nt_error(d, nt_offset(d))
    } else {
        optional_error(d, optional_offset(d))
    }
}

impl PEHeader {
    /// Whether the three headers are those that `d` holds.
    pub open spec fn decoded_from(&self, d: Seq<u8>) -> bool {
        &&& self.dos.decoded_from(d)
        &&& self.nt == NTHeader::spec_decode(d, nt_offset(d))
        &&& self.optional == OptionalHeader::spec_decode(d, optional_offset(d))
    }

    /// Decodes the DOS, NT and Optional headers and leaves the reader at the section
    /// table, which starts where the declared Optional Header size says, whether that is
    /// past or before the end of the decoded variant.
    pub fn from_parser(r: &mut LEReader) -> (res: Result<PEHeader, PeError>)
        ensures
            final(r).bytes() == old(r).bytes(),
            match res {
                Ok(h) => header_error(old(r).bytes()) is None && h.decoded_from(old(r).bytes())
                    && final(r).pos() == section_table_offset(old(r).bytes()),
                Err(e) => header_error(old(r).bytes()) == Some(e),
            },
    {
        let dos = DOSHeader::from_parser(r)?;
        r.set_position(dos.e_lfanew as u64);
        let nt = NTHeader::from_parser(r)?;
        let start = r.position();
        let optional = OptionalHeader::from_parser(r)?;
        r.set_position(start + nt.coff_header.size_of_optional_header as u64);
        Ok(PEHeader { dos, nt, optional })
    }
}

/// The Optional Header magic selects the variant: 0x10B a 32-bit header with a 4-byte
/// `image_base`, 0x20B a 64-bit header with an 8-byte `image_base`, and any other value
/// fails with `UnknownOptionalHeaderMagic`.
pub proof fn lemma_optional_header_variant(d: Seq<u8>, at: int)
    requires
        fits(d, at, 2),
    ensures
        le_u16(d, at) == PE_FORMAT_32_MAGIC && fits(d, at, OPTIONAL_HEADER32_SIZE as int) ==> {
            &&& optional_error(d, at) is None
            &&& OptionalHeader::spec_decode(d, at) matches OptionalHeader::PE32(h)
            &&& h.image_base == le_u32(d, at + 28)
            &&& OptionalHeader::spec_decode(d, at).spec_size() == OPTIONAL_HEADER32_SIZE
        },
        le_u16(d, at) == PE_FORMAT_64_MAGIC && fits(d, at, OPTIONAL_HEADER64_SIZE as int) ==> {
            &&& optional_error(d, at) is None
            &&& OptionalHeader::spec_decode(d, at) matches OptionalHeader::PE64(h)
            &&& h.image_base == le_u64(d, at + 24)
            &&& OptionalHeader::spec_decode(d, at).spec_size() == OPTIONAL_HEADER64_SIZE
        },
        le_u16(d, at) != PE_FORMAT_32_MAGIC && le_u16(d, at) != PE_FORMAT_64_MAGIC ==> optional_error(
            d,
            at,
        ) == Some(PeError::UnknownOptionalHeaderMagic),
{
}

/// Machine types of the COFF header.
#[allow(non_camel_case_types)]
#[derive(Clone, Copy, Debug, PartialEq, Eq, Structural)]
pub enum MachineType {
    IMAGE_FILE_MACHINE_UNKNOWN,
    IMAGE_FILE_MACHINE_ALPHA,
    IMAGE_FILE_MACHINE_ALPHA64,
    IMAGE_FILE_MACHINE_AM33,
    IMAGE_FILE_MACHINE_AMD64,
    IMAGE_FILE_MACHINE_ARM,
    IMAGE_FILE_MACHINE_ARM64,
    IMAGE_FILE_MACHINE_ARM64EC,
    IMAGE_FILE_MACHINE_ARM64X,
    IMAGE_FILE_MACHINE_ARMNT,
    IMAGE_FILE_MACHINE_EBC,
    IMAGE_FILE_MACHINE_I386,
    IMAGE_FILE_MACHINE_IA64,
    IMAGE_FILE_MACHINE_LOONGARCH32,
    IMAGE_FILE_MACHINE_LOONGARCH64,
    IMAGE_FILE_MACHINE_M32R,
    IMAGE_FILE_MACHINE_MIPS16,
    IMAGE_FILE_MACHINE_MIPSFPU,
    IMAGE_FILE_MACHINE_MIPSFPU16,
    IMAGE_FILE_MACHINE_POWERPC,
    IMAGE_FILE_MACHINE_POWERPCFP,
    IMAGE_FILE_MACHINE_R3000BE,
    IMAGE_FILE_MACHINE_R3000,
    IMAGE_FILE_MACHINE_R4000,
    IMAGE_FILE_MACHINE_R10000,
    IMAGE_FILE_MACHINE_RISCV32,
    IMAGE_FILE_MACHINE_RISCV64,
    IMAGE_FILE_MACHINE_RISCV128,
    IMAGE_FILE_MACHINE_SH3,
    IMAGE_FILE_MACHINE_SH3DSP,
    IMAGE_FILE_MACHINE_SH4,
    IMAGE_FILE_MACHINE_SH5,
    IMAGE_FILE_MACHINE_THUMB,
    IMAGE_FILE_MACHINE_WCEMIPSV2,
}

impl MachineType {
    /// The value that stands for this machine in the COFF header.
    pub open spec fn spec_code(self) -> u16 {
        match self {
            MachineType::IMAGE_FILE_MACHINE_UNKNOWN => 0x0,
            MachineType::IMAGE_FILE_MACHINE_ALPHA => 0x184,
            MachineType::IMAGE_FILE_MACHINE_ALPHA64 => 0x284,
            MachineType::IMAGE_FILE_MACHINE_AM33 => 0x1d3,
            MachineType::IMAGE_FILE_MACHINE_AMD64 => 0x8664,
            MachineType::IMAGE_FILE_MACHINE_ARM => 0x1c0,
            MachineType::IMAGE_FILE_MACHINE_ARM64 => 0xaa64,
            MachineType::IMAGE_FILE_MACHINE_ARM64EC => 0xa641,
            MachineType::IMAGE_FILE_MACHINE_ARM64X => 0xa64e,
            MachineType::IMAGE_FILE_MACHINE_ARMNT => 0x1c4,
            MachineType::IMAGE_FILE_MACHINE_EBC => 0xebc,
            MachineType::IMAGE_FILE_MACHINE_I386 => 0x14c,
            MachineType::IMAGE_FILE_MACHINE_IA64 => 0x200,
            MachineType::IMAGE_FILE_MACHINE_LOONGARCH32 => 0x6232,
            MachineType::IMAGE_FILE_MACHINE_LOONGARCH64 => 0x6264,
            MachineType::IMAGE_FILE_MACHINE_M32R => 0x9041,
            MachineType::IMAGE_FILE_MACHINE_MIPS16 => 0x266,
            MachineType::IMAGE_FILE_MACHINE_MIPSFPU => 0x366,
            MachineType::IMAGE_FILE_MACHINE_MIPSFPU16 => 0x466,
            MachineType::IMAGE_FILE_MACHINE_POWERPC => 0x1f0,
            MachineType::IMAGE_FILE_MACHINE_POWERPCFP => 0x1f1,
            MachineType::IMAGE_FILE_MACHINE_R3000BE => 0x160,
            MachineType::IMAGE_FILE_MACHINE_R3000 => 0x162,
            MachineType::IMAGE_FILE_MACHINE_R4000 => 0x166,
            MachineType::IMAGE_FILE_MACHINE_R10000 => 0x168,
            MachineType::IMAGE_FILE_MACHINE_RISCV32 => 0x5032,
            MachineType::IMAGE_FILE_MACHINE_RISCV64 => 0x5064,
            MachineType::IMAGE_FILE_MACHINE_RISCV128 => 0x5128,
            MachineType::IMAGE_FILE_MACHINE_SH3 => 0x1a2,
            MachineType::IMAGE_FILE_MACHINE_SH3DSP => 0x1a3,
            MachineType::IMAGE_FILE_MACHINE_SH4 => 0x1a6,
            MachineType::IMAGE_FILE_MACHINE_SH5 => 0x1a8,
            MachineType::IMAGE_FILE_MACHINE_THUMB => 0x1c2,
            MachineType::IMAGE_FILE_MACHINE_WCEMIPSV2 => 0x169,
        }
    }

    /// The value that stands for this machine in the COFF header.
    pub fn code(&self) -> (r: u16)
        ensures
            r == self.spec_code(),
    {
        match self {
            MachineType::IMAGE_FILE_MACHINE_UNKNOWN => 0x0,
            MachineType::IMAGE_FILE_MACHINE_ALPHA => 0x184,
            MachineType::IMAGE_FILE_MACHINE_ALPHA64 => 0x284,
            MachineType::IMAGE_FILE_MACHINE_AM33 => 0x1d3,
            MachineType::IMAGE_FILE_MACHINE_AMD64 => 0x8664,
            MachineType::IMAGE_FILE_MACHINE_ARM => 0x1c0,
            MachineType::IMAGE_FILE_MACHINE_ARM64 => 0xaa64,
            MachineType::IMAGE_FILE_MACHINE_ARM64EC => 0xa641,
            MachineType::IMAGE_FILE_MACHINE_ARM64X => 0xa64e,
            MachineType::IMAGE_FILE_MACHINE_ARMNT => 0x1c4,
            MachineType::IMAGE_FILE_MACHINE_EBC => 0xebc,
            MachineType::IMAGE_FILE_MACHINE_I386 => 0x14c,
            MachineType::IMAGE_FILE_MACHINE_IA64 => 0x200,
            MachineType::IMAGE_FILE_MACHINE_LOONGARCH32 => 0x6232,
            MachineType::IMAGE_FILE_MACHINE_LOONGARCH64 => 0x6264,
            MachineType::IMAGE_FILE_MACHINE_M32R => 0x9041,
            MachineType::IMAGE_FILE_MACHINE_MIPS16 => 0x266,
            MachineType::IMAGE_FILE_MACHINE_MIPSFPU => 0x366,
            MachineType::IMAGE_FILE_MACHINE_MIPSFPU16 => 0x466,
            MachineType::IMAGE_FILE_MACHINE_POWERPC => 0x1f0,
            MachineType::IMAGE_FILE_MACHINE_POWERPCFP => 0x1f1,
            MachineType::IMAGE_FILE_MACHINE_R3000BE => 0x160,
            MachineType::IMAGE_FILE_MACHINE_R3000 => 0x162,
            MachineType::IMAGE_FILE_MACHINE_R4000 => 0x166,
            MachineType::IMAGE_FILE_MACHINE_R10000 => 0x168,
            MachineType::IMAGE_FILE_MACHINE_RISCV32 => 0x5032,
            MachineType::IMAGE_FILE_MACHINE_RISCV64 => 0x5064,
            MachineType::IMAGE_FILE_MACHINE_RISCV128 => 0x5128,
            MachineType::IMAGE_FILE_MACHINE_SH3 => 0x1a2,
            MachineType::IMAGE_FILE_MACHINE_SH3DSP => 0x1a3,
            MachineType::IMAGE_FILE_MACHINE_SH4 => 0x1a6,
            MachineType::IMAGE_FILE_MACHINE_SH5 => 0x1a8,
            MachineType::IMAGE_FILE_MACHINE_THUMB => 0x1c2,
            MachineType::IMAGE_FILE_MACHINE_WCEMIPSV2 => 0x169,
        }
    }

    /// The machine type that a COFF `machine` value stands for, if any.
    pub fn from_code(code: u16) -> (r: Option<MachineType>)
        ensures
            r matches Some(t) ==> t.spec_code() == code,
            r is None ==> forall|t: MachineType| #[trigger] t.spec_code() != code,
    {
        match code {
            0x0 => Some(MachineType::IMAGE_FILE_MACHINE_UNKNOWN),
            0x184 => Some(MachineType::IMAGE_FILE_MACHINE_ALPHA),
            0x284 => Some(MachineType::IMAGE_FILE_MACHINE_ALPHA64),
            0x1d3 => Some(MachineType::IMAGE_FILE_MACHINE_AM33),
            0x8664 => Some(MachineType::IMAGE_FILE_MACHINE_AMD64),
            0x1c0 => Some(MachineType::IMAGE_FILE_MACHINE_ARM),
            0xaa64 => Some(MachineType::IMAGE_FILE_MACHINE_ARM64),
            0xa641 => Some(MachineType::IMAGE_FILE_MACHINE_ARM64EC),
            0xa64e => Some(MachineType::IMAGE_FILE_MACHINE_ARM64X),
            0x1c4 => Some(MachineType::IMAGE_FILE_MACHINE_ARMNT),
            0xebc => Some(MachineType::IMAGE_FILE_MACHINE_EBC),
            0x14c => Some(MachineType::IMAGE_FILE_MACHINE_I386),
            0x200 => Some(MachineType::IMAGE_FILE_MACHINE_IA64),
            0x6232 => Some(MachineType::IMAGE_FILE_MACHINE_LOONGARCH32),
            0x6264 => Some(MachineType::IMAGE_FILE_MACHINE_LOONGARCH64),
            0x9041 => Some(MachineType::IMAGE_FILE_MACHINE_M32R),
            0x266 => Some(MachineType::IMAGE_FILE_MACHINE_MIPS16),
            0x366 => Some(MachineType::IMAGE_FILE_MACHINE_MIPSFPU),
            0x466 => Some(MachineType::IMAGE_FILE_MACHINE_MIPSFPU16),
            0x1f0 => Some(MachineType::IMAGE_FILE_MACHINE_POWERPC),
            0x1f1 => Some(MachineType::IMAGE_FILE_MACHINE_POWERPCFP),
            0x160 => Some(MachineType::IMAGE_FILE_MACHINE_R3000BE),
            0x162 => Some(MachineType::IMAGE_FILE_MACHINE_R3000),
            0x166 => Some(MachineType::IMAGE_FILE_MACHINE_R4000),
            0x168 => Some(MachineType::IMAGE_FILE_MACHINE_R10000),
            0x5032 => Some(MachineType::IMAGE_FILE_MACHINE_RISCV32),
            0x5064 => Some(MachineType::IMAGE_FILE_MACHINE_RISCV64),
            0x5128 => Some(MachineType::IMAGE_FILE_MACHINE_RISCV128),
            0x1a2 => Some(MachineType::IMAGE_FILE_MACHINE_SH3),
            0x1a3 => Some(MachineType::IMAGE_FILE_MACHINE_SH3DSP),
            0x1a6 => Some(MachineType::IMAGE_FILE_MACHINE_SH4),
            0x1a8 => Some(MachineType::IMAGE_FILE_MACHINE_SH5),
            0x1c2 => Some(MachineType::IMAGE_FILE_MACHINE_THUMB),
            0x169 => Some(MachineType::IMAGE_FILE_MACHINE_WCEMIPSV2),
            _ => None,
        }
    }
}

/// Flags of the COFF header `characteristics` field.
#[allow(non_camel_case_types)]
#[derive(Clone, Copy, Debug, PartialEq, Eq, Structural)]
pub enum CharacteristicsFlag {
    IMAGE_FILE_RELOCS_STRIPPED,
    IMAGE_FILE_EXECUTABLE_IMAGE,
    IMAGE_FILE_LINE_NUMS_STRIPPED,
    IMAGE_FILE_LOCAL_SYMS_STRIPPED,
    IMAGE_FILE_AGGRESSIVE_WS_TRIM,
    IMAGE_FILE_LARGE_ADDRESS_AWARE,
    IMAGE_FILE_UNUSED_FLAG,
    IMAGE_FILE_BYTES_REVERSED_LO,
    IMAGE_FILE_32BIT_MACHINE,
    IMAGE_FILE_DEBUG_STRIPPED,
    IMAGE_FILE_REMOVABLE_RUN_FROM_SWAP,
    IMAGE_FILE_NET_RUN_FROM_SWAP,
    IMAGE_FILE_SYSTEM,
    IMAGE_FILE_DLL,
    IMAGE_FILE_UP_SYSTEM_ONLY,
    IMAGE_FILE_BYTES_REVERSED_HI,
}

impl CharacteristicsFlag {
    /// The bit of this flag in `characteristics`.
    pub open spec fn spec_bit(self) -> u16 {
        match self {
            CharacteristicsFlag::IMAGE_FILE_RELOCS_STRIPPED => 0x1,
            CharacteristicsFlag::IMAGE_FILE_EXECUTABLE_IMAGE => 0x2,
            CharacteristicsFlag::IMAGE_FILE_LINE_NUMS_STRIPPED => 0x4,
            CharacteristicsFlag::IMAGE_FILE_LOCAL_SYMS_STRIPPED => 0x8,
            CharacteristicsFlag::IMAGE_FILE_AGGRESSIVE_WS_TRIM => 0x10,
            CharacteristicsFlag::IMAGE_FILE_LARGE_ADDRESS_AWARE => 0x20,
            CharacteristicsFlag::IMAGE_FILE_UNUSED_FLAG => 0x40,
            CharacteristicsFlag::IMAGE_FILE_BYTES_REVERSED_LO => 0x80,
            CharacteristicsFlag::IMAGE_FILE_32BIT_MACHINE => 0x100,
            CharacteristicsFlag::IMAGE_FILE_DEBUG_STRIPPED => 0x200,
            CharacteristicsFlag::IMAGE_FILE_REMOVABLE_RUN_FROM_SWAP => 0x400,
            CharacteristicsFlag::IMAGE_FILE_NET_RUN_FROM_SWAP => 0x800,
            CharacteristicsFlag::IMAGE_FILE_SYSTEM => 0x1000,
            CharacteristicsFlag::IMAGE_FILE_DLL => 0x2000,
            CharacteristicsFlag::IMAGE_FILE_UP_SYSTEM_ONLY => 0x4000,
            CharacteristicsFlag::IMAGE_FILE_BYTES_REVERSED_HI => 0x8000,
        }
    }

    /// The bit of this flag in `characteristics`.
    pub fn bit(&self) -> (r: u16)
        ensures
            r == self.spec_bit(),
    {
        match self {
            CharacteristicsFlag::IMAGE_FILE_RELOCS_STRIPPED => 0x1,
            CharacteristicsFlag::IMAGE_FILE_EXECUTABLE_IMAGE => 0x2,
            CharacteristicsFlag::IMAGE_FILE_LINE_NUMS_STRIPPED => 0x4,
            CharacteristicsFlag::IMAGE_FILE_LOCAL_SYMS_STRIPPED => 0x8,
            CharacteristicsFlag::IMAGE_FILE_AGGRESSIVE_WS_TRIM => 0x10,
            CharacteristicsFlag::IMAGE_FILE_LARGE_ADDRESS_AWARE => 0x20,
            CharacteristicsFlag::IMAGE_FILE_UNUSED_FLAG => 0x40,
            CharacteristicsFlag::IMAGE_FILE_BYTES_REVERSED_LO => 0x80,
            CharacteristicsFlag::IMAGE_FILE_32BIT_MACHINE => 0x100,
            CharacteristicsFlag::IMAGE_FILE_DEBUG_STRIPPED => 0x200,
            CharacteristicsFlag::IMAGE_FILE_REMOVABLE_RUN_FROM_SWAP => 0x400,
            CharacteristicsFlag::IMAGE_FILE_NET_RUN_FROM_SWAP => 0x800,
            CharacteristicsFlag::IMAGE_FILE_SYSTEM => 0x1000,
            CharacteristicsFlag::IMAGE_FILE_DLL => 0x2000,
            CharacteristicsFlag::IMAGE_FILE_UP_SYSTEM_ONLY => 0x4000,
            CharacteristicsFlag::IMAGE_FILE_BYTES_REVERSED_HI => 0x8000,
        }
    }
}

impl COFFHeader {
    /// Whether `characteristics` has the flag's bit set.
    pub fn has_characteristic(&self, flag: CharacteristicsFlag) -> (r: bool)
        ensures
            r == (self.characteristics & flag.spec_bit() != 0),
    {
        self.characteristics & flag.bit() != 0
    }

    /// The header as a dump: each field with its value in hexadecimal.
    pub fn dump(&self) -> (r: Dump)
        ensures
            r.spec_label() == "COFF Header"@,
            r.spec_fields().len() == 7,
            r.spec_fields()[0].value@ == hex_text(self.machine as u64),
            r.spec_fields()[1].value@ == hex_text(self.number_of_sections as u64),
            r.spec_fields()[2].value@ == hex_text(self.time_date_stamp as u64),
            r.spec_fields()[3].value@ == hex_text(self.pointer_to_symbol_table as u64),
            r.spec_fields()[4].value@ == hex_text(self.number_of_symbols as u64),
            r.spec_fields()[5].value@ == hex_text(self.size_of_optional_header as u64),
            r.spec_fields()[6].value@ == hex_text(self.characteristics as u64),
            r.spec_children().len() == 0,
    {
        let mut d = Dump::new("COFF Header");
        d.push_field("Machine", to_hex_text(self.machine as u64), None);
        d.push_field("NumberOfSections", to_hex_text(self.number_of_sections as u64), None);
        d.push_field("TimeDateStamp", to_hex_text(self.time_date_stamp as u64), None);
        d.push_field("PointerToSymbolTable", to_hex_text(self.pointer_to_symbol_table as u64), None);
        d.push_field("NumberOfSymbols", to_hex_text(self.number_of_symbols as u64), None);
        d.push_field("SizeOfOptionalHeader", to_hex_text(self.size_of_optional_header as u64), None);
        d.push_field("Characteristics", to_hex_text(self.characteristics as u64), None);
        d
    }
}

} // verus!
