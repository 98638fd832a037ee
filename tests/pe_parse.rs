use pedump::error::PeError;
use pedump::headers::{OptionalHeader, MachineType, CharacteristicsFlag};
use pedump::image::{check_pe_extension, parse_pe_bytes, PEArchitecture, PE};
use pedump::import::{HintNameEntry, ImportLookupEntry, ImageImportDescriptor};
use pedump::reader::LEReader;
use pedump::section::{SectionHeader, Section};

fn put16(b: &mut Vec<u8>, at: usize, v: u16) {
    b[at..at + 2].copy_from_slice(&v.to_le_bytes());
}

fn put32(b: &mut Vec<u8>, at: usize, v: u32) {
    b[at..at + 4].copy_from_slice(&v.to_le_bytes());
}

fn put64(b: &mut Vec<u8>, at: usize, v: u64) {
    b[at..at + 8].copy_from_slice(&v.to_le_bytes());
}

const LFANEW: usize = 0x80;
const OPT: usize = LFANEW + 24;

/// A PE32 image with one ".text" section (RVA 0x1000, file offset 0x200) and no imports.
fn pe32_fixture() -> Vec<u8> {
    let mut b = vec![0u8; 0x400];
    b[0] = b'M';
    b[1] = b'Z';
    put32(&mut b, 0x3c, LFANEW as u32);
    b[LFANEW..LFANEW + 4].copy_from_slice(b"PE\0\0");
    put16(&mut b, LFANEW + 4, 0x14c);
    put16(&mut b, LFANEW + 6, 1);
    put32(&mut b, LFANEW + 8, 0x5f5e_1000);
    put16(&mut b, LFANEW + 20, 224);
    put16(&mut b, LFANEW + 22, 0x0102);
    put16(&mut b, OPT, 0x10b);
    put32(&mut b, OPT + 16, 0x1000);
    put32(&mut b, OPT + 28, 0x0040_0000);
    put32(&mut b, OPT + 92, 16);
    let sec = OPT + 224;
    b[sec..sec + 5].copy_from_slice(b".text");
    put32(&mut b, sec + 8, 0x1000);
    put32(&mut b, sec + 12, 0x1000);
    put32(&mut b, sec + 16, 0x200);
    put32(&mut b, sec + 20, 0x200);
    put32(&mut b, sec + 36, 0x6000_0020);
    b
}

/// The fixture with an import table for KERNEL32.dll: ExitProcess by name, ordinal 5.
fn pe32_with_imports() -> Vec<u8> {
    let mut b = pe32_fixture();
    put32(&mut b, OPT + 104, 0x1000);
    put32(&mut b, OPT + 108, 40);
    put32(&mut b, 0x200, 0x1040);
    put32(&mut b, 0x200 + 12, 0x1080);
    put32(&mut b, 0x200 + 16, 0x1040);
    put32(&mut b, 0x240, 0x1090);
    put32(&mut b, 0x244, 0x8000_0005);
    b[0x280..0x28c].copy_from_slice(b"KERNEL32.dll");
    put16(&mut b, 0x290, 1);
    b[0x292..0x29d].copy_from_slice(b"ExitProcess");
    b
}

fn parse(b: Vec<u8>) -> Result<PE, PeError> {
    parse_pe_bytes(b)
}

#[test]
fn minimal_pe32_parses_with_one_text_section() {
    let pe = parse(pe32_fixture()).unwrap();
    assert_eq!(pe.get_number_of_sections(), 1);
    assert_eq!(pe.sections.len(), 1);
    let text = pe.get_section(".text").unwrap();
    assert_eq!(text.header.name, ".text");
    assert_eq!(text.header.virtual_address, 0x1000);
    assert_eq!(text.header.ptr_to_raw_data, 0x200);
    assert!(pe.get_section(".data").is_none());
    assert!(pe.is_32_bits());
    assert_eq!(pe.get_architecture(), PEArchitecture::PE32);
    assert_eq!(pe.get_size_of_optional_header(), 224);
    assert_eq!(pe.get_dos_header().e_lfanew, 0x80);
    assert_eq!(pe.get_nt_header().coff_header.machine, 0x14c);
}

#[test]
fn every_other_dos_magic_is_rejected() {
    for magic in [0x0000u16, 0x4d5a, 0x5a4e, 0xffff, 0x5b4d] {
        let mut b = pe32_fixture();
        put16(&mut b, 0, magic);
        assert_eq!(parse(b).unwrap_err(), PeError::InvalidDosMagic);
    }
    assert_eq!(parse(vec![b'Z', b'M']).unwrap_err(), PeError::InvalidDosMagic);
}

#[test]
fn short_buffers_are_truncated_input() {
    assert_eq!(parse(vec![]).unwrap_err(), PeError::TruncatedInput);
    assert_eq!(parse(vec![b'M']).unwrap_err(), PeError::TruncatedInput);
    assert_eq!(parse(vec![b'M', b'Z', 0, 0]).unwrap_err(), PeError::TruncatedInput);
    let b = pe32_fixture();
    assert_eq!(parse(b[..OPT + 100].to_vec()).unwrap_err(), PeError::TruncatedInput);
}

#[test]
fn bad_pe_signature_is_rejected() {
    let mut b = pe32_fixture();
    b[LFANEW + 1] = b'X';
    assert_eq!(parse(b).unwrap_err(), PeError::InvalidPeSignature);
}

#[test]
fn rva_translation_inside_and_outside_sections() {
    let pe = parse(pe32_fixture()).unwrap();
    assert_eq!(pe.convert_rva_to_file_offset(0x1000), Some(0x200));
    assert_eq!(pe.convert_rva_to_file_offset(0x1010), Some(0x210));
    assert_eq!(pe.convert_rva_to_file_offset(0x1fff), Some(0x11ff));
    assert_eq!(pe.convert_rva_to_file_offset(0x2000), None);
    assert_eq!(pe.convert_rva_to_file_offset(0x0fff), None);
    assert_eq!(pe.convert_rva_to_file_offset(0), None);
    assert_eq!(pe.convert_rva_to_file_offset(u32::MAX), None);
}

#[test]
fn absent_import_directory_gives_empty_table() {
    let pe = parse(pe32_fixture()).unwrap();
    let idd = pe.get_import_table_idd();
    assert_eq!((idd.virtual_address, idd.size), (0, 0));
    assert!(pe.imports.descriptors.is_empty());
    assert!(pe.imports.dll_names.is_empty());
    assert!(pe.imports.lookup_tables.is_empty());
}

#[test]
fn untranslatable_import_directory_gives_empty_table() {
    let mut b = pe32_fixture();
    put32(&mut b, OPT + 104, 0x9000);
    let pe = parse(b).unwrap();
    assert!(pe.imports.descriptors.is_empty());
}

#[test]
fn import_table_is_walked() {
    let pe = parse(pe32_with_imports()).unwrap();
    assert_eq!(pe.imports.descriptors.len(), 1);
    assert_eq!(pe.imports.descriptors[0].name_rva, 0x1080);
    assert_eq!(pe.imports.dll_names, vec!["KERNEL32.dll".to_string()]);
    let ilt = &pe.imports.lookup_tables[0];
    assert_eq!(ilt.len(), 2);
    assert!(!ilt[0].by_ordinal);
    assert_eq!(ilt[0].hint_name_table_rva, 0x1090);
    assert!(ilt[1].by_ordinal);
    assert_eq!(ilt[1].ordinal_number, 5);
    let hints = &pe.imports.hint_names[0];
    let by_name = hints[0].as_ref().unwrap();
    assert_eq!(by_name.hint, 1);
    assert_eq!(by_name.name, "ExitProcess");
    assert!(!by_name.pad);
    assert!(hints[1].is_none());
}

#[test]
fn dangling_dll_name_is_reported() {
    let mut b = pe32_with_imports();
    put32(&mut b, 0x200 + 12, 0x7000);
    assert_eq!(parse(b).unwrap_err(), PeError::DanglingReference);
}

#[test]
fn dangling_hint_name_is_reported() {
    let mut b = pe32_with_imports();
    put32(&mut b, 0x240, 0x7000);
    assert_eq!(parse(b).unwrap_err(), PeError::DanglingReference);
}

#[test]
fn invalid_dll_name_is_reported() {
    let mut b = pe32_with_imports();
    b[0x280] = 0xff;
    assert_eq!(parse(b).unwrap_err(), PeError::InvalidName);
}

#[test]
fn descriptor_scan_stops_at_the_cap() {
    let mut b = pe32_fixture();
    b.resize(0x200 + 20 * 300, 0);
    put32(&mut b, OPT + 104, 0x1000);
    let sec = OPT + 224;
    put32(&mut b, sec + 8, 0x4000);
    put32(&mut b, sec + 16, 0x4000);
    for i in 0..300 {
        put32(&mut b, 0x200 + 20 * i + 4, 1);
    }
    assert_eq!(parse(b).unwrap_err(), PeError::ResourceLimitExceeded);
}

#[test]
fn descriptor_scan_running_off_the_end_is_truncated() {
    let mut b = pe32_fixture();
    put32(&mut b, OPT + 104, 0x1000);
    for i in 0..((0x400 - 0x200) / 20) {
        put32(&mut b, 0x200 + 20 * i + 4, 1);
    }
    assert_eq!(parse(b).unwrap_err(), PeError::TruncatedInput);
}

#[test]
fn hint_name_padding_moves_the_cursor() {
    // "ab" with its terminator is 3 bytes: one padding byte follows.
    let odd = vec![7u8, 0, b'a', b'b', 0, 0xee, 0xaa];
    let mut r = LEReader::new(&odd);
    let e = HintNameEntry::from_parser(&mut r).unwrap();
    assert_eq!(e.hint, 7);
    assert_eq!(e.name, "ab");
    assert!(e.pad);
    assert_eq!(r.position(), 6);
    // "abc" with its terminator is 4 bytes: no padding.
    let even = vec![1u8, 2, b'a', b'b', b'c', 0, 0xaa];
    let mut r = LEReader::new(&even);
    let e = HintNameEntry::from_parser(&mut r).unwrap();
    assert_eq!(e.hint, 0x0201);
    assert_eq!(e.name, "abc");
    assert!(!e.pad);
    assert_eq!(r.position(), 6);
}

#[test]
fn hint_name_without_terminator_is_truncated() {
    let b = vec![1u8, 0, b'a', b'b'];
    let mut r = LEReader::new(&b);
    assert_eq!(HintNameEntry::from_parser(&mut r).unwrap_err(), PeError::TruncatedInput);
}

#[test]
fn optional_header_magic_selects_the_variant() {
    let pe = parse(pe32_fixture()).unwrap();
    match pe.get_optional_header() {
        OptionalHeader::PE32(h) => assert_eq!(h.image_base, 0x0040_0000u32),
        OptionalHeader::PE64(_) => panic!("expected a 32-bit header"),
    }

    let mut b = pe32_fixture();
    put16(&mut b, OPT, 0x20b);
    put16(&mut b, LFANEW + 20, 240);
    put64(&mut b, OPT + 24, 0x1_4000_0000);
    // the section table moves 16 bytes further
    let old = OPT + 224;
    let rec: Vec<u8> = b[old..old + 40].to_vec();
    b[old + 16..old + 56].copy_from_slice(&rec);
    let pe = parse(b).unwrap();
    assert!(!pe.is_32_bits());
    assert_eq!(pe.get_architecture(), PEArchitecture::PE64);
    match pe.get_optional_header() {
        OptionalHeader::PE64(h) => assert_eq!(h.image_base, 0x1_4000_0000u64),
        OptionalHeader::PE32(_) => panic!("expected a 64-bit header"),
    }
    assert!(pe.get_section(".text").is_some());

    let mut b = pe32_fixture();
    put16(&mut b, OPT, 0x107);
    assert_eq!(parse(b).unwrap_err(), PeError::UnknownOptionalHeaderMagic);
}

#[test]
fn empty_section_record_is_the_sentinel() {
    let mut rec = vec![0u8; 40];
    rec[8] = 0x55;
    rec.push(0x99);
    let mut r = LEReader::new(&rec);
    let h = SectionHeader::from_parser(&mut r).unwrap();
    assert_eq!(h.name, "empty");
    assert_eq!(h.virtual_size, 0);
    assert_eq!(r.position(), 40);
}

#[test]
fn string_table_section_name_is_unsupported() {
    let mut rec = vec![0u8; 40];
    rec[..4].copy_from_slice(b"/123");
    let mut r = LEReader::new(&rec);
    assert_eq!(SectionHeader::from_parser(&mut r).unwrap_err(), PeError::UnsupportedFeature);

    let mut b = pe32_fixture();
    b[OPT + 224] = b'/';
    assert_eq!(parse(b).unwrap_err(), PeError::UnsupportedFeature);
}

#[test]
fn section_name_stops_at_the_first_nul() {
    let mut rec = vec![0u8; 40];
    rec[..8].copy_from_slice(b".ab\0cd\0\0");
    put32(&mut rec, 12, 0x3000);
    let mut r = LEReader::new(&rec);
    let h = SectionHeader::from_parser(&mut r).unwrap();
    assert_eq!(h.name, ".ab");
    assert_eq!(h.virtual_address, 0x3000);
    assert_eq!(r.position(), 40);

    let mut rec = vec![0u8; 40];
    rec[..8].copy_from_slice(b".textbss");
    let mut r = LEReader::new(&rec);
    assert_eq!(SectionHeader::from_parser(&mut r).unwrap().name, ".textbss");
}

#[test]
fn duplicate_section_names_last_one_wins() {
    let mut b = pe32_fixture();
    put16(&mut b, LFANEW + 6, 2);
    let sec = OPT + 224;
    let rec: Vec<u8> = b[sec..sec + 40].to_vec();
    b[sec + 40..sec + 80].copy_from_slice(&rec);
    put32(&mut b, sec + 40 + 12, 0x5000);
    let pe = parse(b).unwrap();
    assert_eq!(pe.sections.len(), 2);
    assert_eq!(pe.get_section(".text").unwrap().header.virtual_address, 0x5000);
    assert_eq!(pe.convert_rva_to_file_offset(0x1004), Some(0x204));
    assert_eq!(pe.convert_rva_to_file_offset(0x5004), Some(0x204));
}

#[test]
fn declared_optional_header_size_places_the_section_table() {
    let mut b = pe32_fixture();
    put16(&mut b, LFANEW + 20, 232);
    let sec = OPT + 224;
    let rec: Vec<u8> = b[sec..sec + 40].to_vec();
    b[sec + 8..sec + 48].copy_from_slice(&rec);
    let pe = parse(b).unwrap();
    assert!(pe.get_section(".text").is_some());
}

#[test]
fn section_data_is_the_raw_range() {
    let mut b = pe32_fixture();
    b[0x200] = 0xcc;
    b[0x3ff] = 0x90;
    let pe = parse(b).unwrap();
    let text = pe.get_section(".text").unwrap().clone();
    let data = pe.section_data(&text).unwrap();
    assert_eq!(data.len(), 0x200);
    assert_eq!(data[0], 0xcc);
    assert_eq!(data[0x1ff], 0x90);
    let mut far = text.clone();
    far.header.ptr_to_raw_data = 0x300;
    assert!(pe.section_data(&far).is_none());
}

#[test]
fn pe_path_extension_check() {
    assert_eq!(check_pe_extension("C:/x/app.exe"), Ok(()));
    assert_eq!(check_pe_extension("lib.dll"), Ok(()));
    assert_eq!(check_pe_extension("notes.txt"), Err(PeError::NotAPeFile));
    assert_eq!(check_pe_extension("exe"), Err(PeError::NotAPeFile));
}

#[test]
fn lookup_entry_decoding_by_width() {
    let e = ImportLookupEntry::from_raw(0x8000_1234, true);
    assert!(e.by_ordinal);
    assert_eq!(e.ordinal_number, 0x1234);
    let e = ImportLookupEntry::from_raw(0xffff_1234, false);
    assert!(!e.by_ordinal);
    assert_eq!(e.hint_name_table_rva, 0x7fff_1234);
    let e = ImportLookupEntry::from_raw(0x8000_0000_0000_0010, false);
    assert!(e.by_ordinal);
    assert_eq!(e.ordinal_number, 0x10);
    let e = ImportLookupEntry::new();
    assert!(!e.by_ordinal);
}

#[test]
fn descriptor_zero_check() {
    let mut d = ImageImportDescriptor::new();
    assert!(d.is_zeroed_out());
    d.forwarder_chain = 1;
    assert!(!d.is_zeroed_out());
}

#[test]
fn coff_header_helpers() {
    let pe = parse(pe32_fixture()).unwrap();
    let coff = pe.get_nt_header().coff_header;
    assert_eq!(MachineType::from_code(coff.machine), Some(MachineType::IMAGE_FILE_MACHINE_I386));
    assert_eq!(MachineType::from_code(0x1234), None);
    assert_eq!(MachineType::IMAGE_FILE_MACHINE_AMD64.code(), 0x8664);
    assert!(coff.has_characteristic(CharacteristicsFlag::IMAGE_FILE_EXECUTABLE_IMAGE));
    assert!(coff.has_characteristic(CharacteristicsFlag::IMAGE_FILE_32BIT_MACHINE));
    assert!(!coff.has_characteristic(CharacteristicsFlag::IMAGE_FILE_DLL));
    let d = coff.dump();
    assert_eq!(d.label(), "COFF Header");
    assert_eq!(d.iter_fields()[0].value, "0x14c");
    assert_eq!(d.iter_fields()[1].value, "0x1");
    assert_eq!(d.iter_fields()[5].value, "0xe0");
    assert_eq!(d.fields_align(), "PointerToSymbolTable".len() + 1);
}

#[test]
fn empty_image_defaults() {
    let pe = PE::new();
    assert!(pe.sections.is_empty());
    assert!(!pe.is_32_bits());
    let s = Section::new(SectionHeader::new());
    assert_eq!(s.header.name, "");
}

#[test]
fn descriptor_scan_leaves_the_reader_after_the_terminator() {
    let mut b = vec![0u8; 20 * 4];
    put32(&mut b, 12, 0x1080);
    put32(&mut b, 20 + 12, 0x1090);
    let mut r = LEReader::new(&b);
    let v = pedump::import::parse_import_descriptors(&mut r).unwrap();
    assert_eq!(v.len(), 2);
    assert_eq!(r.position(), 60);
}

#[test]
fn descriptor_scan_cap_reads_no_further() {
    let mut b = vec![0u8; 20 * 300];
    for i in 0..300 {
        put32(&mut b, 20 * i, 1);
    }
    let mut r = LEReader::new(&b);
    assert_eq!(
        pedump::import::parse_import_descriptors(&mut r).unwrap_err(),
        PeError::ResourceLimitExceeded
    );
    assert_eq!(r.position(), 20 * 256);
}

#[test]
fn bad_dos_magic_reads_only_two_bytes() {
    let b = vec![b'Z', b'M', 0, 0, 0, 0];
    let mut r = LEReader::new(&b);
    assert!(pedump::headers::DOSHeader::from_parser(&mut r).is_err());
    assert_eq!(r.position(), 2);
}

#[test]
fn no_descriptors_leave_the_reader_in_place() {
    let pe = parse(pe32_fixture()).unwrap();
    let mut r = LEReader::new(&pe.data);
    r.set_position(7);
    let names = pedump::import::parse_dll_names(&mut r, &pe.sections, &Vec::new()).unwrap();
    assert!(names.is_empty());
    assert_eq!(r.position(), 7);
    let t = pedump::import::parse_imports(&mut r, &pe.sections, pe.get_import_table_idd(), true).unwrap();
    assert!(t.descriptors.is_empty());
    assert_eq!(r.position(), 7);
}
