use pedump::char_utils::is_digit;
use pedump::disasm::is_padding_instruction;
use pedump::dump::{Dump, DumpField, DumpRawData};
use pedump::elf::{parse_elf, ELF};
use pedump::error::PeError;
use pedump::exec::{guess_exectype, ExecType};
use pedump::format::format_u32_as_ctime;
use pedump::reader::{BEReader, LEReader};
use pedump::x86_64::{is_type_qualifier, is_x86_64_register, starts_with_type_qualifier};

#[test]
fn little_endian_reads() {
    let b = vec![0x01u8, 0x02, 0x03, 0x04, 0x05, 0x06, 0x07, 0x08, 0xff, 0xfe];
    let mut r = LEReader::new(&b);
    assert_eq!(r.read_u16(), Ok(0x0201));
    assert_eq!(r.read_u32(), Ok(0x0605_0403));
    r.set_position(0);
    assert_eq!(r.read_u64(), Ok(0x0807_0605_0403_0201));
    assert_eq!(r.read_i8(), Ok(-1));
    assert_eq!(r.read_u8(), Ok(0xfe));
    assert_eq!(r.read_u8(), Err(PeError::TruncatedInput));
    r.set_position(8);
    assert_eq!(r.read_i16(), Ok(-257));
    r.set_position(8);
    assert_eq!(r.read_i32(), Err(PeError::TruncatedInput));
    assert_eq!(r.position(), 8);
    r.set_position(100);
    assert_eq!(r.read_u8(), Err(PeError::TruncatedInput));
    let neg = vec![0xffu8; 8];
    let mut r = LEReader::new(&neg);
    assert_eq!(r.read_i64(), Ok(-1));
    r.set_position(4);
    assert_eq!(r.read_i32(), Ok(-1));
}

#[test]
fn big_endian_reads() {
    let b = vec![0x01u8, 0x02, 0x03, 0x04, 0x05, 0x06, 0x07, 0x08];
    let mut r = BEReader::new(&b);
    assert_eq!(r.read_u16(), Ok(0x0102));
    assert_eq!(r.read_u32(), Ok(0x0304_0506));
    assert_eq!(r.read_i16(), Ok(0x0708));
    r.set_position(0);
    assert_eq!(r.read_u64(), Ok(0x0102_0304_0506_0708));
    assert_eq!(r.read_u8(), Err(PeError::TruncatedInput));
    r.set_position(0);
    assert_eq!(r.read_i8(), Ok(1));
    r.set_position(0);
    assert_eq!(r.read_i32(), Ok(0x0102_0304));
    r.set_position(0);
    assert_eq!(r.read_i64(), Ok(0x0102_0304_0506_0708));
}

#[test]
fn registers_are_recognised() {
    for name in ["ax", "AL", "r8", "eax", "RAX", "rip", "r10", "r15", "r8d", "r9w", "spl", "dil", "bpl", "xmm", "ymm", "xmm0", "zmm9", "r10d", "r15b", "r8dx"] {
        assert!(is_x86_64_register(name), "{}", name);
    }
    for name in ["", "a", "r7", "eip", "rxx", "r16", "r16d", "xmm10", "r11q", "rax0", "foo", "mmx0", "r8x"] {
        assert!(!is_x86_64_register(name), "{}", name);
    }
}

#[test]
fn type_qualifiers() {
    assert!(is_type_qualifier("byte"));
    assert!(is_type_qualifier("qword"));
    assert!(!is_type_qualifier("bytes"));
    assert!(!is_type_qualifier("ptr"));
    assert!(starts_with_type_qualifier("byte ptr [rax]"));
    assert!(starts_with_type_qualifier("dword"));
    assert!(starts_with_type_qualifier("qwordx"));
    assert!(!starts_with_type_qualifier("byt"));
    assert!(!starts_with_type_qualifier("xword"));
}

#[test]
fn leading_digit() {
    assert!(is_digit("0x10"));
    assert!(is_digit("9"));
    assert!(!is_digit("x9"));
    assert!(!is_digit(""));
}

#[test]
fn padding_instructions() {
    assert!(is_padding_instruction(Some("nop"), None));
    assert!(is_padding_instruction(Some("nop"), Some("dword ptr [rax]")));
    assert!(is_padding_instruction(Some("int3"), Some("")));
    assert!(is_padding_instruction(Some("ud2"), None));
    assert!(is_padding_instruction(Some("hlt"), None));
    assert!(is_padding_instruction(Some("add"), Some("byte ptr [rax], al")));
    assert!(is_padding_instruction(Some("mov"), Some("eax, eax")));
    assert!(is_padding_instruction(Some("sub"), Some("rsp, 0")));
    assert!(!is_padding_instruction(Some("add"), Some("byte ptr [rax], bl")));
    assert!(!is_padding_instruction(Some("mov"), Some("eax, ebx")));
    assert!(!is_padding_instruction(Some("sub"), Some("rsp, 8")));
    assert!(!is_padding_instruction(Some("ret"), None));
    assert!(!is_padding_instruction(None, Some("eax, eax")));
}

#[test]
fn executable_type_from_leading_bytes() {
    assert_eq!(guess_exectype(&vec![0x7f, b'E', b'L', b'F', 2, 1, 1, 0]), Ok(ExecType::ELF));
    assert_eq!(guess_exectype(&vec![b'M', b'Z', 0x90, 0, 3, 0, 0, 0]), Ok(ExecType::PE));
    assert_eq!(guess_exectype(&vec![0u8; 8]), Err(PeError::UnknownExecutableType));
    assert_eq!(guess_exectype(&vec![b'M', b'Z']), Err(PeError::TruncatedInput));
}

#[test]
fn elf_stub() {
    assert_eq!(parse_elf("a.out"), Ok(ELF {}));
}

#[test]
fn coff_time_stamps_as_text() {
    assert_eq!(format_u32_as_ctime(0), "01/01/1970 00:00");
    assert_eq!(format_u32_as_ctime(1_000_000_000), "09/09/2001 01:46");
    assert_eq!(format_u32_as_ctime(u32::MAX), "07/02/2106 06:28");
}

#[test]
fn dump_tree() {
    let mut d = Dump::new("Root");
    assert_eq!(d.label(), "Root");
    assert_eq!(d.fields_align(), 1);
    d.push_field("Key", "1".to_string(), None);
    d.push_field("LongerKey", "2".to_string(), Some("note"));
    assert_eq!(d.fields_align(), 10);
    assert_eq!(d.iter_fields().len(), 2);
    assert_eq!(d.iter_fields()[1].comment, Some("note"));
    d.push_child(Dump::new("Child"));
    assert_eq!(d.iter_children()[0].label(), "Child");
    d.set_raw_data(DumpRawData::Code(vec!["nop".to_string()]));
    assert!(matches!(d.raw_data(), DumpRawData::Code(c) if c.len() == 1));
    let f = DumpField::new("K", "V".to_string(), None);
    assert_eq!(f.key, "K");
    assert_eq!(f.value, "V");
}

#[test]
fn hexadecimal_text() {
    assert_eq!(pedump::format::to_hex_text(0), "0x0");
    assert_eq!(pedump::format::to_hex_text(0xff), "0xff");
    assert_eq!(pedump::format::to_hex_text(0x1000), "0x1000");
    assert_eq!(pedump::format::to_hex_text(u64::MAX), "0xffffffffffffffff");
}
