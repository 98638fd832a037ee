pub mod error;
pub mod reader;
pub mod strings;
pub mod text;
pub mod headers;
pub mod section;
pub mod import;
pub mod image;
pub mod exec;
pub mod elf;
pub mod format;
pub mod dump;
pub mod disasm;
pub mod x86_64;
pub mod char_utils;
pub mod args;
