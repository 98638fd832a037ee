use vstd::prelude::*;
use vstd::string::StringSliceAdditionalSpecFns;

use crate::char_utils::is_digit_byte;
use crate::text::{same_text, starts_with_text};

verus! {

/// Whether the text is one of the operand-size keywords `byte`, `word`, `dword`, `qword`.
pub fn is_type_qualifier(s: &str) -> (r: bool)
    ensures
        r == (s.spec_bytes() == "byte".spec_bytes() || s.spec_bytes() == "word".spec_bytes()
            || s.spec_bytes() == "dword".spec_bytes() || s.spec_bytes() == "qword".spec_bytes()),
{
    same_text(s, "byte") || same_text(s, "word") || same_text(s, "dword") || same_text(s, "qword")
}

/// Whether `s` begins with the bytes of `p`.
pub open spec fn begins_with(s: &str, p: &str) -> bool {
    p.spec_bytes().len() <= s.spec_bytes().len() && s.spec_bytes().subrange(
        0,
        p.spec_bytes().len() as int,
    ) == p.spec_bytes()
}

/// Whether the text begins with an operand-size keyword.
pub fn starts_with_type_qualifier(s: &str) -> (r: bool)
    ensures
        r == (begins_with(s, "byte") || begins_with(s, "word") || begins_with(s, "dword")
            || begins_with(s, "qword")),
{
    starts_with_text(s, "byte") || starts_with_text(s, "word") || starts_with_text(s, "dword")
        || starts_with_text(s, "qword")
}

/// The byte with ASCII upper-case letters turned to lower case, as
/// `u8::to_ascii_lowercase` does.
pub open spec fn ascii_lower(b: u8) -> u8 {
    if 'A' as u8 <= b <= 'Z' as u8 {
        (b + 0x20) as u8
    } else {
        b
    }
}

fn to_ascii_lower(b: u8) -> (r: u8)
    ensures
        r == ascii_lower(b),
{
    if 'A' as u8 <= b && b <= 'Z' as u8 {
        b + 0x20
    } else {
        b
    }
}

/// Whether the two-byte `l` spells `a b`.
pub open spec fn w2(l: Seq<u8>, a: char, b: char) -> bool {
    l[0] == a as u8 && l[1] == b as u8
}

/// Whether the three-byte `l` spells `a b c`.
pub open spec fn w3(l: Seq<u8>, a: char, b: char, c: char) -> bool {
    l[0] == a as u8 && l[1] == b as u8 && l[2] == c as u8
}

/// Whether the byte is an operand-size suffix of a numbered register (`d`, `w`, `b`).
pub open spec fn is_size_suffix(b: u8) -> bool {
    b == 'd' as u8 || b == 'w' as u8 || b == 'b' as u8
}

/// Whether the lower-case bytes `l` name an x86-64 register, as this library knows them:
/// the 16- and 8-bit legacy registers, `r8`/`r9`, the 32- and 64-bit general registers
/// and `rip`, `r10`-`r15` with or without a `d`/`w`/`b` suffix (or a trailing NUL),
/// `r8`/`r9` with a suffix (and any fourth byte), `spl`/`sil`, `bpl`/`bil`/`dpl`/`dil`,
/// and `xmm`/`ymm`/`zmm` alone or with one digit.
pub open spec fn is_register_name(l: Seq<u8>) -> bool {
    if l.len() == 2 {
        w2(l, 'a', 'x')
        || w2(l, 'b', 'x')
        || w2(l, 'c', 'x')
        || w2(l, 'd', 'x')
        || w2(l, 's', 'i')
        || w2(l, 'd', 'i')
        || w2(l, 'b', 'p')
        || w2(l, 's', 'p')
        || w2(l, 'a', 'l')
        || w2(l, 'a', 'h')
        || w2(l, 'b', 'l')
        || w2(l, 'b', 'h')
        || w2(l, 'c', 'l')
        || w2(l, 'c', 'h')
        || w2(l, 'd', 'l')
        || w2(l, 'd', 'h')
        || w2(l, 'r', '8')
        || w2(l, 'r', '9')
    } else if l.len() == 3 {
        w3(l, 'e', 'a', 'x')
        || w3(l, 'e', 'b', 'x')
        || w3(l, 'e', 'c', 'x')
        || w3(l, 'e', 'd', 'x')
        || w3(l, 'e', 's', 'i')
        || w3(l, 'e', 'd', 'i')
        || w3(l, 'e', 'b', 'p')
        || w3(l, 'e', 's', 'p')
        || w3(l, 'r', 'a', 'x')
        || w3(l, 'r', 'b', 'x')
        || w3(l, 'r', 'c', 'x')
        || w3(l, 'r', 'd', 'x')
        || w3(l, 'r', 's', 'i')
        || w3(l, 'r', 'd', 'i')
        || w3(l, 'r', 'b', 'p')
        || w3(l, 'r', 's', 'p')
        || w3(l, 'r', 'i', 'p')
        || w3(l, 'r', '1', '0')
        || w3(l, 'r', '1', '1')
        || w3(l, 'r', '1', '2')
        || w3(l, 'r', '1', '3')
        || w3(l, 'r', '1', '4')
        || w3(l, 'r', '1', '5')
        || w3(l, 's', 'p', 'l')
        || w3(l, 's', 'i', 'l')
        || l[0] == 'r' as u8 && (l[1] == '8' as u8 || l[1] == '9' as u8) && is_size_suffix(l[2])
        || (l[0] == 'b' as u8 || l[0] == 'd' as u8) && l[2] == 'l' as u8 && (l[1] == 'p' as u8
            || l[1] == 'i' as u8)
        || (l[0] == 'x' as u8 || l[0] == 'y' as u8 || l[0] == 'z' as u8) && l[1] == 'm' as u8
            && l[2] == 'm' as u8
    } else if l.len() == 4 {
        ||| l[0] == 'r' as u8 && (l[1] == '8' as u8 || l[1] == '9' as u8) && is_size_suffix(l[2])
        ||| l[0] == 'r' as u8 && l[1] == '1' as u8 && '0' as u8 <= l[2] <= '5' as u8 && (l[3] == 0
            || is_size_suffix(l[3]))
        ||| (l[0] == 'x' as u8 || l[0] == 'y' as u8 || l[0] == 'z' as u8) && l[1] == 'm' as u8
            && l[2] == 'm' as u8 && is_digit_byte(l[3])
    } else {
        false
    }
}

fn is_w2(l: &Vec<u8>, a: char, b: char) -> (r: bool)
    requires
        l@.len() == 2,
    ensures
        r == w2(l@, a, b),
{
    l[0] == a as u8 && l[1] == b as u8
}

fn is_w3(l: &Vec<u8>, a: char, b: char, c: char) -> (r: bool)
    requires
        l@.len() == 3,
    ensures
        r == w3(l@, a, b, c),
{
    l[0] == a as u8 && l[1] == b as u8 && l[2] == c as u8
}

fn size_suffix(b: u8) -> (r: bool)
    ensures
        r == is_size_suffix(b),
{
    b == 'd' as u8 || b == 'w' as u8 || b == 'b' as u8
}

/// Whether the text, in any letter case, names an x86-64 register.
pub fn is_x86_64_register(s: &str) -> (r: bool)
    ensures
        r == is_register_name(s.spec_bytes().map_values(|b: u8| ascii_lower(b))),
{
    let bytes = s.as_bytes();
    let len = bytes.len();
    if len == 0 || len > 4 {
        return false;
    }
    let mut l: Vec<u8> = Vec::new();
    let mut i: usize = 0;
    while i < len
        invariant
            0 <= i <= len,
            len == bytes@.len(),
            l@ == bytes@.subrange(0, i as int).map_values(|b: u8| ascii_lower(b)),
        decreases len - i,
    {
        l.push(to_ascii_lower(bytes[i]));
        i = i + 1;
        assert(l@ =~= bytes@.subrange(0, i as int).map_values(|b: u8| ascii_lower(b)));
    }
    assert(bytes@.subrange(0, len as int) =~= bytes@);
    if len == 2 {
        is_w2(&l, 'a', 'x')
            || is_w2(&l, 'b', 'x')
            || is_w2(&l, 'c', 'x')
            || is_w2(&l, 'd', 'x')
            || is_w2(&l, 's', 'i')
            || is_w2(&l, 'd', 'i')
            || is_w2(&l, 'b', 'p')
            || is_w2(&l, 's', 'p')
            || is_w2(&l, 'a', 'l')
            || is_w2(&l, 'a', 'h')
            || is_w2(&l, 'b', 'l')
            || is_w2(&l, 'b', 'h')
            || is_w2(&l, 'c', 'l')
            || is_w2(&l, 'c', 'h')
            || is_w2(&l, 'd', 'l')
            || is_w2(&l, 'd', 'h')
            || is_w2(&l, 'r', '8')
            || is_w2(&l, 'r', '9')
    } else if len == 3 {
        match l[0] {
            0x65u8 => is_w3(&l, 'e', 'a', 'x')
                || is_w3(&l, 'e', 'b', 'x')
                || is_w3(&l, 'e', 'c', 'x')
                || is_w3(&l, 'e', 'd', 'x')
                || is_w3(&l, 'e', 's', 'i')
                || is_w3(&l, 'e', 'd', 'i')
                || is_w3(&l, 'e', 'b', 'p')
                || is_w3(&l, 'e', 's', 'p'),
            0x72u8 => is_w3(&l, 'r', 'a', 'x')
                || is_w3(&l, 'r', 'b', 'x')
                || is_w3(&l, 'r', 'c', 'x')
                || is_w3(&l, 'r', 'd', 'x')
                || is_w3(&l, 'r', 's', 'i')
                || is_w3(&l, 'r', 'd', 'i')
                || is_w3(&l, 'r', 'b', 'p')
                || is_w3(&l, 'r', 's', 'p')
                || is_w3(&l, 'r', 'i', 'p')
                || is_w3(&l, 'r', '1', '0')
                || is_w3(&l, 'r', '1', '1')
                || is_w3(&l, 'r', '1', '2')
                || is_w3(&l, 'r', '1', '3')
                || is_w3(&l, 'r', '1', '4')
                || is_w3(&l, 'r', '1', '5')
                || (l[1] == '8' as u8 || l[1] == '9' as u8) && size_suffix(l[2]),
            0x73u8 => is_w3(&l, 's', 'p', 'l') || is_w3(&l, 's', 'i', 'l'),
            0x62u8 | 0x64u8 => l[2] == 'l' as u8 && (l[1] == 'p' as u8 || l[1] == 'i' as u8),
            0x78u8 | 0x79u8 | 0x7au8 => l[1] == 'm' as u8 && l[2] == 'm' as u8,
            _ => false,
        }
    } else if len == 4 {
        if l[0] == 'r' as u8 && l[1] >= '1' as u8 && l[1] <= '9' as u8 {
            let num: u8 = if l[2] >= '0' as u8 && l[2] <= '9' as u8 {
                (l[1] - '0' as u8) * 10 + (l[2] - '0' as u8)
            } else {
                l[1] - '0' as u8
            };
            if num >= 8 && num <= 9 {
                size_suffix(l[2])
            } else if num >= 10 && num <= 15 {
                l[3] == 0 || size_suffix(l[3])
            } else {
                false
            }
        } else if (l[0] == 'x' as u8 || l[0] == 'y' as u8 || l[0] == 'z' as u8) && l[1] == 'm' as u8
            && l[2] == 'm' as u8 {
            l[3] >= '0' as u8 && l[3] <= '9' as u8
        } else {
            l[0] == 'r' as u8 && (l[1] == '8' as u8 || l[1] == '9' as u8) && size_suffix(l[2])
        }
    } else {
        false
    }
}

} // verus!
