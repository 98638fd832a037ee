use vstd::prelude::*;
use vstd::string::StringSliceAdditionalSpecFns;

verus! {

/// Whether the byte is an ASCII decimal digit.
pub open spec fn is_digit_byte(b: u8) -> bool {
    '0' as u8 <= b <= '9' as u8
}

/// Whether the text starts with an ASCII decimal digit.
pub fn is_digit(s: &str) -> (r: bool)
    ensures
        r == (s.spec_bytes().len() > 0 && is_digit_byte(s.spec_bytes()[0])),
{
    let b = s.as_bytes();
    b.len() > 0 && '0' as u8 <= b[0] && b[0] <= '9' as u8
}

} // verus!
