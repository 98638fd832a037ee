use vstd::prelude::*;
use vstd::string::StringSliceAdditionalSpecFns;

use crate::text::same_text;

verus! {

/// Whether an optional text is present and holds the bytes of `w`.
pub open spec fn is_text(t: Option<&str>, w: &str) -> bool {
    t matches Some(x) && x.spec_bytes() == w.spec_bytes()
}

/// Whether an instruction, given by its mnemonic and operand text, only pads code:
/// `nop`, `int3`, `ud2` and `hlt` with any operands, and `add byte ptr [rax], al`,
/// `mov eax, eax` and `sub rsp, 0`.
pub open spec fn spec_is_padding(mnemonic: Option<&str>, operands: Option<&str>) -> bool {
    ||| is_text(mnemonic, "add") && is_text(operands, "byte ptr [rax], al")
    ||| is_text(mnemonic, "nop")
    ||| is_text(mnemonic, "int3")
    ||| is_text(mnemonic, "ud2")
    ||| is_text(mnemonic, "hlt")
    ||| is_text(mnemonic, "mov") && is_text(operands, "eax, eax")
    ||| is_text(mnemonic, "sub") && is_text(operands, "rsp, 0")
}

fn text_is(t: Option<&str>, w: &str) -> (r: bool)
    ensures
        r == is_text(t, w),
{
    match t {
        Some(x) => same_text(x, w),
        None => false,
    }
}

/// Classifies an instruction, given by its mnemonic and operand text, as padding.
pub fn is_padding_instruction(mnemonic: Option<&str>, operands: Option<&str>) -> (r: bool)
    ensures
        r == spec_is_padding(mnemonic, operands),
{
    (text_is(mnemonic, "add") && text_is(operands, "byte ptr [rax], al")) || text_is(mnemonic, "nop")
        || text_is(mnemonic, "int3") || text_is(mnemonic, "ud2") || text_is(mnemonic, "hlt") || (
    text_is(mnemonic, "mov") && text_is(operands, "eax, eax")) || (text_is(mnemonic, "sub")
        && text_is(operands, "rsp, 0"))
}

} // verus!
