use vstd::prelude::*;
use vstd::string::StringSliceAdditionalSpecFns;
use vstd::utf8::{encode_utf8, valid_utf8};

use crate::error::PeError;
use crate::reader::{lemma_le_pos_nonneg, LEReader};

verus! {

broadcast use lemma_le_pos_nonneg;

/// Index of the first NUL byte of `d` at or after `i`, or -1 when there is none.
pub open spec fn cstr_end(d: Seq<u8>, i: int) -> int
    decreases d.len() - i,
{
    if i < 0 || i >= d.len() {
        -1
    } else if d[i] == 0 {
        i
    } else {
        cstr_end(d, i + 1)
    }
}

/// The bytes of the NUL-terminated string at `at`, without the terminator.
pub open spec fn cstr_at(d: Seq<u8>, at: int) -> Seq<u8> {
    d.subrange(at, cstr_end(d, at))
}

/// The terminator of the string at `i` is the first NUL at or after `i`.
pub proof fn lemma_cstr_end(d: Seq<u8>, i: int, e: int)
    requires
        0 <= i <= e < d.len(),
        d[e] == 0,
        forall|k: int| i <= k < e ==> d[k] != 0,
    ensures
        cstr_end(d, i) == e,
    decreases e - i,
{
    if i < e {
        lemma_cstr_end(d, i + 1, e);
    }
}

/// Reads a NUL-terminated string and steps past its terminator.
pub fn read_cstring(r: &mut LEReader) -> (res: Result<Vec<u8>, PeError>)
    ensures
        final(r).bytes() == old(r).bytes(),
        cstr_end(old(r).bytes(), old(r).pos()) >= 0 ==> res is Ok && res->Ok_0@ == cstr_at(
            old(r).bytes(),
            old(r).pos(),
        ) && final(r).pos() == cstr_end(old(r).bytes(), old(r).pos()) + 1 && old(r).pos()
            <= cstr_end(old(r).bytes(), old(r).pos()) < old(r).bytes().len(),
        cstr_end(old(r).bytes(), old(r).pos()) < 0 ==> res == Err::<Vec<u8>, PeError>(
            PeError::TruncatedInput,
        ),
{
    let ghost d = r.bytes();
    let ghost start = r.pos();
    let mut v: Vec<u8> = Vec::new();
    if r.position() >= r.len() {
        return Err(PeError::TruncatedInput);
    }
    loop
        invariant
            r.bytes() == d,
            d == old(r).bytes(),
            start == old(r).pos(),
            start <= r.pos() <= d.len(),
            v@ == d.subrange(start, r.pos()),
            cstr_end(d, start) == cstr_end(d, r.pos()),
        decreases d.len() - r.pos(),
    {
        let ghost p = r.pos();
        let c = r.read_u8()?;
        assert(c == d[p] && r.pos() == p + 1);
        if c == 0 {
            return Ok(v);
        }
        v.push(c);
        assert(v@ =~= d.subrange(start, p + 1));
    }
}

/// Relies on `std::str::from_utf8`: it accepts exactly the valid UTF-8 sequences and
/// returns them unchanged as text.
#[verifier::external_body]
fn utf8_str(b: &[u8]) -> (r: Option<&str>)
    ensures
        r is Some <==> valid_utf8(b@),
        r is Some ==> r->0.spec_bytes() == b@,
{
    std::str::from_utf8(b).ok()
}

/// The text that the bytes encode in UTF-8, or `InvalidName` when they are not UTF-8.
pub fn bytes_to_string(b: &Vec<u8>) -> (res: Result<String, PeError>)
    ensures
        valid_utf8(b@) ==> res is Ok && encode_utf8(res->Ok_0@) == b@,
        !valid_utf8(b@) ==> res == Err::<String, PeError>(PeError::InvalidName),
{
    match utf8_str(b.as_slice()) {
        Some(s) => Ok(s.to_owned()),
        None => Err(PeError::InvalidName),
    }
}

} // verus!
