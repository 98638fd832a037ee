use vstd::prelude::*;

use crate::error::PeError;

verus! {

/// Little-endian value of the two bytes at `at`.
pub open spec fn le_u16(d: Seq<u8>, at: int) -> u16 {
    (d[at] as int + d[at + 1] as int * 0x100) as u16
}

/// Little-endian value of the four bytes at `at`.
pub open spec fn le_u32(d: Seq<u8>, at: int) -> u32 {
    (le_u16(d, at) as int + le_u16(d, at + 2) as int * 0x1_0000) as u32
}

/// Little-endian value of the eight bytes at `at`.
pub open spec fn le_u64(d: Seq<u8>, at: int) -> u64 {
    (le_u32(d, at) as int + le_u32(d, at + 4) as int * 0x1_0000_0000) as u64
}

/// Big-endian value of the two bytes at `at`.
pub open spec fn be_u16(d: Seq<u8>, at: int) -> u16 {
    (d[at] as int * 0x100 + d[at + 1] as int) as u16
}

/// Big-endian value of the four bytes at `at`.
pub open spec fn be_u32(d: Seq<u8>, at: int) -> u32 {
    (be_u16(d, at) as int * 0x1_0000 + be_u16(d, at + 2) as int) as u32
}

/// Big-endian value of the eight bytes at `at`.
pub open spec fn be_u64(d: Seq<u8>, at: int) -> u64 {
    (be_u32(d, at) as int * 0x1_0000_0000 + be_u32(d, at + 4) as int) as u64
}

/// Whether `n` bytes starting at `at` lie inside `d`.
pub open spec fn fits(d: Seq<u8>, at: int, n: int) -> bool {
    0 <= at && at + n <= d.len()
}

fn u16_le_at(d: &Vec<u8>, at: usize) -> (r: u16)
    requires
        at + 2 <= d.len(),
    ensures
        r == le_u16(d@, at as int),
{
    let lo = d[at] as u16;
    let hi = d[at + 1] as u16;
    assert(hi < 0x100);
    lo + hi * 0x100
}

fn u32_le_at(d: &Vec<u8>, at: usize) -> (r: u32)
    requires
        at + 4 <= d.len(),
    ensures
        r == le_u32(d@, at as int),
{
    let lo = u16_le_at(d, at);
    let hi = u16_le_at(d, at + 2);
    lo as u32 + hi as u32 * 0x1_0000
}

fn u64_le_at(d: &Vec<u8>, at: usize) -> (r: u64)
    requires
        at + 8 <= d.len(),
    ensures
        r == le_u64(d@, at as int),
{
    let lo = u32_le_at(d, at);
    let hi = u32_le_at(d, at + 4);
    lo as u64 + hi as u64 * 0x1_0000_0000
}

fn u16_be_at(d: &Vec<u8>, at: usize) -> (r: u16)
    requires
        at + 2 <= d.len(),
    ensures
        r == be_u16(d@, at as int),
{
    let hi = d[at] as u16;
    let lo = d[at + 1] as u16;
    assert(hi < 0x100);
    hi * 0x100 + lo
}

fn u32_be_at(d: &Vec<u8>, at: usize) -> (r: u32)
    requires
        at + 4 <= d.len(),
    ensures
        r == be_u32(d@, at as int),
{
    let hi = u16_be_at(d, at);
    let lo = u16_be_at(d, at + 2);
    hi as u32 * 0x1_0000 + lo as u32
}

fn u64_be_at(d: &Vec<u8>, at: usize) -> (r: u64)
    requires
        at + 8 <= d.len(),
    ensures
        r == be_u64(d@, at as int),
{
    let hi = u32_be_at(d, at);
    let lo = u32_be_at(d, at + 4);
    hi as u64 * 0x1_0000_0000 + lo as u64
}

/// A position is never negative.
pub broadcast proof fn lemma_le_pos_nonneg(r: &LEReader)
    ensures
        #[trigger] r.pos() >= 0,
{
}

/// Little-endian reader over a borrowed buffer, with an explicit position.
///
/// Each read either takes the whole field at the position and advances past it,
/// or fails with `TruncatedInput` and leaves the position where it was.
pub struct LEReader<'a> {
    data: &'a Vec<u8>,
    pos: u64,
}

impl<'a> LEReader<'a> {
    /// The buffer being read.
    pub closed spec fn bytes(&self) -> Seq<u8> {
        self.data@
    }

    /// The current position, as an offset into `bytes()`.
    pub closed spec fn pos(&self) -> int {
        self.pos as int
    }

    pub fn new(data: &'a Vec<u8>) -> (r: LEReader<'a>)
        ensures
            r.bytes() == data@,
            r.pos() == 0,
    {
        LEReader { data, pos: 0 }
    }

    /// The current position.
    pub fn position(&self) -> (r: u64)
        ensures
            r == self.pos(),
    {
        self.pos
    }

    /// Moves to an absolute position; any position is accepted, reads past the end fail.
    pub fn set_position(&mut self, pos: u64)
        ensures
            final(self).bytes() == old(self).bytes(),
            final(self).pos() == pos,
    {
        self.pos = pos;
    }

    /// The length of the buffer.
    pub fn len(&self) -> (r: u64)
        ensures
            r == self.bytes().len(),
    {
        self.data.len() as u64
    }

    /// Claims `n` bytes at the position and returns where they start.
    fn take(&mut self, n: u64) -> (r: Result<usize, PeError>)
        ensures
            final(self).bytes() == old(self).bytes(),
            fits(old(self).bytes(), old(self).pos(), n as int) ==> r is Ok && r->Ok_0
                == old(self).pos() && final(self).pos() == old(self).pos() + n,
            !fits(old(self).bytes(), old(self).pos(), n as int) ==> r == Err::<usize, PeError>(
                PeError::TruncatedInput,
            ) && final(self).pos() == old(self).pos(),
    {
        let len = self.data.len() as u64;
        if self.pos <= len && len - self.pos >= n {
            let at = self.pos as usize;
            self.pos = self.pos + n;
            Ok(at)
        } else {
            Err(PeError::TruncatedInput)
        }
    }

    /// Reads the next `n` bytes as they are.
    pub fn read_bytes(&mut self, n: usize) -> (r: Result<Vec<u8>, PeError>)
        ensures
            final(self).bytes() == old(self).bytes(),
            fits(old(self).bytes(), old(self).pos(), n as int) ==> r is Ok && r->Ok_0@
                == old(self).bytes().subrange(old(self).pos(), old(self).pos() + n)
                && final(self).pos() == old(self).pos() + n,
            !fits(old(self).bytes(), old(self).pos(), n as int) ==> r == Err::<Vec<u8>, PeError>(
                PeError::TruncatedInput,
            ) && final(self).pos() == old(self).pos(),
    {
        let at = match self.take(n as u64) {
            Ok(at) => at,
            Err(e) => return Err(e),
        };
        let mut v: Vec<u8> = Vec::new();
        let mut i: usize = 0;
        while i < n
            invariant
                0 <= i <= n,
                at + n <= self.data.len(),
                v@ == self.data@.subrange(at as int, at + i),
            decreases n - i,
        {
            v.push(self.data[at + i]);
            i = i + 1;
            assert(v@ =~= self.data@.subrange(at as int, at + i));
        }
        Ok(v)
    }

    pub fn read_u8(&mut self) -> (r: Result<u8, PeError>)
        ensures
            final(self).bytes() == old(self).bytes(),
            fits(old(self).bytes(), old(self).pos(), 1) ==> r == Ok::<u8, PeError>(old(self).bytes()[old(self).pos()])
                && final(self).pos() == old(self).pos() + 1,
            !fits(old(self).bytes(), old(self).pos(), 1) ==> r == Err::<u8, PeError>(
                PeError::TruncatedInput,
            ) && final(self).pos() == old(self).pos(),
    {
        match self.take(1) {
            Ok(at) => Ok(self.data[at]),
            Err(e) => Err(e),
        }
    }

    pub fn read_i8(&mut self) -> (r: Result<i8, PeError>)
        ensures
            final(self).bytes() == old(self).bytes(),
            fits(old(self).bytes(), old(self).pos(), 1) ==> r == Ok::<i8, PeError>(#[verifier::truncate] (old(self).bytes()[old(self).pos()] as i8))
                && final(self).pos() == old(self).pos() + 1,
            !fits(old(self).bytes(), old(self).pos(), 1) ==> r == Err::<i8, PeError>(
                PeError::TruncatedInput,
            ) && final(self).pos() == old(self).pos(),
    {
        match self.take(1) {
            Ok(at) => Ok(#[verifier::truncate] (self.data[at] as i8)),
            Err(e) => Err(e),
        }
    }

    pub fn read_u16(&mut self) -> (r: Result<u16, PeError>)
        ensures
            final(self).bytes() == old(self).bytes(),
            fits(old(self).bytes(), old(self).pos(), 2) ==> r == Ok::<u16, PeError>(le_u16(old(self).bytes(), old(self).pos()))
                && final(self).pos() == old(self).pos() + 2,
            !fits(old(self).bytes(), old(self).pos(), 2) ==> r == Err::<u16, PeError>(
                PeError::TruncatedInput,
            ) && final(self).pos() == old(self).pos(),
    {
        match self.take(2) {
            Ok(at) => Ok(u16_le_at(self.data, at)),
            Err(e) => Err(e),
        }
    }

    pub fn read_i16(&mut self) -> (r: Result<i16, PeError>)
        ensures
            final(self).bytes() == old(self).bytes(),
            fits(old(self).bytes(), old(self).pos(), 2) ==> r == Ok::<i16, PeError>(#[verifier::truncate] (le_u16(old(self).bytes(), old(self).pos()) as i16))
                && final(self).pos() == old(self).pos() + 2,
            !fits(old(self).bytes(), old(self).pos(), 2) ==> r == Err::<i16, PeError>(
                PeError::TruncatedInput,
            ) && final(self).pos() == old(self).pos(),
    {
        match self.take(2) {
            Ok(at) => Ok(#[verifier::truncate] (u16_le_at(self.data, at) as i16)),
            Err(e) => Err(e),
        }
    }

    pub fn read_u32(&mut self) -> (r: Result<u32, PeError>)
        ensures
            final(self).bytes() == old(self).bytes(),
            fits(old(self).bytes(), old(self).pos(), 4) ==> r == Ok::<u32, PeError>(le_u32(old(self).bytes(), old(self).pos()))
                && final(self).pos() == old(self).pos() + 4,
            !fits(old(self).bytes(), old(self).pos(), 4) ==> r == Err::<u32, PeError>(
                PeError::TruncatedInput,
            ) && final(self).pos() == old(self).pos(),
    {
        match self.take(4) {
            Ok(at) => Ok(u32_le_at(self.data, at)),
            Err(e) => Err(e),
        }
    }

    pub fn read_i32(&mut self) -> (r: Result<i32, PeError>)
        ensures
            final(self).bytes() == old(self).bytes(),
            fits(old(self).bytes(), old(self).pos(), 4) ==> r == Ok::<i32, PeError>(#[verifier::truncate] (le_u32(old(self).bytes(), old(self).pos()) as i32))
                && final(self).pos() == old(self).pos() + 4,
            !fits(old(self).bytes(), old(self).pos(), 4) ==> r == Err::<i32, PeError>(
                PeError::TruncatedInput,
            ) && final(self).pos() == old(self).pos(),
    {
        match self.take(4) {
            Ok(at) => Ok(#[verifier::truncate] (u32_le_at(self.data, at) as i32)),
            Err(e) => Err(e),
        }
    }

    pub fn read_u64(&mut self) -> (r: Result<u64, PeError>)
        ensures
            final(self).bytes() == old(self).bytes(),
            fits(old(self).bytes(), old(self).pos(), 8) ==> r == Ok::<u64, PeError>(le_u64(old(self).bytes(), old(self).pos()))
                && final(self).pos() == old(self).pos() + 8,
            !fits(old(self).bytes(), old(self).pos(), 8) ==> r == Err::<u64, PeError>(
                PeError::TruncatedInput,
            ) && final(self).pos() == old(self).pos(),
    {
        match self.take(8) {
            Ok(at) => Ok(u64_le_at(self.data, at)),
            Err(e) => Err(e),
        }
    }

    pub fn read_i64(&mut self) -> (r: Result<i64, PeError>)
        ensures
            final(self).bytes() == old(self).bytes(),
            fits(old(self).bytes(), old(self).pos(), 8) ==> r == Ok::<i64, PeError>(#[verifier::truncate] (le_u64(old(self).bytes(), old(self).pos()) as i64))
                && final(self).pos() == old(self).pos() + 8,
            !fits(old(self).bytes(), old(self).pos(), 8) ==> r == Err::<i64, PeError>(
                PeError::TruncatedInput,
            ) && final(self).pos() == old(self).pos(),
    {
        match self.take(8) {
            Ok(at) => Ok(#[verifier::truncate] (u64_le_at(self.data, at) as i64)),
            Err(e) => Err(e),
        }
    }
}

/// Big-endian reader over a borrowed buffer, with an explicit position.
///
/// Each read either takes the whole field at the position and advances past it,
/// or fails with `TruncatedInput` and leaves the position where it was.
pub struct BEReader<'a> {
    data: &'a Vec<u8>,
    pos: u64,
}

impl<'a> BEReader<'a> {
    /// The buffer being read.
    pub closed spec fn bytes(&self) -> Seq<u8> {
        self.data@
    }

    /// The current position, as an offset into `bytes()`.
    pub closed spec fn pos(&self) -> int {
        self.pos as int
    }

    pub fn new(data: &'a Vec<u8>) -> (r: BEReader<'a>)
        ensures
            r.bytes() == data@,
            r.pos() == 0,
    {
        BEReader { data, pos: 0 }
    }

    /// The current position.
    pub fn position(&self) -> (r: u64)
        ensures
            r == self.pos(),
    {
        self.pos
    }

    /// Moves to an absolute position; any position is accepted, reads past the end fail.
    pub fn set_position(&mut self, pos: u64)
        ensures
            final(self).bytes() == old(self).bytes(),
            final(self).pos() == pos,
    {
        self.pos = pos;
    }

    /// Claims `n` bytes at the position and returns where they start.
    fn take(&mut self, n: u64) -> (r: Result<usize, PeError>)
        ensures
            final(self).bytes() == old(self).bytes(),
            fits(old(self).bytes(), old(self).pos(), n as int) ==> r is Ok && r->Ok_0
                == old(self).pos() && final(self).pos() == old(self).pos() + n,
            !fits(old(self).bytes(), old(self).pos(), n as int) ==> r == Err::<usize, PeError>(
                PeError::TruncatedInput,
            ) && final(self).pos() == old(self).pos(),
    {
        let len = self.data.len() as u64;
        if self.pos <= len && len - self.pos >= n {
            let at = self.pos as usize;
            self.pos = self.pos + n;
            Ok(at)
        } else {
            Err(PeError::TruncatedInput)
        }
    }

    pub fn read_u8(&mut self) -> (r: Result<u8, PeError>)
        ensures
            final(self).bytes() == old(self).bytes(),
            fits(old(self).bytes(), old(self).pos(), 1) ==> r == Ok::<u8, PeError>(old(self).bytes()[old(self).pos()])
                && final(self).pos() == old(self).pos() + 1,
            !fits(old(self).bytes(), old(self).pos(), 1) ==> r == Err::<u8, PeError>(
                PeError::TruncatedInput,
            ) && final(self).pos() == old(self).pos(),
    {
        match self.take(1) {
            Ok(at) => Ok(self.data[at]),
            Err(e) => Err(e),
        }
    }

    pub fn read_i8(&mut self) -> (r: Result<i8, PeError>)
        ensures
            final(self).bytes() == old(self).bytes(),
            fits(old(self).bytes(), old(self).pos(), 1) ==> r == Ok::<i8, PeError>(#[verifier::truncate] (old(self).bytes()[old(self).pos()] as i8))
                && final(self).pos() == old(self).pos() + 1,
            !fits(old(self).bytes(), old(self).pos(), 1) ==> r == Err::<i8, PeError>(
                PeError::TruncatedInput,
            ) && final(self).pos() == old(self).pos(),
    {
        match self.take(1) {
            Ok(at) => Ok(#[verifier::truncate] (self.data[at] as i8)),
            Err(e) => Err(e),
        }
    }

    pub fn read_u16(&mut self) -> (r: Result<u16, PeError>)
        ensures
            final(self).bytes() == old(self).bytes(),
            fits(old(self).bytes(), old(self).pos(), 2) ==> r == Ok::<u16, PeError>(be_u16(old(self).bytes(), old(self).pos()))
                && final(self).pos() == old(self).pos() + 2,
            !fits(old(self).bytes(), old(self).pos(), 2) ==> r == Err::<u16, PeError>(
                PeError::TruncatedInput,
            ) && final(self).pos() == old(self).pos(),
    {
        match self.take(2) {
            Ok(at) => Ok(u16_be_at(self.data, at)),
            Err(e) => Err(e),
        }
    }

    pub fn read_i16(&mut self) -> (r: Result<i16, PeError>)
        ensures
            final(self).bytes() == old(self).bytes(),
            fits(old(self).bytes(), old(self).pos(), 2) ==> r == Ok::<i16, PeError>(#[verifier::truncate] (be_u16(old(self).bytes(), old(self).pos()) as i16))
                && final(self).pos() == old(self).pos() + 2,
            !fits(old(self).bytes(), old(self).pos(), 2) ==> r == Err::<i16, PeError>(
                PeError::TruncatedInput,
            ) && final(self).pos() == old(self).pos(),
    {
        match self.take(2) {
            Ok(at) => Ok(#[verifier::truncate] (u16_be_at(self.data, at) as i16)),
            Err(e) => Err(e),
        }
    }

    pub fn read_u32(&mut self) -> (r: Result<u32, PeError>)
        ensures
            final(self).bytes() == old(self).bytes(),
            fits(old(self).bytes(), old(self).pos(), 4) ==> r == Ok::<u32, PeError>(be_u32(old(self).bytes(), old(self).pos()))
                && final(self).pos() == old(self).pos() + 4,
            !fits(old(self).bytes(), old(self).pos(), 4) ==> r == Err::<u32, PeError>(
                PeError::TruncatedInput,
            ) && final(self).pos() == old(self).pos(),
    {
        match self.take(4) {
            Ok(at) => Ok(u32_be_at(self.data, at)),
            Err(e) => Err(e),
        }
    }

    pub fn read_i32(&mut self) -> (r: Result<i32, PeError>)
        ensures
            final(self).bytes() == old(self).bytes(),
            fits(old(self).bytes(), old(self).pos(), 4) ==> r == Ok::<i32, PeError>(#[verifier::truncate] (be_u32(old(self).bytes(), old(self).pos()) as i32))
                && final(self).pos() == old(self).pos() + 4,
            !fits(old(self).bytes(), old(self).pos(), 4) ==> r == Err::<i32, PeError>(
                PeError::TruncatedInput,
            ) && final(self).pos() == old(self).pos(),
    {
        match self.take(4) {
            Ok(at) => Ok(#[verifier::truncate] (u32_be_at(self.data, at) as i32)),
            Err(e) => Err(e),
        }
    }

    pub fn read_u64(&mut self) -> (r: Result<u64, PeError>)
        ensures
            final(self).bytes() == old(self).bytes(),
            fits(old(self).bytes(), old(self).pos(), 8) ==> r == Ok::<u64, PeError>(be_u64(old(self).bytes(), old(self).pos()))
                && final(self).pos() == old(self).pos() + 8,
            !fits(old(self).bytes(), old(self).pos(), 8) ==> r == Err::<u64, PeError>(
                PeError::TruncatedInput,
            ) && final(self).pos() == old(self).pos(),
    {
        match self.take(8) {
            Ok(at) => Ok(u64_be_at(self.data, at)),
            Err(e) => Err(e),
        }
    }

    pub fn read_i64(&mut self) -> (r: Result<i64, PeError>)
        ensures
            final(self).bytes() == old(self).bytes(),
            fits(old(self).bytes(), old(self).pos(), 8) ==> r == Ok::<i64, PeError>(#[verifier::truncate] (be_u64(old(self).bytes(), old(self).pos()) as i64))
                && final(self).pos() == old(self).pos() + 8,
            !fits(old(self).bytes(), old(self).pos(), 8) ==> r == Err::<i64, PeError>(
                PeError::TruncatedInput,
            ) && final(self).pos() == old(self).pos(),
    {
        match self.take(8) {
            Ok(at) => Ok(#[verifier::truncate] (u64_be_at(self.data, at) as i64)),
            Err(e) => Err(e),
        }
    }
}

} // verus!
