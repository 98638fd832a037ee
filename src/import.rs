use vstd::prelude::*;
use vstd::utf8::{encode_utf8, valid_utf8};

use crate::error::PeError;
use crate::reader::{fits, le_u16, le_u32, le_u64, lemma_le_pos_nonneg, LEReader};
use crate::headers::ImageDataDirectory;
use crate::section::{geometries, lemma_rva_lookup_bound, rva_lookup, rva_to_offset, Section};
use crate::strings::{bytes_to_string, cstr_at, cstr_end, lemma_cstr_end, read_cstring};

verus! {

broadcast use lemma_le_pos_nonneg;

/// Size of one import descriptor.
pub const IMPORT_DESCRIPTOR_SIZE: u64 = 20;

/// The most descriptors that a scan reads before it gives up on finding a terminator.
pub const MAX_IMPORT_DESCRIPTORS: usize = 256;

/// The first error in `s`, if any.
pub open spec fn first_error(s: Seq<Option<PeError>>) -> Option<PeError>
    decreases s.len(),
{
    if s.len() == 0 {
        None
    } else if s[0] is Some {
        s[0]
    } else {
        first_error(s.drop_first())
    }
}

/// The first error of `s` is the first entry that holds one.
pub proof fn lemma_first_error(s: Seq<Option<PeError>>, i: int)
    requires
        0 <= i <= s.len(),
        forall|j: int| 0 <= j < i ==> (#[trigger] s[j]) is None,
    ensures
        i < s.len() && s[i] is Some ==> first_error(s) == s[i],
        i == s.len() ==> first_error(s) is None,
    decreases i,
{
    if i > 0 {
        let t = s.drop_first();
        assert forall|j: int| 0 <= j < i - 1 implies (#[trigger] t[j]) is None by {
            assert(t[j] == s[j + 1]);
        }
        lemma_first_error(t, i - 1);
    }
}

/// One entry of the import directory table.
#[derive(Clone, Copy, Debug, PartialEq, Eq, Structural)]
pub struct ImageImportDescriptor {
    pub import_lookup_table_rva: u32,
    pub time_date_stamp: u32,
    pub forwarder_chain: u32,
    pub name_rva: u32,
    pub import_address_table_rva: u32,
}

impl ImageImportDescriptor {
    pub open spec fn spec_decode(d: Seq<u8>, at: int) -> ImageImportDescriptor {
        ImageImportDescriptor {
            import_lookup_table_rva: le_u32(d, at),
            time_date_stamp: le_u32(d, at + 4),
            forwarder_chain: le_u32(d, at + 8),
            name_rva: le_u32(d, at + 12),
            import_address_table_rva: le_u32(d, at + 16),
        }
    }

    /// Whether every field is zero: the record that ends the table.
    pub open spec fn spec_is_zeroed_out(self) -> bool {
        &&& self.import_lookup_table_rva == 0
        &&& self.time_date_stamp == 0
        &&& self.forwarder_chain == 0
        &&& self.name_rva == 0
        &&& self.import_address_table_rva == 0
    }

    /// A descriptor with every field zero.
    pub fn new() -> (r: ImageImportDescriptor)
        ensures
            r.spec_is_zeroed_out(),
    {
        ImageImportDescriptor {
            import_lookup_table_rva: 0,
            time_date_stamp: 0,
            forwarder_chain: 0,
            name_rva: 0,
            import_address_table_rva: 0,
        }
    }

    /// Decodes the 20-byte descriptor at the reader's position.
    pub fn from_parser(r: &mut LEReader) -> (res: Result<ImageImportDescriptor, PeError>)
        ensures
            final(r).bytes() == old(r).bytes(),
            fits(old(r).bytes(), old(r).pos(), IMPORT_DESCRIPTOR_SIZE as int) ==> res == Ok::<
                ImageImportDescriptor,
                PeError,
            >(ImageImportDescriptor::spec_decode(old(r).bytes(), old(r).pos())) && final(r).pos()
                == old(r).pos() + IMPORT_DESCRIPTOR_SIZE,
            !fits(old(r).bytes(), old(r).pos(), IMPORT_DESCRIPTOR_SIZE as int) ==> res == Err::<
                ImageImportDescriptor,
                PeError,
            >(PeError::TruncatedInput),
            old(r).pos() <= final(r).pos() <= old(r).pos() + IMPORT_DESCRIPTOR_SIZE,
    {
        let import_lookup_table_rva = r.read_u32()?;
        let time_date_stamp = r.read_u32()?;
        let forwarder_chain = r.read_u32()?;
        let name_rva = r.read_u32()?;
        let import_address_table_rva = r.read_u32()?;
        Ok(ImageImportDescriptor {
            import_lookup_table_rva,
            time_date_stamp,
            forwarder_chain,
            name_rva,
            import_address_table_rva,
        })
    }

    pub fn is_zeroed_out(&self) -> (r: bool)
        ensures
            r == self.spec_is_zeroed_out(),
    {
        self.import_lookup_table_rva == 0 && self.time_date_stamp == 0 && self.forwarder_chain == 0
            && self.name_rva == 0 && self.import_address_table_rva == 0
    }
}

/// The descriptor with index `i` of the table at `at`.
pub open spec fn descriptor_at(d: Seq<u8>, at: int, i: int) -> ImageImportDescriptor {
    ImageImportDescriptor::spec_decode(d, at + IMPORT_DESCRIPTOR_SIZE * i)
}

/// Scans the descriptor table at `at` from index `i`: the number of descriptors before the
/// terminator, `TruncatedInput` when a record runs past the end, and
/// `ResourceLimitExceeded` when the cap is reached without a terminator.
pub open spec fn descriptor_scan(d: Seq<u8>, at: int, i: int) -> Result<int, PeError>
    decreases MAX_IMPORT_DESCRIPTORS - i,
{
    if i >= MAX_IMPORT_DESCRIPTORS {
        Err(PeError::ResourceLimitExceeded)
    } else if !fits(d, at + IMPORT_DESCRIPTOR_SIZE * i, IMPORT_DESCRIPTOR_SIZE as int) {
        Err(PeError::TruncatedInput)
    } else if descriptor_at(d, at, i).spec_is_zeroed_out() {
        Ok(i)
    } else {
        descriptor_scan(d, at, i + 1)
    }
}

/// Reads descriptors from the reader's position up to the all-zero terminator, which is
/// consumed but not kept, reading at most `MAX_IMPORT_DESCRIPTORS` records.
pub fn parse_import_descriptors(r: &mut LEReader) -> (res: Result<
    Vec<ImageImportDescriptor>,
    PeError,
>)
    requires
        old(r).pos() + IMPORT_DESCRIPTOR_SIZE * MAX_IMPORT_DESCRIPTORS <= u64::MAX,
    ensures
        final(r).bytes() == old(r).bytes(),
        match res {
            Ok(v) => {
                &&& descriptor_scan(old(r).bytes(), old(r).pos(), 0) == Ok::<int, PeError>(
                    v@.len() as int,
                )
                &&& forall|i: int|
                    0 <= i < v@.len() ==> #[trigger] v@[i] == descriptor_at(
                        old(r).bytes(),
                        old(r).pos(),
                        i,
                    )
                &&& final(r).pos() == old(r).pos() + IMPORT_DESCRIPTOR_SIZE * (v@.len() + 1)
            },
            Err(e) => {
                &&& descriptor_scan(old(r).bytes(), old(r).pos(), 0) == Err::<int, PeError>(e)
                &&& e == PeError::ResourceLimitExceeded ==> final(r).pos() == old(r).pos()
                    + IMPORT_DESCRIPTOR_SIZE * MAX_IMPORT_DESCRIPTORS
            },
        },
        final(r).pos() <= old(r).pos() + IMPORT_DESCRIPTOR_SIZE * MAX_IMPORT_DESCRIPTORS,
{
    let ghost d = r.bytes();
    let ghost at = r.pos();
    let mut v: Vec<ImageImportDescriptor> = Vec::new();
    while v.len() < MAX_IMPORT_DESCRIPTORS
        invariant
            d == old(r).bytes(),
            at == old(r).pos(),
            r.bytes() == d,
            v@.len() <= MAX_IMPORT_DESCRIPTORS,
            r.pos() == at + IMPORT_DESCRIPTOR_SIZE * v@.len(),
            at + IMPORT_DESCRIPTOR_SIZE * MAX_IMPORT_DESCRIPTORS <= u64::MAX,
            descriptor_scan(d, at, 0) == descriptor_scan(d, at, v@.len() as int),
            forall|i: int| 0 <= i < v@.len() ==> #[trigger] v@[i] == descriptor_at(d, at, i),
        decreases MAX_IMPORT_DESCRIPTORS - v@.len(),
    {
        let desc = ImageImportDescriptor::from_parser(r)?;
        if desc.is_zeroed_out() {
            return Ok(v);
        }
        v.push(desc);
    }
    Err(PeError::ResourceLimitExceeded)
}

/// Whether each of the first `MAX_IMPORT_DESCRIPTORS` records at `at` is present and
/// none is the terminator.
pub open spec fn no_terminator_within_cap(d: Seq<u8>, at: int) -> bool {
    forall|i: int|
        0 <= i < MAX_IMPORT_DESCRIPTORS ==> fits(
            d,
            at + IMPORT_DESCRIPTOR_SIZE * i,
            IMPORT_DESCRIPTOR_SIZE as int,
        ) && !(#[trigger] descriptor_at(d, at, i)).spec_is_zeroed_out()
}

/// The scan cap: when each of the first `MAX_IMPORT_DESCRIPTORS` records is present and
/// none is the terminator, the scan stops there with `ResourceLimitExceeded`, whatever
/// follows.
pub proof fn lemma_descriptor_cap(d: Seq<u8>, at: int)
    requires
        no_terminator_within_cap(d, at),
    ensures
        descriptor_scan(d, at, 0) == Err::<int, PeError>(PeError::ResourceLimitExceeded),
{
    lemma_descriptor_cap_from(d, at, 0);
}

proof fn lemma_descriptor_cap_from(d: Seq<u8>, at: int, i: int)
    requires
        0 <= i <= MAX_IMPORT_DESCRIPTORS,
        no_terminator_within_cap(d, at),
    ensures
        descriptor_scan(d, at, i) == Err::<int, PeError>(PeError::ResourceLimitExceeded),
    decreases MAX_IMPORT_DESCRIPTORS - i,
{
    if i < MAX_IMPORT_DESCRIPTORS {
        assert(!descriptor_at(d, at, i).spec_is_zeroed_out());
        lemma_descriptor_cap_from(d, at, i + 1);
    }
}

/// Flag bit of a 32-bit lookup entry that marks an import by ordinal.
pub const ORDINAL_FLAG32: u64 = 0x8000_0000;

/// Flag bit of a 64-bit lookup entry that marks an import by ordinal.
pub const ORDINAL_FLAG64: u64 = 0x8000_0000_0000_0000;

/// One entry of an import lookup table: an import by ordinal or by name.
#[derive(Clone, Copy, Debug, PartialEq, Eq, Structural)]
pub struct ImportLookupEntry {
    pub by_ordinal: bool,
    pub ordinal_number: u16,
    pub hint_name_table_rva: u32,
}

/// Width in bytes of a lookup entry.
pub open spec fn entry_width(is_32_bits: bool) -> int {
    if is_32_bits {
        4
    } else {
        8
    }
}

/// The raw lookup entry at `at`, widened to 64 bits.
pub open spec fn raw_entry(d: Seq<u8>, at: int, is_32_bits: bool) -> u64 {
    if is_32_bits {
        le_u32(d, at) as u64
    } else {
        le_u64(d, at)
    }
}

impl ImportLookupEntry {
    /// The entry that the raw value stands for: the top bit selects an import by ordinal,
    /// whose ordinal is the low 16 bits, over an import by name, whose Hint/Name RVA is
    /// the low 31 bits.
    pub open spec fn spec_from_raw(raw: u64, is_32_bits: bool) -> ImportLookupEntry {
        let flag = if is_32_bits {
            ORDINAL_FLAG32
        } else {
            ORDINAL_FLAG64
        };
        if raw & flag != 0 {
            ImportLookupEntry {
                by_ordinal: true,
                ordinal_number: (raw & 0xffff) as u16,
                hint_name_table_rva: 0,
            }
        } else {
            ImportLookupEntry {
                by_ordinal: false,
                ordinal_number: 0,
                hint_name_table_rva: (raw & 0x7fff_ffff) as u32,
            }
        }
    }

    /// An import by name with RVA zero.
    pub fn new() -> (r: ImportLookupEntry)
        ensures
            !r.by_ordinal && r.ordinal_number == 0 && r.hint_name_table_rva == 0,
    {
        ImportLookupEntry { by_ordinal: false, ordinal_number: 0, hint_name_table_rva: 0 }
    }

    /// Reads the raw entry (4 bytes for a 32-bit image, 8 for a 64-bit one).
    fn read_raw(r: &mut LEReader, is_32_bits: bool) -> (res: Result<u64, PeError>)
        ensures
            final(r).bytes() == old(r).bytes(),
            fits(old(r).bytes(), old(r).pos(), entry_width(is_32_bits)) ==> res == Ok::<
                u64,
                PeError,
            >(raw_entry(old(r).bytes(), old(r).pos(), is_32_bits)) && final(r).pos() == old(
                r,
            ).pos() + entry_width(is_32_bits),
            !fits(old(r).bytes(), old(r).pos(), entry_width(is_32_bits)) ==> res == Err::<
                u64,
                PeError,
            >(PeError::TruncatedInput),
    {
        if is_32_bits {
            let v = r.read_u32()?;
            Ok(v as u64)
        } else {
            r.read_u64()
        }
    }

    /// The entry that a raw value stands for.
    pub fn from_raw(raw: u64, is_32_bits: bool) -> (r: ImportLookupEntry)
        ensures
            r == ImportLookupEntry::spec_from_raw(raw, is_32_bits),
    {
        let flag = if is_32_bits {
            ORDINAL_FLAG32
        } else {
            ORDINAL_FLAG64
        };
        if raw & flag != 0 {
            ImportLookupEntry {
                by_ordinal: true,
                ordinal_number: (raw & 0xffff) as u16,
                hint_name_table_rva: 0,
            }
        } else {
            ImportLookupEntry {
                by_ordinal: false,
                ordinal_number: 0,
                hint_name_table_rva: (raw & 0x7fff_ffff) as u32,
            }
        }
    }

    /// Decodes the lookup entry at the reader's position.
    pub fn from_parser(r: &mut LEReader, is_32_bits: bool) -> (res: Result<
        ImportLookupEntry,
        PeError,
    >)
        ensures
            final(r).bytes() == old(r).bytes(),
            fits(old(r).bytes(), old(r).pos(), entry_width(is_32_bits)) ==> res == Ok::<
                ImportLookupEntry,
                PeError,
            >(
                ImportLookupEntry::spec_from_raw(
                    raw_entry(old(r).bytes(), old(r).pos(), is_32_bits),
                    is_32_bits,
                ),
            ) && final(r).pos() == old(r).pos() + entry_width(is_32_bits),
            !fits(old(r).bytes(), old(r).pos(), entry_width(is_32_bits)) ==> res == Err::<
                ImportLookupEntry,
                PeError,
            >(PeError::TruncatedInput),
    {
        let raw = ImportLookupEntry::read_raw(r, is_32_bits)?;
        Ok(ImportLookupEntry::from_raw(raw, is_32_bits))
    }
}

/// The raw entries of the lookup table at `at`, up to the zero entry or to the end of
/// the buffer.
pub open spec fn lookup_raws(d: Seq<u8>, at: int, is_32_bits: bool) -> Seq<u64>
    decreases d.len() - at,
{
    if at < 0 || !fits(d, at, entry_width(is_32_bits)) || raw_entry(d, at, is_32_bits) == 0 {
        Seq::empty()
    } else {
        seq![raw_entry(d, at, is_32_bits)] + lookup_raws(d, at + entry_width(is_32_bits), is_32_bits)
    }
}

/// Whether the lookup table at `at` runs past the end of the buffer before its zero entry.
pub open spec fn lookup_truncated(d: Seq<u8>, at: int, is_32_bits: bool) -> bool
    decreases d.len() - at,
{
    if at < 0 || !fits(d, at, entry_width(is_32_bits)) {
        true
    } else if raw_entry(d, at, is_32_bits) == 0 {
        false
    } else {
        lookup_truncated(d, at + entry_width(is_32_bits), is_32_bits)
    }
}

/// The decoded entries of the lookup table at `at`.
pub open spec fn lookup_entries(d: Seq<u8>, at: int, is_32_bits: bool) -> Seq<ImportLookupEntry> {
    lookup_raws(d, at, is_32_bits).map_values(
        |raw: u64| ImportLookupEntry::spec_from_raw(raw, is_32_bits),
    )
}

/// Reads lookup entries from the reader's position up to the zero entry, which is
/// consumed but not kept.
pub fn parse_lookup_table(r: &mut LEReader, is_32_bits: bool) -> (res: Result<
    Vec<ImportLookupEntry>,
    PeError,
>)
    ensures
        final(r).bytes() == old(r).bytes(),
        !lookup_truncated(old(r).bytes(), old(r).pos(), is_32_bits) ==> res is Ok && res->Ok_0@
            == lookup_entries(old(r).bytes(), old(r).pos(), is_32_bits),
        lookup_truncated(old(r).bytes(), old(r).pos(), is_32_bits) ==> res == Err::<
            Vec<ImportLookupEntry>,
            PeError,
        >(PeError::TruncatedInput),
{
    let ghost d = r.bytes();
    let ghost at = r.pos();
    let mut v: Vec<ImportLookupEntry> = Vec::new();
    if r.position() >= r.len() {
        return Err(PeError::TruncatedInput);
    }
    loop
        invariant
            d == old(r).bytes(),
            at == old(r).pos(),
            r.bytes() == d,
            r.pos() <= d.len(),
            lookup_truncated(d, at, is_32_bits) == lookup_truncated(d, r.pos() as int, is_32_bits),
            lookup_entries(d, at, is_32_bits) == v@ + lookup_entries(
                d,
                r.pos() as int,
                is_32_bits,
            ),
        decreases d.len() - r.pos(),
    {
        let ghost p = r.pos();
        let raw = ImportLookupEntry::read_raw(r, is_32_bits)?;
        if raw == 0 {
            assert(lookup_raws(d, p, is_32_bits) =~= Seq::<u64>::empty());
            assert(v@ =~= v@ + lookup_entries(d, p, is_32_bits));
            return Ok(v);
        }
        let e = ImportLookupEntry::from_raw(raw, is_32_bits);
        assert(lookup_raws(d, p, is_32_bits) =~= seq![raw] + lookup_raws(d, r.pos() as int, is_32_bits));
        assert(lookup_entries(d, p, is_32_bits) =~= seq![e] + lookup_entries(d, r.pos() as int, is_32_bits));
        v.push(e);
        assert(lookup_entries(d, at, is_32_bits) =~= v@ + lookup_entries(d, r.pos() as int, is_32_bits));
    }
}

/// One entry of the Hint/Name table.
#[derive(Clone, Debug)]
pub struct HintNameEntry {
    pub hint: u16,
    pub name: String,
    /// Whether a padding byte followed the name.
    pub pad: bool,
}

/// Whether the name of a Hint/Name entry is followed by a padding byte: when the name
/// with its terminator has odd length, so that the next entry starts 2-byte aligned.
pub open spec fn name_is_padded(name_len: int) -> bool {
    (name_len + 1) % 2 == 1
}

/// The number of bytes that the Hint/Name entry at `at` occupies, padding included.
pub open spec fn hint_name_size(d: Seq<u8>, at: int) -> int {
    let n = cstr_at(d, at + 2).len() as int;
    2 + n + 1 + if name_is_padded(n) {
        1int
    } else {
        0int
    }
}

/// What decoding the Hint/Name entry at `at` fails with, if anything.
pub open spec fn hint_name_error(d: Seq<u8>, at: int) -> Option<PeError> {
    if !fits(d, at, 2) || cstr_end(d, at + 2) < 0 {
        Some(PeError::TruncatedInput)
    } else if name_is_padded(cstr_at(d, at + 2).len() as int) && !fits(
        d,
        cstr_end(d, at + 2) + 1,
        1,
    ) {
        Some(PeError::TruncatedInput)
    } else if !valid_utf8(cstr_at(d, at + 2)) {
        Some(PeError::InvalidName)
    } else {
        None
    }
}

/// A Hint/Name entry at `at` with a hint, then a UTF-8 name of `n` non-NUL bytes and
/// its terminator, decodes without error. When the name with its terminator has odd
/// length the entry occupies exactly one padding byte after the terminator; when it has
/// even length, none.
pub proof fn lemma_hint_name_padding(d: Seq<u8>, at: int, n: int)
    requires
        0 <= at,
        0 <= n,
        at + 2 + n < d.len(),
        forall|k: int| 0 <= k < n ==> #[trigger] d[at + 2 + k] != 0,
        d[at + 2 + n] == 0,
        valid_utf8(d.subrange(at + 2, at + 2 + n)),
        (n + 1) % 2 == 1 ==> at + 2 + n + 1 < d.len(),
    ensures
        hint_name_error(d, at) is None,
        cstr_at(d, at + 2) == d.subrange(at + 2, at + 2 + n),
        (n + 1) % 2 == 1 ==> name_is_padded(n) && hint_name_size(d, at) == 2 + (n + 1) + 1,
        (n + 1) % 2 == 0 ==> !name_is_padded(n) && hint_name_size(d, at) == 2 + (n + 1),
{
    assert forall|k: int| at + 2 <= k < at + 2 + n implies d[k] != 0 by {
        assert(d[at + 2 + (k - (at + 2))] != 0);
    }
    lemma_cstr_end(d, at + 2, at + 2 + n);
}

impl HintNameEntry {
    /// Whether this entry is the one at `at`.
    pub open spec fn decoded_from(&self, d: Seq<u8>, at: int) -> bool {
        &&& self.hint == le_u16(d, at)
        &&& encode_utf8(self.name@) == cstr_at(d, at + 2)
        &&& self.pad == name_is_padded(cstr_at(d, at + 2).len() as int)
    }

    /// An entry with hint zero and an empty name.
    pub fn new() -> (r: HintNameEntry)
        ensures
            r.hint == 0 && r.name@ == Seq::<char>::empty() && !r.pad,
    {
        HintNameEntry { hint: 0, name: String::new(), pad: false }
    }

    /// Decodes the entry at the reader's position: the hint, the NUL-terminated name, and
    /// one padding byte exactly when the name with its terminator has odd length.
    pub fn from_parser(r: &mut LEReader) -> (res: Result<HintNameEntry, PeError>)
        ensures
            final(r).bytes() == old(r).bytes(),
            match res {
                Ok(e) => hint_name_error(old(r).bytes(), old(r).pos()) is None && e.decoded_from(
                    old(r).bytes(),
                    old(r).pos(),
                ) && final(r).pos() == old(r).pos() + hint_name_size(old(r).bytes(), old(r).pos()),
                Err(e) => hint_name_error(old(r).bytes(), old(r).pos()) == Some(e),
            },
    {
        let hint = r.read_u16()?;
        let name = read_cstring(r)?;
        let pad = name.len() % 2 == 0;
        if pad {
            r.read_u8()?;
        }
        let name = bytes_to_string(&name)?;
        Ok(HintNameEntry { hint, name, pad })
    }
}

/// The file offset that `rva` translates to, or -1 when it translates to none.
pub open spec fn resolved(g: Seq<(u32, u32, u32)>, rva: u32) -> int {
    match rva_lookup(g, rva) {
        Some(o) => o,
        None => -1,
    }
}

/// What reading the DLL name of a descriptor fails with, if anything.
pub open spec fn dll_name_error(d: Seq<u8>, g: Seq<(u32, u32, u32)>, desc: ImageImportDescriptor) -> Option<PeError> {
    match rva_lookup(g, desc.name_rva) {
        None => Some(PeError::DanglingReference),
        Some(o) => if cstr_end(d, o) < 0 {
            Some(PeError::TruncatedInput)
        } else if !valid_utf8(cstr_at(d, o)) {
            Some(PeError::InvalidName)
        } else {
            None
        },
    }
}

/// What reading the Hint/Name entry of a lookup entry fails with, if anything.
pub open spec fn entry_error(d: Seq<u8>, g: Seq<(u32, u32, u32)>, e: ImportLookupEntry) -> Option<PeError> {
    if e.by_ordinal {
        None
    } else {
        match rva_lookup(g, e.hint_name_table_rva) {
            None => Some(PeError::DanglingReference),
            Some(o) => hint_name_error(d, o),
        }
    }
}

/// What reading the lookup table of a descriptor, and the Hint/Name entries it names,
/// fails with, if anything.
pub open spec fn lookup_error(
    d: Seq<u8>,
    g: Seq<(u32, u32, u32)>,
    desc: ImageImportDescriptor,
    is_32_bits: bool,
) -> Option<PeError> {
    match rva_lookup(g, desc.import_lookup_table_rva) {
        None => Some(PeError::DanglingReference),
        Some(o) => if lookup_truncated(d, o, is_32_bits) {
            Some(PeError::TruncatedInput)
        } else {
            first_error(lookup_entries(d, o, is_32_bits).map_values(|e: ImportLookupEntry| entry_error(d, g, e)))
        },
    }
}

/// Whether `h` holds, for each lookup entry, its Hint/Name entry (`None` for an import by
/// ordinal).
pub open spec fn hint_names_decoded_from(
    h: Seq<Option<HintNameEntry>>,
    entries: Seq<ImportLookupEntry>,
    d: Seq<u8>,
    g: Seq<(u32, u32, u32)>,
) -> bool {
    &&& h.len() == entries.len()
    &&& forall|k: int|
        0 <= k < h.len() ==> match #[trigger] h[k] {
            None => entries[k].by_ordinal,
            Some(x) => !entries[k].by_ordinal && x.decoded_from(
                d,
                resolved(g, entries[k].hint_name_table_rva),
            ),
        }
}

/// Decodes the Hint/Name entry of each import by name.
pub fn parse_hint_names(
    r: &mut LEReader,
    sections: &Vec<Section>,
    entries: &Vec<ImportLookupEntry>,
) -> (res: Result<Vec<Option<HintNameEntry>>, PeError>)
    ensures
        final(r).bytes() == old(r).bytes(),
        match res {
            Ok(h) => first_error(entries@.map_values(|e: ImportLookupEntry| entry_error(old(r).bytes(), geometries(sections@), e))) is None
                && hint_names_decoded_from(h@, entries@, old(r).bytes(), geometries(sections@)),
            Err(e) => first_error(entries@.map_values(|e: ImportLookupEntry| entry_error(old(r).bytes(), geometries(sections@), e))) == Some(e),
        },
{
    let ghost d = r.bytes();
    let ghost g = geometries(sections@);
    let ghost errs = entries@.map_values(|e: ImportLookupEntry| entry_error(d, g, e));
    let mut h: Vec<Option<HintNameEntry>> = Vec::new();
    let mut i: usize = 0;
    while i < entries.len()
        invariant
            0 <= i <= entries.len(),
            d == old(r).bytes(),
            r.bytes() == d,
            g == geometries(sections@),
            errs == entries@.map_values(|e: ImportLookupEntry| entry_error(d, g, e)),
            forall|j: int| 0 <= j < i ==> (#[trigger] errs[j]) is None,
            h@.len() == i,
            forall|k: int|
                0 <= k < i ==> match #[trigger] h@[k] {
                    None => entries@[k].by_ordinal,
                    Some(x) => !entries@[k].by_ordinal && x.decoded_from(
                        d,
                        resolved(g, entries@[k].hint_name_table_rva),
                    ),
                },
        decreases entries.len() - i,
    {
        let e = entries[i];
        if e.by_ordinal {
            h.push(None);
        } else {
            match rva_to_offset(sections, e.hint_name_table_rva) {
                None => {
                    proof {
                        lemma_first_error(errs, i as int);
                    }
                    return Err(PeError::DanglingReference);
                },
                Some(o) => {
                    r.set_position(o);
                    match HintNameEntry::from_parser(r) {
                        Ok(x) => h.push(Some(x)),
                        Err(err) => {
                            proof {
                                lemma_first_error(errs, i as int);
                            }
                            return Err(err);
                        },
                    }
                },
            }
        }
        i = i + 1;
    }
    proof {
        lemma_first_error(errs, i as int);
    }
    Ok(h)
}

/// Reads the DLL name of each descriptor.
pub fn parse_dll_names(
    r: &mut LEReader,
    sections: &Vec<Section>,
    descriptors: &Vec<ImageImportDescriptor>,
) -> (res: Result<Vec<String>, PeError>)
    ensures
        final(r).bytes() == old(r).bytes(),
        match res {
            Ok(names) => first_error(descriptors@.map_values(|x: ImageImportDescriptor| dll_name_error(old(r).bytes(), geometries(sections@), x))) is None
                && names@.len() == descriptors@.len() && forall|j: int|
                0 <= j < names@.len() ==> encode_utf8((#[trigger] names@[j])@) == cstr_at(
                    old(r).bytes(),
                    resolved(geometries(sections@), descriptors@[j].name_rva),
                ),
            Err(e) => first_error(descriptors@.map_values(|x: ImageImportDescriptor| dll_name_error(old(r).bytes(), geometries(sections@), x))) == Some(e),
        },
        descriptors@.len() == 0 ==> final(r).pos() == old(r).pos(),
{
    let ghost d = r.bytes();
    let ghost g = geometries(sections@);
    let ghost errs = descriptors@.map_values(|x: ImageImportDescriptor| dll_name_error(d, g, x));
    let mut names: Vec<String> = Vec::new();
    let mut i: usize = 0;
    while i < descriptors.len()
        invariant
            0 <= i <= descriptors.len(),
            d == old(r).bytes(),
            r.bytes() == d,
            g == geometries(sections@),
            errs == descriptors@.map_values(|x: ImageImportDescriptor| dll_name_error(d, g, x)),
            forall|j: int| 0 <= j < i ==> (#[trigger] errs[j]) is None,
            names@.len() == i,
            i == 0 ==> r.pos() == old(r).pos(),
            forall|j: int|
                0 <= j < i ==> encode_utf8((#[trigger] names@[j])@) == cstr_at(
                    d,
                    resolved(g, descriptors@[j].name_rva),
                ),
        decreases descriptors.len() - i,
    {
        let o = match rva_to_offset(sections, descriptors[i].name_rva) {
            Some(o) => o,
            None => {
                proof {
                    lemma_first_error(errs, i as int);
                }
                return Err(PeError::DanglingReference);
            },
        };
        r.set_position(o);
        let bytes = match read_cstring(r) {
            Ok(b) => b,
            Err(e) => {
                proof {
                    lemma_first_error(errs, i as int);
                }
                return Err(e);
            },
        };
        match bytes_to_string(&bytes) {
            Ok(name) => names.push(name),
            Err(e) => {
                proof {
                    lemma_first_error(errs, i as int);
                }
                return Err(e);
            },
        }
        i = i + 1;
    }
    proof {
        lemma_first_error(errs, i as int);
    }
    Ok(names)
}

/// Reads the lookup table of each descriptor and the Hint/Name entries it names.
pub fn parse_lookup_tables(
    r: &mut LEReader,
    sections: &Vec<Section>,
    descriptors: &Vec<ImageImportDescriptor>,
    is_32_bits: bool,
) -> (res: Result<(Vec<Vec<ImportLookupEntry>>, Vec<Vec<Option<HintNameEntry>>>), PeError>)
    ensures
        final(r).bytes() == old(r).bytes(),
        match res {
            Ok((tables, hints)) => first_error(descriptors@.map_values(|x: ImageImportDescriptor| lookup_error(old(r).bytes(), geometries(sections@), x, is_32_bits))) is None
                && lookup_tables_decoded_from(tables@, hints@, descriptors@, old(r).bytes(), geometries(sections@), is_32_bits),
            Err(e) => first_error(descriptors@.map_values(|x: ImageImportDescriptor| lookup_error(old(r).bytes(), geometries(sections@), x, is_32_bits))) == Some(e),
        },
{
    let ghost d = r.bytes();
    let ghost g = geometries(sections@);
    let ghost errs = descriptors@.map_values(|x: ImageImportDescriptor| lookup_error(d, g, x, is_32_bits));
    let mut tables: Vec<Vec<ImportLookupEntry>> = Vec::new();
    let mut hints: Vec<Vec<Option<HintNameEntry>>> = Vec::new();
    let mut i: usize = 0;
    while i < descriptors.len()
        invariant
            0 <= i <= descriptors.len(),
            d == old(r).bytes(),
            r.bytes() == d,
            g == geometries(sections@),
            errs == descriptors@.map_values(|x: ImageImportDescriptor| lookup_error(d, g, x, is_32_bits)),
            forall|j: int| 0 <= j < i ==> (#[trigger] errs[j]) is None,
            lookup_tables_decoded_from(tables@, hints@, descriptors@.subrange(0, i as int), d, g, is_32_bits),
        decreases descriptors.len() - i,
    {
        let o = match rva_to_offset(sections, descriptors[i].import_lookup_table_rva) {
            Some(o) => o,
            None => {
                proof {
                    lemma_first_error(errs, i as int);
                }
                return Err(PeError::DanglingReference);
            },
        };
        r.set_position(o);
        let entries = match parse_lookup_table(r, is_32_bits) {
            Ok(v) => v,
            Err(e) => {
                proof {
                    lemma_first_error(errs, i as int);
                }
                return Err(e);
            },
        };
        let h = match parse_hint_names(r, sections, &entries) {
            Ok(h) => h,
            Err(e) => {
                proof {
                    lemma_first_error(errs, i as int);
                }
                return Err(e);
            },
        };
        tables.push(entries);
        hints.push(h);
        i = i + 1;
        proof {
            let s = descriptors@.subrange(0, i as int);
            assert forall|j: int| 0 <= j < s.len() implies #[trigger] s[j] == descriptors@[j] by {}
        }
    }
    proof {
        lemma_first_error(errs, i as int);
        assert(descriptors@.subrange(0, i as int) =~= descriptors@);
    }
    Ok((tables, hints))
}

/// Whether `tables` and `hints` hold, for each descriptor, its lookup table and the
/// Hint/Name entries that the table names.
pub open spec fn lookup_tables_decoded_from(
    tables: Seq<Vec<ImportLookupEntry>>,
    hints: Seq<Vec<Option<HintNameEntry>>>,
    descriptors: Seq<ImageImportDescriptor>,
    d: Seq<u8>,
    g: Seq<(u32, u32, u32)>,
    is_32_bits: bool,
) -> bool {
    &&& tables.len() == descriptors.len()
    &&& hints.len() == descriptors.len()
    &&& forall|j: int|
        0 <= j < descriptors.len() ==> (#[trigger] tables[j])@ == lookup_entries(
            d,
            resolved(g, descriptors[j].import_lookup_table_rva),
            is_32_bits,
        ) && hint_names_decoded_from(hints[j]@, tables[j]@, d, g)
}

/// The import table of an image: its descriptors and, for each, the DLL name, the lookup
/// table and the Hint/Name entries that the lookup table names.
#[derive(Clone, Debug)]
pub struct ImportTable {
    pub descriptors: Vec<ImageImportDescriptor>,
    pub dll_names: Vec<String>,
    pub lookup_tables: Vec<Vec<ImportLookupEntry>>,
    pub hint_names: Vec<Vec<Option<HintNameEntry>>>,
}

/// The file offset of the descriptor table: none when the directory's address is zero
/// (the table is absent) or lies in no section.
pub open spec fn import_table_offset(g: Seq<(u32, u32, u32)>, dir: ImageDataDirectory) -> Option<int> {
    if dir.virtual_address == 0 {
        None
    } else {
        rva_lookup(g, dir.virtual_address)
    }
}

/// The first `n` descriptors of the table at `at`.
pub open spec fn descriptors_at(d: Seq<u8>, at: int, n: int) -> Seq<ImageImportDescriptor> {
    Seq::new(n as nat, |j: int| descriptor_at(d, at, j))
}

/// What walking the import table fails with, if anything: the descriptor scan first,
/// then the DLL names, then the lookup tables with their Hint/Name entries.
pub open spec fn import_error(
    d: Seq<u8>,
    g: Seq<(u32, u32, u32)>,
    dir: ImageDataDirectory,
    is_32_bits: bool,
) -> Option<PeError> {
    match import_table_offset(g, dir) {
        None => None,
        Some(at) => match descriptor_scan(d, at, 0) {
            Err(e) => Some(e),
            Ok(n) => {
                let ds = descriptors_at(d, at, n);
                let name_error = first_error(ds.map_values(|x: ImageImportDescriptor| dll_name_error(d, g, x)));
                if name_error is Some {
                    name_error
                } else {
                    first_error(ds.map_values(|x: ImageImportDescriptor| lookup_error(d, g, x, is_32_bits)))
                }
            },
        },
    }
}

impl ImportTable {
    /// A table with no descriptors.
    pub fn new() -> (r: ImportTable)
        ensures
            r.is_empty_table(),
    {
        ImportTable {
            descriptors: Vec::new(),
            dll_names: Vec::new(),
            lookup_tables: Vec::new(),
            hint_names: Vec::new(),
        }
    }

    pub open spec fn is_empty_table(&self) -> bool {
        &&& self.descriptors@.len() == 0
        &&& self.dll_names@.len() == 0
        &&& self.lookup_tables@.len() == 0
        &&& self.hint_names@.len() == 0
    }

    /// Whether this is the import table that `d` holds, with sections of geometry `g`.
    pub open spec fn decoded_from(
        &self,
        d: Seq<u8>,
        g: Seq<(u32, u32, u32)>,
        dir: ImageDataDirectory,
        is_32_bits: bool,
    ) -> bool {
        match import_table_offset(g, dir) {
            None => self.is_empty_table(),
            Some(at) => {
                &&& descriptor_scan(d, at, 0) == Ok::<int, PeError>(self.descriptors@.len() as int)
                &&& self.descriptors@ == descriptors_at(d, at, self.descriptors@.len() as int)
                &&& self.dll_names@.len() == self.descriptors@.len()
                &&& forall|j: int|
                    0 <= j < self.dll_names@.len() ==> encode_utf8((#[trigger] self.dll_names@[j])@)
                        == cstr_at(d, resolved(g, self.descriptors@[j].name_rva))
                &&& lookup_tables_decoded_from(
                    self.lookup_tables@,
                    self.hint_names@,
                    self.descriptors@,
                    d,
                    g,
                    is_32_bits,
                )
            },
        }
    }
}

/// Walks the import table that the directory entry `dir` locates.
pub fn parse_imports(
    r: &mut LEReader,
    sections: &Vec<Section>,
    dir: ImageDataDirectory,
    is_32_bits: bool,
) -> (res: Result<ImportTable, PeError>)
    ensures
        final(r).bytes() == old(r).bytes(),
        match res {
            Ok(t) => import_error(old(r).bytes(), geometries(sections@), dir, is_32_bits) is None
                && t.decoded_from(old(r).bytes(), geometries(sections@), dir, is_32_bits),
            Err(e) => import_error(old(r).bytes(), geometries(sections@), dir, is_32_bits) == Some(e),
        },
        import_table_offset(geometries(sections@), dir) is None ==> final(r).pos() == old(r).pos(),
{
    let ghost d = r.bytes();
    let ghost g = geometries(sections@);
    if dir.virtual_address == 0 {
        return Ok(ImportTable::new());
    }
    let at = match rva_to_offset(sections, dir.virtual_address) {
        Some(o) => o,
        None => return Ok(ImportTable::new()),
    };
    proof {
        lemma_rva_lookup_bound(g, dir.virtual_address);
    }
    r.set_position(at);
    let descriptors = parse_import_descriptors(r)?;
    assert(descriptors@ =~= descriptors_at(d, at as int, descriptors@.len() as int));
    let dll_names = parse_dll_names(r, sections, &descriptors)?;
    let (lookup_tables, hint_names) = parse_lookup_tables(r, sections, &descriptors, is_32_bits)?;
    Ok(ImportTable { descriptors, dll_names, lookup_tables, hint_names })
}

/// An import directory of `(0, 0)` is an absent table: the walk succeeds, and the table
/// it yields is empty.
pub proof fn lemma_absent_import_directory(
    d: Seq<u8>,
    g: Seq<(u32, u32, u32)>,
    dir: ImageDataDirectory,
    is_32_bits: bool,
)
    requires
        dir.virtual_address == 0,
        dir.size == 0,
    ensures
        import_error(d, g, dir, is_32_bits) is None,
        forall|t: ImportTable| #[trigger] t.decoded_from(d, g, dir, is_32_bits) ==> t.is_empty_table(),
{
}

} // verus!
