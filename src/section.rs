use vstd::prelude::*;
use vstd::utf8::{encode_utf8, valid_utf8};

use crate::error::PeError;
use crate::reader::{fits, le_u16, le_u32, lemma_le_pos_nonneg, LEReader};
use crate::strings::bytes_to_string;

verus! {

broadcast use lemma_le_pos_nonneg;

/// Size of one record of the section table.
pub const SECTION_HEADER_SIZE: u64 = 40;

/// First name byte of a name that refers to the COFF string table ('/').
pub const STRING_TABLE_NAME_MARK: u8 = 0x2f;

/// Length of the inline name field.
pub const SECTION_NAME_SIZE: u64 = 8;

/// One record of the section table.
#[derive(Clone, Debug)]
pub struct SectionHeader {
    pub name: String,
    pub virtual_size: u32,
    pub virtual_address: u32,
    pub size_of_raw_data: u32,
    pub ptr_to_raw_data: u32,
    pub pointer_to_relocations: u32,
    pub pointer_to_line_numbers: u32,
    pub number_of_relocations: u16,
    pub number_of_line_numbers: u16,
    pub characteristics: u32,
}

/// Length of the inline name at `at`: the bytes before the first NUL at index `k` or
/// later, and all eight when there is none.
pub open spec fn name_len_from(d: Seq<u8>, at: int, k: int) -> int
    decreases SECTION_NAME_SIZE - k,
{
    if k >= SECTION_NAME_SIZE {
        SECTION_NAME_SIZE as int
    } else if d[at + k] == 0 {
        k
    } else {
        name_len_from(d, at, k + 1)
    }
}

/// The inline name of the record at `at`, whose first byte is not NUL.
pub open spec fn inline_name(d: Seq<u8>, at: int) -> Seq<u8> {
    d.subrange(at, at + name_len_from(d, at, 1))
}

/// The name that marks a record whose first name byte is NUL.
pub open spec fn empty_section_name() -> Seq<char> {
    "empty"@
}

/// What decoding the section record at `at` fails with, if anything.
pub open spec fn section_error(d: Seq<u8>, at: int) -> Option<PeError> {
    if !fits(d, at, 1) {
        Some(PeError::TruncatedInput)
    } else if d[at] == 0 {
        None
    } else if d[at] == STRING_TABLE_NAME_MARK {
        Some(PeError::UnsupportedFeature)
    } else if !fits(d, at, SECTION_NAME_SIZE as int) {
        Some(PeError::TruncatedInput)
    } else if !valid_utf8(inline_name(d, at)) {
        Some(PeError::InvalidName)
    } else if !fits(d, at, SECTION_HEADER_SIZE as int) {
        Some(PeError::TruncatedInput)
    } else {
        None
    }
}

impl SectionHeader {
    /// Whether this header is the record at `at`: the empty-section sentinel with every
    /// number zero when the first name byte is NUL, the decoded record otherwise.
    pub open spec fn decoded_from(&self, d: Seq<u8>, at: int) -> bool {
        if d[at] == 0 {
            &&& self.name@ == empty_section_name()
            &&& self.virtual_size == 0
            &&& self.virtual_address == 0
            &&& self.size_of_raw_data == 0
            &&& self.ptr_to_raw_data == 0
            &&& self.pointer_to_relocations == 0
            &&& self.pointer_to_line_numbers == 0
            &&& self.number_of_relocations == 0
            &&& self.number_of_line_numbers == 0
            &&& self.characteristics == 0
        } else {
            &&& encode_utf8(self.name@) == inline_name(d, at)
            &&& self.virtual_size == le_u32(d, at + 8)
            &&& self.virtual_address == le_u32(d, at + 12)
            &&& self.size_of_raw_data == le_u32(d, at + 16)
            &&& self.ptr_to_raw_data == le_u32(d, at + 20)
            &&& self.pointer_to_relocations == le_u32(d, at + 24)
            &&& self.pointer_to_line_numbers == le_u32(d, at + 28)
            &&& self.number_of_relocations == le_u16(d, at + 32)
            &&& self.number_of_line_numbers == le_u16(d, at + 34)
            &&& self.characteristics == le_u32(d, at + 36)
        }
    }

    /// A header with an empty name and every number zero.
    pub fn new() -> (r: SectionHeader)
        ensures
            r.name@ == Seq::<char>::empty(),
            r.virtual_size == 0,
            r.virtual_address == 0,
            r.size_of_raw_data == 0,
            r.ptr_to_raw_data == 0,
            r.pointer_to_relocations == 0,
            r.pointer_to_line_numbers == 0,
            r.number_of_relocations == 0,
            r.number_of_line_numbers == 0,
            r.characteristics == 0,
    {
        SectionHeader {
            name: String::new(),
            virtual_size: 0,
            virtual_address: 0,
            size_of_raw_data: 0,
            ptr_to_raw_data: 0,
            pointer_to_relocations: 0,
            pointer_to_line_numbers: 0,
            number_of_relocations: 0,
            number_of_line_numbers: 0,
            characteristics: 0,
        }
    }

    /// Decodes the 40-byte record at the reader's position. A record whose first name
    /// byte is NUL is the empty-section sentinel: its other 39 bytes are skipped unread.
    pub fn from_parser(r: &mut LEReader) -> (res: Result<SectionHeader, PeError>)
        requires
            old(r).pos() + SECTION_HEADER_SIZE <= u64::MAX,
        ensures
            final(r).bytes() == old(r).bytes(),
            match res {
                Ok(h) => section_error(old(r).bytes(), old(r).pos()) is None && h.decoded_from(
                    old(r).bytes(),
                    old(r).pos(),
                ) && final(r).pos() == old(r).pos() + SECTION_HEADER_SIZE,
                Err(e) => section_error(old(r).bytes(), old(r).pos()) == Some(e),
            },
    {
        let ghost d = r.bytes();
        let start = r.position();
        let first = r.read_u8()?;
        if first == 0 {
            r.set_position(start + SECTION_HEADER_SIZE);
            let mut h = SectionHeader::new();
            h.name = "empty".to_owned();
            return Ok(h);
        }
        if first == STRING_TABLE_NAME_MARK {
            return Err(PeError::UnsupportedFeature);
        }
        let rest = r.read_bytes(7)?;
        let mut name: Vec<u8> = Vec::new();
        name.push(first);
        let mut k: usize = 0;
        while k < 7 && rest[k] != 0
            invariant
                0 <= k <= 7,
                rest@ == d.subrange(start + 1, start + 8),
                fits(d, start as int, 8),
                d[start as int] != 0,
                name@ == d.subrange(start as int, start + 1 + k),
                name_len_from(d, start as int, 1) == name_len_from(d, start as int, 1 + k),
            decreases 7 - k,
        {
            name.push(rest[k]);
            k = k + 1;
            assert(name@ =~= d.subrange(start as int, start + 1 + k));
        }
        assert(name@ =~= inline_name(d, start as int));
        let name = bytes_to_string(&name)?;
        let virtual_size = r.read_u32()?;
        let virtual_address = r.read_u32()?;
        let size_of_raw_data = r.read_u32()?;
        let ptr_to_raw_data = r.read_u32()?;
        let pointer_to_relocations = r.read_u32()?;
        let pointer_to_line_numbers = r.read_u32()?;
        let number_of_relocations = r.read_u16()?;
        let number_of_line_numbers = r.read_u16()?;
        let characteristics = r.read_u32()?;
        Ok(SectionHeader {
            name,
            virtual_size,
            virtual_address,
            size_of_raw_data,
            ptr_to_raw_data,
            pointer_to_relocations,
            pointer_to_line_numbers,
            number_of_relocations,
            number_of_line_numbers,
            characteristics,
        })
    }

    /// Virtual address, virtual size and raw-data pointer: what address translation reads.
    pub open spec fn geometry(&self) -> (u32, u32, u32) {
        (self.virtual_address, self.virtual_size, self.ptr_to_raw_data)
    }
}

/// A record whose first name byte is NUL decodes to the empty-section sentinel (and
/// `from_parser` then advances exactly one record); one whose first name byte is '/'
/// fails with `UnsupportedFeature` instead of yielding a name.
pub proof fn lemma_section_first_name_byte(d: Seq<u8>, at: int)
    requires
        fits(d, at, 1),
    ensures
        d[at] == 0 ==> section_error(d, at) is None && forall|h: SectionHeader|
            #[trigger] h.decoded_from(d, at) ==> h.name@ == empty_section_name()
                && h.virtual_size == 0 && h.virtual_address == 0,
        d[at] == STRING_TABLE_NAME_MARK ==> section_error(d, at) == Some(PeError::UnsupportedFeature),
{
}

/// A section of the image.
#[derive(Clone, Debug)]
pub struct Section {
    pub header: SectionHeader,
}

impl Section {
    pub fn new(header: SectionHeader) -> (r: Section)
        ensures
            r.header == header,
    {
        Section { header }
    }
}

/// What decoding records `i..n` of the table at `at` fails with first, if anything.
pub open spec fn table_error_from(d: Seq<u8>, at: int, n: int, i: int) -> Option<PeError>
    decreases n - i,
{
    if i >= n {
        None
    } else if section_error(d, at + SECTION_HEADER_SIZE * i) is Some {
        section_error(d, at + SECTION_HEADER_SIZE * i)
    } else {
        table_error_from(d, at, n, i + 1)
    }
}

/// What decoding the `n` records of the table at `at` fails with first, if anything.
pub open spec fn table_error(d: Seq<u8>, at: int, n: int) -> Option<PeError> {
    table_error_from(d, at, n, 0)
}

/// Whether `s` holds the `n` records of the table at `at`, in table order.
pub open spec fn table_decoded_from(s: Seq<Section>, d: Seq<u8>, at: int, n: int) -> bool {
    &&& s.len() == n
    &&& forall|i: int|
        0 <= i < n ==> #[trigger] s[i].header.decoded_from(d, at + SECTION_HEADER_SIZE * i)
}

/// Decodes `n` consecutive section records, stopping at the first that fails.
pub fn parse_section_table(r: &mut LEReader, n: u16) -> (res: Result<Vec<Section>, PeError>)
    requires
        old(r).pos() + SECTION_HEADER_SIZE * n <= u64::MAX,
    ensures
        final(r).bytes() == old(r).bytes(),
        match res {
            Ok(v) => table_error(old(r).bytes(), old(r).pos(), n as int) is None
                && table_decoded_from(v@, old(r).bytes(), old(r).pos(), n as int) && final(r).pos()
                == old(r).pos() + SECTION_HEADER_SIZE * n,
            Err(e) => table_error(old(r).bytes(), old(r).pos(), n as int) == Some(e),
        },
{
    let ghost d = r.bytes();
    let ghost at = r.pos();
    let mut v: Vec<Section> = Vec::new();
    let mut i: u16 = 0;
    while i < n
        invariant
            0 <= i <= n,
            d == old(r).bytes(),
            at == old(r).pos(),
            r.bytes() == d,
            r.pos() == at + SECTION_HEADER_SIZE * i,
            at + SECTION_HEADER_SIZE * n <= u64::MAX,
            table_error(d, at, n as int) == table_error_from(d, at, n as int, i as int),
            table_decoded_from(v@, d, at, i as int),
        decreases n - i,
    {
        let h = SectionHeader::from_parser(r)?;
        v.push(Section::new(h));
        i = i + 1;
    }
    Ok(v)
}

/// Virtual address, virtual size and raw-data pointer of each section, in table order.
pub open spec fn geometries(s: Seq<Section>) -> Seq<(u32, u32, u32)> {
    s.map_values(|x: Section| x.header.geometry())
}

/// Whether the virtual range of a section with geometry `g` holds `rva`.
pub open spec fn holds_rva(g: (u32, u32, u32), rva: u32) -> bool {
    g.0 <= rva < g.0 + g.1
}

/// The file offset of `rva` under the first section in `g` whose virtual range holds it.
pub open spec fn rva_lookup(g: Seq<(u32, u32, u32)>, rva: u32) -> Option<int>
    decreases g.len(),
{
    if g.len() == 0 {
        None
    } else if holds_rva(g[0], rva) {
        Some(g[0].2 + (rva - g[0].0))
    } else {
        rva_lookup(g.drop_first(), rva)
    }
}

/// Whether the virtual ranges of the sections in `g` are pairwise disjoint.
pub open spec fn non_overlapping(g: Seq<(u32, u32, u32)>) -> bool {
    forall|i: int, j: int, rva: u32|
        0 <= i < g.len() && 0 <= j < g.len() && i != j && #[trigger] holds_rva(g[i], rva)
            ==> !#[trigger] holds_rva(g[j], rva)
}

/// An optional offset, widened to a mathematical integer.
pub open spec fn offset_view(o: Option<u64>) -> Option<int> {
    match o {
        Some(x) => Some(x as int),
        None => None,
    }
}

/// Translates `rva` to a file offset with the first section whose virtual range
/// `[virtual_address, virtual_address + virtual_size)` holds it; `None` when none does.
pub fn rva_to_offset(sections: &Vec<Section>, rva: u32) -> (r: Option<u64>)
    ensures
        offset_view(r) == rva_lookup(geometries(sections@), rva),
{
    let ghost g = geometries(sections@);
    assert(g.subrange(0, g.len() as int) =~= g);
    let mut i: usize = 0;
    while i < sections.len()
        invariant
            0 <= i <= sections.len(),
            g == geometries(sections@),
            rva_lookup(g, rva) == rva_lookup(g.subrange(i as int, g.len() as int), rva),
        decreases sections.len() - i,
    {
        let h = &sections[i].header;
        let start = h.virtual_address as u64;
        let end = start + h.virtual_size as u64;
        if start <= rva as u64 && (rva as u64) < end {
            return Some(h.ptr_to_raw_data as u64 + (rva as u64 - start));
        }
        assert(g.subrange(i as int, g.len() as int).drop_first() =~= g.subrange(
            i + 1,
            g.len() as int,
        ));
        i = i + 1;
    }
    None
}

/// A translated offset is below `2 * 2^32`.
pub proof fn lemma_rva_lookup_bound(g: Seq<(u32, u32, u32)>, rva: u32)
    ensures
        rva_lookup(g, rva) matches Some(o) ==> 0 <= o < 0x2_0000_0000,
    decreases g.len(),
{
    if g.len() > 0 && !holds_rva(g[0], rva) {
        lemma_rva_lookup_bound(g.drop_first(), rva);
    }
}

/// Address translation is total and deterministic: over sections whose virtual ranges do
/// not overlap, an RVA inside section `i` translates to that section's raw-data pointer
/// plus the RVA's distance from the section's start.
pub proof fn lemma_rva_inside_section(g: Seq<(u32, u32, u32)>, rva: u32, i: int)
    requires
        non_overlapping(g),
        0 <= i < g.len(),
        holds_rva(g[i], rva),
    ensures
        rva_lookup(g, rva) == Some(g[i].2 + (rva - g[i].0)),
    decreases g.len(),
{
    if i > 0 {
        assert(!holds_rva(g[0], rva));
        let t = g.drop_first();
        assert forall|a: int, b: int, x: u32|
            0 <= a < t.len() && 0 <= b < t.len() && a != b && #[trigger] holds_rva(t[a], x)
                implies !#[trigger] holds_rva(t[b], x) by {
            assert(t[a] == g[a + 1] && t[b] == g[b + 1]);
        }
        lemma_rva_inside_section(t, rva, i - 1);
    }
}

/// An RVA that no section's virtual range holds translates to nothing.
pub proof fn lemma_rva_outside_sections(g: Seq<(u32, u32, u32)>, rva: u32)
    requires
        forall|i: int| 0 <= i < g.len() ==> !#[trigger] holds_rva(g[i], rva),
    ensures
        rva_lookup(g, rva) is None,
    decreases g.len(),
{
    if g.len() > 0 {
        let t = g.drop_first();
        assert forall|i: int| 0 <= i < t.len() implies !#[trigger] holds_rva(t[i], rva) by {
            assert(t[i] == g[i + 1]);
        }
        lemma_rva_outside_sections(t, rva);
    }
}

/// Translation does not depend on the order of the sections: two tables that hold the
/// same sections, each without overlapping virtual ranges, translate every RVA alike.
pub proof fn lemma_rva_lookup_order_independent(
    g1: Seq<(u32, u32, u32)>,
    g2: Seq<(u32, u32, u32)>,
    rva: u32,
)
    requires
        non_overlapping(g1),
        non_overlapping(g2),
        forall|x: (u32, u32, u32)| g1.contains(x) <==> g2.contains(x),
    ensures
        rva_lookup(g1, rva) == rva_lookup(g2, rva),
{
    if exists|i: int| 0 <= i < g1.len() && holds_rva(g1[i], rva) {
        let i = choose|i: int| 0 <= i < g1.len() && holds_rva(g1[i], rva);
        assert(g2.contains(g1[i]));
        let j = choose|j: int| 0 <= j < g2.len() && g2[j] == g1[i];
        lemma_rva_inside_section(g1, rva, i);
        lemma_rva_inside_section(g2, rva, j);
    } else {
        assert forall|j: int| 0 <= j < g2.len() implies !#[trigger] holds_rva(g2[j], rva) by {
            if holds_rva(g2[j], rva) {
                assert(g1.contains(g2[j]));
                let i = choose|i: int| 0 <= i < g1.len() && g1[i] == g2[j];
                assert(holds_rva(g1[i], rva));
            }
        }
        lemma_rva_outside_sections(g1, rva);
        lemma_rva_outside_sections(g2, rva);
    }
}

/// The sections by name; where two share a name, the later one in the table wins.
pub open spec fn section_map(s: Seq<Section>) -> Map<Seq<char>, SectionHeader>
    decreases s.len(),
{
    if s.len() == 0 {
        Map::empty()
    } else {
        section_map(s.drop_last()).insert(s.last().header.name@, s.last().header)
    }
}

proof fn lemma_section_map_last(s: Seq<Section>, k: Seq<char>, i: int)
    requires
        0 <= i < s.len(),
        s[i].header.name@ == k,
        forall|j: int| i < j < s.len() ==> (#[trigger] s[j]).header.name@ != k,
    ensures
        section_map(s).contains_key(k),
        section_map(s)[k] == s[i].header,
    decreases s.len(),
{
    if i < s.len() - 1 {
        let t = s.drop_last();
        assert forall|j: int| i < j < t.len() implies (#[trigger] t[j]).header.name@ != k by {
            assert(t[j] == s[j]);
        }
        lemma_section_map_last(t, k, i);
    }
}

proof fn lemma_section_map_absent(s: Seq<Section>, k: Seq<char>)
    requires
        forall|j: int| 0 <= j < s.len() ==> (#[trigger] s[j]).header.name@ != k,
    ensures
        !section_map(s).contains_key(k),
    decreases s.len(),
{
    if s.len() > 0 {
        let t = s.drop_last();
        assert forall|j: int| 0 <= j < t.len() implies (#[trigger] t[j]).header.name@ != k by {
            assert(t[j] == s[j]);
        }
        lemma_section_map_absent(t, k);
    }
}

/// The section that the name maps to: the last one in the table with that name.
pub fn find_section<'a>(sections: &'a Vec<Section>, name: &str) -> (r: Option<&'a Section>)
    ensures
        match r {
            Some(x) => section_map(sections@).contains_key(name@) && x.header == section_map(
                sections@,
            )[name@],
            None => !section_map(sections@).contains_key(name@),
        },
{
    let key: String = name.to_owned();
    let mut i: usize = sections.len();
    while i > 0
        invariant
            0 <= i <= sections.len(),
            key@ == name@,
            forall|j: int| i <= j < sections.len() ==> (#[trigger] sections@[j]).header.name@ != key@,
        decreases i,
    {
        i = i - 1;
        if sections[i].header.name == key {
            proof {
                lemma_section_map_last(sections@, key@, i as int);
            }
            return Some(&sections[i]);
        }
    }
    proof {
        lemma_section_map_absent(sections@, key@);
    }
    None
}

} // verus!
