use vstd::prelude::*;
use vstd::string::StringSliceAdditionalSpecFns;

verus! {

/// One `key: value` line of a dump, with an optional comment.
#[derive(Clone, Debug)]
pub struct DumpField {
    pub key: &'static str,
    pub value: String,
    pub comment: Option<&'static str>,
}

impl DumpField {
    pub fn new(key: &'static str, value: String, comment: Option<&'static str>) -> (r: DumpField)
        ensures
            r.key == key,
            r.value == value,
            r.comment == comment,
    {
        DumpField { key, value, comment }
    }
}

/// Raw content attached to a dump: nothing, bytes, or lines of code.
#[derive(Clone, Debug)]
pub enum DumpRawData {
    Empty(),
    Bytes(Vec<u8>),
    Code(Vec<String>),
}

/// A labelled tree of fields, the form in which decoded structures are shown.
#[derive(Debug)]
pub struct Dump {
    label: String,
    fields: Vec<DumpField>,
    children: Vec<Dump>,
    raw_data: DumpRawData,
}

/// The byte length of the longest key of `fs`, or 0 when there is none.
pub open spec fn max_key_len(fs: Seq<DumpField>) -> nat
    decreases fs.len(),
{
    if fs.len() == 0 {
        0
    } else {
        let rest = max_key_len(fs.drop_last());
        let k = fs.last().key.spec_bytes().len();
        if k > rest {
            k
        } else {
            rest
        }
    }
}

proof fn lemma_max_key_len_bounds(fs: Seq<DumpField>, i: int)
    requires
        0 <= i < fs.len(),
    ensures
        fs[i].key.spec_bytes().len() <= max_key_len(fs),
    decreases fs.len(),
{
    if i < fs.len() - 1 {
        lemma_max_key_len_bounds(fs.drop_last(), i);
    }
}

impl Dump {
    pub closed spec fn spec_label(&self) -> Seq<char> {
        self.label@
    }

    pub closed spec fn spec_fields(&self) -> Seq<DumpField> {
        self.fields@
    }

    pub closed spec fn spec_children(&self) -> Seq<Dump> {
        self.children@
    }

    pub closed spec fn spec_raw_data(&self) -> DumpRawData {
        self.raw_data
    }

    /// A dump with the given label and nothing else.
    pub fn new(label: &str) -> (r: Dump)
        ensures
            r.spec_label() == label@,
            r.spec_fields().len() == 0,
            r.spec_children().len() == 0,
            r.spec_raw_data() is Empty,
    {
        Dump {
            label: label.to_owned(),
            fields: Vec::new(),
            children: Vec::new(),
            raw_data: DumpRawData::Empty(),
        }
    }

    pub fn push_field(&mut self, key: &'static str, value: String, comment: Option<&'static str>)
        ensures
            final(self).spec_fields() == old(self).spec_fields().push(
                DumpField { key, value, comment },
            ),
            final(self).spec_label() == old(self).spec_label(),
            final(self).spec_children() == old(self).spec_children(),
            final(self).spec_raw_data() == old(self).spec_raw_data(),
    {
        self.fields.push(DumpField::new(key, value, comment));
    }

    pub fn push_child(&mut self, dump: Dump)
        ensures
            final(self).spec_children() == old(self).spec_children().push(dump),
            final(self).spec_label() == old(self).spec_label(),
            final(self).spec_fields() == old(self).spec_fields(),
            final(self).spec_raw_data() == old(self).spec_raw_data(),
    {
        self.children.push(dump);
    }

    pub fn set_raw_data(&mut self, raw_data: DumpRawData)
        ensures
            final(self).spec_raw_data() == raw_data,
            final(self).spec_label() == old(self).spec_label(),
            final(self).spec_fields() == old(self).spec_fields(),
            final(self).spec_children() == old(self).spec_children(),
    {
        self.raw_data = raw_data;
    }

    /// The fields, in the order they were pushed.
    pub fn iter_fields(&self) -> (r: &Vec<DumpField>)
        ensures
            r@ == self.spec_fields(),
    {
        &self.fields
    }

    /// The children, in the order they were pushed.
    pub fn iter_children(&self) -> (r: &Vec<Dump>)
        ensures
            r@ == self.spec_children(),
    {
        &self.children
    }

    pub fn label(&self) -> (r: &str)
        ensures
            r@ == self.spec_label(),
    {
        self.label.as_str()
    }

    pub fn raw_data(&self) -> (r: &DumpRawData)
        ensures
            *r == self.spec_raw_data(),
    {
        &self.raw_data
    }

    /// The column at which values line up: one past the longest key.
    pub fn fields_align(&self) -> (r: usize)
        requires
            max_key_len(self.spec_fields()) < usize::MAX,
        ensures
            r == max_key_len(self.spec_fields()) + 1,
    {
        let mut m: usize = 0;
        let mut i: usize = 0;
        while i < self.fields.len()
            invariant
                0 <= i <= self.fields@.len(),
                m == max_key_len(self.fields@.subrange(0, i as int)),
                max_key_len(self.fields@) < usize::MAX,
            decreases self.fields@.len() - i,
        {
            proof {
                lemma_max_key_len_bounds(self.fields@, i as int);
            }
            let k = self.fields[i].key.len();
            assert(self.fields@.subrange(0, i + 1).drop_last() =~= self.fields@.subrange(
                0,
                i as int,
            ));
            assert(self.fields@.subrange(0, i + 1).last() == self.fields@[i as int]);
            if k > m {
                m = k;
            }
            i = i + 1;
        }
        assert(self.fields@.subrange(0, i as int) =~= self.fields@);
        m + 1
    }
}

} // verus!
