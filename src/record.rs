use vstd::prelude::*;
use vstd::utf8::encode_utf8;
use std::cmp::Ordering;

verus! {

/// The record: an unsigned number and a string, compared field by field.
#[derive(Debug, Clone, Ord)]
pub struct TestJson {
    pub my_num: u64,
    pub my_str: String,
}

impl TestJson {
    /// Builds a record from its two fields.
    pub fn new(my_num: u64, my_str: String) -> (r: TestJson)
        ensures
            r.my_num == my_num,
            r.my_str@ == my_str@,
    {
        TestJson { my_num, my_str }
    }

    /// Field-wise equality as used in contracts.
    pub open spec fn same_as(&self, o: &TestJson) -> bool {
        self.my_num == o.my_num && self.my_str@ == o.my_str@
    }

    /// Whether this record is the zero value.
    pub open spec fn is_zero(&self) -> bool {
        self.my_num == 0 && self.my_str@.len() == 0
    }
}

impl PartialEq for TestJson {
    fn eq(&self, o: &TestJson) -> (r: bool) {
        self.my_num == o.my_num && self.my_str == o.my_str
    }
}

impl vstd::std_specs::cmp::PartialEqSpecImpl for TestJson {
    open spec fn obeys_eq_spec() -> bool {
        true
    }

    open spec fn eq_spec(&self, o: &TestJson) -> bool {
        self.same_as(o)
    }
}

impl Eq for TestJson {
}

impl Default for TestJson {
    fn default() -> (r: TestJson)
        ensures
            r.is_zero(),
    {
        TestJson { my_num: 0, my_str: String::new() }
    }
}

/// Lexicographic order of byte strings, a proper prefix first.
pub open spec fn bytes_cmp(a: Seq<u8>, b: Seq<u8>) -> Ordering
    decreases a.len(),
{
    if a.len() == 0 {
        if b.len() == 0 {
            Ordering::Equal
        } else {
            Ordering::Less
        }
    } else if b.len() == 0 {
        Ordering::Greater
    } else if a[0] < b[0] {
        Ordering::Less
    } else if a[0] > b[0] {
        Ordering::Greater
    } else {
        bytes_cmp(a.drop_first(), b.drop_first())
    }
}

/// The order of records: by number, then by the UTF-8 bytes of the string.
pub open spec fn record_cmp(a: &TestJson, b: &TestJson) -> Ordering {
    if a.my_num < b.my_num {
        Ordering::Less
    } else if a.my_num > b.my_num {
        Ordering::Greater
    } else {
        bytes_cmp(encode_utf8(a.my_str@), encode_utf8(b.my_str@))
    }
}

fn compare_bytes(a: &[u8], b: &[u8]) -> (r: Ordering)
    ensures
        r == bytes_cmp(a@, b@),
{
    let mut i: usize = 0;
    assert(a@.subrange(0, a@.len() as int) == a@);
    assert(b@.subrange(0, b@.len() as int) == b@);
    while i < a.len() && i < b.len()
        invariant
            i <= a@.len(),
            i <= b@.len(),
            bytes_cmp(a@, b@) == bytes_cmp(a@.subrange(i as int, a@.len() as int), b@.subrange(
                i as int,
                b@.len() as int,
            )),
        decreases a@.len() - i,
    {
        if a[i] < b[i] {
            return Ordering::Less;
        } else if a[i] > b[i] {
            return Ordering::Greater;
        }
        assert(a@.subrange(i as int, a@.len() as int).drop_first() == a@.subrange(
            i + 1,
            a@.len() as int,
        ));
        assert(b@.subrange(i as int, b@.len() as int).drop_first() == b@.subrange(
            i + 1,
            b@.len() as int,
        ));
        i = i + 1;
    }
    if i < b.len() {
        Ordering::Less
    } else if i < a.len() {
        Ordering::Greater
    } else {
        Ordering::Equal
    }
}

impl PartialOrd for TestJson {
    fn partial_cmp(&self, o: &TestJson) -> (r: Option<Ordering>) {
        if self.my_num < o.my_num {
            Some(Ordering::Less)
        } else if self.my_num > o.my_num {
            Some(Ordering::Greater)
        } else {
            Some(compare_bytes(self.my_str.as_str().as_bytes(), o.my_str.as_str().as_bytes()))
        }
    }
}

impl vstd::std_specs::cmp::PartialOrdSpecImpl for TestJson {
    open spec fn obeys_partial_cmp_spec() -> bool {
        true
    }

    open spec fn partial_cmp_spec(&self, o: &TestJson) -> Option<Ordering> {
        Some(record_cmp(self, o))
    }
}

} // verus!
