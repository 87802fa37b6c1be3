//! The host's `IAttributeList`: typed values filed under byte-string keys,
//! carried by the messages a plugin's component and controller exchange.

use vstd::prelude::*;

verus! {

/// A value an attribute list holds. A float is held as the bit pattern of
/// its `f64`; a string as its UTF-16 code units.
#[derive(Debug)]
pub enum AttrValue {
    Int(i64),
    Float(u64),
    String(Vec<u16>),
    Binary(Vec<u8>),
}

/// An attribute value as plain data.
pub enum AttrModel {
    Int(i64),
    Float(u64),
    String(Seq<u16>),
    Binary(Seq<u8>),
}

/// The plain form of a value.
pub open spec fn attr_model(v: AttrValue) -> AttrModel {
    match v {
        AttrValue::Int(i) => AttrModel::Int(i),
        AttrValue::Float(b) => AttrModel::Float(b),
        AttrValue::String(s) => AttrModel::String(s@),
        AttrValue::Binary(b) => AttrModel::Binary(b@),
    }
}

/// Index of the first entry of `s` filed under `key`, or `s.len()`.
pub open spec fn attr_index(s: Seq<(Seq<u8>, AttrModel)>, key: Seq<u8>) -> nat
    decreases s.len(),
{
    if s.len() == 0 {
        0
    } else if s[0].0 == key {
        0
    } else {
        1 + attr_index(s.drop_first(), key)
    }
}

/// The value filed under `key`, if any.
pub open spec fn attr_lookup(s: Seq<(Seq<u8>, AttrModel)>, key: Seq<u8>) -> Option<AttrModel> {
    let i = attr_index(s, key);
    if i < s.len() {
        Some(s[i as int].1)
    } else {
        None
    }
}

/// The entries after filing `v` under `key`: in place of the first entry
/// for `key` when there is one, else at the end.
pub open spec fn attr_after_set(s: Seq<(Seq<u8>, AttrModel)>, key: Seq<u8>, v: AttrModel) -> Seq<
    (Seq<u8>, AttrModel),
> {
    let i = attr_index(s, key);
    if i < s.len() {
        s.update(i as int, (key, v))
    } else {
        s.push((key, v))
    }
}

/// A scan that met no entry for `key` before `i` and stops at `i` found
/// the first one.
proof fn lemma_attr_index(s: Seq<(Seq<u8>, AttrModel)>, key: Seq<u8>, i: int)
    requires
        0 <= i <= s.len(),
        forall|k: int| 0 <= k < i ==> s[k].0 != key,
        i == s.len() || s[i].0 == key,
    ensures
        attr_index(s, key) == i,
    decreases i,
{
    if i > 0 {
        let t = s.drop_first();
        assert forall|k: int| 0 <= k < i - 1 implies t[k].0 != key by {
            assert(t[k] == s[k + 1]);
        }
        if i - 1 < t.len() {
            assert(t[i - 1] == s[i]);
        }
        lemma_attr_index(t, key, i - 1);
    }
}

/// The entry `attr_index` designates, when below the length, has the key,
/// and no earlier entry does.
proof fn lemma_attr_index_props(s: Seq<(Seq<u8>, AttrModel)>, key: Seq<u8>)
    ensures
        attr_index(s, key) <= s.len(),
        attr_index(s, key) < s.len() ==> s[attr_index(s, key) as int].0 == key,
        forall|k: int| 0 <= k < attr_index(s, key) ==> s[k].0 != key,
    decreases s.len(),
{
    if s.len() > 0 && s[0].0 != key {
        let t = s.drop_first();
        lemma_attr_index_props(t, key);
        assert forall|k: int| 0 <= k < attr_index(s, key) implies s[k].0 != key by {
            if k > 0 {
                assert(s[k] == t[k - 1]);
            }
        }
    }
}

/// Reading an attribute gives what was last filed under its key, and
/// filing under one key leaves every other key's value as it was.
pub proof fn lemma_set_then_lookup(
    s: Seq<(Seq<u8>, AttrModel)>,
    key: Seq<u8>,
    v: AttrModel,
    other: Seq<u8>,
)
    ensures
        attr_lookup(attr_after_set(s, key, v), key) == Some(v),
        other != key ==> attr_lookup(attr_after_set(s, key, v), other) == attr_lookup(s, other),
{
    lemma_attr_index_props(s, key);
    lemma_attr_index_props(s, other);
    let t = attr_after_set(s, key, v);
    let i = attr_index(s, key);
    assert forall|k: int| 0 <= k < i implies t[k].0 != key by {
        assert(t[k] == s[k]);
    }
    lemma_attr_index(t, key, i as int);
    if other != key {
        let j = attr_index(s, other);
        assert forall|k: int| 0 <= k < j implies t[k].0 != other by {
            if k < s.len() {
                assert(t[k].0 == s[k].0);
            }
        }
        if j < s.len() {
            assert(t[j as int].0 == s[j as int].0);
            lemma_attr_index(t, other, j as int);
        } else {
            assert forall|k: int| 0 <= k < t.len() implies t[k].0 != other by {
                if k < s.len() {
                    assert(t[k].0 == s[k].0);
                }
            }
            lemma_attr_index(t, other, t.len() as int);
        }
    }
}

/// Equality of two byte strings.
fn same_key(a: &[u8], b: &[u8]) -> (r: bool)
    ensures
        r == (a@ == b@),
{
    if a.len() != b.len() {
        return false;
    }
    let mut i: usize = 0;
    while i < a.len()
        invariant
            a@.len() == b@.len(),
            i <= a@.len(),
            forall|k: int| 0 <= k < i ==> a@[k] == b@[k],
        decreases a@.len() - i,
    {
        if a[i] != b[i] {
            return false;
        }
        i = i + 1;
    }
    assert(a@ =~= b@);
    true
}

/// Attributes filed under byte-string keys.
pub struct AttributeList {
    entries: Vec<(Vec<u8>, AttrValue)>,
}

/// The entries as plain data.
pub open spec fn entries_model(v: Seq<(Vec<u8>, AttrValue)>) -> Seq<(Seq<u8>, AttrModel)> {
    v.map_values(|e: (Vec<u8>, AttrValue)| (e.0@, attr_model(e.1)))
}

impl View for AttributeList {
    type V = Seq<(Seq<u8>, AttrModel)>;

    closed spec fn view(&self) -> Seq<(Seq<u8>, AttrModel)> {
        entries_model(self.entries@)
    }
}

impl AttributeList {
    /// A list without attributes.
    pub fn new() -> (l: AttributeList)
        ensures
            l@ == Seq::<(Seq<u8>, AttrModel)>::empty(),
    {
        let l = AttributeList { entries: Vec::new() };
        assert(l@ =~= Seq::<(Seq<u8>, AttrModel)>::empty());
        l
    }

    /// Index of the first entry filed under `key`, or the entry count.
    fn find(&self, key: &[u8]) -> (i: usize)
        ensures
            i == attr_index(self@, key@),
    {
        let mut i: usize = 0;
        while i < self.entries.len()
            invariant
                i <= self.entries@.len(),
                forall|k: int| 0 <= k < i ==> self@[k].0 != key@,
            ensures
                i <= self.entries@.len(),
                forall|k: int| 0 <= k < i ==> self@[k].0 != key@,
                i == self.entries@.len() || self@[i as int].0 == key@,
            decreases self.entries@.len() - i,
        {
            if same_key(self.entries[i].0.as_slice(), key) {
                break;
            }
            i = i + 1;
        }
        proof {
            lemma_attr_index(self@, key@, i as int);
        }
        i
    }

    /// File `value` under `key`, replacing what was filed there.
    pub fn set(&mut self, key: Vec<u8>, value: AttrValue)
        ensures
            final(self)@ == attr_after_set(old(self)@, key@, attr_model(value)),
    {
        let i = self.find(key.as_slice());
        let ghost k = key@;
        let ghost m = attr_model(value);
        if i < self.entries.len() {
            self.entries.set(i, (key, value));
            assert(self@ =~= old(self)@.update(i as int, (k, m)));
        } else {
            self.entries.push((key, value));
            assert(self@ =~= old(self)@.push((k, m)));
        }
    }

    /// The value filed under `key`, if any.
    pub fn get(&self, key: &[u8]) -> (r: Option<&AttrValue>)
        ensures
            match r {
                Some(v) => attr_lookup(self@, key@) == Some(attr_model(*v)),
                None => attr_lookup(self@, key@) is None,
            },
    {
        let i = self.find(key);
        if i < self.entries.len() {
            Some(&self.entries[i].1)
        } else {
            None
        }
    }

    /// The integer filed under `key`, if an integer is filed there.
    pub fn get_int(&self, key: &[u8]) -> (r: Option<i64>)
        ensures
            match attr_lookup(self@, key@) {
                Some(AttrModel::Int(i)) => r == Some(i),
                _ => r is None,
            },
    {
        match self.get(key) {
            Some(AttrValue::Int(i)) => Some(*i),
            _ => None,
        }
    }

    /// The bits of the float filed under `key`, if a float is filed there.
    pub fn get_float_bits(&self, key: &[u8]) -> (r: Option<u64>)
        ensures
            match attr_lookup(self@, key@) {
                Some(AttrModel::Float(b)) => r == Some(b),
                _ => r is None,
            },
    {
        match self.get(key) {
            Some(AttrValue::Float(b)) => Some(*b),
            _ => None,
        }
    }

    /// The code units of the string filed under `key`, if a string is
    /// filed there.
    pub fn get_string(&self, key: &[u8]) -> (r: Option<&Vec<u16>>)
        ensures
            match attr_lookup(self@, key@) {
                Some(AttrModel::String(s)) => r matches Some(v) && v@ == s,
                _ => r is None,
            },
    {
        match self.get(key) {
            Some(AttrValue::String(s)) => Some(s),
            _ => None,
        }
    }

    /// The bytes filed under `key`, if binary data is filed there.
    pub fn get_binary(&self, key: &[u8]) -> (r: Option<&Vec<u8>>)
        ensures
            match attr_lookup(self@, key@) {
                Some(AttrModel::Binary(b)) => r matches Some(v) && v@ == b,
                _ => r is None,
            },
    {
        match self.get(key) {
            Some(AttrValue::Binary(b)) => Some(b),
            _ => None,
        }
    }
}

} // verus!
