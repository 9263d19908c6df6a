use vstd::prelude::*;

verus! {

/// One recorded field value, as it is written into the record's JSON.
#[derive(Debug, PartialEq)]
pub enum FieldValue {
    Null,
    Bool(bool),
    Int(i64),
    UInt(u64),
    /// A binary64 floating-point number, held as its bit pattern.
    Float(u64),
    Text(String),
}

/// The mathematical value of a `FieldValue`.
pub enum FieldView {
    Null,
    Bool(bool),
    Int(i64),
    UInt(u64),
    Float(u64),
    Text(Seq<char>),
}

impl View for FieldValue {
    type V = FieldView;

    open spec fn view(&self) -> FieldView {
        match self {
            FieldValue::Null => FieldView::Null,
            FieldValue::Bool(b) => FieldView::Bool(*b),
            FieldValue::Int(v) => FieldView::Int(*v),
            FieldValue::UInt(v) => FieldView::UInt(*v),
            FieldValue::Float(bits) => FieldView::Float(*bits),
            FieldValue::Text(s) => FieldView::Text(s@),
        }
    }
}

/// The entries of a JSON object, keys and values as mathematical values.
pub open spec fn entries_view(v: Seq<(String, FieldValue)>) -> Seq<(Seq<char>, FieldView)> {
    v.map_values(|e: (String, FieldValue)| (e.0@, e.1@))
}

/// No key occurs twice.
pub open spec fn keys_unique(s: Seq<(Seq<char>, FieldView)>) -> bool {
    forall|i: int, j: int| 0 <= i < j < s.len() ==> s[i].0 != s[j].0
}

pub open spec fn has_key(s: Seq<(Seq<char>, FieldView)>, k: Seq<char>) -> bool {
    exists|i: int| 0 <= i < s.len() && s[i].0 == k
}

/// The position of key `k` (meaningful where `has_key(s, k)`).
pub open spec fn key_index(s: Seq<(Seq<char>, FieldView)>, k: Seq<char>) -> int {
    choose|i: int| 0 <= i < s.len() && s[i].0 == k
}

/// The value stored under `k`, if any.
pub open spec fn lookup(s: Seq<(Seq<char>, FieldView)>, k: Seq<char>) -> Option<FieldView> {
    if has_key(s, k) {
        Some(s[key_index(s, k)].1)
    } else {
        None
    }
}

/// Writing `v` under `k`: an existing entry is overwritten in place, so the
/// order in which keys first appeared is kept; a new key goes last.
pub open spec fn inserted(
    s: Seq<(Seq<char>, FieldView)>,
    k: Seq<char>,
    v: FieldView,
) -> Seq<(Seq<char>, FieldView)> {
    if has_key(s, k) {
        s.update(key_index(s, k), (k, v))
    } else {
        s.push((k, v))
    }
}

/// A value written under a name is read back exactly under that name, and
/// every other name keeps what it held; keys stay unique.
pub proof fn lemma_record_read_back(
    s: Seq<(Seq<char>, FieldView)>,
    k: Seq<char>,
    v: FieldView,
    other: Seq<char>,
)
    requires
        keys_unique(s),
    ensures
        keys_unique(inserted(s, k, v)),
        lookup(inserted(s, k, v), k) == Some(v),
        other != k ==> lookup(inserted(s, k, v), other) == lookup(s, other),
{
    let t = inserted(s, k, v);
    if has_key(s, k) {
        let c = key_index(s, k);
        assert(keys_unique(t)) by {
            assert forall|i: int, j: int| 0 <= i < j < t.len() implies t[i].0 != t[j].0 by {
                if i != c && j != c {
                    assert(s[i].0 != s[j].0);
                }
                else if i == c {
                    assert(s[c].0 != s[j].0);
                } else {
                    assert(s[i].0 != s[c].0);
                }
            }
        }
        assert(t[c].0 == k);
        assert(has_key(t, k));
        assert(key_index(t, k) == c);
        if other != k && has_key(s, other) {
            let d = key_index(s, other);
            assert(t[d].0 == other);
            assert(key_index(t, other) == d);
        }
        if other != k && has_key(t, other) {
            let d = key_index(t, other);
            assert(s[d].0 == other);
        }
    } else {
        let n = s.len() as int;
        assert(keys_unique(t)) by {
            assert forall|i: int, j: int| 0 <= i < j < t.len() implies t[i].0 != t[j].0 by {
                if j == n {
                    assert(s[i].0 != k);
                } else {
                    assert(s[i].0 != s[j].0);
                }
            }
        }
        assert(t[n].0 == k);
        assert(has_key(t, k));
        assert(key_index(t, k) == n);
        if other != k && has_key(s, other) {
            let d = key_index(s, other);
            assert(t[d].0 == other);
            assert(key_index(t, other) == d);
        }
        if other != k && has_key(t, other) {
            let d = key_index(t, other);
            assert(d != n);
            assert(s[d].0 == other);
        }
    }
}

/// Writes `value` under `key` into an object whose keys are unique.
pub fn insert_entry(entries: &mut Vec<(String, FieldValue)>, key: String, value: FieldValue)
    requires
        keys_unique(entries_view(old(entries)@)),
    ensures
        entries_view(final(entries)@) == inserted(entries_view(old(entries)@), key@, value@),
        keys_unique(entries_view(final(entries)@)),
{
    let ghost s = entries_view(entries@);
    let ghost k = key@;
    let ghost v = value@;
    let mut i: usize = 0;
    while i < entries.len()
        invariant
            i <= entries.len(),
            entries@ == old(entries)@,
            s == entries_view(entries@),
            k == key@,
            v == value@,
            keys_unique(s),
            forall|j: int| 0 <= j < i ==> s[j].0 != k,
        decreases entries.len() - i,
    {
        assert(s[i as int] == (entries@[i as int].0@, entries@[i as int].1@));
        if entries[i].0 == key {
            proof {
                assert(s[i as int].0 == k);
                assert(has_key(s, k));
                let c = key_index(s, k);
                assert(c == i as int);
            }
            let ghost pre = entries@;
            entries.set(i, (key, value));
            assert(entries@ == pre.update(i as int, (key, value)));
            assert forall|j: int| 0 <= j < s.len() implies #[trigger] entries_view(entries@)[j]
                == s.update(i as int, (k, v))[j] by {
                assert(entries_view(entries@)[j] == (entries@[j].0@, entries@[j].1@));
                assert(s[j] == (pre[j].0@, pre[j].1@));
                if j != i as int {
                    assert(entries@[j] == pre[j]);
                }
            }
            assert(entries_view(entries@) =~= s.update(i as int, (k, v)));
            return;
        }
        i = i + 1;
    }
    assert(!has_key(s, k));
    entries.push((key, value));
    assert(entries_view(entries@) =~= s.push((k, v)));
}

/// Collects the fields of one event into an ordered JSON object: keys are
/// unique, a repeated name overwrites the earlier value in place.
#[derive(Debug)]
pub struct JsonVisitor {
    pub fields: Vec<(String, FieldValue)>,
}

impl View for JsonVisitor {
    type V = Seq<(Seq<char>, FieldView)>;

    open spec fn view(&self) -> Seq<(Seq<char>, FieldView)> {
        entries_view(self.fields@)
    }
}

impl JsonVisitor {
    pub open spec fn wf(&self) -> bool {
        keys_unique(self@)
    }

    /// A collector with no fields.
    pub fn new() -> (r: Self)
        ensures
            r.wf(),
            r@ == Seq::<(Seq<char>, FieldView)>::empty(),
    {
        let r = JsonVisitor { fields: Vec::new() };
        assert(r@ =~= Seq::<(Seq<char>, FieldView)>::empty());
        r
    }

    fn record(&mut self, name: &str, value: FieldValue)
        requires
            old(self).wf(),
        ensures
            final(self).wf(),
            final(self)@ == inserted(old(self)@, name@, value@),
    {
        let key = name.to_string();
        insert_entry(&mut self.fields, key, value);
    }

    /// Records a signed integer field.
    pub fn record_i64(&mut self, name: &str, value: i64)
        requires
            old(self).wf(),
        ensures
            final(self).wf(),
            final(self)@ == inserted(old(self)@, name@, FieldView::Int(value)),
    {
        self.record(name, FieldValue::Int(value));
    }

    /// Records an unsigned integer field.
    pub fn record_u64(&mut self, name: &str, value: u64)
        requires
            old(self).wf(),
        ensures
            final(self).wf(),
            final(self)@ == inserted(old(self)@, name@, FieldView::UInt(value)),
    {
        self.record(name, FieldValue::UInt(value));
    }

    /// Records a floating-point field, given by its binary64 bit pattern.
    pub fn record_f64_bits(&mut self, name: &str, bits: u64)
        requires
            old(self).wf(),
        ensures
            final(self).wf(),
            final(self)@ == inserted(old(self)@, name@, FieldView::Float(bits)),
    {
        self.record(name, FieldValue::Float(bits));
    }

    /// Records a boolean field.
    pub fn record_bool(&mut self, name: &str, value: bool)
        requires
            old(self).wf(),
        ensures
            final(self).wf(),
            final(self)@ == inserted(old(self)@, name@, FieldView::Bool(value)),
    {
        self.record(name, FieldValue::Bool(value));
    }

    /// Records a string field.
    pub fn record_str(&mut self, name: &str, value: &str)
        requires
            old(self).wf(),
        ensures
            final(self).wf(),
            final(self)@ == inserted(old(self)@, name@, FieldView::Text(value@)),
    {
        self.record(name, FieldValue::Text(value.to_string()));
    }

    /// Records an error field by its display message.
    pub fn record_error(&mut self, name: &str, message: &str)
        requires
            old(self).wf(),
        ensures
            final(self).wf(),
            final(self)@ == inserted(old(self)@, name@, FieldView::Text(message@)),
    {
        self.record(name, FieldValue::Text(message.to_string()));
    }

    /// Records a field of any other type by its debug rendering.
    pub fn record_debug(&mut self, name: &str, rendered: &str)
        requires
            old(self).wf(),
        ensures
            final(self).wf(),
            final(self)@ == inserted(old(self)@, name@, FieldView::Text(rendered@)),
    {
        self.record(name, FieldValue::Text(rendered.to_string()));
    }

    /// The value recorded under `name`, if any.
    pub fn get(&self, name: &str) -> (r: Option<&FieldValue>)
        requires
            self.wf(),
        ensures
            match r {
                Some(v) => lookup(self@, name@) == Some(v@),
                None => lookup(self@, name@) is None,
            },
    {
        let ghost s = self@;
        let key = name.to_string();
        let mut i: usize = 0;
        while i < self.fields.len()
            invariant
                i <= self.fields.len(),
                s == self@,
                key@ == name@,
                keys_unique(s),
                forall|j: int| 0 <= j < i ==> s[j].0 != name@,
            decreases self.fields.len() - i,
        {
            assert(s[i as int] == (self.fields@[i as int].0@, self.fields@[i as int].1@));
            if self.fields[i].0 == key {
                proof {
                    assert(s[i as int].0 == name@);
                    assert(has_key(s, name@));
                    assert(key_index(s, name@) == i as int);
                }
                return Some(&self.fields[i].1);
            }
            i = i + 1;
        }
        None
    }
}

} // verus!
