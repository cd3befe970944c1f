use vstd::prelude::*;
use vstd::slice::slice_to_vec;
use crate::error::Error;

verus! {

/// Tag of a named value that holds a string.
pub const STRING_TAG: u32 = 0;

/// Tag of a named value that holds one 64-bit integer.
pub const INT64_TAG: u32 = 1;

/// Tag of a named value that holds a list of 64-bit integers.
pub const INT64_LIST_TAG: u32 = 2;

/// Tag of a named value that holds a 32-bit floating-point number.
pub const FLOAT_TAG: u32 = 3;

/// Tag of a named value that holds a truth value.
pub const BOOL_TAG: u32 = 4;

/// The value of an option or attribute. Strings are held as their bytes, and
/// a floating-point number as its 32 bits.
#[derive(Debug, Clone, PartialEq, Eq)]
pub enum Value {
    String(Vec<u8>),
    I64(i64),
    I64List(Vec<i64>),
    F32(u32),
    Bool(bool),
}

/// The mathematical content of a [`Value`].
pub enum ValueModel {
    String(Seq<u8>),
    I64(i64),
    I64List(Seq<i64>),
    F32(u32),
    Bool(bool),
}

impl View for Value {
    type V = ValueModel;

    open spec fn view(&self) -> ValueModel {
        match self {
            Value::String(s) => ValueModel::String(s@),
            Value::I64(i) => ValueModel::I64(*i),
            Value::I64List(l) => ValueModel::I64List(l@),
            Value::F32(bits) => ValueModel::F32(*bits),
            Value::Bool(b) => ValueModel::Bool(*b),
        }
    }
}

/// A value with its name.
#[derive(Debug, Clone, PartialEq, Eq)]
pub struct NamedValue {
    pub name: Vec<u8>,
    pub value: Value,
}

impl View for NamedValue {
    type V = (Seq<u8>, ValueModel);

    open spec fn view(&self) -> (Seq<u8>, ValueModel) {
        (self.name@, self.value@)
    }
}

/// A named value as the plugin lays it out, with every borrowed array copied
/// into an owned vector. `type_` says which of the value fields counts; the
/// others carry no meaning. `value_size` is the number of elements of a
/// string or a list, and 1 for every other value.
#[derive(Debug, Clone, PartialEq, Eq)]
pub struct RawNamedValue {
    pub name: Vec<u8>,
    pub type_: u32,
    pub string_value: Vec<u8>,
    pub int64_value: i64,
    pub int64_array_value: Vec<i64>,
    pub float_value: u32,
    pub bool_value: bool,
    pub value_size: usize,
}

/// The mathematical content of a [`RawNamedValue`].
pub struct RawValueModel {
    pub name: Seq<u8>,
    pub type_: u32,
    pub string_value: Seq<u8>,
    pub int64_value: i64,
    pub int64_array_value: Seq<i64>,
    pub float_value: u32,
    pub bool_value: bool,
    pub value_size: nat,
}

impl View for RawNamedValue {
    type V = RawValueModel;

    open spec fn view(&self) -> RawValueModel {
        RawValueModel {
            name: self.name@,
            type_: self.type_,
            string_value: self.string_value@,
            int64_value: self.int64_value,
            int64_array_value: self.int64_array_value@,
            float_value: self.float_value,
            bool_value: self.bool_value,
            value_size: self.value_size as nat,
        }
    }
}

/// The record that a named value encodes to. Fields that the kind of value
/// does not use are empty, zero or false.
pub open spec fn encode_value(entry: (Seq<u8>, ValueModel)) -> RawValueModel {
    let blank = RawValueModel {
        name: entry.0,
        type_: 0,
        string_value: Seq::empty(),
        int64_value: 0,
        int64_array_value: Seq::empty(),
        float_value: 0,
        bool_value: false,
        value_size: 1,
    };
    match entry.1 {
        ValueModel::String(s) => RawValueModel {
            type_: STRING_TAG,
            string_value: s,
            value_size: s.len(),
            ..blank
        },
        ValueModel::I64(i) => RawValueModel { type_: INT64_TAG, int64_value: i, ..blank },
        ValueModel::I64List(l) => RawValueModel {
            type_: INT64_LIST_TAG,
            int64_array_value: l,
            value_size: l.len(),
            ..blank
        },
        ValueModel::F32(bits) => RawValueModel { type_: FLOAT_TAG, float_value: bits, ..blank },
        ValueModel::Bool(b) => RawValueModel { type_: BOOL_TAG, bool_value: b, ..blank },
    }
}

/// What a record decodes to: its name with the value that its tag selects,
/// or an error that names the tag when the tag is unknown.
pub open spec fn decode_value(raw: RawValueModel) -> Result<(Seq<u8>, ValueModel), Error> {
    if raw.type_ == STRING_TAG {
        Ok((raw.name, ValueModel::String(raw.string_value)))
    } else if raw.type_ == INT64_TAG {
        Ok((raw.name, ValueModel::I64(raw.int64_value)))
    } else if raw.type_ == INT64_LIST_TAG {
        Ok((raw.name, ValueModel::I64List(raw.int64_array_value)))
    } else if raw.type_ == FLOAT_TAG {
        Ok((raw.name, ValueModel::F32(raw.float_value)))
    } else if raw.type_ == BOOL_TAG {
        Ok((raw.name, ValueModel::Bool(raw.bool_value)))
    } else {
        Err(Error::InvalidNamedValueType(raw.type_))
    }
}

impl Value {
    /// A fresh value with the same content.
    pub fn copy(&self) -> (value: Value)
        ensures
            value@ == self@,
    {
        match self {
            Value::String(s) => Value::String(slice_to_vec(s.as_slice())),
            Value::I64(i) => Value::I64(*i),
            Value::I64List(l) => Value::I64List(slice_to_vec(l.as_slice())),
            Value::F32(bits) => Value::F32(*bits),
            Value::Bool(b) => Value::Bool(*b),
        }
    }
}

impl NamedValue {
    /// A fresh named value with the same name and content.
    pub fn copy(&self) -> (named: NamedValue)
        ensures
            named@ == self@,
    {
        NamedValue { name: slice_to_vec(self.name.as_slice()), value: self.value.copy() }
    }

    /// Encodes the named value as a record for the plugin.
    pub fn to_raw(&self) -> (raw: RawNamedValue)
        ensures
            raw@ == encode_value(self@),
    {
        let name = slice_to_vec(self.name.as_slice());
        match &self.value {
            Value::String(s) => RawNamedValue {
                name,
                type_: STRING_TAG,
                string_value: slice_to_vec(s.as_slice()),
                int64_value: 0,
                int64_array_value: Vec::new(),
                float_value: 0,
                bool_value: false,
                value_size: s.len(),
            },
            Value::I64(i) => RawNamedValue {
                name,
                type_: INT64_TAG,
                string_value: Vec::new(),
                int64_value: *i,
                int64_array_value: Vec::new(),
                float_value: 0,
                bool_value: false,
                value_size: 1,
            },
            Value::I64List(l) => RawNamedValue {
                name,
                type_: INT64_LIST_TAG,
                string_value: Vec::new(),
                int64_value: 0,
                int64_array_value: slice_to_vec(l.as_slice()),
                float_value: 0,
                bool_value: false,
                value_size: l.len(),
            },
            Value::F32(bits) => RawNamedValue {
                name,
                type_: FLOAT_TAG,
                string_value: Vec::new(),
                int64_value: 0,
                int64_array_value: Vec::new(),
                float_value: *bits,
                bool_value: false,
                value_size: 1,
            },
            Value::Bool(b) => RawNamedValue {
                name,
                type_: BOOL_TAG,
                string_value: Vec::new(),
                int64_value: 0,
                int64_array_value: Vec::new(),
                float_value: 0,
                bool_value: *b,
                value_size: 1,
            },
        }
    }

    /// Decodes a record into an owned named value. Fails exactly when the
    /// record's tag is unknown.
    pub fn from_raw(raw: &RawNamedValue) -> (r: Result<NamedValue, Error>)
        ensures
            match r {
                Ok(named) => decode_value(raw@) == Ok::<(Seq<u8>, ValueModel), Error>(named@),
                Err(e) => decode_value(raw@) == Err::<(Seq<u8>, ValueModel), Error>(e),
            },
    {
        let value = if raw.type_ == STRING_TAG {
            Value::String(slice_to_vec(raw.string_value.as_slice()))
        } else if raw.type_ == INT64_TAG {
            Value::I64(raw.int64_value)
        } else if raw.type_ == INT64_LIST_TAG {
            Value::I64List(slice_to_vec(raw.int64_array_value.as_slice()))
        } else if raw.type_ == FLOAT_TAG {
            Value::F32(raw.float_value)
        } else if raw.type_ == BOOL_TAG {
            Value::Bool(raw.bool_value)
        } else {
            return Err(Error::InvalidNamedValueType(raw.type_));
        };
        Ok(NamedValue { name: slice_to_vec(raw.name.as_slice()), value })
    }
}

/// Decoding the record of a named value gives the named value back, for
/// every kind of value.
pub proof fn lemma_value_round_trip(entry: (Seq<u8>, ValueModel))
    ensures
        decode_value(encode_value(entry)) == Ok::<(Seq<u8>, ValueModel), Error>(entry),
{
}

/// The names and values of a list of entries, in order.
pub open spec fn entry_models(entries: Seq<NamedValue>) -> Seq<(Seq<u8>, ValueModel)> {
    Seq::new(entries.len(), |i: int| entries[i]@)
}

/// The records of a list, in order.
pub open spec fn raw_models(raws: Seq<RawNamedValue>) -> Seq<RawValueModel> {
    Seq::new(raws.len(), |i: int| raws[i]@)
}

/// No name occurs twice in the list.
pub open spec fn unique_names(entries: Seq<(Seq<u8>, ValueModel)>) -> bool {
    forall|i: int, j: int|
        0 <= i < j < entries.len() ==> (#[trigger] entries[i]).0 != (#[trigger] entries[j]).0
}

/// The mapping that a list of entries stands for: each name maps to the value
/// of the last entry with that name.
pub open spec fn map_of(entries: Seq<(Seq<u8>, ValueModel)>) -> Map<Seq<u8>, ValueModel>
    decreases entries.len(),
{
    if entries.len() == 0 {
        Map::empty()
    } else {
        map_of(entries.drop_last()).insert(entries.last().0, entries.last().1)
    }
}

/// The records that a list of entries encodes to, in order.
pub open spec fn encode_entries(entries: Seq<(Seq<u8>, ValueModel)>) -> Seq<RawValueModel> {
    Seq::new(entries.len(), |i: int| encode_value(entries[i]))
}

/// The mapping that a list of records decodes to: each name maps to the
/// value of the last record with that name. An unknown tag fails the whole
/// list; of several, the first is reported.
pub open spec fn decode_map(raws: Seq<RawValueModel>) -> Result<Map<Seq<u8>, ValueModel>, Error>
    decreases raws.len(),
{
    if raws.len() == 0 {
        Ok(Map::empty())
    } else {
        match decode_map(raws.drop_last()) {
            Err(e) => Err(e),
            Ok(m) => match decode_value(raws.last()) {
                Err(e) => Err(e),
                Ok(entry) => Ok(m.insert(entry.0, entry.1)),
            },
        }
    }
}

/// A name is in the mapping exactly when an entry of the list has it.
pub proof fn lemma_map_of_domain(entries: Seq<(Seq<u8>, ValueModel)>, name: Seq<u8>)
    ensures
        map_of(entries).dom().contains(name) <==> exists|i: int|
            0 <= i < entries.len() && (#[trigger] entries[i]).0 == name,
    decreases entries.len(),
{
    if entries.len() > 0 {
        let rest = entries.drop_last();
        lemma_map_of_domain(rest, name);
        if map_of(entries).dom().contains(name) {
            if entries.last().0 == name {
                assert(entries[entries.len() - 1].0 == name);
            } else {
                let i = choose|i: int| 0 <= i < rest.len() && (#[trigger] rest[i]).0 == name;
                assert(entries[i].0 == name);
            }
        }
        if exists|i: int| 0 <= i < entries.len() && (#[trigger] entries[i]).0 == name {
            let i = choose|i: int| 0 <= i < entries.len() && (#[trigger] entries[i]).0 == name;
            if i < rest.len() {
                assert(rest[i].0 == name);
            }
        }
    }
}

/// Where no name occurs twice, each entry's name maps to that entry's value.
pub proof fn lemma_map_of_value(entries: Seq<(Seq<u8>, ValueModel)>, i: int)
    requires
        unique_names(entries),
        0 <= i < entries.len(),
    ensures
        map_of(entries).dom().contains(entries[i].0),
        map_of(entries)[entries[i].0] == entries[i].1,
    decreases entries.len(),
{
    let rest = entries.drop_last();
    if i < entries.len() - 1 {
        assert(unique_names(rest)) by {
            assert forall|a: int, b: int| 0 <= a < b < rest.len() implies (#[trigger] rest[a]).0
                != (#[trigger] rest[b]).0 by {
                assert(rest[a] == entries[a] && rest[b] == entries[b]);
            }
        }
        lemma_map_of_value(rest, i);
        assert(rest[i] == entries[i]);
        assert(entries[i].0 != entries[entries.len() - 1].0);
    }
}

/// Where no name occurs twice, the mapping has as many names as the list
/// has entries.
pub proof fn lemma_map_of_len(entries: Seq<(Seq<u8>, ValueModel)>)
    requires
        unique_names(entries),
    ensures
        map_of(entries).dom().finite(),
        map_of(entries).dom().len() == entries.len(),
    decreases entries.len(),
{
    if entries.len() > 0 {
        let rest = entries.drop_last();
        assert(unique_names(rest)) by {
            assert forall|a: int, b: int| 0 <= a < b < rest.len() implies (#[trigger] rest[a]).0
                != (#[trigger] rest[b]).0 by {
                assert(rest[a] == entries[a] && rest[b] == entries[b]);
            }
        }
        lemma_map_of_len(rest);
        lemma_map_of_domain(rest, entries.last().0);
        assert(!map_of(rest).dom().contains(entries.last().0)) by {
            if map_of(rest).dom().contains(entries.last().0) {
                let i = choose|i: int|
                    0 <= i < rest.len() && (#[trigger] rest[i]).0 == entries.last().0;
                assert(rest[i] == entries[i]);
                assert(entries[i].0 != entries[entries.len() - 1].0);
            }
        }
        assert(map_of(entries).dom() =~= map_of(rest).dom().insert(entries.last().0));
    }
}

/// Replacing the value of an entry whose name occurs once replaces the value
/// that the name maps to.
pub proof fn lemma_map_of_update(
    entries: Seq<(Seq<u8>, ValueModel)>,
    i: int,
    value: ValueModel,
)
    requires
        unique_names(entries),
        0 <= i < entries.len(),
    ensures
        unique_names(entries.update(i, (entries[i].0, value))),
        map_of(entries.update(i, (entries[i].0, value))) == map_of(entries).insert(
            entries[i].0,
            value,
        ),
    decreases entries.len(),
{
    let name = entries[i].0;
    let updated = entries.update(i, (name, value));
    assert(unique_names(updated)) by {
        assert forall|a: int, b: int| 0 <= a < b < updated.len() implies (#[trigger] updated[a]).0
            != (#[trigger] updated[b]).0 by {
            assert(updated[a].0 == entries[a].0 && updated[b].0 == entries[b].0);
        }
    }
    let rest = entries.drop_last();
    if i == entries.len() - 1 {
        assert(updated.drop_last() == rest);
        assert(map_of(updated) =~= map_of(entries).insert(name, value));
    } else {
        assert(unique_names(rest)) by {
            assert forall|a: int, b: int| 0 <= a < b < rest.len() implies (#[trigger] rest[a]).0
                != (#[trigger] rest[b]).0 by {
                assert(rest[a] == entries[a] && rest[b] == entries[b]);
            }
        }
        lemma_map_of_update(rest, i, value);
        assert(rest[i] == entries[i]);
        assert(updated.drop_last() == rest.update(i, (name, value)));
        assert(updated.last() == entries.last());
        assert(entries[i].0 != entries[entries.len() - 1].0);
        assert(map_of(updated) =~= map_of(entries).insert(name, value));
    }
}

/// A mapping from names to values: options on the way to the plugin,
/// attributes on the way back. A name occurs once; the order of the entries
/// carries no meaning.
#[derive(Debug)]
pub struct NamedValueMap {
    entries: Vec<NamedValue>,
}

impl View for NamedValueMap {
    type V = Map<Seq<u8>, ValueModel>;

    closed spec fn view(&self) -> Map<Seq<u8>, ValueModel> {
        map_of(entry_models(self.entries@))
    }
}

/// Whether two byte strings are the same.
pub fn same_bytes(a: &[u8], b: &[u8]) -> (same: bool)
    ensures
        same == (a@ == b@),
{
    if a.len() != b.len() {
        return false;
    }
    let mut i: usize = 0;
    while i < a.len()
        invariant
            i <= a@.len(),
            a@.len() == b@.len(),
            forall|j: int| 0 <= j < i ==> a@[j] == b@[j],
        decreases a.len() - i,
    {
        if a[i] != b[i] {
            return false;
        }
        i += 1;
    }
    assert(a@ =~= b@);
    true
}

impl NamedValueMap {
    #[verifier::type_invariant]
    spec fn names_once(self) -> bool {
        unique_names(entry_models(self.entries@))
    }

    /// The entries of the mapping, in the order in which they are kept.
    pub closed spec fn entries(self) -> Seq<(Seq<u8>, ValueModel)> {
        entry_models(self.entries@)
    }

    /// The empty mapping.
    pub fn new() -> (map: NamedValueMap)
        ensures
            map@ == Map::<Seq<u8>, ValueModel>::empty(),
            map.entries().len() == 0,
    {
        NamedValueMap { entries: Vec::new() }
    }

    /// The number of names in the mapping.
    pub fn len(&self) -> (n: usize)
        ensures
            n == self@.dom().len(),
            n == self.entries().len(),
    {
        proof {
            use_type_invariant(self);
            lemma_map_of_len(entry_models(self.entries@));
        }
        self.entries.len()
    }

    /// Where in the entries a name stands, if it stands there.
    fn position(&self, name: &[u8]) -> (r: Option<usize>)
        ensures
            match r {
                Some(i) => i < self.entries@.len() && self.entries@[i as int].name@ == name@,
                None => forall|j: int|
                    0 <= j < self.entries@.len() ==> (#[trigger] self.entries@[j]).name@ != name@,
            },
    {
        let mut i: usize = 0;
        while i < self.entries.len()
            invariant
                i <= self.entries@.len(),
                forall|j: int| 0 <= j < i ==> (#[trigger] self.entries@[j]).name@ != name@,
            decreases self.entries.len() - i,
        {
            if same_bytes(self.entries[i].name.as_slice(), name) {
                return Some(i);
            }
            i += 1;
        }
        None
    }

    /// The value that a name maps to, if it maps to one.
    pub fn get(&self, name: &[u8]) -> (r: Option<&Value>)
        ensures
            match r {
                Some(value) => self@.dom().contains(name@) && self@[name@] == value@,
                None => !self@.dom().contains(name@),
            },
    {
        proof {
            use_type_invariant(self);
            lemma_map_of_domain(entry_models(self.entries@), name@);
        }
        match self.position(name) {
            Some(i) => {
                proof {
                    lemma_map_of_value(entry_models(self.entries@), i as int);
                }
                Some(&self.entries[i].value)
            },
            None => {
                assert forall|j: int| 0 <= j < self.entries@.len() implies (#[trigger] entry_models(
                    self.entries@,
                )[j]).0 != name@ by {
                    assert(self.entries@[j].name@ != name@);
                }
                None
            },
        }
    }

    /// The mapping with the name mapped to the value, in place of the value
    /// that the name mapped to before, if any.
    pub fn insert(self, name: Vec<u8>, value: Value) -> (map: NamedValueMap)
        ensures
            map@ == self@.insert(name@, value@),
    {
        proof {
            use_type_invariant(&self);
        }
        let ghost before = entry_models(self.entries@);
        let found = self.position(name.as_slice());
        let mut entries = self.entries;
        match found {
            Some(i) => {
                proof {
                    lemma_map_of_update(before, i as int, value@);
                }
                entries.set(i, NamedValue { name, value });
                assert(entry_models(entries@) =~= before.update(
                    i as int,
                    (before[i as int].0, value@),
                ));
            },
            None => {
                entries.push(NamedValue { name, value });
                let ghost after = entry_models(entries@);
                assert(after.drop_last() =~= before);
                assert(after.last() == (name@, value@));
                assert(unique_names(after)) by {
                    assert forall|a: int, b: int| 0 <= a < b < after.len() implies (#[trigger] after[a]).0
                        != (#[trigger] after[b]).0 by {
                        if b < before.len() {
                            assert(after[a] == before[a] && after[b] == before[b]);
                        } else {
                            assert(self.entries@[a].name@ != name@);
                            assert(after[a] == before[a]);
                        }
                    }
                }
            },
        }
        NamedValueMap { entries }
    }

    /// The mapping that a list of named values stands for. Of two entries
    /// with one name the later counts.
    pub fn from_entries(entries: &Vec<NamedValue>) -> (map: NamedValueMap)
        ensures
            map@ == map_of(entry_models(entries@)),
    {
        let mut map = NamedValueMap::new();
        let mut i: usize = 0;
        while i < entries.len()
            invariant
                i <= entries@.len(),
                map@ == map_of(entry_models(entries@).subrange(0, i as int)),
            decreases entries.len() - i,
        {
            proof {
                let models = entry_models(entries@);
                assert(models.subrange(0, i + 1).drop_last() == models.subrange(0, i as int));
                assert(models.subrange(0, i + 1).last() == entries@[i as int]@);
            }
            let named = entries[i].copy();
            map = map.insert(named.name, named.value);
            i += 1;
        }
        assert(entry_models(entries@).subrange(0, entries@.len() as int) == entry_models(
            entries@,
        ));
        map
    }

    /// Decodes the records that the plugin handed over. Of two records with
    /// one name the later counts. Fails exactly when a record's tag is
    /// unknown, with the first such tag in the error.
    pub fn from_raw(raws: &Vec<RawNamedValue>) -> (r: Result<NamedValueMap, Error>)
        ensures
            match r {
                Ok(map) => decode_map(raw_models(raws@)) == Ok::<Map<Seq<u8>, ValueModel>, Error>(
                    map@,
                ),
                Err(e) => decode_map(raw_models(raws@)) == Err::<Map<Seq<u8>, ValueModel>, Error>(
                    e,
                ),
            },
    {
        let mut map = NamedValueMap::new();
        let mut i: usize = 0;
        while i < raws.len()
            invariant
                i <= raws@.len(),
                decode_map(raw_models(raws@).subrange(0, i as int)) == Ok::<
                    Map<Seq<u8>, ValueModel>,
                    Error,
                >(map@),
            decreases raws.len() - i,
        {
            proof {
                let models = raw_models(raws@);
                assert(models.subrange(0, i + 1).drop_last() == models.subrange(0, i as int));
                assert(models.subrange(0, i + 1).last() == raws@[i as int]@);
            }
            match NamedValue::from_raw(&raws[i]) {
                Ok(named) => {
                    map = map.insert(named.name, named.value);
                },
                Err(e) => {
                    proof {
                        lemma_decode_map_fails(raw_models(raws@), i as int);
                    }
                    return Err(e);
                },
            }
            i += 1;
        }
        assert(raw_models(raws@).subrange(0, raws@.len() as int) == raw_models(raws@));
        Ok(map)
    }

    /// Encodes every entry as a record for the plugin, one record per name.
    /// The entries are the mapping: no name occurs twice among them, and the
    /// mapping holds exactly what they hold.
    pub fn to_raw(&self) -> (raws: Vec<RawNamedValue>)
        ensures
            raw_models(raws@) == encode_entries(self.entries()),
            unique_names(self.entries()),
            self@ == map_of(self.entries()),
    {
        proof {
            use_type_invariant(self);
        }
        let mut raws: Vec<RawNamedValue> = Vec::with_capacity(self.entries.len());
        let mut i: usize = 0;
        while i < self.entries.len()
            invariant
                i <= self.entries@.len(),
                raws@.len() == i,
                forall|j: int| 0 <= j < i ==> (#[trigger] raws@[j])@ == encode_value(
                    self.entries@[j]@,
                ),
            decreases self.entries.len() - i,
        {
            raws.push(self.entries[i].to_raw());
            i += 1;
        }
        assert(raw_models(raws@) =~= encode_entries(self.entries()));
        raws
    }
}

/// Once a prefix of the records fails to decode, so does the whole list,
/// with the same error.
pub proof fn lemma_decode_map_fails(raws: Seq<RawValueModel>, i: int)
    requires
        0 <= i < raws.len(),
        decode_map(raws.subrange(0, i)).is_ok(),
        decode_value(raws[i]).is_err(),
    ensures
        decode_value(raws[i]) matches Err(e) && decode_map(raws) == Err::<
            Map<Seq<u8>, ValueModel>,
            Error,
        >(e),
    decreases raws.len(),
{
    if i == raws.len() - 1 {
        assert(raws.drop_last() == raws.subrange(0, i));
    } else {
        assert(raws.drop_last().subrange(0, i) == raws.subrange(0, i));
        lemma_decode_map_fails(raws.drop_last(), i);
    }
}

/// What is encoded for the plugin decodes to the same mapping: the same
/// names with the same values, for every kind of value and in whatever order
/// the entries were kept.
pub proof fn lemma_map_round_trip(entries: Seq<(Seq<u8>, ValueModel)>)
    ensures
        decode_map(encode_entries(entries)) == Ok::<Map<Seq<u8>, ValueModel>, Error>(
            map_of(entries),
        ),
    decreases entries.len(),
{
    if entries.len() > 0 {
        lemma_map_round_trip(entries.drop_last());
        assert(encode_entries(entries).drop_last() == encode_entries(entries.drop_last()));
        assert(encode_entries(entries).last() == encode_value(entries.last()));
        lemma_value_round_trip(entries.last());
    }
}

} // verus!
