use pjrt::error::{Error, ErrorKind};
use pjrt::named_value::{
    same_bytes, NamedValue, NamedValueMap, RawNamedValue, Value, BOOL_TAG, FLOAT_TAG,
    INT64_LIST_TAG, INT64_TAG, STRING_TAG,
};

fn blank(name: &[u8], type_: u32) -> RawNamedValue {
    RawNamedValue {
        name: name.to_vec(),
        type_,
        string_value: vec![],
        int64_value: 0,
        int64_array_value: vec![],
        float_value: 0,
        bool_value: false,
        value_size: 1,
    }
}

fn every_kind() -> Vec<NamedValue> {
    vec![
        NamedValue { name: b"platform".to_vec(), value: Value::String(b"cpu".to_vec()) },
        NamedValue { name: b"empty".to_vec(), value: Value::String(vec![]) },
        NamedValue { name: b"count".to_vec(), value: Value::I64(-42) },
        NamedValue { name: b"devices".to_vec(), value: Value::I64List(vec![0, 1, i64::MIN]) },
        NamedValue { name: b"none".to_vec(), value: Value::I64List(vec![]) },
        NamedValue { name: b"fraction".to_vec(), value: Value::F32(0.75f32.to_bits()) },
        NamedValue { name: b"nan".to_vec(), value: Value::F32(f32::NAN.to_bits()) },
        NamedValue { name: b"preallocate".to_vec(), value: Value::Bool(true) },
        NamedValue { name: b"".to_vec(), value: Value::Bool(false) },
    ]
}

#[test]
fn tags_follow_the_plugin() {
    assert_eq!(
        [STRING_TAG, INT64_TAG, INT64_LIST_TAG, FLOAT_TAG, BOOL_TAG],
        [0, 1, 2, 3, 4]
    );
}

#[test]
fn each_kind_encodes_to_its_record() {
    let string = NamedValue { name: b"k".to_vec(), value: Value::String(b"abc".to_vec()) };
    let mut expected = blank(b"k", 0);
    expected.string_value = b"abc".to_vec();
    expected.value_size = 3;
    assert_eq!(string.to_raw(), expected);

    let int = NamedValue { name: b"k".to_vec(), value: Value::I64(7) };
    let mut expected = blank(b"k", 1);
    expected.int64_value = 7;
    assert_eq!(int.to_raw(), expected);

    let list = NamedValue { name: b"k".to_vec(), value: Value::I64List(vec![1, 2]) };
    let mut expected = blank(b"k", 2);
    expected.int64_array_value = vec![1, 2];
    expected.value_size = 2;
    assert_eq!(list.to_raw(), expected);

    let float = NamedValue { name: b"k".to_vec(), value: Value::F32(1.5f32.to_bits()) };
    let mut expected = blank(b"k", 3);
    expected.float_value = 0x3fc0_0000;
    assert_eq!(float.to_raw(), expected);

    let truth = NamedValue { name: b"k".to_vec(), value: Value::Bool(true) };
    let mut expected = blank(b"k", 4);
    expected.bool_value = true;
    assert_eq!(truth.to_raw(), expected);
}

#[test]
fn every_kind_round_trips() {
    for named in every_kind() {
        let raw = named.to_raw();
        assert_eq!(NamedValue::from_raw(&raw), Ok(named));
    }
}

#[test]
fn decoding_reads_only_the_field_of_the_tag() {
    let mut raw = blank(b"k", INT64_TAG);
    raw.int64_value = 5;
    raw.string_value = b"noise".to_vec();
    raw.bool_value = true;
    assert_eq!(
        NamedValue::from_raw(&raw),
        Ok(NamedValue { name: b"k".to_vec(), value: Value::I64(5) })
    );
}

#[test]
fn unknown_value_tag_is_reported() {
    let err = NamedValue::from_raw(&blank(b"k", 5)).unwrap_err();
    assert_eq!(err, Error::InvalidNamedValueType(5));
    assert_eq!(err.kind(), ErrorKind::UnrecognizedVariant);
}

#[test]
fn insert_and_get() {
    let map = NamedValueMap::new();
    assert_eq!(map.len(), 0);
    assert_eq!(map.get(b"a"), None);
    let map = map.insert(b"a".to_vec(), Value::I64(1));
    let map = map.insert(b"b".to_vec(), Value::Bool(true));
    assert_eq!(map.len(), 2);
    assert_eq!(map.get(b"a"), Some(&Value::I64(1)));
    assert_eq!(map.get(b"b"), Some(&Value::Bool(true)));
    assert_eq!(map.get(b"c"), None);
    assert_eq!(map.get(b"ab"), None);
}

#[test]
fn insert_replaces_the_value_of_a_name() {
    let map = NamedValueMap::new()
        .insert(b"a".to_vec(), Value::I64(1))
        .insert(b"b".to_vec(), Value::I64(2))
        .insert(b"a".to_vec(), Value::String(b"new".to_vec()));
    assert_eq!(map.len(), 2);
    assert_eq!(map.get(b"a"), Some(&Value::String(b"new".to_vec())));
    assert_eq!(map.get(b"b"), Some(&Value::I64(2)));
}

#[test]
fn map_round_trips_whatever_the_order() {
    let mut forward = NamedValueMap::new();
    for named in every_kind() {
        forward = forward.insert(named.name, named.value);
    }
    let mut backward = NamedValueMap::new();
    for named in every_kind().into_iter().rev() {
        backward = backward.insert(named.name, named.value);
    }
    for map in [forward, backward] {
        let raws = map.to_raw();
        assert_eq!(raws.len(), every_kind().len());
        let back = NamedValueMap::from_raw(&raws).unwrap();
        assert_eq!(back.len(), map.len());
        for named in every_kind() {
            assert_eq!(back.get(&named.name), Some(&named.value));
            assert_eq!(map.get(&named.name), Some(&named.value));
        }
        // Encoding what came back gives the same records again.
        assert_eq!(back.to_raw(), raws);
    }
}

#[test]
fn the_later_of_two_records_with_one_name_counts() {
    let mut first = blank(b"k", INT64_TAG);
    first.int64_value = 1;
    let mut other = blank(b"j", BOOL_TAG);
    other.bool_value = true;
    let mut second = blank(b"k", INT64_TAG);
    second.int64_value = 2;
    let map = NamedValueMap::from_raw(&vec![first, other, second]).unwrap();
    assert_eq!(map.len(), 2);
    assert_eq!(map.get(b"k"), Some(&Value::I64(2)));
    assert_eq!(map.get(b"j"), Some(&Value::Bool(true)));
}

#[test]
fn the_first_unknown_tag_fails_the_list() {
    let raws = vec![blank(b"a", 1), blank(b"b", 9), blank(b"c", 8)];
    assert_eq!(NamedValueMap::from_raw(&raws).unwrap_err(), Error::InvalidNamedValueType(9));
    assert_eq!(NamedValueMap::from_raw(&vec![]).unwrap().len(), 0);
}

#[test]
fn byte_strings_compare_by_content() {
    assert!(same_bytes(b"", b""));
    assert!(same_bytes(b"abc", b"abc"));
    assert!(!same_bytes(b"abc", b"abd"));
    assert!(!same_bytes(b"abc", b"ab"));
    assert!(!same_bytes(b"", b"a"));
}

#[test]
fn values_copy_with_their_content() {
    for named in every_kind() {
        assert_eq!(named.copy(), named);
        assert_eq!(named.value.copy(), named.value);
    }
}

#[test]
fn a_list_of_entries_becomes_the_mapping() {
    let entries = every_kind();
    let map = NamedValueMap::from_entries(&entries);
    assert_eq!(map.len(), entries.len());
    for named in &entries {
        assert_eq!(map.get(&named.name), Some(&named.value));
    }
    assert_eq!(NamedValueMap::from_entries(&vec![]).len(), 0);
}

#[test]
fn the_later_of_two_entries_with_one_name_counts() {
    let entries = vec![
        NamedValue { name: b"k".to_vec(), value: Value::I64(1) },
        NamedValue { name: b"j".to_vec(), value: Value::Bool(false) },
        NamedValue { name: b"k".to_vec(), value: Value::I64(2) },
    ];
    let map = NamedValueMap::from_entries(&entries);
    assert_eq!(map.len(), 2);
    assert_eq!(map.get(b"k"), Some(&Value::I64(2)));
    assert_eq!(map.get(b"j"), Some(&Value::Bool(false)));
    let raws = map.to_raw();
    assert_eq!(raws.len(), 2);
}
