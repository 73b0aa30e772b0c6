use struct_name_index_map::{ModuleId, StructIdentifier, StructNameIndex, StructNameIndexMap,
    TableError, TypeTag};

fn make_struct_name(module_name: &str, struct_name: &str) -> StructIdentifier {
    let module = ModuleId { address: vec![1u8], name: module_name.to_string() };
    StructIdentifier { module, name: struct_name.to_string() }
}

#[test]
fn test_index_map_must_contain_idx() {
    let struct_name_idx_map = StructNameIndexMap::empty();
    assert!(struct_name_idx_map.idx_to_struct_name_ref(StructNameIndex(0)).is_err());
}

#[test]
fn test_index_map() {
    let struct_name_idx_map = StructNameIndexMap::empty();

    // First-time access.

    let foo = make_struct_name("foo", "Foo");
    let foo_idx = struct_name_idx_map.struct_name_to_idx(foo.clone()).unwrap();
    assert_eq!(foo_idx.0, 0);

    let bar = make_struct_name("bar", "Bar");
    let bar_idx = struct_name_idx_map.struct_name_to_idx(bar.clone()).unwrap();
    assert_eq!(bar_idx.0, 1);

    // Check that struct names actually correspond to indices.
    let returned_foo = struct_name_idx_map.idx_to_struct_name_ref(foo_idx).unwrap();
    assert_eq!(returned_foo.as_ref(), &foo);
    let returned_bar = struct_name_idx_map.idx_to_struct_name_ref(bar_idx).unwrap();
    assert_eq!(returned_bar.as_ref(), &bar);

    // Re-check indices on second access.
    let foo_idx = struct_name_idx_map.struct_name_to_idx(foo).unwrap();
    assert_eq!(foo_idx.0, 0);
    let bar_idx = struct_name_idx_map.struct_name_to_idx(bar).unwrap();
    assert_eq!(bar_idx.0, 1);

    let len = struct_name_idx_map.checked_len().unwrap();
    assert_eq!(len, 2);
}

#[test]
fn intern_repeated_single_struct_name() {
    let struct_name_idx_map = StructNameIndexMap::empty();
    let struct_name = make_struct_name("foo", "Foo");

    let first = struct_name_idx_map.struct_name_to_idx(struct_name.clone()).unwrap();
    for _ in 0..50 {
        let idx = struct_name_idx_map.struct_name_to_idx(struct_name.clone()).unwrap();
        assert_eq!(idx, first);
    }

    // Only a single struct name must be cached.
    let len = struct_name_idx_map.checked_len().unwrap();
    assert_eq!(len, 1);
}

#[test]
fn intern_distinct_names_densely() {
    let map = StructNameIndexMap::empty();
    let names: Vec<StructIdentifier> = (0..10)
        .map(|i| make_struct_name(&format!("m{}", i), &format!("S{}", i)))
        .collect();

    for (expected, name) in names.iter().enumerate() {
        let idx = map.struct_name_to_idx(name.clone()).unwrap();
        assert_eq!(idx.0, expected);
    }
    assert_eq!(map.checked_len().unwrap(), 10);

    // Each handle leads back to the identifier that produced it.
    for (handle, name) in names.iter().enumerate() {
        let stored = map.idx_to_struct_name_ref(StructNameIndex(handle)).unwrap();
        assert_eq!(stored.as_ref(), name);
    }
}

#[test]
fn lookups_out_of_bounds() {
    let map = StructNameIndexMap::empty();

    // On an empty table, handle 0 already fails, with the out-of-bounds kind.
    let err = map.idx_to_struct_name_ref(StructNameIndex(0)).unwrap_err();
    assert_eq!(err, TableError::IndexOutOfBounds { index: 0, length: 0 });
    let err = map.idx_to_struct_name(StructNameIndex(0)).unwrap_err();
    assert_eq!(err, TableError::IndexOutOfBounds { index: 0, length: 0 });
    let err = map.idx_to_struct_tag(StructNameIndex(0), vec![]).unwrap_err();
    assert_eq!(err, TableError::IndexOutOfBounds { index: 0, length: 0 });

    map.struct_name_to_idx(make_struct_name("foo", "Foo")).unwrap();

    // A handle equal to the current length is the first one out of range.
    let err = map.idx_to_struct_name_ref(StructNameIndex(1)).unwrap_err();
    assert_eq!(err, TableError::IndexOutOfBounds { index: 1, length: 1 });
    let err = map.idx_to_struct_name(StructNameIndex(7)).unwrap_err();
    assert_eq!(err, TableError::IndexOutOfBounds { index: 7, length: 1 });
    let err = map.idx_to_struct_tag(StructNameIndex(1), vec![TypeTag::U8]).unwrap_err();
    assert_eq!(err, TableError::IndexOutOfBounds { index: 1, length: 1 });

    // In-range handles still succeed.
    assert!(map.idx_to_struct_name_ref(StructNameIndex(0)).is_ok());
}

#[test]
fn flush_resets_numbering() {
    let map = StructNameIndexMap::empty();
    map.struct_name_to_idx(make_struct_name("foo", "Foo")).unwrap();
    map.struct_name_to_idx(make_struct_name("bar", "Bar")).unwrap();
    assert_eq!(map.checked_len().unwrap(), 2);

    map.flush();
    assert_eq!(map.checked_len().unwrap(), 0);
    assert!(map.idx_to_struct_name_ref(StructNameIndex(0)).is_err());

    // The next intern starts over at handle 0, whatever existed before.
    let idx = map.struct_name_to_idx(make_struct_name("baz", "Baz")).unwrap();
    assert_eq!(idx.0, 0);
    assert_eq!(map.checked_len().unwrap(), 1);
}

#[test]
fn owned_lookup_matches_ref_lookup() {
    let map = StructNameIndexMap::empty();
    let foo = make_struct_name("foo", "Foo");
    let idx = map.struct_name_to_idx(foo.clone()).unwrap();

    let owned = map.idx_to_struct_name(idx).unwrap();
    assert_eq!(owned, foo);
    let shared = map.idx_to_struct_name_ref(idx).unwrap();
    assert_eq!(shared.as_ref(), &owned);
}

#[test]
fn tag_construction_fidelity() {
    let map = StructNameIndexMap::empty();
    let foo = make_struct_name("foo", "Foo");
    let idx = map.struct_name_to_idx(foo.clone()).unwrap();

    let tag = map.idx_to_struct_tag(idx, vec![TypeTag::Bool, TypeTag::U64]).unwrap();
    assert_eq!(tag.address, foo.module.address);
    assert_eq!(tag.module, "foo".to_string());
    assert_eq!(tag.name, "Foo".to_string());
    assert_eq!(tag.type_args, vec![TypeTag::Bool, TypeTag::U64]);

    // An empty argument list passes through as such.
    let tag = map.idx_to_struct_tag(idx, vec![]).unwrap();
    assert_eq!(tag.type_args, vec![]);
}

#[test]
fn snapshot_clone_is_point_in_time() {
    let map = StructNameIndexMap::empty();
    let foo = make_struct_name("foo", "Foo");
    map.struct_name_to_idx(foo.clone()).unwrap();

    let snapshot = map.snapshot_clone();
    assert_eq!(snapshot.checked_len().unwrap(), 1);
    let stored = snapshot.idx_to_struct_name_ref(StructNameIndex(0)).unwrap();
    assert_eq!(stored.as_ref(), &foo);

    // Growing the original leaves the snapshot untouched, and the other way
    // round.
    map.struct_name_to_idx(make_struct_name("bar", "Bar")).unwrap();
    assert_eq!(map.checked_len().unwrap(), 2);
    assert_eq!(snapshot.checked_len().unwrap(), 1);

    snapshot.struct_name_to_idx(make_struct_name("baz", "Baz")).unwrap();
    assert_eq!(map.checked_len().unwrap(), 2);
    assert_eq!(snapshot.checked_len().unwrap(), 2);
}
