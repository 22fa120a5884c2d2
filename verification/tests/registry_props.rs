use stepflow_web::Registry;
use stepflow_web::RegistryError;

#[test]
fn reserved_ids_are_distinct_and_increasing() {
    // identifiers issued by a registry never repeat and grow in issuance
    // order, whether or not the reservations are ever bound
    let mut reg: Registry<u64> = Registry::new();
    let mut seen: Vec<u16> = Vec::new();
    for round in 0..20u64 {
        let id = if round % 3 == 0 {
            reg.reserve_id().unwrap()
        } else {
            reg.insert_new(round).unwrap()
        };
        for old in &seen {
            assert!(*old < id);
        }
        seen.push(id);
    }
}

#[test]
fn identifier_zero_is_ordinary() {
    let mut reg: Registry<&str> = Registry::new();
    let id = reg.insert_new("first").unwrap();
    assert_eq!(id, 0);
    assert_eq!(reg.get(0), Some(&"first"));
}

#[test]
fn reserve_then_register() {
    let mut reg: Registry<u32> = Registry::new();
    let id = reg.reserve_id().unwrap();
    assert_eq!(reg.get(id), None);
    reg.register(id, 7).unwrap();
    assert_eq!(reg.get(id), Some(&7));
    // binding twice is refused
    assert_eq!(reg.register(id, 8), Err(RegistryError::IdAlreadyExists(id)));
    // binding an identifier that was never issued is refused
    assert_eq!(reg.register(40, 9), Err(RegistryError::IdNotReserved(40)));
}

#[test]
fn name_roundtrip() {
    // for every named entry, resolving its name yields its identifier and
    // reading that identifier's name yields the name again
    let mut reg: Registry<u32> = Registry::new();
    let a = reg.insert_new_named("alpha".to_owned(), 1).unwrap();
    let _anon = reg.insert_new(2).unwrap();
    let b = reg.insert_new_named("beta".to_owned(), 3).unwrap();

    assert_eq!(reg.id_from_name("alpha"), Some(a));
    assert_eq!(reg.id_from_name("beta"), Some(b));
    assert_eq!(reg.name_from_id(a).map(|n| n.as_str()), Some("alpha"));
    assert_eq!(reg.name_from_id(b).map(|n| n.as_str()), Some("beta"));
    assert_eq!(reg.id_from_name(reg.name_from_id(a).unwrap().as_str()), Some(a));
    assert_eq!(reg.id_from_name(reg.name_from_id(b).unwrap().as_str()), Some(b));

    // an anonymous entry is a legitimate state, not an error
    assert_eq!(reg.name_from_id(_anon), None);
    assert_eq!(reg.id_from_name("missing"), None);
}

#[test]
fn duplicate_name_is_refused_but_consumes_the_id() {
    let mut reg: Registry<u32> = Registry::new();
    let a = reg.insert_new_named("n".to_owned(), 1).unwrap();
    let err = reg.insert_new_named("n".to_owned(), 2);
    assert_eq!(err, Err(RegistryError::NameAlreadyExists("n".to_owned())));
    // the failed insertion wasted an identifier: the next one skips it
    let c = reg.insert_new(3).unwrap();
    assert_eq!(a, 0);
    assert_eq!(c, 2);
    // the name still resolves to the first entry
    assert_eq!(reg.id_from_name("n"), Some(a));
}

#[test]
fn get_mut_updates_in_place() {
    let mut reg: Registry<u32> = Registry::new();
    let id = reg.insert_new(5).unwrap();
    *reg.get_mut(id) = 6;
    assert_eq!(reg.get(id), Some(&6));
}

#[test]
fn iter_names_lists_named_entries_in_order() {
    let mut reg: Registry<u32> = Registry::new();
    reg.insert_new_named("one".to_owned(), 1).unwrap();
    reg.insert_new(2).unwrap();
    reg.insert_new_named("three".to_owned(), 3).unwrap();
    let names = reg.iter_names();
    assert_eq!(names.len(), 2);
    assert_eq!(names[0].0.as_str(), "one");
    assert_eq!(names[0].1, 0);
    assert_eq!(names[1].0.as_str(), "three");
    assert_eq!(names[1].1, 2);
}
