//! The catalog and the load-time registration sequence, run against the
//! engine registry model with the real generator library linked in.

use fakeit_ext::Batch;
use fakeit_ext::CatalogEntry;
use fakeit_ext::ColumnData;
use fakeit_ext::EngineRegistry;
use fakeit_ext::NativeFn;
use fakeit_ext::RegistrationError;
use fakeit_ext::TextGen;
use fakeit_ext::catalog;
use fakeit_ext::register_all;
use fakeit_ext::register_entries;

#[test]
fn catalog_has_every_entry_in_order() {
    let entries = catalog();
    assert_eq!(entries.len(), 118);
    assert_eq!(entries[0].name, "fakeit_address_street");
    assert_eq!(entries[11].name, "fakeit_address_latitude");
    assert_eq!(entries[117].name, "fakeit_status_code_general");
    // Every SQL-callable name is unique and carries the catalog prefix.
    let mut names: Vec<&str> = entries.iter().map(|e| e.name.as_str()).collect();
    assert!(names.iter().all(|n| n.starts_with("fakeit_")));
    names.sort();
    names.dedup();
    assert_eq!(names.len(), 118);
}

#[test]
fn register_all_registers_the_whole_catalog() {
    let mut reg = EngineRegistry::new();
    assert_eq!(register_all(&mut reg), Ok(()));
    assert_eq!(reg.len(), 118);
    // Each registration attempt created and destroyed one descriptor.
    assert_eq!(reg.descriptors_created, 118);
    assert_eq!(reg.descriptors_destroyed, 118);
}

#[test]
fn registered_text_function_fills_a_batch() {
    let mut reg = EngineRegistry::new();
    register_all(&mut reg).unwrap();
    let out = reg
        .invoke_by_name(&"fakeit_name_first".to_string(), &Batch::zero_arg(3))
        .unwrap();
    match out {
        ColumnData::Text(cells) => {
            assert_eq!(cells.len(), 3);
            assert!(!cells[0].is_empty());
            // A zero-argument function is called once per batch and its
            // result broadcast to every row.
            assert_eq!(cells[0], cells[1]);
            assert_eq!(cells[1], cells[2]);
        }
        other => panic!("expected a text column, got {:?}", other),
    }
}

#[test]
fn registered_numeric_functions_fill_batches() {
    let mut reg = EngineRegistry::new();
    register_all(&mut reg).unwrap();

    let ints = reg
        .invoke_by_name(&"fakeit_status_code_simple".to_string(), &Batch::zero_arg(4))
        .unwrap();
    match ints {
        ColumnData::Integer64(cells) => {
            assert_eq!(cells.len(), 4);
            assert!(cells.iter().all(|c| (100..=599).contains(c)));
        }
        other => panic!("expected an integer column, got {:?}", other),
    }

    let floats = reg
        .invoke_by_name(&"fakeit_address_latitude".to_string(), &Batch::zero_arg(2))
        .unwrap();
    match floats {
        ColumnData::Float64(cells) => {
            assert_eq!(cells.len(), 2);
            let value = f64::from_bits(cells[0]);
            assert!((-90.0..=90.0).contains(&value));
        }
        other => panic!("expected a float column, got {:?}", other),
    }

    let bools = reg
        .invoke_by_name(&"fakeit_bool".to_string(), &Batch::zero_arg(5))
        .unwrap();
    match bools {
        ColumnData::Boolean(cells) => assert_eq!(cells.len(), 5),
        other => panic!("expected a boolean column, got {:?}", other),
    }
}

#[test]
fn second_registration_of_catalog_fails_on_first_name() {
    let mut reg = EngineRegistry::new();
    register_all(&mut reg).unwrap();
    match register_all(&mut reg) {
        Err(RegistrationError::DuplicateOrInvalid(name)) => {
            assert_eq!(name, "fakeit_address_street");
        }
        Ok(()) => panic!("registering the catalog twice must fail"),
    }
    // The failed sequence registered nothing new and corrupted nothing.
    assert_eq!(reg.len(), 118);
    let out = reg
        .invoke_by_name(&"fakeit_animal_dog".to_string(), &Batch::zero_arg(1))
        .unwrap();
    match out {
        ColumnData::Text(cells) => assert_eq!(cells.len(), 1),
        other => panic!("expected a text column, got {:?}", other),
    }
}

#[test]
fn register_entries_stops_at_first_offender() {
    let mut reg = EngineRegistry::new();
    let entries = vec![
        CatalogEntry {
            name: "one".to_string(),
            native: NativeFn::Text0(TextGen::Fixed("1".to_string())),
        },
        CatalogEntry {
            name: "two".to_string(),
            native: NativeFn::Text0(TextGen::Fixed("2".to_string())),
        },
        CatalogEntry {
            name: "one".to_string(),
            native: NativeFn::Text0(TextGen::Fixed("3".to_string())),
        },
        CatalogEntry {
            name: "four".to_string(),
            native: NativeFn::Text0(TextGen::Fixed("4".to_string())),
        },
    ];
    match register_entries(&mut reg, entries) {
        Err(RegistrationError::DuplicateOrInvalid(name)) => assert_eq!(name, "one"),
        Ok(()) => panic!("a repeated name within the list must fail"),
    }
    // The entries before the offender are registered, the rest are not.
    assert_eq!(reg.len(), 2);
    assert!(reg.contains(&"one".to_string()));
    assert!(reg.contains(&"two".to_string()));
    assert!(!reg.contains(&"four".to_string()));
}
