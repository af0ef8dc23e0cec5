use xaugh::atom::{get_atom, init_atoms, register_atom};

#[test]
fn interning_twice_gives_the_same_id() {
    let mut atoms = init_atoms();
    let first = get_atom(&mut atoms, false, "FOO".to_string());
    let second = get_atom(&mut atoms, false, "FOO".to_string());
    assert_eq!(first, second);
    assert_eq!(first, 128);
}

#[test]
fn only_if_exists_on_an_unseen_name_gives_zero() {
    let mut atoms = init_atoms();
    assert_eq!(get_atom(&mut atoms, true, "BAR".to_string()), 0);
    assert_eq!(atoms.atom_name(128), None);
    // The table is unchanged: the next new name still gets the first dynamic id.
    assert_eq!(get_atom(&mut atoms, false, "BAZ".to_string()), 128);
    assert_eq!(get_atom(&mut atoms, true, "BAR".to_string()), 0);
}

#[test]
fn only_if_exists_finds_a_registered_name() {
    let mut atoms = init_atoms();
    assert_eq!(get_atom(&mut atoms, true, "RESOURCE_MANAGER".to_string()), 23);
    let id = get_atom(&mut atoms, false, "FOO".to_string());
    assert_eq!(get_atom(&mut atoms, true, "FOO".to_string()), id);
}

#[test]
fn resource_manager_is_predefined() {
    let mut atoms = init_atoms();
    assert_eq!(atoms.atom_name(23), Some("RESOURCE_MANAGER".to_string()));
    for name in ["A", "B", "C"] {
        get_atom(&mut atoms, false, name.to_string());
    }
    register_atom(&mut atoms, "D".to_string());
    assert_eq!(atoms.atom_name(23), Some("RESOURCE_MANAGER".to_string()));
    assert_eq!(atoms.atom_name(0), None);
}

#[test]
fn new_names_get_sequential_ids() {
    let mut atoms = init_atoms();
    assert_eq!(get_atom(&mut atoms, false, "WM_PROTOCOLS".to_string()), 128);
    assert_eq!(get_atom(&mut atoms, false, "WM_PROTOCOLS".to_string()), 128);
    assert_eq!(get_atom(&mut atoms, false, "WM_DELETE_WINDOW".to_string()), 129);
    assert_eq!(atoms.atom_name(129), Some("WM_DELETE_WINDOW".to_string()));
}

#[test]
fn register_atom_keeps_the_table_a_bijection() {
    let mut atoms = init_atoms();
    register_atom(&mut atoms, "FOO".to_string());
    register_atom(&mut atoms, "FOO".to_string());
    assert_eq!(atoms.atom_name(128), Some("FOO".to_string()));
    assert_eq!(atoms.atom_name(129), None);
    assert_eq!(get_atom(&mut atoms, false, "BAR".to_string()), 129);
}

#[test]
fn interleaved_sessions_get_distinct_ids() {
    let mut atoms = init_atoms();
    let names = ["S0", "S1", "S2", "S3", "S4", "S5", "S6", "S7"];
    let mut ids = Vec::new();
    // Each name is interned twice, by two sessions taking turns on the table.
    for round in 0..2 {
        for (i, name) in names.iter().enumerate() {
            let id = get_atom(&mut atoms, false, name.to_string());
            if round == 0 {
                ids.push(id);
            } else {
                assert_eq!(ids[i], id);
            }
        }
    }
    let mut sorted = ids.clone();
    sorted.sort();
    sorted.dedup();
    assert_eq!(sorted.len(), names.len());
    assert_eq!(sorted, (128..136).collect::<Vec<u32>>());
}
