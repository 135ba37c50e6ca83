use mls_mpm::{MaterialDescriptor, MaterialDict, MaterialError, MaterialName};

fn descriptor(name: &str, kind: u32) -> MaterialDescriptor<u32> {
    MaterialDescriptor::new(MaterialName::new(name), kind)
}

#[test]
fn register_assigns_consecutive_ids() {
    let mut dict: MaterialDict<u32> = MaterialDict::new();
    assert!(dict.register(descriptor("water", 100)).is_ok());
    assert!(dict.register(descriptor("honey", 200)).is_ok());
    assert_eq!(dict.len(), 2);
    let (water_id, water_kind) = dict.lookup(&MaterialName::new("water")).unwrap();
    let (honey_id, honey_kind) = dict.lookup(&MaterialName::new("honey")).unwrap();
    assert_eq!(water_id.value(), 0);
    assert_eq!(*water_kind, 100);
    assert_eq!(honey_id.value(), 1);
    assert_eq!(*honey_kind, 200);
}

#[test]
fn register_can_be_chained() {
    let mut dict: MaterialDict<u32> = MaterialDict::new();
    dict.register(descriptor("a", 1))
        .unwrap()
        .register(descriptor("b", 2))
        .unwrap();
    assert_eq!(dict.len(), 2);
}

#[test]
fn register_rejects_duplicate_name() {
    let mut dict: MaterialDict<u32> = MaterialDict::new();
    dict.register(descriptor("water", 1)).unwrap();
    match dict.register(descriptor("water", 2)) {
        Err(MaterialError::Conflict(name)) => assert_eq!(name.as_str(), "water"),
        _ => panic!("duplicate name accepted"),
    }
    assert_eq!(dict.len(), 1);
    let (_, kind) = dict.lookup(&MaterialName::new("water")).unwrap();
    assert_eq!(*kind, 1);
}

#[test]
fn get_returns_registered_name() {
    let mut dict: MaterialDict<u32> = MaterialDict::new();
    dict.register(descriptor("water", 1)).unwrap();
    let name = dict.get("water").unwrap();
    assert_eq!(name.as_str(), "water");
    assert!(name == MaterialName::new("water"));
}

#[test]
fn get_reports_missing_name() {
    let dict: MaterialDict<u32> = MaterialDict::new();
    match dict.get("lava") {
        Err(MaterialError::NotFound(name)) => assert_eq!(name, "lava"),
        _ => panic!("missing name found"),
    }
    assert!(dict.lookup(&MaterialName::new("lava")).is_none());
}

#[test]
fn entries_are_in_id_order() {
    let mut dict: MaterialDict<u32> = MaterialDict::default();
    for (i, name) in ["a", "b", "c"].iter().enumerate() {
        dict.register(descriptor(name, i as u32 * 10)).unwrap();
    }
    let names: Vec<&str> = dict.entries().iter().map(|e| e.name().as_str()).collect();
    assert_eq!(names, vec!["a", "b", "c"]);
    let kinds: Vec<u32> = dict.entries().iter().map(|e| *e.kind()).collect();
    assert_eq!(kinds, vec![0, 10, 20]);
}

#[test]
fn clone_keeps_names_and_ids() {
    let mut dict: MaterialDict<u32> = MaterialDict::new();
    dict.register(descriptor("x", 5)).unwrap();
    dict.register(descriptor("y", 6)).unwrap();
    let copy = dict.clone();
    let (id, kind) = copy.lookup(&MaterialName::new("y")).unwrap();
    assert_eq!(id.value(), 1);
    assert_eq!(*kind, 6);
}

#[test]
fn material_name_accessors() {
    let name = MaterialName::new("snow");
    assert_eq!(name.to_string(), "snow".to_string());
    assert!(name.duplicate() == name);
    assert!(name != MaterialName::new("sand"));
}
