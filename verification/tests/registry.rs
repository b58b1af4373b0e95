use openjill_game::background::{is_lava_name, is_water_name};
use openjill_game::items::{StubObjectEntity, WarnedTypes};
use openjill_game::objects::{object_type_entry, object_type_id, object_type_name, OBJECT_TYPE_COUNT};

#[test]
fn is_lava_name_matches_lava1_through_lava5() {
    for name in ["LAVA1", "LAVA2", "LAVA3", "LAVA4", "LAVA5"] {
        assert!(is_lava_name(name), "{name} must be classified as lava");
    }
    assert!(!is_lava_name("LAVA"));
    assert!(!is_lava_name("LAVA6"));
    assert!(!is_lava_name("WATERTL"));
}

#[test]
fn is_water_name_accepts_all_orientation_and_animation_variants() {
    for prefix in ["TL", "TR", "RD", "LD", "ML", "MR"] {
        let base = format!("WATER{prefix}");
        assert!(is_water_name(&base), "{base} must be classified as water");
        for digit in ['2', '3', '4'] {
            let animated = format!("WATER{prefix}{digit}");
            assert!(is_water_name(&animated), "{animated} must be classified as water");
        }
    }
    assert!(!is_water_name("WATERTL5"));
    assert!(!is_water_name("WATER"));
    assert!(!is_water_name("BASETREE"));
}

#[test]
fn object_type_name_resolves_implemented_ids() {
    assert_eq!(object_type_name(0), Some("Player"));
    assert_eq!(object_type_name(48), Some("Gator"));
    assert_eq!(object_type_name(20), Some("TextTile"));
    assert_eq!(object_type_name(21), Some("TextTile"));
    assert_eq!(object_type_name(40), None);
    assert_eq!(object_type_name(99), None);
}

#[test]
fn object_type_id_is_case_insensitive_and_canonical() {
    assert_eq!(object_type_id("apple"), Some(1));
    assert_eq!(object_type_id("GATOR"), Some(48));
    assert_eq!(object_type_id("TextTile"), Some(20));
    assert_eq!(object_type_id("nope"), None);
}

#[test]
fn object_type_names_are_self_consistent() {
    for i in 0..OBJECT_TYPE_COUNT {
        let (id, name) = object_type_entry(i);
        assert_eq!(object_type_name(id), Some(name), "id {id} must name {name}");
    }
    for i in 1..OBJECT_TYPE_COUNT {
        assert!(
            object_type_entry(i - 1).0 < object_type_entry(i).0,
            "object type ids must be strictly ascending (unique)"
        );
    }
}

#[test]
fn record_warning_suppresses_duplicates() {
    let mut warned = WarnedTypes::new();
    assert!(StubObjectEntity::record_warning(&mut warned, 99));
    assert!(!StubObjectEntity::record_warning(&mut warned, 99));
    assert!(StubObjectEntity::record_warning(&mut warned, 100));
}

#[test]
fn every_name_looks_up_its_lowest_id() {
    for k in 0..OBJECT_TYPE_COUNT {
        let (id, name) = object_type_entry(k);
        let found = object_type_id(&name.to_ascii_uppercase()).expect("a table name resolves");
        assert!(found <= id);
        assert_eq!(object_type_name(found), Some(name));
    }
}
