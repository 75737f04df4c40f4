use familytree::errors::StoreError;
use familytree::person::Person;
use familytree::relationship::Relationship;
use familytree::store::FamilyTree;

fn person(id: &str, first: &str, last: &str) -> Person {
    Person {
        id: id.to_string(),
        first_name: first.to_string(),
        last_name: last.to_string(),
        birth_date: None,
        death_date: None,
        photo: None,
        generation: 0,
        position_x: None,
        position_y: None,
        created_at: "t0".to_string(),
        updated_at: "t0".to_string(),
    }
}

fn relationship(id: &str, from: &str, to: &str, rel_type: &str) -> Relationship {
    Relationship {
        id: id.to_string(),
        from_person_id: from.to_string(),
        to_person_id: to.to_string(),
        rel_type: rel_type.to_string(),
        spouse_type: None,
        marriage_number: None,
        start_date: None,
        end_date: None,
        color: "#000000".to_string(),
        created_at: "t0".to_string(),
        updated_at: "t0".to_string(),
    }
}

#[test]
fn create_then_get_person_round_trip() {
    let mut t = FamilyTree::new();
    let p = person("p1", "Ada", "Lovelace");
    let created = t.create_person(p.clone()).unwrap();
    assert_eq!(created, p);
    let got = t.get_person(&"p1".to_string());
    assert_eq!(got, Some(p));
}

#[test]
fn get_person_not_found_is_none() {
    let t = FamilyTree::new();
    assert_eq!(t.get_person(&"missing".to_string()), None);
}

#[test]
fn get_all_persons_keeps_insertion_order() {
    let mut t = FamilyTree::new();
    t.create_person(person("a", "A", "A")).unwrap();
    t.create_person(person("b", "B", "B")).unwrap();
    t.create_person(person("c", "C", "C")).unwrap();
    let all = t.get_all_persons();
    let ids: Vec<String> = all.iter().map(|p| p.id.clone()).collect();
    assert_eq!(ids, vec!["a".to_string(), "b".to_string(), "c".to_string()]);
}

#[test]
fn create_person_duplicate_id_leaves_original_row() {
    let mut t = FamilyTree::new();
    let original = person("p1", "Ada", "Lovelace");
    t.create_person(original.clone()).unwrap();
    let imposter = person("p1", "Grace", "Hopper");
    assert_eq!(t.create_person(imposter), Err(StoreError::DuplicateId));
    assert_eq!(t.get_person(&"p1".to_string()), Some(original));
    assert_eq!(t.get_all_persons().len(), 1);
}

#[test]
fn update_person_replaces_mutable_fields_keeps_created_at() {
    let mut t = FamilyTree::new();
    t.create_person(person("p1", "Ada", "Lovelace")).unwrap();
    let mut revised = person("p1", "Augusta Ada", "King");
    revised.birth_date = Some("1815-12-10".to_string());
    revised.generation = 1;
    revised.created_at = "t9".to_string();
    revised.updated_at = "t1".to_string();
    let returned = t.update_person(revised.clone()).unwrap();
    assert_eq!(returned, revised);
    let stored = t.get_person(&"p1".to_string()).unwrap();
    assert_eq!(stored.first_name, "Augusta Ada");
    assert_eq!(stored.last_name, "King");
    assert_eq!(stored.birth_date, Some("1815-12-10".to_string()));
    assert_eq!(stored.generation, 1);
    assert_eq!(stored.updated_at, "t1");
    assert_eq!(stored.created_at, "t0");
}

#[test]
fn update_person_nonexistent_reports_not_found_store_unchanged() {
    let mut t = FamilyTree::new();
    t.create_person(person("p1", "Ada", "Lovelace")).unwrap();
    let before = t.get_all_persons();
    let r = t.update_person(person("ghost", "No", "Body"));
    assert_eq!(r, Err(StoreError::NotFound));
    assert_eq!(t.get_all_persons(), before);
}

#[test]
fn delete_person_then_get_is_none() {
    let mut t = FamilyTree::new();
    t.create_person(person("p1", "Ada", "Lovelace")).unwrap();
    t.delete_person(&"p1".to_string());
    assert_eq!(t.get_person(&"p1".to_string()), None);
    assert_eq!(t.get_all_persons().len(), 0);
}

#[test]
fn delete_person_absent_id_is_tolerated() {
    let mut t = FamilyTree::new();
    t.create_person(person("p1", "Ada", "Lovelace")).unwrap();
    t.delete_person(&"missing".to_string());
    assert_eq!(t.get_all_persons().len(), 1);
}

#[test]
fn person_positions_persisted_verbatim_as_bits() {
    let mut t = FamilyTree::new();
    let mut p = person("p1", "Ada", "Lovelace");
    p.position_x = Some((12.5f64).to_bits());
    p.position_y = Some((-3.25f64).to_bits());
    t.create_person(p).unwrap();
    let stored = t.get_person(&"p1".to_string()).unwrap();
    assert_eq!(f64::from_bits(stored.position_x.unwrap()), 12.5f64);
    assert_eq!(f64::from_bits(stored.position_y.unwrap()), -3.25f64);
}

#[test]
fn distinct_creates_yield_exactly_n_rows() {
    let mut t = FamilyTree::new();
    let ids = ["n1", "n2", "n3", "n4", "n5"];
    for id in ids.iter() {
        let r = t.create_person(person(id, "First", "Last"));
        assert!(r.is_ok());
    }
    assert_eq!(t.get_all_persons().len(), ids.len());
    for id in ids.iter() {
        assert!(t.get_person(&id.to_string()).is_some());
    }
}

#[test]
fn create_then_get_relationship_round_trip() {
    let mut t = FamilyTree::new();
    let r = relationship("r1", "p1", "p2", "parent-child");
    let created = t.create_relationship(r.clone()).unwrap();
    assert_eq!(created, r);
    assert_eq!(t.get_relationship(&"r1".to_string()), Some(r));
}

#[test]
fn get_relationship_not_found_is_none() {
    let t = FamilyTree::new();
    assert_eq!(t.get_relationship(&"missing".to_string()), None);
}

#[test]
fn create_relationship_duplicate_id_leaves_original_row() {
    let mut t = FamilyTree::new();
    let original = relationship("r1", "p1", "p2", "spouse");
    t.create_relationship(original.clone()).unwrap();
    let imposter = relationship("r1", "p3", "p4", "parent-child");
    assert_eq!(t.create_relationship(imposter), Err(StoreError::DuplicateId));
    assert_eq!(t.get_relationship(&"r1".to_string()), Some(original));
    assert_eq!(t.get_all_relationships().len(), 1);
}

#[test]
fn relationships_for_person_matches_both_endpoints() {
    let mut t = FamilyTree::new();
    let r1 = relationship("r1", "p1", "p2", "spouse");
    let r2 = relationship("r2", "p2", "p3", "parent-child");
    let r3 = relationship("r3", "p3", "p4", "parent-child");
    t.create_relationship(r1.clone()).unwrap();
    t.create_relationship(r2.clone()).unwrap();
    t.create_relationship(r3.clone()).unwrap();
    let for_p2 = t.get_relationships_for_person(&"p2".to_string());
    assert_eq!(for_p2, vec![r1.clone(), r2.clone()]);
    let for_p1 = t.get_relationships_for_person(&"p1".to_string());
    assert_eq!(for_p1, vec![r1]);
    let for_p5 = t.get_relationships_for_person(&"p5".to_string());
    assert!(for_p5.is_empty());
}

#[test]
fn relationships_for_person_includes_new_edge_on_both_sides() {
    let mut t = FamilyTree::new();
    let r = relationship("r9", "alice", "bob", "spouse");
    t.create_relationship(r.clone()).unwrap();
    assert!(t.get_relationships_for_person(&"alice".to_string()).contains(&r));
    assert!(t.get_relationships_for_person(&"bob".to_string()).contains(&r));
}

#[test]
fn update_relationship_replaces_mutable_fields_keeps_created_at() {
    let mut t = FamilyTree::new();
    t.create_relationship(relationship("r1", "p1", "p2", "spouse")).unwrap();
    let mut revised = relationship("r1", "p1", "p2", "spouse");
    revised.spouse_type = Some("civil".to_string());
    revised.marriage_number = Some(2);
    revised.color = "#ff0000".to_string();
    revised.created_at = "t9".to_string();
    revised.updated_at = "t1".to_string();
    let returned = t.update_relationship(revised.clone()).unwrap();
    assert_eq!(returned, revised);
    let stored = t.get_relationship(&"r1".to_string()).unwrap();
    assert_eq!(stored.spouse_type, Some("civil".to_string()));
    assert_eq!(stored.marriage_number, Some(2));
    assert_eq!(stored.color, "#ff0000");
    assert_eq!(stored.updated_at, "t1");
    assert_eq!(stored.created_at, "t0");
}

#[test]
fn update_relationship_nonexistent_reports_not_found_store_unchanged() {
    let mut t = FamilyTree::new();
    t.create_relationship(relationship("r1", "p1", "p2", "spouse")).unwrap();
    let before = t.get_all_relationships();
    let r = t.update_relationship(relationship("ghost", "x", "y", "spouse"));
    assert_eq!(r, Err(StoreError::NotFound));
    assert_eq!(t.get_all_relationships(), before);
}

#[test]
fn delete_relationship_then_get_is_none() {
    let mut t = FamilyTree::new();
    t.create_relationship(relationship("r1", "p1", "p2", "spouse")).unwrap();
    t.delete_relationship(&"r1".to_string());
    assert_eq!(t.get_relationship(&"r1".to_string()), None);
    assert_eq!(t.get_all_relationships().len(), 0);
}

#[test]
fn delete_relationship_absent_id_is_tolerated() {
    let mut t = FamilyTree::new();
    t.create_relationship(relationship("r1", "p1", "p2", "spouse")).unwrap();
    t.delete_relationship(&"missing".to_string());
    assert_eq!(t.get_all_relationships().len(), 1);
}

#[test]
fn error_messages_distinguish_kinds() {
    assert_eq!(StoreError::StorageUnavailable.message(), "storage unavailable");
    assert_eq!(StoreError::DuplicateId.message(), "duplicate id");
    assert_eq!(StoreError::ConstraintViolation.message(), "constraint violation");
    assert_eq!(StoreError::NotFound.message(), "not found");
}

#[test]
fn scenario_two_persons_one_edge_unenforced_references() {
    let mut t = FamilyTree::new();
    let p1 = person("p1", "Ada", "Lovelace");
    let p2 = person("p2", "Charles", "Babbage");
    t.create_person(p1.clone()).unwrap();
    t.create_person(p2.clone()).unwrap();
    let r1 = relationship("r1", "p1", "p2", "colleague");
    t.create_relationship(r1.clone()).unwrap();

    let for_p2 = t.get_relationships_for_person(&"p2".to_string());
    assert_eq!(for_p2, vec![r1.clone()]);

    let all = t.get_all_persons();
    assert_eq!(all, vec![p1, p2]);

    t.delete_person(&"p1".to_string());
    assert_eq!(t.get_relationship(&"r1".to_string()), Some(r1));
}
