use student_registry::contract::StudentIDContract;
use student_registry::data::{DataKey, Error, Identity};

fn ident(s: &str) -> Identity {
    Identity::new(s.to_string())
}

#[test]
fn scenario_issue_and_verify() {
    let mut c = StudentIDContract::new();
    assert_eq!(c.initialize(ident("A")), Ok(()));
    let id = c
        .issue_student_id(&ident("A"), "Alice".to_string(), "CS".to_string(), 2024, 1000, 100)
        .unwrap();
    assert_eq!(id, 1);
    let rec = c.get_student_info(1).unwrap();
    assert_eq!(rec.expiration_date, 1100);
    assert!(c.verify_student_id(1, 500));
    assert!(!c.verify_student_id(1, 1100));
    assert_eq!(
        c.issue_student_id(&ident("B"), "Mallory".to_string(), "EE".to_string(), 2024, 1000, 100),
        Err(Error::Unauthorized)
    );
}

#[test]
fn ids_are_sequential() {
    let mut c = StudentIDContract::new();
    c.initialize(ident("A")).unwrap();
    for expected in 1..=5u64 {
        let id = c
            .issue_student_id(
                &ident("A"),
                "Student".to_string(),
                "Math".to_string(),
                2020,
                10,
                0,
            )
            .unwrap();
        assert_eq!(id, expected);
    }
    assert_eq!(c.id_counter(), 5);
    let agg = c.registry();
    assert_eq!(agg.total_ids, 5);
    assert_eq!(agg.active_ids, 5);
    assert_eq!(agg.expired_ids, 0);
}

#[test]
fn double_initialize_fails_and_changes_nothing() {
    let mut c = StudentIDContract::new();
    c.initialize(ident("A")).unwrap();
    c.issue_student_id(&ident("A"), "Alice".to_string(), "CS".to_string(), 2024, 50, 7)
        .unwrap();
    assert_eq!(c.initialize(ident("B")), Err(Error::AlreadyInitialized));
    assert!(c.admin().unwrap().same_as(&ident("A")));
    assert_eq!(c.id_counter(), 1);
    let agg = c.registry();
    assert_eq!((agg.total_ids, agg.active_ids, agg.expired_ids), (1, 1, 0));
}

#[test]
fn issue_before_initialize_fails() {
    let mut c = StudentIDContract::new();
    assert_eq!(
        c.issue_student_id(&ident("A"), "Alice".to_string(), "CS".to_string(), 2024, 10, 0),
        Err(Error::NotInitialized)
    );
    assert_eq!(c.id_counter(), 0);
}

#[test]
fn unauthorized_issue_mutates_nothing() {
    let mut c = StudentIDContract::new();
    c.initialize(ident("A")).unwrap();
    c.issue_student_id(&ident("A"), "Alice".to_string(), "CS".to_string(), 2024, 10, 0)
        .unwrap();
    assert_eq!(
        c.issue_student_id(&ident("B"), "Eve".to_string(), "CS".to_string(), 2024, 10, 0),
        Err(Error::Unauthorized)
    );
    assert_eq!(c.id_counter(), 1);
    assert_eq!(c.records().len(), 1);
    let agg = c.registry();
    assert_eq!((agg.total_ids, agg.active_ids, agg.expired_ids), (1, 1, 0));
}

#[test]
fn verify_unknown_id_is_false() {
    let mut c = StudentIDContract::new();
    assert!(!c.verify_student_id(0, 0));
    assert!(!c.verify_student_id(1, 0));
    c.initialize(ident("A")).unwrap();
    c.issue_student_id(&ident("A"), "Alice".to_string(), "CS".to_string(), 2024, 10, 0)
        .unwrap();
    assert!(!c.verify_student_id(0, 0));
    assert!(!c.verify_student_id(2, 0));
    assert!(!c.verify_student_id(u64::MAX, 0));
}

#[test]
fn get_info_unknown_id_is_not_found() {
    let mut c = StudentIDContract::new();
    assert!(matches!(c.get_student_info(1), Err(Error::NotFound)));
    c.initialize(ident("A")).unwrap();
    assert!(matches!(c.get_student_info(1), Err(Error::NotFound)));
    assert!(matches!(c.get_student_info(0), Err(Error::NotFound)));
}

#[test]
fn get_info_returns_supplied_fields() {
    let mut c = StudentIDContract::new();
    c.initialize(ident("A")).unwrap();
    c.issue_student_id(
        &ident("A"),
        "Alice Smith".to_string(),
        "Computer Science".to_string(),
        2024,
        1000,
        100,
    )
    .unwrap();
    let rec = c.get_student_info(1).unwrap();
    assert_eq!(rec.student_id, 1);
    assert_eq!(rec.name, "Alice Smith");
    assert_eq!(rec.program, "Computer Science");
    assert_eq!(rec.enrollment_year, 2024);
    assert_eq!(rec.expiration_date, 1100);
    assert!(rec.is_active);
}

#[test]
fn validity_window_edges() {
    let mut c = StudentIDContract::new();
    c.initialize(ident("A")).unwrap();
    // validity_period = 0: expired at the instant of creation.
    c.issue_student_id(&ident("A"), "Zed".to_string(), "CS".to_string(), 2024, 0, 100)
        .unwrap();
    assert!(!c.verify_student_id(1, 100));
    assert!(c.verify_student_id(1, 99));
    // window [T, T + P): valid up to and including T + P - 1, invalid at T + P.
    c.issue_student_id(&ident("A"), "Ann".to_string(), "CS".to_string(), 2024, 10, 100)
        .unwrap();
    assert!(c.verify_student_id(2, 100));
    assert!(c.verify_student_id(2, 109));
    assert!(!c.verify_student_id(2, 110));
    assert!(!c.verify_student_id(2, u64::MAX));
}

#[test]
fn expiration_saturates_at_top_of_range() {
    let mut c = StudentIDContract::new();
    c.initialize(ident("A")).unwrap();
    c.issue_student_id(&ident("A"), "Max".to_string(), "CS".to_string(), 2024, 100, u64::MAX - 5)
        .unwrap();
    let rec = c.get_student_info(1).unwrap();
    assert_eq!(rec.expiration_date, u64::MAX);
    assert!(c.verify_student_id(1, u64::MAX - 1));
    assert!(!c.verify_student_id(1, u64::MAX));
}

#[test]
fn has_record_by_data_key() {
    let mut c = StudentIDContract::new();
    c.initialize(ident("A")).unwrap();
    c.issue_student_id(&ident("A"), "Alice".to_string(), "CS".to_string(), 2024, 10, 0)
        .unwrap();
    assert!(c.has_record(&DataKey::StudentRecord(1)));
    assert!(!c.has_record(&DataKey::StudentRecord(0)));
    assert!(!c.has_record(&DataKey::StudentRecord(2)));
}

#[test]
fn from_parts_round_trip() {
    let mut c = StudentIDContract::new();
    c.initialize(ident("A")).unwrap();
    c.issue_student_id(&ident("A"), "Alice".to_string(), "CS".to_string(), 2024, 1000, 100)
        .unwrap();
    c.issue_student_id(&ident("A"), "Bob".to_string(), "EE".to_string(), 2023, 500, 200)
        .unwrap();
    let records: Vec<_> = c.records().iter().cloned().collect();
    let admin = c.admin().unwrap().clone();
    let rebuilt = StudentIDContract::from_parts(Some(admin), records).unwrap();
    assert_eq!(rebuilt.id_counter(), 2);
    assert!(rebuilt.verify_student_id(1, 500));
    assert!(!rebuilt.verify_student_id(1, 1100));
    let rec = rebuilt.get_student_info(2).unwrap();
    assert_eq!(rec.name, "Bob");
    assert_eq!(rec.expiration_date, 700);
}

#[test]
fn from_parts_rejects_bad_parts() {
    let mut c = StudentIDContract::new();
    c.initialize(ident("A")).unwrap();
    c.issue_student_id(&ident("A"), "Alice".to_string(), "CS".to_string(), 2024, 10, 0)
        .unwrap();
    let records: Vec<_> = c.records().iter().cloned().collect();
    // Records without an admin are not a well-formed registry.
    assert!(StudentIDContract::from_parts(None, records.clone()).is_none());
    // A record under the wrong id is not either.
    let mut shifted = records;
    shifted[0].student_id = 2;
    assert!(StudentIDContract::from_parts(Some(ident("A")), shifted).is_none());
    // An empty, uninitialized registry is.
    assert!(StudentIDContract::from_parts(None, Vec::new()).is_some());
}

#[test]
fn identity_equality() {
    assert!(ident("A").same_as(&ident("A")));
    assert!(!ident("A").same_as(&ident("B")));
    let a = ident("A");
    let b = a.clone();
    assert!(a.same_as(&b));
}
