use bms_data::blotters::{delete_blotter, fetch_all_blotters, insert_blotter, save_blotter, Blotter};
use bms_data::certificates::{
    delete_certificate, fetch_all_certificates, insert_certificate, save_certificate, Certificate,
};
use bms_data::events::{delete_event, fetch_all_events, insert_event, save_event, update_event, Event};
use bms_data::migration::migrate;
use bms_data::officials::{delete_official, fetch_all_officials, insert_official, save_official, Official};
use bms_data::residents::{
    delete_resident, fetch_all_residents, insert_resident, save_resident, update_resident, Resident,
};
use bms_data::store::open_memory_db;
use bms_data::ErrorKind;

fn fresh_db() -> rusqlite::Connection {
    let mut c = open_memory_db().expect("open in-memory database");
    migrate(&mut c).expect("migration must succeed");
    c
}

fn sample_event(name: &str) -> Event {
    Event {
        id: None,
        name: name.to_string(),
        type_: "assembly".to_string(),
        status: "planned".to_string(),
        date: "2025-07-21".to_string(),
        venue: "hall".to_string(),
        attendee: "everyone".to_string(),
        notes: "bring chairs".to_string(),
    }
}

fn sample_blotter() -> Blotter {
    Blotter {
        id: None,
        type_: "dispute".to_string(),
        reported_by: "A".to_string(),
        involved: "B".to_string(),
        incident_date: "2025-01-01".to_string(),
        location: "corner".to_string(),
        zone: "3".to_string(),
        status: "open".to_string(),
        narrative: "words".to_string(),
        action: "mediation".to_string(),
        witnesses: "C".to_string(),
        evidence: "none".to_string(),
        resolution: "pending".to_string(),
        hearing_date: "2025-02-01".to_string(),
    }
}

fn sample_resident(first: &str) -> Resident {
    Resident {
        id: None,
        prefix: "Mr".to_string(),
        first_name: first.to_string(),
        middle_name: None,
        last_name: "Cruz".to_string(),
        suffix: Some("Jr".to_string()),
        civil_status: "single".to_string(),
        gender: "M".to_string(),
        nationality: "PH".to_string(),
        mobile_number: "0917".to_string(),
        date_of_birth: "1990-01-01".to_string(),
        town_of_birth: "town".to_string(),
        province_of_birth: "prov".to_string(),
        zone: "1".to_string(),
        barangay: "B".to_string(),
        town: "T".to_string(),
        province: "P".to_string(),
        father_prefix: "Mr".to_string(),
        father_first_name: "F".to_string(),
        father_middle_name: "M".to_string(),
        father_last_name: "Cruz".to_string(),
        father_suffix: "Sr".to_string(),
        mother_prefix: "Ms".to_string(),
        mother_first_name: "Mo".to_string(),
        mother_middle_name: "M".to_string(),
        mother_last_name: "Reyes".to_string(),
        status: "active".to_string(),
        photo: None,
        is_registered_voter: true,
        is_pwd: false,
        is_senior: false,
    }
}

#[test]
fn event_insert_then_fetch() {
    let mut c = fresh_db();
    insert_event(&mut c, &sample_event("fiesta")).unwrap();
    let all = fetch_all_events(&c).unwrap();
    assert_eq!(all.len(), 1);
    let e = &all[0];
    assert!(e.id.is_some());
    assert_eq!(e.name, "fiesta");
    assert_eq!(e.type_, "assembly");
    assert_eq!(e.status, "planned");
    assert_eq!(e.date, "2025-07-21");
    assert_eq!(e.venue, "hall");
    assert_eq!(e.attendee, "everyone");
    assert_eq!(e.notes, "bring chairs");
}

#[test]
fn event_update_overwrites_every_field() {
    let mut c = fresh_db();
    insert_event(&mut c, &sample_event("before")).unwrap();
    let id = fetch_all_events(&c).unwrap()[0].id;
    let changed = Event {
        id,
        name: "after".to_string(),
        type_: "meeting".to_string(),
        status: "done".to_string(),
        date: "2026-01-01".to_string(),
        venue: "court".to_string(),
        attendee: "officials".to_string(),
        notes: "".to_string(),
    };
    update_event(&mut c, &changed).unwrap();
    let all = fetch_all_events(&c).unwrap();
    assert_eq!(all.len(), 1);
    let e = &all[0];
    assert_eq!(e.id, id);
    assert_eq!(e.name, "after");
    assert_eq!(e.type_, "meeting");
    assert_eq!(e.status, "done");
    assert_eq!(e.date, "2026-01-01");
    assert_eq!(e.venue, "court");
    assert_eq!(e.attendee, "officials");
    assert_eq!(e.notes, "");
}

#[test]
fn event_delete_missing_id_is_noop_success() {
    let mut c = fresh_db();
    insert_event(&mut c, &sample_event("kept")).unwrap();
    let before = fetch_all_events(&c).unwrap().len();
    delete_event(&mut c, 424242).unwrap();
    let after = fetch_all_events(&c).unwrap().len();
    assert_eq!(before, after);
}

#[test]
fn event_delete_removes_row() {
    let mut c = fresh_db();
    insert_event(&mut c, &sample_event("gone")).unwrap();
    let id = fetch_all_events(&c).unwrap()[0].id.unwrap();
    delete_event(&mut c, id).unwrap();
    assert_eq!(fetch_all_events(&c).unwrap().len(), 0);
}

#[test]
fn event_save_dispatches_on_id() {
    let mut c = fresh_db();
    save_event(&mut c, &sample_event("first")).unwrap();
    assert_eq!(fetch_all_events(&c).unwrap().len(), 1);
    let id = fetch_all_events(&c).unwrap()[0].id;
    let mut renamed = sample_event("renamed");
    renamed.id = id;
    save_event(&mut c, &renamed).unwrap();
    let all = fetch_all_events(&c).unwrap();
    assert_eq!(all.len(), 1);
    assert_eq!(all[0].name, "renamed");
}

#[test]
fn fetch_without_tables_is_query_error() {
    let c = open_memory_db().unwrap();
    let err = fetch_all_events(&c).unwrap_err();
    assert_eq!(err.kind, ErrorKind::Query);
}

#[test]
fn blotter_insert_then_fetch() {
    let mut c = fresh_db();
    insert_blotter(&mut c, &sample_blotter()).unwrap();
    let all = fetch_all_blotters(&c).unwrap();
    assert_eq!(all.len(), 1);
    assert!(all[0].id.is_some());
    assert_eq!(all[0].narrative, "words");
    assert_eq!(all[0].hearing_date, "2025-02-01");
}

#[test]
fn blotter_save_and_delete() {
    let mut c = fresh_db();
    save_blotter(&mut c, &sample_blotter()).unwrap();
    let id = fetch_all_blotters(&c).unwrap()[0].id.unwrap();
    let mut changed = sample_blotter();
    changed.id = Some(id);
    changed.status = "closed".to_string();
    save_blotter(&mut c, &changed).unwrap();
    assert_eq!(fetch_all_blotters(&c).unwrap()[0].status, "closed");
    delete_blotter(&mut c, id).unwrap();
    assert_eq!(fetch_all_blotters(&c).unwrap().len(), 0);
}

#[test]
fn official_insert_save_delete() {
    let mut c = fresh_db();
    let o = Official {
        id: None,
        name: "Captain".to_string(),
        role: "chair".to_string(),
        age: Some(55),
        contact: "0917".to_string(),
        term_start: "2023".to_string(),
        term_end: "2026".to_string(),
        zone: "2".to_string(),
        image: None,
        section: "exec".to_string(),
    };
    insert_official(&mut c, &o).unwrap();
    let all = fetch_all_officials(&c).unwrap();
    assert_eq!(all.len(), 1);
    assert_eq!(all[0].name, "Captain");
    assert_eq!(all[0].age, Some(55));
    assert_eq!(all[0].image, None);

    let mut changed = o.clone();
    changed.id = all[0].id;
    changed.role = "kagawad".to_string();
    changed.image = Some("img.png".to_string());
    save_official(&mut c, &changed).unwrap();
    let all = fetch_all_officials(&c).unwrap();
    assert_eq!(all[0].role, "kagawad");
    assert_eq!(all[0].image, Some("img.png".to_string()));

    delete_official(&mut c, all[0].id.unwrap()).unwrap();
    assert_eq!(fetch_all_officials(&c).unwrap().len(), 0);
}

#[test]
fn official_save_without_id_inserts() {
    let mut c = fresh_db();
    let o = Official {
        id: None,
        name: "Newcomer".to_string(),
        role: "kagawad".to_string(),
        age: Some(41),
        contact: "0917".to_string(),
        term_start: "2023".to_string(),
        term_end: "2026".to_string(),
        zone: "4".to_string(),
        image: None,
        section: "exec".to_string(),
    };
    save_official(&mut c, &o).unwrap();
    let all = fetch_all_officials(&c).unwrap();
    assert_eq!(all.len(), 1);
    assert!(all[0].id.is_some());
    assert_eq!(all[0].name, "Newcomer");
}

#[test]
fn certificate_zero_sentinel_save() {
    let mut c = fresh_db();
    let fresh = Certificate {
        id: 0,
        resident_name: "Ana".to_string(),
        type_: "residency".to_string(),
        age: Some(30),
        civil_status: Some("single".to_string()),
        ownership_text: None,
        amount: Some("50".to_string()),
        issued_date: Some("2025-03-01".to_string()),
    };
    save_certificate(&mut c, &fresh).unwrap();
    let all = fetch_all_certificates(&c).unwrap();
    assert_eq!(all.len(), 1);
    assert_ne!(all[0].id, 0);
    assert_eq!(all[0].resident_name, "Ana");
    assert_eq!(all[0].age, Some(30));
    assert_eq!(all[0].ownership_text, None);

    let mut changed = all[0].clone();
    changed.type_ = "indigency".to_string();
    changed.age = None;
    save_certificate(&mut c, &changed).unwrap();
    let all = fetch_all_certificates(&c).unwrap();
    assert_eq!(all.len(), 1);
    assert_eq!(all[0].type_, "indigency");
    assert_eq!(all[0].age, None);

    insert_certificate(&mut c, &fresh).unwrap();
    assert_eq!(fetch_all_certificates(&c).unwrap().len(), 2);
    delete_certificate(&mut c, all[0].id).unwrap();
    assert_eq!(fetch_all_certificates(&c).unwrap().len(), 1);
}

#[test]
fn resident_roundtrip_with_flags_and_options() {
    let mut c = fresh_db();
    insert_resident(&mut c, &sample_resident("Juan")).unwrap();
    let all = fetch_all_residents(&c).unwrap();
    assert_eq!(all.len(), 1);
    let r = &all[0];
    assert!(r.id.is_some());
    assert_eq!(r.first_name, "Juan");
    assert_eq!(r.middle_name, None);
    assert_eq!(r.suffix, Some("Jr".to_string()));
    assert!(r.is_registered_voter);
    assert!(!r.is_pwd);
    assert!(!r.is_senior);
}

#[test]
fn resident_update_and_save() {
    let mut c = fresh_db();
    save_resident(&mut c, &sample_resident("Maria")).unwrap();
    let id = fetch_all_residents(&c).unwrap()[0].id;
    let mut changed = sample_resident("Marya");
    changed.id = id;
    changed.is_senior = true;
    changed.photo = Some("p.jpg".to_string());
    update_resident(&mut c, &changed).unwrap();
    let all = fetch_all_residents(&c).unwrap();
    assert_eq!(all.len(), 1);
    assert_eq!(all[0].first_name, "Marya");
    assert!(all[0].is_senior);
    assert_eq!(all[0].photo, Some("p.jpg".to_string()));
    delete_resident(&mut c, id.unwrap()).unwrap();
    assert_eq!(fetch_all_residents(&c).unwrap().len(), 0);
}

#[test]
fn official_missing_age_is_constraint_error() {
    let mut c = fresh_db();
    let o = Official {
        id: None,
        name: "Ageless".to_string(),
        role: "chair".to_string(),
        age: None,
        contact: "".to_string(),
        term_start: "".to_string(),
        term_end: "".to_string(),
        zone: "".to_string(),
        image: None,
        section: "exec".to_string(),
    };
    let err = insert_official(&mut c, &o).unwrap_err();
    assert_eq!(err.kind, ErrorKind::Constraint);
    assert_eq!(fetch_all_officials(&c).unwrap().len(), 0);
}

#[test]
fn malformed_row_fails_fetch() {
    let mut c = fresh_db();
    c.execute(
        "INSERT INTO households (household_number, type_, members, head, zone, date, status, selected_residents)
         VALUES ('abc', 'x', 1, 'h', 'z', 'd', 's', '[]')",
        [],
    )
    .unwrap();
    let err = bms_data::households::fetch_all_households(&c).unwrap_err();
    assert_eq!(err.kind, ErrorKind::Query);
}
