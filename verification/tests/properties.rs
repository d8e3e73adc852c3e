use bms_data::households::{
    delete_household, fetch_all_households, fetch_members_by_household, insert_household,
    save_household, update_household, Household,
};
use bms_data::migration::migrate;
use bms_data::settings::{fetch_logo, fetch_settings, save_settings, Settings};
use bms_data::store::open_memory_db;
use bms_data::users::{insert_user, verify_user_credentials, User};
use bms_data::ErrorKind;

fn migrated_db() -> rusqlite::Connection {
    let mut c = open_memory_db().expect("open in-memory database");
    migrate(&mut c).expect("migration must succeed");
    c
}

fn sample_household(members: Vec<String>) -> Household {
    Household {
        id: None,
        household_number: 7,
        type_: "nuclear".to_string(),
        members: members.len() as i32,
        head: "Juan".to_string(),
        zone: "2".to_string(),
        date: "2025-07-21".to_string(),
        status: "active".to_string(),
        selected_residents: members,
    }
}

#[test]
fn migration_twice_produces_no_errors() {
    let mut c = open_memory_db().unwrap();
    migrate(&mut c).unwrap();
    migrate(&mut c).unwrap();
    // The tables are intact and usable after the second run.
    insert_household(&mut c, &sample_household(vec!["R1".to_string()])).unwrap();
    assert_eq!(fetch_all_households(&c).unwrap().len(), 1);
    migrate(&mut c).unwrap();
    assert_eq!(fetch_all_households(&c).unwrap().len(), 1);
}

#[test]
fn household_list_roundtrip() {
    let mut c = migrated_db();
    let members = vec!["R1".to_string(), "R2".to_string()];
    insert_household(&mut c, &sample_household(members.clone())).unwrap();
    let all = fetch_all_households(&c).unwrap();
    assert_eq!(all.len(), 1);
    assert!(all[0].id.is_some());
    assert_eq!(all[0].selected_residents, members);
    assert_eq!(all[0].household_number, 7);
}

#[test]
fn household_empty_list_roundtrip() {
    let mut c = migrated_db();
    insert_household(&mut c, &sample_household(Vec::new())).unwrap();
    let all = fetch_all_households(&c).unwrap();
    assert_eq!(all.len(), 1);
    assert_eq!(all[0].selected_residents, Vec::<String>::new());
}

#[test]
fn household_update_replaces_list() {
    let mut c = migrated_db();
    insert_household(&mut c, &sample_household(vec!["R1".to_string()])).unwrap();
    let id = fetch_all_households(&c).unwrap()[0].id;
    let mut changed = sample_household(vec!["R9".to_string(), "R8".to_string()]);
    changed.id = id;
    changed.head = "Maria".to_string();
    update_household(&mut c, &changed).unwrap();
    let all = fetch_all_households(&c).unwrap();
    assert_eq!(all.len(), 1);
    assert_eq!(all[0].head, "Maria");
    assert_eq!(all[0].selected_residents, vec!["R9".to_string(), "R8".to_string()]);
}

#[test]
fn household_corrupt_json_degrades_to_empty() {
    let mut c = migrated_db();
    insert_household(&mut c, &sample_household(vec!["R1".to_string()])).unwrap();
    c.execute(
        "INSERT INTO households (household_number, type_, members, head, zone, date, status, selected_residents)
         VALUES (8, 'x', 0, 'h', 'z', 'd', 's', 'this is not json')",
        [],
    )
    .unwrap();
    let all = fetch_all_households(&c).unwrap();
    assert_eq!(all.len(), 2);
    assert_eq!(all[0].selected_residents, vec!["R1".to_string()]);
    assert_eq!(all[1].selected_residents, Vec::<String>::new());
}

#[test]
fn household_delete_missing_id_keeps_size() {
    let mut c = migrated_db();
    insert_household(&mut c, &sample_household(Vec::new())).unwrap();
    delete_household(&mut c, 999_999).unwrap();
    assert_eq!(fetch_all_households(&c).unwrap().len(), 1);
}

#[test]
fn household_save_dispatches() {
    let mut c = migrated_db();
    save_household(&mut c, &sample_household(vec!["R1".to_string()])).unwrap();
    assert_eq!(fetch_all_households(&c).unwrap().len(), 1);
    let id = fetch_all_households(&c).unwrap()[0].id;
    let mut again = sample_household(vec!["R2".to_string()]);
    again.id = id;
    save_household(&mut c, &again).unwrap();
    let all = fetch_all_households(&c).unwrap();
    assert_eq!(all.len(), 1);
    assert_eq!(all[0].selected_residents, vec!["R2".to_string()]);
}

#[test]
fn fetch_members_paths() {
    let mut c = migrated_db();
    insert_household(&mut c, &sample_household(vec!["R1".to_string(), "R2".to_string()])).unwrap();
    let id = fetch_all_households(&c).unwrap()[0].id.unwrap();
    assert_eq!(
        fetch_members_by_household(&c, id).unwrap(),
        vec!["R1".to_string(), "R2".to_string()]
    );
    // No such household: an error, not an empty list.
    let err = fetch_members_by_household(&c, id + 100).unwrap_err();
    assert_eq!(err.kind, ErrorKind::Query);
    // A corrupt cell degrades to an empty list here too.
    c.execute(
        "INSERT INTO households (household_number, type_, members, head, zone, date, status, selected_residents)
         VALUES (9, 'x', 0, 'h', 'z', 'd', 's', 'garbage')",
        [],
    )
    .unwrap();
    let corrupt_id: i32 = c
        .query_row("SELECT id FROM households WHERE household_number = 9", [], |r| r.get(0))
        .unwrap();
    assert_eq!(fetch_members_by_household(&c, corrupt_id).unwrap(), Vec::<String>::new());
}

#[test]
fn household_absent_list_reads_empty() {
    let mut c = migrated_db();
    c.execute(
        "INSERT INTO households (household_number, type_, members, head, zone, date, status, selected_residents)
         VALUES (4, 'x', 0, 'h', 'z', 'd', 's', NULL)",
        [],
    )
    .unwrap();
    let all = fetch_all_households(&c).unwrap();
    assert_eq!(all.len(), 1);
    assert_eq!(all[0].selected_residents, Vec::<String>::new());
    let id = all[0].id.unwrap();
    assert_eq!(fetch_members_by_household(&c, id).unwrap(), Vec::<String>::new());
}

#[test]
fn settings_bootstrap_and_idempotence() {
    let mut c = migrated_db();
    let first = fetch_settings(&mut c).unwrap();
    assert_eq!(first.id, Some(1));
    assert_eq!(first.barangay, "");
    assert_eq!(first.municipality, "");
    assert_eq!(first.province, "");
    assert_eq!(first.phone_number, "");
    assert_eq!(first.email, "");
    let second = fetch_settings(&mut c).unwrap();
    assert_eq!(second.id, Some(1));
    assert_eq!(second.barangay, "");
    let count: i64 = c.query_row("SELECT COUNT(*) FROM settings", [], |r| r.get(0)).unwrap();
    assert_eq!(count, 1);
}

#[test]
fn settings_save_and_fetch_logo() {
    let mut c = migrated_db();
    let mut s = fetch_settings(&mut c).unwrap();
    s.barangay = "San Roque".to_string();
    s.logo = Some("logo.png".to_string());
    save_settings(&mut c, &s).unwrap();
    let again = fetch_settings(&mut c).unwrap();
    assert_eq!(again.barangay, "San Roque");
    assert_eq!(fetch_logo(&c).unwrap(), Some("logo.png".to_string()));
}

#[test]
fn fetch_logo_without_row_is_error() {
    let c = migrated_db();
    assert!(fetch_logo(&c).is_err());
}

#[test]
fn settings_save_without_id_inserts() {
    let mut c = migrated_db();
    let s = Settings {
        id: None,
        barangay: "B".to_string(),
        municipality: "M".to_string(),
        province: "P".to_string(),
        phone_number: "".to_string(),
        email: "".to_string(),
        logo: None,
        logo_municipality: None,
    };
    save_settings(&mut c, &s).unwrap();
    let got = fetch_settings(&mut c).unwrap();
    assert_eq!(got.id, Some(1));
    assert_eq!(got.barangay, "B");
    assert_eq!(got.logo, None);
}

#[test]
fn credential_check() {
    let mut c = migrated_db();
    insert_user(
        &mut c,
        &User { id: 0, username: "alice".to_string(), password: "secret".to_string() },
    )
    .unwrap();
    assert_eq!(verify_user_credentials(&c, "alice", "secret").unwrap(), true);
    assert_eq!(verify_user_credentials(&c, "alice", "wrong").unwrap(), false);
    assert_eq!(verify_user_credentials(&c, "bob", "secret").unwrap(), false);
}

#[test]
fn duplicate_username_is_constraint_error() {
    let mut c = migrated_db();
    let alice = User { id: 0, username: "alice".to_string(), password: "one".to_string() };
    insert_user(&mut c, &alice).unwrap();
    let err = insert_user(
        &mut c,
        &User { id: 0, username: "alice".to_string(), password: "two".to_string() },
    )
    .unwrap_err();
    assert_eq!(err.kind, ErrorKind::Constraint);
    // The failed insert left the table unchanged.
    assert_eq!(verify_user_credentials(&c, "alice", "one").unwrap(), true);
    assert_eq!(verify_user_credentials(&c, "alice", "two").unwrap(), false);
}
