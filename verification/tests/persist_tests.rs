use mqtt2file::message::{find_user_property, IncomingMessage};
use mqtt2file::persist::{plan_persist, target_path, PersistError};

fn message(metadata: Vec<(String, String)>, payload: Vec<u8>) -> IncomingMessage {
    IncomingMessage { topic: String::from("sensors/x"), payload, metadata }
}

#[test]
fn plan_carries_payload_byte_for_byte() {
    let payload = vec![0u8, 1, 2, 255, 254, 0];
    let msg = message(
        vec![(String::from("filename"), String::from("data.bin"))],
        payload.clone(),
    );
    let plan = plan_persist(msg, "/var/spool").unwrap();
    assert_eq!(plan.filename, "data.bin");
    assert_eq!(plan.path, "/var/spool/data.bin");
    assert_eq!(plan.payload, payload);
}

#[test]
fn missing_filename_creates_no_plan() {
    let msg = message(
        vec![(String::from("content-type"), String::from("text/plain"))],
        vec![1, 2, 3],
    );
    let r = plan_persist(msg, "/var/spool");
    assert!(matches!(r, Err(PersistError::MissingFilename)));
}

#[test]
fn empty_metadata_creates_no_plan() {
    let msg = message(vec![], vec![]);
    let r = plan_persist(msg, "/var/spool");
    assert!(matches!(r, Err(PersistError::MissingFilename)));
}

#[test]
fn first_filename_entry_wins() {
    let msg = message(
        vec![
            (String::from("other"), String::from("x")),
            (String::from("filename"), String::from("first.bin")),
            (String::from("filename"), String::from("second.bin")),
        ],
        vec![9],
    );
    let plan = plan_persist(msg, "/d").unwrap();
    assert_eq!(plan.filename, "first.bin");
    assert_eq!(plan.path, "/d/first.bin");
}

#[test]
fn find_user_property_hit_and_miss() {
    let md = vec![
        (String::from("a"), String::from("1")),
        (String::from("b"), String::from("2")),
    ];
    assert_eq!(find_user_property(&md, &String::from("b")), Some(String::from("2")));
    assert_eq!(find_user_property(&md, &String::from("c")), None);
}

#[test]
fn target_path_joins_directory_and_name() {
    assert_eq!(target_path("/tmp/out", "a.bin"), "/tmp/out/a.bin");
    assert_eq!(target_path("rel", "f"), "rel/f");
}

#[test]
fn persist_error_describes_itself() {
    assert_eq!(PersistError::MissingFilename.describe(), "no filename in user properties");
}
