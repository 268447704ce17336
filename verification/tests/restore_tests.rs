use command_bridge::bridge::BridgeError;
use command_bridge::restore::{
    has_archive_extension, restore_backup_payload, restore_command, restore_from_file_payload,
    restore_outcome, restore_verdict, validate_restore_path,
};

fn value(text: &str) -> serde_json::Value {
    serde_json::from_str(text).unwrap()
}

#[test]
fn wrong_extension_is_refused() {
    assert_eq!(
        validate_restore_path("notes.TXT"),
        Err("Invalid file format. Expected .cvbak".to_string())
    );
    assert!(validate_restore_path("").is_err());
    assert!(validate_restore_path("cvbak").is_err());
    assert!(validate_restore_path("backup.cvbak.zip").is_err());
    assert!(restore_backup_payload("notes.TXT").is_err());
}

#[test]
fn extension_matches_in_any_case() {
    assert_eq!(validate_restore_path("backup.CVBAK"), Ok(()));
    assert_eq!(validate_restore_path("backup.cvbak"), Ok(()));
    assert_eq!(validate_restore_path("C:\\Data\\Backup.CvBak"), Ok(()));
    assert_eq!(validate_restore_path(".cvbak"), Ok(()));
}

#[test]
fn lowered_path_is_tested_as_it_stands() {
    assert!(has_archive_extension("backup.cvbak"));
    assert!(!has_archive_extension("backup.CVBAK"));
    assert!(!has_archive_extension("backup.txt"));
}

#[test]
fn restore_payload_holds_the_path_as_given() {
    let payload = restore_backup_payload("Backup.CVBAK").unwrap();
    assert_eq!(payload, value(r#"{"path":"Backup.CVBAK"}"#));
    assert_eq!(restore_command(), "restore.start");
}

#[test]
fn restore_from_file_payload_holds_the_file_path() {
    let payload = restore_from_file_payload("/tmp/a.cvbak");
    assert_eq!(payload, value(r#"{"file_path":"/tmp/a.cvbak"}"#));
}

#[test]
fn verdict_on_success() {
    assert_eq!(
        restore_verdict(Some("success".to_string()), Some("started".to_string())),
        Ok("Restore initiated: started".to_string())
    );
    assert_eq!(
        restore_verdict(Some("success".to_string()), None),
        Ok("Restore initiated: OK".to_string())
    );
}

#[test]
fn verdict_on_failure() {
    assert_eq!(
        restore_verdict(Some("error".to_string()), Some("no handler".to_string())),
        Err("Python error: no handler".to_string())
    );
    assert_eq!(
        restore_verdict(None, None),
        Err("Python error: Unknown error".to_string())
    );
    assert_eq!(
        restore_verdict(Some("Success".to_string()), Some("x".to_string())),
        Err("Python error: x".to_string())
    );
}

#[test]
fn outcome_reads_status_and_message() {
    let ok = value(r#"{"status":"success","message":"restored 3 files"}"#);
    assert_eq!(
        restore_outcome(Ok(ok)),
        Ok("Restore initiated: restored 3 files".to_string())
    );
    let bad = value(r#"{"status":"error","message":"no handler"}"#);
    assert_eq!(
        restore_outcome(Ok(bad)),
        Err("Python error: no handler".to_string())
    );
}

#[test]
fn outcome_ignores_members_that_are_no_strings() {
    let odd = value(r#"{"status":"success","message":17}"#);
    assert_eq!(restore_outcome(Ok(odd)), Ok("Restore initiated: OK".to_string()));
    let no_object = value(r#"["status","success"]"#);
    assert_eq!(
        restore_outcome(Ok(no_object)),
        Err("Python error: Unknown error".to_string())
    );
    let status_number = value(r#"{"status":1,"message":"m"}"#);
    assert_eq!(restore_outcome(Ok(status_number)), Err("Python error: m".to_string()));
}

#[test]
fn outcome_of_a_bridge_error() {
    assert_eq!(
        restore_outcome(Err(BridgeError::Execution("boom".to_string()))),
        Err("Bridge error: Python Execution Error: boom".to_string())
    );
    assert_eq!(
        restore_outcome(Err(BridgeError::Init("no module".to_string()))),
        Err("Bridge error: Init Failed: no module".to_string())
    );
}
