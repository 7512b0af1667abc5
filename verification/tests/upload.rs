use preflight::error::Error;
use preflight::upload::{select_uploads, UploadField};

fn field(name: Option<&str>, file_name: Option<&str>, bytes: &[u8]) -> UploadField {
    UploadField {
        name: name.map(|n| n.to_string()),
        file_name: file_name.map(|n| n.to_string()),
        bytes: bytes.to_vec(),
    }
}

#[test]
fn both_builds_are_picked_with_their_file_names() {
    let fields = vec![
        field(Some("old"), Some("counter_v1.so"), &[1, 2]),
        field(Some("new"), Some("counter_v2.so"), &[3]),
    ];
    let (old, new) = select_uploads(fields).unwrap();
    assert_eq!(old.name, "counter_v1.so");
    assert_eq!(old.bytes, vec![1, 2]);
    assert_eq!(new.name, "counter_v2.so");
    assert_eq!(new.bytes, vec![3]);
}

#[test]
fn a_build_without_a_file_name_is_named_after_its_field() {
    let fields = vec![field(Some("new"), None, &[9]), field(Some("old"), None, &[8])];
    let (old, new) = select_uploads(fields).unwrap();
    assert_eq!(old.name, "old.so");
    assert_eq!(new.name, "new.so");
    assert_eq!(old.bytes, vec![8]);
}

#[test]
fn the_last_field_of_a_name_wins_and_others_are_ignored() {
    let fields = vec![
        field(Some("old"), Some("first.so"), &[1]),
        field(Some("notes"), Some("readme.txt"), &[0]),
        field(None, Some("anonymous.so"), &[0]),
        field(Some("new"), Some("n.so"), &[2]),
        field(Some("old"), Some("second.so"), &[4]),
    ];
    let (old, new) = select_uploads(fields).unwrap();
    assert_eq!(old.name, "second.so");
    assert_eq!(old.bytes, vec![4]);
    assert_eq!(new.name, "n.so");
}

#[test]
fn a_missing_old_file_is_reported_first() {
    match select_uploads(vec![field(Some("other"), None, &[1])]) {
        Err(Error::MissingFile { field }) => assert_eq!(field, "old"),
        _ => panic!("expected a missing file"),
    }
}

#[test]
fn a_missing_new_file_is_reported() {
    match select_uploads(vec![field(Some("old"), None, &[1])]) {
        Err(Error::MissingFile { field }) => assert_eq!(field, "new"),
        _ => panic!("expected a missing file"),
    }
}
