use firmware_update::bank::Bank;
use firmware_update::errors::UpdaterError;
use firmware_update::status::{
    detect_bank_info, extracted_marker_filename, trimmed, version_marker_filename,
};

#[test]
fn trimmed_strips_surrounding_blanks() {
    assert_eq!(trimmed("v1.0\n"), "v1.0");
    assert_eq!(trimmed("  2024-01-26T18:30:09Z \r\n"), "2024-01-26T18:30:09Z");
    assert_eq!(trimmed("plain"), "plain");
}

#[test]
fn trimmed_keeps_inner_blanks() {
    assert_eq!(trimmed(" a b \n"), "a b");
}

#[test]
fn trimmed_of_blank_text_is_empty() {
    assert_eq!(trimmed(""), "");
    assert_eq!(trimmed(" \t\r\n"), "");
}

#[test]
fn marker_filenames_are_fixed() {
    assert_eq!(version_marker_filename(), "image_built_at.txt");
    assert_eq!(extracted_marker_filename(), "extracted_at.txt");
}

#[test]
fn snapshot_reports_the_booted_bank() {
    let info = detect_bank_info(
        Bank::B,
        Some(Bank::A),
        Some("build-1".to_string()),
        None,
        Some("build-2".to_string()),
        Some("2024-01-26T18:30:09Z".to_string()),
    );
    assert_eq!(info.our_bank, Bank::A);
    assert_eq!(info.desired_bank, Some(Bank::A));
    assert_eq!(info.our_version.as_deref(), Some("build-1"));
    assert_eq!(info.our_extract_time, None);
    assert_eq!(info.other_version.as_deref(), Some("build-2"));
    assert_eq!(info.other_extract_time.as_deref(), Some("2024-01-26T18:30:09Z"));
}

#[test]
fn snapshot_duplicate_is_equal_field_by_field() {
    let info = detect_bank_info(Bank::A, None, Some("v".to_string()), None, None, None);
    let copy = info.duplicate();
    assert_eq!(copy.our_bank, info.our_bank);
    assert_eq!(copy.desired_bank, info.desired_bank);
    assert_eq!(copy.our_version, info.our_version);
    assert_eq!(copy.our_extract_time, info.our_extract_time);
    assert_eq!(copy.other_version, info.other_version);
    assert_eq!(copy.other_extract_time, info.other_extract_time);
}

#[test]
fn error_messages_name_their_kind() {
    assert_eq!(UpdaterError::Detection.message(), "could not identify bank");
    assert_eq!(UpdaterError::Format.message(), "formatting tool failed");
    assert_eq!(UpdaterError::Mount.message(), "mount failed");
    assert_eq!(UpdaterError::Io.message(), "file read or write failed");
    assert_eq!(UpdaterError::Network.message(), "download failed");
    assert_eq!(UpdaterError::Decode.message(), "malformed archive stream");
    assert_eq!(UpdaterError::BootLoader.message(), "boot-loader accessor failed");
    assert_eq!(UpdaterError::Protocol.message(), "malformed command");
    assert_eq!(UpdaterError::StateConflict.message(), "conflicting command state");
}
