use firmware_update::bank::Bank;
use firmware_update::errors::UpdaterError;
use firmware_update::mount_table::{detect, render_fstab};

#[test]
fn detect_finds_bank_a() {
    let table = "proc  /proc  proc  defaults 0 0\n/dev/mmcblk0p2  /  ext4  defaults,noatime  0  1\n";
    assert_eq!(detect(table), Ok(Bank::A));
}

#[test]
fn detect_finds_bank_b() {
    let table = "/dev/mmcblk0p3   /   ext4 defaults 0 1\n";
    assert_eq!(detect(table), Ok(Bank::B));
}

#[test]
fn detect_fails_without_a_root_entry() {
    let table = "proc /proc proc defaults 0 0\n/dev/sda1 / ext4 defaults 0 1\n";
    assert_eq!(detect(table), Err(UpdaterError::Detection));
    assert_eq!(detect(""), Err(UpdaterError::Detection));
}

#[test]
fn detect_fails_on_unknown_partition_number() {
    let table = "/dev/mmcblk0p4  /  ext4  defaults  0  1\n";
    assert_eq!(detect(table), Err(UpdaterError::Detection));
}

#[test]
fn detect_fails_on_wrong_filesystem_type() {
    let table = "/dev/mmcblk0p2  /  vfat  defaults  0  1\n";
    assert_eq!(detect(table), Err(UpdaterError::Detection));
}

#[test]
fn detect_ignores_other_mountpoints() {
    let table = "/dev/mmcblk0p3  /mnt/other_bank  ext4  noauto  0  0\n/dev/mmcblk0p2  /  ext4  defaults  0  1\n";
    assert_eq!(detect(table), Ok(Bank::A));
}

#[test]
fn detect_takes_the_first_root_entry() {
    let table = "/dev/mmcblk0p3  /  ext4  defaults  0  1\n/dev/mmcblk0p2  /  ext4  defaults  0  1\n";
    assert_eq!(detect(table), Ok(Bank::B));
}

#[test]
fn detect_requires_entries_at_line_starts() {
    let table = "# /dev/mmcblk0p2  /  ext4  defaults  0  1\n";
    assert_eq!(detect(table), Err(UpdaterError::Detection));
}

#[test]
fn rendered_fstab_names_both_devices() {
    let a = render_fstab(Bank::A);
    assert!(a.contains("/dev/mmcblk0p2  /               ext4"));
    assert!(a.contains("/dev/mmcblk0p3  /mnt/other_bank ext4"));
    assert!(a.contains("/dev/mmcblk0p1  /boot"));
    let b = render_fstab(Bank::B);
    assert!(b.contains("/dev/mmcblk0p3  /               ext4"));
    assert!(b.contains("/dev/mmcblk0p2  /mnt/other_bank ext4"));
}

#[test]
fn fstab_round_trips_for_bank_a() {
    assert_eq!(detect(render_fstab(Bank::A)), Ok(Bank::A));
}

#[test]
fn fstab_round_trips_for_bank_b() {
    assert_eq!(detect(render_fstab(Bank::B)), Ok(Bank::B));
}

#[test]
fn detect_reads_a_table_without_a_final_line_break() {
    assert_eq!(detect("/dev/mmcblk0p2  /  ext4  defaults  0  1"), Ok(Bank::A));
}

#[test]
fn detect_needs_spaces_around_the_root_mountpoint() {
    assert_eq!(detect("/dev/mmcblk0p2/ ext4"), Err(UpdaterError::Detection));
    assert_eq!(detect("/dev/mmcblk0p2 /ext4"), Err(UpdaterError::Detection));
}
