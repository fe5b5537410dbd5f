use firmware_update::bank::Bank;
use firmware_update::errors::UpdaterError;
use firmware_update::manager::{
    config_manifest_filename, format_tool, format_tool_args, mount_other_bank, mount_point,
};

#[test]
fn mount_point_is_fixed() {
    assert_eq!(mount_point(), "/mnt/other_bank");
}

#[test]
fn format_tool_is_fixed() {
    assert_eq!(format_tool(), "mkfs.ext4");
}

#[test]
fn format_arguments_label_and_name_the_device() {
    let a = format_tool_args(Bank::A);
    assert_eq!(a, vec!["-L", "bank_a", "/dev/mmcblk0p2"]);
    let b = format_tool_args(Bank::B);
    assert_eq!(b, vec!["-L", "bank_b", "/dev/mmcblk0p3"]);
}

#[test]
fn manifest_filename_is_fixed() {
    assert_eq!(config_manifest_filename(), "firmware-update-filelist.txt");
}

#[test]
fn mounting_needs_a_detectable_bank() {
    match mount_other_bank("") {
        Err(e) => assert_eq!(e, UpdaterError::Detection),
        Ok(_) => panic!("an empty mount table cannot name a bank"),
    }
}

#[test]
fn mounting_fails_without_the_bank_devices() {
    // the devices of this design do not exist on the test machine, so a
    // detected bank still cannot be mounted
    let table = "/dev/mmcblk0p2  /  ext4  defaults  0  1\n";
    match mount_other_bank(table) {
        Err(e) => assert_eq!(e, UpdaterError::Mount),
        Ok(_) => panic!("no bank device exists here"),
    }
}
