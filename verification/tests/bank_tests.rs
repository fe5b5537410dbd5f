use firmware_update::bank::Bank;

#[test]
fn other_swaps_banks() {
    assert_eq!(Bank::A.other(), Bank::B);
    assert_eq!(Bank::B.other(), Bank::A);
}

#[test]
fn other_is_an_involution() {
    assert_eq!(Bank::A.other().other(), Bank::A);
    assert_eq!(Bank::B.other().other(), Bank::B);
}

#[test]
fn devices_are_fixed() {
    assert_eq!(Bank::A.device(), "/dev/mmcblk0p2");
    assert_eq!(Bank::B.device(), "/dev/mmcblk0p3");
}

#[test]
fn labels_are_fixed() {
    assert_eq!(Bank::A.label(), "bank_a");
    assert_eq!(Bank::B.label(), "bank_b");
}

#[test]
fn names_are_single_letters() {
    assert_eq!(Bank::A.name(), "A");
    assert_eq!(Bank::B.name(), "B");
}

#[test]
fn from_name_accepts_only_bank_letters() {
    assert_eq!(Bank::from_name("A"), Some(Bank::A));
    assert_eq!(Bank::from_name("B"), Some(Bank::B));
    assert_eq!(Bank::from_name("C"), None);
    assert_eq!(Bank::from_name(""), None);
    assert_eq!(Bank::from_name("AB"), None);
}
