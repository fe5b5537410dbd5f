use firmware_update::config::{copy_plan, path_join};

#[test]
fn path_join_inserts_a_separator() {
    assert_eq!(path_join("/mnt/other_bank", "etc/app.conf"), "/mnt/other_bank/etc/app.conf");
}

#[test]
fn path_join_keeps_an_existing_separator() {
    assert_eq!(path_join("/", "etc/app.conf"), "/etc/app.conf");
}

#[test]
fn path_join_replaces_on_absolute_entries() {
    assert_eq!(path_join("/mnt/other_bank", "/etc/app.conf"), "/etc/app.conf");
}

#[test]
fn copy_plan_resolves_each_manifest_line() {
    let plan = copy_plan("/mnt/other_bank", "etc/app.conf\nbin/app\n");
    assert_eq!(plan.len(), 2);
    assert_eq!(plan[0].from, "/etc/app.conf");
    assert_eq!(plan[0].to, "/mnt/other_bank/etc/app.conf");
    assert!(!plan[0].skip);
    assert_eq!(plan[1].from, "/bin/app");
    assert_eq!(plan[1].to, "/mnt/other_bank/bin/app");
    assert!(!plan[1].skip);
}

#[test]
fn copy_plan_skips_self_copies() {
    let plan = copy_plan("/mnt/other_bank", "/etc/app.conf\netc/app.conf\n");
    assert_eq!(plan.len(), 2);
    assert!(plan[0].skip);
    assert_eq!(plan[0].from, "/etc/app.conf");
    assert_eq!(plan[0].to, "/etc/app.conf");
    assert!(!plan[1].skip);
}

#[test]
fn copy_plan_of_an_empty_manifest_is_empty() {
    assert_eq!(copy_plan("/mnt/other_bank", "").len(), 0);
}

#[test]
fn copy_plan_reads_a_final_line_without_a_break() {
    let plan = copy_plan("/mnt/other_bank", "etc/app.conf");
    assert_eq!(plan.len(), 1);
    assert_eq!(plan[0].from, "/etc/app.conf");
}

#[test]
fn copy_plan_drops_carriage_returns() {
    let plan = copy_plan("/mnt/other_bank", "etc/app.conf\r\nbin/app\r\n");
    assert_eq!(plan.len(), 2);
    assert_eq!(plan[0].from, "/etc/app.conf");
    assert_eq!(plan[1].from, "/bin/app");
}

#[test]
fn copy_plan_under_a_root_with_a_trailing_separator() {
    let plan = copy_plan("/mnt/other_bank/", "etc/app.conf\n");
    assert_eq!(plan.len(), 1);
    assert_eq!(plan[0].to, "/mnt/other_bank/etc/app.conf");
}

#[test]
fn copy_plan_keeps_blank_lines_as_entries() {
    let plan = copy_plan("/mnt/other_bank", "etc/app.conf\n\n");
    assert_eq!(plan.len(), 2);
    assert_eq!(plan[1].from, "/");
    assert_eq!(plan[1].to, "/mnt/other_bank/");
    assert!(!plan[1].skip);
}
