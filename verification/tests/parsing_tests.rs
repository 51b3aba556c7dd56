use provisioner::fstab::{plan_mount_table, split_lines, MountTableError};
use provisioner::naming::get_partition_name;
use provisioner::uuid::extract_uuid;

#[test]
fn mmc_device_gets_separator() {
    assert_eq!(get_partition_name("/dev/mmcblk0", 3), "/dev/mmcblk0p3");
}

#[test]
fn plain_device_gets_no_separator() {
    assert_eq!(get_partition_name("/dev/sda", 2), "/dev/sda2");
}

#[test]
fn nvme_device_gets_separator() {
    assert_eq!(get_partition_name("/dev/nvme0n1", 2), "/dev/nvme0n1p2");
}

#[test]
fn partition_number_with_many_digits() {
    assert_eq!(get_partition_name("/dev/sda", 123), "/dev/sda123");
    assert_eq!(get_partition_name("/dev/mmcblk1", 10), "/dev/mmcblk1p10");
}

#[test]
fn extract_uuid_from_query_line() {
    let line = "/dev/sda3: UUID=\"1111-2222\" TYPE=\"ext4\"";
    assert_eq!(extract_uuid(line), Some("1111-2222".to_string()));
}

#[test]
fn extract_uuid_without_marker_is_none() {
    assert_eq!(extract_uuid("/dev/sda3: TYPE=\"ext4\""), None);
}

#[test]
fn extract_uuid_without_closing_quote_is_none() {
    assert_eq!(extract_uuid("/dev/sda3: UUID=\"1111-2222"), None);
}

#[test]
fn extract_uuid_takes_first_marker() {
    let line = "x UUID=\"aaaa\" UUID=\"bbbb\"";
    assert_eq!(extract_uuid(line), Some("aaaa".to_string()));
}

#[test]
fn extract_uuid_of_empty_field_is_empty() {
    assert_eq!(extract_uuid("UUID=\"\""), Some(String::new()));
}

#[test]
fn split_lines_drops_final_line_ending() {
    let lines = split_lines("a\nb\n");
    assert_eq!(lines, vec!["a".to_string(), "b".to_string()]);
}

#[test]
fn split_lines_strips_carriage_return() {
    let lines = split_lines("a\r\nb");
    assert_eq!(lines, vec!["a".to_string(), "b".to_string()]);
}

#[test]
fn split_lines_of_empty_is_empty() {
    assert_eq!(split_lines(""), Vec::<String>::new());
}

#[test]
fn plan_mount_table_resolves_both_entries() {
    let query = "/dev/sda3: UUID=\"1111-2222\" TYPE=\"ext4\"\n/dev/sda2: UUID=\"3333-4444\" TYPE=\"ext4\"\n";
    let plan = plan_mount_table(query, "/dev/sda3", "/dev/sda2").unwrap();
    assert_eq!(plan.root_uuid, "1111-2222");
    assert_eq!(plan.root_entry, "UUID=1111-2222 / ext4 defaults 0 1\n");
    assert_eq!(plan.boot_entry, "UUID=3333-4444 /boot ext4 defaults 0 2");
}

#[test]
fn plan_mount_table_rejects_too_few_lines() {
    let query = "/dev/sda3: UUID=\"1111-2222\" TYPE=\"ext4\"\n";
    let r = plan_mount_table(query, "/dev/sda3", "/dev/sda2");
    assert_eq!(r.err(), Some(MountTableError::TooFewLines));
}

#[test]
fn plan_mount_table_rejects_reordered_root_line() {
    let query = "/dev/sda2: UUID=\"3333-4444\" TYPE=\"ext4\"\n/dev/sda3: UUID=\"1111-2222\" TYPE=\"ext4\"\n";
    let r = plan_mount_table(query, "/dev/sda3", "/dev/sda2");
    assert_eq!(r.err(), Some(MountTableError::RootMismatch));
}

#[test]
fn plan_mount_table_rejects_wrong_boot_line() {
    let query = "/dev/sda3: UUID=\"1111-2222\" TYPE=\"ext4\"\n/dev/sdb1: UUID=\"3333-4444\" TYPE=\"ext4\"\n";
    let r = plan_mount_table(query, "/dev/sda3", "/dev/sda2");
    assert_eq!(r.err(), Some(MountTableError::BootMismatch));
}

#[test]
fn plan_mount_table_rejects_missing_root_uuid() {
    let query = "/dev/sda3: TYPE=\"ext4\"\n/dev/sda2: UUID=\"3333-4444\" TYPE=\"ext4\"\n";
    let r = plan_mount_table(query, "/dev/sda3", "/dev/sda2");
    assert_eq!(r.err(), Some(MountTableError::RootUuidMissing));
}

#[test]
fn plan_mount_table_rejects_missing_boot_uuid() {
    let query = "/dev/sda3: UUID=\"1111-2222\" TYPE=\"ext4\"\n/dev/sda2: TYPE=\"ext4\"\n";
    let r = plan_mount_table(query, "/dev/sda3", "/dev/sda2");
    assert_eq!(r.err(), Some(MountTableError::BootUuidMissing));
}
