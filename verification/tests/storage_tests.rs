use esp32s3_board::Error;
use esp32s3_board::storage::{
    mount_params, mount_point, partition_label, self_test_path, self_test_payload, FatVolume,
    NvsAction, NvsInitResult, StorageMount,
};

#[test]
fn clean_init_proceeds_straight_to_the_mount() {
    let mut mount = StorageMount::new();
    assert_eq!(mount.on_nvs_init(NvsInitResult::Done), NvsAction::Proceed);
    assert!(mount.on_mount_result(true).is_ok());
    assert!(mount.is_mounted());
    assert!(!mount.has_failed());
}

#[test]
fn recoverable_failure_gets_exactly_one_erase_and_retry() {
    let mut mount = StorageMount::new();
    assert_eq!(mount.on_nvs_init(NvsInitResult::NoFreePages), NvsAction::EraseAndRetry);
    assert_eq!(mount.on_nvs_init(NvsInitResult::Done), NvsAction::Proceed);
    assert!(mount.on_mount_result(true).is_ok());
    assert!(mount.is_mounted());
}

#[test]
fn a_second_recoverable_failure_is_fatal() {
    let mut mount = StorageMount::new();
    assert_eq!(mount.on_nvs_init(NvsInitResult::NewVersionFound), NvsAction::EraseAndRetry);
    assert_eq!(mount.on_nvs_init(NvsInitResult::NoFreePages), NvsAction::Abort);
    assert!(mount.has_failed());
    assert!(!mount.is_mounted());
}

#[test]
fn any_other_init_failure_is_fatal_at_once() {
    let mut mount = StorageMount::new();
    assert_eq!(mount.on_nvs_init(NvsInitResult::Failed(-262)), NvsAction::Abort);
    assert!(mount.has_failed());
}

#[test]
fn a_failed_mount_is_final() {
    let mut mount = StorageMount::new();
    assert_eq!(mount.on_nvs_init(NvsInitResult::Done), NvsAction::Proceed);
    assert_eq!(mount.on_mount_result(false).err(), Some(Error::MountFailure));
    assert!(mount.has_failed());
    assert!(!mount.is_mounted());
}

#[test]
fn the_mount_parameters_are_fixed() {
    let params = mount_params();
    assert_eq!(params.max_files, 5);
    assert_eq!(params.allocation_unit_size, 4096);
    assert!(params.format_if_mount_failed);
    assert!(!params.disk_status_check_enable);
    assert!(!params.use_one_fat);
    assert_eq!(mount_point(), "/fat");
    assert_eq!(partition_label(), "storage");
}

#[test]
fn self_test_round_trip_is_byte_identical() {
    let mut volume = FatVolume::new();
    assert!(volume.run_self_test());
    let back = volume.read_file(self_test_path().as_bytes()).unwrap();
    assert_eq!(back.as_slice(), b"hello from rust on esp32!\n");
    assert_eq!(self_test_payload(), "hello from rust on esp32!\n");
}

#[test]
fn the_last_write_wins_and_other_names_are_untouched() {
    let mut volume = FatVolume::new();
    assert!(volume.read_file(b"a.txt").is_none());
    volume.write_file(b"a.txt", &[1, 2, 3]);
    volume.write_file(b"b.txt", &[9]);
    volume.write_file(b"a.txt", &[4]);
    assert_eq!(volume.read_file(b"a.txt").unwrap().as_slice(), &[4]);
    assert_eq!(volume.read_file(b"b.txt").unwrap().as_slice(), &[9]);
    assert!(volume.read_file(b"c.txt").is_none());
}
