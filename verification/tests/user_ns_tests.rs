use nck_daemon::user_ns::{
    check_ranges, classify_failure, map_file_path, render_mappings, IdMapping, MapKind,
    MappingError, UserNamespaceConfig, EACCES, EINVAL, ENOENT, EPERM, ESRCH, MAX_MAPPINGS,
};

fn line(inside: u32, outside: u32, count: u32) -> IdMapping {
    IdMapping { inside, outside, count }
}

#[test]
fn no_lines_are_valid() {
    assert!(check_ranges(&[]));
}

#[test]
fn usual_lines_are_valid() {
    assert!(check_ranges(&[line(0, 1000, 1)]));
    assert!(check_ranges(&[line(0, 1000, 1), line(1, 100000, 65536)]));
}

#[test]
fn whole_identifier_space_is_valid() {
    assert!(check_ranges(&[line(0, 0, u32::MAX)]));
    assert!(check_ranges(&[line(u32::MAX, u32::MAX, 1)]));
    assert!(check_ranges(&[line(1, 0, u32::MAX)]));
}

#[test]
fn empty_range_is_invalid() {
    assert!(!check_ranges(&[line(0, 1000, 0)]));
    assert!(!check_ranges(&[line(0, 1000, 1), line(5, 5000, 0)]));
}

#[test]
fn range_past_the_identifier_space_is_invalid() {
    assert!(!check_ranges(&[line(u32::MAX, 0, 2)]));
    assert!(!check_ranges(&[line(0, u32::MAX, 2)]));
    assert!(!check_ranges(&[line(2, 0, u32::MAX)]));
}

#[test]
fn overlap_inside_is_invalid() {
    assert!(!check_ranges(&[line(0, 1000, 10), line(9, 5000, 1)]));
    assert!(check_ranges(&[line(0, 1000, 10), line(10, 5000, 1)]));
    assert!(!check_ranges(&[line(10, 5000, 5), line(0, 1000, 11)]));
}

#[test]
fn overlap_outside_is_invalid() {
    assert!(!check_ranges(&[line(0, 1000, 10), line(100, 1009, 1)]));
    assert!(check_ranges(&[line(0, 1000, 10), line(100, 1010, 1)]));
    assert!(!check_ranges(&[line(0, 1000, 1), line(1, 1000, 1)]));
}

#[test]
fn overlap_between_far_lines_is_found() {
    let lines = [line(0, 0, 1), line(10, 10, 1), line(20, 20, 1), line(30, 0, 1)];
    assert!(!check_ranges(&lines));
}

#[test]
fn too_many_lines_are_invalid() {
    assert_eq!(MAX_MAPPINGS, 340);
    let mut lines = Vec::new();
    for index in 0..340u32 {
        lines.push(line(index, index, 1));
    }
    assert!(check_ranges(&lines));
    lines.push(line(340, 340, 1));
    assert!(!check_ranges(&lines));
}

#[test]
fn configuration_needs_both_files_valid() {
    let good = vec![line(0, 1000, 1)];
    let bad = vec![line(0, 1000, 0)];
    let config = UserNamespaceConfig { uid_mappings: good.clone(), gid_mappings: good.clone() };
    assert!(config.is_valid());
    let config = UserNamespaceConfig { uid_mappings: bad.clone(), gid_mappings: good.clone() };
    assert!(!config.is_valid());
    let config = UserNamespaceConfig { uid_mappings: good, gid_mappings: bad };
    assert!(!config.is_valid());
    let config = UserNamespaceConfig { uid_mappings: Vec::new(), gid_mappings: Vec::new() };
    assert!(config.is_valid());
}

#[test]
fn vanished_process_is_told_apart() {
    assert_eq!(classify_failure(ESRCH), MappingError::NoSuchProcess);
    assert_eq!(classify_failure(ENOENT), MappingError::NoSuchProcess);
    assert_eq!(classify_failure(3), MappingError::NoSuchProcess);
    assert_eq!(classify_failure(2), MappingError::NoSuchProcess);
}

#[test]
fn refused_ranges_are_told_apart() {
    assert_eq!(classify_failure(EINVAL), MappingError::InvalidRanges);
    assert_eq!(classify_failure(22), MappingError::InvalidRanges);
}

#[test]
fn missing_privilege_is_told_apart() {
    assert_eq!(classify_failure(EPERM), MappingError::PermissionDenied);
    assert_eq!(classify_failure(EACCES), MappingError::PermissionDenied);
    assert_eq!(classify_failure(1), MappingError::PermissionDenied);
    assert_eq!(classify_failure(13), MappingError::PermissionDenied);
}

#[test]
fn other_failures_keep_their_number() {
    assert_eq!(classify_failure(5), MappingError::Other(5));
    assert_eq!(classify_failure(0), MappingError::Other(0));
    assert_eq!(classify_failure(-1), MappingError::Other(-1));
}

#[test]
fn mapping_file_is_one_line_per_mapping() {
    assert_eq!(render_mappings(&[]), Vec::<u8>::new());
    assert_eq!(render_mappings(&[line(0, 1000, 1)]), b"0 1000 1\n".to_vec());
    assert_eq!(
        render_mappings(&[line(0, 1000, 1), line(1, 100000, 65536)]),
        b"0 1000 1\n1 100000 65536\n".to_vec()
    );
}

#[test]
fn numbers_are_written_in_decimal_without_leading_zeros() {
    assert_eq!(
        render_mappings(&[line(u32::MAX, 10, 909)]),
        b"4294967295 10 909\n".to_vec()
    );
    assert_eq!(render_mappings(&[line(9, 99, 100)]), b"9 99 100\n".to_vec());
}

#[test]
fn configuration_renders_each_file() {
    let config = UserNamespaceConfig {
        uid_mappings: vec![line(0, 1000, 1)],
        gid_mappings: vec![line(0, 100, 1), line(1, 200, 5)],
    };
    assert_eq!(config.render(MapKind::Uid), b"0 1000 1\n".to_vec());
    assert_eq!(config.render(MapKind::Gid), b"0 100 1\n1 200 5\n".to_vec());
}

#[test]
fn mapping_files_live_below_proc() {
    assert_eq!(map_file_path(4242, MapKind::Uid), Some(b"/proc/4242/uid_map".to_vec()));
    assert_eq!(map_file_path(4242, MapKind::Gid), Some(b"/proc/4242/gid_map".to_vec()));
    assert_eq!(map_file_path(1, MapKind::Uid), Some(b"/proc/1/uid_map".to_vec()));
    assert_eq!(
        map_file_path(i32::MAX, MapKind::Gid),
        Some(b"/proc/2147483647/gid_map".to_vec())
    );
}

#[test]
fn no_mapping_file_without_a_process() {
    assert_eq!(map_file_path(0, MapKind::Uid), None);
    assert_eq!(map_file_path(-1, MapKind::Gid), None);
}
