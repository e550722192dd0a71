use dua_core::ByteFormat;
use dua_core::Color;
use dua_core::EntryError;
use dua_core::EntryKind;
use dua_core::EntryMeta;
use dua_core::WalkOptions;
use dua_core::WalkResult;

fn file(size: u64) -> Result<EntryMeta, EntryError> {
    Ok(EntryMeta { size, kind: EntryKind::File, depth: 1 })
}

fn directory() -> Result<EntryMeta, EntryError> {
    Ok(EntryMeta { size: 4096, kind: EntryKind::Directory, depth: 1 })
}

fn symlink() -> Result<EntryMeta, EntryError> {
    Ok(EntryMeta { size: 11, kind: EntryKind::Symlink, depth: 2 })
}

fn failure() -> Result<EntryMeta, EntryError> {
    Err(EntryError::PermissionDenied)
}

#[test]
fn empty_traversal_keeps_zero_defaults() {
    let result = WalkResult::default();
    assert_eq!(result.num_errors, 0);
    assert_eq!(result.stats.files_traversed, 0);
    assert_eq!(result.stats.smallest_file_in_bytes, 0);
    assert_eq!(result.stats.largest_file_in_bytes, 0);
}

#[test]
fn three_files_with_binary_rendering() {
    let mut result = WalkResult::default();
    for entry in [file(10), file(1048576), file(500)] {
        result.observe(&entry);
    }
    assert_eq!(result.num_errors, 0);
    assert_eq!(result.stats.files_traversed, 3);
    assert_eq!(result.stats.smallest_file_in_bytes, 10);
    assert_eq!(result.stats.largest_file_in_bytes, 1048576);
    let opts = WalkOptions { threads: 1, format: ByteFormat::Binary, color: Color::Disabled };
    let rendered = opts.format_bytes(result.stats.largest_file_in_bytes);
    assert!(rendered.contains("1.00"));
    assert!(rendered.contains("MiB"));
}

#[test]
fn first_file_sets_both_bounds() {
    let mut result = WalkResult::default();
    result.observe(&file(77));
    assert_eq!(result.stats.files_traversed, 1);
    assert_eq!(result.stats.smallest_file_in_bytes, 77);
    assert_eq!(result.stats.largest_file_in_bytes, 77);
}

#[test]
fn errors_are_counted_and_isolated() {
    let mut result = WalkResult::default();
    for entry in [file(5), failure(), file(7), file(3), failure(), file(9)] {
        result.observe(&entry);
    }
    assert_eq!(result.num_errors, 2);
    assert_eq!(result.stats.files_traversed, 4);
    assert_eq!(result.stats.smallest_file_in_bytes, 3);
    assert_eq!(result.stats.largest_file_in_bytes, 9);
}

#[test]
fn every_error_kind_is_counted() {
    let mut result = WalkResult::default();
    result.observe(&Err(EntryError::PermissionDenied));
    result.observe(&Err(EntryError::BrokenLink));
    result.observe(&Err(EntryError::Io));
    assert_eq!(result.num_errors, 3);
    assert_eq!(result.stats.files_traversed, 0);
}

#[test]
fn non_file_entries_change_nothing() {
    let mut result = WalkResult::default();
    result.observe(&file(50));
    result.observe(&directory());
    result.observe(&symlink());
    assert_eq!(result.stats.files_traversed, 1);
    assert_eq!(result.stats.smallest_file_in_bytes, 50);
    assert_eq!(result.stats.largest_file_in_bytes, 50);
}

#[test]
fn aggregation_is_order_independent() {
    let orders: [[u64; 5]; 3] = [
        [8, 1, 9, 4, 4],
        [9, 8, 4, 4, 1],
        [4, 4, 1, 8, 9],
    ];
    for sizes in orders {
        let mut result = WalkResult::default();
        for size in sizes {
            result.observe(&file(size));
        }
        assert_eq!(result.stats.files_traversed, 5);
        assert_eq!(result.stats.smallest_file_in_bytes, 1);
        assert_eq!(result.stats.largest_file_in_bytes, 9);
    }
}

#[test]
fn equal_sizes_set_both_bounds() {
    let mut result = WalkResult::default();
    result.observe(&file(6));
    result.observe(&file(6));
    assert_eq!(result.stats.files_traversed, 2);
    assert_eq!(result.stats.smallest_file_in_bytes, 6);
    assert_eq!(result.stats.largest_file_in_bytes, 6);
}
