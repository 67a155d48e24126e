use dirlist::entry::{classify, FileEntry, FileType, Metadata};
use dirlist::permissions::get_formatted_permissions;
use dirlist::size::{decimal_string, get_human_readable_size};

#[test]
fn size_examples() {
    assert_eq!(get_human_readable_size(0), "0 B");
    assert_eq!(get_human_readable_size(1023), "1023 B");
    assert_eq!(get_human_readable_size(1024), "1 KB");
    assert_eq!(get_human_readable_size(1048575), "1023 KB");
    assert_eq!(get_human_readable_size(1048576), "1 MB");
}

#[test]
fn size_gigabytes_and_beyond() {
    assert_eq!(get_human_readable_size(1073741823), "1023 MB");
    assert_eq!(get_human_readable_size(1073741824), "1 GB");
    assert_eq!(get_human_readable_size(1099511627776), "1024 GB");
    assert_eq!(get_human_readable_size(u64::MAX), "17179869183 GB");
}

#[test]
fn size_truncates() {
    assert_eq!(get_human_readable_size(2047), "1 KB");
    assert_eq!(get_human_readable_size(5 * 1048576 + 1048575), "5 MB");
}

#[test]
fn size_has_exactly_one_unit_suffix() {
    let units = [" B", " KB", " MB", " GB"];
    for (bytes, expected) in [(7u64, 0usize), (4096, 1), (3 << 20, 2), (9 << 30, 3)] {
        let text = get_human_readable_size(bytes);
        let hits: Vec<usize> = (0..4).filter(|&k| text.ends_with(units[k])).collect();
        assert_eq!(hits, vec![expected]);
        let unit: u64 = 1 << (10 * expected);
        let prefix = &text[..text.len() - units[expected].len()];
        assert_eq!(prefix, (bytes / unit).to_string());
    }
}

#[test]
fn decimal_digits() {
    assert_eq!(decimal_string(0), "0");
    assert_eq!(decimal_string(9), "9");
    assert_eq!(decimal_string(10), "10");
    assert_eq!(decimal_string(1234567890), "1234567890");
    assert_eq!(decimal_string(u64::MAX), "18446744073709551615");
}

#[test]
fn permissions_none_set() {
    assert_eq!(get_formatted_permissions(0, &FileType::File), "----------");
    assert_eq!(get_formatted_permissions(0, &FileType::File).len(), 10);
}

#[test]
fn permissions_755_file() {
    assert_eq!(get_formatted_permissions(0o755, &FileType::File), "-rwxr-xr-x");
}

#[test]
fn permissions_644_dir() {
    assert_eq!(get_formatted_permissions(0o644, &FileType::Dir), "drw-r--r--");
}

#[test]
fn permissions_symlink_and_high_bits() {
    assert_eq!(get_formatted_permissions(0o777, &FileType::SymLink), "lrwxrwxrwx");
    assert_eq!(get_formatted_permissions(0o104700, &FileType::File), "-rwx------");
    assert_eq!(get_formatted_permissions(0o042, &FileType::File), "----r---w-");
}

#[test]
fn classification_order() {
    assert_eq!(classify(true, false), FileType::Dir);
    assert_eq!(classify(true, true), FileType::Dir);
    assert_eq!(classify(false, true), FileType::SymLink);
    assert_eq!(classify(false, false), FileType::File);
}

#[test]
fn type_labels() {
    assert_eq!(FileType::Dir.to_string(), "Dir");
    assert_eq!(FileType::File.to_string(), "File");
    assert_eq!(FileType::SymLink.to_string(), "SymLink");
}

fn metadata(name: &str, modified_secs: i64) -> Metadata {
    Metadata {
        name: name.to_string(),
        is_dir: false,
        is_symlink: false,
        len: 2048,
        mode: 0o100644,
        modified_secs,
    }
}

#[test]
fn entry_from_parts() {
    let e = FileEntry::from_parts(metadata("notes.txt", 0), "Jan 01 00:00".to_string());
    assert_eq!(e.name, "notes.txt");
    assert_eq!(e.file_type, FileType::File);
    assert_eq!(e.size, "2 KB");
    assert_eq!(e.modified_at, "Jan 01 00:00");
    assert_eq!(e.permissions, "-rw-r--r--");
}

#[test]
fn entry_stamp_in_utc() {
    let e = FileEntry::from_metadata(metadata("a", 0)).unwrap();
    assert_eq!(e.modified_at, "Jan 01 00:00");
    let secs = 31 * 86400 + 5 * 3600 + 7 * 60 + 59;
    let e = FileEntry::from_metadata(metadata("b", secs)).unwrap();
    assert_eq!(e.modified_at, "Feb 01 05:07");
    let e = FileEntry::from_metadata(metadata("c", -60)).unwrap();
    assert_eq!(e.modified_at, "Dec 31 23:59");
}

#[test]
fn entry_with_unrepresentable_time_is_left_out() {
    assert!(FileEntry::from_metadata(metadata("far", i64::MAX)).is_none());
}
