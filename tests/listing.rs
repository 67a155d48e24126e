use dirlist::entry::{FileEntry, Metadata};
use dirlist::listing::{filter_entries, is_hidden_name, listing_output, render_table, table_rows, PathState};
use dirlist::options::Options;

fn entry(name: &str) -> FileEntry {
    FileEntry::from_parts(
        Metadata {
            name: name.to_string(),
            is_dir: name == "c",
            is_symlink: false,
            len: 10,
            mode: 0o755,
            modified_secs: 0,
        },
        "Jan 01 00:00".to_string(),
    )
}

fn names(entries: &[FileEntry]) -> Vec<String> {
    entries.iter().map(|e| e.name.clone()).collect()
}

#[test]
fn filter_hides_dot_names() {
    let entries = vec![entry("a"), entry(".b"), entry("c")];
    assert_eq!(names(&filter_entries(&entries, false)), vec!["a", "c"]);
}

#[test]
fn filter_show_all_keeps_everything() {
    let entries = vec![entry("a"), entry(".b"), entry("c")];
    assert_eq!(names(&filter_entries(&entries, true)), vec!["a", ".b", "c"]);
}

#[test]
fn filter_keeps_order_and_fields() {
    let entries = vec![entry("z"), entry(".gitignore"), entry("m"), entry("."), entry("a.b")];
    let shown = filter_entries(&entries, false);
    assert_eq!(names(&shown), vec!["z", "m", "a.b"]);
    assert_eq!(shown[1].size, "10 B");
    assert_eq!(shown[1].permissions, "-rwxr-xr-x");
    assert!(filter_entries(&Vec::new(), false).is_empty());
}

#[test]
fn hidden_names() {
    assert!(is_hidden_name(&".b".to_string()));
    assert!(is_hidden_name(&".".to_string()));
    assert!(!is_hidden_name(&"a.b".to_string()));
    assert!(!is_hidden_name(&String::new()));
}

#[test]
fn rows_have_header_then_entries() {
    let rows = table_rows(&vec![entry("c")]);
    assert_eq!(rows.len(), 2);
    assert_eq!(rows[0], vec!["Name", "Type", "Size", "Last Modified", "Permissions"]);
    assert_eq!(rows[1], vec!["c", "Dir", "10 B", "Jan 01 00:00", "drwxr-xr-x"]);
}

#[test]
fn missing_path_message() {
    let out = listing_output(PathState::Missing, &vec![entry("a")], true);
    assert_eq!(out, "Path does not exists");
    assert!(!out.contains("Name"));
}

#[test]
fn unreadable_path_message() {
    assert_eq!(listing_output(PathState::Unreadable, &Vec::new(), false), "Failed to read path");
}

#[test]
fn empty_directory_gives_header_only() {
    assert_eq!(table_rows(&Vec::new()).len(), 1);
    let out = listing_output(PathState::Exists, &Vec::new(), false);
    let expected = "╭──────┬──────┬──────┬───────────────┬─────────────╮\n\
                    │ Name │ Type │ Size │ Last Modified │ Permissions │\n\
                    ├──────┼──────┼──────┼───────────────┼─────────────┤";
    assert_eq!(out, expected);
}

#[test]
fn table_shows_visible_rows() {
    let entries = vec![entry("a"), entry(".b"), entry("c")];
    let out = listing_output(PathState::Exists, &entries, false);
    assert!(out.contains("│ a "));
    assert!(out.contains("│ c "));
    assert!(!out.contains(".b"));
    assert!(out.contains("drwxr-xr-x"));
    assert_eq!(out.lines().count(), 6);
    assert_eq!(out, render_table(&filter_entries(&entries, false)));
}

#[test]
fn listing_is_repeatable() {
    let first = listing_output(PathState::Exists, &vec![entry("a"), entry(".b")], true);
    let second = listing_output(PathState::Exists, &vec![entry("a"), entry(".b")], true);
    assert_eq!(first, second);
}

#[test]
fn target_path_defaults_to_current_directory() {
    let mut options = Options { path: None, all: false, size: true, time: false, reverse: true, name: false };
    assert_eq!(options.target_path(), ".");
    options.path = Some("/tmp".to_string());
    assert_eq!(options.target_path(), "/tmp");
}
