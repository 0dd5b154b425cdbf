use term_core::directory::{list_directory_entries, DirectoryEntry};
use term_core::file_type::FileType;

fn entry(name: &str, file_type: FileType) -> DirectoryEntry {
    DirectoryEntry { name: name.to_string(), file_type }
}

#[test]
fn labels_are_marked_and_in_order() {
    let entries = vec![
        entry("src", FileType::Directory),
        entry("run.sh", FileType::Executable),
        entry(".git", FileType::Directory),
        entry("notes.txt", FileType::Regular),
        entry("latest", FileType::Symlink),
        entry(".env", FileType::Regular),
        entry("Cargo.toml", FileType::Regular),
    ];
    assert_eq!(
        list_directory_entries(&entries),
        vec!["Cargo.toml", "latest@", "notes.txt", "run.sh*", "src/"]
    );
}

#[test]
fn dot_and_dot_dot_are_not_hidden() {
    let entries = vec![
        entry("..", FileType::Directory),
        entry(".", FileType::Directory),
        entry("...", FileType::Regular),
        entry(".a", FileType::Regular),
    ];
    assert_eq!(list_directory_entries(&entries), vec!["../", "./"]);
}

#[test]
fn order_is_that_of_std_strings() {
    let names = ["b", "a", "B", "ab", "a b", "é", "z", "", "a", "\u{10000}", "\u{ffff}", "Z", "10", "9", "aa"];
    let entries: Vec<DirectoryEntry> = names.iter().map(|n| entry(n, FileType::Regular)).collect();
    let mut expected: Vec<String> = names.iter().map(|n| n.to_string()).collect();
    expected.sort();
    assert_eq!(list_directory_entries(&entries), expected);
    assert_eq!(list_directory_entries(&Vec::new()), Vec::<String>::new());
}

#[test]
fn marks_count_in_the_order() {
    let entries = vec![entry("a", FileType::Directory), entry("a!", FileType::Regular), entry("a", FileType::Regular)];
    assert_eq!(list_directory_entries(&entries), vec!["a", "a!", "a/"]);
}
