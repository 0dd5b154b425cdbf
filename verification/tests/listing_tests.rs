use term_core::file_type::{FileType, Platform};
use term_core::listing::{
    format_directory_listing_robust, listing_names, parse_unix_ls_line_robust,
    parse_windows_dir_line_robust, tag_line,
};
use term_core::text::text_lines;

fn some(s: &str) -> Option<String> {
    Some(s.to_string())
}

#[test]
fn unix_name_with_spaces_is_recovered_whole() {
    let line = "-rw-r--r-- 1 alice staff 1024 2023-12-01 14:05 My Document.txt";
    assert_eq!(parse_unix_ls_line_robust(line), some("My Document.txt"));
}

#[test]
fn unix_name_keeps_runs_of_spaces() {
    let line = "-rw-r--r-- 1 alice staff 1024 2023-12-01 14:05   My   Document.txt";
    assert_eq!(parse_unix_ls_line_robust(line), some("My   Document.txt"));
}

#[test]
fn unix_plain_names() {
    assert_eq!(
        parse_unix_ls_line_robust("drwxr-xr-x 2 user group 4096 2023-12-01 10:30 filename"),
        some("filename")
    );
    assert_eq!(
        parse_unix_ls_line_robust("lrwxrwxrwx 1 user group 4 2023-12-01 10:30 link -> target"),
        some("link -> target")
    );
}

#[test]
fn unix_clock_time_may_have_one_digit_groups() {
    assert_eq!(
        parse_unix_ls_line_robust("-rw-r--r-- 1 user group 4096 2023-12-01 9:5 report"),
        some("report")
    );
}

#[test]
fn unix_first_clock_time_counts() {
    assert_eq!(
        parse_unix_ls_line_robust("-rw-r--r-- 1 user group 4096 2023-12-01 10:30 at 11:45 log"),
        some("at 11:45 log")
    );
}

#[test]
fn unix_line_without_clock_time_gives_last_token() {
    assert_eq!(
        parse_unix_ls_line_robust("-rw-r--r-- 1 user group 4096 Dec 1 2023 notes.txt"),
        some("notes.txt")
    );
    // six digits around the colon are no clock time
    assert_eq!(
        parse_unix_ls_line_robust("-rw-r--r-- 1 user group 4096 2023-12-01 123:45 a b"),
        some("b")
    );
}

#[test]
fn unix_names_that_only_end_like_the_parent() {
    assert_eq!(
        parse_unix_ls_line_robust("-rw-r--r-- 1 user group 4096 2023-12-01 10:30 odd .."),
        some("odd ..")
    );
    assert_eq!(
        parse_unix_ls_line_robust("-rw-r--r-- 1 user group 4096 2023-12-01 10:30 ..."),
        some("...")
    );
    assert_eq!(
        parse_unix_ls_line_robust("-rw-r--r-- 1 user group 4096 2023-12-01 10:30 .hidden"),
        some(".hidden")
    );
}

#[test]
fn unix_lines_that_are_not_read() {
    // the entries for the directory itself and its parent
    assert_eq!(parse_unix_ls_line_robust("drwxr-xr-x 2 user group 4096 2023-12-01 10:30 ."), None);
    assert_eq!(parse_unix_ls_line_robust("drwxr-xr-x 2 user group 4096 2023-12-01 10:30 .."), None);
    assert_eq!(parse_unix_ls_line_robust("drwxr-xr-x 2 user group 4096 2023-12-01 10:30\t.."), None);
    assert_eq!(parse_unix_ls_line_robust("drwxr-xr-x 2 user group 4096 Dec 1 2023 ."), None);
    // no mark of a directory, a link or a file at the start
    assert_eq!(parse_unix_ls_line_robust("crw-r--r-- 1 user group 4096 2023-12-01 10:30 tty"), None);
    // fewer than eight tokens
    assert_eq!(parse_unix_ls_line_robust("-rw-r--r-- 1 user 4096 2023-12-01 10:30 f"), None);
    // nothing behind the clock time
    assert_eq!(parse_unix_ls_line_robust("-rw-r--r-- 1 user group 4096 x 2023-12-01 10:30"), None);
    assert_eq!(parse_unix_ls_line_robust(""), None);
}

#[test]
fn windows_name_is_last_token() {
    assert_eq!(
        parse_windows_dir_line_robust("12/01/2023  10:30 AM    <DIR>          Documents"),
        some("Documents")
    );
    assert_eq!(
        parse_windows_dir_line_robust("12/01/2023  10:30 AM         1,234     report.txt"),
        some("report.txt")
    );
    assert_eq!(parse_windows_dir_line_robust("12/01/2023  10:30 AM    <DIR>          ."), None);
    assert_eq!(parse_windows_dir_line_robust("12/01/2023  10:30 AM    <DIR>          .."), None);
    assert_eq!(parse_windows_dir_line_robust("one two three"), None);
}

#[test]
fn tag_line_wraps_in_the_tags_of_the_type() {
    assert_eq!(tag_line("x", FileType::Directory), "{DIR}x{/DIR}");
    assert_eq!(tag_line("x", FileType::Symlink), "{LINK}x{/LINK}");
    assert_eq!(tag_line("x", FileType::Executable), "{EXEC}x{/EXEC}");
    assert_eq!(tag_line("x", FileType::Regular), "{FILE}x{/FILE}");
}

const UNIX_LISTING: &str = "total 12\n\
drwxr-xr-x 2 user group 4096 2023-12-01 10:30 .\n\
drwxr-xr-x 5 user group 4096 2023-12-01 10:29 ..\n\
drwxr-xr-x 2 user group 4096 2023-12-01 10:30 src\n\
  -rwxr-xr-x 1 user group  120 2023-12-01 10:31 run me.sh  \n\
\n\
-rw-r--r-- 1 user group   12 2023-12-01 10:32 notes.txt\n\
something else entirely\n";

#[test]
fn listing_names_line_by_line() {
    assert_eq!(
        listing_names(UNIX_LISTING, Platform::Unix),
        vec![
            None,
            None,
            None,
            some("src"),
            some("run me.sh"),
            None,
            some("notes.txt"),
            None
        ]
    );
}

#[test]
fn normalised_unix_listing() {
    let types = vec![
        None,
        None,
        None,
        Some(FileType::Directory),
        Some(FileType::Executable),
        None,
        Some(FileType::Regular),
        None,
    ];
    let expected = "total 12\n\
drwxr-xr-x 2 user group 4096 2023-12-01 10:30 .\n\
drwxr-xr-x 5 user group 4096 2023-12-01 10:29 ..\n\
{DIR}drwxr-xr-x 2 user group 4096 2023-12-01 10:30 src{/DIR}\n\
{EXEC}-rwxr-xr-x 1 user group  120 2023-12-01 10:31 run me.sh{/EXEC}\n\
\n\
{FILE}-rw-r--r-- 1 user group   12 2023-12-01 10:32 notes.txt{/FILE}\n\
something else entirely\n";
    assert_eq!(format_directory_listing_robust(UNIX_LISTING, &types, Platform::Unix), expected);
}

#[test]
fn type_read_from_the_file_system_wins_over_the_mark_in_the_line() {
    let line = "-rw-r--r-- 1 user group 12 2023-12-01 10:32 really-a-dir\n";
    let out = format_directory_listing_robust(line, &vec![Some(FileType::Directory)], Platform::Unix);
    assert_eq!(out, "{DIR}-rw-r--r-- 1 user group 12 2023-12-01 10:32 really-a-dir{/DIR}\n");
    let link = format_directory_listing_robust(line, &vec![Some(FileType::Symlink)], Platform::Unix);
    assert_eq!(link, "{LINK}-rw-r--r-- 1 user group 12 2023-12-01 10:32 really-a-dir{/LINK}\n");
}

#[test]
fn entry_without_a_type_passes_through() {
    let line = "  -rw-r--r-- 1 user group 12 2023-12-01 10:32 notes.txt  ";
    assert_eq!(
        format_directory_listing_robust(line, &Vec::new(), Platform::Unix),
        "  -rw-r--r-- 1 user group 12 2023-12-01 10:32 notes.txt  \n"
    );
    assert_eq!(
        format_directory_listing_robust(line, &vec![None], Platform::Unix),
        "  -rw-r--r-- 1 user group 12 2023-12-01 10:32 notes.txt  \n"
    );
}

#[test]
fn normalised_windows_listing() {
    let listing = " Volume in drive C has no label.\r\n\
 Directory of C:\\Users\\alice\r\n\
\r\n\
12/01/2023  10:30 AM    <DIR>          .\r\n\
12/01/2023  10:30 AM    <DIR>          Documents\r\n\
12/01/2023  10:31 AM             1,234 setup.exe\r\n";
    let names = listing_names(listing, Platform::Windows);
    assert_eq!(
        names,
        vec![some("label."), None, None, None, some("Documents"), some("setup.exe")]
    );
    let types = vec![
        Some(FileType::Regular),
        None,
        None,
        None,
        Some(FileType::Directory),
        Some(FileType::Executable),
    ];
    let expected = "{FILE}Volume in drive C has no label.{/FILE}\n\
 Directory of C:\\Users\\alice\n\
\n\
12/01/2023  10:30 AM    <DIR>          .\n\
{DIR}12/01/2023  10:30 AM    <DIR>          Documents{/DIR}\n\
{EXEC}12/01/2023  10:31 AM             1,234 setup.exe{/EXEC}\n";
    assert_eq!(format_directory_listing_robust(listing, &types, Platform::Windows), expected);
}

#[test]
fn tagged_lines_are_not_wrapped_twice() {
    let types: Vec<Option<FileType>> = (0..8).map(|_| Some(FileType::Regular)).collect();
    for platform in [Platform::Unix, Platform::Windows] {
        let once = format_directory_listing_robust(UNIX_LISTING, &types, platform);
        let twice = format_directory_listing_robust(&once, &types, platform);
        assert_eq!(once, twice);
    }
    let tagged = "{DIR}12/01/2023  10:30 AM    <DIR>          Documents{/DIR}\n";
    assert_eq!(
        format_directory_listing_robust(tagged, &vec![Some(FileType::Regular)], Platform::Windows),
        tagged
    );
    assert_eq!(listing_names(tagged, Platform::Windows), vec![None]);
}

#[test]
fn no_line_is_dropped() {
    let types: Vec<Option<FileType>> = (0..8).map(|_| Some(FileType::Symlink)).collect();
    for platform in [Platform::Unix, Platform::Windows] {
        let out = format_directory_listing_robust(UNIX_LISTING, &types, platform);
        assert_eq!(text_lines(&out).len(), text_lines(UNIX_LISTING).len());
        assert_eq!(out.lines().count(), 8);
    }
    assert_eq!(format_directory_listing_robust("", &Vec::new(), Platform::Unix), "");
    assert_eq!(format_directory_listing_robust("\n\n", &Vec::new(), Platform::Unix), "\n\n");
}

#[test]
fn summary_lines_pass_through() {
    let listing = "total 0\nx Directory of y z w v u t s\n";
    let types = vec![Some(FileType::Regular), Some(FileType::Regular)];
    assert_eq!(format_directory_listing_robust(listing, &types, Platform::Unix), listing);
    assert_eq!(format_directory_listing_robust(listing, &types, Platform::Windows), listing);
}
