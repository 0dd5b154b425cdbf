//! The presentation of a listing: tags give way to markers, and permission
//! bits are spelled out.

use crate::file_type::{lowercase, to_lowercase, FileType, Platform};
use crate::listing::{close_tag, close_tag_chars, open_tag, open_tag_chars, tagged};
use crate::text::{
    chars_contain, chars_end_with, chars_of, chars_start_with, contains, ends_with, extend,
    lines, replace, replace_chars, split_lines, split_tokens, starts_with, string_of, tokens,
    trim, trim_chars, unlines, views,
};
use vstd::prelude::*;

verus! {

/// The marker of a plain file whose name, in lower case, is `name`: by its
/// extension a picture, a document, an archive, a sound, a film, a page or a
/// program, else a sheet of paper.
pub open spec fn icon_for(name: Seq<char>) -> Seq<char> {
    if ends_with(name, ".jpg"@) || ends_with(name, ".jpeg"@) || ends_with(name, ".png"@)
        || ends_with(name, ".gif"@) || ends_with(name, ".bmp"@) || ends_with(name, ".svg"@)
        || ends_with(name, ".webp"@) {
        "🖼️"@
    } else if ends_with(name, ".pdf"@) || ends_with(name, ".doc"@) || ends_with(name, ".docx"@)
        || ends_with(name, ".txt"@) || ends_with(name, ".md"@) || ends_with(name, ".rtf"@) {
        "📝"@
    } else if ends_with(name, ".zip"@) || ends_with(name, ".tar"@) || ends_with(name, ".gz"@)
        || ends_with(name, ".rar"@) || ends_with(name, ".7z"@) || ends_with(name, ".bz2"@) {
        "📦"@
    } else if ends_with(name, ".mp3"@) || ends_with(name, ".wav"@) || ends_with(name, ".flac"@)
        || ends_with(name, ".ogg"@) || ends_with(name, ".m4a"@) {
        "🎵"@
    } else if ends_with(name, ".mp4"@) || ends_with(name, ".avi"@) || ends_with(name, ".mkv"@)
        || ends_with(name, ".mov"@) || ends_with(name, ".wmv"@) || ends_with(name, ".webm"@) {
        "🎬"@
    } else if ends_with(name, ".js"@) || ends_with(name, ".ts"@) || ends_with(name, ".jsx"@)
        || ends_with(name, ".tsx"@) || ends_with(name, ".html"@) || ends_with(name, ".css"@)
        || ends_with(name, ".json"@) || ends_with(name, ".xml"@) {
        "💻"@
    } else if ends_with(name, ".rs"@) || ends_with(name, ".py"@) || ends_with(name, ".java"@)
        || ends_with(name, ".cpp"@) || ends_with(name, ".c"@) || ends_with(name, ".h"@) {
        "⚡"@
    } else {
        "📄"@
    }
}

/// The marker of a plain file called `filename`, whatever the case of its
/// letters.
pub open spec fn file_icon(filename: Seq<char>) -> Seq<char> {
    icon_for(lowercase(filename))
}

/// `line` with the tags of type `t` taken out.
pub open spec fn untagged(line: Seq<char>, t: FileType) -> Seq<char> {
    replace(replace(line, open_tag(t), Seq::empty()), close_tag(t), Seq::empty())
}

/// The marker that stands for a type other than a plain file.
pub open spec fn type_marker(t: FileType) -> Seq<char> {
    match t {
        FileType::Directory => "📁"@,
        FileType::Symlink => "🔗"@,
        FileType::Executable => "⚙️"@,
        FileType::Regular => "📄"@,
    }
}

/// The type whose opening tag `line` holds; a directory before a link, a link
/// before an executable, an executable before a plain file.
pub open spec fn tag_in(line: Seq<char>) -> Option<FileType> {
    if contains(line, "{DIR}"@) {
        Some(FileType::Directory)
    } else if contains(line, "{LINK}"@) {
        Some(FileType::Symlink)
    } else if contains(line, "{EXEC}"@) {
        Some(FileType::Executable)
    } else if contains(line, "{FILE}"@) {
        Some(FileType::Regular)
    } else {
        None
    }
}

/// A tagged line as it is presented: the tags taken out, the rest trimmed,
/// and before it the marker of its type, or of its extension for a plain
/// file. A line without a tag is presented as it is.
pub open spec fn presented_tagged_line(line: Seq<char>) -> Seq<char> {
    match tag_in(line) {
        Some(FileType::Regular) => {
            let clean = untagged(line, FileType::Regular);
            file_icon(clean) + " "@ + trim(clean)
        },
        Some(t) => type_marker(t) + " "@ + trim(untagged(line, t)),
        None => line,
    }
}

/// What `char::is_alphanumeric` says of a character.
pub uninterp spec fn alphanumeric(c: char) -> bool;

/// `char::is_alphanumeric`: whether `c` is a letter or a number as Unicode
/// defines them, a function of `c` alone.
#[verifier::external_body]
fn is_alphanumeric(c: char) -> (b: bool)
    ensures
        b == alphanumeric(c),
{
    c.is_alphanumeric()
}

/// The tags that a line of the Unix listing tool gets by its first character
/// alone, where it gets any: `letter_or_number` says whether that character
/// is a letter or a number.
pub open spec fn tag_by_mark(line: Seq<char>, letter_or_number: bool) -> Option<FileType> {
    let first = if line.len() > 0 {
        line[0]
    } else {
        ' '
    };
    if first == 'd' {
        Some(FileType::Directory)
    } else if first == 'l' {
        Some(FileType::Symlink)
    } else if first == '-' || letter_or_number {
        Some(FileType::Regular)
    } else {
        None
    }
}

/// The tags that a line gets by what it holds: those of a directory where it
/// speaks of one or its last token ends in a separator, else those of a plain
/// file; none where it holds no token.
pub open spec fn tag_by_words(line: Seq<char>) -> Option<FileType> {
    let ts = tokens(line);
    if ts.len() == 0 {
        None
    } else if contains(line, "<DIR>"@) || ends_with(ts.last(), "/"@) || ends_with(
        ts.last(),
        "\\"@,
    ) {
        Some(FileType::Directory)
    } else {
        Some(FileType::Regular)
    }
}

/// Whether the first character of `line`, or a space where it has none, is a
/// letter or a number.
pub open spec fn first_is_alphanumeric(line: Seq<char>) -> bool {
    alphanumeric(
        if line.len() > 0 {
            line[0]
        } else {
            ' '
        },
    )
}

/// The tags that a line without tags gets when it is presented.
pub open spec fn late_tag(platform: Platform, line: Seq<char>, letter_or_number: bool) -> Option<
    FileType,
> {
    match platform {
        Platform::Unix => match tag_by_mark(line, letter_or_number) {
            Some(t) => Some(t),
            None => tag_by_words(line),
        },
        Platform::Windows => tag_by_words(line),
    }
}

/// A line of a listing as it is presented. Blank lines and summary lines stay
/// as they are; a tagged line gets its marker; any other line is tagged now.
pub open spec fn presented_line(platform: Platform, line: Seq<char>, letter_or_number: bool) -> Seq<
    char,
> {
    if trim(line).len() == 0 {
        line
    } else if starts_with(line, "total "@) || contains(line, "Directory of"@) {
        line
    } else if tag_in(line) is Some {
        presented_tagged_line(line)
    } else {
        match late_tag(platform, line, letter_or_number) {
            Some(t) => tagged(t, line),
            None => line,
        }
    }
}

/// Each of the lines `ls` as it is presented.
pub open spec fn presented_lines(platform: Platform, ls: Seq<Seq<char>>) -> Seq<Seq<char>> {
    Seq::new(ls.len(), |i: int| presented_line(platform, ls[i], first_is_alphanumeric(ls[i])))
}

/// A listing as it is presented: each of its lines presented and followed by
/// a line feed.
pub open spec fn presented_listing(platform: Platform, output: Seq<char>) -> Seq<char> {
    unlines(presented_lines(platform, lines(output)))
}

/// The character that stands for the kind of file in the permission bits
/// `mode`.
pub open spec fn kind_char(mode: u32) -> char {
    if mode & 0o170000 == 0o040000 {
        'd'
    } else if mode & 0o170000 == 0o120000 {
        'l'
    } else if mode & 0o170000 == 0o100000 {
        '-'
    } else {
        '?'
    }
}

/// `c` where `mode` has the bit `bit`, a dash where it has not.
pub open spec fn bit_char(mode: u32, bit: u32, c: char) -> char {
    if mode & bit != 0 {
        c
    } else {
        '-'
    }
}

/// The permission bits `mode` spelled out: on Unix the kind of file and then
/// read, write and execute for owner, group and others; elsewhere all rights.
pub open spec fn permissions_text(platform: Platform, mode: u32) -> Seq<char> {
    match platform {
        Platform::Unix => seq![
            kind_char(mode),
            bit_char(mode, 0o400, 'r'),
            bit_char(mode, 0o200, 'w'),
            bit_char(mode, 0o100, 'x'),
            bit_char(mode, 0o040, 'r'),
            bit_char(mode, 0o020, 'w'),
            bit_char(mode, 0o010, 'x'),
            bit_char(mode, 0o004, 'r'),
            bit_char(mode, 0o002, 'w'),
            bit_char(mode, 0o001, 'x'),
        ],
        Platform::Windows => "rwxrwxrwx"@,
    }
}

/// Whether `name` ends with `pat`.
fn ends_in(name: &Vec<char>, pat: &str) -> (b: bool)
    ensures
        b == ends_with(name@, pat@),
{
    chars_end_with(name, &chars_of(pat))
}

/// The marker of a plain file whose name, in lower case, is `name`.
pub fn icon_for_name(name: &str) -> (r: String)
    ensures
        r@ == icon_for(name@),
{
    let n = chars_of(name);
    let icon = if ends_in(&n, ".jpg") || ends_in(&n, ".jpeg") || ends_in(&n, ".png") || ends_in(
        &n,
        ".gif",
    ) || ends_in(&n, ".bmp") || ends_in(&n, ".svg") || ends_in(&n, ".webp") {
        "🖼️"
    } else if ends_in(&n, ".pdf") || ends_in(&n, ".doc") || ends_in(&n, ".docx") || ends_in(
        &n,
        ".txt",
    ) || ends_in(&n, ".md") || ends_in(&n, ".rtf") {
        "📝"
    } else if ends_in(&n, ".zip") || ends_in(&n, ".tar") || ends_in(&n, ".gz") || ends_in(
        &n,
        ".rar",
    ) || ends_in(&n, ".7z") || ends_in(&n, ".bz2") {
        "📦"
    } else if ends_in(&n, ".mp3") || ends_in(&n, ".wav") || ends_in(&n, ".flac") || ends_in(
        &n,
        ".ogg",
    ) || ends_in(&n, ".m4a") {
        "🎵"
    } else if ends_in(&n, ".mp4") || ends_in(&n, ".avi") || ends_in(&n, ".mkv") || ends_in(
        &n,
        ".mov",
    ) || ends_in(&n, ".wmv") || ends_in(&n, ".webm") {
        "🎬"
    } else if ends_in(&n, ".js") || ends_in(&n, ".ts") || ends_in(&n, ".jsx") || ends_in(
        &n,
        ".tsx",
    ) || ends_in(&n, ".html") || ends_in(&n, ".css") || ends_in(&n, ".json") || ends_in(
        &n,
        ".xml",
    ) {
        "💻"
    } else if ends_in(&n, ".rs") || ends_in(&n, ".py") || ends_in(&n, ".java") || ends_in(
        &n,
        ".cpp",
    ) || ends_in(&n, ".c") || ends_in(&n, ".h") {
        "⚡"
    } else {
        "📄"
    };
    string_of(&chars_of(icon))
}

/// The marker of a plain file called `filename`.
pub fn get_file_icon(filename: &str) -> (r: String)
    ensures
        r@ == file_icon(filename@),
{
    let lower = to_lowercase(filename);
    icon_for_name(lower.as_str())
}

/// The type whose opening tag `line` holds.
fn tag_in_chars(line: &Vec<char>) -> (r: Option<FileType>)
    ensures
        r == tag_in(line@),
{
    if chars_contain(line, &chars_of("{DIR}")) {
        Some(FileType::Directory)
    } else if chars_contain(line, &chars_of("{LINK}")) {
        Some(FileType::Symlink)
    } else if chars_contain(line, &chars_of("{EXEC}")) {
        Some(FileType::Executable)
    } else if chars_contain(line, &chars_of("{FILE}")) {
        Some(FileType::Regular)
    } else {
        None
    }
}

/// `line` with the tags of type `t` taken out.
fn untag_chars(line: &Vec<char>, t: FileType) -> (r: Vec<char>)
    ensures
        r@ == untagged(line@, t),
{
    let nothing: Vec<char> = Vec::new();
    let first = replace_chars(line, &open_tag_chars(t), &nothing);
    replace_chars(&first, &close_tag_chars(t), &nothing)
}

/// Presents a tagged line, given the marker of the plain file that it may
/// name.
fn present_tagged_chars(line: &Vec<char>, t: FileType, icon: &Vec<char>) -> (r: Vec<char>)
    requires
        tag_in(line@) == Some(t),
        t == FileType::Regular ==> icon@ == file_icon(untagged(line@, t)),
    ensures
        r@ == presented_tagged_line(line@),
{
    let clean = untag_chars(line, t);
    let mut r: Vec<char> = Vec::new();
    match t {
        FileType::Directory => extend(&mut r, &chars_of("📁")),
        FileType::Symlink => extend(&mut r, &chars_of("🔗")),
        FileType::Executable => extend(&mut r, &chars_of("⚙️")),
        FileType::Regular => extend(&mut r, icon),
    }
    extend(&mut r, &chars_of(" "));
    extend(&mut r, &trim_chars(&clean));
    r
}

/// A tagged line as it is presented.
fn present_tagged(line: &Vec<char>) -> (r: Vec<char>)
    ensures
        r@ == presented_tagged_line(line@),
{
    match tag_in_chars(line) {
        Some(t) => {
            let icon = match t {
                FileType::Regular => {
                    let clean = string_of(&untag_chars(line, t));
                    chars_of(get_file_icon(clean.as_str()).as_str())
                },
                _ => Vec::new(),
            };
            present_tagged_chars(line, t, &icon)
        },
        None => {
            let mut r: Vec<char> = Vec::new();
            extend(&mut r, line);
            r
        },
    }
}

/// A tagged line as it is presented.
pub fn format_tagged_line(line: &str) -> (r: String)
    ensures
        r@ == presented_tagged_line(line@),
{
    string_of(&present_tagged(&chars_of(line)))
}

/// The tags that `line` gets by its first character alone.
fn tag_by_mark_chars(line: &Vec<char>, letter_or_number: bool) -> (r: Option<FileType>)
    ensures
        r == tag_by_mark(line@, letter_or_number),
{
    let first = if line.len() > 0 {
        line[0]
    } else {
        ' '
    };
    if first == 'd' {
        Some(FileType::Directory)
    } else if first == 'l' {
        Some(FileType::Symlink)
    } else if first == '-' || letter_or_number {
        Some(FileType::Regular)
    } else {
        None
    }
}

/// The tags that `line` gets by what it holds.
fn tag_by_words_chars(line: &Vec<char>) -> (r: Option<FileType>)
    ensures
        r == tag_by_words(line@),
{
    let ts = split_tokens(line);
    if ts.len() == 0 {
        return None;
    }
    let last = &ts[ts.len() - 1];
    proof {
        assert(views(ts@).last() == last@);
    }
    if chars_contain(line, &chars_of("<DIR>")) || chars_end_with(last, &chars_of("/"))
        || chars_end_with(last, &chars_of("\\")) {
        Some(FileType::Directory)
    } else {
        Some(FileType::Regular)
    }
}

/// One line of a listing as it is presented.
fn present_chars(platform: Platform, line: &Vec<char>, letter_or_number: bool) -> (r: Vec<char>)
    ensures
        r@ == presented_line(platform, line@, letter_or_number),
{
    let mut r: Vec<char> = Vec::new();
    if trim_chars(line).len() == 0 || chars_start_with(line, &chars_of("total "))
        || chars_contain(line, &chars_of("Directory of")) {
        extend(&mut r, line);
        return r;
    }
    if tag_in_chars(line).is_some() {
        return present_tagged(line);
    }
    let late = match platform {
        Platform::Unix => match tag_by_mark_chars(line, letter_or_number) {
            Some(t) => Some(t),
            None => tag_by_words_chars(line),
        },
        Platform::Windows => tag_by_words_chars(line),
    };
    match late {
        Some(t) => {
            extend(&mut r, &open_tag_chars(t));
            extend(&mut r, line);
            extend(&mut r, &close_tag_chars(t));
        },
        None => {
            extend(&mut r, line);
        },
    }
    r
}

/// One line of a listing as it is presented, where `letter_or_number` says
/// whether its first character is a letter or a number.
pub fn present_line(line: &str, platform: Platform, letter_or_number: bool) -> (r: String)
    ensures
        r@ == presented_line(platform, line@, letter_or_number),
{
    string_of(&present_chars(platform, &chars_of(line), letter_or_number))
}

/// Presents a listing line by line.
pub fn format_directory_listing(output: &str, platform: Platform) -> (r: String)
    ensures
        r@ == presented_listing(platform, output@),
{
    let ls = split_lines(&chars_of(output));
    let mut out: Vec<char> = Vec::new();
    let mut i: usize = 0;
    let ghost goal = presented_lines(platform, lines(output@));
    proof {
        assert(goal.take(0) =~= Seq::<Seq<char>>::empty());
    }
    while i < ls.len()
        invariant
            i <= ls.len(),
            views(ls@) == lines(output@),
            goal == presented_lines(platform, lines(output@)),
            out@ == unlines(goal.take(i as int)),
        decreases ls.len() - i,
    {
        proof {
            assert(views(ls@)[i as int] == ls@[i as int]@);
            assert(goal.take(i + 1).drop_last() =~= goal.take(i as int));
            assert(goal.take(i + 1).last() == goal[i as int]);
        }
        let line = &ls[i];
        let first = if line.len() > 0 {
            line[0]
        } else {
            ' '
        };
        let shown = present_chars(platform, line, is_alphanumeric(first));
        extend(&mut out, &shown);
        out.push('\n');
        i += 1;
    }
    proof {
        assert(goal.take(ls.len() as int) =~= goal);
    }
    string_of(&out)
}

/// The character that stands for the kind of file in `mode`.
fn kind_mark(mode: u32) -> (c: char)
    ensures
        c == kind_char(mode),
{
    let kind: u32 = mode & 0o170000;
    if kind == 0o040000 {
        'd'
    } else if kind == 0o120000 {
        'l'
    } else if kind == 0o100000 {
        '-'
    } else {
        '?'
    }
}

/// `c` where `mode` has the bit `bit`, a dash where it has not.
fn bit_mark(mode: u32, bit: u32, c: char) -> (r: char)
    ensures
        r == bit_char(mode, bit, c),
{
    if mode & bit != 0 {
        c
    } else {
        '-'
    }
}

/// The permission bits `mode` spelled out.
pub fn format_permissions(mode: u32, platform: Platform) -> (r: String)
    ensures
        r@ == permissions_text(platform, mode),
{
    match platform {
        Platform::Unix => {
            let mut r: Vec<char> = Vec::new();
            r.push(kind_mark(mode));
            r.push(bit_mark(mode, 0o400, 'r'));
            r.push(bit_mark(mode, 0o200, 'w'));
            r.push(bit_mark(mode, 0o100, 'x'));
            r.push(bit_mark(mode, 0o040, 'r'));
            r.push(bit_mark(mode, 0o020, 'w'));
            r.push(bit_mark(mode, 0o010, 'x'));
            r.push(bit_mark(mode, 0o004, 'r'));
            r.push(bit_mark(mode, 0o002, 'w'));
            r.push(bit_mark(mode, 0o001, 'x'));
            proof {
                assert(r@ =~= permissions_text(platform, mode));
            }
            string_of(&r)
        },
        Platform::Windows => string_of(&chars_of("rwxrwxrwx")),
    }
}

} // verus!
