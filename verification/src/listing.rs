//! Normalisation of a directory listing: which lines name an entry, what the
//! entry is called, and how a line is tagged with the entry's type.

use crate::file_type::{FileType, Platform};
use crate::paths::{join_chars, joined};
use crate::text::{
    chars_contain, chars_end_with, chars_of, chars_start_with, contains, ends_with, extend,
    is_digit, lemma_run_len, lines, option_view, run_len, same_chars, scan, slice_of, split_lines,
    split_tokens, starts_with, string_of, tokens, trim, trim_chars, trim_start, unlines, views,
    CharClass,
};
use vstd::prelude::*;

verus! {

/// The tag that opens a line of type `t`.
pub open spec fn open_tag(t: FileType) -> Seq<char> {
    match t {
        FileType::Directory => "{DIR}"@,
        FileType::Symlink => "{LINK}"@,
        FileType::Executable => "{EXEC}"@,
        FileType::Regular => "{FILE}"@,
    }
}

/// The tag that closes a line of type `t`.
pub open spec fn close_tag(t: FileType) -> Seq<char> {
    match t {
        FileType::Directory => "{/DIR}"@,
        FileType::Symlink => "{/LINK}"@,
        FileType::Executable => "{/EXEC}"@,
        FileType::Regular => "{/FILE}"@,
    }
}

/// `line` wrapped in the tags of type `t`.
pub open spec fn tagged(t: FileType, line: Seq<char>) -> Seq<char> {
    open_tag(t) + line + close_tag(t)
}

/// `line` opens and closes with the tags of type `t`.
pub open spec fn carries_tag_of(t: FileType, line: Seq<char>) -> bool {
    &&& open_tag(t).len() + close_tag(t).len() <= line.len()
    &&& starts_with(line, open_tag(t))
    &&& ends_with(line, close_tag(t))
}

/// `line` is already wrapped in the tags of some type.
pub open spec fn carries_tag(line: Seq<char>) -> bool {
    carries_tag_of(FileType::Directory, line) || carries_tag_of(FileType::Symlink, line)
        || carries_tag_of(FileType::Executable, line) || carries_tag_of(FileType::Regular, line)
}

/// A line that sums up or heads a listing: the count of blocks that the Unix
/// tool prints first, or the directory header of the Windows tool.
pub open spec fn is_summary(line: Seq<char>) -> bool {
    starts_with(line, "total "@) || contains(line, "Directory of"@)
}

/// `t` is digits around a colon at index `h`, one or two before it and one or
/// two after.
pub open spec fn time_shape(t: Seq<char>, h: int) -> bool {
    &&& 1 <= h <= 2
    &&& h + 2 <= t.len() <= h + 3
    &&& t[h] == ':'
    &&& forall|i: int| 0 <= i < t.len() && i != h ==> is_digit(#[trigger] t[i])
}

/// A clock time: two groups of one or two digits with one colon between them.
pub open spec fn is_time_token(t: Seq<char>) -> bool {
    time_shape(t, 1) || time_shape(t, 2)
}

/// The index just behind the first token of `s` that is a clock time.
pub open spec fn after_time_token(s: Seq<char>) -> Option<int>
    decreases s.len(),
{
    let a = run_len(s, CharClass::Space);
    let t = s.skip(a as int);
    if t.len() == 0 {
        None
    } else {
        let n = run_len(t, CharClass::Word);
        proof {
            lemma_run_len(s, CharClass::Space);
            lemma_run_len(t, CharClass::Word);
        }
        if is_time_token(t.take(n as int)) {
            Some((a + n) as int)
        } else {
            match after_time_token(t.skip(n as int)) {
                Some(k) => Some(a + n + k),
                None => None,
            }
        }
    }
}

/// The entry that stands for a directory itself, or for its parent.
pub open spec fn is_self_or_parent(name: Seq<char>) -> bool {
    name == "."@ || name == ".."@
}

/// What a trimmed line of the Unix listing tool gives as the name of its
/// entry: all that follows the first clock time, spaces within it included,
/// or the last token on a line without a clock time.
pub open spec fn unix_name_text(line: Seq<char>) -> Seq<char> {
    match after_time_token(line) {
        Some(k) => trim_start(line.skip(k)),
        None => tokens(line).last(),
    }
}

/// The name of the entry on a trimmed line of the Unix listing tool. The line
/// has to begin with the mark of a directory, a link or a file and to hold at
/// least eight tokens, and a name has to follow the clock time; the entries
/// `.` and `..` are none.
pub open spec fn unix_entry_name(line: Seq<char>) -> Option<Seq<char>> {
    if line.len() == 0 || !(line[0] == 'd' || line[0] == 'l' || line[0] == '-') {
        None
    } else if tokens(line).len() < 8 {
        None
    } else if unix_name_text(line).len() == 0 || is_self_or_parent(unix_name_text(line)) {
        None
    } else {
        Some(unix_name_text(line))
    }
}

/// The name of the entry on a trimmed line of the Windows listing tool: the
/// last of at least four tokens, unless it is `.` or `..`.
pub open spec fn windows_entry_name(line: Seq<char>) -> Option<Seq<char>> {
    let ts = tokens(line);
    if ts.len() < 4 {
        None
    } else if is_self_or_parent(ts.last()) {
        None
    } else {
        Some(ts.last())
    }
}

/// The name of the entry that a line of a listing stands for, if it stands for
/// one: blank lines, summary lines, lines that already carry a tag and lines
/// that the platform's rule does not recognise stand for none.
pub open spec fn listed_name(platform: Platform, line: Seq<char>) -> Option<Seq<char>> {
    let t = trim(line);
    if t.len() == 0 || is_summary(t) || carries_tag(t) {
        None
    } else {
        match platform {
            Platform::Unix => unix_entry_name(t),
            Platform::Windows => windows_entry_name(t),
        }
    }
}

/// What normalisation makes of one line: an entry whose type is known is
/// trimmed and wrapped in the tags of that type, every other line is kept as
/// it is.
pub open spec fn normalized_line(platform: Platform, line: Seq<char>, ty: Option<FileType>) -> Seq<
    char,
> {
    match (listed_name(platform, line), ty) {
        (Some(_), Some(t)) => tagged(t, trim(line)),
        _ => line,
    }
}

/// The type given for line `i`, none where `types` is too short.
pub open spec fn type_at(types: Seq<Option<FileType>>, i: int) -> Option<FileType> {
    if 0 <= i < types.len() {
        types[i]
    } else {
        None
    }
}

/// Each of the lines `ls` normalised with the type given at its index.
pub open spec fn normalized_lines(
    platform: Platform,
    ls: Seq<Seq<char>>,
    types: Seq<Option<FileType>>,
) -> Seq<Seq<char>> {
    Seq::new(ls.len(), |i: int| normalized_line(platform, ls[i], type_at(types, i)))
}

/// The normalised listing: every line of `output` normalised with the type
/// given for it, each followed by a line feed.
pub open spec fn normalized_listing(
    platform: Platform,
    output: Seq<char>,
    types: Seq<Option<FileType>>,
) -> Seq<char> {
    unlines(normalized_lines(platform, lines(output), types))
}

/// For each of the lines `ls` the name of the entry it stands for.
pub open spec fn listed_names(platform: Platform, ls: Seq<Seq<char>>) -> Seq<Option<Seq<char>>> {
    Seq::new(ls.len(), |i: int| listed_name(platform, ls[i]))
}

/// The texts of the optional strings in `names`.
pub open spec fn option_views(names: Seq<Option<String>>) -> Seq<Option<Seq<char>>> {
    Seq::new(names.len(), |i: int| option_view(names[i]))
}

/// The characters of the tag that opens a line of type `t`.
pub(crate) fn open_tag_chars(t: FileType) -> (r: Vec<char>)
    ensures
        r@ == open_tag(t),
{
    match t {
        FileType::Directory => chars_of("{DIR}"),
        FileType::Symlink => chars_of("{LINK}"),
        FileType::Executable => chars_of("{EXEC}"),
        FileType::Regular => chars_of("{FILE}"),
    }
}

/// The characters of the tag that closes a line of type `t`.
pub(crate) fn close_tag_chars(t: FileType) -> (r: Vec<char>)
    ensures
        r@ == close_tag(t),
{
    match t {
        FileType::Directory => chars_of("{/DIR}"),
        FileType::Symlink => chars_of("{/LINK}"),
        FileType::Executable => chars_of("{/EXEC}"),
        FileType::Regular => chars_of("{/FILE}"),
    }
}

/// `line` wrapped in the tags of type `t`.
fn tag_chars(t: FileType, line: &Vec<char>) -> (r: Vec<char>)
    ensures
        r@ == tagged(t, line@),
{
    let mut r = open_tag_chars(t);
    extend(&mut r, line);
    extend(&mut r, &close_tag_chars(t));
    r
}

/// Whether `line` opens and closes with the tags of type `t`.
fn carries_tag_of_chars(t: FileType, line: &Vec<char>) -> (b: bool)
    ensures
        b == carries_tag_of(t, line@),
{
    let open = open_tag_chars(t);
    let close = close_tag_chars(t);
    open.len() <= line.len() && close.len() <= line.len() - open.len() && chars_start_with(
        line,
        &open,
    ) && chars_end_with(line, &close)
}

/// Whether `line` is already wrapped in the tags of some type.
fn carries_tag_chars(line: &Vec<char>) -> (b: bool)
    ensures
        b == carries_tag(line@),
{
    carries_tag_of_chars(FileType::Directory, line) || carries_tag_of_chars(
        FileType::Symlink,
        line,
    ) || carries_tag_of_chars(FileType::Executable, line) || carries_tag_of_chars(
        FileType::Regular,
        line,
    )
}

/// Whether `line` sums up or heads a listing.
fn is_summary_chars(line: &Vec<char>) -> (b: bool)
    ensures
        b == is_summary(line@),
{
    chars_start_with(line, &chars_of("total ")) || chars_contain(line, &chars_of("Directory of"))
}

/// Whether `t` is digits around a colon at index `h`.
fn has_time_shape(t: &Vec<char>, h: usize) -> (b: bool)
    requires
        1 <= h <= 2,
    ensures
        b == time_shape(t@, h as int),
{
    if t.len() < h + 2 || t.len() > h + 3 {
        return false;
    }
    if t[h] != ':' {
        return false;
    }
    let mut i: usize = 0;
    while i < t.len()
        invariant
            i <= t.len(),
            h < t.len(),
            forall|j: int| 0 <= j < i && j != h ==> is_digit(#[trigger] t@[j]),
        decreases t.len() - i,
    {
        let n: u32 = t[i] as u32;
        if i != h && !(0x30 <= n && n <= 0x39) {
            return false;
        }
        i += 1;
    }
    true
}

/// Whether `t` is a clock time.
fn is_time_chars(t: &Vec<char>) -> (b: bool)
    ensures
        b == is_time_token(t@),
{
    has_time_shape(t, 1) || has_time_shape(t, 2)
}

/// The index just behind the first clock time among the tokens of `v`.
fn find_after_time(v: &Vec<char>) -> (r: Option<usize>)
    ensures
        match r {
            Some(k) => after_time_token(v@) == Some(k as int) && k <= v.len(),
            None => after_time_token(v@) is None,
        },
{
    let mut i: usize = 0;
    proof {
        assert(v@.skip(0) =~= v@);
    }
    while i < v.len()
        invariant
            i <= v.len(),
            after_time_token(v@) == match after_time_token(v@.skip(i as int)) {
                Some(k) => Some(i + k),
                None => None,
            },
        decreases v.len() - i,
    {
        let ghost s = v@.skip(i as int);
        let a = scan(v, i, CharClass::Space);
        proof {
            assert(s.skip(a - i) =~= v@.skip(a as int));
        }
        if a == v.len() {
            return None;
        }
        let b = scan(v, a, CharClass::Word);
        let word = slice_of(v, a, b);
        proof {
            let t = v@.skip(a as int);
            lemma_run_len(s, CharClass::Space);
            assert(t[0] == v@[a as int]);
            assert(b > a);
            assert(t.take(b - a) =~= word@);
            assert(t.skip(b - a) =~= v@.skip(b as int));
        }
        if is_time_chars(&word) {
            return Some(b);
        }
        i = b;
    }
    None
}

/// The clone of the last text in `ts`.
fn last_token(ts: &Vec<Vec<char>>) -> (r: Vec<char>)
    requires
        ts.len() > 0,
    ensures
        r@ == views(ts@).last(),
{
    let last = &ts[ts.len() - 1];
    slice_of(last, 0, last.len())
}

/// Whether `name` stands for a directory itself or for its parent.
fn is_self_or_parent_chars(name: &Vec<char>) -> (b: bool)
    ensures
        b == is_self_or_parent(name@),
{
    same_chars(name, &chars_of(".")) || same_chars(name, &chars_of(".."))
}

/// The name of the entry on a trimmed line of the Unix listing tool.
fn unix_entry_chars(line: &Vec<char>) -> (r: Option<Vec<char>>)
    ensures
        match r {
            Some(name) => unix_entry_name(line@) == Some(name@),
            None => unix_entry_name(line@) is None,
        },
{
    if line.len() == 0 || !(line[0] == 'd' || line[0] == 'l' || line[0] == '-') {
        return None;
    }
    let ts = split_tokens(line);
    if ts.len() < 8 {
        return None;
    }
    let name = match find_after_time(line) {
        Some(k) => {
            let start = scan(line, k, CharClass::Space);
            proof {
                assert(line@.skip(k as int).skip(start - k) =~= line@.subrange(
                    start as int,
                    line.len() as int,
                ));
            }
            slice_of(line, start, line.len())
        },
        None => last_token(&ts),
    };
    if name.len() == 0 || is_self_or_parent_chars(&name) {
        None
    } else {
        Some(name)
    }
}

/// The name of the entry on a trimmed line of the Windows listing tool.
fn windows_entry_chars(line: &Vec<char>) -> (r: Option<Vec<char>>)
    ensures
        match r {
            Some(name) => windows_entry_name(line@) == Some(name@),
            None => windows_entry_name(line@) is None,
        },
{
    let ts = split_tokens(line);
    if ts.len() < 4 {
        return None;
    }
    let name = last_token(&ts);
    if is_self_or_parent_chars(&name) {
        None
    } else {
        Some(name)
    }
}

/// The name of the entry that `line` stands for, and the trimmed line.
fn listed_chars(platform: Platform, line: &Vec<char>) -> (r: (Option<Vec<char>>, Vec<char>))
    ensures
        r.1@ == trim(line@),
        match r.0 {
            Some(name) => listed_name(platform, line@) == Some(name@),
            None => listed_name(platform, line@) is None,
        },
{
    let t = trim_chars(line);
    if t.len() == 0 || is_summary_chars(&t) || carries_tag_chars(&t) {
        return (None, t);
    }
    let name = match platform {
        Platform::Unix => unix_entry_chars(&t),
        Platform::Windows => windows_entry_chars(&t),
    };
    (name, t)
}

/// The file name on a trimmed line of the Unix listing tool, where the line
/// names an entry.
pub fn parse_unix_ls_line_robust(line: &str) -> (r: Option<String>)
    ensures
        option_view(r) == unix_entry_name(line@),
{
    match unix_entry_chars(&chars_of(line)) {
        Some(name) => Some(string_of(&name)),
        None => None,
    }
}

/// The file name on a trimmed line of the Windows listing tool, where the line
/// names an entry.
pub fn parse_windows_dir_line_robust(line: &str) -> (r: Option<String>)
    ensures
        option_view(r) == windows_entry_name(line@),
{
    match windows_entry_chars(&chars_of(line)) {
        Some(name) => Some(string_of(&name)),
        None => None,
    }
}

/// `line` wrapped in the tags of type `t`.
pub fn tag_line(line: &str, t: FileType) -> (r: String)
    ensures
        r@ == tagged(t, line@),
{
    string_of(&tag_chars(t, &chars_of(line)))
}

/// For each line of `output`, in order, the name of the entry it stands for.
pub fn listing_names(output: &str, platform: Platform) -> (r: Vec<Option<String>>)
    ensures
        option_views(r@) == listed_names(platform, lines(output@)),
{
    let ls = split_lines(&chars_of(output));
    let mut r: Vec<Option<String>> = Vec::new();
    let mut i: usize = 0;
    while i < ls.len()
        invariant
            i <= ls.len(),
            r.len() == i,
            views(ls@) == lines(output@),
            forall|j: int|
                0 <= j < i ==> option_view(#[trigger] r@[j]) == listed_name(
                    platform,
                    lines(output@)[j],
                ),
        decreases ls.len() - i,
    {
        proof {
            assert(views(ls@)[i as int] == ls@[i as int]@);
        }
        let (name, _) = listed_chars(platform, &ls[i]);
        let entry = match name {
            Some(n) => Some(string_of(&n)),
            None => None,
        };
        r.push(entry);
        i += 1;
    }
    proof {
        assert(option_views(r@) =~= listed_names(platform, lines(output@)));
    }
    r
}

/// The path under which the entry called `name` is looked up.
pub open spec fn entry_path(platform: Platform, dir: Seq<char>, name: Option<Seq<char>>) -> Option<
    Seq<char>,
> {
    match name {
        Some(n) => Some(joined(platform, dir, n)),
        None => None,
    }
}

/// For each of the lines `ls` the path of the entry it stands for.
pub open spec fn listed_paths(platform: Platform, dir: Seq<char>, ls: Seq<Seq<char>>) -> Seq<
    Option<Seq<char>>,
> {
    Seq::new(ls.len(), |i: int| entry_path(platform, dir, listed_name(platform, ls[i])))
}

/// For each line of `output`, in order, the path of the entry it stands for:
/// the entry's name taken relative to the directory `dir_path` that was
/// listed. The type of each entry is to be read from the file system at that
/// path.
pub fn listing_paths(output: &str, dir_path: &str, platform: Platform) -> (r: Vec<Option<String>>)
    ensures
        option_views(r@) == listed_paths(platform, dir_path@, lines(output@)),
{
    let ls = split_lines(&chars_of(output));
    let dir = chars_of(dir_path);
    let mut r: Vec<Option<String>> = Vec::new();
    let mut i: usize = 0;
    while i < ls.len()
        invariant
            i <= ls.len(),
            r.len() == i,
            dir@ == dir_path@,
            views(ls@) == lines(output@),
            forall|j: int|
                0 <= j < i ==> option_view(#[trigger] r@[j]) == entry_path(
                    platform,
                    dir_path@,
                    listed_name(platform, lines(output@)[j]),
                ),
        decreases ls.len() - i,
    {
        proof {
            assert(views(ls@)[i as int] == ls@[i as int]@);
        }
        let (name, _) = listed_chars(platform, &ls[i]);
        let entry = match name {
            Some(n) => Some(string_of(&join_chars(platform, &dir, &n))),
            None => None,
        };
        r.push(entry);
        i += 1;
    }
    proof {
        assert(option_views(r@) =~= listed_paths(platform, dir_path@, lines(output@)));
    }
    r
}

/// Normalises the listing `output`: a line that names an entry and whose type
/// `types` gives at the line's index comes out trimmed and tagged, every other
/// line as it went in, each followed by a line feed.
pub fn format_directory_listing_robust(
    output: &str,
    types: &Vec<Option<FileType>>,
    platform: Platform,
) -> (r: String)
    ensures
        r@ == normalized_listing(platform, output@, types@),
{
    let ls = split_lines(&chars_of(output));
    let mut out: Vec<char> = Vec::new();
    let mut i: usize = 0;
    let ghost goal = normalized_lines(platform, lines(output@), types@);
    proof {
        assert(goal.take(0) =~= Seq::<Seq<char>>::empty());
    }
    while i < ls.len()
        invariant
            i <= ls.len(),
            views(ls@) == lines(output@),
            goal == normalized_lines(platform, lines(output@), types@),
            out@ == unlines(goal.take(i as int)),
        decreases ls.len() - i,
    {
        proof {
            assert(views(ls@)[i as int] == ls@[i as int]@);
            assert(goal.take(i + 1).drop_last() =~= goal.take(i as int));
            assert(goal.take(i + 1).last() == goal[i as int]);
        }
        let ty: Option<FileType> = if i < types.len() {
            types[i]
        } else {
            None
        };
        let (name, t) = listed_chars(platform, &ls[i]);
        match (name, ty) {
            (Some(_), Some(kind)) => {
                let wrapped = tag_chars(kind, &t);
                extend(&mut out, &wrapped);
            },
            _ => {
                extend(&mut out, &ls[i]);
            },
        }
        out.push('\n');
        i += 1;
    }
    proof {
        assert(goal.take(ls.len() as int) =~= goal);
    }
    string_of(&out)
}

} // verus!
