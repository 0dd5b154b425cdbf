//! Paths as texts: the target of a listing command, resolution against a
//! directory, and the small rewritings that the commands apply to a path.

use crate::file_type::Platform;
use crate::text::{
    chars_of, extend, lemma_run_len, option_view, replace, replace_chars, result_view, run_len,
    same_chars, scan, slice_of, split_tokens, string_of, tokens, views, CharClass,
};
use vstd::prelude::*;

verus! {

/// A token that begins with the option prefix.
pub open spec fn is_option(t: Seq<char>) -> bool {
    t.len() > 0 && t[0] == '-'
}

/// One of the two listing verbs.
pub open spec fn is_listing_verb(t: Seq<char>) -> bool {
    t == "ls"@ || t == "dir"@
}

/// The last of `ts` that is neither an option nor a listing verb.
pub open spec fn last_path_token(ts: Seq<Seq<char>>) -> Option<Seq<char>>
    decreases ts.len(),
{
    if ts.len() == 0 {
        None
    } else if !is_option(ts.last()) && !is_listing_verb(ts.last()) {
        Some(ts.last())
    } else {
        last_path_token(ts.drop_last())
    }
}

/// The directory that a listing command is aimed at: its last argument that is
/// no option, or the current directory where it has none.
pub open spec fn listing_target(cmd: Seq<char>) -> Seq<char> {
    match last_path_token(tokens(cmd)) {
        Some(t) => t,
        None => "."@,
    }
}

/// A character that parts the components of a path: a slash, and on Windows
/// a backslash too.
pub open spec fn is_separator(platform: Platform, c: char) -> bool {
    c == '/' || (platform == Platform::Windows && c == '\\')
}

/// The separator that the platform itself writes.
pub open spec fn main_separator(platform: Platform) -> char {
    match platform {
        Platform::Unix => '/',
        Platform::Windows => '\\',
    }
}

/// A letter from A to Z, capital or small.
pub open spec fn is_ascii_letter(c: char) -> bool {
    (0x41 <= c as u32 <= 0x5A) || (0x61 <= c as u32 <= 0x7A)
}

/// `p` begins with a drive: an ASCII letter and a colon.
pub open spec fn has_drive(p: Seq<char>) -> bool {
    p.len() >= 2 && is_ascii_letter(p[0]) && p[1] == ':'
}

/// `p` begins with a separator.
pub open spec fn is_rooted(platform: Platform, p: Seq<char>) -> bool {
    p.len() > 0 && is_separator(platform, p[0])
}

/// On Unix a path is absolute when it begins with a slash. On Windows it is
/// absolute when it begins with a drive and a separator, or with two
/// separators.
pub open spec fn is_absolute(platform: Platform, p: Seq<char>) -> bool {
    match platform {
        Platform::Unix => is_rooted(platform, p),
        Platform::Windows => (has_drive(p) && p.len() >= 3 && is_separator(platform, p[2])) || (
        p.len() >= 2 && is_separator(platform, p[0]) && is_separator(platform, p[1])),
    }
}

/// Where the component of `s` ends that begins behind the separator at index
/// `from`; `from` itself where `s` ends there.
pub open spec fn next_component_end(s: Seq<char>, from: int) -> int {
    if 0 <= from < s.len() {
        from + 1 + run_len(s.skip(from + 1), CharClass::Name)
    } else {
        from
    }
}

/// The length of the prefix of the Windows path `base`, the part that names
/// the volume. A drive is a prefix of two characters. A path that begins with
/// two separators has as its prefix those and the two components that follow,
/// which are a server and a share, a dot and a device, or a question mark and
/// a verbatim volume; a verbatim `UNC` takes the server and the share behind
/// it as well. Any other path has none.
pub open spec fn windows_prefix_len(base: Seq<char>) -> int {
    if has_drive(base) {
        2
    } else if base.len() >= 2 && is_separator(Platform::Windows, base[0]) && is_separator(
        Platform::Windows,
        base[1],
    ) {
        let a = (2 + run_len(base.skip(2), CharClass::Name)) as int;
        let b = next_component_end(base, a);
        if a < base.len() && base.subrange(2, a) == "?"@ && base.subrange(a + 1, b) == "UNC"@ {
            next_component_end(base, next_component_end(base, b))
        } else {
            b
        }
    } else {
        0
    }
}

/// A Windows path that names a drive but no place on it from the root: it
/// stays relative to that drive's own current directory.
pub open spec fn is_drive_relative(platform: Platform, p: Seq<char>) -> bool {
    platform == Platform::Windows && has_drive(p) && !is_absolute(platform, p)
}

/// Whether a path appended to the directory `base` needs a separator first:
/// not where `base` is empty or ends in one, and on Windows not where `base`
/// is a drive and nothing else.
pub open spec fn needs_separator(platform: Platform, base: Seq<char>) -> bool {
    &&& base.len() > 0
    &&& !is_separator(platform, base.last())
    &&& !(platform == Platform::Windows && has_drive(base) && base.len() == 2)
}

/// `p` taken relative to the directory `base`. An absolute `p` stands for
/// itself. On Windows a `p` with a drive stands for itself too, and a rooted
/// `p` is put behind the prefix of `base`, whatever kind of prefix that is.
/// Any other `p` is appended to `base`, after the platform's separator where
/// one is needed.
pub open spec fn joined(platform: Platform, base: Seq<char>, p: Seq<char>) -> Seq<char> {
    if is_absolute(platform, p) {
        p
    } else if platform == Platform::Windows && has_drive(p) {
        p
    } else if platform == Platform::Windows && is_rooted(platform, p) {
        base.take(windows_prefix_len(base)) + p
    } else if needs_separator(platform, base) {
        base.push(main_separator(platform)) + p
    } else {
        base + p
    }
}

/// `path` with the other platform's separator turned into this one's, and then
/// every pair of separators, taken from the left, turned into one.
pub open spec fn normalized_path(platform: Platform, path: Seq<char>) -> Seq<char> {
    match platform {
        Platform::Unix => replace(replace(path, "\\"@, "/"@), "//"@, "/"@),
        Platform::Windows => replace(replace(path, "/"@, "\\"@), "\\\\"@, "\\"@),
    }
}

/// `path` begins with a tilde.
pub open spec fn begins_with_tilde(path: Seq<char>) -> bool {
    path.len() > 0 && path[0] == '~'
}

/// `path` with a leading tilde replaced by the home directory.
pub open spec fn home_expanded(path: Seq<char>, home: Option<Seq<char>>) -> Result<
    Seq<char>,
    Seq<char>,
> {
    if begins_with_tilde(path) {
        match home {
            Some(h) => Ok(h + path.skip(1)),
            None => Err("Cannot determine home directory"@),
        }
    } else {
        Ok(path)
    }
}

/// The home directory to use: the value of `HOME` where it is set, else, on
/// Windows only, the value of `USERPROFILE`.
pub open spec fn chosen_home(
    platform: Platform,
    home: Option<Seq<char>>,
    profile: Option<Seq<char>>,
) -> Option<Seq<char>> {
    match home {
        Some(h) => Some(h),
        None => match platform {
            Platform::Windows => profile,
            Platform::Unix => None,
        },
    }
}

/// A path named in a command, with a leading tilde expanded; the error says
/// that the expansion failed and why.
pub open spec fn argument_expanded(path: Seq<char>, home: Option<Seq<char>>) -> Result<
    Seq<char>,
    Seq<char>,
> {
    match home_expanded(path, home) {
        Ok(p) => Ok(p),
        Err(e) => Err("Failed to expand path: "@ + e),
    }
}

/// The directory that a request to list `path` is about: the expanded path
/// where one is given and not empty, else none, which stands for the current
/// directory.
pub open spec fn directory_argument(path: Option<Seq<char>>, home: Option<Seq<char>>) -> Result<
    Option<Seq<char>>,
    Seq<char>,
> {
    match path {
        Some(p) => if p.len() > 0 {
            match argument_expanded(p, home) {
                Ok(expanded) => Ok(Some(expanded)),
                Err(e) => Err(e),
            }
        } else {
            Ok(None)
        },
        None => Ok(None),
    }
}

/// The texts of a result that may hold no path.
pub open spec fn optional_result_view(r: Result<Option<String>, String>) -> Result<
    Option<Seq<char>>,
    Seq<char>,
> {
    match r {
        Ok(p) => Ok(option_view(p)),
        Err(e) => Err(e@),
    }
}

/// The path that a file is read from: `~/rest` is `rest` taken relative to the
/// home directory where there is one, every other path is itself.
pub open spec fn read_target(platform: Platform, path: Seq<char>, home: Option<Seq<char>>) -> Seq<
    char,
> {
    if path.len() > 1 && path[0] == '~' && path[1] == '/' {
        match home {
            Some(h) => joined(platform, h, path.skip(2)),
            None => path,
        }
    } else {
        path
    }
}

/// The index of the first colon of `s`, or its length where it holds none.
pub open spec fn colon_index(s: Seq<char>) -> int
    decreases s.len(),
{
    if s.len() == 0 || s[0] == ':' {
        0
    } else {
        1 + colon_index(s.drop_first())
    }
}

/// The current directory as it is shown: backslashes turned into slashes, and
/// whatever stands before the first colon, the colon included, turned into a
/// dot.
pub open spec fn shown_directory(path: Seq<char>) -> Seq<char> {
    let n = replace(path, "\\"@, "/"@);
    let i = colon_index(n);
    if i < n.len() {
        seq!['.'] + n.skip(i + 1)
    } else {
        n
    }
}

/// Whether `c` parts the components of a path on `platform`.
fn is_separator_char(platform: Platform, c: char) -> (b: bool)
    ensures
        b == is_separator(platform, c),
{
    c == '/' || (platform == Platform::Windows && c == '\\')
}

/// Whether `p` begins with a drive.
fn has_drive_chars(p: &Vec<char>) -> (b: bool)
    ensures
        b == has_drive(p@),
{
    if p.len() < 2 {
        return false;
    }
    let n: u32 = p[0] as u32;
    ((0x41 <= n && n <= 0x5A) || (0x61 <= n && n <= 0x7A)) && p[1] == ':'
}

/// Whether `p` is absolute on `platform`.
fn is_absolute_chars(platform: Platform, p: &Vec<char>) -> (b: bool)
    ensures
        b == is_absolute(platform, p@),
{
    match platform {
        Platform::Unix => p.len() > 0 && is_separator_char(platform, p[0]),
        Platform::Windows => (has_drive_chars(p) && p.len() >= 3 && is_separator_char(
            platform,
            p[2],
        )) || (p.len() >= 2 && is_separator_char(platform, p[0]) && is_separator_char(
            platform,
            p[1],
        )),
    }
}

/// The end of the component of `v` that begins behind the separator at
/// `from`.
fn next_component_end_chars(v: &Vec<char>, from: usize) -> (end: usize)
    requires
        from <= v.len(),
    ensures
        end == next_component_end(v@, from as int),
        from <= end <= v.len(),
{
    if from < v.len() {
        scan(v, from + 1, CharClass::Name)
    } else {
        from
    }
}

/// The length of the prefix of the Windows path `base`.
fn windows_prefix_len_chars(base: &Vec<char>) -> (n: usize)
    ensures
        n == windows_prefix_len(base@),
        n <= base.len(),
{
    if has_drive_chars(base) {
        2
    } else if base.len() >= 2 && is_separator_char(Platform::Windows, base[0])
        && is_separator_char(Platform::Windows, base[1]) {
        let a = scan(base, 2, CharClass::Name);
        let b = next_component_end_chars(base, a);
        if a < base.len() && same_chars(&slice_of(base, 2, a), &chars_of("?")) && same_chars(
            &slice_of(base, a + 1, b),
            &chars_of("UNC"),
        ) {
            let c = next_component_end_chars(base, b);
            next_component_end_chars(base, c)
        } else {
            b
        }
    } else {
        0
    }
}

/// `p` taken relative to the directory `base`.
pub(crate) fn join_chars(platform: Platform, base: &Vec<char>, p: &Vec<char>) -> (r: Vec<char>)
    ensures
        r@ == joined(platform, base@, p@),
{
    let mut r: Vec<char> = Vec::new();
    if is_absolute_chars(platform, p) || (platform == Platform::Windows && has_drive_chars(p)) {
        extend(&mut r, p);
    } else if platform == Platform::Windows && p.len() > 0 && is_separator_char(platform, p[0]) {
        let n = windows_prefix_len_chars(base);
        proof {
            assert(base@.subrange(0, n as int) =~= base@.take(n as int));
        }
        extend(&mut r, &slice_of(base, 0, n));
        extend(&mut r, p);
    } else {
        extend(&mut r, base);
        if base.len() > 0 && !is_separator_char(platform, base[base.len() - 1]) && !(platform
            == Platform::Windows && base.len() == 2 && has_drive_chars(base)) {
            r.push(
                match platform {
                    Platform::Unix => '/',
                    Platform::Windows => '\\',
                },
            );
        }
        extend(&mut r, p);
    }
    r
}

/// The directory that the listing command `cmd` is aimed at.
pub fn extract_path_from_ls_command(cmd: &str) -> (r: String)
    ensures
        r@ == listing_target(cmd@),
{
    let parts = split_tokens(&chars_of(cmd));
    let ls = chars_of("ls");
    let dir = chars_of("dir");
    let mut i: usize = parts.len();
    proof {
        assert(views(parts@).len() == parts.len());
        assert(tokens(cmd@).take(parts.len() as int) =~= tokens(cmd@));
    }
    while i > 0
        invariant
            i <= parts.len(),
            ls@ == "ls"@,
            dir@ == "dir"@,
            views(parts@) == tokens(cmd@),
            last_path_token(tokens(cmd@)) == last_path_token(tokens(cmd@).take(i as int)),
        decreases i,
    {
        let part = &parts[i - 1];
        proof {
            let ts = tokens(cmd@).take(i as int);
            assert(ts.last() == views(parts@)[i - 1]);
            assert(ts.drop_last() =~= tokens(cmd@).take(i - 1));
        }
        if !(part.len() > 0 && part[0] == '-') && !same_chars(part, &ls) && !same_chars(
            part,
            &dir,
        ) {
            return string_of(part);
        }
        i -= 1;
    }
    string_of(&chars_of("."))
}

/// The prefix of a Windows path lies within the path, and where the path
/// begins with two separators the prefix holds them.
pub proof fn lemma_windows_prefix_bounds(base: Seq<char>)
    ensures
        0 <= windows_prefix_len(base) <= base.len(),
        base.len() >= 2 && is_separator(Platform::Windows, base[0]) && is_separator(
            Platform::Windows,
            base[1],
        ) ==> windows_prefix_len(base) >= 2,
{
    if !has_drive(base) && base.len() >= 2 && is_separator(Platform::Windows, base[0])
        && is_separator(Platform::Windows, base[1]) {
        lemma_run_len(base.skip(2), CharClass::Name);
        let a = (2 + run_len(base.skip(2), CharClass::Name)) as int;
        lemma_component_end_bounds(base, a);
        let b = next_component_end(base, a);
        lemma_component_end_bounds(base, b);
        let c = next_component_end(base, b);
        lemma_component_end_bounds(base, c);
    }
}

/// The next component ends at or behind where it is looked for, and within
/// the path.
proof fn lemma_component_end_bounds(s: Seq<char>, from: int)
    requires
        0 <= from <= s.len(),
    ensures
        from <= next_component_end(s, from) <= s.len(),
{
    if from < s.len() {
        lemma_run_len(s.skip(from + 1), CharClass::Name);
    }
}

/// A path resolved against an absolute directory is absolute, on either
/// platform, unless it is a Windows path that names a drive but no place on
/// it from the root.
pub proof fn lemma_resolved_is_absolute(platform: Platform, dir: Seq<char>, path: Seq<char>)
    requires
        is_absolute(platform, dir),
        !is_drive_relative(platform, path),
    ensures
        is_absolute(platform, joined(platform, dir, path)),
{
    let r = joined(platform, dir, path);
    if is_absolute(platform, path) {
    } else if platform == Platform::Windows && is_rooted(platform, path) {
        lemma_windows_prefix_bounds(dir);
        let n = windows_prefix_len(dir);
        if has_drive(dir) {
            assert(r[0] == dir[0] && r[1] == dir[1] && r[2] == path[0]);
        } else {
            assert(r[0] == dir[0] && r[1] == dir[1]);
        }
    } else {
        match platform {
            Platform::Unix => {
                assert(r[0] == dir[0]);
            },
            Platform::Windows => {
                if has_drive(dir) && dir.len() >= 3 && is_separator(platform, dir[2]) {
                    assert(r[0] == dir[0] && r[1] == dir[1] && r[2] == dir[2]);
                } else {
                    assert(r[0] == dir[0] && r[1] == dir[1]);
                }
            },
        }
    }
}

/// What is resolved stays resolved: an absolute path resolved against any
/// directory is itself.
pub proof fn lemma_absolute_is_settled(platform: Platform, dir: Seq<char>, path: Seq<char>)
    requires
        is_absolute(platform, path),
    ensures
        joined(platform, dir, path) == path,
{
}

/// `path` resolved against `current_dir`: itself where it is absolute, else
/// taken relative to the directory. Against an absolute directory the result
/// is absolute, but for a Windows path that is relative to a drive.
pub fn resolve_path(path: &str, current_dir: &str, platform: Platform) -> (r: String)
    ensures
        r@ == joined(platform, current_dir@, path@),
        is_absolute(platform, path@) ==> r@ == path@,
        is_absolute(platform, current_dir@) && !is_drive_relative(platform, path@) ==> is_absolute(
            platform,
            r@,
        ),
{
    proof {
        if is_absolute(platform, current_dir@) && !is_drive_relative(platform, path@) {
            lemma_resolved_is_absolute(platform, current_dir@, path@);
        }
    }
    string_of(&join_chars(platform, &chars_of(current_dir), &chars_of(path)))
}

/// `path` with separators made uniform and doubled separators made single.
pub fn normalize_path(path: &str, platform: Platform) -> (r: String)
    ensures
        r@ == normalized_path(platform, path@),
{
    let p = chars_of(path);
    let r = match platform {
        Platform::Unix => {
            let first = replace_chars(&p, &chars_of("\\"), &chars_of("/"));
            replace_chars(&first, &chars_of("//"), &chars_of("/"))
        },
        Platform::Windows => {
            let first = replace_chars(&p, &chars_of("/"), &chars_of("\\"));
            replace_chars(&first, &chars_of("\\\\"), &chars_of("\\"))
        },
    };
    string_of(&r)
}

/// The home directory to expand a tilde with, from the values of `HOME` and
/// `USERPROFILE`.
pub fn choose_home(platform: Platform, home: Option<String>, profile: Option<String>) -> (r:
    Option<String>)
    ensures
        option_view(r) == chosen_home(
            platform,
            option_view(home),
            option_view(profile),
        ),
{
    match home {
        Some(h) => Some(h),
        None => match platform {
            Platform::Windows => profile,
            Platform::Unix => None,
        },
    }
}

/// `path` with a leading tilde replaced by `home`. Fails only where the path
/// begins with a tilde and there is no home directory.
pub fn expand_home_path(path: &str, home: &Option<String>) -> (r: Result<String, String>)
    ensures
        result_view(r) == home_expanded(path@, option_view(*home)),
        r is Err <==> begins_with_tilde(path@) && home is None,
{
    let p = chars_of(path);
    if p.len() > 0 && p[0] == '~' {
        match home {
            Some(h) => {
                let mut r = chars_of(h.as_str());
                let rest = slice_of(&p, 1, p.len());
                extend(&mut r, &rest);
                Ok(string_of(&r))
            },
            None => Err(string_of(&chars_of("Cannot determine home directory"))),
        }
    } else {
        Ok(string_of(&p))
    }
}

/// The path `path` named in a command, with a leading tilde replaced by
/// `home`.
pub fn expand_path_argument(path: &str, home: &Option<String>) -> (r: Result<String, String>)
    ensures
        result_view(r) == argument_expanded(path@, option_view(*home)),
        r is Err <==> begins_with_tilde(path@) && home is None,
{
    match expand_home_path(path, home) {
        Ok(p) => Ok(p),
        Err(e) => {
            let mut message = chars_of("Failed to expand path: ");
            extend(&mut message, &chars_of(e.as_str()));
            Err(string_of(&message))
        },
    }
}

/// The directory that a request to list `path` is about; `None` stands for
/// the current directory.
pub fn directory_to_list(path: &Option<String>, home: &Option<String>) -> (r: Result<
    Option<String>,
    String,
>)
    ensures
        optional_result_view(r) == directory_argument(option_view(*path), option_view(*home)),
{
    match path {
        Some(p) => {
            if !p.as_str().is_empty() {
                match expand_path_argument(p.as_str(), home) {
                    Ok(expanded) => Ok(Some(expanded)),
                    Err(e) => Err(e),
                }
            } else {
                Ok(None)
            }
        },
        None => Ok(None),
    }
}

/// The path that a request to read `path` is served from.
pub fn expand_read_path(path: &str, home: &Option<String>, platform: Platform) -> (r: String)
    ensures
        r@ == read_target(platform, path@, option_view(*home)),
{
    let p = chars_of(path);
    if p.len() > 1 && p[0] == '~' && p[1] == '/' {
        match home {
            Some(h) => {
                let rest = slice_of(&p, 2, p.len());
                string_of(&join_chars(platform, &chars_of(h.as_str()), &rest))
            },
            None => string_of(&p),
        }
    } else {
        string_of(&p)
    }
}

/// The index of the first colon of `v`, or its length.
fn find_colon(v: &Vec<char>) -> (i: usize)
    ensures
        i == colon_index(v@),
        i <= v.len(),
{
    let mut i: usize = 0;
    proof {
        assert(v@.skip(0) =~= v@);
    }
    while i < v.len() && v[i] != ':'
        invariant
            i <= v.len(),
            colon_index(v@) == i + colon_index(v@.skip(i as int)),
        decreases v.len() - i,
    {
        proof {
            assert(v@.skip(i as int).drop_first() =~= v@.skip(i + 1));
        }
        i += 1;
    }
    i
}

/// The current directory `path` as it is shown to the user.
pub fn show_current_dir(path: &str) -> (r: String)
    ensures
        r@ == shown_directory(path@),
{
    let n = replace_chars(&chars_of(path), &chars_of("\\"), &chars_of("/"));
    let i = find_colon(&n);
    if i < n.len() {
        let mut r: Vec<char> = Vec::new();
        r.push('.');
        let rest = slice_of(&n, i + 1, n.len());
        extend(&mut r, &rest);
        string_of(&r)
    } else {
        string_of(&n)
    }
}

/// `dirs::home_dir`: the home directory of the user who runs the process, as
/// text, or `None` where the host knows of none. It is read from the
/// environment, so nothing is claimed of it.
#[verifier::external_body]
fn home_dir() -> (r: Option<String>) {
    dirs::home_dir().map(|p| p.to_string_lossy().into_owned())
}

/// The answer to a request for the home directory: the directory where the
/// host knows one, else an error.
pub open spec fn home_dir_answer(home: Option<Seq<char>>) -> Result<Seq<char>, Seq<char>> {
    match home {
        Some(h) => Ok(h),
        None => Err("Failed to get home directory"@),
    }
}

/// The answer to a request for the home directory, given what the host said.
pub fn home_dir_result(home: Option<String>) -> (r: Result<String, String>)
    ensures
        result_view(r) == home_dir_answer(option_view(home)),
{
    match home {
        Some(h) => Ok(h),
        None => Err(string_of(&chars_of("Failed to get home directory"))),
    }
}

/// The home directory of the user who runs the process. Whether there is one
/// rests with the host; where there is none, the error says so.
pub fn get_home_dir() -> (r: Result<String, String>)
    ensures
        exists|home: Option<Seq<char>>| result_view(r) == #[trigger] home_dir_answer(home),
        r matches Err(e) ==> e@ == "Failed to get home directory"@,
{
    let home = home_dir();
    let r = home_dir_result(home);
    proof {
        assert(result_view(r) == home_dir_answer(option_view(home)));
    }
    r
}

/// The path that a request to read `path` is served from, a leading `~/`
/// standing for the home directory of the user who runs the process.
pub fn expand_user_path(path: &str, platform: Platform) -> (r: String)
    ensures
        exists|home: Option<Seq<char>>| r@ == #[trigger] read_target(platform, path@, home),
        !(path@.len() > 1 && path@[0] == '~' && path@[1] == '/') ==> r@ == path@,
{
    let home = home_dir();
    let r = expand_read_path(path, &home, platform);
    proof {
        assert(r@ == read_target(platform, path@, option_view(home)));
    }
    r
}

} // verus!
