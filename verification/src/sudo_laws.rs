//! The files of one elevation are its own: no two attempts share a path.

use crate::file_type::Platform;
use crate::paths::joined;
use crate::sudo::{attempt_suffix, output_file, script_file};
use crate::text::{decimal, is_digit};
use vstd::prelude::*;

verus! {

/// The number that a text of decimal digits stands for.
pub open spec fn decimal_value(s: Seq<char>) -> int
    decreases s.len(),
{
    if s.len() == 0 {
        0
    } else {
        decimal_value(s.drop_last()) * 10 + (s.last() as u32 - 0x30)
    }
}

/// A number in decimal is digits only, one at least, and stands for that
/// number.
pub proof fn lemma_decimal_reads_back(n: nat)
    ensures
        decimal(n).len() > 0,
        forall|i: int| 0 <= i < decimal(n).len() ==> is_digit(#[trigger] decimal(n)[i]),
        decimal_value(decimal(n)) == n,
    decreases n,
{
    if n < 10 {
        let s = decimal(n);
        assert(s.drop_last() =~= Seq::<char>::empty());
        assert(decimal_value(s.drop_last()) == 0);
    } else {
        lemma_decimal_reads_back(n / 10);
        let s = decimal(n);
        assert(s.drop_last() =~= decimal(n / 10));
        assert forall|i: int| 0 <= i < s.len() implies is_digit(#[trigger] s[i]) by {
            if i < s.len() - 1 {
                assert(s[i] == decimal(n / 10)[i]);
            }
        }
    }
}

/// Different numbers are written differently.
pub proof fn lemma_decimal_injective(a: nat, b: nat)
    requires
        decimal(a) == decimal(b),
    ensures
        a == b,
{
    lemma_decimal_reads_back(a);
    lemma_decimal_reads_back(b);
}

/// The name of an attempt tells which process and which attempt it is.
pub proof fn lemma_attempt_suffix_injective(pid: u32, attempt: u64, pid2: u32, attempt2: u64)
    requires
        attempt_suffix(pid, attempt) == attempt_suffix(pid2, attempt2),
    ensures
        pid == pid2,
        attempt == attempt2,
{
    let d = decimal(pid as nat);
    let e = decimal(attempt as nat);
    let d2 = decimal(pid2 as nat);
    let e2 = decimal(attempt2 as nat);
    let s = attempt_suffix(pid, attempt);
    let s2 = attempt_suffix(pid2, attempt2);
    lemma_decimal_reads_back(pid as nat);
    lemma_decimal_reads_back(pid2 as nat);
    assert(s[d.len() as int] == '_');
    assert(s2[d2.len() as int] == '_');
    if d.len() < d2.len() {
        assert(s2[d.len() as int] == d2[d.len() as int]);
        assert(is_digit(d2[d.len() as int]));
    }
    if d2.len() < d.len() {
        assert(s[d2.len() as int] == d[d2.len() as int]);
        assert(is_digit(d[d2.len() as int]));
    }
    assert(d =~= s.take(d.len() as int));
    assert(d2 =~= s2.take(d2.len() as int));
    assert(e =~= s.skip(d.len() as int + 1));
    assert(e2 =~= s2.skip(d2.len() as int + 1));
    lemma_decimal_injective(pid as nat, pid2 as nat);
    lemma_decimal_injective(attempt as nat, attempt2 as nat);
}

/// A file name that begins with a letter is appended to the directory.
proof fn lemma_joined_appends(dir: Seq<char>, name: Seq<char>) -> (head: Seq<char>)
    requires
        name.len() > 0,
        name[0] == 't',
    ensures
        joined(Platform::Unix, dir, name) == head + name,
        head == joined(Platform::Unix, dir, seq!['t']).drop_last(),
{
    let head = joined(Platform::Unix, dir, seq!['t']).drop_last();
    if dir.len() > 0 && dir.last() != '/' {
        assert(head =~= dir.push('/'));
    } else {
        assert(head =~= dir);
    }
    head
}

/// Two attempts that differ in their process or in their number have
/// different scripts and different output files, and no script is the output
/// file of any attempt: elevations that run side by side never meet on disk.
pub proof fn lemma_attempt_files_distinct(
    temp_dir: Seq<char>,
    pid: u32,
    attempt: u64,
    pid2: u32,
    attempt2: u64,
)
    ensures
        script_file(temp_dir, pid, attempt) != output_file(temp_dir, pid2, attempt2),
        pid != pid2 || attempt != attempt2 ==> script_file(temp_dir, pid, attempt) != script_file(
            temp_dir,
            pid2,
            attempt2,
        ) && output_file(temp_dir, pid, attempt) != output_file(temp_dir, pid2, attempt2),
{
    reveal_strlit("term_sudo_");
    reveal_strlit("term_sudo_script_");
    let out = "term_sudo_"@;
    let scr = "term_sudo_script_"@;
    let s = attempt_suffix(pid, attempt);
    let s2 = attempt_suffix(pid2, attempt2);
    lemma_decimal_reads_back(pid as nat);
    lemma_decimal_reads_back(pid2 as nat);
    let head = lemma_joined_appends(temp_dir, scr + s);
    let head_b = lemma_joined_appends(temp_dir, out + s2);
    let head_c = lemma_joined_appends(temp_dir, scr + s2);
    let head_d = lemma_joined_appends(temp_dir, out + s);
    let n = head.len() as int;
    // a script differs from an output file where the one has a letter and the
    // other the first digit of the process
    assert((head + (scr + s))[n + 10] == 's');
    assert((head + (out + s2))[n + 10] == decimal(pid2 as nat)[0]);
    assert(is_digit(decimal(pid2 as nat)[0]));
    if pid != pid2 || attempt != attempt2 {
        if script_file(temp_dir, pid, attempt) == script_file(temp_dir, pid2, attempt2) {
            assert(s =~= (head + (scr + s)).skip(n + 17));
            assert(s2 =~= (head + (scr + s2)).skip(n + 17));
            lemma_attempt_suffix_injective(pid, attempt, pid2, attempt2);
        }
        if output_file(temp_dir, pid, attempt) == output_file(temp_dir, pid2, attempt2) {
            assert(s =~= (head + (out + s)).skip(n + 10));
            assert(s2 =~= (head + (out + s2)).skip(n + 10));
            lemma_attempt_suffix_injective(pid, attempt, pid2, attempt2);
        }
    }
}

/// Attempts that one counter numbered at different times never share a path:
/// the later one has a greater number, and so a script and an output file of
/// its own.
pub proof fn lemma_counted_attempts_keep_apart(
    temp_dir: Seq<char>,
    pid: u32,
    earlier: u64,
    later: u64,
)
    requires
        earlier < later,
    ensures
        script_file(temp_dir, pid, earlier) != script_file(temp_dir, pid, later),
        output_file(temp_dir, pid, earlier) != output_file(temp_dir, pid, later),
        script_file(temp_dir, pid, earlier) != output_file(temp_dir, pid, later),
        output_file(temp_dir, pid, earlier) != script_file(temp_dir, pid, later),
{
    lemma_attempt_files_distinct(temp_dir, pid, earlier, pid, later);
    lemma_attempt_files_distinct(temp_dir, pid, later, pid, earlier);
}

} // verus!
