//! What holds of every normalised listing.

use crate::file_type::{FileType, Platform};
use crate::listing::{
    after_time_token, carries_tag, carries_tag_of, close_tag, is_self_or_parent, is_time_token,
    listed_name, normalized_line, normalized_lines, normalized_listing, open_tag, tagged,
    time_shape, type_at, unix_entry_name, unix_name_text,
};
use crate::text::{
    is_digit, is_space, lemma_lines_hold_no_line_feed, lemma_run_len, lemma_run_len_concat,
    lemma_lines_of_unlines, lemma_run_len_is, lemma_trim_identity, lemma_trim_is_subrange,
    lemma_unlines_keeps_count,
    lines, run_len, tokens, trim, CharClass,
};
use vstd::prelude::*;

verus! {

/// A tag begins with an opening brace, ends with a closing brace and holds no
/// line feed.
pub proof fn lemma_tag_shape(t: FileType)
    ensures
        open_tag(t).len() >= 5,
        close_tag(t).len() >= 6,
        open_tag(t)[0] == '{',
        close_tag(t).last() == '}',
        forall|k: int| 0 <= k < open_tag(t).len() ==> open_tag(t)[k] != '\n',
        forall|k: int| 0 <= k < close_tag(t).len() ==> close_tag(t)[k] != '\n',
{
    reveal_strlit("{DIR}");
    reveal_strlit("{LINK}");
    reveal_strlit("{EXEC}");
    reveal_strlit("{FILE}");
    reveal_strlit("{/DIR}");
    reveal_strlit("{/LINK}");
    reveal_strlit("{/EXEC}");
    reveal_strlit("{/FILE}");
}

/// A line that already carries the tags of a type stands for no entry, so
/// normalising it again, with whatever type, leaves it as it is: no line is
/// wrapped twice.
pub proof fn lemma_tagged_line_kept(
    platform: Platform,
    t: FileType,
    line: Seq<char>,
    ty: Option<FileType>,
)
    ensures
        listed_name(platform, tagged(t, line)) is None,
        normalized_line(platform, tagged(t, line), ty) == tagged(t, line),
{
    let w = tagged(t, line);
    lemma_tag_shape(t);
    assert(w[0] == open_tag(t)[0]);
    assert(w.last() == close_tag(t).last());
    lemma_trim_identity(w);
    assert(w.subrange(0, open_tag(t).len() as int) =~= open_tag(t));
    assert(w.subrange(w.len() - close_tag(t).len(), w.len() as int) =~= close_tag(t));
    assert(carries_tag_of(t, w));
    assert(carries_tag(w));
}

/// Normalising what normalisation gave changes nothing, whatever types the
/// second pass is handed, as long as the first pass knew the type of every
/// entry it met.
pub proof fn lemma_normalized_line_settled(
    platform: Platform,
    line: Seq<char>,
    first: Option<FileType>,
    second: Option<FileType>,
)
    requires
        listed_name(platform, line) is Some ==> first is Some,
    ensures
        normalized_line(platform, normalized_line(platform, line, first), second)
            == normalized_line(platform, line, first),
{
    if listed_name(platform, line) is Some {
        lemma_tagged_line_kept(platform, first->0, trim(line), second);
    }
}

/// No normalised line holds a line feed where the line it came from held none.
pub proof fn lemma_normalized_line_stays_one_line(
    platform: Platform,
    line: Seq<char>,
    ty: Option<FileType>,
    k: int,
)
    requires
        forall|j: int| 0 <= j < line.len() ==> line[j] != '\n',
        0 <= k < normalized_line(platform, line, ty).len(),
    ensures
        normalized_line(platform, line, ty)[k] != '\n',
{
    let out = normalized_line(platform, line, ty);
    if listed_name(platform, line) is Some && ty is Some {
        let t = ty->0;
        lemma_tag_shape(t);
        let (a, b) = lemma_trim_is_subrange(line);
        let mid = trim(line);
        if k < open_tag(t).len() {
            assert(out[k] == open_tag(t)[k]);
        } else if k < open_tag(t).len() + mid.len() {
            assert(out[k] == mid[k - open_tag(t).len()]);
            assert(mid[k - open_tag(t).len()] == line[a + k - open_tag(t).len()]);
        } else {
            assert(out[k] == close_tag(t)[k - open_tag(t).len() - mid.len()]);
        }
    }
}

/// Normalisation drops no line and adds none: the normalised listing has as
/// many lines as the listing it was made from, whatever types it was handed.
pub proof fn lemma_listing_keeps_line_count(
    platform: Platform,
    output: Seq<char>,
    types: Seq<Option<FileType>>,
)
    ensures
        lines(normalized_listing(platform, output, types)).len() == lines(output).len(),
        normalized_lines(platform, lines(output), types).len() == lines(output).len(),
{
    let ls = lines(output);
    let out = normalized_lines(platform, ls, types);
    assert forall|i: int, k: int| 0 <= i < out.len() && 0 <= k < out[i].len() implies out[i][k]
        != '\n' by {
        assert forall|j: int| 0 <= j < ls[i].len() implies ls[i][j] != '\n' by {
            lemma_lines_hold_no_line_feed(output, i, j);
        }
        lemma_normalized_line_stays_one_line(platform, ls[i], type_at(types, i), k);
    }
    lemma_unlines_keeps_count(out);
}

/// A normalised listing is settled: normalising it again, with whatever
/// types, gives the same text, as long as the first pass knew the type of
/// every entry it met and no line of the listing ends in a carriage return.
pub proof fn lemma_listing_settled(
    platform: Platform,
    output: Seq<char>,
    first: Seq<Option<FileType>>,
    second: Seq<Option<FileType>>,
)
    requires
        forall|i: int|
            0 <= i < lines(output).len() && listed_name(platform, #[trigger] lines(output)[i])
                is Some ==> type_at(first, i) is Some,
        forall|i: int|
            0 <= i < lines(output).len() && lines(output)[i].len() > 0 ==> (#[trigger] lines(
                output,
            )[i]).last() != '\r',
    ensures
        normalized_listing(platform, normalized_listing(platform, output, first), second)
            == normalized_listing(platform, output, first),
{
    let ls = lines(output);
    let once = normalized_lines(platform, ls, first);
    assert forall|i: int, k: int| 0 <= i < once.len() && 0 <= k < once[i].len() implies once[i][k]
        != '\n' by {
        assert forall|j: int| 0 <= j < ls[i].len() implies ls[i][j] != '\n' by {
            lemma_lines_hold_no_line_feed(output, i, j);
        }
        lemma_normalized_line_stays_one_line(platform, ls[i], type_at(first, i), k);
    }
    assert forall|i: int| 0 <= i < once.len() && once[i].len() > 0 implies (#[trigger] once[i]).last()
        != '\r' by {
        if listed_name(platform, ls[i]) is Some && type_at(first, i) is Some {
            let t = type_at(first, i)->0;
            lemma_tag_shape(t);
            assert(once[i].last() == close_tag(t).last());
        } else {
            assert(once[i] == ls[i]);
        }
    }
    lemma_lines_of_unlines(once);
    let twice = normalized_lines(platform, once, second);
    assert forall|i: int| 0 <= i < once.len() implies twice[i] == once[i] by {
        lemma_normalized_line_settled(platform, ls[i], type_at(first, i), type_at(second, i));
    }
    assert(twice =~= once);
}

/// Scanning for a clock time runs through a text that holds none, as long as
/// that text is empty or ends in white space, and goes on behind it.
pub proof fn lemma_after_time_skips(head: Seq<char>, rest: Seq<char>)
    requires
        head.len() > 0 ==> is_space(head.last()),
        after_time_token(head) is None,
    ensures
        after_time_token(head + rest) == match after_time_token(rest) {
            Some(k) => Some(head.len() + k),
            None => None,
        },
    decreases head.len(),
{
    let s = head + rest;
    lemma_run_len(head, CharClass::Space);
    lemma_run_len(rest, CharClass::Space);
    lemma_run_len_concat(head, rest, CharClass::Space);
    let a = run_len(head, CharClass::Space) as int;
    let t = head.skip(a);
    if t.len() == 0 {
        let ra = run_len(rest, CharClass::Space) as int;
        assert(s.skip(a + ra) =~= rest.skip(ra));
    } else {
        lemma_run_len(t, CharClass::Word);
        let n = run_len(t, CharClass::Word) as int;
        assert(n < t.len()) by {
            if n == t.len() {
                assert(!is_space(t[t.len() - 1]));
                assert(t[t.len() - 1] == head.last());
            }
        }
        assert(s.skip(a) =~= t + rest);
        lemma_run_len_concat(t, rest, CharClass::Word);
        assert((t + rest).take(n) =~= t.take(n));
        let next = t.skip(n);
        assert((t + rest).skip(n) =~= next + rest);
        assert(next.last() == head.last());
        lemma_after_time_skips(next, rest);
    }
}

/// A clock time holds no white space.
pub proof fn lemma_time_token_is_word(time: Seq<char>)
    requires
        is_time_token(time),
    ensures
        time.len() >= 3,
        forall|i: int| 0 <= i < time.len() ==> !is_space(#[trigger] time[i]),
{
    assert forall|i: int| 0 <= i < time.len() implies !is_space(#[trigger] time[i]) by {
        if time_shape(time, 1) {
            if i != 1 {
                assert(is_digit(time[i]));
            }
        } else {
            if i != 2 {
                assert(is_digit(time[i]));
            }
        }
    }
}

/// The Unix rule recovers a file name whole, spaces within it included. Of a
/// line made of leading columns that hold no clock time, then a clock time,
/// white space and a name, the rule gives that name, provided the line is one
/// the rule reads: it begins with the mark of a directory, a link or a file,
/// holds at least eight tokens, and the name is neither `.` nor `..`.
pub proof fn lemma_unix_name_recovered(
    head: Seq<char>,
    time: Seq<char>,
    gap: Seq<char>,
    name: Seq<char>,
)
    requires
        head.len() > 0,
        head[0] == 'd' || head[0] == 'l' || head[0] == '-',
        is_space(head.last()),
        after_time_token(head) is None,
        is_time_token(time),
        gap.len() > 0,
        forall|i: int| 0 <= i < gap.len() ==> is_space(#[trigger] gap[i]),
        name.len() > 0,
        !is_space(name[0]),
        !is_self_or_parent(name),
        tokens(head + time + gap + name).len() >= 8,
    ensures
        unix_entry_name(head + time + gap + name) == Some(name),
{
    let line = head + time + gap + name;
    let rest = time + gap + name;
    assert(line =~= head + rest);
    lemma_time_token_is_word(time);
    // the clock time is the first token of what follows the leading columns
    assert(rest[0] == time[0]);
    lemma_run_len_is(rest, CharClass::Space, 0);
    assert(rest.skip(0) =~= rest);
    assert forall|i: int| 0 <= i < time.len() implies !is_space(#[trigger] rest[i]) by {
        assert(rest[i] == time[i]);
    }
    assert(rest[time.len() as int] == gap[0]);
    lemma_run_len_is(rest, CharClass::Word, time.len() as int);
    assert(rest.take(time.len() as int) =~= time);
    assert(after_time_token(rest) == Some(time.len() as int));
    lemma_after_time_skips(head, rest);
    let k = head.len() + time.len();
    assert(after_time_token(line) == Some(k as int));
    // the name is what follows the white space behind the clock time
    let tail = line.skip(k as int);
    assert(tail =~= gap + name);
    assert forall|i: int| 0 <= i < gap.len() implies is_space(#[trigger] tail[i]) by {
        assert(tail[i] == gap[i]);
    }
    assert(tail[gap.len() as int] == name[0]);
    lemma_run_len_is(tail, CharClass::Space, gap.len() as int);
    assert(tail.skip(gap.len() as int) =~= name);
    assert(unix_name_text(line) == name);
    assert(line[0] == head[0]);
}

} // verus!
