//! Character-level text operations and their mathematical models.
//!
//! Every text in this crate is modelled by its sequence of characters, the
//! view of a `str`. The spec functions here say what trimming, splitting into
//! tokens or lines, searching and replacing mean on such a sequence; the
//! executable functions compute them and are proved against those models.

use vstd::prelude::*;

verus! {

/// `String::push` appends one character to the end of the string.
pub assume_specification[ String::push ](s: &mut String, c: char)
    ensures
        final(s)@ == old(s)@.push(c),
;

/// A class of characters that a scan runs over.
#[derive(Clone, Copy, Debug, PartialEq, Eq, Structural)]
pub enum CharClass {
    /// White space.
    Space,
    /// Anything but white space.
    Word,
    /// Anything but a line feed.
    Inline,
    /// Anything but a slash or a backslash.
    Name,
}

/// White space as Unicode defines it (the `White_Space` property).
pub open spec fn is_space(c: char) -> bool {
    let n = c as u32;
    (0x09 <= n <= 0x0D) || n == 0x20 || n == 0x85 || n == 0xA0 || n == 0x1680 || (0x2000 <= n
        <= 0x200A) || n == 0x2028 || n == 0x2029 || n == 0x202F || n == 0x205F || n == 0x3000
}

/// `c` belongs to `class`.
pub open spec fn in_class(class: CharClass, c: char) -> bool {
    match class {
        CharClass::Space => is_space(c),
        CharClass::Word => !is_space(c),
        CharClass::Inline => c != '\n',
        CharClass::Name => c != '/' && c != '\\',
    }
}

/// Length of the longest prefix of `s` whose characters are all in `class`.
pub open spec fn run_len(s: Seq<char>, class: CharClass) -> nat
    decreases s.len(),
{
    if s.len() > 0 && in_class(class, s[0]) {
        1 + run_len(s.drop_first(), class)
    } else {
        0
    }
}

/// Length of the longest suffix of `s` whose characters are all in `class`.
pub open spec fn run_len_back(s: Seq<char>, class: CharClass) -> nat
    decreases s.len(),
{
    if s.len() > 0 && in_class(class, s.last()) {
        1 + run_len_back(s.drop_last(), class)
    } else {
        0
    }
}

/// `s` without its leading white space.
pub open spec fn trim_start(s: Seq<char>) -> Seq<char> {
    s.skip(run_len(s, CharClass::Space) as int)
}

/// `s` without its trailing white space.
pub open spec fn trim_end(s: Seq<char>) -> Seq<char> {
    s.take(s.len() - run_len_back(s, CharClass::Space))
}

/// `s` without leading and trailing white space.
pub open spec fn trim(s: Seq<char>) -> Seq<char> {
    trim_end(trim_start(s))
}

/// The maximal runs of non-white-space characters of `s`, in order.
pub open spec fn tokens(s: Seq<char>) -> Seq<Seq<char>>
    decreases s.len(),
{
    let t = trim_start(s);
    if t.len() == 0 {
        Seq::empty()
    } else {
        let n = run_len(t, CharClass::Word);
        proof {
            lemma_run_len(s, CharClass::Space);
            lemma_run_len(t, CharClass::Word);
        }
        seq![t.take(n as int)] + tokens(t.skip(n as int))
    }
}

/// `s` without one trailing carriage return.
pub open spec fn strip_cr(s: Seq<char>) -> Seq<char> {
    if s.len() > 0 && s.last() == '\r' {
        s.drop_last()
    } else {
        s
    }
}

/// The lines of `s`. A line ends at a line feed, which is not part of it, nor
/// is a carriage return directly before that line feed. Text after the last
/// line feed is a line of its own when it is not empty.
pub open spec fn lines(s: Seq<char>) -> Seq<Seq<char>>
    decreases s.len(),
{
    if s.len() == 0 {
        Seq::empty()
    } else {
        let n = run_len(s, CharClass::Inline);
        if n < s.len() {
            seq![strip_cr(s.take(n as int))] + lines(s.skip(n as int + 1))
        } else {
            seq![s]
        }
    }
}

/// Each line of `ls` followed by a line feed.
pub open spec fn unlines(ls: Seq<Seq<char>>) -> Seq<char>
    decreases ls.len(),
{
    if ls.len() == 0 {
        Seq::empty()
    } else {
        unlines(ls.drop_last()) + ls.last() + seq!['\n']
    }
}

/// `pat` occurs in `s` at index `i`.
pub open spec fn has_at(s: Seq<char>, pat: Seq<char>, i: int) -> bool {
    0 <= i && i + pat.len() <= s.len() && s.subrange(i, i + pat.len()) == pat
}

/// `pat` occurs somewhere in `s`.
pub open spec fn contains(s: Seq<char>, pat: Seq<char>) -> bool {
    exists|i: int| has_at(s, pat, i)
}

/// `s` begins with `pat`.
pub open spec fn starts_with(s: Seq<char>, pat: Seq<char>) -> bool {
    has_at(s, pat, 0)
}

/// `s` ends with `pat`.
pub open spec fn ends_with(s: Seq<char>, pat: Seq<char>) -> bool {
    has_at(s, pat, s.len() - pat.len())
}

/// `s` with every occurrence of `pat` replaced by `to`, the occurrences taken
/// from left to right without overlap. An empty `pat` occurs nowhere.
pub open spec fn replace(s: Seq<char>, pat: Seq<char>, to: Seq<char>) -> Seq<char>
    decreases s.len(),
{
    if pat.len() == 0 || s.len() < pat.len() {
        s
    } else if has_at(s, pat, 0) {
        to + replace(s.skip(pat.len() as int), pat, to)
    } else {
        seq![s[0]] + replace(s.drop_first(), pat, to)
    }
}

/// `c` as a small letter where it is a capital from A to Z, else `c`.
pub open spec fn ascii_lower(c: char) -> char {
    if 0x41 <= c as u32 <= 0x5A {
        ((c as u32 + 0x20) as u8) as char
    } else {
        c
    }
}

/// `s` with every capital from A to Z made small.
pub open spec fn ascii_lowered(s: Seq<char>) -> Seq<char> {
    Seq::new(s.len(), |i: int| ascii_lower(s[i]))
}

/// `pat` occurs in `s` when the case of letters from A to Z is not looked at.
pub open spec fn contains_ignoring_case(s: Seq<char>, pat: Seq<char>) -> bool {
    contains(ascii_lowered(s), ascii_lowered(pat))
}

/// The decimal digit `d` as a character.
pub open spec fn digit_char(d: int) -> char {
    if d == 0 {
        '0'
    } else if d == 1 {
        '1'
    } else if d == 2 {
        '2'
    } else if d == 3 {
        '3'
    } else if d == 4 {
        '4'
    } else if d == 5 {
        '5'
    } else if d == 6 {
        '6'
    } else if d == 7 {
        '7'
    } else if d == 8 {
        '8'
    } else {
        '9'
    }
}

/// `n` in decimal, without leading zeros.
pub open spec fn decimal(n: nat) -> Seq<char>
    decreases n,
{
    if n < 10 {
        seq![digit_char(n as int)]
    } else {
        decimal(n / 10).push(digit_char((n % 10) as int))
    }
}

/// A decimal digit.
pub open spec fn is_digit(c: char) -> bool {
    0x30 <= c as u32 <= 0x39
}

/// The text of an optional string.
pub open spec fn option_view(o: Option<String>) -> Option<Seq<char>> {
    match o {
        Some(s) => Some(s@),
        None => None,
    }
}

/// The texts of a result that is a string either way.
pub open spec fn result_view(r: Result<String, String>) -> Result<Seq<char>, Seq<char>> {
    match r {
        Ok(s) => Ok(s@),
        Err(e) => Err(e@),
    }
}

/// The views of the texts in `vs`.
pub open spec fn views(vs: Seq<Vec<char>>) -> Seq<Seq<char>> {
    Seq::new(vs.len(), |i: int| vs[i]@)
}

/// The views of the strings in `vs`.
pub open spec fn string_views(vs: Seq<String>) -> Seq<Seq<char>> {
    Seq::new(vs.len(), |i: int| vs[i]@)
}

/// A run lies within its text, holds only characters of its class, and
/// stops at the first character that is not of the class.
pub proof fn lemma_run_len(s: Seq<char>, class: CharClass)
    ensures
        run_len(s, class) <= s.len(),
        forall|i: int| 0 <= i < run_len(s, class) ==> in_class(class, #[trigger] s[i]),
        run_len(s, class) < s.len() ==> !in_class(class, s[run_len(s, class) as int]),
    decreases s.len(),
{
    if s.len() > 0 && in_class(class, s[0]) {
        let r = s.drop_first();
        lemma_run_len(r, class);
        assert forall|i: int| 0 <= i < run_len(s, class) implies in_class(
            class,
            #[trigger] s[i],
        ) by {
            if i > 0 {
                assert(s[i] == r[i - 1]);
            }
        }
        if run_len(s, class) < s.len() {
            assert(s[run_len(s, class) as int] == r[run_len(r, class) as int]);
        }
    }
}

/// A run is pinned down by where it stops.
pub proof fn lemma_run_len_is(s: Seq<char>, class: CharClass, n: int)
    requires
        0 <= n <= s.len(),
        forall|i: int| 0 <= i < n ==> in_class(class, #[trigger] s[i]),
        n < s.len() ==> !in_class(class, s[n]),
    ensures
        run_len(s, class) == n,
    decreases s.len(),
{
    if n > 0 {
        let r = s.drop_first();
        assert(in_class(class, s[0]));
        assert forall|i: int| 0 <= i < n - 1 implies in_class(class, #[trigger] r[i]) by {
            assert(r[i] == s[i + 1]);
        }
        if n - 1 < r.len() {
            assert(r[n - 1] == s[n]);
        }
        lemma_run_len_is(r, class, n - 1);
    }
}

/// A run at the end lies within its text, holds only characters of its
/// class, and begins behind the last character that is not of the class.
pub proof fn lemma_run_len_back(s: Seq<char>, class: CharClass)
    ensures
        run_len_back(s, class) <= s.len(),
        forall|i: int|
            s.len() - run_len_back(s, class) <= i < s.len() ==> in_class(class, #[trigger] s[i]),
        run_len_back(s, class) < s.len() ==> !in_class(
            class,
            s[s.len() - run_len_back(s, class) - 1],
        ),
    decreases s.len(),
{
    if s.len() > 0 && in_class(class, s.last()) {
        let r = s.drop_last();
        lemma_run_len_back(r, class);
        assert forall|i: int| s.len() - run_len_back(s, class) <= i < s.len() implies in_class(
            class,
            #[trigger] s[i],
        ) by {
            if i < s.len() - 1 {
                assert(s[i] == r[i]);
            }
        }
        if run_len_back(s, class) < s.len() {
            assert(s[s.len() - run_len_back(s, class) - 1] == r[r.len() - run_len_back(r, class)
                - 1]);
        }
    }
}

/// A run at the end is pinned down by where it begins.
pub proof fn lemma_run_len_back_is(s: Seq<char>, class: CharClass, n: int)
    requires
        0 <= n <= s.len(),
        forall|i: int| s.len() - n <= i < s.len() ==> in_class(class, #[trigger] s[i]),
        n < s.len() ==> !in_class(class, s[s.len() - n - 1]),
    ensures
        run_len_back(s, class) == n,
    decreases s.len(),
{
    if n > 0 {
        let r = s.drop_last();
        assert(in_class(class, s[s.len() - 1]));
        assert forall|i: int| r.len() - (n - 1) <= i < r.len() implies in_class(
            class,
            #[trigger] r[i],
        ) by {
            assert(r[i] == s[i]);
        }
        if n - 1 < r.len() {
            assert(r[r.len() - (n - 1) - 1] == s[s.len() - n - 1]);
        }
        lemma_run_len_back_is(r, class, n - 1);
    }
}

/// A run over a concatenation stops inside the first part where it stops
/// there, and else goes on into the second.
pub proof fn lemma_run_len_concat(a: Seq<char>, b: Seq<char>, class: CharClass)
    ensures
        run_len(a, class) < a.len() ==> run_len(a + b, class) == run_len(a, class),
        run_len(a, class) == a.len() ==> run_len(a + b, class) == a.len() + run_len(b, class),
{
    lemma_run_len(a, class);
    lemma_run_len(b, class);
    let n = run_len(a, class);
    let s = a + b;
    if n < a.len() {
        assert forall|i: int| 0 <= i < n implies in_class(class, #[trigger] s[i]) by {
            assert(s[i] == a[i]);
        }
        assert(s[n as int] == a[n as int]);
        lemma_run_len_is(s, class, n as int);
    } else {
        let m = a.len() + run_len(b, class);
        assert forall|i: int| 0 <= i < m implies in_class(class, #[trigger] s[i]) by {
            if i < a.len() {
                assert(s[i] == a[i]);
            } else {
                assert(s[i] == b[i - a.len()]);
            }
        }
        if m < s.len() {
            assert(s[m as int] == b[run_len(b, class) as int]);
        }
        lemma_run_len_is(s, class, m as int);
    }
}

/// Trimming cuts a text out of the middle of `s`.
pub proof fn lemma_trim_is_subrange(s: Seq<char>) -> (r: (int, int))
    ensures
        0 <= r.0 <= r.1 <= s.len(),
        trim(s) == s.subrange(r.0, r.1),
{
    lemma_run_len(s, CharClass::Space);
    let a = run_len(s, CharClass::Space) as int;
    let t = s.skip(a);
    lemma_run_len_back(t, CharClass::Space);
    let b = s.len() - run_len_back(t, CharClass::Space);
    assert(trim(s) =~= s.subrange(a, b));
    (a, b)
}

/// A text that neither begins nor ends with white space is its own trimming.
pub proof fn lemma_trim_identity(s: Seq<char>)
    requires
        s.len() > 0 ==> !is_space(s[0]) && !is_space(s.last()),
    ensures
        trim(s) == s,
{
    lemma_run_len_is(s, CharClass::Space, 0);
    assert(s.skip(0) =~= s);
    lemma_run_len_back_is(s, CharClass::Space, 0);
    assert(s.take(s.len() as int) =~= s);
}

/// No line holds a line feed.
pub proof fn lemma_lines_hold_no_line_feed(s: Seq<char>, i: int, k: int)
    requires
        0 <= i < lines(s).len(),
        0 <= k < lines(s)[i].len(),
    ensures
        lines(s)[i][k] != '\n',
    decreases s.len(),
{
    lemma_run_len(s, CharClass::Inline);
    let n = run_len(s, CharClass::Inline) as int;
    if n < s.len() {
        let first = strip_cr(s.take(n));
        if i == 0 {
            assert(lines(s)[0] == first);
            assert(first[k] == s[k]);
        } else {
            assert(lines(s)[i] == lines(s.skip(n + 1))[i - 1]);
            lemma_lines_hold_no_line_feed(s.skip(n + 1), i - 1, k);
        }
    } else {
        assert(lines(s)[0] == s);
    }
}

/// The lines of two texts joined, where the first is empty or ends with a
/// line feed, are the lines of the first and then those of the second.
pub proof fn lemma_lines_concat(a: Seq<char>, b: Seq<char>)
    requires
        a.len() > 0 ==> a.last() == '\n',
    ensures
        lines(a + b) == lines(a) + lines(b),
    decreases a.len(),
{
    if a.len() == 0 {
        assert(a + b =~= b);
        assert(lines(a) + lines(b) =~= lines(b));
    } else {
        lemma_run_len(a, CharClass::Inline);
        let n = run_len(a, CharClass::Inline) as int;
        assert(n < a.len()) by {
            if n == a.len() {
                assert(in_class(CharClass::Inline, a[a.len() - 1]));
            }
        }
        lemma_run_len_concat(a, b, CharClass::Inline);
        let s = a + b;
        assert(s.take(n) =~= a.take(n));
        assert(s.skip(n + 1) =~= a.skip(n + 1) + b);
        let rest = a.skip(n + 1);
        if rest.len() > 0 {
            assert(rest.last() == a.last());
        }
        lemma_lines_concat(rest, b);
        assert(lines(s) =~= lines(a) + lines(b));
    }
}

/// Writing lines out and reading them back gives as many lines as went in,
/// as long as none of them holds a line feed.
pub proof fn lemma_unlines_keeps_count(ls: Seq<Seq<char>>)
    requires
        forall|i: int, k: int| 0 <= i < ls.len() && 0 <= k < ls[i].len() ==> ls[i][k] != '\n',
    ensures
        lines(unlines(ls)).len() == ls.len(),
        ls.len() > 0 ==> unlines(ls).len() > 0 && unlines(ls).last() == '\n',
    decreases ls.len(),
{
    if ls.len() > 0 {
        let init = ls.drop_last();
        let last = ls.last();
        assert forall|i: int, k: int| 0 <= i < init.len() && 0 <= k < init[i].len() implies init[i][k]
            != '\n' by {
            assert(init[i] == ls[i]);
        }
        lemma_unlines_keeps_count(init);
        let tail = last + seq!['\n'];
        assert(unlines(ls) =~= unlines(init) + tail);
        lemma_lines_concat(unlines(init), tail);
        assert forall|k: int| 0 <= k < last.len() implies in_class(
            CharClass::Inline,
            #[trigger] tail[k],
        ) by {
            assert(tail[k] == last[k]);
            assert(last[k] == ls[ls.len() - 1][k]);
        }
        assert(tail[last.len() as int] == '\n');
        lemma_run_len_is(tail, CharClass::Inline, last.len() as int);
        let after = tail.skip(last.len() as int + 1);
        assert(after =~= Seq::<char>::empty());
        assert(lines(after).len() == 0);
        assert(lines(tail) == seq![strip_cr(tail.take(last.len() as int))] + lines(after));
    }
}

/// Writing lines out and reading them back gives the lines that went in, as
/// long as none of them holds a line feed or ends in a carriage return.
pub proof fn lemma_lines_of_unlines(ls: Seq<Seq<char>>)
    requires
        forall|i: int, k: int| 0 <= i < ls.len() && 0 <= k < ls[i].len() ==> ls[i][k] != '\n',
        forall|i: int| 0 <= i < ls.len() && ls[i].len() > 0 ==> (#[trigger] ls[i]).last() != '\r',
    ensures
        lines(unlines(ls)) == ls,
    decreases ls.len(),
{
    if ls.len() == 0 {
        assert(lines(unlines(ls)) =~= ls);
    } else {
        let init = ls.drop_last();
        let last = ls.last();
        assert forall|i: int, k: int| 0 <= i < init.len() && 0 <= k < init[i].len() implies init[i][k]
            != '\n' by {
            assert(init[i] == ls[i]);
        }
        assert forall|i: int| 0 <= i < init.len() && init[i].len() > 0 implies (#[trigger] init[i]).last()
            != '\r' by {
            assert(init[i] == ls[i]);
        }
        lemma_lines_of_unlines(init);
        lemma_unlines_keeps_count(init);
        let tail = last + seq!['\n'];
        assert(unlines(ls) =~= unlines(init) + tail);
        lemma_lines_concat(unlines(init), tail);
        assert forall|k: int| 0 <= k < last.len() implies in_class(
            CharClass::Inline,
            #[trigger] tail[k],
        ) by {
            assert(tail[k] == last[k]);
            assert(last[k] == ls[ls.len() - 1][k]);
        }
        assert(tail[last.len() as int] == '\n');
        lemma_run_len_is(tail, CharClass::Inline, last.len() as int);
        let after = tail.skip(last.len() as int + 1);
        assert(after =~= Seq::<char>::empty());
        assert(lines(after).len() == 0);
        assert(tail.take(last.len() as int) =~= last);
        assert(strip_cr(last) == last);
        assert(lines(tail) =~= seq![last]);
        assert(ls =~= init + seq![last]);
    }
}

/// Making letters small keeps every occurrence: what occurs in a text occurs,
/// made small, in the text made small.
pub proof fn lemma_lowering_keeps_occurrences(s: Seq<char>, pat: Seq<char>)
    requires
        contains(s, pat),
    ensures
        contains_ignoring_case(s, pat),
{
    let i = choose|i: int| has_at(s, pat, i);
    assert(ascii_lowered(s).subrange(i, i + pat.len()) =~= ascii_lowered(pat)) by {
        assert forall|k: int| 0 <= k < pat.len() implies ascii_lowered(s)[i + k] == ascii_lowered(
            pat,
        )[k] by {
            assert(s.subrange(i, i + pat.len())[k] == s[i + k]);
        }
    }
    assert(has_at(ascii_lowered(s), ascii_lowered(pat), i));
}

/// Making letters small twice is making them small once.
pub proof fn lemma_lowering_is_settled(s: Seq<char>)
    ensures
        ascii_lowered(ascii_lowered(s)) == ascii_lowered(s),
{
    assert(ascii_lowered(ascii_lowered(s)) =~= ascii_lowered(s));
}

/// The characters of `s`, in order.
pub fn chars_of(s: &str) -> (v: Vec<char>)
    ensures
        v@ == s@,
{
    let mut v: Vec<char> = Vec::new();
    for c in it: s.chars()
        invariant
            it.seq() == s@,
            v@ == it.seq().take(it.index() as int),
    {
        v.push(c);
    }
    v
}

/// The string spelled by `v`.
pub fn string_of(v: &Vec<char>) -> (s: String)
    ensures
        s@ == v@,
{
    let mut s = String::new();
    let mut i: usize = 0;
    while i < v.len()
        invariant
            i <= v.len(),
            s@ == v@.take(i as int),
        decreases v.len() - i,
    {
        s.push(v[i]);
        i += 1;
    }
    s
}

/// Whether `c` is white space.
pub fn is_whitespace(c: char) -> (b: bool)
    ensures
        b == is_space(c),
{
    let n: u32 = c as u32;
    (0x09 <= n && n <= 0x0D) || n == 0x20 || n == 0x85 || n == 0xA0 || n == 0x1680 || (0x2000 <= n
        && n <= 0x200A) || n == 0x2028 || n == 0x2029 || n == 0x202F || n == 0x205F || n == 0x3000
}

/// Whether `c` belongs to `class`.
pub(crate) fn has_class(class: CharClass, c: char) -> (b: bool)
    ensures
        b == in_class(class, c),
{
    match class {
        CharClass::Space => is_whitespace(c),
        CharClass::Word => !is_whitespace(c),
        CharClass::Inline => c != '\n',
        CharClass::Name => c != '/' && c != '\\',
    }
}

/// The index at which the run of `class` that starts at `from` stops.
pub(crate) fn scan(v: &Vec<char>, from: usize, class: CharClass) -> (end: usize)
    requires
        from <= v.len(),
    ensures
        from <= end <= v.len(),
        end - from == run_len(v@.skip(from as int), class),
{
    let mut i: usize = from;
    while i < v.len() && has_class(class, v[i])
        invariant
            from <= i <= v.len(),
            forall|k: int| from <= k < i ==> in_class(class, #[trigger] v@[k]),
        decreases v.len() - i,
    {
        i += 1;
    }
    proof {
        lemma_run_len_is(v@.skip(from as int), class, i - from);
    }
    i
}

/// The index at which the run of `class` that ends `v` begins, looking no
/// further back than `from`.
pub(crate) fn scan_back(v: &Vec<char>, from: usize, class: CharClass) -> (start: usize)
    requires
        from <= v.len(),
    ensures
        from <= start <= v.len(),
        v.len() - start == run_len_back(v@.skip(from as int), class),
{
    let mut i: usize = v.len();
    while i > from && has_class(class, v[i - 1])
        invariant
            from <= i <= v.len(),
            forall|k: int| i <= k < v.len() ==> in_class(class, #[trigger] v@[k]),
        decreases i,
    {
        i -= 1;
    }
    proof {
        let t = v@.skip(from as int);
        assert forall|k: int| t.len() - (v.len() - i) <= k < t.len() implies in_class(
            class,
            #[trigger] t[k],
        ) by {
            assert(t[k] == v@[k + from]);
        }
        lemma_run_len_back_is(t, class, v.len() - i);
    }
    i
}

/// A copy of `v[a..b]`.
pub(crate) fn slice_of(v: &Vec<char>, a: usize, b: usize) -> (r: Vec<char>)
    requires
        a <= b <= v.len(),
    ensures
        r@ == v@.subrange(a as int, b as int),
{
    let mut r: Vec<char> = Vec::new();
    let mut i: usize = a;
    while i < b
        invariant
            a <= i <= b <= v.len(),
            r@ == v@.subrange(a as int, i as int),
        decreases b - i,
    {
        r.push(v[i]);
        i += 1;
    }
    r
}

/// Appends the characters of `tail` to `v`.
pub(crate) fn extend(v: &mut Vec<char>, tail: &Vec<char>)
    ensures
        final(v)@ == old(v)@ + tail@,
{
    let mut i: usize = 0;
    while i < tail.len()
        invariant
            i <= tail.len(),
            v@ == old(v)@ + tail@.take(i as int),
        decreases tail.len() - i,
    {
        v.push(tail[i]);
        i += 1;
    }
}

/// `c` as a small letter where it is a capital from A to Z.
pub(crate) fn lower_char(c: char) -> (r: char)
    ensures
        r == ascii_lower(c),
{
    let n: u32 = c as u32;
    if 0x41 <= n && n <= 0x5A {
        ((n + 0x20) as u8) as char
    } else {
        c
    }
}

/// `v` with every capital from A to Z made small.
pub(crate) fn lower_chars(v: &Vec<char>) -> (r: Vec<char>)
    ensures
        r@ == ascii_lowered(v@),
{
    let mut r: Vec<char> = Vec::new();
    let mut i: usize = 0;
    while i < v.len()
        invariant
            i <= v.len(),
            r@ == ascii_lowered(v@).take(i as int),
        decreases v.len() - i,
    {
        r.push(lower_char(v[i]));
        proof {
            assert(r@ =~= ascii_lowered(v@).take(i + 1));
        }
        i += 1;
    }
    proof {
        assert(ascii_lowered(v@).take(v.len() as int) =~= ascii_lowered(v@));
    }
    r
}

/// Whether `pat` occurs in `v` when the case of letters from A to Z is not
/// looked at.
pub(crate) fn chars_contain_ignoring_case(v: &Vec<char>, pat: &Vec<char>) -> (b: bool)
    ensures
        b == contains_ignoring_case(v@, pat@),
{
    chars_contain(&lower_chars(v), &lower_chars(pat))
}

/// `v` without leading and trailing white space.
pub(crate) fn trim_chars(v: &Vec<char>) -> (r: Vec<char>)
    ensures
        r@ == trim(v@),
{
    let a = scan(v, 0, CharClass::Space);
    let b = scan_back(v, a, CharClass::Space);
    proof {
        assert(v@.skip(0) =~= v@);
        let t = v@.skip(a as int);
        assert(t.take(t.len() - (v.len() - b)) =~= v@.subrange(a as int, b as int));
    }
    slice_of(v, a, b)
}

/// The white-space separated tokens of `v`.
pub(crate) fn split_tokens(v: &Vec<char>) -> (r: Vec<Vec<char>>)
    ensures
        views(r@) == tokens(v@),
{
    let mut r: Vec<Vec<char>> = Vec::new();
    let mut i: usize = 0;
    proof {
        assert(v@.skip(0) =~= v@);
        assert(views(r@) =~= Seq::<Seq<char>>::empty());
    }
    while i < v.len()
        invariant
            i <= v.len(),
            tokens(v@) == views(r@) + tokens(v@.skip(i as int)),
        decreases v.len() - i,
    {
        let a = scan(v, i, CharClass::Space);
        let ghost s = v@.skip(i as int);
        let ghost t = trim_start(s);
        proof {
            assert(t =~= v@.skip(a as int));
        }
        if a == v.len() {
            proof {
                assert(tokens(v@.skip(a as int)) =~= Seq::<Seq<char>>::empty());
            }
            i = a;
        } else {
            let b = scan(v, a, CharClass::Word);
            let word = slice_of(v, a, b);
            proof {
                lemma_run_len(s, CharClass::Space);
                assert(t[0] == v@[a as int]);
                assert(!is_space(t[0]));
                assert(b > a);
                assert(t.take(b - a) =~= word@);
                assert(t.skip(b - a) =~= v@.skip(b as int));
                assert(views(r@.push(word)) =~= views(r@) + seq![word@]);
            }
            r.push(word);
            i = b;
        }
    }
    proof {
        assert(views(r@) + Seq::<Seq<char>>::empty() =~= views(r@));
    }
    r
}

/// The lines of `v`.
pub(crate) fn split_lines(v: &Vec<char>) -> (r: Vec<Vec<char>>)
    ensures
        views(r@) == lines(v@),
{
    let mut r: Vec<Vec<char>> = Vec::new();
    let mut i: usize = 0;
    proof {
        assert(v@.skip(0) =~= v@);
        assert(views(r@) =~= Seq::<Seq<char>>::empty());
    }
    while i < v.len()
        invariant
            i <= v.len(),
            lines(v@) == views(r@) + lines(v@.skip(i as int)),
        decreases v.len() - i,
    {
        let e = scan(v, i, CharClass::Inline);
        let ghost s = v@.skip(i as int);
        if e < v.len() {
            let end = if e > i && v[e - 1] == '\r' {
                e - 1
            } else {
                e
            };
            let line = slice_of(v, i, end);
            proof {
                let raw = s.take(e - i);
                assert(raw =~= v@.subrange(i as int, e as int));
                assert(strip_cr(raw) =~= line@);
                assert(s.skip(e - i + 1) =~= v@.skip(e + 1));
                assert(views(r@.push(line)) =~= views(r@) + seq![line@]);
            }
            r.push(line);
            i = e + 1;
        } else {
            let line = slice_of(v, i, e);
            proof {
                assert(line@ =~= s);
                assert(lines(v@.skip(e as int)) =~= Seq::<Seq<char>>::empty());
                assert(views(r@.push(line)) =~= views(r@) + seq![line@]);
            }
            r.push(line);
            i = e;
        }
    }
    proof {
        assert(views(r@) + Seq::<Seq<char>>::empty() =~= views(r@));
    }
    r
}

/// Whether `pat` occurs in `v` at index `i`.
pub(crate) fn matches_at(v: &Vec<char>, pat: &Vec<char>, i: usize) -> (b: bool)
    ensures
        b == has_at(v@, pat@, i as int),
{
    if pat.len() > v.len() || i > v.len() - pat.len() {
        return false;
    }
    let mut k: usize = 0;
    while k < pat.len()
        invariant
            k <= pat.len(),
            i + pat.len() <= v.len(),
            forall|j: int| 0 <= j < k ==> v@[i + j] == #[trigger] pat@[j],
        decreases pat.len() - k,
    {
        if v[i + k] != pat[k] {
            proof {
                assert(v@.subrange(i as int, i + pat.len())[k as int] == v@[i + k]);
            }
            return false;
        }
        k += 1;
    }
    proof {
        assert(v@.subrange(i as int, i + pat.len()) =~= pat@);
    }
    true
}

/// Whether `a` and `b` spell the same text.
pub(crate) fn same_chars(a: &Vec<char>, b: &Vec<char>) -> (r: bool)
    ensures
        r == (a@ == b@),
{
    if a.len() != b.len() {
        return false;
    }
    proof {
        assert(a@.subrange(0, a.len() as int) =~= a@);
    }
    matches_at(a, b, 0)
}

/// Whether `v` begins with `pat`.
pub(crate) fn chars_start_with(v: &Vec<char>, pat: &Vec<char>) -> (b: bool)
    ensures
        b == starts_with(v@, pat@),
{
    matches_at(v, pat, 0)
}

/// Whether `v` ends with `pat`.
pub(crate) fn chars_end_with(v: &Vec<char>, pat: &Vec<char>) -> (b: bool)
    ensures
        b == ends_with(v@, pat@),
{
    if pat.len() > v.len() {
        return false;
    }
    matches_at(v, pat, v.len() - pat.len())
}

/// Whether `pat` occurs somewhere in `v`.
pub(crate) fn chars_contain(v: &Vec<char>, pat: &Vec<char>) -> (b: bool)
    ensures
        b == contains(v@, pat@),
{
    if pat.len() > v.len() {
        return false;
    }
    let last: usize = v.len() - pat.len();
    let mut i: usize = 0;
    while i < last
        invariant
            i <= last,
            last == v.len() - pat.len(),
            forall|j: int| 0 <= j < i ==> !has_at(v@, pat@, j),
        decreases last - i,
    {
        if matches_at(v, pat, i) {
            return true;
        }
        i += 1;
    }
    matches_at(v, pat, last)
}

/// `v` with every occurrence of `pat` replaced by `to`.
pub(crate) fn replace_chars(v: &Vec<char>, pat: &Vec<char>, to: &Vec<char>) -> (r: Vec<char>)
    ensures
        r@ == replace(v@, pat@, to@),
{
    let mut r: Vec<char> = Vec::new();
    let mut i: usize = 0;
    proof {
        assert(v@.skip(0) =~= v@);
    }
    while i < v.len()
        invariant
            i <= v.len(),
            replace(v@, pat@, to@) == r@ + replace(v@.skip(i as int), pat@, to@),
        decreases v.len() - i,
    {
        let ghost s = v@.skip(i as int);
        if pat.len() > 0 && matches_at(v, pat, i) {
            proof {
                assert(s.subrange(0, pat.len() as int) =~= v@.subrange(i as int, i + pat.len()));
                assert(s.skip(pat.len() as int) =~= v@.skip(i + pat.len()));
                assert(r@ + (to@ + replace(v@.skip(i + pat.len()), pat@, to@)) =~= (r@ + to@)
                    + replace(v@.skip(i + pat.len()), pat@, to@));
            }
            extend(&mut r, to);
            i += pat.len();
        } else {
            proof {
                if i + pat.len() <= v.len() {
                    assert(s.subrange(0, pat.len() as int) =~= v@.subrange(
                        i as int,
                        i + pat.len(),
                    ));
                }
                assert(s.drop_first() =~= v@.skip(i + 1));
                let rest = replace(v@.skip(i + 1), pat@, to@);
                assert(replace(s, pat@, to@) =~= seq![s[0]] + rest);
                assert(r@ + (seq![s[0]] + rest) =~= r@.push(v@[i as int]) + rest);
            }
            r.push(v[i]);
            i += 1;
        }
    }
    proof {
        assert(r@ + Seq::<char>::empty() =~= r@);
    }
    r
}

/// The character of the decimal digit `d`.
pub(crate) fn digit_of(d: u64) -> (c: char)
    requires
        d < 10,
    ensures
        c == digit_char(d as int),
{
    if d == 0 {
        '0'
    } else if d == 1 {
        '1'
    } else if d == 2 {
        '2'
    } else if d == 3 {
        '3'
    } else if d == 4 {
        '4'
    } else if d == 5 {
        '5'
    } else if d == 6 {
        '6'
    } else if d == 7 {
        '7'
    } else if d == 8 {
        '8'
    } else {
        '9'
    }
}

/// `n` in decimal.
pub(crate) fn decimal_chars(n: u64) -> (r: Vec<char>)
    ensures
        r@ == decimal(n as nat),
    decreases n,
{
    if n < 10 {
        let mut r: Vec<char> = Vec::new();
        r.push(digit_of(n));
        assert(r@ =~= seq![digit_char(n as int)]);
        r
    } else {
        let mut r = decimal_chars(n / 10);
        r.push(digit_of(n % 10));
        r
    }
}

/// The strings spelled by the texts in `vs`.
pub(crate) fn strings_of(vs: &Vec<Vec<char>>) -> (r: Vec<String>)
    ensures
        string_views(r@) == views(vs@),
{
    let mut r: Vec<String> = Vec::new();
    let mut i: usize = 0;
    while i < vs.len()
        invariant
            i <= vs.len(),
            r.len() == i,
            forall|j: int| 0 <= j < i ==> (#[trigger] r@[j])@ == vs@[j]@,
        decreases vs.len() - i,
    {
        r.push(string_of(&vs[i]));
        i += 1;
    }
    proof {
        assert(string_views(r@) =~= views(vs@));
    }
    r
}

/// `s` without leading and trailing white space.
pub fn trimmed(s: &str) -> (r: String)
    ensures
        r@ == trim(s@),
{
    string_of(&trim_chars(&chars_of(s)))
}

/// The white-space separated tokens of `s`, in order.
pub fn words(s: &str) -> (r: Vec<String>)
    ensures
        string_views(r@) == tokens(s@),
{
    strings_of(&split_tokens(&chars_of(s)))
}

/// The lines of `s`, in order, without their line endings.
pub fn text_lines(s: &str) -> (r: Vec<String>)
    ensures
        string_views(r@) == lines(s@),
{
    strings_of(&split_lines(&chars_of(s)))
}

/// Whether `pat` occurs somewhere in `s`.
pub fn text_contains(s: &str, pat: &str) -> (b: bool)
    ensures
        b == contains(s@, pat@),
{
    chars_contain(&chars_of(s), &chars_of(pat))
}

/// Whether `pat` occurs somewhere in `s` when the case of letters from A to Z
/// is not looked at.
pub fn text_contains_ignoring_case(s: &str, pat: &str) -> (b: bool)
    ensures
        b == contains_ignoring_case(s@, pat@),
{
    chars_contain_ignoring_case(&chars_of(s), &chars_of(pat))
}

/// Whether `s` begins with `pat`.
pub fn text_starts_with(s: &str, pat: &str) -> (b: bool)
    ensures
        b == starts_with(s@, pat@),
{
    chars_start_with(&chars_of(s), &chars_of(pat))
}

/// Whether `s` ends with `pat`.
pub fn text_ends_with(s: &str, pat: &str) -> (b: bool)
    ensures
        b == ends_with(s@, pat@),
{
    chars_end_with(&chars_of(s), &chars_of(pat))
}

/// `s` with every occurrence of `pat` replaced by `to`, taken from left to
/// right without overlap; with an empty `pat`, `s` itself.
pub fn replaced(s: &str, pat: &str, to: &str) -> (r: String)
    ensures
        r@ == replace(s@, pat@, to@),
{
    string_of(&replace_chars(&chars_of(s), &chars_of(pat), &chars_of(to)))
}

/// `n` in decimal, without leading zeros.
pub fn decimal_string(n: u64) -> (r: String)
    ensures
        r@ == decimal(n as nat),
{
    string_of(&decimal_chars(n))
}

} // verus!
