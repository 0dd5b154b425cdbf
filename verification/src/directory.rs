//! The contents of a directory as a list of labels: hidden entries left out,
//! each name marked with its type, the labels in order.

use crate::file_type::FileType;
use crate::text::{chars_of, string_views, strings_of, views};
use vstd::prelude::*;

verus! {

/// One entry read from a directory.
#[derive(Clone, Debug, PartialEq, Eq)]
pub struct DirectoryEntry {
    pub name: String,
    pub file_type: FileType,
}

/// An entry with its name as a sequence of characters.
pub struct EntryModel {
    pub name: Seq<char>,
    pub file_type: FileType,
}

impl View for DirectoryEntry {
    type V = EntryModel;

    open spec fn view(&self) -> EntryModel {
        EntryModel { name: self.name@, file_type: self.file_type }
    }
}

/// The models of the entries in `es`.
pub open spec fn entry_views(es: Seq<DirectoryEntry>) -> Seq<EntryModel> {
    Seq::new(es.len(), |i: int| es[i]@)
}

/// A name that begins with a dot and is neither the directory itself nor its
/// parent.
pub open spec fn is_hidden(name: Seq<char>) -> bool {
    name.len() > 0 && name[0] == '.' && name != "."@ && name != ".."@
}

/// The name of an entry with the mark of its type behind it: a slash for a
/// directory, a star for an executable, an at sign for a link.
pub open spec fn label(e: EntryModel) -> Seq<char> {
    match e.file_type {
        FileType::Directory => e.name.push('/'),
        FileType::Executable => e.name.push('*'),
        FileType::Symlink => e.name.push('@'),
        FileType::Regular => e.name,
    }
}

/// The labels of the entries that are not hidden, in the order of the
/// entries.
pub open spec fn shown_labels(es: Seq<EntryModel>) -> Seq<Seq<char>>
    decreases es.len(),
{
    if es.len() == 0 {
        Seq::empty()
    } else if is_hidden(es.last().name) {
        shown_labels(es.drop_last())
    } else {
        shown_labels(es.drop_last()).push(label(es.last()))
    }
}

/// `a` comes before `b`, or is `b`, in the order of the dictionary with the
/// characters in the order of their code points.
pub open spec fn text_le(a: Seq<char>, b: Seq<char>) -> bool
    decreases a.len(),
{
    if a.len() == 0 {
        true
    } else if b.len() == 0 {
        false
    } else if a[0] != b[0] {
        (a[0] as u32) < (b[0] as u32)
    } else {
        text_le(a.drop_first(), b.drop_first())
    }
}

/// Every text of `ls` comes before all that follow it.
pub open spec fn in_order(ls: Seq<Seq<char>>) -> bool {
    forall|i: int, j: int| 0 <= i <= j < ls.len() ==> text_le(#[trigger] ls[i], #[trigger] ls[j])
}

/// Two characters that differ have code points that differ.
pub proof fn lemma_code_points_differ(c: char, d: char)
    ensures
        c != d ==> c as u32 != d as u32,
{
}

/// Of two texts one comes before the other.
pub proof fn lemma_text_le_total(a: Seq<char>, b: Seq<char>)
    ensures
        text_le(a, b) || text_le(b, a),
    decreases a.len(),
{
    if a.len() > 0 && b.len() > 0 {
        if a[0] == b[0] {
            lemma_text_le_total(a.drop_first(), b.drop_first());
        } else {
            lemma_code_points_differ(a[0], b[0]);
        }
    }
}

/// What comes before a text comes before all that the text comes before.
pub proof fn lemma_text_le_transitive(a: Seq<char>, b: Seq<char>, c: Seq<char>)
    requires
        text_le(a, b),
        text_le(b, c),
    ensures
        text_le(a, c),
    decreases a.len(),
{
    if a.len() > 0 && b.len() > 0 && c.len() > 0 && a[0] == b[0] && b[0] == c[0] {
        lemma_text_le_transitive(a.drop_first(), b.drop_first(), c.drop_first());
    }
}

/// Two texts that each come before the other are one text: the order tells
/// all texts apart, so a list in order is pinned down by what it holds.
pub proof fn lemma_text_le_antisymmetric(a: Seq<char>, b: Seq<char>)
    requires
        text_le(a, b),
        text_le(b, a),
    ensures
        a == b,
    decreases a.len(),
{
    if a.len() > 0 && b.len() > 0 {
        lemma_text_le_antisymmetric(a.drop_first(), b.drop_first());
        assert(a =~= seq![a[0]] + a.drop_first());
        assert(b =~= seq![b[0]] + b.drop_first());
    } else {
        assert(a =~= b);
    }
}

/// Whether `a` comes before `b` or is `b`.
fn chars_le(a: &Vec<char>, b: &Vec<char>) -> (r: bool)
    ensures
        r == text_le(a@, b@),
{
    let mut i: usize = 0;
    proof {
        assert(a@.skip(0) =~= a@);
        assert(b@.skip(0) =~= b@);
    }
    while i < a.len() && i < b.len()
        invariant
            i <= a.len(),
            i <= b.len(),
            text_le(a@, b@) == text_le(a@.skip(i as int), b@.skip(i as int)),
        decreases a.len() - i,
    {
        if a[i] != b[i] {
            return (a[i] as u32) < (b[i] as u32);
        }
        proof {
            assert(a@.skip(i as int).drop_first() =~= a@.skip(i + 1));
            assert(b@.skip(i as int).drop_first() =~= b@.skip(i + 1));
        }
        i += 1;
    }
    i == a.len()
}

/// The label of `e`.
fn label_chars(e: &DirectoryEntry) -> (r: Vec<char>)
    ensures
        r@ == label(e@),
{
    let mut r = chars_of(e.name.as_str());
    match e.file_type {
        FileType::Directory => r.push('/'),
        FileType::Executable => r.push('*'),
        FileType::Symlink => r.push('@'),
        FileType::Regular => {},
    }
    r
}

/// Whether an entry called `name` is hidden.
fn is_hidden_chars(name: &Vec<char>) -> (b: bool)
    ensures
        b == is_hidden(name@),
{
    proof {
        reveal_strlit(".");
        reveal_strlit("..");
    }
    if name.len() == 0 || name[0] != '.' {
        return false;
    }
    if name.len() == 1 {
        proof {
            assert(name@ =~= "."@);
        }
        return false;
    }
    if name.len() == 2 && name[1] == '.' {
        proof {
            assert(name@ =~= ".."@);
        }
        return false;
    }
    true
}

/// Puts `x` into the ordered list `acc`, which stays in order.
fn insert_in_order(acc: &mut Vec<Vec<char>>, x: Vec<char>)
    requires
        in_order(views(old(acc)@)),
    ensures
        in_order(views(final(acc)@)),
        views(final(acc)@).to_multiset() == views(old(acc)@).to_multiset().insert(x@),
{
    let mut p: usize = 0;
    while p < acc.len() && chars_le(&acc[p], &x)
        invariant
            p <= acc.len(),
            forall|j: int| 0 <= j < p ==> text_le(#[trigger] views(acc@)[j], x@),
        decreases acc.len() - p,
    {
        p += 1;
    }
    let ghost before = views(acc@);
    let ghost value = x@;
    acc.insert(p, x);
    proof {
        let after = views(acc@);
        assert(after =~= before.insert(p as int, value));
        assert forall|i: int, j: int| 0 <= i <= j < after.len() implies text_le(
            #[trigger] after[i],
            #[trigger] after[j],
        ) by {
            if p < before.len() {
                lemma_text_le_total(before[p as int], value);
            }
            if i == j {
                lemma_text_le_total(after[i], after[i]);
            } else if j == p {
                assert(after[i] == before[i]);
            } else if i == p {
                assert(after[j] == before[j - 1]);
                lemma_text_le_transitive(value, before[p as int], before[j - 1]);
            } else if i < p && j < p {
                assert(after[i] == before[i] && after[j] == before[j]);
            } else if i < p {
                assert(after[i] == before[i] && after[j] == before[j - 1]);
            } else {
                assert(after[i] == before[i - 1] && after[j] == before[j - 1]);
            }
        }
        assert(after.remove(p as int) =~= before);
        vstd::seq_lib::to_multiset_remove(after, p as int);
        after.to_multiset_ensures();
        assert(after.to_multiset() =~= before.to_multiset().insert(value));
    }
}

/// The labels of the entries of a directory that are not hidden, in order.
/// The result holds each such label as often as the entries give it, and no
/// other.
pub fn list_directory_entries(entries: &Vec<DirectoryEntry>) -> (r: Vec<String>)
    ensures
        in_order(string_views(r@)),
        string_views(r@).to_multiset() == shown_labels(entry_views(entries@)).to_multiset(),
{
    let mut acc: Vec<Vec<char>> = Vec::new();
    let mut i: usize = 0;
    let ghost all = entry_views(entries@);
    proof {
        assert(all.take(0) =~= Seq::<EntryModel>::empty());
        assert(views(acc@) =~= Seq::<Seq<char>>::empty());
    }
    while i < entries.len()
        invariant
            i <= entries.len(),
            all == entry_views(entries@),
            in_order(views(acc@)),
            views(acc@).to_multiset() == shown_labels(all.take(i as int)).to_multiset(),
        decreases entries.len() - i,
    {
        let e = &entries[i];
        proof {
            assert(all.take(i + 1).drop_last() =~= all.take(i as int));
            assert(all.take(i + 1).last() == e@);
            shown_labels(all.take(i as int)).to_multiset_ensures();
        }
        if !is_hidden_chars(&chars_of(e.name.as_str())) {
            insert_in_order(&mut acc, label_chars(e));
        }
        i += 1;
    }
    proof {
        assert(all.take(entries.len() as int) =~= all);
    }
    strings_of(&acc)
}

} // verus!

