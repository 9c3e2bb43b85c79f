//! A checked-out source tree as the extractor sees it, and what can be
//! asked of it: which files it has, what stands at a path, what a file
//! holds.

use vstd::prelude::*;
use crate::text::{
    contains, copy_range, ends_with, from_chars, has_match, has_suffix, last_match,
    lemma_chars_deep_view, lemma_last_match, lemma_push_text, rfind, same_text, to_chars,
};

verus! {

/// One entry of a source tree.
///
/// `path` is relative to the root of the tree, its components joined by
/// `/`. `is_file` says that the entry is a regular file, `is_dir` that it
/// is a directory, and `content` holds the text of an entry that could be
/// read as text.
#[derive(Debug, Clone, PartialEq)]
pub struct TreeEntry {
    pub path: String,
    pub is_file: bool,
    pub is_dir: bool,
    pub content: Option<String>,
}

/// A checked-out source tree as the extractor sees it: the entries down to
/// the third level below the root, in the order in which the tree was
/// walked.
#[derive(Debug, Clone, PartialEq)]
pub struct RepositorySnapshot {
    pub entries: Vec<TreeEntry>,
}

/// What an entry stands for.
pub struct EntryView {
    pub path: Seq<char>,
    pub is_file: bool,
    pub is_dir: bool,
    pub content: Option<Seq<char>>,
}

impl View for TreeEntry {
    type V = EntryView;

    open spec fn view(&self) -> EntryView {
        EntryView {
            path: self.path@,
            is_file: self.is_file,
            is_dir: self.is_dir,
            content: match self.content {
                Some(text) => Some(text@),
                None => None,
            },
        }
    }
}

impl View for RepositorySnapshot {
    type V = Seq<EntryView>;

    open spec fn view(&self) -> Seq<EntryView> {
        Seq::new(self.entries@.len(), |i: int| self.entries@[i]@)
    }
}

/// How often `c` occurs among the first `upto` characters of `s`.
pub open spec fn count_char(s: Seq<char>, c: char, upto: nat) -> nat
    decreases upto,
{
    if upto == 0 || upto > s.len() {
        0
    } else {
        count_char(s, c, (upto - 1) as nat) + (if s[upto - 1] == c {
            1nat
        } else {
            0nat
        })
    }
}

/// The level of a path below the root: the number of its components.
pub open spec fn depth_of(path: Seq<char>) -> nat {
    count_char(path, '/', path.len()) + 1
}

/// The last component of a path.
pub open spec fn file_name_of(path: Seq<char>) -> Seq<char> {
    path.skip(last_match(path, seq!['/']) + 1)
}

/// The names of the regular files among the first `upto` entries that lie
/// at most `max_depth` levels below the root.
pub open spec fn walked_names(entries: Seq<EntryView>, max_depth: nat, upto: nat) -> Seq<Seq<char>>
    decreases upto,
{
    if upto == 0 || upto > entries.len() {
        Seq::empty()
    } else {
        let before = walked_names(entries, max_depth, (upto - 1) as nat);
        let entry = entries[upto - 1];
        if entry.is_file && depth_of(entry.path) <= max_depth {
            before.push(file_name_of(entry.path))
        } else {
            before
        }
    }
}

/// The names of the files that classification looks at: those in the root
/// and in its immediate subdirectories.
pub open spec fn file_names(entries: Seq<EntryView>) -> Seq<Seq<char>> {
    walked_names(entries, 2, entries.len())
}

/// Whether the path has at most `max_depth` components.
pub(crate) fn within_depth(path: &Vec<char>, max_depth: usize) -> (r: bool)
    ensures
        r == (depth_of(path@) <= max_depth),
{
    if max_depth == 0 {
        return false;
    }
    let mut separators: usize = 0;
    let mut i: usize = 0;
    while i < path.len()
        invariant
            i <= path.len(),
            separators == count_char(path@, '/', i as nat),
            separators < max_depth,
            separators <= i,
        decreases path.len() - i,
    {
        if path[i] == '/' {
            if separators + 1 >= max_depth {
                proof {
                    lemma_count_char_grows(path@, '/', (i + 1) as nat, path@.len());
                }
                return false;
            }
            separators = separators + 1;
        }
        i = i + 1;
    }
    true
}

proof fn lemma_count_char_grows(s: Seq<char>, c: char, at: nat, upto: nat)
    requires
        at <= upto <= s.len(),
    ensures
        count_char(s, c, at) <= count_char(s, c, upto),
    decreases upto - at,
{
    if at < upto {
        lemma_count_char_grows(s, c, at, (upto - 1) as nat);
    }
}

/// The last component of a path.
pub(crate) fn file_name(path: &Vec<char>) -> (r: Vec<char>)
    ensures
        r@ == file_name_of(path@),
{
    let mut separator: Vec<char> = Vec::new();
    separator.push('/');
    assert(separator@ =~= seq!['/']);
    proof {
        lemma_last_match(path@, separator@);
    }
    match rfind(path, &separator) {
        Some(i) => {
            assert(crate::text::matches_at(path@, separator@, i as int));
            assert(separator@.len() == 1);
            let end: usize = path.len();
            assert(i + 1 <= end);
            copy_range(path, i + 1, end)
        },
        None => {
            assert(path@.skip(0) =~= path@);
            copy_range(path, 0, path.len())
        },
    }
}

/// The names of the regular files that lie at most `max_depth` levels
/// below the root, in walk order.
pub(crate) fn walked(snapshot: &RepositorySnapshot, max_depth: usize) -> (r: Vec<Vec<char>>)
    ensures
        r.deep_view() == walked_names(snapshot@, max_depth as nat, snapshot@.len()),
{
    let mut out: Vec<Vec<char>> = Vec::new();
    let mut i: usize = 0;
    assert(out.deep_view() =~= walked_names(snapshot@, max_depth as nat, 0));
    while i < snapshot.entries.len()
        invariant
            i <= snapshot.entries.len(),
            out.deep_view() == walked_names(snapshot@, max_depth as nat, i as nat),
        decreases snapshot.entries.len() - i,
    {
        let entry = &snapshot.entries[i];
        assert(snapshot@[i as int] == entry@);
        if entry.is_file {
            let path = to_chars(entry.path.as_str());
            if within_depth(&path, max_depth) {
                let name = file_name(&path);
                let ghost before = out@;
                let ghost before_view = out.deep_view();
                out.push(name);
                proof {
                    lemma_push_text(before, out@, name);
                }
                assert(out.deep_view() =~= before_view.push(name@));
            }
        }
        i = i + 1;
    }
    out
}

/// The names of the files in the root of the tree and in its immediate
/// subdirectories, in walk order.
pub fn collect_files(snapshot: &RepositorySnapshot) -> (r: Vec<String>)
    ensures
        r.deep_view() == file_names(snapshot@),
{
    let names = walked(snapshot, 2);
    let mut out: Vec<String> = Vec::new();
    let mut i: usize = 0;
    while i < names.len()
        invariant
            i <= names.len(),
            out@.len() == i,
            forall|j: int| 0 <= j < i ==> (#[trigger] out@[j])@ == names@[j]@,
        decreases names.len() - i,
    {
        out.push(from_chars(&names[i]));
        i = i + 1;
    }
    proof {
        broadcast use lemma_chars_deep_view;

        assert(out.deep_view() =~= names.deep_view());
    }
    out
}

/// What is asked of an entry at a path.
#[derive(Debug, Clone, Copy, PartialEq, Eq, Structural)]
pub enum Probe {
    /// That it exists.
    Any,
    /// That it is a directory.
    Directory,
    /// That it has text.
    Text,
}

/// The entry is what the probe asks for.
pub open spec fn answers(entry: EntryView, probe: Probe) -> bool {
    match probe {
        Probe::Any => true,
        Probe::Directory => entry.is_dir,
        Probe::Text => entry.content is Some,
    }
}

/// Position of the first entry at `path`, at or after `from`, that is what
/// the probe asks for, or `-1`.
pub open spec fn entry_at(entries: Seq<EntryView>, path: Seq<char>, probe: Probe, from: int) -> int
    decreases entries.len() - from,
{
    if from < 0 || from >= entries.len() {
        -1
    } else if entries[from].path == path && answers(entries[from], probe) {
        from
    } else {
        entry_at(entries, path, probe, from + 1)
    }
}

/// There is an entry at `path`.
pub open spec fn path_exists(entries: Seq<EntryView>, path: Seq<char>) -> bool {
    entry_at(entries, path, Probe::Any, 0) >= 0
}

/// There is a directory at `path`.
pub open spec fn directory_exists(entries: Seq<EntryView>, path: Seq<char>) -> bool {
    entry_at(entries, path, Probe::Directory, 0) >= 0
}

/// The text of the entry at `path`, when there is one that has text.
pub open spec fn text_at(entries: Seq<EntryView>, path: Seq<char>) -> Option<Seq<char>> {
    let i = entry_at(entries, path, Probe::Text, 0);
    if 0 <= i < entries.len() {
        entries[i].content
    } else {
        None
    }
}

/// Position of the first entry at `path` that is what the probe asks for.
pub(crate) fn find_entry(snapshot: &RepositorySnapshot, path: &str, probe: Probe) -> (r: Option<usize>)
    ensures
        match r {
            Some(i) => i as int == entry_at(snapshot@, path@, probe, 0) && i < snapshot.entries@.len(),
            None => entry_at(snapshot@, path@, probe, 0) == -1,
        },
{
    let wanted = to_chars(path);
    let mut i: usize = 0;
    while i < snapshot.entries.len()
        invariant
            i <= snapshot.entries.len(),
            wanted@ == path@,
            entry_at(snapshot@, path@, probe, 0) == entry_at(snapshot@, path@, probe, i as int),
        decreases snapshot.entries.len() - i,
    {
        let entry = &snapshot.entries[i];
        assert(snapshot@[i as int] == entry@);
        let here = to_chars(entry.path.as_str());
        if same_text(&here, &wanted) {
            let accepted = match probe {
                Probe::Any => true,
                Probe::Directory => entry.is_dir,
                Probe::Text => entry.content.is_some(),
            };
            if accepted {
                return Some(i);
            }
        }
        i = i + 1;
    }
    None
}

/// The string of the entry at `path`.
pub(crate) fn read_string<'a>(snapshot: &'a RepositorySnapshot, path: &str) -> (r: Option<&'a String>)
    ensures
        match r {
            Some(text) => text_at(snapshot@, path@) == Some(text@),
            None => text_at(snapshot@, path@) is None,
        },
{
    match find_entry(snapshot, path, Probe::Text) {
        Some(i) => {
            assert(snapshot@[i as int] == snapshot.entries@[i as int]@);
            match &snapshot.entries[i].content {
                Some(text) => Some(text),
                None => None,
            }
        },
        None => None,
    }
}

/// The file name has the extension `extension`: it ends with a dot and the
/// extension, and something stands before the dot.
pub open spec fn has_extension(name: Seq<char>, extension: Seq<char>) -> bool {
    name.len() > extension.len() + 1 && ends_with(name, seq!['.'] + extension)
}

/// Whether `name` has the extension `extension`.
pub(crate) fn with_extension(name: &Vec<char>, extension: &str) -> (r: bool)
    ensures
        r == has_extension(name@, extension@),
{
    let mut suffix: Vec<char> = Vec::new();
    suffix.push('.');
    crate::text::append_str(&mut suffix, extension);
    assert(suffix@ =~= seq!['.'] + extension@);
    name.len() > suffix.len() && has_suffix(name, &suffix)
}

/// Whether the file called `name` holds `keyword`: the first regular file
/// of that name with text, at most three levels below the root and at or
/// after position `from` of the walk, decides.
pub open spec fn keyword_in_file(entries: Seq<EntryView>, name: Seq<char>, keyword: Seq<char>, from: int) -> bool
    decreases entries.len() - from,
{
    if from < 0 || from >= entries.len() {
        false
    } else if entries[from].is_file && entries[from].content is Some && depth_of(entries[from].path)
        <= 3 && file_name_of(entries[from].path) == name {
        contains(entries[from].content->0, keyword)
    } else {
        keyword_in_file(entries, name, keyword, from + 1)
    }
}

/// Whether the file called `file_name` holds `keyword`. The first regular
/// file of that name that can be read, at most three levels below the
/// root, decides; without such a file the answer is no.
pub fn file_contains_keyword(snapshot: &RepositorySnapshot, file_name: &str, keyword: &str) -> (r: bool)
    ensures
        r == keyword_in_file(snapshot@, file_name@, keyword@, 0),
{
    let wanted = to_chars(file_name);
    let word = to_chars(keyword);
    keyword_in_named(snapshot, &wanted, &word)
}

pub(crate) fn keyword_in_named(snapshot: &RepositorySnapshot, wanted: &Vec<char>, word: &Vec<char>) -> (r: bool)
    ensures
        r == keyword_in_file(snapshot@, wanted@, word@, 0),
{
    let mut i: usize = 0;
    while i < snapshot.entries.len()
        invariant
            i <= snapshot.entries.len(),
            keyword_in_file(snapshot@, wanted@, word@, 0) == keyword_in_file(
                snapshot@,
                wanted@,
                word@,
                i as int,
            ),
        decreases snapshot.entries.len() - i,
    {
        let entry = &snapshot.entries[i];
        assert(snapshot@[i as int] == entry@);
        if entry.is_file {
            match &entry.content {
                Some(content) => {
                    let path = to_chars(entry.path.as_str());
                    if within_depth(&path, 3) {
                        let name = file_name(&path);
                        if same_text(&name, wanted) {
                            let text = to_chars(content.as_str());
                            return has_match(&text, word);
                        }
                    }
                },
                None => {},
            }
        }
        i = i + 1;
    }
    false
}

} // verus!
