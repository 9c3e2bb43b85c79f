//! The variables that the environment files of a tree set.

use vstd::prelude::*;
use crate::names::{distinct, push_text, to_strings, unique};
use crate::text::{
    before_first, contains, has_match, has_prefix, lemma_chars_deep_view, lines, prefix_before,
    split_lines, starts_with, to_chars, trim, trimmed,
};
use crate::tree::{EntryView, RepositorySnapshot, read_string, text_at};

verus! {

/// The variable that a line of an environment file sets: the name that
/// stands before the first `=`, without the white space around it. A
/// blank line, a comment line, a line without `=` and a line with nothing
/// before the `=` set none.
pub open spec fn env_name_of(line: Seq<char>) -> Option<Seq<char>> {
    let t = trim(line);
    let name = trim(before_first(t, seq!['=']));
    if !starts_with(t, seq!['#']) && contains(t, seq!['=']) && name.len() > 0 {
        Some(name)
    } else {
        None
    }
}

/// The variables that the first `upto` lines set.
pub open spec fn env_names(all: Seq<Seq<char>>, upto: nat) -> Seq<Seq<char>>
    decreases upto,
{
    if upto == 0 || upto > all.len() {
        Seq::empty()
    } else {
        let before = env_names(all, (upto - 1) as nat);
        match env_name_of(all[upto - 1]) {
            Some(name) => before.push(name),
            None => before,
        }
    }
}

/// The variables that the environment file at `path` sets, none when the
/// tree has no such file with text.
pub open spec fn env_names_in(entries: Seq<EntryView>, path: Seq<char>) -> Seq<Seq<char>> {
    match text_at(entries, path) {
        Some(content) => env_names(lines(content), lines(content).len()),
        None => Seq::empty(),
    }
}

/// The names of the variables that the environment files of the tree set:
/// those of `.env`, then those of `.env.example`, then those of
/// `.env.template`, each name once.
pub open spec fn environment_variables_of(entries: Seq<EntryView>) -> Seq<Seq<char>> {
    let all = env_names_in(entries, ".env"@) + env_names_in(entries, ".env.example"@) + env_names_in(
        entries,
        ".env.template"@,
    );
    distinct(all, all.len())
}

/// Appends the variables that the environment file at `path` sets.
fn env_names_into(out: &mut Vec<Vec<char>>, snapshot: &RepositorySnapshot, path: &str)
    ensures
        final(out).deep_view() == old(out).deep_view() + env_names_in(snapshot@, path@),
{
    broadcast use lemma_chars_deep_view;

    match read_string(snapshot, path) {
        Some(content) => {
            let chars = to_chars(content.as_str());
            let all = split_lines(&chars);
            let mut hash: Vec<char> = Vec::new();
            hash.push('#');
            assert(hash@ =~= seq!['#']);
            let mut equals: Vec<char> = Vec::new();
            equals.push('=');
            assert(equals@ =~= seq!['=']);
            let mut i: usize = 0;
            assert(out.deep_view() =~= old(out).deep_view() + env_names(all.deep_view(), 0));
            while i < all.len()
                invariant
                    i <= all.len(),
                    hash@ == seq!['#'],
                    equals@ == seq!['='],
                    out.deep_view() == old(out).deep_view() + env_names(all.deep_view(), i as nat),
                decreases all.len() - i,
            {
                assert(all.deep_view()[i as int] == all@[i as int]@);
                let line = trimmed(&all[i]);
                if !has_prefix(&line, &hash) && has_match(&line, &equals) {
                    let name = trimmed(&prefix_before(&line, &equals));
                    if name.len() > 0 {
                        push_text(out, name);
                        assert(out.deep_view() =~= old(out).deep_view() + env_names(
                            all.deep_view(),
                            (i + 1) as nat,
                        ));
                    }
                }
                i = i + 1;
            }
        },
        None => {
            assert(out.deep_view() =~= old(out).deep_view() + Seq::<Seq<char>>::empty());
        },
    }
}

pub fn extract_environment_variables(snapshot: &RepositorySnapshot) -> (r: Vec<String>)
    ensures
        r.deep_view() == environment_variables_of(snapshot@),
{
    let mut all: Vec<Vec<char>> = Vec::new();
    assert(all.deep_view() =~= Seq::<Seq<char>>::empty());
    env_names_into(&mut all, snapshot, ".env");
    env_names_into(&mut all, snapshot, ".env.example");
    env_names_into(&mut all, snapshot, ".env.template");
    assert(all.deep_view() =~= env_names_in(snapshot@, ".env"@) + env_names_in(
        snapshot@,
        ".env.example"@,
    ) + env_names_in(snapshot@, ".env.template"@));
    let names = unique(&all);
    to_strings(&names)
}

} // verus!
