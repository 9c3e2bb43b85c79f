//! The dependencies that the manifests of a tree name.

use vstd::prelude::*;
use vstd::utf8::encode_utf8;
use crate::json::{member_document, member_names, member_of_document, names_in_document};
use crate::names::{distinct, lemma_distinct, to_strings, to_texts, unique};
use crate::repository::PackageManager;
use crate::text::{
    contains, copy_range, has_prefix, is_match_at, lemma_chars_deep_view,
    lemma_contains_in_subrange, lemma_push_text, lemma_trim_is_subrange, lemma_trim_is_trimmed,
    lines, matches_at, split_lines, starts_with, to_chars, trim, trimmed,
};
use crate::tree::{EntryView, RepositorySnapshot, read_string, text_at};

verus! {

/// The version operators of a requirement line.
pub open spec fn version_operators() -> Seq<Seq<char>> {
    seq![">="@, "<="@, "~="@, "=="@, ">"@, "<"@]
}

/// Whether one of the version operators begins at position `i` of `line`.
pub open spec fn operator_at(line: Seq<char>, i: int) -> bool {
    exists|k: int|
        0 <= k < version_operators().len() && matches_at(line, #[trigger] version_operators()[k], i)
}

/// The leftmost position at or after `from` at which a version operator
/// begins; the length of the line when none begins there or further right.
pub open spec fn operator_start(line: Seq<char>, from: int) -> int
    decreases line.len() - from,
{
    if from < 0 || from >= line.len() {
        line.len() as int
    } else if operator_at(line, from) {
        from
    } else {
        operator_start(line, from + 1)
    }
}

/// The package name of a requirement line: what stands left of the
/// leftmost version operator, without white space around it; the whole
/// line, without white space around it, when it holds no operator.
pub open spec fn dependency_name(line: Seq<char>) -> Seq<char> {
    trim(line.take(operator_start(line, 0)))
}

/// A line of a requirements file that names a package: without the white
/// space around it, it is not empty and does not begin with `#`. Blank
/// lines and comment lines, indented or not, name nothing.
pub open spec fn is_requirement(line: Seq<char>) -> bool {
    trim(line).len() > 0 && !starts_with(trim(line), seq!['#'])
}

/// The package names of the first `upto` lines.
pub open spec fn requirement_names(all: Seq<Seq<char>>, upto: nat) -> Seq<Seq<char>>
    decreases upto,
{
    if upto == 0 || upto > all.len() {
        Seq::empty()
    } else {
        let before = requirement_names(all, (upto - 1) as nat);
        if is_requirement(all[upto - 1]) {
            before.push(dependency_name(all[upto - 1]))
        } else {
            before
        }
    }
}

/// The dependencies that a requirements file names.
pub open spec fn pip_dependencies(content: Seq<char>) -> Seq<Seq<char>> {
    let names = requirement_names(lines(content), lines(content).len());
    distinct(names, names.len())
}

/// Whether `s` holds one of the version operators.
pub open spec fn holds_operator(s: Seq<char>) -> bool {
    exists|k: int| 0 <= k < version_operators().len() && contains(s, #[trigger] version_operators()[k])
}

/// A name as the library hands it out: it holds no version operator and
/// has no white space at either end.
pub open spec fn is_bare_name(name: Seq<char>) -> bool {
    !holds_operator(name) && trim(name) == name
}

/// No version operator begins between `from` and the position that
/// `operator_start` gives, and one begins at that position unless it is
/// the end of the line.
pub proof fn lemma_operator_start(line: Seq<char>, from: int)
    requires
        0 <= from <= line.len(),
    ensures
        from <= operator_start(line, from) <= line.len(),
        forall|j: int| from <= j < operator_start(line, from) ==> !operator_at(line, j),
        operator_start(line, from) < line.len() ==> operator_at(line, operator_start(line, from)),
    decreases line.len() - from,
{
    if from < line.len() && !operator_at(line, from) {
        lemma_operator_start(line, from + 1);
    }
}

/// Stripped dependency names hold no version operator, whatever the line.
pub proof fn lemma_stripped_name_has_no_operator(line: Seq<char>)
    ensures
        !holds_operator(dependency_name(line)),
{
    let cut = operator_start(line, 0);
    let head = line.take(cut);
    lemma_operator_start(line, 0);
    if holds_operator(dependency_name(line)) {
        let k = choose|k: int|
            0 <= k < version_operators().len() && contains(
                dependency_name(line),
                #[trigger] version_operators()[k],
            );
        let operator = version_operators()[k];
        lemma_trim_is_subrange(head);
        let (a, b) = choose|a: int, b: int|
            0 <= a <= b <= head.len() && trim(head) == #[trigger] head.subrange(a, b);
        lemma_contains_in_subrange(head, a, b, operator);
        let m = choose|m: int| matches_at(head, operator, m);
        reveal_strlit(">=");
        reveal_strlit("<=");
        reveal_strlit("~=");
        reveal_strlit("==");
        reveal_strlit(">");
        reveal_strlit("<");
        assert(operator.len() > 0);
        assert(head.subrange(m, m + operator.len()) =~= line.subrange(m, m + operator.len()));
        assert(matches_at(line, operator, m));
        assert(operator_at(line, m));
        assert(m < cut);
    }
}

/// Stripped dependency names have no white space at either end.
pub proof fn lemma_stripped_name_is_trimmed(line: Seq<char>)
    ensures
        trim(dependency_name(line)) == dependency_name(line),
{
    lemma_trim_is_trimmed(line.take(operator_start(line, 0)));
}

/// Every name among the first `upto` lines is a bare name.
pub proof fn lemma_requirement_names_are_bare(all: Seq<Seq<char>>, upto: nat)
    ensures
        forall|i: int|
            0 <= i < requirement_names(all, upto).len() ==> is_bare_name(
                #[trigger] requirement_names(all, upto)[i],
            ),
    decreases upto,
{
    if upto > 0 && upto <= all.len() {
        let before = requirement_names(all, (upto - 1) as nat);
        let names = requirement_names(all, upto);
        lemma_requirement_names_are_bare(all, (upto - 1) as nat);
        lemma_stripped_name_has_no_operator(all[upto - 1]);
        lemma_stripped_name_is_trimmed(all[upto - 1]);
        assert forall|i: int| 0 <= i < names.len() implies is_bare_name(#[trigger] names[i]) by {
            if i < before.len() {
                assert(names[i] == before[i]);
            }
        }
    }
}

/// Every dependency that a requirements file names is a bare name: it
/// holds none of the version operators and no white space at either end,
/// whatever the file holds.
pub proof fn lemma_pip_dependencies_are_bare(content: Seq<char>)
    ensures
        forall|i: int|
            0 <= i < pip_dependencies(content).len() ==> is_bare_name(
                #[trigger] pip_dependencies(content)[i],
            ),
{
    let names = requirement_names(lines(content), lines(content).len());
    let listed = pip_dependencies(content);
    lemma_requirement_names_are_bare(lines(content), lines(content).len());
    lemma_distinct(names, names.len());
    assert forall|i: int| 0 <= i < listed.len() implies is_bare_name(#[trigger] listed[i]) by {
        assert(listed.contains(listed[i]));
        assert(names.take(names.len() as int) =~= names);
        assert(names.contains(listed[i]));
        let j = choose|j: int| 0 <= j < names.len() && names[j] == listed[i];
        assert(is_bare_name(names[j]));
    }
}

/// The six version operators as texts.
fn operator_texts() -> (r: Vec<Vec<char>>)
    ensures
        r.deep_view() == version_operators(),
{
    broadcast use lemma_chars_deep_view;

    let mut operators: Vec<Vec<char>> = Vec::new();
    operators.push(to_chars(">="));
    operators.push(to_chars("<="));
    operators.push(to_chars("~="));
    operators.push(to_chars("=="));
    operators.push(to_chars(">"));
    operators.push(to_chars("<"));
    assert(operators.deep_view() =~= version_operators());
    operators
}

/// Whether one of the version operators begins at position `i` of `line`.
fn begins_operator(line: &Vec<char>, operators: &Vec<Vec<char>>, i: usize) -> (r: bool)
    requires
        operators.deep_view() == version_operators(),
    ensures
        r == operator_at(line@, i as int),
{
    broadcast use lemma_chars_deep_view;

    let mut k: usize = 0;
    while k < operators.len()
        invariant
            k <= operators.len(),
            operators.deep_view() == version_operators(),
            forall|j: int| 0 <= j < k ==> !matches_at(line@, #[trigger] version_operators()[j], i as int),
        decreases operators.len() - k,
    {
        assert(operators.deep_view()[k as int] == operators@[k as int]@);
        if is_match_at(line, &operators[k], i) {
            return true;
        }
        k = k + 1;
    }
    false
}

/// The package name of one requirement line.
fn strip_version(line: &Vec<char>) -> (r: Vec<char>)
    ensures
        r@ == dependency_name(line@),
{
    let operators = operator_texts();
    let mut cut: usize = 0;
    while cut < line.len() && !begins_operator(line, &operators, cut)
        invariant
            cut <= line.len(),
            operators.deep_view() == version_operators(),
            operator_start(line@, 0) == operator_start(line@, cut as int),
        decreases line.len() - cut,
    {
        cut = cut + 1;
    }
    let head = copy_range(line, 0, cut);
    assert(head@ =~= line@.take(cut as int));
    trimmed(&head)
}

/// The dependencies that a requirements file names, each once.
pub fn requirement_dependencies(content: &str) -> (r: Vec<String>)
    ensures
        r.deep_view() == pip_dependencies(content@),
        forall|i: int| 0 <= i < r.deep_view().len() ==> is_bare_name(#[trigger] r.deep_view()[i]),
{
    broadcast use lemma_chars_deep_view;

    let chars = to_chars(content);
    let all = split_lines(&chars);
    let mut names: Vec<Vec<char>> = Vec::new();
    let mut hash: Vec<char> = Vec::new();
    hash.push('#');
    assert(hash@ =~= seq!['#']);
    let mut i: usize = 0;
    assert(names.deep_view() =~= requirement_names(all.deep_view(), 0));
    while i < all.len()
        invariant
            i <= all.len(),
            hash@ == seq!['#'],
            names.deep_view() == requirement_names(all.deep_view(), i as nat),
        decreases all.len() - i,
    {
        assert(all.deep_view()[i as int] == all@[i as int]@);
        let line = &all[i];
        let bare = trimmed(line);
        if bare.len() > 0 && !has_prefix(&bare, &hash) {
            let name = strip_version(line);
            let ghost before = names@;
            let ghost before_view = names.deep_view();
            names.push(name);
            proof {
                lemma_push_text(before, names@, name);
            }
            assert(names.deep_view() =~= before_view.push(name@));
        }
        i = i + 1;
    }
    let distinct_names = unique(&names);
    let listed = to_strings(&distinct_names);
    proof {
        lemma_pip_dependencies_are_bare(content@);
        assert(listed.deep_view() == pip_dependencies(content@));
    }
    listed
}

/// The names of the members of the member `member` of a document, in the
/// order in which its map yields them. `None` when the document is no map,
/// when it has no such member, or when that member is no map.
pub open spec fn object_keys_in(document: Seq<u8>, member: Seq<char>) -> Option<Seq<Seq<char>>> {
    match member_document(document, member) {
        Some(entry) => member_names(entry),
        None => None,
    }
}

/// The names of the members of one member of a JSON document.
pub fn keys_of_member(document: &[u8], member: &str) -> (r: Option<Vec<String>>)
    ensures
        r.deep_view() == object_keys_in(document@, member@),
{
    match member_of_document(document, member) {
        Some(entry) => names_in_document(entry.as_slice()),
        None => None,
    }
}

/// The names in an answer of `object_keys_in`, none when there is no
/// answer.
pub open spec fn keys_or_none(keys: Option<Seq<Seq<char>>>) -> Seq<Seq<char>> {
    match keys {
        Some(names) => names,
        None => Seq::empty(),
    }
}

/// The union of the names of runtime and development dependencies: the
/// runtime names first, each name once.
pub open spec fn merged_keys(dependencies: Option<Seq<Seq<char>>>, dev_dependencies: Option<Seq<Seq<char>>>) -> Seq<
    Seq<char>,
> {
    let all = keys_or_none(dependencies) + keys_or_none(dev_dependencies);
    distinct(all, all.len())
}

/// The dependencies that a package manifest names.
pub open spec fn npm_dependencies(document: Seq<char>) -> Seq<Seq<char>> {
    merged_keys(
        object_keys_in(encode_utf8(document), "dependencies"@),
        object_keys_in(encode_utf8(document), "devDependencies"@),
    )
}

/// The union of the names of runtime and development dependencies.
pub fn merge_dependency_keys(
    dependencies: &Option<Vec<String>>,
    dev_dependencies: &Option<Vec<String>>,
) -> (r: Vec<String>)
    ensures
        r.deep_view() == merged_keys(dependencies.deep_view(), dev_dependencies.deep_view()),
{
    broadcast use lemma_chars_deep_view;

    let mut all: Vec<Vec<char>> = Vec::new();
    assert(all.deep_view() =~= Seq::<Seq<char>>::empty());
    match dependencies {
        Some(names) => {
            all = to_texts(names);
        },
        None => {},
    }
    assert(all.deep_view() == keys_or_none(dependencies.deep_view()));
    match dev_dependencies {
        Some(names) => {
            let more = to_texts(names);
            let mut i: usize = 0;
            let ghost first = all.deep_view();
            while i < more.len()
                invariant
                    i <= more.len(),
                    all.deep_view() == first + more.deep_view().take(i as int),
                decreases more.len() - i,
            {
                let item = copy_range(&more[i], 0, more[i].len());
                assert(item@ =~= more@[i as int]@);
                let ghost before = all@;
                let ghost before_view = all.deep_view();
                all.push(item);
                proof {
                    lemma_push_text(before, all@, item);
                    assert(more.deep_view()[i as int] == more@[i as int]@);
                    assert(more.deep_view().take(i + 1) =~= more.deep_view().take(i as int).push(
                        item@,
                    ));
                }
                assert(all.deep_view() =~= first + more.deep_view().take(i + 1));
                i = i + 1;
            }
            assert(more.deep_view().take(more@.len() as int) =~= more.deep_view());
        },
        None => {
            assert(all.deep_view() + Seq::<Seq<char>>::empty() =~= all.deep_view());
        },
    }
    let distinct_names = unique(&all);
    to_strings(&distinct_names)
}

/// The dependencies that a package manifest names, each once.
pub fn manifest_dependencies(document: &str) -> (r: Vec<String>)
    ensures
        r.deep_view() == npm_dependencies(document@),
{
    let bytes = document.as_bytes();
    let dependencies = keys_of_member(bytes, "dependencies");
    let dev_dependencies = keys_of_member(bytes, "devDependencies");
    merge_dependency_keys(&dependencies, &dev_dependencies)
}

/// The dependencies of a tree under a package manager: for pip the names
/// in `requirements.txt`, for npm and yarn the names in `package.json`,
/// none for the others or when the manifest has no text.
pub open spec fn dependencies_of(entries: Seq<EntryView>, package_manager: PackageManager) -> Seq<
    Seq<char>,
> {
    match package_manager {
        PackageManager::Pip => match text_at(entries, "requirements.txt"@) {
            Some(content) => pip_dependencies(content),
            None => Seq::empty(),
        },
        PackageManager::Npm | PackageManager::Yarn => match text_at(entries, "package.json"@) {
            Some(document) => npm_dependencies(document),
            None => Seq::empty(),
        },
        _ => Seq::empty(),
    }
}

pub fn extract_dependencies(snapshot: &RepositorySnapshot, package_manager: &PackageManager) -> (r:
    Vec<String>)
    ensures
        r.deep_view() == dependencies_of(snapshot@, *package_manager),
{
    match package_manager {
        PackageManager::Pip => match read_string(snapshot, "requirements.txt") {
            Some(content) => requirement_dependencies(content.as_str()),
            None => {
                let r: Vec<String> = Vec::new();
                assert(r.deep_view() =~= Seq::<Seq<char>>::empty());
                r
            },
        },
        PackageManager::Npm | PackageManager::Yarn => match read_string(snapshot, "package.json") {
            Some(document) => manifest_dependencies(document.as_str()),
            None => {
                let r: Vec<String> = Vec::new();
                assert(r.deep_view() =~= Seq::<Seq<char>>::empty());
                r
            },
        },
        _ => {
            let r: Vec<String> = Vec::new();
            assert(r.deep_view() =~= Seq::<Seq<char>>::empty());
            r
        },
    }
}

} // verus!
