//! Classification by presence: package manager, application type, static
//! files and migrations.

use vstd::prelude::*;
use crate::dependencies::{manifest_dependencies, npm_dependencies};
use crate::names::{has_name, to_texts};
use crate::nlp::ApplicationType;
use crate::repository::PackageManager;
use crate::text::{ends_with, has_suffix, lemma_chars_deep_view, to_chars};
use crate::tree::{
    EntryView, Probe, RepositorySnapshot, directory_exists, file_names, find_entry, keyword_in_file,
    keyword_in_named, path_exists, read_string, text_at, walked,
};

verus! {

/// The package-manager chain: the first manifest that is present decides.
pub open spec fn package_manager_of(files: Seq<Seq<char>>) -> PackageManager {
    if files.contains("requirements.txt"@) || files.contains("Pipfile"@) {
        PackageManager::Pip
    } else if files.contains("yarn.lock"@) {
        PackageManager::Yarn
    } else if files.contains("package.json"@) {
        PackageManager::Npm
    } else if files.contains("pom.xml"@) {
        PackageManager::Maven
    } else if files.contains("build.gradle"@) {
        PackageManager::Gradle
    } else if files.contains("Gemfile"@) {
        PackageManager::Bundler
    } else if files.contains("composer.json"@) {
        PackageManager::Composer
    } else {
        PackageManager::Unknown
    }
}

fn package_manager_among(files: &Vec<Vec<char>>) -> (r: PackageManager)
    ensures
        r == package_manager_of(files.deep_view()),
{
    if has_name(files, "requirements.txt") || has_name(files, "Pipfile") {
        PackageManager::Pip
    } else if has_name(files, "yarn.lock") {
        PackageManager::Yarn
    } else if has_name(files, "package.json") {
        PackageManager::Npm
    } else if has_name(files, "pom.xml") {
        PackageManager::Maven
    } else if has_name(files, "build.gradle") {
        PackageManager::Gradle
    } else if has_name(files, "Gemfile") {
        PackageManager::Bundler
    } else if has_name(files, "composer.json") {
        PackageManager::Composer
    } else {
        PackageManager::Unknown
    }
}

/// The package manager of the tree, by the manifests that are present: pip
/// before yarn before npm before Maven before Gradle before Bundler before
/// Composer.
pub fn detect_package_manager(snapshot: &RepositorySnapshot) -> (r: PackageManager)
    ensures
        r == package_manager_of(file_names(snapshot@)),
{
    let files = walked(snapshot, 2);
    package_manager_among(&files)
}

/// The candidates for a directory of static files, in priority order.
pub open spec fn static_candidates() -> Seq<Seq<char>> {
    seq!["static"@, "public"@, "assets"@, "dist"@, "build"@]
}

/// The first of the candidates at or after `from` that is a directory of
/// the tree.
pub open spec fn first_directory(entries: Seq<EntryView>, candidates: Seq<Seq<char>>, from: int) -> Option<
    Seq<char>,
>
    decreases candidates.len() - from,
{
    if from < 0 || from >= candidates.len() {
        None
    } else if directory_exists(entries, candidates[from]) {
        Some(candidates[from])
    } else {
        first_directory(entries, candidates, from + 1)
    }
}

/// The directory of static files: the first of `static`, `public`,
/// `assets`, `dist` and `build` that is a directory in the root of the
/// tree.
pub fn detect_static_files(snapshot: &RepositorySnapshot) -> (r: Option<String>)
    ensures
        r.deep_view() == first_directory(snapshot@, static_candidates(), 0),
{
    let mut candidates: Vec<&str> = Vec::new();
    candidates.push("static");
    candidates.push("public");
    candidates.push("assets");
    candidates.push("dist");
    candidates.push("build");
    assert(Seq::new(candidates@.len(), |i: int| candidates@[i]@) =~= static_candidates());
    let mut i: usize = 0;
    while i < candidates.len()
        invariant
            i <= candidates.len(),
            Seq::new(candidates@.len(), |i: int| candidates@[i]@) == static_candidates(),
            first_directory(snapshot@, static_candidates(), 0) == first_directory(
                snapshot@,
                static_candidates(),
                i as int,
            ),
        decreases candidates.len() - i,
    {
        assert(static_candidates()[i as int] == candidates@[i as int]@);
        if find_entry(snapshot, candidates[i], Probe::Directory).is_some() {
            return Some(candidates[i].to_string());
        }
        i = i + 1;
    }
    None
}

/// The names that indicate database migrations.
pub open spec fn migration_indicators() -> Seq<Seq<char>> {
    seq!["migrations"@, "migrate"@, "alembic"@, "db/migrate"@]
}

/// One of the first `upto` indicators is an entry of the tree.
pub open spec fn any_path_exists(entries: Seq<EntryView>, paths: Seq<Seq<char>>, upto: nat) -> bool
    decreases upto,
{
    if upto == 0 || upto > paths.len() {
        false
    } else {
        any_path_exists(entries, paths, (upto - 1) as nat) || path_exists(entries, paths[upto - 1])
    }
}

/// Whether the tree has database migrations: whether `migrations`,
/// `migrate`, `alembic` or `db/migrate` exists in it.
pub fn detect_database_migrations(snapshot: &RepositorySnapshot) -> (r: bool)
    ensures
        r == any_path_exists(snapshot@, migration_indicators(), migration_indicators().len()),
{
    let a = find_entry(snapshot, "migrations", Probe::Any).is_some();
    let b = find_entry(snapshot, "migrate", Probe::Any).is_some();
    let c = find_entry(snapshot, "alembic", Probe::Any).is_some();
    let d = find_entry(snapshot, "db/migrate", Probe::Any).is_some();
    proof {
        let m = migration_indicators();
        assert(m.len() == 4);
        reveal_with_fuel(any_path_exists, 5);
        assert(any_path_exists(snapshot@, m, 4) == (a || b || c || d));
    }
    a || b || c || d
}

/// One of the names ends with `suffix`.
pub open spec fn any_name_ends_with(names: Seq<Seq<char>>, suffix: Seq<char>) -> bool {
    exists|i: int| 0 <= i < names.len() && ends_with(#[trigger] names[i], suffix)
}

/// One of the named files holds `keyword`.
pub open spec fn any_file_holds(entries: Seq<EntryView>, names: Seq<Seq<char>>, keyword: Seq<char>) -> bool {
    exists|i: int| 0 <= i < names.len() && keyword_in_file(entries, #[trigger] names[i], keyword, 0)
}

/// The tree looks like a Python project: it has a pip manifest or a file
/// that ends in `.py`.
pub open spec fn is_python_tree(names: Seq<Seq<char>>) -> bool {
    names.contains("requirements.txt"@) || names.contains("Pipfile"@) || any_name_ends_with(
        names,
        ".py"@,
    )
}

/// The application type that the dependency names of a package manifest
/// give: React before Next.js before Express, and plain Node.js otherwise.
pub open spec fn manifest_type(dependencies: Seq<Seq<char>>) -> ApplicationType {
    if dependencies.contains("react"@) {
        ApplicationType::React
    } else if dependencies.contains("next"@) {
        ApplicationType::NextJS
    } else if dependencies.contains("express"@) {
        ApplicationType::Express
    } else {
        ApplicationType::NodeJS
    }
}

/// The classification of a tree, the first match deciding: a Python tree
/// in which a file holds the import token `Flask`, `Django` or `FastAPI`,
/// in that order; a tree with a readable `package.json`, by its dependency
/// names; a tree with a `Gemfile`; a tree with `pom.xml` or `build.gradle`;
/// anything else is unknown. The name of a file alone classifies nothing.
pub open spec fn application_type_of(entries: Seq<EntryView>) -> ApplicationType {
    let names = file_names(entries);
    if is_python_tree(names) && any_file_holds(entries, names, "Flask"@) {
        ApplicationType::Flask
    } else if is_python_tree(names) && any_file_holds(entries, names, "Django"@) {
        ApplicationType::Django
    } else if is_python_tree(names) && any_file_holds(entries, names, "FastAPI"@) {
        ApplicationType::FastAPI
    } else if names.contains("package.json"@) && text_at(entries, "package.json"@) is Some {
        manifest_type(npm_dependencies(text_at(entries, "package.json"@)->0))
    } else if names.contains("Gemfile"@) {
        ApplicationType::Rails
    } else if names.contains("pom.xml"@) || names.contains("build.gradle"@) {
        ApplicationType::Spring
    } else {
        ApplicationType::Unknown
    }
}

/// The application type that the dependency names of a package manifest
/// give.
pub fn classify_manifest(dependencies: &Vec<String>) -> (r: ApplicationType)
    ensures
        r == manifest_type(dependencies.deep_view()),
{
    let names = to_texts(dependencies);
    if has_name(&names, "react") {
        ApplicationType::React
    } else if has_name(&names, "next") {
        ApplicationType::NextJS
    } else if has_name(&names, "express") {
        ApplicationType::Express
    } else {
        ApplicationType::NodeJS
    }
}

/// Whether one of `names` ends with `suffix`.
fn some_name_ends_with(names: &Vec<Vec<char>>, suffix: &str) -> (r: bool)
    ensures
        r == any_name_ends_with(names.deep_view(), suffix@),
{
    broadcast use lemma_chars_deep_view;

    let ending = to_chars(suffix);
    let mut i: usize = 0;
    while i < names.len()
        invariant
            i <= names.len(),
            ending@ == suffix@,
            forall|j: int| 0 <= j < i ==> !ends_with(#[trigger] names.deep_view()[j], suffix@),
        decreases names.len() - i,
    {
        assert(names.deep_view()[i as int] == names@[i as int]@);
        if has_suffix(&names[i], &ending) {
            return true;
        }
        i = i + 1;
    }
    false
}

/// Whether one of the files called as in `names` holds `keyword`.
fn some_file_holds(snapshot: &RepositorySnapshot, names: &Vec<Vec<char>>, keyword: &str) -> (r: bool)
    ensures
        r == any_file_holds(snapshot@, names.deep_view(), keyword@),
{
    broadcast use lemma_chars_deep_view;

    let word = to_chars(keyword);
    let mut i: usize = 0;
    while i < names.len()
        invariant
            i <= names.len(),
            word@ == keyword@,
            forall|j: int|
                0 <= j < i ==> !keyword_in_file(snapshot@, #[trigger] names.deep_view()[j], keyword@, 0),
        decreases names.len() - i,
    {
        assert(names.deep_view()[i as int] == names@[i as int]@);
        if keyword_in_named(snapshot, &names[i], &word) {
            return true;
        }
        i = i + 1;
    }
    false
}

/// The application type of the tree.
pub fn detect_application_type(snapshot: &RepositorySnapshot) -> (r: ApplicationType)
    ensures
        r == application_type_of(snapshot@),
{
    let names = walked(snapshot, 2);
    let python = has_name(&names, "requirements.txt") || has_name(&names, "Pipfile")
        || some_name_ends_with(&names, ".py");
    if python {
        if some_file_holds(snapshot, &names, "Flask") {
            return ApplicationType::Flask;
        } else if some_file_holds(snapshot, &names, "Django") {
            return ApplicationType::Django;
        } else if some_file_holds(snapshot, &names, "FastAPI") {
            return ApplicationType::FastAPI;
        }
    }
    if has_name(&names, "package.json") {
        match read_string(snapshot, "package.json") {
            Some(document) => {
                let dependencies = manifest_dependencies(document.as_str());
                return classify_manifest(&dependencies);
            },
            None => {},
        }
    }
    if has_name(&names, "Gemfile") {
        return ApplicationType::Rails;
    }
    if has_name(&names, "pom.xml") || has_name(&names, "build.gradle") {
        return ApplicationType::Spring;
    }
    ApplicationType::Unknown
}

} // verus!
