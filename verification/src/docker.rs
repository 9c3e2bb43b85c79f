//! What a Dockerfile declares.

use vstd::prelude::*;
use crate::names::{push_text, to_strings};
use crate::text::{
    has_prefix, lemma_chars_deep_view, lines, parse_u16, parsed_u16, second_token, second_word,
    split_lines, starts_with, to_chars, trim, trim_char, trimmed, trimmed_of,
};
use crate::tree::{EntryView, RepositorySnapshot, read_string, text_at};

verus! {

/// What a Dockerfile declares.
#[derive(Debug, Clone, PartialEq)]
pub struct DockerConfig {
    pub dockerfile_path: String,
    pub exposed_ports: Vec<u16>,
    pub volumes: Vec<String>,
}

/// What a Dockerfile declares, as plain values.
pub struct DockerView {
    pub dockerfile_path: Seq<char>,
    pub exposed_ports: Seq<u16>,
    pub volumes: Seq<Seq<char>>,
}

impl View for DockerConfig {
    type V = DockerView;

    open spec fn view(&self) -> DockerView {
        DockerView {
            dockerfile_path: self.dockerfile_path@,
            exposed_ports: self.exposed_ports@,
            volumes: self.volumes.deep_view(),
        }
    }
}

/// The port that a Dockerfile line exposes: the second token of an
/// `EXPOSE` line, when it reads as an unsigned 16-bit number.
pub open spec fn exposed_port_of(line: Seq<char>) -> Option<u16> {
    let t = trim(line);
    if starts_with(t, "EXPOSE"@) {
        match second_token(t) {
            Some(token) => parsed_u16(token),
            None => None,
        }
    } else {
        None
    }
}

/// The volume that a Dockerfile line declares: the second token of a
/// `VOLUME` line, without the double quotes around it.
pub open spec fn volume_of(line: Seq<char>) -> Option<Seq<char>> {
    let t = trim(line);
    if !starts_with(t, "EXPOSE"@) && starts_with(t, "VOLUME"@) {
        match second_token(t) {
            Some(token) => Some(trim_char(token, '"')),
            None => None,
        }
    } else {
        None
    }
}

/// The ports that the first `upto` lines expose.
pub open spec fn docker_ports(all: Seq<Seq<char>>, upto: nat) -> Seq<u16>
    decreases upto,
{
    if upto == 0 || upto > all.len() {
        Seq::empty()
    } else {
        let before = docker_ports(all, (upto - 1) as nat);
        match exposed_port_of(all[upto - 1]) {
            Some(port) => before.push(port),
            None => before,
        }
    }
}

/// The volumes that the first `upto` lines declare.
pub open spec fn docker_volumes(all: Seq<Seq<char>>, upto: nat) -> Seq<Seq<char>>
    decreases upto,
{
    if upto == 0 || upto > all.len() {
        Seq::empty()
    } else {
        let before = docker_volumes(all, (upto - 1) as nat);
        match volume_of(all[upto - 1]) {
            Some(volume) => before.push(volume),
            None => before,
        }
    }
}

/// What the text of a Dockerfile declares.
pub open spec fn docker_config_of(content: Seq<char>) -> DockerView {
    DockerView {
        dockerfile_path: "Dockerfile"@,
        exposed_ports: docker_ports(lines(content), lines(content).len()),
        volumes: docker_volumes(lines(content), lines(content).len()),
    }
}

/// Reads the declarations of a Dockerfile: the port that each `EXPOSE`
/// line names and the volume that each `VOLUME` line names. A port that is no unsigned 16-bit
/// number is left out.
pub fn parse_dockerfile(content: &str) -> (r: DockerConfig)
    ensures
        r@ == docker_config_of(content@),
{
    broadcast use lemma_chars_deep_view;

    let chars = to_chars(content);
    let all = split_lines(&chars);
    let expose = to_chars("EXPOSE");
    let volume = to_chars("VOLUME");
    let mut ports: Vec<u16> = Vec::new();
    let mut volumes: Vec<Vec<char>> = Vec::new();
    let mut i: usize = 0;
    assert(volumes.deep_view() =~= docker_volumes(all.deep_view(), 0));
    while i < all.len()
        invariant
            i <= all.len(),
            expose@ == "EXPOSE"@,
            volume@ == "VOLUME"@,
            ports@ == docker_ports(all.deep_view(), i as nat),
            volumes.deep_view() == docker_volumes(all.deep_view(), i as nat),
        decreases all.len() - i,
    {
        assert(all.deep_view()[i as int] == all@[i as int]@);
        let line = trimmed(&all[i]);
        let ghost raw = all.deep_view()[i as int];
        assert(line@ == trim(raw));
        let token = second_word(&line);
        assert(token.deep_view() == second_token(line@));
        assert(token matches Some(t) ==> second_token(line@) == Some(t@));
        assert(token is None ==> second_token(line@) is None);
        if has_prefix(&line, &expose) {
            assert(volume_of(raw) is None);
            match token {
                Some(token) => match parse_u16(&token) {
                    Some(port) => {
                        ports.push(port);
                        assert(exposed_port_of(raw) == Some(port));
                    },
                    None => {
                        assert(exposed_port_of(raw) is None);
                    },
                },
                None => {
                    assert(exposed_port_of(raw) is None);
                },
            }
        } else if has_prefix(&line, &volume) {
            assert(exposed_port_of(raw) is None);
            match token {
                Some(token) => {
                    let name = trimmed_of(&token, '"');
                    assert(volume_of(raw) == Some(name@));
                    push_text(&mut volumes, name);
                },
                None => {
                    assert(volume_of(raw) is None);
                },
            }
        } else {
            assert(exposed_port_of(raw) is None);
            assert(volume_of(raw) is None);
        }
        i = i + 1;
    }
    let volumes = to_strings(&volumes);
    let config = DockerConfig { dockerfile_path: "Dockerfile".to_string(), exposed_ports: ports, volumes };
    assert(config@.volumes =~= docker_config_of(content@).volumes);
    config
}

/// The Docker configuration of a tree: what the `Dockerfile` in its root
/// declares. A tree without a `Dockerfile` that can be read as text has
/// none.
pub open spec fn docker_of(entries: Seq<EntryView>) -> Option<DockerView> {
    match text_at(entries, "Dockerfile"@) {
        Some(content) => Some(docker_config_of(content)),
        None => None,
    }
}

/// The Docker configuration of the tree, if it has a `Dockerfile` that can
/// be read.
pub fn analyze_dockerfile(snapshot: &RepositorySnapshot) -> (r: Option<DockerConfig>)
    ensures
        match r {
            Some(config) => docker_of(snapshot@) == Some(config@),
            None => docker_of(snapshot@) is None,
        },
{
    match read_string(snapshot, "Dockerfile") {
        Some(content) => Some(parse_dockerfile(content.as_str())),
        None => None,
    }
}

} // verus!
