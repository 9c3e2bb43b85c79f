//! The ports that the sources of an application set.

use vstd::prelude::*;
use crate::text::{parse_u16, parsed_u16, to_chars};
use crate::tree::{
    EntryView, RepositorySnapshot, depth_of, file_name, file_name_of, has_extension, with_extension,
    within_depth,
};

verus! {

/// What the `regex` crate finds: for each match of `pattern` in `text`,
/// from left to right and without overlap, the text of the capture group
/// `group`, or nothing when the group took no part in the match. `None`
/// when `pattern` is no regular expression.
pub uninterp spec fn regex_group_texts(pattern: Seq<char>, text: Seq<char>, group: nat) -> Option<
    Seq<Option<Seq<char>>>,
>;

/// The text of one capture group in every match of a pattern.
///
/// Trusted: the body compiles the pattern with `Regex::new`, walks the
/// matches with `Regex::captures_iter` and copies, for each, the text of
/// `Captures::get(group)`. The contract only names the result: the same
/// pattern, text and group give the same answer.
#[verifier::external_body]
fn capture_group(pattern: &str, text: &str, group: usize) -> (r: Option<Vec<Option<String>>>)
    ensures
        r.deep_view() == regex_group_texts(pattern@, text@, group as nat),
{
    let expression = regex::Regex::new(pattern).ok()?;
    Some(
        expression.captures_iter(text).map(
            |found| found.get(group).map(|m| m.as_str().to_string()),
        ).collect(),
    )
}

/// The pattern of a port setting: the word `port` in any case, then any
/// run of colons, equals signs and white space, then the digits that are
/// captured.
pub const PORT_PATTERN: &'static str = "(?i:port)[:=\\s]*(\\d+)";

/// The port that a captured text names, when it is one to expose: an
/// unsigned 16-bit number strictly between 1000 and 65535.
pub open spec fn accepted_port(capture: Option<Seq<char>>) -> Option<u16> {
    match capture {
        Some(text) => match parsed_u16(text) {
            Some(port) => if 1000 < port < 65535 {
                Some(port)
            } else {
                None
            },
            None => None,
        },
        None => None,
    }
}

/// The ports to expose among the first `upto` captured texts.
pub open spec fn accepted_ports(captures: Seq<Option<Seq<char>>>, upto: nat) -> Seq<u16>
    decreases upto,
{
    if upto == 0 || upto > captures.len() {
        Seq::empty()
    } else {
        let before = accepted_ports(captures, (upto - 1) as nat);
        match accepted_port(captures[upto - 1]) {
            Some(port) => before.push(port),
            None => before,
        }
    }
}

/// The ports that the captured texts of one file name, in order.
pub fn ports_from_captures(captures: &Vec<Option<String>>) -> (r: Vec<u16>)
    ensures
        r@ == accepted_ports(captures.deep_view(), captures.deep_view().len()),
{
    let mut ports: Vec<u16> = Vec::new();
    let mut i: usize = 0;
    while i < captures.len()
        invariant
            i <= captures.len(),
            ports@ == accepted_ports(captures.deep_view(), i as nat),
        decreases captures.len() - i,
    {
        assert(captures.deep_view()[i as int] == captures@[i as int].deep_view());
        match &captures[i] {
            Some(text) => {
                let chars = to_chars(text.as_str());
                match parse_u16(&chars) {
                    Some(port) => {
                        if port > 1000 && port < 65535 {
                            ports.push(port);
                        }
                    },
                    None => {},
                }
            },
            None => {},
        }
        i = i + 1;
    }
    ports
}

/// The ports that the text of one source file sets.
pub open spec fn ports_in(content: Seq<char>) -> Seq<u16> {
    ports_of_answer(regex_group_texts(PORT_PATTERN@, content, 1))
}

/// The ports that an answer of the matcher names: those of its captured
/// texts, none when there is no answer.
pub open spec fn ports_of_answer(answer: Option<Seq<Option<Seq<char>>>>) -> Seq<u16> {
    match answer {
        Some(captures) => accepted_ports(captures, captures.len()),
        None => Seq::empty(),
    }
}

/// The ports that an answer of the matcher names.
pub fn ports_from_answer(answer: &Option<Vec<Option<String>>>) -> (r: Vec<u16>)
    ensures
        r@ == ports_of_answer(answer.deep_view()),
{
    match answer {
        Some(captures) => ports_from_captures(captures),
        None => Vec::new(),
    }
}

/// The ports that the text of one source file sets.
pub fn ports_in_source(content: &str) -> (r: Vec<u16>)
    ensures
        r@ == ports_in(content@),
{
    let answer = capture_group(PORT_PATTERN, content, 1);
    ports_from_answer(&answer)
}

/// A file whose text is scanned for port settings: a regular file with
/// text, at most three levels below the root, with the extension `py`,
/// `js` or `ts`.
pub open spec fn is_source_file(entry: EntryView) -> bool {
    &&& entry.is_file
    &&& entry.content is Some
    &&& depth_of(entry.path) <= 3
    &&& (has_extension(file_name_of(entry.path), "py"@) || has_extension(
        file_name_of(entry.path),
        "js"@,
    ) || has_extension(file_name_of(entry.path), "ts"@))
}

/// The ports that the source files among the first `upto` entries set, in
/// walk order.
pub open spec fn port_candidates(entries: Seq<EntryView>, upto: nat) -> Seq<u16>
    decreases upto,
{
    if upto == 0 || upto > entries.len() {
        Seq::empty()
    } else {
        let before = port_candidates(entries, (upto - 1) as nat);
        if is_source_file(entries[upto - 1]) {
            before + ports_in(entries[upto - 1].content->0)
        } else {
            before
        }
    }
}

/// An ascending list of distinct ports with `port` in its place.
pub open spec fn insert_port(sorted: Seq<u16>, port: u16) -> Seq<u16>
    decreases sorted.len(),
{
    if sorted.len() == 0 {
        seq![port]
    } else if sorted.last() < port {
        sorted.push(port)
    } else if sorted.last() == port {
        sorted
    } else {
        insert_port(sorted.drop_last(), port).push(sorted.last())
    }
}

/// The first `upto` of `ports` in ascending order, each once.
pub open spec fn sorted_ports(ports: Seq<u16>, upto: nat) -> Seq<u16>
    decreases upto,
{
    if upto == 0 || upto > ports.len() {
        Seq::empty()
    } else {
        insert_port(sorted_ports(ports, (upto - 1) as nat), ports[upto - 1])
    }
}

/// Strictly ascending.
pub open spec fn ascending(ports: Seq<u16>) -> bool {
    forall|i: int, j: int| 0 <= i < j < ports.len() ==> ports[i] < ports[j]
}

/// Putting a port in its place keeps the list strictly ascending and adds
/// exactly that port.
pub proof fn lemma_insert_port(sorted: Seq<u16>, port: u16)
    requires
        ascending(sorted),
    ensures
        ascending(insert_port(sorted, port)),
        forall|p: u16|
            #![trigger insert_port(sorted, port).contains(p)]
            insert_port(sorted, port).contains(p) <==> (sorted.contains(p) || p == port),
    decreases sorted.len(),
{
    let r = insert_port(sorted, port);
    if sorted.len() == 0 {
        assert(r[0] == port);
        assert forall|p: u16| r.contains(p) <==> (sorted.contains(p) || p == port) by {
            if p == port {
                assert(r[0] == p);
            }
        }
    } else if sorted.last() < port {
        assert forall|p: u16| r.contains(p) <==> (sorted.contains(p) || p == port) by {
            if p == port {
                assert(r[sorted.len() as int] == p);
            }
            if sorted.contains(p) {
                let i = choose|i: int| 0 <= i < sorted.len() && sorted[i] == p;
                assert(r[i] == p);
            }
        }
    } else if sorted.last() == port {
        assert forall|p: u16| r.contains(p) <==> (sorted.contains(p) || p == port) by {
            if p == port {
                assert(sorted[sorted.len() - 1] == p);
            }
        }
    } else {
        let head = sorted.drop_last();
        assert(ascending(head)) by {
            assert forall|i: int, j: int| 0 <= i < j < head.len() implies head[i] < head[j] by {
                assert(head[i] == sorted[i] && head[j] == sorted[j]);
            }
        }
        lemma_insert_port(head, port);
        let inner = insert_port(head, port);
        assert forall|i: int, j: int| 0 <= i < j < r.len() implies r[i] < r[j] by {
            if j == r.len() - 1 {
                assert(inner.contains(inner[i]));
                if inner[i] != port {
                    assert(head.contains(inner[i]));
                    let k = choose|k: int| 0 <= k < head.len() && head[k] == inner[i];
                    assert(sorted[k] < sorted[sorted.len() - 1]);
                }
            }
        }
        assert forall|p: u16| r.contains(p) <==> (sorted.contains(p) || p == port) by {
            if r.contains(p) {
                let i = choose|i: int| 0 <= i < r.len() && r[i] == p;
                if i < inner.len() {
                    assert(inner.contains(p));
                    if head.contains(p) {
                        let k = choose|k: int| 0 <= k < head.len() && head[k] == p;
                        assert(sorted[k] == p);
                    }
                } else {
                    assert(sorted[sorted.len() - 1] == p);
                }
            }
            if p == port {
                assert(inner.contains(p));
                let i = choose|i: int| 0 <= i < inner.len() && inner[i] == p;
                assert(r[i] == p);
            }
            if sorted.contains(p) {
                let k = choose|k: int| 0 <= k < sorted.len() && sorted[k] == p;
                if k < head.len() {
                    assert(head[k] == p);
                    assert(head.contains(p));
                    assert(inner.contains(p));
                    let i = choose|i: int| 0 <= i < inner.len() && inner[i] == p;
                    assert(r[i] == p);
                } else {
                    assert(r[r.len() - 1] == p);
                }
            }
        }
    }
}

/// Sorted ports stand in strictly ascending order, and they are the ports
/// that were given: none is lost and none is made up.
pub proof fn lemma_sorted_ports(ports: Seq<u16>, upto: nat)
    requires
        upto <= ports.len(),
    ensures
        ascending(sorted_ports(ports, upto)),
        forall|p: u16|
            #![trigger sorted_ports(ports, upto).contains(p)]
            sorted_ports(ports, upto).contains(p) <==> ports.take(upto as int).contains(p),
    decreases upto,
{
    if upto == 0 {
    } else {
        let before = sorted_ports(ports, (upto - 1) as nat);
        lemma_sorted_ports(ports, (upto - 1) as nat);
        lemma_insert_port(before, ports[upto - 1]);
        assert forall|p: u16| sorted_ports(ports, upto).contains(p) <==> ports.take(
            upto as int,
        ).contains(p) by {
            let shorter = ports.take(upto - 1);
            let longer = ports.take(upto as int);
            assert(sorted_ports(ports, upto) == insert_port(before, ports[upto - 1]));
            assert(insert_port(before, ports[upto - 1]).contains(p) <==> (before.contains(p) || p
                == ports[upto - 1]));
            assert(before.contains(p) <==> shorter.contains(p));
            if shorter.contains(p) {
                let k = choose|k: int| 0 <= k < shorter.len() && shorter[k] == p;
                assert(longer[k] == p);
            }
            if p == ports[upto - 1] {
                assert(longer[upto - 1] == p);
            }
            if longer.contains(p) {
                let k = choose|k: int| 0 <= k < longer.len() && longer[k] == p;
                if k < upto - 1 {
                    assert(shorter[k] == p);
                }
            }
        }
    }
}

/// Puts `port` in its place in an ascending list of distinct ports.
fn insert_sorted(ports: &mut Vec<u16>, port: u16)
    ensures
        final(ports)@ == insert_port(old(ports)@, port),
{
    let mut i: usize = ports.len();
    assert(ports@.take(i as int) =~= ports@);
    assert(ports@.skip(i as int) =~= Seq::<u16>::empty());
    assert(insert_port(ports@, port) + Seq::<u16>::empty() =~= insert_port(ports@, port));
    while i > 0 && ports[i - 1] > port
        invariant
            i <= ports.len(),
            ports == old(ports),
            insert_port(ports@, port) == insert_port(ports@.take(i as int), port) + ports@.skip(i as int),
        decreases i,
    {
        proof {
            let head = ports@.take(i as int);
            assert(head.last() == ports@[i - 1]);
            assert(head.drop_last() =~= ports@.take(i - 1));
            assert(insert_port(head.drop_last(), port).push(head.last()) + ports@.skip(i as int)
                =~= insert_port(head.drop_last(), port) + ports@.skip(i - 1));
        }
        i = i - 1;
    }
    let ghost head = ports@.take(i as int);
    if i > 0 && ports[i - 1] == port {
        assert(head.last() == port);
        assert(head + ports@.skip(i as int) =~= ports@);
        return ;
    }
    proof {
        if i > 0 {
            assert(head.last() == ports@[i - 1]);
        }
        assert(insert_port(head, port) =~= head.push(port));
        assert(ports@.insert(i as int, port) =~= head.push(port) + ports@.skip(i as int));
    }
    ports.insert(i, port);
}

/// The ports that an application exposes: the ports that its source files
/// set, in ascending order and each once; port 5000 when they set none.
pub open spec fn exposed_ports_of(entries: Seq<EntryView>) -> Seq<u16> {
    let candidates = port_candidates(entries, entries.len());
    let sorted = sorted_ports(candidates, candidates.len());
    if sorted.len() == 0 {
        seq![5000u16]
    } else {
        sorted
    }
}

/// The ports in `ports` from position `from` on, each put in its place in
/// `sorted`.
fn insert_all(sorted: &mut Vec<u16>, ports: &Vec<u16>, all: Ghost<Seq<u16>>, done: Ghost<nat>)
    requires
        done@ + ports@.len() <= all@.len(),
        all@.subrange(done@ as int, (done@ + ports@.len()) as int) == ports@,
        old(sorted)@ == sorted_ports(all@, done@),
    ensures
        final(sorted)@ == sorted_ports(all@, (done@ + ports@.len()) as nat),
{
    let mut i: usize = 0;
    while i < ports.len()
        invariant
            i <= ports.len(),
            done@ + ports@.len() <= all@.len(),
            all@.subrange(done@ as int, (done@ + ports@.len()) as int) == ports@,
            sorted@ == sorted_ports(all@, (done@ + i) as nat),
        decreases ports.len() - i,
    {
        assert(all@[done@ + i] == all@.subrange(done@ as int, (done@ + ports@.len()) as int)[i as int]);
        insert_sorted(sorted, ports[i]);
        i = i + 1;
    }
}

proof fn lemma_port_candidates_len(entries: Seq<EntryView>, upto: nat)
    requires
        upto < entries.len(),
    ensures
        port_candidates(entries, upto).len() <= port_candidates(entries, upto + 1).len(),
        port_candidates(entries, upto + 1).take(port_candidates(entries, upto).len() as int)
            == port_candidates(entries, upto),
{
    assert(port_candidates(entries, upto + 1).take(port_candidates(entries, upto).len() as int)
        =~= port_candidates(entries, upto));
}

proof fn lemma_sorted_ports_prefix(longer: Seq<u16>, shorter: Seq<u16>, upto: nat)
    requires
        upto <= shorter.len() <= longer.len(),
        longer.take(shorter.len() as int) == shorter,
    ensures
        sorted_ports(longer, upto) == sorted_ports(shorter, upto),
    decreases upto,
{
    if upto > 0 {
        lemma_sorted_ports_prefix(longer, shorter, (upto - 1) as nat);
        assert(longer.take(shorter.len() as int)[upto - 1] == longer[upto - 1]);
    }
}

/// The ports that the application in the tree exposes: what the source
/// files set as their port, in ascending order and each once, or port 5000
/// when no file sets one.
pub fn detect_exposed_ports(snapshot: &RepositorySnapshot) -> (r: Vec<u16>)
    ensures
        r@ == exposed_ports_of(snapshot@),
{
    let mut sorted: Vec<u16> = Vec::new();
    let ghost entries = snapshot@;
    let mut i: usize = 0;
    while i < snapshot.entries.len()
        invariant
            i <= snapshot.entries.len(),
            entries == snapshot@,
            sorted@ == sorted_ports(
                port_candidates(entries, i as nat),
                port_candidates(entries, i as nat).len(),
            ),
        decreases snapshot.entries.len() - i,
    {
        let entry = &snapshot.entries[i];
        assert(entries[i as int] == entry@);
        let ghost before = port_candidates(entries, i as nat);
        let ghost after = port_candidates(entries, (i + 1) as nat);
        proof {
            lemma_port_candidates_len(entries, i as nat);
        }
        if entry.is_file {
            match &entry.content {
                Some(content) => {
                    let path = to_chars(entry.path.as_str());
                    if within_depth(&path, 3) {
                        let name = file_name(&path);
                        if with_extension(&name, "py") || with_extension(&name, "js")
                            || with_extension(&name, "ts") {
                            let found = ports_in_source(content.as_str());
                            proof {
                                assert(after == before + found@);
                                assert(after.subrange(before.len() as int, (before.len() + found@.len()) as int)
                                    =~= found@);
                                lemma_sorted_ports_prefix(after, before, before.len());
                            }
                            insert_all(&mut sorted, &found, Ghost(after), Ghost(before.len()));
                        }
                    }
                },
                None => {},
            }
        }
        i = i + 1;
    }
    if sorted.len() == 0 {
        sorted.push(5000);
    }
    sorted
}

} // verus!
