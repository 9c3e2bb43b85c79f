//! JSON as the library holds it: a generic value tree, the shape in which
//! resource attributes, input declarations and output declarations reach
//! the generator, and a reader that takes a JSON document apart one level
//! at a time, so that every lookup in a document is verified code.

use vstd::prelude::*;

verus! {

/// A value tree as it is held at run time. A number keeps the text of its
/// literal; a map keeps its members in order.
#[derive(Debug, PartialEq)]
pub enum JsonValue {
    Null,
    Bool(bool),
    Number(String),
    Text(String),
    Array(Vec<JsonValue>),
    Object(Vec<(String, JsonValue)>),
}

/// The mathematical value that a `JsonValue` stands for.
pub enum JsonTree {
    Null,
    Bool(bool),
    Number(Seq<char>),
    Text(Seq<char>),
    Array(Seq<JsonTree>),
    Object(Seq<(Seq<char>, JsonTree)>),
}

impl View for JsonValue {
    type V = JsonTree;

    open spec fn view(&self) -> JsonTree {
        tree_of(*self)
    }
}

/// The mathematical value that `v` stands for.
pub open spec fn tree_of(v: JsonValue) -> JsonTree
    decreases v, 0nat,
{
    match v {
        JsonValue::Null => JsonTree::Null,
        JsonValue::Bool(b) => JsonTree::Bool(b),
        JsonValue::Number(n) => JsonTree::Number(n@),
        JsonValue::Text(s) => JsonTree::Text(s@),
        JsonValue::Array(items) => JsonTree::Array(trees_of(items@, items@.len())),
        JsonValue::Object(members) => JsonTree::Object(member_trees(members@, members@.len())),
    }
}

/// The values that the first `upto` of `items` stand for.
pub open spec fn trees_of(items: Seq<JsonValue>, upto: nat) -> Seq<JsonTree>
    decreases items, upto,
{
    if upto == 0 || upto > items.len() {
        Seq::empty()
    } else {
        trees_of(items, (upto - 1) as nat).push(tree_of(items[upto - 1]))
    }
}

/// The first `upto` of `members`, each name with the value it stands for.
pub open spec fn member_trees(members: Seq<(String, JsonValue)>, upto: nat) -> Seq<
    (Seq<char>, JsonTree),
>
    decreases members, upto,
{
    if upto == 0 || upto > members.len() {
        Seq::empty()
    } else {
        member_trees(members, (upto - 1) as nat).push(
            (members[upto - 1].0@, tree_of(members[upto - 1].1)),
        )
    }
}

/// The members of a map, each name with the value it stands for.
pub open spec fn members_view(members: Seq<(String, JsonValue)>) -> Seq<(Seq<char>, JsonTree)> {
    Seq::new(members.len(), |i: int| (members[i].0@, members[i].1@))
}

/// The values that a list of run-time values stands for.
pub open spec fn items_view(items: Seq<JsonValue>) -> Seq<JsonTree> {
    Seq::new(items.len(), |i: int| items[i]@)
}

proof fn lemma_trees_of(items: Seq<JsonValue>, upto: nat)
    requires
        upto <= items.len(),
    ensures
        trees_of(items, upto) == items_view(items).take(upto as int),
    decreases upto,
{
    if upto > 0 {
        lemma_trees_of(items, (upto - 1) as nat);
    }
    assert(trees_of(items, upto) =~= items_view(items).take(upto as int));
}

proof fn lemma_member_trees(members: Seq<(String, JsonValue)>, upto: nat)
    requires
        upto <= members.len(),
    ensures
        member_trees(members, upto) == members_view(members).take(upto as int),
    decreases upto,
{
    if upto > 0 {
        lemma_member_trees(members, (upto - 1) as nat);
    }
    assert(member_trees(members, upto) =~= members_view(members).take(upto as int));
}

/// A list stands for the list of what its items stand for.
pub proof fn lemma_array_view(items: Vec<JsonValue>)
    ensures
        JsonValue::Array(items)@ == JsonTree::Array(items_view(items@)),
{
    lemma_trees_of(items@, items@.len());
    assert(items_view(items@).take(items@.len() as int) =~= items_view(items@));
}

/// A map stands for its members in order, each with what its value stands
/// for.
pub proof fn lemma_object_view(members: Vec<(String, JsonValue)>)
    ensures
        JsonValue::Object(members)@ == JsonTree::Object(members_view(members@)),
{
    lemma_member_trees(members@, members@.len());
    assert(members_view(members@).take(members@.len() as int) =~= members_view(members@));
}

impl Clone for JsonValue {
    fn clone(&self) -> (r: JsonValue)
        ensures
            r@ == self@,
    {
        self.duplicate()
    }
}

impl JsonTree {
    /// A string, a number, a boolean or null.
    pub open spec fn is_scalar(self) -> bool {
        self is Null || self is Bool || self is Number || self is Text
    }

    /// The value of the first member called `name`, when this is a map that
    /// has one.
    pub open spec fn member(self, name: Seq<char>) -> Option<JsonTree> {
        match self {
            JsonTree::Object(members) => member_from(members, name, 0),
            _ => None,
        }
    }

    /// The text of a string value.
    pub open spec fn as_text(self) -> Option<Seq<char>> {
        match self {
            JsonTree::Text(s) => Some(s),
            _ => None,
        }
    }
}

/// The value of the first member called `name` at or after position `from`.
pub open spec fn member_from(members: Seq<(Seq<char>, JsonTree)>, name: Seq<char>, from: int) -> Option<
    JsonTree,
>
    decreases members.len() - from,
{
    if from < 0 || from >= members.len() {
        None
    } else if members[from].0 == name {
        Some(members[from].1)
    } else {
        member_from(members, name, from + 1)
    }
}

impl JsonValue {
    /// A copy of this value.
    pub fn duplicate(&self) -> (r: JsonValue)
        ensures
            r@ == self@,
        decreases self,
    {
        match self {
            JsonValue::Null => JsonValue::Null,
            JsonValue::Bool(b) => JsonValue::Bool(*b),
            JsonValue::Number(n) => JsonValue::Number(n.clone()),
            JsonValue::Text(s) => JsonValue::Text(s.clone()),
            JsonValue::Array(items) => {
                let mut copy: Vec<JsonValue> = Vec::new();
                let mut i: usize = 0;
                while i < items.len()
                    invariant
                        i <= items.len(),
                        self == JsonValue::Array(*items),
                        copy@.len() == i,
                        forall|j: int| 0 <= j < i ==> (#[trigger] copy@[j])@ == items@[j]@,
                    decreases items.len() - i,
                {
                    proof {
                        assert(self is Array && self->Array_0 == *items);
                        assert(decreases_to!(self => self->Array_0));
                        assert(decreases_to!(*items => items[i as int]));
                    }
                    let item = items[i].duplicate();
                    copy.push(item);
                    i = i + 1;
                }
                proof {
                    lemma_array_view(*items);
                    lemma_array_view(copy);
                    assert(items_view(copy@) =~= items_view(items@));
                }
                JsonValue::Array(copy)
            },
            JsonValue::Object(members) => {
                let mut copy: Vec<(String, JsonValue)> = Vec::new();
                let mut i: usize = 0;
                while i < members.len()
                    invariant
                        i <= members.len(),
                        self == JsonValue::Object(*members),
                        copy@.len() == i,
                        forall|j: int|
                            0 <= j < i ==> (#[trigger] copy@[j]).0@ == members@[j].0@ && copy@[j].1@
                                == members@[j].1@,
                    decreases members.len() - i,
                {
                    proof {
                        assert(self is Object && self->Object_0 == *members);
                        assert(decreases_to!(self => self->Object_0));
                        assert(decreases_to!(*members => members[i as int]));
                        assert(decreases_to!(members[i as int] => members[i as int].1));
                    }
                    let value = members[i].1.duplicate();
                    copy.push((members[i].0.clone(), value));
                    i = i + 1;
                }
                proof {
                    lemma_object_view(*members);
                    lemma_object_view(copy);
                    assert(members_view(copy@) =~= members_view(members@));
                }
                JsonValue::Object(copy)
            },
        }
    }

    /// The value of the first member called `name`, when this is a map that
    /// has one.
    pub fn member(&self, name: &str) -> (r: Option<&JsonValue>)
        ensures
            match r {
                Some(v) => self@.member(name@) == Some(v@),
                None => self@.member(name@) is None,
            },
    {
        match self {
            JsonValue::Object(members) => {
                proof {
                    lemma_object_view(*members);
                }
                let wanted = crate::text::to_chars(name);
                let mut i: usize = 0;
                while i < members.len()
                    invariant
                        i <= members.len(),
                        wanted@ == name@,
                        self@.member(name@) == member_from(members_view(members@), name@, i as int),
                    decreases members.len() - i,
                {
                    let key = crate::text::to_chars(members[i].0.as_str());
                    if crate::text::same_text(&key, &wanted) {
                        return Some(&members[i].1);
                    }
                    i = i + 1;
                }
                None
            },
            _ => None,
        }
    }

    /// The text of a string value.
    pub fn as_text(&self) -> (r: Option<&str>)
        ensures
            match r {
                Some(s) => self@.as_text() == Some(s@),
                None => self@.as_text() is None,
            },
    {
        match self {
            JsonValue::Text(s) => Some(s.as_str()),
            _ => None,
        }
    }
}


/// One level of a JSON document: what the document is, without what its
/// members are.
#[derive(Debug, PartialEq)]
pub enum JsonLevel {
    /// A map: its members in the order in which the map yields them, each
    /// name with the document of its value.
    Members(Vec<(String, Vec<u8>)>),
    /// A string.
    Text(String),
    /// Anything else: another kind of value, or bytes that are no JSON
    /// document.
    Other,
}

/// What a level stands for, as plain values.
pub enum JsonLevelView {
    Members(Seq<(Seq<char>, Seq<u8>)>),
    Text(Seq<char>),
    Other,
}

/// The members of a level as pairs of name and document.
pub open spec fn pairs_view(pairs: Seq<(String, Vec<u8>)>) -> Seq<(Seq<char>, Seq<u8>)> {
    Seq::new(pairs.len(), |i: int| (pairs[i].0@, pairs[i].1@))
}

impl View for JsonLevel {
    type V = JsonLevelView;

    open spec fn view(&self) -> JsonLevelView {
        match self {
            JsonLevel::Members(pairs) => JsonLevelView::Members(pairs_view(pairs@)),
            JsonLevel::Text(text) => JsonLevelView::Text(text@),
            JsonLevel::Other => JsonLevelView::Other,
        }
    }
}

/// What `serde_json` reads as the first level of a document: the members
/// of a map, each with the text of its value as a document of its own, or
/// the text of a string, or neither.
pub uninterp spec fn json_level_of(document: Seq<u8>) -> JsonLevelView;

/// Reads the first level of a JSON document.
///
/// Trusted: the body asks `serde_json::from_slice` for the document as a
/// map from names to raw values and copies each name with the text of its
/// raw value; where that fails, it asks `serde_json::from_slice` for the
/// document as a string. The contract only names the result: the same
/// bytes give the same answer.
#[verifier::external_body]
fn read_level(document: &[u8]) -> (r: JsonLevel)
    ensures
        r@ == json_level_of(document@),
{
    if let Ok(map) = serde_json::from_slice::<
        std::collections::BTreeMap<String, Box<serde_json::value::RawValue>>,
    >(document) {
        return JsonLevel::Members(
            map.into_iter().map(|(name, value)| (name, value.get().as_bytes().to_vec())).collect(),
        );
    }
    match serde_json::from_slice::<String>(document) {
        Ok(text) => JsonLevel::Text(text),
        Err(_) => JsonLevel::Other,
    }
}

/// The document of the first member called `name` at or after position
/// `from`.
pub open spec fn document_of(pairs: Seq<(Seq<char>, Seq<u8>)>, name: Seq<char>, from: int) -> Option<
    Seq<u8>,
>
    decreases pairs.len() - from,
{
    if from < 0 || from >= pairs.len() {
        None
    } else if pairs[from].0 == name {
        Some(pairs[from].1)
    } else {
        document_of(pairs, name, from + 1)
    }
}

/// The names of the members.
pub open spec fn names_of(pairs: Seq<(Seq<char>, Seq<u8>)>) -> Seq<Seq<char>> {
    Seq::new(pairs.len(), |i: int| pairs[i].0)
}

/// The members of a level that is a map.
pub open spec fn level_members(level: JsonLevelView) -> Option<Seq<(Seq<char>, Seq<u8>)>> {
    match level {
        JsonLevelView::Members(pairs) => Some(pairs),
        _ => None,
    }
}

/// The text of a level that is a string.
pub open spec fn level_text(level: JsonLevelView) -> Option<Seq<char>> {
    match level {
        JsonLevelView::Text(text) => Some(text),
        _ => None,
    }
}

/// The document of the member `name` of a document: `None` when the
/// document is no map or has no such member.
pub open spec fn member_document(document: Seq<u8>, name: Seq<char>) -> Option<Seq<u8>> {
    match level_members(json_level_of(document)) {
        Some(pairs) => document_of(pairs, name, 0),
        None => None,
    }
}

/// The names of the members of a document that is a map.
pub open spec fn member_names(document: Seq<u8>) -> Option<Seq<Seq<char>>> {
    match level_members(json_level_of(document)) {
        Some(pairs) => Some(names_of(pairs)),
        None => None,
    }
}

/// The text of a document that is a string.
pub open spec fn document_text(document: Seq<u8>) -> Option<Seq<char>> {
    level_text(json_level_of(document))
}

impl JsonLevel {
    /// The first level of a JSON document.
    pub fn of(document: &[u8]) -> (r: JsonLevel)
        ensures
            r@ == json_level_of(document@),
    {
        read_level(document)
    }

    /// The document of the first member called `name`, when this level is
    /// a map that has one.
    pub fn member(&self, name: &str) -> (r: Option<&Vec<u8>>)
        ensures
            match r {
                Some(document) => level_members(self@) matches Some(pairs) && document_of(
                    pairs,
                    name@,
                    0,
                ) == Some(document@),
                None => level_members(self@) matches Some(pairs) ==> document_of(pairs, name@, 0)
                    is None,
            },
    {
        match self {
            JsonLevel::Members(pairs) => {
                let wanted = crate::text::to_chars(name);
                let mut i: usize = 0;
                while i < pairs.len()
                    invariant
                        i <= pairs.len(),
                        wanted@ == name@,
                        self@ == JsonLevelView::Members(pairs_view(pairs@)),
                        document_of(pairs_view(pairs@), name@, 0) == document_of(
                            pairs_view(pairs@),
                            name@,
                            i as int,
                        ),
                    decreases pairs.len() - i,
                {
                    assert(pairs_view(pairs@)[i as int] == (pairs@[i as int].0@, pairs@[i as int].1@));
                    let here = crate::text::to_chars(pairs[i].0.as_str());
                    if crate::text::same_text(&here, &wanted) {
                        return Some(&pairs[i].1);
                    }
                    i = i + 1;
                }
                None
            },
            _ => None,
        }
    }

    /// The names of the members, when this level is a map.
    pub fn names(&self) -> (r: Option<Vec<String>>)
        ensures
            match r {
                Some(names) => level_members(self@) matches Some(pairs) && names.deep_view()
                    == names_of(pairs),
                None => level_members(self@) is None,
            },
    {
        match self {
            JsonLevel::Members(pairs) => {
                let mut names: Vec<String> = Vec::new();
                let mut i: usize = 0;
                while i < pairs.len()
                    invariant
                        i <= pairs.len(),
                        names@.len() == i,
                        forall|j: int| 0 <= j < i ==> (#[trigger] names@[j])@ == pairs@[j].0@,
                    decreases pairs.len() - i,
                {
                    names.push(pairs[i].0.clone());
                    i = i + 1;
                }
                assert(names.deep_view() =~= names_of(pairs_view(pairs@)));
                Some(names)
            },
            _ => None,
        }
    }

    /// The text, when this level is a string.
    pub fn text(self) -> (r: Option<String>)
        ensures
            r.deep_view() == level_text(self@),
    {
        match self {
            JsonLevel::Text(text) => Some(text),
            _ => None,
        }
    }
}

/// The document of the member `name` of a document.
pub fn member_of_document(document: &[u8], name: &str) -> (r: Option<Vec<u8>>)
    ensures
        match r {
            Some(found) => member_document(document@, name@) == Some(found@),
            None => member_document(document@, name@) is None,
        },
{
    let level = JsonLevel::of(document);
    match level.member(name) {
        Some(found) => {
            let copy = found.clone();
            assert(copy@ == found@);
            Some(copy)
        },
        None => None,
    }
}

/// The names of the members of a document that is a map.
pub fn names_in_document(document: &[u8]) -> (r: Option<Vec<String>>)
    ensures
        r.deep_view() == member_names(document@),
{
    JsonLevel::of(document).names()
}

/// The text of a document that is a string.
pub fn text_of_document(document: &[u8]) -> (r: Option<String>)
    ensures
        r.deep_view() == document_text(document@),
{
    JsonLevel::of(document).text()
}

} // verus!
