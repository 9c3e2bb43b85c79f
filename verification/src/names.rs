//! Lists of names: membership, and keeping each name once.

use vstd::prelude::*;
use crate::text::{
    copy_range, from_chars, lemma_chars_deep_view, lemma_push_text, same_text, to_chars,
};

verus! {

/// Whether `name` is one of `names`.
pub(crate) fn has_name(names: &Vec<Vec<char>>, name: &str) -> (r: bool)
    ensures
        r == names.deep_view().contains(name@),
{
    broadcast use lemma_chars_deep_view;

    let wanted = to_chars(name);
    let mut i: usize = 0;
    while i < names.len()
        invariant
            i <= names.len(),
            wanted@ == name@,
            forall|j: int| 0 <= j < i ==> names.deep_view()[j] != name@,
        decreases names.len() - i,
    {
        assert(names.deep_view()[i as int] == names@[i as int]@);
        if same_text(&names[i], &wanted) {
            return true;
        }
        i = i + 1;
    }
    false
}

/// The first `upto` of `items` without repetitions: of equal items the
/// first stays, and the order is kept.
pub open spec fn distinct(items: Seq<Seq<char>>, upto: nat) -> Seq<Seq<char>>
    decreases upto,
{
    if upto == 0 || upto > items.len() {
        Seq::empty()
    } else {
        let before = distinct(items, (upto - 1) as nat);
        if before.contains(items[upto - 1]) {
            before
        } else {
            before.push(items[upto - 1])
        }
    }
}

/// Nothing occurs twice in a list of distinct names, and the list holds
/// exactly the names that were given.
pub proof fn lemma_distinct(items: Seq<Seq<char>>, upto: nat)
    requires
        upto <= items.len(),
    ensures
        forall|i: int, j: int|
            0 <= i < j < distinct(items, upto).len() ==> distinct(items, upto)[i] != distinct(
                items,
                upto,
            )[j],
        forall|name: Seq<char>|
            #![trigger distinct(items, upto).contains(name)]
            distinct(items, upto).contains(name) <==> items.take(upto as int).contains(name),
    decreases upto,
{
    if upto > 0 {
        let before = distinct(items, (upto - 1) as nat);
        let last = items[upto - 1];
        let all = distinct(items, upto);
        let shorter = items.take(upto - 1);
        let longer = items.take(upto as int);
        lemma_distinct(items, (upto - 1) as nat);
        assert forall|i: int, j: int| 0 <= i < j < all.len() implies all[i] != all[j] by {
            if !before.contains(last) && j == all.len() - 1 {
                assert(before[i] == all[i]);
                assert(before.contains(all[i]));
            }
        }
        assert forall|name: Seq<char>| all.contains(name) <==> longer.contains(name) by {
            assert(before.contains(name) <==> shorter.contains(name));
            if shorter.contains(name) {
                let k = choose|k: int| 0 <= k < shorter.len() && shorter[k] == name;
                assert(longer[k] == name);
            }
            if name == last {
                assert(longer[upto - 1] == name);
            }
            if longer.contains(name) {
                let k = choose|k: int| 0 <= k < longer.len() && longer[k] == name;
                if k < upto - 1 {
                    assert(shorter[k] == name);
                }
            }
            if before.contains(name) {
                let k = choose|k: int| 0 <= k < before.len() && before[k] == name;
                assert(all[k] == name);
            }
            if all.contains(name) && !before.contains(name) {
                let k = choose|k: int| 0 <= k < all.len() && all[k] == name;
                if k < before.len() {
                    assert(before[k] == name);
                }
            }
            if name == last && !before.contains(last) {
                assert(all[all.len() - 1] == name);
            }
        }
    }
}

/// Adds `item` to `out` unless `out` holds it already.
fn push_unique(out: &mut Vec<Vec<char>>, item: Vec<char>)
    ensures
        final(out).deep_view() == (if old(out).deep_view().contains(item@) {
            old(out).deep_view()
        } else {
            old(out).deep_view().push(item@)
        }),
{
    broadcast use lemma_chars_deep_view;

    let mut i: usize = 0;
    while i < out.len()
        invariant
            i <= out.len(),
            out == old(out),
            forall|j: int| 0 <= j < i ==> out.deep_view()[j] != item@,
        decreases out.len() - i,
    {
        assert(out.deep_view()[i as int] == out@[i as int]@);
        if same_text(&out[i], &item) {
            return ;
        }
        i = i + 1;
    }
    let ghost before = out@;
    out.push(item);
    proof {
        lemma_push_text(before, out@, item);
    }
}

/// `items` without repetitions.
pub(crate) fn unique(items: &Vec<Vec<char>>) -> (r: Vec<Vec<char>>)
    ensures
        r.deep_view() == distinct(items.deep_view(), items.deep_view().len()),
{
    broadcast use lemma_chars_deep_view;

    let mut out: Vec<Vec<char>> = Vec::new();
    let mut i: usize = 0;
    assert(out.deep_view() =~= distinct(items.deep_view(), 0));
    while i < items.len()
        invariant
            i <= items.len(),
            out.deep_view() == distinct(items.deep_view(), i as nat),
        decreases items.len() - i,
    {
        assert(items.deep_view()[i as int] == items@[i as int]@);
        let item = copy_range(&items[i], 0, items[i].len());
        assert(item@ =~= items@[i as int]@);
        push_unique(&mut out, item);
        i = i + 1;
    }
    out
}

/// The texts as strings.
pub(crate) fn to_strings(items: &Vec<Vec<char>>) -> (r: Vec<String>)
    ensures
        r.deep_view() == items.deep_view(),
{
    broadcast use lemma_chars_deep_view;

    let mut out: Vec<String> = Vec::new();
    let mut i: usize = 0;
    while i < items.len()
        invariant
            i <= items.len(),
            out@.len() == i,
            forall|j: int| 0 <= j < i ==> (#[trigger] out@[j])@ == items@[j]@,
        decreases items.len() - i,
    {
        out.push(from_chars(&items[i]));
        i = i + 1;
    }
    assert(out.deep_view() =~= items.deep_view());
    out
}

/// The strings as texts.
pub(crate) fn to_texts(items: &Vec<String>) -> (r: Vec<Vec<char>>)
    ensures
        r.deep_view() == items.deep_view(),
{
    broadcast use lemma_chars_deep_view;

    let mut out: Vec<Vec<char>> = Vec::new();
    let mut i: usize = 0;
    while i < items.len()
        invariant
            i <= items.len(),
            out@.len() == i,
            forall|j: int| 0 <= j < i ==> (#[trigger] out@[j])@ == items@[j]@,
        decreases items.len() - i,
    {
        out.push(to_chars(items[i].as_str()));
        i = i + 1;
    }
    assert(out.deep_view() =~= items.deep_view());
    out
}

/// Adds `item` at the end of `out`.
pub(crate) fn push_text(out: &mut Vec<Vec<char>>, item: Vec<char>)
    ensures
        final(out).deep_view() == old(out).deep_view().push(item@),
{
    let ghost before = out@;
    out.push(item);
    proof {
        lemma_push_text(before, out@, item);
    }
}

} // verus!
