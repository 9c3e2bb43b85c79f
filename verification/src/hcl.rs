//! Serialising a value tree as declarative configuration text, one
//! emission rule for each kind of value.

use vstd::prelude::*;
use crate::json::{
    JsonTree, JsonValue, items_view, lemma_array_view, lemma_object_view, members_view,
};
use crate::text::{
    append_chars, append_str, copy_range, from_chars, has_prefix, is_digit, starts_with, text_is,
    to_chars,
};

verus! {

/// A value that the generator cannot write down: a list that mixes maps or
/// lists with other values, a number whose text is no number literal, or a
/// map or list that holds one of these.
#[derive(Debug, Clone, Copy, PartialEq, Eq, Structural)]
pub enum SerializationError {
    UnsupportedValue,
}

/// What one character of a string becomes inside a quoted literal.
pub open spec fn escape_char(c: char) -> Seq<char> {
    if c == '\\' {
        seq!['\\', '\\']
    } else if c == '"' {
        seq!['\\', '"']
    } else if c == '\n' {
        seq!['\\', 'n']
    } else if c == '\r' {
        seq!['\\', 'r']
    } else if c == '\t' {
        seq!['\\', 't']
    } else {
        seq![c]
    }
}

/// `s` with backslash, double quote, line feed, carriage return and tab
/// escaped.
pub open spec fn escape(s: Seq<char>) -> Seq<char>
    decreases s.len(),
{
    if s.len() == 0 {
        Seq::empty()
    } else {
        escape(s.drop_last()) + escape_char(s.last())
    }
}

/// `s` as a quoted string literal.
pub open spec fn quoted(s: Seq<char>) -> Seq<char> {
    seq!['"'] + escape(s) + seq!['"']
}

/// A string that names a variable or holds an interpolation: it is written
/// as an expression, without quotes.
pub open spec fn is_reference(s: Seq<char>) -> bool {
    starts_with(s, "var."@) || starts_with(s, "${"@)
}

/// The text of a string, a number, a boolean or null.
pub open spec fn scalar_literal(v: JsonTree) -> Seq<char> {
    match v {
        JsonTree::Text(s) => if is_reference(s) {
            s
        } else {
            quoted(s)
        },
        JsonTree::Number(n) => n,
        JsonTree::Bool(b) => if b {
            "true"@
        } else {
            "false"@
        },
        _ => "null"@,
    }
}

pub open spec fn all_scalars(items: Seq<JsonTree>) -> bool {
    forall|i: int| 0 <= i < items.len() ==> (#[trigger] items[i]).is_scalar()
}

/// Where the run of decimal digits that begins at `from` ends.
pub open spec fn digits_end(s: Seq<char>, from: int) -> int
    decreases s.len() - from,
{
    if from < 0 || from >= s.len() || !is_digit(s[from]) {
        from
    } else {
        digits_end(s, from + 1)
    }
}

/// Where the integer part that begins at `from` ends: a single zero, or
/// digits that do not begin with a zero. `-1` when there is none.
pub open spec fn integer_end(s: Seq<char>, from: int) -> int {
    if 0 <= from < s.len() && s[from] == '0' {
        from + 1
    } else if 0 <= from < s.len() && is_digit(s[from]) {
        digits_end(s, from)
    } else {
        -1
    }
}

/// Where the fraction that may begin at `from` ends: a point and at least
/// one digit. `from` itself without a point there, `-1` when no digit
/// follows the point.
pub open spec fn fraction_end(s: Seq<char>, from: int) -> int {
    if 0 <= from < s.len() && s[from] == '.' {
        if digits_end(s, from + 1) > from + 1 {
            digits_end(s, from + 1)
        } else {
            -1
        }
    } else {
        from
    }
}

/// Where the exponent that may begin at `from` ends: `e` or `E`, an
/// optional sign and at least one digit. `from` itself without an `e`
/// there, `-1` when no digit follows.
pub open spec fn exponent_end(s: Seq<char>, from: int) -> int {
    if 0 <= from < s.len() && (s[from] == 'e' || s[from] == 'E') {
        let digits = if from + 1 < s.len() && (s[from + 1] == '+' || s[from + 1] == '-') {
            from + 2
        } else {
            from + 1
        };
        if digits_end(s, digits) > digits {
            digits_end(s, digits)
        } else {
            -1
        }
    } else {
        from
    }
}

/// A number literal: an optional minus sign, an integer part, an optional
/// fraction and an optional exponent, and nothing else.
pub open spec fn is_number_literal(s: Seq<char>) -> bool {
    let start: int = if s.len() > 0 && s[0] == '-' {
        1
    } else {
        0
    };
    let integer = integer_end(s, start);
    let fraction = fraction_end(s, integer);
    integer >= 0 && fraction >= 0 && exponent_end(s, fraction) == s.len()
}

/// A scalar that can be written down: a string, a boolean, null, or a
/// number whose text is a number literal.
pub open spec fn writable_scalar(v: JsonTree) -> bool {
    match v {
        JsonTree::Number(n) => is_number_literal(n),
        JsonTree::Array(_) => false,
        JsonTree::Object(_) => false,
        _ => true,
    }
}

pub open spec fn all_writable(items: Seq<JsonTree>) -> bool {
    forall|i: int| 0 <= i < items.len() ==> writable_scalar(#[trigger] items[i])
}

/// The literals of the first `upto` of `items`, joined by a comma and a
/// space.
pub open spec fn join_scalars(items: Seq<JsonTree>, upto: nat) -> Seq<char>
    decreases upto,
{
    if upto == 0 || upto > items.len() {
        Seq::empty()
    } else if upto == 1 {
        scalar_literal(items[0])
    } else {
        join_scalars(items, (upto - 1) as nat) + ", "@ + scalar_literal(items[upto - 1])
    }
}

/// Whether the generator can write `v` down: every list in it is empty,
/// holds scalars only, or holds maps only, and every number in it is a
/// number literal.
pub open spec fn representable(v: JsonTree) -> bool
    decreases v, 0nat,
{
    match v {
        JsonTree::Array(items) => items.len() == 0 || all_writable(items) || blocks_representable(
            items,
            items.len(),
        ),
        JsonTree::Object(members) => members_representable(members, members.len()),
        _ => writable_scalar(v),
    }
}

/// The first `upto` of `items` are maps that can be written down.
pub open spec fn blocks_representable(items: Seq<JsonTree>, upto: nat) -> bool
    decreases items, upto,
{
    if upto == 0 || upto > items.len() {
        true
    } else {
        &&& blocks_representable(items, (upto - 1) as nat)
        &&& items[upto - 1] is Object
        &&& representable(items[upto - 1])
    }
}

/// The values of the first `upto` of `members` can be written down.
pub open spec fn members_representable(members: Seq<(Seq<char>, JsonTree)>, upto: nat) -> bool
    decreases members, upto,
{
    if upto == 0 || upto > members.len() {
        true
    } else {
        &&& members_representable(members, (upto - 1) as nat)
        &&& representable(members[upto - 1].1)
    }
}

/// The text of the attribute `key` with value `v`, its nested lines
/// indented by `indent`: a scalar as `key = literal`, a list of scalars as
/// one bracketed list, a list of maps as one block for each map, a map as a
/// block.
pub open spec fn render_attribute(key: Seq<char>, v: JsonTree, indent: Seq<char>) -> Seq<char>
    decreases v, 0nat,
{
    match v {
        JsonTree::Array(items) => if items.len() == 0 {
            key + " = []"@
        } else if all_scalars(items) {
            key + " = ["@ + join_scalars(items, items.len()) + "]"@
        } else {
            render_blocks(key, items, indent, items.len())
        },
        JsonTree::Object(members) => key + " {\n"@ + render_members(
            members,
            indent,
            members.len(),
        ) + indent + "}"@,
        _ => key + " = "@ + scalar_literal(v),
    }
}

/// The lines of the first `upto` of `members` inside a block.
pub open spec fn render_members(
    members: Seq<(Seq<char>, JsonTree)>,
    indent: Seq<char>,
    upto: nat,
) -> Seq<char>
    decreases members, upto,
{
    if upto == 0 || upto > members.len() {
        Seq::empty()
    } else {
        render_members(members, indent, (upto - 1) as nat) + indent + "  "@ + render_attribute(
            members[upto - 1].0,
            members[upto - 1].1,
            indent + "  "@,
        ) + "\n"@
    }
}

/// One block called `key` for each of the first `upto` of `items`. Every
/// block but the first begins a line of its own, indented like the first.
pub open spec fn render_blocks(key: Seq<char>, items: Seq<JsonTree>, indent: Seq<char>, upto: nat) -> Seq<
    char,
>
    decreases items, upto,
{
    if upto == 0 || upto > items.len() {
        Seq::empty()
    } else if upto == 1 {
        render_attribute(key, items[0], indent)
    } else {
        render_blocks(key, items, indent, (upto - 1) as nat) + "\n"@ + indent + render_attribute(
            key,
            items[upto - 1],
            indent,
        )
    }
}

/// The indentation of nesting level `level`: two spaces for each level.
pub open spec fn indentation(level: nat) -> Seq<char>
    decreases level,
{
    if level == 0 {
        Seq::empty()
    } else {
        indentation((level - 1) as nat) + "  "@
    }
}

/// Appends the escaped form of `s` to `out`.
pub fn escape_into(out: &mut Vec<char>, s: &Vec<char>)
    ensures
        final(out)@ == old(out)@ + escape(s@),
{
    let mut i: usize = 0;
    assert(s@.take(0) =~= Seq::<char>::empty());
    assert(out@ =~= old(out)@ + escape(s@.take(0)));
    while i < s.len()
        invariant
            i <= s.len(),
            out@ == old(out)@ + escape(s@.take(i as int)),
        decreases s.len() - i,
    {
        let c = s[i];
        let ghost before = out@;
        proof {
            assert(s@.take(i + 1).drop_last() =~= s@.take(i as int));
            assert(s@.take(i + 1).last() == c);
        }
        if c == '\\' {
            out.push('\\');
            out.push('\\');
        } else if c == '"' {
            out.push('\\');
            out.push('"');
        } else if c == '\n' {
            out.push('\\');
            out.push('n');
        } else if c == '\r' {
            out.push('\\');
            out.push('r');
        } else if c == '\t' {
            out.push('\\');
            out.push('t');
        } else {
            out.push(c);
        }
        assert(out@ =~= before + escape_char(c));
        assert(out@ =~= old(out)@ + escape(s@.take(i + 1)));
        i = i + 1;
    }
    assert(s@.take(s@.len() as int) =~= s@);
}

/// `s` with backslash, double quote, line feed, carriage return and tab
/// escaped, ready to stand between double quotes.
pub fn escape_hcl_string(s: &str) -> (r: String)
    ensures
        r@ == escape(s@),
{
    let chars = to_chars(s);
    let mut out: Vec<char> = Vec::new();
    escape_into(&mut out, &chars);
    assert(out@ =~= escape(s@));
    from_chars(&out)
}

/// Whether `s` is written as an expression rather than a quoted literal.
pub fn names_reference(s: &Vec<char>) -> (r: bool)
    ensures
        r == is_reference(s@),
{
    let var_prefix = to_chars("var.");
    let interpolation = to_chars("${");
    has_prefix(s, &var_prefix) || has_prefix(s, &interpolation)
}

/// Appends the literal of the string `s` to `out`.
pub fn text_literal_into(out: &mut Vec<char>, s: &Vec<char>)
    ensures
        final(out)@ == old(out)@ + scalar_literal(JsonTree::Text(s@)),
{
    if names_reference(s) {
        append_chars(out, s);
    } else {
        out.push('"');
        escape_into(out, s);
        out.push('"');
        assert(out@ =~= old(out)@ + quoted(s@));
    }
}

/// Appends the literal of the scalar `value` to `out`.
fn scalar_into(out: &mut Vec<char>, value: &JsonValue)
    requires
        value@.is_scalar(),
    ensures
        final(out)@ == old(out)@ + scalar_literal(value@),
{
    match value {
        JsonValue::Text(s) => {
            let chars = to_chars(s.as_str());
            text_literal_into(out, &chars);
        },
        JsonValue::Number(n) => {
            append_str(out, n.as_str());
        },
        JsonValue::Bool(b) => {
            if *b {
                append_str(out, "true");
            } else {
                append_str(out, "false");
            }
        },
        _ => {
            append_str(out, "null");
        },
    }
}

/// Where the run of decimal digits that begins at `from` ends.
fn after_digits(s: &Vec<char>, from: usize) -> (r: usize)
    requires
        from <= s.len(),
    ensures
        r as int == digits_end(s@, from as int),
        from <= r <= s.len(),
{
    let mut i: usize = from;
    while i < s.len() && '0' <= s[i] && s[i] <= '9'
        invariant
            from <= i <= s.len(),
            digits_end(s@, from as int) == digits_end(s@, i as int),
        decreases s.len() - i,
    {
        i = i + 1;
    }
    i
}

/// Whether `s` is a number literal.
pub fn is_number(s: &Vec<char>) -> (r: bool)
    ensures
        r == is_number_literal(s@),
{
    let n: usize = s.len();
    let start: usize = if n > 0 && s[0] == '-' { 1 } else { 0 };
    if start >= n {
        return false;
    }
    let integer: usize = if s[start] == '0' {
        start + 1
    } else if '0' <= s[start] && s[start] <= '9' {
        after_digits(s, start)
    } else {
        return false;
    };
    let fraction: usize = if integer < n && s[integer] == '.' {
        let end = after_digits(s, integer + 1);
        if end == integer + 1 {
            return false;
        }
        end
    } else {
        integer
    };
    if fraction < n && (s[fraction] == 'e' || s[fraction] == 'E') {
        let digits: usize = if fraction + 1 < n && (s[fraction + 1] == '+' || s[fraction + 1] == '-') {
            fraction + 2
        } else {
            fraction + 1
        };
        let end = after_digits(s, digits);
        end > digits && end == n
    } else {
        fraction == n
    }
}

/// Whether `value` is a scalar that can be written down.
fn is_writable_scalar(value: &JsonValue) -> (r: bool)
    ensures
        r == writable_scalar(value@),
{
    match value {
        JsonValue::Number(n) => {
            let chars = to_chars(n.as_str());
            is_number(&chars)
        },
        JsonValue::Array(items) => {
            proof {
                lemma_array_view(*items);
            }
            false
        },
        JsonValue::Object(members) => {
            proof {
                lemma_object_view(*members);
            }
            false
        },
        _ => true,
    }
}

/// Whether every one of `items` is a scalar that can be written down.
fn only_writable_scalars(items: &Vec<JsonValue>) -> (r: bool)
    ensures
        r == all_writable(items_view(items@)),
{
    let mut i: usize = 0;
    while i < items.len()
        invariant
            i <= items.len(),
            forall|j: int| 0 <= j < i ==> writable_scalar(#[trigger] items_view(items@)[j]),
        decreases items.len() - i,
    {
        assert(items_view(items@)[i as int] == items@[i as int]@);
        if !is_writable_scalar(&items[i]) {
            return false;
        }
        i = i + 1;
    }
    true
}

/// Appends the text of the attribute `key` with value `value` to `out`.
/// Fails, leaving `out` with part of the text, exactly when the value
/// cannot be written down.
pub fn render_into(out: &mut Vec<char>, key: &Vec<char>, value: &JsonValue, indent: &Vec<char>) -> (r:
    Result<(), SerializationError>)
    ensures
        r is Ok <==> representable(value@),
        r is Ok ==> final(out)@ == old(out)@ + render_attribute(key@, value@, indent@),
    decreases value,
{
    match value {
        JsonValue::Array(items) => {
            proof {
                lemma_array_view(*items);
            }
            let ghost trees = items_view(items@);
            if items.len() == 0 {
                append_chars(out, key);
                append_str(out, " = []");
                assert(out@ =~= old(out)@ + (key@ + " = []"@));
                return Ok(());
            }
            if only_writable_scalars(items) {
                assert(all_scalars(trees)) by {
                    assert forall|j: int| 0 <= j < trees.len() implies (#[trigger] trees[j]).is_scalar() by {
                        assert(writable_scalar(trees[j]));
                    }
                }
                append_chars(out, key);
                append_str(out, " = [");
                let ghost head = out@;
                let mut i: usize = 0;
                while i < items.len()
                    invariant
                        i <= items.len(),
                        trees == items_view(items@),
                        all_scalars(trees),
                        out@ == head + join_scalars(trees, i as nat),
                    decreases items.len() - i,
                {
                    let ghost before = out@;
                    if i > 0 {
                        append_str(out, ", ");
                    }
                    assert(trees[i as int].is_scalar());
                    assert(trees[i as int] == items@[i as int]@);
                    scalar_into(out, &items[i]);
                    assert(out@ =~= head + join_scalars(trees, (i + 1) as nat));
                    i = i + 1;
                }
                append_str(out, "]");
                assert(out@ =~= old(out)@ + (key@ + " = ["@ + join_scalars(trees, trees.len()) + "]"@));
                return Ok(());
            }
            let ghost head = out@;
            let mut i: usize = 0;
            assert(out@ =~= head + render_blocks(key@, trees, indent@, 0));
            while i < items.len()
                invariant
                    i <= items.len(),
                    trees == items_view(items@),
                    value == JsonValue::Array(*items),
                    value@ == JsonTree::Array(trees),
                    trees.len() > 0,
                    !all_writable(trees),
                    i > 0 ==> trees[0] is Object,
                    head == old(out)@,
                    blocks_representable(trees, i as nat),
                    out@ == head + render_blocks(key@, trees, indent@, i as nat),
                decreases items.len() - i,
            {
                let ghost before = out@;
                let is_map = match &items[i] {
                    JsonValue::Object(_) => true,
                    _ => false,
                };
                if !is_map {
                    proof {
                        assert(!(trees[i as int] is Object));
                        lemma_blocks_stay_unrepresentable(trees, (i + 1) as nat, trees.len());
                    }
                    return Err(SerializationError::UnsupportedValue);
                }
                if i > 0 {
                    append_str(out, "\n");
                    append_chars(out, indent);
                }
                let ghost mid = out@;
                proof {
                    assert(value is Array && value->Array_0 == *items);
                    assert(decreases_to!(value => value->Array_0));
                    assert(decreases_to!(*items => items[i as int]));
                }
                match render_into(out, key, &items[i], indent) {
                    Ok(()) => {},
                    Err(e) => {
                        proof {
                            assert(trees[i as int] == items@[i as int]@);
                            lemma_blocks_stay_unrepresentable(trees, (i + 1) as nat, trees.len());
                        }
                        return Err(e);
                    },
                }
                assert(out@ =~= head + render_blocks(key@, trees, indent@, (i + 1) as nat));
                i = i + 1;
            }
            Ok(())
        },
        JsonValue::Object(members) => {
            proof {
                lemma_object_view(*members);
            }
            let ghost trees = members_view(members@);
            append_chars(out, key);
            append_str(out, " {\n");
            let ghost head = out@;
            let mut deeper: Vec<char> = Vec::new();
            append_chars(&mut deeper, indent);
            append_str(&mut deeper, "  ");
            assert(deeper@ =~= indent@ + "  "@);
            let mut i: usize = 0;
            assert(out@ =~= head + render_members(trees, indent@, 0));
            while i < members.len()
                invariant
                    i <= members.len(),
                    trees == members_view(members@),
                    value == JsonValue::Object(*members),
                    value@ == JsonTree::Object(trees),
                    deeper@ == indent@ + "  "@,
                    members_representable(trees, i as nat),
                    out@ == head + render_members(trees, indent@, i as nat),
                decreases members.len() - i,
            {
                let ghost before = out@;
                append_chars(out, &deeper);
                let name = to_chars(members[i].0.as_str());
                proof {
                    assert(value is Object && value->Object_0 == *members);
                    assert(decreases_to!(value => value->Object_0));
                    assert(decreases_to!(*members => members[i as int]));
                    assert(decreases_to!(members[i as int] => members[i as int].1));
                }
                match render_into(out, &name, &members[i].1, &deeper) {
                    Ok(()) => {},
                    Err(e) => {
                        proof {
                            assert(trees[i as int].1 == members@[i as int].1@);
                            lemma_members_stay_unrepresentable(trees, (i + 1) as nat, trees.len());
                        }
                        return Err(e);
                    },
                }
                append_str(out, "\n");
                assert(out@ =~= head + render_members(trees, indent@, (i + 1) as nat));
                i = i + 1;
            }
            append_chars(out, indent);
            append_str(out, "}");
            assert(out@ =~= old(out)@ + (key@ + " {\n"@ + render_members(trees, indent@, trees.len())
                + indent@ + "}"@));
            Ok(())
        },
        _ => {
            if !is_writable_scalar(value) {
                return Err(SerializationError::UnsupportedValue);
            }
            append_chars(out, key);
            append_str(out, " = ");
            scalar_into(out, value);
            assert(out@ =~= old(out)@ + (key@ + " = "@ + scalar_literal(value@)));
            Ok(())
        },
    }
}

pub proof fn lemma_blocks_stay_unrepresentable(items: Seq<JsonTree>, at: nat, upto: nat)
    requires
        !blocks_representable(items, at),
        at <= upto <= items.len(),
    ensures
        !blocks_representable(items, upto),
    decreases upto - at,
{
    if at < upto {
        lemma_blocks_stay_unrepresentable(items, at, (upto - 1) as nat);
    }
}

pub proof fn lemma_members_stay_unrepresentable(members: Seq<(Seq<char>, JsonTree)>, at: nat, upto: nat)
    requires
        !members_representable(members, at),
        at <= upto <= members.len(),
    ensures
        !members_representable(members, upto),
    decreases upto - at,
{
    if at < upto {
        lemma_members_stay_unrepresentable(members, at, (upto - 1) as nat);
    }
}

/// A vector holding the indentation of nesting level `level`.
pub fn make_indent(level: usize) -> (r: Vec<char>)
    ensures
        r@ == indentation(level as nat),
{
    let mut r: Vec<char> = Vec::new();
    let mut i: usize = 0;
    while i < level
        invariant
            i <= level,
            r@ == indentation(i as nat),
        decreases level - i,
    {
        append_str(&mut r, "  ");
        i = i + 1;
    }
    r
}

/// The text of one attribute: `key` with `value` at nesting level
/// `indent_level`. Fails exactly when the value cannot be written down.
pub fn json_to_hcl(key: &str, value: &JsonValue, indent_level: usize) -> (r: Result<
    String,
    SerializationError,
>)
    ensures
        match r {
            Ok(text) => representable(value@) && text@ == render_attribute(
                key@,
                value@,
                indentation(indent_level as nat),
            ),
            Err(e) => !representable(value@) && e == SerializationError::UnsupportedValue,
        },
{
    let indent = make_indent(indent_level);
    let name = to_chars(key);
    let mut out: Vec<char> = Vec::new();
    match render_into(&mut out, &name, value, &indent) {
        Ok(()) => {
            assert(out@ =~= render_attribute(key@, value@, indentation(indent_level as nat)));
            Ok(from_chars(&out))
        },
        Err(e) => Err(SerializationError::UnsupportedValue),
    }
}


/// The character that stands escaped behind a backslash.
pub open spec fn unescape_char(c: char) -> char {
    if c == 'n' {
        '\n'
    } else if c == 'r' {
        '\r'
    } else if c == 't' {
        '\t'
    } else {
        c
    }
}

/// The text that the inside of a quoted literal stands for: a backslash
/// and the character behind it give one character, every other character
/// gives itself.
pub open spec fn unescape(s: Seq<char>) -> Seq<char>
    decreases s.len(),
{
    if s.len() == 0 {
        Seq::empty()
    } else if s[0] == '\\' && s.len() >= 2 {
        seq![unescape_char(s[1])] + unescape(s.skip(2))
    } else {
        seq![s[0]] + unescape(s.skip(1))
    }
}

/// The scalar that a literal stands for: `true`, `false`, `null`, a quoted
/// string or a number. `None` for anything else, such as an expression.
pub open spec fn parse_literal(text: Seq<char>) -> Option<JsonTree> {
    if text == "true"@ {
        Some(JsonTree::Bool(true))
    } else if text == "false"@ {
        Some(JsonTree::Bool(false))
    } else if text == "null"@ {
        Some(JsonTree::Null)
    } else if text.len() >= 2 && text[0] == '"' && text.last() == '"' {
        Some(JsonTree::Text(unescape(text.subrange(1, text.len() - 1))))
    } else if is_number_literal(text) {
        Some(JsonTree::Number(text))
    } else {
        None
    }
}

proof fn lemma_unescape_after_escape(s: Seq<char>, rest: Seq<char>)
    ensures
        unescape(escape(s) + rest) == s + unescape(rest),
    decreases s.len(),
{
    if s.len() == 0 {
        assert(escape(s) + rest =~= rest);
        assert(s + unescape(rest) =~= unescape(rest));
    } else {
        let head = s.drop_last();
        let c = s.last();
        let tail = escape_char(c) + rest;
        assert(escape(s) + rest =~= escape(head) + tail);
        lemma_unescape_after_escape(head, tail);
        if c == '\\' || c == '"' || c == '\n' || c == '\r' || c == '\t' {
            assert(tail.len() >= 2 && tail[0] == '\\');
            assert(tail.skip(2) =~= rest);
            assert(unescape_char(tail[1]) == c);
        } else {
            assert(tail[0] == c);
            assert(tail.skip(1) =~= rest);
        }
        assert(unescape(tail) =~= seq![c] + unescape(rest));
        assert(head + (seq![c] + unescape(rest)) =~= s + unescape(rest));
    }
}

/// Escaping loses nothing: what stands escaped between the quotes of a
/// literal reads back as the string that was written.
pub proof fn lemma_unescape_escape(s: Seq<char>)
    ensures
        unescape(escape(s)) == s,
{
    lemma_unescape_after_escape(s, Seq::empty());
    assert(escape(s) + Seq::<char>::empty() =~= escape(s));
    assert(s + unescape(Seq::<char>::empty()) =~= s);
}

/// Round trip: the literal of a scalar that can be written down, be it a
/// string, a number, a boolean or null, reads back as the value that was
/// written. A string that is written as an expression is left out.
pub proof fn lemma_literal_round_trip(v: JsonTree)
    requires
        writable_scalar(v),
        v matches JsonTree::Text(s) ==> !is_reference(s),
    ensures
        parse_literal(scalar_literal(v)) == Some(v),
{
    reveal_strlit("true");
    reveal_strlit("false");
    reveal_strlit("null");
    match v {
        JsonTree::Text(s) => {
            let text = quoted(s);
            assert(text.len() == escape(s).len() + 2);
            assert(text[0] == '"');
            assert(text.last() == '"');
            assert(text.subrange(1, text.len() - 1) =~= escape(s));
            lemma_unescape_escape(s);
            assert(text != "true"@);
            assert(text != "false"@);
            assert(text != "null"@);
        },
        JsonTree::Number(n) => {
            assert(n != "true"@);
            assert(n != "false"@);
            assert(n != "null"@);
            assert(n[0] != '"');
        },
        JsonTree::Bool(b) => {
            assert("true"@.len() == 4 && "false"@.len() == 5);
        },
        _ => {
            assert("null"@[0] == 'n' && "true"@[0] == 't');
            assert("null"@.len() == 4 && "false"@.len() == 5);
        },
    }
}

/// The attribute of a scalar is its key, ` = ` and its literal, so the
/// literal can be read back from behind the key.
pub proof fn lemma_scalar_attribute(key: Seq<char>, v: JsonTree, indent: Seq<char>)
    requires
        v.is_scalar(),
    ensures
        render_attribute(key, v, indent) == key + " = "@ + scalar_literal(v),
        render_attribute(key, v, indent).skip((key.len() + " = "@.len()) as int) == scalar_literal(v),
{
    assert((key + " = "@ + scalar_literal(v)).skip((key.len() + " = "@.len()) as int) =~= scalar_literal(v));
}

/// The text that the inside of a quoted literal stands for.
pub fn unescape_chars(s: &Vec<char>) -> (r: Vec<char>)
    ensures
        r@ == unescape(s@),
{
    let mut out: Vec<char> = Vec::new();
    let mut i: usize = 0;
    assert(s@.skip(0) =~= s@);
    assert(out@ + unescape(s@.skip(0)) =~= unescape(s@));
    while i < s.len()
        invariant
            i <= s.len(),
            unescape(s@) == out@ + unescape(s@.skip(i as int)),
        decreases s.len() - i,
    {
        let ghost rest = s@.skip(i as int);
        let ghost before = out@;
        assert(rest[0] == s@[i as int]);
        if s[i] == '\\' && s.len() - i >= 2 {
            let c = s[i + 1];
            assert(rest[1] == c);
            let plain = if c == 'n' {
                '\n'
            } else if c == 'r' {
                '\r'
            } else if c == 't' {
                '\t'
            } else {
                c
            };
            out.push(plain);
            assert(rest.skip(2) =~= s@.skip(i + 2));
            assert(before + (seq![plain] + unescape(rest.skip(2))) =~= before.push(plain) + unescape(
                rest.skip(2),
            ));
            i = i + 2;
        } else {
            out.push(s[i]);
            assert(rest.skip(1) =~= s@.skip(i + 1));
            assert(before + (seq![s@[i as int]] + unescape(rest.skip(1))) =~= before.push(
                s@[i as int],
            ) + unescape(rest.skip(1)));
            i = i + 1;
        }
    }
    assert(unescape(s@.skip(i as int)) =~= Seq::<char>::empty());
    assert(out@ + Seq::<char>::empty() =~= out@);
    out
}

/// Reads a literal back: `true`, `false`, `null`, a quoted string or a
/// number.
pub fn parse_scalar_literal(text: &str) -> (r: Option<JsonValue>)
    ensures
        match r {
            Some(v) => parse_literal(text@) == Some(v@),
            None => parse_literal(text@) is None,
        },
{
    let chars = to_chars(text);
    if text_is(&chars, "true") {
        Some(JsonValue::Bool(true))
    } else if text_is(&chars, "false") {
        Some(JsonValue::Bool(false))
    } else if text_is(&chars, "null") {
        Some(JsonValue::Null)
    } else if chars.len() >= 2 && chars[0] == '"' && chars[chars.len() - 1] == '"' {
        let inner = copy_range(&chars, 1, chars.len() - 1);
        let plain = unescape_chars(&inner);
        Some(JsonValue::Text(from_chars(&plain)))
    } else if is_number(&chars) {
        Some(JsonValue::Number(text.to_string()))
    } else {
        None
    }
}

} // verus!
