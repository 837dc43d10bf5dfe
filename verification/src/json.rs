//! The JSON wire model. Request bodies are rendered by the library itself,
//! character by character, against exact specifications; response bodies
//! reach the library as a [`JsonValue`] tree (built by the unverified
//! transport from the raw text) and are decoded here into typed values.

use vstd::prelude::*;

verus! {

use crate::strutil::hex_digit;
use crate::strutil::hex_digit_char;
use crate::strutil::push_char;
use crate::strutil::str_eq;

/// A JSON value, as far as this protocol needs one: numbers are unsigned
/// integers (the protocol carries counts and cursors only).
#[derive(Debug)]
pub enum JsonValue {
    /// JSON `null`.
    Null,
    /// A JSON boolean.
    Bool(bool),
    /// A JSON number; the protocol only ever carries unsigned integers.
    UInt(u64),
    /// A JSON string.
    Str(String),
    /// A JSON array.
    Arr(Vec<JsonValue>),
    /// A JSON object: fields in order of appearance.
    Obj(Vec<(String, JsonValue)>),
}

/// How one character is written inside a JSON string literal.
pub open spec fn escaped_char(c: char) -> Seq<char> {
    if c == '"' {
        seq!['\\', '"']
    } else if c == '\\' {
        seq!['\\', '\\']
    } else if c == '\n' {
        seq!['\\', 'n']
    } else if c == '\r' {
        seq!['\\', 'r']
    } else if c == '\t' {
        seq!['\\', 't']
    } else if (c as u32) < 0x20 {
        seq!['\\', 'u', '0', '0', hex_digit((c as u32 / 16) as nat), hex_digit((c as u32 % 16) as nat)]
    } else {
        seq![c]
    }
}

/// The escaped form of a whole string.
pub open spec fn json_escaped(s: Seq<char>) -> Seq<char>
    decreases s.len(),
{
    if s.len() == 0 {
        Seq::empty()
    } else {
        escaped_char(s[0]) + json_escaped(s.drop_first())
    }
}

/// A JSON string literal: the escaped characters between double quotes.
pub open spec fn json_str_lit(s: Seq<char>) -> Seq<char> {
    seq!['"'] + json_escaped(s) + seq!['"']
}

proof fn lemma_json_escaped_push(s: Seq<char>, c: char)
    ensures
        json_escaped(s.push(c)) == json_escaped(s) + escaped_char(c),
    decreases s.len(),
{
    if s.len() == 0 {
        let t = s.push(c);
        assert(t.len() == 1);
        assert(t[0] == c);
        assert(t.drop_first().len() == 0);
        assert(json_escaped(t.drop_first()) == Seq::<char>::empty());
        assert(json_escaped(t) == escaped_char(c) + json_escaped(t.drop_first()));
        assert(json_escaped(s) == Seq::<char>::empty());
        assert(escaped_char(c) + Seq::<char>::empty() =~= escaped_char(c));
        assert(Seq::<char>::empty() + escaped_char(c) =~= escaped_char(c));
    } else {
        assert(s.push(c)[0] == s[0]);
        assert(s.push(c).drop_first() =~= s.drop_first().push(c));
        lemma_json_escaped_push(s.drop_first(), c);
        assert(escaped_char(s[0]) + (json_escaped(s.drop_first()) + escaped_char(c)) =~= (
        escaped_char(s[0]) + json_escaped(s.drop_first())) + escaped_char(c));
    }
}

/// Appends the escaped form of `s` to `out`.
pub fn append_json_escaped(out: &mut String, s: &str)
    ensures
        final(out)@ == old(out)@ + json_escaped(s@),
{
    let n = s.unicode_len();
    let mut i: usize = 0;
    while i < n
        invariant
            n == s@.len(),
            i <= n,
            out@ == old(out)@ + json_escaped(s@.take(i as int)),
        decreases n - i,
    {
        let c = s.get_char(i);
        proof {
            lemma_json_escaped_push(s@.take(i as int), c);
            assert(s@.take(i as int + 1) =~= s@.take(i as int).push(c));
        }
        if c == '"' {
            push_char(out, '\\');
            push_char(out, '"');
        } else if c == '\\' {
            push_char(out, '\\');
            push_char(out, '\\');
        } else if c == '\n' {
            push_char(out, '\\');
            push_char(out, 'n');
        } else if c == '\r' {
            push_char(out, '\\');
            push_char(out, 'r');
        } else if c == '\t' {
            push_char(out, '\\');
            push_char(out, 't');
        } else if (c as u32) < 0x20 {
            push_char(out, '\\');
            push_char(out, 'u');
            push_char(out, '0');
            push_char(out, '0');
            push_char(out, hex_digit_char(c as u32 / 16));
            push_char(out, hex_digit_char(c as u32 % 16));
        } else {
            push_char(out, c);
        }
        assert(out@ =~= old(out)@ + json_escaped(s@.take(i as int + 1)));
        i += 1;
    }
    assert(s@.take(n as int) =~= s@);
}

/// Appends the JSON string literal for `s` to `out`.
pub fn append_json_string(out: &mut String, s: &str)
    ensures
        final(out)@ == old(out)@ + json_str_lit(s@),
{
    push_char(out, '"');
    append_json_escaped(out, s);
    push_char(out, '"');
    assert(out@ =~= old(out)@ + json_str_lit(s@));
}

/// One `"key":` prefix of a JSON object member.
pub open spec fn json_key(key: Seq<char>) -> Seq<char> {
    json_str_lit(key) + seq![':']
}

/// Appends `"key":` to `out`.
pub fn append_json_key(out: &mut String, key: &str)
    ensures
        final(out)@ == old(out)@ + json_key(key@),
{
    append_json_string(out, key);
    push_char(out, ':');
    assert(out@ =~= old(out)@ + json_key(key@));
}

/// The value of the first field named `key`, if any.
pub open spec fn obj_lookup(fields: Seq<(String, JsonValue)>, key: Seq<char>) -> Option<
    JsonValue,
>
    decreases fields.len(),
{
    if fields.len() == 0 {
        None
    } else if fields[0].0@ == key {
        Some(fields[0].1)
    } else {
        obj_lookup(fields.drop_first(), key)
    }
}

proof fn lemma_obj_lookup_skip(fields: Seq<(String, JsonValue)>, key: Seq<char>, i: int)
    requires
        0 <= i <= fields.len(),
        forall|j: int| 0 <= j < i ==> #[trigger] fields[j].0@ != key,
    ensures
        obj_lookup(fields, key) == obj_lookup(fields.skip(i), key),
    decreases i,
{
    if i > 0 {
        assert(fields.drop_first() =~= fields.skip(1));
        lemma_obj_lookup_skip(fields.skip(1), key, i - 1);
        assert(fields.skip(1).skip(i - 1) =~= fields.skip(i));
    } else {
        assert(fields.skip(0) =~= fields);
    }
}

/// Finds the first field named `key` in an object's field list.
pub fn obj_get<'a>(fields: &'a Vec<(String, JsonValue)>, key: &str) -> (r: Option<
    &'a JsonValue,
>)
    ensures
        match r {
            Some(v) => obj_lookup(fields@, key@) == Some(*v),
            None => obj_lookup(fields@, key@) is None,
        },
{
    let n = fields.len();
    let mut i: usize = 0;
    while i < n
        invariant
            n == fields@.len(),
            i <= n,
            forall|j: int| 0 <= j < i ==> #[trigger] fields@[j].0@ != key@,
        decreases n - i,
    {
        proof {
            lemma_obj_lookup_skip(fields@, key@, i as int);
        }
        if str_eq(fields[i].0.as_str(), key) {
            assert(fields@.skip(i as int)[0] == fields@[i as int]);
            return Some(&fields[i].1);
        }
        i += 1;
    }
    proof {
        lemma_obj_lookup_skip(fields@, key@, n as int);
        assert(fields@.skip(n as int) =~= Seq::empty());
    }
    None
}

/// The comma-separated string literals of a JSON array of strings.
pub open spec fn json_str_items(items: Seq<Seq<char>>) -> Seq<char>
    decreases items.len(),
{
    if items.len() == 0 {
        Seq::empty()
    } else if items.len() == 1 {
        json_str_lit(items[0])
    } else {
        json_str_lit(items[0]) + seq![','] + json_str_items(items.drop_first())
    }
}

/// A JSON array of string literals.
pub open spec fn json_str_array(items: Seq<Seq<char>>) -> Seq<char> {
    seq!['['] + json_str_items(items) + seq![']']
}

proof fn lemma_json_str_items_push(items: Seq<Seq<char>>, x: Seq<char>)
    ensures
        json_str_items(items.push(x)) == if items.len() == 0 {
            json_str_lit(x)
        } else {
            json_str_items(items) + seq![','] + json_str_lit(x)
        },
    decreases items.len(),
{
    let t = items.push(x);
    if items.len() == 0 {
        assert(t.len() == 1);
        assert(t[0] == x);
    } else if items.len() == 1 {
        assert(t.len() == 2);
        assert(t[0] == items[0]);
        assert(t.drop_first() =~= seq![x]);
        assert(t.drop_first().len() == 1);
        assert(t.drop_first()[0] == x);
        assert(json_str_items(t.drop_first()) == json_str_lit(x));
    } else {
        let a = json_str_lit(items[0]);
        let b = json_str_items(items.drop_first());
        let c = json_str_lit(x);
        assert(t[0] == items[0]);
        assert(t.drop_first() =~= items.drop_first().push(x));
        lemma_json_str_items_push(items.drop_first(), x);
        assert(json_str_items(t.drop_first()) == b + seq![','] + c);
        assert(t.len() >= 3);
        assert(json_str_items(t) == a + seq![','] + json_str_items(t.drop_first()));
        assert(json_str_items(items) == a + seq![','] + b);
        assert((a + seq![','] + (b + seq![','] + c)) =~= ((a + seq![','] + b) + seq![','] + c));
    }
}

/// Appends the JSON array of the given strings to `out`.
pub fn append_json_str_array(out: &mut String, items: &Vec<String>)
    ensures
        final(out)@ == old(out)@ + json_str_array(items.deep_view()),
{
    push_char(out, '[');
    let n = items.len();
    let mut i: usize = 0;
    proof {
        assert(items.deep_view().take(0) =~= Seq::<Seq<char>>::empty());
    }
    while i < n
        invariant
            n == items@.len(),
            n == items.deep_view().len(),
            i <= n,
            forall|k: int| 0 <= k < n ==> items.deep_view()[k] == #[trigger] items@[k]@,
            out@ == old(out)@ + seq!['['] + json_str_items(items.deep_view().take(i as int)),
        decreases n - i,
    {
        proof {
            lemma_json_str_items_push(items.deep_view().take(i as int), items.deep_view()[i as int]);
            assert(items.deep_view().take(i as int + 1) =~= items.deep_view().take(
                i as int,
            ).push(items.deep_view()[i as int]));
        }
        if i > 0 {
            push_char(out, ',');
        }
        append_json_string(out, items[i].as_str());
        proof {
            assert(out@ =~= old(out)@ + seq!['['] + json_str_items(
                items.deep_view().take(i as int + 1),
            ));
        }
        i += 1;
    }
    push_char(out, ']');
    proof {
        assert(items.deep_view().take(n as int) =~= items.deep_view());
        assert(out@ =~= old(out)@ + json_str_array(items.deep_view()));
    }
}

/// Comma-joined concatenation of rendered items.
pub open spec fn joined(items: Seq<Seq<char>>) -> Seq<char>
    decreases items.len(),
{
    if items.len() == 0 {
        Seq::empty()
    } else if items.len() == 1 {
        items[0]
    } else {
        items[0] + seq![','] + joined(items.drop_first())
    }
}

/// Appending one item extends a comma-joined rendering by a comma (when the
/// list was not empty) and the item.
pub proof fn lemma_joined_push(items: Seq<Seq<char>>, x: Seq<char>)
    ensures
        joined(items.push(x)) == if items.len() == 0 {
            x
        } else {
            joined(items) + seq![','] + x
        },
    decreases items.len(),
{
    let t = items.push(x);
    if items.len() == 0 {
        assert(t.len() == 1);
        assert(t[0] == x);
    } else if items.len() == 1 {
        assert(t.len() == 2);
        assert(t[0] == items[0]);
        assert(t.drop_first() =~= seq![x]);
        assert(t.drop_first().len() == 1);
        assert(t.drop_first()[0] == x);
        assert(joined(t.drop_first()) == x);
    } else {
        let a = items[0];
        let b = joined(items.drop_first());
        assert(t[0] == items[0]);
        assert(t.drop_first() =~= items.drop_first().push(x));
        lemma_joined_push(items.drop_first(), x);
        assert(joined(t.drop_first()) == b + seq![','] + x);
        assert(t.len() >= 3);
        assert(joined(t) == a + seq![','] + joined(t.drop_first()));
        assert(joined(items) == a + seq![','] + b);
        assert((a + seq![','] + (b + seq![','] + x)) =~= ((a + seq![','] + b) + seq![','] + x));
    }
}

/// An optional string field of an object: absent or `null` means none; a
/// string means that string; anything else does not decode.
pub open spec fn opt_str_field(fields: Seq<(String, JsonValue)>, key: Seq<char>) -> Option<
    Option<String>,
> {
    match obj_lookup(fields, key) {
        None => Some(None),
        Some(JsonValue::Null) => Some(None),
        Some(JsonValue::Str(s)) => Some(Some(s)),
        Some(_) => None,
    }
}

/// Reads an optional string field of an object.
pub fn get_opt_str(fields: &Vec<(String, JsonValue)>, key: &str) -> (r: Option<Option<String>>)
    ensures
        r == opt_str_field(fields@, key@),
{
    match obj_get(fields, key) {
        None => Some(None),
        Some(JsonValue::Null) => Some(None),
        Some(JsonValue::Str(s)) => Some(Some(s.clone())),
        Some(_) => None,
    }
}

/// An optional unsigned 32-bit field of an object: absent or `null` means
/// none; an integer in range means that integer; anything else does not
/// decode.
pub open spec fn opt_u32_field(fields: Seq<(String, JsonValue)>, key: Seq<char>) -> Option<
    Option<u32>,
> {
    match obj_lookup(fields, key) {
        None => Some(None),
        Some(JsonValue::Null) => Some(None),
        Some(JsonValue::UInt(n)) => {
            if n <= 0xFFFF_FFFF {
                Some(Some(n as u32))
            } else {
                None
            }
        },
        Some(_) => None,
    }
}

/// Reads an optional unsigned 32-bit field of an object.
pub fn get_opt_u32(fields: &Vec<(String, JsonValue)>, key: &str) -> (r: Option<Option<u32>>)
    ensures
        r == opt_u32_field(fields@, key@),
{
    match obj_get(fields, key) {
        None => Some(None),
        Some(JsonValue::Null) => Some(None),
        Some(JsonValue::UInt(n)) => {
            if *n <= 0xFFFF_FFFF {
                Some(Some(*n as u32))
            } else {
                None
            }
        },
        Some(_) => None,
    }
}

/// A typed value that can be decoded from one JSON tree.
pub trait JsonDecode where Self: core::marker::Sized {
    /// What decoding yields for a given tree: the value, when the tree has
    /// the right shape, and nothing otherwise.
    spec fn decode_spec(j: JsonValue) -> Option<Self>;

    /// Decodes one value from a tree.
    fn decode_json(j: &JsonValue) -> (r: Option<Self>)
        ensures
            r == Self::decode_spec(*j),
    ;
}

/// Element-wise decoding of a sequence of trees: all elements must decode.
pub open spec fn seq_decoded<T: JsonDecode>(items: Seq<JsonValue>) -> Option<Seq<T>>
    decreases items.len(),
{
    if items.len() == 0 {
        Some(Seq::empty())
    } else {
        match (seq_decoded::<T>(items.drop_last()), T::decode_spec(items.last())) {
            (Some(front), Some(t)) => Some(front.push(t)),
            _ => None,
        }
    }
}

/// Decoding of a JSON array into a list of typed values.
pub open spec fn list_decoded<T: JsonDecode>(j: JsonValue) -> Option<Seq<T>> {
    match j {
        JsonValue::Arr(items) => seq_decoded::<T>(items@),
        _ => None,
    }
}

proof fn lemma_seq_decoded_prefix_none<T: JsonDecode>(items: Seq<JsonValue>, k: int)
    requires
        0 <= k <= items.len(),
        seq_decoded::<T>(items.take(k)) is None,
    ensures
        seq_decoded::<T>(items) is None,
    decreases items.len(),
{
    if items.len() > k {
        assert(items.drop_last().take(k) =~= items.take(k));
        lemma_seq_decoded_prefix_none::<T>(items.drop_last(), k);
    } else {
        assert(items.take(k) =~= items);
    }
}

/// Decodes a JSON array element by element; fails if the value is not an
/// array or any element fails to decode.
pub fn decode_list<T: JsonDecode>(j: &JsonValue) -> (r: Option<Vec<T>>)
    ensures
        match r {
            Some(v) => list_decoded::<T>(*j) == Some(v@),
            None => list_decoded::<T>(*j) is None,
        },
{
    let items = match j {
        JsonValue::Arr(items) => items,
        _ => { return None; },
    };
    let n = items.len();
    let mut out: Vec<T> = Vec::new();
    let mut i: usize = 0;
    proof {
        assert(items@.take(0) =~= Seq::<JsonValue>::empty());
    }
    while i < n
        invariant
            n == items@.len(),
            i <= n,
            list_decoded::<T>(*j) == seq_decoded::<T>(items@),
            seq_decoded::<T>(items@.take(i as int)) == Some(out@),
        decreases n - i,
    {
        proof {
            assert(items@.take(i as int + 1).drop_last() =~= items@.take(i as int));
            assert(items@.take(i as int + 1).last() == items@[i as int]);
        }
        match T::decode_json(&items[i]) {
            Some(t) => {
                out.push(t);
            },
            None => {
                proof {
                    lemma_seq_decoded_prefix_none::<T>(items@, i as int + 1);
                }
                return None;
            },
        }
        i += 1;
    }
    proof {
        assert(items@.take(n as int) =~= items@);
    }
    Some(out)
}

impl JsonDecode for String {
    open spec fn decode_spec(j: JsonValue) -> Option<String> {
        match j {
            JsonValue::Str(s) => Some(s),
            _ => None,
        }
    }

    fn decode_json(j: &JsonValue) -> (r: Option<String>) {
        match j {
            JsonValue::Str(s) => Some(s.clone()),
            _ => None,
        }
    }
}

impl JsonDecode for (String, String) {
    open spec fn decode_spec(j: JsonValue) -> Option<(String, String)> {
        match j {
            JsonValue::Arr(items) => {
                if items@.len() == 2 {
                    match (items@[0], items@[1]) {
                        (JsonValue::Str(a), JsonValue::Str(b)) => Some((a, b)),
                        _ => None,
                    }
                } else {
                    None
                }
            },
            _ => None,
        }
    }

    fn decode_json(j: &JsonValue) -> (r: Option<(String, String)>) {
        match j {
            JsonValue::Arr(items) => {
                if items.len() == 2 {
                    match (&items[0], &items[1]) {
                        (JsonValue::Str(a), JsonValue::Str(b)) => Some((a.clone(), b.clone())),
                        _ => None,
                    }
                } else {
                    None
                }
            },
            _ => None,
        }
    }
}

} // verus!
