//! A TOML document held as plain values, the lookups that the migration
//! makes in it, and the parse of TOML text (by the `toml` crate).

use vstd::prelude::*;
use crate::text::{owned, same_text};

verus! {

/// A TOML value in mathematical form. Floats are kept as the bit pattern of
/// their `f64` value; datetimes as their TOML text.
pub enum TomlNode {
    Str(Seq<char>),
    Integer(i64),
    Float(u64),
    Boolean(bool),
    Datetime(Seq<char>),
    Array(Seq<TomlNode>),
    Table(Seq<(Seq<char>, TomlNode)>),
}

/// A TOML value. A table keeps its entries in order; looking a key up finds
/// the first entry with that key (a parsed document has no duplicate keys).
pub enum TomlValue {
    Str(String),
    Integer(i64),
    /// The bit pattern of the `f64` value.
    Float(u64),
    Boolean(bool),
    /// The datetime as TOML writes it.
    Datetime(String),
    Array(Vec<TomlValue>),
    Table(Vec<(String, TomlValue)>),
}

impl TomlValue {
    pub open spec fn node(self) -> TomlNode
        decreases self,
    {
        match self {
            TomlValue::Str(s) => TomlNode::Str(s@),
            TomlValue::Integer(i) => TomlNode::Integer(i),
            TomlValue::Float(b) => TomlNode::Float(b),
            TomlValue::Boolean(b) => TomlNode::Boolean(b),
            TomlValue::Datetime(s) => TomlNode::Datetime(s@),
            TomlValue::Array(items) => TomlNode::Array(
                Seq::new(
                    items.len() as nat,
                    |i: int|
                        if 0 <= i < items.len() {
                            items@[i].node()
                        } else {
                            TomlNode::Boolean(false)
                        },
                ),
            ),
            TomlValue::Table(entries) => TomlNode::Table(
                Seq::new(
                    entries.len() as nat,
                    |i: int|
                        if 0 <= i < entries.len() {
                            (entries@[i].0@, entries@[i].1.node())
                        } else {
                            (Seq::empty(), TomlNode::Boolean(false))
                        },
                ),
            ),
        }
    }
}

impl View for TomlValue {
    type V = TomlNode;

    open spec fn view(&self) -> TomlNode {
        self.node()
    }
}

/// `i` is the position of the first entry whose key is `key`.
pub open spec fn is_first_key(entries: Seq<(Seq<char>, TomlNode)>, key: Seq<char>, i: int) -> bool {
    &&& 0 <= i < entries.len()
    &&& entries[i].0 == key
    &&& forall|j: int| 0 <= j < i ==> entries[j].0 != key
}

/// The value of the first entry with key `key`, if any.
pub open spec fn table_get(entries: Seq<(Seq<char>, TomlNode)>, key: Seq<char>) -> Option<TomlNode> {
    if exists|i: int| is_first_key(entries, key, i) {
        Some(entries[choose|i: int| is_first_key(entries, key, i)].1)
    } else {
        None
    }
}

/// `toml::Value::get(key)`: the entry `key` of a table; nothing for other values.
pub open spec fn node_get(n: TomlNode, key: Seq<char>) -> Option<TomlNode> {
    match n {
        TomlNode::Table(entries) => table_get(entries, key),
        _ => None,
    }
}

/// The value reached from `n` by following the keys of `path` in turn.
pub open spec fn node_at(n: TomlNode, path: Seq<Seq<char>>) -> Option<TomlNode>
    decreases path.len(),
{
    if path.len() == 0 {
        Some(n)
    } else {
        match node_get(n, path[0]) {
            Some(child) => node_at(child, path.subrange(1, path.len() as int)),
            None => None,
        }
    }
}

/// The string at `path`, if the value there is a string.
pub open spec fn str_at(n: TomlNode, path: Seq<Seq<char>>) -> Option<Seq<char>> {
    match node_at(n, path) {
        Some(TomlNode::Str(s)) => Some(s),
        _ => None,
    }
}

/// The boolean at `path`, if the value there is a boolean.
pub open spec fn bool_at(n: TomlNode, path: Seq<Seq<char>>) -> Option<bool> {
    match node_at(n, path) {
        Some(TomlNode::Boolean(b)) => Some(b),
        _ => None,
    }
}

/// The integer at `path`, if the value there is an integer.
pub open spec fn int_at(n: TomlNode, path: Seq<Seq<char>>) -> Option<i64> {
    match node_at(n, path) {
        Some(TomlNode::Integer(i)) => Some(i),
        _ => None,
    }
}

/// The float at `path` (its `f64` bit pattern), if the value there is a float.
pub open spec fn float_at(n: TomlNode, path: Seq<Seq<char>>) -> Option<u64> {
    match node_at(n, path) {
        Some(TomlNode::Float(b)) => Some(b),
        _ => None,
    }
}

/// The strings among `items`, in order; other items are left out.
pub open spec fn strings_in(items: Seq<TomlNode>) -> Seq<Seq<char>>
    decreases items.len(),
{
    if items.len() == 0 {
        Seq::empty()
    } else {
        let rest = strings_in(items.drop_last());
        match items.last() {
            TomlNode::Str(s) => rest.push(s),
            _ => rest,
        }
    }
}

/// The strings of the array at `path`, if the value there is an array.
pub open spec fn strings_at(n: TomlNode, path: Seq<Seq<char>>) -> Option<Seq<Seq<char>>> {
    match node_at(n, path) {
        Some(TomlNode::Array(items)) => Some(strings_in(items)),
        _ => None,
    }
}

/// The path given by a slice of keys.
pub open spec fn path_of(keys: Seq<&str>) -> Seq<Seq<char>> {
    keys.map_values(|k: &str| k@)
}

/// The characters of each string.
pub open spec fn texts(v: Seq<String>) -> Seq<Seq<char>> {
    v.map_values(|s: String| s@)
}

pub open spec fn opt_node(r: Option<&TomlValue>) -> Option<TomlNode> {
    match r {
        Some(v) => Some(v@),
        None => None,
    }
}

pub open spec fn opt_text(r: Option<&str>) -> Option<Seq<char>> {
    match r {
        Some(s) => Some(s@),
        None => None,
    }
}

pub open spec fn opt_texts(r: Option<Vec<String>>) -> Option<Seq<Seq<char>>> {
    match r {
        Some(v) => Some(texts(v@)),
        None => None,
    }
}

/// `toml::Value::get(key)` on a value: the first table entry with that key.
pub fn toml_get<'a>(v: &'a TomlValue, key: &str) -> (r: Option<&'a TomlValue>)
    ensures
        opt_node(r) == node_get(v@, key@),
{
    match v {
        TomlValue::Table(entries) => {
            let ghost es = v@->Table_0;
            let mut i: usize = 0;
            while i < entries.len()
                invariant
                    es.len() == entries.len(),
                    es == v@->Table_0,
                    v@ == TomlNode::Table(es),
                    forall|k: int| 0 <= k < entries.len() ==> #[trigger] es[k] == (entries@[k].0@, entries@[k].1@),
                    i <= entries.len(),
                    forall|j: int| 0 <= j < i ==> es[j].0 != key@,
                decreases entries.len() - i,
            {
                if same_text(entries[i].0.as_str(), key) {
                    assert(is_first_key(es, key@, i as int));
                    let ghost c = choose|c: int| is_first_key(es, key@, c);
                    assert(c == i);
                    return Some(&entries[i].1);
                }
                i = i + 1;
            }
            assert(!exists|c: int| is_first_key(es, key@, c));
            None
        },
        _ => None,
    }
}

/// The value reached by following `keys` in turn from `value`.
pub fn toml_pointer<'a>(value: &'a TomlValue, keys: &[&str]) -> (r: Option<&'a TomlValue>)
    ensures
        opt_node(r) == node_at(value@, path_of(keys@)),
{
    let mut current = value;
    let mut i: usize = 0;
    let ghost path = path_of(keys@);
    assert(path.subrange(0, path.len() as int) =~= path);
    while i < keys.len()
        invariant
            path == path_of(keys@),
            i <= keys.len(),
            node_at(value@, path) == node_at(current@, path.subrange(i as int, path.len() as int)),
        decreases keys.len() - i,
    {
        let ghost rest = path.subrange(i as int, path.len() as int);
        assert(rest[0] == keys@[i as int]@);
        assert(rest.subrange(1, rest.len() as int) =~= path.subrange(i + 1, path.len() as int));
        match toml_get(current, keys[i]) {
            Some(next) => {
                current = next;
            },
            None => {
                return None;
            },
        }
        i = i + 1;
    }
    Some(current)
}

/// The string at a path (`toml_pointer` then `as_str`).
pub fn toml_str<'a>(value: &'a TomlValue, keys: &[&str]) -> (r: Option<&'a str>)
    ensures
        opt_text(r) == str_at(value@, path_of(keys@)),
{
    match toml_pointer(value, keys) {
        Some(TomlValue::Str(s)) => Some(s.as_str()),
        _ => None,
    }
}

/// The boolean at a path.
pub fn toml_bool(value: &TomlValue, keys: &[&str]) -> (r: Option<bool>)
    ensures
        r == bool_at(value@, path_of(keys@)),
{
    match toml_pointer(value, keys) {
        Some(TomlValue::Boolean(b)) => Some(*b),
        _ => None,
    }
}

/// The integer at a path, reinterpreted as unsigned (as `i as u64` does).
pub fn toml_u64(value: &TomlValue, keys: &[&str]) -> (r: Option<u64>)
    ensures
        r == (match int_at(value@, path_of(keys@)) {
            Some(i) => Some(i as u64),
            None => None,
        }),
{
    match toml_pointer(value, keys) {
        Some(TomlValue::Integer(i)) => Some(*i as u64),
        _ => None,
    }
}

/// The float at a path, as the bit pattern of its `f64` value.
pub fn toml_float_bits(value: &TomlValue, keys: &[&str]) -> (r: Option<u64>)
    ensures
        r == float_at(value@, path_of(keys@)),
{
    match toml_pointer(value, keys) {
        Some(TomlValue::Float(b)) => Some(*b),
        _ => None,
    }
}

/// The strings of the array at a path, other items left out.
pub fn toml_array_strings(value: &TomlValue, keys: &[&str]) -> (r: Option<Vec<String>>)
    ensures
        opt_texts(r) == strings_at(value@, path_of(keys@)),
{
    match toml_pointer(value, keys) {
        Some(arr) => {
            match arr {
                TomlValue::Array(items) => {
                    let ghost ns = arr@->Array_0;
                    let mut out: Vec<String> = Vec::new();
                    let mut i: usize = 0;
                    while i < items.len()
                        invariant
                            ns == arr@->Array_0,
                            arr@ == TomlNode::Array(ns),
                            ns.len() == items.len(),
                            forall|k: int| 0 <= k < items.len() ==> #[trigger] ns[k] == items@[k]@,
                            i <= items.len(),
                            texts(out@) == strings_in(ns.subrange(0, i as int)),
                        decreases items.len() - i,
                    {
                        assert(ns.subrange(0, i + 1).drop_last() =~= ns.subrange(0, i as int));
                        match &items[i] {
                            TomlValue::Str(s) => {
                                out.push(owned(s.as_str()));
                                assert(texts(out@) =~= texts(out@.drop_last()).push(s@));
                            },
                            _ => {},
                        }
                        i = i + 1;
                    }
                    assert(ns.subrange(0, items.len() as int) =~= ns);
                    Some(out)
                },
                _ => None,
            }
        },
        None => None,
    }
}

/// What the `toml` crate makes of a TOML document: the parsed value, or the
/// text of the parse error.
pub uninterp spec fn toml_document(text: Seq<char>) -> Result<TomlNode, Seq<char>>;

/// Parses TOML text with `toml`'s `FromStr` for `toml::Value`
/// (`toml::from_str`), converting the value into a `TomlValue` and the error
/// into its message. The contract claims only that the outcome is the one
/// `toml_document` names for the text: the same text always parses the same way.
#[verifier::external_body]
pub(crate) fn parse_toml(text: &str) -> (r: Result<TomlValue, String>)
    ensures
        match r {
            Ok(v) => toml_document(text@) == Ok::<TomlNode, Seq<char>>(v@),
            Err(m) => toml_document(text@) == Err::<TomlNode, Seq<char>>(m@),
        },
{
    match text.parse::<toml::Value>() {
        Ok(v) => Ok(from_toml(v)),
        Err(e) => Err(e.to_string()),
    }
}

/// `toml::Value`, the `toml` crate's value type, declared so that it can
/// stand in signatures; its contents stay hidden.
#[verifier::external_type_specification]
#[verifier::external_body]
pub struct ExTomlValue(toml::Value);

/// Moves a `toml::Value` into a `TomlValue`, variant by variant; the part of
/// `parse_toml`'s conversion that has to recurse.
#[verifier::external_body]
fn from_toml(v: toml::Value) -> TomlValue {
    match v {
        toml::Value::String(s) => TomlValue::Str(s),
        toml::Value::Integer(i) => TomlValue::Integer(i),
        toml::Value::Float(f) => TomlValue::Float(f.to_bits()),
        toml::Value::Boolean(b) => TomlValue::Boolean(b),
        toml::Value::Datetime(d) => TomlValue::Datetime(d.to_string()),
        toml::Value::Array(a) => TomlValue::Array(a.into_iter().map(from_toml).collect()),
        toml::Value::Table(t) => TomlValue::Table(t.into_iter().map(|(k, x)| (k, from_toml(x))).collect()),
    }
}

} // verus!
