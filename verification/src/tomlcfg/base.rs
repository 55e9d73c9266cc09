//! The generic key/value document tree that the decoders walk, its spec-level
//! view, the lookup and shape-checking primitives, and the trusted boundary to
//! the `toml` crate that turns document text into such a tree.
use crate::text::str_eq;
use crate::tomlcfg::{ParseError, ParseErrorV, ParseResult};
use vstd::prelude::*;

verus! {

/// A node of the document tree: a table of key/value pairs, an array, or a
/// scalar. Floats and datetimes are outside the tree's vocabulary.
#[derive(Debug, PartialEq, Eq)]
pub enum Toml {
    Table(Table),
    Array(Vec<Toml>),
    Str(String),
    Int(i64),
    Bool(bool),
}

/// A table node: key/value pairs in document order.
#[derive(Debug, PartialEq, Eq)]
pub struct Table(pub Vec<(String, Toml)>);

/// The spec-level shape of a tree node.
pub enum TomlV {
    Table(Seq<(Seq<char>, TomlV)>),
    Array(Seq<TomlV>),
    Str(Seq<char>),
    Int(i64),
    Bool(bool),
}

/// The spec-level view of a node.
pub open spec fn toml_v(t: Toml) -> TomlV
    decreases t,
{
    match t {
        Toml::Table(tab) => TomlV::Table(table_v(tab)),
        Toml::Array(items) => TomlV::Array(toml_arr_v(items@)),
        Toml::Str(s) => TomlV::Str(s@),
        Toml::Int(i) => TomlV::Int(i),
        Toml::Bool(b) => TomlV::Bool(b),
    }
}

/// The spec-level views of the nodes of an array, elementwise.
pub open spec fn toml_arr_v(items: Seq<Toml>) -> Seq<TomlV>
    decreases items,
{
    if items.len() == 0 {
        Seq::empty()
    } else {
        seq![toml_v(items[0])] + toml_arr_v(items.drop_first())
    }
}

/// The spec-level view of a table: its entries in order, keys as character
/// sequences.
pub open spec fn table_v(tab: Table) -> Seq<(Seq<char>, TomlV)>
    decreases tab,
{
    table_entries_v(tab.0@)
}

/// The spec-level views of a table's entries, elementwise.
pub open spec fn table_entries_v(entries: Seq<(String, Toml)>) -> Seq<(Seq<char>, TomlV)>
    decreases entries,
{
    if entries.len() == 0 {
        Seq::empty()
    } else {
        seq![(entries[0].0@, toml_v(entries[0].1))] + table_entries_v(entries.drop_first())
    }
}

/// `toml_arr_v` is the elementwise view of the array.
pub broadcast proof fn lemma_toml_arr_v(items: Seq<Toml>)
    ensures
        #[trigger] toml_arr_v(items) == Seq::new(items.len(), |i: int| toml_v(items[i])),
    decreases items.len(),
{
    if items.len() > 0 {
        lemma_toml_arr_v(items.drop_first());
        assert(toml_arr_v(items) =~= Seq::new(items.len(), |i: int| toml_v(items[i])));
    } else {
        assert(toml_arr_v(items) =~= Seq::new(items.len(), |i: int| toml_v(items[i])));
    }
}

/// `table_entries_v` is the elementwise view of the entry list.
pub broadcast proof fn lemma_table_entries_v(entries: Seq<(String, Toml)>)
    ensures
        #[trigger] table_entries_v(entries) == Seq::new(
            entries.len(),
            |i: int| (entries[i].0@, toml_v(entries[i].1)),
        ),
    decreases entries.len(),
{
    if entries.len() > 0 {
        lemma_table_entries_v(entries.drop_first());
        assert(table_entries_v(entries) =~= Seq::new(
            entries.len(),
            |i: int| (entries[i].0@, toml_v(entries[i].1)),
        ));
    } else {
        assert(table_entries_v(entries) =~= Seq::new(
            entries.len(),
            |i: int| (entries[i].0@, toml_v(entries[i].1)),
        ));
    }
}

impl View for Toml {
    type V = TomlV;

    open spec fn view(&self) -> TomlV {
        toml_v(*self)
    }
}

impl DeepView for Toml {
    type V = TomlV;

    open spec fn deep_view(&self) -> TomlV {
        toml_v(*self)
    }
}

impl View for Table {
    type V = Seq<(Seq<char>, TomlV)>;

    open spec fn view(&self) -> Seq<(Seq<char>, TomlV)> {
        table_v(*self)
    }
}

impl DeepView for Table {
    type V = Seq<(Seq<char>, TomlV)>;

    open spec fn deep_view(&self) -> Seq<(Seq<char>, TomlV)> {
        table_v(*self)
    }
}

/// The value at the first entry of `t` whose key is `key`, if any.
pub open spec fn tbl_get(t: Seq<(Seq<char>, TomlV)>, key: Seq<char>) -> Option<TomlV>
    decreases t.len(),
{
    if t.len() == 0 {
        None
    } else if t[0].0 == key {
        Some(t[0].1)
    } else {
        tbl_get(t.drop_first(), key)
    }
}

/// Whether `v` is one of the entry values of `t`; lookups return borrows into
/// the table, which keeps recursion over found values well-founded.
pub open spec fn table_has_value(t: Table, v: Toml) -> bool {
    exists|i: int| 0 <= i < t.0@.len() && t.0@[i].1 == v
}

proof fn lemma_tbl_get_first(t: Seq<(Seq<char>, TomlV)>, key: Seq<char>, i: int)
    requires
        0 <= i < t.len(),
        forall|j: int| 0 <= j < i ==> #[trigger] t[j].0 != key,
        t[i].0 == key,
    ensures
        tbl_get(t, key) == Some(t[i].1),
    decreases i,
{
    if i > 0 {
        lemma_tbl_get_first(t.drop_first(), key, i - 1);
    }
}

proof fn lemma_tbl_get_none(t: Seq<(Seq<char>, TomlV)>, key: Seq<char>)
    requires
        forall|j: int| 0 <= j < t.len() ==> #[trigger] t[j].0 != key,
    ensures
        tbl_get(t, key) is None,
    decreases t.len(),
{
    if t.len() > 0 {
        lemma_tbl_get_none(t.drop_first(), key);
    }
}

/// A value found in a table is structurally below the table's entry list,
/// which keeps recursion over looked-up values well-founded.
pub proof fn lemma_tbl_get_decreases(t: Seq<(Seq<char>, TomlV)>, key: Seq<char>)
    requires
        tbl_get(t, key) is Some,
    ensures
        decreases_to!(t => tbl_get(t, key).unwrap()),
    decreases t.len(),
{
    if t.len() > 0 {
        if t[0].0 == key {
            assert(decreases_to!(t => t[0]));
            assert(decreases_to!(t[0] => t[0].1));
        } else {
            lemma_tbl_get_decreases(t.drop_first(), key);
            assert(t.drop_first() =~= t.subrange(1, t.len() as int));
            assert(decreases_to!(t => t.subrange(1, t.len() as int)));
        }
    }
}

/// Looks `key` up in `table`; absence is the error `KeyNotFound`.
pub fn find<'a>(table: &'a Table, key: String) -> (r: ParseResult<&'a Toml>)
    ensures
        match r {
            Ok(v) => tbl_get(table@, key@) == Some(v@) && table_has_value(*table, *v),
            Err(e) => tbl_get(table@, key@) is None && e@ == ParseErrorV::KeyNotFound(key@),
        },
{
    proof {
        lemma_table_entries_v(table.0@);
    }
    let n = table.0.len();
    let mut i: usize = 0;
    while i < n
        invariant
            0 <= i <= n,
            n == table.0.len(),
            forall|j: int| 0 <= j < i ==> #[trigger] table@[j].0 != key@,
        decreases n - i,
    {
        proof {
            lemma_table_entries_v(table.0@);
        }
        if str_eq(table.0[i].0.as_str(), key.as_str()) {
            proof {
                lemma_tbl_get_first(table@, key@, i as int);
            }
            return Ok(&table.0[i].1);
        }
        i = i + 1;
    }
    proof {
        lemma_tbl_get_none(table@, key@);
    }
    Err(ParseError::KeyNotFound(key))
}

/// Looks `key` up in `table`; absence is no error.
pub fn find_opt<'a>(table: &'a Table, key: String) -> (r: Option<&'a Toml>)
    ensures
        match r {
            Some(v) => tbl_get(table@, key@) == Some(v@) && table_has_value(*table, *v),
            None => tbl_get(table@, key@) is None,
        },
{
    match find(table, key) {
        Ok(v) => Some(v),
        Err(_) => None,
    }
}

/// The node as a table; any other shape is `IncorrectType`.
pub fn as_table<'a>(value: &'a Toml) -> (r: ParseResult<&'a Table>)
    ensures
        match r {
            Ok(t) => *value == Toml::Table(*t) && value@ == TomlV::Table(t@),
            Err(e) => !(value@ is Table) && e@ == ParseErrorV::IncorrectType(seq!["table"@]),
        },
{
    match value {
        Toml::Table(t) => Ok(t),
        _ => Err(ParseError::IncorrectType(one_type_name("table"))),
    }
}

/// The node as an array; any other shape is `IncorrectType`.
pub fn as_array<'a>(value: &'a Toml) -> (r: ParseResult<&'a Vec<Toml>>)
    ensures
        match r {
            Ok(a) => *value == Toml::Array(*a) && value@ == TomlV::Array(a.deep_view()),
            Err(e) => !(value@ is Array) && e@ == ParseErrorV::IncorrectType(seq!["array"@]),
        },
{
    match value {
        Toml::Array(a) => {
            proof {
                lemma_toml_arr_v(a@);
                assert(a.deep_view() =~= toml_arr_v(a@));
            }
            Ok(a)
        },
        _ => Err(ParseError::IncorrectType(one_type_name("array"))),
    }
}

/// The node as a string; any other shape is `IncorrectType`.
pub fn as_str<'a>(value: &'a Toml) -> (r: ParseResult<&'a String>)
    ensures
        match r {
            Ok(s) => *value == Toml::Str(*s) && value@ == TomlV::Str(s@),
            Err(e) => !(value@ is Str) && e@ == ParseErrorV::IncorrectType(seq!["string"@]),
        },
{
    match value {
        Toml::Str(s) => Ok(s),
        _ => Err(ParseError::IncorrectType(one_type_name("string"))),
    }
}

/// The node as an integer; any other shape is `IncorrectType`.
pub fn as_integer(value: &Toml) -> (r: ParseResult<i64>)
    ensures
        match r {
            Ok(i) => value@ == TomlV::Int(i),
            Err(e) => !(value@ is Int) && e@ == ParseErrorV::IncorrectType(seq!["integer"@]),
        },
{
    match value {
        Toml::Int(i) => Ok(*i),
        _ => Err(ParseError::IncorrectType(one_type_name("integer"))),
    }
}

/// The node as a boolean; any other shape is `IncorrectType`.
pub fn as_bool(value: &Toml) -> (r: ParseResult<bool>)
    ensures
        match r {
            Ok(b) => value@ == TomlV::Bool(b),
            Err(e) => !(value@ is Bool) && e@ == ParseErrorV::IncorrectType(seq!["boolean"@]),
        },
{
    match value {
        Toml::Bool(b) => Ok(*b),
        _ => Err(ParseError::IncorrectType(one_type_name("boolean"))),
    }
}

/// The node as an integer within `u8` range; anything else is rejected as
/// `IncorrectType` naming `u8`.
pub fn as_u8(value: &Toml) -> (r: ParseResult<u8>)
    ensures
        match r {
            Ok(n) => value@ == TomlV::Int(n as i64),
            Err(e) => {
                &&& (match value@ {
                    TomlV::Int(i) => !(0 <= i <= 255),
                    _ => true,
                })
                &&& e@ == ParseErrorV::IncorrectType(seq!["u8"@])
            },
        },
{
    match value {
        Toml::Int(i) => {
            if 0 <= *i && *i <= 255 {
                Ok(*i as u8)
            } else {
                Err(ParseError::IncorrectType(one_type_name("u8")))
            }
        },
        _ => Err(ParseError::IncorrectType(one_type_name("u8"))),
    }
}

/// The value under `key`, which must be a table node.
pub fn table<'a>(input: &'a Table, key: String) -> (r: ParseResult<&'a Table>)
    ensures
        match r {
            Ok(t) => {
                &&& tbl_get(input@, key@) == Some(TomlV::Table(t@))
                &&& exists|i: int|
                    0 <= i < input.0@.len() && #[trigger] input.0@[i].1 == Toml::Table(*t)
            },
            Err(e) => match tbl_get(input@, key@) {
                Some(v) => !(v is Table) && e@ == ParseErrorV::IncorrectType(seq!["table"@]),
                None => e@ == ParseErrorV::KeyNotFound(key@),
            },
        },
{
    let v = find(input, key)?;
    let t = as_table(v)?;
    proof {
        let i = choose|i: int| 0 <= i < input.0@.len() && #[trigger] input.0@[i].1 == *v;
        assert(input.0@[i].1 == Toml::Table(*t));
    }
    Ok(t)
}

fn one_type_name(name: &str) -> (r: Vec<String>)
    ensures
        r.deep_view() == seq![name@],
{
    let mut v: Vec<String> = Vec::new();
    v.push(String::from_str(name));
    proof {
        assert(v.deep_view() =~= seq![name@]);
    }
    v
}

/// The keys of a table, in table order, that occur among the candidates.
pub open spec fn spec_found_keys(t: Seq<(Seq<char>, TomlV)>, cands: Seq<Seq<char>>) -> Seq<
    Seq<char>,
>
    decreases t.len(),
{
    if t.len() == 0 {
        Seq::empty()
    } else {
        (if cands.contains(t[0].0) {
            seq![t[0].0]
        } else {
            Seq::<Seq<char>>::empty()
        }) + spec_found_keys(t.drop_first(), cands)
    }
}

proof fn lemma_found_keys_snoc(t: Seq<(Seq<char>, TomlV)>, cands: Seq<Seq<char>>, i: int)
    requires
        0 <= i < t.len(),
    ensures
        spec_found_keys(t.take(i + 1), cands) == spec_found_keys(t.take(i), cands) + (
        if cands.contains(t[i].0) {
            seq![t[i].0]
        } else {
            Seq::<Seq<char>>::empty()
        }),
    decreases i,
{
    let a = t.take(i + 1);
    let b = t.take(i);
    if i == 0 {
        assert(a.drop_first() =~= Seq::<(Seq<char>, TomlV)>::empty());
        assert(b =~= Seq::<(Seq<char>, TomlV)>::empty());
        assert(a[0] == t[0]);
        assert(spec_found_keys(a, cands) =~= spec_found_keys(b, cands) + (if cands.contains(
            t[0].0,
        ) {
            seq![t[0].0]
        } else {
            Seq::<Seq<char>>::empty()
        }));
    } else {
        lemma_found_keys_snoc(t.drop_first(), cands, i - 1);
        assert(a.drop_first() =~= t.drop_first().take(i));
        assert(b.drop_first() =~= t.drop_first().take(i - 1));
        assert(t.drop_first()[i - 1] == t[i]);
        assert(a[0] == t[0] && b[0] == t[0]);
        assert(spec_found_keys(a, cands) =~= spec_found_keys(b, cands) + (if cands.contains(
            t[i].0,
        ) {
            seq![t[i].0]
        } else {
            Seq::<Seq<char>>::empty()
        }));
    }
}

/// Whether `s` is one of the candidate tokens.
fn contains_token(cands: &Vec<&str>, s: &str) -> (r: bool)
    ensures
        r == cands.deep_view().contains(s@),
{
    let mut j: usize = 0;
    while j < cands.len()
        invariant
            0 <= j <= cands.len(),
            cands.deep_view().len() == cands.len(),
            forall|k: int| 0 <= k < j ==> cands.deep_view()[k] != s@,
        decreases cands.len() - j,
    {
        if str_eq(cands[j], s) {
            proof {
                assert(cands.deep_view()[j as int] == s@);
                assert(cands.deep_view().contains(s@));
            }
            return true;
        }
        j = j + 1;
    }
    proof {
        assert(!cands.deep_view().contains(s@));
    }
    false
}

/// Collects the table keys that occur among the candidates, in table order.
fn found_keys(t: &Table, cands: &Vec<&str>) -> (r: Vec<String>)
    ensures
        r.deep_view() == spec_found_keys(t@, cands.deep_view()),
{
    let mut r: Vec<String> = Vec::new();
    let mut i: usize = 0;
    proof {
        lemma_table_entries_v(t.0@);
        assert(t@.take(0) =~= Seq::<(Seq<char>, TomlV)>::empty());
        assert(r.deep_view() =~= spec_found_keys(t@.take(0), cands.deep_view()));
    }
    while i < t.0.len()
        invariant
            0 <= i <= t.0.len(),
            t@.len() == t.0.len(),
            forall|j: int|
                0 <= j < t@.len() ==> (#[trigger] t@[j]).0 == t.0@[j].0@,
            r.deep_view() == spec_found_keys(t@.take(i as int), cands.deep_view()),
        decreases t.0.len() - i,
    {
        proof {
            lemma_found_keys_snoc(t@, cands.deep_view(), i as int);
        }
        if contains_token(cands, t.0[i].0.as_str()) {
            let ghost old_dv = r.deep_view();
            r.push(t.0[i].0.clone());
            proof {
                assert(r.deep_view() =~= old_dv.push(t@[i as int].0));
                assert(r.deep_view() =~= spec_found_keys(t@.take(i + 1), cands.deep_view()));
            }
        } else {
            proof {
                assert(r.deep_view() =~= spec_found_keys(t@.take(i + 1), cands.deep_view()));
            }
        }
        i = i + 1;
    }
    proof {
        assert(t@.take(t@.len() as int) =~= t@);
    }
    r
}


/// The one-of-key rule that every discriminant resolution shares: of the
/// candidate keys the table must hold exactly one. None at all is
/// `KeyNotFound` naming the candidates; two or more is `MultiKey` naming the
/// keys found, in table order.
pub open spec fn spec_one_of(t: Seq<(Seq<char>, TomlV)>, cands: Seq<Seq<char>>) -> Result<
    (Seq<char>, TomlV),
    ParseErrorV,
> {
    let found = spec_found_keys(t, cands);
    if found.len() == 0 {
        Err(ParseErrorV::KeyNotFound(crate::text::join_with(cands, ", "@)))
    } else if found.len() == 1 {
        match tbl_get(t, found[0]) {
            Option::None => Err(ParseErrorV::KeyNotFound(found[0])),
            Option::Some(v) => Ok((found[0], v)),
        }
    } else {
        Err(ParseErrorV::MultiKey(found))
    }
}

/// Resolves the one-of-key rule on a table: the single candidate key the
/// table holds, and its value.
pub fn one_of<'a>(input: &'a Table, keys: &Vec<&str>) -> (r: ParseResult<(String, &'a Toml)>)
    ensures
        match r {
            Ok((k, v)) => spec_one_of(input@, keys.deep_view()) == Ok::<
                (Seq<char>, TomlV),
                ParseErrorV,
            >((k@, v@)) && table_has_value(*input, *v),
            Err(e) => spec_one_of(input@, keys.deep_view()) == Err::<
                (Seq<char>, TomlV),
                ParseErrorV,
            >(e@),
        },
{
    let mut found = found_keys(input, keys);
    if found.len() == 0 {
        let mut names: Vec<String> = Vec::new();
        let mut i: usize = 0;
        proof {
            assert(names.deep_view() =~= keys.deep_view().take(0));
        }
        while i < keys.len()
            invariant
                0 <= i <= keys.len(),
                keys.deep_view().len() == keys.len(),
                names.deep_view() == keys.deep_view().take(i as int),
            decreases keys.len() - i,
        {
            let ghost old_dv = names.deep_view();
            names.push(String::from_str(keys[i]));
            proof {
                assert(names.deep_view() =~= old_dv.push(keys@[i as int]@));
                assert(names.deep_view() =~= keys.deep_view().take(i + 1));
            }
            i = i + 1;
        }
        proof {
            assert(keys.deep_view().take(keys.len() as int) =~= keys.deep_view());
        }
        Err(ParseError::KeyNotFound(crate::text::join_strings(&names, ", ")))
    } else if found.len() == 1 {
        let v = match find(input, found[0].clone()) {
            Ok(v) => v,
            Err(e) => {
                return Err(e);
            },
        };
        let k = found.remove(0);
        Ok((k, v))
    } else {
        Err(ParseError::MultiKey(found))
    }
}

#[verifier::external_type_specification]
#[verifier::external_body]
#[verifier::reject_recursive_types(K)]
#[verifier::reject_recursive_types(V)]
pub struct ExTomlMap<K, V>(toml::map::Map<K, V>);

#[verifier::external_type_specification]
#[verifier::external_body]
pub struct ExTomlValue(toml::Value);

/// The document tree that the `toml` crate's parser yields for a text, as a
/// spec-level table: `None` when the text is not well-formed TOML or holds a
/// node outside the tree's vocabulary. Parsing is a function of the text
/// alone, and table keys come out in sorted order.
pub uninterp spec fn toml_doc(s: Seq<char>) -> Option<Seq<(Seq<char>, TomlV)>>;

/// Relies on `str::parse::<toml::Table>` (the `toml` crate's document
/// parser): deterministic in the text, with table keys in sorted order; the
/// parsed document is reshaped entry for entry into the tree type.
#[verifier::external_body]
pub fn from_str(str: String) -> (r: ParseResult<Table>)
    ensures
        match r {
            Ok(t) => toml_doc(str@) == Some(t@),
            Err(e) => toml_doc(str@) is None && e@ is TomlError,
        },
{
    match str.parse::<toml::Table>() {
        Ok(doc) => match table_from_toml(&doc) {
            Some(tab) => Ok(tab),
            None => Err(ParseError::TomlError("unsupported value in document".to_string())),
        },
        Err(e) => Err(ParseError::TomlError(e.to_string())),
    }
}

/// Relies on `toml::map::Map::iter`: yields the document's entries in order;
/// each is moved into the tree type.
#[verifier::external_body]
fn table_from_toml(doc: &toml::map::Map<String, toml::Value>) -> (r: Option<Table>)
{
    let mut entries: Vec<(String, Toml)> = Vec::new();
    for (k, v) in doc.iter() {
        entries.push((k.clone(), value_from_toml(v)?));
    }
    Some(Table(entries))
}

/// Relies on `toml::Value`'s variants: each is moved into the matching tree
/// node; floats and datetimes have no tree shape and yield `None`.
#[verifier::external_body]
fn value_from_toml(v: &toml::Value) -> (r: Option<Toml>)
{
    match v {
        toml::Value::String(s) => Some(Toml::Str(s.clone())),
        toml::Value::Integer(i) => Some(Toml::Int(*i)),
        toml::Value::Boolean(b) => Some(Toml::Bool(*b)),
        toml::Value::Array(a) => {
            a.iter().map(value_from_toml).collect::<Option<Vec<Toml>>>().map(Toml::Array)
        },
        toml::Value::Table(t) => table_from_toml(t).map(Toml::Table),
        _ => None,
    }
}

} // verus!
