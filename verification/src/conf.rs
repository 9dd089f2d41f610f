//! Configuration values: the tree that a TOML document holds, as far as the
//! settings read it.

use crate::text::same_text;
use vstd::prelude::*;

verus! {

/// `toml::Value`: the value that the `toml` crate reads a document as.
#[verifier::external_type_specification]
#[verifier::external_body]
pub struct ExTomlValue(toml::Value);

/// `toml::de::Error`: why the `toml` crate refuses a text.
#[verifier::external_type_specification]
#[verifier::external_body]
pub struct ExTomlError(toml::de::Error);

/// A configuration value.
#[derive(Debug, PartialEq, Eq)]
pub enum Conf {
    Str(String),
    Int(i64),
    Flag(bool),
    /// An array, in its order.
    List(Vec<Conf>),
    /// A table: its keys, in their order, each with its value.
    Table(Vec<(String, Conf)>),
    /// A value of a kind that no setting reads: a float or a date.
    Other,
}

/// What the `toml` crate reads a document as: nothing where it refuses the
/// text, else the table of the document.
pub uninterp spec fn toml_document(text: Seq<char>) -> Option<Conf>;

/// The tree that a value of the `toml` crate holds.
pub uninterp spec fn toml_value(v: toml::Value) -> Conf;

/// Reads a TOML document with `toml::Value::from_str`. The contract claims
/// that the outcome depends on the text alone.
#[verifier::external_body]
fn read_toml(text: &str) -> (r: Result<toml::Value, toml::de::Error>)
    ensures
        r is Ok <==> toml_document(text@) is Some,
        r matches Ok(v) ==> toml_document(text@) == Some(toml_value(v)),
{
    text.parse::<toml::Value>()
}

/// Copies the tree out of a `toml::Value`, variant by variant: strings,
/// integers, booleans, arrays and tables as they are, the keys of a table in
/// the order in which `toml::map::Map::iter` gives them; floats and dates as
/// `Other`.
#[verifier::external_body]
fn conf_of(v: &toml::Value) -> (r: Conf)
    ensures
        r == toml_value(*v),
{
    match v {
        toml::Value::String(s) => Conf::Str(s.clone()),
        toml::Value::Integer(i) => Conf::Int(*i),
        toml::Value::Boolean(b) => Conf::Flag(*b),
        toml::Value::Array(a) => Conf::List(a.iter().map(conf_of).collect()),
        toml::Value::Table(t) => Conf::Table(
            t.iter().map(|(k, x)| (k.clone(), conf_of(x))).collect(),
        ),
        toml::Value::Float(_) => Conf::Other,
        toml::Value::Datetime(_) => Conf::Other,
    }
}

/// The message of an error of the `toml` crate, as its `Display` writes it.
/// Nothing is claimed of the text.
#[verifier::external_body]
fn error_text(e: &toml::de::Error) -> String {
    e.to_string()
}

/// The first value that a run of entries holds under `key`.
pub open spec fn lookup(entries: Seq<(String, Conf)>, key: Seq<char>) -> Option<Conf>
    decreases entries.len(),
{
    if entries.len() == 0 {
        None
    } else if entries[0].0@ == key {
        Some(entries[0].1)
    } else {
        lookup(entries.drop_first(), key)
    }
}

impl Conf {
    /// The entries of a table; none for any other value.
    pub open spec fn entries(self) -> Seq<(String, Conf)> {
        match self {
            Conf::Table(t) => t@,
            _ => Seq::empty(),
        }
    }

    /// The value that a table holds under `key`.
    pub open spec fn field(self, key: Seq<char>) -> Option<Conf> {
        lookup(self.entries(), key)
    }

    /// The items of an array; none for any other value.
    pub open spec fn items(self) -> Seq<Conf> {
        match self {
            Conf::List(l) => l@,
            _ => Seq::empty(),
        }
    }

    /// The value that a table holds under `key`.
    pub fn get<'a>(&'a self, key: &str) -> (r: Option<&'a Conf>)
        ensures
            match r {
                Some(c) => self.field(key@) == Some(*c),
                None => self.field(key@) is None,
            },
    {
        match self {
            Conf::Table(t) => {
                let mut i: usize = 0;
                assert(t@.subrange(0, t@.len() as int) =~= t@);
                while i < t.len()
                    invariant
                        i <= t.len(),
                        self.entries() == t@,
                        lookup(t@, key@) == lookup(t@.subrange(i as int, t@.len() as int), key@),
                    decreases t.len() - i,
                {
                    assert(t@.subrange(i as int, t@.len() as int).drop_first() =~= t@.subrange(
                        i + 1,
                        t@.len() as int,
                    ));
                    if same_text(t[i].0.as_str(), key) {
                        return Some(&t[i].1);
                    }
                    i += 1;
                }
                None
            },
            _ => None,
        }
    }

    /// Whether a table holds something under `key`.
    pub fn contains_key(&self, key: &str) -> (r: bool)
        ensures
            r == self.field(key@) is Some,
    {
        self.get(key).is_some()
    }

    /// Whether the value is a table.
    pub fn is_table(&self) -> (r: bool)
        ensures
            r == self is Table,
    {
        match self {
            Conf::Table(_) => true,
            _ => false,
        }
    }

    /// Whether the value is an array.
    pub fn is_array(&self) -> (r: bool)
        ensures
            r == self is List,
    {
        match self {
            Conf::List(_) => true,
            _ => false,
        }
    }

    /// Whether the value is an integer.
    pub fn is_integer(&self) -> (r: bool)
        ensures
            r == self is Int,
    {
        match self {
            Conf::Int(_) => true,
            _ => false,
        }
    }

    /// Whether the value is a string.
    pub fn is_str(&self) -> (r: bool)
        ensures
            r == self is Str,
    {
        match self {
            Conf::Str(_) => true,
            _ => false,
        }
    }

    /// Reads a TOML document: its table, or the message of the error where
    /// the text is none.
    pub fn parse(text: &str) -> (r: Result<Conf, String>)
        ensures
            r is Ok <==> toml_document(text@) is Some,
            r matches Ok(c) ==> toml_document(text@) == Some(c),
    {
        match read_toml(text) {
            Ok(v) => Ok(conf_of(&v)),
            Err(e) => Err(error_text(&e)),
        }
    }
}

} // verus!
