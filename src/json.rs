use vstd::prelude::*;

verus! {

/// A decoded JSON document.
///
/// A number is kept as the literal text that stood in the document
/// (`"200"`, `"0.7"`), so that no value is rounded on its way through.
/// An object keeps its entries in order; a key is looked up at its first entry.
#[derive(Debug, PartialEq)]
pub enum Json {
    Null,
    Bool(bool),
    Number(String),
    Str(String),
    Array(Vec<Json>),
    Object(Vec<(String, Json)>),
}

/// The value at the first entry of `entries` whose key is `key`.
pub open spec fn entry_value(entries: Seq<(String, Json)>, key: Seq<char>) -> Option<Json>
    decreases entries.len(),
{
    if entries.len() == 0 {
        None
    } else if entries[0].0@ == key {
        Some(entries[0].1)
    } else {
        entry_value(entries.drop_first(), key)
    }
}

/// The member `key` of an object; nothing for any other value.
pub open spec fn field(j: Json, key: Seq<char>) -> Option<Json> {
    match j {
        Json::Object(entries) => entry_value(entries@, key),
        _ => None,
    }
}

/// The element at position `i` of an array; nothing for any other value.
pub open spec fn item(j: Json, i: int) -> Option<Json> {
    match j {
        Json::Array(items) => if 0 <= i < items@.len() {
            Some(items@[i])
        } else {
            None
        },
        _ => None,
    }
}

/// The characters of a string value; nothing for any other value.
pub open spec fn text(j: Json) -> Option<Seq<char>> {
    match j {
        Json::Str(s) => Some(s@),
        _ => None,
    }
}

/// Whether `j` is the string value `s`.
pub open spec fn is_text(j: Json, s: Seq<char>) -> bool {
    text(j) == Some(s)
}

/// Whether `j` is the number written `n`.
pub open spec fn is_number(j: Json, n: Seq<char>) -> bool {
    match j {
        Json::Number(t) => t@ == n,
        _ => false,
    }
}

/// `field` lifted over an absent value.
pub open spec fn field_opt(j: Option<Json>, key: Seq<char>) -> Option<Json> {
    match j {
        Some(v) => field(v, key),
        None => None,
    }
}

/// `item` lifted over an absent value.
pub open spec fn item_opt(j: Option<Json>, i: int) -> Option<Json> {
    match j {
        Some(v) => item(v, i),
        None => None,
    }
}

/// `text` lifted over an absent value.
pub open spec fn text_opt(j: Option<Json>) -> Option<Seq<char>> {
    match j {
        Some(v) => text(v),
        None => None,
    }
}

/// The value that a lookup handed back, if any.
pub open spec fn found(r: Option<&Json>) -> Option<Json> {
    match r {
        Some(v) => Some(*v),
        None => None,
    }
}

proof fn lemma_entry_value_skip(entries: Seq<(String, Json)>, key: Seq<char>, i: int)
    requires
        0 <= i <= entries.len(),
        forall|k: int| 0 <= k < i ==> #[trigger] entries[k].0@ != key,
    ensures
        entry_value(entries, key) == entry_value(entries.subrange(i, entries.len() as int), key),
    decreases i,
{
    if i > 0 {
        let rest = entries.drop_first();
        assert forall|k: int| 0 <= k < i - 1 implies #[trigger] rest[k].0@ != key by {
            assert(rest[k] == entries[k + 1]);
        }
        lemma_entry_value_skip(rest, key, i - 1);
        assert(rest.subrange(i - 1, rest.len() as int) =~= entries.subrange(
            i,
            entries.len() as int,
        ));
    } else {
        assert(entries.subrange(0, entries.len() as int) =~= entries);
    }
}

impl Json {
    /// The member `key` of this value, if it is an object that has one.
    pub fn get_field(&self, key: &str) -> (r: Option<&Json>)
        ensures
            field(*self, key@) == found(r),
    {
        match self {
            Json::Object(entries) => {
                let wanted = String::from_str(key);
                let mut i: usize = 0;
                while i < entries.len()
                    invariant
                        0 <= i <= entries@.len(),
                        wanted@ == key@,
                        field(*self, key@) == entry_value(entries@, key@),
                        forall|k: int| 0 <= k < i ==> #[trigger] entries@[k].0@ != key@,
                    decreases entries@.len() - i,
                {
                    if entries[i].0 == wanted {
                        proof {
                            lemma_entry_value_skip(entries@, key@, i as int);
                            let rest = entries@.subrange(i as int, entries@.len() as int);
                            assert(rest[0] == entries@[i as int]);
                        }
                        return Some(&entries[i].1);
                    }
                    i = i + 1;
                }
                proof {
                    lemma_entry_value_skip(entries@, key@, i as int);
                }
                None
            },
            _ => None,
        }
    }

    /// The element at position `i` of this value, if it is an array that long.
    pub fn get_item(&self, i: usize) -> (r: Option<&Json>)
        ensures
            item(*self, i as int) == found(r),
    {
        match self {
            Json::Array(items) => if i < items.len() {
                Some(&items[i])
            } else {
                None
            },
            _ => None,
        }
    }

    /// The characters of this value, if it is a string.
    pub fn as_text(&self) -> (r: Option<&String>)
        ensures
            match r {
                Some(s) => text(*self) == Some(s@),
                None => text(*self) is None,
            },
    {
        match self {
            Json::Str(s) => Some(s),
            _ => None,
        }
    }
}

} // verus!
