use vstd::prelude::*;

verus! {

/// An already-validated configuration value: maps with string keys, arrays,
/// strings, booleans, or nothing. Hosts convert their serialized option
/// trees into this form before a run; rules read it through the accessors
/// below and never mutate it.
#[derive(Debug)]
pub enum ConfigValue {
    Null,
    Bool(bool),
    Str(String),
    Array(Vec<ConfigValue>),
    /// Key/value pairs in insertion order; lookups take the first
    /// matching key.
    Object(Vec<(String, ConfigValue)>),
}

/// The first value bound to `key`, if any.
pub open spec fn spec_lookup(pairs: Seq<(String, ConfigValue)>, key: Seq<char>) -> Option<
    ConfigValue,
>
    decreases pairs.len(),
{
    if pairs.len() == 0 {
        None
    } else if pairs[0].0@ == key {
        Some(pairs[0].1)
    } else {
        spec_lookup(pairs.drop_first(), key)
    }
}

impl ConfigValue {
    /// Element `i` of an array value; `None` for any other shape.
    pub open spec fn spec_get_index(self, i: int) -> Option<ConfigValue> {
        match self {
            ConfigValue::Array(items) => if 0 <= i < items@.len() {
                Some(items@[i])
            } else {
                None
            },
            _ => None,
        }
    }

    /// The first value bound to `key` in an object value; `None` for any
    /// other shape or an absent key.
    pub open spec fn spec_get_key(self, key: Seq<char>) -> Option<ConfigValue> {
        match self {
            ConfigValue::Object(pairs) => spec_lookup(pairs@, key),
            _ => None,
        }
    }

    pub open spec fn spec_as_bool(self) -> Option<bool> {
        match self {
            ConfigValue::Bool(b) => Some(b),
            _ => None,
        }
    }

    pub fn get_index(&self, i: usize) -> (r: Option<&ConfigValue>)
        ensures
            match r {
                Some(v) => self.spec_get_index(i as int) == Some(*v),
                None => self.spec_get_index(i as int) is None,
            },
    {
        match self {
            ConfigValue::Array(items) => {
                if i < items.len() {
                    Some(&items[i])
                } else {
                    None
                }
            },
            _ => None,
        }
    }

    pub fn get_key(&self, key: &str) -> (r: Option<&ConfigValue>)
        ensures
            match r {
                Some(v) => self.spec_get_key(key@) == Some(*v),
                None => self.spec_get_key(key@) is None,
            },
    {
        match self {
            ConfigValue::Object(pairs) => {
                let key_string = key.to_owned();
                let n = pairs.len();
                let mut j: usize = 0;
                proof {
                    assert(pairs@.skip(0) =~= pairs@);
                }
                while j < n
                    invariant
                        n == pairs@.len(),
                        key_string@ == key@,
                        self.spec_get_key(key@) == spec_lookup(pairs@, key@),
                        0 <= j <= n,
                        spec_lookup(pairs@, key@) == spec_lookup(pairs@.skip(j as int), key@),
                    decreases n - j,
                {
                    proof {
                        assert(pairs@.skip(j as int)[0] == pairs@[j as int]);
                        assert(pairs@.skip(j as int).drop_first() =~= pairs@.skip(j as int + 1));
                    }
                    let pair = &pairs[j];
                    if pair.0.eq(&key_string) {
                        proof {
                            assert(spec_lookup(pairs@.skip(j as int), key@) == Some(
                                pairs@[j as int].1,
                            ));
                        }
                        return Some(&pair.1);
                    }
                    j += 1;
                }
                proof {
                    assert(pairs@.skip(j as int).len() == 0);
                }
                None
            },
            _ => None,
        }
    }

    /// The boolean a value holds, or `None` for any other shape.
    pub fn as_bool(&self) -> (r: Option<bool>)
        ensures
            r == self.spec_as_bool(),
    {
        match self {
            ConfigValue::Bool(b) => Some(*b),
            _ => None,
        }
    }

    /// The string a value holds, or `None` for any other shape.
    pub fn as_str(&self) -> (r: Option<&String>)
        ensures
            match r {
                Some(s) => self matches ConfigValue::Str(t) && t == *s,
                None => !(self matches ConfigValue::Str(_)),
            },
    {
        match self {
            ConfigValue::Str(s) => Some(s),
            _ => None,
        }
    }

    /// The items of an array value, or `None` for any other shape.
    pub fn as_array(&self) -> (r: Option<&Vec<ConfigValue>>)
        ensures
            match r {
                Some(items) => self matches ConfigValue::Array(v) && v == *items,
                None => !(self matches ConfigValue::Array(_)),
            },
    {
        match self {
            ConfigValue::Array(items) => Some(items),
            _ => None,
        }
    }

    /// The boolean bound to `key` under an object shape, or `default` when
    /// the value is missing or malformed — a malformed option falls back to
    /// the rule's documented default rather than aborting the run.
    pub fn bool_option(&self, key: &str, default: bool) -> (r: bool)
        ensures
            r == (match self.spec_get_key(key@) {
                Some(v) => match v.spec_as_bool() {
                    Some(b) => b,
                    None => default,
                },
                None => default,
            }),
    {
        match self.get_key(key) {
            Some(v) => match v.as_bool() {
                Some(b) => b,
                None => default,
            },
            None => default,
        }
    }
}

} // verus!
