//! Request and response headers of the name-server KV-config commands, and
//! their conversion to and from the flat string-to-string field table that
//! the wire protocol carries.

use vstd::prelude::*;
use vstd::string::StringExecFns;

use crate::strutil::assoc_lookup;

verus! {

/// First-match lookup of `key` among the field-table pairs; the value
/// comes back as an owned copy.
fn table_get(pairs: &Vec<(String, String)>, key: &str) -> (value: Option<String>)
    ensures
        value == assoc_lookup(pairs@, key@),
{
    proof {
        assert(pairs@.skip(0) =~= pairs@);
    }
    let target: String = key.to_owned();
    let mut j: usize = 0;
    let end = pairs.len();
    while j < end
        invariant
            j <= end,
            end == pairs@.len(),
            target@ == key@,
            assoc_lookup(pairs@, key@) == assoc_lookup(pairs@.skip(j as int), key@),
        decreases end - j,
    {
        proof {
            assert(pairs@.skip(j as int)[0] == pairs@[j as int]);
            assert(pairs@.skip(j as int).skip(1) =~= pairs@.skip(j + 1));
        }
        if pairs[j].0 == target {
            return Some(pairs[j].1.clone());
        }
        j = j + 1;
    }
    proof {
        assert(pairs@.skip(end as int) =~= Seq::<(String, String)>::empty());
    }
    None
}

/// Header of the request that stores one value under a namespace and key.
pub struct PutKVConfigRequestHeader {
    /// The configuration namespace.
    pub namespace: String,
    /// The key within the namespace.
    pub key: String,
    /// The value to store.
    pub value: String,
}

impl PutKVConfigRequestHeader {
    /// A header carrying the given namespace, key and value.
    pub fn new(namespace: String, key: String, value: String) -> (header: PutKVConfigRequestHeader)
        ensures
            header.namespace == namespace,
            header.key == key,
            header.value == value,
    {
        PutKVConfigRequestHeader { namespace, key, value }
    }

    /// The header as a wire field table: its three fields under the names
    /// `namespace`, `key` and `value`, in that order — so `from_map` on
    /// the table gives this header back.
    pub fn to_map(&self) -> (map: Option<Vec<(String, String)>>)
        ensures
            (map matches Some(m) && m@.len() == 3 && m@[0].0@ == "namespace"@ && m@[0].1
                == self.namespace && m@[1].0@ == "key"@ && m@[1].1 == self.key && m@[2].0@
                == "value"@ && m@[2].1 == self.value),
            (map matches Some(m) && assoc_lookup(m@, "namespace"@) == Some(self.namespace)
                && assoc_lookup(m@, "key"@) == Some(self.key) && assoc_lookup(m@, "value"@)
                == Some(self.value)),
    {
        let mut m: Vec<(String, String)> = Vec::new();
        m.push((String::from_str("namespace"), self.namespace.clone()));
        m.push((String::from_str("key"), self.key.clone()));
        m.push((String::from_str("value"), self.value.clone()));
        proof {
            reveal_strlit("namespace");
            reveal_strlit("key");
            reveal_strlit("value");
            assert("namespace"@.len() == 9);
            assert("key"@.len() == 3);
            assert("value"@.len() == 5);
            assert(m@.skip(1)[0] == m@[1]);
            assert(m@.skip(1).skip(1)[0] == m@[2]);
            assert(assoc_lookup(m@, "key"@) == assoc_lookup(m@.skip(1), "key"@));
            assert(assoc_lookup(m@, "value"@) == assoc_lookup(m@.skip(1), "value"@));
            assert(assoc_lookup(m@.skip(1), "value"@) == assoc_lookup(m@.skip(1).skip(1), "value"@));
        }
        Some(m)
    }

    /// Reads a header back from a wire field table: present exactly when
    /// all three field names are, each taken by first match.
    pub fn from_map(map: &Vec<(String, String)>) -> (header: Option<PutKVConfigRequestHeader>)
        ensures
            match header {
                Some(h) => assoc_lookup(map@, "namespace"@) == Some(h.namespace) && assoc_lookup(
                    map@,
                    "key"@,
                ) == Some(h.key) && assoc_lookup(map@, "value"@) == Some(h.value),
                None => assoc_lookup(map@, "namespace"@) is None || assoc_lookup(map@, "key"@)
                    is None || assoc_lookup(map@, "value"@) is None,
            },
    {
        let namespace = table_get(map, "namespace");
        let key = table_get(map, "key");
        let value = table_get(map, "value");
        match (namespace, key, value) {
            (Some(namespace), Some(key), Some(value)) => Some(
                PutKVConfigRequestHeader { namespace, key, value },
            ),
            _ => None,
        }
    }
}

/// Header of the request that reads one value under a namespace and key.
pub struct GetKVConfigRequestHeader {
    /// The configuration namespace.
    pub namespace: String,
    /// The key within the namespace.
    pub key: String,
}

impl GetKVConfigRequestHeader {
    /// A header carrying the given namespace and key.
    pub fn new(namespace: String, key: String) -> (header: GetKVConfigRequestHeader)
        ensures
            header.namespace == namespace,
            header.key == key,
    {
        GetKVConfigRequestHeader { namespace, key }
    }

    /// The header as a wire field table: its two fields under the names
    /// `namespace` and `key`, in that order — so `from_map` on the table
    /// gives this header back.
    pub fn to_map(&self) -> (map: Option<Vec<(String, String)>>)
        ensures
            (map matches Some(m) && m@.len() == 2 && m@[0].0@ == "namespace"@ && m@[0].1
                == self.namespace && m@[1].0@ == "key"@ && m@[1].1 == self.key),
            (map matches Some(m) && assoc_lookup(m@, "namespace"@) == Some(self.namespace)
                && assoc_lookup(m@, "key"@) == Some(self.key)),
    {
        let mut m: Vec<(String, String)> = Vec::new();
        m.push((String::from_str("namespace"), self.namespace.clone()));
        m.push((String::from_str("key"), self.key.clone()));
        proof {
            reveal_strlit("namespace");
            reveal_strlit("key");
            assert("namespace"@.len() == 9);
            assert("key"@.len() == 3);
            assert(m@.skip(1)[0] == m@[1]);
            assert(assoc_lookup(m@, "key"@) == assoc_lookup(m@.skip(1), "key"@));
        }
        Some(m)
    }

    /// Reads a header back from a wire field table: present exactly when
    /// both field names are, each taken by first match.
    pub fn from_map(map: &Vec<(String, String)>) -> (header: Option<GetKVConfigRequestHeader>)
        ensures
            match header {
                Some(h) => assoc_lookup(map@, "namespace"@) == Some(h.namespace) && assoc_lookup(
                    map@,
                    "key"@,
                ) == Some(h.key),
                None => assoc_lookup(map@, "namespace"@) is None || assoc_lookup(map@, "key"@)
                    is None,
            },
    {
        let namespace = table_get(map, "namespace");
        let key = table_get(map, "key");
        match (namespace, key) {
            (Some(namespace), Some(key)) => Some(GetKVConfigRequestHeader { namespace, key }),
            _ => None,
        }
    }
}

/// Header of the response to a KV-config read: the value, if one was
/// stored.
pub struct GetKVConfigResponseHeader {
    /// The stored value, absent when the key was unknown.
    pub value: Option<String>,
}

impl GetKVConfigResponseHeader {
    /// A header carrying the given optional value.
    pub fn new(value: Option<String>) -> (header: GetKVConfigResponseHeader)
        ensures
            header.value == value,
    {
        GetKVConfigResponseHeader { value }
    }

    /// The header as a wire field table: the single field `value` when a
    /// value is present, no table at all otherwise — so `from_map` on the
    /// table gives this header back.
    pub fn to_map(&self) -> (map: Option<Vec<(String, String)>>)
        ensures
            self.value matches Some(v) ==> (map matches Some(m) && m@.len() == 1 && m@[0].0@
                == "value"@ && m@[0].1 == v && assoc_lookup(m@, "value"@) == Some(v)),
            self.value is None ==> map is None,
    {
        match &self.value {
            Some(v) => {
                let mut m: Vec<(String, String)> = Vec::new();
                m.push((String::from_str("value"), v.clone()));
                Some(m)
            },
            None => None,
        }
    }

    /// Reads a header back from a wire field table: always present, the
    /// value taken by first match when its field name occurs.
    pub fn from_map(map: &Vec<(String, String)>) -> (header: Option<GetKVConfigResponseHeader>)
        ensures
            (header matches Some(h) && h.value == assoc_lookup(map@, "value"@)),
    {
        Some(GetKVConfigResponseHeader { value: table_get(map, "value") })
    }
}

} // verus!
