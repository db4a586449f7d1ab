//! A key-value store backed by a JSON file on disk.
//!
//! Used to restore the GUI library's memory and the window geometry between
//! runs.  The store itself is pure state: the platform layer reads the file
//! once at startup (a missing file means empty defaults, not an error) and
//! hands the text to [`FileStorage::load_json_text`]; on shutdown
//! [`FileStorage::save`] yields the text to write back, only when a value
//! actually changed.

use std::collections::HashMap;
use vstd::prelude::*;

verus! {

/// No two entries share a key.
pub open spec fn spec_keys_unique(s: Seq<(String, String)>) -> bool {
    forall|i: int, j: int| 0 <= i < j < s.len() ==> (#[trigger] s[i]).0@ != (#[trigger] s[j]).0@
}

/// The value stored under `key`, scanning entries in order.
pub open spec fn spec_kv_find(s: Seq<(String, String)>, key: Seq<char>) -> Option<Seq<char>>
    decreases s.len(),
{
    if s.len() == 0 {
        None::<Seq<char>>
    } else if s[0].0@ == key {
        Some(s[0].1@)
    } else {
        spec_kv_find(s.drop_first(), key)
    }
}

/// Whether the entry list holds exactly the entries of the map `m`.
pub open spec fn spec_kv_matches_map(
    s: Seq<(String, String)>,
    m: Map<Seq<char>, Seq<char>>,
) -> bool {
    forall|k: Seq<char>|
        #![trigger m.contains_key(k)]
        #![trigger spec_kv_find(s, k)]
        (m.contains_key(k) <==> spec_kv_find(s, k) is Some) && (m.contains_key(k)
            ==> spec_kv_find(s, k) == Some(m[k]))
}

/// What a well-formed JSON object of strings denotes, if the text is one:
/// the result of parsing the text as a string-to-string map.
pub uninterp spec fn json_kv_of(s: Seq<char>) -> Option<Map<Seq<char>, Seq<char>>>;

/// Relies on `serde_json::from_str::<HashMap<String, String>>`: whether a
/// text parses as a JSON object of strings, and to which map, depends on the
/// text alone, and the parsed map's keys are unique.
#[verifier::external_body]
fn parse_kv_json(s: &str) -> (r: Option<Vec<(String, String)>>)
    ensures
        r is Some <==> json_kv_of(s@) is Some,
        r is Some ==> spec_keys_unique(r->Some_0@),
        r is Some ==> spec_kv_matches_map(r->Some_0@, json_kv_of(s@)->Some_0),
{
    serde_json::from_str::<HashMap<String, String>>(s).ok().map(|m| m.into_iter().collect())
}

/// Relies on `serde_json::to_string` on a map of strings: serializing a
/// string-to-string map cannot fail, and parsing the produced text back
/// yields exactly the entries that were serialized.
#[verifier::external_body]
fn kv_to_json(kv: &Vec<(String, String)>) -> (r: String)
    requires
        spec_keys_unique(kv@),
    ensures
        json_kv_of(r@) is Some,
        spec_kv_matches_map(kv@, json_kv_of(r@)->Some_0),
{
    let m: HashMap<&str, &str> = kv.iter().map(|p| (p.0.as_str(), p.1.as_str())).collect();
    serde_json::to_string(&m).expect("maps of strings always serialize")
}

/// A key-value store backed by a JSON file, written only when dirty.
pub struct FileStorage {
    path: String,
    kv: Vec<(String, String)>,
    dirty: bool,
}

/// The first match decides: under unique keys, the value found for a key at
/// a known index.
proof fn lemma_find_at(s: Seq<(String, String)>, i: int, key: Seq<char>)
    requires
        0 <= i < s.len(),
        s[i].0@ == key,
        forall|j: int| 0 <= j < i ==> (#[trigger] s[j]).0@ != key,
    ensures
        spec_kv_find(s, key) == Some(s[i].1@),
    decreases i,
{
    if i > 0 {
        lemma_find_at(s.drop_first(), i - 1, key);
    }
}

/// A key none of the entries carries is not found.
proof fn lemma_find_absent(s: Seq<(String, String)>, key: Seq<char>)
    requires
        forall|j: int| 0 <= j < s.len() ==> (#[trigger] s[j]).0@ != key,
    ensures
        spec_kv_find(s, key) is None,
    decreases s.len(),
{
    if s.len() > 0 {
        lemma_find_absent(s.drop_first(), key);
    }
}

/// Appending a fresh entry leaves other keys as they were and binds the new
/// key last.
proof fn lemma_find_push(s: Seq<(String, String)>, p: (String, String), k: Seq<char>)
    ensures
        spec_kv_find(s.push(p), k) == (match spec_kv_find(s, k) {
            Some(v) => Some(v),
            None => if k == p.0@ {
                Some(p.1@)
            } else {
                None::<Seq<char>>
            },
        }),
    decreases s.len(),
{
    if s.len() == 0 {
        assert(s.push(p)[0] == p);
        assert(s.push(p).drop_first() =~= Seq::<(String, String)>::empty());
        if p.0@ == k {
            assert(spec_kv_find(s.push(p), k) == Some(p.1@));
        } else {
            assert(spec_kv_find(s.push(p), k) == spec_kv_find(s.push(p).drop_first(), k));
        }
    } else {
        assert(s.push(p)[0] == s[0]);
        assert(s.push(p).drop_first() =~= s.drop_first().push(p));
        lemma_find_push(s.drop_first(), p, k);
        if s[0].0@ == k {
            assert(spec_kv_find(s.push(p), k) == Some(s[0].1@));
            assert(spec_kv_find(s, k) == Some(s[0].1@));
        } else {
            assert(spec_kv_find(s.push(p), k) == spec_kv_find(s.drop_first().push(p), k));
            assert(spec_kv_find(s, k) == spec_kv_find(s.drop_first(), k));
        }
    }
}

/// Replacing the value at an existing key's index rebinds that key and no
/// other.
proof fn lemma_find_update(s: Seq<(String, String)>, i: int, p: (String, String), k: Seq<char>)
    requires
        0 <= i < s.len(),
        s[i].0@ == p.0@,
        spec_keys_unique(s),
    ensures
        spec_kv_find(s.update(i, p), k) == if k == p.0@ {
            Some(p.1@)
        } else {
            spec_kv_find(s, k)
        },
    decreases i,
{
    let t = s.update(i, p);
    if i == 0 {
        assert(t[0] == p);
        if k != p.0@ {
            assert(t.drop_first() =~= s.drop_first());
        }
    } else {
        assert(t[0] == s[0]);
        assert(s[0].0@ != p.0@);
        if s[0].0@ == k {
        } else {
            assert(t.drop_first() =~= s.drop_first().update(i - 1, p));
            assert(spec_keys_unique(s.drop_first())) by {
                assert forall|a: int, b: int|
                    0 <= a < b < s.drop_first().len() implies (#[trigger] s.drop_first()[a]).0@
                    != (#[trigger] s.drop_first()[b]).0@ by {
                    assert(s.drop_first()[a] == s[a + 1]);
                    assert(s.drop_first()[b] == s[b + 1]);
                }
            }
            lemma_find_update(s.drop_first(), i - 1, p, k);
        }
    }
}

impl FileStorage {
    /// Path of the backing file.
    pub closed spec fn spec_path(self) -> Seq<char> {
        self.path@
    }

    /// The stored entries.
    pub closed spec fn spec_kv(self) -> Seq<(String, String)> {
        self.kv@
    }

    /// Whether the store holds changes not yet written to disk.
    pub closed spec fn spec_dirty(self) -> bool {
        self.dirty
    }

    /// The value stored under `key`.
    pub open spec fn spec_get(self, key: Seq<char>) -> Option<Seq<char>> {
        spec_kv_find(self.spec_kv(), key)
    }

    /// Well-formed: no two entries share a key.
    pub open spec fn wf(self) -> bool {
        spec_keys_unique(self.spec_kv())
    }

    /// An empty store for the given path; the platform layer loads the
    /// file's text, if the file exists, with [`Self::load_json_text`].
    pub fn from_path(path: String) -> (r: FileStorage)
        ensures
            r.spec_path() == path@,
            r.spec_kv() == Seq::<(String, String)>::empty(),
            !r.spec_dirty(),
            r.wf(),
    {
        FileStorage { path, kv: Vec::new(), dirty: false }
    }

    /// Replaces the contents with the entries parsed from the backing
    /// file's text; a text that is not a JSON object of strings leaves the
    /// store unchanged (defaults, not an error).
    pub fn load_json_text(&mut self, text: &str) -> (ok: bool)
        ensures
            ok <==> json_kv_of(text@) is Some,
            ok ==> spec_kv_matches_map(final(self).spec_kv(), json_kv_of(text@)->Some_0),
            !ok ==> final(self).spec_kv() == old(self).spec_kv(),
            final(self).spec_path() == old(self).spec_path(),
            final(self).spec_dirty() == old(self).spec_dirty(),
            old(self).wf() ==> final(self).wf(),
    {
        match parse_kv_json(text) {
            Some(entries) => {
                self.kv = entries;
                true
            },
            None => false,
        }
    }

    /// Path of the backing file.
    pub fn path(&self) -> (r: &str)
        ensures
            r@ == self.spec_path(),
    {
        self.path.as_str()
    }

    /// The text to write to the backing file, if anything changed since the
    /// last save; the store is clean afterwards.  Parsing the returned text
    /// recovers exactly the stored entries.
    pub fn save(&mut self) -> (r: Option<String>)
        requires
            old(self).wf(),
        ensures
            r is Some <==> old(self).spec_dirty(),
            !final(self).spec_dirty(),
            final(self).spec_kv() == old(self).spec_kv(),
            final(self).spec_path() == old(self).spec_path(),
            final(self).wf(),
            r is Some ==> json_kv_of(r->Some_0@) is Some && spec_kv_matches_map(
                final(self).spec_kv(),
                json_kv_of(r->Some_0@)->Some_0,
            ),
    {
        if self.dirty {
            self.dirty = false;
            Some(kv_to_json(&self.kv))
        } else {
            None
        }
    }

    /// The value stored under `key`.
    #[verifier::loop_isolation(false)]
    pub fn get_string<'a>(&'a self, key: &str) -> (r: Option<&'a str>)
        ensures
            match r {
                Some(v) => self.spec_get(key@) == Some(v@),
                None => self.spec_get(key@) is None,
            },
    {
        let key_string: String = key.to_owned();
        let n = self.kv.len();
        let mut i: usize = 0;
        proof {
            assert(self.kv@.skip(0) =~= self.kv@);
        }
        while i < n
            invariant
                i <= n,
                n == self.kv@.len(),
                key_string@ == key@,
                spec_kv_find(self.kv@, key@) == spec_kv_find(self.kv@.skip(i as int), key@),
            decreases n - i,
        {
            let ghost rest = self.kv@.skip(i as int);
            proof {
                assert(rest[0] == self.kv@[i as int]);
            }
            if self.kv[i].0 == key_string {
                proof {
                    assert(spec_kv_find(rest, key@) == Some(rest[0].1@));
                }
                return Some(self.kv[i].1.as_str());
            }
            proof {
                assert(rest.drop_first() =~= self.kv@.skip(i as int + 1));
            }
            i = i + 1;
        }
        proof {
            assert(self.kv@.skip(n as int) =~= Seq::<(String, String)>::empty());
        }
        None
    }

    /// Stores `value` under `key`, replacing any previous value; the store
    /// becomes dirty only when the stored value actually changes.
    #[verifier::loop_isolation(false)]
    pub fn set_string(&mut self, key: &str, value: String)
        requires
            old(self).wf(),
        ensures
            final(self).wf(),
            final(self).spec_path() == old(self).spec_path(),
            final(self).spec_get(key@) == Some(value@),
            forall|k: Seq<char>| k != key@ ==> final(self).spec_get(k) == old(self).spec_get(k),
            final(self).spec_dirty() == (old(self).spec_dirty() || old(self).spec_get(key@)
                != Some(value@)),
    {
        let key_string: String = key.to_owned();
        let n = self.kv.len();
        let mut i: usize = 0;
        while i < n
            invariant
                i <= n,
                n == self.kv@.len(),
                key_string@ == key@,
                *self == *old(self),
                forall|j: int| 0 <= j < i ==> (#[trigger] self.kv@[j]).0@ != key@,
            decreases n - i,
        {
            if self.kv[i].0 == key_string {
                proof {
                    lemma_find_at(self.kv@, i as int, key@);
                }
                if self.kv[i].1 == value {
                    return ;
                }
                let ghost before = self.kv@;
                let entry = &mut self.kv[i];
                entry.1 = value;
                self.dirty = true;
                proof {
                    let after = self.kv@;
                    let p = after[i as int];
                    assert(after =~= before.update(i as int, p));
                    assert(p.0@ == key@);
                    assert(p.1@ == value@);
                    assert forall|k: Seq<char>| true implies #[trigger] spec_kv_find(after, k)
                        == if k == key@ {
                        Some(value@)
                    } else {
                        spec_kv_find(before, k)
                    } by {
                        lemma_find_update(before, i as int, p, k);
                    }
                    assert forall|a: int, b: int| 0 <= a < b < after.len() implies (
                    #[trigger] after[a]).0@ != (#[trigger] after[b]).0@ by {
                        assert(after[a].0@ == before[a].0@);
                        assert(after[b].0@ == before[b].0@);
                    }
                }
                return ;
            }
            i = i + 1;
        }
        proof {
            lemma_find_absent(self.kv@, key@);
        }
        let ghost before = self.kv@;
        self.kv.push((key_string, value));
        self.dirty = true;
        proof {
            let after = self.kv@;
            let p = after.last();
            assert(p.0@ == key@);
            assert(p.1@ == value@);
            assert forall|k: Seq<char>| true implies #[trigger] spec_kv_find(after, k) == if k
                == key@ {
                Some(value@)
            } else {
                spec_kv_find(before, k)
            } by {
                lemma_find_push(before, p, k);
            }
            assert forall|a: int, b: int| 0 <= a < b < after.len() implies (
            #[trigger] after[a]).0@ != (#[trigger] after[b]).0@ by {
                if b < after.len() - 1 {
                    assert(after[a].0@ == before[a].0@);
                    assert(after[b].0@ == before[b].0@);
                } else {
                    assert(after[a].0@ == before[a].0@);
                    assert(after[b].0@ == key@);
                }
            }
        }
    }
}

} // verus!
