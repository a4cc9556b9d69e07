//! The reference lookup table: named entries found by exact key or by
//! key prefix.
//!
//! Matching is ASCII-case-insensitive by design: the query has its
//! ASCII capital letters folded to lowercase before comparison, every
//! other character (including any non-ASCII letter) is compared
//! exactly, and the stored keys are compared as given.  Loading entries
//! from disk is the caller's business; the table itself only stores
//! and searches.

use vstd::prelude::*;

use crate::textbuf::{fold_seq, fold_string, is_prefix, spec_trim, starts_with_chars, trim_string};

verus! {

/// One entry of the reference table.
#[derive(Debug)]
pub struct LookupEntry {
    /// The display name of the entry.
    pub name: String,
    /// A one-line description.
    pub description_short: String,
    /// The full description.
    pub description: String,
}

impl LookupEntry {
    /// An exact copy of this entry.
    pub fn duplicate(&self) -> (r: LookupEntry)
        ensures
            r == *self,
    {
        LookupEntry {
            name: self.name.clone(),
            description_short: self.description_short.clone(),
            description: self.description.clone(),
        }
    }
}

impl Default for LookupEntry {
    /// An entry with every field empty.
    fn default() -> (r: Self)
        ensures
            r.name@.len() == 0,
            r.description_short@.len() == 0,
            r.description@.len() == 0,
    {
        LookupEntry {
            name: String::new(),
            description_short: String::new(),
            description: String::new(),
        }
    }
}

/// The position of the first key equal to `q`, or a negative value when
/// no key matches.
pub open spec fn find_key(keys: Seq<Seq<char>>, q: Seq<char>) -> int
    decreases keys.len(),
{
    if keys.len() == 0 {
        -1
    } else if keys[0] == q {
        0
    } else {
        let rest = find_key(keys.drop_first(), q);
        if rest < 0 {
            -1
        } else {
            1 + rest
        }
    }
}

/// What [`find_key`] returns: a valid position of the first match, or a
/// negative value exactly when no key matches.
pub proof fn lemma_find_key(keys: Seq<Seq<char>>, q: Seq<char>)
    ensures
        find_key(keys, q) >= 0 ==> {
            &&& find_key(keys, q) < keys.len()
            &&& keys[find_key(keys, q)] == q
            &&& forall|k: int| 0 <= k < find_key(keys, q) ==> keys[k] != q
        },
        find_key(keys, q) < 0 ==> forall|k: int| 0 <= k < keys.len() ==> keys[k] != q,
    decreases keys.len(),
{
    if keys.len() > 0 && keys[0] != q {
        lemma_find_key(keys.drop_first(), q);
        let rest = find_key(keys.drop_first(), q);
        if rest >= 0 {
            assert(keys[rest + 1] == keys.drop_first()[rest]);
            assert forall|k: int| 0 <= k < rest + 1 implies keys[k] != q by {
                if k > 0 {
                    assert(keys.drop_first()[k - 1] != q);
                }
            }
        } else {
            assert forall|k: int| 0 <= k < keys.len() implies keys[k] != q by {
                if k > 0 {
                    assert(keys.drop_first()[k - 1] != q);
                }
            }
        }
    }
}

/// The entries whose key has `q` as a prefix, in table order.
pub open spec fn spec_completions(
    keys: Seq<Seq<char>>,
    entries: Seq<LookupEntry>,
    q: Seq<char>,
) -> Seq<LookupEntry>
    decreases keys.len(),
{
    if keys.len() == 0 {
        Seq::empty()
    } else {
        let rest = spec_completions(keys.drop_last(), entries.drop_last(), q);
        if is_prefix(q, keys.last()) {
            rest.push(entries.last())
        } else {
            rest
        }
    }
}

/// No more entries match a prefix than the table holds.
pub proof fn lemma_completions_len(keys: Seq<Seq<char>>, entries: Seq<LookupEntry>, q: Seq<char>)
    ensures
        spec_completions(keys, entries, q).len() <= keys.len(),
    decreases keys.len(),
{
    if keys.len() > 0 {
        lemma_completions_len(keys.drop_last(), entries.drop_last(), q);
    }
}

/// The reference table: keyed entries in insertion order.
pub struct Lookup {
    table: Vec<(String, LookupEntry)>,
    loaded: bool,
}

impl Lookup {
    /// The keys of the table, as character sequences, in table order.
    pub closed spec fn spec_keys(self) -> Seq<Seq<char>> {
        self.table@.map_values(|p: (String, LookupEntry)| p.0@)
    }

    /// The entries of the table, in table order.
    pub closed spec fn spec_entries(self) -> Seq<LookupEntry> {
        self.table@.map_values(|p: (String, LookupEntry)| p.1)
    }

    /// Whether the caller has filled the table from its stored form.
    pub closed spec fn spec_loaded(self) -> bool {
        self.loaded
    }

    /// There are as many keys as entries.
    pub proof fn lemma_table_lens(self)
        ensures
            self.spec_keys().len() == self.spec_entries().len(),
    {
    }

    /// Whether the caller has filled the table from its stored form.
    pub fn is_loaded(&self) -> (r: bool)
        ensures
            r == self.spec_loaded(),
    {
        self.loaded
    }

    /// An empty, not yet loaded table.
    pub fn new() -> (r: Self)
        ensures
            r.spec_keys().len() == 0,
            r.spec_entries().len() == 0,
            !r.spec_loaded(),
    {
        Lookup { table: Vec::new(), loaded: false }
    }

    /// The number of entries.
    pub fn len(&self) -> (r: usize)
        ensures
            r == self.spec_entries().len(),
    {
        self.table.len()
    }

    /// Store `entry` under `key`: an existing entry with the same key is
    /// replaced in place, otherwise the pair is appended.
    pub fn insert_entry(&mut self, key: String, entry: LookupEntry)
        ensures
            ({
                let i = find_key(old(self).spec_keys(), key@);
                if i >= 0 {
                    final(self).spec_keys() == old(self).spec_keys()
                        && final(self).spec_entries() == old(self).spec_entries().update(i, entry)
                } else {
                    final(self).spec_keys() == old(self).spec_keys().push(key@)
                        && final(self).spec_entries() == old(self).spec_entries().push(entry)
                }
            }),
            final(self).spec_loaded() == old(self).spec_loaded(),
    {
        let ghost kv = key@;
        let ghost ev = entry;
        let n = self.table.len();
        let mut i: usize = 0;
        while i < n
            invariant
                i <= n,
                n == self.table@.len(),
                self.table@ == old(self).table@,
                self.loaded == old(self).loaded,
                key@ == kv,
                entry == ev,
                forall|k: int| 0 <= k < i ==> self.spec_keys()[k] != kv,
            decreases n - i,
        {
            proof {
                assert(self.spec_keys()[i as int] == self.table@[i as int].0@);
            }
            if self.table[i].0 == key {
                proof {
                    lemma_find_key(old(self).spec_keys(), kv);
                    assert(old(self).spec_keys()[i as int] == kv);
                    assert(find_key(old(self).spec_keys(), kv) == i);
                }
                self.table.set(i, (key, entry));
                proof {
                    assert(self.spec_keys() =~= old(self).spec_keys());
                    assert(self.spec_entries() =~= old(self).spec_entries().update(i as int, ev));
                }
                return;
            }
            i = i + 1;
        }
        proof {
            lemma_find_key(old(self).spec_keys(), kv);
            assert(old(self).spec_keys() =~= self.spec_keys());
            let fk = find_key(old(self).spec_keys(), kv);
            if fk >= 0 {
                assert(self.spec_keys()[fk] == kv);
                assert(false);
            }
        }
        self.table.push((key, entry));
        proof {
            assert(self.spec_keys() =~= old(self).spec_keys().push(kv));
            assert(self.spec_entries() =~= old(self).spec_entries().push(ev));
        }
    }

    /// Mark the table as filled.
    pub fn set_loaded(&mut self)
        ensures
            final(self).spec_keys() == old(self).spec_keys(),
            final(self).spec_entries() == old(self).spec_entries(),
            final(self).spec_loaded(),
    {
        self.loaded = true;
    }

    /// The entry stored under `name`: the first entry whose key equals
    /// the query with its ASCII capital letters folded to lowercase.
    /// Folding is deliberately ASCII-only; a non-ASCII character in the
    /// query must match the stored key exactly.
    pub fn get_entry(&self, name: &String) -> (r: Option<&LookupEntry>)
        ensures
            ({
                let i = find_key(self.spec_keys(), fold_seq(name@));
                match r {
                    Some(e) => i >= 0 && *e == self.spec_entries()[i],
                    None => i < 0,
                }
            }),
    {
        proof {
            lemma_find_key(self.spec_keys(), fold_seq(name@));
        }
        let q = fold_string(name);
        let n = self.table.len();
        let mut i: usize = 0;
        while i < n
            invariant
                i <= n,
                n == self.table@.len(),
                q@ == fold_seq(name@),
                forall|k: int| 0 <= k < i ==> self.spec_keys()[k] != q@,
            decreases n - i,
        {
            proof {
                assert(self.spec_keys()[i as int] == self.table@[i as int].0@);
                assert(self.spec_entries()[i as int] == self.table@[i as int].1);
            }
            if self.table[i].0 == q {
                proof {
                    lemma_find_key(self.spec_keys(), q@);
                }
                return Some(&self.table[i].1);
            }
            i = i + 1;
        }
        None
    }

    /// Every entry whose key starts with the query, once the query is
    /// trimmed of ASCII whitespace at both ends (by design, leading and
    /// trailing alike) and has its ASCII capital letters folded to
    /// lowercase; the entries come back in table order.
    pub fn get_completions(&self, text: &String) -> (r: Vec<LookupEntry>)
        ensures
            r@ == spec_completions(
                self.spec_keys(),
                self.spec_entries(),
                fold_seq(spec_trim(text@)),
            ),
    {
        let trimmed = trim_string(text);
        let q = fold_string(&trimmed);
        let ghost qs = fold_seq(spec_trim(text@));
        let n = self.table.len();
        let mut out: Vec<LookupEntry> = Vec::new();
        let mut i: usize = 0;
        while i < n
            invariant
                i <= n,
                n == self.table@.len(),
                q@ == qs,
                out@ == spec_completions(
                    self.spec_keys().take(i as int),
                    self.spec_entries().take(i as int),
                    qs,
                ),
            decreases n - i,
        {
            proof {
                assert(self.spec_keys().take(i + 1).drop_last() =~= self.spec_keys().take(
                    i as int,
                ));
                assert(self.spec_entries().take(i + 1).drop_last() =~= self.spec_entries().take(
                    i as int,
                ));
                assert(self.spec_keys().take(i + 1).last() == self.spec_keys()[i as int]);
                assert(self.spec_entries().take(i + 1).last() == self.spec_entries()[i as int]);
                assert(self.spec_keys()[i as int] == self.table@[i as int].0@);
                assert(self.spec_entries()[i as int] == self.table@[i as int].1);
            }
            if starts_with_chars(&self.table[i].0, &q) {
                out.push(self.table[i].1.duplicate());
            }
            i = i + 1;
        }
        proof {
            assert(self.spec_keys().take(n as int) =~= self.spec_keys());
            assert(self.spec_entries().take(n as int) =~= self.spec_entries());
        }
        out
    }
}

} // verus!
