//! The extension registry: the mapping from extension name to extension
//! record that says what is installed, and the set of paths found on disk.
//!
//! A [`Registry`] is viewed as a `Map` from names to records. It also has a
//! listing order, the sequence of its names, for the operations that walk it.

use vstd::prelude::*;
use vstd::string::*;

verus! {

/// The family an extension belongs to. It decides how a version is resolved
/// and how the extension is removed.
#[derive(Debug, Clone, Copy, PartialEq, Eq, Structural)]
pub enum ExtensionType {
    /// A single binary fetched from the remote distribution.
    PactflowAi,
    /// The legacy bundle, or one of the tools bridged out of it.
    PactRubyStandalone,
    /// A binary found on the search path, not managed here.
    External,
}

/// One entry of the registry.
#[derive(Debug)]
pub struct ExtensionConfig {
    pub name: String,
    pub version: String,
    pub binary_path: String,
    pub extension_type: ExtensionType,
    pub installed: bool,
}

/// The mathematical value of an [`ExtensionConfig`].
pub struct ExtensionRecord {
    pub name: Seq<char>,
    pub version: Seq<char>,
    pub binary_path: Seq<char>,
    pub extension_type: ExtensionType,
    pub installed: bool,
}

impl View for ExtensionConfig {
    type V = ExtensionRecord;

    open spec fn view(&self) -> ExtensionRecord {
        ExtensionRecord {
            name: self.name@,
            version: self.version@,
            binary_path: self.binary_path@,
            extension_type: self.extension_type,
            installed: self.installed,
        }
    }
}

impl Clone for ExtensionConfig {
    fn clone(&self) -> (r: Self)
        ensures
            r@ == self@,
    {
        ExtensionConfig {
            name: self.name.clone(),
            version: self.version.clone(),
            binary_path: self.binary_path.clone(),
            extension_type: self.extension_type,
            installed: self.installed,
        }
    }
}

/// A name of the registry with its record.
struct Entry {
    key: String,
    config: ExtensionConfig,
}

/// The names of a sequence of entries, in order.
spec fn entry_keys(s: Seq<Entry>) -> Seq<Seq<char>> {
    Seq::new(s.len(), |i: int| s[i].key@)
}

/// Whether some entry of `s` has the name `k`.
spec fn has_key(s: Seq<Entry>, k: Seq<char>) -> bool {
    exists|i: int| 0 <= i < s.len() && #[trigger] s[i].key@ == k
}

/// The position of an entry of `s` with the name `k`.
spec fn key_index(s: Seq<Entry>, k: Seq<char>) -> int {
    choose|i: int| 0 <= i < s.len() && #[trigger] s[i].key@ == k
}

/// No two entries of `s` have the same name.
spec fn distinct_keys(s: Seq<Entry>) -> bool {
    forall|i: int, j: int|
        0 <= i < s.len() && 0 <= j < s.len() && i != j ==> #[trigger] s[i].key@ != #[trigger] s[j].key@
}

/// The mapping that a sequence of entries stands for.
spec fn entries_map(s: Seq<Entry>) -> Map<Seq<char>, ExtensionRecord> {
    Map::new(|k: Seq<char>| has_key(s, k), |k: Seq<char>| s[key_index(s, k)].config@)
}

proof fn lemma_key_index(s: Seq<Entry>, i: int)
    requires
        distinct_keys(s),
        0 <= i < s.len(),
    ensures
        has_key(s, s[i].key@),
        key_index(s, s[i].key@) == i,
        entries_map(s).contains_key(s[i].key@),
        entries_map(s)[s[i].key@] == s[i].config@,
{
    let k = s[i].key@;
    assert(s[i].key@ == k);
    let j = key_index(s, k);
    assert(0 <= j < s.len() && s[j].key@ == k);
}

proof fn lemma_entries_map_push(s: Seq<Entry>, e: Entry)
    requires
        distinct_keys(s),
        !has_key(s, e.key@),
    ensures
        distinct_keys(s.push(e)),
        entries_map(s.push(e)) == entries_map(s).insert(e.key@, e.config@),
        entry_keys(s.push(e)) == entry_keys(s).push(e.key@),
{
    let t = s.push(e);
    assert forall|i: int, j: int| 0 <= i < t.len() && 0 <= j < t.len() && i != j implies #[trigger] t[i].key@
        != #[trigger] t[j].key@ by {
        if i < s.len() {
            assert(t[i] == s[i]);
            assert(s[i].key@ == t[i].key@);
        }
        if j < s.len() {
            assert(t[j] == s[j]);
            assert(s[j].key@ == t[j].key@);
        }
    }
    let m = entries_map(s).insert(e.key@, e.config@);
    assert forall|k: Seq<char>| entries_map(t).contains_key(k) == m.contains_key(k) by {
        if has_key(t, k) {
            let i = key_index(t, k);
            if i < s.len() {
                assert(s[i].key@ == k);
            }
        }
        if has_key(s, k) {
            let i = key_index(s, k);
            assert(t[i].key@ == k);
        }
        if k == e.key@ {
            assert(t[s.len() as int].key@ == k);
        }
    }
    assert forall|k: Seq<char>| entries_map(t).contains_key(k) implies entries_map(t)[k] == m[k] by {
        let i = key_index(t, k);
        lemma_key_index(t, i);
        if i < s.len() {
            assert(s[i].key@ == k);
            lemma_key_index(s, i);
        }
    }
    assert(entries_map(t) =~= m);
    assert(entry_keys(t) =~= entry_keys(s).push(e.key@));
}

proof fn lemma_entries_map_update(s: Seq<Entry>, i: int, e: Entry)
    requires
        distinct_keys(s),
        0 <= i < s.len(),
        e.key@ == s[i].key@,
    ensures
        distinct_keys(s.update(i, e)),
        entries_map(s.update(i, e)) == entries_map(s).insert(e.key@, e.config@),
        entry_keys(s.update(i, e)) == entry_keys(s),
{
    let t = s.update(i, e);
    assert forall|a: int, b: int| 0 <= a < t.len() && 0 <= b < t.len() && a != b implies #[trigger] t[a].key@
        != #[trigger] t[b].key@ by {
        assert(t[a].key@ == s[a].key@);
        assert(t[b].key@ == s[b].key@);
    }
    let m = entries_map(s).insert(e.key@, e.config@);
    lemma_key_index(s, i);
    assert forall|k: Seq<char>| entries_map(t).contains_key(k) == m.contains_key(k) by {
        if has_key(t, k) {
            let j = key_index(t, k);
            assert(s[j].key@ == k);
        }
        if has_key(s, k) {
            let j = key_index(s, k);
            assert(t[j].key@ == k);
        }
    }
    assert forall|k: Seq<char>| entries_map(t).contains_key(k) implies entries_map(t)[k] == m[k] by {
        let j = key_index(t, k);
        lemma_key_index(t, j);
        assert(s[j].key@ == k);
        lemma_key_index(s, j);
    }
    assert(entries_map(t) =~= m);
    assert(entry_keys(t) =~= entry_keys(s));
}

proof fn lemma_entries_map_remove(s: Seq<Entry>, i: int)
    requires
        distinct_keys(s),
        0 <= i < s.len(),
    ensures
        distinct_keys(s.remove(i)),
        entries_map(s.remove(i)) == entries_map(s).remove(s[i].key@),
        entry_keys(s.remove(i)) == entry_keys(s).remove(i),
{
    let t = s.remove(i);
    assert forall|a: int| 0 <= a < t.len() implies #[trigger] t[a] == s[if a < i {
        a
    } else {
        a + 1
    }] by {}
    assert forall|a: int, b: int| 0 <= a < t.len() && 0 <= b < t.len() && a != b implies #[trigger] t[a].key@
        != #[trigger] t[b].key@ by {
        let a2 = if a < i {
            a
        } else {
            a + 1
        };
        let b2 = if b < i {
            b
        } else {
            b + 1
        };
        assert(t[a] == s[a2]);
        assert(t[b] == s[b2]);
        assert(s[a2].key@ != s[b2].key@);
    }
    let m = entries_map(s).remove(s[i].key@);
    assert forall|k: Seq<char>| entries_map(t).contains_key(k) == m.contains_key(k) by {
        if has_key(t, k) {
            let j = key_index(t, k);
            let j2 = if j < i {
                j
            } else {
                j + 1
            };
            assert(t[j] == s[j2]);
            assert(s[j2].key@ == k);
            assert(s[j2].key@ != s[i].key@);
        }
        if has_key(s, k) && k != s[i].key@ {
            let j = key_index(s, k);
            let j2 = if j < i {
                j
            } else {
                j - 1
            };
            assert(t[j2] == s[j]);
            assert(t[j2].key@ == k);
        }
    }
    assert forall|k: Seq<char>| entries_map(t).contains_key(k) implies entries_map(t)[k] == m[k] by {
        let j = key_index(t, k);
        lemma_key_index(t, j);
        let j2 = if j < i {
            j
        } else {
            j + 1
        };
        assert(t[j] == s[j2]);
        assert(s[j2].key@ == k);
        lemma_key_index(s, j2);
    }
    assert(entries_map(t) =~= m);
    assert(entry_keys(t) =~= entry_keys(s).remove(i));
}

/// The names of `keys` other than `name`, in the same order.
pub open spec fn keys_without(keys: Seq<Seq<char>>, name: Seq<char>) -> Seq<Seq<char>>
    decreases keys.len(),
{
    if keys.len() == 0 {
        keys
    } else if keys.last() == name {
        keys_without(keys.drop_last(), name)
    } else {
        keys_without(keys.drop_last(), name).push(keys.last())
    }
}

/// The mapping from extension name to extension record.
///
/// Names are unique: inserting under an existing name replaces that record.
pub struct Registry {
    entries: Vec<Entry>,
}

impl View for Registry {
    type V = Map<Seq<char>, ExtensionRecord>;

    closed spec fn view(&self) -> Map<Seq<char>, ExtensionRecord> {
        entries_map(self.entries@)
    }
}

impl Registry {
    /// No name occurs twice among the entries.
    #[verifier::type_invariant]
    pub closed spec fn wf(&self) -> bool {
        distinct_keys(self.entries@)
    }

    /// The names of the registry in listing order: first inserted, first listed.
    pub closed spec fn keys(&self) -> Seq<Seq<char>> {
        entry_keys(self.entries@)
    }

    /// The listing order holds each name of the mapping exactly once.
    pub proof fn keys_list_domain(&self)
        requires
            self.wf(),
        ensures
            self.keys().no_duplicates(),
            forall|k: Seq<char>| self.keys().contains(k) <==> self@.contains_key(k),
            self@.dom().finite(),
            self@.dom().len() == self.keys().len(),
    {
        let s = self.entries@;
        let keys = self.keys();
        assert forall|i: int, j: int| 0 <= i < keys.len() && 0 <= j < keys.len() && i != j implies keys[i]
            != keys[j] by {
            assert(s[i].key@ != s[j].key@);
        }
        assert forall|k: Seq<char>| keys.contains(k) <==> self@.contains_key(k) by {
            if keys.contains(k) {
                let i = choose|i: int| 0 <= i < keys.len() && keys[i] == k;
                assert(s[i].key@ == k);
            }
            if has_key(s, k) {
                let i = key_index(s, k);
                assert(keys[i] == k);
            }
        }
        assert(keys.to_set() =~= self@.dom());
        keys.unique_seq_to_set();
    }

    /// The empty registry.
    pub fn new() -> (r: Self)
        ensures
            r@ == Map::<Seq<char>, ExtensionRecord>::empty(),
            r.keys() == Seq::<Seq<char>>::empty(),
    {
        let r = Registry { entries: Vec::new() };
        assert(r@ =~= Map::<Seq<char>, ExtensionRecord>::empty());
        assert(r.keys() =~= Seq::<Seq<char>>::empty());
        r
    }

    /// The position of the entry named `name`, if there is one.
    fn position(&self, name: &str) -> (r: Option<usize>)
        ensures
            r is Some == has_key(self.entries@, name@),
            r matches Some(i) ==> i < self.entries@.len() && self.entries@[i as int].key@ == name@,
    {
        let wanted = name.to_owned();
        let mut i: usize = 0;
        while i < self.entries.len()
            invariant
                i <= self.entries@.len(),
                wanted@ == name@,
                forall|j: int| 0 <= j < i ==> self.entries@[j].key@ != name@,
            decreases self.entries@.len() - i,
        {
            if self.entries[i].key == wanted {
                return Some(i);
            }
            i += 1;
        }
        None
    }

    /// The number of records.
    pub fn len(&self) -> (r: usize)
        ensures
            r == self.keys().len(),
            r == self@.dom().len(),
    {
        proof {
            use_type_invariant(self);
            self.keys_list_domain();
        }
        self.entries.len()
    }

    /// Whether there is a record under `name`.
    pub fn contains_key(&self, name: &str) -> (r: bool)
        ensures
            r == self@.contains_key(name@),
    {
        self.position(name).is_some()
    }

    /// The record under `name`, if there is one.
    pub fn get(&self, name: &str) -> (r: Option<&ExtensionConfig>)
        ensures
            r is Some == self@.contains_key(name@),
            r matches Some(c) ==> c@ == self@[name@],
    {
        match self.position(name) {
            Some(i) => {
                proof {
                    use_type_invariant(self);
                    lemma_key_index(self.entries@, i as int);
                }
                Some(&self.entries[i].config)
            },
            None => None,
        }
    }

    /// Puts `config` under `name`, replacing the record that was there, if
    /// any. A new name goes to the end of the listing order.
    pub fn insert(&mut self, name: String, config: ExtensionConfig)
        ensures
            final(self)@ == old(self)@.insert(name@, config@),
            final(self).keys() == if old(self)@.contains_key(name@) {
                old(self).keys()
            } else {
                old(self).keys().push(name@)
            },
    {
        proof {
            use_type_invariant(&*self);
        }
        let found = self.position(name.as_str());
        let entry = Entry { key: name, config };
        let mut entries: Vec<Entry> = Vec::new();
        core::mem::swap(&mut self.entries, &mut entries);
        match found {
            Some(i) => {
                proof {
                    lemma_entries_map_update(entries@, i as int, entry);
                }
                entries.set(i, entry);
            },
            None => {
                proof {
                    lemma_entries_map_push(entries@, entry);
                }
                entries.push(entry);
            },
        }
        self.entries = entries;
    }

    /// Takes the record under `name` out, if there is one. The listing order
    /// of the other names stays.
    pub fn remove(&mut self, name: &str) -> (r: Option<ExtensionConfig>)
        ensures
            final(self)@ == old(self)@.remove(name@),
            r is Some == old(self)@.contains_key(name@),
            r matches Some(c) ==> c@ == old(self)@[name@],
            final(self).keys() == keys_without(old(self).keys(), name@),
    {
        proof {
            use_type_invariant(&*self);
        }
        match self.position(name) {
            Some(i) => {
                proof {
                    lemma_key_index(self.entries@, i as int);
                    lemma_entries_map_remove(self.entries@, i as int);
                    lemma_without_unique(entry_keys(self.entries@), i as int);
                }
                let mut entries: Vec<Entry> = Vec::new();
                core::mem::swap(&mut self.entries, &mut entries);
                let entry = entries.remove(i);
                self.entries = entries;
                Some(entry.config)
            },
            None => {
                proof {
                    assert(self@.remove(name@) =~= self@);
                    lemma_without_absent(entry_keys(self.entries@), name@);
                }
                None
            },
        }
    }

    /// The name at position `i` of the listing order.
    pub fn key_at(&self, i: usize) -> (r: &String)
        requires
            i < self.keys().len(),
        ensures
            r@ == self.keys()[i as int],
    {
        &self.entries[i].key
    }

    /// The record under the name at position `i` of the listing order.
    pub fn config_at(&self, i: usize) -> (r: &ExtensionConfig)
        requires
            i < self.keys().len(),
        ensures
            self@.contains_key(self.keys()[i as int]),
            r@ == self@[self.keys()[i as int]],
    {
        proof {
            use_type_invariant(self);
            lemma_key_index(self.entries@, i as int);
        }
        &self.entries[i].config
    }

    /// A copy of this registry.
    pub fn duplicate(&self) -> (r: Self)
        ensures
            r@ == self@,
            r.keys() == self.keys(),
    {
        proof {
            use_type_invariant(self);
        }
        let mut entries: Vec<Entry> = Vec::new();
        let mut i: usize = 0;
        while i < self.entries.len()
            invariant
                i <= self.entries@.len(),
                entries@.len() == i,
                forall|j: int|
                    0 <= j < i ==> entries@[j].key@ == self.entries@[j].key@ && entries@[j].config@
                        == self.entries@[j].config@,
            decreases self.entries@.len() - i,
        {
            let e = &self.entries[i];
            entries.push(Entry { key: e.key.clone(), config: e.config.clone() });
            i += 1;
        }
        proof {
            lemma_same_entries(self.entries@, entries@);
        }
        Registry { entries }
    }
}

proof fn lemma_same_entries(s: Seq<Entry>, t: Seq<Entry>)
    requires
        s.len() == t.len(),
        forall|j: int| 0 <= j < s.len() ==> t[j].key@ == s[j].key@ && t[j].config@ == s[j].config@,
        distinct_keys(s),
    ensures
        distinct_keys(t),
        entries_map(t) == entries_map(s),
        entry_keys(t) == entry_keys(s),
{
    assert forall|a: int, b: int| 0 <= a < t.len() && 0 <= b < t.len() && a != b implies #[trigger] t[a].key@
        != #[trigger] t[b].key@ by {
        assert(s[a].key@ != s[b].key@);
    }
    assert forall|k: Seq<char>| entries_map(t).contains_key(k) == entries_map(s).contains_key(k) by {
        if has_key(t, k) {
            let j = key_index(t, k);
            assert(s[j].key@ == k);
        }
        if has_key(s, k) {
            let j = key_index(s, k);
            assert(t[j].key@ == k);
        }
    }
    assert forall|k: Seq<char>| entries_map(t).contains_key(k) implies entries_map(t)[k]
        == entries_map(s)[k] by {
        let j = key_index(t, k);
        lemma_key_index(t, j);
        assert(s[j].key@ == k);
        lemma_key_index(s, j);
    }
    assert(entries_map(t) =~= entries_map(s));
    assert(entry_keys(t) =~= entry_keys(s));
}

/// Dropping the one occurrence of a name from a duplicate-free sequence
/// removes the element at its position.
proof fn lemma_without_unique(keys: Seq<Seq<char>>, i: int)
    requires
        0 <= i < keys.len(),
        forall|a: int, b: int| 0 <= a < keys.len() && 0 <= b < keys.len() && a != b ==> keys[a] != keys[b],
    ensures
        keys_without(keys, keys[i]) == keys.remove(i),
    decreases keys.len(),
{
    let name = keys[i];
    let front = keys.drop_last();
    if i == keys.len() - 1 {
        lemma_without_absent(front, name);
        assert(keys.remove(i) =~= front);
    } else {
        lemma_without_unique(front, i);
        assert(front[i] == name);
        assert(keys.last() != keys[i]);
        assert(keys.remove(i) =~= front.remove(i).push(keys.last()));
    }
}

/// Dropping a name from a sequence that does not hold it changes nothing.
proof fn lemma_without_absent(keys: Seq<Seq<char>>, name: Seq<char>)
    requires
        forall|a: int| 0 <= a < keys.len() ==> keys[a] != name,
    ensures
        keys_without(keys, name) == keys,
    decreases keys.len(),
{
    if keys.len() > 0 {
        lemma_without_absent(keys.drop_last(), name);
        assert(keys.drop_last().push(keys.last()) =~= keys);
    }
}

/// The paths that were found to exist on disk.
pub struct PathSet {
    paths: Vec<String>,
}

impl View for PathSet {
    type V = Set<Seq<char>>;

    closed spec fn view(&self) -> Set<Seq<char>> {
        Set::new(|p: Seq<char>| exists|i: int| 0 <= i < self.paths@.len() && #[trigger] self.paths@[i]@ == p)
    }
}

impl PathSet {
    /// The empty set of paths.
    pub fn new() -> (r: Self)
        ensures
            r@ == Set::<Seq<char>>::empty(),
    {
        let r = PathSet { paths: Vec::new() };
        assert(r@ =~= Set::<Seq<char>>::empty());
        r
    }

    /// Adds `path` to the set.
    pub fn insert(&mut self, path: String)
        ensures
            final(self)@ == old(self)@.insert(path@),
    {
        let ghost before = self.paths@;
        self.paths.push(path);
        proof {
            let after = self.paths@;
            assert forall|p: Seq<char>| final(self)@.contains(p) == old(self)@.insert(path@).contains(p) by {
                if final(self)@.contains(p) {
                    let i = choose|i: int| 0 <= i < after.len() && #[trigger] after[i]@ == p;
                    if i < before.len() {
                        assert(before[i]@ == p);
                    }
                }
                if old(self)@.contains(p) {
                    let i = choose|i: int| 0 <= i < before.len() && #[trigger] before[i]@ == p;
                    assert(after[i]@ == p);
                }
                if p == path@ {
                    assert(after[before.len() as int]@ == p);
                }
            }
            assert(final(self)@ =~= old(self)@.insert(path@));
        }
    }

    /// Whether `path` is in the set.
    pub fn contains(&self, path: &str) -> (r: bool)
        ensures
            r == self@.contains(path@),
    {
        let wanted = path.to_owned();
        let mut i: usize = 0;
        while i < self.paths.len()
            invariant
                i <= self.paths@.len(),
                wanted@ == path@,
                forall|j: int| 0 <= j < i ==> self.paths@[j]@ != path@,
            decreases self.paths@.len() - i,
        {
            if self.paths[i] == wanted {
                return true;
            }
            i += 1;
        }
        false
    }
}

} // verus!
