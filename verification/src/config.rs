//! The server's configuration: the hosts it serves and the secrets it places
//! on them.
use vstd::prelude::*;

verus! {

/// How the value of a secret is obtained.
#[derive(Clone, Copy, Debug, PartialEq, Eq, Structural)]
pub enum SecretType {
    /// The secret is the standard output of a local shell command.
    Command,
}

/// A secret to place on a host.
#[derive(Clone, Debug)]
pub struct Secret {
    /// The local shell command whose output is the secret.
    pub command: String,
    /// Where the secret is placed on the host.
    pub target_path: String,
    /// How the secret is obtained.
    pub secret_type: SecretType,
}

/// How to reach a host over SSH.
#[derive(Clone, Debug)]
pub struct SSHAccessConfig {
    /// The host's address.
    pub address: String,
    /// The secret holding the private key to log in with.
    pub key: Secret,
    /// The user to log in as.
    pub username: String,
}

/// How a host is reached.
#[derive(Clone, Debug)]
pub enum AccessType {
    Ssh(SSHAccessConfig),
}

/// The configuration of one host.
#[derive(Clone, Debug)]
pub struct HostConfig {
    pub access: AccessType,
}

/// Whether no two entries of `s` carry the same name.
pub open spec fn names_unique<V>(s: Seq<(String, V)>) -> bool {
    forall|i: int, j: int|
        0 <= i < s.len() && 0 <= j < s.len() && i != j ==> #[trigger] s[i].0@ != #[trigger] s[j].0@
}

/// Whether some entry of `s` carries the name `k`.
pub open spec fn has_name<V>(s: Seq<(String, V)>, k: Seq<char>) -> bool {
    exists|i: int| 0 <= i < s.len() && #[trigger] s[i].0@ == k
}

/// The position of the entry of `s` named `k`.
pub open spec fn position_of<V>(s: Seq<(String, V)>, k: Seq<char>) -> int {
    choose|i: int| 0 <= i < s.len() && #[trigger] s[i].0@ == k
}

/// The entries of `s` as a map from name to value.
pub open spec fn entries_map<V>(s: Seq<(String, V)>) -> Map<Seq<char>, V> {
    Map::new(|k: Seq<char>| has_name(s, k), |k: Seq<char>| s[position_of(s, k)].1)
}

/// Values keyed by distinct names, kept in the order in which the names were
/// first inserted; inserting under a name that is present replaces its value.
pub struct NamedEntries<V> {
    entries: Vec<(String, V)>,
}

impl<V> View for NamedEntries<V> {
    type V = Map<Seq<char>, V>;

    closed spec fn view(&self) -> Map<Seq<char>, V> {
        entries_map(self.entries@)
    }
}

proof fn lemma_position_unique<V>(s: Seq<(String, V)>, i: int)
    requires
        names_unique(s),
        0 <= i < s.len(),
    ensures
        has_name(s, s[i].0@),
        position_of(s, s[i].0@) == i,
{
    let k = s[i].0@;
    assert(has_name(s, k));
    let j = position_of(s, k);
    assert(s[j].0@ == k);
}

impl<V> NamedEntries<V> {
    #[verifier::type_invariant]
    spec fn well_formed(&self) -> bool {
        names_unique(self.entries@)
    }

    /// The names, in order of first insertion.
    pub closed spec fn names(&self) -> Seq<Seq<char>> {
        self.entries@.map_values(|e: (String, V)| e.0@)
    }

    /// The value at position `i` of the insertion order.
    pub closed spec fn value_at_spec(&self, i: int) -> V {
        self.entries@[i].1
    }

    /// An empty collection.
    pub fn new() -> (res: Self)
        ensures
            res@ == Map::<Seq<char>, V>::empty(),
            res.names() == Seq::<Seq<char>>::empty(),
    {
        let res = NamedEntries { entries: Vec::new() };
        assert(res@ =~= Map::<Seq<char>, V>::empty());
        assert(res.names() =~= Seq::<Seq<char>>::empty());
        res
    }

    /// The number of names.  Every collection of named entries satisfies
    /// what the other clauses state: the names are distinct, they are
    /// exactly the keys of the map, and each position holds the value of its
    /// name.
    pub fn len(&self) -> (n: usize)
        ensures
            n == self.names().len(),
            forall|i: int, j: int|
                0 <= i < self.names().len() && 0 <= j < self.names().len() && i != j
                    ==> #[trigger] self.names()[i] != #[trigger] self.names()[j],
            forall|k: Seq<char>| #[trigger] self@.contains_key(k) <==> self.names().contains(k),
            forall|i: int|
                0 <= i < self.names().len() ==> #[trigger] self@[self.names()[i]]
                    == self.value_at_spec(i),
    {
        proof {
        use_type_invariant(self);
        let s = self.entries@;
        assert forall|k: Seq<char>| #[trigger] self@.contains_key(k) <==> self.names().contains(k) by {
            if self@.contains_key(k) {
                let i = position_of(s, k);
                assert(self.names()[i] == k);
            }
            if self.names().contains(k) {
                let i = choose|i: int| 0 <= i < self.names().len() && self.names()[i] == k;
                assert(s[i].0@ == k);
            }
        }
        assert forall|i: int| 0 <= i < self.names().len() implies #[trigger] self@[self.names()[i]]
            == self.value_at_spec(i) by {
            lemma_position_unique(s, i);
        }
        }
        self.entries.len()
    }

    /// The position of `name`, if it is present.
    fn find(&self, name: &String) -> (res: Option<usize>)
        ensures
            match res {
                Some(i) => i < self.entries@.len() && self.entries@[i as int].0@ == name@,
                None => !has_name(self.entries@, name@),
            },
    {
        let mut i: usize = 0;
        while i < self.entries.len()
            invariant
                i <= self.entries@.len(),
                forall|j: int| 0 <= j < i ==> self.entries@[j].0@ != name@,
            decreases self.entries@.len() - i,
        {
            if self.entries[i].0 == *name {
                return Some(i);
            }
            i = i + 1;
        }
        None
    }

    /// The value stored under `name`.
    pub fn get(&self, name: &String) -> (res: Option<&V>)
        ensures
            match res {
                Some(v) => self@.contains_key(name@) && *v == self@[name@],
                None => !self@.contains_key(name@),
            },
    {
        proof {
            use_type_invariant(self);
        }
        match self.find(name) {
            Some(i) => {
                proof {
                    lemma_position_unique(self.entries@, i as int);
                }
                Some(&self.entries[i].1)
            },
            None => None,
        }
    }

    /// The name at position `i` of the insertion order.
    pub fn name_at(&self, i: usize) -> (name: &String)
        requires
            i < self.names().len(),
        ensures
            name@ == self.names()[i as int],
    {
        &self.entries[i].0
    }

    /// The value at position `i` of the insertion order.
    pub fn value_at(&self, i: usize) -> (value: &V)
        requires
            i < self.names().len(),
        ensures
            *value == self.value_at_spec(i as int),
            *value == self@[self.names()[i as int]],
    {
        proof {
            use_type_invariant(self);
            lemma_position_unique(self.entries@, i as int);
        }
        &self.entries[i].1
    }

    /// Stores `value` under `name`, replacing the value already stored there.
    /// A new name goes last in the insertion order; a present name keeps its
    /// place.
    pub fn insert(&mut self, name: String, value: V)
        ensures
            final(self)@ == old(self)@.insert(name@, value),
            old(self)@.contains_key(name@) ==> final(self).names() == old(self).names(),
            !old(self)@.contains_key(name@) ==> final(self).names() == old(self).names().push(
                name@,
            ),
    {
        proof {
            use_type_invariant(&*self);
        }
        let ghost old_s = self.entries@;
        let ghost k = name@;
        let found = self.find(&name);
        let mut entries: Vec<(String, V)> = Vec::new();
        std::mem::swap(&mut entries, &mut self.entries);
        match found {
            Some(i) => {
                entries.set(i, (name, value));
                proof {
                    let s = entries@;
                    assert(s =~= old_s.update(i as int, (s[i as int].0, value)));
                    assert(names_unique(s)) by {
                        assert forall|a: int, b: int|
                            0 <= a < s.len() && 0 <= b < s.len() && a != b implies #[trigger] s[a].0@
                            != #[trigger] s[b].0@ by {
                            assert(old_s[a].0@ == s[a].0@);
                            assert(old_s[b].0@ == s[b].0@);
                        }
                    }
                    assert forall|x: Seq<char>| has_name(s, x) <==> has_name(old_s, x) by {
                        if has_name(s, x) {
                            let j = position_of(s, x);
                            assert(old_s[j].0@ == x);
                        }
                        if has_name(old_s, x) {
                            let j = position_of(old_s, x);
                            assert(s[j].0@ == x);
                        }
                    }
                    assert forall|x: Seq<char>| #[trigger]
                        entries_map(s).contains_key(x) && x != k implies entries_map(s)[x]
                        == entries_map(old_s)[x] by {
                        let j = position_of(s, x);
                        lemma_position_unique(s, j);
                        lemma_position_unique(old_s, j);
                    }
                    lemma_position_unique(s, i as int);
                    assert(entries_map(s) =~= entries_map(old_s).insert(k, value));
                    assert(s.map_values(|e: (String, V)| e.0@) =~= old_s.map_values(
                        |e: (String, V)| e.0@,
                    ));
                }
            },
            None => {
                entries.push((name, value));
                proof {
                    let s = entries@;
                    let n = old_s.len() as int;
                    assert(s =~= old_s.push(s[n]));
                    assert(names_unique(s)) by {
                        assert forall|a: int, b: int|
                            0 <= a < s.len() && 0 <= b < s.len() && a != b implies #[trigger] s[a].0@
                            != #[trigger] s[b].0@ by {
                            if a == n {
                                assert(old_s[b].0@ == s[b].0@);
                            } else if b == n {
                                assert(old_s[a].0@ == s[a].0@);
                            } else {
                                assert(old_s[a].0@ == s[a].0@);
                                assert(old_s[b].0@ == s[b].0@);
                            }
                        }
                    }
                    assert forall|x: Seq<char>| has_name(s, x) <==> (has_name(old_s, x) || x == k) by {
                        if has_name(s, x) {
                            let j = position_of(s, x);
                            if j < n {
                                assert(old_s[j].0@ == x);
                            }
                        }
                        if has_name(old_s, x) {
                            let j = position_of(old_s, x);
                            assert(s[j].0@ == x);
                        }
                        if x == k {
                            assert(s[n].0@ == x);
                        }
                    }
                    assert forall|x: Seq<char>| #[trigger]
                        entries_map(s).contains_key(x) && x != k implies entries_map(s)[x]
                        == entries_map(old_s)[x] by {
                        let j = position_of(s, x);
                        lemma_position_unique(s, j);
                        lemma_position_unique(old_s, j);
                    }
                    lemma_position_unique(s, n);
                    assert(entries_map(s) =~= entries_map(old_s).insert(k, value));
                    assert(s.map_values(|e: (String, V)| e.0@) =~= old_s.map_values(
                        |e: (String, V)| e.0@,
                    ).push(k));
                }
            },
        }
        self.entries = entries;
    }

    /// The names, in order of first insertion.
    pub fn names_vec(&self) -> (names: Vec<String>)
        ensures
            names@.map_values(|n: String| n@) == self.names(),
    {
        let mut names: Vec<String> = Vec::new();
        let mut i: usize = 0;
        while i < self.entries.len()
            invariant
                i <= self.entries@.len(),
                names@.len() == i,
                forall|j: int| 0 <= j < i ==> #[trigger] names@[j]@ == self.entries@[j].0@,
            decreases self.entries@.len() - i,
        {
            names.push(self.entries[i].0.clone());
            i = i + 1;
        }
        assert(names@.map_values(|n: String| n@) =~= self.names());
        names
    }
}

/// The whole configuration file of the server.
pub struct ConfigFile {
    /// The hosts that may ask for their secrets, by host name.
    pub hosts: NamedEntries<HostConfig>,
    /// The secrets placed on every host, by name.
    pub secrets: NamedEntries<Secret>,
}

} // verus!
