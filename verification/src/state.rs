//! The shared state store.
//!
//! A single mutable value, a map from field identifiers to values, mutated
//! only on the owning thread: background tasks never touch it directly, they
//! produce [`StateCommand`]s that the frame driver applies between frames,
//! in arrival order. The store is an association list with unique keys,
//! viewed as a `Map`.

use vstd::prelude::*;

verus! {

/// One mutation of the shared state store, applied on the owning thread.
#[derive(Clone, Copy, PartialEq, Eq, Debug)]
pub enum StateCommand {
    /// Set the field to the value.
    Put(u64, u64),
    /// Remove the field.
    Remove(u64),
}

/// What one command does to the store.
pub open spec fn apply_command(cmd: StateCommand, m: Map<u64, u64>) -> Map<u64, u64> {
    match cmd {
        StateCommand::Put(key, value) => m.insert(key, value),
        StateCommand::Remove(key) => m.remove(key),
    }
}

/// What a sequence of commands does to the store, first command first.
pub open spec fn apply_commands(cmds: Seq<StateCommand>, m: Map<u64, u64>) -> Map<u64, u64>
    decreases cmds.len(),
{
    if cmds.len() == 0 {
        m
    } else {
        apply_command(cmds.last(), apply_commands(cmds.drop_last(), m))
    }
}

/// The map an association list stands for; a later entry would win, but the
/// store keeps keys unique.
pub open spec fn map_of(s: Seq<(u64, u64)>) -> Map<u64, u64>
    decreases s.len(),
{
    if s.len() == 0 {
        Map::empty()
    } else {
        map_of(s.drop_last()).insert(s.last().0, s.last().1)
    }
}

/// No key occurs twice.
pub open spec fn unique_keys(s: Seq<(u64, u64)>) -> bool {
    forall|i: int, j: int| #![trigger s[i], s[j]] 0 <= i < j < s.len() ==> s[i].0 != s[j].0
}

proof fn lemma_map_of_absent(s: Seq<(u64, u64)>, key: u64)
    requires
        forall|i: int| 0 <= i < s.len() ==> (#[trigger] s[i]).0 != key,
    ensures
        !map_of(s).dom().contains(key),
    decreases s.len(),
{
    if s.len() > 0 {
        assert(forall|i: int| 0 <= i < s.drop_last().len() ==> (#[trigger] s.drop_last()[i]).0
            != key);
        lemma_map_of_absent(s.drop_last(), key);
        assert(s.last() == s[s.len() - 1]);
    }
}

proof fn lemma_map_of_found(s: Seq<(u64, u64)>, i: int)
    requires
        unique_keys(s),
        0 <= i < s.len(),
    ensures
        map_of(s).dom().contains(s[i].0),
        map_of(s)[s[i].0] == s[i].1,
    decreases s.len(),
{
    assert(s.last() == s[s.len() - 1]);
    if i == s.len() - 1 {
    } else {
        assert(unique_keys(s.drop_last()));
        assert(s.drop_last()[i] == s[i]);
        lemma_map_of_found(s.drop_last(), i);
        assert(s[i].0 != s[s.len() - 1].0);
    }
}

proof fn lemma_map_of_remove(s: Seq<(u64, u64)>, i: int)
    requires
        unique_keys(s),
        0 <= i < s.len(),
    ensures
        map_of(s.remove(i)) == map_of(s).remove(s[i].0),
    decreases s.len(),
{
    let key = s[i].0;
    assert(s.last() == s[s.len() - 1]);
    if i == s.len() - 1 {
        assert(s.remove(i) =~= s.drop_last());
        assert(forall|j: int| 0 <= j < s.drop_last().len() ==> (#[trigger] s.drop_last()[j]).0
            != key);
        lemma_map_of_absent(s.drop_last(), key);
        assert(map_of(s.drop_last()).insert(key, s[i].1).remove(key) =~= map_of(s.drop_last()));
    } else {
        assert(unique_keys(s.drop_last()));
        assert(s.drop_last()[i] == s[i]);
        lemma_map_of_remove(s.drop_last(), i);
        assert(s.remove(i).drop_last() =~= s.drop_last().remove(i));
        assert(s.remove(i).last() == s.last());
        let last = s.last();
        assert(key != last.0);
        assert(map_of(s.drop_last()).remove(key).insert(last.0, last.1) =~= map_of(
            s.drop_last(),
        ).insert(last.0, last.1).remove(key));
    }
}

/// The shared state store: a set of named fields reachable only through the
/// accessors below and through commands applied by the frame driver.
pub struct State {
    entries: Vec<(u64, u64)>,
}

impl View for State {
    type V = Map<u64, u64>;

    closed spec fn view(&self) -> Map<u64, u64> {
        map_of(self.entries@)
    }
}

impl Default for State {
    /// An empty store.
    fn default() -> (s: State)
        ensures
            s@ == Map::<u64, u64>::empty(),
    {
        State { entries: Vec::new() }
    }
}

impl State {
    #[verifier::type_invariant]
    closed spec fn wf(self) -> bool {
        unique_keys(self.entries@)
    }

    pub fn new() -> (s: State)
        ensures
            s@ == Map::<u64, u64>::empty(),
    {
        State { entries: Vec::new() }
    }

    /// Look one field up.
    pub fn get(&self, key: u64) -> (r: Option<u64>)
        ensures
            r == if self@.dom().contains(key) {
                Some(self@[key])
            } else {
                None::<u64>
            },
    {
        proof {
            use_type_invariant(&*self);
        }
        let n = self.entries.len();
        let mut i: usize = 0;
        while i < n
            invariant
                n == self.entries@.len(),
                0 <= i <= n,
                unique_keys(self.entries@),
                forall|j: int| 0 <= j < i ==> (#[trigger] self.entries@[j]).0 != key,
            decreases n - i,
        {
            let entry = self.entries[i];
            if entry.0 == key {
                proof {
                    lemma_map_of_found(self.entries@, i as int);
                }
                return Some(entry.1);
            }
            i += 1;
        }
        proof {
            lemma_map_of_absent(self.entries@, key);
        }
        None
    }

    /// Find the index holding `key`, if any.
    fn find(entries: &Vec<(u64, u64)>, key: u64) -> (r: Option<usize>)
        ensures
            match r {
                Some(i) => 0 <= i < entries@.len() && entries@[i as int].0 == key,
                None => forall|j: int|
                    0 <= j < entries@.len() ==> (#[trigger] entries@[j]).0 != key,
            },
    {
        let n = entries.len();
        let mut i: usize = 0;
        while i < n
            invariant
                n == entries@.len(),
                0 <= i <= n,
                forall|j: int| 0 <= j < i ==> (#[trigger] entries@[j]).0 != key,
            decreases n - i,
        {
            if entries[i].0 == key {
                return Some(i);
            }
            i += 1;
        }
        None
    }

    /// Set one field, adding it if absent.
    pub fn set(&mut self, key: u64, value: u64)
        ensures
            final(self)@ == old(self)@.insert(key, value),
    {
        proof {
            use_type_invariant(&*self);
        }
        let ghost m0 = self@;
        let mut entries: Vec<(u64, u64)> = Vec::new();
        std::mem::swap(&mut entries, &mut self.entries);
        match Self::find(&entries, key) {
            Some(i) => {
                proof {
                    lemma_map_of_remove(entries@, i as int);
                }
                let ghost before = entries@;
                entries.remove(i);
                proof {
                    assert(forall|j: int| 0 <= j < entries@.len() ==> (#[trigger] entries@[j]).0
                        != key) by {
                        assert(forall|j: int| 0 <= j < entries@.len() ==> entries@[j] == if j
                            < i { before[j] } else { before[j + 1] });
                    }
                    assert(unique_keys(entries@));
                }
                entries.push((key, value));
                proof {
                    assert(entries@.drop_last() =~= before.remove(i as int));
                    assert(unique_keys(entries@));
                    assert(map_of(entries@) =~= m0.insert(key, value));
                }
            },
            None => {
                entries.push((key, value));
                proof {
                    assert(entries@.drop_last() =~= old(self).entries@);
                    assert(unique_keys(entries@));
                }
            },
        }
        self.entries = entries;
    }

    /// Remove one field; removing an absent field is a no-op.
    pub fn remove(&mut self, key: u64)
        ensures
            final(self)@ == old(self)@.remove(key),
    {
        proof {
            use_type_invariant(&*self);
        }
        let ghost m0 = self@;
        let mut entries: Vec<(u64, u64)> = Vec::new();
        std::mem::swap(&mut entries, &mut self.entries);
        match Self::find(&entries, key) {
            Some(i) => {
                proof {
                    lemma_map_of_remove(entries@, i as int);
                }
                let ghost before = entries@;
                entries.remove(i);
                proof {
                    assert(unique_keys(entries@)) by {
                        assert(forall|j: int| 0 <= j < entries@.len() ==> entries@[j] == if j
                            < i { before[j] } else { before[j + 1] });
                    }
                }
            },
            None => {
                proof {
                    lemma_map_of_absent(entries@, key);
                    assert(map_of(entries@) =~= m0.remove(key));
                }
            },
        }
        self.entries = entries;
    }

    /// Apply one command.
    pub fn apply(&mut self, cmd: StateCommand)
        ensures
            final(self)@ == apply_command(cmd, old(self)@),
    {
        match cmd {
            StateCommand::Put(key, value) => self.set(key, value),
            StateCommand::Remove(key) => self.remove(key),
        }
    }

    /// Apply a batch of commands, first command first.
    pub fn apply_all(&mut self, cmds: &Vec<StateCommand>)
        ensures
            final(self)@ == apply_commands(cmds@, old(self)@),
    {
        let ghost m0 = self@;
        let n = cmds.len();
        let mut i: usize = 0;
        while i < n
            invariant
                n == cmds@.len(),
                0 <= i <= n,
                self@ == apply_commands(cmds@.subrange(0, i as int), m0),
            decreases n - i,
        {
            self.apply(cmds[i]);
            proof {
                assert(cmds@.subrange(0, i + 1).drop_last() =~= cmds@.subrange(0, i as int));
                assert(cmds@.subrange(0, i + 1).last() == cmds@[i as int]);
            }
            i += 1;
        }
        proof {
            assert(cmds@.subrange(0, n as int) =~= cmds@);
        }
    }
}

} // verus!
