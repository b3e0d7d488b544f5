//! The registry: a mapping from client names to connection handles.

use vstd::prelude::*;

verus! {

/// A handle on a live connection. Copies of a handle denote the same socket.
#[derive(Clone, Copy, PartialEq, Eq, Debug, Hash, Structural)]
pub struct ConnId(pub u64);

struct Entry {
    name: String,
    stream: ConnId,
}

/// A registry of connections by client name. A name occurs at most once;
/// entries are kept in the order in which their names first came.
pub struct StreamMap {
    entries: Vec<Entry>,
}

spec fn names_of(entries: Seq<Entry>) -> Seq<Seq<char>> {
    Seq::new(entries.len(), |i: int| entries[i].name@)
}

impl View for StreamMap {
    type V = Map<Seq<char>, ConnId>;

    /// The registry as a map from names to handles.
    closed spec fn view(&self) -> Map<Seq<char>, ConnId> {
        Map::new(
            |name: Seq<char>| self.keys().contains(name),
            |name: Seq<char>| self.streams()[self.keys().index_of(name)],
        )
    }
}

impl StreamMap {
    /// No name is registered twice. It holds of every registry that exists
    /// at run time.
    #[verifier::type_invariant]
    pub closed spec fn wf(&self) -> bool {
        self.keys().no_duplicates()
    }

    /// The registered names, in the order in which a walk visits them.
    pub closed spec fn keys(&self) -> Seq<Seq<char>> {
        names_of(self.entries@)
    }

    /// The registered handles, each at the position of its name in `keys`.
    pub closed spec fn streams(&self) -> Seq<ConnId> {
        Seq::new(self.entries@.len(), |i: int| self.entries@[i].stream)
    }

    /// An empty registry.
    pub fn new() -> (map: StreamMap)
        ensures
            map@ == Map::<Seq<char>, ConnId>::empty(),
            map.keys() == Seq::<Seq<char>>::empty(),
            map.streams() == Seq::<ConnId>::empty(),
    {
        let map = StreamMap { entries: Vec::new() };
        assert(map@ =~= Map::<Seq<char>, ConnId>::empty());
        map
    }

    /// The number of registered names.
    pub fn len(&self) -> (n: usize)
        ensures
            n == self@.len(),
            n == self.keys().len(),
    {
        proof {
            use_type_invariant(self);
            self.lemma_dom();
        }
        self.entries.len()
    }

    /// A walk visits every registered name exactly once, and finds in
    /// `streams` the handle that the map gives for it.
    pub proof fn lemma_dom(&self)
        requires
            self.wf(),
        ensures
            self.keys().no_duplicates(),
            self.streams().len() == self.keys().len(),
            self@.dom() == self.keys().to_set(),
            self@.dom().finite(),
            self@.len() == self.keys().len(),
            forall|i: int|
                0 <= i < self.keys().len() ==> self@.contains_key(#[trigger] self.keys()[i])
                    && self@[self.keys()[i]] == self.streams()[i],
    {
        assert(self@.dom() =~= self.keys().to_set());
        self.keys().unique_seq_to_set();
        assert forall|i: int| 0 <= i < self.keys().len() implies self@.contains_key(
            #[trigger] self.keys()[i],
        ) && self@[self.keys()[i]] == self.streams()[i] by {
            self.keys().index_of_first_ensures(self.keys()[i]);
        }
    }

    /// An entry is whole to whoever reads the registry. After a name was
    /// registered, a lookup finds the handle that came with it, a walk meets
    /// the name once with that handle beside it, and every other name is
    /// found as before.
    pub proof fn lemma_entry_is_whole(
        before: StreamMap,
        after: StreamMap,
        name: Seq<char>,
        stream: ConnId,
    )
        requires
            after.wf(),
            after@ == before@.insert(name, stream),
        ensures
            after@.contains_key(name) && after@[name] == stream,
            exists|at: int|
                {
                    &&& 0 <= at < after.keys().len()
                    &&& #[trigger] after.keys()[at] == name
                    &&& after.streams()[at] == stream
                    &&& forall|other: int|
                        0 <= other < after.keys().len() && other != at
                            ==> #[trigger] after.keys()[other] != name
                },
            forall|other: Seq<char>|
                other != name ==> after@.contains_key(other) == before@.contains_key(other) && (
                before@.contains_key(other) ==> after@[other] == before@[other]),
    {
        after.lemma_dom();
        assert(after.keys().to_set().contains(name));
        let at = after.keys().index_of(name);
        assert(after.keys()[at] == name);
    }

    fn position(&self, name: &String) -> (at: Option<usize>)
        ensures
            match at {
                Some(i) => i < self.keys().len() && self.keys()[i as int] == name@,
                None => !self.keys().contains(name@),
            },
    {
        let mut i: usize = 0;
        while i < self.entries.len()
            invariant
                i <= self.entries@.len(),
                forall|j: int| 0 <= j < i ==> self.keys()[j] != name@,
            decreases self.entries@.len() - i,
        {
            if self.entries[i].name == *name {
                return Some(i);
            }
            i += 1;
        }
        None
    }

    /// Registers `stream` under `name`. A handle registered under that name
    /// before is replaced and returned: the last writer wins.
    pub fn insert(&mut self, name: String, stream: ConnId) -> (prev: Option<ConnId>)
        ensures
            final(self)@ == old(self)@.insert(name@, stream),
            prev == (if old(self)@.contains_key(name@) {
                Some(old(self)@[name@])
            } else {
                None
            }),
            final(self).keys() == (if old(self)@.contains_key(name@) {
                old(self).keys()
            } else {
                old(self).keys().push(name@)
            }),
            final(self).streams() == (if old(self)@.contains_key(name@) {
                old(self).streams().update(old(self).keys().index_of(name@), stream)
            } else {
                old(self).streams().push(stream)
            }),
    {
        proof {
            use_type_invariant(&*self);
        }
        match self.position(&name) {
            Some(i) => {
                proof {
                    self.keys().index_of_first_ensures(name@);
                }
                let prev = self.entries[i].stream;
                let mut entries: Vec<Entry> = Vec::new();
                core::mem::swap(&mut self.entries, &mut entries);
                entries.set(i, Entry { name, stream });
                assert(names_of(entries@) =~= old(self).keys());
                self.entries = entries;
                assert(self.keys() =~= old(self).keys());
                assert(self.streams() =~= old(self).streams().update(i as int, stream));
                assert(self@ =~= old(self)@.insert(name@, stream)) by {
                    assert forall|k: Seq<char>| self.keys().contains(k) implies self@[k] == old(
                        self,
                    )@.insert(name@, stream)[k] by {
                        self.keys().index_of_first_ensures(k);
                    }
                }
                Some(prev)
            },
            None => {
                let mut entries: Vec<Entry> = Vec::new();
                core::mem::swap(&mut self.entries, &mut entries);
                entries.push(Entry { name, stream });
                assert(names_of(entries@) =~= old(self).keys().push(name@));
                self.entries = entries;
                assert(self.keys() =~= old(self).keys().push(name@));
                assert(self.streams() =~= old(self).streams().push(stream));
                assert(self@ =~= old(self)@.insert(name@, stream)) by {
                    assert forall|k: Seq<char>| self.keys().contains(k) implies self@[k] == old(
                        self,
                    )@.insert(name@, stream)[k] by {
                        self.keys().index_of_first_ensures(k);
                        if k != name@ {
                            old(self).keys().index_of_first_ensures(k);
                        }
                    }
                    assert forall|k: Seq<char>|
                        old(self).keys().contains(k) implies self.keys().contains(k) by {
                        let j = old(self).keys().index_of(k);
                        assert(self.keys()[j] == k);
                    }
                    assert(self.keys().contains(name@)) by {
                        assert(self.keys()[self.keys().len() - 1] == name@);
                    }
                }
                None
            },
        }
    }

    /// The registered handles, in the order of a walk over the registry.
    pub fn values(&self) -> (streams: Vec<ConnId>)
        ensures
            streams@ == self.streams(),
    {
        proof {
            use_type_invariant(self);
        }
        let mut streams: Vec<ConnId> = Vec::new();
        let mut i: usize = 0;
        while i < self.entries.len()
            invariant
                i <= self.entries@.len(),
                streams@ == self.streams().subrange(0, i as int),
            decreases self.entries@.len() - i,
        {
            streams.push(self.entries[i].stream);
            assert(streams@ =~= self.streams().subrange(0, i + 1));
            i += 1;
        }
        assert(streams@ =~= self.streams());
        streams
    }

    /// Whether `name` is registered.
    pub fn contains_key(&self, name: &str) -> (found: bool)
        ensures
            found == self@.contains_key(name@),
    {
        let key = String::from_str(name);
        self.position(&key).is_some()
    }

    /// The handle registered under `name`, if there is one.
    pub fn get(&self, name: &str) -> (stream: Option<ConnId>)
        ensures
            stream == (if self@.contains_key(name@) {
                Some(self@[name@])
            } else {
                None
            }),
    {
        proof {
            use_type_invariant(self);
        }
        let key = String::from_str(name);
        match self.position(&key) {
            Some(i) => {
                proof {
                    self.keys().index_of_first_ensures(name@);
                }
                Some(self.entries[i].stream)
            },
            None => None,
        }
    }
}

} // verus!

