use vstd::prelude::*;

verus! {

/// Index of the first registered name equal to `name`, if any.
pub open spec fn key_index(names: Seq<String>, name: Seq<char>) -> Option<int>
    decreases names.len(),
{
    if names.len() == 0 {
        None
    } else if names.first()@ == name {
        Some(0)
    } else {
        match key_index(names.drop_first(), name) {
            Some(i) => Some(i + 1),
            None => None,
        }
    }
}

/// A name equal to `name`, preceded only by different names, is where
/// `name` is registered.
proof fn lemma_key_index_at(names: Seq<String>, name: Seq<char>, k: int)
    requires
        0 <= k < names.len(),
        names[k]@ == name,
        forall|j: int| 0 <= j < k ==> (#[trigger] names[j])@ != name,
    ensures
        key_index(names, name) == Some(k),
    decreases k,
{
    if k > 0 {
        assert(forall|j: int| 0 <= j < k - 1 ==> names.drop_first()[j] == names[j + 1]
            && (#[trigger] names.drop_first()[j])@ != name);
        lemma_key_index_at(names.drop_first(), name, k - 1);
    }
}

/// When no registered name equals `name`, `name` has no index.
proof fn lemma_key_index_none(names: Seq<String>, name: Seq<char>)
    requires
        forall|j: int| 0 <= j < names.len() ==> (#[trigger] names[j])@ != name,
    ensures
        key_index(names, name) is None,
    decreases names.len(),
{
    if names.len() > 0 {
        assert(forall|j: int| 0 <= j < names.drop_first().len() ==> names.drop_first()[j]
            == names[j + 1] && (#[trigger] names.drop_first()[j])@ != name);
        lemma_key_index_none(names.drop_first(), name);
    }
}

/// Conversely, a name with no index is registered nowhere.
proof fn lemma_key_index_none_means_absent(names: Seq<String>, name: Seq<char>)
    requires
        key_index(names, name) is None,
    ensures
        forall|j: int| 0 <= j < names.len() ==> (#[trigger] names[j])@ != name,
    decreases names.len(),
{
    if names.len() > 0 {
        lemma_key_index_none_means_absent(names.drop_first(), name);
        assert forall|j: int| 0 <= j < names.len() implies (#[trigger] names[j])@ != name by {
            if j > 0 {
                assert(names.drop_first()[j - 1] == names[j]);
            }
        }
    }
}

/// Conversely, an index for `name` points at an entry spelling `name`,
/// preceded only by different names.
proof fn lemma_key_index_some(names: Seq<String>, name: Seq<char>)
    requires
        key_index(names, name) is Some,
    ensures
        ({
            let k = key_index(names, name)->0;
            &&& 0 <= k < names.len()
            &&& names[k]@ == name
            &&& forall|j: int| 0 <= j < k ==> (#[trigger] names[j])@ != name
        }),
    decreases names.len(),
{
    if names.len() > 0 && names.first()@ != name {
        lemma_key_index_some(names.drop_first(), name);
        let k = key_index(names, name)->0;
        assert(forall|j: int| 1 <= j < k ==> names.drop_first()[j - 1] == names[j]
            && (#[trigger] names[j])@ != name);
    }
}

/// Appending a fresh name leaves every existing index alone and gives the
/// appended name the next index.
proof fn lemma_key_index_push(names: Seq<String>, pushed: String, name: Seq<char>)
    ensures
        key_index(names.push(pushed), name) == match key_index(names, name) {
            Some(i) => Some(i),
            None => if pushed@ == name {
                Some(names.len() as int)
            } else {
                None
            },
        },
    decreases names.len(),
{
    if names.len() == 0 {
        assert(names.push(pushed).len() == 1);
        assert(names.push(pushed).first() == pushed);
    } else {
        assert(names.push(pushed).first() == names.first());
        assert(names.push(pushed).drop_first() =~= names.drop_first().push(pushed));
        lemma_key_index_push(names.drop_first(), pushed, name);
    }
}

/// Named registry of the live scene entities created under each scope, so
/// that a whole scope can be torn down in one sweep when the application
/// leaves the mode that created it.
pub struct Snapshots {
    names: Vec<String>,
    lists: Vec<Vec<u64>>,
}

/// What [`Snapshots::clear`] does: the cleared scope keeps its registration
/// but loses its entities, which are handed back for despawning; an unknown
/// scope, or one already empty, yields nothing. Every other scope is
/// untouched.
pub open spec fn clear_post(pre: Snapshots, post: Snapshots, removed: Seq<u64>, name: Seq<char>) -> bool {
    &&& match pre.spec_get(name) {
        Some(listed) => removed == listed && post.spec_get(name) == Some(Seq::<u64>::empty()),
        None => removed == Seq::<u64>::empty() && post.spec_get(name) is None,
    }
    &&& forall|n: Seq<char>| n != name ==> post.spec_get(n) == pre.spec_get(n)
}

impl Snapshots {
    /// One entity list per registered name, and names never repeat.
    pub closed spec fn wf(&self) -> bool {
        &&& self.names@.len() == self.lists@.len()
        &&& forall|i: int, j: int| 0 <= i < j < self.names@.len()
            ==> (#[trigger] self.names@[i])@ != (#[trigger] self.names@[j])@
    }

    /// The entity list registered under `name`, if that scope is known.
    pub closed spec fn spec_get(&self, name: Seq<char>) -> Option<Seq<u64>> {
        match key_index(self.names@, name) {
            Some(i) => Some(self.lists@[i]@),
            None => None,
        }
    }

    /// An empty registry: no scope is known.
    pub fn new() -> (s: Snapshots)
        ensures
            s.wf(),
            forall|n: Seq<char>| s.spec_get(n) is None,
    {
        let s = Snapshots { names: Vec::new(), lists: Vec::new() };
        proof {
            assert forall|n: Seq<char>| s.spec_get(n) is None by {
                lemma_key_index_none(s.names@, n);
            }
        }
        s
    }

    /// Where `name` sits in the registry, if anywhere.
    fn find(&self, name: &String) -> (r: Option<usize>)
        requires
            self.wf(),
        ensures
            match r {
                Some(i) => key_index(self.names@, name@) == Some(i as int),
                None => key_index(self.names@, name@) is None,
            },
    {
        let mut i: usize = 0;
        while i < self.names.len()
            invariant
                i <= self.names@.len(),
                forall|j: int| 0 <= j < i ==> (#[trigger] self.names@[j])@ != name@,
            decreases self.names@.len() - i,
        {
            if self.names[i] == *name {
                proof {
                    lemma_key_index_at(self.names@, name@, i as int);
                }
                return Some(i);
            }
            i += 1;
        }
        proof {
            lemma_key_index_none(self.names@, name@);
        }
        None
    }

    /// Registers scope `name` with exactly the given entities, replacing any
    /// list it had before. Used to reset a scope to empty at enter time or to
    /// seed it; callers append incrementally afterward.
    pub fn snap(&mut self, name: &String, entities: Vec<u64>)
        requires
            old(self).wf(),
        ensures
            final(self).wf(),
            final(self).spec_get(name@) == Some(entities@),
            forall|n: Seq<char>| n != name@ ==> final(self).spec_get(n) == old(self).spec_get(n),
    {
        let found = self.find(name);
        match found {
            Some(i) => {
                proof {
                    lemma_key_index_some(self.names@, name@);
                }
                self.lists[i] = entities;
                proof {
                    assert forall|n: Seq<char>| n != name@ implies self.spec_get(n) == old(
                        self,
                    ).spec_get(n) by {
                        if key_index(self.names@, n) is Some {
                            lemma_key_index_some(self.names@, n);
                        }
                    }
                }
            },
            None => {
                proof {
                    lemma_key_index_none_means_absent(self.names@, name@);
                }
                self.names.push(name.clone());
                self.lists.push(entities);
                proof {
                    assert forall|n: Seq<char>| #![all_triggers] true implies key_index(
                        self.names@,
                        n,
                    ) == match key_index(old(self).names@, n) {
                        Some(i) => Some(i),
                        None => if name@ == n {
                            Some(old(self).names@.len() as int)
                        } else {
                            None
                        },
                    } by {
                        lemma_key_index_push(old(self).names@, self.names@.last(), n);
                        assert(self.names@ =~= old(self).names@.push(self.names@.last()));
                    }
                    assert forall|n: Seq<char>| n != name@ implies self.spec_get(n) == old(
                        self,
                    ).spec_get(n) by {
                        if key_index(old(self).names@, n) is Some {
                            lemma_key_index_some(old(self).names@, n);
                        }
                    }
                }
            },
        }
    }

    /// The entities currently registered under `name`, if that scope is
    /// known.
    pub fn get_snap(&self, name: &String) -> (r: Option<&Vec<u64>>)
        requires
            self.wf(),
        ensures
            match r {
                Some(v) => self.spec_get(name@) == Some(v@),
                None => self.spec_get(name@) is None,
            },
    {
        let found = self.find(name);
        match found {
            Some(i) => {
                proof {
                    lemma_key_index_some(self.names@, name@);
                }
                Some(&self.lists[i])
            },
            None => None,
        }
    }

    /// Appends one freshly spawned entity to scope `name`; reports whether
    /// the scope was known (nothing is recorded otherwise).
    pub fn push_entity(&mut self, name: &String, entity: u64) -> (known: bool)
        requires
            old(self).wf(),
        ensures
            final(self).wf(),
            match old(self).spec_get(name@) {
                Some(listed) => known && final(self).spec_get(name@) == Some(listed.push(entity)),
                None => !known && *final(self) == *old(self),
            },
            forall|n: Seq<char>| n != name@ ==> final(self).spec_get(n) == old(self).spec_get(n),
    {
        let found = self.find(name);
        match found {
            Some(i) => {
                proof {
                    lemma_key_index_some(self.names@, name@);
                }
                self.lists[i].push(entity);
                proof {
                    assert forall|n: Seq<char>| n != name@ implies self.spec_get(n) == old(
                        self,
                    ).spec_get(n) by {
                        if key_index(self.names@, n) is Some {
                            lemma_key_index_some(self.names@, n);
                        }
                    }
                }
                true
            },
            None => false,
        }
    }

    /// Empties scope `name` and hands back the entities it listed, for the
    /// caller to despawn. Clearing an unknown or already empty scope is a
    /// no-op that destroys nothing.
    pub fn clear(&mut self, name: &String) -> (removed: Vec<u64>)
        requires
            old(self).wf(),
        ensures
            final(self).wf(),
            clear_post(*old(self), *final(self), removed@, name@),
    {
        let found = self.find(name);
        match found {
            Some(i) => {
                proof {
                    lemma_key_index_some(self.names@, name@);
                }
                let mut taken: Vec<u64> = Vec::new();
                core::mem::swap(&mut self.lists[i], &mut taken);
                proof {
                    assert forall|n: Seq<char>| n != name@ implies self.spec_get(n) == old(
                        self,
                    ).spec_get(n) by {
                        if key_index(self.names@, n) is Some {
                            lemma_key_index_some(self.names@, n);
                        }
                    }
                }
                taken
            },
            None => Vec::new(),
        }
    }
}

/// Clearing a scope twice destroys nothing the second time: the second
/// clear returns no entities and leaves every scope exactly as the first
/// clear left it.
pub proof fn lemma_clear_twice(
    s0: Snapshots,
    s1: Snapshots,
    s2: Snapshots,
    r1: Seq<u64>,
    r2: Seq<u64>,
    name: Seq<char>,
)
    requires
        clear_post(s0, s1, r1, name),
        clear_post(s1, s2, r2, name),
    ensures
        r2.len() == 0,
        forall|n: Seq<char>| s2.spec_get(n) == s1.spec_get(n),
{
}

} // verus!
