//! The session registry: the only state shared across sessions. It maps each
//! live session's identifier to the sending half of that session's inbound
//! channel, with exactly one entry per live session.

use vstd::prelude::*;

verus! {

/// Whether an association list holds each key at most once.
pub open spec fn unique_keys<S>(s: Seq<(u128, S)>) -> bool {
    forall|i: int, j: int| 0 <= i < j < s.len() ==> (#[trigger] s[i]).0 != (#[trigger] s[j]).0
}

/// The map described by an association list.
pub open spec fn map_of<S>(s: Seq<(u128, S)>) -> Map<u128, S>
    decreases s.len(),
{
    if s.len() == 0 {
        Map::empty()
    } else {
        map_of(s.drop_last()).insert(s.last().0, s.last().1)
    }
}

proof fn lemma_map_of_not_key<S>(s: Seq<(u128, S)>, k: u128)
    requires
        forall|i: int| 0 <= i < s.len() ==> (#[trigger] s[i]).0 != k,
    ensures
        !map_of(s).contains_key(k),
    decreases s.len(),
{
    if s.len() > 0 {
        assert(s[s.len() - 1].0 != k);
        lemma_map_of_not_key(s.drop_last(), k);
    }
}

proof fn lemma_map_of_key_at<S>(s: Seq<(u128, S)>, i: int)
    requires
        unique_keys(s),
        0 <= i < s.len(),
    ensures
        map_of(s).contains_key(s[i].0),
        map_of(s)[s[i].0] == s[i].1,
    decreases s.len(),
{
    if i == s.len() - 1 {
    } else {
        assert(unique_keys(s.drop_last()));
        lemma_map_of_key_at(s.drop_last(), i);
        assert(s[s.len() - 1].0 != s[i].0);
    }
}

proof fn lemma_map_of_finite<S>(s: Seq<(u128, S)>)
    ensures
        map_of(s).dom().finite(),
    decreases s.len(),
{
    if s.len() > 0 {
        lemma_map_of_finite(s.drop_last());
    }
}

proof fn lemma_map_of_len<S>(s: Seq<(u128, S)>)
    requires
        unique_keys(s),
    ensures
        map_of(s).dom().finite(),
        map_of(s).dom().len() == s.len(),
    decreases s.len(),
{
    lemma_map_of_finite(s);
    if s.len() > 0 {
        let s1 = s.drop_last();
        assert(unique_keys(s1));
        lemma_map_of_len(s1);
        lemma_map_of_not_key(s1, s.last().0);
    }
}

proof fn lemma_map_of_remove<S>(s: Seq<(u128, S)>, i: int)
    requires
        unique_keys(s),
        0 <= i < s.len(),
    ensures
        unique_keys(s.remove(i)),
        map_of(s.remove(i)) == map_of(s).remove(s[i].0),
    decreases s.len(),
{
    let k = s[i].0;
    let s1 = s.drop_last();
    assert(unique_keys(s1));
    assert forall|a: int, b: int| 0 <= a < b < s.remove(i).len() implies (#[trigger] s.remove(
        i,
    )[a]).0 != (#[trigger] s.remove(i)[b]).0 by {
        let a0 = if a < i {
            a
        } else {
            a + 1
        };
        let b0 = if b < i {
            b
        } else {
            b + 1
        };
        assert(s.remove(i)[a] == s[a0] && s.remove(i)[b] == s[b0]);
    }
    if i == s.len() - 1 {
        assert(s.remove(i) =~= s1);
        lemma_map_of_not_key(s1, k);
        assert(map_of(s1).insert(k, s[i].1).remove(k) =~= map_of(s1));
    } else {
        let kl = s.last().0;
        let vl = s.last().1;
        assert(s1[i].0 == k);
        lemma_map_of_remove(s1, i);
        assert(s.remove(i).drop_last() =~= s1.remove(i));
        assert(s.remove(i).last() == s.last());
        assert(map_of(s.remove(i)) == map_of(s1.remove(i)).insert(kl, vl));
        assert(kl != k);
        assert(map_of(s1).insert(kl, vl).remove(k) =~= map_of(s1).remove(k).insert(kl, vl));
    }
}

/// The registry of live sessions. Identifier collisions are refused rather
/// than overwritten, so each key names at most one inbound channel.
pub struct Registry<S> {
    entries: Vec<(u128, S)>,
}

impl<S> View for Registry<S> {
    type V = Map<u128, S>;

    closed spec fn view(&self) -> Map<u128, S> {
        map_of(self.entries@)
    }
}

impl<S> Registry<S> {
    /// The registry's invariant: no identifier is registered twice.
    pub closed spec fn wf(&self) -> bool {
        unique_keys(self.entries@)
    }

    /// An empty registry, as the service starts with.
    pub fn new() -> (r: Self)
        ensures
            r.wf(),
            r@ == Map::<u128, S>::empty(),
    {
        Registry { entries: Vec::new() }
    }

    /// How many sessions are live.
    pub fn len(&self) -> (n: usize)
        requires
            self.wf(),
        ensures
            n == self@.dom().len(),
    {
        proof {
            lemma_map_of_len(self.entries@);
        }
        self.entries.len()
    }

    /// Inserts a new session. Returns true and records the entry when the
    /// identifier is fresh; refuses the insertion and leaves the registry
    /// unchanged when the identifier is already registered.
    pub fn register(&mut self, id: u128, sender: S) -> (fresh: bool)
        requires
            old(self).wf(),
        ensures
            final(self).wf(),
            fresh == !old(self)@.contains_key(id),
            fresh ==> final(self)@ == old(self)@.insert(id, sender),
            !fresh ==> *final(self) == *old(self),
    {
        let n = self.entries.len();
        let mut i: usize = 0;
        while i < n
            invariant
                *self == *old(self),
                n == self.entries.len(),
                i <= n,
                forall|j: int| 0 <= j < i ==> (#[trigger] self.entries@[j]).0 != id,
                unique_keys(self.entries@),
            decreases n - i,
        {
            if self.entries[i].0 == id {
                proof {
                    lemma_map_of_key_at(self.entries@, i as int);
                }
                return false;
            }
            i += 1;
        }
        proof {
            lemma_map_of_not_key(self.entries@, id);
        }
        let ghost before = self.entries@;
        self.entries.push((id, sender));
        proof {
            assert(self.entries@.drop_last() =~= before);
            assert(forall|j: int|
                0 <= j < before.len() ==> (#[trigger] self.entries@[j]) == before[j]);
        }
        true
    }

    /// Looks a session up. Returns a handle on the session's inbound sender
    /// when the identifier is registered, and nothing otherwise.
    pub fn lookup(&self, id: u128) -> (r: Option<&S>)
        requires
            self.wf(),
        ensures
            r matches Some(sender) ==> self@.contains_key(id) && self@[id] == *sender,
            r is None ==> !self@.contains_key(id),
    {
        let n = self.entries.len();
        let mut i: usize = 0;
        while i < n
            invariant
                n == self.entries.len(),
                i <= n,
                forall|j: int| 0 <= j < i ==> (#[trigger] self.entries@[j]).0 != id,
                unique_keys(self.entries@),
            decreases n - i,
        {
            if self.entries[i].0 == id {
                proof {
                    lemma_map_of_key_at(self.entries@, i as int);
                }
                return Some(&self.entries[i].1);
            }
            i += 1;
        }
        proof {
            lemma_map_of_not_key(self.entries@, id);
        }
        None
    }

    /// Removes a session. Removing an identifier that is not registered is
    /// a no-op, so cleanup may run from either side of the termination race.
    pub fn remove(&mut self, id: u128)
        requires
            old(self).wf(),
        ensures
            final(self).wf(),
            final(self)@ == old(self)@.remove(id),
    {
        let n = self.entries.len();
        let mut i: usize = 0;
        while i < n
            invariant
                *self == *old(self),
                n == self.entries.len(),
                i <= n,
                forall|j: int| 0 <= j < i ==> (#[trigger] self.entries@[j]).0 != id,
                unique_keys(self.entries@),
            decreases n - i,
        {
            if self.entries[i].0 == id {
                proof {
                    lemma_map_of_remove(self.entries@, i as int);
                }
                self.entries.remove(i);
                return ;
            }
            i += 1;
        }
        proof {
            lemma_map_of_not_key(self.entries@, id);
            assert(map_of(self.entries@).remove(id) =~= map_of(self.entries@));
        }
    }
}

} // verus!
