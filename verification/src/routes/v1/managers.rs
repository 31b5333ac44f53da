//! The managers of the applications and of the networks, by key, as the control messages
//! add and remove them.

use vstd::prelude::*;
use vstd::string::*;

use crate::routes::v1::lib::{gen_mgr_key, mgr_key};

verus! {

/// The keys of a list of keyed entries, in order.
pub open spec fn keys_of<M>(s: Seq<(String, M)>) -> Seq<Seq<char>> {
    s.map_values(|e: (String, M)| e.0@)
}

/// Whether an entry of the list has the key `k`.
pub open spec fn has_key<M>(s: Seq<(String, M)>, k: Seq<char>) -> bool {
    exists|i: int| 0 <= i < s.len() && (#[trigger] s[i]).0@ == k
}

/// The place of an entry of the list with the key `k`.
pub open spec fn key_index<M>(s: Seq<(String, M)>, k: Seq<char>) -> int {
    choose|i: int| 0 <= i < s.len() && (#[trigger] s[i]).0@ == k
}

/// The value of an entry of the list with the key `k`.
pub open spec fn value_of<M>(s: Seq<(String, M)>, k: Seq<char>) -> M {
    s[key_index(s, k)].1
}

/// The map that a list of keyed entries with distinct keys stands for.
pub open spec fn map_of<M>(s: Seq<(String, M)>) -> Map<Seq<char>, M> {
    Map::new(|k: Seq<char>| has_key(s, k), |k: Seq<char>| value_of(s, k))
}

proof fn lemma_at<M>(s: Seq<(String, M)>, n: int)
    requires
        keys_of(s).no_duplicates(),
        0 <= n < s.len(),
    ensures
        map_of(s).contains_key(s[n].0@),
        map_of(s)[s[n].0@] == s[n].1,
{
    let k = s[n].0@;
    assert(has_key(s, k));
    let j = key_index(s, k);
    assert(0 <= j < s.len() && s[j].0@ == k);
    assert(keys_of(s)[n] == s[n].0@);
    assert(keys_of(s)[j] == s[j].0@);
    assert(j == n);
    assert(value_of(s, k) == s[n].1);
}

proof fn lemma_push_new<M>(s: Seq<(String, M)>, key: String, m: M)
    requires
        keys_of(s).no_duplicates(),
        !map_of(s).contains_key(key@),
    ensures
        keys_of(s.push((key, m))).no_duplicates(),
        map_of(s.push((key, m))) == map_of(s).insert(key@, m),
{
    let t = s.push((key, m));
    assert(keys_of(t) =~= keys_of(s).push(key@));
    assert forall|i: int| 0 <= i < s.len() implies keys_of(s)[i] != key@ by {
        if keys_of(s)[i] == key@ {
            assert(s[i].0@ == key@);
        }
    }
    assert(keys_of(t).no_duplicates()) by {
        assert forall|i: int, j: int|
            0 <= i < keys_of(t).len() && 0 <= j < keys_of(t).len() && i != j implies keys_of(t)[i]
            != keys_of(t)[j] by {
            if i < s.len() && j < s.len() {
                assert(keys_of(t)[i] == keys_of(s)[i]);
                assert(keys_of(t)[j] == keys_of(s)[j]);
            }
        }
    }
    assert(map_of(t) =~= map_of(s).insert(key@, m)) by {
        assert forall|k: Seq<char>| map_of(t).contains_key(k) <==> map_of(s).insert(key@, m).contains_key(k) by {
            if map_of(t).contains_key(k) {
                let i = choose|i: int| 0 <= i < t.len() && (#[trigger] t[i]).0@ == k;
                if i < s.len() {
                    assert(s[i] == t[i]);
                }
            }
            if map_of(s).contains_key(k) {
                let i = choose|i: int| 0 <= i < s.len() && (#[trigger] s[i]).0@ == k;
                assert(t[i] == s[i]);
            }
            if k == key@ {
                assert(t[s.len() as int].0@ == k);
            }
        }
        assert forall|k: Seq<char>| #[trigger] map_of(t).contains_key(k) implies map_of(t)[k] == map_of(s).insert(
            key@,
            m,
        )[k] by {
            let i = choose|i: int| 0 <= i < t.len() && (#[trigger] t[i]).0@ == k;
            lemma_at(t, i);
            if i < s.len() {
                assert(s[i] == t[i]);
                lemma_at(s, i);
            }
        }
    }
}

proof fn lemma_remove_at<M>(s: Seq<(String, M)>, i: int)
    requires
        keys_of(s).no_duplicates(),
        0 <= i < s.len(),
    ensures
        keys_of(s.remove(i)).no_duplicates(),
        map_of(s.remove(i)) == map_of(s).remove(s[i].0@),
{
    let t = s.remove(i);
    let key = s[i].0@;
    assert(keys_of(t) =~= keys_of(s).remove(i));
    assert(keys_of(t).no_duplicates()) by {
        assert forall|a: int, b: int|
            0 <= a < keys_of(t).len() && 0 <= b < keys_of(t).len() && a != b implies keys_of(t)[a]
            != keys_of(t)[b] by {
            let a2 = if a < i { a } else { a + 1 };
            let b2 = if b < i { b } else { b + 1 };
            assert(keys_of(t)[a] == keys_of(s)[a2]);
            assert(keys_of(t)[b] == keys_of(s)[b2]);
        }
    }
    assert(map_of(t) =~= map_of(s).remove(key)) by {
        assert forall|k: Seq<char>| map_of(t).contains_key(k) <==> map_of(s).remove(key).contains_key(k) by {
            if map_of(t).contains_key(k) {
                let a = choose|a: int| 0 <= a < t.len() && (#[trigger] t[a]).0@ == k;
                let a2 = if a < i { a } else { a + 1 };
                assert(t[a] == s[a2]);
                assert(keys_of(s)[a2] == k);
                assert(keys_of(s)[i] == key);
                assert(map_of(s).contains_key(k));
            }
            if map_of(s).contains_key(k) && k != key {
                let a = choose|a: int| 0 <= a < s.len() && (#[trigger] s[a]).0@ == k;
                assert(a != i);
                let a2 = if a < i { a } else { a - 1 };
                assert(t[a2] == s[a]);
            }
        }
        assert forall|k: Seq<char>| #[trigger] map_of(t).contains_key(k) implies map_of(t)[k] == map_of(s).remove(
            key,
        )[k] by {
            let a = choose|a: int| 0 <= a < t.len() && (#[trigger] t[a]).0@ == k;
            lemma_at(t, a);
            let a2 = if a < i { a } else { a + 1 };
            assert(t[a] == s[a2]);
            lemma_at(s, a2);
        }
    }
}

/// The running managers (of type `M`) by key: each key at most once.
#[derive(Debug)]
pub struct MgrMap<M> {
    entries: Vec<(String, M)>,
}

impl<M> MgrMap<M> {
    /// The managers by key.
    pub closed spec fn view(&self) -> Map<Seq<char>, M> {
        map_of(self.entries@)
    }

    #[verifier::type_invariant]
    closed spec fn inv(&self) -> bool {
        keys_of(self.entries@).no_duplicates()
    }

    /// No manager.
    pub fn new() -> (r: MgrMap<M>)
        ensures
            r@ == Map::<Seq<char>, M>::empty(),
    {
        let r = MgrMap { entries: Vec::new() };
        proof {
            assert(keys_of(r.entries@) =~= Seq::<Seq<char>>::empty());
            assert(map_of(r.entries@) =~= Map::<Seq<char>, M>::empty());
        }
        r
    }

    fn find(&self, key: &str) -> (r: Option<usize>)
        ensures
            match r {
                Some(i) => i < self.entries@.len() && self.entries@[i as int].0@ == key@,
                None => !self@.contains_key(key@),
            },
    {
        let target = String::from_str(key);
        let mut i: usize = 0;
        while i < self.entries.len()
            invariant
                i <= self.entries@.len(),
                target@ == key@,
                forall|j: int| 0 <= j < i ==> (#[trigger] self.entries@[j]).0@ != key@,
            decreases self.entries.len() - i,
        {
            if self.entries[i].0 == target {
                return Some(i);
            }
            i += 1;
        }
        None
    }

    /// Whether a manager of `key` runs.
    pub fn contains(&self, key: &str) -> (r: bool)
        ensures
            r == self@.contains_key(key@),
    {
        proof {
            use_type_invariant(self);
        }
        match self.find(key) {
            Some(i) => {
                proof {
                    lemma_at(self.entries@, i as int);
                }
                true
            },
            None => false,
        }
    }

    /// The manager of `key`, if it runs.
    pub fn get(&self, key: &str) -> (r: Option<&M>)
        ensures
            match r {
                Some(m) => self@.contains_key(key@) && *m == self@[key@],
                None => !self@.contains_key(key@),
            },
    {
        proof {
            use_type_invariant(self);
        }
        match self.find(key) {
            Some(i) => {
                proof {
                    lemma_at(self.entries@, i as int);
                }
                Some(&self.entries[i].1)
            },
            None => None,
        }
    }

    /// Removes the manager of `key`, and gives it back (to be closed), if it ran.
    pub fn remove(&mut self, key: &str) -> (r: Option<M>)
        ensures
            final(self)@ == old(self)@.remove(key@),
            match r {
                Some(m) => old(self)@.contains_key(key@) && m == old(self)@[key@],
                None => !old(self)@.contains_key(key@),
            },
    {
        proof {
            use_type_invariant(&*self);
        }
        match self.find(key) {
            None => {
                proof {
                    assert(self@ =~= self@.remove(key@));
                }
                None
            },
            Some(i) => {
                let ghost s = self.entries@;
                proof {
                    lemma_at(s, i as int);
                    lemma_remove_at(s, i as int);
                }
                let mut entries = Vec::new();
                std::mem::swap(&mut entries, &mut self.entries);
                let e = entries.remove(i);
                self.entries = entries;
                Some(e.1)
            },
        }
    }

    /// Runs the manager `m` under `key`, and gives back the one it replaces (to be closed), if
    /// any.
    pub fn insert(&mut self, key: String, m: M) -> (r: Option<M>)
        ensures
            final(self)@ == old(self)@.insert(key@, m),
            match r {
                Some(o) => old(self)@.contains_key(key@) && o == old(self)@[key@],
                None => !old(self)@.contains_key(key@),
            },
    {
        let old_mgr = self.remove(key.as_str());
        proof {
            use_type_invariant(&*self);
            lemma_push_new(self.entries@, key, m);
        }
        let mut entries = Vec::new();
        std::mem::swap(&mut entries, &mut self.entries);
        entries.push((key, m));
        self.entries = entries;
        proof {
            assert(old(self)@.remove(key@).insert(key@, m) =~= old(self)@.insert(key@, m));
        }
        old_mgr
    }
}

/// A control message about the managers: a manager of the unit `unit_code` with the code
/// `name` was created (as `mgr`), the manager of `key` is to go, or a message that leaves
/// the managers as they are.
#[derive(Debug)]
pub enum MgrCtrlMsg<M> {
    AddManager { unit_code: String, name: String, mgr: M },
    DelManager { key: String },
    Other,
}

/// Keeps the managers as a control message says: an added manager runs under the key of its
/// unit code and code (see [`mgr_key`]), in place of the one before it, and a deleted one
/// stops. The manager that stops, if any, is given back to be closed.
pub fn on_mgr_ctrl<M>(mgrs: &mut MgrMap<M>, msg: MgrCtrlMsg<M>) -> (closed: Option<M>)
    ensures
        match msg {
            MgrCtrlMsg::AddManager { unit_code, name, mgr } => {
                let k = mgr_key(unit_code@, name@);
                &&& final(mgrs)@ == old(mgrs)@.insert(k, mgr)
                &&& closed == (if old(mgrs)@.contains_key(k) {
                    Some(old(mgrs)@[k])
                } else {
                    None
                })
            },
            MgrCtrlMsg::DelManager { key } => {
                &&& final(mgrs)@ == old(mgrs)@.remove(key@)
                &&& closed == (if old(mgrs)@.contains_key(key@) {
                    Some(old(mgrs)@[key@])
                } else {
                    None
                })
            },
            MgrCtrlMsg::Other => final(mgrs)@ == old(mgrs)@ && closed is None,
        },
{
    match msg {
        MgrCtrlMsg::AddManager { unit_code, name, mgr } => {
            let key = gen_mgr_key(unit_code.as_str(), name.as_str());
            mgrs.insert(key, mgr)
        },
        MgrCtrlMsg::DelManager { key } => mgrs.remove(key.as_str()),
        MgrCtrlMsg::Other => None,
    }
}

} // verus!
