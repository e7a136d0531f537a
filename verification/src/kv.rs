//! A string-keyed value store with last-write-wins semantics, viewed in
//! specifications as a `Map` from character sequences to values.
use crate::text::str_eq;
use vstd::prelude::*;

verus! {

/// String-keyed store; an `insert` for an existing key replaces the value
/// the way a map insertion does.
#[derive(Debug)]
pub struct KvList<V> {
    entries: Vec<(String, V)>,
}

/// The map denoted by an entry sequence: later entries win.
pub open spec fn map_of<V>(es: Seq<(String, V)>) -> Map<Seq<char>, V>
    decreases es.len(),
{
    if es.len() == 0 {
        Map::empty()
    } else {
        map_of(es.drop_last()).insert(es.last().0@, es.last().1)
    }
}

/// If no entry from position `i` on carries key `k`, the entries up to `i`
/// already decide `k`.
proof fn lemma_map_of_prefix<V>(es: Seq<(String, V)>, k: Seq<char>, i: int)
    requires
        0 <= i <= es.len(),
        forall|j: int| i <= j < es.len() ==> #[trigger] es[j].0@ != k,
    ensures
        map_of(es).contains_key(k) == map_of(es.subrange(0, i)).contains_key(k),
        map_of(es).contains_key(k) ==> map_of(es)[k] == map_of(es.subrange(0, i))[k],
    decreases es.len() - i,
{
    if i < es.len() {
        let pre = es.subrange(0, es.len() - 1);
        assert forall|j: int| i <= j < pre.len() implies #[trigger] pre[j].0@ != k by {
            assert(pre[j] == es[j]);
        }
        lemma_map_of_prefix(pre, k, i);
        assert(pre =~= es.drop_last());
        assert(es.drop_last().subrange(0, i) =~= es.subrange(0, i));
    } else {
        assert(es.subrange(0, es.len() as int) =~= es);
    }
}

impl<V> View for KvList<V> {
    type V = Map<Seq<char>, V>;

    closed spec fn view(&self) -> Map<Seq<char>, V> {
        map_of(self.entries@)
    }
}

impl<V> KvList<V> {
    /// An empty store.
    pub fn new() -> (r: Self)
        ensures
            r@ == Map::<Seq<char>, V>::empty(),
    {
        KvList { entries: Vec::new() }
    }

    /// Binds `k` to `v`, shadowing any earlier binding of `k`.
    pub fn insert(&mut self, k: String, v: V)
        ensures
            final(self)@ == old(self)@.insert(k@, v),
    {
        let ghost es0 = self.entries@;
        let ghost kv = (k, v);
        self.entries.push((k, v));
        proof {
            assert(self.entries@.drop_last() =~= es0);
        }
    }

    /// Looks the latest binding of `k` up.
    pub fn get(&self, k: &str) -> (r: Option<&V>)
        ensures
            match r {
                Some(v) => self@.contains_key(k@) && self@[k@] == *v,
                None => !self@.contains_key(k@),
            },
    {
        let mut i: usize = self.entries.len();
        while i > 0
            invariant
                i <= self.entries@.len(),
                forall|j: int| i <= j < self.entries@.len() ==> #[trigger] self.entries@[j].0@ != k@,
            decreases i,
        {
            i = i - 1;
            if str_eq(self.entries[i].0.as_str(), k) {
                proof {
                    lemma_map_of_prefix(self.entries@, k@, i + 1);
                    let pre = self.entries@.subrange(0, i + 1);
                    assert(pre.last() == self.entries@[i as int]);
                }
                return Some(&self.entries[i].1);
            }
        }
        proof {
            lemma_map_of_prefix(self.entries@, k@, 0);
            assert(self.entries@.subrange(0, 0) =~= Seq::<(String, V)>::empty());
        }
        None
    }

    /// Whether some binding of `k` is present.
    pub fn contains_key(&self, k: &str) -> (r: bool)
        ensures
            r == self@.contains_key(k@),
    {
        match self.get(k) {
            Some(_) => true,
            None => false,
        }
    }

    /// The underlying entries, latest binding of a key last.
    pub fn entries(&self) -> (r: &Vec<(String, V)>)
        ensures
            map_of(r@) == self@,
    {
        &self.entries
    }
}

impl KvList<String> {
    /// A copy of the store with the same bindings.
    pub fn duplicate(&self) -> (r: Self)
        ensures
            r@ == self@,
    {
        let mut es: Vec<(String, String)> = Vec::new();
        let n = self.entries.len();
        let mut i: usize = 0;
        while i < n
            invariant
                n == self.entries@.len(),
                i <= n,
                es@ =~= self.entries@.subrange(0, i as int),
            decreases n - i,
        {
            let k = self.entries[i].0.clone();
            let v = self.entries[i].1.clone();
            es.push((k, v));
            proof {
                assert(es@ =~= self.entries@.subrange(0, i + 1 as int));
            }
            i = i + 1;
        }
        proof {
            assert(self.entries@.subrange(0, n as int) =~= self.entries@);
        }
        KvList { entries: es }
    }
}

} // verus!
