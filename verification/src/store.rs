//! The store boundary: the outcome types every adapter reports through,
//! and an in-memory reference adapter with a `Map` view.
//!
//! A real deployment binds the routes to an external backend; the engine
//! only ever sees a read outcome or a write outcome, so any adapter that
//! reports through these types composes with the verified pipeline.

use vstd::prelude::*;

verus! {

/// What a read of the backing store reported: a value, a definite absence,
/// or an internal failure of the fetch or of decoding the stored value.
pub enum GetOutcome {
    Found(String),
    Absent,
    Failed,
}

/// The mathematical value of a [`GetOutcome`].
pub enum GetOutcomeV {
    Found(Seq<char>),
    Absent,
    Failed,
}

impl View for GetOutcome {
    type V = GetOutcomeV;

    open spec fn view(&self) -> GetOutcomeV {
        match self {
            GetOutcome::Found(v) => GetOutcomeV::Found(v@),
            GetOutcome::Absent => GetOutcomeV::Absent,
            GetOutcome::Failed => GetOutcomeV::Failed,
        }
    }
}

/// What a write to the backing store reported: acceptance, or a failure
/// with the backend's own message.
pub enum PutOutcome {
    Accepted,
    Failed(String),
}

/// The mathematical value of a [`PutOutcome`].
pub enum PutOutcomeV {
    Accepted,
    Failed(Seq<char>),
}

impl View for PutOutcome {
    type V = PutOutcomeV;

    open spec fn view(&self) -> PutOutcomeV {
        match self {
            PutOutcome::Accepted => PutOutcomeV::Accepted,
            PutOutcome::Failed(m) => PutOutcomeV::Failed(m@),
        }
    }
}

/// The map described by a sequence of bindings, the last binding of a key
/// winning.
pub open spec fn pairs_map(s: Seq<(String, String)>) -> Map<Seq<char>, Seq<char>>
    decreases s.len(),
{
    if s.len() == 0 {
        Map::<Seq<char>, Seq<char>>::empty()
    } else {
        pairs_map(s.drop_last()).insert(s.last().0@, s.last().1@)
    }
}

/// An in-memory key-value store. Its view is the map of its bindings,
/// written keys bound to the value written last.
pub struct MemStore {
    bindings: Vec<(String, String)>,
}

impl View for MemStore {
    type V = Map<Seq<char>, Seq<char>>;

    closed spec fn view(&self) -> Map<Seq<char>, Seq<char>> {
        pairs_map(self.bindings@)
    }
}

/// Bindings at or past position `i` are the ones that decide a key's fate:
/// where none of them binds `k`, the whole map agrees with the map of the
/// first `i` bindings on `k`.
proof fn lemma_pairs_map_untouched(s: Seq<(String, String)>, k: Seq<char>, i: int)
    requires
        0 <= i <= s.len(),
        forall|j: int| i <= j < s.len() ==> #[trigger] s[j].0@ != k,
    ensures
        pairs_map(s).contains_key(k) == pairs_map(s.take(i)).contains_key(k),
        pairs_map(s).contains_key(k) ==> pairs_map(s)[k] == pairs_map(s.take(i))[k],
    decreases s.len() - i,
{
    if i == s.len() {
        assert(s.take(i) =~= s);
    } else {
        lemma_pairs_map_untouched(s, k, i + 1);
        assert(s.take(i + 1).drop_last() =~= s.take(i));
        assert(s.take(i + 1).last() == s[i]);
        assert(pairs_map(s.take(i + 1)) == pairs_map(s.take(i)).insert(s[i].0@, s[i].1@));
    }
}

impl MemStore {
    /// An empty store.
    pub fn new() -> (r: MemStore)
        ensures
            r@ == Map::<Seq<char>, Seq<char>>::empty(),
    {
        let r = MemStore { bindings: Vec::new() };
        proof {
            assert(r.bindings@.len() == 0);
        }
        r
    }

    /// Looks a key up: the value written last for it, if any write bound it.
    pub fn get(&self, key: &String) -> (r: Option<String>)
        ensures
            match r {
                Some(v) => self@.contains_key(key@) && v@ == self@[key@],
                None => !self@.contains_key(key@),
            },
    {
        let n = self.bindings.len();
        let mut i: usize = n;
        while i > 0
            invariant
                i <= n,
                n == self.bindings@.len(),
                forall|j: int| i <= j < n ==> #[trigger] self.bindings@[j].0@ != key@,
            decreases i,
        {
            i = i - 1;
            if self.bindings[i].0 == *key {
                proof {
                    lemma_pairs_map_untouched(self.bindings@, key@, i + 1);
                    assert(self.bindings@.take(i + 1).drop_last() =~= self.bindings@.take(
                        i as int,
                    ));
                    assert(self.bindings@.take(i + 1).last() == self.bindings@[i as int]);
                }
                return Some(self.bindings[i].1.clone());
            }
        }
        proof {
            lemma_pairs_map_untouched(self.bindings@, key@, 0);
            assert(self.bindings@.take(0) =~= Seq::<(String, String)>::empty());
            assert(pairs_map(Seq::<(String, String)>::empty())
                =~= Map::<Seq<char>, Seq<char>>::empty());
        }
        None
    }

    /// Writes a key-value pair, overwriting any value the key had.
    pub fn put(&mut self, key: String, value: String)
        ensures
            final(self)@ == old(self)@.insert(key@, value@),
    {
        let ghost before = self.bindings@;
        self.bindings.push((key, value));
        proof {
            assert(self.bindings@.drop_last() =~= before);
        }
    }
}

} // verus!
