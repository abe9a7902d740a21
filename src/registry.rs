use vstd::prelude::*;

verus! {

/// `s` with every occurrence of `id` taken out, the rest in order.
pub open spec fn without(s: Seq<u64>, id: u64) -> Seq<u64>
    decreases s.len(),
{
    if s.len() == 0 {
        s
    } else if s.last() == id {
        without(s.drop_last(), id)
    } else {
        without(s.drop_last(), id).push(s.last())
    }
}

/// What is left of `s` without `id` holds exactly the other entries of `s`.
pub proof fn lemma_without_contains(s: Seq<u64>, id: u64, x: u64)
    ensures
        without(s, id).contains(x) <==> (s.contains(x) && x != id),
    decreases s.len(),
{
    if s.len() > 0 {
        lemma_without_contains(s.drop_last(), id, x);
        let d = s.drop_last();
        if s.contains(x) {
            let k = choose|k: int| 0 <= k < s.len() && s[k] == x;
            if k < s.len() - 1 {
                assert(d[k] == x);
            }
        }
        if d.contains(x) {
            let k = choose|k: int| 0 <= k < d.len() && d[k] == x;
            assert(s[k] == x);
        }
        if s.last() != id {
            let w = without(d, id);
            assert(w.push(s.last())[w.len() as int] == s.last());
            if w.contains(x) {
                let k = choose|k: int| 0 <= k < w.len() && w[k] == x;
                assert(w.push(s.last())[k] == x);
            }
            if w.push(s.last()).contains(x) && x != s.last() {
                let k = choose|k: int| 0 <= k < w.len() + 1 && w.push(s.last())[k] == x;
                assert(w[k] == x);
            }
        }
    }
}

/// Taking `id` out of a sequence without repeats leaves one without repeats.
pub proof fn lemma_without_no_duplicates(s: Seq<u64>, id: u64)
    requires
        s.no_duplicates(),
    ensures
        without(s, id).no_duplicates(),
    decreases s.len(),
{
    if s.len() > 0 {
        let d = s.drop_last();
        assert(d.no_duplicates());
        lemma_without_no_duplicates(d, id);
        if s.last() != id {
            lemma_without_contains(d, id, s.last());
            if d.contains(s.last()) {
                let k = choose|k: int| 0 <= k < d.len() && d[k] == s.last();
                assert(s[k] == s[s.len() - 1]);
            }
            let w = without(d, id);
            assert forall|a: int, b: int|
                0 <= a < w.len() + 1 && 0 <= b < w.len() + 1 && a != b implies
                #[trigger] w.push(s.last())[a] != #[trigger] w.push(s.last())[b] by {
                if a == w.len() {
                    assert(w.contains(w[b]));
                } else if b == w.len() {
                    assert(w.contains(w[a]));
                }
            }
        }
    }
}

/// The connections that are currently served, in the order they were accepted.
pub struct Registry {
    entries: Vec<u64>,
}

impl View for Registry {
    type V = Seq<u64>;

    closed spec fn view(&self) -> Seq<u64> {
        self.entries@
    }
}

impl Registry {
    /// An empty registry.
    pub fn new() -> (r: Registry)
        ensures
            r@ == Seq::<u64>::empty(),
    {
        Registry { entries: Vec::new() }
    }

    /// Appends the connection `id`.
    pub fn insert(&mut self, id: u64)
        ensures
            final(self)@ == old(self)@.push(id),
    {
        self.entries.push(id);
    }

    /// Takes every entry for the connection `id` out, keeping the others in order.
    pub fn remove(&mut self, id: u64)
        ensures
            final(self)@ == without(old(self)@, id),
    {
        let mut kept: Vec<u64> = Vec::new();
        let mut i: usize = 0;
        while i < self.entries.len()
            invariant
                i <= self.entries@.len(),
                kept@ == without(self.entries@.take(i as int), id),
            decreases self.entries@.len() - i,
        {
            let e = self.entries[i];
            assert(self.entries@.take(i as int + 1).drop_last() == self.entries@.take(i as int));
            if e != id {
                kept.push(e);
            }
            i = i + 1;
        }
        assert(self.entries@.take(i as int) == self.entries@);
        self.entries = kept;
    }

    /// The registered connections, in order.
    pub fn entries(&self) -> (r: Vec<u64>)
        ensures
            r@ == self@,
    {
        self.entries.clone()
    }

    /// Whether the connection `id` is registered.
    pub fn contains(&self, id: u64) -> (r: bool)
        ensures
            r == self@.contains(id),
    {
        let mut i: usize = 0;
        while i < self.entries.len()
            invariant
                i <= self.entries@.len(),
                forall|k: int| 0 <= k < i ==> self.entries@[k] != id,
            decreases self.entries@.len() - i,
        {
            if self.entries[i] == id {
                return true;
            }
            i = i + 1;
        }
        false
    }
}

} // verus!
