use crate::hash::sha256_hex;
use vstd::prelude::*;

verus! {

/// A swap as it is stored: the escrow terms and how far it has come.
#[derive(Clone, Debug, PartialEq, Eq)]
pub struct Swap {
    pub hashlock: String,
    pub timelock: u64,
    pub sender: String,
    pub receiver: String,
    pub denom: String,
    pub amount: u128,
    pub withdrawn: bool,
    pub refunded: bool,
    pub preimage: Option<String>,
}

/// The mathematical value of a [`Swap`].
pub struct SwapView {
    pub hashlock: Seq<char>,
    pub timelock: u64,
    pub sender: Seq<char>,
    pub receiver: Seq<char>,
    pub denom: Seq<char>,
    pub amount: u128,
    pub withdrawn: bool,
    pub refunded: bool,
    pub preimage: Option<Seq<char>>,
}

pub open spec fn opt_view(o: Option<String>) -> Option<Seq<char>> {
    match o {
        Some(s) => Some(s@),
        None => None,
    }
}

impl View for Swap {
    type V = SwapView;

    open spec fn view(&self) -> SwapView {
        SwapView {
            hashlock: self.hashlock@,
            timelock: self.timelock,
            sender: self.sender@,
            receiver: self.receiver@,
            denom: self.denom@,
            amount: self.amount,
            withdrawn: self.withdrawn,
            refunded: self.refunded,
            preimage: opt_view(self.preimage),
        }
    }
}

impl SwapView {
    /// Neither withdrawn nor refunded yet.
    pub open spec fn is_pending(self) -> bool {
        !self.withdrawn && !self.refunded
    }

    /// What holds of every stored swap: a positive amount, at most one
    /// terminal flag, and a preimage exactly when withdrawn, matching the
    /// hashlock.
    pub open spec fn wf(self) -> bool {
        &&& self.amount > 0
        &&& !(self.withdrawn && self.refunded)
        &&& (self.preimage is Some <==> self.withdrawn)
        &&& (self.preimage matches Some(p) ==> sha256_hex(p) == self.hashlock)
    }

    /// The same escrow terms (everything fixed at creation).
    pub open spec fn same_terms(self, o: SwapView) -> bool {
        &&& self.hashlock == o.hashlock
        &&& self.timelock == o.timelock
        &&& self.sender == o.sender
        &&& self.receiver == o.receiver
        &&& self.denom == o.denom
        &&& self.amount == o.amount
    }
}

impl Swap {
    /// A copy with the same value.
    pub fn duplicate(&self) -> (r: Swap)
        ensures
            r@ == self@,
    {
        let preimage = match &self.preimage {
            Some(p) => Some(p.clone()),
            None => None,
        };
        Swap {
            hashlock: self.hashlock.clone(),
            timelock: self.timelock,
            sender: self.sender.clone(),
            receiver: self.receiver.clone(),
            denom: self.denom.clone(),
            amount: self.amount,
            withdrawn: self.withdrawn,
            refunded: self.refunded,
            preimage,
        }
    }
}

/// The value stored under a key in a list of entries: the last entry with
/// that key wins.
pub open spec fn lookup<V>(s: Seq<(Seq<char>, V)>, k: Seq<char>) -> Option<V>
    decreases s.len(),
{
    if s.len() == 0 {
        None
    } else if s.last().0 == k {
        Some(s.last().1)
    } else {
        lookup(s.drop_last(), k)
    }
}

/// The map that a list of entries stands for.
pub open spec fn entries_map<V>(s: Seq<(Seq<char>, V)>) -> Map<Seq<char>, V> {
    Map::new(|k: Seq<char>| lookup(s, k) is Some, |k: Seq<char>| lookup(s, k)->0)
}

pub proof fn lemma_lookup_absent<V>(s: Seq<(Seq<char>, V)>, k: Seq<char>)
    requires
        forall|j: int| 0 <= j < s.len() ==> s[j].0 != k,
    ensures
        lookup(s, k) is None,
    decreases s.len(),
{
    if s.len() > 0 {
        lemma_lookup_absent(s.drop_last(), k);
    }
}

pub proof fn lemma_lookup_push<V>(s: Seq<(Seq<char>, V)>, k: Seq<char>, v: V, q: Seq<char>)
    ensures
        lookup(s.push((k, v)), q) == if q == k {
            Some(v)
        } else {
            lookup(s, q)
        },
{
    assert(s.push((k, v)).drop_last() =~= s);
}

/// Replacing the last entry with key `k` changes the value under `k` only.
pub proof fn lemma_lookup_update<V>(s: Seq<(Seq<char>, V)>, i: int, v: V, q: Seq<char>)
    requires
        0 <= i < s.len(),
        forall|j: int| i < j < s.len() ==> s[j].0 != s[i].0,
    ensures
        lookup(s.update(i, (s[i].0, v)), q) == if q == s[i].0 {
            Some(v)
        } else {
            lookup(s, q)
        },
        lookup(s, s[i].0) == Some(s[i].1),
    decreases s.len(),
{
    let t = s.update(i, (s[i].0, v));
    if i == s.len() - 1 {
        assert(t.drop_last() =~= s.drop_last());
    } else {
        assert(t.drop_last() =~= s.drop_last().update(i, (s[i].0, v)));
        lemma_lookup_update(s.drop_last(), i, v, q);
    }
}

/// The store's mathematical value: swaps by identifier, and each address's
/// list of swap identifiers.
pub struct StoreView {
    pub swaps: Map<Seq<char>, SwapView>,
    pub user_swaps: Map<Seq<char>, Seq<Seq<char>>>,
}

/// The identifiers listed for an address; empty where none are.
pub open spec fn user_list(m: Map<Seq<char>, Seq<Seq<char>>>, a: Seq<char>) -> Seq<Seq<char>> {
    if m.contains_key(a) {
        m[a]
    } else {
        Seq::empty()
    }
}

/// The index after appending `id` to the list of `a`.
pub open spec fn add_user_swap(
    m: Map<Seq<char>, Seq<Seq<char>>>,
    a: Seq<char>,
    id: Seq<char>,
) -> Map<Seq<char>, Seq<Seq<char>>> {
    m.insert(a, user_list(m, a).push(id))
}

impl StoreView {
    /// Every stored swap is well formed, and every identifier in the index
    /// names a stored swap.
    pub open spec fn wf(self) -> bool {
        &&& forall|k: Seq<char>| #[trigger] self.swaps.contains_key(k) ==> self.swaps[k].wf()
        &&& forall|a: Seq<char>, i: int|
            self.user_swaps.contains_key(a) && 0 <= i < self.user_swaps[a].len()
                ==> self.swaps.contains_key(#[trigger] self.user_swaps[a][i])
    }
}

/// An entry of the index after an append is the appended identifier or an
/// entry that was there before.
pub proof fn lemma_add_user_swap_entry(
    m: Map<Seq<char>, Seq<Seq<char>>>,
    a: Seq<char>,
    id: Seq<char>,
    b: Seq<char>,
    i: int,
)
    requires
        add_user_swap(m, a, id).contains_key(b),
        0 <= i < add_user_swap(m, a, id)[b].len(),
    ensures
        add_user_swap(m, a, id)[b][i] == id || (m.contains_key(b) && 0 <= i < m[b].len()
            && add_user_swap(m, a, id)[b][i] == m[b][i]),
{
}

pub open spec fn ids_view(v: Seq<String>) -> Seq<Seq<char>> {
    v.map_values(|s: String| s@)
}

pub open spec fn swap_entries(v: Seq<(String, Swap)>) -> Seq<(Seq<char>, SwapView)> {
    v.map_values(|e: (String, Swap)| (e.0@, e.1@))
}

pub open spec fn user_entries(v: Seq<(String, Vec<String>)>) -> Seq<(Seq<char>, Seq<Seq<char>>)> {
    v.map_values(|e: (String, Vec<String>)| (e.0@, ids_view(e.1@)))
}

/// The persistent state: the swap records and the per-address index.
#[derive(Clone, Debug)]
pub struct SwapStore {
    swaps: Vec<(String, Swap)>,
    user_swaps: Vec<(String, Vec<String>)>,
}

impl View for SwapStore {
    type V = StoreView;

    closed spec fn view(&self) -> StoreView {
        StoreView {
            swaps: entries_map(swap_entries(self.swaps@)),
            user_swaps: entries_map(user_entries(self.user_swaps@)),
        }
    }
}

fn copy_ids(v: &Vec<String>) -> (r: Vec<String>)
    ensures
        ids_view(r@) == ids_view(v@),
{
    let mut r: Vec<String> = Vec::new();
    let mut i: usize = 0;
    while i < v.len()
        invariant
            i <= v.len(),
            r@.len() == i,
            forall|j: int| 0 <= j < i ==> r@[j]@ == v@[j]@,
        decreases v.len() - i,
    {
        r.push(v[i].clone());
        i = i + 1;
    }
    assert(ids_view(r@) =~= ids_view(v@));
    r
}

impl SwapStore {
    /// An empty store.
    pub fn new() -> (r: SwapStore)
        ensures
            r@.swaps == Map::<Seq<char>, SwapView>::empty(),
            r@.user_swaps == Map::<Seq<char>, Seq<Seq<char>>>::empty(),
    {
        let r = SwapStore { swaps: Vec::new(), user_swaps: Vec::new() };
        proof {
            assert(r@.swaps =~= Map::<Seq<char>, SwapView>::empty());
            assert(r@.user_swaps =~= Map::<Seq<char>, Seq<Seq<char>>>::empty());
        }
        r
    }

    fn find_swap(&self, id: &String) -> (r: Option<usize>)
        ensures
            match r {
                Some(i) => i < self.swaps@.len() && self.swaps@[i as int].0@ == id@ && forall|j: int|
                    i < j < self.swaps@.len() ==> self.swaps@[j].0@ != id@,
                None => forall|j: int| 0 <= j < self.swaps@.len() ==> self.swaps@[j].0@ != id@,
            },
    {
        let mut i: usize = self.swaps.len();
        while i > 0
            invariant
                i <= self.swaps@.len(),
                forall|j: int| i <= j < self.swaps@.len() ==> self.swaps@[j].0@ != id@,
            decreases i,
        {
            if self.swaps[i - 1].0 == *id {
                return Some(i - 1);
            }
            i = i - 1;
        }
        None
    }

    fn find_user(&self, a: &String) -> (r: Option<usize>)
        ensures
            match r {
                Some(i) => i < self.user_swaps@.len() && self.user_swaps@[i as int].0@ == a@
                    && forall|j: int|
                    i < j < self.user_swaps@.len() ==> self.user_swaps@[j].0@ != a@,
                None => forall|j: int|
                    0 <= j < self.user_swaps@.len() ==> self.user_swaps@[j].0@ != a@,
            },
    {
        let mut i: usize = self.user_swaps.len();
        while i > 0
            invariant
                i <= self.user_swaps@.len(),
                forall|j: int| i <= j < self.user_swaps@.len() ==> self.user_swaps@[j].0@ != a@,
            decreases i,
        {
            if self.user_swaps[i - 1].0 == *a {
                return Some(i - 1);
            }
            i = i - 1;
        }
        None
    }

    /// Whether a swap is stored under `id`.
    pub fn has(&self, id: &String) -> (r: bool)
        ensures
            r == self@.swaps.contains_key(id@),
    {
        let found = self.find_swap(id);
        proof {
            let s = swap_entries(self.swaps@);
            match found {
                Some(i) => {
                    lemma_lookup_update(s, i as int, s[i as int].1, id@);
                },
                None => {
                    lemma_lookup_absent(s, id@);
                },
            }
        }
        found.is_some()
    }

    /// The swap stored under `id`, if any.
    pub fn get(&self, id: &String) -> (r: Option<Swap>)
        ensures
            match r {
                Some(s) => self@.swaps.contains_key(id@) && s@ == self@.swaps[id@],
                None => !self@.swaps.contains_key(id@),
            },
    {
        let found = self.find_swap(id);
        let s = Ghost(swap_entries(self.swaps@));
        match found {
            Some(i) => {
                proof {
                    lemma_lookup_update(s@, i as int, s@[i as int].1, id@);
                }
                Some(self.swaps[i].1.duplicate())
            },
            None => {
                proof {
                    lemma_lookup_absent(s@, id@);
                }
                None
            },
        }
    }

    /// Stores `swap` under `id`, replacing what was there.
    pub fn put(&mut self, id: String, swap: Swap)
        ensures
            final(self)@.swaps == old(self)@.swaps.insert(id@, swap@),
            final(self)@.user_swaps == old(self)@.user_swaps,
    {
        let found = self.find_swap(&id);
        let ghost s = swap_entries(self.swaps@);
        let ghost kv = id@;
        let ghost sv = swap@;
        match found {
            Some(i) => {
                self.swaps.set(i, (id, swap));
                proof {
                    assert(swap_entries(self.swaps@) =~= s.update(i as int, (s[i as int].0, sv)));
                    assert forall|q: Seq<char>| lookup(swap_entries(self.swaps@), q) == if q == kv {
                        Some(sv)
                    } else {
                        lookup(s, q)
                    } by {
                        lemma_lookup_update(s, i as int, sv, q);
                    }
                }
            },
            None => {
                self.swaps.push((id, swap));
                proof {
                    assert(swap_entries(self.swaps@) =~= s.push((kv, sv)));
                    assert forall|q: Seq<char>| lookup(swap_entries(self.swaps@), q) == if q == kv {
                        Some(sv)
                    } else {
                        lookup(s, q)
                    } by {
                        lemma_lookup_push(s, kv, sv, q);
                    }
                }
            },
        }
        proof {
            assert(self@.swaps =~= old(self)@.swaps.insert(kv, sv));
        }
    }

    /// The identifiers listed for address `a`; empty where there are none.
    pub fn user_swaps(&self, a: &String) -> (r: Vec<String>)
        ensures
            ids_view(r@) == user_list(self@.user_swaps, a@),
    {
        let found = self.find_user(a);
        let ghost s = user_entries(self.user_swaps@);
        match found {
            Some(i) => {
                proof {
                    lemma_lookup_update(s, i as int, s[i as int].1, a@);
                }
                copy_ids(&self.user_swaps[i].1)
            },
            None => {
                proof {
                    lemma_lookup_absent(s, a@);
                }
                let r: Vec<String> = Vec::new();
                assert(ids_view(r@) =~= Seq::<Seq<char>>::empty());
                r
            },
        }
    }

    /// Appends `id` to the list of address `a`.
    pub fn push_user_swap(&mut self, a: &String, id: &String)
        ensures
            final(self)@.user_swaps == add_user_swap(old(self)@.user_swaps, a@, id@),
            final(self)@.swaps == old(self)@.swaps,
    {
        let mut list = self.user_swaps(a);
        list.push(id.clone());
        let ghost s = user_entries(self.user_swaps@);
        let ghost kv = a@;
        let ghost lv = ids_view(list@);
        proof {
            assert(lv =~= user_list(self@.user_swaps, a@).push(id@));
        }
        let found = self.find_user(a);
        match found {
            Some(i) => {
                self.user_swaps.set(i, (a.clone(), list));
                proof {
                    assert(user_entries(self.user_swaps@) =~= s.update(i as int, (s[i as int].0, lv)));
                    assert forall|q: Seq<char>| lookup(user_entries(self.user_swaps@), q) == if q == kv {
                        Some(lv)
                    } else {
                        lookup(s, q)
                    } by {
                        lemma_lookup_update(s, i as int, lv, q);
                    }
                }
            },
            None => {
                self.user_swaps.push((a.clone(), list));
                proof {
                    assert(user_entries(self.user_swaps@) =~= s.push((kv, lv)));
                    assert forall|q: Seq<char>| lookup(user_entries(self.user_swaps@), q) == if q == kv {
                        Some(lv)
                    } else {
                        lookup(s, q)
                    } by {
                        lemma_lookup_push(s, kv, lv, q);
                    }
                }
            },
        }
        proof {
            assert(self@.user_swaps =~= add_user_swap(old(self)@.user_swaps, kv, id@));
        }
    }
}

} // verus!
