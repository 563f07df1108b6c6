use vstd::prelude::*;

verus! {

/// The balance credited to `addr` in `m`: an account with no entry holds zero.
pub open spec fn amount_of(m: Map<Seq<char>, u128>, addr: Seq<char>) -> u128 {
    if m.contains_key(addr) {
        m[addr]
    } else {
        0
    }
}

/// One account's credited balance.
pub struct BalanceEntry {
    pub address: String,
    pub amount: u128,
}

/// The balance map: one entry per account, keyed by address.
pub struct Balances {
    entries: Vec<BalanceEntry>,
}

impl Balances {
    /// Each address has at most one entry.
    pub closed spec fn wf(&self) -> bool {
        forall|i: int, j: int|
            0 <= i < j < self.entries@.len() ==> self.entries@[i].address@
                != self.entries@[j].address@
    }

    pub closed spec fn has_key(&self, k: Seq<char>) -> bool {
        exists|i: int| 0 <= i < self.entries@.len() && self.entries@[i].address@ == k
    }

    pub closed spec fn view(&self) -> Map<Seq<char>, u128> {
        Map::new(
            |k: Seq<char>| self.has_key(k),
            |k: Seq<char>|
                self.entries@[choose|i: int|
                    0 <= i < self.entries@.len() && self.entries@[i].address@ == k].amount,
        )
    }

    proof fn lemma_entry(&self, i: int)
        requires
            self.wf(),
            0 <= i < self.entries@.len(),
        ensures
            self@.contains_key(self.entries@[i].address@),
            self@[self.entries@[i].address@] == self.entries@[i].amount,
    {
        let k = self.entries@[i].address@;
        assert(self.has_key(k));
        let j = choose|j: int| 0 <= j < self.entries@.len() && self.entries@[j].address@ == k;
        assert(j == i);
    }

    /// An empty map.
    pub fn new() -> (r: Self)
        ensures
            r.wf(),
            r@ == Map::<Seq<char>, u128>::empty(),
    {
        let r = Balances { entries: Vec::new() };
        assert(r@ =~= Map::<Seq<char>, u128>::empty());
        r
    }

    /// Position of the entry of `addr`, if there is one.
    fn find(&self, addr: &String) -> (r: Option<usize>)
        requires
            self.wf(),
        ensures
            match r {
                Some(i) => i < self.entries@.len() && self.entries@[i as int].address@ == addr@,
                None => !self@.contains_key(addr@),
            },
    {
        let mut i: usize = 0;
        while i < self.entries.len()
            invariant
                i <= self.entries@.len(),
                forall|j: int| 0 <= j < i ==> self.entries@[j].address@ != addr@,
            decreases self.entries@.len() - i,
        {
            if self.entries[i].address == *addr {
                return Some(i);
            }
            i = i + 1;
        }
        None
    }

    /// The balance of `addr`.
    pub fn get(&self, addr: &String) -> (r: u128)
        requires
            self.wf(),
        ensures
            r == amount_of(self@, addr@),
    {
        match self.find(addr) {
            Some(i) => {
                proof {
                    self.lemma_entry(i as int);
                }
                self.entries[i].amount
            },
            None => 0,
        }
    }

    /// Sets the balance of `addr` to `amount`.
    pub fn set(&mut self, addr: &String, amount: u128)
        requires
            old(self).wf(),
        ensures
            final(self).wf(),
            final(self)@ == old(self)@.insert(addr@, amount),
    {
        let ghost pre = *self;
        match self.find(addr) {
            Some(i) => {
                let a = self.entries[i].address.clone();
                self.entries.set(i, BalanceEntry { address: a, amount });
                proof {
                    assert forall|k: Seq<char>| #[trigger]
                        self.has_key(k) == pre@.insert(addr@, amount).contains_key(k) by {
                        if pre.has_key(k) {
                            let j = choose|j: int|
                                0 <= j < pre.entries@.len() && pre.entries@[j].address@ == k;
                            assert(self.entries@[j].address@ == k);
                        }
                        if self.has_key(k) {
                            let j = choose|j: int|
                                0 <= j < self.entries@.len() && self.entries@[j].address@ == k;
                            assert(pre.entries@[j].address@ == k);
                        }
                    }
                    assert forall|k: Seq<char>| #[trigger]
                        self@.contains_key(k) implies self@[k] == pre@.insert(
                        addr@,
                        amount,
                    )[k] by {
                        let j = choose|j: int|
                            0 <= j < self.entries@.len() && self.entries@[j].address@ == k;
                        self.lemma_entry(j);
                        if j != i {
                            pre.lemma_entry(j);
                        }
                    }
                    assert(self@ =~= pre@.insert(addr@, amount));
                }
            },
            None => {
                self.entries.push(BalanceEntry { address: addr.clone(), amount });
                proof {
                    let n = pre.entries@.len() as int;
                    assert(self.entries@[n].address@ == addr@);
                    assert forall|k: Seq<char>| #[trigger]
                        self.has_key(k) == pre@.insert(addr@, amount).contains_key(k) by {
                        if pre.has_key(k) {
                            let j = choose|j: int|
                                0 <= j < pre.entries@.len() && pre.entries@[j].address@ == k;
                            assert(self.entries@[j].address@ == k);
                        }
                        if self.has_key(k) && k != addr@ {
                            let j = choose|j: int|
                                0 <= j < self.entries@.len() && self.entries@[j].address@ == k;
                            assert(pre.entries@[j].address@ == k);
                            assert(pre.has_key(k));
                        }
                    }
                    assert forall|k: Seq<char>| #[trigger]
                        self@.contains_key(k) implies self@[k] == pre@.insert(
                        addr@,
                        amount,
                    )[k] by {
                        let j = choose|j: int|
                            0 <= j < self.entries@.len() && self.entries@[j].address@ == k;
                        self.lemma_entry(j);
                        if j != n {
                            pre.lemma_entry(j);
                        }
                    }
                    assert(self@ =~= pre@.insert(addr@, amount));
                }
            },
        }
    }

    /// A copy of the map.
    pub fn duplicate(&self) -> (r: Self)
        requires
            self.wf(),
        ensures
            r.wf(),
            r@ == self@,
    {
        let mut entries: Vec<BalanceEntry> = Vec::new();
        let mut i: usize = 0;
        while i < self.entries.len()
            invariant
                i <= self.entries@.len(),
                entries@.len() == i,
                forall|j: int|
                    0 <= j < i ==> #[trigger] entries@[j].address@ == self.entries@[j].address@
                        && entries@[j].amount == self.entries@[j].amount,
            decreases self.entries@.len() - i,
        {
            entries.push(
                BalanceEntry {
                    address: self.entries[i].address.clone(),
                    amount: self.entries[i].amount,
                },
            );
            i = i + 1;
        }
        let r = Balances { entries };
        proof {
            assert forall|k: Seq<char>| #[trigger] r.has_key(k) == self.has_key(k) by {
                if r.has_key(k) {
                    let j = choose|j: int| 0 <= j < r.entries@.len() && r.entries@[j].address@ == k;
                    assert(self.entries@[j].address@ == k);
                }
                if self.has_key(k) {
                    let j = choose|j: int|
                        0 <= j < self.entries@.len() && self.entries@[j].address@ == k;
                    assert(r.entries@[j].address@ == k);
                }
            }
            assert forall|k: Seq<char>| #[trigger] r@.contains_key(k) implies r@[k] == self@[k] by {
                let j = choose|j: int| 0 <= j < r.entries@.len() && r.entries@[j].address@ == k;
                r.lemma_entry(j);
                self.lemma_entry(j);
            }
            assert(r@ =~= self@);
        }
        r
    }
}

} // verus!
