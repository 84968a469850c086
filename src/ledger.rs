//! The keyed store: the protocol parameters and one position per owner.
use vstd::prelude::*;
use crate::types::{DepositState, Pubkey, State};

verus! {

/// No two records of `s` belong to the same owner.
pub open spec fn owners_unique(s: Seq<DepositState>) -> bool {
    forall|i: int, j: int|
        0 <= i < s.len() && 0 <= j < s.len() && i != j ==> #[trigger] s[i].owner != #[trigger] s[j].owner
}

/// Some record of `s` belongs to `owner`.
pub open spec fn has_owner(s: Seq<DepositState>, owner: Pubkey) -> bool {
    exists|i: int| 0 <= i < s.len() && #[trigger] s[i].owner == owner
}

/// The records of `s`, keyed by their owners.
pub open spec fn keyed(s: Seq<DepositState>) -> Map<Pubkey, DepositState> {
    Map::new(
        |k: Pubkey| has_owner(s, k),
        |k: Pubkey| s[choose|i: int| 0 <= i < s.len() && #[trigger] s[i].owner == k],
    )
}

proof fn lemma_keyed_at(s: Seq<DepositState>, j: int)
    requires
        owners_unique(s),
        0 <= j < s.len(),
    ensures
        keyed(s).contains_key(s[j].owner),
        keyed(s)[s[j].owner] == s[j],
{
    let k = s[j].owner;
    assert(has_owner(s, k));
    let i = choose|i: int| 0 <= i < s.len() && #[trigger] s[i].owner == k;
    assert(i == j);
}

proof fn lemma_keyed_owner(s: Seq<DepositState>, k: Pubkey)
    requires
        owners_unique(s),
        keyed(s).contains_key(k),
    ensures
        keyed(s)[k].owner == k,
{
    let j = choose|j: int| 0 <= j < s.len() && #[trigger] s[j].owner == k;
    lemma_keyed_at(s, j);
}

proof fn lemma_keyed_push(s: Seq<DepositState>, p: DepositState)
    requires
        owners_unique(s),
        !has_owner(s, p.owner),
    ensures
        owners_unique(s.push(p)),
        keyed(s.push(p)) == keyed(s).insert(p.owner, p),
{
    let t = s.push(p);
    assert(owners_unique(t));
    assert forall|k: Pubkey| has_owner(t, k) == (has_owner(s, k) || k == p.owner) by {
        if has_owner(s, k) {
            let j = choose|j: int| 0 <= j < s.len() && #[trigger] s[j].owner == k;
            assert(t[j].owner == k);
        }
        assert(t[s.len() as int].owner == p.owner);
    }
    assert forall|k: Pubkey| #[trigger] keyed(t).contains_key(k) implies keyed(t)[k] == keyed(s).insert(
        p.owner,
        p,
    )[k] by {
        let j = choose|j: int| 0 <= j < t.len() && #[trigger] t[j].owner == k;
        lemma_keyed_at(t, j);
        if j < s.len() {
            lemma_keyed_at(s, j);
        }
    }
    assert(keyed(t) =~= keyed(s).insert(p.owner, p));
}

/// The parameters, once set up, and the positions of their owners, in the
/// order in which they were opened.
pub struct Ledger {
    params: Option<State>,
    positions: Vec<DepositState>,
}

impl Ledger {
    /// The parameters, if they were set up.
    pub closed spec fn params_spec(&self) -> Option<State> {
        self.params
    }

    /// The live positions, keyed by owner.
    pub closed spec fn positions(&self) -> Map<Pubkey, DepositState> {
        keyed(self.positions@)
    }

    /// The stored records have distinct owners.
    pub closed spec fn records_unique(&self) -> bool {
        owners_unique(self.positions@)
    }

    /// Every position is stored under its own owner, an owner has at most
    /// one, and the parameters, once set up, are valid.
    pub open spec fn wf(&self) -> bool {
        &&& self.records_unique()
        &&& forall|k: Pubkey| #[trigger]
            self.positions().contains_key(k) ==> self.positions()[k].owner == k
        &&& match self.params_spec() {
            Some(s) => s.wf(),
            None => true,
        }
    }

    /// Both ledgers hold the same parameters and the same positions.
    pub open spec fn same_as(&self, other: &Ledger) -> bool {
        self.params_spec() == other.params_spec() && self.positions() == other.positions()
    }

    /// A ledger without parameters and without positions.
    pub fn new() -> (r: Ledger)
        ensures
            r.wf(),
            r.params_spec() is None,
            r.positions() == Map::<Pubkey, DepositState>::empty(),
    {
        let r = Ledger { params: None, positions: Vec::new() };
        assert(r.positions() =~= Map::<Pubkey, DepositState>::empty());
        r
    }

    /// Rebuilds a ledger from stored parameters and position records. Fails,
    /// with `None`, when the parameters are not valid or when two records
    /// belong to the same owner.
    pub fn restore(params: Option<State>, records: &Vec<DepositState>) -> (r: Option<Ledger>)
        ensures
            match r {
                Some(l) => l.wf() && l.params_spec() == params && l.positions() == keyed(records@)
                    && owners_unique(records@),
                None => !owners_unique(records@) || (params is Some && !params->0.wf()),
            },
    {
        if let Some(s) = params {
            if s.min_collat_ratio < crate::ratio::LOWEST_MIN_RATIO {
                return None;
            }
        }
        let mut l = Ledger { params, positions: Vec::new() };
        assert(l.positions@ =~= records@.subrange(0, 0));
        let mut i: usize = 0;
        while i < records.len()
            invariant
                i <= records@.len(),
                l.wf(),
                l.params_spec() == params,
                l.positions@ == records@.subrange(0, i as int),
            decreases records@.len() - i,
        {
            let p = records[i];
            let ghost pre = records@.subrange(0, i as int);
            if l.has(p.owner) {
                proof {
                    let j = choose|j: int| 0 <= j < pre.len() && #[trigger] pre[j].owner == p.owner;
                    assert(records@[j].owner == records@[i as int].owner);
                }
                return None;
            }
            l.positions.push(p);
            proof {
                lemma_keyed_push(pre, p);
                assert(records@.subrange(0, i + 1) =~= pre.push(p));
            }
            i = i + 1;
        }
        assert(records@.subrange(0, records@.len() as int) =~= records@);
        Some(l)
    }

    /// Reads the parameters.
    pub fn params(&self) -> (r: Option<State>)
        ensures
            r == self.params_spec(),
    {
        self.params
    }

    /// The index of the record of `owner`, if there is one.
    fn find(&self, owner: Pubkey) -> (r: Option<usize>)
        ensures
            match r {
                Some(i) => i < self.positions@.len() && self.positions@[i as int].owner == owner,
                None => !has_owner(self.positions@, owner),
            },
    {
        let mut i: usize = 0;
        while i < self.positions.len()
            invariant
                i <= self.positions@.len(),
                forall|j: int| 0 <= j < i ==> #[trigger] self.positions@[j].owner != owner,
            decreases self.positions@.len() - i,
        {
            if self.positions[i].owner == owner {
                return Some(i);
            }
            i = i + 1;
        }
        None
    }

    /// Whether `owner` has a position.
    fn has(&self, owner: Pubkey) -> (r: bool)
        ensures
            r == has_owner(self.positions@, owner),
    {
        self.find(owner).is_some()
    }

    /// Looks up the position of `owner`.
    pub fn position(&self, owner: Pubkey) -> (r: Option<DepositState>)
        requires
            self.wf(),
        ensures
            r == (if self.positions().contains_key(owner) {
                Some(self.positions()[owner])
            } else {
                None::<DepositState>
            }),
    {
        match self.find(owner) {
            Some(i) => {
                proof {
                    lemma_keyed_at(self.positions@, i as int);
                }
                Some(self.positions[i])
            },
            None => None,
        }
    }

    pub(crate) fn set_params(&mut self, s: State)
        ensures
            final(self).params_spec() == Some(s),
            final(self).positions() == old(self).positions(),
            final(self).records_unique() == old(self).records_unique(),
    {
        self.params = Some(s);
    }

    /// Stores `p` as the position of its owner, replacing any earlier one.
    pub(crate) fn store(&mut self, p: DepositState)
        requires
            old(self).wf(),
        ensures
            final(self).records_unique(),
            final(self).params_spec() == old(self).params_spec(),
            final(self).positions() == old(self).positions().insert(p.owner, p),
    {
        let ghost s = self.positions@;
        match self.find(p.owner) {
            Some(i) => {
                self.positions.set(i, p);
                proof {
                    let t = self.positions@;
                    assert(t == s.update(i as int, p));
                    assert(owners_unique(t));
                    assert forall|k: Pubkey| has_owner(t, k) == (has_owner(s, k) || k == p.owner) by {
                        if has_owner(s, k) {
                            let j = choose|j: int| 0 <= j < s.len() && #[trigger] s[j].owner == k;
                            assert(t[j].owner == k);
                        }
                        if has_owner(t, k) {
                            let j = choose|j: int| 0 <= j < t.len() && #[trigger] t[j].owner == k;
                            assert(s[j].owner == k);
                        }
                    }
                    assert forall|k: Pubkey| #[trigger] keyed(t).contains_key(k) implies keyed(t)[k]
                        == keyed(s).insert(p.owner, p)[k] by {
                        let j = choose|j: int| 0 <= j < t.len() && #[trigger] t[j].owner == k;
                        lemma_keyed_at(t, j);
                        if j != i {
                            lemma_keyed_at(s, j);
                        }
                    }
                    assert(keyed(t) =~= keyed(s).insert(p.owner, p));
                }
            },
            None => {
                self.positions.push(p);
                proof {
                    lemma_keyed_push(s, p);
                }
            },
        }
    }

    /// Removes the position of `owner`.
    pub(crate) fn discard(&mut self, owner: Pubkey)
        requires
            old(self).wf(),
        ensures
            final(self).records_unique(),
            final(self).params_spec() == old(self).params_spec(),
            final(self).positions() == old(self).positions().remove(owner),
    {
        let ghost s = self.positions@;
        match self.find(owner) {
            Some(i) => {
                let _ = self.positions.remove(i);
                proof {
                    let t = self.positions@;
                    assert(t == s.remove(i as int));
                    assert forall|j: int| 0 <= j < t.len() implies #[trigger] t[j] == (if j < i {
                        s[j]
                    } else {
                        s[j + 1]
                    }) by {}
                    assert(owners_unique(t)) by {
                        assert forall|a: int, b: int|
                            0 <= a < t.len() && 0 <= b < t.len() && a != b implies #[trigger] t[a].owner
                            != #[trigger] t[b].owner by {
                            let a2 = if a < i { a } else { a + 1 };
                            let b2 = if b < i { b } else { b + 1 };
                            assert(s[a2].owner != s[b2].owner);
                        }
                    }
                    assert forall|k: Pubkey| has_owner(t, k) == (has_owner(s, k) && k != owner) by {
                        if has_owner(s, k) && k != owner {
                            let j = choose|j: int| 0 <= j < s.len() && #[trigger] s[j].owner == k;
                            assert(j != i);
                            let j2 = if j < i { j } else { j - 1 };
                            assert(t[j2].owner == k);
                        }
                        if has_owner(t, k) {
                            let j = choose|j: int| 0 <= j < t.len() && #[trigger] t[j].owner == k;
                            let j2 = if j < i { j } else { j + 1 };
                            assert(s[j2].owner == k);
                            assert(j2 != i);
                        }
                    }
                    assert forall|k: Pubkey| #[trigger] keyed(t).contains_key(k) implies keyed(t)[k]
                        == keyed(s)[k] by {
                        let j = choose|j: int| 0 <= j < t.len() && #[trigger] t[j].owner == k;
                        let j2 = if j < i { j } else { j + 1 };
                        lemma_keyed_at(t, j);
                        lemma_keyed_at(s, j2);
                    }
                    assert(keyed(t) =~= keyed(s).remove(owner));
                }
            },
            None => {
                assert(keyed(s) =~= keyed(s).remove(owner));
            },
        }
    }
}

} // verus!
